//! The configuration registry: a key/value table seeded with defaults,
//! merged from loaded pairs, validated, and read through point lookups.

use vstd::prelude::*;
use vstd::hash_map::StringHashMap;
use vstd::string::StringExecFns;
use crate::errors::{ConfigError, INVALID_CONFIGURATION, SUCCESS};
use crate::validation::{config_valid, error_message, key_message, is_valid, lemma_error_message_empty};
use crate::loader::{load_config_pairs, path_is_file};

verus! {

/// The view of the backing table once each `String` value is taken to its
/// sequence of characters.
pub open spec fn table_view(t: Map<Seq<char>, String>) -> Map<Seq<char>, Seq<char>> {
    t.map_values(|v: String| v@)
}

/// `table_view` keeps the domain and maps each value through `@`.
pub proof fn lemma_table_view(t: Map<Seq<char>, String>)
    ensures
        table_view(t).dom() =~= t.dom(),
        forall|k: Seq<char>| #[trigger] t.dom().contains(k) ==> table_view(t)[k] == t[k]@,
{
}

/// Inserting into the table and taking the view commutes with inserting the
/// value's view.
pub proof fn lemma_table_view_insert(t: Map<Seq<char>, String>, k: Seq<char>, v: String)
    ensures
        table_view(t.insert(k, v)) =~= table_view(t).insert(k, v@),
{
    lemma_table_view(t);
    lemma_table_view(t.insert(k, v));
    assert(table_view(t.insert(k, v)) =~= table_view(t).insert(k, v@));
}

/// `m` with `v` stored under `k` only if `k` is not already present.
pub open spec fn with_default(
    m: Map<Seq<char>, Seq<char>>,
    k: Seq<char>,
    v: Seq<char>,
) -> Map<Seq<char>, Seq<char>> {
    if m.dom().contains(k) {
        m
    } else {
        m.insert(k, v)
    }
}

/// The table after seeding the five known keys with their default values.
pub open spec fn spec_set_defaults(m: Map<Seq<char>, Seq<char>>) -> Map<Seq<char>, Seq<char>> {
    with_default(
        with_default(
            with_default(
                with_default(
                    with_default(m, "pool_name"@, "pool1"@),
                    "config_name"@,
                    "config1"@,
                ),
                "wallet_name"@,
                "wallet1"@,
            ),
            "wallet_type"@,
            "default"@,
        ),
        "agent_endpoint"@,
        "http://127.0.0.1:8080"@,
    )
}

/// One of the five known configuration keys.
pub open spec fn known_key(k: Seq<char>) -> bool {
    ||| k == "pool_name"@
    ||| k == "config_name"@
    ||| k == "wallet_name"@
    ||| k == "wallet_type"@
    ||| k == "agent_endpoint"@
}

/// All five known keys are present in `m`.
pub open spec fn defaults_present(m: Map<Seq<char>, Seq<char>>) -> bool {
    &&& m.dom().contains("pool_name"@)
    &&& m.dom().contains("config_name"@)
    &&& m.dom().contains("wallet_name"@)
    &&& m.dom().contains("wallet_type"@)
    &&& m.dom().contains("agent_endpoint"@)
}

/// Seeding the defaults leaves every known key present.
pub proof fn lemma_set_defaults_present(m: Map<Seq<char>, Seq<char>>)
    ensures
        defaults_present(spec_set_defaults(m)),
{
}

/// `m` overlaid with `pairs` in order: a later pair with the same key wins,
/// keys absent from `pairs` keep their value from `m`.
pub open spec fn spec_merge(
    m: Map<Seq<char>, Seq<char>>,
    pairs: Seq<(Seq<char>, Seq<char>)>,
) -> Map<Seq<char>, Seq<char>>
    decreases pairs.len(),
{
    if pairs.len() == 0 {
        m
    } else {
        spec_merge(m, pairs.drop_last()).insert(pairs.last().0, pairs.last().1)
    }
}

/// The views of a vector of owned key/value pairs.
pub open spec fn pairs_view(ps: Seq<(String, String)>) -> Seq<(Seq<char>, Seq<char>)> {
    ps.map_values(|p: (String, String)| (p.0@, p.1@))
}

/// Merging never removes a key that was present before.
pub proof fn lemma_merge_preserves_keys(
    m: Map<Seq<char>, Seq<char>>,
    ps: Seq<(Seq<char>, Seq<char>)>,
    k: Seq<char>,
)
    requires
        m.dom().contains(k),
    ensures
        spec_merge(m, ps).dom().contains(k),
    decreases ps.len(),
{
    if ps.len() > 0 {
        lemma_merge_preserves_keys(m, ps.drop_last(), k);
    }
}

/// Merging leaves every known key that was present still present.
pub proof fn lemma_merge_preserves_defaults(
    m: Map<Seq<char>, Seq<char>>,
    ps: Seq<(Seq<char>, Seq<char>)>,
)
    requires
        defaults_present(m),
    ensures
        defaults_present(spec_merge(m, ps)),
{
    lemma_merge_preserves_keys(m, ps, "pool_name"@);
    lemma_merge_preserves_keys(m, ps, "config_name"@);
    lemma_merge_preserves_keys(m, ps, "wallet_name"@);
    lemma_merge_preserves_keys(m, ps, "wallet_type"@);
    lemma_merge_preserves_keys(m, ps, "agent_endpoint"@);
}

/// The key/value table of the configuration registry.
pub struct Registry {
    table: StringHashMap<String>,
}

impl View for Registry {
    type V = Map<Seq<char>, Seq<char>>;

    closed spec fn view(&self) -> Map<Seq<char>, Seq<char>> {
        table_view(self.table@)
    }
}

impl Registry {
    /// Creates an empty registry.
    pub fn new() -> (s: Self)
        ensures
            s@ == Map::<Seq<char>, Seq<char>>::empty(),
    {
        let s = Registry { table: StringHashMap::new() };
        proof {
            lemma_table_view(s.table@);
            assert(s@ =~= Map::<Seq<char>, Seq<char>>::empty());
        }
        s
    }

    /// Stores `value` under `key` only if `key` is not already present.
    fn set_default(&mut self, key: &str, value: &str)
        ensures
            final(self)@ == with_default(old(self)@, key@, value@),
    {
        proof {
            lemma_table_view(self.table@);
        }
        if !self.table.contains_key(key) {
            let ghost before = self.table@;
            self.table.insert(key.to_owned(), value.to_owned());
            proof {
                lemma_table_view_insert(before, key@, self.table@[key@]);
            }
        }
    }

    /// Seeds the five known keys with their default values, leaving any key
    /// already present untouched. Always succeeds.
    pub fn set_defaults(&mut self) -> (r: u32)
        ensures
            final(self)@ == spec_set_defaults(old(self)@),
            r == SUCCESS,
    {
        self.set_default("pool_name", "pool1");
        self.set_default("config_name", "config1");
        self.set_default("wallet_name", "wallet1");
        self.set_default("wallet_type", "default");
        self.set_default("agent_endpoint", "http://127.0.0.1:8080");
        SUCCESS
    }

    /// Overlays `pairs` onto the table in order, overwriting on collision.
    fn merge_pairs(&mut self, pairs: &Vec<(String, String)>)
        ensures
            final(self)@ == spec_merge(old(self)@, pairs_view(pairs@)),
    {
        let n: usize = pairs.len();
        for i in 0..n
            invariant
                n == pairs@.len(),
                self@ == spec_merge(old(self)@, pairs_view(pairs@).take(i as int)),
        {
            let ghost before = self.table@;
            let p = &pairs[i];
            self.table.insert(p.0.clone(), p.1.clone());
            proof {
                lemma_table_view_insert(before, p.0@, p.1);
                assert(pairs_view(pairs@).take(i as int + 1).drop_last() =~= pairs_view(pairs@).take(
                    i as int,
                ));
                assert(pairs_view(pairs@).take(i as int + 1).last() == (p.0@, p.1@));
            }
        }
        proof {
            assert(pairs_view(pairs@).take(n as int) =~= pairs_view(pairs@));
        }
    }

    /// Appends to `error` the fragment that `key` contributes to the
    /// combined validation message.
    fn append_key_error(&self, key: &str, error: &mut String)
        ensures
            final(error)@ == old(error)@ + key_message(self@, key@),
    {
        proof {
            lemma_table_view(self.table@);
        }
        match self.table.get(key) {
            Some(v) => {
                if !is_valid(v.as_str()) {
                    error.append(key);
                    error.append(" has invalid setting: ");
                    error.append(v.as_str());
                    proof {
                        assert(error@ =~= old(error)@ + key_message(self@, key@));
                    }
                } else {
                    proof {
                        assert(error@ =~= old(error)@ + key_message(self@, key@));
                    }
                }
            },
            None => {
                proof {
                    assert(error@ =~= old(error)@ + key_message(self@, key@));
                }
            },
        }
    }

    /// Checks every checked key of the current table against the
    /// character-class rule. Returns the success code when all pass, and
    /// otherwise the combined message naming each offending key and value.
    pub fn validate_config(&self) -> (r: Result<u32, String>)
        ensures
            r is Ok <==> config_valid(self@),
            r matches Ok(c) ==> c == SUCCESS,
            r matches Err(m) ==> m@ == error_message(self@),
    {
        let mut error = String::new();
        self.append_key_error("config_name", &mut error);
        self.append_key_error("pool_name", &mut error);
        self.append_key_error("wallet_name", &mut error);
        proof {
            assert(error@ =~= error_message(self@));
            lemma_error_message_empty(self@);
        }
        if error.as_str().is_empty() {
            Ok(SUCCESS)
        } else {
            Err(error)
        }
    }

    /// Overlays `pairs` onto the table, then validates the result. The merge
    /// stands even when validation fails.
    pub fn process_config_pairs(&mut self, pairs: &Vec<(String, String)>) -> (r: Result<
        u32,
        ConfigError,
    >)
        ensures
            final(self)@ == spec_merge(old(self)@, pairs_view(pairs@)),
            r is Ok <==> config_valid(final(self)@),
            r matches Ok(c) ==> c == SUCCESS,
            r matches Err(e) ==> (e matches ConfigError::InvalidConfigurationValue(m) && m@
                == error_message(final(self)@)),
    {
        self.merge_pairs(pairs);
        match self.validate_config() {
            Ok(c) => Ok(c),
            Err(m) => Err(ConfigError::InvalidConfigurationValue(m)),
        }
    }

    /// Loads the file at `path`, overlays its pairs onto the table, then
    /// validates the result. A missing or unparseable file leaves the table
    /// untouched; a validation failure leaves the merged table in place.
    pub fn process_config_file(&mut self, path: &str) -> (r: Result<u32, ConfigError>)
        ensures
            match r {
                Ok(c) => c == SUCCESS && config_valid(final(self)@) && exists|
                    ps: Seq<(Seq<char>, Seq<char>)>,
                |
                    final(self)@ == #[trigger] spec_merge(old(self)@, ps),
                Err(e) => match e {
                    ConfigError::ConfigurationFileNotFound => final(self)@ == old(self)@,
                    ConfigError::ConfigurationParseFailure => final(self)@ == old(self)@,
                    ConfigError::InvalidConfigurationValue(m) => !config_valid(final(self)@) && m@
                        == error_message(final(self)@) && exists|ps: Seq<(Seq<char>, Seq<char>)>|
                        final(self)@ == #[trigger] spec_merge(old(self)@, ps),
                },
            },
    {
        if !path_is_file(path) {
            Err(ConfigError::ConfigurationFileNotFound)
        } else {
            match load_config_pairs(path) {
                Err(_) => Err(ConfigError::ConfigurationParseFailure),
                Ok(pairs) => {
                    let r = self.process_config_pairs(&pairs);
                    proof {
                        assert(self@ == spec_merge(old(self)@, pairs_view(pairs@)));
                    }
                    r
                },
            }
        }
    }

    /// Looks up `key`. Returns its value when present, and the
    /// `INVALID_CONFIGURATION` code when absent.
    pub fn get_config_value(&self, key: &str) -> (r: Result<String, u32>)
        ensures
            self@.dom().contains(key@) ==> (r matches Ok(v) && v@ == self@[key@]),
            !self@.dom().contains(key@) ==> (r matches Err(e) && e == INVALID_CONFIGURATION),
    {
        proof {
            lemma_table_view(self.table@);
        }
        match self.table.get(key) {
            Some(v) => Ok(v.clone()),
            None => Err(INVALID_CONFIGURATION),
        }
    }
}

} // verus!

