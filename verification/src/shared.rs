//! The process-wide shared registry: the table behind a reader/writer lock,
//! allowing many concurrent readers or one exclusive writer.

use vstd::prelude::*;
use vstd::rwlock::{RwLock, RwLockPredicate};
use crate::errors::{ConfigError, INVALID_CONFIGURATION, SUCCESS};
use crate::registry::{
    defaults_present, known_key, lemma_merge_preserves_defaults, lemma_set_defaults_present,
    spec_merge, Registry,
};
use crate::validation::lemma_error_message_empty;

verus! {

/// The invariant on every table the lock ever holds: the five known keys are
/// present. Seeding establishes it, merging never removes a key, so every
/// reader finds the known keys in place.
pub struct DefaultsSeeded;

impl RwLockPredicate<Registry> for DefaultsSeeded {
    open spec fn inv(self, v: Registry) -> bool {
        defaults_present(v@)
    }
}

/// The configuration registry as one shared instance. The lock admits many
/// concurrent readers or one exclusive writer, never both, so a reader sees
/// either the table before a writer's merge or the table after it, never a
/// mix of the two.
pub struct SharedRegistry {
    lock: RwLock<Registry, DefaultsSeeded>,
}

impl SharedRegistry {
    #[verifier::type_invariant]
    spec fn wf(self) -> bool {
        self.lock.pred() == DefaultsSeeded
    }

    /// Creates the shared registry, seeded with the five default entries.
    pub fn new() -> SharedRegistry {
        let mut reg = Registry::new();
        reg.set_defaults();
        proof {
            lemma_set_defaults_present(Map::<Seq<char>, Seq<char>>::empty());
        }
        SharedRegistry { lock: RwLock::new(reg, Ghost(DefaultsSeeded)) }
    }

    /// Seeds the five known keys with their default values, leaving any key
    /// already present untouched. Always succeeds.
    pub fn set_defaults(&self) -> (r: u32)
        ensures
            r == SUCCESS,
    {
        proof {
            use_type_invariant(self);
        }
        let (mut reg, handle) = self.lock.acquire_write();
        let ghost before = reg@;
        let code = reg.set_defaults();
        proof {
            lemma_set_defaults_present(before);
        }
        handle.release_write(reg);
        code
    }

    /// Loads the file at `path` and merges it into the shared table under the
    /// write lock, then validates the result. A missing or unparseable file
    /// leaves the table untouched; a validation failure leaves the merged
    /// table in place and reports every offending key and value.
    pub fn process_config_file(&self, path: &str) -> (r: Result<u32, ConfigError>)
        ensures
            r matches Ok(c) ==> c == SUCCESS,
            r matches Err(e) ==> (e matches ConfigError::ConfigurationFileNotFound
                || e matches ConfigError::ConfigurationParseFailure || (e
                matches ConfigError::InvalidConfigurationValue(m) && m@.len() > 0)),
    {
        proof {
            use_type_invariant(self);
        }
        let (mut reg, handle) = self.lock.acquire_write();
        let ghost before = reg@;
        let r = reg.process_config_file(path);
        proof {
            match r {
                Ok(_) => {
                    let ps = choose|ps: Seq<(Seq<char>, Seq<char>)>|
                        reg@ == #[trigger] spec_merge(before, ps);
                    lemma_merge_preserves_defaults(before, ps);
                },
                Err(ConfigError::InvalidConfigurationValue(_)) => {
                    let ps = choose|ps: Seq<(Seq<char>, Seq<char>)>|
                        reg@ == #[trigger] spec_merge(before, ps);
                    lemma_merge_preserves_defaults(before, ps);
                    lemma_error_message_empty(reg@);
                },
                Err(ConfigError::ConfigurationFileNotFound) => {},
                Err(ConfigError::ConfigurationParseFailure) => {},
            }
        }
        handle.release_write(reg);
        r
    }

    /// Looks up `key` under the read lock. A known key is always found: every
    /// table the lock ever holds has the five known keys present. An absent
    /// key is reported with the `INVALID_CONFIGURATION` code.
    pub fn get_config_value(&self, key: &str) -> (r: Result<String, u32>)
        ensures
            known_key(key@) ==> r is Ok,
            r matches Ok(v) ==> exists|m: Map<Seq<char>, Seq<char>>|
                defaults_present(m) && #[trigger] m.dom().contains(key@) && v@ == m[key@],
            r matches Err(e) ==> e == INVALID_CONFIGURATION,
    {
        proof {
            use_type_invariant(self);
        }
        let handle = self.lock.acquire_read();
        let reg = handle.borrow();
        let r = reg.get_config_value(key);
        proof {
            let ghost snapshot = reg@;
            if snapshot.dom().contains(key@) {
                assert(defaults_present(snapshot) && snapshot.dom().contains(key@));
            }
        }
        handle.release_read();
        r
    }
}

} // verus!
