//! Runtime toggles and the fixed storage that backs them.

use vstd::prelude::*;
use vstd::string::StringExecFns;

verus! {

/// What the fixed storage answers for a boolean key: rewriting is enabled,
/// strict mode is off, every other key is unset.
pub open spec fn fixed_bool(key: Seq<char>) -> Option<bool> {
    if key == "global_enabled"@ {
        Some(true)
    } else if key == "http_nowhere_on"@ {
        Some(false)
    } else {
        None
    }
}

/// A read-only key-value storage with built-in answers. Writes are accepted
/// and have no effect.
#[derive(Clone, Copy, Debug, Default)]
pub struct FixedSettings;

impl FixedSettings {
    /// No integer is ever set.
    pub fn get_int(&self, _key: String) -> (r: Option<usize>)
        ensures
            r is None,
    {
        None
    }

    /// Accepted and dropped.
    pub fn set_int(&mut self, _key: String, _value: usize)
        ensures
            *final(self) == *old(self),
    {
    }

    /// No string is ever set.
    pub fn get_string(&self, _key: String) -> (r: Option<String>)
        ensures
            r is None,
    {
        None
    }

    /// Accepted and dropped.
    pub fn set_string(&mut self, _key: String, _value: String)
        ensures
            *final(self) == *old(self),
    {
    }

    /// The built-in answer for a boolean key.
    pub fn get_bool(&self, key: String) -> (r: Option<bool>)
        ensures
            r == fixed_bool(key@),
    {
        if key == String::from_str("global_enabled") {
            Some(true)
        } else if key == String::from_str("http_nowhere_on") {
            Some(false)
        } else {
            None
        }
    }

    /// Accepted and dropped.
    pub fn set_bool(&mut self, _key: String, _value: bool)
        ensures
            *final(self) == *old(self),
    {
    }
}

/// The effective configuration of a session.
#[derive(Clone, Copy, Debug, PartialEq, Eq, Structural)]
pub struct Settings {
    /// Rewriting is switched on at all.
    pub global_enabled: bool,
    /// Requests without a secure equivalent are cancelled.
    pub strict: bool,
}

impl Settings {
    /// Reads the two toggles from storage. An unset `global_enabled` counts
    /// as on, an unset `http_nowhere_on` as off.
    pub fn resolve(storage: &FixedSettings) -> (s: Settings)
        ensures
            s.global_enabled == (fixed_bool("global_enabled"@) != Some(false)),
            s.strict == (fixed_bool("http_nowhere_on"@) == Some(true)),
            s == (Settings { global_enabled: true, strict: false }),
    {
        proof {
            reveal_strlit("global_enabled");
            reveal_strlit("http_nowhere_on");
            assert("global_enabled"@.len() != "http_nowhere_on"@.len());
        }
        let enabled = storage.get_bool(String::from_str("global_enabled"));
        let strict = storage.get_bool(String::from_str("http_nowhere_on"));
        Settings {
            global_enabled: match enabled {
                Some(false) => false,
                _ => true,
            },
            strict: match strict {
                Some(true) => true,
                _ => false,
            },
        }
    }
}

} // verus!
