//! The persisted configuration.

use crate::table::Table;
use vstd::prelude::*;

verus! {

/// The persisted settings: top-level settings by key, a token for each
/// known host, and the alias table from alias name to expansion.
pub struct Config {
    pub settings: Table,
    pub hosts: Table,
    pub aliases: Table,
}

/// A configuration that holds nothing.
pub fn new_blank_config() -> (c: Config)
    ensures
        c.settings@ == Map::<Seq<char>, Seq<char>>::empty(),
        c.hosts@ == Map::<Seq<char>, Seq<char>>::empty(),
        c.aliases@ == Map::<Seq<char>, Seq<char>>::empty(),
{
    Config { settings: Table::new(), hosts: Table::new(), aliases: Table::new() }
}

impl Config {
    /// The persisted value of the setting `key`, if it is set.
    pub fn get(&self, key: &str) -> (r: Option<String>)
        ensures
            match r {
                Some(v) => self.settings@.contains_key(key@) && v@ == self.settings@[key@],
                None => !self.settings@.contains_key(key@),
            },
    {
        self.settings.get(key)
    }

    /// Sets the setting `key` to `value`.
    pub fn set(&mut self, key: String, value: String)
        ensures
            final(self).settings@ == old(self).settings@.insert(key@, value@),
            final(self).hosts@ == old(self).hosts@,
            final(self).aliases@ == old(self).aliases@,
    {
        self.settings.insert(key, value);
    }
}

} // verus!
