//! What a caller chooses before initialising the engine or issuing a query.

use crate::c_string::{has_nul, terminated, to_c_string};
use vstd::prelude::*;
use vstd::string::StringSliceAdditionalSpecFns;

verus! {

/// Which capabilities `init` is to enable, and where the engine finds its
/// model files.
#[derive(Debug)]
pub struct InitOptions {
    /// Enable address expansion.
    pub expand_address: bool,
    /// Enable address parsing.
    pub parse_address: bool,
    /// Directory to load the model files from, in place of the engine's own.
    pub data_dir: Option<String>,
}

/// The zero-terminated form of each language code of `langs`.
pub open spec fn language_table(langs: Seq<&str>) -> Seq<Seq<u8>> {
    Seq::new(langs.len(), |i: int| terminated(langs[i].spec_bytes()))
}

/// The byte strings that a table of buffers holds.
pub open spec fn buffers_of(table: Seq<Vec<u8>>) -> Seq<Seq<u8>> {
    Seq::new(table.len(), |i: int| table[i]@)
}

/// Options of an expansion query.
///
/// The language codes are kept as owned zero-terminated copies, so that the
/// table of pointers the engine reads can be built from them for the length
/// of one call and never outlives them.
#[derive(Debug)]
pub struct ExpandAddressOptions {
    c_languages: Option<Vec<Vec<u8>>>,
}

impl ExpandAddressOptions {
    /// The language codes to expand in, each zero-terminated, or `None`
    /// where the engine is left to detect the language.
    pub closed spec fn languages(&self) -> Option<Seq<Seq<u8>>> {
        match self.c_languages {
            Some(table) => Some(buffers_of(table@)),
            None => None,
        }
    }

    /// Options that name no language.
    pub fn new() -> (options: Self)
        ensures
            options.languages() is None,
    {
        ExpandAddressOptions { c_languages: None }
    }

    /// Sets the languages to expand in, replacing any set before.
    pub fn set_languages(&mut self, langs: &[&str])
        requires
            forall|i: int| 0 <= i < langs@.len() ==> !has_nul(langs@[i].spec_bytes()),
        ensures
            final(self).languages() == Some(language_table(langs@)),
    {
        let mut table: Vec<Vec<u8>> = Vec::new();
        let mut i: usize = 0;
        while i < langs.len()
            invariant
                i <= langs@.len(),
                forall|j: int| 0 <= j < langs@.len() ==> !has_nul(langs@[j].spec_bytes()),
                table@.len() == i,
                forall|j: int| 0 <= j < i ==> table@[j]@ == terminated(langs@[j].spec_bytes()),
            decreases langs@.len() - i,
        {
            match to_c_string(langs[i].as_bytes()) {
                Ok(code) => {
                    table.push(code);
                },
                Err(_) => {
                    proof {
                        assert(has_nul(langs@[i as int].spec_bytes()));
                    }
                },
            }
            i += 1;
        }
        proof {
            assert(buffers_of(table@) =~= language_table(langs@));
        }
        self.c_languages = Some(table);
    }

    /// The language table to hand to the engine, if languages were set.
    pub fn language_codes(&self) -> (table: Option<&Vec<Vec<u8>>>)
        ensures
            match table {
                Some(codes) => self.languages() == Some(buffers_of(codes@)),
                None => self.languages() is None,
            },
    {
        match &self.c_languages {
            Some(table) => Some(table),
            None => None,
        }
    }
}

impl Default for ExpandAddressOptions {
    fn default() -> (options: Self)
        ensures
            options.languages() is None,
    {
        Self::new()
    }
}

/// Options of a parse query. The engine takes no hint for parsing, so there
/// is nothing to set.
#[derive(Debug)]
pub struct ParseAddressOptions {}

impl ParseAddressOptions {
    /// The only options there are.
    pub fn new() -> (options: Self) {
        ParseAddressOptions {  }
    }
}

impl Default for ParseAddressOptions {
    fn default() -> (options: Self) {
        Self::new()
    }
}

} // verus!
