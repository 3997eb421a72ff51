//! Translated user-interface strings: a catalog of (language, key, text)
//! entries, looked up the way the application's translator does it.

use vstd::prelude::*;

use crate::model::Language;

verus! {

/// One translated string.
#[derive(Clone, Debug)]
pub struct CatalogEntry {
    pub language: Language,
    pub key: String,
    pub text: String,
}

/// The translations of the user interface.
#[derive(Clone, Debug)]
pub struct Catalog {
    pub entries: Vec<CatalogEntry>,
}

/// The text of the first entry of `entries` for `language` and `key`, if any.
pub open spec fn lookup_spec(entries: Seq<CatalogEntry>, language: Language, key: Seq<char>) -> Option<
    Seq<char>,
>
    decreases entries.len(),
{
    if entries.len() == 0 {
        None
    } else if entries[0].language == language && entries[0].key@ == key {
        Some(entries[0].text@)
    } else {
        lookup_spec(entries.drop_first(), language, key)
    }
}

impl Catalog {
    /// The translation of `key` into `language`; the key itself when the
    /// catalog has none.
    pub open spec fn translate(self, language: Language, key: Seq<char>) -> Seq<char> {
        match lookup_spec(self.entries@, language, key) {
            Some(text) => text,
            None => key,
        }
    }

    /// The translation of `key`, or `fallback` when the catalog has none
    /// (that is, when the translation is the key itself).
    pub open spec fn translate_or(self, language: Language, key: Seq<char>, fallback: Seq<char>) -> Seq<
        char,
    > {
        if self.translate(language, key) == key {
            fallback
        } else {
            self.translate(language, key)
        }
    }

    /// An empty catalog: every key translates to itself.
    pub fn new() -> (c: Catalog)
        ensures
            c.entries@.len() == 0,
    {
        Catalog { entries: Vec::new() }
    }

    /// Adds a translation after the existing ones.
    pub fn add(&mut self, language: Language, key: &str, text: &str)
        ensures
            final(self).entries@.len() == old(self).entries@.len() + 1,
            final(self).entries@.subrange(0, old(self).entries@.len() as int) == old(self).entries@,
            final(self).entries@.last().language == language,
            final(self).entries@.last().key@ == key@,
            final(self).entries@.last().text@ == text@,
    {
        let entry = CatalogEntry { language, key: key.to_owned(), text: text.to_owned() };
        self.entries.push(entry);
    }

    /// `i18n::tr`: the translation of `key` into `language`.
    pub fn tr(&self, language: Language, key: &str) -> (r: String)
        ensures
            r@ == self.translate(language, key@),
    {
        let k = key.to_owned();
        let mut i: usize = 0;
        assert(self.entries@.subrange(0, self.entries@.len() as int) =~= self.entries@);
        while i < self.entries.len()
            invariant
                i <= self.entries@.len(),
                k@ == key@,
                lookup_spec(self.entries@, language, key@) == lookup_spec(
                    self.entries@.subrange(i as int, self.entries@.len() as int),
                    language,
                    key@,
                ),
            decreases self.entries@.len() - i,
        {
            let e = &self.entries[i];
            proof {
                let rest = self.entries@.subrange(i as int, self.entries@.len() as int);
                assert(rest[0] == self.entries@[i as int]);
                assert(rest.drop_first() =~= self.entries@.subrange(
                    i + 1,
                    self.entries@.len() as int,
                ));
            }
            if e.language == language && e.key == k {
                return e.text.clone();
            }
            i += 1;
        }
        k
    }

    /// The translation of `key`, or `fallback` when the catalog has none.
    pub fn tr_or(&self, language: Language, key: &str, fallback: &str) -> (r: String)
        ensures
            r@ == self.translate_or(language, key@, fallback@),
    {
        let value = self.tr(language, key);
        let k = key.to_owned();
        if value == k {
            fallback.to_owned()
        } else {
            value
        }
    }
}

} // verus!
