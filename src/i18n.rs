//! Lookup of translation sources by locale code.

use vstd::prelude::*;

verus! {

/// The locale that every language map must hold, used to report errors when no other
/// language is loaded.
pub const FALLBACK_LOCALE: &'static str = "en-US";

/// Why a language could not be loaded.
#[derive(Debug)]
pub enum LanguageError {
    /// The map has no translations for the locale code.
    NoTranslations(String),
    /// The translation source for the locale code is not valid.
    InvalidFTL(String),
}

/// What loading the language `code` from the translation source `source` gives: the
/// language `parse` makes of it, or, where `parse` refuses the source, an invalid-source
/// error naming the code.
pub open spec fn parsed_outcome<L, P: Fn(&str, &str) -> Result<L, String>>(
    parse: P,
    code: &str,
    source: Seq<char>,
    r: Result<L, LanguageError>,
) -> bool {
    match r {
        Ok(l) => exists|s: &str| s@ == source && parse.ensures((code, s), Ok::<L, String>(l)),
        Err(LanguageError::InvalidFTL(c)) => c@ == code@ && exists|s: &str, m: String|
            s@ == source && parse.ensures((code, s), Err::<L, String>(m)),
        Err(LanguageError::NoTranslations(_)) => false,
    }
}

/// Initialization function for language maps.
///
/// This is a separate trait so that `LanguageMap` stays object-safe.
pub trait LanguageMapInit: Sized {
    /// Initializes the language map. This must not fail: a language map holds at least
    /// the fallback locale.
    fn new() -> Self;
}

/// Mapping of locale codes to translation sources.
pub trait LanguageMap {
    /// The translation source for a locale code, if the map has one. Each map type
    /// states its own; the default, for map types that do not, is no source for any code.
    open spec fn source_of(&self, code: Seq<char>) -> Option<Seq<char>> {
        None
    }

    /// Returns the translation source for the language with the given locale code.
    fn get(&self, code: &str) -> (r: Option<&str>)
        ensures
            match r {
                Some(s) => self.source_of(code@) == Some(s@),
                None => self.source_of(code@) is None,
            },
    ;

    /// Loads the language with the given locale code, parsing its source with `parse`
    /// (which is given the code and the source).
    fn load_language<L, P: Fn(&str, &str) -> Result<L, String>>(&self, code: &str, parse: P) -> (r:
        Result<L, LanguageError>)
        requires
            forall|c: &str, s: &str| parse.requires((c, s)),
        ensures
            self.source_of(code@) is None ==> (r matches Err(LanguageError::NoTranslations(c))
                && c@ == code@),
            self.source_of(code@) matches Some(source) ==> parsed_outcome(parse, code, source, r),
    {
        match self.get(code) {
            Some(source) => match parse(code, source) {
                Ok(language) => Ok(language),
                Err(_) => Err(LanguageError::InvalidFTL(String::from_str(code))),
            },
            None => Err(LanguageError::NoTranslations(String::from_str(code))),
        }
    }
}

/// The language to report an error in: the one already loaded, or else the fallback
/// locale's from `langmap`.
pub fn report_language<M: LanguageMap, L, P: Fn(&str, &str) -> Result<L, String>>(
    langmap: &M,
    loaded: Option<L>,
    parse: P,
) -> (r: Result<L, LanguageError>)
    requires
        forall|c: &str, s: &str| parse.requires((c, s)),
    ensures
        loaded matches Some(l) ==> r == Ok::<L, LanguageError>(l),
        loaded is None && langmap.source_of(FALLBACK_LOCALE@) is None ==> (r matches Err(
            LanguageError::NoTranslations(c),
        ) && c@ == FALLBACK_LOCALE@),
        loaded is None ==> (langmap.source_of(FALLBACK_LOCALE@) matches Some(source)
            ==> parsed_outcome(parse, FALLBACK_LOCALE, source, r)),
{
    match loaded {
        Some(language) => Ok(language),
        None => langmap.load_language(FALLBACK_LOCALE, parse),
    }
}

/// The empty tuple can be used as a language map for testing purposes.
impl LanguageMapInit for () {
    fn new() -> Self {
    }
}

/// The empty tuple can be used as a language map for testing purposes: it holds an empty
/// translation source for every locale code.
impl LanguageMap for () {
    open spec fn source_of(&self, code: Seq<char>) -> Option<Seq<char>> {
        Some(Seq::empty())
    }

    fn get(&self, code: &str) -> (r: Option<&str>) {
        let empty = "";
        proof {
            reveal_strlit("");
        }
        Some(empty)
    }
}

} // verus!
