use mau::{report_language, LanguageError, LanguageMap, LanguageMapInit};

struct Catalog;

impl LanguageMap for Catalog {
    fn get(&self, code: &str) -> Option<&str> {
        match code {
            "en-US" => Some("hello = Hello"),
            "xx" => Some("broken"),
            _ => None,
        }
    }
}

fn parse(code: &str, source: &str) -> Result<String, String> {
    if source == "broken" {
        Err(String::from("bad entry"))
    } else {
        Ok(format!("{}:{}", code, source))
    }
}

#[test]
fn loads_a_language_from_its_source() {
    assert_eq!(Catalog.load_language("en-US", parse).unwrap(), "en-US:hello = Hello");
}

#[test]
fn missing_locale_has_no_translations() {
    match Catalog.load_language("fr", parse) {
        Err(LanguageError::NoTranslations(code)) => assert_eq!(code, "fr"),
        _ => panic!("expected NoTranslations"),
    }
}

#[test]
fn invalid_source_is_reported() {
    match Catalog.load_language("xx", parse) {
        Err(LanguageError::InvalidFTL(code)) => assert_eq!(code, "xx"),
        _ => panic!("expected InvalidFTL"),
    }
}

#[test]
fn unit_map_has_an_empty_source_for_every_locale() {
    let map: () = <() as LanguageMapInit>::new();
    assert_eq!(map.get("anything"), Some(""));
    assert_eq!(map.load_language("de", parse).unwrap(), "de:");
}

#[test]
fn report_language_prefers_the_loaded_one() {
    let r = report_language(&Catalog, Some(String::from("pl")), parse);
    assert_eq!(r.unwrap(), "pl");
    let r = report_language(&Catalog, None, parse);
    assert_eq!(r.unwrap(), "en-US:hello = Hello");
}
