use opent5::locale::{
    get_lang, get_lang_from_str, get_str_from_lang, init, init_checked, lang_from_str, localize_ref, Language,
    Localization,
};

#[test]
fn language_names_round_trip() {
    assert_eq!(lang_from_str("german"), Some(Language::GERMAN));
    assert_eq!(lang_from_str("klingon"), None);
    assert_eq!(get_lang_from_str("klingon"), Language::ENGLISH);
    assert_eq!(get_str_from_lang(Language::CZECH), "czech");
    assert_eq!(get_str_from_lang(Language::MAX), "");
    assert_eq!(Language::POLISH.as_u8(), 9);
    assert_eq!(Language::try_from_u8(9), Some(Language::POLISH));
    assert_eq!(Language::try_from_u8(13), Some(Language::MAX));
    assert_eq!(Language::try_from_u8(14), None);
}

#[test]
fn missing_file_means_english() {
    let mut loc = Localization::new();
    assert_eq!(init(&mut loc, None), Language::ENGLISH);
    assert_eq!(localize_ref(&loc, "KEY"), "KEY");
}

#[test]
fn file_gives_language_and_strings() {
    let text = b"  french\n\"HELLO\" \"Bonjour\"\n\"BYE\"\n\"Au revoir\"\n\"HELLO\" \"Salut\"\n";
    let mut loc = Localization::new();
    assert_eq!(init(&mut loc, Some(&text[..])), Language::FRENCH);
    assert_eq!(get_lang(&loc), Language::FRENCH);
    assert_eq!(localize_ref(&loc, "BYE"), "Au revoir");
    // a later pair of a key overrides an earlier one
    assert_eq!(localize_ref(&loc, "HELLO"), "Salut");
    assert_eq!(localize_ref(&loc, "OTHER"), "OTHER");
}

#[test]
fn unpaired_strings_are_refused() {
    let mut loc = Localization::new();
    assert_eq!(init_checked(&mut loc, Some(&b"english\n\"A\" \"1\" \"B\""[..])), None);
    assert_eq!(init_checked(&mut loc, Some(&b"english\n\"A\" \"1\""[..])), Some(Language::ENGLISH));
    assert_eq!(localize_ref(&loc, "A"), "1");
}

#[test]
fn inserted_string_is_localized() {
    let mut loc = opent5::locale::Localization::new();
    loc.insert("HELLO".to_string(), "Hello".to_string());
    loc.insert("BYE".to_string(), "Bye".to_string());
    assert_eq!(localize_ref(&loc, "HELLO"), "Hello");
    loc.insert("HELLO".to_string(), "Hi".to_string());
    assert_eq!(localize_ref(&loc, "HELLO"), "Hi");
    assert_eq!(localize_ref(&loc, "BYE"), "Bye");
    assert_eq!(localize_ref(&loc, "NONE"), "NONE");
}
