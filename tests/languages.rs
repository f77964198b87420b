use mega_chinese::commands::SetLogCommand;
use mega_chinese::provider::{LibreTranslateProvider, LingvaProvider, MyMemoryProvider};

#[test]
fn libre_maps_names_and_aliases() {
    let p = LibreTranslateProvider::new();
    assert_eq!(p.normalize_lang_code("Chinese"), "zh");
    assert_eq!(p.normalize_lang_code("zh-TW"), "zh");
    assert_eq!(p.normalize_lang_code("HINDI"), "hi");
    assert_eq!(p.normalize_lang_code("xx"), "xx");
    assert_eq!(p.normalize_lang_code("NL"), "nl");
}

#[test]
fn libre_normalization_is_idempotent() {
    let p = LibreTranslateProvider::new();
    for code in ["zh-CN", "english", "Ja", "pt", "xx", "AR"] {
        let once = p.normalize_lang_code(code);
        assert_eq!(p.normalize_lang_code(&once), once);
    }
}

#[test]
fn mymemory_maps_to_region_codes() {
    let p = MyMemoryProvider::new();
    assert_eq!(p.normalize_lang_code("zh"), "zh-CN");
    assert_eq!(p.normalize_lang_code("zh-Hant"), "zh-TW");
    assert_eq!(p.normalize_lang_code("english"), "en-US");
    assert_eq!(p.normalize_lang_code("RU"), "ru-RU");
    assert_eq!(p.normalize_lang_code("xx"), "xx-XX");
}

#[test]
fn mymemory_chinese_codes_are_fixed_points() {
    let p = MyMemoryProvider::new();
    assert_eq!(p.normalize_lang_code("zh-CN"), "zh-CN");
    assert_eq!(p.normalize_lang_code("zh-TW"), "zh-TW");
    // Other region codes are not fixed points.
    assert_eq!(p.normalize_lang_code("en-US"), "en-us-EN-US");
}

#[test]
fn lingva_maps_chinese_variants() {
    let p = LingvaProvider::new();
    assert_eq!(p.normalize_lang_code("ZH-Hans"), "zh");
    assert_eq!(p.normalize_lang_code("zh-tw"), "zh_HANT");
    assert_eq!(p.normalize_lang_code("en"), "en");
    assert_eq!(p.normalize_lang_code("zh"), "zh");
    assert_eq!(p.normalize_lang_code("De"), "de");
}

#[test]
fn providers_name_themselves_and_accept_every_language() {
    assert_eq!(LibreTranslateProvider::new().name(), "LibreTranslate");
    assert_eq!(MyMemoryProvider::new().name(), "MyMemory");
    assert_eq!(LingvaProvider::new().name(), "Lingva");
    assert!(LingvaProvider::new().supports_language("klingon"));
}

#[test]
fn set_log_language_names() {
    assert_eq!(SetLogCommand::parse_language("chinese").unwrap(), "zh");
    assert_eq!(SetLogCommand::parse_language("CN").unwrap(), "zh");
    assert_eq!(SetLogCommand::parse_language("jp").unwrap(), "ja");
    assert_eq!(SetLogCommand::parse_language("KR").unwrap(), "ko");
    assert_eq!(SetLogCommand::parse_language("Dutch").unwrap(), "dutch");
}
