use mega_chinese::provider::{
    LibreTranslateProvider, LingvaProvider, MyMemoryProvider, TranslationRequest,
};
use mega_chinese::text::{is_space_char, signed_decimal, unsigned_decimal, join_from, same_text, split_words, starts_with};

fn request(text: &str, source: &str, target: &str) -> TranslationRequest {
    TranslationRequest {
        text: text.to_string(),
        source_lang: source.to_string(),
        target_lang: target.to_string(),
    }
}

#[test]
fn white_space_agrees_with_std() {
    for code in 0u32..0x11_0000 {
        if let Some(c) = char::from_u32(code) {
            assert_eq!(is_space_char(c), c.is_whitespace(), "{:?}", c);
        }
    }
}

#[test]
fn words_agree_with_split_whitespace() {
    for s in ["", "   ", "a", " a  b\tc\n", "你好 世界", "a\u{3000}b", ";x y"] {
        let expected: Vec<String> = s.split_whitespace().map(|w| w.to_string()).collect();
        assert_eq!(split_words(s), expected);
    }
}

#[test]
fn text_comparisons_and_joins() {
    assert!(same_text("abc", "abc"));
    assert!(!same_text("abc", "abd"));
    assert!(!same_text("ab", "abc"));
    assert!(starts_with("abc", "ab"));
    assert!(!starts_with("a", "ab"));
    let parts: Vec<String> = vec!["x".to_string(), "y".to_string(), "z".to_string()];
    assert_eq!(join_from(&parts, 1), "y z");
    assert_eq!(join_from(&parts, 3), "");
}

#[test]
fn libre_request() {
    let p = LibreTranslateProvider::with_custom_instance("http://localhost:5000".to_string());
    assert_eq!(p.translate_url(), "http://localhost:5000/translate");
    let body = p.payload(&request("hi", "Chinese", "EN"));
    assert_eq!(body.q, "hi");
    assert_eq!(body.source, "zh");
    assert_eq!(body.target, "en");
    assert_eq!(body.format, "text");
}

#[test]
fn mymemory_request_encodes_the_text() {
    let url = MyMemoryProvider::new().request_url(&request("hello world&more", "zh", "en"));
    assert_eq!(
        url,
        "https://api.mymemory.translated.net/get?q=hello%20world%26more&langpair=zh-CN|en-US"
    );
}

#[test]
fn lingva_request_encodes_the_text() {
    let url = LingvaProvider::new().request_url(&request("你好", "zh-TW", "en"));
    assert_eq!(url, "https://lingva.ml/api/v1/zh_HANT/en/%E4%BD%A0%E5%A5%BD");
}

#[test]
fn decimals_agree_with_std() {
    for n in [0i64, 7, -7, 10, 99, -100, 1234567890, i64::MAX, i64::MIN] {
        assert_eq!(signed_decimal(n), n.to_string());
    }
    for n in [0u64, 9, 10, 65535, u64::MAX] {
        assert_eq!(unsigned_decimal(n), n.to_string());
    }
}
