//! The three translation backends: their language-code tables, names, and
//! the request each one sends for a translation.

use vstd::prelude::*;
use crate::text::{
    all_ascii, ascii_lower, lower_of, upper_of, lowercase, uppercase, same_text,
};

verus! {

/// The aliases that every backend reads as Simplified Chinese.
pub open spec fn is_simplified_alias(l: Seq<char>) -> bool {
    l == "zh"@ || l == "zh-cn"@ || l == "zh-hans"@ || l == "chinese"@
}

/// The aliases that every backend reads as Traditional Chinese.
pub open spec fn is_traditional_alias(l: Seq<char>) -> bool {
    l == "zh-tw"@ || l == "zh-hant"@
}

/// LibreTranslate's code for an already lowercased language name or code.
pub open spec fn libre_code(l: Seq<char>) -> Seq<char> {
    if is_simplified_alias(l) || is_traditional_alias(l) {
        "zh"@
    } else if l == "en"@ || l == "english"@ {
        "en"@
    } else if l == "ja"@ || l == "japanese"@ {
        "ja"@
    } else if l == "ko"@ || l == "korean"@ {
        "ko"@
    } else if l == "de"@ || l == "german"@ {
        "de"@
    } else if l == "fr"@ || l == "french"@ {
        "fr"@
    } else if l == "es"@ || l == "spanish"@ {
        "es"@
    } else if l == "it"@ || l == "italian"@ {
        "it"@
    } else if l == "pt"@ || l == "portuguese"@ {
        "pt"@
    } else if l == "ru"@ || l == "russian"@ {
        "ru"@
    } else if l == "ar"@ || l == "arabic"@ {
        "ar"@
    } else if l == "hi"@ || l == "hindi"@ {
        "hi"@
    } else {
        l
    }
}

/// MyMemory's region-qualified code for a lowercased language name or code;
/// an unknown code `xx` becomes `xx-` followed by its uppercase form.
pub open spec fn mymemory_code(l: Seq<char>) -> Seq<char> {
    if is_simplified_alias(l) {
        "zh-CN"@
    } else if is_traditional_alias(l) {
        "zh-TW"@
    } else if l == "en"@ || l == "english"@ {
        "en-US"@
    } else if l == "ja"@ || l == "japanese"@ {
        "ja-JP"@
    } else if l == "ko"@ || l == "korean"@ {
        "ko-KR"@
    } else if l == "de"@ || l == "german"@ {
        "de-DE"@
    } else if l == "fr"@ || l == "french"@ {
        "fr-FR"@
    } else if l == "es"@ || l == "spanish"@ {
        "es-ES"@
    } else if l == "it"@ || l == "italian"@ {
        "it-IT"@
    } else if l == "pt"@ || l == "portuguese"@ {
        "pt-PT"@
    } else if l == "ru"@ || l == "russian"@ {
        "ru-RU"@
    } else {
        l + "-"@ + upper_of(l)
    }
}

/// Lingva's code for a lowercased language name or code.
pub open spec fn lingva_code(l: Seq<char>) -> Seq<char> {
    if is_simplified_alias(l) {
        "zh"@
    } else if is_traditional_alias(l) {
        "zh_HANT"@
    } else {
        l
    }
}

fn simplified_alias(l: &str) -> (r: bool)
    ensures
        r == is_simplified_alias(l@),
{
    same_text(l, "zh") || same_text(l, "zh-cn") || same_text(l, "zh-hans") || same_text(l, "chinese")
}

fn traditional_alias(l: &str) -> (r: bool)
    ensures
        r == is_traditional_alias(l@),
{
    same_text(l, "zh-tw") || same_text(l, "zh-hant")
}

/// Whether `l` is the code `code` or the language name `name`.
fn code_or_name(l: &str, code: &str, name: &str) -> (r: bool)
    ensures
        r == (l@ == code@ || l@ == name@),
{
    same_text(l, code) || same_text(l, name)
}

/// LibreTranslate's table, applied to a lowercased name or code.
pub fn libre_code_of(l: &str) -> (r: String)
    ensures
        r@ == libre_code(l@),
{
    if simplified_alias(l) || traditional_alias(l) {
        String::from_str("zh")
    } else if code_or_name(l, "en", "english") {
        String::from_str("en")
    } else if code_or_name(l, "ja", "japanese") {
        String::from_str("ja")
    } else if code_or_name(l, "ko", "korean") {
        String::from_str("ko")
    } else if code_or_name(l, "de", "german") {
        String::from_str("de")
    } else if code_or_name(l, "fr", "french") {
        String::from_str("fr")
    } else if code_or_name(l, "es", "spanish") {
        String::from_str("es")
    } else if code_or_name(l, "it", "italian") {
        String::from_str("it")
    } else if code_or_name(l, "pt", "portuguese") {
        String::from_str("pt")
    } else if code_or_name(l, "ru", "russian") {
        String::from_str("ru")
    } else if code_or_name(l, "ar", "arabic") {
        String::from_str("ar")
    } else if code_or_name(l, "hi", "hindi") {
        String::from_str("hi")
    } else {
        String::from_str(l)
    }
}

/// MyMemory's table, applied to a lowercased name or code.
pub fn mymemory_code_of(l: &str) -> (r: String)
    ensures
        r@ == mymemory_code(l@),
{
    if simplified_alias(l) {
        String::from_str("zh-CN")
    } else if traditional_alias(l) {
        String::from_str("zh-TW")
    } else if code_or_name(l, "en", "english") {
        String::from_str("en-US")
    } else if code_or_name(l, "ja", "japanese") {
        String::from_str("ja-JP")
    } else if code_or_name(l, "ko", "korean") {
        String::from_str("ko-KR")
    } else if code_or_name(l, "de", "german") {
        String::from_str("de-DE")
    } else if code_or_name(l, "fr", "french") {
        String::from_str("fr-FR")
    } else if code_or_name(l, "es", "spanish") {
        String::from_str("es-ES")
    } else if code_or_name(l, "it", "italian") {
        String::from_str("it-IT")
    } else if code_or_name(l, "pt", "portuguese") {
        String::from_str("pt-PT")
    } else if code_or_name(l, "ru", "russian") {
        String::from_str("ru-RU")
    } else {
        let upper = uppercase(l);
        let mut r = String::from_str(l);
        r.append("-");
        r.append(upper.as_str());
        r
    }
}

/// Lingva's table, applied to a lowercased name or code.
pub fn lingva_code_of(l: &str) -> (r: String)
    ensures
        r@ == lingva_code(l@),
{
    if simplified_alias(l) {
        String::from_str("zh")
    } else if traditional_alias(l) {
        String::from_str("zh_HANT")
    } else {
        String::from_str(l)
    }
}

} // verus!

verus! {

/// One unit of text to translate, with its source and target language codes.
pub struct TranslationRequest {
    pub text: String,
    pub source_lang: String,
    pub target_lang: String,
}

/// What a backend answered: the translated text, and the detected source
/// language and the confidence of that detection where it reports them.
/// The confidence is in millionths, from 0 (none) to 1_000_000 (certain).
pub struct TranslationResponse {
    pub translated_text: String,
    pub detected_language: Option<String>,
    pub confidence: Option<u32>,
}

/// The largest confidence, standing for certainty.
pub const CONFIDENCE_SCALE: u32 = 1_000_000;

/// LibreTranslate's code for any input, lowercased first.
pub open spec fn libre_normalized(l: Seq<char>) -> Seq<char> {
    libre_code(ascii_lower(l))
}

/// MyMemory's code for an ASCII input, lowercased first.
pub open spec fn mymemory_normalized(l: Seq<char>) -> Seq<char> {
    mymemory_code(ascii_lower(l))
}

/// Lingva's code for an ASCII input, lowercased first.
pub open spec fn lingva_normalized(l: Seq<char>) -> Seq<char> {
    lingva_code(ascii_lower(l))
}

/// The self-hosted-or-public LibreTranslate backend, reached by a POST.
pub struct LibreTranslateProvider {
    pub base_url: String,
}

/// The MyMemory backend, reached by a GET with the text in the query.
pub struct MyMemoryProvider {}

/// The Lingva backend, reached by a GET with the text in the path.
pub struct LingvaProvider {
    pub base_url: String,
}

/// The JSON body of a LibreTranslate request: `{q, source, target, format}`.
pub struct LibrePayload {
    pub q: String,
    pub source: String,
    pub target: String,
    pub format: String,
}

impl LibreTranslateProvider {
    /// The public instance.
    pub fn new() -> (r: Self)
        ensures
            r.base_url@ == "https://libretranslate.com"@,
    {
        LibreTranslateProvider { base_url: String::from_str("https://libretranslate.com") }
    }

    /// An instance at another address.
    pub fn with_custom_instance(base_url: String) -> (r: Self)
        ensures
            r.base_url == base_url,
    {
        LibreTranslateProvider { base_url }
    }

    /// The backend's code for a language name or code.
    pub fn normalize_lang_code(&self, lang: &str) -> (r: String)
        ensures
            r@ == libre_code(lower_of(lang@)),
            all_ascii(lang@) ==> r@ == libre_normalized(lang@),
    {
        let lowered = lowercase(lang);
        libre_code_of(lowered.as_str())
    }

    pub fn name(&self) -> (r: &'static str)
        ensures
            r@ == "LibreTranslate"@,
    {
        "LibreTranslate"
    }

    /// Every language is tried with this backend.
    pub fn supports_language(&self, lang: &str) -> (r: bool)
        ensures
            r,
    {
        true
    }
}

impl MyMemoryProvider {
    pub fn new() -> (r: Self) {
        MyMemoryProvider {}
    }

    /// The backend's region-qualified code for a language name or code.
    pub fn normalize_lang_code(&self, lang: &str) -> (r: String)
        ensures
            r@ == mymemory_code(lower_of(lang@)),
            all_ascii(lang@) ==> r@ == mymemory_normalized(lang@),
    {
        let lowered = lowercase(lang);
        mymemory_code_of(lowered.as_str())
    }

    pub fn name(&self) -> (r: &'static str)
        ensures
            r@ == "MyMemory"@,
    {
        "MyMemory"
    }

    /// Every language is tried with this backend.
    pub fn supports_language(&self, lang: &str) -> (r: bool)
        ensures
            r,
    {
        true
    }
}

impl LingvaProvider {
    /// The public instance.
    pub fn new() -> (r: Self)
        ensures
            r.base_url@ == "https://lingva.ml"@,
    {
        LingvaProvider { base_url: String::from_str("https://lingva.ml") }
    }

    /// The backend's code for a language name or code.
    pub fn normalize_lang_code(&self, lang: &str) -> (r: String)
        ensures
            r@ == lingva_code(lower_of(lang@)),
            all_ascii(lang@) ==> r@ == lingva_normalized(lang@),
    {
        let lowered = lowercase(lang);
        lingva_code_of(lowered.as_str())
    }

    pub fn name(&self) -> (r: &'static str)
        ensures
            r@ == "Lingva"@,
    {
        "Lingva"
    }

    /// Every language is tried with this backend.
    pub fn supports_language(&self, lang: &str) -> (r: bool)
        ensures
            r,
    {
        true
    }
}

/// Every code that LibreTranslate's table gives for an ASCII input is
/// given again when it is normalized a second time.
pub proof fn lemma_libre_normalize_idempotent(l: Seq<char>)
    requires
        all_ascii(l),
    ensures
        all_ascii(libre_normalized(l)),
        libre_normalized(libre_normalized(l)) == libre_normalized(l),
{
    reveal_strlit("zh");
    reveal_strlit("zh-cn");
    reveal_strlit("zh-hans");
    reveal_strlit("chinese");
    reveal_strlit("zh-tw");
    reveal_strlit("zh-hant");
    reveal_strlit("en");
    reveal_strlit("english");
    reveal_strlit("ja");
    reveal_strlit("japanese");
    reveal_strlit("ko");
    reveal_strlit("korean");
    reveal_strlit("de");
    reveal_strlit("german");
    reveal_strlit("fr");
    reveal_strlit("french");
    reveal_strlit("es");
    reveal_strlit("spanish");
    reveal_strlit("it");
    reveal_strlit("italian");
    reveal_strlit("pt");
    reveal_strlit("portuguese");
    reveal_strlit("ru");
    reveal_strlit("russian");
    reveal_strlit("ar");
    reveal_strlit("arabic");
    reveal_strlit("hi");
    reveal_strlit("hindi");
    crate::text::lemma_ascii_lower_idempotent(l);
    let m = ascii_lower(l);
    let r = libre_code(m);
    if r != m {
        assert(ascii_lower(r) =~= r);
    }
}

/// MyMemory's Chinese codes are fixed points: normalizing `zh-CN` or
/// `zh-TW` (reached from any Chinese alias) gives the same code again.
/// Other codes are not: `en` gives `en-US`, which gives `en-us-EN-US`.
pub proof fn lemma_mymemory_normalize_idempotent(l: Seq<char>)
    requires
        all_ascii(l),
        is_simplified_alias(ascii_lower(l)) || is_traditional_alias(ascii_lower(l)),
    ensures
        mymemory_normalized(mymemory_normalized(l)) == mymemory_normalized(l),
{
    reveal_strlit("zh");
    reveal_strlit("zh-cn");
    reveal_strlit("zh-hans");
    reveal_strlit("chinese");
    reveal_strlit("zh-tw");
    reveal_strlit("zh-hant");
    reveal_strlit("zh-CN");
    reveal_strlit("zh-TW");
    if is_simplified_alias(ascii_lower(l)) {
        assert(mymemory_normalized(l) == "zh-CN"@);
        assert(ascii_lower("zh-CN"@) =~= "zh-cn"@);
        assert(is_simplified_alias("zh-cn"@));
        assert(mymemory_code("zh-cn"@) == "zh-CN"@);
    } else {
        assert(mymemory_normalized(l) == "zh-TW"@);
        assert(ascii_lower("zh-TW"@) =~= "zh-tw"@);
        assert("zh-tw"@[3] != "zh-cn"@[3]);
        assert(!is_simplified_alias("zh-tw"@));
        assert(mymemory_code("zh-tw"@) == "zh-TW"@);
    }
}

/// Lingva's codes are fixed points for every ASCII input but the
/// Traditional Chinese aliases, whose code `zh_HANT` lowercases to a code
/// that the table passes through unchanged.
pub proof fn lemma_lingva_normalize_idempotent(l: Seq<char>)
    requires
        all_ascii(l),
        !is_traditional_alias(ascii_lower(l)),
    ensures
        lingva_normalized(lingva_normalized(l)) == lingva_normalized(l),
{
    reveal_strlit("zh");
    reveal_strlit("zh-cn");
    reveal_strlit("zh-hans");
    reveal_strlit("chinese");
    reveal_strlit("zh-tw");
    reveal_strlit("zh-hant");
    crate::text::lemma_ascii_lower_idempotent(l);
    if is_simplified_alias(ascii_lower(l)) {
        assert(ascii_lower("zh"@) =~= "zh"@);
    }
}

/// The characters that percent-encoding keeps: ASCII letters and digits,
/// `-`, `.`, `_` and `~`.
pub open spec fn is_unreserved(c: char) -> bool {
    ('0' <= c && c <= '9') || ('A' <= c && c <= 'Z') || ('a' <= c && c <= 'z') || c == '-' || c
        == '.' || c == '_' || c == '~'
}

/// What `urlencoding::encode` returns for a text.
pub uninterp spec fn url_encoded(s: Seq<char>) -> Seq<char>;

/// Relies on `urlencoding::encode`: each UTF-8 byte but the unreserved
/// characters becomes `%` and two hex digits; the result depends on the
/// text alone, and a text of unreserved characters comes back unchanged.
#[verifier::external_body]
fn encode_component(s: &str) -> (r: String)
    ensures
        r@ == url_encoded(s@),
        (forall|i: int| 0 <= i < s@.len() ==> is_unreserved(#[trigger] s@[i])) ==> r@ == s@,
{
    urlencoding::encode(s).into_owned()
}

/// The address of a MyMemory request, from the already normalized codes.
pub open spec fn mymemory_url(text: Seq<char>, source: Seq<char>, target: Seq<char>) -> Seq<char> {
    "https://api.mymemory.translated.net/get?q="@ + url_encoded(text) + "&langpair="@ + source
        + "|"@ + target
}

/// The address of a Lingva request, from the already normalized codes.
pub open spec fn lingva_url(base: Seq<char>, text: Seq<char>, source: Seq<char>, target: Seq<
    char,
>) -> Seq<char> {
    base + "/api/v1/"@ + source + "/"@ + target + "/"@ + url_encoded(text)
}

impl LibreTranslateProvider {
    /// Where the request is posted.
    pub fn translate_url(&self) -> (r: String)
        ensures
            r@ == self.base_url@ + "/translate"@,
    {
        let mut r = self.base_url.clone();
        r.append("/translate");
        r
    }

    /// The body of the request, with the backend's codes.
    pub fn payload(&self, request: &TranslationRequest) -> (r: LibrePayload)
        ensures
            r.q@ == request.text@,
            r.source@ == libre_code(lower_of(request.source_lang@)),
            r.target@ == libre_code(lower_of(request.target_lang@)),
            r.format@ == "text"@,
    {
        LibrePayload {
            q: request.text.clone(),
            source: self.normalize_lang_code(request.source_lang.as_str()),
            target: self.normalize_lang_code(request.target_lang.as_str()),
            format: String::from_str("text"),
        }
    }
}

impl MyMemoryProvider {
    /// The address of the request, with the backend's codes and the text
    /// percent-encoded.
    pub fn request_url(&self, request: &TranslationRequest) -> (r: String)
        ensures
            r@ == mymemory_url(
                request.text@,
                mymemory_code(lower_of(request.source_lang@)),
                mymemory_code(lower_of(request.target_lang@)),
            ),
    {
        let source = self.normalize_lang_code(request.source_lang.as_str());
        let target = self.normalize_lang_code(request.target_lang.as_str());
        let text = encode_component(request.text.as_str());
        let mut r = String::from_str("https://api.mymemory.translated.net/get?q=");
        r.append(text.as_str());
        r.append("&langpair=");
        r.append(source.as_str());
        r.append("|");
        r.append(target.as_str());
        r
    }
}

impl LingvaProvider {
    /// The address of the request, with the backend's codes and the text
    /// percent-encoded.
    pub fn request_url(&self, request: &TranslationRequest) -> (r: String)
        ensures
            r@ == lingva_url(
                self.base_url@,
                request.text@,
                lingva_code(lower_of(request.source_lang@)),
                lingva_code(lower_of(request.target_lang@)),
            ),
    {
        let source = self.normalize_lang_code(request.source_lang.as_str());
        let target = self.normalize_lang_code(request.target_lang.as_str());
        let text = encode_component(request.text.as_str());
        let mut r = self.base_url.clone();
        r.append("/api/v1/");
        r.append(source.as_str());
        r.append("/");
        r.append(target.as_str());
        r.append("/");
        r.append(text.as_str());
        r
    }
}

} // verus!
