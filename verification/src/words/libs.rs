//! The translation lookup: the address that is asked, and the reading of
//! what comes back.

use vstd::prelude::*;
use vstd::string::StringExecFns;

verus! {

/// The translation endpoint up to the source language.
pub const TRANSLATE_ENDPOINT: &'static str =
    "https://translate.googleapis.com/translate_a/single?client=gtx&sl=";

/// The source language asked for where the caller names none.
pub const AUTO_DETECT: &'static str = "auto";

pub const SEND_FAILED: &'static str = "Failed to send request";

pub const BODY_FAILED: &'static str = "Failed to read body";

pub const PARSE_FAILED: &'static str = "Failed to parse JSON";

pub const NOT_FOUND: &'static str = "Translation not found";

/// Why the translation service gave no body.
#[derive(Debug, Clone, Copy, PartialEq, Eq, Structural)]
pub enum FetchFailure {
    /// The request could not be sent.
    Send,
    /// The body of the answer could not be read.
    Body,
}

#[verifier::external_type_specification]
#[verifier::external_body]
pub struct ExJsonValue(serde_json::Value);

#[verifier::external_type_specification]
#[verifier::external_body]
pub struct ExJsonError(serde_json::Error);

/// The text as `urlencoding` percent-encodes it.
pub uninterp spec fn percent_encoded(text: Seq<char>) -> Seq<char>;

/// The strings a JSON value holds at array positions. The key of a string is
/// the path of positions that leads to it from the value, outermost first;
/// a value that is itself a string holds it under the empty path.
pub uninterp spec fn json_strings(value: serde_json::Value) -> Map<Seq<int>, Seq<char>>;

/// The strings of the document a text is read as, where `serde_json` reads
/// it as one.
pub uninterp spec fn json_document(text: Seq<char>) -> Option<Map<Seq<int>, Seq<char>>>;

/// The strings found under one position: those whose path starts there,
/// each under the rest of its path.
pub open spec fn strings_under(strings: Map<Seq<int>, Seq<char>>, position: int) -> Map<
    Seq<int>,
    Seq<char>,
> {
    Map::new(
        |path: Seq<int>| strings.contains_key(seq![position] + path),
        |path: Seq<int>| strings[seq![position] + path],
    )
}

/// `urlencoding::encode`, as an owned string. Every byte but the ASCII
/// letters, digits, `-`, `_`, `.` and `~` is percent-encoded; the result
/// depends on the text alone.
#[verifier::external_body]
fn url_encode(text: &str) -> (encoded: String)
    ensures
        encoded@ == percent_encoded(text@),
{
    urlencoding::encode(text).into_owned()
}

/// `serde_json::from_str` into a `serde_json::Value`. Whether the text is
/// read, and as which document, depends on the text alone.
#[verifier::external_body]
fn json_from_str(text: &str) -> (parsed: Result<serde_json::Value, serde_json::Error>)
    ensures
        match parsed {
            Ok(value) => json_document(text@) == Some(json_strings(value)),
            Err(_) => json_document(text@) is None,
        },
{
    serde_json::from_str(text)
}

/// Indexing a `serde_json::Value` by a position. It gives the element of an
/// array that has one there, and `Value::Null`, which holds no string,
/// for every other value and position.
#[verifier::external_body]
fn json_index(value: &serde_json::Value, position: usize) -> (element: &serde_json::Value)
    ensures
        json_strings(*element) == strings_under(json_strings(*value), position as int),
{
    &value[position]
}

/// `serde_json::Value::as_str`: the string, if the value is one.
#[verifier::external_body]
fn json_as_str(value: &serde_json::Value) -> (text: Option<&str>)
    ensures
        match text {
            Some(text) => json_strings(*value).contains_key(Seq::<int>::empty()) && json_strings(
                *value,
            )[Seq::<int>::empty()] == text@,
            None => !json_strings(*value).contains_key(Seq::<int>::empty()),
        },
{
    value.as_str()
}

/// Where a translation stands in the service's answer: first of the first
/// of the first.
pub open spec fn translation_path() -> Seq<int> {
    seq![0int, 0int, 0int]
}

/// The address asked for a translation, given the text already encoded.
pub open spec fn url_for(encoded: Seq<char>, to: Seq<char>, from: Option<Seq<char>>) -> Seq<char> {
    TRANSLATE_ENDPOINT@ + (match from {
        Some(source) => source,
        None => AUTO_DETECT@,
    }) + "&tl="@ + to + "&dt=t&q="@ + encoded
}

/// What a lookup comes to, given what was fetched and the strings of the
/// document it parses to.
pub open spec fn translation_of(
    fetched: Result<Seq<char>, FetchFailure>,
    document: Option<Map<Seq<int>, Seq<char>>>,
) -> Result<Seq<char>, Seq<char>> {
    match fetched {
        Err(FetchFailure::Send) => Err(SEND_FAILED@),
        Err(FetchFailure::Body) => Err(BODY_FAILED@),
        Ok(_) => match document {
            None => Err(PARSE_FAILED@),
            Some(strings) => translation_in(strings),
        },
    }
}

/// The translation among the strings of an answer, or that there is none.
pub open spec fn translation_in(strings: Map<Seq<int>, Seq<char>>) -> Result<Seq<char>, Seq<char>> {
    if strings.contains_key(translation_path()) {
        Ok(strings[translation_path()])
    } else {
        Err(NOT_FOUND@)
    }
}

/// The texts of a result, on either side.
pub open spec fn texts(result: Result<String, String>) -> Result<Seq<char>, Seq<char>> {
    match result {
        Ok(text) => Ok(text@),
        Err(text) => Err(text@),
    }
}

/// Puts the address together from the encoded text and the two languages.
pub fn translate_url_encoded(encoded: &str, to: &str, from: Option<&str>) -> (url: String)
    ensures
        url@ == url_for(
            encoded@,
            to@,
            match from {
                Some(source) => Some(source@),
                None => None,
            },
        ),
{
    let source: &str = match from {
        Some(source) => source,
        None => AUTO_DETECT,
    };
    let mut url: String = TRANSLATE_ENDPOINT.to_string();
    url.append(source);
    url.append("&tl=");
    url.append(to);
    url.append("&dt=t&q=");
    url.append(encoded);
    url
}

/// The address to ask for the translation of `text` into the language `to`,
/// from the language `from` or, with none given, from whichever the service
/// detects.
pub fn translate_url(text: &str, to: &str, from: Option<&str>) -> (url: String)
    ensures
        url@ == url_for(
            percent_encoded(text@),
            to@,
            match from {
                Some(source) => Some(source@),
                None => None,
            },
        ),
{
    let encoded = url_encode(text);
    translate_url_encoded(encoded.as_str(), to, from)
}

/// Picks the translation out of a parsed answer.
pub fn pick_translation(document: &serde_json::Value) -> (picked: Result<String, String>)
    ensures
        texts(picked) == translation_in(json_strings(*document)),
{
    let outer = json_index(document, 0);
    let middle = json_index(outer, 0);
    let inner = json_index(middle, 0);
    proof {
        let none = Seq::<int>::empty();
        assert(seq![0int] + (seq![0int] + (seq![0int] + none)) =~= translation_path());
        assert(seq![0int] + none =~= seq![0int]);
        assert(seq![0int] + seq![0int] =~= seq![0int, 0int]);
        assert(seq![0int] + seq![0int, 0int] =~= translation_path());
    }
    match json_as_str(inner) {
        Some(translated) => Ok(translated.to_string()),
        None => Err(NOT_FOUND.to_string()),
    }
}

/// Reads the translation out of what the service answered.
pub fn translate_text(fetched: Result<String, FetchFailure>) -> (translated: Result<String, String>)
    ensures
        texts(translated) == translation_of(
            match fetched {
                Ok(body) => Ok(body@),
                Err(failure) => Err(failure),
            },
            match fetched {
                Ok(body) => json_document(body@),
                Err(_) => None,
            },
        ),
{
    match fetched {
        Err(FetchFailure::Send) => Err(SEND_FAILED.to_string()),
        Err(FetchFailure::Body) => Err(BODY_FAILED.to_string()),
        Ok(body) => match json_from_str(body.as_str()) {
            Err(_) => Err(PARSE_FAILED.to_string()),
            Ok(document) => pick_translation(&document),
        },
    }
}

} // verus!
