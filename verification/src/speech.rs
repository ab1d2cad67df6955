//! The speech synthesizer: what to ask the text-to-speech service for a
//! sentence, what audio its reply holds, and where that audio is kept.

use crate::error::ReplyError;
use crate::http::{Header, HeaderView, HttpRequest, HttpRequestView, Method, CONTENT_TYPE};
use crate::json::{json_parse, json_string_literal, string_literal, Json, JsonValue};
use crate::text::{decimal, decimal_text, decimals_differ};
use vstd::prelude::*;
use vstd::string::StringExecFns;

verus! {

/// Where the text-to-speech service is reached.
pub const SYNTHESIS_URL: &'static str = "https://texttospeech.googleapis.com/v1/text:synthesize";

/// The name of the header that carries the service's key.
pub const API_KEY_HEADER: &'static str = "X-goog-api-key";

/// What the body of a synthesis request is.
pub const JSON_CONTENT: &'static str = "application/json";

/// A synthesis request's body up to the marked-up sentence: MP3 is asked
/// for.
pub const BODY_HEAD: &'static str = "{\"audioConfig\":{\"audioEncoding\":\"MP3\"},\"input\":{\"ssml\":";

/// A synthesis request's body after the marked-up sentence: the voice is
/// US English, `en-US-Neural2-A`.
pub const BODY_TAIL: &'static str =
    "},\"voice\":{\"languageCode\":\"en-US\",\"name\":\"en-US-Neural2-A\"}}";

/// The member of the reply that holds the audio, in base64.
pub const AUDIO_MEMBER: &'static str = "audioContent";

/// The directory that the audio files go to.
pub const AUDIO_DIRECTORY: &'static str = "data/";

/// What an audio file's name ends with.
pub const AUDIO_SUFFIX: &'static str = ".mp3";

/// `base64::DecodeError`, as a type whose values are only handed on.
#[verifier::external_type_specification]
#[verifier::external_body]
pub struct ExDecodeError(base64::DecodeError);

/// The bytes that `text` stands for in standard base64 with padding, or
/// `None` where it is not such a text.
pub uninterp spec fn base64_decode(text: Seq<char>) -> Option<Seq<u8>>;

/// Calls `decode` of `base64`'s `STANDARD` engine. Not proved: that the
/// outcome is a function of the characters alone, named `base64_decode`;
/// nothing is claimed about which texts are accepted.
#[verifier::external_body]
fn standard_decode(text: &str) -> (r: Result<Vec<u8>, base64::DecodeError>)
    ensures
        match r {
            Ok(bytes) => base64_decode(text@) == Some(bytes@),
            Err(_) => base64_decode(text@) is None,
        },
{
    base64::Engine::decode(&base64::engine::general_purpose::STANDARD, text)
}

/// The body that asks for `ssml` to be spoken, given its JSON string
/// literal.
pub open spec fn synthesis_body(literal: Seq<char>) -> Seq<char> {
    BODY_HEAD@ + literal + BODY_TAIL@
}

/// The request that sends `body` to the text-to-speech service under
/// `api_key`.
pub open spec fn synthesis_request(api_key: Seq<char>, body: Seq<char>) -> HttpRequestView {
    HttpRequestView {
        method: Method::Post,
        url: SYNTHESIS_URL@,
        headers: seq![
            HeaderView { name: API_KEY_HEADER@, value: api_key },
            HeaderView { name: CONTENT_TYPE@, value: JSON_CONTENT@ },
        ],
        body: Some(body),
    }
}

/// The request that asks for `ssml` to be spoken, where its JSON string
/// literal can be had.
pub open spec fn speech_request_for(api_key: Seq<char>, ssml: Seq<char>) -> Option<
    HttpRequestView,
> {
    match json_string_literal(ssml) {
        Some(literal) => Some(synthesis_request(api_key, synthesis_body(literal))),
        None => None,
    }
}

/// The base64 text of the audio that a reply's document holds: the string
/// under `audioContent`.
pub open spec fn payload_of(doc: JsonValue) -> Result<Seq<char>, ReplyError> {
    match doc.text_member(AUDIO_MEMBER@) {
        Some(text) => Ok(text),
        None => Err(ReplyError::Shape),
    }
}

/// The audio that a base64 text stands for.
pub open spec fn audio_of_payload(payload: Seq<char>) -> Result<Seq<u8>, ReplyError> {
    match base64_decode(payload) {
        Some(bytes) => Ok(bytes),
        None => Err(ReplyError::Encoding),
    }
}

/// The audio that a reply holds.
pub open spec fn decoded_audio(body: Seq<u8>) -> Result<Seq<u8>, ReplyError> {
    match json_parse(body) {
        None => Err(ReplyError::Syntax),
        Some(doc) => match payload_of(doc) {
            Err(e) => Err(e),
            Ok(payload) => audio_of_payload(payload),
        },
    }
}

/// Where the audio of sentence number `index` of `word` is kept.
pub open spec fn audio_file(word: Seq<char>, index: nat) -> Seq<char> {
    AUDIO_DIRECTORY@ + word + seq!['-'] + decimal(index) + AUDIO_SUFFIX@
}

/// The sentences of one word go to different files: two numbers give the
/// same file only where they are the same number.
pub proof fn audio_files_differ(word: Seq<char>, first: nat, second: nat)
    requires
        first != second,
    ensures
        audio_file(word, first) != audio_file(word, second),
{
    decimals_differ(first, second);
    let head = AUDIO_DIRECTORY@ + word + seq!['-'];
    let a = decimal(first);
    let b = decimal(second);
    if audio_file(word, first) == audio_file(word, second) {
        assert(audio_file(word, first).len() == head.len() + a.len() + AUDIO_SUFFIX@.len());
        assert(audio_file(word, second).len() == head.len() + b.len() + AUDIO_SUFFIX@.len());
        assert(a.len() == b.len());
        assert(a =~= audio_file(word, first).subrange(
            head.len() as int,
            (head.len() + a.len()) as int,
        ));
        assert(b =~= audio_file(word, second).subrange(
            head.len() as int,
            (head.len() + b.len()) as int,
        ));
        assert(false);
    }
}

/// The body that asks for a sentence to be spoken, given the sentence's
/// JSON string literal.
pub fn synthesis_body_text(literal: &str) -> (r: String)
    ensures
        r@ == synthesis_body(literal@),
{
    String::from_str(BODY_HEAD).concat(literal).concat(BODY_TAIL)
}

/// The request that sends `body` to the text-to-speech service under
/// `api_key`.
pub fn synthesis_request_with(api_key: &str, body: String) -> (r: HttpRequest)
    ensures
        r@ == synthesis_request(api_key@, body@),
{
    let mut headers: Vec<Header> = Vec::new();
    headers.push(Header { name: API_KEY_HEADER.to_owned(), value: api_key.to_owned() });
    headers.push(Header { name: CONTENT_TYPE.to_owned(), value: JSON_CONTENT.to_owned() });
    let r = HttpRequest {
        method: Method::Post,
        url: SYNTHESIS_URL.to_owned(),
        headers,
        body: Some(body),
    };
    assert(r@.headers =~= synthesis_request(api_key@, body@).headers);
    r
}

/// The request that asks for `ssml` to be spoken.
pub fn speech_request(api_key: &str, ssml: &str) -> (r: Option<HttpRequest>)
    ensures
        match r {
            Some(request) => speech_request_for(api_key@, ssml@) == Some(request@),
            None => speech_request_for(api_key@, ssml@) is None,
        },
{
    match string_literal(ssml) {
        Some(literal) => Some(
            synthesis_request_with(api_key, synthesis_body_text(literal.as_str())),
        ),
        None => None,
    }
}

/// The base64 text of the audio that a reply's document holds.
pub fn audio_payload(doc: &Json) -> (r: Result<&String, ReplyError>)
    ensures
        match r {
            Ok(text) => payload_of(doc@) == Ok::<Seq<char>, ReplyError>(text@),
            Err(e) => payload_of(doc@) == Err::<Seq<char>, ReplyError>(e),
        },
{
    match doc.text_member(AUDIO_MEMBER) {
        Some(text) => Ok(text),
        None => Err(ReplyError::Shape),
    }
}

/// The audio that a base64 text stands for.
pub fn decode_payload(payload: &str) -> (r: Result<Vec<u8>, ReplyError>)
    ensures
        match r {
            Ok(bytes) => audio_of_payload(payload@) == Ok::<Seq<u8>, ReplyError>(bytes@),
            Err(e) => audio_of_payload(payload@) == Err::<Seq<u8>, ReplyError>(e),
        },
{
    match standard_decode(payload) {
        Ok(bytes) => Ok(bytes),
        Err(_) => Err(ReplyError::Encoding),
    }
}

/// The audio that a reply holds.
pub fn decode_audio(body: &[u8]) -> (r: Result<Vec<u8>, ReplyError>)
    ensures
        match r {
            Ok(bytes) => decoded_audio(body@) == Ok::<Seq<u8>, ReplyError>(bytes@),
            Err(e) => decoded_audio(body@) == Err::<Seq<u8>, ReplyError>(e),
        },
{
    let doc = match Json::parse(body) {
        Ok(doc) => doc,
        Err(e) => {
            return Err(e);
        },
    };
    match audio_payload(&doc) {
        Ok(payload) => decode_payload(payload.as_str()),
        Err(e) => Err(e),
    }
}

/// Where the audio of sentence number `index` of `word` is kept.
pub fn audio_path(word: &str, index: usize) -> (r: String)
    ensures
        r@ == audio_file(word@, index as nat),
{
    proof {
        reveal_strlit("-");
    }
    let number = decimal_text(index);
    let r = String::from_str(AUDIO_DIRECTORY).concat(word).concat("-").concat(
        number.as_str(),
    ).concat(AUDIO_SUFFIX);
    assert("-"@ =~= seq!['-']);
    r
}

} // verus!
