//! The sentence generator: what to ask the language model for a word, and
//! what its reply must look like.

use crate::error::ReplyError;
use crate::json::{json_parse, Json, JsonValue};
use crate::model::{texts_of, views, ExampleSentence, ExampleSentenceView};
use crate::text::trimmed;
use vstd::prelude::*;
use vstd::string::StringExecFns;
use vstd::utf8::encode_utf8;

verus! {

/// Where the chat-completion service is reached.
pub const COMPLETION_BASE_URL: &'static str = "https://api.deepseek.com/v1";

/// The model that writes the sentences.
pub const COMPLETION_MODEL: &'static str = "deepseek-chat";

/// The system message: the model is to act as an expert translator.
pub const SYSTEM_INSTRUCTION: &'static str = "你是一个精通各个专业的翻译专家。";

/// The subject area that the sentences are drawn from.
pub const TOPIC: &'static str = "RUST编程语言";

/// The instruction up to the word.
pub const INSTRUCTION_HEAD: &'static str = "\n英文单词";

/// The instruction between the word and the subject area.
pub const INSTRUCTION_MIDDLE: &'static str = "生成3个例句，领域范围为";

/// The rest of the instruction: reply with a bare JSON array of objects with
/// the keys `en` and `cn`; `cn` is plain text; `en` is wrapped in `<speak>`,
/// spells the word with `<say-as interpret-as="characters">`, pauses for one
/// second, and then gives the sentence with no markup and no punctuation but
/// comma and full stop.
pub const INSTRUCTION_TAIL: &'static str =
    "；\n你的响应包括原文及中文翻译，输出格式使用JSON数组，英文key为en，中文key为cn；\n中文例句直接按文本处理，不需要SSML格式；\n英文例句严格采用SSML 格式，即以<speak>封装整个例句；例句中，首先使用标记<say-as interpret-as=\"characters\">重复这个单词，然后使用<break time=\\\"1s\\\"/>停顿1秒，最后是完整的英文例句，完整例句中无需SSML标记，完整例句中也无需各种除,.之外的符号;\n不要回复多余的内容，不要包含Markdown或Html的标记，不要返回```json。";

/// How many sentences a reply must hold.
pub const SENTENCES_PER_WORD: usize = 3;

/// A request to a chat-completion service: one system message and one user
/// message.
#[derive(Debug, Clone, PartialEq, Eq)]
pub struct ChatRequest {
    pub api_key: String,
    pub base_url: String,
    pub model: String,
    pub system: String,
    pub user: String,
}

/// The mathematical value of a `ChatRequest`.
pub struct ChatRequestView {
    pub api_key: Seq<char>,
    pub base_url: Seq<char>,
    pub model: Seq<char>,
    pub system: Seq<char>,
    pub user: Seq<char>,
}

impl View for ChatRequest {
    type V = ChatRequestView;

    open spec fn view(&self) -> ChatRequestView {
        ChatRequestView {
            api_key: self.api_key@,
            base_url: self.base_url@,
            model: self.model@,
            system: self.system@,
            user: self.user@,
        }
    }
}

/// The instruction that asks for example sentences with `word`, drawn from
/// `topic`.
pub open spec fn instruction(word: Seq<char>, topic: Seq<char>) -> Seq<char> {
    INSTRUCTION_HEAD@ + word + INSTRUCTION_MIDDLE@ + topic + INSTRUCTION_TAIL@
}

/// The request that asks for example sentences with `word`.
pub open spec fn sentence_request(api_key: Seq<char>, word: Seq<char>) -> ChatRequestView {
    ChatRequestView {
        api_key,
        base_url: COMPLETION_BASE_URL@,
        model: COMPLETION_MODEL@,
        system: SYSTEM_INSTRUCTION@,
        user: instruction(word, TOPIC@),
    }
}

/// The sentence that a reply's entry holds: an object whose `cn` and `en`
/// are strings. Other members are passed over.
pub open spec fn sentence_of(entry: JsonValue) -> Option<ExampleSentenceView> {
    match (entry.text_member("cn"@), entry.text_member("en"@)) {
        (Some(cn), Some(en)) => Some(ExampleSentenceView { cn, en }),
        _ => None,
    }
}

/// The sentences of `entries`, in their order, where every entry holds one.
pub open spec fn sentences_of(entries: Seq<JsonValue>) -> Option<Seq<ExampleSentenceView>> {
    if forall|i: int| 0 <= i < entries.len() ==> sentence_of(#[trigger] entries[i]) is Some {
        Some(Seq::new(entries.len(), |i: int| sentence_of(entries[i])->Some_0))
    } else {
        None
    }
}

/// What a reply's document yields: its sentences, where it is an array of
/// exactly three entries that each hold one.
pub open spec fn sentence_rows(doc: JsonValue) -> Result<Seq<ExampleSentenceView>, ReplyError> {
    match doc.items() {
        None => Err(ReplyError::Shape),
        Some(entries) => match sentences_of(entries) {
            None => Err(ReplyError::Shape),
            Some(rows) => if rows.len() == SENTENCES_PER_WORD {
                Ok(rows)
            } else {
                Err(ReplyError::Count { found: rows.len() as usize })
            },
        },
    }
}

/// The text of a reply, given the contents of its choices in their order:
/// the content of the first choice.
pub open spec fn reply_text(choices: Seq<Option<Seq<char>>>) -> Option<Seq<char>> {
    if choices.len() > 0 {
        choices[0]
    } else {
        None
    }
}

/// What a reply's text yields: the sentences of the document that it holds
/// between the white space at either end.
pub open spec fn decoded_sentences(reply: Seq<char>) -> Result<
    Seq<ExampleSentenceView>,
    ReplyError,
> {
    match json_parse(encode_utf8(trimmed(reply))) {
        None => Err(ReplyError::Syntax),
        Some(doc) => sentence_rows(doc),
    }
}

/// A reply's document is accepted exactly when it is an array of three
/// entries that each hold a sentence. The sentences it then yields are the
/// `cn` and `en` strings of its entries, one for one and in their order.
pub proof fn accepted_document_has_three_sentences(doc: JsonValue)
    ensures
        sentence_rows(doc) is Ok <==> {
            &&& doc.items() is Some
            &&& doc.items()->Some_0.len() == 3
            &&& forall|i: int|
                0 <= i < 3 ==> sentence_of(#[trigger] doc.items()->Some_0[i]) is Some
        },
        sentence_rows(doc) is Ok ==> {
            &&& sentence_rows(doc)->Ok_0.len() == 3
            &&& forall|i: int|
                0 <= i < 3 ==> {
                    &&& (#[trigger] doc.items()->Some_0[i]).text_member("cn"@) == Some(
                        sentence_rows(doc)->Ok_0[i].cn,
                    )
                    &&& doc.items()->Some_0[i].text_member("en"@) == Some(
                        sentence_rows(doc)->Ok_0[i].en,
                    )
                }
        },
{
}

/// A reply is accepted only with three sentences: one with fewer or more is
/// refused, never cut short or filled up.
pub proof fn accepted_reply_has_three_sentences(reply: Seq<char>)
    ensures
        decoded_sentences(reply) is Ok ==> decoded_sentences(reply)->Ok_0.len() == 3,
        decoded_sentences(reply) is Ok ==> json_parse(encode_utf8(trimmed(reply))) is Some,
{
}

/// No sentence of an accepted reply has an empty field, where no entry of
/// the reply has an empty string under `cn` or `en`.
pub proof fn sentences_keep_filled_fields(doc: JsonValue)
    requires
        sentence_rows(doc) is Ok,
        forall|i: int|
            0 <= i < doc.items()->Some_0.len() ==> {
                &&& (#[trigger] doc.items()->Some_0[i]).text_member("cn"@)->Some_0.len() > 0
                &&& doc.items()->Some_0[i].text_member("en"@)->Some_0.len() > 0
            },
    ensures
        forall|i: int|
            0 <= i < sentence_rows(doc)->Ok_0.len() ==> {
                &&& (#[trigger] sentence_rows(doc)->Ok_0[i]).cn.len() > 0
                &&& sentence_rows(doc)->Ok_0[i].en.len() > 0
            },
{
    let entries = doc.items()->Some_0;
    let rows = sentence_rows(doc)->Ok_0;
    assert forall|i: int| 0 <= i < rows.len() implies {
        &&& (#[trigger] rows[i]).cn.len() > 0
        &&& rows[i].en.len() > 0
    } by {
        assert(sentence_of(entries[i]) == Some(rows[i]));
    }
}

/// The instruction that asks for example sentences with `word`, drawn from
/// `topic`.
pub fn instruction_text(word: &str, topic: &str) -> (r: String)
    ensures
        r@ == instruction(word@, topic@),
{
    String::from_str(INSTRUCTION_HEAD).concat(word).concat(INSTRUCTION_MIDDLE).concat(
        topic,
    ).concat(INSTRUCTION_TAIL)
}

/// The request that asks for example sentences with `word`.
pub fn chat_request(api_key: &str, word: &str) -> (r: ChatRequest)
    ensures
        r@ == sentence_request(api_key@, word@),
{
    ChatRequest {
        api_key: String::from_str(api_key),
        base_url: String::from_str(COMPLETION_BASE_URL),
        model: String::from_str(COMPLETION_MODEL),
        system: String::from_str(SYSTEM_INSTRUCTION),
        user: instruction_text(word, TOPIC),
    }
}

/// The text of a reply, given the contents of its choices in their order.
pub fn first_content(choices: &Vec<Option<String>>) -> (r: Option<&String>)
    ensures
        match r {
            Some(text) => reply_text(texts_of(choices@)) == Some(text@),
            None => reply_text(texts_of(choices@)) is None,
        },
{
    if choices.len() > 0 {
        match &choices[0] {
            Some(text) => Some(text),
            None => None,
        }
    } else {
        None
    }
}

/// The sentence that a reply's entry holds.
pub fn sentence_from(entry: &Json) -> (r: Option<ExampleSentence>)
    ensures
        match r {
            Some(s) => sentence_of(entry@) == Some(s@),
            None => sentence_of(entry@) is None,
        },
{
    match (entry.text_member("cn"), entry.text_member("en")) {
        (Some(cn), Some(en)) => Some(ExampleSentence { cn: cn.clone(), en: en.clone() }),
        _ => None,
    }
}

/// The sentences of a reply's document.
pub fn sentences_from_document(doc: &Json) -> (r: Result<Vec<ExampleSentence>, ReplyError>)
    ensures
        match r {
            Ok(rows) => sentence_rows(doc@) == Ok::<Seq<ExampleSentenceView>, ReplyError>(
                views(rows@),
            ),
            Err(e) => sentence_rows(doc@) == Err::<Seq<ExampleSentenceView>, ReplyError>(e),
        },
{
    let entries = match doc.items() {
        Some(entries) => entries,
        None => {
            return Err(ReplyError::Shape);
        },
    };
    let ghost values = doc@.items()->Some_0;
    let mut rows: Vec<ExampleSentence> = Vec::new();
    let mut i: usize = 0;
    while i < entries.len()
        invariant
            i <= entries.len(),
            doc@.items() == Some(values),
            values.len() == entries.len(),
            forall|k: int| 0 <= k < entries.len() ==> values[k] == entries[k]@,
            rows.len() == i,
            forall|k: int| 0 <= k < i ==> sentence_of(#[trigger] values[k]) == Some(rows[k]@),
        decreases entries.len() - i,
    {
        match sentence_from(&entries[i]) {
            Some(row) => {
                rows.push(row);
            },
            None => {
                assert(sentence_of(values[i as int]) is None);
                return Err(ReplyError::Shape);
            },
        }
        i += 1;
    }
    assert(sentences_of(values) == Some(views(rows@))) by {
        assert(sentences_of(values)->Some_0 =~= views(rows@));
    }
    if rows.len() == SENTENCES_PER_WORD {
        Ok(rows)
    } else {
        Err(ReplyError::Count { found: rows.len() })
    }
}

/// The sentences that a reply holds.
pub fn decode_sentences(reply: &str) -> (r: Result<Vec<ExampleSentence>, ReplyError>)
    ensures
        match r {
            Ok(rows) => decoded_sentences(reply@) == Ok::<Seq<ExampleSentenceView>, ReplyError>(
                views(rows@),
            ),
            Err(e) => decoded_sentences(reply@) == Err::<Seq<ExampleSentenceView>, ReplyError>(e),
        },
{
    match Json::parse(reply.trim().as_bytes()) {
        Ok(doc) => sentences_from_document(&doc),
        Err(e) => Err(e),
    }
}

} // verus!
