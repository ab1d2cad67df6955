//! The vocabulary service: how its study lists and their words are asked
//! for, and what its replies hold.

use crate::error::ReplyError;
use crate::http::{authorized_get, HttpRequest, HttpRequestView};
use crate::json::{json_parse, Json, JsonValue};
use crate::model::{views, Category, CategoryView, Word, WordView};
use vstd::prelude::*;
use vstd::string::StringExecFns;

verus! {

/// The address of the study lists of a language, up to the language.
pub const CATEGORY_URL: &'static str =
    "https://api.frdic.com/api/open/v1/studylist/category?language=";

/// The address of the first page of the English words of a study list, up
/// to the list's id.
pub const WORDS_URL: &'static str =
    "https://api.frdic.com/api/open/v1/studylist/words/0?language=en&category_id=";

/// The member of a reply that holds its entries.
pub const DATA_MEMBER: &'static str = "data";

/// The member of a reply that holds the service's remark.
pub const MESSAGE_MEMBER: &'static str = "message";

/// The request for the study lists of `language`.
pub open spec fn category_request_for(language: Seq<char>, token: Seq<char>) -> HttpRequestView {
    authorized_get(CATEGORY_URL@ + language, token)
}

/// The request for the words of the study list `id`.
pub open spec fn words_request_for(id: Seq<char>, token: Seq<char>) -> HttpRequestView {
    authorized_get(WORDS_URL@ + id, token)
}

/// The entries of a reply's document: the array under `data` of an object
/// whose `message` is a string.
pub open spec fn entries_of(doc: JsonValue) -> Option<Seq<JsonValue>> {
    match doc.text_member(MESSAGE_MEMBER@) {
        Some(_) => doc.items_member(DATA_MEMBER@),
        None => None,
    }
}

/// The study list that an entry holds: an object whose `id`, `language` and
/// `name` are strings. Other members are passed over.
pub open spec fn category_of(entry: JsonValue) -> Option<CategoryView> {
    match (entry.text_member("id"@), entry.text_member("language"@), entry.text_member("name"@)) {
        (Some(id), Some(language), Some(name)) => Some(CategoryView { id, language, name }),
        _ => None,
    }
}

/// The study lists of `entries`, in their order, where every entry holds
/// one.
pub open spec fn categories_of(entries: Seq<JsonValue>) -> Option<Seq<CategoryView>> {
    if forall|i: int| 0 <= i < entries.len() ==> category_of(#[trigger] entries[i]) is Some {
        Some(Seq::new(entries.len(), |i: int| category_of(entries[i])->Some_0))
    } else {
        None
    }
}

/// The study lists that a reply's document yields.
pub open spec fn category_rows(doc: JsonValue) -> Result<Seq<CategoryView>, ReplyError> {
    match entries_of(doc) {
        None => Err(ReplyError::Shape),
        Some(entries) => match categories_of(entries) {
            None => Err(ReplyError::Shape),
            Some(rows) => Ok(rows),
        },
    }
}

/// The study lists that a reply holds.
pub open spec fn decoded_categories(body: Seq<u8>) -> Result<Seq<CategoryView>, ReplyError> {
    match json_parse(body) {
        None => Err(ReplyError::Syntax),
        Some(doc) => category_rows(doc),
    }
}

/// The word that an entry holds: an object whose `word` and `exp` are
/// strings. Other members are passed over.
pub open spec fn word_of(entry: JsonValue) -> Option<WordView> {
    match (entry.text_member("word"@), entry.text_member("exp"@)) {
        (Some(word), Some(exp)) => Some(WordView { word, exp }),
        _ => None,
    }
}

/// The words of `entries`, in their order, where every entry holds one.
pub open spec fn words_of(entries: Seq<JsonValue>) -> Option<Seq<WordView>> {
    if forall|i: int| 0 <= i < entries.len() ==> word_of(#[trigger] entries[i]) is Some {
        Some(Seq::new(entries.len(), |i: int| word_of(entries[i])->Some_0))
    } else {
        None
    }
}

/// The words that a reply's document yields.
pub open spec fn word_rows(doc: JsonValue) -> Result<Seq<WordView>, ReplyError> {
    match entries_of(doc) {
        None => Err(ReplyError::Shape),
        Some(entries) => match words_of(entries) {
            None => Err(ReplyError::Shape),
            Some(rows) => Ok(rows),
        },
    }
}

/// The words that a reply holds.
pub open spec fn decoded_words(body: Seq<u8>) -> Result<Seq<WordView>, ReplyError> {
    match json_parse(body) {
        None => Err(ReplyError::Syntax),
        Some(doc) => word_rows(doc),
    }
}

/// A reply's document is accepted as a listing exactly when it is an object
/// with a string `message` and an array `data` whose entries each hold a
/// study list. It then yields as many study lists as `data` has entries,
/// and the fields of each are the strings of the entry at its place.
pub proof fn categories_mirror_data(doc: JsonValue)
    ensures
        category_rows(doc) is Ok <==> {
            &&& doc.text_member(MESSAGE_MEMBER@) is Some
            &&& doc.items_member(DATA_MEMBER@) is Some
            &&& forall|i: int|
                0 <= i < doc.items_member(DATA_MEMBER@)->Some_0.len() ==> category_of(
                    #[trigger] doc.items_member(DATA_MEMBER@)->Some_0[i],
                ) is Some
        },
        category_rows(doc) is Ok ==> {
            &&& category_rows(doc)->Ok_0.len() == doc.items_member(DATA_MEMBER@)->Some_0.len()
            &&& forall|i: int|
                0 <= i < category_rows(doc)->Ok_0.len() ==> {
                    &&& (#[trigger] doc.items_member(DATA_MEMBER@)->Some_0[i]).text_member("id"@)
                        == Some(category_rows(doc)->Ok_0[i].id)
                    &&& doc.items_member(DATA_MEMBER@)->Some_0[i].text_member("language"@)
                        == Some(category_rows(doc)->Ok_0[i].language)
                    &&& doc.items_member(DATA_MEMBER@)->Some_0[i].text_member("name"@) == Some(
                        category_rows(doc)->Ok_0[i].name,
                    )
                }
        },
{
}

/// A reply's document is accepted as a word list exactly when it is an
/// object with a string `message` and an array `data` whose entries each
/// hold a word. It then yields the words of `data`, all of them and in their
/// order.
pub proof fn words_mirror_data(doc: JsonValue)
    ensures
        word_rows(doc) is Ok <==> {
            &&& doc.text_member(MESSAGE_MEMBER@) is Some
            &&& doc.items_member(DATA_MEMBER@) is Some
            &&& forall|i: int|
                0 <= i < doc.items_member(DATA_MEMBER@)->Some_0.len() ==> word_of(
                    #[trigger] doc.items_member(DATA_MEMBER@)->Some_0[i],
                ) is Some
        },
        word_rows(doc) is Ok ==> {
            &&& word_rows(doc)->Ok_0.len() == doc.items_member(DATA_MEMBER@)->Some_0.len()
            &&& forall|i: int|
                0 <= i < word_rows(doc)->Ok_0.len() ==> {
                    &&& (#[trigger] doc.items_member(DATA_MEMBER@)->Some_0[i]).text_member("word"@)
                        == Some(word_rows(doc)->Ok_0[i].word)
                    &&& doc.items_member(DATA_MEMBER@)->Some_0[i].text_member("exp"@) == Some(
                        word_rows(doc)->Ok_0[i].exp,
                    )
                }
        },
{
}

/// The request for the study lists of `language`.
pub fn category_request(language: &str, token: &str) -> (r: HttpRequest)
    ensures
        r@ == category_request_for(language@, token@),
{
    HttpRequest::get_authorized(String::from_str(CATEGORY_URL).concat(language), token)
}

/// The request for the words of `category`.
pub fn words_request(category: &Category, token: &str) -> (r: HttpRequest)
    ensures
        r@ == words_request_for(category@.id, token@),
{
    HttpRequest::get_authorized(
        String::from_str(WORDS_URL).concat(category.id.as_str()),
        token,
    )
}

/// The entries of a reply's document.
pub fn entries(doc: &Json) -> (r: Option<&Vec<Json>>)
    ensures
        match r {
            Some(items) => entries_of(doc@) == Some(crate::json::items_view(items@)),
            None => entries_of(doc@) is None,
        },
{
    match doc.text_member(MESSAGE_MEMBER) {
        Some(_) => doc.items_member(DATA_MEMBER),
        None => None,
    }
}

/// The study list that an entry holds.
pub fn category_from(entry: &Json) -> (r: Option<Category>)
    ensures
        match r {
            Some(c) => category_of(entry@) == Some(c@),
            None => category_of(entry@) is None,
        },
{
    match (entry.text_member("id"), entry.text_member("language"), entry.text_member("name")) {
        (Some(id), Some(language), Some(name)) => Some(
            Category { id: id.clone(), language: language.clone(), name: name.clone() },
        ),
        _ => None,
    }
}

/// The study lists that a reply's document yields.
pub fn categories_from_document(doc: &Json) -> (r: Result<Vec<Category>, ReplyError>)
    ensures
        match r {
            Ok(rows) => category_rows(doc@) == Ok::<Seq<CategoryView>, ReplyError>(views(rows@)),
            Err(e) => category_rows(doc@) == Err::<Seq<CategoryView>, ReplyError>(e),
        },
{
    let items = match entries(doc) {
        Some(items) => items,
        None => {
            return Err(ReplyError::Shape);
        },
    };
    let ghost values = entries_of(doc@)->Some_0;
    let mut rows: Vec<Category> = Vec::new();
    let mut i: usize = 0;
    while i < items.len()
        invariant
            i <= items.len(),
            entries_of(doc@) == Some(values),
            values.len() == items.len(),
            forall|k: int| 0 <= k < items.len() ==> values[k] == items[k]@,
            rows.len() == i,
            forall|k: int| 0 <= k < i ==> category_of(#[trigger] values[k]) == Some(rows[k]@),
        decreases items.len() - i,
    {
        match category_from(&items[i]) {
            Some(row) => {
                rows.push(row);
            },
            None => {
                assert(category_of(values[i as int]) is None);
                return Err(ReplyError::Shape);
            },
        }
        i += 1;
    }
    assert(categories_of(values) == Some(views(rows@))) by {
        assert(categories_of(values)->Some_0 =~= views(rows@));
    }
    Ok(rows)
}

/// The study lists that a reply holds.
pub fn decode_categories(body: &[u8]) -> (r: Result<Vec<Category>, ReplyError>)
    ensures
        match r {
            Ok(rows) => decoded_categories(body@) == Ok::<Seq<CategoryView>, ReplyError>(
                views(rows@),
            ),
            Err(e) => decoded_categories(body@) == Err::<Seq<CategoryView>, ReplyError>(e),
        },
{
    match Json::parse(body) {
        Ok(doc) => categories_from_document(&doc),
        Err(e) => Err(e),
    }
}

/// The word that an entry holds.
pub fn word_from(entry: &Json) -> (r: Option<Word>)
    ensures
        match r {
            Some(w) => word_of(entry@) == Some(w@),
            None => word_of(entry@) is None,
        },
{
    match (entry.text_member("word"), entry.text_member("exp")) {
        (Some(word), Some(exp)) => Some(Word { word: word.clone(), exp: exp.clone() }),
        _ => None,
    }
}

/// The words that a reply's document yields.
pub fn words_from_document(doc: &Json) -> (r: Result<Vec<Word>, ReplyError>)
    ensures
        match r {
            Ok(rows) => word_rows(doc@) == Ok::<Seq<WordView>, ReplyError>(views(rows@)),
            Err(e) => word_rows(doc@) == Err::<Seq<WordView>, ReplyError>(e),
        },
{
    let items = match entries(doc) {
        Some(items) => items,
        None => {
            return Err(ReplyError::Shape);
        },
    };
    let ghost values = entries_of(doc@)->Some_0;
    let mut rows: Vec<Word> = Vec::new();
    let mut i: usize = 0;
    while i < items.len()
        invariant
            i <= items.len(),
            entries_of(doc@) == Some(values),
            values.len() == items.len(),
            forall|k: int| 0 <= k < items.len() ==> values[k] == items[k]@,
            rows.len() == i,
            forall|k: int| 0 <= k < i ==> word_of(#[trigger] values[k]) == Some(rows[k]@),
        decreases items.len() - i,
    {
        match word_from(&items[i]) {
            Some(row) => {
                rows.push(row);
            },
            None => {
                assert(word_of(values[i as int]) is None);
                return Err(ReplyError::Shape);
            },
        }
        i += 1;
    }
    assert(words_of(values) == Some(views(rows@))) by {
        assert(words_of(values)->Some_0 =~= views(rows@));
    }
    Ok(rows)
}

/// The words that a reply holds.
pub fn decode_words(body: &[u8]) -> (r: Result<Vec<Word>, ReplyError>)
    ensures
        match r {
            Ok(rows) => decoded_words(body@) == Ok::<Seq<WordView>, ReplyError>(views(rows@)),
            Err(e) => decoded_words(body@) == Err::<Seq<WordView>, ReplyError>(e),
        },
{
    match Json::parse(body) {
        Ok(doc) => words_from_document(&doc),
        Err(e) => Err(e),
    }
}

} // verus!
