//! The study data that flows through the pipeline.

use vstd::prelude::*;

verus! {

/// A study list of the vocabulary service.
#[derive(Debug, Clone, PartialEq, Eq)]
pub struct Category {
    pub id: String,
    pub language: String,
    pub name: String,
}

/// The mathematical value of a `Category`.
pub struct CategoryView {
    pub id: Seq<char>,
    pub language: Seq<char>,
    pub name: Seq<char>,
}

impl View for Category {
    type V = CategoryView;

    open spec fn view(&self) -> CategoryView {
        CategoryView { id: self.id@, language: self.language@, name: self.name@ }
    }
}

/// One vocabulary item: the word and its explanation.
#[derive(Debug, Clone, PartialEq, Eq)]
pub struct Word {
    pub word: String,
    pub exp: String,
}

/// The mathematical value of a `Word`.
pub struct WordView {
    pub word: Seq<char>,
    pub exp: Seq<char>,
}

impl View for Word {
    type V = WordView;

    open spec fn view(&self) -> WordView {
        WordView { word: self.word@, exp: self.exp@ }
    }
}

/// An example sentence in two languages: `cn` is plain text, `en` is
/// marked up for speech synthesis.
#[derive(Debug, Clone, PartialEq, Eq)]
pub struct ExampleSentence {
    pub cn: String,
    pub en: String,
}

/// The mathematical value of an `ExampleSentence`.
pub struct ExampleSentenceView {
    pub cn: Seq<char>,
    pub en: Seq<char>,
}

impl View for ExampleSentence {
    type V = ExampleSentenceView;

    open spec fn view(&self) -> ExampleSentenceView {
        ExampleSentenceView { cn: self.cn@, en: self.en@ }
    }
}

/// The value of an optional string.
pub open spec fn text_of(value: Option<String>) -> Option<Seq<char>> {
    match value {
        Some(s) => Some(s@),
        None => None,
    }
}

/// The values of a sequence of optional strings, element by element.
pub open spec fn texts_of(values: Seq<Option<String>>) -> Seq<Option<Seq<char>>> {
    Seq::new(values.len(), |i: int| text_of(values[i]))
}

/// The values of a sequence, element by element.
pub open spec fn views<T: View>(items: Seq<T>) -> Seq<T::V> {
    Seq::new(items.len(), |i: int| items[i]@)
}

} // verus!
