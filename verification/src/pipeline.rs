//! The driver: one run over every study list, every word of each, and every
//! sentence of each word, as a machine that is told what the outside world
//! answered and says what to do next.

use crate::credentials::{Credentials, CredentialsView};
use crate::error::ReplyError;
use crate::http::{HttpRequest, HttpRequestView};
use crate::model::{
    texts_of, views, Category, CategoryView, ExampleSentence, ExampleSentenceView, Word, WordView,
};
use crate::sentences::{
    chat_request, decode_sentences, decoded_sentences, first_content, reply_text,
    sentence_request, ChatRequest, ChatRequestView, SENTENCES_PER_WORD,
};
use crate::speech::{
    audio_file, audio_path, decode_audio, decoded_audio, speech_request, speech_request_for,
};
use crate::vocabulary::{
    category_request, category_request_for, decode_categories, decode_words, decoded_categories,
    decoded_words, words_request, words_request_for,
};
use vstd::prelude::*;

verus! {

/// The language whose study lists a run goes through.
pub const STUDY_LANGUAGE: &'static str = "en";

/// The piece of outside work that a run can fail at.
#[derive(Debug, Clone, Copy, PartialEq, Eq, Structural)]
pub enum Step {
    /// Fetching the words of a study list.
    Words,
    /// Asking for the sentences of a word.
    Sentences,
    /// Asking for the audio of a sentence.
    Audio,
    /// Writing the audio of a sentence.
    Storing,
}

/// Why a piece of outside work counts as failed.
#[derive(Debug, Clone, Copy, PartialEq, Eq, Structural)]
pub enum Cause {
    /// The work itself failed, or something else was reported than what the
    /// run was waiting for.
    Outside,
    /// The language model's reply has no first choice, or that choice has
    /// no content.
    Silence,
    /// The reply was refused.
    Reply(ReplyError),
    /// The request could not be written.
    Request,
}

/// What ended a run early.
#[derive(Debug, Clone, Copy, PartialEq, Eq, Structural)]
pub struct Failure {
    pub step: Step,
    pub cause: Cause,
}

/// What a run is waiting for.
#[derive(Debug, Clone, Copy, PartialEq, Eq, Structural)]
pub enum Stage {
    /// The study lists.
    Listing,
    /// The words of the current study list.
    Words,
    /// The sentences of the current word.
    Sentences,
    /// The audio of the current sentence.
    Audio,
    /// The audio of the current sentence to be written.
    Storing,
    /// Nothing: the run is over.
    Finished,
    /// Nothing: the run was given up.
    Aborted(Failure),
}

/// What the outside world reports to a run.
#[derive(Debug, Clone, PartialEq, Eq)]
pub enum Event {
    /// The body of the response to the request that was sent.
    Body(Vec<u8>),
    /// The contents of the choices that the language model replied with, in
    /// their order: `None` for a choice without content.
    Reply(Vec<Option<String>>),
    /// The file was written.
    Stored,
    /// The work failed.
    Failed,
}

/// The mathematical value of an `Event`.
pub enum EventView {
    Body(Seq<u8>),
    Reply(Seq<Option<Seq<char>>>),
    Stored,
    Failed,
}

impl View for Event {
    type V = EventView;

    open spec fn view(&self) -> EventView {
        match self {
            Event::Body(body) => EventView::Body(body@),
            Event::Reply(choices) => EventView::Reply(texts_of(choices@)),
            Event::Stored => EventView::Stored,
            Event::Failed => EventView::Failed,
        }
    }
}

/// What an event means to a run, given what the run was waiting for.
#[derive(Debug, Clone, PartialEq, Eq)]
pub enum Outcome {
    Categories(Vec<Category>),
    Words(Vec<Word>),
    Sentences(Vec<ExampleSentence>),
    Audio(Vec<u8>),
    Stored,
    Failed(Cause),
}

/// The mathematical value of an `Outcome`.
pub enum OutcomeView {
    Categories(Seq<CategoryView>),
    Words(Seq<WordView>),
    Sentences(Seq<ExampleSentenceView>),
    Audio(Seq<u8>),
    Stored,
    Failed(Cause),
}

impl View for Outcome {
    type V = OutcomeView;

    open spec fn view(&self) -> OutcomeView {
        match self {
            Outcome::Categories(rows) => OutcomeView::Categories(views(rows@)),
            Outcome::Words(rows) => OutcomeView::Words(views(rows@)),
            Outcome::Sentences(rows) => OutcomeView::Sentences(views(rows@)),
            Outcome::Audio(bytes) => OutcomeView::Audio(bytes@),
            Outcome::Stored => OutcomeView::Stored,
            Outcome::Failed(cause) => OutcomeView::Failed(*cause),
        }
    }
}

/// What a run asks the outside world to do next.
#[derive(Debug, Clone, PartialEq, Eq)]
pub enum Action {
    /// Send the request and report the body of the response.
    Fetch(HttpRequest),
    /// Ask the language model and report the contents of its choices.
    Complete(ChatRequest),
    /// Create or truncate the file at `path`, write `audio` to it, and
    /// report that.
    Store { path: String, audio: Vec<u8> },
    /// End the process: the run is over.
    Finish,
    /// End the process with an error.
    Abort(Failure),
}

/// The mathematical value of an `Action`.
pub enum ActionView {
    Fetch(HttpRequestView),
    Complete(ChatRequestView),
    Store { path: Seq<char>, audio: Seq<u8> },
    Finish,
    Abort(Failure),
}

impl View for Action {
    type V = ActionView;

    open spec fn view(&self) -> ActionView {
        match self {
            Action::Fetch(request) => ActionView::Fetch(request@),
            Action::Complete(request) => ActionView::Complete(request@),
            Action::Store { path, audio } => ActionView::Store { path: path@, audio: audio@ },
            Action::Finish => ActionView::Finish,
            Action::Abort(failure) => ActionView::Abort(*failure),
        }
    }
}

/// What an event means at a stage: the decoded reply where the event is the
/// one that the stage waits for, and a failure otherwise.
pub open spec fn outcome_of(stage: Stage, event: EventView) -> OutcomeView {
    match (stage, event) {
        (Stage::Listing, EventView::Body(body)) => match decoded_categories(body) {
            Ok(rows) => OutcomeView::Categories(rows),
            Err(e) => OutcomeView::Failed(Cause::Reply(e)),
        },
        (Stage::Words, EventView::Body(body)) => match decoded_words(body) {
            Ok(rows) => OutcomeView::Words(rows),
            Err(e) => OutcomeView::Failed(Cause::Reply(e)),
        },
        (Stage::Sentences, EventView::Reply(choices)) => match reply_text(choices) {
            Some(text) => match decoded_sentences(text) {
                Ok(rows) => OutcomeView::Sentences(rows),
                Err(e) => OutcomeView::Failed(Cause::Reply(e)),
            },
            None => OutcomeView::Failed(Cause::Silence),
        },
        (Stage::Audio, EventView::Body(body)) => match decoded_audio(body) {
            Ok(bytes) => OutcomeView::Audio(bytes),
            Err(e) => OutcomeView::Failed(Cause::Reply(e)),
        },
        (Stage::Storing, EventView::Stored) => OutcomeView::Stored,
        _ => OutcomeView::Failed(Cause::Outside),
    }
}

/// The mathematical value of a run: the credentials, what it waits for, and
/// where it is in the study lists, the current list's words and the current
/// word's sentences.
pub struct PipelineView {
    pub credentials: CredentialsView,
    pub stage: Stage,
    pub categories: Seq<CategoryView>,
    pub category: nat,
    pub words: Seq<WordView>,
    pub word: nat,
    pub sentences: Seq<ExampleSentenceView>,
    pub sentence: nat,
}

impl PipelineView {
    /// Whether the run's position exists: a run that waits for words is at
    /// a study list, one that waits for sentences is at a word too, and one
    /// that waits for audio or for a file is at a sentence too.
    pub open spec fn wf(self) -> bool {
        match self.stage {
            Stage::Listing | Stage::Finished | Stage::Aborted(_) => true,
            Stage::Words => self.category < self.categories.len(),
            Stage::Sentences => {
                &&& self.category < self.categories.len()
                &&& self.word < self.words.len()
            },
            Stage::Audio | Stage::Storing => {
                &&& self.category < self.categories.len()
                &&& self.word < self.words.len()
                &&& self.sentence < self.sentences.len()
                &&& self.sentences.len() == SENTENCES_PER_WORD
            },
        }
    }

    /// The study list that the run is at, where it is at one.
    pub open spec fn current_category(self) -> Option<CategoryView> {
        match self.stage {
            Stage::Words | Stage::Sentences | Stage::Audio | Stage::Storing => Some(
                self.categories[self.category as int],
            ),
            _ => None,
        }
    }

    /// The word that the run is at, where it is at one.
    pub open spec fn current_word(self) -> Option<WordView> {
        match self.stage {
            Stage::Sentences | Stage::Audio | Stage::Storing => Some(self.words[self.word as int]),
            _ => None,
        }
    }

    /// The sentence that the run is at, where it is at one.
    pub open spec fn current_sentence(self) -> Option<ExampleSentenceView> {
        match self.stage {
            Stage::Audio | Stage::Storing => Some(self.sentences[self.sentence as int]),
            _ => None,
        }
    }

    /// Whether the run is over, one way or the other.
    pub open spec fn ended(self) -> bool {
        self.stage is Finished || self.stage is Aborted
    }

    /// How far the run has come: the study list, the word and the sentence
    /// that it is at, each counted from one, and whether the sentence's
    /// audio is at hand.
    pub open spec fn progress(self) -> (nat, nat, nat, nat) {
        match self.stage {
            Stage::Words => (self.category + 1, 0, 0, 0),
            Stage::Sentences => (self.category + 1, self.word + 1, 0, 0),
            Stage::Audio => (self.category + 1, self.word + 1, self.sentence + 1, 0),
            Stage::Storing => (self.category + 1, self.word + 1, self.sentence + 1, 1),
            _ => (0, 0, 0, 0),
        }
    }

    /// A fresh run and its first action: to ask for the study lists.
    pub open spec fn start(credentials: CredentialsView) -> (PipelineView, ActionView) {
        (
            PipelineView {
                credentials,
                stage: Stage::Listing,
                categories: Seq::empty(),
                category: 0,
                words: Seq::empty(),
                word: 0,
                sentences: Seq::empty(),
                sentence: 0,
            },
            ActionView::Fetch(category_request_for(STUDY_LANGUAGE@, credentials.vocabulary)),
        )
    }

    /// The run ends.
    pub open spec fn finish(self) -> (PipelineView, ActionView) {
        (PipelineView { stage: Stage::Finished, ..self }, ActionView::Finish)
    }

    /// The run is given up.
    pub open spec fn abort(self, step: Step, cause: Cause) -> (PipelineView, ActionView) {
        let failure = Failure { step, cause };
        (PipelineView { stage: Stage::Aborted(failure), ..self }, ActionView::Abort(failure))
    }

    /// The run turns to study list number `category`: it asks for its
    /// words, or ends where there is no such list.
    pub open spec fn enter_category(self, category: nat) -> (PipelineView, ActionView) {
        if category < self.categories.len() {
            (
                PipelineView { stage: Stage::Words, category, ..self },
                ActionView::Fetch(
                    words_request_for(
                        self.categories[category as int].id,
                        self.credentials.vocabulary,
                    ),
                ),
            )
        } else {
            self.finish()
        }
    }

    /// The run turns to word number `word` of the current study list: it
    /// asks for its sentences, or turns to the next study list where there
    /// is no such word.
    pub open spec fn enter_word(self, word: nat) -> (PipelineView, ActionView) {
        if word < self.words.len() {
            (
                PipelineView { stage: Stage::Sentences, word, ..self },
                ActionView::Complete(
                    sentence_request(self.credentials.completion, self.words[word as int].word),
                ),
            )
        } else {
            self.enter_category(self.category + 1)
        }
    }

    /// The run turns to sentence number `sentence` of the current word: it
    /// asks for its audio, or turns to the next word where there is no such
    /// sentence.
    pub open spec fn enter_sentence(self, sentence: nat) -> (PipelineView, ActionView) {
        if sentence < self.sentences.len() {
            match speech_request_for(self.credentials.speech, self.sentences[sentence as int].en) {
                Some(request) => (
                    PipelineView { stage: Stage::Audio, sentence, ..self },
                    ActionView::Fetch(request),
                ),
                None => self.abort(Step::Audio, Cause::Request),
            }
        } else {
            self.enter_word(self.word + 1)
        }
    }

    /// What the run does when it is given what it waited for, or a failure.
    /// A listing that failed counts as an empty one; any other failure
    /// gives the run up, and so do sentences that are not three.
    pub open spec fn advance(self, outcome: OutcomeView) -> (PipelineView, ActionView) {
        match self.stage {
            Stage::Listing => match outcome {
                OutcomeView::Categories(rows) => PipelineView {
                    categories: rows,
                    ..self
                }.enter_category(0),
                _ => self.finish(),
            },
            Stage::Words => match outcome {
                OutcomeView::Words(rows) => PipelineView { words: rows, ..self }.enter_word(0),
                OutcomeView::Failed(cause) => self.abort(Step::Words, cause),
                _ => self.abort(Step::Words, Cause::Outside),
            },
            Stage::Sentences => match outcome {
                OutcomeView::Sentences(rows) => if rows.len() == SENTENCES_PER_WORD {
                    PipelineView { sentences: rows, ..self }.enter_sentence(0)
                } else {
                    self.abort(
                        Step::Sentences,
                        Cause::Reply(ReplyError::Count { found: rows.len() as usize }),
                    )
                },
                OutcomeView::Failed(cause) => self.abort(Step::Sentences, cause),
                _ => self.abort(Step::Sentences, Cause::Outside),
            },
            Stage::Audio => match outcome {
                OutcomeView::Audio(bytes) => (
                    PipelineView { stage: Stage::Storing, ..self },
                    ActionView::Store {
                        path: audio_file(self.words[self.word as int].word, self.sentence),
                        audio: bytes,
                    },
                ),
                OutcomeView::Failed(cause) => self.abort(Step::Audio, cause),
                _ => self.abort(Step::Audio, Cause::Outside),
            },
            Stage::Storing => match outcome {
                OutcomeView::Stored => self.enter_sentence(self.sentence + 1),
                OutcomeView::Failed(cause) => self.abort(Step::Storing, cause),
                _ => self.abort(Step::Storing, Cause::Outside),
            },
            Stage::Finished => (self, ActionView::Finish),
            Stage::Aborted(failure) => (self, ActionView::Abort(failure)),
        }
    }

    /// What the run does when the outside world reports `event`.
    pub open spec fn step(self, event: EventView) -> (PipelineView, ActionView) {
        self.advance(outcome_of(self.stage, event))
    }
}

/// A run's position exists whatever it is given: from a run whose position
/// exists, every outcome leads to one whose position exists.
pub proof fn advance_keeps_position(run: PipelineView, outcome: OutcomeView)
    requires
        run.wf(),
    ensures
        run.advance(outcome).0.wf(),
{
}

/// Without study lists nothing is fetched and nothing is written: a run
/// that waits for the listing and is given a failure, or a listing without
/// entries, ends at once and without an error, and stays ended whatever it
/// is given later.
pub proof fn no_study_lists_no_work(run: PipelineView, outcome: OutcomeView, later: OutcomeView)
    requires
        run.stage == Stage::Listing,
        outcome is Categories ==> outcome->Categories_0.len() == 0,
    ensures
        run.advance(outcome).0.stage == Stage::Finished,
        run.advance(outcome).1 == ActionView::Finish,
        run.advance(outcome).0.advance(later) == (run.advance(outcome).0, ActionView::Finish),
{
}

/// The same of what the outside world reports: a listing that could not be
/// had, in whatever way, and one without entries end the run at once and
/// without an error.
pub proof fn failed_listing_ends_run(run: PipelineView, event: EventView)
    requires
        run.stage == Stage::Listing,
        event is Body ==> decoded_categories(event->Body_0) is Err || decoded_categories(
            event->Body_0,
        )->Ok_0.len() == 0,
    ensures
        run.step(event).0.stage == Stage::Finished,
        run.step(event).1 == ActionView::Finish,
{
}

/// What is written is what the reply held: a run asks for a file to be
/// written exactly when it waits for audio and is given a reply that holds
/// some, and the bytes to write are the bytes decoded from that reply. A
/// reply that holds no audio gets no file.
pub proof fn written_audio_is_decoded_audio(run: PipelineView, event: EventView)
    requires
        run.wf(),
    ensures
        run.step(event).1 is Store <==> {
            &&& run.stage == Stage::Audio
            &&& event is Body
            &&& decoded_audio(event->Body_0) is Ok
        },
        run.step(event).1 is Store ==> run.step(event).1->audio == decoded_audio(
            event->Body_0,
        )->Ok_0,
{
}

/// Whether `a` comes before `b`, the first numbers counting most.
pub open spec fn earlier(a: (nat, nat, nat, nat), b: (nat, nat, nat, nat)) -> bool {
    ||| a.0 < b.0
    ||| a.0 == b.0 && a.1 < b.1
    ||| a.0 == b.0 && a.1 == b.1 && a.2 < b.2
    ||| a.0 == b.0 && a.1 == b.1 && a.2 == b.2 && a.3 < b.3
}

/// A run only moves forward: whatever it is given, it ends or comes to a
/// later sentence, word or study list, never to one that it has left. The
/// study lists stay as they were listed, and the words stay the same while
/// the run is at one study list.
pub proof fn run_moves_forward(run: PipelineView, outcome: OutcomeView)
    requires
        run.wf(),
        !run.ended(),
    ensures
        run.advance(outcome).0.ended() || earlier(
            run.progress(),
            run.advance(outcome).0.progress(),
        ),
        run.stage != Stage::Listing ==> run.advance(outcome).0.categories == run.categories,
        run.stage != Stage::Listing && run.stage != Stage::Words ==> run.advance(outcome).0.words
            == run.words,
        run.advance(outcome).0.credentials == run.credentials,
{
}

/// A run that was given up or has ended asks for nothing more.
pub proof fn ended_run_stays_ended(run: PipelineView, outcome: OutcomeView)
    requires
        run.ended(),
    ensures
        run.advance(outcome).0 == run,
        run.stage is Finished ==> run.advance(outcome).1 == ActionView::Finish,
        run.stage is Aborted ==> run.advance(outcome).1 == ActionView::Abort(
            run.stage->Aborted_0,
        ),
{
}

/// Audio is only ever written for one of the three sentences of the word
/// that the run is at, to the file named after that word and the sentence's
/// number.
pub proof fn audio_goes_to_its_file(run: PipelineView, outcome: OutcomeView)
    requires
        run.wf(),
        run.advance(outcome).1 is Store,
    ensures
        run.stage == Stage::Audio,
        outcome is Audio,
        run.sentence < SENTENCES_PER_WORD,
        run.advance(outcome).1 == (ActionView::Store {
            path: audio_file(run.words[run.word as int].word, run.sentence),
            audio: outcome->Audio_0,
        }),
{
}

/// What an event means to a run that waits at `stage`.
pub fn interpret(stage: Stage, event: Event) -> (r: Outcome)
    ensures
        r@ == outcome_of(stage, event@),
{
    match (stage, event) {
        (Stage::Listing, Event::Body(body)) => match decode_categories(body.as_slice()) {
            Ok(rows) => Outcome::Categories(rows),
            Err(e) => Outcome::Failed(Cause::Reply(e)),
        },
        (Stage::Words, Event::Body(body)) => match decode_words(body.as_slice()) {
            Ok(rows) => Outcome::Words(rows),
            Err(e) => Outcome::Failed(Cause::Reply(e)),
        },
        (Stage::Sentences, Event::Reply(choices)) => match first_content(&choices) {
            Some(text) => match decode_sentences(text.as_str()) {
                Ok(rows) => Outcome::Sentences(rows),
                Err(e) => Outcome::Failed(Cause::Reply(e)),
            },
            None => Outcome::Failed(Cause::Silence),
        },
        (Stage::Audio, Event::Body(body)) => match decode_audio(body.as_slice()) {
            Ok(bytes) => Outcome::Audio(bytes),
            Err(e) => Outcome::Failed(Cause::Reply(e)),
        },
        (Stage::Storing, Event::Stored) => Outcome::Stored,
        _ => Outcome::Failed(Cause::Outside),
    }
}

/// A run. Its position always exists.
#[derive(Debug)]
pub struct Pipeline {
    credentials: Credentials,
    stage: Stage,
    categories: Vec<Category>,
    category: usize,
    words: Vec<Word>,
    word: usize,
    sentences: Vec<ExampleSentence>,
    sentence: usize,
}

impl View for Pipeline {
    type V = PipelineView;

    closed spec fn view(&self) -> PipelineView {
        PipelineView {
            credentials: self.credentials@,
            stage: self.stage,
            categories: views(self.categories@),
            category: self.category as nat,
            words: views(self.words@),
            word: self.word as nat,
            sentences: views(self.sentences@),
            sentence: self.sentence as nat,
        }
    }
}

impl Pipeline {
    #[verifier::type_invariant]
    spec fn positioned(self) -> bool {
        self@.wf()
    }

    /// A fresh run and its first action: to ask for the study lists.
    pub fn start(credentials: Credentials) -> (r: (Pipeline, Action))
        ensures
            (r.0@, r.1@) == PipelineView::start(credentials@),
            r.0@.wf(),
    {
        let action = Action::Fetch(
            category_request(STUDY_LANGUAGE, credentials.vocabulary.as_str()),
        );
        let run = Pipeline {
            credentials,
            stage: Stage::Listing,
            categories: Vec::new(),
            category: 0,
            words: Vec::new(),
            word: 0,
            sentences: Vec::new(),
            sentence: 0,
        };
        assert(run@.categories =~= Seq::empty());
        assert(run@.words =~= Seq::empty());
        assert(run@.sentences =~= Seq::empty());
        (run, action)
    }

    fn finish(self) -> (r: (Pipeline, Action))
        ensures
            (r.0@, r.1@) == self@.finish(),
    {
        (Pipeline { stage: Stage::Finished, ..self }, Action::Finish)
    }

    fn abort(self, step: Step, cause: Cause) -> (r: (Pipeline, Action))
        ensures
            (r.0@, r.1@) == self@.abort(step, cause),
    {
        let failure = Failure { step, cause };
        (Pipeline { stage: Stage::Aborted(failure), ..self }, Action::Abort(failure))
    }

    fn enter_category(self, category: usize) -> (r: (Pipeline, Action))
        ensures
            (r.0@, r.1@) == self@.enter_category(category as nat),
    {
        if category < self.categories.len() {
            let action = Action::Fetch(
                words_request(&self.categories[category], self.credentials.vocabulary.as_str()),
            );
            (Pipeline { stage: Stage::Words, category, ..self }, action)
        } else {
            self.finish()
        }
    }

    fn enter_word(self, word: usize) -> (r: (Pipeline, Action))
        requires
            self@.category < self@.categories.len(),
        ensures
            (r.0@, r.1@) == self@.enter_word(word as nat),
    {
        if word < self.words.len() {
            let action = Action::Complete(
                chat_request(
                    self.credentials.completion.as_str(),
                    self.words[word].word.as_str(),
                ),
            );
            (Pipeline { stage: Stage::Sentences, word, ..self }, action)
        } else {
            assert(self@.categories.len() == self.categories.len());
            let next = self.category + 1;
            self.enter_category(next)
        }
    }

    fn enter_sentence(self, sentence: usize) -> (r: (Pipeline, Action))
        requires
            self@.category < self@.categories.len(),
            self@.word < self@.words.len(),
            self@.sentences.len() == SENTENCES_PER_WORD,
        ensures
            (r.0@, r.1@) == self@.enter_sentence(sentence as nat),
    {
        if sentence < self.sentences.len() {
            match speech_request(
                self.credentials.speech.as_str(),
                self.sentences[sentence].en.as_str(),
            ) {
                Some(request) => (
                    Pipeline { stage: Stage::Audio, sentence, ..self },
                    Action::Fetch(request),
                ),
                None => self.abort(Step::Audio, Cause::Request),
            }
        } else {
            assert(self@.words.len() == self.words.len());
            let next = self.word + 1;
            self.enter_word(next)
        }
    }

    /// What the run does when it is given what it waited for, or a failure.
    pub fn advance(self, outcome: Outcome) -> (r: (Pipeline, Action))
        ensures
            (r.0@, r.1@) == self@.advance(outcome@),
            r.0@.wf(),
    {
        proof {
            use_type_invariant(&self);
        }
        let r = match self.stage {
            Stage::Listing => match outcome {
                Outcome::Categories(rows) => Pipeline { categories: rows, ..self }.enter_category(
                    0,
                ),
                _ => self.finish(),
            },
            Stage::Words => match outcome {
                Outcome::Words(rows) => Pipeline { words: rows, ..self }.enter_word(0),
                Outcome::Failed(cause) => self.abort(Step::Words, cause),
                _ => self.abort(Step::Words, Cause::Outside),
            },
            Stage::Sentences => match outcome {
                Outcome::Sentences(rows) => if rows.len() == SENTENCES_PER_WORD {
                    Pipeline { sentences: rows, ..self }.enter_sentence(0)
                } else {
                    self.abort(
                        Step::Sentences,
                        Cause::Reply(ReplyError::Count { found: rows.len() }),
                    )
                },
                Outcome::Failed(cause) => self.abort(Step::Sentences, cause),
                _ => self.abort(Step::Sentences, Cause::Outside),
            },
            Stage::Audio => match outcome {
                Outcome::Audio(bytes) => {
                    let path = audio_path(self.words[self.word].word.as_str(), self.sentence);
                    (
                        Pipeline { stage: Stage::Storing, ..self },
                        Action::Store { path, audio: bytes },
                    )
                },
                Outcome::Failed(cause) => self.abort(Step::Audio, cause),
                _ => self.abort(Step::Audio, Cause::Outside),
            },
            Stage::Storing => match outcome {
                Outcome::Stored => {
                    assert(self@.sentences.len() == self.sentences.len());
                    let next = self.sentence + 1;
                    self.enter_sentence(next)
                },
                Outcome::Failed(cause) => self.abort(Step::Storing, cause),
                _ => self.abort(Step::Storing, Cause::Outside),
            },
            Stage::Finished => (self, Action::Finish),
            Stage::Aborted(failure) => (self, Action::Abort(failure)),
        };
        proof {
            use_type_invariant(&r.0);
        }
        r
    }

    /// What the run does when the outside world reports `event`.
    pub fn step(self, event: Event) -> (r: (Pipeline, Action))
        ensures
            (r.0@, r.1@) == self@.step(event@),
            r.0@.wf(),
    {
        let outcome = interpret(self.stage, event);
        self.advance(outcome)
    }

    /// What the run is waiting for.
    pub fn stage(&self) -> (r: Stage)
        ensures
            r == self@.stage,
    {
        self.stage
    }

    /// The study list that the run is at, where it is at one.
    pub fn current_category(&self) -> (r: Option<&Category>)
        ensures
            match r {
                Some(category) => self@.current_category() == Some(category@),
                None => self@.current_category() is None,
            },
    {
        proof {
            use_type_invariant(self);
        }
        match self.stage {
            Stage::Words | Stage::Sentences | Stage::Audio | Stage::Storing => Some(
                &self.categories[self.category],
            ),
            _ => None,
        }
    }

    /// The word that the run is at, where it is at one.
    pub fn current_word(&self) -> (r: Option<&Word>)
        ensures
            match r {
                Some(word) => self@.current_word() == Some(word@),
                None => self@.current_word() is None,
            },
    {
        proof {
            use_type_invariant(self);
        }
        match self.stage {
            Stage::Sentences | Stage::Audio | Stage::Storing => Some(&self.words[self.word]),
            _ => None,
        }
    }

    /// The sentence that the run is at, where it is at one.
    pub fn current_sentence(&self) -> (r: Option<&ExampleSentence>)
        ensures
            match r {
                Some(sentence) => self@.current_sentence() == Some(sentence@),
                None => self@.current_sentence() is None,
            },
    {
        proof {
            use_type_invariant(self);
        }
        match self.stage {
            Stage::Audio | Stage::Storing => Some(&self.sentences[self.sentence]),
            _ => None,
        }
    }
}

} // verus!
