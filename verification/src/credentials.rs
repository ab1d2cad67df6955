//! The three credentials that a run needs.

use crate::model::text_of;
use vstd::prelude::*;
use vstd::string::StringExecFns;

verus! {

/// The environment variable that holds the vocabulary service's token.
pub const VOCABULARY_VARIABLE: &'static str = "EUDIC_API";

/// The environment variable that holds the language model's key.
pub const COMPLETION_VARIABLE: &'static str = "DEEPSEEK_API";

/// The environment variable that holds the text-to-speech service's key.
pub const SPEECH_VARIABLE: &'static str = "GOOGLE_API";

/// What a complaint about an absent variable starts with.
pub const COMPLAINT: &'static str = "dotenv need var:";

/// The credentials of the three services.
#[derive(Debug, Clone, PartialEq, Eq)]
pub struct Credentials {
    pub vocabulary: String,
    pub completion: String,
    pub speech: String,
}

/// The mathematical value of `Credentials`.
pub struct CredentialsView {
    pub vocabulary: Seq<char>,
    pub completion: Seq<char>,
    pub speech: Seq<char>,
}

impl View for Credentials {
    type V = CredentialsView;

    open spec fn view(&self) -> CredentialsView {
        CredentialsView {
            vocabulary: self.vocabulary@,
            completion: self.completion@,
            speech: self.speech@,
        }
    }
}

/// The credential that a run lacks.
#[derive(Debug, Clone, Copy, PartialEq, Eq, Structural)]
pub enum MissingCredential {
    Vocabulary,
    Completion,
    Speech,
}

impl MissingCredential {
    /// The environment variable that was looked for.
    pub open spec fn variable_name(self) -> Seq<char> {
        match self {
            MissingCredential::Vocabulary => VOCABULARY_VARIABLE@,
            MissingCredential::Completion => COMPLETION_VARIABLE@,
            MissingCredential::Speech => SPEECH_VARIABLE@,
        }
    }

    /// The environment variable that was looked for.
    pub fn variable(&self) -> (r: &'static str)
        ensures
            r@ == self.variable_name(),
    {
        match self {
            MissingCredential::Vocabulary => VOCABULARY_VARIABLE,
            MissingCredential::Completion => COMPLETION_VARIABLE,
            MissingCredential::Speech => SPEECH_VARIABLE,
        }
    }

    /// The complaint to end the process with.
    pub fn message(&self) -> (r: String)
        ensures
            r@ == COMPLAINT@ + self.variable_name(),
    {
        String::from_str(COMPLAINT).concat(self.variable())
    }
}

/// What three looked-up variables amount to: the credentials where all
/// three are there, else the first that is absent, in the order vocabulary,
/// language model, speech.
pub open spec fn gathered(
    vocabulary: Option<Seq<char>>,
    completion: Option<Seq<char>>,
    speech: Option<Seq<char>>,
) -> Result<CredentialsView, MissingCredential> {
    match (vocabulary, completion, speech) {
        (None, _, _) => Err(MissingCredential::Vocabulary),
        (Some(_), None, _) => Err(MissingCredential::Completion),
        (Some(_), Some(_), None) => Err(MissingCredential::Speech),
        (Some(v), Some(c), Some(s)) => Ok(
            CredentialsView { vocabulary: v, completion: c, speech: s },
        ),
    }
}

impl Credentials {
    /// The credentials, given what the three variables hold. A run can start
    /// from nothing else, so with a variable absent no request is ever made.
    pub fn gather(
        vocabulary: Option<String>,
        completion: Option<String>,
        speech: Option<String>,
    ) -> (r: Result<Credentials, MissingCredential>)
        ensures
            r is Err <==> vocabulary is None || completion is None || speech is None,
            match r {
                Ok(credentials) => gathered(
                    text_of(vocabulary),
                    text_of(completion),
                    text_of(speech),
                ) == Ok::<CredentialsView, MissingCredential>(credentials@),
                Err(missing) => gathered(
                    text_of(vocabulary),
                    text_of(completion),
                    text_of(speech),
                ) == Err::<CredentialsView, MissingCredential>(missing),
            },
    {
        let vocabulary = match vocabulary {
            Some(v) => v,
            None => {
                return Err(MissingCredential::Vocabulary);
            },
        };
        let completion = match completion {
            Some(c) => c,
            None => {
                return Err(MissingCredential::Completion);
            },
        };
        let speech = match speech {
            Some(s) => s,
            None => {
                return Err(MissingCredential::Speech);
            },
        };
        Ok(Credentials { vocabulary, completion, speech })
    }
}

} // verus!
