use vocab_audio::credentials::Credentials;
use vocab_audio::error::ReplyError;
use vocab_audio::model::{Category, ExampleSentence, Word};
use vocab_audio::pipeline::{
    interpret, Action, Cause, Event, Failure, Outcome, Pipeline, Stage, Step,
};
use vocab_audio::sentences::chat_request;
use vocab_audio::speech::speech_request;
use vocab_audio::vocabulary::{category_request, words_request};

fn credentials() -> Credentials {
    Credentials {
        vocabulary: "eu-token".to_string(),
        completion: "ds-key".to_string(),
        speech: "gg-key".to_string(),
    }
}

fn body(text: &str) -> Event {
    Event::Body(text.as_bytes().to_vec())
}

fn reply(text: &str) -> Event {
    Event::Reply(vec![Some(text.to_string())])
}

fn core_list() -> Category {
    Category { id: "1".to_string(), language: "en".to_string(), name: "Core".to_string() }
}

const LISTING: &str = "{\"data\":[{\"id\":\"1\",\"language\":\"en\",\"name\":\"Core\"}],\"message\":\"\"}";

const WORDS: &str = "{\"data\":[{\"word\":\"apple\",\"exp\":\"n. a fruit\"},{\"word\":\"run\",\"exp\":\"v. to move fast\"}],\"message\":\"\"}";

fn reply_for(word: &str) -> String {
    format!(
        "[{{\"en\":\"<speak>{w} one</speak>\",\"cn\":\"c1\"}},{{\"en\":\"<speak>{w} two</speak>\",\"cn\":\"c2\"}},{{\"en\":\"<speak>{w} three</speak>\",\"cn\":\"c3\"}}]",
        w = word
    )
}

fn speech_for(word: &str, number: &str) -> Action {
    Action::Fetch(speech_request("gg-key", &format!("<speak>{} {}</speak>", word, number)).unwrap())
}

/// Drives a run that waits for the sentences of `word` through its three
/// sentences, and hands back the run and the action that follows the third
/// file.
fn through_word(run: Pipeline, word: &str) -> (Pipeline, Action) {
    let numbers = ["one", "two", "three"];
    let audio: [Vec<u8>; 3] = [vec![1], vec![2, 2], vec![3, 3, 3]];
    let payloads = ["AQ==", "AgI=", "AwMD"];
    let (mut run, mut action) = run.step(reply(&reply_for(word)));
    let mut i = 0;
    while i < 3 {
        assert_eq!(action, speech_for(word, numbers[i]));
        assert_eq!(run.stage(), Stage::Audio);
        let (next, stored) = run.step(body(&format!("{{\"audioContent\":\"{}\"}}", payloads[i])));
        assert_eq!(
            stored,
            Action::Store { path: format!("data/{}-{}.mp3", word, i), audio: audio[i].clone() }
        );
        assert_eq!(next.stage(), Stage::Storing);
        let (next, following) = next.step(Event::Stored);
        run = next;
        action = following;
        i += 1;
    }
    (run, action)
}

#[test]
fn a_run_starts_by_asking_for_the_english_study_lists() {
    let (run, action) = Pipeline::start(credentials());
    assert_eq!(action, Action::Fetch(category_request("en", "eu-token")));
    assert_eq!(run.stage(), Stage::Listing);
    assert_eq!(run.current_category(), None);
}

#[test]
fn one_study_list_with_two_words() {
    let (run, _) = Pipeline::start(credentials());
    let (run, action) = run.step(body(LISTING));
    assert_eq!(action, Action::Fetch(words_request(&core_list(), "eu-token")));
    assert_eq!(run.stage(), Stage::Words);
    assert_eq!(run.current_category(), Some(&core_list()));

    let (run, action) = run.step(body(WORDS));
    assert_eq!(action, Action::Complete(chat_request("ds-key", "apple")));
    assert_eq!(run.stage(), Stage::Sentences);
    assert_eq!(run.current_word().map(|w| w.word.as_str()), Some("apple"));

    let (run, action) = through_word(run, "apple");
    assert_eq!(action, Action::Complete(chat_request("ds-key", "run")));
    assert_eq!(run.stage(), Stage::Sentences);
    assert_eq!(run.current_word().map(|w| w.word.as_str()), Some("run"));

    let (run, action) = through_word(run, "run");
    assert_eq!(action, Action::Finish);
    assert_eq!(run.stage(), Stage::Finished);
}

#[test]
fn the_files_of_a_word_are_numbered_from_zero() {
    let (run, _) = Pipeline::start(credentials());
    let (run, _) = run.step(body(LISTING));
    let (run, _) = run.step(body(WORDS));
    let (mut run, mut action) = run.step(reply(&reply_for("apple")));
    let mut paths: Vec<String> = Vec::new();
    while run.stage() != Stage::Sentences {
        let event = match &action {
            Action::Fetch(_) => body("{\"audioContent\":\"AA==\"}"),
            Action::Store { path, .. } => {
                paths.push(path.clone());
                Event::Stored
            }
            other => panic!("{:?}", other),
        };
        let (next, following) = run.step(event);
        run = next;
        action = following;
    }
    assert_eq!(paths, vec!["data/apple-0.mp3", "data/apple-1.mp3", "data/apple-2.mp3"]);
}

#[test]
fn two_study_lists_one_of_them_empty() {
    let listing = "{\"data\":[{\"id\":\"7\",\"language\":\"en\",\"name\":\"Empty\"},{\"id\":\"8\",\"language\":\"en\",\"name\":\"Full\"}],\"message\":\"\"}";
    let (run, _) = Pipeline::start(credentials());
    let (run, action) = run.step(body(listing));
    let seven = Category { id: "7".to_string(), language: "en".to_string(), name: "Empty".to_string() };
    let eight = Category { id: "8".to_string(), language: "en".to_string(), name: "Full".to_string() };
    assert_eq!(action, Action::Fetch(words_request(&seven, "eu-token")));
    let (run, action) = run.step(body("{\"data\":[],\"message\":\"\"}"));
    assert_eq!(action, Action::Fetch(words_request(&eight, "eu-token")));
    assert_eq!(run.current_category(), Some(&eight));
    let (run, action) =
        run.step(body("{\"data\":[{\"word\":\"run\",\"exp\":\"\"}],\"message\":\"\"}"));
    assert_eq!(action, Action::Complete(chat_request("ds-key", "run")));
    let (run, action) = through_word(run, "run");
    assert_eq!(action, Action::Finish);
    assert_eq!(run.stage(), Stage::Finished);
}

#[test]
fn a_failed_listing_ends_the_run_without_an_error() {
    let (run, _) = Pipeline::start(credentials());
    let (run, action) = run.step(Event::Failed);
    assert_eq!(action, Action::Finish);
    assert_eq!(run.stage(), Stage::Finished);
}

#[test]
fn a_listing_that_cannot_be_read_ends_the_run_without_an_error() {
    for text in ["<html>502</html>", "{\"message\":\"unauthorized\"}", "[]", ""] {
        let (run, _) = Pipeline::start(credentials());
        let (run, action) = run.step(body(text));
        assert_eq!(action, Action::Finish);
        assert_eq!(run.stage(), Stage::Finished);
    }
}

#[test]
fn an_empty_listing_ends_the_run_without_an_error() {
    let (run, _) = Pipeline::start(credentials());
    let (run, action) = run.step(body("{\"data\":[],\"message\":\"\"}"));
    assert_eq!(action, Action::Finish);
    assert_eq!(run.stage(), Stage::Finished);
    assert_eq!(run.current_category(), None);
    assert_eq!(run.current_word(), None);
}

#[test]
fn an_ended_run_stays_ended() {
    let (run, _) = Pipeline::start(credentials());
    let (run, _) = run.step(Event::Failed);
    let (run, action) = run.step(body(LISTING));
    assert_eq!(action, Action::Finish);
    let (run, action) = run.step(Event::Stored);
    assert_eq!(action, Action::Finish);
    let (run, action) = run.step(reply(&reply_for("apple")));
    assert_eq!(action, Action::Finish);
    assert_eq!(run.stage(), Stage::Finished);
}

#[test]
fn a_failed_word_list_gives_the_run_up() {
    let failure = Failure { step: Step::Words, cause: Cause::Outside };
    let (run, _) = Pipeline::start(credentials());
    let (run, _) = run.step(body(LISTING));
    let (run, action) = run.step(Event::Failed);
    assert_eq!(action, Action::Abort(failure));
    assert_eq!(run.stage(), Stage::Aborted(failure));
    let (run, action) = run.step(body(WORDS));
    assert_eq!(action, Action::Abort(failure));
    assert_eq!(run.stage(), Stage::Aborted(failure));
}

#[test]
fn a_word_list_that_cannot_be_read_gives_the_run_up() {
    let (run, _) = Pipeline::start(credentials());
    let (run, _) = run.step(body(LISTING));
    let (_, action) = run.step(body("{\"data\":[{\"word\":\"apple\"}],\"message\":\"\"}"));
    assert_eq!(
        action,
        Action::Abort(Failure { step: Step::Words, cause: Cause::Reply(ReplyError::Shape) })
    );
    let (run, _) = Pipeline::start(credentials());
    let (run, _) = run.step(body(LISTING));
    let (_, action) = run.step(body("oops"));
    assert_eq!(
        action,
        Action::Abort(Failure { step: Step::Words, cause: Cause::Reply(ReplyError::Syntax) })
    );
}

fn at_sentences() -> Pipeline {
    let (run, _) = Pipeline::start(credentials());
    let (run, _) = run.step(body(LISTING));
    let (run, _) = run.step(body(WORDS));
    run
}

#[test]
fn two_sentences_give_the_run_up() {
    let text = "[{\"en\":\"a\",\"cn\":\"b\"},{\"en\":\"c\",\"cn\":\"d\"}]";
    let (run, action) = at_sentences().step(reply(text));
    let failure =
        Failure { step: Step::Sentences, cause: Cause::Reply(ReplyError::Count { found: 2 }) };
    assert_eq!(action, Action::Abort(failure));
    assert_eq!(run.stage(), Stage::Aborted(failure));
}

#[test]
fn a_reply_that_is_not_json_gives_the_run_up() {
    let (_, action) = at_sentences().step(reply("As an AI model..."));
    assert_eq!(
        action,
        Action::Abort(Failure { step: Step::Sentences, cause: Cause::Reply(ReplyError::Syntax) })
    );
}

#[test]
fn a_reply_without_text_gives_the_run_up() {
    let failure = Failure { step: Step::Sentences, cause: Cause::Silence };
    let (run, action) = at_sentences().step(Event::Reply(vec![]));
    assert_eq!(action, Action::Abort(failure));
    assert_eq!(run.stage(), Stage::Aborted(failure));
    let (_, action) = at_sentences().step(Event::Reply(vec![None]));
    assert_eq!(action, Action::Abort(failure));
    let (_, action) =
        at_sentences().step(Event::Reply(vec![None, Some(reply_for("apple"))]));
    assert_eq!(action, Action::Abort(failure));
}

#[test]
fn only_the_first_choice_of_a_reply_counts() {
    let choices = vec![Some(reply_for("apple")), Some("nonsense".to_string()), None];
    let (run, action) = at_sentences().step(Event::Reply(choices));
    assert_eq!(action, speech_for("apple", "one"));
    assert_eq!(run.stage(), Stage::Audio);
    let choices = vec![Some("nonsense".to_string()), Some(reply_for("apple"))];
    let (_, action) = at_sentences().step(Event::Reply(choices));
    assert_eq!(
        action,
        Action::Abort(Failure { step: Step::Sentences, cause: Cause::Reply(ReplyError::Syntax) })
    );
}

#[test]
fn a_failed_completion_gives_the_run_up() {
    let (_, action) = at_sentences().step(Event::Failed);
    assert_eq!(action, Action::Abort(Failure { step: Step::Sentences, cause: Cause::Outside }));
    let (_, action) = at_sentences().step(body("[]"));
    assert_eq!(action, Action::Abort(Failure { step: Step::Sentences, cause: Cause::Outside }));
}

fn at_audio() -> Pipeline {
    let (run, _) = at_sentences().step(reply(&reply_for("apple")));
    run
}

#[test]
fn audio_that_is_not_base64_gives_the_run_up_and_writes_nothing() {
    let (run, action) = at_audio().step(body("{\"audioContent\":\"not base64 at all\"}"));
    let failure = Failure { step: Step::Audio, cause: Cause::Reply(ReplyError::Encoding) };
    assert_eq!(action, Action::Abort(failure));
    assert_eq!(run.stage(), Stage::Aborted(failure));
}

#[test]
fn a_malformed_envelope_gives_the_run_up() {
    let (_, action) = at_audio().step(body("{\"error\":{\"code\":400}}"));
    assert_eq!(
        action,
        Action::Abort(Failure { step: Step::Audio, cause: Cause::Reply(ReplyError::Shape) })
    );
    let (_, action) = at_audio().step(body("<!DOCTYPE html>"));
    assert_eq!(
        action,
        Action::Abort(Failure { step: Step::Audio, cause: Cause::Reply(ReplyError::Syntax) })
    );
    let (_, action) = at_audio().step(Event::Failed);
    assert_eq!(action, Action::Abort(Failure { step: Step::Audio, cause: Cause::Outside }));
}

#[test]
fn a_file_that_cannot_be_written_gives_the_run_up() {
    let (run, action) = at_audio().step(body("{\"audioContent\":\"AQID\"}"));
    assert_eq!(
        action,
        Action::Store { path: "data/apple-0.mp3".to_string(), audio: vec![1, 2, 3] }
    );
    assert_eq!(run.current_sentence().map(|s| s.en.as_str()), Some("<speak>apple one</speak>"));
    let (run, action) = run.step(Event::Failed);
    let failure = Failure { step: Step::Storing, cause: Cause::Outside };
    assert_eq!(action, Action::Abort(failure));
    assert_eq!(run.stage(), Stage::Aborted(failure));
}

#[test]
fn interpret_decodes_what_the_stage_waits_for() {
    assert_eq!(interpret(Stage::Listing, body(LISTING)), Outcome::Categories(vec![core_list()]));
    assert_eq!(
        interpret(Stage::Words, body("{\"data\":[{\"word\":\"run\",\"exp\":\"v.\"}],\"message\":\"\"}")),
        Outcome::Words(vec![Word { word: "run".to_string(), exp: "v.".to_string() }])
    );
    assert_eq!(
        interpret(Stage::Audio, body("{\"audioContent\":\"AQID\"}")),
        Outcome::Audio(vec![1, 2, 3])
    );
    assert_eq!(interpret(Stage::Storing, Event::Stored), Outcome::Stored);
    match interpret(Stage::Sentences, reply(&reply_for("run"))) {
        Outcome::Sentences(rows) => assert_eq!(rows.len(), 3),
        other => panic!("{:?}", other),
    }
}

#[test]
fn interpret_takes_anything_else_for_a_failure() {
    assert_eq!(interpret(Stage::Listing, Event::Stored), Outcome::Failed(Cause::Outside));
    assert_eq!(interpret(Stage::Listing, Event::Failed), Outcome::Failed(Cause::Outside));
    assert_eq!(
        interpret(Stage::Listing, body("{}")),
        Outcome::Failed(Cause::Reply(ReplyError::Shape))
    );
    assert_eq!(interpret(Stage::Storing, body(LISTING)), Outcome::Failed(Cause::Outside));
    assert_eq!(interpret(Stage::Finished, Event::Stored), Outcome::Failed(Cause::Outside));
    assert_eq!(
        interpret(Stage::Sentences, reply("[]")),
        Outcome::Failed(Cause::Reply(ReplyError::Count { found: 0 }))
    );
}

#[test]
fn advance_refuses_sentences_that_are_not_three() {
    let rows = vec![ExampleSentence { cn: "c".to_string(), en: "e".to_string() }];
    let (run, action) = at_sentences().advance(Outcome::Sentences(rows));
    let failure =
        Failure { step: Step::Sentences, cause: Cause::Reply(ReplyError::Count { found: 1 }) };
    assert_eq!(action, Action::Abort(failure));
    assert_eq!(run.stage(), Stage::Aborted(failure));
}

#[test]
fn advance_takes_an_outcome_of_another_kind_for_a_failure() {
    let (_, action) = at_sentences().advance(Outcome::Stored);
    assert_eq!(action, Action::Abort(Failure { step: Step::Sentences, cause: Cause::Outside }));
    let (run, _) = Pipeline::start(credentials());
    let (_, action) = run.advance(Outcome::Words(vec![]));
    assert_eq!(action, Action::Finish);
}
