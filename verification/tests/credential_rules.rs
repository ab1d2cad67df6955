use vocab_audio::credentials::{Credentials, MissingCredential};

fn some(s: &str) -> Option<String> {
    Some(s.to_string())
}

#[test]
fn all_three_credentials_make_a_set() {
    let credentials = Credentials::gather(some("eu"), some("ds"), some("gg"));
    assert_eq!(
        credentials,
        Ok(Credentials {
            vocabulary: "eu".to_string(),
            completion: "ds".to_string(),
            speech: "gg".to_string(),
        })
    );
}

#[test]
fn empty_credentials_are_credentials() {
    assert!(Credentials::gather(some(""), some(""), some("")).is_ok());
}

#[test]
fn each_absent_credential_is_named() {
    assert_eq!(
        Credentials::gather(None, some("ds"), some("gg")),
        Err(MissingCredential::Vocabulary)
    );
    assert_eq!(
        Credentials::gather(some("eu"), None, some("gg")),
        Err(MissingCredential::Completion)
    );
    assert_eq!(
        Credentials::gather(some("eu"), some("ds"), None),
        Err(MissingCredential::Speech)
    );
}

#[test]
fn the_first_absent_credential_is_named() {
    assert_eq!(Credentials::gather(None, None, None), Err(MissingCredential::Vocabulary));
    assert_eq!(Credentials::gather(None, None, some("gg")), Err(MissingCredential::Vocabulary));
    assert_eq!(Credentials::gather(None, some("ds"), None), Err(MissingCredential::Vocabulary));
    assert_eq!(Credentials::gather(some("eu"), None, None), Err(MissingCredential::Completion));
}

#[test]
fn every_combination_with_an_absent_credential_fails() {
    let choices = [None, some("x")];
    for v in &choices {
        for c in &choices {
            for s in &choices {
                let r = Credentials::gather(v.clone(), c.clone(), s.clone());
                assert_eq!(r.is_ok(), v.is_some() && c.is_some() && s.is_some());
            }
        }
    }
}

#[test]
fn the_variables_and_complaints() {
    assert_eq!(MissingCredential::Vocabulary.variable(), "EUDIC_API");
    assert_eq!(MissingCredential::Completion.variable(), "DEEPSEEK_API");
    assert_eq!(MissingCredential::Speech.variable(), "GOOGLE_API");
    assert_eq!(MissingCredential::Vocabulary.message(), "dotenv need var:EUDIC_API");
    assert_eq!(MissingCredential::Completion.message(), "dotenv need var:DEEPSEEK_API");
    assert_eq!(MissingCredential::Speech.message(), "dotenv need var:GOOGLE_API");
}
