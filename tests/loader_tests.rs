use lock_cli::codec::{is_sealed, open_with_password, open_without_password, seal_payload, CodecFailure};
use lock_cli::loader::{LoadFailure, LoadStep, SecureLoader};

#[test]
fn sealed_round_trip_with_same_password() {
    let payload = vec![7u8, 0, 255, 42];
    let password = b"correct horse".to_vec();
    let sealed = seal_payload(&payload, Some(&password)).expect("sealing succeeds");
    assert_ne!(sealed, payload);
    assert_eq!(is_sealed(&sealed), Ok(true));
    assert_eq!(open_with_password(&sealed, &password), Ok(payload));
}

#[test]
fn sealed_bytes_refuse_wrong_password() {
    let payload = vec![1u8, 2, 3];
    let sealed = seal_payload(&payload, Some(&b"right".to_vec())).unwrap();
    assert_eq!(open_with_password(&sealed, b"wrong"), Err(CodecFailure::WrongPassword));
    assert_eq!(open_without_password(&sealed), Err(CodecFailure::Encrypted));
}

#[test]
fn plain_framing_adds_marker_byte() {
    let payload = vec![9u8, 8];
    let framed = seal_payload(&payload, None).unwrap();
    assert_eq!(framed, vec![0u8, 9, 8]);
    assert_eq!(is_sealed(&framed), Ok(false));
    assert_eq!(open_without_password(&framed), Ok(payload.clone()));
    assert_eq!(open_with_password(&framed, b"anything"), Ok(payload));
}

#[test]
fn empty_data_is_an_error() {
    assert_eq!(is_sealed(&Vec::new()), Err(CodecFailure::Empty));
    assert_eq!(open_without_password(&Vec::new()), Err(CodecFailure::Empty));
}

#[test]
fn loader_empty_data_ends_with_no_data() {
    let (loader, step) = SecureLoader::start(Vec::new());
    assert!(matches!(step, LoadStep::Failed(LoadFailure::NoData)));
    assert!(!loader.awaits_password() && !loader.awaits_answer());
}

#[test]
fn loader_plain_data_loads_without_prompt() {
    let (loader, step) = SecureLoader::start(vec![0u8, 5, 6]);
    match step {
        LoadStep::Loaded(v) => assert_eq!(v, vec![5u8, 6]),
        other => panic!("unexpected step {:?}", other),
    }
    assert!(!loader.awaits_password());
}

#[test]
fn loader_right_password_loads() {
    let sealed = seal_payload(&vec![4u8, 4], Some(&b"pw".to_vec())).unwrap();
    let (mut loader, step) = SecureLoader::start(sealed);
    assert!(matches!(step, LoadStep::AskPassword));
    match loader.submit_password(b"pw") {
        LoadStep::Loaded(v) => assert_eq!(v, vec![4u8, 4]),
        other => panic!("unexpected step {:?}", other),
    }
    assert!(!loader.awaits_password() && !loader.awaits_answer());
}

#[test]
fn loader_wrong_password_then_decline_gives_nothing() {
    let sealed = seal_payload(&vec![3u8], Some(&b"secret".to_vec())).unwrap();
    let (mut loader, step) = SecureLoader::start(sealed);
    assert!(matches!(step, LoadStep::AskPassword));
    assert!(matches!(loader.submit_password(b"guess"), LoadStep::AskPasswordAgain));
    assert!(loader.awaits_password());
    assert!(matches!(loader.submit_password(b"guess again"), LoadStep::AskRetry));
    assert!(loader.awaits_answer());
    assert!(matches!(loader.answer_retry(false), LoadStep::Abandoned));
    assert!(!loader.awaits_password() && !loader.awaits_answer());
}

#[test]
fn loader_retry_after_wrong_password_asks_again() {
    let sealed = seal_payload(&vec![3u8], Some(&b"secret".to_vec())).unwrap();
    let (mut loader, _) = SecureLoader::start(sealed);
    assert!(matches!(loader.submit_password(b"a"), LoadStep::AskPasswordAgain));
    assert!(matches!(loader.submit_password(b"b"), LoadStep::AskRetry));
    assert!(matches!(loader.answer_retry(true), LoadStep::AskPasswordAgain));
    assert!(matches!(loader.submit_password(b"secret"), LoadStep::AskRetry));
    match loader.answer_retry(true) {
        LoadStep::Loaded(v) => assert_eq!(v, vec![3u8]),
        other => panic!("unexpected step {:?}", other),
    }
}
