use lock_cli::outcome::{
    classify_find_signer, classify_plain, classify_verify, identify_unsigned, verify_unsigned,
    DecryptOutcome, DecryptStep, EngineError, SignatureStatus, SignerStatus,
};

#[test]
fn plain_mode_reports_digest() {
    assert!(matches!(classify_plain(Ok(true)), DecryptOutcome::Decrypted { digest_valid: true }));
    assert!(matches!(classify_plain(Ok(false)), DecryptOutcome::Decrypted { digest_valid: false }));
}

#[test]
fn plain_mode_key_mismatch_fails() {
    let o = classify_plain(Err(EngineError::KeyInvalid("decryption error".to_string())));
    assert!(matches!(o, DecryptOutcome::Failed { error: EngineError::KeyInvalid(_) }));
}

#[test]
fn verify_mode_valid_and_invalid_signature() {
    assert!(matches!(
        classify_verify(Ok((true, Ok(())))),
        DecryptStep::Done(DecryptOutcome::DecryptedAndVerified {
            digest_valid: true,
            signature: SignatureStatus::Valid
        })
    ));
    assert!(matches!(
        classify_verify(Ok((false, Err(EngineError::Rsa("verification".to_string()))))),
        DecryptStep::Done(DecryptOutcome::DecryptedAndVerified {
            digest_valid: false,
            signature: SignatureStatus::Invalid(EngineError::Rsa(_))
        })
    ));
}

#[test]
fn verify_mode_unsigned_file_falls_back_with_same_digest() {
    assert!(matches!(classify_verify(Err(EngineError::FileIsNotSigned)), DecryptStep::FallBackToPlain));
    for digest in [true, false] {
        let plain = classify_plain(Ok(digest));
        let verified = verify_unsigned(Ok(digest));
        match (plain, verified) {
            (
                DecryptOutcome::Decrypted { digest_valid: a },
                DecryptOutcome::DecryptedAndVerified { digest_valid: b, signature: SignatureStatus::NotSigned },
            ) => assert_eq!(a, b),
            other => panic!("unexpected outcomes {:?}", other),
        }
    }
}

#[test]
fn verify_mode_other_error_fails() {
    assert!(matches!(
        classify_verify(Err(EngineError::FileDoesNotExist)),
        DecryptStep::Done(DecryptOutcome::Failed { error: EngineError::FileDoesNotExist })
    ));
    assert!(matches!(
        verify_unsigned(Err(EngineError::Io("disk".to_string()))),
        DecryptOutcome::Failed { error: EngineError::Io(_) }
    ));
}

#[test]
fn find_signer_mode_found_and_unknown() {
    match classify_find_signer(Ok((true, Some("alice".to_string())))) {
        DecryptStep::Done(DecryptOutcome::DecryptedAndIdentified {
            digest_valid: true,
            signer: SignerStatus::Found(name),
        }) => assert_eq!(name, "alice"),
        other => panic!("unexpected step {:?}", other),
    }
    assert!(matches!(
        classify_find_signer(Ok((false, None))),
        DecryptStep::Done(DecryptOutcome::DecryptedAndIdentified {
            digest_valid: false,
            signer: SignerStatus::Unknown
        })
    ));
}

#[test]
fn find_signer_mode_unsigned_file_falls_back() {
    assert!(matches!(classify_find_signer(Err(EngineError::FileIsNotSigned)), DecryptStep::FallBackToPlain));
    assert!(matches!(
        identify_unsigned(Ok(true)),
        DecryptOutcome::DecryptedAndIdentified { digest_valid: true, signer: SignerStatus::NotSigned }
    ));
}
