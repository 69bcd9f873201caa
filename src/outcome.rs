//! Classification of what the archive engine reports for one decrypted
//! file, in each of the three decryption modes.
use vstd::prelude::*;

verus! {

/// An error reported by the archive engine, by kind; the kinds that wrap a
/// lower-level error keep its message.
#[derive(Debug)]
pub enum EngineError {
    FileAlreadyExists,
    FileDoesNotExist,
    FileIsNotSigned,
    FileKeyIsMissing,
    FileContentIsMissing,
    InvalidPath,
    DirectoryDoesNotExist,
    ThisIsNotADirectory,
    ContentIsUnknown,
    Archive(String),
    Content(String),
    Rsa(String),
    Io(String),
    SymmetricCipher(String),
    /// The asymmetric key failed: most likely it does not fit the file.
    KeyInvalid(String),
}

/// What became of the signature of a file decrypted in verify mode.
#[derive(Debug)]
pub enum SignatureStatus {
    Valid,
    Invalid(EngineError),
    /// The file carries no signature: a valid state, not a failure.
    NotSigned,
}

/// Who signed a file decrypted in find-signer mode.
#[derive(Debug)]
pub enum SignerStatus {
    Found(String),
    /// No signer of the registry matches.
    Unknown,
    /// The file carries no signature.
    NotSigned,
}

/// The outcome of decrypting one file.
#[derive(Debug)]
pub enum DecryptOutcome {
    Decrypted { digest_valid: bool },
    DecryptedAndVerified { digest_valid: bool, signature: SignatureStatus },
    DecryptedAndIdentified { digest_valid: bool, signer: SignerStatus },
    Failed { error: EngineError },
}

/// What to do with the engine's answer in verify or find-signer mode.
#[derive(Debug)]
pub enum DecryptStep {
    Done(DecryptOutcome),
    /// The file is not signed: decrypt it in plain mode instead.
    FallBackToPlain,
}

pub open spec fn plain_outcome(r: Result<bool, EngineError>) -> DecryptOutcome {
    match r {
        Ok(d) => DecryptOutcome::Decrypted { digest_valid: d },
        Err(e) => DecryptOutcome::Failed { error: e },
    }
}

pub open spec fn verify_step(r: Result<(bool, Result<(), EngineError>), EngineError>) -> DecryptStep {
    match r {
        Ok((d, Ok(()))) => DecryptStep::Done(
            DecryptOutcome::DecryptedAndVerified { digest_valid: d, signature: SignatureStatus::Valid },
        ),
        Ok((d, Err(e))) => DecryptStep::Done(
            DecryptOutcome::DecryptedAndVerified {
                digest_valid: d,
                signature: SignatureStatus::Invalid(e),
            },
        ),
        Err(EngineError::FileIsNotSigned) => DecryptStep::FallBackToPlain,
        Err(e) => DecryptStep::Done(DecryptOutcome::Failed { error: e }),
    }
}

pub open spec fn find_signer_step(r: Result<(bool, Option<String>), EngineError>) -> DecryptStep {
    match r {
        Ok((d, Some(name))) => DecryptStep::Done(
            DecryptOutcome::DecryptedAndIdentified { digest_valid: d, signer: SignerStatus::Found(name) },
        ),
        Ok((d, None)) => DecryptStep::Done(
            DecryptOutcome::DecryptedAndIdentified { digest_valid: d, signer: SignerStatus::Unknown },
        ),
        Err(EngineError::FileIsNotSigned) => DecryptStep::FallBackToPlain,
        Err(e) => DecryptStep::Done(DecryptOutcome::Failed { error: e }),
    }
}

/// The outcome in verify mode of a file found unsigned, from its plain decryption.
pub open spec fn verify_unsigned_outcome(plain: Result<bool, EngineError>) -> DecryptOutcome {
    match plain {
        Ok(d) => DecryptOutcome::DecryptedAndVerified {
            digest_valid: d,
            signature: SignatureStatus::NotSigned,
        },
        Err(e) => DecryptOutcome::Failed { error: e },
    }
}

/// The outcome in find-signer mode of a file found unsigned, from its plain decryption.
pub open spec fn identify_unsigned_outcome(plain: Result<bool, EngineError>) -> DecryptOutcome {
    match plain {
        Ok(d) => DecryptOutcome::DecryptedAndIdentified {
            digest_valid: d,
            signer: SignerStatus::NotSigned,
        },
        Err(e) => DecryptOutcome::Failed { error: e },
    }
}

/// Classifies the engine's answer in plain mode.
pub fn classify_plain(r: Result<bool, EngineError>) -> (o: DecryptOutcome)
    ensures
        o == plain_outcome(r),
{
    match r {
        Ok(d) => DecryptOutcome::Decrypted { digest_valid: d },
        Err(e) => DecryptOutcome::Failed { error: e },
    }
}

/// Classifies the engine's answer in verify mode; an unsigned file asks for
/// a plain decryption instead of being reported as a signature failure.
pub fn classify_verify(r: Result<(bool, Result<(), EngineError>), EngineError>) -> (s: DecryptStep)
    ensures
        s == verify_step(r),
{
    match r {
        Ok((d, Ok(()))) => DecryptStep::Done(
            DecryptOutcome::DecryptedAndVerified { digest_valid: d, signature: SignatureStatus::Valid },
        ),
        Ok((d, Err(e))) => DecryptStep::Done(
            DecryptOutcome::DecryptedAndVerified {
                digest_valid: d,
                signature: SignatureStatus::Invalid(e),
            },
        ),
        Err(EngineError::FileIsNotSigned) => DecryptStep::FallBackToPlain,
        Err(e) => DecryptStep::Done(DecryptOutcome::Failed { error: e }),
    }
}

/// Classifies the engine's answer in find-signer mode; an unknown signer is
/// a normal outcome, an unsigned file asks for a plain decryption.
pub fn classify_find_signer(r: Result<(bool, Option<String>), EngineError>) -> (s: DecryptStep)
    ensures
        s == find_signer_step(r),
{
    match r {
        Ok((d, Some(name))) => DecryptStep::Done(
            DecryptOutcome::DecryptedAndIdentified { digest_valid: d, signer: SignerStatus::Found(name) },
        ),
        Ok((d, None)) => DecryptStep::Done(
            DecryptOutcome::DecryptedAndIdentified { digest_valid: d, signer: SignerStatus::Unknown },
        ),
        Err(EngineError::FileIsNotSigned) => DecryptStep::FallBackToPlain,
        Err(e) => DecryptStep::Done(DecryptOutcome::Failed { error: e }),
    }
}

/// The verify-mode outcome of an unsigned file, from its plain decryption.
pub fn verify_unsigned(plain: Result<bool, EngineError>) -> (o: DecryptOutcome)
    ensures
        o == verify_unsigned_outcome(plain),
{
    match plain {
        Ok(d) => DecryptOutcome::DecryptedAndVerified {
            digest_valid: d,
            signature: SignatureStatus::NotSigned,
        },
        Err(e) => DecryptOutcome::Failed { error: e },
    }
}

/// The find-signer-mode outcome of an unsigned file, from its plain decryption.
pub fn identify_unsigned(plain: Result<bool, EngineError>) -> (o: DecryptOutcome)
    ensures
        o == identify_unsigned_outcome(plain),
{
    match plain {
        Ok(d) => DecryptOutcome::DecryptedAndIdentified {
            digest_valid: d,
            signer: SignerStatus::NotSigned,
        },
        Err(e) => DecryptOutcome::Failed { error: e },
    }
}

/// An unsigned file in verify mode: the engine's refusal leads to a plain
/// decryption, and the outcome carries the very digest verdict that plain
/// mode gives, with the not-signed marker and never a signature error.
pub proof fn lemma_unsigned_falls_back(plain: Result<bool, EngineError>)
    ensures
        verify_step(Err(EngineError::FileIsNotSigned)) is FallBackToPlain,
        find_signer_step(Err(EngineError::FileIsNotSigned)) is FallBackToPlain,
        plain matches Ok(d) ==> plain_outcome(plain) == (DecryptOutcome::Decrypted {
            digest_valid: d,
        }) && verify_unsigned_outcome(plain) == (DecryptOutcome::DecryptedAndVerified {
            digest_valid: d,
            signature: SignatureStatus::NotSigned,
        }),
        !(verify_unsigned_outcome(plain) matches DecryptOutcome::DecryptedAndVerified {
            signature: SignatureStatus::Invalid(_),
            ..
        }),
        plain is Err ==> verify_unsigned_outcome(plain) == plain_outcome(plain),
{
}

} // verus!
