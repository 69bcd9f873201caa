//! Loading a persisted secret that may be sealed with a password.
//!
//! The loader is a state machine: each call takes what the operator
//! answered and says what to ask next, until the bytes are opened, found
//! unusable, or the operator gives up.
use vstd::prelude::*;
use crate::codec::{
    CodecFailure,
    is_sealed,
    open_with_password,
    open_without_password,
    sealed,
    is_password_failure,
};

verus! {

/// Why loading ended without a value.
#[derive(Clone, Copy, Debug, PartialEq, Eq)]
pub enum LoadFailure {
    /// The stored data is empty.
    NoData,
    /// The stored data could not be opened.
    Codec(CodecFailure),
}

/// What the loader asks for next, or how it ended.
#[derive(Debug)]
pub enum LoadStep {
    /// Ask for the password.
    AskPassword,
    /// The password was wrong: ask for it again.
    AskPasswordAgain,
    /// Ask whether to go on trying.
    AskRetry,
    /// The payload that was stored.
    Loaded(Vec<u8>),
    /// Loading failed for good.
    Failed(LoadFailure),
    /// The operator declined to try again.
    Abandoned,
}

/// Where the loader stands.
#[derive(Debug)]
pub enum LoadPhase {
    /// Waiting for a password; `retry` once one has been refused.
    AwaitingPassword { retry: bool },
    /// Waiting for the answer to "try again?", holding the last attempt.
    AwaitingAnswer(Result<Vec<u8>, CodecFailure>),
    /// Nothing more will be asked.
    Finished,
}

pub struct SecureLoader {
    pub data: Vec<u8>,
    pub phase: LoadPhase,
}

impl SecureLoader {
    /// While anything is still asked, the stored data is sealed.
    pub open spec fn well_formed(&self) -> bool {
        !(self.phase is Finished) ==> self.data@.len() > 0 && self.data@[0] == 1
    }

    /// Probes the stored bytes: empty data ends at once, unsealed data is
    /// opened directly, sealed data asks for a password.
    pub fn start(data: Vec<u8>) -> (r: (SecureLoader, LoadStep))
        ensures
            r.0.well_formed(),
            r.0.data@ == data@,
            data@.len() == 0 ==> r.1 matches LoadStep::Failed(LoadFailure::NoData),
            data@.len() > 0 && data@[0] == 1 ==> r.1 is AskPassword && r.0.phase == (
            LoadPhase::AwaitingPassword { retry: false }),
            data@.len() > 0 && data@[0] != 1 ==> (r.1 matches LoadStep::Loaded(v) && v@
                == data@.drop_first()),
            !(r.1 is AskPassword) ==> r.0.phase is Finished,
    {
        match is_sealed(&data) {
            Err(_) => (SecureLoader { data, phase: LoadPhase::Finished }, LoadStep::Failed(
                LoadFailure::NoData,
            )),
            Ok(true) => (
                SecureLoader { data, phase: LoadPhase::AwaitingPassword { retry: false } },
                LoadStep::AskPassword,
            ),
            Ok(false) => {
                let step = match open_without_password(&data) {
                    Ok(v) => LoadStep::Loaded(v),
                    Err(e) => LoadStep::Failed(LoadFailure::Codec(e)),
                };
                (SecureLoader { data, phase: LoadPhase::Finished }, step)
            },
        }
    }

    fn holds_sealed_data(&self) -> (r: bool)
        ensures
            r == (self.data@.len() > 0 && self.data@[0] == 1),
    {
        self.data.len() > 0 && self.data[0] == 1
    }

    /// Whether the loader waits for a password (and may be given one).
    pub fn awaits_password(&self) -> (r: bool)
        ensures
            r == (self.phase is AwaitingPassword && self.well_formed()),
    {
        match self.phase {
            LoadPhase::AwaitingPassword { .. } => self.holds_sealed_data(),
            _ => false,
        }
    }

    /// Whether the loader waits for the answer to "try again?" (and may be given it).
    pub fn awaits_answer(&self) -> (r: bool)
        ensures
            r == (self.phase is AwaitingAnswer && self.well_formed()),
    {
        match self.phase {
            LoadPhase::AwaitingAnswer(_) => self.holds_sealed_data(),
            _ => false,
        }
    }

    /// Takes the outcome of opening the data with the password just given.
    /// On a first attempt a wrong password asks for another one; after
    /// that, every attempt is followed by the question whether to go on.
    pub fn after_attempt(&mut self, attempt: Result<Vec<u8>, CodecFailure>) -> (r: LoadStep)
        requires
            old(self).well_formed(),
            old(self).phase is AwaitingPassword,
        ensures
            final(self).well_formed(),
            final(self).data@ == old(self).data@,
            old(self).phase == (LoadPhase::AwaitingPassword { retry: true }) ==> r is AskRetry
                && final(self).phase == LoadPhase::AwaitingAnswer(attempt),
            old(self).phase == (LoadPhase::AwaitingPassword { retry: false }) ==> (match attempt {
                Ok(v) => r == LoadStep::Loaded(v) && final(self).phase is Finished,
                Err(CodecFailure::WrongPassword) => r is AskPasswordAgain && final(self).phase == (
                LoadPhase::AwaitingPassword { retry: true }),
                Err(e) => r == LoadStep::Failed(LoadFailure::Codec(e)) && final(self).phase is Finished,
            }),
    {
        let retry = match self.phase {
            LoadPhase::AwaitingPassword { retry } => retry,
            _ => true,
        };
        if retry {
            self.phase = LoadPhase::AwaitingAnswer(attempt);
            LoadStep::AskRetry
        } else {
            match attempt {
                Ok(v) => {
                    self.phase = LoadPhase::Finished;
                    LoadStep::Loaded(v)
                },
                Err(CodecFailure::WrongPassword) => {
                    self.phase = LoadPhase::AwaitingPassword { retry: true };
                    LoadStep::AskPasswordAgain
                },
                Err(e) => {
                    self.phase = LoadPhase::Finished;
                    LoadStep::Failed(LoadFailure::Codec(e))
                },
            }
        }
    }

    /// Tries `password` on the stored data.
    pub fn submit_password(&mut self, password: &[u8]) -> (r: LoadStep)
        requires
            old(self).well_formed(),
            old(self).phase is AwaitingPassword,
        ensures
            final(self).well_formed(),
            final(self).data@ == old(self).data@,
            old(self).phase == (LoadPhase::AwaitingPassword { retry: true }) ==> r is AskRetry
                && final(self).phase is AwaitingAnswer,
            old(self).phase == (LoadPhase::AwaitingPassword { retry: false }) ==> (r is Loaded
                || r is AskPasswordAgain || r matches LoadStep::Failed(
                LoadFailure::Codec(CodecFailure::KeyDerivation),
            )),
            forall|p: Seq<u8>|
                #![trigger sealed(p, password@)]
                old(self).phase == (LoadPhase::AwaitingPassword { retry: false }) && sealed(
                    p,
                    password@,
                ) == Some(old(self).data@) ==> (r matches LoadStep::Loaded(v) && v@ == p),
    {
        let attempt = open_with_password(&self.data, password);
        proof {
            if old(self).phase == (LoadPhase::AwaitingPassword { retry: false }) {
                if attempt is Err {
                    assert(is_password_failure(attempt->Err_0));
                }
            }
        }
        self.after_attempt(attempt)
    }

    /// Takes the answer to "try again?". Declining ends the loading with
    /// nothing asked further.
    pub fn answer_retry(&mut self, again: bool) -> (r: LoadStep)
        requires
            old(self).well_formed(),
            old(self).phase is AwaitingAnswer,
        ensures
            final(self).well_formed(),
            final(self).data@ == old(self).data@,
            !again ==> r is Abandoned && final(self).phase is Finished,
            again ==> (match old(self).phase {
                LoadPhase::AwaitingAnswer(Ok(v)) => r == LoadStep::Loaded(v)
                    && final(self).phase is Finished,
                LoadPhase::AwaitingAnswer(Err(CodecFailure::WrongPassword)) => r is AskPasswordAgain
                    && final(self).phase == (LoadPhase::AwaitingPassword { retry: true }),
                LoadPhase::AwaitingAnswer(Err(e)) => r == LoadStep::Failed(LoadFailure::Codec(e))
                    && final(self).phase is Finished,
                _ => false,
            }),
    {
        let mut phase = LoadPhase::Finished;
        std::mem::swap(&mut phase, &mut self.phase);
        if !again {
            return LoadStep::Abandoned;
        }
        match phase {
            LoadPhase::AwaitingAnswer(Ok(v)) => LoadStep::Loaded(v),
            LoadPhase::AwaitingAnswer(Err(CodecFailure::WrongPassword)) => {
                self.phase = LoadPhase::AwaitingPassword { retry: true };
                LoadStep::AskPasswordAgain
            },
            LoadPhase::AwaitingAnswer(Err(e)) => LoadStep::Failed(LoadFailure::Codec(e)),
            _ => LoadStep::Abandoned,
        }
    }
}

} // verus!
