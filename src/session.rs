//! The operator's choices around an opened container: the commands of each
//! menu, the storage profile of added files, and the selection of stored paths.
use vstd::prelude::*;

verus! {

/// The top-level menu.
#[derive(Clone, Copy, Debug, PartialEq, Eq)]
pub enum MainCommand {
    EncryptedFile,
    Keys,
    Signers,
    Exit,
}

impl MainCommand {
    /// The command at a zero-based menu position; any position past the
    /// listed ones leaves.
    pub fn from_index(i: usize) -> (r: MainCommand)
        ensures
            i == 0 ==> r == MainCommand::EncryptedFile,
            i == 1 ==> r == MainCommand::Keys,
            i == 2 ==> r == MainCommand::Signers,
            i >= 3 ==> r == MainCommand::Exit,
    {
        match i {
            0 => MainCommand::EncryptedFile,
            1 => MainCommand::Keys,
            2 => MainCommand::Signers,
            _ => MainCommand::Exit,
        }
    }
}

/// The menu of an opened container.
#[derive(Clone, Copy, Debug, PartialEq, Eq)]
pub enum ArchiveCommand {
    AddFile,
    AddDirectory,
    DecryptFile,
    DecryptDirectory,
    ListContent,
    CloneWithout,
    SetStorageProfile,
    Exit,
}

impl ArchiveCommand {
    pub fn from_index(i: usize) -> (r: ArchiveCommand)
        ensures
            i == 0 ==> r == ArchiveCommand::AddFile,
            i == 1 ==> r == ArchiveCommand::AddDirectory,
            i == 2 ==> r == ArchiveCommand::DecryptFile,
            i == 3 ==> r == ArchiveCommand::DecryptDirectory,
            i == 4 ==> r == ArchiveCommand::ListContent,
            i == 5 ==> r == ArchiveCommand::CloneWithout,
            i == 6 ==> r == ArchiveCommand::SetStorageProfile,
            i >= 7 ==> r == ArchiveCommand::Exit,
    {
        match i {
            0 => ArchiveCommand::AddFile,
            1 => ArchiveCommand::AddDirectory,
            2 => ArchiveCommand::DecryptFile,
            3 => ArchiveCommand::DecryptDirectory,
            4 => ArchiveCommand::ListContent,
            5 => ArchiveCommand::CloneWithout,
            6 => ArchiveCommand::SetStorageProfile,
            _ => ArchiveCommand::Exit,
        }
    }
}

/// How files are added.
#[derive(Clone, Copy, Debug, PartialEq, Eq)]
pub enum EncryptMode {
    Encrypt,
    EncryptAndSign,
    Exit,
}

impl EncryptMode {
    pub fn from_index(i: usize) -> (r: EncryptMode)
        ensures
            i == 0 ==> r == EncryptMode::Encrypt,
            i == 1 ==> r == EncryptMode::EncryptAndSign,
            i >= 2 ==> r == EncryptMode::Exit,
    {
        match i {
            0 => EncryptMode::Encrypt,
            1 => EncryptMode::EncryptAndSign,
            _ => EncryptMode::Exit,
        }
    }
}

/// How files are decrypted.
#[derive(Clone, Copy, Debug, PartialEq, Eq)]
pub enum DecryptMode {
    Plain,
    Verify,
    FindSigner,
    Exit,
}

impl DecryptMode {
    pub fn from_index(i: usize) -> (r: DecryptMode)
        ensures
            i == 0 ==> r == DecryptMode::Plain,
            i == 1 ==> r == DecryptMode::Verify,
            i == 2 ==> r == DecryptMode::FindSigner,
            i >= 3 ==> r == DecryptMode::Exit,
    {
        match i {
            0 => DecryptMode::Plain,
            1 => DecryptMode::Verify,
            2 => DecryptMode::FindSigner,
            _ => DecryptMode::Exit,
        }
    }
}

/// The key menu.
#[derive(Clone, Copy, Debug, PartialEq, Eq)]
pub enum KeyCommand {
    CreatePrivateKey,
    OpenPrivateKey,
    OpenPublicKey,
    OpenRsaPrivateKey,
    OpenRsaPublicKey,
    Exit,
}

impl KeyCommand {
    pub fn from_index(i: usize) -> (r: KeyCommand)
        ensures
            i == 0 ==> r == KeyCommand::CreatePrivateKey,
            i == 1 ==> r == KeyCommand::OpenPrivateKey,
            i == 2 ==> r == KeyCommand::OpenPublicKey,
            i == 3 ==> r == KeyCommand::OpenRsaPrivateKey,
            i == 4 ==> r == KeyCommand::OpenRsaPublicKey,
            i >= 5 ==> r == KeyCommand::Exit,
    {
        match i {
            0 => KeyCommand::CreatePrivateKey,
            1 => KeyCommand::OpenPrivateKey,
            2 => KeyCommand::OpenPublicKey,
            3 => KeyCommand::OpenRsaPrivateKey,
            4 => KeyCommand::OpenRsaPublicKey,
            _ => KeyCommand::Exit,
        }
    }
}

/// Where an RSA public key is taken from: stored as such, or derived from
/// one of the three kinds of key it can be derived from.
#[derive(Clone, Copy, Debug, PartialEq, Eq)]
pub enum RsaPublicKeySource {
    RsaPublicKey,
    RsaPrivateKey,
    PrivateKey,
    PublicKey,
    Exit,
}

impl RsaPublicKeySource {
    pub fn from_index(i: usize) -> (r: RsaPublicKeySource)
        ensures
            i == 0 ==> r == RsaPublicKeySource::RsaPublicKey,
            i == 1 ==> r == RsaPublicKeySource::RsaPrivateKey,
            i == 2 ==> r == RsaPublicKeySource::PrivateKey,
            i == 3 ==> r == RsaPublicKeySource::PublicKey,
            i >= 4 ==> r == RsaPublicKeySource::Exit,
    {
        match i {
            0 => RsaPublicKeySource::RsaPublicKey,
            1 => RsaPublicKeySource::RsaPrivateKey,
            2 => RsaPublicKeySource::PrivateKey,
            3 => RsaPublicKeySource::PublicKey,
            _ => RsaPublicKeySource::Exit,
        }
    }
}

/// Where a public key is taken from.
#[derive(Clone, Copy, Debug, PartialEq, Eq)]
pub enum PublicKeySource {
    PublicKey,
    PrivateKey,
    Exit,
}

impl PublicKeySource {
    pub fn from_index(i: usize) -> (r: PublicKeySource)
        ensures
            i == 0 ==> r == PublicKeySource::PublicKey,
            i == 1 ==> r == PublicKeySource::PrivateKey,
            i >= 2 ==> r == PublicKeySource::Exit,
    {
        match i {
            0 => PublicKeySource::PublicKey,
            1 => PublicKeySource::PrivateKey,
            _ => PublicKeySource::Exit,
        }
    }
}

/// Where an RSA private key is taken from.
#[derive(Clone, Copy, Debug, PartialEq, Eq)]
pub enum RsaPrivateKeySource {
    RsaPrivateKey,
    PrivateKey,
    Exit,
}

impl RsaPrivateKeySource {
    pub fn from_index(i: usize) -> (r: RsaPrivateKeySource)
        ensures
            i == 0 ==> r == RsaPrivateKeySource::RsaPrivateKey,
            i == 1 ==> r == RsaPrivateKeySource::PrivateKey,
            i >= 2 ==> r == RsaPrivateKeySource::Exit,
    {
        match i {
            0 => RsaPrivateKeySource::RsaPrivateKey,
            1 => RsaPrivateKeySource::PrivateKey,
            _ => RsaPrivateKeySource::Exit,
        }
    }
}

/// The signer-registry menu.
#[derive(Clone, Copy, Debug, PartialEq, Eq)]
pub enum SignersCommand {
    AddSigner,
    ListSigners,
    DeleteSigner,
    ExtractSignerKey,
    Exit,
}

impl SignersCommand {
    pub fn from_index(i: usize) -> (r: SignersCommand)
        ensures
            i == 0 ==> r == SignersCommand::AddSigner,
            i == 1 ==> r == SignersCommand::ListSigners,
            i == 2 ==> r == SignersCommand::DeleteSigner,
            i == 3 ==> r == SignersCommand::ExtractSignerKey,
            i >= 4 ==> r == SignersCommand::Exit,
    {
        match i {
            0 => SignersCommand::AddSigner,
            1 => SignersCommand::ListSigners,
            2 => SignersCommand::DeleteSigner,
            3 => SignersCommand::ExtractSignerKey,
            _ => SignersCommand::Exit,
        }
    }
}

/// The compression of stored files.
#[derive(Clone, Copy, Debug, PartialEq, Eq)]
pub enum Compression {
    Stored,
    Deflated,
    Bzip2,
    Zstd,
}

impl Compression {
    /// The method at a position of the compression menu (Deflated, Stored,
    /// Bzip2, Zstd); `None` for the position that goes back.
    pub fn from_choice(i: usize) -> (r: Option<Compression>)
        ensures
            i == 0 ==> r == Some(Compression::Deflated),
            i == 1 ==> r == Some(Compression::Stored),
            i == 2 ==> r == Some(Compression::Bzip2),
            i == 3 ==> r == Some(Compression::Zstd),
            i >= 4 ==> r is None,
    {
        match i {
            0 => Some(Compression::Deflated),
            1 => Some(Compression::Stored),
            2 => Some(Compression::Bzip2),
            3 => Some(Compression::Zstd),
            _ => None,
        }
    }
}

/// How added files are stored.
#[derive(Clone, Copy, Debug, PartialEq, Eq)]
pub struct StorageProfile {
    pub method: Compression,
    pub level: Option<i32>,
    pub large_file: bool,
}

/// Why a storage profile was refused.
#[derive(Clone, Copy, Debug, PartialEq, Eq)]
pub enum ProfileError {
    /// The level lies outside the method's range.
    LevelOutOfRange,
    /// The method takes no level.
    LevelNotApplicable,
}

/// Whether `method` takes a compression level, and its range.
pub open spec fn level_allowed(method: Compression, level: int) -> bool {
    match method {
        Compression::Stored => false,
        Compression::Deflated => 0 <= level <= 9,
        Compression::Bzip2 => 0 <= level <= 9,
        Compression::Zstd => -7 <= level <= 22,
    }
}

/// The level offered first for `method`.
pub fn default_level(method: Compression) -> (r: Option<i32>)
    ensures
        method == Compression::Stored ==> r is None,
        method == Compression::Deflated ==> r == Some(6i32),
        method == Compression::Bzip2 ==> r == Some(6i32),
        method == Compression::Zstd ==> r == Some(3i32),
        r matches Some(l) ==> level_allowed(method, l as int),
{
    match method {
        Compression::Stored => None,
        Compression::Deflated => Some(6),
        Compression::Bzip2 => Some(6),
        Compression::Zstd => Some(3),
    }
}

/// The storage profile that the engine starts with.
pub fn default_profile() -> (r: StorageProfile)
    ensures
        r == (StorageProfile { method: Compression::Deflated, level: None, large_file: false }),
{
    StorageProfile { method: Compression::Deflated, level: None, large_file: false }
}

/// The profile for `method` at `level` (the engine's own level when `None`).
pub fn make_profile(method: Compression, level: Option<i32>) -> (r: Result<
    StorageProfile,
    ProfileError,
>)
    ensures
        level is None ==> r == Ok::<StorageProfile, ProfileError>(
            StorageProfile { method, level: None, large_file: false },
        ),
        level matches Some(l) ==> (if level_allowed(method, l as int) {
            r == Ok::<StorageProfile, ProfileError>(
                StorageProfile { method, level, large_file: false },
            )
        } else if method == Compression::Stored {
            r == Err::<StorageProfile, ProfileError>(ProfileError::LevelNotApplicable)
        } else {
            r == Err::<StorageProfile, ProfileError>(ProfileError::LevelOutOfRange)
        }),
{
    match level {
        None => Ok(StorageProfile { method, level: None, large_file: false }),
        Some(l) => {
            let ok = match method {
                Compression::Stored => false,
                Compression::Deflated => 0 <= l && l <= 9,
                Compression::Bzip2 => 0 <= l && l <= 9,
                Compression::Zstd => -7 <= l && l <= 22,
            };
            if ok {
                Ok(StorageProfile { method, level, large_file: false })
            } else if matches!(method, Compression::Stored) {
                Err(ProfileError::LevelNotApplicable)
            } else {
                Err(ProfileError::LevelOutOfRange)
            }
        },
    }
}

/// Why an entered number was refused.
#[derive(Clone, Copy, Debug, PartialEq, Eq)]
pub enum NumberError {
    NotANumber,
    OutOfRange,
}

/// Accepts an entered number (`None` when the text was no number) that lies
/// in `lo..=hi`.
pub fn check_in_range(value: Option<i64>, lo: i64, hi: i64) -> (r: Result<i64, NumberError>)
    ensures
        value is None ==> r == Err::<i64, NumberError>(NumberError::NotANumber),
        value matches Some(v) ==> (if lo <= v <= hi {
            r == Ok::<i64, NumberError>(v)
        } else {
            r == Err::<i64, NumberError>(NumberError::OutOfRange)
        }),
{
    match value {
        None => Err(NumberError::NotANumber),
        Some(v) => {
            if lo <= v && v <= hi {
                Ok(v)
            } else {
                Err(NumberError::OutOfRange)
            }
        },
    }
}

/// Files of 4 GiB and more must be added with the large-file profile.
pub const LARGE_FILE_SIZE: u64 = 4 * 1024 * 1024 * 1024;

/// Whether a file of `size` bytes needs the large-file storage profile.
pub fn needs_large_file(size: u64) -> (r: bool)
    ensures
        r == (size >= LARGE_FILE_SIZE),
{
    size >= LARGE_FILE_SIZE
}

/// `profile`, set up for adding a file of `size` bytes.
pub fn profile_for_file(profile: StorageProfile, size: u64) -> (r: StorageProfile)
    ensures
        r == (StorageProfile { large_file: size >= LARGE_FILE_SIZE, ..profile }),
{
    StorageProfile { large_file: needs_large_file(size), ..profile }
}

/// The paths at the chosen positions of `files`, in the order chosen;
/// `None` when a position lies outside the list.
pub fn pick_paths(files: &Vec<String>, picks: &Vec<usize>) -> (r: Option<Vec<String>>)
    ensures
        (forall|k: int| 0 <= k < picks@.len() ==> #[trigger] picks@[k] < files@.len()) <==> r is Some,
        r matches Some(v) ==> v@.len() == picks@.len() && forall|k: int|
            0 <= k < picks@.len() ==> #[trigger] v@[k]@ == files@[picks@[k] as int]@,
{
    let mut out: Vec<String> = Vec::new();
    let mut k: usize = 0;
    while k < picks.len()
        invariant
            0 <= k <= picks@.len(),
            out@.len() == k,
            forall|j: int| 0 <= j < k ==> #[trigger] picks@[j] < files@.len(),
            forall|j: int| 0 <= j < k ==> #[trigger] out@[j]@ == files@[picks@[j] as int]@,
        decreases picks@.len() - k,
    {
        let p = picks[k];
        if p >= files.len() {
            return None;
        }
        out.push(files[p].clone());
        k = k + 1;
    }
    Some(out)
}

} // verus!
