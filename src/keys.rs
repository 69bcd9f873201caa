//! Key material: creation of private keys, and the one-directional
//! derivations between the four kinds of key.
use vstd::prelude::*;

verus! {

/// The smallest key size, in bits, that key generation accepts.
pub const MIN_KEY_SIZE: usize = 2048;

/// Why a key could not be created.
#[derive(Debug)]
pub enum KeyError {
    KeySizeTooSmall,
    /// The engine failed while generating the key; its message.
    Generation(String),
}

/// The private key type of the archive engine, carried opaquely.
#[verifier::external_type_specification]
#[verifier::external_body]
pub struct ExPrivateKey(the_lock_lib::asymetric_key::PrivateKey);

/// The public key type of the archive engine, carried opaquely.
#[verifier::external_type_specification]
#[verifier::external_body]
pub struct ExPublicKey(the_lock_lib::asymetric_key::PublicKey);

/// The RSA private key type, carried opaquely.
#[verifier::external_type_specification]
#[verifier::external_body]
pub struct ExRsaPrivateKey(the_lock_lib::rsa::RsaPrivateKey);

/// The RSA public key type, carried opaquely.
#[verifier::external_type_specification]
#[verifier::external_body]
pub struct ExRsaPublicKey(the_lock_lib::rsa::RsaPublicKey);

/// One piece of key material, of any of the four kinds.
pub enum KeyMaterial {
    Private(the_lock_lib::asymetric_key::PrivateKey),
    Public(the_lock_lib::asymetric_key::PublicKey),
    RsaPrivate(the_lock_lib::rsa::RsaPrivateKey),
    RsaPublic(the_lock_lib::rsa::RsaPublicKey),
}

/// Relies on the_lock_lib::asymetric_key::PrivateKey::get_public_key: the
/// public half, as a new value.
#[verifier::external_body]
fn public_of_private(k: &the_lock_lib::asymetric_key::PrivateKey) -> the_lock_lib::asymetric_key::PublicKey {
    k.get_public_key()
}

/// Relies on the_lock_lib::asymetric_key::PrivateKey::get_rsa_private_key:
/// the RSA private key inside, copied out.
#[verifier::external_body]
fn rsa_private_of_private(k: &the_lock_lib::asymetric_key::PrivateKey) -> the_lock_lib::rsa::RsaPrivateKey {
    k.get_rsa_private_key().clone()
}

/// Relies on the_lock_lib::asymetric_key::PrivateKey::get_rsa_public_key.
#[verifier::external_body]
fn rsa_public_of_private(k: &the_lock_lib::asymetric_key::PrivateKey) -> the_lock_lib::rsa::RsaPublicKey {
    k.get_rsa_public_key()
}

/// Relies on the_lock_lib::asymetric_key::PublicKey::get_rsa_public_key:
/// the RSA public key inside, copied out.
#[verifier::external_body]
fn rsa_public_of_public(k: &the_lock_lib::asymetric_key::PublicKey) -> the_lock_lib::rsa::RsaPublicKey {
    k.get_rsa_public_key().clone()
}

/// Relies on rsa::RsaPrivateKey::to_public_key.
#[verifier::external_body]
fn rsa_public_of_rsa_private(k: &the_lock_lib::rsa::RsaPrivateKey) -> the_lock_lib::rsa::RsaPublicKey {
    k.to_public_key()
}

impl KeyMaterial {
    /// The public key derived from a private key; no other kind yields one.
    pub fn derive_public(&self) -> (r: Option<the_lock_lib::asymetric_key::PublicKey>)
        ensures
            r is Some <==> self is Private,
    {
        match self {
            KeyMaterial::Private(k) => Some(public_of_private(k)),
            _ => None,
        }
    }

    /// The RSA private key derived from a private key; no other kind yields one.
    pub fn derive_rsa_private(&self) -> (r: Option<the_lock_lib::rsa::RsaPrivateKey>)
        ensures
            r is Some <==> self is Private,
    {
        match self {
            KeyMaterial::Private(k) => Some(rsa_private_of_private(k)),
            _ => None,
        }
    }

    /// The RSA public key derived from a private key, a public key or an RSA
    /// private key; an RSA public key derives nothing further.
    pub fn derive_rsa_public(&self) -> (r: Option<the_lock_lib::rsa::RsaPublicKey>)
        ensures
            r is Some <==> !(self is RsaPublic),
    {
        match self {
            KeyMaterial::Private(k) => Some(rsa_public_of_private(k)),
            KeyMaterial::Public(k) => Some(rsa_public_of_public(k)),
            KeyMaterial::RsaPrivate(k) => Some(rsa_public_of_rsa_private(k)),
            KeyMaterial::RsaPublic(_) => None,
        }
    }
}

/// Relies on the_lock_lib::asymetric_key::PrivateKey::new, which refuses
/// sizes under its minimum (2048, the same as `MIN_KEY_SIZE`) and otherwise
/// fails only on a random-source or RSA error.
#[verifier::external_body]
fn generate_private_key(bits: usize) -> (r: Result<
    the_lock_lib::asymetric_key::PrivateKey,
    KeyError,
>)
    requires
        bits >= MIN_KEY_SIZE,
    ensures
        r matches Err(e) ==> e is Generation,
{
    the_lock_lib::asymetric_key::PrivateKey::new(bits).map_err(|e| KeyError::Generation(e.to_string()))
}

/// Creates a private key of `bits` bits; sizes under `MIN_KEY_SIZE` are refused.
pub fn new_private_key(bits: usize) -> (r: Result<the_lock_lib::asymetric_key::PrivateKey, KeyError>)
    ensures
        (r matches Err(KeyError::KeySizeTooSmall)) <==> bits < MIN_KEY_SIZE,
{
    if bits < MIN_KEY_SIZE {
        Err(KeyError::KeySizeTooSmall)
    } else {
        generate_private_key(bits)
    }
}

} // verus!
