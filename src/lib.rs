//! Orchestration of an encrypted, directory-structured container: the
//! model of its content, the outcomes of decryption, the progress protocol
//! of batch operations, and password-aware loading of persisted secrets.
pub mod batch;
pub mod codec;
pub mod keys;
pub mod loader;
pub mod outcome;
pub mod paths;
pub mod session;
pub mod tree;
