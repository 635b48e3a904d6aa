//! A small multi-user document repository: accounts with a role fixed at
//! registration, documents kept only as ciphertext, comments on documents,
//! and an append-only audit trail written before each mutation is
//! acknowledged.

pub mod audit;
pub mod clock;
pub mod comment;
pub mod document;
pub mod text;
pub mod user;
pub mod laws;
pub mod vault;
