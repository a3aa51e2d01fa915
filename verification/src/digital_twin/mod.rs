//! The digital twin of one car, its mailbox vocabulary and the laws its cuts obey.
pub mod car;
pub mod state_laws;
pub mod vocabulary;
