//! A catalog of works and their chapters that is kept through a chat.
//!
//! The dialogue takes the events of a conversation one at a time: it moves
//! the state of the conversation and says what to reply or what to ask of
//! the catalog. The session store keeps the state of every conversation. The
//! catalog keeps the works and the chapters in two tables, each behind its
//! repository. The engine puts the three together.

pub mod chapter;
pub mod database;
pub mod dialogue;
pub mod engine;
pub mod error;
pub mod init;
pub mod keyboard;
pub mod kind;
pub mod manga;
pub mod markup;
pub mod message;
pub mod reply;
pub mod respond;
pub mod route;
pub mod seqs;
pub mod session;
pub mod state;
pub mod text;
