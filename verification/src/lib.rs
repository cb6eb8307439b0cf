//! The conversation core of a warranty card bot.
//!
//! A user talks to the bot over a messaging channel, one message at a time. The
//! bot asks for the details of a purchase, has a warranty card generated from
//! them, and sends back a link to it. This crate holds the part that decides:
//! the stages of a conversation, the record kept for each user, and what
//! follows from every inbound message and from every answer of the services
//! that the bot relies on. Sending and receiving is left to the caller.
//!
//! - `workflow`: the stages and their order.
//! - `user_state`: the record of one user, and the prompts.
//! - `pdf`: what a card is made from.
//! - `conversation`: the steps by which a message is handled.
//! - `exchange`: a whole exchange at once, and what is proved of it.
//! - `dispatch`, `document`: the requests to the two services and the meaning
//!   of their answers.
//! - `config`, `failure`, `text`: settings, errors, and helpers on text.
//!
//! A record belongs to one user. Every function that changes a record takes
//! it by `&mut`, and none reaches beyond it, so a caller that keeps one
//! record per user and hands each message to the record of its sender never
//! has one conversation disturb another. Keeping the records, and making a
//! second message of the same user wait for the first, is the caller's part.

pub mod config;
pub mod conversation;
pub mod dispatch;
pub mod document;
pub mod exchange;
pub mod failure;
pub mod pdf;
pub mod text;
pub mod user_state;
pub mod workflow;
