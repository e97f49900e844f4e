//! Decision logic of Sloppy, an autonomous fundraising agent: the text it
//! cleans and logs, the stream of completions it reads, the invoice rows it
//! decodes and the survival loop that decides when to post.

pub mod agent_log;
pub mod auth;
pub mod chars;
pub mod completion;
pub mod decimal;
pub mod invoice;
pub mod lines;
pub mod nostr_profile;
pub mod request;
pub mod survival;
pub mod text;
