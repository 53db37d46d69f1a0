//! A Slack bot that referees a game of Nomic: it reads players' slash
//! commands, checks proposals for rule changes against the rules in force,
//! and answers with Slack messages.
pub mod db;
pub mod interpreter;
pub mod json;
pub mod laws;
pub mod model;
pub mod proposal;
pub mod request;
pub mod slack;
pub mod text;
pub mod wire;
