//! A compiler front-end for a small rule language that describes event-driven
//! automation of networked peripheral devices: "when this event arrives from
//! that device, change the brightness on another".
//!
//! [`Parser::parse`] turns the text of a program into its [`config::Config`],
//! or into the one [`error::ParserError`] that says why it cannot. Each rule
//! of the grammar is a function that takes what it reads from the front of a
//! text and hands out the rest, and each comes with the function of the
//! specification that says, for every text, what it gives.
pub mod cast;
pub mod comment;
pub mod config;
pub mod cron;
pub mod error;
pub mod extractor;
pub mod filter;
pub mod item;
pub mod keyword;
pub mod laws;
pub mod literal;
pub mod locality;
pub mod parser;
pub mod producer;
pub mod program;
pub mod progress;
pub mod render;
pub mod statement;
pub mod symbol;
pub mod table;
pub mod text;
pub mod token;
pub mod tokenizer;
pub mod value;

pub use parser::Parser;
pub use program::EventCodes;
