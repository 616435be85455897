//! The statements of the language.
pub mod const_statement;
pub mod do_statement;
pub mod fire_statement;
pub mod let_statement;
pub mod match_statement;
pub mod peripheral_statement;
pub mod send_statement;
pub mod set_statement;
