//! A rule-dispatch parser for markdown-like text: a prioritised table of
//! rules is matched against the front of the remaining buffer until it is
//! used up, giving a flat sequence of typed nodes.
pub mod pattern;
pub mod text;
pub mod node;
pub mod state;
pub mod rules;
pub mod table;
pub mod parse;
pub mod laws;

pub use node::{ASTNode, Field};
pub use parse::{Parser, parser_for};
pub use rules::{Rule, RuleKind, mailto_target};
pub use state::{Definition, State};
pub use table::{RuleEntry, RuleMap, create_default_rules};
pub use text::preprocess;
