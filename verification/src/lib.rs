pub mod evaluator;
pub mod executor;
pub mod frame;
pub mod lower;
pub mod machine;
pub mod parse_tree;
pub mod tree;
pub mod value;
pub mod parser;
pub mod error;
pub mod laws;
pub mod lexer;
pub mod token;

pub use token::Token;
pub use token::TokenV;
