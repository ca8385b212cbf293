//! Translation of JSON-like literals, given as token trees, into expressions
//! that build the corresponding structured values.
//!
//! The input is the token tree of one literal, as the host's lexer made it.
//! The output is an [`Expr`], a tree of constructor calls that the host
//! evaluates later, or a [`TranslationError`] with one message bound to one
//! source position. Translation is a function of the token tree alone.

pub mod error;
pub mod expr;
pub mod laws;
pub mod literal;
pub mod token;
pub mod translate;

pub use error::{best_span, expected_but_found, ErrorKind, ObjectFault, TranslationError};
pub use expr::Expr;
pub use literal::{float_literal_numeral, integer_literal_value};
pub use token::{Delim, Span, Token, TokenTree};
pub use translate::{expand, parse_array, parse_object, token_to_expr, tt_to_expr};
