pub mod lexer;
pub mod rule;
pub mod scan;
pub mod tape;
mod types;
pub use lexer::lex;
pub use tape::{token_tape, TokenTape};
pub use types::{
    all_keywords, keyword_list, strip_quote_bytes, Assoc, Fixity, Keyword, OpTag, Operator, QuoteStyle, Token,
    TokenKind,
};
