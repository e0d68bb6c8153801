//! Where the cursor stands in the token stream, and what text a completion
//! would replace.
use vstd::prelude::*;
use vstd::string::*;
use vstd::utf8::*;

use crate::lex::{strip_quote_bytes, Keyword, OpTag, Token, TokenKind};
use crate::span::Span;
use crate::parse::{ident_kind, is_literal_kind};

verus! {

/// The cursor's place relative to the tokens.
#[derive(Debug, PartialEq, Eq)]
pub struct Cursor {
    /// The current position of the cursor.
    pub position: usize,
    /// The location of the cursor.
    pub location: Location,
    /// The text before the cursor. Empty if proceeding a space.
    pub fragment: String,
    /// The span into text to replace.
    pub replace: Span,
    /// The keywords preceding the cursor.
    pub preceding: Vec<Keyword>,
    /// The current keyword token (if cursor is on/after a keyword).
    pub current_keyword: Option<Keyword>,
    /// For qualified names (e.g., table.column), the qualifier before the dot.
    pub qualifier: Option<String>,
}

/// The kind of token the cursor follows.
#[derive(Debug, PartialEq, Eq)]
pub enum Location {
    /// `^`
    Start,
    /// `SELECT a,^`
    Comma,
    /// `SELECT a.^`
    Dot,
    /// `SELECT a +^`
    Operator(OpTag),
    /// `SELECT a^`
    Ident,
    /// `SELECT^`
    Keyword,
    /// `SELECT * FROM (^`
    Paren,
    /// `SELECT 1^`
    Literal,
    /// `SELECT a, ^`
    Space(Box<Location>),
}

/// Rust's ASCII whitespace: space, tab, line feed, form feed, carriage return.
pub open spec fn is_ascii_ws(c: u8) -> bool {
    c == 32 || c == 9 || c == 10 || c == 12 || c == 13
}

/// One past the last non-whitespace byte before `p`, or 0.
pub open spec fn last_non_space(b: Seq<u8>, p: int) -> int
    decreases p,
{
    if p <= 0 {
        0
    } else if !is_ascii_ws(b[p - 1]) {
        p
    } else {
        last_non_space(b, p - 1)
    }
}

/// The first token at or after index `k` whose span contains `x` inclusively,
/// or the number of tokens.
pub open spec fn first_containing(ts: Seq<Token>, x: int, k: int) -> int
    decreases ts.len() - k,
{
    if k < 0 || k >= ts.len() {
        ts.len() as int
    } else if ts[k].span.spec_contains_inclusive(x) {
        k
    } else {
        first_containing(ts, x, k + 1)
    }
}

/// The keywords among the first `n` tokens, in order.
pub open spec fn keywords_before(ts: Seq<Token>, n: int) -> Seq<Keyword>
    decreases n,
{
    if n <= 0 || n > ts.len() {
        Seq::empty()
    } else {
        let rest = keywords_before(ts, n - 1);
        match ts[n - 1].kind {
            TokenKind::Keyword(k) => rest.push(k),
            _ => rest,
        }
    }
}

/// The token the cursor stands on is the first whose span holds `x`, its
/// ends included: no token before it holds `x`, and where none holds it the
/// index is the number of tokens.
pub proof fn law_first_containing_is_least(ts: Seq<Token>, x: int, k: int)
    requires
        0 <= k <= ts.len(),
    ensures
        k <= first_containing(ts, x, k) <= ts.len(),
        first_containing(ts, x, k) < ts.len() ==> ts[first_containing(ts, x, k)].span.spec_contains_inclusive(x),
        forall|j: int| k <= j < first_containing(ts, x, k) ==> !(#[trigger] ts[j].span.spec_contains_inclusive(x)),
    decreases ts.len() - k,
{
    if k < ts.len() && !ts[k].span.spec_contains_inclusive(x) {
        law_first_containing_is_least(ts, x, k + 1);
    }
}

/// One past the last byte before `p` that is not ASCII whitespace (0 where
/// there is none): every byte from there up to `p` is whitespace.
pub proof fn law_last_non_space(b: Seq<u8>, p: int)
    requires
        0 <= p <= b.len(),
    ensures
        0 <= last_non_space(b, p) <= p,
        last_non_space(b, p) > 0 ==> !is_ascii_ws(b[last_non_space(b, p) - 1]),
        forall|j: int| last_non_space(b, p) <= j < p ==> is_ascii_ws(#[trigger] b[j]),
    decreases p,
{
    if p > 0 && is_ascii_ws(b[p - 1]) {
        law_last_non_space(b, p - 1);
    }
}

/// The keywords before the token at `n` are those of the tokens before it,
/// in order: a keyword token adds its keyword, any other token nothing.
pub proof fn law_keywords_before(ts: Seq<Token>, n: int)
    requires
        0 <= n <= ts.len(),
    ensures
        keywords_before(ts, n) == ts.take(n).filter(|t: Token| t.kind is Keyword).map_values(
            |t: Token| t.kind->Keyword_0,
        ),
    decreases n,
{
    reveal(Seq::filter);
    if n > 0 {
        law_keywords_before(ts, n - 1);
        assert(ts.take(n).drop_last() =~= ts.take(n - 1));
        let f = |t: Token| t.kind is Keyword;
        let g = |t: Token| t.kind->Keyword_0;
        if f(ts[n - 1]) {
            assert(ts.take(n).filter(f) == ts.take(n - 1).filter(f).push(ts[n - 1]));
            assert(ts.take(n).filter(f).map_values(g) =~= ts.take(n - 1).filter(f).map_values(g).push(g(ts[n - 1])));
        } else {
            assert(ts.take(n).filter(f) == ts.take(n - 1).filter(f));
        }
    } else {
        assert(ts.take(0).filter(|t: Token| t.kind is Keyword) =~= Seq::<Token>::empty());
    }
}

/// The location that a token of this kind gives the cursor.
pub open spec fn location_of(kind: TokenKind, after_space: bool) -> Location {
    let base = match kind {
        TokenKind::Comma => Some(Location::Comma),
        TokenKind::Dot => Some(Location::Dot),
        TokenKind::Operator(op) => Some(Location::Operator(op.semantic_tag)),
        TokenKind::Keyword(_) => Some(Location::Keyword),
        TokenKind::Identifier | TokenKind::IdentifierQuoted(_) => Some(Location::Ident),
        TokenKind::LeftParen => Some(Location::Paren),
        TokenKind::Number | TokenKind::Float | TokenKind::Str => Some(Location::Literal),
        _ => None,
    };
    match base {
        Some(l) => if after_space {
            Location::Space(Box::new(l))
        } else {
            l
        },
        None => Location::Start,
    }
}

/// The location a token gives follows how the parser classes the token: a
/// literal that is not a keyword (a number, a decimal or a string) gives
/// `Literal`, an identifier (quoted or not) gives `Ident`, a keyword gives
/// `Keyword`, an operator its tag, a comma `Comma`, a dot `Dot` and an
/// opening parenthesis `Paren`; after a space each is wrapped in `Space`.
/// Closing brackets, `;`, `:`, unknown characters and the end of input give
/// the start location.
pub proof fn law_location_by_token_class(kind: TokenKind, after_space: bool)
    ensures
        is_literal_kind(Some(kind)) && !(kind is Keyword) ==> location_of(kind, after_space) == if after_space {
            Location::Space(Box::new(Location::Literal))
        } else {
            Location::Literal
        },
        ident_kind(Some(kind)) ==> location_of(kind, after_space) == if after_space {
            Location::Space(Box::new(Location::Ident))
        } else {
            Location::Ident
        },
        kind is Keyword ==> location_of(kind, after_space) == if after_space {
            Location::Space(Box::new(Location::Keyword))
        } else {
            Location::Keyword
        },
        kind matches TokenKind::Operator(op) ==> location_of(kind, after_space) == if after_space {
            Location::Space(Box::new(Location::Operator(op.semantic_tag)))
        } else {
            Location::Operator(op.semantic_tag)
        },
        kind == TokenKind::Comma ==> location_of(kind, after_space) == if after_space {
            Location::Space(Box::new(Location::Comma))
        } else {
            Location::Comma
        },
        kind == TokenKind::Dot ==> location_of(kind, after_space) == if after_space {
            Location::Space(Box::new(Location::Dot))
        } else {
            Location::Dot
        },
        kind == TokenKind::LeftParen ==> location_of(kind, after_space) == if after_space {
            Location::Space(Box::new(Location::Paren))
        } else {
            Location::Paren
        },
        kind == TokenKind::RightParen || kind == TokenKind::Semicolon || kind == TokenKind::Colon || kind
            == TokenKind::LeftBracket || kind == TokenKind::RightBracket || kind == TokenKind::Unknown || kind
            == TokenKind::Eof ==> location_of(kind, after_space) == Location::Start,
{
}

/// The text of a name token as a qualifier: the identifier's text, or the
/// quoted identifier's text without its quotes.
pub open spec fn name_bytes(t: Token) -> Option<Seq<u8>> {
    match t.kind {
        TokenKind::Identifier => Some(encode_utf8(t.text@)),
        TokenKind::IdentifierQuoted(q) => Some(
            strip_quote_bytes(encode_utf8(t.text@), q.open_byte(), q.close_byte()),
        ),
        _ => None,
    }
}

/// The cursor that [`detect_cursor`] gives when it finds no token.
pub open spec fn is_start_cursor(c: Cursor, position: usize) -> bool {
    &&& c.position == position
    &&& c.location == Location::Start
    &&& c.fragment@ == Seq::<char>::empty()
    &&& c.replace == Span { start: position, end: position }
    &&& c.preceding@ == Seq::<Keyword>::empty()
    &&& c.current_keyword is None
    &&& c.qualifier is None
}

fn start_cursor(position: usize) -> (res: Cursor)
    ensures
        is_start_cursor(res, position),
{
    Cursor {
        position,
        location: Location::Start,
        fragment: String::new(),
        replace: Span::new(position, position),
        preceding: Vec::new(),
        current_keyword: None,
        qualifier: None,
    }
}

fn location_for(kind: TokenKind, after_space: bool) -> (res: Location)
    ensures
        res == location_of(kind, after_space),
{
    let base = match kind {
        TokenKind::Comma => Some(Location::Comma),
        TokenKind::Dot => Some(Location::Dot),
        TokenKind::Operator(op) => Some(Location::Operator(op.semantic_tag)),
        TokenKind::Keyword(_) => Some(Location::Keyword),
        TokenKind::Identifier | TokenKind::IdentifierQuoted(_) => Some(Location::Ident),
        TokenKind::LeftParen => Some(Location::Paren),
        TokenKind::Number | TokenKind::Float | TokenKind::Str => Some(Location::Literal),
        _ => None,
    };
    match base {
        Some(l) => if after_space {
            Location::Space(Box::new(l))
        } else {
            l
        },
        None => Location::Start,
    }
}

fn name_text(t: &Token) -> (res: Option<String>)
    ensures
        match name_bytes(*t) {
            Some(nb) => res is Some && encode_utf8(res.unwrap()@) == nb,
            None => res is None,
        },
{
    match t.kind {
        TokenKind::Identifier => Some(t.text.clone()),
        TokenKind::IdentifierQuoted(q) => {
            let s = q.strip_quotes(t.text.as_str());
            Some(s.to_owned())
        },
        _ => None,
    }
}

/// Find where the cursor at byte `position` of `text` stands among `tokens`:
/// the token that ends at (or spans) the last non-whitespace byte before the
/// cursor decides the location, the fragment to complete and the span it
/// replaces; the keywords before that token are the preceding keywords.
pub fn detect_cursor(text: &str, tokens: &[Token], position: usize) -> (res: Cursor)
    requires
        position <= text.spec_bytes().len(),
        is_char_boundary(text.spec_bytes(), position as int),
        ({
            let lnsc = last_non_space(text.spec_bytes(), position as int);
            let i = first_containing(tokens@, lnsc, 0);
            tokens@.len() > 1 && i < tokens@.len() && lnsc == position && tokens@[i].kind is IdentifierQuoted
                ==> tokens@[i].span.start < usize::MAX && tokens@[i].span.end > 0
        }),
    ensures
        ({
            let b = text.spec_bytes();
            let ts = tokens@;
            let lnsc = last_non_space(b, position as int);
            let i = first_containing(ts, lnsc, 0);
            let after_space = lnsc != position;
            if ts.len() <= 1 || i >= ts.len() {
                is_start_cursor(res, position)
            } else {
                let t = ts[i];
                &&& res.position == position
                &&& res.location == location_of(t.kind, after_space)
                &&& res.preceding@ == keywords_before(ts, i)
                &&& res.current_keyword == match t.kind {
                    TokenKind::Keyword(k) => Some(k),
                    _ => None,
                }
                &&& (!after_space && t.kind == TokenKind::Identifier) ==> res.fragment@ == t.text@
                    && res.replace == t.span
                &&& (!after_space && t.kind is IdentifierQuoted) ==> encode_utf8(res.fragment@)
                    == name_bytes(t).unwrap() && res.replace.start == t.span.start + 1
                    && res.replace.end == t.span.end - 1
                &&& (after_space || !(t.kind == TokenKind::Identifier
                    || t.kind is IdentifierQuoted)) ==> res.fragment@ == Seq::<char>::empty()
                    && res.replace == Span { start: position, end: position }
                &&& (t.kind == TokenKind::Dot && i > 0) ==> match name_bytes(ts[i - 1]) {
                    Some(nb) => res.qualifier is Some && encode_utf8(res.qualifier.unwrap()@)
                        == nb,
                    None => res.qualifier is None,
                }
                &&& !(t.kind == TokenKind::Dot && i > 0) ==> res.qualifier is None
            }
        }),
{
    if tokens.len() <= 1 {
        return start_cursor(position);
    }
    let b = text.as_bytes();
    // one past the last non-whitespace byte before the cursor
    let mut p = position;
    while p > 0 && (b[p - 1] == 32 || b[p - 1] == 9 || b[p - 1] == 10 || b[p - 1] == 12 || b[p
        - 1] == 13)
        invariant
            p <= position <= b@.len(),
            last_non_space(b@, position as int) == last_non_space(b@, p as int),
        decreases p,
    {
        p -= 1;
    }
    let lnsc = p;
    let after_space = lnsc != position;
    let mut i: usize = 0;
    while i < tokens.len() && !tokens[i].span.contains_inclusive(lnsc)
        invariant
            i <= tokens@.len(),
            first_containing(tokens@, lnsc as int, 0) == first_containing(
                tokens@,
                lnsc as int,
                i as int,
            ),
        decreases tokens.len() - i,
    {
        i += 1;
    }
    if i >= tokens.len() {
        return start_cursor(position);
    }
    let token = &tokens[i];
    let location = location_for(token.kind, after_space);
    let (fragment, replace) = if !after_space {
        match token.kind {
            TokenKind::Identifier => (token.text.clone(), token.span),
            TokenKind::IdentifierQuoted(q) => {
                let s = q.strip_quotes(token.text.as_str());
                (
                    s.to_owned(),
                    Span::new(token.span.start + 1, token.span.end - 1),
                )
            },
            _ => (String::new(), Span::new(position, position)),
        }
    } else {
        (String::new(), Span::new(position, position))
    };
    let mut preceding: Vec<Keyword> = Vec::new();
    let mut k: usize = 0;
    while k < i
        invariant
            k <= i < tokens@.len(),
            preceding@ == keywords_before(tokens@, k as int),
        decreases i - k,
    {
        match tokens[k].kind {
            TokenKind::Keyword(kw) => preceding.push(kw),
            _ => {},
        }
        k += 1;
    }
    let current_keyword = match token.kind {
        TokenKind::Keyword(kw) => Some(kw),
        _ => None,
    };
    let qualifier = if token.kind == TokenKind::Dot && i > 0 {
        name_text(&tokens[i - 1])
    } else {
        None
    };
    Cursor { position, location, fragment, replace, preceding, current_keyword, qualifier }
}

} // verus!
