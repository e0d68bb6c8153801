use querent_core::dialect::ansi;
use querent_core::lex::{lex, Keyword, Token, TokenKind};

#[test]
fn basic_select_line() {
    let input = "SELECT name, * FROM users WHERE age > 18 AND name = 'John'";
    let s = &ansi::spec();
    let toks = lex(s, input);
    let expected = [
        TokenKind::Keyword(Keyword::Select),
        TokenKind::Identifier,
        TokenKind::Comma,
        TokenKind::Operator(s.match_operator("*").unwrap()),
        TokenKind::Keyword(Keyword::From),
        TokenKind::Identifier,
        TokenKind::Keyword(Keyword::Where),
        TokenKind::Identifier,
        TokenKind::Operator(s.match_operator(">").unwrap()),
        TokenKind::Number,
        TokenKind::Operator(s.match_operator("AND").unwrap()),
        TokenKind::Identifier,
        TokenKind::Operator(s.match_operator("=").unwrap()),
        TokenKind::Str,
        TokenKind::Eof,
    ];
    for (i, tok) in toks.iter().enumerate() {
        assert_eq!(Some(tok.kind), expected.get(i).copied(), "index {i}");
    }
}

#[test]
fn comments_and_ops_are_skipped_and_recognized() {
    let toks = ansi_tokens("/* a */ SELECT -- line\n a<=1 AND b!=2");
    assert!(
        toks.iter()
            .any(|t| t.kind == TokenKind::Keyword(Keyword::Select))
    );
    assert!(
        toks.iter()
            .any(|t| matches!(t.kind, TokenKind::Operator(_)))
    );
}

#[test]
fn word_operator_greediness_identifier_not_split() {
    let toks = ansi_tokens("ANDY");
    assert_eq!(toks.len(), 2);
    assert_eq!(toks[0].kind, TokenKind::Identifier);
    assert_eq!(toks[0].text, "ANDY");
    assert_eq!(toks[1].kind, TokenKind::Eof);

    // Similar check for LIKE
    let toks2 = ansi_tokens("LIKELY");
    assert_eq!(toks2[0].kind, TokenKind::Identifier);
    assert_eq!(toks2[0].text, "LIKELY");
}

#[test]
fn case_insensitive_keywords() {
    let kinds = ansi_tokens("select a from t")
        .iter()
        .map(|t| t.kind)
        .collect::<Vec<_>>();
    assert_eq!(kinds[0], TokenKind::Keyword(Keyword::Select));
    assert_eq!(kinds[2], TokenKind::Keyword(Keyword::From));
}

#[test]
fn punctuation_and_grouping_tokens() {
    let toks = ansi_token_kinds("(a,b);");
    assert_eq!(
        toks,
        vec![
            TokenKind::LeftParen,
            TokenKind::Identifier,
            TokenKind::Comma,
            TokenKind::Identifier,
            TokenKind::RightParen,
            TokenKind::Semicolon,
            TokenKind::Eof
        ]
    );
}

#[test]
fn string_with_escaped_quote() {
    let toks = ansi_tokens("WHERE x = 'a''b'");
    assert!(toks.iter().any(|t| t.kind == TokenKind::Str));
}

#[test]
fn floats_and_numbers_cover_edge_forms() {
    // Leading dot
    let toks = ansi_tokens(".5");
    assert_eq!(toks[0].kind, TokenKind::Float);
    assert_eq!(toks[0].text, ".5");

    // Trailing dot (commonly accepted)
    let toks2 = ansi_tokens("1.");
    assert_eq!(toks2[0].kind, TokenKind::Float);
    assert_eq!(toks2[0].text, "1.");

    // Fraction with exponent after dot
    let toks3 = ansi_tokens("1.e10");
    assert_eq!(toks3[0].kind, TokenKind::Float);
    assert_eq!(toks3[0].text, "1.e10");
}

#[test]
fn nested_block_comments_are_consumed() {
    let toks = ansi_tokens("/* outer /* inner */ */ SELECT 1");
    assert_eq!(toks.len(), 3);
    assert_eq!(toks[0].kind, TokenKind::Keyword(Keyword::Select));
    assert_eq!(toks[1].kind, TokenKind::Number);
    assert_eq!(toks[2].kind, TokenKind::Eof);
}

// ---- Properties over a fixed corpus of awkward inputs ----

fn corpus() -> Vec<String> {
    let mut v: Vec<String> = vec![
        "".to_string(),
        " ".to_string(),
        "SELECT".to_string(),
        "'unterminated".to_string(),
        "\"unterminated".to_string(),
        "/* unterminated".to_string(),
        "-- comment only".to_string(),
        "1.2.3e+5e-".to_string(),
        "é ünïcödé 名前 = 'ñ'".to_string(),
        "a<=>b!==c||d::e".to_string(),
        "@#?~^`[]{}\\".to_string(),
        "SELECT \"a\"\"b\", 'c''d' FROM t;".to_string(),
    ];
    for n in [0u64, 7, 42, 999_999] {
        v.push(n.to_string());
    }
    for f in [0.5f64, 1.25, 123456.75] {
        v.push(format!("{:.6}", f));
    }
    v
}

#[test]
fn terminates_and_consumes_all() {
    for input in corpus() {
        let tokens = ansi_tokens(&input);
        assert!(!tokens.is_empty(), "no tokens produced");
        assert_eq!(tokens.last().unwrap().kind, TokenKind::Eof);
        assert_eq!(tokens.last().unwrap().span.end, input.len());
    }
}

#[test]
fn spans_monotonic_and_non_overlapping() {
    for input in corpus() {
        let tokens = ansi_tokens(&input);
        for w in tokens.windows(2) {
            let a = &w[0];
            let b = &w[1];
            assert!(a.span.start <= a.span.end);
            assert!(a.span.end <= b.span.start);
            assert!(b.span.start <= b.span.end);
        }
    }
}

#[test]
fn nonempty_tokens_advance() {
    for input in corpus() {
        let tokens = ansi_tokens(&input);
        let mut last_end = 0usize;
        for t in tokens {
            if !t.text.is_empty() {
                assert!(t.span.end > last_end, "cursor did not advance");
            }
            last_end = t.span.end;
        }
    }
}

#[test]
fn random_numbers_detected() {
    for n in [0u64, 1, 10, 65535, 999_999] {
        let n = n.to_string();
        let int_toks = ansi_tokens(&n);
        assert!(int_toks.iter().any(|t| t.kind == TokenKind::Number));
    }
    for f in [0.0f64, 3.5, 999_999.125] {
        let float_str = format!("{:.6}", f);
        let float_toks = ansi_tokens(&float_str);
        assert!(float_toks.iter().any(|t| t.kind == TokenKind::Float));
    }
}

#[test]
fn token_text_matches_span() {
    for input in corpus() {
        for t in ansi_tokens(&input) {
            assert_eq!(t.text, &input[t.span.start..t.span.end]);
        }
    }
}

#[test]
fn postgres_operators_are_longest_match() {
    let s = querent_core::dialect::postgres::spec();
    let kinds: Vec<TokenKind> = lex(&s, "data->>'k' #>> x::int")
        .iter()
        .map(|t| t.kind)
        .collect();
    assert_eq!(kinds[1], TokenKind::Operator(s.match_operator("->>").unwrap()));
    assert_eq!(kinds[3], TokenKind::Operator(s.match_operator("#>>").unwrap()));
    assert_eq!(kinds[5], TokenKind::Operator(s.match_operator("::").unwrap()));
    // ANSI has no `::`: two colons
    let a: Vec<TokenKind> = ansi_tokens("x::int").iter().map(|t| t.kind).collect();
    assert_eq!(a[1], TokenKind::Colon);
    assert_eq!(a[2], TokenKind::Colon);
}

#[test]
fn quoted_identifier_and_unknown() {
    let kinds = ansi_token_kinds("\"a b\" @");
    assert_eq!(
        kinds,
        vec![
            TokenKind::IdentifierQuoted(querent_core::lex::QuoteStyle::Double),
            TokenKind::Unknown,
            TokenKind::Eof
        ]
    );
}

pub fn ansi_tokens(input: &str) -> Vec<Token> {
    let s = &ansi::spec();
    lex(s, input)
}

pub fn ansi_token_kinds(input: &str) -> Vec<TokenKind> {
    let s = &ansi::spec();
    lex(s, input)
        .into_iter()
        .map(|t| t.kind)
        .collect::<Vec<_>>()
}

#[test]
fn keyword_and_operator_matching_ignores_case() {
    let s = &ansi::spec();
    assert_eq!(s.match_keyword("select"), Some(Keyword::Select));
    assert_eq!(s.match_keyword("SeLeCt"), s.match_keyword("SELECT"));
    assert_eq!(s.match_keyword("selects"), None);
    assert_eq!(s.match_operator("and"), s.match_operator("AND"));
    assert!(s.match_operator("and").is_some());
}
