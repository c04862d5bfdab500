use helix_term::args::{Args, CommandCompleter, Flag, ParseError, Signature};

fn parse_signature(input: &str, signature: Signature) -> Result<Args, ParseError> {
    Args::parse(input, signature, true)
}

fn test_flags() -> &'static [Flag] {
    Vec::leak(vec![
        Flag {
            name: "foo",
            alias: Some('f'),
            doc: "",
            completer: None,
        },
        Flag {
            name: "bar",
            alias: Some('b'),
            doc: "",
            completer: Some(CommandCompleter::none()),
        },
    ])
}

#[test]
fn signature_validation_positionals() {
    let signature = Signature {
        positionals: (2, Some(3)),
        ..Signature::default()
    };

    assert!(parse_signature("hello world", signature).is_ok());
    assert!(parse_signature("foo bar baz", signature).is_ok());
    assert!(parse_signature(r#"a "b c" d"#, signature).is_ok());

    assert!(parse_signature("hello", signature).is_err());
    assert!(parse_signature("foo bar baz quiz", signature).is_err());

    let signature = Signature {
        positionals: (1, None),
        ..Signature::default()
    };

    assert!(parse_signature("a", signature).is_ok());
    assert!(parse_signature("a b", signature).is_ok());
    assert!(parse_signature(r#"a "b c" d"#, signature).is_ok());

    assert!(parse_signature("", signature).is_err());
}

#[test]
fn flags() {
    let signature = Signature {
        positionals: (1, Some(2)),
        flags: test_flags(),
        ..Signature::default()
    };

    let args = parse_signature("hello", signature).unwrap();
    assert_eq!(args.len(), 1);
    assert_eq!(args.index(0), "hello");
    assert!(!args.has_flag("foo"));
    assert!(args.get_flag("bar").is_none());

    let args = parse_signature("--bar abcd hello world --foo", signature).unwrap();
    assert_eq!(args.len(), 2);
    assert_eq!(args.index(0), "hello");
    assert_eq!(args.index(1), "world");
    assert!(args.has_flag("foo"));
    assert_eq!(args.get_flag("bar"), Some("abcd"));

    let args = parse_signature("hello -f -b abcd world", signature).unwrap();
    assert_eq!(args.len(), 2);
    assert_eq!(args.index(0), "hello");
    assert_eq!(args.index(1), "world");
    assert!(args.has_flag("foo"));
    assert_eq!(args.get_flag("bar"), Some("abcd"));

    // The signature requires at least one positional.
    assert!(parse_signature("--foo", signature).is_err());
    // And at most two.
    assert!(parse_signature("abc --bar baz def efg", signature).is_err());

    let args = parse_signature(r#"abc -b "xyz 123" def"#, signature).unwrap();
    assert_eq!(args.len(), 2);
    assert_eq!(args.index(0), "abc");
    assert_eq!(args.index(1), "def");
    assert_eq!(args.get_flag("bar"), Some("xyz 123"));

    // Unknown flags are validation errors.
    assert!(parse_signature(r#"foo --quiz"#, signature).is_err());
    // Duplicated flags are parsing errors.
    assert!(parse_signature(r#"--foo bar --foo"#, signature).is_err());
    assert!(parse_signature(r#"-f bar --foo"#, signature).is_err());

    // "--" can be used to mark the end of flags. Everything after is considered a positional.
    let args = parse_signature(r#"hello --bar baz -- --foo"#, signature).unwrap();
    assert_eq!(args.len(), 2);
    assert_eq!(args.index(0), "hello");
    assert_eq!(args.index(1), "--foo");
    assert_eq!(args.get_flag("bar"), Some("baz"));
    assert!(!args.has_flag("foo"));
}

#[test]
fn raw_after() {
    let signature = Signature {
        positionals: (1, Some(1)),
        raw_after: Some(0),
        ..Signature::default()
    };

    // All quoting and escaping is treated literally in raw mode.
    let args = parse_signature(r#"'\'"#, signature).unwrap();
    assert_eq!(args.len(), 1);
    assert_eq!(args.index(0), "'\\'");
    let args = parse_signature(r#"\''"#, signature).unwrap();
    assert_eq!(args.len(), 1);
    assert_eq!(args.index(0), "\\''");

    // Leading space is trimmed.
    let args = parse_signature(r#"   %sh{foo}"#, signature).unwrap();
    assert_eq!(args.len(), 1);
    assert_eq!(args.index(0), "%sh{foo}");

    let signature = Signature {
        positionals: (1, Some(2)),
        raw_after: Some(1),
        ..Signature::default()
    };

    let args = parse_signature("foo", signature).unwrap();
    assert_eq!(args.len(), 1);
    assert_eq!(args.index(0), "foo");

    // "--bar" is treated as a positional.
    let args = parse_signature("foo --bar", signature).unwrap();
    assert_eq!(args.len(), 2);
    assert_eq!(args.index(0), "foo");
    assert_eq!(args.index(1), "--bar");

    let args = parse_signature("abc def ghi", signature).unwrap();
    assert_eq!(args.len(), 2);
    assert_eq!(args.index(0), "abc");
    assert_eq!(args.index(1), "def ghi");

    let args = parse_signature("rulers [20, 30]", signature).unwrap();
    assert_eq!(args.len(), 2);
    assert_eq!(args.index(0), "rulers");
    assert_eq!(args.index(1), "[20, 30]");

    let args =
        parse_signature(r#"gutters ["diff"] ["diff", "diagnostics"]"#, signature).unwrap();
    assert_eq!(args.len(), 2);
    assert_eq!(args.index(0), "gutters");
    assert_eq!(args.index(1), r#"["diff"] ["diff", "diagnostics"]"#);
}

use helix_term::args::{has_message_for, CompletionState, ParseArgsError};
use helix_term::command_line::{ExpansionKind, Quote, TokenKind, Tokenizer, TokenizeError};

#[test]
fn wrong_positional_count_messages() {
    let e = ParseArgsError::WrongPositionalCount { min: 0, max: Some(0), actual: 2 };
    assert_eq!(e.to_string(), "expected no arguments, got 2");
    let e = ParseArgsError::WrongPositionalCount { min: 1, max: Some(1), actual: 0 };
    assert_eq!(e.to_string(), "expected exactly 1 argument, got 0");
    let e = ParseArgsError::WrongPositionalCount { min: 2, max: Some(2), actual: 5 };
    assert_eq!(e.to_string(), "expected exactly 2 arguments, got 5");
    let e = ParseArgsError::WrongPositionalCount { min: 2, max: None, actual: 1 };
    assert_eq!(e.to_string(), "expected at least 2 arguments, got 1");
    let e = ParseArgsError::WrongPositionalCount { min: 0, max: Some(1), actual: 12 };
    assert_eq!(e.to_string(), "expected at most 1 argument, got 12");
}

#[test]
fn flag_error_messages() {
    assert_eq!(
        ParseArgsError::DuplicatedFlag { flag: "foo" }.to_string(),
        "flag '--foo' specified more than once"
    );
    assert_eq!(
        ParseArgsError::UnknownFlag { text: "--quiz".to_string() }.to_string(),
        "unknown flag '--quiz'"
    );
    assert_eq!(
        ParseArgsError::FlagMissingArgument { flag: "bar" }.to_string(),
        "flag '--bar' missing an argument"
    );
}

fn flagged() -> Signature {
    Signature {
        positionals: (1, Some(2)),
        flags: test_flags(),
        ..Signature::default()
    }
}

#[test]
fn each_error_variant_is_reported() {
    let sig = flagged();
    assert_eq!(
        parse_signature("a b c", sig).unwrap_err(),
        ParseError::Args(ParseArgsError::WrongPositionalCount { min: 1, max: Some(2), actual: 3 })
    );
    assert_eq!(
        parse_signature("--foo a --foo", sig).unwrap_err(),
        ParseError::Args(ParseArgsError::DuplicatedFlag { flag: "foo" })
    );
    assert_eq!(
        parse_signature("a -x", sig).unwrap_err(),
        ParseError::Args(ParseArgsError::UnknownFlag { text: "-x".to_string() })
    );
    assert_eq!(
        parse_signature("a --bar", sig).unwrap_err(),
        ParseError::Args(ParseArgsError::FlagMissingArgument { flag: "bar" })
    );
    match parse_signature("a 'open", sig).unwrap_err() {
        ParseError::Tokenize(TokenizeError::UnterminatedToken { token }) => {
            assert_eq!(token.content, "open");
            assert_eq!(token.kind, TokenKind::Quoted(Quote::Single));
            assert!(!token.is_terminated);
        }
        other => panic!("unexpected error {:?}", other),
    }
}

#[test]
fn without_validation_everything_parses() {
    let sig = flagged();
    let args = Args::parse("a -x --foo --foo b c 'open", sig, false).unwrap();
    assert_eq!(args.len(), 5);
    assert_eq!(args.index(0), "a");
    assert_eq!(args.index(1), "-x");
    assert_eq!(args.index(2), "b");
    assert_eq!(args.index(3), "c");
    assert_eq!(args.index(4), "open");
    assert!(args.has_flag("foo"));
    let args = Args::parse("--bar", sig, false).unwrap();
    assert!(args.is_empty());
    assert_eq!(args.get_flag("bar"), Some(""));
    assert!(matches!(args.completion_state(), CompletionState::Flag(Some(f)) if f.name == "bar"));
}

#[test]
fn accessors_see_only_positionals() {
    let sig = flagged();
    let args = parse_signature("one --foo two", sig).unwrap();
    assert_eq!(args.first(), Some("one"));
    assert_eq!(args.get(1), Some("two"));
    assert_eq!(args.get(2), None);
    assert_eq!(args.join(", "), "one, two");
    assert_eq!(args.iter().len(), 2);
    assert!(matches!(args.completion_state(), CompletionState::Positional));
    let empty = Args::default();
    assert!(empty.is_empty());
    assert_eq!(empty.first(), None);
    assert_eq!(empty.join("-"), "");
}

#[test]
fn push_leaves_arguments_unchanged_on_error() {
    let mut args = Args::new(flagged(), true);
    assert!(args.push("--foo".to_string()).is_ok());
    assert!(args.push("x".to_string()).is_ok());
    assert!(args.push("--foo".to_string()).is_err());
    assert_eq!(args.len(), 1);
    assert!(args.has_flag("foo"));
    assert!(matches!(args.completion_state(), CompletionState::Positional));
    assert!(args.push("--nope".to_string()).is_err());
    assert_eq!(args.len(), 1);
}

#[test]
fn separator_ends_flags() {
    let sig = flagged();
    let args = parse_signature("-- --foo", sig).unwrap();
    assert_eq!(args.len(), 1);
    assert_eq!(args.index(0), "--foo");
    assert!(!args.has_flag("foo"));
    let args = parse_signature("-- a -b", sig).unwrap();
    assert_eq!(args.len(), 2);
    assert_eq!(args.index(1), "-b");
}

#[test]
fn doubled_quotes_read_as_one_quote() {
    let sig = Signature { positionals: (0, None), ..Signature::default() };
    let args = parse_signature(r#"'it''s' "say ""hi""" `a``b`"#, sig).unwrap();
    assert_eq!(args.len(), 3);
    assert_eq!(args.index(0), "it's");
    assert_eq!(args.index(1), "say \"hi\"");
    assert_eq!(args.index(2), "a`b");
}

#[test]
fn tokenizer_reads_tokens_and_rest() {
    let mut t = Tokenizer::new("  abc  'd e' rest of it ", true);
    let tok = t.next().unwrap().unwrap();
    assert_eq!(tok.kind, TokenKind::Unquoted);
    assert_eq!(tok.content, "abc");
    assert_eq!(tok.content_start, 2);
    let tok = t.next().unwrap().unwrap();
    assert_eq!(tok.kind, TokenKind::Quoted(Quote::Single));
    assert_eq!(tok.content, "d e");
    assert_eq!(tok.content_start, 8);
    let rest = t.rest().unwrap();
    assert_eq!(rest.kind, TokenKind::Expand);
    assert_eq!(rest.content, "rest of it ");
    assert!(t.next().is_none());
    assert!(t.rest().is_none());
}

#[test]
fn unterminated_token_without_validation() {
    let mut t = Tokenizer::new("\"abc", false);
    let tok = t.next().unwrap().unwrap();
    assert_eq!(tok.content, "abc");
    assert!(!tok.is_terminated);
}

#[test]
fn write_accepts_at_most_one_file() {
    let sig = Signature { positionals: (0, Some(1)), ..Signature::default() };
    assert!(parse_signature("a.txt", sig).is_ok());
    assert!(parse_signature("", sig).is_ok());
    assert!(parse_signature("a.txt b.txt", sig).is_err());
}

#[test]
fn toggle_option_raw_after_first_positional() {
    let sig = Signature { positionals: (1, None), raw_after: Some(1), flags: test_flags(), _dummy: () };
    let args = parse_signature("foo", sig).unwrap();
    assert_eq!(args.len(), 1);
    let args = parse_signature("foo --bar", sig).unwrap();
    assert_eq!(args.index(1), "--bar");
    let args = parse_signature("--foo foo", sig).unwrap();
    assert_eq!(args.len(), 1);
    assert!(args.has_flag("foo"));
    let args = parse_signature("--foo foo --baz", sig).unwrap();
    assert_eq!(args.len(), 2);
    assert_eq!(args.index(1), "--baz");
}

#[test]
fn messages_exist_for_reported_errors() {
    assert!(has_message_for(&ParseArgsError::WrongPositionalCount { min: 2, max: None, actual: 1 }));
    assert!(!has_message_for(&ParseArgsError::WrongPositionalCount { min: 1, max: Some(3), actual: 2 }));
    assert!(has_message_for(&ParseArgsError::DuplicatedFlag { flag: "x" }));
}

#[test]
fn expansions_are_read_and_validated() {
    let sig = Signature { positionals: (0, None), ..Signature::default() };
    match parse_signature("%sh{foo", sig).unwrap_err() {
        ParseError::Tokenize(TokenizeError::UnterminatedToken { token }) => {
            assert_eq!(token.kind, TokenKind::Expansion(ExpansionKind::Shell));
            assert_eq!(token.content, "foo");
            assert!(!token.is_terminated);
        }
        other => panic!("unexpected error {:?}", other),
    }
    let args = parse_signature("%sh{echo {}} %{cursor_line} %u<20ac> %|a b|", sig).unwrap();
    assert_eq!(args.len(), 4);
    assert_eq!(args.index(0), "echo {}");
    assert_eq!(args.index(1), "cursor_line");
    assert_eq!(args.index(2), "20ac");
    assert_eq!(args.index(3), "a b");
    assert_eq!(
        parse_signature("%foo{x}", sig).unwrap_err(),
        ParseError::Tokenize(TokenizeError::UnknownExpansion { kind: "foo".to_string() })
    );
    assert_eq!(
        parse_signature("a %sh", sig).unwrap_err(),
        ParseError::Tokenize(TokenizeError::MissingExpansionDelimiter { expansion: "sh".to_string() })
    );
    assert_eq!(
        parse_signature("%sh x", sig).unwrap_err(),
        ParseError::Tokenize(TokenizeError::MissingExpansionDelimiter { expansion: "sh".to_string() })
    );
}

#[test]
fn expansions_without_validation() {
    let mut t = Tokenizer::new("%sh", false);
    let tok = t.next().unwrap().unwrap();
    assert_eq!(tok.kind, TokenKind::ExpansionKind);
    assert_eq!(tok.content, "sh");
    assert_eq!(tok.content_start, 1);
    assert!(t.next().is_none());
    let mut t = Tokenizer::new(" %sh(a (b) c", false);
    let tok = t.next().unwrap().unwrap();
    assert_eq!(tok.kind, TokenKind::Expansion(ExpansionKind::Shell));
    assert_eq!(tok.content, "a (b) c");
    assert_eq!(tok.content_start, 5);
    assert!(!tok.is_terminated);
    let mut t = Tokenizer::new("%foo{x} y", false);
    let tok = t.next().unwrap().unwrap();
    assert_eq!(tok.kind, TokenKind::Unquoted);
    assert_eq!(tok.content, "%foo{x}");
    assert_eq!(t.next().unwrap().unwrap().content, "y");
}

#[test]
fn tokens_can_be_mapped_before_they_are_pushed() {
    let sig = flagged();
    let mut tokenizer = Tokenizer::new("a %sh{echo x}", true);
    let mut args = Args::new(sig, true);
    while let Some(token) = args.read_token(&mut tokenizer).unwrap() {
        let arg = match token.kind {
            TokenKind::Expansion(ExpansionKind::Shell) => format!("<{}>", token.content),
            _ => token.content,
        };
        args.push(arg).unwrap();
    }
    assert!(args.finish().is_ok());
    assert_eq!(args.len(), 2);
    assert_eq!(args.index(1), "<echo x>");
    let mut short = Args::new(sig, true);
    assert_eq!(
        short.finish(),
        Err(ParseArgsError::WrongPositionalCount { min: 1, max: Some(2), actual: 0 })
    );
    assert!(short.push("--bar".to_string()).is_ok());
    assert_eq!(short.finish(), Err(ParseArgsError::FlagMissingArgument { flag: "bar" }));
}
