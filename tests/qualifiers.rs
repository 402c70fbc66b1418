use fn_qualifiers::fn_qualifiers;
use fn_qualifiers::model::{
    ErrorKind, Qualifier, QualifierError, QualifierKind, QualifierSet, QualifierSpec, Visibility,
};
use fn_qualifiers::parse::{parse_list, parse_meta, parse_qualifier};
use fn_qualifiers::patch::{apply, CallableDecl, Signature};
use fn_qualifiers::token::{Delimiter, Token};

fn ident(s: &str) -> Token {
    Token::Ident(s.to_string())
}

fn comma() -> Token {
    Token::Punct(',', false)
}

fn lit(s: &str) -> Token {
    Token::Literal(s.to_string())
}

fn path_sep() -> Vec<Token> {
    vec![Token::Punct(':', true), Token::Punct(':', false)]
}

fn bracket(inner: Vec<Token>) -> Token {
    Token::Group(Delimiter::Bracket, inner)
}

fn paren(inner: Vec<Token>) -> Token {
    Token::Group(Delimiter::Parenthesis, inner)
}

fn busy_signature() -> Signature {
    Signature {
        vis: Visibility::Restricted("crate".to_string()),
        constness: true,
        asyncness: true,
        unsafety: true,
        abi: Some("\"C\"".to_string()),
    }
}

fn bare_signature() -> Signature {
    Signature {
        vis: Visibility::Inherited,
        constness: false,
        asyncness: false,
        unsafety: false,
        abi: None,
    }
}

fn decl(sig: Signature) -> CallableDecl<String> {
    CallableDecl { sig, rest: "fn f(x: u8) -> u8 { x }".to_string() }
}

fn err(kind: ErrorKind, in_brackets: bool, at: usize) -> QualifierError {
    QualifierError { kind, in_brackets, at }
}

#[test]
fn single_visibility_sets_only_visibility() {
    let d = fn_qualifiers(&vec![ident("pub")], decl(busy_signature())).unwrap();
    let mut want = busy_signature();
    want.vis = Visibility::Public;
    assert_eq!(d.sig, want);
    assert_eq!(d.rest, "fn f(x: u8) -> u8 { x }");
}

#[test]
fn single_const_sets_only_constness() {
    let d = fn_qualifiers(&vec![ident("const")], decl(bare_signature())).unwrap();
    let mut want = bare_signature();
    want.constness = true;
    assert_eq!(d.sig, want);
}

#[test]
fn single_async_sets_only_asyncness() {
    let d = fn_qualifiers(&vec![ident("async")], decl(bare_signature())).unwrap();
    let mut want = bare_signature();
    want.asyncness = true;
    assert_eq!(d.sig, want);
}

#[test]
fn single_unsafe_sets_only_unsafety() {
    let d = fn_qualifiers(&vec![ident("unsafe")], decl(bare_signature())).unwrap();
    let mut want = bare_signature();
    want.unsafety = true;
    assert_eq!(d.sig, want);
}

#[test]
fn single_extern_sets_only_abi() {
    let d = fn_qualifiers(&vec![ident("extern"), lit("\"system\"")], decl(busy_signature()))
        .unwrap();
    let mut want = busy_signature();
    want.abi = Some("\"system\"".to_string());
    assert_eq!(d.sig, want);
}

#[test]
fn bracketed_pub_clears_the_other_fields() {
    let mut start = bare_signature();
    start.constness = true;
    start.asyncness = true;
    let d = fn_qualifiers(&vec![bracket(vec![ident("pub")])], decl(start)).unwrap();
    let mut want = bare_signature();
    want.vis = Visibility::Public;
    assert_eq!(d.sig, want);
}

#[test]
fn duplicate_pub_is_anchored_at_the_second() {
    let meta = vec![bracket(vec![ident("pub"), comma(), ident("pub")])];
    let r = parse_meta(&meta);
    assert_eq!(
        r.err(),
        Some(err(ErrorKind::DuplicateQualifier(QualifierKind::Visibility), true, 2))
    );
}

#[test]
fn duplicate_of_each_kind_is_refused() {
    let r = parse_list(&vec![ident("async"), comma(), ident("const"), comma(), ident("async")]);
    assert_eq!(r.err(), Some(err(ErrorKind::DuplicateQualifier(QualifierKind::Asyncness), true, 4)));
    let r = parse_list(&vec![ident("extern"), lit("\"C\""), comma(), ident("extern"), lit("\"C\"")]);
    assert_eq!(r.err(), Some(err(ErrorKind::DuplicateQualifier(QualifierKind::Abi), true, 3)));
}

#[test]
fn empty_list_clears_everything_and_keeps_the_rest() {
    let d = fn_qualifiers(&vec![bracket(vec![])], decl(busy_signature())).unwrap();
    assert_eq!(d.sig, bare_signature());
    assert_eq!(d.rest, "fn f(x: u8) -> u8 { x }");
    assert_eq!(parse_list(&vec![]), Ok(QualifierSet::empty()));
}

#[test]
fn unknown_keyword_in_list_fails_at_that_token() {
    let meta = vec![bracket(vec![ident("async"), comma(), ident("static"), comma(), ident("pub")])];
    assert_eq!(parse_meta(&meta).err(), Some(err(ErrorKind::UnrecognizedQualifier, true, 2)));
}

#[test]
fn unknown_single_keyword_fails() {
    assert_eq!(
        parse_meta(&vec![ident("static")]).err(),
        Some(err(ErrorKind::UnrecognizedQualifier, false, 0))
    );
    assert_eq!(parse_meta(&vec![]).err(), Some(err(ErrorKind::UnrecognizedQualifier, false, 0)));
}

#[test]
fn order_within_brackets_does_not_matter() {
    let a = parse_list(&vec![ident("async"), comma(), ident("pub")]).unwrap();
    let b = parse_list(&vec![ident("pub"), comma(), ident("async")]).unwrap();
    assert_eq!(a, b);
    let mut want = QualifierSet::empty();
    want.visibility = Some(Visibility::Public);
    want.asyncness = true;
    assert_eq!(a, want);
}

#[test]
fn trailing_comma_is_accepted() {
    let r = parse_list(&vec![ident("unsafe"), comma()]).unwrap();
    let mut want = QualifierSet::empty();
    want.unsafety = true;
    assert_eq!(r, want);
}

#[test]
fn missing_comma_is_malformed_list() {
    let r = parse_list(&vec![ident("const"), ident("async")]);
    assert_eq!(r.err(), Some(err(ErrorKind::MalformedBracketList, true, 1)));
}

#[test]
fn tokens_after_the_list_are_malformed() {
    let meta = vec![bracket(vec![ident("pub")]), ident("async")];
    assert_eq!(parse_meta(&meta).err(), Some(err(ErrorKind::MalformedBracketList, false, 1)));
}

#[test]
fn tokens_after_a_single_qualifier_are_malformed() {
    let meta = vec![ident("const"), ident("async")];
    assert_eq!(parse_meta(&meta).err(), Some(err(ErrorKind::MalformedBracketList, false, 1)));
}

#[test]
fn restricted_visibilities_are_read() {
    for w in ["crate", "self", "super"] {
        let r = parse_qualifier(&vec![ident("pub"), paren(vec![ident(w)])], 0, false);
        assert_eq!(r, Ok((Qualifier::Visibility(Visibility::Restricted(w.to_string())), 2)));
    }
}

#[test]
fn visibility_in_path_is_read() {
    let mut path = vec![ident("in"), ident("a")];
    path.extend(path_sep());
    path.push(ident("b"));
    let r = parse_qualifier(&vec![ident("pub"), paren(path)], 0, false);
    let want = Visibility::InPath(false, vec!["a".to_string(), "b".to_string()]);
    assert_eq!(r, Ok((Qualifier::Visibility(want), 2)));

    let mut path = vec![ident("in")];
    path.extend(path_sep());
    path.push(ident("a"));
    let r = parse_qualifier(&vec![ident("pub"), paren(path)], 0, false);
    let want = Visibility::InPath(true, vec!["a".to_string()]);
    assert_eq!(r, Ok((Qualifier::Visibility(want), 2)));
}

#[test]
fn visibility_in_bad_path_is_malformed_payload() {
    let path = vec![ident("in"), ident("a"), Token::Punct(':', false), ident("b")];
    let r = parse_qualifier(&vec![ident("pub"), paren(path)], 0, true);
    assert_eq!(r, Err(err(ErrorKind::MalformedQualifierPayload, true, 1)));
    let r = parse_qualifier(&vec![ident("pub"), paren(vec![ident("in")])], 0, false);
    assert_eq!(r, Err(err(ErrorKind::MalformedQualifierPayload, false, 1)));
}

#[test]
fn pub_before_other_parens_is_plain_public() {
    let r = parse_qualifier(&vec![ident("pub"), paren(vec![ident("u8")])], 0, false);
    assert_eq!(r, Ok((Qualifier::Visibility(Visibility::Public), 1)));
    let r = parse_list(&vec![ident("pub"), paren(vec![ident("u8")])]);
    assert_eq!(r.err(), Some(err(ErrorKind::MalformedBracketList, true, 1)));
}

#[test]
fn extern_takes_plain_and_raw_strings() {
    let r = parse_qualifier(&vec![ident("extern"), lit("r\"C\"")], 0, false);
    assert_eq!(r, Ok((Qualifier::Abi("r\"C\"".to_string()), 2)));
    let r = parse_qualifier(&vec![ident("extern"), lit("\"C\"")], 0, false);
    assert_eq!(r, Ok((Qualifier::Abi("\"C\"".to_string()), 2)));
}

#[test]
fn extern_without_string_is_malformed_payload() {
    let r = parse_meta(&vec![ident("extern")]);
    assert_eq!(r.err(), Some(err(ErrorKind::MalformedQualifierPayload, false, 1)));
    let r = parse_meta(&vec![ident("extern"), lit("b\"C\"")]);
    assert_eq!(r.err(), Some(err(ErrorKind::MalformedQualifierPayload, false, 1)));
    let r = parse_list(&vec![ident("extern"), comma()]);
    assert_eq!(r.err(), Some(err(ErrorKind::MalformedQualifierPayload, true, 1)));
}

#[test]
fn raw_identifier_is_not_a_keyword() {
    let r = parse_meta(&vec![ident("r#pub")]);
    assert_eq!(r.err(), Some(err(ErrorKind::UnrecognizedQualifier, false, 0)));
}

#[test]
fn full_list_fills_every_slot() {
    let meta = vec![bracket(vec![
        ident("pub"),
        comma(),
        ident("const"),
        comma(),
        ident("async"),
        comma(),
        ident("unsafe"),
        comma(),
        ident("extern"),
        lit("\"C\""),
    ])];
    let q = parse_meta(&meta).unwrap();
    let want = QualifierSet {
        visibility: Some(Visibility::Public),
        constness: true,
        asyncness: true,
        unsafety: true,
        abi: Some("\"C\"".to_string()),
    };
    assert_eq!(q, QualifierSpec::Multiple(want));
}

#[test]
fn apply_keeps_the_rest_of_the_declaration() {
    let mut d = decl(bare_signature());
    apply(QualifierSpec::Single(Qualifier::Unsafety), &mut d);
    assert!(d.sig.unsafety);
    assert_eq!(d.rest, "fn f(x: u8) -> u8 { x }");
}

#[test]
fn parse_failure_applies_nothing() {
    let meta = vec![bracket(vec![ident("pub"), comma(), ident("pub")])];
    assert!(fn_qualifiers(&meta, decl(busy_signature())).is_err());
}
