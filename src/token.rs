use vstd::prelude::*;
use vstd::string::StrSliceExecFns;

verus! {

/// How a group of tokens is enclosed.
#[derive(Clone, Copy, Debug, PartialEq, Eq, Structural)]
pub enum Delimiter {
    Parenthesis,
    Brace,
    Bracket,
    Invisible,
}

/// One token tree of an attribute's argument list.
///
/// `Punct` carries its character and whether it is joined to the next one
/// (the first `:` of `::` is joined).
pub enum Token {
    Ident(String),
    Punct(char, bool),
    Literal(String),
    Group(Delimiter, Vec<Token>),
}

pub open spec fn is_ident(t: Token, word: Seq<char>) -> bool {
    match t {
        Token::Ident(s) => s@ == word,
        _ => false,
    }
}

pub open spec fn is_any_ident(t: Token) -> bool {
    t is Ident
}

pub open spec fn is_punct(t: Token, c: char) -> bool {
    match t {
        Token::Punct(p, _) => p == c,
        _ => false,
    }
}

pub open spec fn is_joint_punct(t: Token, c: char) -> bool {
    match t {
        Token::Punct(p, joint) => p == c && joint,
        _ => false,
    }
}

/// A string literal, plain (`"C"`) or raw (`r"C"`, `r#"C"#`).
pub open spec fn is_str_literal(t: Token) -> bool {
    match t {
        Token::Literal(s) => s@.len() >= 2 && (s@[0] == '"' || (s@[0] == 'r' && (s@[1] == '"'
            || s@[1] == '#'))),
        _ => false,
    }
}

pub fn ident_is(t: &Token, word: &str) -> (r: bool)
    ensures
        r == is_ident(*t, word@),
{
    match t {
        Token::Ident(s) => {
            let w = word.to_owned();
            *s == w
        },
        _ => false,
    }
}

pub fn punct_is(t: &Token, c: char) -> (r: bool)
    ensures
        r == is_punct(*t, c),
{
    match t {
        Token::Punct(p, _) => *p == c,
        _ => false,
    }
}

pub fn joint_punct_is(t: &Token, c: char) -> (r: bool)
    ensures
        r == is_joint_punct(*t, c),
{
    match t {
        Token::Punct(p, joint) => *p == c && *joint,
        _ => false,
    }
}

pub fn str_literal_is(t: &Token) -> (r: bool)
    ensures
        r == is_str_literal(*t),
{
    match t {
        Token::Literal(s) => {
            let text = s.as_str();
            let n = text.unicode_len();
            if n < 2 {
                false
            } else {
                let c0 = text.get_char(0);
                let c1 = text.get_char(1);
                c0 == '"' || (c0 == 'r' && (c1 == '"' || c1 == '#'))
            }
        },
        _ => false,
    }
}

} // verus!
