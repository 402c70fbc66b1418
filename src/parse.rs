use vstd::prelude::*;

use crate::model::{
    empty_set, kind_of, set_has, set_insert, ErrorKind, Qualifier, QualifierError,
    QualifierSet, QualifierSetView, QualifierSpec, QualifierSpecView, QualifierView, Visibility,
    VisibilityView,
};
use crate::token::{
    ident_is, is_any_ident, is_ident, is_joint_punct, is_punct, is_str_literal, joint_punct_is,
    punct_is, str_literal_is, Delimiter, Token,
};

verus! {

pub open spec fn error_at(kind: ErrorKind, in_brackets: bool, at: int) -> QualifierError {
    QualifierError { kind, in_brackets, at: at as usize }
}

pub open spec fn ident_text(t: Token) -> Seq<char> {
    match t {
        Token::Ident(s) => s@,
        _ => Seq::empty(),
    }
}

pub open spec fn literal_text(t: Token) -> Seq<char> {
    match t {
        Token::Literal(s) => s@,
        _ => Seq::empty(),
    }
}

/// The tokens of `t` when it is a parenthesized group.
pub open spec fn paren_contents(t: Token) -> Option<Seq<Token>> {
    match t {
        Token::Group(Delimiter::Parenthesis, inner) => Some(inner@),
        _ => None,
    }
}

/// The tokens of `t` when it is a bracketed group.
pub open spec fn bracket_contents(t: Token) -> Option<Seq<Token>> {
    match t {
        Token::Group(Delimiter::Bracket, inner) => Some(inner@),
        _ => None,
    }
}

/// Offset of the segment phase of a module path: 1 when it opens with `::`.
pub open spec fn path_offset(p: Seq<Token>) -> int {
    if p.len() > 0 && is_punct(p[0], ':') {
        1
    } else {
        0
    }
}

/// Position `k` of a module path holds a segment (phase 0), the joined first
/// `:` of a `::` (phase 1) or its second `:` (phase 2).
pub open spec fn path_token_ok(t: Token, phase: int) -> bool {
    if phase == 0 {
        is_any_ident(t)
    } else if phase == 1 {
        is_joint_punct(t, ':')
    } else {
        is_punct(t, ':')
    }
}

/// `p` is a module path: segments separated by `::`, with an optional leading
/// `::`, ending in a segment.
pub open spec fn is_mod_path(p: Seq<Token>) -> bool {
    let off = path_offset(p);
    &&& p.len() > 0
    &&& (p.len() + off) % 3 == 1
    &&& forall|k: int| 0 <= k < p.len() ==> path_token_ok(#[trigger] p[k], (k + off) % 3)
}

/// The number of segments among the first `n` tokens of a path with offset `off`.
pub open spec fn segment_count(n: int, off: int) -> int {
    (n + 2 - 2 * off) / 3
}

pub open spec fn path_segments(p: Seq<Token>) -> Seq<Seq<char>> {
    let off = path_offset(p);
    Seq::new(
        segment_count(p.len() as int, off) as nat,
        |k: int| ident_text(p[3 * k + 2 * off]),
    )
}

/// The visibility that starts with the `pub` at `i`, and the index after it.
pub open spec fn visibility_at(toks: Seq<Token>, i: int, in_brackets: bool) -> Result<
    (QualifierView, int),
    QualifierError,
> {
    let public = Ok((QualifierView::Visibility(VisibilityView::Public), i + 1));
    if i + 1 < toks.len() {
        match paren_contents(toks[i + 1]) {
            Some(inner) => {
                if inner.len() == 1 && (is_ident(inner[0], "crate"@) || is_ident(
                    inner[0],
                    "self"@,
                ) || is_ident(inner[0], "super"@)) {
                    Ok(
                        (
                            QualifierView::Visibility(
                                VisibilityView::Restricted(ident_text(inner[0])),
                            ),
                            i + 2,
                        ),
                    )
                } else if inner.len() >= 1 && is_ident(inner[0], "in"@) {
                    let p = inner.subrange(1, inner.len() as int);
                    if is_mod_path(p) {
                        Ok(
                            (
                                QualifierView::Visibility(
                                    VisibilityView::InPath(path_offset(p) == 1, path_segments(p)),
                                ),
                                i + 2,
                            ),
                        )
                    } else {
                        Err(error_at(ErrorKind::MalformedQualifierPayload, in_brackets, i + 1))
                    }
                } else {
                    public
                }
            },
            None => public,
        }
    } else {
        public
    }
}

/// The qualifier that starts at token `i`, and the index after it.
pub open spec fn qualifier_at(toks: Seq<Token>, i: int, in_brackets: bool) -> Result<
    (QualifierView, int),
    QualifierError,
> {
    if i < 0 || i >= toks.len() {
        Err(error_at(ErrorKind::UnrecognizedQualifier, in_brackets, i))
    } else if is_ident(toks[i], "pub"@) {
        visibility_at(toks, i, in_brackets)
    } else if is_ident(toks[i], "const"@) {
        Ok((QualifierView::Constness, i + 1))
    } else if is_ident(toks[i], "async"@) {
        Ok((QualifierView::Asyncness, i + 1))
    } else if is_ident(toks[i], "unsafe"@) {
        Ok((QualifierView::Unsafety, i + 1))
    } else if is_ident(toks[i], "extern"@) {
        if i + 1 < toks.len() && is_str_literal(toks[i + 1]) {
            Ok((QualifierView::Abi(literal_text(toks[i + 1])), i + 2))
        } else {
            Err(error_at(ErrorKind::MalformedQualifierPayload, in_brackets, i + 1))
        }
    } else {
        Err(error_at(ErrorKind::UnrecognizedQualifier, in_brackets, i))
    }
}

/// The rest of a bracketed list from token `i` on, `acc` holding what came
/// before: each entry fills a free slot, entries are separated by commas, and a
/// trailing comma is allowed.
pub open spec fn list_from(toks: Seq<Token>, i: int, acc: QualifierSetView) -> Result<
    QualifierSetView,
    QualifierError,
>
    decreases toks.len() - i,
{
    if i < 0 || i >= toks.len() {
        Ok(acc)
    } else {
        match qualifier_at(toks, i, true) {
            Err(e) => Err(e),
            Ok((q, j)) => {
                if set_has(acc, kind_of(q)) {
                    Err(error_at(ErrorKind::DuplicateQualifier(kind_of(q)), true, i))
                } else if j >= toks.len() {
                    Ok(set_insert(acc, q))
                } else if is_punct(toks[j], ',') {
                    list_from(toks, j + 1, set_insert(acc, q))
                } else {
                    Err(error_at(ErrorKind::MalformedBracketList, true, j))
                }
            },
        }
    }
}

/// The contents of a bracketed list as a set.
pub open spec fn list_spec(toks: Seq<Token>) -> Result<QualifierSetView, QualifierError> {
    list_from(toks, 0, empty_set())
}

/// An attribute's whole argument list: a bracketed list alone, or one
/// qualifier alone.
pub open spec fn meta_spec(toks: Seq<Token>) -> Result<QualifierSpecView, QualifierError> {
    let bracket = if toks.len() > 0 {
        bracket_contents(toks[0])
    } else {
        None
    };
    match bracket {
        Some(inner) => match list_spec(inner) {
            Err(e) => Err(e),
            Ok(s) => if toks.len() > 1 {
                Err(error_at(ErrorKind::MalformedBracketList, false, 1))
            } else {
                Ok(QualifierSpecView::Multiple(s))
            },
        },
        None => match qualifier_at(toks, 0, false) {
            Err(e) => Err(e),
            Ok((q, j)) => if j < toks.len() {
                Err(error_at(ErrorKind::MalformedBracketList, false, j))
            } else {
                Ok(QualifierSpecView::Single(q))
            },
        },
    }
}

pub open spec fn qualifier_result_view(r: Result<(Qualifier, usize), QualifierError>) -> Result<
    (QualifierView, int),
    QualifierError,
> {
    match r {
        Ok((q, j)) => Ok((q@, j as int)),
        Err(e) => Err(e),
    }
}

pub open spec fn set_result_view(r: Result<QualifierSet, QualifierError>) -> Result<
    QualifierSetView,
    QualifierError,
> {
    match r {
        Ok(s) => Ok(s@),
        Err(e) => Err(e),
    }
}

pub open spec fn spec_result_view(r: Result<QualifierSpec, QualifierError>) -> Result<
    QualifierSpecView,
    QualifierError,
> {
    match r {
        Ok(s) => Ok(s@),
        Err(e) => Err(e),
    }
}

/// Reads the module path that follows `in` at the head of `inner`.
fn parse_in_path(inner: &Vec<Token>) -> (r: Option<Visibility>)
    requires
        inner@.len() >= 1,
    ensures
        ({
            let p = inner@.subrange(1, inner@.len() as int);
            match r {
                Some(v) => is_mod_path(p) && v@ == VisibilityView::InPath(
                    path_offset(p) == 1,
                    path_segments(p),
                ),
                None => !is_mod_path(p),
            }
        }),
{
    let n = inner.len();
    let ghost p = inner@.subrange(1, n as int);
    if n < 2 {
        return None;
    }
    let lead = punct_is(&inner[1], ':');
    let off: usize = if lead {
        1
    } else {
        0
    };
    if (n - 1 + off) % 3 != 1 {
        return None;
    }
    let mut segs: Vec<String> = Vec::new();
    let mut k: usize = 0;
    while k < n - 1
        invariant
            n == inner@.len(),
            2 <= n,
            p == inner@.subrange(1, n as int),
            off == path_offset(p),
            lead == (off == 1),
            (p.len() + off) % 3 == 1,
            k <= n - 1,
            forall|m: int| 0 <= m < k ==> path_token_ok(#[trigger] p[m], (m + off) % 3),
            segs@.len() == segment_count(k as int, off as int),
            forall|m: int|
                0 <= m < segs@.len() ==> #[trigger] segs@[m]@ == ident_text(p[3 * m + 2 * off]),
        decreases n - 1 - k,
    {
        let t = &inner[k + 1];
        assert(p[k as int] == *t);
        let phase = (k + off) % 3;
        if phase == 0 {
            match t {
                Token::Ident(s) => {
                    assert(segment_count(k as int, off as int) * 3 + 2 * off == k);
                    segs.push(s.clone());
                },
                _ => {
                    return None;
                },
            }
        } else if phase == 1 {
            if !joint_punct_is(t, ':') {
                return None;
            }
        } else {
            if !punct_is(t, ':') {
                return None;
            }
        }
        k = k + 1;
    }
    assert(segs@.map_values(|s: String| s@) =~= path_segments(p));
    Some(Visibility::InPath(lead, segs))
}

/// Reads the visibility that starts with the `pub` at `i`.
fn parse_visibility(toks: &Vec<Token>, i: usize, in_brackets: bool) -> (r: Result<
    (Qualifier, usize),
    QualifierError,
>)
    requires
        i < toks@.len(),
        is_ident(toks@[i as int], "pub"@),
    ensures
        qualifier_result_view(r) == visibility_at(toks@, i as int, in_brackets),
{
    if i < toks.len() - 1 {
        match &toks[i + 1] {
            Token::Group(Delimiter::Parenthesis, inner) => {
                if inner.len() == 1 && (ident_is(&inner[0], "crate") || ident_is(&inner[0], "self")
                    || ident_is(&inner[0], "super")) {
                    if let Token::Ident(w) = &inner[0] {
                        return Ok((Qualifier::Visibility(Visibility::Restricted(w.clone())), i + 2));
                    }
                } else if inner.len() >= 1 && ident_is(&inner[0], "in") {
                    return match parse_in_path(inner) {
                        Some(v) => Ok((Qualifier::Visibility(v), i + 2)),
                        None => Err(
                            QualifierError {
                                kind: ErrorKind::MalformedQualifierPayload,
                                in_brackets,
                                at: i + 1,
                            },
                        ),
                    };
                }
            },
            _ => {},
        }
    }
    Ok((Qualifier::Visibility(Visibility::Public), i + 1))
}

/// Reads one qualifier starting at token `i`, and returns it with the index
/// of the token after it.
pub fn parse_qualifier(toks: &Vec<Token>, i: usize, in_brackets: bool) -> (r: Result<
    (Qualifier, usize),
    QualifierError,
>)
    ensures
        qualifier_result_view(r) == qualifier_at(toks@, i as int, in_brackets),
        match r {
            Ok((_, j)) => i < j <= toks@.len(),
            Err(_) => true,
        },
{
    if i >= toks.len() {
        return Err(QualifierError { kind: ErrorKind::UnrecognizedQualifier, in_brackets, at: i });
    }
    let t = &toks[i];
    if ident_is(t, "pub") {
        parse_visibility(toks, i, in_brackets)
    } else if ident_is(t, "const") {
        Ok((Qualifier::Constness, i + 1))
    } else if ident_is(t, "async") {
        Ok((Qualifier::Asyncness, i + 1))
    } else if ident_is(t, "unsafe") {
        Ok((Qualifier::Unsafety, i + 1))
    } else if ident_is(t, "extern") {
        if i + 1 < toks.len() && str_literal_is(&toks[i + 1]) {
            if let Token::Literal(s) = &toks[i + 1] {
                return Ok((Qualifier::Abi(s.clone()), i + 2));
            }
        }
        Err(QualifierError { kind: ErrorKind::MalformedQualifierPayload, in_brackets, at: i + 1 })
    } else {
        Err(QualifierError { kind: ErrorKind::UnrecognizedQualifier, in_brackets, at: i })
    }
}

/// Reads the contents of a bracketed list into a set, refusing a second
/// qualifier of a kind at the place where it stands.
pub fn parse_list(toks: &Vec<Token>) -> (r: Result<QualifierSet, QualifierError>)
    ensures
        set_result_view(r) == list_spec(toks@),
{
    let mut set = QualifierSet::empty();
    let mut i: usize = 0;
    while i < toks.len()
        invariant
            i <= toks@.len(),
            list_spec(toks@) == list_from(toks@, i as int, set@),
        decreases toks@.len() - i,
    {
        let (q, j) = match parse_qualifier(toks, i, true) {
            Ok(p) => p,
            Err(e) => {
                return Err(e);
            },
        };
        let k = q.kind();
        if set.has(k) {
            return Err(QualifierError { kind: ErrorKind::DuplicateQualifier(k), in_brackets: true, at: i });
        }
        set.insert(q);
        if j >= toks.len() {
            return Ok(set);
        }
        if !punct_is(&toks[j], ',') {
            return Err(QualifierError { kind: ErrorKind::MalformedBracketList, in_brackets: true, at: j });
        }
        i = j + 1;
    }
    Ok(set)
}

/// Reads an attribute's argument list: a bracketed list, or one qualifier.
pub fn parse_meta(toks: &Vec<Token>) -> (r: Result<QualifierSpec, QualifierError>)
    ensures
        spec_result_view(r) == meta_spec(toks@),
{
    if toks.len() > 0 {
        if let Token::Group(Delimiter::Bracket, inner) = &toks[0] {
            let set = parse_list(inner)?;
            if toks.len() > 1 {
                return Err(QualifierError { kind: ErrorKind::MalformedBracketList, in_brackets: false, at: 1 });
            }
            return Ok(QualifierSpec::Multiple(set));
        }
    }
    let (q, j) = parse_qualifier(toks, 0, false)?;
    if j < toks.len() {
        return Err(QualifierError { kind: ErrorKind::MalformedBracketList, in_brackets: false, at: j });
    }
    Ok(QualifierSpec::Single(q))
}

} // verus!
