use vstd::prelude::*;

use crate::model::{
    empty_set, kind_of, set_has, set_insert, ErrorKind, QualifierError, QualifierSetView,
    QualifierSpecView, QualifierView, VisibilityView,
};
use crate::parse::{bracket_contents, error_at, list_from, list_spec, meta_spec, qualifier_at};
use crate::patch::{apply_spec, SignatureView};
use crate::token::{is_ident, is_punct, Token};

verus! {

/// A single qualifier sets the field of its kind to its value and leaves the
/// other four fields as they were.
pub proof fn lemma_single_sets_only_its_field(q: QualifierView, s: SignatureView)
    ensures
        ({
            let t = apply_spec(QualifierSpecView::Single(q), s);
            match q {
                QualifierView::Visibility(v) => t.vis == v && t.constness == s.constness
                    && t.asyncness == s.asyncness && t.unsafety == s.unsafety && t.abi == s.abi,
                QualifierView::Constness => t.constness && t.vis == s.vis && t.asyncness
                    == s.asyncness && t.unsafety == s.unsafety && t.abi == s.abi,
                QualifierView::Asyncness => t.asyncness && t.vis == s.vis && t.constness
                    == s.constness && t.unsafety == s.unsafety && t.abi == s.abi,
                QualifierView::Unsafety => t.unsafety && t.vis == s.vis && t.constness
                    == s.constness && t.asyncness == s.asyncness && t.abi == s.abi,
                QualifierView::Abi(a) => t.abi == Some(a) && t.vis == s.vis && t.constness
                    == s.constness && t.asyncness == s.asyncness && t.unsafety == s.unsafety,
            }
        }),
{
}

/// `[pub]` applied to any declaration makes it public and clears the other
/// four fields, whatever they held.
pub proof fn lemma_bracketed_pub_replaces_all(meta: Seq<Token>, s: SignatureView)
    requires
        meta.len() == 1,
        bracket_contents(meta[0]) is Some,
        bracket_contents(meta[0])->Some_0.len() == 1,
        is_ident(bracket_contents(meta[0])->Some_0[0], "pub"@),
    ensures
        meta_spec(meta) is Ok,
        apply_spec(meta_spec(meta)->Ok_0, s) == (SignatureView {
            vis: VisibilityView::Public,
            constness: false,
            asyncness: false,
            unsafety: false,
            abi: None,
        }),
{
    let inner = bracket_contents(meta[0])->Some_0;
    assert(list_from(inner, 1, set_insert(empty_set(), QualifierView::Visibility(VisibilityView::Public)))
        is Ok);
}

/// In a bracketed list, a qualifier whose kind came earlier fails with a
/// duplicate error anchored at the second occurrence.
pub proof fn lemma_duplicate_at_second(toks: Seq<Token>, first: QualifierView, j: int)
    requires
        qualifier_at(toks, 0, true) == Ok::<(QualifierView, int), QualifierError>((first, j)),
        j < toks.len(),
        is_punct(toks[j], ','),
        qualifier_at(toks, j + 1, true) is Ok,
        kind_of(qualifier_at(toks, j + 1, true)->Ok_0.0) == kind_of(first),
    ensures
        list_spec(toks) == Err::<QualifierSetView, QualifierError>(
            error_at(ErrorKind::DuplicateQualifier(kind_of(first)), true, j + 1),
        ),
{
    let acc = set_insert(empty_set(), first);
    assert(list_spec(toks) == list_from(toks, j + 1, acc));
    assert(set_has(acc, kind_of(first)));
}

/// `[]` parses to the set with every slot free, and applying it clears all
/// five fields of any declaration.
pub proof fn lemma_empty_list_clears_all(meta: Seq<Token>, s: SignatureView)
    requires
        meta.len() == 1,
        bracket_contents(meta[0]) == Some(Seq::<Token>::empty()),
    ensures
        meta_spec(meta) == Ok::<QualifierSpecView, QualifierError>(QualifierSpecView::Multiple(empty_set())),
        apply_spec(QualifierSpecView::Multiple(empty_set()), s) == (SignatureView {
            vis: VisibilityView::Inherited,
            constness: false,
            asyncness: false,
            unsafety: false,
            abi: None,
        }),
{
}

/// A token of a bracketed list that names none of the five qualifiers, where
/// an entry is due, fails the list right there, whatever follows it.
pub proof fn lemma_unknown_keyword_fails_there(toks: Seq<Token>, i: int, acc: QualifierSetView)
    requires
        0 <= i < toks.len(),
        !is_ident(toks[i], "pub"@),
        !is_ident(toks[i], "const"@),
        !is_ident(toks[i], "async"@),
        !is_ident(toks[i], "unsafe"@),
        !is_ident(toks[i], "extern"@),
    ensures
        list_from(toks, i, acc) == Err::<QualifierSetView, QualifierError>(
            error_at(ErrorKind::UnrecognizedQualifier, true, i),
        ),
{
}

/// A qualifier that spans all of `a` reads the same when a comma and more
/// tokens follow it.
proof fn lemma_qualifier_before_comma(a: Seq<Token>, rest: Seq<Token>)
    requires
        qualifier_at(a, 0, true) is Ok,
        qualifier_at(a, 0, true)->Ok_0.1 == a.len(),
        rest.len() > 0,
        is_punct(rest[0], ','),
    ensures
        qualifier_at(a + rest, 0, true) == qualifier_at(a, 0, true),
{
    let s = a + rest;
    assert(s[0] == a[0]);
    if a.len() >= 2 {
        assert(s[1] == a[1]);
    } else {
        assert(s[1] == rest[0]);
    }
}

/// A qualifier that spans all of `b` reads the same after any prefix `p`.
proof fn lemma_qualifier_after_prefix(p: Seq<Token>, b: Seq<Token>)
    requires
        qualifier_at(b, 0, true) is Ok,
        qualifier_at(b, 0, true)->Ok_0.1 == b.len(),
    ensures
        qualifier_at(p + b, p.len() as int, true) == Ok::<(QualifierView, int), QualifierError>(
            (qualifier_at(b, 0, true)->Ok_0.0, p.len() + b.len() as int),
        ),
{
    let s = p + b;
    let n = p.len() as int;
    assert(s[n] == b[0]);
    if b.len() >= 2 {
        assert(s[n + 1] == b[1]);
    }
}

/// Two qualifiers of different kinds, each spanning its tokens, make the
/// list `a, b`; the set it gives is `{a, b}`.
proof fn lemma_pair_list(a: Seq<Token>, c: Token, b: Seq<Token>)
    requires
        qualifier_at(a, 0, true) is Ok,
        qualifier_at(a, 0, true)->Ok_0.1 == a.len(),
        qualifier_at(b, 0, true) is Ok,
        qualifier_at(b, 0, true)->Ok_0.1 == b.len(),
        kind_of(qualifier_at(a, 0, true)->Ok_0.0) != kind_of(qualifier_at(b, 0, true)->Ok_0.0),
        is_punct(c, ','),
    ensures
        list_spec(a + seq![c] + b) == Ok::<QualifierSetView, QualifierError>(
            set_insert(
                set_insert(empty_set(), qualifier_at(a, 0, true)->Ok_0.0),
                qualifier_at(b, 0, true)->Ok_0.0,
            ),
        ),
{
    let qa = qualifier_at(a, 0, true)->Ok_0.0;
    let qb = qualifier_at(b, 0, true)->Ok_0.0;
    let p = a + seq![c];
    let s = p + b;
    assert(s =~= a + (seq![c] + b));
    lemma_qualifier_before_comma(a, seq![c] + b);
    lemma_qualifier_after_prefix(p, b);
    assert(s[a.len() as int] == c);
    let acc = set_insert(empty_set(), qa);
    assert(!set_has(acc, kind_of(qb)));
    assert(list_from(s, p.len() as int, acc) == Ok::<QualifierSetView, QualifierError>(
        set_insert(acc, qb),
    ));
    assert(list_spec(s) == list_from(s, p.len() as int, acc));
}

/// The order of two entries of different kinds in a bracketed list does not
/// change the set that it gives.
pub proof fn lemma_order_independent(a: Seq<Token>, c: Token, b: Seq<Token>)
    requires
        qualifier_at(a, 0, true) is Ok,
        qualifier_at(a, 0, true)->Ok_0.1 == a.len(),
        qualifier_at(b, 0, true) is Ok,
        qualifier_at(b, 0, true)->Ok_0.1 == b.len(),
        kind_of(qualifier_at(a, 0, true)->Ok_0.0) != kind_of(qualifier_at(b, 0, true)->Ok_0.0),
        is_punct(c, ','),
    ensures
        list_spec(a + seq![c] + b) is Ok,
        list_spec(a + seq![c] + b) == list_spec(b + seq![c] + a),
{
    lemma_pair_list(a, c, b);
    lemma_pair_list(b, c, a);
}

} // verus!
