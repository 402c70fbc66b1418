use vstd::prelude::*;

use crate::model::{
    opt_str_view, Qualifier, QualifierSet, QualifierSetView, QualifierSpec, QualifierSpecView,
    QualifierView, Visibility, VisibilityView,
};

verus! {

/// The qualifier fields of a callable declaration.
#[derive(Clone, Debug, PartialEq, Eq)]
pub struct Signature {
    pub vis: Visibility,
    pub constness: bool,
    pub asyncness: bool,
    pub unsafety: bool,
    pub abi: Option<String>,
}

pub struct SignatureView {
    pub vis: VisibilityView,
    pub constness: bool,
    pub asyncness: bool,
    pub unsafety: bool,
    pub abi: Option<Seq<char>>,
}

impl View for Signature {
    type V = SignatureView;

    open spec fn view(&self) -> SignatureView {
        SignatureView {
            vis: self.vis@,
            constness: self.constness,
            asyncness: self.asyncness,
            unsafety: self.unsafety,
            abi: opt_str_view(self.abi),
        }
    }
}

/// A callable declaration: its qualifiers, and the rest (name, parameters,
/// return type, body), which patching never reads.
pub struct CallableDecl<R> {
    pub sig: Signature,
    pub rest: R,
}

/// A single qualifier overwrites its own field and keeps the other four.
pub open spec fn apply_single_spec(q: QualifierView, s: SignatureView) -> SignatureView {
    match q {
        QualifierView::Visibility(v) => SignatureView { vis: v, ..s },
        QualifierView::Constness => SignatureView { constness: true, ..s },
        QualifierView::Asyncness => SignatureView { asyncness: true, ..s },
        QualifierView::Unsafety => SignatureView { unsafety: true, ..s },
        QualifierView::Abi(a) => SignatureView { abi: Some(a), ..s },
    }
}

/// A set replaces all five fields; a kind it lacks becomes absent.
pub open spec fn apply_set_spec(set: QualifierSetView, s: SignatureView) -> SignatureView {
    SignatureView {
        vis: match set.visibility {
            Some(v) => v,
            None => VisibilityView::Inherited,
        },
        constness: set.constness,
        asyncness: set.asyncness,
        unsafety: set.unsafety,
        abi: set.abi,
    }
}

pub open spec fn apply_spec(q: QualifierSpecView, s: SignatureView) -> SignatureView {
    match q {
        QualifierSpecView::Single(one) => apply_single_spec(one, s),
        QualifierSpecView::Multiple(set) => apply_set_spec(set, s),
    }
}

pub fn apply_single(q: Qualifier, sig: &mut Signature)
    ensures
        final(sig)@ == apply_single_spec(q@, old(sig)@),
{
    match q {
        Qualifier::Visibility(v) => sig.vis = v,
        Qualifier::Constness => sig.constness = true,
        Qualifier::Asyncness => sig.asyncness = true,
        Qualifier::Unsafety => sig.unsafety = true,
        Qualifier::Abi(a) => sig.abi = Some(a),
    }
}

pub fn apply_set(set: QualifierSet, sig: &mut Signature)
    ensures
        final(sig)@ == apply_set_spec(set@, old(sig)@),
{
    sig.vis = match set.visibility {
        Some(v) => v,
        None => Visibility::Inherited,
    };
    sig.constness = set.constness;
    sig.asyncness = set.asyncness;
    sig.unsafety = set.unsafety;
    sig.abi = set.abi;
}

/// Patches the qualifier fields of `decl`; nothing else of it is touched.
pub fn apply<R>(q: QualifierSpec, decl: &mut CallableDecl<R>)
    ensures
        final(decl).sig@ == apply_spec(q@, old(decl).sig@),
        final(decl).rest == old(decl).rest,
{
    match q {
        QualifierSpec::Single(one) => apply_single(one, &mut decl.sig),
        QualifierSpec::Multiple(set) => apply_set(set, &mut decl.sig),
    }
}

} // verus!
