use vstd::prelude::*;

pub mod laws;
pub mod model;
pub mod parse;
pub mod patch;
pub mod token;

use crate::model::{QualifierError, QualifierSpec};
use crate::parse::{meta_spec, parse_meta};
use crate::patch::{apply, apply_spec, CallableDecl};
use crate::token::Token;

verus! {

/// Reads the attribute's arguments `meta` and applies the qualifiers they
/// name to `decl`. On a parse failure `decl` is dropped and the error is
/// returned; nothing is applied in part.
pub fn fn_qualifiers<R>(meta: &Vec<Token>, decl: CallableDecl<R>) -> (r: Result<
    CallableDecl<R>,
    QualifierError,
>)
    ensures
        match meta_spec(meta@) {
            Ok(q) => match r {
                Ok(d) => d.sig@ == apply_spec(q, decl.sig@) && d.rest == decl.rest,
                Err(_) => false,
            },
            Err(e) => r == Err::<CallableDecl<R>, QualifierError>(e),
        },
{
    let q: QualifierSpec = parse_meta(meta)?;
    let mut d = decl;
    apply(q, &mut d);
    Ok(d)
}

} // verus!
