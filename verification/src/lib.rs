//! Verified core of a positional command-line entry-point generator.
//!
//! Given the shape of an ordinary function — an ordered list of
//! `pattern: type` parameters together with its opaque surrounding text —
//! the library validates that shape, derives a usage string from it, and
//! assembles the source text of a self-contained entry point that reads
//! process arguments, parses one positional argument per parameter, checks
//! the argument count, and only then runs the original body.  The runtime
//! policy that the generated text follows (strict left-to-right consumption,
//! first missing argument wins, excess arguments rejected) is itself modelled
//! and verified in [`run`].

use vstd::prelude::*;

pub mod codegen;
pub mod run;
pub mod sig;
pub mod usage;

use crate::codegen::assemble;
use crate::codegen::spec_assembled;
use crate::sig::FnDecl;
use crate::sig::TransformError;
use crate::sig::spec_validate;
use crate::sig::validate;

verus! {

/// Transform one raw declaration into the source text of its generated
/// entry point, or reject it.
///
/// `has_attr_args` records whether the attribute itself was invoked with
/// arguments; it accepts none.  The transform is total: every declaration
/// yields either the first validation error in checking order, or the
/// complete assembled function with its parameters in declaration order.
pub fn transform(has_attr_args: bool, decl: &FnDecl) -> (r: Result<String, TransformError>)
    ensures
        (match spec_validate(has_attr_args, decl.has_variadic, decl.params@) {
            Ok(ps) => r matches Ok(text) && text@ == spec_assembled(*decl, ps),
            Err(e) => r matches Err(e2) && e2 == e,
        }),
{
    match validate(has_attr_args, decl.has_variadic, &decl.params) {
        Ok(ps) => Ok(assemble(decl, &ps)),
        Err(e) => Err(e),
    }
}

} // verus!
