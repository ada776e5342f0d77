//! The shape of a wrapped function's parameter list, and its validation.
//!
//! A declaration reaches the transform as an ordered list of raw parameters.
//! Validation rejects receivers, variadic tails, per-parameter attributes and
//! arguments handed to the attribute itself; on success it yields the ordered
//! list of plain `pattern: type` pairs, never dropped, merged or reordered.

use vstd::prelude::*;

verus! {

/// One accepted parameter of the wrapped function: its binding pattern and
/// its declared type, both kept verbatim as source text.
#[derive(Debug, PartialEq, Eq)]
pub struct Param {
    /// The binding pattern, rendered as source text.
    pub pat: String,
    /// The declared type, rendered as source text.
    pub ty: String,
}

/// One parameter as it stands in the raw declaration, before validation.
pub enum RawParam {
    /// A `self`-style receiver.
    Receiver,
    /// A plain `pattern: type` parameter; `has_attribute` records whether
    /// the parameter carries an attribute of its own.
    Typed { param: Param, has_attribute: bool },
}

/// A whole raw function declaration as the transform receives it.
///
/// Everything the transform never inspects is carried as opaque source
/// text and re-emitted verbatim: each piece is spliced exactly as given,
/// so a piece that needs separating whitespace (a visibility, a qualifier
/// list, a return type) must carry its own trailing space, and an absent
/// piece is the empty string.
pub struct FnDecl {
    /// The function's attributes, each ended by a line break.
    pub attrs: String,
    /// The visibility, with a trailing space when present.
    pub vis: String,
    /// `const` / `async` / `unsafe` / ABI qualifiers, each with a trailing
    /// space.
    pub qualifiers: String,
    /// The function's name.
    pub ident: String,
    /// The generics, directly after the name.
    pub generics: String,
    /// The return type, `-> ` included, with a trailing space when present.
    pub output: String,
    /// The body block, braces included.
    pub body: String,
    /// The declared parameters, in declaration order.
    pub params: Vec<RawParam>,
    /// Whether the signature declares a variadic trailing parameter.
    pub has_variadic: bool,
}

/// Why a declaration was rejected.  The `index` fields give the position of
/// the offending parameter in declaration order.
#[derive(Clone, Copy, Debug, PartialEq, Eq, Structural)]
pub enum TransformError {
    /// The attribute itself was invoked with arguments; it accepts none.
    UnexpectedAttributeArgument,
    /// A parameter is a `self`-style receiver; only free functions are
    /// supported.
    ReceiverNotAllowed { index: usize },
    /// The signature declares a variadic trailing parameter.
    VariadicNotAllowed,
    /// A parameter carries an attribute of its own.
    UnexpectedParameterAttribute { index: usize },
}

impl TransformError {
    /// The diagnostic text reported at the call site for this rejection.
    pub open spec fn spec_message(self) -> Seq<char> {
        match self {
            TransformError::UnexpectedAttributeArgument => "unexpected attribute argument(s)"@,
            TransformError::ReceiverNotAllowed { .. } => "unexpected `self` argument"@,
            TransformError::VariadicNotAllowed => "unexpected variadic argument"@,
            TransformError::UnexpectedParameterAttribute { .. } => "unexpected attribute"@,
        }
    }

    /// The diagnostic text reported at the call site for this rejection.
    pub fn message(&self) -> (r: &'static str)
        ensures
            r@ == self.spec_message(),
    {
        match self {
            TransformError::UnexpectedAttributeArgument => "unexpected attribute argument(s)",
            TransformError::ReceiverNotAllowed { .. } => "unexpected `self` argument",
            TransformError::VariadicNotAllowed => "unexpected variadic argument",
            TransformError::UnexpectedParameterAttribute { .. } => "unexpected attribute",
        }
    }
}

/// A raw parameter passes validation when it is a plain `pattern: type`
/// pair without an attribute of its own.
pub open spec fn param_ok(rp: RawParam) -> bool {
    rp matches RawParam::Typed { has_attribute, .. } && !has_attribute
}

/// The position of the first raw parameter that fails [`param_ok`], or
/// the length of the list when every parameter passes.
pub open spec fn first_flaw(params: Seq<RawParam>) -> int
    decreases params.len(),
{
    if params.len() == 0 {
        0
    } else if !param_ok(params[0]) {
        0
    } else {
        1 + first_flaw(params.drop_first())
    }
}

/// [`first_flaw`] is the position of the first failing parameter: it is
/// pinned down by any position whose predecessors all pass and which either
/// fails itself or is the end of the list.
pub proof fn lemma_first_flaw_is(params: Seq<RawParam>, i: int)
    requires
        0 <= i <= params.len(),
        forall|j: int| 0 <= j < i ==> param_ok(params[j]),
        i < params.len() ==> !param_ok(params[i]),
    ensures
        first_flaw(params) == i,
    decreases params.len(),
{
    if params.len() == 0 {
    } else if i == 0 {
    } else {
        assert(param_ok(params[0]));
        let rest = params.drop_first();
        assert forall|j: int| 0 <= j < i - 1 implies param_ok(rest[j]) by {
            assert(rest[j] == params[j + 1]);
        }
        if i - 1 < rest.len() {
            assert(rest[i - 1] == params[i]);
        }
        lemma_first_flaw_is(rest, i - 1);
    }
}

/// The outcome of validation: the ordered parameter list, or the first
/// rejection in checking order (attribute arguments, then the variadic
/// tail, then the parameters from left to right).
pub open spec fn spec_validate(
    has_attr_args: bool,
    has_variadic: bool,
    params: Seq<RawParam>,
) -> Result<Seq<Param>, TransformError> {
    if has_attr_args {
        Err(TransformError::UnexpectedAttributeArgument)
    } else if has_variadic {
        Err(TransformError::VariadicNotAllowed)
    } else if first_flaw(params) < params.len() {
        let i = first_flaw(params);
        if params[i] is Receiver {
            Err(TransformError::ReceiverNotAllowed { index: i as usize })
        } else {
            Err(TransformError::UnexpectedParameterAttribute { index: i as usize })
        }
    } else {
        Ok(params.map_values(|rp: RawParam| rp->Typed_param))
    }
}

/// Validate a raw declaration: reject attribute arguments, a variadic tail,
/// receivers and per-parameter attributes; otherwise hand back every
/// parameter, in declaration order.
pub fn validate(
    has_attr_args: bool,
    has_variadic: bool,
    params: &Vec<RawParam>,
) -> (r: Result<Vec<Param>, TransformError>)
    ensures
        (match spec_validate(has_attr_args, has_variadic, params@) {
            Ok(ps) => r matches Ok(v) && v@ == ps,
            Err(e) => r matches Err(e2) && e2 == e,
        }),
{
    if has_attr_args {
        return Err(TransformError::UnexpectedAttributeArgument);
    }
    if has_variadic {
        return Err(TransformError::VariadicNotAllowed);
    }
    let n = params.len();
    let mut out: Vec<Param> = Vec::new();
    let mut i: usize = 0;
    while i < n
        invariant
            !has_attr_args,
            !has_variadic,
            i <= n,
            n == params@.len(),
            forall|j: int| 0 <= j < i ==> param_ok(params@[j]),
            out@.len() == i,
            forall|j: int| 0 <= j < i ==> out@[j] == params@[j]->Typed_param,
        decreases n - i,
    {
        let rp: &RawParam = &params[i];
        match rp {
            RawParam::Receiver => {
                proof {
                    lemma_first_flaw_is(params@, i as int);
                }
                return Err(TransformError::ReceiverNotAllowed { index: i });
            },
            RawParam::Typed { param, has_attribute } => {
                if *has_attribute {
                    proof {
                        lemma_first_flaw_is(params@, i as int);
                    }
                    return Err(TransformError::UnexpectedParameterAttribute { index: i });
                }
                out.push(Param { pat: param.pat.clone(), ty: param.ty.clone() });
            },
        }
        i += 1;
    }
    proof {
        lemma_first_flaw_is(params@, n as int);
        assert(out@ =~= params@.map_values(|rp: RawParam| rp->Typed_param));
    }
    Ok(out)
}

/// A declaration whose attribute was invoked with arguments is rejected as
/// `UnexpectedAttributeArgument`, whatever the signature holds.
pub proof fn lemma_attribute_argument_rejected(has_variadic: bool, params: Seq<RawParam>)
    ensures
        spec_validate(true, has_variadic, params) == Err::<Seq<Param>, TransformError>(
            TransformError::UnexpectedAttributeArgument,
        ),
{
}

/// A declaration with a variadic tail is rejected as `VariadicNotAllowed`,
/// whatever its parameters are.
pub proof fn lemma_variadic_rejected(params: Seq<RawParam>)
    ensures
        spec_validate(false, true, params) == Err::<Seq<Param>, TransformError>(
            TransformError::VariadicNotAllowed,
        ),
{
}

/// A declaration with a receiver parameter is rejected as
/// `ReceiverNotAllowed`, regardless of the parameters that follow it.
pub proof fn lemma_receiver_rejected(params: Seq<RawParam>, i: int)
    requires
        0 <= i < params.len(),
        params[i] is Receiver,
        forall|j: int| 0 <= j < i ==> param_ok(params[j]),
    ensures
        spec_validate(false, false, params) == Err::<Seq<Param>, TransformError>(
            TransformError::ReceiverNotAllowed { index: i as usize },
        ),
{
    lemma_first_flaw_is(params, i);
}

/// A declaration whose parameter carries an attribute of its own is rejected
/// as `UnexpectedParameterAttribute`, regardless of the parameters that
/// follow it.
pub proof fn lemma_parameter_attribute_rejected(params: Seq<RawParam>, i: int)
    requires
        0 <= i < params.len(),
        (params[i] matches RawParam::Typed { has_attribute, .. } && has_attribute),
        forall|j: int| 0 <= j < i ==> param_ok(params[j]),
    ensures
        spec_validate(false, false, params) == Err::<Seq<Param>, TransformError>(
            TransformError::UnexpectedParameterAttribute { index: i as usize },
        ),
{
    lemma_first_flaw_is(params, i);
}

/// A declaration of N plain parameters, with no attribute arguments and no
/// variadic tail, is accepted, and validation hands back exactly those N
/// parameters in declaration order.
pub proof fn lemma_valid_params_accepted(params: Seq<RawParam>)
    requires
        forall|j: int| 0 <= j < params.len() ==> param_ok(params[j]),
    ensures
        (spec_validate(false, false, params) matches Ok(ps) && ps.len() == params.len()
            && forall|j: int| 0 <= j < params.len() ==> ps[j] == params[j]->Typed_param),
{
    lemma_first_flaw_is(params, params.len() as int);
}

} // verus!
