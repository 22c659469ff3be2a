//! Validation of the two query parameters into a typed mix request.
use vstd::prelude::*;
use crate::smile::SmileKind;
use crate::smile::kind_of_name;

verus! {

/// Why one query parameter failed validation: it was absent from the query
/// string, or present but not a recognized smile name. Both lead to the same
/// HTTP 400 outcome, but callers and tests can tell them apart.
#[derive(Clone, Copy, Debug, PartialEq, Eq, Structural)]
pub enum ParamError {
    Missing,
    Unrecognized,
}

/// A validated pair of smile kinds for one composition request. Ephemeral and
/// request-scoped: built from the two query parameters, handed to the image
/// generator, then discarded.
#[derive(Clone, Copy, Debug, PartialEq, Eq, Structural)]
pub struct MixRequest {
    pub left: SmileKind,
    pub right: SmileKind,
}

/// The outcome of validating both parameters eagerly: each side's failure, if
/// any, is recorded, so diagnostics can name both offending sides. Well-formed
/// only when at least one side failed.
#[derive(Clone, Copy, Debug, PartialEq, Eq)]
pub struct ValidationFailure {
    pub left: Option<ParamError>,
    pub right: Option<ParamError>,
}

impl ValidationFailure {
    /// A failure report must name at least one failed side.
    pub open spec fn wf(self) -> bool {
        self.left is Some || self.right is Some
    }
}

/// What validating one raw parameter yields: the parsed kind, or why it
/// was rejected.
pub open spec fn spec_param(p: Option<Seq<char>>) -> Result<SmileKind, ParamError> {
    match p {
        None => Err(ParamError::Missing),
        Some(s) => match kind_of_name(s) {
            Some(k) => Ok(k),
            None => Err(ParamError::Unrecognized),
        },
    }
}

/// The error of a per-parameter outcome, if any.
pub open spec fn spec_param_error(r: Result<SmileKind, ParamError>) -> Option<ParamError> {
    match r {
        Ok(_) => None,
        Err(e) => Some(e),
    }
}

/// The view of an optional raw parameter.
pub open spec fn view_param(p: Option<&str>) -> Option<Seq<char>> {
    match p {
        None => None,
        Some(s) => Some(s@),
    }
}

/// What validating both parameters yields: a mix request exactly when both
/// sides parse, and otherwise a report with every failed side recorded.
pub open spec fn spec_validate(left: Option<Seq<char>>, right: Option<Seq<char>>) -> Result<
    MixRequest,
    ValidationFailure,
> {
    let l = spec_param(left);
    let r = spec_param(right);
    if l is Ok && r is Ok {
        Ok(MixRequest { left: l->Ok_0, right: r->Ok_0 })
    } else {
        Err(ValidationFailure { left: spec_param_error(l), right: spec_param_error(r) })
    }
}

/// Validate one raw parameter.
pub fn check_param(p: Option<&str>) -> (r: Result<SmileKind, ParamError>)
    ensures
        r == spec_param(view_param(p)),
{
    match p {
        None => Err(ParamError::Missing),
        Some(s) => match SmileKind::parse(s) {
            Some(k) => Ok(k),
            None => Err(ParamError::Unrecognized),
        },
    }
}

/// The Request Validator: parse both parameters eagerly (neither side is
/// skipped when the other fails) and produce a mix request, or a report of
/// every side that failed.
pub fn validate(left: Option<&str>, right: Option<&str>) -> (r: Result<
    MixRequest,
    ValidationFailure,
>)
    ensures
        r == spec_validate(view_param(left), view_param(right)),
        r matches Err(f) ==> f.wf(),
{
    let l = check_param(left);
    let r = check_param(right);
    match (l, r) {
        (Ok(lk), Ok(rk)) => Ok(MixRequest { left: lk, right: rk }),
        (lres, rres) => Err(
            ValidationFailure {
                left: match lres {
                    Ok(_) => None,
                    Err(e) => Some(e),
                },
                right: match rres {
                    Ok(_) => None,
                    Err(e) => Some(e),
                },
            },
        ),
    }
}

/// A request missing either parameter is rejected, never accepted.
pub proof fn lemma_missing_param_rejected(left: Option<Seq<char>>, right: Option<Seq<char>>)
    requires
        left is None || right is None,
    ensures
        spec_validate(left, right) is Err,
{
}

/// A request whose parameters are both recognized names is accepted, and the
/// accepted pair is exactly the two parsed kinds in parameter order.
pub proof fn lemma_recognized_pair_accepted(left: Seq<char>, right: Seq<char>)
    requires
        kind_of_name(left) is Some,
        kind_of_name(right) is Some,
    ensures
        spec_validate(Some(left), Some(right)) == Ok::<MixRequest, ValidationFailure>(
            MixRequest { left: kind_of_name(left)->Some_0, right: kind_of_name(right)->Some_0 },
        ),
{
}

/// An unrecognized name on either side is rejected, and the failure report
/// names that side.
pub proof fn lemma_unrecognized_param_rejected(left: Seq<char>, right: Seq<char>)
    ensures
        kind_of_name(left) is None ==> (spec_validate(Some(left), Some(right)) matches Err(f)
            && f.left == Some(ParamError::Unrecognized)),
        kind_of_name(right) is None ==> (spec_validate(Some(left), Some(right)) matches Err(f)
            && f.right == Some(ParamError::Unrecognized)),
{
}

/// Swapping the two parameters swaps the validated pair: parameter order is
/// passed through to the generator unchanged, left as left and right as right.
pub proof fn lemma_validate_swap(left: Seq<char>, right: Seq<char>)
    ensures
        spec_validate(Some(left), Some(right)) matches Ok(req) ==> spec_validate(
            Some(right),
            Some(left),
        ) == Ok::<MixRequest, ValidationFailure>(
            MixRequest { left: req.right, right: req.left },
        ),
{
}

} // verus!
