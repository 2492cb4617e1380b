//! The structured outcome of validating a policy set against a schema:
//! either the parse error that stopped validation from running, or the
//! ordered findings the validator reported.

use vstd::prelude::*;

verus! {

use vstd::string::StringExecFns;
use crate::json::json_of_error;
use crate::json::json_of_errors;
use crate::json::json_of_location;
use crate::json::json_of_result;
use crate::json::push_json_string;
use crate::json::push_opt_string;
use crate::json::push_opt_usize;

/// Where in the originating policy text a finding points: the offending
/// policy's identifier and, when the validator can attribute a precise
/// span, character offsets into that policy's text.
pub struct SourceLocation {
    pub policy_id: String,
    pub range_start: Option<usize>,
    pub range_end: Option<usize>,
}

/// One finding reported by the validator.
pub struct ValidationError {
    pub error_kind: String,
    pub location: SourceLocation,
}

/// The outcome of `validate`. Exactly one of `schema_error` and
/// `policy_error` is present when the corresponding input failed to parse,
/// and the finding list is then empty; both are absent when validation
/// ran, and the findings keep the validator's reporting order.
pub struct ValidationResult {
    pub schema_error: Option<String>,
    pub policy_error: Option<String>,
    pub validation_errors: Vec<ValidationError>,
}

/// Mathematical image of a `SourceLocation`.
pub struct SourceLocationView {
    pub policy_id: Seq<char>,
    pub range_start: Option<usize>,
    pub range_end: Option<usize>,
}

/// Mathematical image of a `ValidationError`.
pub struct ValidationErrorView {
    pub error_kind: Seq<char>,
    pub location: SourceLocationView,
}

/// Mathematical image of a `ValidationResult`.
pub struct ValidationResultView {
    pub schema_error: Option<Seq<char>>,
    pub policy_error: Option<Seq<char>>,
    pub validation_errors: Seq<ValidationErrorView>,
}

/// Where one finding points, as a plain triple: the policy identifier
/// and the optional span offsets.
pub open spec fn finding_loc(e: ValidationErrorView) -> (Seq<char>, Option<usize>, Option<usize>) {
    (e.location.policy_id, e.location.range_start, e.location.range_end)
}

/// The locations of a list of findings, as a multiset: what remains of
/// the list once the reporting order is set aside.
pub open spec fn finding_locs(errs: Seq<ValidationErrorView>) -> vstd::multiset::Multiset<
    (Seq<char>, Option<usize>, Option<usize>),
> {
    errs.map_values(|e: ValidationErrorView| finding_loc(e)).to_multiset()
}

impl View for SourceLocation {
    type V = SourceLocationView;

    open spec fn view(&self) -> SourceLocationView {
        SourceLocationView {
            policy_id: self.policy_id@,
            range_start: self.range_start,
            range_end: self.range_end,
        }
    }
}

impl View for ValidationError {
    type V = ValidationErrorView;

    open spec fn view(&self) -> ValidationErrorView {
        ValidationErrorView { error_kind: self.error_kind@, location: self.location@ }
    }
}

impl View for ValidationResult {
    type V = ValidationResultView;

    open spec fn view(&self) -> ValidationResultView {
        ValidationResultView {
            schema_error: match self.schema_error {
                Some(ref s) => Some(s@),
                None => None,
            },
            policy_error: match self.policy_error {
                Some(ref s) => Some(s@),
                None => None,
            },
            validation_errors: self.validation_errors@.map_values(|e: ValidationError| e@),
        }
    }
}

/// Appends the JSON object for a source location.
fn push_source_location(out: &mut String, l: &SourceLocation)
    ensures
        final(out)@ == old(out)@ + json_of_location(l@),
{
    out.append("{\"policy_id\":");
    push_json_string(out, l.policy_id.as_str());
    out.append(",\"range_start\":");
    push_opt_usize(out, &l.range_start);
    out.append(",\"range_end\":");
    push_opt_usize(out, &l.range_end);
    out.append("}");
    proof {
        assert(out@ =~= old(out)@ + json_of_location(l@));
    }
}

/// Appends the JSON object for one finding.
fn push_validation_error(out: &mut String, e: &ValidationError)
    ensures
        final(out)@ == old(out)@ + json_of_error(e@),
{
    out.append("{\"error_kind\":");
    push_json_string(out, e.error_kind.as_str());
    out.append(",\"location\":");
    push_source_location(out, &e.location);
    out.append("}");
    proof {
        assert(out@ =~= old(out)@ + json_of_error(e@));
    }
}

impl ValidationResult {
    /// The whole outcome as one single-line JSON document, in the shape
    /// the boundary promises: `schema_error`, `policy_error`, and the
    /// ordered `validation_errors` array.
    pub fn to_single_line_json(&self) -> (r: String)
        ensures
            r@ == json_of_result(self@),
    {
        let mut out = String::new();
        out.append("{\"schema_error\":");
        push_opt_string(&mut out, &self.schema_error);
        out.append(",\"policy_error\":");
        push_opt_string(&mut out, &self.policy_error);
        out.append(",\"validation_errors\":[");
        let ghost base = out@;
        let ghost errs = self@.validation_errors;
        let mut i: usize = 0;
        while i < self.validation_errors.len()
            invariant
                i <= self.validation_errors.len(),
                errs == self@.validation_errors,
                errs.len() == self.validation_errors@.len(),
                out@ =~= base + json_of_errors(errs.take(i as int)),
            decreases self.validation_errors.len() - i,
        {
            if i > 0 {
                out.append(",");
            }
            push_validation_error(&mut out, &self.validation_errors[i]);
            proof {
                let t = errs.take(i as int + 1);
                assert(self.validation_errors@[i as int]@ == errs[i as int]);
                if i == 0 {
                    assert(t.len() == 1);
                    assert(t[0] == errs[0]);
                    assert(json_of_errors(t) == json_of_error(errs[0]));
                    assert(base + json_of_errors(errs.take(0)) =~= base);
                } else {
                    assert(t.drop_last() =~= errs.take(i as int));
                    assert(t.last() == errs[i as int]);
                    assert(json_of_errors(t) == json_of_errors(errs.take(i as int)) + ","@
                        + json_of_error(errs[i as int]));
                }
                assert(out@ =~= base + json_of_errors(t));
            }
            i = i + 1;
        }
        out.append("]}");
        proof {
            assert(errs.take(self.validation_errors@.len() as int) =~= errs);
            assert(out@ =~= json_of_result(self@));
        }
        out
    }
}

} // verus!
