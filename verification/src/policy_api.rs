//! The trusted face of the external policy-evaluation library. Every call
//! the engine makes into it goes through one of the wrappers below; the
//! uninterpreted functions name what the library's parsers return, since
//! each is a function of its input text alone.

use vstd::prelude::*;

verus! {

use std::str::FromStr;
use vstd::multiset::Multiset;
use crate::validation::SourceLocation;
use crate::validation::ValidationError;
use crate::validation::finding_locs;

#[verifier::external_type_specification]
#[verifier::external_body]
pub struct ExPolicySet(cedar_policy::PolicySet);

#[verifier::external_type_specification]
#[verifier::external_body]
pub struct ExEntities(cedar_policy::Entities);

#[verifier::external_type_specification]
#[verifier::external_body]
pub struct ExAuthorizer(cedar_policy::Authorizer);

#[verifier::external_type_specification]
#[verifier::external_body]
pub struct ExSchema(cedar_policy::Schema);

#[verifier::external_type_specification]
#[verifier::external_body]
pub struct ExValidator(cedar_policy::Validator);

#[verifier::external_type_specification]
#[verifier::external_body]
pub struct ExEntityUid(cedar_policy::EntityUid);

#[verifier::external_type_specification]
#[verifier::external_body]
pub struct ExContext(cedar_policy::Context);

#[verifier::external_type_specification]
#[verifier::external_body]
pub struct ExRequest(cedar_policy::Request);

/// The identifiers of the policies a policy set holds, as a multiset:
/// the set iterates its policies in no promised order.
pub uninterp spec fn policy_set_ids(ps: cedar_policy::PolicySet) -> Multiset<Seq<char>>;

/// What parsing a policy-set text yields: `None` when the text is
/// rejected, otherwise the identifiers of the parsed policies.
pub uninterp spec fn parsed_policy_ids(text: Seq<char>) -> Option<Multiset<Seq<char>>>;

/// The identifiers of the entities an entity store holds.
pub uninterp spec fn entity_store_uids(es: cedar_policy::Entities) -> Multiset<Seq<char>>;

/// What parsing an entity-record JSON array yields: `None` when the JSON
/// is rejected, otherwise the identifiers of the parsed entities.
pub uninterp spec fn parsed_entity_uids(text: Seq<char>) -> Option<Multiset<Seq<char>>>;

/// Whether a schema text parses.
pub uninterp spec fn schema_accepted(text: Seq<char>) -> bool;

/// Whether a text is a well-formed, normalized entity reference.
pub uninterp spec fn entity_ref_accepted(text: Seq<char>) -> bool;

/// Whether a text is well-formed context JSON.
pub uninterp spec fn context_accepted(text: Seq<char>) -> bool;

/// The decision the evaluation library reaches for the request built from
/// the four texts, evaluated against the given policy set and entity
/// store: `true` for Allow. The decision is a function of those values
/// alone.
pub uninterp spec fn decision_of(
    ps: cedar_policy::PolicySet,
    es: cedar_policy::Entities,
    principal: Seq<char>,
    action: Seq<char>,
    resource: Seq<char>,
    context: Seq<char>,
) -> bool;

/// The identifiers of the templates a policy set holds: a set parsed from
/// text can hold templates beside its policies, and the validator reports
/// on both.
pub uninterp spec fn policy_set_template_ids(ps: cedar_policy::PolicySet) -> Multiset<Seq<char>>;

/// Where the validator's findings point, as a multiset of (policy
/// identifier, optional span start, optional span end): a function of the
/// schema and the policy set alone. The findings' reporting order, and
/// the suggestion text inside a finding's kind, are not — both can follow
/// the process's own hash seeds — so neither is named.
pub uninterp spec fn findings_of(schema: cedar_policy::Schema, ps: cedar_policy::PolicySet) -> Multiset<(Seq<char>, Option<usize>, Option<usize>)>;

/// Relies on `cedar_policy::PolicySet::new`: a freshly created policy set
/// holds no policies.
#[verifier::external_body]
pub(crate) fn new_policy_set() -> (r: cedar_policy::PolicySet)
    ensures
        policy_set_ids(r) == Multiset::<Seq<char>>::empty(),
{
    cedar_policy::PolicySet::new()
}

/// Relies on `cedar_policy::PolicySet::from_str`: parsing is a function of
/// the text alone; on success the returned set holds exactly the parsed
/// policies, on failure the parse error is reported as text.
#[verifier::external_body]
pub(crate) fn parse_policy_set(text: &str) -> (r: Result<cedar_policy::PolicySet, String>)
    ensures
        r is Ok <==> parsed_policy_ids(text@) is Some,
        r matches Ok(ps) ==> parsed_policy_ids(text@) == Some(policy_set_ids(ps)),
{
    <cedar_policy::PolicySet as std::str::FromStr>::from_str(text).map_err(|e| e.to_string())
}

/// Relies on `cedar_policy::PolicySet::policies`: the iterator yields one
/// entry per policy in the set.
#[verifier::external_body]
pub(crate) fn policy_count(ps: &cedar_policy::PolicySet) -> (r: usize)
    ensures
        r == policy_set_ids(*ps).len(),
{
    ps.policies().count()
}

/// Relies on `cedar_policy::Entities::empty`: a freshly created store
/// holds no entities.
#[verifier::external_body]
pub(crate) fn empty_entities() -> (r: cedar_policy::Entities)
    ensures
        entity_store_uids(r) == Multiset::<Seq<char>>::empty(),
{
    cedar_policy::Entities::empty()
}

/// Relies on `cedar_policy::Entities::from_json_str`, with no schema:
/// parsing is a function of the JSON text alone; on success the returned
/// store holds exactly the parsed entities.
#[verifier::external_body]
pub(crate) fn parse_entities(text: &str) -> (r: Result<cedar_policy::Entities, String>)
    ensures
        r is Ok <==> parsed_entity_uids(text@) is Some,
        r matches Ok(es) ==> parsed_entity_uids(text@) == Some(entity_store_uids(es)),
{
    cedar_policy::Entities::from_json_str(text, None).map_err(|e| e.to_string())
}

/// Relies on `cedar_policy::Entities::iter`: the iterator yields one entry
/// per entity in the store.
#[verifier::external_body]
pub(crate) fn entity_count(es: &cedar_policy::Entities) -> (r: usize)
    ensures
        r == entity_store_uids(*es).len(),
{
    es.iter().count()
}

/// Relies on `cedar_policy::Authorizer::new`; the authorizer is a
/// stateless capability handle.
#[verifier::external_body]
pub(crate) fn new_authorizer() -> (r: cedar_policy::Authorizer) {
    cedar_policy::Authorizer::new()
}

/// Relies on `cedar_policy::EntityUid::from_str`: acceptance is a function
/// of the text alone.
#[verifier::external_body]
pub(crate) fn parse_entity_uid(text: &str) -> (r: Result<cedar_policy::EntityUid, String>)
    ensures
        r is Ok <==> entity_ref_accepted(text@),
{
    <cedar_policy::EntityUid as std::str::FromStr>::from_str(text).map_err(|e| e.to_string())
}

/// Relies on `cedar_policy::Context::from_json_str`, with no schema:
/// acceptance is a function of the text alone.
#[verifier::external_body]
pub(crate) fn parse_context(text: &str) -> (r: Result<cedar_policy::Context, String>)
    ensures
        r is Ok <==> context_accepted(text@),
{
    cedar_policy::Context::from_json_str(text, None).map_err(|e| e.to_string())
}

/// Relies on `cedar_policy::Authorizer::is_authorized`, on the request
/// built by `cedar_policy::Request::new` from the four inputs, each
/// parsed by the library's own parsers (`EntityUid::from_str` three
/// times, `Context::from_json_str` with no schema): the decision is a
/// function of the policy set, the entity store and the four texts
/// alone, named `decision_of`; `true` stands for the Allow decision.
/// Inputs the parsers reject are excluded, so the parse steps cannot
/// trap.
#[verifier::external_body]
pub(crate) fn authorize(
    auth: &cedar_policy::Authorizer,
    ps: &cedar_policy::PolicySet,
    es: &cedar_policy::Entities,
    entity: &str,
    action: &str,
    resource: &str,
    context: &str,
) -> (allow: bool)
    requires
        entity_ref_accepted(entity@),
        entity_ref_accepted(action@),
        entity_ref_accepted(resource@),
        context_accepted(context@),
    ensures
        allow == decision_of(*ps, *es, entity@, action@, resource@, context@),
{
    let principal = cedar_policy::EntityUid::from_str(entity).expect("entity parse error");
    let action = cedar_policy::EntityUid::from_str(action).expect("entity parse error");
    let resource = cedar_policy::EntityUid::from_str(resource).expect("entity parse error");
    let context = cedar_policy::Context::from_json_str(context, None).unwrap();
    let request = cedar_policy::Request::new(Some(principal), Some(action), Some(resource), context);
    auth.is_authorized(&request, ps, es).decision() == cedar_policy::Decision::Allow
}

/// Relies on `cedar_policy::Schema::from_str`: acceptance is a function of
/// the text alone.
#[verifier::external_body]
pub(crate) fn parse_schema(text: &str) -> (r: Result<cedar_policy::Schema, String>)
    ensures
        r is Ok <==> schema_accepted(text@),
{
    <cedar_policy::Schema as std::str::FromStr>::from_str(text).map_err(|e| e.to_string())
}

/// Relies on `cedar_policy::Validator::new` and `Validator::validate`,
/// run in the default (strict) mode: each reported finding is carried
/// over, one entry per finding, as its kind, the offending policy's
/// identifier and the optional character offsets of its span. The
/// multiset of finding locations is named `findings_of`; each finding
/// points at a policy or a template of the validated set, and the two
/// offsets — read off one optional source range — are present or absent
/// together.
#[verifier::external_body]
pub(crate) fn run_validator(schema: cedar_policy::Schema, ps: &cedar_policy::PolicySet) -> (r:
    Vec<ValidationError>)
    ensures
        finding_locs(r@.map_values(|e: ValidationError| e@)) == findings_of(schema, *ps),
        forall|i: int|
            0 <= i < r@.len() ==> policy_set_ids(*ps).contains(
                (#[trigger] r@[i])@.location.policy_id,
            ) || policy_set_template_ids(*ps).contains(r@[i]@.location.policy_id),
        forall|i: int|
            0 <= i < r@.len() ==> (((#[trigger] r@[i])@.location.range_start) is Some
                <==> r@[i]@.location.range_end is Some),
{
    let validator = cedar_policy::Validator::new(schema);
    let outcome = validator.validate(ps, cedar_policy::ValidationMode::default());
    outcome.validation_errors().map(|finding| ValidationError {
        error_kind: finding.error_kind().to_string(),
        location: SourceLocation {
            policy_id: finding.location().policy_id().to_string(),
            range_start: finding.location().range_start(),
            range_end: finding.location().range_end(),
        },
    }).collect()
}

} // verus!
