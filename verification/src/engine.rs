//! The engine state: the one long-lived instance holding the current
//! policy set, the current entity store, and a stateless authorizer
//! handle. Update operations replace a field wholesale or, when the new
//! text is rejected, leave it untouched; queries evaluate against the
//! fields as they stand.

use vstd::prelude::*;

verus! {

use vstd::multiset::Multiset;
use crate::policy_api::authorize;
use crate::policy_api::context_accepted;
use crate::policy_api::decision_of;
use crate::policy_api::empty_entities;
use crate::policy_api::entity_count;
use crate::policy_api::entity_ref_accepted;
use crate::policy_api::entity_store_uids;
use crate::policy_api::findings_of;
use crate::policy_api::new_authorizer;
use crate::policy_api::new_policy_set;
use crate::policy_api::parse_context;
use crate::policy_api::parse_entities;
use crate::policy_api::parse_entity_uid;
use crate::policy_api::parse_policy_set;
use crate::policy_api::parse_schema;
use crate::policy_api::parsed_entity_uids;
use crate::policy_api::parsed_policy_ids;
use crate::policy_api::policy_count;
use crate::policy_api::policy_set_ids;
use crate::policy_api::policy_set_template_ids;
use crate::policy_api::run_validator;
use crate::policy_api::schema_accepted;
use crate::validation::ValidationError;
use crate::validation::ValidationResult;
use crate::validation::finding_locs;
use vstd::string::StringExecFns;

/// The engine state. Created with an empty policy set and an empty entity
/// store; both are only ever replaced wholesale, never merged into.
pub struct CedarEngine {
    pub entity_store: cedar_policy::Entities,
    pub policy_set: cedar_policy::PolicySet,
    pub authorizer: cedar_policy::Authorizer,
}

/// A request is well-formed when its three entity references and its
/// context JSON are each accepted by the evaluation library's parsers;
/// the boundary contract treats anything else as a fatal caller error.
pub open spec fn request_well_formed(
    principal: Seq<char>,
    action: Seq<char>,
    resource: Seq<char>,
    context: Seq<char>,
) -> bool {
    &&& entity_ref_accepted(principal)
    &&& entity_ref_accepted(action)
    &&& entity_ref_accepted(resource)
    &&& context_accepted(context)
}

/// What `validate` owes for every pair of inputs: a rejected policy text
/// short-circuits with `policy_error` set, a rejected schema with
/// `schema_error` set. When both parse, the error fields stay absent and
/// the reported list is exactly the validator's findings for a schema
/// accepted from the schema text and a set parsed from the policy text:
/// their locations form the named multiset — none dropped, none added —
/// each finding points at a policy or template of that set, and its two
/// span offsets are present or absent together.
pub open spec fn validate_outcome_ok(
    policies_text: Seq<char>,
    schema_text: Seq<char>,
    v: crate::validation::ValidationResultView,
) -> bool {
    &&& parsed_policy_ids(policies_text) is None ==> {
        &&& v.policy_error is Some
        &&& v.schema_error is None
        &&& v.validation_errors.len() == 0
    }
    &&& parsed_policy_ids(policies_text) is Some && !schema_accepted(schema_text) ==> {
        &&& v.schema_error is Some
        &&& v.policy_error is None
        &&& v.validation_errors.len() == 0
    }
    &&& parsed_policy_ids(policies_text) is Some && schema_accepted(schema_text) ==> {
        &&& v.schema_error is None
        &&& v.policy_error is None
        &&& exists|schema: cedar_policy::Schema, pset: cedar_policy::PolicySet|
            {
                &&& parsed_policy_ids(policies_text) == Some(policy_set_ids(pset))
                &&& #[trigger] findings_of(schema, pset) == finding_locs(v.validation_errors)
                &&& forall|i: int|
                    0 <= i < v.validation_errors.len() ==> policy_set_ids(pset).contains(
                        (#[trigger] v.validation_errors[i]).location.policy_id,
                    ) || policy_set_template_ids(pset).contains(
                        v.validation_errors[i].location.policy_id,
                    )
            }
        &&& forall|i: int|
            0 <= i < v.validation_errors.len() ==> (((
            #[trigger] v.validation_errors[i]).location.range_start) is Some
                <==> v.validation_errors[i].location.range_end is Some)
    }
}

impl CedarEngine {
    /// The policies currently loaded, by identifier.
    pub open spec fn policies(self) -> Multiset<Seq<char>> {
        policy_set_ids(self.policy_set)
    }

    /// The entities currently loaded, by identifier.
    pub open spec fn entities(self) -> Multiset<Seq<char>> {
        entity_store_uids(self.entity_store)
    }

    /// A fresh engine: empty policy set, empty entity store.
    pub fn new() -> (r: CedarEngine)
        ensures
            r.policies() == Multiset::<Seq<char>>::empty(),
            r.entities() == Multiset::<Seq<char>>::empty(),
    {
        CedarEngine {
            entity_store: empty_entities(),
            policy_set: new_policy_set(),
            authorizer: new_authorizer(),
        }
    }

    /// Replaces the policy set with the set parsed from `policies_str`;
    /// when the text is rejected, the previous set stays untouched and
    /// the parse diagnostic comes back, exactly then, for the embedder
    /// to log — the boundary protocol itself swallows it.
    pub fn set_policies(&mut self, policies_str: &str) -> (diagnostic: Option<String>)
        ensures
            final(self).entity_store == old(self).entity_store,
            final(self).authorizer == old(self).authorizer,
            diagnostic is Some <==> parsed_policy_ids(policies_str@) is None,
            match parsed_policy_ids(policies_str@) {
                Some(ids) => final(self).policies() == ids,
                None => final(self).policies() == old(self).policies(),
            },
    {
        match parse_policy_set(policies_str) {
            Ok(ps) => {
                self.policy_set = ps;
                None
            },
            Err(e) => Some(e),
        }
    }

    /// Replaces the entity store with the store parsed from
    /// `entities_json`; when the JSON is rejected, the previous store
    /// stays untouched and the parse diagnostic comes back, exactly then.
    pub fn set_entities(&mut self, entities_json: &str) -> (diagnostic: Option<String>)
        ensures
            final(self).policy_set == old(self).policy_set,
            final(self).authorizer == old(self).authorizer,
            diagnostic is Some <==> parsed_entity_uids(entities_json@) is None,
            match parsed_entity_uids(entities_json@) {
                Some(uids) => final(self).entities() == uids,
                None => final(self).entities() == old(self).entities(),
            },
    {
        match parse_entities(entities_json) {
            Ok(es) => {
                self.entity_store = es;
                None
            },
            Err(e) => Some(e),
        }
    }

    /// How many policies the current set holds.
    pub fn policy_count(&self) -> (r: usize)
        ensures
            r == self.policies().len(),
    {
        policy_count(&self.policy_set)
    }

    /// How many entities the current store holds.
    pub fn entity_count(&self) -> (r: usize)
        ensures
            r == self.entities().len(),
    {
        entity_count(&self.entity_store)
    }

    /// Evaluates a request against the current policy set and entity
    /// store: the answer is `Allow` exactly when the evaluation library
    /// decides Allow for this request against this state, and `Deny`
    /// otherwise. Malformed identifiers or context are a fatal caller
    /// error under the boundary contract, so they are excluded outright;
    /// the checked form below refuses them instead.
    pub fn is_authorized(&self, entity: &str, action: &str, resource: &str, context: &str) -> (r:
        String)
        requires
            request_well_formed(entity@, action@, resource@, context@),
        ensures
            r@ == "Allow"@ || r@ == "Deny"@,
            r@ == "Allow"@ <==> decision_of(
                self.policy_set,
                self.entity_store,
                entity@,
                action@,
                resource@,
                context@,
            ),
    {
        let allow = authorize(
            &self.authorizer,
            &self.policy_set,
            &self.entity_store,
            entity,
            action,
            resource,
            context,
        );
        let r = decision_string(allow);
        proof {
            reveal_strlit("Allow");
            reveal_strlit("Deny");
            assert("Allow"@.len() != "Deny"@.len());
        }
        r
    }

    /// The checked form of `is_authorized`: parses each input first and
    /// answers `None`, instead of trapping, exactly when one of them is
    /// rejected.
    pub fn try_is_authorized(
        &self,
        entity: &str,
        action: &str,
        resource: &str,
        context: &str,
    ) -> (r: Option<String>)
        ensures
            r is Some <==> request_well_formed(entity@, action@, resource@, context@),
            r matches Some(s) ==> s@ == "Allow"@ || s@ == "Deny"@,
            r matches Some(s) ==> (s@ == "Allow"@ <==> decision_of(
                self.policy_set,
                self.entity_store,
                entity@,
                action@,
                resource@,
                context@,
            )),
    {
        let entity_ok = parse_entity_uid(entity).is_ok();
        let action_ok = parse_entity_uid(action).is_ok();
        let resource_ok = parse_entity_uid(resource).is_ok();
        let context_ok = parse_context(context).is_ok();
        if entity_ok && action_ok && resource_ok && context_ok {
            Some(self.is_authorized(entity, action, resource, context))
        } else {
            None
        }
    }

    /// Validates a policy text against a schema text, ignoring the engine
    /// state entirely: a pure operation over its two arguments. A rejected
    /// policy text short-circuits with `policy_error` set; a rejected
    /// schema with `schema_error` set; otherwise the validator runs and
    /// its findings are reported in order.
    pub fn validate(&self, policies_str: &str, schema_str: &str) -> (r: ValidationResult)
        ensures
            validate_outcome_ok(policies_str@, schema_str@, r@),
    {
        let pset = match parse_policy_set(policies_str) {
            Ok(pset) => pset,
            Err(e) => {
                return ValidationResult {
                    policy_error: Some(e),
                    schema_error: None,
                    validation_errors: Vec::new(),
                };
            },
        };
        let schema = match parse_schema(schema_str) {
            Ok(schema) => schema,
            Err(e) => {
                return ValidationResult {
                    schema_error: Some(e),
                    policy_error: None,
                    validation_errors: Vec::new(),
                };
            },
        };
        let ghost gschema = schema;
        let findings = run_validator(schema, &pset);
        let r = ValidationResult {
            schema_error: None,
            policy_error: None,
            validation_errors: findings,
        };
        proof {
            assert(r@.validation_errors =~= findings@.map_values(|e: ValidationError| e@));
            assert(parsed_policy_ids(policies_str@) == Some(policy_set_ids(pset))
                && findings_of(gschema, pset) == finding_locs(r@.validation_errors) && (forall|
                i: int,
            |
                0 <= i < r@.validation_errors.len() ==> policy_set_ids(pset).contains(
                    (#[trigger] r@.validation_errors[i]).location.policy_id,
                ) || policy_set_template_ids(pset).contains(
                    r@.validation_errors[i].location.policy_id,
                )));
            assert(forall|i: int|
                0 <= i < r@.validation_errors.len() ==> (((
                #[trigger] r@.validation_errors[i]).location.range_start) is Some
                    <==> r@.validation_errors[i].location.range_end is Some));
        }
        r
    }
}

/// The two decision texts, exactly: `Allow` for an allowing decision,
/// `Deny` otherwise.
pub fn decision_string(allow: bool) -> (r: String)
    ensures
        allow ==> r@ == "Allow"@,
        !allow ==> r@ == "Deny"@,
{
    if allow {
        String::from_str("Allow")
    } else {
        String::from_str("Deny")
    }
}

} // verus!
