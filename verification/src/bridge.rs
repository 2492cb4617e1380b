//! The boundary surface: the function table the host drives. Each entry
//! point decodes its (address, length) inputs through the allocation
//! table, consumes or queries the engine state, and encodes its result
//! into a fresh handed-out buffer whose address and length come back as
//! one packed word. The table lives on an explicit context object the
//! host creates once and passes into every call; the host serializes the
//! calls itself, as the protocol demands.

use vstd::prelude::*;

verus! {

use vstd::multiset::Multiset;
use vstd::string::StrSliceExecFns;
use vstd::utf8::decode_utf8;
use vstd::utf8::encode_utf8;
use vstd::utf8::valid_utf8;
use crate::engine::CedarEngine;
use crate::engine::request_well_formed;
use crate::engine::validate_outcome_ok;
use crate::json::json_of_result;
use crate::marshal::decode_buffer;
use crate::marshal::lemma_pack_round_trip;
use crate::marshal::pack_ptr_len;
use crate::marshal::word_addr;
use crate::marshal::word_len;
use crate::memory::MemoryTable;
use crate::policy_api::decision_of;
use crate::policy_api::parse_context;
use crate::policy_api::parse_entity_uid;
use crate::policy_api::parsed_entity_uids;
use crate::policy_api::parsed_policy_ids;
use crate::validation::ValidationResultView;

/// The whole bridge: the shared-memory allocation table and the engine
/// state, together mediating every boundary call.
pub struct Bridge {
    pub memory: MemoryTable,
    pub engine: CedarEngine,
}

impl Bridge {
    /// The allocation table is well-formed.
    pub open spec fn wf(self) -> bool {
        self.memory.wf()
    }

    /// A well-formed input buffer: live, of the stated length, holding
    /// valid UTF-8. The protocol hands inputs over only in this shape;
    /// anything else is a fatal caller error.
    pub open spec fn text_arg(self, addr: u32, len: u32) -> bool {
        &&& self.memory.live_map().contains_key(addr)
        &&& self.memory.live_map()[addr].len() == len
        &&& valid_utf8(self.memory.live_map()[addr])
    }

    /// The text an input buffer holds.
    pub open spec fn text_at(self, addr: u32) -> Seq<char> {
        decode_utf8(self.memory.live_map()[addr])
    }

    /// A fresh bridge: empty allocation table, empty policy set, empty
    /// entity store.
    pub fn new() -> (r: Bridge)
        ensures
            r.wf(),
            r.memory.spec_next() == 1,
            r.memory.live_map() =~= Map::<u32, Seq<u8>>::empty(),
            r.memory.handed_map() =~= Map::<u32, Seq<u8>>::empty(),
            r.engine.policies() == Multiset::<Seq<char>>::empty(),
            r.engine.entities() == Multiset::<Seq<char>>::empty(),
    {
        Bridge { memory: MemoryTable::new(), engine: CedarEngine::new() }
    }

    /// Reserves a zeroed buffer for the host and returns its address.
    pub fn allocate(&mut self, size: u32) -> (addr: u32)
        requires
            old(self).wf(),
            old(self).memory.has_room(),
        ensures
            final(self).wf(),
            final(self).engine == old(self).engine,
            final(self).memory.spec_next() == old(self).memory.spec_next() + 1,
            addr != 0,
            !old(self).memory.live_map().contains_key(addr),
            !old(self).memory.handed_map().contains_key(addr),
            final(self).memory.live_map() =~= old(self).memory.live_map().insert(
                addr,
                crate::memory::zero_bytes(size),
            ),
            final(self).memory.handed_map() == old(self).memory.handed_map(),
    {
        self.memory.allocate(size)
    }

    /// Releases a live buffer. A dead address or a mismatched size is a
    /// fatal caller error under the protocol, so both are excluded here;
    /// `MemoryTable::try_deallocate` is the checked form.
    pub fn deallocate(&mut self, addr: u32, size: u32)
        requires
            old(self).wf(),
            old(self).memory.live_map().contains_key(addr),
            old(self).memory.live_map()[addr].len() == size,
        ensures
            final(self).wf(),
            final(self).engine == old(self).engine,
            final(self).memory.spec_next() == old(self).memory.spec_next(),
            final(self).memory.live_map() =~= old(self).memory.live_map().remove(addr),
            final(self).memory.handed_map() == old(self).memory.handed_map(),
    {
        self.memory.deallocate(addr, size)
    }

    /// Decodes the buffer as policy text and replaces the engine's policy
    /// set with the parsed set; rejected text leaves the set untouched,
    /// and the outcome does not cross the boundary either way.
    pub fn set_policies(&mut self, addr: u32, len: u32)
        requires
            old(self).wf(),
            old(self).text_arg(addr, len),
        ensures
            final(self).wf(),
            final(self).memory == old(self).memory,
            final(self).engine.entities() == old(self).engine.entities(),
            match parsed_policy_ids(old(self).text_at(addr)) {
                Some(ids) => final(self).engine.policies() == ids,
                None => final(self).engine.policies() == old(self).engine.policies(),
            },
    {
        let bytes = self.memory.read_buffer(addr, len);
        let text = decode_buffer(&bytes);
        let _ = self.engine.set_policies(text.as_str());
    }

    /// Decodes the buffer as an entity-record JSON array and replaces the
    /// engine's entity store with the parsed store; rejected JSON leaves
    /// the store untouched.
    pub fn set_entities(&mut self, addr: u32, len: u32)
        requires
            old(self).wf(),
            old(self).text_arg(addr, len),
        ensures
            final(self).wf(),
            final(self).memory == old(self).memory,
            final(self).engine.policies() == old(self).engine.policies(),
            match parsed_entity_uids(old(self).text_at(addr)) {
                Some(uids) => final(self).engine.entities() == uids,
                None => final(self).engine.entities() == old(self).engine.entities(),
            },
    {
        let bytes = self.memory.read_buffer(addr, len);
        let text = decode_buffer(&bytes);
        let _ = self.engine.set_entities(text.as_str());
    }

    /// Evaluates an authorization request read from four input buffers
    /// and hands the decision text back in a fresh buffer, its address
    /// and length packed into the returned word. Inputs the evaluation
    /// library's parsers reject are a fatal caller error and excluded;
    /// `try_is_authorized` is the checked form.
    pub fn is_authorized(
        &mut self,
        entity_addr: u32,
        entity_len: u32,
        action_addr: u32,
        action_len: u32,
        resource_addr: u32,
        resource_len: u32,
        context_addr: u32,
        context_len: u32,
    ) -> (r: u64)
        requires
            old(self).wf(),
            old(self).text_arg(entity_addr, entity_len),
            old(self).text_arg(action_addr, action_len),
            old(self).text_arg(resource_addr, resource_len),
            old(self).text_arg(context_addr, context_len),
            request_well_formed(
                old(self).text_at(entity_addr),
                old(self).text_at(action_addr),
                old(self).text_at(resource_addr),
                old(self).text_at(context_addr),
            ),
            old(self).memory.has_room(),
        ensures
            final(self).wf(),
            final(self).engine == old(self).engine,
            final(self).memory.spec_next() == old(self).memory.spec_next() + 1,
            final(self).memory.live_map() == old(self).memory.live_map(),
            !old(self).memory.handed_map().contains_key(word_addr(r)),
            !final(self).memory.live_map().contains_key(word_addr(r)),
            final(self).memory.handed_map() =~= old(self).memory.handed_map().insert(
                word_addr(r),
                final(self).memory.handed_map()[word_addr(r)],
            ),
            final(self).memory.handed_map()[word_addr(r)].len() == word_len(r),
            final(self).memory.handed_map()[word_addr(r)] == encode_utf8("Allow"@) || final(self).memory.handed_map()[word_addr(r)] == encode_utf8("Deny"@),
            final(self).memory.handed_map()[word_addr(r)] == encode_utf8("Allow"@)
                <==> decision_of(
                old(self).engine.policy_set,
                old(self).engine.entity_store,
                old(self).text_at(entity_addr),
                old(self).text_at(action_addr),
                old(self).text_at(resource_addr),
                old(self).text_at(context_addr),
            ),
    {
        let entity_bytes = self.memory.read_buffer(entity_addr, entity_len);
        let entity = decode_buffer(&entity_bytes);
        let action_bytes = self.memory.read_buffer(action_addr, action_len);
        let action = decode_buffer(&action_bytes);
        let resource_bytes = self.memory.read_buffer(resource_addr, resource_len);
        let resource = decode_buffer(&resource_bytes);
        let context_bytes = self.memory.read_buffer(context_addr, context_len);
        let context = decode_buffer(&context_bytes);
        let decision = self.engine.is_authorized(
            entity.as_str(),
            action.as_str(),
            resource.as_str(),
            context.as_str(),
        );
        let bytes = decision.as_str().as_bytes_vec();
        proof {
            reveal_strlit("Allow");
            reveal_strlit("Deny");
            assert(vstd::utf8::is_ascii_chars("Allow"@));
            assert(vstd::utf8::is_ascii_chars("Deny"@));
            vstd::utf8::is_ascii_chars_encode_utf8("Allow"@);
            vstd::utf8::is_ascii_chars_encode_utf8("Deny"@);
            assert(encode_utf8("Allow"@).len() == 5);
            assert(encode_utf8("Deny"@).len() == 4);
            assert(encode_utf8("Allow"@) != encode_utf8("Deny"@));
        }
        let len = bytes.len() as u32;
        let out_addr = self.memory.hand_out(bytes);
        let w = pack_ptr_len(out_addr, len);
        proof {
            lemma_pack_round_trip(out_addr, len);
        }
        w
    }

    /// The checked form of `is_authorized`: answers `None`, touching
    /// nothing, exactly when one of the four inputs is rejected by the
    /// evaluation library's parsers.
    pub fn try_is_authorized(
        &mut self,
        entity_addr: u32,
        entity_len: u32,
        action_addr: u32,
        action_len: u32,
        resource_addr: u32,
        resource_len: u32,
        context_addr: u32,
        context_len: u32,
    ) -> (r: Option<u64>)
        requires
            old(self).wf(),
            old(self).text_arg(entity_addr, entity_len),
            old(self).text_arg(action_addr, action_len),
            old(self).text_arg(resource_addr, resource_len),
            old(self).text_arg(context_addr, context_len),
            old(self).memory.has_room(),
        ensures
            final(self).wf(),
            final(self).engine == old(self).engine,
            final(self).memory.live_map() == old(self).memory.live_map(),
            r is Some <==> request_well_formed(
                old(self).text_at(entity_addr),
                old(self).text_at(action_addr),
                old(self).text_at(resource_addr),
                old(self).text_at(context_addr),
            ),
            r matches Some(w) ==> {
                &&& final(self).memory.spec_next() == old(self).memory.spec_next() + 1
                &&& !old(self).memory.handed_map().contains_key(word_addr(w))
                &&& !final(self).memory.live_map().contains_key(word_addr(w))
                &&& final(self).memory.handed_map()[word_addr(w)].len() == word_len(w)
                &&& (final(self).memory.handed_map()[word_addr(w)] == encode_utf8("Allow"@)
                    || final(self).memory.handed_map()[word_addr(w)] == encode_utf8("Deny"@))
                &&& (final(self).memory.handed_map()[word_addr(w)] == encode_utf8("Allow"@)
                    <==> decision_of(
                    old(self).engine.policy_set,
                    old(self).engine.entity_store,
                    old(self).text_at(entity_addr),
                    old(self).text_at(action_addr),
                    old(self).text_at(resource_addr),
                    old(self).text_at(context_addr),
                ))
            },
            r is None ==> final(self).memory == old(self).memory,
    {
        let entity_bytes = self.memory.read_buffer(entity_addr, entity_len);
        let entity = decode_buffer(&entity_bytes);
        let action_bytes = self.memory.read_buffer(action_addr, action_len);
        let action = decode_buffer(&action_bytes);
        let resource_bytes = self.memory.read_buffer(resource_addr, resource_len);
        let resource = decode_buffer(&resource_bytes);
        let context_bytes = self.memory.read_buffer(context_addr, context_len);
        let context = decode_buffer(&context_bytes);
        let entity_ok = parse_entity_uid(entity.as_str()).is_ok();
        let action_ok = parse_entity_uid(action.as_str()).is_ok();
        let resource_ok = parse_entity_uid(resource.as_str()).is_ok();
        let context_ok = parse_context(context.as_str()).is_ok();
        if entity_ok && action_ok && resource_ok && context_ok {
            Some(
                self.is_authorized(
                    entity_addr,
                    entity_len,
                    action_addr,
                    action_len,
                    resource_addr,
                    resource_len,
                    context_addr,
                    context_len,
                ),
            )
        } else {
            None
        }
    }

    /// Validates policy text against schema text, both read from input
    /// buffers, and hands the single-line JSON outcome back in a fresh
    /// buffer, its address and length packed into the returned word.
    /// `None` comes back only when the encoded document cannot fit the
    /// 32-bit length field of the packed word.
    pub fn validate(
        &mut self,
        policies_addr: u32,
        policies_len: u32,
        schema_addr: u32,
        schema_len: u32,
    ) -> (r: Option<u64>)
        requires
            old(self).wf(),
            old(self).text_arg(policies_addr, policies_len),
            old(self).text_arg(schema_addr, schema_len),
            old(self).memory.has_room(),
        ensures
            final(self).wf(),
            final(self).engine == old(self).engine,
            final(self).memory.live_map() == old(self).memory.live_map(),
            r matches Some(w) ==> final(self).memory.spec_next() == old(self).memory.spec_next()
                + 1 && !final(self).memory.live_map().contains_key(word_addr(w)),
            r matches Some(w) ==> exists|v: ValidationResultView|
                {
                    &&& #[trigger] validate_outcome_ok(
                        old(self).text_at(policies_addr),
                        old(self).text_at(schema_addr),
                        v,
                    )
                    &&& !old(self).memory.handed_map().contains_key(word_addr(w))
                    &&& final(self).memory.handed_map() =~= old(
                        self,
                    ).memory.handed_map().insert(word_addr(w), encode_utf8(json_of_result(v)))
                    &&& encode_utf8(json_of_result(v)).len() == word_len(w)
                },
            r is None ==> final(self).memory == old(self).memory && exists|
                v: ValidationResultView,
            |
                {
                    &&& #[trigger] validate_outcome_ok(
                        old(self).text_at(policies_addr),
                        old(self).text_at(schema_addr),
                        v,
                    )
                    &&& encode_utf8(json_of_result(v)).len() > u32::MAX
                },
    {
        let policies_bytes = self.memory.read_buffer(policies_addr, policies_len);
        let policies = decode_buffer(&policies_bytes);
        let schema_bytes = self.memory.read_buffer(schema_addr, schema_len);
        let schema = decode_buffer(&schema_bytes);
        let outcome = self.engine.validate(policies.as_str(), schema.as_str());
        let json = outcome.to_single_line_json();
        let bytes = json.as_str().as_bytes_vec();
        if bytes.len() > u32::MAX as usize {
            proof {
                assert(validate_outcome_ok(
                    old(self).text_at(policies_addr),
                    old(self).text_at(schema_addr),
                    outcome@,
                ) && encode_utf8(json_of_result(outcome@)).len() > u32::MAX);
            }
            return None;
        }
        let len = bytes.len() as u32;
        let out_addr = self.memory.hand_out(bytes);
        let w = pack_ptr_len(out_addr, len);
        proof {
            lemma_pack_round_trip(out_addr, len);
            assert(validate_outcome_ok(
                old(self).text_at(policies_addr),
                old(self).text_at(schema_addr),
                outcome@,
            ) && !old(self).memory.handed_map().contains_key(word_addr(w))
                && self.memory.handed_map() =~= old(self).memory.handed_map().insert(
                word_addr(w),
                encode_utf8(json_of_result(outcome@)),
            ) && encode_utf8(json_of_result(outcome@)).len() == word_len(w));
        }
        Some(w)
    }
}

} // verus!
