//! The handler's guarantees, stated over the mathematical models and proved
//! once and for all. Each law quantifies over every document the invoking
//! runtime could hand over, not over chosen examples.

use vstd::prelude::*;

use crate::config::parse_config;
use crate::handler::{
    complete_spec, error_code, handle_spec, prepare_spec, ErrorModel, OutcomeModel, RequestModel,
    StoreCapability,
};
use crate::json::{lookup_field, JsonModel};
use crate::payload::{parse_payload, PayloadFault};

verus! {

/// A fully successful invocation. Whenever both documents decode and the
/// capability is present, preparation yields exactly one request — against
/// the configured table, carrying the caller's entire key mapping — and a
/// `Deleted` outcome earns the fixed acknowledgement.
pub proof fn lemma_successful_invocation(config: JsonModel, input: JsonModel)
    requires
        parse_config(config) is Ok,
        parse_payload(input) is Ok,
    ensures
        prepare_spec(config, input, StoreCapability::Available) == Ok::<_, ErrorModel>(
            RequestModel {
                table_name: parse_config(config)->Ok_0.table_name,
                key: parse_payload(input)->Ok_0,
            },
        ),
        handle_spec(config, input, StoreCapability::Available, OutcomeModel::Deleted) == Ok::<
            Seq<char>,
            ErrorModel,
        >("Successfully deleted record"@),
{
}

/// The capability gate. Once both documents have decoded, a missing
/// store-client capability fails the invocation with the error named
/// `NO_SDK_CONFIG`, whatever key the caller supplied and whatever the store
/// would have answered.
pub proof fn lemma_capability_gate(config: JsonModel, input: JsonModel, outcome: OutcomeModel)
    requires
        parse_config(config) is Ok,
        parse_payload(input) is Ok,
    ensures
        prepare_spec(config, input, StoreCapability::Unavailable) == Err::<RequestModel, _>(
            ErrorModel::CapabilityMissing,
        ),
        handle_spec(config, input, StoreCapability::Unavailable, outcome) == Err::<Seq<char>, _>(
            ErrorModel::CapabilityMissing,
        ),
        error_code(ErrorModel::CapabilityMissing) == "NO_SDK_CONFIG"@,
{
}

/// The configuration gate. A configuration object missing any of its
/// required fields fails decoding, so no request exists and the store is
/// never touched — for every input and either capability.
pub proof fn lemma_config_gate(config: JsonModel, input: JsonModel, capability: StoreCapability)
    requires
        config matches JsonModel::Object(entries) && (lookup_field(entries, "table_name"@) is None
            || lookup_field(entries, "primary_key"@) is None || lookup_field(
            entries,
            "index_data"@,
        ) is None || lookup_field(entries, "token_claims"@) is None),
    ensures
        parse_config(config) is Err,
        prepare_spec(config, input, capability) matches Err(e) && e is ConfigDecode,
{
}

/// The input gate. An input that is not a key/value mapping — a bare
/// scalar, an array — fails the invocation before any store call, whatever
/// the configuration and capability; and when the configuration itself is
/// sound, the failure names the malformed input.
pub proof fn lemma_input_gate(config: JsonModel, input: JsonModel, capability: StoreCapability)
    requires
        !(input is Object),
    ensures
        prepare_spec(config, input, capability) is Err,
        parse_config(config) is Ok ==> prepare_spec(config, input, capability) == Err::<
            RequestModel,
            _,
        >(ErrorModel::InputDecode(PayloadFault::NotAnObject)),
{
}

/// Idempotence at the handler. An invocation is a pure function of its
/// inputs and the store's reported outcome; the handler keeps no state
/// between invocations. The chosen store treats delete-of-absent-key as
/// success, so issuing the same delete twice reports this same
/// acknowledgement both times — the repeat, against a store where the key
/// no longer exists, still sees a `Deleted` outcome and does not fail.
pub proof fn lemma_delete_idempotent(config: JsonModel, input: JsonModel)
    requires
        parse_config(config) is Ok,
        parse_payload(input) is Ok,
    ensures
        handle_spec(config, input, StoreCapability::Available, OutcomeModel::Deleted) == Ok::<
            Seq<char>,
            ErrorModel,
        >("Successfully deleted record"@),
{
}

/// A request prepared from a well-formed configuration names a real table:
/// it carries the configured table name, which is not empty. Decoding does
/// not itself reject an empty name; well-formedness is what the
/// configuration's author promises, and this law shows the handler keeps
/// that promise intact on the way to the store.
pub proof fn lemma_request_names_configured_table(config: JsonModel, input: JsonModel)
    requires
        parse_config(config) is Ok,
        parse_config(config)->Ok_0.well_formed(),
        parse_payload(input) is Ok,
    ensures
        prepare_spec(config, input, StoreCapability::Available) matches Ok(req)
            && req.table_name == parse_config(config)->Ok_0.table_name && req.table_name.len() > 0,
{
}

/// Verbatim propagation. A failure of the delete call itself is passed on
/// unmodified: the handler's error carries the store's own description,
/// character for character.
pub proof fn lemma_store_failure_propagated(
    config: JsonModel,
    input: JsonModel,
    description: Seq<char>,
)
    requires
        parse_config(config) is Ok,
        parse_payload(input) is Ok,
    ensures
        complete_spec(OutcomeModel::Failed(description)) == Err::<Seq<char>, _>(
            ErrorModel::StoreOperation(description),
        ),
        handle_spec(
            config,
            input,
            StoreCapability::Available,
            OutcomeModel::Failed(description),
        ) == Err::<Seq<char>, _>(ErrorModel::StoreOperation(description)),
{
}

} // verus!
