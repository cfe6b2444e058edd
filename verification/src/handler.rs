//! The delete handler's decisions.
//!
//! An invocation runs in three strictly ordered phases: decode the context's
//! configuration, decode the caller's key payload, and gate on the
//! store-client capability. Only when all three succeed does a
//! [`DeleteRequest`] exist at all, so the runtime adapter cannot reach the
//! store on a failed precondition. After the adapter has issued the one
//! delete call, [`complete`] turns the store's outcome into the handler's
//! response, propagating a store failure verbatim.

use vstd::prelude::*;

use crate::config::{decode_config, parse_config, ConfigFault};
use crate::json::{JsonModel, JsonValue};
use crate::payload::{decode_input, parse_payload, DeleteKeyPayload, PayloadFault};

verus! {

/// Whether the execution context can hand out an authenticated store
/// client. The capability is possession, not data: the credentials
/// themselves stay with the invoking runtime.
#[derive(Clone, Copy, PartialEq, Eq, Structural, Debug)]
pub enum StoreCapability {
    Available,
    Unavailable,
}

/// The one store mutation an invocation may issue: delete the record whose
/// key attributes are `key` from the table named `table_name`.
#[derive(Debug, PartialEq)]
pub struct DeleteRequest {
    pub table_name: String,
    pub key: DeleteKeyPayload,
}

/// The mathematical shape of a delete request.
#[verifier::ext_equal]
pub struct RequestModel {
    pub table_name: Seq<char>,
    pub key: Seq<(Seq<char>, JsonModel)>,
}

impl View for DeleteRequest {
    type V = RequestModel;

    open spec fn view(&self) -> RequestModel {
        RequestModel { table_name: self.table_name@, key: self.key@ }
    }
}

/// A typed failure: the kind distinguishes configuration problems from
/// malformed requests, a missing capability, and store-side failures.
#[derive(Debug, PartialEq)]
pub enum HandlerError {
    /// The context's configuration did not decode.
    ConfigDecode(ConfigFault),
    /// The caller's input did not decode.
    InputDecode(PayloadFault),
    /// No authenticated store access is available.
    CapabilityMissing,
    /// The delete call itself failed; the store's own description is carried
    /// verbatim.
    StoreOperation(String),
}

/// The mathematical shape of a failure.
pub enum ErrorModel {
    ConfigDecode(ConfigFault),
    InputDecode(PayloadFault),
    CapabilityMissing,
    StoreOperation(Seq<char>),
}

impl View for HandlerError {
    type V = ErrorModel;

    open spec fn view(&self) -> ErrorModel {
        match self {
            HandlerError::ConfigDecode(f) => ErrorModel::ConfigDecode(*f),
            HandlerError::InputDecode(f) => ErrorModel::InputDecode(*f),
            HandlerError::CapabilityMissing => ErrorModel::CapabilityMissing,
            HandlerError::StoreOperation(m) => ErrorModel::StoreOperation(m@),
        }
    }
}

/// The short name of a failure's kind.
pub open spec fn error_code(e: ErrorModel) -> Seq<char> {
    match e {
        ErrorModel::ConfigDecode(_) => "DECODE_ERROR"@,
        ErrorModel::InputDecode(_) => "DECODE_ERROR"@,
        ErrorModel::CapabilityMissing => "NO_SDK_CONFIG"@,
        ErrorModel::StoreOperation(_) => "STORE_OPERATION_ERROR"@,
    }
}

impl HandlerError {
    /// The failure's kind, as a short name the invoking runtime reports.
    pub fn code(&self) -> (r: String)
        ensures
            r@ == error_code(self@),
    {
        match self {
            HandlerError::ConfigDecode(_) => "DECODE_ERROR".to_owned(),
            HandlerError::InputDecode(_) => "DECODE_ERROR".to_owned(),
            HandlerError::CapabilityMissing => "NO_SDK_CONFIG".to_owned(),
            HandlerError::StoreOperation(_) => "STORE_OPERATION_ERROR".to_owned(),
        }
    }

    /// A human-readable explanation. A store failure's own description is
    /// returned verbatim.
    pub fn message(&self) -> (r: String)
        ensures
            r@ == error_message(self@),
    {
        match self {
            HandlerError::ConfigDecode(_) => "Handler context data could not be decoded".to_owned(),
            HandlerError::InputDecode(_) => "Input is not a key/value mapping".to_owned(),
            HandlerError::CapabilityMissing => "No aws sdk config found in handler context"
                .to_owned(),
            HandlerError::StoreOperation(m) => m.clone(),
        }
    }
}

/// The explanation that goes with each failure kind.
pub open spec fn error_message(e: ErrorModel) -> Seq<char> {
    match e {
        ErrorModel::ConfigDecode(_) => "Handler context data could not be decoded"@,
        ErrorModel::InputDecode(_) => "Input is not a key/value mapping"@,
        ErrorModel::CapabilityMissing => "No aws sdk config found in handler context"@,
        ErrorModel::StoreOperation(m) => m,
    }
}

/// The success acknowledgement.
#[derive(Debug, PartialEq)]
pub struct Response {
    pub message: String,
}

impl View for Response {
    type V = Seq<char>;

    open spec fn view(&self) -> Seq<char> {
        self.message@
    }
}

/// The fixed confirmatory message of a successful delete.
pub fn success_response() -> (r: Response)
    ensures
        r@ == "Successfully deleted record"@,
{
    Response { message: "Successfully deleted record".to_owned() }
}

/// What the store reported for the one delete call. Deleting an absent key
/// is a `Deleted` outcome, not a failure: the store treats delete-of-absent
/// as success.
#[derive(Debug, PartialEq)]
pub enum StoreOutcome {
    Deleted,
    Failed(String),
}

/// The mathematical shape of a store outcome.
pub enum OutcomeModel {
    Deleted,
    Failed(Seq<char>),
}

impl View for StoreOutcome {
    type V = OutcomeModel;

    open spec fn view(&self) -> OutcomeModel {
        match self {
            StoreOutcome::Deleted => OutcomeModel::Deleted,
            StoreOutcome::Failed(m) => OutcomeModel::Failed(m@),
        }
    }
}

/// What preparation answers. The configuration has to decode, the input
/// has to decode, and the capability has to be present, in that order; the
/// first failing phase settles the error. When all three pass, the result
/// is a request that carries the configured table name together with the
/// caller's whole key mapping.
pub open spec fn prepare_spec(
    config: JsonModel,
    input: JsonModel,
    capability: StoreCapability,
) -> Result<RequestModel, ErrorModel> {
    match parse_config(config) {
        Err(f) => Err(ErrorModel::ConfigDecode(f)),
        Ok(c) => match parse_payload(input) {
            Err(f) => Err(ErrorModel::InputDecode(f)),
            Ok(key) => match capability {
                StoreCapability::Unavailable => Err(ErrorModel::CapabilityMissing),
                StoreCapability::Available => Ok(
                    RequestModel { table_name: c.table_name, key },
                ),
            },
        },
    }
}

/// The model of a preparation result.
pub open spec fn prepare_result_model(res: Result<DeleteRequest, HandlerError>) -> Result<
    RequestModel,
    ErrorModel,
> {
    match res {
        Ok(q) => Ok(q@),
        Err(e) => Err(e@),
    }
}

/// Decodes and validates everything an invocation needs before the store
/// may be touched. The result is exactly what [`prepare_spec`] says; in
/// particular, a request exists only when both documents decoded and the
/// capability is present, so zero mutations happen on a failed
/// precondition.
pub fn prepare(config: &JsonValue, input: &JsonValue, capability: StoreCapability) -> (res: Result<
    DeleteRequest,
    HandlerError,
>)
    ensures
        prepare_result_model(res) == prepare_spec(config@, input@, capability),
{
    let cfg = match decode_config(config) {
        Ok(c) => c,
        Err(f) => {
            return Err(HandlerError::ConfigDecode(f));
        },
    };
    let key = match decode_input(input) {
        Ok(p) => p,
        Err(f) => {
            return Err(HandlerError::InputDecode(f));
        },
    };
    match capability {
        StoreCapability::Unavailable => Err(HandlerError::CapabilityMissing),
        StoreCapability::Available => Ok(DeleteRequest { table_name: cfg.table_name, key }),
    }
}

/// The model of a completion result.
pub open spec fn complete_result_model(res: Result<Response, HandlerError>) -> Result<
    Seq<char>,
    ErrorModel,
> {
    match res {
        Ok(r) => Ok(r@),
        Err(e) => Err(e@),
    }
}

/// What the handler answers for each store outcome: success earns the fixed
/// acknowledgement, and a failure is passed on verbatim, never swallowed or
/// reinterpreted.
pub open spec fn complete_spec(outcome: OutcomeModel) -> Result<Seq<char>, ErrorModel> {
    match outcome {
        OutcomeModel::Deleted => Ok("Successfully deleted record"@),
        OutcomeModel::Failed(m) => Err(ErrorModel::StoreOperation(m)),
    }
}

/// Turns the store's outcome for the one delete call into the handler's
/// response. The result is exactly what [`complete_spec`] says.
pub fn complete(outcome: StoreOutcome) -> (res: Result<Response, HandlerError>)
    ensures
        complete_result_model(res) == complete_spec(outcome@),
{
    match outcome {
        StoreOutcome::Deleted => Ok(success_response()),
        StoreOutcome::Failed(m) => Err(HandlerError::StoreOperation(m)),
    }
}

/// One whole invocation, given the outcome the store would report for the
/// prepared request: preparation failures abort before the store is
/// touched; otherwise the invocation answers for the store's outcome.
pub open spec fn handle_spec(
    config: JsonModel,
    input: JsonModel,
    capability: StoreCapability,
    outcome: OutcomeModel,
) -> Result<Seq<char>, ErrorModel> {
    match prepare_spec(config, input, capability) {
        Err(e) => Err(e),
        Ok(_) => complete_spec(outcome),
    }
}

} // verus!
