//! The caller-supplied key payload.
//!
//! The handler is deliberately schema-agnostic about key shape: any
//! well-formed key/value object is accepted, and its entries are forwarded
//! unmodified as the store's key attributes. Anything else — a bare scalar,
//! an array — fails closed before the store is touched.

use vstd::prelude::*;

use crate::json::{entries_model, lemma_entries_model, JsonModel, JsonValue};
use vstd::pervasive::unreached;

verus! {

/// The key attributes of the record to delete: an open, ordered mapping from
/// field name to opaque value, exactly as the caller supplied it.
#[derive(Debug, PartialEq)]
pub struct DeleteKeyPayload {
    pub entries: Vec<(String, JsonValue)>,
}

impl View for DeleteKeyPayload {
    type V = Seq<(Seq<char>, JsonModel)>;

    open spec fn view(&self) -> Seq<(Seq<char>, JsonModel)> {
        entries_model(self.entries@)
    }
}

/// Why the caller's input failed to decode.
#[derive(Clone, Copy, PartialEq, Eq, Structural, Debug)]
pub enum PayloadFault {
    /// The input is not a key/value object.
    NotAnObject,
}

/// The decoding rule for the caller's input: an object's entries are taken
/// as the key attributes, unmodified and in order; any other document is
/// rejected.
pub open spec fn parse_payload(v: JsonModel) -> Result<Seq<(Seq<char>, JsonModel)>, PayloadFault> {
    match v {
        JsonModel::Object(entries) => Ok(entries),
        _ => Err(PayloadFault::NotAnObject),
    }
}

/// The model of a decoding result.
pub open spec fn payload_result_model(res: Result<DeleteKeyPayload, PayloadFault>) -> Result<
    Seq<(Seq<char>, JsonModel)>,
    PayloadFault,
> {
    match res {
        Ok(p) => Ok(p@),
        Err(f) => Err(f),
    }
}

/// Decodes the caller's input, failing closed: the result is exactly what
/// [`parse_payload`] says for the document's model.
pub fn decode_input(v: &JsonValue) -> (res: Result<DeleteKeyPayload, PayloadFault>)
    ensures
        payload_result_model(res) == parse_payload(v@),
{
    match v {
        JsonValue::Object(_) => {
            let copy = v.clone();
            match copy {
                JsonValue::Object(entries) => Ok(DeleteKeyPayload { entries }),
                // the copy has the original's model, so it is an object too
                _ => unreached(),
            }
        },
        _ => Err(PayloadFault::NotAnObject),
    }
}

/// Decoding passes every field of a well-formed mapping through unchanged:
/// the payload's model is the input object's own entry sequence.
pub proof fn lemma_payload_passthrough(v: JsonValue, entries: Vec<(String, JsonValue)>)
    requires
        v == JsonValue::Object(entries),
    ensures
        parse_payload(v@) == Ok::<_, PayloadFault>(entries_model(entries@)),
        entries_model(entries@).len() == entries@.len(),
        forall|i: int| 0 <= i < entries@.len() ==> entries_model(entries@)[i] == (
            entries@[i].0@,
            crate::json::json_model(entries@[i].1),
        ),
{
    lemma_entries_model(entries@);
}

} // verus!
