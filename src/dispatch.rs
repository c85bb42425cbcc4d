//! The decisions of an export call, around the engine call itself.
//!
//! A worker resolves the export, hands its parameter kinds and the caller's
//! arguments to `prepare_call`, runs the engine with what comes back, and
//! hands the engine's outcome to `finish_call`. Either step may end the call
//! with a `CallFailure`, which travels back in the same reply as a success.
use vstd::prelude::*;

use crate::values::{
    decode_function_param_terms, decode_spec, encode_results, encode_spec,
    map_wasm_values_to_vals, guest_of, seq_result, ArgError, GuestValue, HostNumber, HostValue, ValKind,
    WasmValue,
};

verus! {

/// Why an export call failed.
#[derive(Clone, Debug)]
pub enum CallFailure {
    /// The instance exports no function of this name.
    ExportNotFound(String),
    /// The arguments do not fit the function's parameters.
    ArgumentError(ArgError),
    /// The guest trapped, or a host callback failed; the text says how.
    TrapOrHostError(String),
    /// A result has a kind the host cannot hold.
    UnsupportedResultKind(ValKind),
}

/// The arguments for the engine call, or the failure that ends the call
/// before it starts. `params` are the export's parameter kinds, `None` where
/// no function of that name is exported.
pub fn prepare_call(
    function_name: &String,
    params: &Option<Vec<ValKind>>,
    args: &Vec<HostValue>,
) -> (r: Result<Vec<GuestValue>, CallFailure>)
    ensures
        params is None ==> (match r {
            Err(CallFailure::ExportNotFound(n)) => n@ == function_name@,
            _ => false,
        }),
        params matches Some(p) ==> (match r {
            Ok(vals) => exists|ws: Seq<WasmValue>|
                decode_spec(p@, args@, true, Ok(ws)) && vals@ == ws.map_values(
                    |w: WasmValue| guest_of(w),
                ),
            Err(CallFailure::ArgumentError(e)) => decode_spec(p@, args@, true, Err(e)),
            _ => false,
        }),
{
    match params {
        None => Err(CallFailure::ExportNotFound(function_name.clone())),
        Some(p) => match decode_function_param_terms(p, args) {
            Ok(ws) => Ok(map_wasm_values_to_vals(ws.as_slice())),
            Err(e) => Err(CallFailure::ArgumentError(e)),
        },
    }
}

/// The reply for an engine call that ran: its results for the host, or the
/// failure. `outcome` is what the engine returned, a trap as its text.
pub fn finish_call(outcome: Result<Vec<GuestValue>, String>) -> (r: Result<
    Vec<HostNumber>,
    CallFailure,
>)
    ensures
        outcome matches Err(detail) ==> (match r {
            Err(CallFailure::TrapOrHostError(d)) => d@ == detail@,
            _ => false,
        }),
        outcome matches Ok(results) ==> (match r {
            Ok(hs) => encode_spec(results@, Ok(hs@)),
            Err(CallFailure::UnsupportedResultKind(k)) => encode_spec(results@, Err(k)),
            _ => false,
        }),
{
    match outcome {
        Err(detail) => Err(CallFailure::TrapOrHostError(detail)),
        Ok(results) => match encode_results(&results) {
            Ok(hs) => Ok(hs),
            Err(k) => Err(CallFailure::UnsupportedResultKind(k)),
        },
    }
}

} // verus!
