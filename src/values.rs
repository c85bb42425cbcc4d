//! Value marshalling between WebAssembly numbers and the host's dynamic values.
//!
//! Floats never appear as floating-point numbers here: the guest ABI carries them
//! as raw bit patterns, and so does this module.
use vstd::prelude::*;

verus! {

/// The kinds of value a WebAssembly function signature can name.
#[derive(Clone, Copy, Debug, PartialEq, Eq, Structural)]
pub enum ValKind {
    I32,
    I64,
    F32,
    F64,
    V128,
    FuncRef,
    ExternRef,
}

/// A value handed to the guest: integers as they are, floats as raw bits.
#[derive(Clone, Copy, Debug, PartialEq, Eq, Structural)]
pub enum WasmValue {
    I32(i32),
    I64(i64),
    F32(u32),
    F64(u64),
}

/// A value produced by the guest, of any kind the engine knows.
#[derive(Clone, Copy, Debug, PartialEq, Eq, Structural)]
pub enum GuestValue {
    I32(i32),
    I64(i64),
    F32(u32),
    F64(u64),
    V128(u128),
    FuncRef,
    ExternRef,
}

/// A dynamic value of the host, as far as marshalling looks at it.
///
/// A host float is a double; `narrowed` holds the same number rounded to
/// single precision (an infinity where it is out of that range).
#[derive(Clone, Copy, Debug, PartialEq, Eq, Structural)]
pub enum HostValue {
    Integer(i128),
    Float { bits: u64, narrowed: u32 },
    NonNumber,
}

/// A number handed to the host: an integer, a double by its bits, or a
/// single-precision float by its bits, which the host holds widened to a
/// double (exactly, as every single-precision value is a double).
#[derive(Clone, Copy, Debug, PartialEq, Eq, Structural)]
pub enum HostNumber {
    Integer(i128),
    Double(u64),
    Single(u32),
}

/// Why a list of host values could not be decoded against a signature.
#[derive(Clone, Copy, Debug, PartialEq, Eq, Structural)]
pub enum ArgError {
    /// The number of values differs from the number of expected kinds.
    ArityMismatch { expected: usize, given: usize },
    /// The value at this 1-based position does not fit its expected kind.
    TypeMismatch(usize),
}

/// A result holding a vector, seen as a result holding its sequence.
pub open spec fn seq_result<T, E>(r: Result<Vec<T>, E>) -> Result<Seq<T>, E> {
    match r {
        Ok(v) => Ok(v@),
        Err(e) => Err(e),
    }
}

/// A single-precision bit pattern is finite unless its exponent is all ones.
pub open spec fn f32_bits_finite(b: u32) -> bool {
    (b >> 23u32) & 0xffu32 != 0xffu32
}

/// The value a host value decodes to at kind `k`, if it fits.
/// `strict` rejects non-finite single-precision floats.
pub open spec fn decode_one(k: ValKind, v: HostValue, strict: bool) -> Option<WasmValue> {
    match (k, v) {
        (ValKind::I32, HostValue::Integer(n)) => if i32::MIN <= n <= i32::MAX {
            Some(WasmValue::I32(n as i32))
        } else {
            None
        },
        (ValKind::I64, HostValue::Integer(n)) => if i64::MIN <= n <= i64::MAX {
            Some(WasmValue::I64(n as i64))
        } else {
            None
        },
        (ValKind::F32, HostValue::Float { narrowed, .. }) => if !strict || f32_bits_finite(
            narrowed,
        ) {
            Some(WasmValue::F32(narrowed))
        } else {
            None
        },
        (ValKind::F64, HostValue::Float { bits, .. }) => Some(WasmValue::F64(bits)),
        _ => None,
    }
}

/// `r` is the outcome of decoding `vals` against `kinds`: an arity error
/// first, else the first value that does not fit, else every decoded value.
pub open spec fn decode_spec(
    kinds: Seq<ValKind>,
    vals: Seq<HostValue>,
    strict: bool,
    r: Result<Seq<WasmValue>, ArgError>,
) -> bool {
    if kinds.len() != vals.len() {
        r == Err::<Seq<WasmValue>, ArgError>(
            ArgError::ArityMismatch { expected: kinds.len() as usize, given: vals.len() as usize },
        )
    } else {
        match r {
            Ok(out) => out.len() == kinds.len() && forall|i: int|
                0 <= i < kinds.len() ==> decode_one(kinds[i], vals[i], strict) == Some(
                    #[trigger] out[i],
                ),
            Err(ArgError::TypeMismatch(n)) => 1 <= n <= kinds.len() && decode_one(
                kinds[n - 1],
                vals[n - 1],
                strict,
            ) is None && forall|j: int|
                0 <= j < n - 1 ==> (#[trigger] decode_one(kinds[j], vals[j], strict)) is Some,
            Err(_) => false,
        }
    }
}

/// The kind of a guest value.
pub open spec fn kind_of(g: GuestValue) -> ValKind {
    match g {
        GuestValue::I32(_) => ValKind::I32,
        GuestValue::I64(_) => ValKind::I64,
        GuestValue::F32(_) => ValKind::F32,
        GuestValue::F64(_) => ValKind::F64,
        GuestValue::V128(_) => ValKind::V128,
        GuestValue::FuncRef => ValKind::FuncRef,
        GuestValue::ExternRef => ValKind::ExternRef,
    }
}

/// The host number for a guest value: integers as they are, floats as
/// floats of the same precision and bits. Vectors and references have none.
pub open spec fn encode_one(g: GuestValue) -> Option<HostNumber> {
    match g {
        GuestValue::I32(n) => Some(HostNumber::Integer(n as i128)),
        GuestValue::I64(n) => Some(HostNumber::Integer(n as i128)),
        GuestValue::F32(b) => Some(HostNumber::Single(b)),
        GuestValue::F64(b) => Some(HostNumber::Double(b)),
        _ => None,
    }
}

/// `r` is the outcome of encoding `gs`: the kind of the first value that has
/// no host form, else every encoded value.
pub open spec fn encode_spec(gs: Seq<GuestValue>, r: Result<Seq<HostNumber>, ValKind>) -> bool {
    match r {
        Ok(out) => out.len() == gs.len() && forall|i: int|
            0 <= i < gs.len() ==> encode_one(gs[i]) == Some(#[trigger] out[i]),
        Err(k) => exists|i: int|
            0 <= i < gs.len() && #[trigger] encode_one(gs[i]) is None && kind_of(gs[i]) == k
                && forall|j: int| 0 <= j < i ==> (#[trigger] encode_one(gs[j])) is Some,
    }
}

/// The guest value that carries a decoded value.
pub open spec fn guest_of(w: WasmValue) -> GuestValue {
    match w {
        WasmValue::I32(n) => GuestValue::I32(n),
        WasmValue::I64(n) => GuestValue::I64(n),
        WasmValue::F32(b) => GuestValue::F32(b),
        WasmValue::F64(b) => GuestValue::F64(b),
    }
}

/// The number a host value is at kind `k`: the integer itself, or the float
/// at the precision of `k`.
pub open spec fn host_number(k: ValKind, v: HostValue) -> HostNumber {
    match v {
        HostValue::Integer(n) => HostNumber::Integer(n),
        HostValue::Float { bits, narrowed } => if k is F32 {
            HostNumber::Single(narrowed)
        } else {
            HostNumber::Double(bits)
        },
        HostValue::NonNumber => HostNumber::Integer(0),
    }
}

/// A host value the host holds for a number it was handed: the integer, or
/// a float with those bits at that precision.
pub open spec fn stands_for(v: HostValue, h: HostNumber) -> bool {
    match (v, h) {
        (HostValue::Integer(n), HostNumber::Integer(m)) => n == m,
        (HostValue::Float { bits, .. }, HostNumber::Double(b)) => bits == b,
        (HostValue::Float { narrowed, .. }, HostNumber::Single(b)) => narrowed == b,
        _ => false,
    }
}

/// Decoding host values and encoding the guest values they became hands the
/// host back the numbers it gave: integers exactly, doubles with the same
/// bits, and single-precision values with the bits the guest received.
pub proof fn lemma_decode_encode_round_trip(
    kinds: Seq<ValKind>,
    vals: Seq<HostValue>,
    strict: bool,
    ws: Seq<WasmValue>,
)
    requires
        decode_spec(kinds, vals, strict, Ok(ws)),
    ensures
        encode_spec(
            ws.map_values(|w: WasmValue| guest_of(w)),
            Ok(Seq::new(kinds.len(), |i: int| host_number(kinds[i], vals[i]))),
        ),
        forall|i: int|
            0 <= i < kinds.len() ==> stands_for(vals[i], #[trigger] host_number(kinds[i], vals[i])),
{
    let gs = ws.map_values(|w: WasmValue| guest_of(w));
    let hs = Seq::new(kinds.len(), |i: int| host_number(kinds[i], vals[i]));
    assert forall|i: int| 0 <= i < gs.len() implies encode_one(gs[i]) == Some(#[trigger] hs[i]) by {
        assert(decode_one(kinds[i], vals[i], strict) == Some(ws[i]));
    }
    assert forall|i: int| 0 <= i < kinds.len() implies stands_for(
        vals[i],
        #[trigger] host_number(kinds[i], vals[i]),
    ) by {
        assert(decode_one(kinds[i], vals[i], strict) == Some(ws[i]));
    }
}

/// A guest number handed to the host and given back, as any host value that
/// stands for it, decodes at its own kind to the same guest value.
pub proof fn lemma_encode_decode_round_trip(g: GuestValue, h: HostNumber, v: HostValue)
    requires
        encode_one(g) == Some(h),
        stands_for(v, h),
    ensures
        decode_one(kind_of(g), v, false) matches Some(w) && guest_of(w) == g,
{
}

/// An arity mismatch is reported whatever the values are, before any of
/// them is looked at.
pub proof fn lemma_arity_checked_first(
    kinds: Seq<ValKind>,
    vals: Seq<HostValue>,
    strict: bool,
    r: Result<Seq<WasmValue>, ArgError>,
)
    requires
        kinds.len() != vals.len(),
        decode_spec(kinds, vals, strict, r),
    ensures
        r == Err::<Seq<WasmValue>, ArgError>(
            ArgError::ArityMismatch { expected: kinds.len() as usize, given: vals.len() as usize },
        ),
{
}

/// With matching arity, decoding fails at the 1-based position of the first
/// value that does not fit its kind.
pub proof fn lemma_first_offending_argument(
    kinds: Seq<ValKind>,
    vals: Seq<HostValue>,
    strict: bool,
    r: Result<Seq<WasmValue>, ArgError>,
    i: int,
)
    requires
        kinds.len() == vals.len(),
        0 <= i < kinds.len(),
        decode_one(kinds[i], vals[i], strict) is None,
        forall|j: int| 0 <= j < i ==> (#[trigger] decode_one(kinds[j], vals[j], strict)) is Some,
        decode_spec(kinds, vals, strict, r),
    ensures
        r == Err::<Seq<WasmValue>, ArgError>(ArgError::TypeMismatch((i + 1) as usize)),
{
    match r {
        Ok(out) => {
            assert(decode_one(kinds[i], vals[i], strict) == Some(out[i]));
        },
        Err(ArgError::TypeMismatch(n)) => {
            if n - 1 < i {
                assert(decode_one(kinds[n - 1], vals[n - 1], strict) is Some);
            } else if n - 1 > i {
                assert(decode_one(kinds[i], vals[i], strict) is Some);
            }
        },
        Err(_) => {},
    }
}

/// A float that is not finite at single precision is refused as a
/// single-precision argument, and taken as a single-precision callback
/// result, with its bits unchanged.
pub proof fn lemma_non_finite_single_asymmetry(
    bits: u64,
    narrowed: u32,
    r_arg: Result<Seq<WasmValue>, ArgError>,
    r_result: Result<Seq<WasmValue>, ArgError>,
)
    requires
        !f32_bits_finite(narrowed),
        decode_spec(
            seq![ValKind::F32],
            seq![HostValue::Float { bits, narrowed }],
            true,
            r_arg,
        ),
        decode_spec(
            seq![ValKind::F32],
            seq![HostValue::Float { bits, narrowed }],
            false,
            r_result,
        ),
    ensures
        decode_one(ValKind::F32, HostValue::Float { bits, narrowed }, true) is None,
        decode_one(ValKind::F32, HostValue::Float { bits, narrowed }, false) == Some(
            WasmValue::F32(narrowed),
        ),
        r_arg == Err::<Seq<WasmValue>, ArgError>(ArgError::TypeMismatch(1)),
        r_result == Ok::<Seq<WasmValue>, ArgError>(seq![WasmValue::F32(narrowed)]),
{
    let v = HostValue::Float { bits, narrowed };
    lemma_first_offending_argument(seq![ValKind::F32], seq![v], true, r_arg, 0);
    if let Ok(out) = r_result {
        assert(decode_one(seq![ValKind::F32][0], seq![v][0], false) == Some(out[0]));
        assert(out =~= seq![WasmValue::F32(narrowed)]);
    }
}

/// Whether a single-precision bit pattern is a finite number.
pub fn is_finite_f32_bits(b: u32) -> (r: bool)
    ensures
        r == f32_bits_finite(b),
{
    (b >> 23u32) & 0xffu32 != 0xffu32
}

/// Decodes one host value against kind `k`.
pub fn decode_value(k: ValKind, v: HostValue, strict: bool) -> (r: Option<WasmValue>)
    ensures
        r == decode_one(k, v, strict),
{
    match (k, v) {
        (ValKind::I32, HostValue::Integer(n)) => {
            if i32::MIN as i128 <= n && n <= i32::MAX as i128 {
                Some(WasmValue::I32(n as i32))
            } else {
                None
            }
        },
        (ValKind::I64, HostValue::Integer(n)) => {
            if i64::MIN as i128 <= n && n <= i64::MAX as i128 {
                Some(WasmValue::I64(n as i64))
            } else {
                None
            }
        },
        (ValKind::F32, HostValue::Float { narrowed, .. }) => {
            if !strict || is_finite_f32_bits(narrowed) {
                Some(WasmValue::F32(narrowed))
            } else {
                None
            }
        },
        (ValKind::F64, HostValue::Float { bits, .. }) => Some(WasmValue::F64(bits)),
        _ => None,
    }
}

/// Decodes `given` against `kinds`, rejecting non-finite values for
/// single-precision kinds when `strict`.
pub fn decode_values(kinds: &Vec<ValKind>, given: &Vec<HostValue>, strict: bool) -> (r: Result<
    Vec<WasmValue>,
    ArgError,
>)
    ensures
        decode_spec(kinds@, given@, strict, seq_result(r)),
{
    if kinds.len() != given.len() {
        return Err(ArgError::ArityMismatch { expected: kinds.len(), given: given.len() });
    }
    let mut out: Vec<WasmValue> = Vec::with_capacity(kinds.len());
    let mut i: usize = 0;
    while i < kinds.len()
        invariant
            kinds@.len() == given@.len(),
            0 <= i <= kinds@.len(),
            out@.len() == i,
            forall|j: int| 0 <= j < i ==> decode_one(kinds@[j], given@[j], strict) == Some(
                #[trigger] out@[j],
            ),
        decreases kinds@.len() - i,
    {
        match decode_value(kinds[i], given[i], strict) {
            Some(w) => out.push(w),
            None => {
                let r = Err(ArgError::TypeMismatch(i + 1));
                assert forall|j: int| 0 <= j < (i + 1) - 1 implies (#[trigger] decode_one(
                    kinds@[j],
                    given@[j],
                    strict,
                )) is Some by {
                    assert(decode_one(kinds@[j], given@[j], strict) == Some(out@[j]));
                }
                return r;
            },
        }
        i += 1;
    }
    Ok(out)
}

/// Decodes the arguments of an export call against its parameter kinds.
/// Arguments are strict: a single-precision argument must be finite.
pub fn decode_function_param_terms(params: &Vec<ValKind>, function_param_terms: &Vec<HostValue>) -> (r:
    Result<Vec<WasmValue>, ArgError>)
    ensures
        decode_spec(params@, function_param_terms@, true, seq_result(r)),
{
    decode_values(params, function_param_terms, true)
}

/// Decodes the values a host callback returned against the import's result
/// kinds. Results are permissive: a non-finite single-precision value passes.
pub fn decode_callback_results(results: &Vec<ValKind>, values: &Vec<HostValue>) -> (r: Result<
    Vec<WasmValue>,
    ArgError,
>)
    ensures
        decode_spec(results@, values@, false, seq_result(r)),
{
    decode_values(results, values, false)
}

/// The guest value that carries a decoded value.
pub fn to_guest_value(w: WasmValue) -> (r: GuestValue)
    ensures
        r == guest_of(w),
{
    match w {
        WasmValue::I32(n) => GuestValue::I32(n),
        WasmValue::I64(n) => GuestValue::I64(n),
        WasmValue::F32(b) => GuestValue::F32(b),
        WasmValue::F64(b) => GuestValue::F64(b),
    }
}

/// Turns decoded values into the guest values an engine call takes.
pub fn map_wasm_values_to_vals(values: &[WasmValue]) -> (r: Vec<GuestValue>)
    ensures
        r@ == values@.map_values(|w: WasmValue| guest_of(w)),
{
    let mut out: Vec<GuestValue> = Vec::with_capacity(values.len());
    let mut i: usize = 0;
    while i < values.len()
        invariant
            0 <= i <= values@.len(),
            out@ == values@.subrange(0, i as int).map_values(|w: WasmValue| guest_of(w)),
        decreases values@.len() - i,
    {
        out.push(to_guest_value(values[i]));
        i += 1;
        assert(values@.subrange(0, i as int).drop_last() == values@.subrange(0, i - 1 as int));
    }
    assert(values@.subrange(0, values@.len() as int) == values@);
    out
}

/// Encodes one guest value for the host, if it has a host form.
pub fn encode_value(g: GuestValue) -> (r: Option<HostNumber>)
    ensures
        r == encode_one(g),
{
    match g {
        GuestValue::I32(n) => Some(HostNumber::Integer(n as i128)),
        GuestValue::I64(n) => Some(HostNumber::Integer(n as i128)),
        GuestValue::F32(b) => Some(HostNumber::Single(b)),
        GuestValue::F64(b) => Some(HostNumber::Double(b)),
        _ => None,
    }
}

/// The kind of a guest value.
pub fn guest_kind(g: GuestValue) -> (r: ValKind)
    ensures
        r == kind_of(g),
{
    match g {
        GuestValue::I32(_) => ValKind::I32,
        GuestValue::I64(_) => ValKind::I64,
        GuestValue::F32(_) => ValKind::F32,
        GuestValue::F64(_) => ValKind::F64,
        GuestValue::V128(_) => ValKind::V128,
        GuestValue::FuncRef => ValKind::FuncRef,
        GuestValue::ExternRef => ValKind::ExternRef,
    }
}

/// Encodes the results of a guest call for the host. The whole call fails,
/// naming the kind, at the first vector or reference result.
pub fn encode_results(results: &Vec<GuestValue>) -> (r: Result<Vec<HostNumber>, ValKind>)
    ensures
        encode_spec(results@, seq_result(r)),
{
    let mut out: Vec<HostNumber> = Vec::with_capacity(results.len());
    let mut i: usize = 0;
    while i < results.len()
        invariant
            0 <= i <= results@.len(),
            out@.len() == i,
            forall|j: int| 0 <= j < i ==> encode_one(results@[j]) == Some(#[trigger] out@[j]),
        decreases results@.len() - i,
    {
        match encode_value(results[i]) {
            Some(h) => out.push(h),
            None => {
                let k = guest_kind(results[i]);
                assert forall|j: int| 0 <= j < i implies (#[trigger] encode_one(
                    results@[j],
                )) is Some by {
                    assert(encode_one(results@[j]) == Some(out@[j]));
                }
                return Err(k);
            },
        }
        i += 1;
    }
    Ok(out)
}

} // verus!
