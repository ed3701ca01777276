//! The decode specification and the call into the ABI codec.
//!
//! A contract function's output shape is an ordered list of parameter kinds.
//! The codec itself ([`ethabi::decode`]) is an external collaborator: this
//! module models its input shape with [`DecodeSpec`], carries its output
//! ([`ethabi::Token`]) through opaquely, and names its result so that the
//! rest of the crate can state exact contracts over it.

use vstd::prelude::*;

verus! {

/// One expected output parameter kind of a contract function.
///
/// The numeric kinds carry their declared bit width, `FixedBytes` and
/// `FixedArray` their declared length; a declared length always fits in 32
/// bits, as every length the ABI encoding itself can carry does.
#[derive(PartialEq, Eq, Debug)]
pub enum ParamKind {
    /// A 20-byte account address.
    Address,
    /// A boolean, encoded as a left-padded word.
    Bool,
    /// An unsigned integer of the given bit width.
    Uint(u32),
    /// A signed integer of the given bit width.
    Int(u32),
    /// A dynamically sized byte string.
    Bytes,
    /// A byte string of the given fixed length.
    FixedBytes(u32),
    /// A dynamically sized UTF-8 string.
    Str,
    /// A dynamically sized array of one element kind.
    Array(Box<ParamKind>),
    /// An array of one element kind with the given fixed length.
    FixedArray(Box<ParamKind>, u32),
    /// A tuple of the given member kinds, in order.
    Tuple(Vec<ParamKind>),
}

/// The deepest nesting of arrays, fixed arrays and tuples the library
/// admits.  The codec recurses on nested kinds, so unbounded nesting would
/// exhaust the call stack — a machine limit; real output shapes nest far
/// less.
pub const MAX_NESTING: usize = 32;

/// Whether the kind nests arrays, fixed arrays and tuples no deeper than
/// `depth` levels.
pub open spec fn kind_bounded(k: ParamKind, depth: nat) -> bool
    decreases depth,
{
    match k {
        ParamKind::Array(inner) => depth > 0 && kind_bounded(*inner, (depth - 1) as nat),
        ParamKind::FixedArray(inner, _) => depth > 0 && kind_bounded(*inner, (depth - 1) as nat),
        ParamKind::Tuple(members) => depth > 0 && (forall|i: int|
            0 <= i < members@.len() ==> kind_bounded(#[trigger] members@[i], (depth - 1) as nat)),
        _ => true,
    }
}

/// Whether every kind of the list nests within [`MAX_NESTING`]: the
/// condition under which the library decodes against the list.
pub open spec fn kinds_bounded(kinds: Seq<ParamKind>) -> bool {
    forall|i: int| 0 <= i < kinds.len() ==> kind_bounded(#[trigger] kinds[i], MAX_NESTING as nat)
}

/// Whether the kind nests no deeper than `depth` levels: exactly
/// [`kind_bounded`].
pub fn kind_within(k: &ParamKind, depth: usize) -> (r: bool)
    ensures
        r == kind_bounded(*k, depth as nat),
    decreases depth,
{
    match k {
        ParamKind::Array(inner) => depth > 0 && kind_within(inner, depth - 1),
        ParamKind::FixedArray(inner, _) => depth > 0 && kind_within(inner, depth - 1),
        ParamKind::Tuple(members) => {
            if depth == 0 {
                return false;
            }
            let mut i: usize = 0;
            while i < members.len()
                invariant
                    i <= members@.len(),
                    depth > 0,
                    *k matches ParamKind::Tuple(ms) && ms@ == members@,
                    forall|j: int|
                        0 <= j < i ==> kind_bounded(#[trigger] members@[j], (depth - 1) as nat),
                decreases members@.len() - i,
            {
                if !kind_within(&members[i], depth - 1) {
                    proof {
                        assert(!kind_bounded(members@[i as int], (depth - 1) as nat));
                    }
                    return false;
                }
                i = i + 1;
            }
            true
        },
        _ => true,
    }
}

/// The ordered list of expected output parameter kinds of one contract
/// function: everything the decoder needs to interpret a raw byte buffer.
#[derive(Debug)]
pub struct DecodeSpec {
    /// The expected kinds, in output order.
    pub kinds: Vec<ParamKind>,
}

impl View for DecodeSpec {
    type V = Seq<ParamKind>;

    open spec fn view(&self) -> Seq<ParamKind> {
        self.kinds@
    }
}

impl DecodeSpec {
    /// Whether every expected kind nests within [`MAX_NESTING`]: exactly
    /// [`kinds_bounded`], the condition the decoding functions require.
    pub fn well_formed(&self) -> (r: bool)
        ensures
            r == kinds_bounded(self@),
    {
        let mut i: usize = 0;
        while i < self.kinds.len()
            invariant
                i <= self.kinds@.len(),
                forall|j: int|
                    0 <= j < i ==> kind_bounded(#[trigger] self.kinds@[j], MAX_NESTING as nat),
            decreases self.kinds@.len() - i,
        {
            if !kind_within(&self.kinds[i], MAX_NESTING) {
                return false;
            }
            i = i + 1;
        }
        true
    }
}

/// One decoded typed value, kept as the codec produced it.
#[verifier::external_type_specification]
#[verifier::external_body]
pub struct ExToken(ethabi::Token);

/// The codec's own error value, carried through unchanged.
#[verifier::external_type_specification]
#[verifier::external_body]
pub struct ExAbiError(ethabi::Error);

/// The codec's own description of one parameter type.
#[verifier::external_type_specification]
#[verifier::external_body]
pub struct ExParamType(ethabi::ParamType);

/// What the ABI codec returns for a given list of expected kinds and a given
/// byte buffer.  Decoding is a pure function of those two arguments alone;
/// its full definition is the codec's business, so it is only named here.
pub uninterp spec fn abi_decoded(kinds: Seq<ParamKind>, bytes: Seq<u8>) -> Result<
    Seq<ethabi::Token>,
    ethabi::Error,
>;

/// The abstraction of a concrete decode result: token vectors become token
/// sequences, the codec's error is kept as it is.
pub open spec fn decoded_view(r: Result<Vec<ethabi::Token>, ethabi::Error>) -> Result<
    Seq<ethabi::Token>,
    ethabi::Error,
> {
    match r {
        Ok(tokens) => Ok(tokens@),
        Err(e) => Err(e),
    }
}

/// The codec's parameter type for one expected kind, one variant to one
/// variant; only conversion, used by [`decode_tokens`] below.
#[verifier::external_body]
fn abi_param_type(k: &ParamKind) -> ethabi::ParamType {
    match k {
        ParamKind::Address => ethabi::ParamType::Address,
        ParamKind::Bool => ethabi::ParamType::Bool,
        ParamKind::Uint(n) => ethabi::ParamType::Uint(*n as usize),
        ParamKind::Int(n) => ethabi::ParamType::Int(*n as usize),
        ParamKind::Bytes => ethabi::ParamType::Bytes,
        ParamKind::FixedBytes(n) => ethabi::ParamType::FixedBytes(*n as usize),
        ParamKind::Str => ethabi::ParamType::String,
        ParamKind::Array(inner) => ethabi::ParamType::Array(Box::new(abi_param_type(inner))),
        ParamKind::FixedArray(t, n) => ethabi::ParamType::FixedArray(Box::new(abi_param_type(t)), *n as usize),
        ParamKind::Tuple(ms) => ethabi::ParamType::Tuple(ms.iter().map(abi_param_type).collect()),
    }
}

/// Relies on `ethabi::decode`: the decoder reads only the parameter types and
/// the bytes, so its result is a pure function of the two; on success it
/// yields exactly one token per expected type; and it returns rather than
/// panics for every byte buffer, because every declared length fits in 32
/// bits (the bound the encoding's own offset words obey) and the nesting it
/// recurses on is bounded.
#[verifier::external_body]
pub(crate) fn decode_tokens(spec: &DecodeSpec, bytes: &Vec<u8>) -> (r: Result<
    Vec<ethabi::Token>,
    ethabi::Error,
>)
    requires
        kinds_bounded(spec@),
    ensures
        decoded_view(r) == abi_decoded(spec@, bytes@),
        r matches Ok(tokens) ==> tokens@.len() == spec@.len(),
{
    let types: Vec<ethabi::ParamType> = spec.kinds.iter().map(abi_param_type).collect();
    ethabi::decode(&types, bytes)
}

} // verus!
