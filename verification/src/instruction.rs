//! The instruction decoder: the two operations and their byte encoding.
//!
//! A payload is tag-prefixed and little-endian: byte 0 is the tag
//! (`0` for `Init`, `1` for `Usd2Sol`); an `Usd2Sol` payload carries
//! eight further bytes, the signed 64-bit quoted amount. Any other
//! tag, and any truncated or overlong payload, is a decode failure.

use vstd::bytes::lemma_auto_spec_u64_to_from_le_bytes;
use vstd::bytes::spec_u64_from_le_bytes;
use vstd::bytes::spec_u64_to_le_bytes;
use vstd::bytes::u64_from_le_bytes;
use vstd::bytes::u64_to_le_bytes;
use vstd::prelude::*;

use crate::error::ProcessError;

verus! {

/// The two operations of the processor: `Init {}` configures the
/// trusted price feed once; `Usd2Sol { usd_qty }` converts a quoted
/// USD amount into lamports and transfers them.
#[derive(Clone, Copy, Debug, PartialEq, Eq, Structural)]
pub enum ExampleInstructions {
    Init {},
    Usd2Sol { usd_qty: i64 },
}

/// The byte encoding of an instruction: its tag byte, then, for
/// `Usd2Sol`, the quoted amount as eight little-endian bytes in
/// two's complement.
pub open spec fn spec_encode(instr: ExampleInstructions) -> Seq<u8> {
    match instr {
        ExampleInstructions::Init {} => seq![0u8],
        ExampleInstructions::Usd2Sol { usd_qty } => seq![1u8] + spec_u64_to_le_bytes(
            usd_qty as u64,
        ),
    }
}

/// The instruction a payload denotes: exactly the two well-formed
/// shapes decode, everything else is a `DecodeError`.
pub open spec fn spec_decode(input: Seq<u8>) -> Result<ExampleInstructions, ProcessError> {
    if input.len() == 1 && input[0] == 0 {
        Ok(ExampleInstructions::Init {})
    } else if input.len() == 9 && input[0] == 1 {
        Ok(
            ExampleInstructions::Usd2Sol {
                usd_qty: spec_u64_from_le_bytes(input.skip(1)) as i64,
            },
        )
    } else {
        Err(ProcessError::DecodeError)
    }
}

impl ExampleInstructions {
    /// Parse an instruction payload. Side-effect-free; returns `Ok`
    /// exactly on the two well-formed shapes and `DecodeError` on
    /// every other byte sequence.
    pub fn try_from_slice(input: &[u8]) -> (r: Result<ExampleInstructions, ProcessError>)
        ensures
            r == spec_decode(input@),
    {
        if input.len() == 1 && input[0] == 0 {
            Ok(ExampleInstructions::Init {})
        } else if input.len() == 9 && input[0] == 1 {
            let tail: &[u8] = &input[1..9];
            let bits: u64 = u64_from_le_bytes(tail);
            proof {
                assert(tail@ =~= input@.skip(1));
            }
            Ok(ExampleInstructions::Usd2Sol { usd_qty: #[verifier::truncate] (bits as i64) })
        } else {
            Err(ProcessError::DecodeError)
        }
    }

    /// Serialize the instruction into the payload that denotes it.
    pub fn try_to_vec(&self) -> (r: Vec<u8>)
        ensures
            r@ == spec_encode(*self),
    {
        match self {
            ExampleInstructions::Init {} => {
                let mut out: Vec<u8> = Vec::new();
                out.push(0u8);
                proof {
                    assert(out@ =~= seq![0u8]);
                }
                out
            },
            ExampleInstructions::Usd2Sol { usd_qty } => {
                let mut out: Vec<u8> = Vec::new();
                out.push(1u8);
                let mut tail: Vec<u8> = u64_to_le_bytes(#[verifier::truncate] (*usd_qty as u64));
                out.append(&mut tail);
                proof {
                    assert(out@ =~= seq![1u8] + spec_u64_to_le_bytes(*usd_qty as u64));
                }
                out
            },
        }
    }
}

/// Law: decoding loses nothing. Encoding any instruction and decoding
/// the resulting payload gives the instruction back, for every
/// `usd_qty` including the extremes of the signed 64-bit range.
pub proof fn lemma_decode_after_encode(instr: ExampleInstructions)
    ensures
        spec_decode(spec_encode(instr)) == Ok::<ExampleInstructions, ProcessError>(instr),
{
    lemma_auto_spec_u64_to_from_le_bytes();
    match instr {
        ExampleInstructions::Init {} => {
            assert(spec_encode(instr).len() == 1);
        },
        ExampleInstructions::Usd2Sol { usd_qty } => {
            let enc = spec_encode(instr);
            assert(enc.len() == 9);
            assert(enc.skip(1) =~= spec_u64_to_le_bytes(usd_qty as u64));
            assert((usd_qty as u64) as i64 == usd_qty) by (bit_vector);
        },
    }
}

/// Law: encoding is the inverse of decoding. Re-encoding whatever a
/// payload decoded to reproduces that payload byte for byte.
pub proof fn lemma_encode_after_decode(input: Seq<u8>)
    requires
        spec_decode(input) is Ok,
    ensures
        spec_encode(spec_decode(input)->Ok_0) == input,
{
    lemma_auto_spec_u64_to_from_le_bytes();
    if input.len() == 1 && input[0] == 0 {
        assert(spec_encode(ExampleInstructions::Init {}) =~= input);
    } else {
        let bits = spec_u64_from_le_bytes(input.skip(1));
        assert((bits as i64) as u64 == bits) by (bit_vector);
        assert(spec_u64_to_le_bytes(bits) == input.skip(1));
        assert(spec_encode(spec_decode(input)->Ok_0) =~= input);
    }
}

} // verus!
