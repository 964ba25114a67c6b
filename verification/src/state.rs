//! The configuration record and its fixed-width storage encoding.
//!
//! A record occupies 33 bytes of its storage buffer: byte 0 is the
//! initialization flag (`0` or `1`), bytes 1..33 are the 32-byte
//! identity of the trusted price source.

use vstd::prelude::*;
use vstd::slice::slice_to_vec;

use crate::error::ProcessError;

verus! {

/// A fixed-size opaque identity: a caller, an account, or the
/// program's authority. Identities are compared for equality only.
#[derive(Clone, Debug)]
pub struct Identity {
    pub bytes: Vec<u8>,
}

impl View for Identity {
    type V = Seq<u8>;

    open spec fn view(&self) -> Seq<u8> {
        self.bytes@
    }
}

impl Identity {
    /// An identity is exactly 32 bytes wide.
    pub open spec fn wf(&self) -> bool {
        self@.len() == 32
    }

    /// Two identities are the same exactly when their bytes are.
    pub fn same_as(&self, other: &Identity) -> (r: bool)
        ensures
            r == (self@ == other@),
    {
        let r = self.bytes == other.bytes;
        proof {
            if r {
                assert(self@ =~= other@);
            } else {
                assert(self@ != other@);
            }
        }
        r
    }

    /// An identity holding the same bytes as this one.
    pub fn duplicate(&self) -> (r: Identity)
        ensures
            r@ == self@,
    {
        Identity { bytes: slice_to_vec(self.bytes.as_slice()) }
    }
}

/// The configuration record: a one-way latch and the identity of the
/// only price source the processor will ever trust. The identity is
/// meaningful only once `is_initialized` is true.
#[derive(Clone, Debug)]
pub struct AdminConfig {
    pub is_initialized: bool,
    pub sol_price_feed_id: Identity,
}

impl AdminConfig {
    pub open spec fn wf(&self) -> bool {
        self.sol_price_feed_id.wf()
    }
}

/// The storage bytes a record serializes to: the flag byte, then the
/// 32 identity bytes.
pub open spec fn spec_store(is_initialized: bool, feed_id: Seq<u8>) -> Seq<u8> {
    seq![
        if is_initialized {
            1u8
        } else {
            0u8
        },
    ] + feed_id
}

/// What a storage buffer decodes to: the flag and the identity bytes,
/// or a `DecodeError` when the buffer is not exactly 33 bytes or its
/// flag byte is neither 0 nor 1.
pub open spec fn spec_load(bytes: Seq<u8>) -> Result<(bool, Seq<u8>), ProcessError> {
    if bytes.len() == 33 && (bytes[0] == 0 || bytes[0] == 1) {
        Ok((bytes[0] == 1, bytes.subrange(1, 33)))
    } else {
        Err(ProcessError::DecodeError)
    }
}

impl AdminConfig {
    /// Decode a record from its storage buffer.
    pub fn try_from_slice(bytes: &[u8]) -> (r: Result<AdminConfig, ProcessError>)
        ensures
            r is Ok <==> spec_load(bytes@) is Ok,
            r is Ok ==> {
                let c = r->Ok_0;
                &&& c.wf()
                &&& c.is_initialized == spec_load(bytes@)->Ok_0.0
                &&& c.sol_price_feed_id@ == spec_load(bytes@)->Ok_0.1
            },
            r is Err ==> r->Err_0 == ProcessError::DecodeError,
    {
        if bytes.len() != 33 {
            return Err(ProcessError::DecodeError);
        }
        let flag: u8 = bytes[0];
        if flag > 1 {
            return Err(ProcessError::DecodeError);
        }
        let id: Vec<u8> = slice_to_vec(&bytes[1..33]);
        proof {
            assert(id@ =~= bytes@.subrange(1, 33));
        }
        Ok(AdminConfig { is_initialized: flag == 1, sol_price_feed_id: Identity { bytes: id } })
    }

    /// Write the record into its storage buffer: exactly 33 bytes at
    /// offset 0, leaving every byte beyond offset 33 untouched. The
    /// buffer may be part of a larger account layout.
    pub fn store(&self, buf: &mut Vec<u8>)
        requires
            self.wf(),
            old(buf)@.len() >= 33,
        ensures
            final(buf)@ == spec_store(self.is_initialized, self.sol_price_feed_id@) + old(
                buf,
            )@.skip(33),
    {
        buf[0] = if self.is_initialized {
            1u8
        } else {
            0u8
        };
        let mut i: usize = 0;
        while i < 32
            invariant
                0 <= i <= 32,
                self.wf(),
                buf@.len() == old(buf)@.len() >= 33,
                buf@[0] == (if self.is_initialized {
                    1u8
                } else {
                    0u8
                }),
                forall|j: int| 0 <= j < i ==> buf@[1 + j] == self.sol_price_feed_id@[j],
                forall|j: int| 33 <= j < buf@.len() ==> buf@[j] == old(buf)@[j],
            decreases 32 - i,
        {
            buf[1 + i] = self.sol_price_feed_id.bytes[i];
            i = i + 1;
        }
        proof {
            assert(buf@ =~= spec_store(self.is_initialized, self.sol_price_feed_id@) + old(
                buf,
            )@.skip(33));
        }
    }
}

} // verus!
