//! Request/response correlation for contract-creation callbacks.
//!
//! A factory that instantiates another contract learns the result through a
//! callback, and must check that the callback answers the request it just
//! dispatched.  The scheme is a short-lived correlation token — the bytes
//! of the requester and the block height and time — stored in one
//! well-known slot and cleared on successful correlation.

use vstd::prelude::*;
use vstd::string::StringSliceAdditionalSpecFns;

use crate::errors::RewardsError;

verus! {

/// The big-endian bytes of a 64-bit integer.
pub open spec fn be_bytes_of(x: u64) -> Seq<u8> {
    seq![
        ((x / 0x100_0000_0000_0000) % 0x100) as u8,
        ((x / 0x1_0000_0000_0000) % 0x100) as u8,
        ((x / 0x100_0000_0000) % 0x100) as u8,
        ((x / 0x1_0000_0000) % 0x100) as u8,
        ((x / 0x100_0000) % 0x100) as u8,
        ((x / 0x1_0000) % 0x100) as u8,
        ((x / 0x100) % 0x100) as u8,
        (x % 0x100) as u8,
    ]
}

/// Append the big-endian bytes of `x`.
fn push_be_bytes(out: &mut Vec<u8>, x: u64)
    ensures
        final(out)@ == old(out)@ + be_bytes_of(x),
{
    out.push(((x / 0x100_0000_0000_0000) % 0x100) as u8);
    out.push(((x / 0x1_0000_0000_0000) % 0x100) as u8);
    out.push(((x / 0x100_0000_0000) % 0x100) as u8);
    out.push(((x / 0x1_0000_0000) % 0x100) as u8);
    out.push(((x / 0x100_0000) % 0x100) as u8);
    out.push(((x / 0x1_0000) % 0x100) as u8);
    out.push(((x / 0x100) % 0x100) as u8);
    out.push((x % 0x100) as u8);
    proof {
        assert(out@ =~= old(out)@ + be_bytes_of(x));
    }
}

/// A byte the standard library cloned is that byte.
proof fn lemma_cloned_u8(a: u8, b: u8)
    requires
        vstd::pervasive::cloned::<u8>(a, b),
    ensures
        a == b,
{
}

/// Whether two byte strings hold the same bytes.
fn bytes_equal(a: &Vec<u8>, b: &Vec<u8>) -> (r: bool)
    ensures
        r == (a@ == b@),
{
    if a.len() != b.len() {
        return false;
    }
    let mut i: usize = 0;
    while i < a.len()
        invariant
            i <= a.len(),
            a@.len() == b@.len(),
            forall|j: int| 0 <= j < i ==> a@[j] == b@[j],
        decreases a.len() - i,
    {
        if a[i] != b[i] {
            return false;
        }
        i = i + 1;
    }
    proof {
        assert(a@ =~= b@);
    }
    true
}

/// The correlation token of a request: the requester's bytes followed by
/// the big-endian block height and block time, so that no two requests of
/// one chain share a token.
pub fn create_signature(sender: &str, height: u64, time: u64) -> (r: Vec<u8>)
    ensures
        r@ == sender.spec_bytes() + be_bytes_of(height) + be_bytes_of(time),
{
    let mut out: Vec<u8> = Vec::new();
    out.extend_from_slice(sender.as_bytes());
    proof {
        assert forall|i: int| 0 <= i < out@.len() implies out@[i] == sender.spec_bytes()[i] by {
            lemma_cloned_u8(sender.spec_bytes()[i], out@[i]);
        }
        assert(out@ =~= sender.spec_bytes());
    }
    push_be_bytes(&mut out, height);
    push_be_bytes(&mut out, time);
    out
}

/// The single well-known slot a pending request's token lives in.
pub struct EphemeralSlot {
    pub signature: Option<Vec<u8>>,
}

impl EphemeralSlot {
    /// What the slot answers a comparison with: a missing token reads as
    /// empty bytes.
    pub open spec fn stored_bytes(&self) -> Seq<u8> {
        match self.signature {
            Some(s) => s@,
            None => Seq::empty(),
        }
    }

    /// An empty slot: no request is pending.
    pub fn new() -> (r: EphemeralSlot)
        ensures
            r.signature is None,
    {
        EphemeralSlot { signature: None }
    }

    /// Store the token of the request being dispatched.
    pub fn save_signature(&mut self, signature: Vec<u8>)
        ensures
            final(self).signature == Some(signature),
    {
        self.signature = Some(signature);
    }

    /// Correlate a callback: accepted exactly where its token matches the
    /// stored one byte for byte, and the slot is cleared so that the token
    /// cannot be replayed.  A mismatch changes nothing and is rejected as
    /// unauthorized.
    pub fn ensure_correct_signature(&mut self, signature: &Vec<u8>) -> (r: Result<
        (),
        RewardsError,
    >)
        ensures
            match r {
                Ok(()) => old(self).stored_bytes() == signature@ && final(self).signature is None,
                Err(e) => {
                    &&& old(self).stored_bytes() != signature@
                    &&& e == RewardsError::Unauthorized
                    &&& *final(self) == *old(self)
                },
            },
    {
        let accepted: bool = match &self.signature {
            Some(s) => bytes_equal(s, signature),
            None => {
                proof {
                    if signature@.len() == 0 {
                        assert(signature@ =~= Seq::<u8>::empty());
                    }
                }
                signature.len() == 0
            },
        };
        if accepted {
            self.signature = None;
            Ok(())
        } else {
            Err(RewardsError::Unauthorized)
        }
    }
}

} // verus!
