//! The acknowledgment payload: no bytes at all.

use crate::error::{SerdeBitcoinError, SerdeErrorView};
use crate::serde_bitcoin::SerdeBitcoin;
use vstd::prelude::*;

verus! {

/// The empty payload that confirms an identity announcement.
#[derive(Debug, PartialEq, Eq, Structural, Clone, Copy)]
pub struct VerAck;

impl View for VerAck {
    type V = VerAck;

    open spec fn view(&self) -> VerAck {
        *self
    }
}

impl SerdeBitcoin for VerAck {
    open spec fn wire_bytes(value: VerAck) -> Result<Seq<u8>, SerdeErrorView> {
        Ok(Seq::empty())
    }

    open spec fn parse(data: Seq<u8>) -> Result<VerAck, SerdeErrorView> {
        Ok(VerAck)
    }

    fn serialize(&self) -> (res: Result<Vec<u8>, SerdeBitcoinError>) {
        Ok(Vec::new())
    }

    fn deserialize(data: &mut [u8]) -> (res: Result<VerAck, SerdeBitcoinError>) {
        Ok(VerAck {  })
    }
}

/// Whatever bytes are offered, decoding an encoded acknowledgment succeeds
/// and gives the acknowledgment.
pub proof fn lemma_verack_roundtrip(x: VerAck, data: Seq<u8>)
    ensures
        VerAck::wire_bytes(x) == Ok::<Seq<u8>, SerdeErrorView>(Seq::empty()),
        VerAck::parse(VerAck::wire_bytes(x)->Ok_0) == Ok::<VerAck, SerdeErrorView>(x),
        VerAck::parse(data) == Ok::<VerAck, SerdeErrorView>(x),
{
}

} // verus!
