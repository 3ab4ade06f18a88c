//! The codec interface that every wire type implements.

use crate::error::{SerdeBitcoinError, SerdeErrorView};
use vstd::prelude::*;

verus! {

/// Whether an executable encoding result is the one the model gives.
pub open spec fn encoded_as(
    res: Result<Vec<u8>, SerdeBitcoinError>,
    model: Result<Seq<u8>, SerdeErrorView>,
) -> bool {
    match res {
        Ok(bytes) => model == Ok::<Seq<u8>, SerdeErrorView>(bytes@),
        Err(e) => model == Err::<Seq<u8>, SerdeErrorView>(e@),
    }
}

/// Whether an executable decoding result is the one the model gives.
pub open spec fn decoded_as<T: View>(
    res: Result<T, SerdeBitcoinError>,
    model: Result<T::V, SerdeErrorView>,
) -> bool {
    match res {
        Ok(value) => model == Ok::<T::V, SerdeErrorView>(value@),
        Err(e) => model == Err::<T::V, SerdeErrorView>(e@),
    }
}

/// A type with a wire format.
///
/// `wire_bytes` and `parse` are the format as mathematics; `serialize` and
/// `deserialize` compute them.
pub trait SerdeBitcoin: Sized + View {
    /// The bytes that stand for `value` on the wire, or why it has none.
    spec fn wire_bytes(value: Self::V) -> Result<Seq<u8>, SerdeErrorView>;

    /// The value that `data` stands for, or why it stands for none.
    spec fn parse(data: Seq<u8>) -> Result<Self::V, SerdeErrorView>;

    fn serialize(&self) -> (res: Result<Vec<u8>, SerdeBitcoinError>)
        ensures
            encoded_as(res, Self::wire_bytes(self@)),
    ;

    fn deserialize(data: &mut [u8]) -> (res: Result<Self, SerdeBitcoinError>)
        ensures
            decoded_as(res, Self::parse(old(data)@)),
            final(data)@ == old(data)@,
    ;
}

} // verus!
