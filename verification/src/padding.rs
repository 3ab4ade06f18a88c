//! Zero padding of fixed-width name fields.
//!
//! A name is written into a field by filling the field up with zero bytes,
//! and read from it by dropping every zero byte at the end.

use crate::error::{SerdeBitcoinError, SerdeErrorView};
use vstd::prelude::*;
use vstd::slice::slice_subrange;

verus! {

/// `n` zero bytes.
pub open spec fn zeros(n: nat) -> Seq<u8> {
    Seq::new(n, |i: int| 0u8)
}

/// `name` filled up with zero bytes to `size` bytes.
pub open spec fn pad(name: Seq<u8>, size: nat) -> Seq<u8> {
    name + zeros((size - name.len()) as nat)
}

/// `data` without the zero bytes at its end.
pub open spec fn strip(data: Seq<u8>) -> Seq<u8>
    decreases data.len(),
{
    if data.len() > 0 && data.last() == 0 {
        strip(data.drop_last())
    } else {
        data
    }
}

/// Whether a name can be read back from a field: it does not end in a zero byte.
pub open spec fn survives_padding(name: Seq<u8>) -> bool {
    name.len() == 0 || name.last() != 0
}

/// A name that does not end in a zero byte is read back from its field.
pub proof fn lemma_strip_pad(name: Seq<u8>, size: nat)
    requires
        name.len() <= size,
        survives_padding(name),
    ensures
        pad(name, size).len() == size,
        strip(pad(name, size)) == name,
    decreases size - name.len(),
{
    if name.len() < size {
        let shorter = pad(name, (size - 1) as nat);
        lemma_strip_pad(name, (size - 1) as nat);
        assert(pad(name, size).drop_last() =~= shorter);
    } else {
        assert(pad(name, size) =~= name);
    }
}

/// Fills `name` up with zero bytes to `size` bytes; a longer name is refused
/// with its length.
pub fn pad_name(name: &[u8], size: usize) -> (res: Result<Vec<u8>, SerdeBitcoinError>)
    ensures
        name@.len() > size ==> (res matches Err(e) && e@ == SerdeErrorView::MessageTypeTooLong(
            name@.len(),
        )),
        name@.len() <= size ==> (res matches Ok(field) && field@ == pad(name@, size as nat)),
{
    if name.len() > size {
        return Err(SerdeBitcoinError::MessageTypeTooLong(name.len()));
    }
    let mut field: Vec<u8> = vstd::slice::slice_to_vec(name);
    while field.len() < size
        invariant
            name@.len() <= field@.len() <= size,
            field@ == name@ + zeros((field@.len() - name@.len()) as nat),
        decreases size - field@.len(),
    {
        let ghost before = field@;
        field.push(0u8);
        assert(field@ =~= name@ + zeros((field@.len() - name@.len()) as nat));
    }
    Ok(field)
}

/// The part of `data` before the zero bytes at its end.
pub fn strip_trailing_zeros(data: &[u8]) -> (name: &[u8])
    ensures
        name@ == strip(data@),
{
    let mut end: usize = data.len();
    assert(data@.subrange(0, end as int) =~= data@);
    while end > 0 && data[end - 1] == 0
        invariant
            end <= data@.len(),
            strip(data@) == strip(data@.subrange(0, end as int)),
        decreases end,
    {
        assert(data@.subrange(0, end as int).drop_last() =~= data@.subrange(0, end - 1));
        end = end - 1;
    }
    slice_subrange(data, 0, end)
}

} // verus!
