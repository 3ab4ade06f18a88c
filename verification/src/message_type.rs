//! The names of the messages, and the twelve-byte field that carries one.

use crate::error::{SerdeBitcoinError, SerdeErrorView};
use crate::padding::{lemma_strip_pad, pad, pad_name, strip, strip_trailing_zeros,
    survives_padding};
use crate::serde_bitcoin::SerdeBitcoin;
use vstd::prelude::*;
use vstd::utf8::{decode_utf8, encode_utf8, is_ascii_chars, valid_utf8};

verus! {

/// The kinds of message that are known by name. Only `Version` and `VerAck`
/// have a payload codec.
#[derive(Clone, Copy, Debug, PartialEq, Eq, Structural)]
pub enum MessageType {
    Version,
    VerAck,
    Ping,
    Addr,
    GetData,
    Tx,
    Block,
    GetBlocks,
    GetHeaders,
    Headers,
    Reject,
    MemPool,
    FeeFilter,
    SendHeaders,
    SendCmpct,
    WtxIdRelay,
    SendAddrV2,
}

impl View for MessageType {
    type V = MessageType;

    open spec fn view(&self) -> MessageType {
        *self
    }
}

/// The text that `String::from_utf8_lossy` makes of `bytes`.
pub uninterp spec fn utf8_lossy(bytes: Seq<u8>) -> Seq<char>;

/// `String::from_utf8_lossy` of the standard library, made into an owned
/// string: the text that `bytes` encode, where they are valid UTF-8; else a
/// text in which each invalid sequence is replaced.
#[verifier::external_body]
fn string_from_utf8_lossy(bytes: &[u8]) -> (text: String)
    ensures
        text@ == utf8_lossy(bytes@),
        valid_utf8(bytes@) ==> text@ == decode_utf8(bytes@),
{
    String::from_utf8_lossy(bytes).into_owned()
}

/// Whether two byte strings are equal.
fn same_bytes(a: &[u8], b: &[u8]) -> (same: bool)
    ensures
        same == (a@ == b@),
{
    if a.len() != b.len() {
        return false;
    }
    let mut i: usize = 0;
    while i < a.len()
        invariant
            a@.len() == b@.len(),
            i <= a@.len(),
            forall|j: int| 0 <= j < i ==> a@[j] == b@[j],
        decreases a@.len() - i,
    {
        if a[i] != b[i] {
            return false;
        }
        i = i + 1;
    }
    assert(a@ =~= b@);
    true
}

/// The kind of message that has the name `name`, if any has.
pub open spec fn lookup(name: Seq<u8>) -> Option<MessageType> {
    if name == MessageType::Version.name_bytes() {
        Some(MessageType::Version)
    } else if name == MessageType::VerAck.name_bytes() {
        Some(MessageType::VerAck)
    } else if name == MessageType::Ping.name_bytes() {
        Some(MessageType::Ping)
    } else if name == MessageType::Addr.name_bytes() {
        Some(MessageType::Addr)
    } else if name == MessageType::GetData.name_bytes() {
        Some(MessageType::GetData)
    } else if name == MessageType::Tx.name_bytes() {
        Some(MessageType::Tx)
    } else if name == MessageType::Block.name_bytes() {
        Some(MessageType::Block)
    } else if name == MessageType::GetBlocks.name_bytes() {
        Some(MessageType::GetBlocks)
    } else if name == MessageType::GetHeaders.name_bytes() {
        Some(MessageType::GetHeaders)
    } else if name == MessageType::Headers.name_bytes() {
        Some(MessageType::Headers)
    } else if name == MessageType::Reject.name_bytes() {
        Some(MessageType::Reject)
    } else if name == MessageType::MemPool.name_bytes() {
        Some(MessageType::MemPool)
    } else if name == MessageType::FeeFilter.name_bytes() {
        Some(MessageType::FeeFilter)
    } else if name == MessageType::SendHeaders.name_bytes() {
        Some(MessageType::SendHeaders)
    } else if name == MessageType::SendCmpct.name_bytes() {
        Some(MessageType::SendCmpct)
    } else if name == MessageType::WtxIdRelay.name_bytes() {
        Some(MessageType::WtxIdRelay)
    } else if name == MessageType::SendAddrV2.name_bytes() {
        Some(MessageType::SendAddrV2)
    } else {
        None
    }
}

/// What a command field, or a shorter byte string, stands for: a field of
/// more than twelve bytes is refused with its length; else the zero bytes at
/// the end are dropped and the rest is looked up among the names.
pub open spec fn parse_command(data: Seq<u8>) -> Result<MessageType, SerdeErrorView> {
    if data.len() > MessageType::SIZE {
        Err(SerdeErrorView::MessageTypeTooLong(data.len()))
    } else {
        match lookup(strip(data)) {
            Some(ty) => Ok(ty),
            None => Err(SerdeErrorView::UnknownType(utf8_lossy(strip(data)))),
        }
    }
}

impl MessageType {
    /// The width of a command field.
    pub const SIZE: usize = 12;

    /// The name of this kind of message.
    pub open spec fn name(self) -> Seq<char> {
        match self {
            MessageType::Version => "version"@,
            MessageType::VerAck => "verack"@,
            MessageType::Ping => "ping"@,
            MessageType::Addr => "addr"@,
            MessageType::GetData => "getdata"@,
            MessageType::Tx => "tx"@,
            MessageType::Block => "block"@,
            MessageType::GetBlocks => "getblocks"@,
            MessageType::GetHeaders => "getheaders"@,
            MessageType::Headers => "headers"@,
            MessageType::Reject => "reject"@,
            MessageType::MemPool => "mempool"@,
            MessageType::FeeFilter => "feefilter"@,
            MessageType::SendHeaders => "sendheaders"@,
            MessageType::SendCmpct => "sendcmpct"@,
            MessageType::WtxIdRelay => "wtxidrelay"@,
            MessageType::SendAddrV2 => "sendaddrv2"@,
        }
    }

    /// The name as it stands on the wire.
    pub open spec fn name_bytes(self) -> Seq<u8> {
        encode_utf8(self.name())
    }

    /// The twelve bytes of the command field.
    pub open spec fn command_bytes(self) -> Seq<u8> {
        pad(self.name_bytes(), MessageType::SIZE as nat)
    }

    /// The name of this kind of message.
    pub fn as_str(&self) -> (name: &'static str)
        ensures
            name@ == self.name(),
    {
        match self {
            MessageType::Version => "version",
            MessageType::VerAck => "verack",
            MessageType::Ping => "ping",
            MessageType::Addr => "addr",
            MessageType::GetData => "getdata",
            MessageType::Tx => "tx",
            MessageType::Block => "block",
            MessageType::GetBlocks => "getblocks",
            MessageType::GetHeaders => "getheaders",
            MessageType::Headers => "headers",
            MessageType::Reject => "reject",
            MessageType::MemPool => "mempool",
            MessageType::FeeFilter => "feefilter",
            MessageType::SendHeaders => "sendheaders",
            MessageType::SendCmpct => "sendcmpct",
            MessageType::WtxIdRelay => "wtxidrelay",
            MessageType::SendAddrV2 => "sendaddrv2",
        }
    }

    /// The name of this kind of message, as an owned string.
    pub fn to_string(&self) -> (name: String)
        ensures
            name@ == self.name(),
    {
        self.as_str().to_owned()
    }

    /// The kind of message that is called `name`.
    pub fn from_name(name: &[u8]) -> (found: Option<MessageType>)
        ensures
            found == lookup(name@),
    {
        if same_bytes(name, MessageType::Version.as_str().as_bytes()) {
            Some(MessageType::Version)
        } else if same_bytes(name, MessageType::VerAck.as_str().as_bytes()) {
            Some(MessageType::VerAck)
        } else if same_bytes(name, MessageType::Ping.as_str().as_bytes()) {
            Some(MessageType::Ping)
        } else if same_bytes(name, MessageType::Addr.as_str().as_bytes()) {
            Some(MessageType::Addr)
        } else if same_bytes(name, MessageType::GetData.as_str().as_bytes()) {
            Some(MessageType::GetData)
        } else if same_bytes(name, MessageType::Tx.as_str().as_bytes()) {
            Some(MessageType::Tx)
        } else if same_bytes(name, MessageType::Block.as_str().as_bytes()) {
            Some(MessageType::Block)
        } else if same_bytes(name, MessageType::GetBlocks.as_str().as_bytes()) {
            Some(MessageType::GetBlocks)
        } else if same_bytes(name, MessageType::GetHeaders.as_str().as_bytes()) {
            Some(MessageType::GetHeaders)
        } else if same_bytes(name, MessageType::Headers.as_str().as_bytes()) {
            Some(MessageType::Headers)
        } else if same_bytes(name, MessageType::Reject.as_str().as_bytes()) {
            Some(MessageType::Reject)
        } else if same_bytes(name, MessageType::MemPool.as_str().as_bytes()) {
            Some(MessageType::MemPool)
        } else if same_bytes(name, MessageType::FeeFilter.as_str().as_bytes()) {
            Some(MessageType::FeeFilter)
        } else if same_bytes(name, MessageType::SendHeaders.as_str().as_bytes()) {
            Some(MessageType::SendHeaders)
        } else if same_bytes(name, MessageType::SendCmpct.as_str().as_bytes()) {
            Some(MessageType::SendCmpct)
        } else if same_bytes(name, MessageType::WtxIdRelay.as_str().as_bytes()) {
            Some(MessageType::WtxIdRelay)
        } else if same_bytes(name, MessageType::SendAddrV2.as_str().as_bytes()) {
            Some(MessageType::SendAddrV2)
        } else {
            None
        }
    }

    /// Reads a command field of at most twelve bytes.
    pub fn decode(data: &[u8]) -> (res: Result<MessageType, SerdeBitcoinError>)
        ensures
            crate::serde_bitcoin::decoded_as(res, parse_command(data@)),
    {
        if data.len() > MessageType::SIZE {
            return Err(SerdeBitcoinError::MessageTypeTooLong(data.len()));
        }
        let name = strip_trailing_zeros(data);
        match MessageType::from_name(name) {
            Some(ty) => Ok(ty),
            None => Err(SerdeBitcoinError::UnknownType(string_from_utf8_lossy(name))),
        }
    }
}

impl SerdeBitcoin for MessageType {
    open spec fn wire_bytes(value: MessageType) -> Result<Seq<u8>, SerdeErrorView> {
        if value.name_bytes().len() > MessageType::SIZE {
            Err(SerdeErrorView::MessageTypeTooLong(value.name_bytes().len()))
        } else {
            Ok(value.command_bytes())
        }
    }

    open spec fn parse(data: Seq<u8>) -> Result<MessageType, SerdeErrorView> {
        parse_command(data)
    }

    fn serialize(&self) -> (res: Result<Vec<u8>, SerdeBitcoinError>) {
        pad_name(self.as_str().as_bytes(), MessageType::SIZE)
    }

    fn deserialize(data: &mut [u8]) -> (res: Result<MessageType, SerdeBitcoinError>) {
        MessageType::decode(data)
    }
}

/// Every name is plain ASCII of one to twelve letters, so it is its own
/// encoding, it fits the command field, and it does not end in a zero byte.
pub proof fn lemma_names_are_short_ascii(ty: MessageType)
    ensures
        is_ascii_chars(ty.name()),
        ty.name_bytes().len() == ty.name().len(),
        1 <= ty.name_bytes().len() <= MessageType::SIZE,
        survives_padding(ty.name_bytes()),
        forall|i: int| 0 <= i < ty.name().len() ==> ty.name_bytes()[i] == ty.name()[i] as u8,
{
    reveal_strlit("version");
    reveal_strlit("verack");
    reveal_strlit("ping");
    reveal_strlit("addr");
    reveal_strlit("getdata");
    reveal_strlit("tx");
    reveal_strlit("block");
    reveal_strlit("getblocks");
    reveal_strlit("getheaders");
    reveal_strlit("headers");
    reveal_strlit("reject");
    reveal_strlit("mempool");
    reveal_strlit("feefilter");
    reveal_strlit("sendheaders");
    reveal_strlit("sendcmpct");
    reveal_strlit("wtxidrelay");
    reveal_strlit("sendaddrv2");
    assert(is_ascii_chars(ty.name()));
    vstd::utf8::is_ascii_chars_encode_utf8(ty.name());
    let last = ty.name().len() - 1;
    assert(ty.name_bytes()[last] == ty.name()[last] as u8);
}

/// No two kinds of message share a name: looking a name up gives its kind.
pub proof fn lemma_lookup_finds_name(ty: MessageType)
    ensures
        lookup(ty.name_bytes()) == Some(ty),
{
    assert forall|other: MessageType| other != ty implies other.name_bytes()
        != ty.name_bytes() by {
        lemma_names_differ(other, ty);
    }
}

/// Two kinds of message with the same name are the same kind.
pub proof fn lemma_names_differ(a: MessageType, b: MessageType)
    requires
        a != b,
    ensures
        a.name_bytes() != b.name_bytes(),
{
    lemma_names_are_short_ascii(a);
    lemma_names_are_short_ascii(b);
    lemma_name_marks(a);
    lemma_name_marks(b);
    if a.name().len() == b.name().len() {
        assert(a.name_bytes()[0] == a.name()[0] as u8);
        assert(b.name_bytes()[0] == b.name()[0] as u8);
        assert(a.name_bytes()[4] == a.name()[4] as u8 || a.name().len() <= 4);
        assert(b.name_bytes()[4] == b.name()[4] as u8 || b.name().len() <= 4);
    }
}

/// Length, first letter and fifth letter tell the names apart.
proof fn lemma_name_marks(ty: MessageType)
    ensures
        ty.name().len() == name_len(ty),
        ty.name()[0] == first_letter(ty),
        name_len(ty) > 4 ==> ty.name()[4] == fifth_letter(ty),
{
    reveal_strlit("version");
    reveal_strlit("verack");
    reveal_strlit("ping");
    reveal_strlit("addr");
    reveal_strlit("getdata");
    reveal_strlit("tx");
    reveal_strlit("block");
    reveal_strlit("getblocks");
    reveal_strlit("getheaders");
    reveal_strlit("headers");
    reveal_strlit("reject");
    reveal_strlit("mempool");
    reveal_strlit("feefilter");
    reveal_strlit("sendheaders");
    reveal_strlit("sendcmpct");
    reveal_strlit("wtxidrelay");
    reveal_strlit("sendaddrv2");
}

/// The number of letters of a name.
spec fn name_len(ty: MessageType) -> nat {
    match ty {
        MessageType::Version => 7,
        MessageType::VerAck => 6,
        MessageType::Ping => 4,
        MessageType::Addr => 4,
        MessageType::GetData => 7,
        MessageType::Tx => 2,
        MessageType::Block => 5,
        MessageType::GetBlocks => 9,
        MessageType::GetHeaders => 10,
        MessageType::Headers => 7,
        MessageType::Reject => 6,
        MessageType::MemPool => 7,
        MessageType::FeeFilter => 9,
        MessageType::SendHeaders => 11,
        MessageType::SendCmpct => 9,
        MessageType::WtxIdRelay => 10,
        MessageType::SendAddrV2 => 10,
    }
}

/// The first letter of a name.
spec fn first_letter(ty: MessageType) -> char {
    match ty {
        MessageType::Version => 'v',
        MessageType::VerAck => 'v',
        MessageType::Ping => 'p',
        MessageType::Addr => 'a',
        MessageType::GetData => 'g',
        MessageType::Tx => 't',
        MessageType::Block => 'b',
        MessageType::GetBlocks => 'g',
        MessageType::GetHeaders => 'g',
        MessageType::Headers => 'h',
        MessageType::Reject => 'r',
        MessageType::MemPool => 'm',
        MessageType::FeeFilter => 'f',
        MessageType::SendHeaders => 's',
        MessageType::SendCmpct => 's',
        MessageType::WtxIdRelay => 'w',
        MessageType::SendAddrV2 => 's',
    }
}

/// The fifth letter of a name of more than four letters; of a shorter name,
/// its first letter.
spec fn fifth_letter(ty: MessageType) -> char {
    match ty {
        MessageType::Version => 'i',
        MessageType::VerAck => 'c',
        MessageType::Ping => 'p',
        MessageType::Addr => 'a',
        MessageType::GetData => 'a',
        MessageType::Tx => 't',
        MessageType::Block => 'k',
        MessageType::GetBlocks => 'l',
        MessageType::GetHeaders => 'e',
        MessageType::Headers => 'e',
        MessageType::Reject => 'c',
        MessageType::MemPool => 'o',
        MessageType::FeeFilter => 'i',
        MessageType::SendHeaders => 'h',
        MessageType::SendCmpct => 'c',
        MessageType::WtxIdRelay => 'd',
        MessageType::SendAddrV2 => 'a',
    }
}

/// Decoding the command field of a kind of message gives that kind back.
pub proof fn lemma_command_roundtrip(ty: MessageType)
    ensures
        MessageType::wire_bytes(ty) == Ok::<Seq<u8>, SerdeErrorView>(ty.command_bytes()),
        ty.command_bytes().len() == MessageType::SIZE,
        MessageType::parse(ty.command_bytes()) == Ok::<MessageType, SerdeErrorView>(ty),
{
    lemma_names_are_short_ascii(ty);
    lemma_strip_pad(ty.name_bytes(), MessageType::SIZE as nat);
    lemma_lookup_finds_name(ty);
}

} // verus!
