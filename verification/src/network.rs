use vstd::prelude::*;

verus! {

/// What a request on a memory chunk asks for.
#[derive(Clone, Copy, Debug, PartialEq, Eq, Structural)]
pub enum CMD {
    Read,
    Write,
    GetBase,
}

impl Default for CMD {
    fn default() -> (res: Self)
        ensures
            res == CMD::Read,
    {
        CMD::Read
    }
}

/// A request on `size` bytes at `addr`, with the bytes read or to be written.
#[derive(Clone, Debug)]
pub struct MemChunk {
    pub cmd: CMD,
    pub addr: u64,
    pub size: u64,
    pub data: Vec<u8>,
}

impl Default for MemChunk {
    fn default() -> (res: Self)
        ensures
            res.cmd == CMD::Read,
            res.addr == 0,
            res.size == 0,
            res.data@ == Seq::<u8>::empty(),
    {
        MemChunk { cmd: CMD::Read, addr: 0, size: 0, data: Vec::new() }
    }
}

/// Largest datagram a query arrives in, in bytes.
pub const DATAGRAM_LEN: usize = 65535;

/// What bincode's standard configuration, with a claim limit of 65535 bytes,
/// decodes from the front of `bytes` as a `String`: the text and the number of
/// bytes it took, or `None` where the bytes hold no such string.
pub uninterp spec fn bincode_text(bytes: Seq<u8>) -> Option<(Seq<char>, nat)>;

/// What bincode's standard configuration encodes the `String` holding `text` as.
pub uninterp spec fn bincode_bytes(text: Seq<char>) -> Seq<u8>;

/// Decodes a bincode string from the front of `datagram`.
///
/// Calls `bincode::serde::decode_from_slice` with `bincode::config::standard()`
/// limited to 65535 claimed bytes. The limit only turns away a declared length
/// longer than any datagram, which the unlimited configuration would first try
/// to allocate and then reject for want of bytes, so within `DATAGRAM_LEN` the
/// answer is the standard configuration's. The contract names the answer
/// `bincode_text`; which byte strings decode, and to what, is left to that name.
#[verifier::external_body]
fn bincode_decode_string(datagram: &[u8]) -> (res: Option<String>)
    requires
        datagram@.len() <= 65535,
    ensures
        res is Some <==> bincode_text(datagram@) is Some,
        res matches Some(s) ==> s@ == bincode_text(datagram@).unwrap().0,
{
    bincode::serde::decode_from_slice::<String, _>(datagram, bincode::config::standard().with_limit::<65535>())
        .ok()
        .map(|(s, _)| s)
}

/// Encodes `text` with bincode at the front of `buf`.
///
/// Calls `bincode::serde::encode_into_slice` with `bincode::config::standard()`.
/// Its slice writer fails exactly when the encoding does not fit, writes only
/// the front of `buf`, and what it writes decodes back to `text`. Where it
/// fails, part of the encoding may stand in `buf`; the contract says nothing of
/// `buf` then beyond its length.
#[verifier::external_body]
fn bincode_encode_string(text: String, buf: &mut [u8]) -> (res: Option<usize>)
    ensures
        final(buf)@.len() == old(buf)@.len(),
        res is Some <==> bincode_bytes(text@).len() <= old(buf)@.len(),
        res matches Some(n) ==> n == bincode_bytes(text@).len()
            && final(buf)@.take(n as int) == bincode_bytes(text@)
            && final(buf)@.skip(n as int) == old(buf)@.skip(n as int),
        res matches Some(n) ==> final(buf)@.len() <= 65535 ==> bincode_text(final(buf)@) == Some((text@, n as nat)),
{
    bincode::serde::encode_into_slice(text, buf, bincode::config::standard()).ok()
}

/// Decodes the text of a query datagram; `None` where it holds no bincode string.
pub fn decode_query(datagram: &[u8]) -> (res: Option<String>)
    requires
        datagram@.len() <= DATAGRAM_LEN,
    ensures
        res is Some <==> bincode_text(datagram@) is Some,
        res matches Some(s) ==> s@ == bincode_text(datagram@).unwrap().0,
{
    bincode_decode_string(datagram)
}

/// Encodes the reply text at the front of `buf` and returns how many bytes of
/// `buf` to send; `None` where the encoding does not fit.
pub fn encode_reply(text: String, buf: &mut [u8]) -> (res: Option<usize>)
    ensures
        final(buf)@.len() == old(buf)@.len(),
        res is Some <==> bincode_bytes(text@).len() <= old(buf)@.len(),
        res matches Some(n) ==> n <= final(buf)@.len()
            && final(buf)@.take(n as int) == bincode_bytes(text@)
            && final(buf)@.skip(n as int) == old(buf)@.skip(n as int),
        res matches Some(n) ==> final(buf)@.len() <= DATAGRAM_LEN
            ==> bincode_text(final(buf)@) == Some((text@, n as nat)),
{
    bincode_encode_string(text, buf)
}

} // verus!
