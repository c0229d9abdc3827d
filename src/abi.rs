use vstd::prelude::*;
use alloy::sol_types::SolType;
use alloy::sol_types::sol_data::Uint;

verus! {

/// The read-only contract functions that resolution calls.
#[derive(Clone, Copy, Debug, PartialEq, Eq, Hash, Structural)]
pub enum ReadCall {
    /// `token0()` of a pair.
    Token0,
    /// `token1()` of a pair.
    Token1,
    /// `decimals()` of an ERC-20 token.
    Decimals,
    /// `symbol()` of an ERC-20 token.
    Symbol,
}

/// The canonical Solidity signature of each read call.
pub open spec fn signature_of(c: ReadCall) -> Seq<char> {
    match c {
        ReadCall::Token0 => "token0()"@,
        ReadCall::Token1 => "token1()"@,
        ReadCall::Decimals => "decimals()"@,
        ReadCall::Symbol => "symbol()"@,
    }
}

fn signature_text(c: ReadCall) -> (r: &'static str)
    ensures
        r@ == signature_of(c),
{
    match c {
        ReadCall::Token0 => "token0()",
        ReadCall::Token1 => "token1()",
        ReadCall::Decimals => "decimals()",
        ReadCall::Symbol => "symbol()",
    }
}

/// The Keccak-256 digest of the UTF-8 bytes of a text.
pub uninterp spec fn keccak_of(s: Seq<char>) -> Seq<u8>;

/// The string that ABI-decoding a `string` return value yields, if any.
pub uninterp spec fn abi_string_of(data: Seq<u8>) -> Option<Seq<char>>;

/// Relies on alloy's `primitives::keccak256`: a 32-byte digest that depends on
/// the input alone.
#[verifier::external_body]
fn keccak(s: &str) -> (r: Vec<u8>)
    ensures
        r@ == keccak_of(s@),
        r@.len() == 32,
{
    alloy::primitives::keccak256(s.as_bytes()).to_vec()
}

/// The 4-byte function selector for a read call: the first four bytes of the
/// Keccak-256 digest of its signature. A call without arguments sends exactly
/// these bytes as its input.
pub fn call_selector(c: ReadCall) -> (r: Vec<u8>)
    ensures
        r@ == keccak_of(signature_of(c)).subrange(0, 4),
{
    let digest = keccak(signature_text(c));
    let mut r: Vec<u8> = Vec::new();
    let mut i: usize = 0;
    while i < 4
        invariant
            i <= 4,
            digest@.len() == 32,
            r@ == digest@.subrange(0, i as int),
        decreases 4 - i,
    {
        r.push(digest[i]);
        assert(r@ =~= digest@.subrange(0, i as int + 1));
        i = i + 1;
    }
    r
}

/// Relies on alloy's `sol_types::sol_data::Uint<8>` decoding without
/// validation: it reads the first 32-byte word and keeps its last byte, and
/// fails only when fewer than 32 bytes are given.
#[verifier::external_body]
pub(crate) fn abi_word_uint8(data: &[u8]) -> (r: Option<u8>)
    ensures
        r == (if data@.len() >= 32 { Some(data@[31]) } else { None::<u8> }),
{
    match <alloy::sol_types::sol_data::Uint<8> as alloy::sol_types::SolType>::abi_decode(data, false) {
        Ok(v) => Some(v),
        Err(_) => None,
    }
}

/// Relies on alloy's `sol_types::sol_data::Address` decoding without
/// validation: it reads the first 32-byte word and keeps its last 20 bytes,
/// and fails only when fewer than 32 bytes are given.
#[verifier::external_body]
pub(crate) fn abi_word_address(data: &[u8]) -> (r: Option<crate::address::Address>)
    ensures
        data@.len() >= 32 <==> r.is_some(),
        r matches Some(a) ==> a@ == data@.subrange(12, 32),
{
    match <alloy::sol_types::sol_data::Address as alloy::sol_types::SolType>::abi_decode(data, false) {
        Ok(a) => Some(crate::address::Address { bytes: a.into_array() }),
        Err(_) => None,
    }
}

/// The value of a big-endian byte string.
pub open spec fn be_value(s: Seq<u8>) -> nat
    decreases s.len(),
{
    if s.len() == 0 {
        0
    } else {
        be_value(s.drop_last()) * 256 + s.last() as nat
    }
}

/// Whether the length word of an ABI `string` fits the data, where the offset
/// and the length are read, as a decoder does, from the last `k` bytes of
/// their words: when the offset in word 0 leaves room for a length word, that
/// length is at most the data's length.
pub open spec fn length_fits_for(data: Seq<u8>, k: int) -> bool {
    data.len() >= 32 ==> {
        let offset = be_value(data.subrange(32 - k, 32)) as int;
        offset + 32 <= data.len() ==> be_value(data.subrange(offset + 32 - k, offset + 32)) <= data.len()
    }
}

/// [`length_fits_for`] with offsets read as 4-byte and as 8-byte numbers,
/// so that it holds whatever the width of `usize`.
pub open spec fn string_length_fits(data: Seq<u8>) -> bool {
    length_fits_for(data, 4) && length_fits_for(data, 8)
}

proof fn lemma_be_value_prefix(s: Seq<u8>, a: int, j: int, e: int)
    requires
        0 <= a <= j <= e <= s.len(),
    ensures
        be_value(s.subrange(a, j)) <= be_value(s.subrange(a, e)),
    decreases e - j,
{
    if j < e {
        lemma_be_value_prefix(s, a, j, e - 1);
        assert(s.subrange(a, e).drop_last() =~= s.subrange(a, e - 1));
    }
}

/// The big-endian value of `data[start..end]` where it is at most `cap`.
fn be_value_at_most(data: &[u8], start: usize, end: usize, cap: usize) -> (r: Option<usize>)
    requires
        start <= end <= data@.len(),
    ensures
        match r {
            Some(v) => v as nat == be_value(data@.subrange(start as int, end as int)) && v <= cap,
            None => be_value(data@.subrange(start as int, end as int)) > cap,
        },
{
    let mut v: u128 = 0;
    let mut i: usize = start;
    while i < end
        invariant
            start <= i <= end <= data@.len(),
            v as nat == be_value(data@.subrange(start as int, i as int)),
            v <= cap,
        decreases end - i,
    {
        assert(data@.subrange(start as int, i + 1).drop_last() =~= data@.subrange(start as int, i as int));
        let next: u128 = v * 256 + data[i] as u128;
        if next > cap as u128 {
            proof {
                lemma_be_value_prefix(data@, start as int, i + 1, end as int);
            }
            return None;
        }
        v = next;
        i = i + 1;
    }
    Some(v as usize)
}

fn length_fits_for_exec(data: &[u8], k: usize) -> (r: bool)
    requires
        k == 4 || k == 8,
    ensures
        r == length_fits_for(data@, k as int),
{
    let n = data.len();
    if n < 32 {
        return true;
    }
    match be_value_at_most(data, 32 - k, 32, n - 32) {
        None => true,
        Some(offset) => be_value_at_most(data, offset + 32 - k, offset + 32, n).is_some(),
    }
}

/// Whether a reply can be handed to [`abi_string`].
pub fn string_length_fits_exec(data: &[u8]) -> (r: bool)
    ensures
        r == string_length_fits(data@),
{
    length_fits_for_exec(data, 4) && length_fits_for_exec(data, 8)
}

/// Relies on alloy's `sol_types::sol_data::String` decoding without
/// validation: the result depends on the bytes alone, and the offset word that
/// opens the encoding must be present. The decoder adds 32 to the length word
/// unchecked, so that word must be bounded.
#[verifier::external_body]
pub(crate) fn abi_string(data: &[u8]) -> (r: Option<String>)
    requires
        string_length_fits(data@),
    ensures
        match r {
            Some(s) => abi_string_of(data@) == Some(s@),
            None => abi_string_of(data@).is_none(),
        },
        data@.len() < 32 ==> r.is_none(),
{
    match <alloy::sol_types::sol_data::String as alloy::sol_types::SolType>::abi_decode(data, false) {
        Ok(s) => Some(s),
        Err(_) => None,
    }
}

/// Relies on alloy's `sol_types` decoding of the sequence
/// `(uint112, uint112)` without validation: each value is the big-endian
/// number in the last 14 bytes of its 32-byte word, and decoding fails only
/// when fewer than two words are given.
#[verifier::external_body]
pub(crate) fn abi_two_uint112(data: &[u8]) -> (r: Option<(u128, u128)>)
    ensures
        data@.len() >= 64 <==> r.is_some(),
        r matches Some((a, b)) ==> a as nat == be_value(data@.subrange(18, 32)) && b as nat
            == be_value(data@.subrange(50, 64)),
{
    match <(Uint<112>, Uint<112>) as SolType>::abi_decode_sequence(data, false) {
        Ok((a, b)) => Some((a.to::<u128>(), b.to::<u128>())),
        Err(_) => None,
    }
}

/// The topic that identifies a reserve `Sync` event.
pub open spec fn sync_signature() -> Seq<char> {
    "Sync(uint112,uint112)"@
}

/// The first topic of every reserve `Sync` log: the Keccak-256 digest of the
/// event's signature.
pub fn sync_topic() -> (r: Vec<u8>)
    ensures
        r@ == keccak_of(sync_signature()),
        r@.len() == 32,
{
    keccak("Sync(uint112,uint112)")
}

} // verus!
