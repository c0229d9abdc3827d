use vstd::prelude::*;
use crate::address::Address;
use crate::abi::{abi_two_uint112, be_value};
use crate::cache::PairInfo;

verus! {

/// A decoded reserve `Sync` event of one pair.
#[derive(Debug)]
pub struct SyncEvent {
    pub pair: Address,
    pub reserve0: u128,
    pub reserve1: u128,
    pub block_number: Option<u64>,
    pub transaction_hash: Option<[u8; 32]>,
}

/// One output record: the two symbols, the price as
/// `reserve0 * 10^scale_exponent / reserve1`, and where the event came from.
#[derive(Debug)]
pub struct PriceRow {
    pub symbol0: String,
    pub symbol1: String,
    pub reserve0: u128,
    pub reserve1: u128,
    pub scale_exponent: i16,
    pub block_number: Option<u64>,
    pub transaction_hash: Option<[u8; 32]>,
}

impl SyncEvent {
    /// Decodes the data of a reserve `Sync` log emitted by `pair`: two
    /// `uint112` words. `None` where the data is shorter than two words.
    pub fn from_log_data(
        pair: Address,
        data: &[u8],
        block_number: Option<u64>,
        transaction_hash: Option<[u8; 32]>,
    ) -> (r: Option<SyncEvent>)
        ensures
            r.is_some() == (data@.len() >= 64),
            r matches Some(e) ==> {
                &&& e.pair == pair
                &&& e.reserve0 as nat == be_value(data@.subrange(18, 32))
                &&& e.reserve1 as nat == be_value(data@.subrange(50, 64))
                &&& e.block_number == block_number
                &&& e.transaction_hash == transaction_hash
            },
    {
        match abi_two_uint112(data) {
            Some((reserve0, reserve1)) => Some(
                SyncEvent { pair, reserve0, reserve1, block_number, transaction_hash },
            ),
            None => None,
        }
    }
}

pub open spec fn pow10(n: nat) -> int
    decreases n,
{
    if n == 0 {
        1
    } else {
        10 * pow10((n - 1) as nat)
    }
}

/// The price `r0 * 10^(d1 - d0) / r1` as a fraction (numerator, denominator)
/// of integers; the denominator is zero where `r1` is.
pub open spec fn price_fraction(r0: int, r1: int, d0: int, d1: int) -> (int, int) {
    if d1 >= d0 {
        (r0 * pow10((d1 - d0) as nat), r1)
    } else {
        (r0, r1 * pow10((d0 - d1) as nat))
    }
}

impl PriceRow {
    /// The row's price as a fraction of integers.
    pub open spec fn fraction(&self) -> (int, int) {
        if self.scale_exponent >= 0 {
            (self.reserve0 * pow10(self.scale_exponent as nat), self.reserve1 as int)
        } else {
            (self.reserve0 as int, self.reserve1 * pow10((-self.scale_exponent) as nat))
        }
    }
}

/// Whether an event with this pair outcome is reported: both tokens'
/// metadata must be known.
pub open spec fn reportable(outcome: Option<PairInfo>) -> bool {
    outcome matches Some(p) && p.token0_meta.is_some() && p.token1_meta.is_some()
}

/// The header line of the report.
pub fn header() -> (r: &'static str)
    ensures
        r@ == "symbol_0\tsymbol_1\tprice"@,
{
    "symbol_0\tsymbol_1\tprice"
}

/// The record for one event, given its pair's outcome: `None` unless both
/// tokens' metadata are known. A zero reserve is no error: the row carries it.
pub fn price_row(event: &SyncEvent, outcome: &Option<PairInfo>) -> (r: Option<PriceRow>)
    ensures
        r.is_some() == reportable(*outcome),
        r matches Some(row) ==> {
            let p = outcome->Some_0;
            let m0 = p.token0_meta->Some_0;
            let m1 = p.token1_meta->Some_0;
            &&& row.symbol0@ == m0.symbol@
            &&& row.symbol1@ == m1.symbol@
            &&& row.reserve0 == event.reserve0
            &&& row.reserve1 == event.reserve1
            &&& row.scale_exponent == m1.decimals - m0.decimals
            &&& row.block_number == event.block_number
            &&& row.transaction_hash == event.transaction_hash
            &&& row.fraction() == price_fraction(
                event.reserve0 as int,
                event.reserve1 as int,
                m0.decimals as int,
                m1.decimals as int,
            )
        },
{
    match outcome {
        Some(p) => match (&p.token0_meta, &p.token1_meta) {
            (Some(m0), Some(m1)) => {
                let scale_exponent: i16 = m1.decimals as i16 - m0.decimals as i16;
                Some(PriceRow {
                    symbol0: m0.symbol.clone(),
                    symbol1: m1.symbol.clone(),
                    reserve0: event.reserve0,
                    reserve1: event.reserve1,
                    scale_exponent,
                    block_number: event.block_number,
                    transaction_hash: event.transaction_hash,
                })
            },
            _ => None,
        },
        None => None,
    }
}

} // verus!
