//! Resolution of Uniswap-V2-style pair and ERC-20 token metadata with a
//! write-once cache, and the reporting rules for reserve `Sync` events.
//!
//! Chain access stays with the caller: a [`PairResolver`] or a
//! [`TokenResolver`] says which read-only call to make next and takes back
//! the raw return data, so each distinct address is queried at most once per
//! cache.

mod address;
mod abi;
mod cache;
mod resolve;
mod token;
mod report;
mod laws;

pub use address::Address;
pub use abi::{
    ReadCall, abi_string_of, be_value, length_fits_for, string_length_fits, string_length_fits_exec, call_selector, keccak_of, signature_of, sync_signature, sync_topic,
};
pub use cache::{
    PairInfo, PairInfoView, ResolutionCache, TokenInfo, TokenInfoView, duplicate_meta, duplicate_pair,
    keeps_entries, meta_view, pair_view, stored,
};
pub use resolve::{
    CallRequest, PairResolver, Slot, Stage, StageView, after_token, call_of, enter_first, enter_second,
    next_stage, pairs_after, reply_address, reply_view, settled, slot_token,
    start_stage, tokens_after,
};
pub use token::{
    TokenResolver, TokenStage, TokenStageView, reply_string, reply_uint8, token_call, token_next,
    token_outcomes_after, token_start,
};
pub use report::{PriceRow, SyncEvent, header, pow10, price_fraction, price_row, reportable};
pub use laws::{
    lemma_cached_tokens_need_no_call, lemma_failure_is_final, lemma_other_pairs_untouched,
    lemma_partial_pair, lemma_reply_keeps_entries, lemma_second_resolution_is_cached,
    lemma_second_token_resolution_is_cached,
};
