use vstd::prelude::*;
use crate::address::Address;
use crate::abi::{ReadCall, abi_word_address, call_selector, keccak_of, signature_of};
use crate::token::{
    TokenStage, TokenStageView, token_call, token_call_exec, token_next, token_outcomes_after, token_step,
};
use crate::cache::{
    PairInfo, PairInfoView, ResolutionCache, TokenInfo, TokenInfoView, meta_view, pair_view, stored,
};

verus! {

/// Which of a pair's two tokens is being resolved.
#[derive(Clone, Copy, Debug, PartialEq, Eq, Structural)]
pub enum Slot {
    First,
    Second,
}

/// Where the resolution of one pair stands.
#[derive(Debug)]
pub enum Stage {
    /// Waiting for the pair's `token0()`.
    AwaitToken0,
    /// Waiting for the pair's `token1()`.
    AwaitToken1 { token0: Address },
    /// Resolving the token in `slot`; `meta0` is the first token's outcome
    /// once the second one is being resolved.
    ResolvingToken {
        token0: Address,
        token1: Address,
        slot: Slot,
        meta0: Option<TokenInfo>,
        token: TokenStage,
    },
    /// Resolution is over; this is the pair's outcome as the cache holds it.
    Done { outcome: Option<PairInfo> },
}

/// The mathematical value of a [`Stage`].
pub enum StageView {
    AwaitToken0,
    AwaitToken1 { token0: Seq<u8> },
    ResolvingToken {
        token0: Seq<u8>,
        token1: Seq<u8>,
        slot: Slot,
        meta0: Option<TokenInfoView>,
        token: TokenStageView,
    },
    Done { outcome: Option<PairInfoView> },
}

impl View for Stage {
    type V = StageView;

    open spec fn view(&self) -> StageView {
        match self {
            Stage::AwaitToken0 => StageView::AwaitToken0,
            Stage::AwaitToken1 { token0 } => StageView::AwaitToken1 { token0: token0@ },
            Stage::ResolvingToken { token0, token1, slot, meta0, token } => StageView::ResolvingToken {
                token0: token0@,
                token1: token1@,
                slot: *slot,
                meta0: meta_view(*meta0),
                token: token@,
            },
            Stage::Done { outcome } => StageView::Done { outcome: pair_view(*outcome) },
        }
    }
}

/// One read-only contract call to make: `input` goes to `target`.
#[derive(Debug)]
pub struct CallRequest {
    pub target: Address,
    pub call: ReadCall,
    pub input: Vec<u8>,
}

/// The resolution of one pair address, driven by the replies to the calls
/// that it asks for.
#[derive(Debug)]
pub struct PairResolver {
    pub pair: Address,
    pub stage: Stage,
}

/// The address that `slot` picks.
pub open spec fn slot_token(token0: Seq<u8>, token1: Seq<u8>, slot: Slot) -> Seq<u8> {
    match slot {
        Slot::First => token0,
        Slot::Second => token1,
    }
}

/// An address decoded from a reply; `None` for a failed call or short data.
pub open spec fn reply_address(reply: Option<Seq<u8>>) -> Option<Seq<u8>> {
    match reply {
        Some(b) => if b.len() >= 32 { Some(b.subrange(12, 32)) } else { None },
        None => None,
    }
}

/// The stage once the first token's outcome is `meta0`: the second token is
/// taken from the cache where it is held, and otherwise asked for.
pub open spec fn enter_second(
    token0: Seq<u8>,
    token1: Seq<u8>,
    meta0: Option<TokenInfoView>,
    tokens: Map<Seq<u8>, Option<TokenInfoView>>,
) -> StageView {
    if tokens.contains_key(token1) {
        StageView::Done {
            outcome: Some(
                PairInfoView { token0, token1, token0_meta: meta0, token1_meta: tokens[token1] },
            ),
        }
    } else {
        StageView::ResolvingToken {
            token0,
            token1,
            slot: Slot::Second,
            meta0,
            token: TokenStageView::AwaitDecimals,
        }
    }
}

/// The stage once both token addresses are known: the first token is taken
/// from the cache where it is held, and otherwise asked for.
pub open spec fn enter_first(
    token0: Seq<u8>,
    token1: Seq<u8>,
    tokens: Map<Seq<u8>, Option<TokenInfoView>>,
) -> StageView {
    if tokens.contains_key(token0) {
        enter_second(token0, token1, tokens[token0], tokens)
    } else {
        StageView::ResolvingToken {
            token0,
            token1,
            slot: Slot::First,
            meta0: None,
            token: TokenStageView::AwaitDecimals,
        }
    }
}

/// The stage once the token in `slot` has its outcome in `tokens`.
pub open spec fn after_token(
    token0: Seq<u8>,
    token1: Seq<u8>,
    slot: Slot,
    meta0: Option<TokenInfoView>,
    tokens: Map<Seq<u8>, Option<TokenInfoView>>,
) -> StageView {
    match slot {
        Slot::First => enter_second(token0, token1, tokens[token0], tokens),
        Slot::Second => StageView::Done {
            outcome: Some(
                PairInfoView { token0, token1, token0_meta: meta0, token1_meta: tokens[token1] },
            ),
        },
    }
}

/// The token outcomes after a reply arrives in `stage`: only a stage that
/// resolves a token can settle one.
pub open spec fn tokens_after(
    stage: StageView,
    reply: Option<Seq<u8>>,
    tokens: Map<Seq<u8>, Option<TokenInfoView>>,
) -> Map<Seq<u8>, Option<TokenInfoView>> {
    match stage {
        StageView::ResolvingToken { token0, token1, slot, token, .. } => token_outcomes_after(
            slot_token(token0, token1, slot),
            token,
            reply,
            tokens,
        ),
        _ => tokens,
    }
}

/// The stage that a reply leads to, given the token outcomes after it. A
/// `Done` stage here carries the freshly built outcome, before the cache has
/// had its say.
pub open spec fn next_stage(
    stage: StageView,
    reply: Option<Seq<u8>>,
    tokens: Map<Seq<u8>, Option<TokenInfoView>>,
) -> StageView {
    match stage {
        StageView::AwaitToken0 => match reply_address(reply) {
            Some(token0) => StageView::AwaitToken1 { token0 },
            None => StageView::Done { outcome: None },
        },
        StageView::AwaitToken1 { token0 } => match reply_address(reply) {
            Some(token1) => enter_first(token0, token1, tokens),
            None => StageView::Done { outcome: None },
        },
        StageView::ResolvingToken { token0, token1, slot, meta0, token } => match token_next(
            slot_token(token0, token1, slot),
            token,
            reply,
            tokens,
        ) {
            TokenStageView::Done { .. } => after_token(token0, token1, slot, meta0, tokens),
            next => StageView::ResolvingToken { token0, token1, slot, meta0, token: next },
        },
        StageView::Done { outcome } => StageView::Done { outcome },
    }
}

/// The pair outcomes once `stage` is reached: a `Done` stage is stored,
/// write-once, under the pair's address.
pub open spec fn pairs_after(
    pair: Seq<u8>,
    stage: StageView,
    pairs: Map<Seq<u8>, Option<PairInfoView>>,
) -> Map<Seq<u8>, Option<PairInfoView>> {
    match stage {
        StageView::Done { outcome } => stored(pairs, pair, outcome),
        _ => pairs,
    }
}

/// The stage as the resolver holds it: a `Done` stage carries what the cache
/// holds for the pair.
pub open spec fn settled(
    pair: Seq<u8>,
    stage: StageView,
    pairs: Map<Seq<u8>, Option<PairInfoView>>,
) -> StageView {
    match stage {
        StageView::Done { outcome } => StageView::Done { outcome: stored(pairs, pair, outcome)[pair] },
        _ => stage,
    }
}

/// The call that a stage waits for: its target address and function.
pub open spec fn call_of(pair: Seq<u8>, stage: StageView) -> Option<(Seq<u8>, ReadCall)> {
    match stage {
        StageView::AwaitToken0 => Some((pair, ReadCall::Token0)),
        StageView::AwaitToken1 { .. } => Some((pair, ReadCall::Token1)),
        StageView::ResolvingToken { token0, token1, slot, token, .. } => match token_call(token) {
            Some(call) => Some((slot_token(token0, token1, slot), call)),
            None => None,
        },
        StageView::Done { .. } => None,
    }
}

/// The first stage of resolving `pair`: its cached outcome where one is held.
pub open spec fn start_stage(pair: Seq<u8>, pairs: Map<Seq<u8>, Option<PairInfoView>>) -> StageView {
    if pairs.contains_key(pair) {
        StageView::Done { outcome: pairs[pair] }
    } else {
        StageView::AwaitToken0
    }
}

pub open spec fn reply_view(reply: Option<Vec<u8>>) -> Option<Seq<u8>> {
    match reply {
        Some(b) => Some(b@),
        None => None,
    }
}

fn decoded_address(reply: &Option<Vec<u8>>) -> (r: Option<Address>)
    ensures
        match reply_address(reply_view(*reply)) {
            Some(a) => r matches Some(x) && x@ == a,
            None => r is None,
        },
{
    match reply {
        Some(b) => abi_word_address(b.as_slice()),
        None => None,
    }
}

fn enter_second_exec(
    token0: Address,
    token1: Address,
    meta0: Option<TokenInfo>,
    cache: &ResolutionCache,
) -> (r: Stage)
    requires
        cache.wf(),
    ensures
        r@ == enter_second(token0@, token1@, meta_view(meta0), cache.tokens()),
{
    match cache.cached_token(&token1) {
        Some(meta1) => Stage::Done {
            outcome: Some(PairInfo { token0, token1, token0_meta: meta0, token1_meta: meta1 }),
        },
        None => Stage::ResolvingToken {
            token0,
            token1,
            slot: Slot::Second,
            meta0,
            token: TokenStage::AwaitDecimals,
        },
    }
}

fn enter_first_exec(token0: Address, token1: Address, cache: &ResolutionCache) -> (r: Stage)
    requires
        cache.wf(),
    ensures
        r@ == enter_first(token0@, token1@, cache.tokens()),
{
    match cache.cached_token(&token0) {
        Some(meta0) => enter_second_exec(token0, token1, meta0, cache),
        None => Stage::ResolvingToken {
            token0,
            token1,
            slot: Slot::First,
            meta0: None,
            token: TokenStage::AwaitDecimals,
        },
    }
}

/// `outcome` is what the cache holds for the token in `slot`.
fn after_token_exec(
    token0: Address,
    token1: Address,
    slot: Slot,
    meta0: Option<TokenInfo>,
    outcome: Option<TokenInfo>,
    cache: &ResolutionCache,
) -> (r: Stage)
    requires
        cache.wf(),
        cache.tokens().contains_key(slot_token(token0@, token1@, slot)),
        meta_view(outcome) == cache.tokens()[slot_token(token0@, token1@, slot)],
    ensures
        r@ == after_token(token0@, token1@, slot, meta_view(meta0), cache.tokens()),
{
    match slot {
        Slot::First => enter_second_exec(token0, token1, outcome, cache),
        Slot::Second => Stage::Done {
            outcome: Some(PairInfo { token0, token1, token0_meta: meta0, token1_meta: outcome }),
        },
    }
}

fn slot_address(token0: Address, token1: Address, slot: Slot) -> (r: Address)
    ensures
        r@ == slot_token(token0@, token1@, slot),
{
    match slot {
        Slot::First => token0,
        Slot::Second => token1,
    }
}

impl PairResolver {
    /// Begins resolving `pair`; a pair the cache already holds is done at once.
    pub fn start(cache: &ResolutionCache, pair: Address) -> (r: PairResolver)
        requires
            cache.wf(),
        ensures
            r.pair == pair,
            r.stage@ == start_stage(pair@, cache.pairs()),
    {
        match cache.cached_pair(&pair) {
            Some(outcome) => PairResolver { pair, stage: Stage::Done { outcome } },
            None => PairResolver { pair, stage: Stage::AwaitToken0 },
        }
    }

    /// The call whose reply the resolver waits for; `None` once it is done.
    pub fn pending_call(&self) -> (r: Option<CallRequest>)
        ensures
            match call_of(self.pair@, self.stage@) {
                Some((target, call)) => r matches Some(q) && q.target@ == target && q.call == call
                    && q.input@ == keccak_of(signature_of(call)).subrange(0, 4),
                None => r is None,
            },
    {
        let (target, call) = match &self.stage {
            Stage::AwaitToken0 => (self.pair, ReadCall::Token0),
            Stage::AwaitToken1 { .. } => (self.pair, ReadCall::Token1),
            Stage::ResolvingToken { token0, token1, slot, token, .. } => match token_call_exec(token) {
                Some(call) => (slot_address(*token0, *token1, *slot), call),
                None => {
                    return None;
                },
            },
            Stage::Done { .. } => {
                return None;
            },
        };
        Some(CallRequest { target, call, input: call_selector(call) })
    }

    /// The pair's outcome once resolution is done.
    pub fn outcome(self) -> (r: Option<Option<PairInfo>>)
        ensures
            match self.stage@ {
                StageView::Done { outcome } => r matches Some(o) && pair_view(o) == outcome,
                _ => r is None,
            },
    {
        match self.stage {
            Stage::Done { outcome } => Some(outcome),
            _ => None,
        }
    }

    /// Takes the reply to the pending call (`None` where the call failed) and
    /// moves on, storing each outcome that is settled in the cache.
    pub fn on_reply(self, cache: &mut ResolutionCache, reply: Option<Vec<u8>>) -> (r: PairResolver)
        requires
            old(cache).wf(),
        ensures
            final(cache).wf(),
            final(cache).extends(*old(cache)),
            r.pair == self.pair,
            final(cache).tokens() == tokens_after(self.stage@, reply_view(reply), old(cache).tokens()),
            final(cache).pairs() == pairs_after(
                self.pair@,
                next_stage(self.stage@, reply_view(reply), final(cache).tokens()),
                old(cache).pairs(),
            ),
            r.stage@ == settled(
                self.pair@,
                next_stage(self.stage@, reply_view(reply), final(cache).tokens()),
                old(cache).pairs(),
            ),
    {
        let pair = self.pair;
        proof {
            crate::laws::lemma_reply_keeps_entries(
                pair@,
                self.stage@,
                reply_view(reply),
                old(cache).tokens(),
                old(cache).pairs(),
            );
        }
        let next = match self.stage {
            Stage::AwaitToken0 => match decoded_address(&reply) {
                Some(token0) => Stage::AwaitToken1 { token0 },
                None => Stage::Done { outcome: None },
            },
            Stage::AwaitToken1 { token0 } => match decoded_address(&reply) {
                Some(token1) => enter_first_exec(token0, token1, cache),
                None => Stage::Done { outcome: None },
            },
            Stage::ResolvingToken { token0, token1, slot, meta0, token } => {
                match token_step(slot_address(token0, token1, slot), token, cache, &reply) {
                    TokenStage::Done { outcome } => after_token_exec(token0, token1, slot, meta0, outcome, cache),
                    next => Stage::ResolvingToken { token0, token1, slot, meta0, token: next },
                }
            },
            Stage::Done { outcome } => Stage::Done { outcome },
        };
        match next {
            Stage::Done { outcome } => {
                let held = cache.record_pair(pair, outcome);
                PairResolver { pair, stage: Stage::Done { outcome: held } }
            },
            other => PairResolver { pair, stage: other },
        }
    }
}

} // verus!
