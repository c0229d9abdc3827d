use vstd::prelude::*;
use crate::address::Address;
use crate::abi::{
    ReadCall, abi_string, abi_string_of, abi_word_uint8, call_selector, keccak_of, signature_of,
    string_length_fits, string_length_fits_exec,
};
use crate::cache::{ResolutionCache, TokenInfo, TokenInfoView, meta_view, stored};
use crate::resolve::{CallRequest, reply_view};

verus! {

/// Where the resolution of one token stands.
#[derive(Debug)]
pub enum TokenStage {
    /// Waiting for the token's `decimals()`.
    AwaitDecimals,
    /// Waiting for the token's `symbol()`.
    AwaitSymbol { decimals: u8 },
    /// Resolution is over; this is the token's outcome as the cache holds it.
    Done { outcome: Option<TokenInfo> },
}

/// The mathematical value of a [`TokenStage`].
pub enum TokenStageView {
    AwaitDecimals,
    AwaitSymbol { decimals: u8 },
    Done { outcome: Option<TokenInfoView> },
}

impl View for TokenStage {
    type V = TokenStageView;

    open spec fn view(&self) -> TokenStageView {
        match self {
            TokenStage::AwaitDecimals => TokenStageView::AwaitDecimals,
            TokenStage::AwaitSymbol { decimals } => TokenStageView::AwaitSymbol { decimals: *decimals },
            TokenStage::Done { outcome } => TokenStageView::Done { outcome: meta_view(*outcome) },
        }
    }
}

/// The resolution of one token address, driven by the replies to the calls
/// that it asks for.
#[derive(Debug)]
pub struct TokenResolver {
    pub token: Address,
    pub stage: TokenStage,
}

/// A `uint8` decoded from a reply; `None` for a failed call or short data.
pub open spec fn reply_uint8(reply: Option<Seq<u8>>) -> Option<u8> {
    match reply {
        Some(b) => if b.len() >= 32 { Some(b[31]) } else { None },
        None => None,
    }
}

/// A string decoded from a reply; `None` for a failed call, bad data, or a
/// length word larger than the reply.
pub open spec fn reply_string(reply: Option<Seq<u8>>) -> Option<Seq<char>> {
    match reply {
        Some(b) => if string_length_fits(b) { abi_string_of(b) } else { None },
        None => None,
    }
}

fn decoded_uint8(reply: &Option<Vec<u8>>) -> (r: Option<u8>)
    ensures
        r == reply_uint8(reply_view(*reply)),
{
    match reply {
        Some(b) => abi_word_uint8(b.as_slice()),
        None => None,
    }
}

fn decoded_string(reply: &Option<Vec<u8>>) -> (r: Option<String>)
    ensures
        match reply_string(reply_view(*reply)) {
            Some(s) => r matches Some(x) && x@ == s,
            None => r is None,
        },
{
    match reply {
        Some(b) => if string_length_fits_exec(b.as_slice()) {
            abi_string(b.as_slice())
        } else {
            None
        },
        None => None,
    }
}

/// The first stage of resolving `token`: its cached outcome where one is held.
pub open spec fn token_start(token: Seq<u8>, tokens: Map<Seq<u8>, Option<TokenInfoView>>) -> TokenStageView {
    if tokens.contains_key(token) {
        TokenStageView::Done { outcome: tokens[token] }
    } else {
        TokenStageView::AwaitDecimals
    }
}

/// The token outcomes after a reply arrives in `stage`: a failed
/// `decimals()`, any `symbol()` reply, or a finished stage settles `token`
/// (write-once).
pub open spec fn token_outcomes_after(
    token: Seq<u8>,
    stage: TokenStageView,
    reply: Option<Seq<u8>>,
    tokens: Map<Seq<u8>, Option<TokenInfoView>>,
) -> Map<Seq<u8>, Option<TokenInfoView>> {
    match stage {
        TokenStageView::AwaitDecimals => match reply_uint8(reply) {
            Some(_) => tokens,
            None => stored(tokens, token, None),
        },
        TokenStageView::AwaitSymbol { decimals } => stored(
            tokens,
            token,
            match reply_string(reply) {
                Some(symbol) => Some(TokenInfoView { decimals, symbol }),
                None => None,
            },
        ),
        TokenStageView::Done { outcome } => stored(tokens, token, outcome),
    }
}

/// The stage that a reply leads to, given the token outcomes after it: once
/// done, the outcome is the one the cache holds.
pub open spec fn token_next(
    token: Seq<u8>,
    stage: TokenStageView,
    reply: Option<Seq<u8>>,
    tokens: Map<Seq<u8>, Option<TokenInfoView>>,
) -> TokenStageView {
    match stage {
        TokenStageView::AwaitDecimals => match reply_uint8(reply) {
            Some(decimals) => TokenStageView::AwaitSymbol { decimals },
            None => TokenStageView::Done { outcome: tokens[token] },
        },
        _ => TokenStageView::Done { outcome: tokens[token] },
    }
}

/// The call that a token stage waits for.
pub open spec fn token_call(stage: TokenStageView) -> Option<ReadCall> {
    match stage {
        TokenStageView::AwaitDecimals => Some(ReadCall::Decimals),
        TokenStageView::AwaitSymbol { .. } => Some(ReadCall::Symbol),
        TokenStageView::Done { .. } => None,
    }
}

pub(crate) fn token_call_exec(stage: &TokenStage) -> (r: Option<ReadCall>)
    ensures
        r == token_call(stage@),
{
    match stage {
        TokenStage::AwaitDecimals => Some(ReadCall::Decimals),
        TokenStage::AwaitSymbol { .. } => Some(ReadCall::Symbol),
        TokenStage::Done { .. } => None,
    }
}

/// One step of a token's resolution: takes the reply to its pending call and
/// stores the outcome once it is settled.
pub(crate) fn token_step(
    token: Address,
    stage: TokenStage,
    cache: &mut ResolutionCache,
    reply: &Option<Vec<u8>>,
) -> (r: TokenStage)
    requires
        old(cache).wf(),
    ensures
        final(cache).wf(),
        final(cache).tokens() == token_outcomes_after(token@, stage@, reply_view(*reply), old(cache).tokens()),
        final(cache).pairs() == old(cache).pairs(),
        r@ == token_next(token@, stage@, reply_view(*reply), final(cache).tokens()),
        r@ is Done ==> final(cache).tokens().contains_key(token@),
{
    match stage {
        TokenStage::AwaitDecimals => match decoded_uint8(reply) {
            Some(decimals) => TokenStage::AwaitSymbol { decimals },
            None => TokenStage::Done { outcome: cache.record_token(token, None) },
        },
        TokenStage::AwaitSymbol { decimals } => {
            let info = match decoded_string(reply) {
                Some(symbol) => Some(TokenInfo { decimals, symbol }),
                None => None,
            };
            TokenStage::Done { outcome: cache.record_token(token, info) }
        },
        TokenStage::Done { outcome } => TokenStage::Done { outcome: cache.record_token(token, outcome) },
    }
}

impl TokenResolver {
    /// Begins resolving `token`; a token the cache already holds is done at once.
    pub fn start(cache: &ResolutionCache, token: Address) -> (r: TokenResolver)
        requires
            cache.wf(),
        ensures
            r.token == token,
            r.stage@ == token_start(token@, cache.tokens()),
    {
        match cache.cached_token(&token) {
            Some(outcome) => TokenResolver { token, stage: TokenStage::Done { outcome } },
            None => TokenResolver { token, stage: TokenStage::AwaitDecimals },
        }
    }

    /// The call whose reply the resolver waits for; `None` once it is done.
    pub fn pending_call(&self) -> (r: Option<CallRequest>)
        ensures
            match token_call(self.stage@) {
                Some(call) => r matches Some(q) && q.target@ == self.token@ && q.call == call
                    && q.input@ == keccak_of(signature_of(call)).subrange(0, 4),
                None => r is None,
            },
    {
        match token_call_exec(&self.stage) {
            Some(call) => Some(CallRequest { target: self.token, call, input: call_selector(call) }),
            None => None,
        }
    }

    /// The token's outcome once resolution is done.
    pub fn outcome(self) -> (r: Option<Option<TokenInfo>>)
        ensures
            match self.stage@ {
                TokenStageView::Done { outcome } => r matches Some(o) && meta_view(o) == outcome,
                _ => r is None,
            },
    {
        match self.stage {
            TokenStage::Done { outcome } => Some(outcome),
            _ => None,
        }
    }

    /// Takes the reply to the pending call (`None` where the call failed) and
    /// moves on; the outcome is stored in the cache once it is settled.
    pub fn on_reply(self, cache: &mut ResolutionCache, reply: Option<Vec<u8>>) -> (r: TokenResolver)
        requires
            old(cache).wf(),
        ensures
            final(cache).wf(),
            final(cache).extends(*old(cache)),
            r.token == self.token,
            final(cache).tokens() == token_outcomes_after(
                self.token@,
                self.stage@,
                reply_view(reply),
                old(cache).tokens(),
            ),
            final(cache).pairs() == old(cache).pairs(),
            r.stage@ == token_next(self.token@, self.stage@, reply_view(reply), final(cache).tokens()),
    {
        let token = self.token;
        let stage = token_step(token, self.stage, cache, &reply);
        TokenResolver { token, stage }
    }
}

} // verus!
