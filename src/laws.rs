use vstd::prelude::*;
use crate::cache::{PairInfoView, ResolutionCache, TokenInfoView, keeps_entries};
use crate::token::{
    TokenStageView, reply_string, reply_uint8, token_call, token_next, token_outcomes_after, token_start,
};
use crate::resolve::{
    Slot, StageView, call_of, enter_first, enter_second, next_stage, pairs_after, settled, start_stage,
    tokens_after,
};

verus! {

/// Every reply keeps every cached token and pair outcome as it was.
pub proof fn lemma_reply_keeps_entries(
    pair: Seq<u8>,
    stage: StageView,
    reply: Option<Seq<u8>>,
    tokens: Map<Seq<u8>, Option<TokenInfoView>>,
    pairs: Map<Seq<u8>, Option<PairInfoView>>,
)
    ensures
        keeps_entries(tokens, tokens_after(stage, reply, tokens)),
        keeps_entries(
            pairs,
            pairs_after(pair, next_stage(stage, reply, tokens_after(stage, reply, tokens)), pairs),
        ),
{
}

/// Once an address is cached as a failure, a cache that extends that one
/// holds the same failure: it never becomes a success.
pub proof fn lemma_failure_is_final(earlier: ResolutionCache, later: ResolutionCache, a: Seq<u8>)
    requires
        later.extends(earlier),
    ensures
        earlier.tokens().contains_key(a) && earlier.tokens()[a] is None ==> later.tokens().contains_key(a)
            && later.tokens()[a] is None,
        earlier.pairs().contains_key(a) && earlier.pairs()[a] is None ==> later.pairs().contains_key(a)
            && later.pairs()[a] is None,
{
}

/// A resolver that is done holds what the cache now holds for its pair, so
/// resolving the same pair again is done at once, with no call, and yields
/// the same outcome.
pub proof fn lemma_second_resolution_is_cached(
    pair: Seq<u8>,
    stage: StageView,
    reply: Option<Seq<u8>>,
    tokens: Map<Seq<u8>, Option<TokenInfoView>>,
    pairs: Map<Seq<u8>, Option<PairInfoView>>,
)
    ensures
        ({
            let next = next_stage(stage, reply, tokens_after(stage, reply, tokens));
            let pairs2 = pairs_after(pair, next, pairs);
            settled(pair, next, pairs) is Done ==> {
                &&& start_stage(pair, pairs2) == settled(pair, next, pairs)
                &&& call_of(pair, start_stage(pair, pairs2)) is None
            }
        }),
{
}

/// A token resolver that is done holds what the cache now holds for its
/// token, so resolving the same token again is done at once, with no call,
/// and yields the same outcome.
pub proof fn lemma_second_token_resolution_is_cached(
    token: Seq<u8>,
    stage: TokenStageView,
    reply: Option<Seq<u8>>,
    tokens: Map<Seq<u8>, Option<TokenInfoView>>,
)
    ensures
        ({
            let tokens2 = token_outcomes_after(token, stage, reply, tokens);
            let next = token_next(token, stage, reply, tokens2);
            next is Done ==> {
                &&& token_start(token, tokens2) == next
                &&& token_call(token_start(token, tokens2)) is None
            }
        }),
{
}

/// A pair whose two tokens are both cached is completed from the cache
/// without any further call.
pub proof fn lemma_cached_tokens_need_no_call(
    token0: Seq<u8>,
    token1: Seq<u8>,
    tokens: Map<Seq<u8>, Option<TokenInfoView>>,
)
    requires
        tokens.contains_key(token0),
        tokens.contains_key(token1),
    ensures
        enter_first(token0, token1, tokens) == (StageView::Done {
            outcome: Some(
                PairInfoView {
                    token0,
                    token1,
                    token0_meta: tokens[token0],
                    token1_meta: tokens[token1],
                },
            ),
        }),
        forall|meta0: Option<TokenInfoView>|
            call_of(token0, #[trigger] enter_second(token0, token1, meta0, tokens)) is None,
{
}

/// Resolving one pair never adds, removes or changes the cached outcome of
/// any other pair.
pub proof fn lemma_other_pairs_untouched(
    pair: Seq<u8>,
    stage: StageView,
    pairs: Map<Seq<u8>, Option<PairInfoView>>,
    other: Seq<u8>,
)
    requires
        other != pair,
    ensures
        pairs_after(pair, stage, pairs).contains_key(other) == pairs.contains_key(other),
        pairs.contains_key(other) ==> pairs_after(pair, stage, pairs)[other] == pairs[other],
{
}

/// When the first token has resolved and a metadata call of a second token
/// that the cache does not hold fails, the pair is done with exactly one
/// populated and one absent metadata field, and that outcome is cached.
pub proof fn lemma_partial_pair(
    pair: Seq<u8>,
    stage: StageView,
    reply: Option<Seq<u8>>,
    tokens: Map<Seq<u8>, Option<TokenInfoView>>,
    pairs: Map<Seq<u8>, Option<PairInfoView>>,
    meta0: TokenInfoView,
)
    requires
        !pairs.contains_key(pair),
        match stage {
            StageView::ResolvingToken { token0, token1, slot, meta0: m, token } => slot == Slot::Second
                && m == Some(meta0) && !tokens.contains_key(token1) && match token {
                TokenStageView::AwaitDecimals => reply_uint8(reply) is None,
                TokenStageView::AwaitSymbol { .. } => reply_string(reply) is None,
                TokenStageView::Done { .. } => false,
            },
            _ => false,
        },
    ensures
        ({
            let next = next_stage(stage, reply, tokens_after(stage, reply, tokens));
            &&& next matches StageView::Done { outcome: Some(p) } && p.token0_meta == Some(meta0)
                && p.token1_meta is None
            &&& settled(pair, next, pairs) == next
            &&& pairs_after(pair, next, pairs)[pair] == next->Done_outcome
        }),
{
}

} // verus!
