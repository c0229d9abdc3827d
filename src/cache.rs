use vstd::prelude::*;
use crate::address::Address;

verus! {

/// ERC-20 metadata of one token.
#[derive(Debug)]
pub struct TokenInfo {
    pub decimals: u8,
    pub symbol: String,
}

/// What is known of one pair: its two token addresses, and the metadata of
/// each token where that resolved.
#[derive(Debug)]
pub struct PairInfo {
    pub token0: Address,
    pub token1: Address,
    pub token0_meta: Option<TokenInfo>,
    pub token1_meta: Option<TokenInfo>,
}

/// The mathematical value of a [`TokenInfo`].
pub struct TokenInfoView {
    pub decimals: u8,
    pub symbol: Seq<char>,
}

/// The mathematical value of a [`PairInfo`].
pub struct PairInfoView {
    pub token0: Seq<u8>,
    pub token1: Seq<u8>,
    pub token0_meta: Option<TokenInfoView>,
    pub token1_meta: Option<TokenInfoView>,
}

impl View for TokenInfo {
    type V = TokenInfoView;

    open spec fn view(&self) -> TokenInfoView {
        TokenInfoView { decimals: self.decimals, symbol: self.symbol@ }
    }
}

impl View for PairInfo {
    type V = PairInfoView;

    open spec fn view(&self) -> PairInfoView {
        PairInfoView {
            token0: self.token0@,
            token1: self.token1@,
            token0_meta: meta_view(self.token0_meta),
            token1_meta: meta_view(self.token1_meta),
        }
    }
}

pub open spec fn meta_view(m: Option<TokenInfo>) -> Option<TokenInfoView> {
    match m {
        Some(t) => Some(t@),
        None => None,
    }
}

pub open spec fn pair_view(p: Option<PairInfo>) -> Option<PairInfoView> {
    match p {
        Some(i) => Some(i@),
        None => None,
    }
}

impl TokenInfo {
    pub fn duplicate(&self) -> (r: TokenInfo)
        ensures
            r == *self,
    {
        TokenInfo { decimals: self.decimals, symbol: self.symbol.clone() }
    }
}

pub fn duplicate_meta(m: &Option<TokenInfo>) -> (r: Option<TokenInfo>)
    ensures
        r == *m,
{
    match m {
        Some(t) => Some(t.duplicate()),
        None => None,
    }
}

impl PairInfo {
    pub fn duplicate(&self) -> (r: PairInfo)
        ensures
            r == *self,
    {
        PairInfo {
            token0: self.token0,
            token1: self.token1,
            token0_meta: duplicate_meta(&self.token0_meta),
            token1_meta: duplicate_meta(&self.token1_meta),
        }
    }
}

pub fn duplicate_pair(p: &Option<PairInfo>) -> (r: Option<PairInfo>)
    ensures
        r == *p,
{
    match p {
        Some(i) => Some(i.duplicate()),
        None => None,
    }
}

/// Write-once memo of resolution outcomes, keyed by contract address. A
/// failed resolution is kept as `None` like any other outcome.
///
/// The outcomes are held as lists of entries searched by address: vstd
/// specifies hashed lookups only for integer and `bool` keys, and an address
/// is 20 bytes. The ghost maps give the lists' meaning, one outcome per key.
pub struct ResolutionCache {
    tokens: Vec<(Address, Option<TokenInfo>)>,
    pairs: Vec<(Address, Option<PairInfo>)>,
    token_map: Ghost<Map<Seq<u8>, Option<TokenInfoView>>>,
    pair_map: Ghost<Map<Seq<u8>, Option<PairInfoView>>>,
}

/// Whether `later` keeps every entry of `earlier` as it was.
pub open spec fn keeps_entries<V>(earlier: Map<Seq<u8>, V>, later: Map<Seq<u8>, V>) -> bool {
    forall|k: Seq<u8>| #[trigger] earlier.contains_key(k) ==> later.contains_key(k) && later[k] == earlier[k]
}

/// The map after a write-once store of `v` under `k`.
pub open spec fn stored<V>(m: Map<Seq<u8>, V>, k: Seq<u8>, v: V) -> Map<Seq<u8>, V> {
    if m.contains_key(k) {
        m
    } else {
        m.insert(k, v)
    }
}

/// The list of token entries and the map hold the same outcomes, by address.
spec fn token_entries_match(v: Seq<(Address, Option<TokenInfo>)>, m: Map<Seq<u8>, Option<TokenInfoView>>) -> bool {
    &&& forall|i: int| 0 <= i < v.len() ==> #[trigger] m.contains_key(v[i].0@) && m[v[i].0@] == meta_view(v[i].1)
    &&& forall|k: Seq<u8>| #[trigger] m.contains_key(k) ==> exists|i: int| 0 <= i < v.len() && v[i].0@ == k
}

/// The list of pair entries and the map hold the same outcomes, by address.
spec fn pair_entries_match(v: Seq<(Address, Option<PairInfo>)>, m: Map<Seq<u8>, Option<PairInfoView>>) -> bool {
    &&& forall|i: int| 0 <= i < v.len() ==> #[trigger] m.contains_key(v[i].0@) && m[v[i].0@] == pair_view(v[i].1)
    &&& forall|k: Seq<u8>| #[trigger] m.contains_key(k) ==> exists|i: int| 0 <= i < v.len() && v[i].0@ == k
}

impl ResolutionCache {
    /// Token outcomes, by token address.
    pub closed spec fn tokens(&self) -> Map<Seq<u8>, Option<TokenInfoView>> {
        self.token_map@
    }

    /// Pair outcomes, by pair address.
    pub closed spec fn pairs(&self) -> Map<Seq<u8>, Option<PairInfoView>> {
        self.pair_map@
    }

    pub closed spec fn wf(&self) -> bool {
        token_entries_match(self.tokens@, self.token_map@) && pair_entries_match(self.pairs@, self.pair_map@)
    }

    /// Whether `self` keeps every entry of `earlier`, tokens and pairs.
    pub open spec fn extends(&self, earlier: ResolutionCache) -> bool {
        keeps_entries(earlier.tokens(), self.tokens()) && keeps_entries(earlier.pairs(), self.pairs())
    }

    /// An empty cache.
    pub fn new() -> (r: ResolutionCache)
        ensures
            r.wf(),
            r.tokens() == Map::<Seq<u8>, Option<TokenInfoView>>::empty(),
            r.pairs() == Map::<Seq<u8>, Option<PairInfoView>>::empty(),
    {
        ResolutionCache {
            tokens: Vec::new(),
            pairs: Vec::new(),
            token_map: Ghost(Map::empty()),
            pair_map: Ghost(Map::empty()),
        }
    }

    /// The cached outcome for a token address, if one is held.
    pub fn cached_token(&self, a: &Address) -> (r: Option<Option<TokenInfo>>)
        requires
            self.wf(),
        ensures
            r.is_some() == self.tokens().contains_key(a@),
            r matches Some(m) ==> meta_view(m) == self.tokens()[a@],
    {
        let mut i: usize = 0;
        while i < self.tokens.len()
            invariant
                self.wf(),
                i <= self.tokens@.len(),
                forall|j: int| 0 <= j < i ==> self.tokens@[j].0@ != a@,
            decreases self.tokens@.len() - i,
        {
            if self.tokens[i].0.same_as(a) {
                assert(self.token_map@.contains_key(self.tokens@[i as int].0@));
                return Some(duplicate_meta(&self.tokens[i].1));
            }
            i = i + 1;
        }
        None
    }

    /// The cached outcome for a pair address, if one is held.
    pub fn cached_pair(&self, a: &Address) -> (r: Option<Option<PairInfo>>)
        requires
            self.wf(),
        ensures
            r.is_some() == self.pairs().contains_key(a@),
            r matches Some(p) ==> pair_view(p) == self.pairs()[a@],
    {
        let mut i: usize = 0;
        while i < self.pairs.len()
            invariant
                self.wf(),
                i <= self.pairs@.len(),
                forall|j: int| 0 <= j < i ==> self.pairs@[j].0@ != a@,
            decreases self.pairs@.len() - i,
        {
            if self.pairs[i].0.same_as(a) {
                assert(self.pair_map@.contains_key(self.pairs@[i as int].0@));
                return Some(duplicate_pair(&self.pairs[i].1));
            }
            i = i + 1;
        }
        None
    }

    /// Stores a token outcome unless the address already has one, and returns
    /// the outcome that the cache holds for it afterwards.
    pub fn record_token(&mut self, a: Address, info: Option<TokenInfo>) -> (r: Option<TokenInfo>)
        requires
            old(self).wf(),
        ensures
            final(self).wf(),
            final(self).tokens() == stored(old(self).tokens(), a@, meta_view(info)),
            final(self).pairs() == old(self).pairs(),
            meta_view(r) == final(self).tokens()[a@],
    {
        match self.cached_token(&a) {
            Some(held) => held,
            None => {
                let ghost before = self.tokens@;
                let ghost g = info;
                let result = duplicate_meta(&info);
                self.tokens.push((a, info));
                self.token_map = Ghost(self.token_map@.insert(a@, meta_view(g)));
                proof {
                    assert(self.tokens@ == before.push((a, g)));
                    assert forall|i: int| 0 <= i < self.tokens@.len() implies #[trigger] self.token_map@.contains_key(self.tokens@[i].0@)
                        && self.token_map@[self.tokens@[i].0@] == meta_view(self.tokens@[i].1) by {
                        if i < before.len() {
                            assert(self.tokens@[i] == before[i]);
                            assert(old(self).token_map@.contains_key(before[i].0@));
                        }
                    }
                    assert forall|k: Seq<u8>| #[trigger] self.token_map@.contains_key(k) implies exists|i: int|
                        0 <= i < self.tokens@.len() && self.tokens@[i].0@ == k by {
                        if k != a@ {
                            let i = choose|i: int| 0 <= i < before.len() && before[i].0@ == k;
                            assert(self.tokens@[i] == before[i]);
                        } else {
                            assert(self.tokens@[before.len() as int].0@ == k);
                        }
                    }
                }
                result
            },
        }
    }

    /// Stores a pair outcome unless the address already has one, and returns
    /// the outcome that the cache holds for it afterwards.
    pub fn record_pair(&mut self, a: Address, info: Option<PairInfo>) -> (r: Option<PairInfo>)
        requires
            old(self).wf(),
        ensures
            final(self).wf(),
            final(self).pairs() == stored(old(self).pairs(), a@, pair_view(info)),
            final(self).tokens() == old(self).tokens(),
            pair_view(r) == final(self).pairs()[a@],
    {
        match self.cached_pair(&a) {
            Some(held) => held,
            None => {
                let ghost before = self.pairs@;
                let ghost g = info;
                let result = duplicate_pair(&info);
                self.pairs.push((a, info));
                self.pair_map = Ghost(self.pair_map@.insert(a@, pair_view(g)));
                proof {
                    assert(self.pairs@ == before.push((a, g)));
                    assert forall|i: int| 0 <= i < self.pairs@.len() implies #[trigger] self.pair_map@.contains_key(self.pairs@[i].0@)
                        && self.pair_map@[self.pairs@[i].0@] == pair_view(self.pairs@[i].1) by {
                        if i < before.len() {
                            assert(self.pairs@[i] == before[i]);
                            assert(old(self).pair_map@.contains_key(before[i].0@));
                        }
                    }
                    assert forall|k: Seq<u8>| #[trigger] self.pair_map@.contains_key(k) implies exists|i: int|
                        0 <= i < self.pairs@.len() && self.pairs@[i].0@ == k by {
                        if k != a@ {
                            let i = choose|i: int| 0 <= i < before.len() && before[i].0@ == k;
                            assert(self.pairs@[i] == before[i]);
                        } else {
                            assert(self.pairs@[before.len() as int].0@ == k);
                        }
                    }
                }
                result
            },
        }
    }
}

} // verus!
