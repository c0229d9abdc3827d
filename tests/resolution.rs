use std::collections::HashMap;

use sync_prices::{
    call_selector, header, price_row, string_length_fits_exec, sync_topic, Address, PairInfo, PairResolver, PriceRow, ReadCall, ResolutionCache, SyncEvent,
    TokenInfo, TokenResolver,
};

fn addr(n: u8) -> Address {
    let mut bytes = [0u8; 20];
    bytes[0] = 0xaa;
    bytes[19] = n;
    Address::new(bytes)
}

fn word_address(a: &Address) -> Vec<u8> {
    let mut w = vec![0u8; 12];
    w.extend_from_slice(&a.bytes);
    w
}

fn word_uint(v: u128) -> Vec<u8> {
    let mut w = vec![0u8; 16];
    w.extend_from_slice(&v.to_be_bytes());
    w
}

fn encode_string(s: &str) -> Vec<u8> {
    let mut out = word_uint(32);
    out.extend(word_uint(s.len() as u128));
    let mut body = s.as_bytes().to_vec();
    while body.len() % 32 != 0 {
        body.push(0);
    }
    out.extend(body);
    out
}

/// A chain that answers read calls from a table, and records every call.
struct MockChain {
    replies: HashMap<([u8; 20], ReadCall), Vec<u8>>,
    calls: Vec<([u8; 20], ReadCall)>,
}

impl MockChain {
    fn new() -> MockChain {
        MockChain { replies: HashMap::new(), calls: Vec::new() }
    }

    fn pair(&mut self, pair: &Address, t0: &Address, t1: &Address) {
        self.replies.insert((pair.bytes, ReadCall::Token0), word_address(t0));
        self.replies.insert((pair.bytes, ReadCall::Token1), word_address(t1));
    }

    fn token(&mut self, token: &Address, decimals: u8, symbol: &str) {
        self.replies.insert((token.bytes, ReadCall::Decimals), word_uint(decimals as u128));
        self.replies.insert((token.bytes, ReadCall::Symbol), encode_string(symbol));
    }

    fn calls_to(&self, a: &Address) -> usize {
        self.calls.iter().filter(|c| c.0 == a.bytes).count()
    }

    fn resolve(&mut self, cache: &mut ResolutionCache, pair: &Address) -> Option<PairInfo> {
        let mut r = PairResolver::start(cache, *pair);
        while let Some(req) = r.pending_call() {
            assert_eq!(req.input, selector_bytes(req.call));
            self.calls.push((req.target.bytes, req.call));
            let reply = self.replies.get(&(req.target.bytes, req.call)).cloned();
            r = r.on_reply(cache, reply);
        }
        r.outcome().expect("a resolver without a pending call is done")
    }

    fn resolve_token(&mut self, cache: &mut ResolutionCache, token: &Address) -> Option<TokenInfo> {
        let mut r = TokenResolver::start(cache, *token);
        while let Some(req) = r.pending_call() {
            assert_eq!(req.input, selector_bytes(req.call));
            assert_eq!(req.target.bytes, token.bytes);
            self.calls.push((req.target.bytes, req.call));
            let reply = self.replies.get(&(req.target.bytes, req.call)).cloned();
            r = r.on_reply(cache, reply);
        }
        r.outcome().expect("a resolver without a pending call is done")
    }
}

fn selector_bytes(c: ReadCall) -> Vec<u8> {
    match c {
        ReadCall::Token0 => vec![0x0d, 0xfe, 0x16, 0x81],
        ReadCall::Token1 => vec![0xd2, 0x12, 0x20, 0xa7],
        ReadCall::Decimals => vec![0x31, 0x3c, 0xe5, 0x67],
        ReadCall::Symbol => vec![0x95, 0xd8, 0x9b, 0x41],
    }
}

fn same_meta(a: &Option<TokenInfo>, b: &Option<TokenInfo>) -> bool {
    match (a, b) {
        (Some(x), Some(y)) => x.decimals == y.decimals && x.symbol == y.symbol,
        (None, None) => true,
        _ => false,
    }
}

fn same_pair(a: &Option<PairInfo>, b: &Option<PairInfo>) -> bool {
    match (a, b) {
        (Some(x), Some(y)) => {
            x.token0.bytes == y.token0.bytes
                && x.token1.bytes == y.token1.bytes
                && same_meta(&x.token0_meta, &y.token0_meta)
                && same_meta(&x.token1_meta, &y.token1_meta)
        }
        (None, None) => true,
        _ => false,
    }
}

fn price_of(row: &PriceRow) -> f64 {
    row.reserve0 as f64 * 10f64.powi(row.scale_exponent as i32) / row.reserve1 as f64
}

fn event(pair: &Address, r0: u128, r1: u128) -> SyncEvent {
    SyncEvent { pair: *pair, reserve0: r0, reserve1: r1, block_number: Some(7), transaction_hash: Some([3u8; 32]) }
}

fn meta(decimals: u8, symbol: &str) -> Option<TokenInfo> {
    Some(TokenInfo { decimals, symbol: symbol.to_string() })
}

#[test]
fn selectors_are_keccak_prefixes() {
    for c in [ReadCall::Token0, ReadCall::Token1, ReadCall::Decimals, ReadCall::Symbol] {
        assert_eq!(call_selector(c), selector_bytes(c));
    }
}

#[test]
fn sync_topic_is_the_event_hash() {
    let expected: Vec<u8> = vec![
        0x1c, 0x41, 0x1e, 0x9a, 0x96, 0xe0, 0x71, 0x24, 0x1c, 0x2f, 0x21, 0xf7, 0x72, 0x6b, 0x17, 0xae,
        0x89, 0xe3, 0xca, 0xb4, 0xc7, 0x8b, 0xe5, 0x0e, 0x06, 0x2b, 0x03, 0xa9, 0xff, 0xfb, 0xba, 0xd1,
    ];
    assert_eq!(sync_topic(), expected);
}

#[test]
fn short_replies_are_failures() {
    let (p, q, t0, t1) = (addr(5), addr(6), addr(10), addr(11));
    let mut chain = MockChain::new();
    chain.replies.insert((p.bytes, ReadCall::Token0), vec![0u8; 31]);
    let mut cache = ResolutionCache::new();
    assert!(chain.resolve(&mut cache, &p).is_none());
    assert!(cache.cached_pair(&p).unwrap().is_none());

    chain.pair(&q, &t0, &t1);
    chain.replies.insert((t0.bytes, ReadCall::Decimals), vec![0u8; 16]);
    chain.replies.insert((t1.bytes, ReadCall::Decimals), word_uint(6));
    chain.replies.insert((t1.bytes, ReadCall::Symbol), vec![0u8; 8]);
    let info = chain.resolve(&mut cache, &q).unwrap();
    assert_eq!(info.token0.bytes, t0.bytes);
    assert_eq!(info.token1.bytes, t1.bytes);
    assert!(info.token0_meta.is_none());
    assert!(info.token1_meta.is_none());
    // decimals of t0 failed, so its symbol was never asked for
    assert_eq!(chain.calls_to(&t0), 1);
    assert_eq!(chain.calls_to(&t1), 2);
}

#[test]
fn decodes_sync_log_data() {
    let mut data = word_uint(1000);
    data.extend(word_uint((1u128 << 111) + 7));
    let e = SyncEvent::from_log_data(addr(1), &data, Some(5), None).unwrap();
    assert_eq!((e.reserve0, e.reserve1, e.block_number), (1000, (1u128 << 111) + 7, Some(5)));
    assert_eq!(e.pair.bytes, addr(1).bytes);
    assert!(SyncEvent::from_log_data(addr(1), &data[..40], None, None).is_none());
}

#[test]
fn second_resolution_makes_no_calls() {
    let (p, t0, t1) = (addr(1), addr(10), addr(11));
    let mut chain = MockChain::new();
    chain.pair(&p, &t0, &t1);
    chain.token(&t0, 18, "WETH");
    chain.token(&t1, 6, "USDC");
    let mut cache = ResolutionCache::new();
    let first = chain.resolve(&mut cache, &p);
    assert_eq!(chain.calls.len(), 6);
    let second = chain.resolve(&mut cache, &p);
    assert_eq!(chain.calls.len(), 6);
    assert!(same_pair(&first, &second));
    let info = first.unwrap();
    assert!(same_meta(&info.token0_meta, &meta(18, "WETH")));
    assert!(same_meta(&info.token1_meta, &meta(6, "USDC")));
}

#[test]
fn failed_pair_is_cached() {
    let p = addr(2);
    let mut chain = MockChain::new();
    let mut cache = ResolutionCache::new();
    assert!(chain.resolve(&mut cache, &p).is_none());
    assert_eq!(chain.calls.len(), 1);
    chain.pair(&p, &addr(10), &addr(11));
    assert!(chain.resolve(&mut cache, &p).is_none());
    assert_eq!(chain.calls.len(), 1);
}

#[test]
fn failed_token_stays_failed() {
    let (a, b, t0, t1, t2) = (addr(1), addr(2), addr(10), addr(11), addr(12));
    let mut chain = MockChain::new();
    chain.pair(&a, &t0, &t1);
    chain.pair(&b, &t0, &t2);
    chain.token(&t1, 6, "USDC");
    chain.token(&t2, 8, "WBTC");
    let mut cache = ResolutionCache::new();
    let first = chain.resolve(&mut cache, &a).unwrap();
    assert!(first.token0_meta.is_none());
    assert_eq!(chain.calls_to(&t0), 1);
    assert!(cache.cached_token(&t0).unwrap().is_none());
    // The token now answers, but its failure is what the cache holds.
    chain.token(&t0, 18, "WETH");
    let second = chain.resolve(&mut cache, &b).unwrap();
    assert!(second.token0_meta.is_none());
    assert_eq!(chain.calls_to(&t0), 1);
    assert!(same_meta(&second.token1_meta, &meta(8, "WBTC")));
}

#[test]
fn partial_pair_is_cached_and_skipped() {
    let (p, t0, t1) = (addr(3), addr(10), addr(11));
    let mut chain = MockChain::new();
    chain.pair(&p, &t0, &t1);
    chain.token(&t0, 18, "WETH");
    chain.replies.insert((t1.bytes, ReadCall::Decimals), word_uint(6));
    let mut cache = ResolutionCache::new();
    let outcome = chain.resolve(&mut cache, &p);
    let info = outcome.as_ref().unwrap();
    assert!(info.token0_meta.is_some());
    assert!(info.token1_meta.is_none());
    assert!(same_pair(&cache.cached_pair(&p).unwrap(), &outcome));
    assert!(price_row(&event(&p, 1000, 2000), &outcome).is_none());
}

#[test]
fn price_formula_exact() {
    let outcome = Some(PairInfo {
        token0: addr(10),
        token1: addr(11),
        token0_meta: meta(18, "WETH"),
        token1_meta: meta(6, "USDC"),
    });
    let row = price_row(&event(&addr(1), 1000, 2000), &outcome).unwrap();
    assert_eq!(row.scale_exponent, -12);
    assert_eq!((row.reserve0, row.reserve1), (1000, 2000));
    assert_eq!((row.symbol0.as_str(), row.symbol1.as_str()), ("WETH", "USDC"));
    // the row's price, reserve0 / (reserve1 * 10^12), is 5 / 10^13
    let denominator = row.reserve1 * 10u128.pow((-row.scale_exponent) as u32);
    assert_eq!(row.reserve0 * 10u128.pow(13), 5 * denominator);
    let price = price_of(&row);
    assert!((price - 5e-13).abs() < 1e-25);
}

#[test]
fn zero_reserve_still_reported() {
    let outcome = Some(PairInfo {
        token0: addr(10),
        token1: addr(11),
        token0_meta: meta(18, "WETH"),
        token1_meta: meta(18, "DAI"),
    });
    let row = price_row(&event(&addr(1), 1000, 0), &outcome).unwrap();
    assert_eq!(row.reserve1, 0);
    assert!(price_of(&row).is_infinite());
    let row = price_row(&event(&addr(1), 0, 0), &outcome).unwrap();
    assert!(price_of(&row).is_nan());
}

#[test]
fn end_to_end_shared_token() {
    let (a, b, weth, usdc, dai) = (addr(1), addr(2), addr(10), addr(11), addr(12));
    let mut chain = MockChain::new();
    chain.pair(&a, &weth, &usdc);
    chain.pair(&b, &dai, &weth);
    chain.token(&weth, 18, "WETH");
    chain.token(&usdc, 6, "USDC");
    chain.token(&dai, 18, "DAI");
    let events = vec![event(&a, 1000, 2000), event(&b, 500, 250), event(&a, 4000, 1000)];
    let mut cache = ResolutionCache::new();
    let mut rows = Vec::new();
    for e in &events {
        let outcome = chain.resolve(&mut cache, &e.pair);
        if let Some(row) = price_row(e, &outcome) {
            rows.push(row);
        }
    }
    assert_eq!(chain.calls_to(&weth), 2);
    assert_eq!(chain.calls.iter().filter(|c| c.0 == weth.bytes && c.1 == ReadCall::Decimals).count(), 1);
    assert_eq!(chain.calls_to(&a), 2);
    assert_eq!(chain.calls_to(&b), 2);
    assert_eq!(rows.len(), 3);
    assert_eq!((rows[0].symbol0.as_str(), rows[0].symbol1.as_str()), ("WETH", "USDC"));
    assert!((price_of(&rows[0]) - 5e-13).abs() < 1e-25);
    assert_eq!((rows[1].symbol0.as_str(), rows[1].symbol1.as_str()), ("DAI", "WETH"));
    assert!((price_of(&rows[1]) - 2.0).abs() < 1e-12);
    assert!((price_of(&rows[2]) - 4e-12).abs() < 1e-24);
    assert_eq!(rows[2].transaction_hash, Some([3u8; 32]));
}

#[test]
fn resolving_one_pair_keeps_another() {
    let (a, b, t0, t1, t2) = (addr(1), addr(2), addr(10), addr(11), addr(12));
    let mut chain = MockChain::new();
    chain.pair(&a, &t0, &t1);
    chain.pair(&b, &t1, &t2);
    chain.token(&t0, 18, "WETH");
    chain.token(&t1, 6, "USDC");
    let mut cache = ResolutionCache::new();
    chain.resolve(&mut cache, &a);
    let before = cache.cached_pair(&a).unwrap();
    let t1_before = cache.cached_token(&t1).unwrap();
    chain.resolve(&mut cache, &b);
    assert!(same_pair(&cache.cached_pair(&a).unwrap(), &before));
    assert!(same_meta(&cache.cached_token(&t1).unwrap(), &t1_before));
    assert!(cache.cached_token(&t2).unwrap().is_none());
}

#[test]
fn same_token_twice_in_one_pair() {
    let (p, t) = (addr(4), addr(10));
    let mut chain = MockChain::new();
    chain.pair(&p, &t, &t);
    chain.token(&t, 18, "WETH");
    let mut cache = ResolutionCache::new();
    let info = chain.resolve(&mut cache, &p).unwrap();
    assert_eq!(chain.calls_to(&t), 2);
    assert!(same_meta(&info.token0_meta, &info.token1_meta));
}

#[test]
fn header_line() {
    assert_eq!(header(), "symbol_0\tsymbol_1\tprice");
}

#[test]
fn token_resolved_once() {
    let t = addr(20);
    let mut chain = MockChain::new();
    chain.token(&t, 8, "WBTC");
    let mut cache = ResolutionCache::new();
    let first = chain.resolve_token(&mut cache, &t);
    assert_eq!(chain.calls, vec![(t.bytes, ReadCall::Decimals), (t.bytes, ReadCall::Symbol)]);
    let second = chain.resolve_token(&mut cache, &t);
    assert_eq!(chain.calls.len(), 2);
    assert!(same_meta(&first, &meta(8, "WBTC")));
    assert!(same_meta(&first, &second));
}

#[test]
fn token_failure_is_cached() {
    let t = addr(21);
    let mut chain = MockChain::new();
    chain.replies.insert((t.bytes, ReadCall::Decimals), word_uint(18));
    let mut cache = ResolutionCache::new();
    assert!(chain.resolve_token(&mut cache, &t).is_none());
    assert_eq!(chain.calls.len(), 2);
    chain.token(&t, 18, "WETH");
    assert!(chain.resolve_token(&mut cache, &t).is_none());
    assert_eq!(chain.calls.len(), 2);
    // a pair using that token takes the cached failure too
    let p = addr(22);
    chain.pair(&p, &t, &t);
    let info = chain.resolve(&mut cache, &p).unwrap();
    assert!(info.token0_meta.is_none() && info.token1_meta.is_none());
    assert_eq!(chain.calls.len(), 4);
}

#[test]
fn oversized_string_length_is_a_failure() {
    // offset 32, then a length word whose low eight bytes are all 0xff
    let mut reply = word_uint(32);
    let mut length = vec![0u8; 24];
    length.extend_from_slice(&[0xff; 8]);
    reply.extend(length);
    assert!(!string_length_fits_exec(&reply));
    assert!(string_length_fits_exec(&encode_string("WETH")));
    assert!(string_length_fits_exec(&[0u8; 8]));

    let t = addr(30);
    let mut chain = MockChain::new();
    chain.replies.insert((t.bytes, ReadCall::Decimals), word_uint(18));
    chain.replies.insert((t.bytes, ReadCall::Symbol), reply);
    let mut cache = ResolutionCache::new();
    assert!(chain.resolve_token(&mut cache, &t).is_none());
    assert!(cache.cached_token(&t).unwrap().is_none());
}
