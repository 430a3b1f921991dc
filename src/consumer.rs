//! The price consumer: asks the producer for prices and keeps what is
//! delivered back to it.
use vstd::prelude::*;
use crate::decimal::Decimal;
use crate::funds::Coin;
pub use crate::producer::PriceFeedReq;
use crate::producer::{ExecMsg, PriceFeedResponse, PriceFeedsResponse};
use crate::symbol_map::SymbolMap;

verus! {

/// What the consumer attaches for each symbol it asks for.
pub const FEE_PER_REQUEST: u128 = 1000;

/// Creates a consumer that asks `price_feed_contract` for prices.
#[derive(Clone, Debug, PartialEq, Eq)]
pub struct InstantiateMsg {
    pub price_feed_contract: String,
}

/// The calls the consumer understands.
#[derive(Clone, Debug, PartialEq, Eq)]
pub enum ExecuteMsg {
    RequestSinglePrice { pair: String },
    RequestMultiplePrices { pairs: Vec<String> },
    ReceivePrice { price_response: PriceFeedResponse },
    ReceivePrices { prices_response: PriceFeedsResponse },
}

/// Queries of the consumer.
#[derive(Clone, Debug, PartialEq, Eq)]
pub enum QueryMsg {
    GetValue { pair: String },
}

/// A request for the price of one symbol.
#[derive(Clone, Debug, PartialEq, Eq)]
pub struct RequestPriceFeed {
    pub symbol: String,
}

/// A kept price.
#[derive(Clone, Copy, Debug, PartialEq, Eq)]
pub struct PriceFeed {
    pub price: Decimal,
}

/// Why a query on the consumer failed.
#[derive(Clone, Debug, PartialEq, Eq)]
pub enum ConsumerError {
    /// No price was ever delivered for `pair`.
    NotFound { pair: String },
}

/// A call on another program, with funds attached.
#[derive(Clone, Debug, PartialEq, Eq)]
pub struct WasmExecute {
    pub contract_addr: String,
    pub msg: ExecMsg,
    pub funds: Vec<Coin>,
}

/// What a call on the consumer hands back to the host.
#[derive(Clone, Debug, PartialEq, Eq)]
pub struct ConsumerResponse {
    pub action: String,
    pub request: Option<WasmExecute>,
}

/// The consumer's stored state.
pub struct ConsumerState {
    pub price_feed_contract: String,
    pub price_feeds: SymbolMap,
}

/// The cache after writing `feeds` in order: the last write of a symbol wins.
pub open spec fn apply_feeds(m: Map<Seq<char>, Decimal>, feeds: Seq<PriceFeedResponse>) -> Map<Seq<char>, Decimal>
    decreases feeds.len(),
{
    if feeds.len() == 0 {
        m
    } else {
        apply_feeds(m, feeds.drop_last()).insert(feeds.last().symbol@, feeds.last().price)
    }
}

/// `funds` is one coin of the request denomination worth `amount`.
pub open spec fn request_funds(funds: Seq<Coin>, amount: int) -> bool {
    funds.len() == 1 && funds[0].denom@ == "uom"@ && funds[0].amount == amount
}

fn text(s: &str) -> (r: String)
    ensures
        r@ == s@,
{
    s.to_owned()
}

impl RequestPriceFeed {
    /// The producer's call for this request.
    pub fn into_msg(self) -> (r: ExecMsg)
        ensures
            r == (ExecMsg::RequestPriceFeed { symbol: self.symbol }),
    {
        ExecMsg::RequestPriceFeed { symbol: self.symbol }
    }
}

impl ConsumerState {
    pub open spec fn wf(&self) -> bool {
        self.price_feeds.wf()
    }

    /// Creates a consumer with an empty cache.
    pub fn instantiate(msg: InstantiateMsg) -> (r: (ConsumerState, ConsumerResponse))
        ensures
            r.0.wf(),
            r.0.price_feed_contract == msg.price_feed_contract,
            r.0.price_feeds@ == Map::<Seq<char>, Decimal>::empty(),
            r.1.action@ == "instantiate"@,
            r.1.request is None,
    {
        let state = ConsumerState { price_feed_contract: msg.price_feed_contract, price_feeds: SymbolMap::new() };
        (state, ConsumerResponse { action: text("instantiate"), request: None })
    }

    /// Asks the producer for the price of `pair`, paying the flat fee.
    pub fn execute_request_single_price(&self, pair: String) -> (r: ConsumerResponse)
        ensures
            r.action@ == "request_single_price"@,
            r.request matches Some(w) && w.contract_addr == self.price_feed_contract
                && w.msg == (ExecMsg::RequestPriceFeed { symbol: pair })
                && request_funds(w.funds@, FEE_PER_REQUEST as int),
    {
        let funds = vec![Coin { denom: text("uom"), amount: FEE_PER_REQUEST }];
        let request = WasmExecute {
            contract_addr: self.price_feed_contract.clone(),
            msg: RequestPriceFeed { symbol: pair }.into_msg(),
            funds,
        };
        ConsumerResponse { action: text("request_single_price"), request: Some(request) }
    }

    /// Asks the producer for the prices of `pairs`, paying the flat fee once
    /// per symbol.
    pub fn execute_request_multiple_prices(&self, pairs: Vec<String>) -> (r: ConsumerResponse)
        ensures
            r.action@ == "request_multiple_prices"@,
            r.request matches Some(w) && w.contract_addr == self.price_feed_contract
                && w.msg == (ExecMsg::RequestPriceFeeds { request: PriceFeedReq { pairs } })
                && request_funds(w.funds@, FEE_PER_REQUEST * pairs@.len()),
    {
        let n = pairs.len();
        assert(FEE_PER_REQUEST * n <= FEE_PER_REQUEST * usize::MAX) by (nonlinear_arith);
        let funds = vec![Coin { denom: text("uom"), amount: FEE_PER_REQUEST * n as u128 }];
        let request = WasmExecute {
            contract_addr: self.price_feed_contract.clone(),
            msg: ExecMsg::RequestPriceFeeds { request: PriceFeedReq { pairs } },
            funds,
        };
        ConsumerResponse { action: text("request_multiple_prices"), request: Some(request) }
    }

    /// Keeps a delivered price, replacing the one kept before.
    pub fn execute_receive_price(&mut self, price_response: PriceFeedResponse) -> (r: ConsumerResponse)
        requires
            old(self).wf(),
        ensures
            final(self).wf(),
            final(self).price_feed_contract == old(self).price_feed_contract,
            final(self).price_feeds@ == old(self).price_feeds@.insert(price_response.symbol@, price_response.price),
            r.action@ == "receive_price"@,
            r.request is None,
    {
        self.price_feeds.insert(price_response.symbol, price_response.price);
        ConsumerResponse { action: text("receive_price"), request: None }
    }

    /// Keeps every delivered price, in order.
    pub fn execute_receive_prices(&mut self, prices_response: PriceFeedsResponse) -> (r: ConsumerResponse)
        requires
            old(self).wf(),
        ensures
            final(self).wf(),
            final(self).price_feed_contract == old(self).price_feed_contract,
            final(self).price_feeds@ == apply_feeds(old(self).price_feeds@, prices_response.price_feeds@),
            r.action@ == "receive_prices"@,
            r.request is None,
    {
        let feeds = &prices_response.price_feeds;
        let ghost start = self.price_feeds@;
        let mut i: usize = 0;
        while i < feeds.len()
            invariant
                self.wf(),
                self.price_feed_contract == old(self).price_feed_contract,
                i <= feeds@.len(),
                self.price_feeds@ == apply_feeds(start, feeds@.subrange(0, i as int)),
            decreases feeds@.len() - i,
        {
            let feed = &feeds[i];
            self.price_feeds.insert(feed.symbol.clone(), feed.price);
            proof {
                let next = feeds@.subrange(0, i + 1);
                assert(next.drop_last() =~= feeds@.subrange(0, i as int));
            }
            i = i + 1;
        }
        assert(feeds@.subrange(0, i as int) =~= feeds@);
        ConsumerResponse { action: text("receive_prices"), request: None }
    }

    /// Runs one call on the consumer.
    pub fn execute(&mut self, msg: ExecuteMsg) -> (r: ConsumerResponse)
        requires
            old(self).wf(),
        ensures
            final(self).wf(),
            final(self).price_feed_contract == old(self).price_feed_contract,
            match msg {
                ExecuteMsg::ReceivePrice { price_response } => final(self).price_feeds@ == old(
                    self,
                ).price_feeds@.insert(price_response.symbol@, price_response.price),
                ExecuteMsg::ReceivePrices { prices_response } => final(self).price_feeds@ == apply_feeds(
                    old(self).price_feeds@,
                    prices_response.price_feeds@,
                ),
                ExecuteMsg::RequestSinglePrice { pair } => *final(self) == *old(self)
                    && (r.request matches Some(w) && w.contract_addr == old(self).price_feed_contract
                    && w.msg == (ExecMsg::RequestPriceFeed { symbol: pair })
                    && request_funds(w.funds@, FEE_PER_REQUEST as int)),
                ExecuteMsg::RequestMultiplePrices { pairs } => *final(self) == *old(self)
                    && (r.request matches Some(w) && w.contract_addr == old(self).price_feed_contract
                    && w.msg == (ExecMsg::RequestPriceFeeds { request: PriceFeedReq { pairs } })
                    && request_funds(w.funds@, FEE_PER_REQUEST * pairs@.len())),
            },
    {
        match msg {
            ExecuteMsg::RequestSinglePrice { pair } => self.execute_request_single_price(pair),
            ExecuteMsg::RequestMultiplePrices { pairs } => self.execute_request_multiple_prices(pairs),
            ExecuteMsg::ReceivePrice { price_response } => self.execute_receive_price(price_response),
            ExecuteMsg::ReceivePrices { prices_response } => self.execute_receive_prices(prices_response),
        }
    }

    /// The kept price of `pair`.
    pub fn query_price(&self, pair: String) -> (r: Result<PriceFeed, ConsumerError>)
        requires
            self.wf(),
        ensures
            self.price_feeds@.contains_key(pair@) ==> r == Ok::<PriceFeed, ConsumerError>(
                PriceFeed { price: self.price_feeds@[pair@] },
            ),
            !self.price_feeds@.contains_key(pair@) ==> r == Err::<PriceFeed, ConsumerError>(
                ConsumerError::NotFound { pair },
            ),
    {
        match self.price_feeds.get(&pair) {
            Some(price) => Ok(PriceFeed { price }),
            None => Err(ConsumerError::NotFound { pair }),
        }
    }

    /// Answers a query.
    pub fn query(&self, msg: QueryMsg) -> (r: Result<PriceFeed, ConsumerError>)
        requires
            self.wf(),
        ensures
            match msg {
                QueryMsg::GetValue { pair } => (self.price_feeds@.contains_key(pair@) ==> r == Ok::<
                    PriceFeed,
                    ConsumerError,
                >(PriceFeed { price: self.price_feeds@[pair@] })) && (!self.price_feeds@.contains_key(pair@)
                    ==> r == Err::<PriceFeed, ConsumerError>(ConsumerError::NotFound { pair })),
            },
    {
        match msg {
            QueryMsg::GetValue { pair } => self.query_price(pair),
        }
    }
}

/// Delivering the same price twice leaves the cache as one delivery does.
pub proof fn delivery_is_idempotent(cache: Map<Seq<char>, Decimal>, feed: PriceFeedResponse)
    ensures
        cache.insert(feed.symbol@, feed.price).insert(feed.symbol@, feed.price) == cache.insert(
            feed.symbol@,
            feed.price,
        ),
{
    assert(cache.insert(feed.symbol@, feed.price).insert(feed.symbol@, feed.price) =~= cache.insert(
        feed.symbol@,
        feed.price,
    ));
}

} // verus!
