//! The price producer: the admin curates prices, anyone may buy them.
use vstd::prelude::*;
use crate::decimal::Decimal;
use crate::funds::{attached_in, attached_or_zero, find_attached, pays, BankSend, Coin, MessageInfo};
use crate::symbol_map::SymbolMap;
use crate::symbol_order::{ascending, lemma_ascending_unique, lemma_symbol_lt_distinct, string_views, symbol_lt};

verus! {

/// Reply id of the delivery of one price.
pub const REPLY_SINGLE: u64 = 1;

/// Reply id of the delivery of a batch of prices.
pub const REPLY_BATCH: u64 = 2;

/// Creates a producer whose fees are paid in `denom`.
#[derive(Clone, Debug, PartialEq, Eq)]
pub struct InstantiateMsg {
    pub denom: String,
}

/// The symbols of a batch request, in order, duplicates kept.
#[derive(Clone, Debug, PartialEq, Eq)]
pub struct PriceFeedReq {
    pub pairs: Vec<String>,
}

/// A price as the admin sets it.
#[derive(Clone, Copy, Debug, PartialEq, Eq)]
pub struct Price {
    pub price: Decimal,
}

/// One delivered price.
#[derive(Clone, Debug, PartialEq, Eq)]
pub struct PriceFeedResponse {
    pub symbol: String,
    pub price: Decimal,
}

/// A delivered batch of prices.
#[derive(Clone, Debug, PartialEq, Eq)]
pub struct PriceFeedsResponse {
    pub price_feeds: Vec<PriceFeedResponse>,
}

/// The calls the producer understands. The two `Receive` tags are the
/// consumer's, and are refused here.
#[derive(Clone, Debug, PartialEq, Eq)]
pub enum ExecMsg {
    UpdatePrice { symbol: String, price: Price },
    RequestPriceFeed { symbol: String },
    RequestPriceFeeds { request: PriceFeedReq },
    ReceivePrices { prices_response: PriceFeedsResponse },
    ReceivePrice { price_response: PriceFeedResponse },
    SetCostPerRequest { cost_per_request: u128 },
    ChangeAdmin { address: String },
}

/// Queries of the producer.
#[derive(Clone, Copy, Debug, PartialEq, Eq)]
pub enum QueryMsg {
    GetAllSymbols,
}

/// Migration takes no arguments.
#[derive(Clone, Copy, Debug, PartialEq, Eq)]
pub struct MigrateMsg {}

/// Why a call on the producer failed.
#[derive(Clone, Debug, PartialEq, Eq)]
pub enum ContractError {
    Unauthorized { function: String },
    PriceNotFound { symbol: String },
    InvalidExecuteMsg,
    InsufficientFees { required: u128, attached: u128 },
    /// The admin has not set a cost per request yet.
    RequestFeesNotSet,
    /// The cost of a batch does not fit in 128 bits.
    CostOverflow,
    UnknownReplyId { id: u64 },
}

/// A nested call back into the requester, answered on success under `id`.
#[derive(Clone, Debug, PartialEq, Eq)]
pub struct SubMsg {
    pub contract_addr: String,
    pub msg: ExecMsg,
    pub id: u64,
}

/// What a call on the producer hands back to the host.
#[derive(Clone, Debug, PartialEq, Eq)]
pub struct Response {
    pub action: String,
    pub fee_transfer: Option<BankSend>,
    pub delivery: Option<SubMsg>,
}

/// The producer's stored state.
pub struct ProducerState {
    pub admin: String,
    pub denom: String,
    pub cost_per_request: Option<u128>,
    pub prices: SymbolMap,
}

/// A response that only names what was done.
pub open spec fn plain_response(r: Response, action: Seq<char>) -> bool {
    r.action@ == action && r.fee_transfer is None && r.delivery is None
}

/// The call failed as unauthorized, naming `function`.
pub open spec fn unauthorized(r: Result<Response, ContractError>, function: Seq<char>) -> bool {
    r matches Err(ContractError::Unauthorized { function: f }) && f@ == function
}

/// The price handed out for `symbol` in a batch: zero when it has none.
pub open spec fn price_or_zero(m: Map<Seq<char>, Decimal>, symbol: Seq<char>) -> Decimal {
    if m.contains_key(symbol) {
        m[symbol]
    } else {
        Decimal { atomics: 0 }
    }
}

/// The answer for `symbol` in a batch.
pub open spec fn feed_of(m: Map<Seq<char>, Decimal>, symbol: String) -> PriceFeedResponse {
    PriceFeedResponse { symbol, price: price_or_zero(m, symbol@) }
}

/// The cost of `n` lookups at `fee` each.
pub open spec fn batch_cost(fee: u128, n: nat) -> int {
    fee * n
}

fn action(s: &str) -> (r: String)
    ensures
        r@ == s@,
{
    s.to_owned()
}

impl ProducerState {
    pub open spec fn wf(&self) -> bool {
        self.prices.wf()
    }

    /// A response moving the attached fee to the admin and delivering `msg`
    /// to the sender under `id`.
    pub open spec fn paid_delivery(&self, info: MessageInfo, r: Response, msg: ExecMsg, id: u64) -> bool {
        &&& r.fee_transfer == Some(
            BankSend {
                to_address: self.admin,
                amount: Coin { denom: self.denom, amount: attached_or_zero(info.funds@, self.denom@) },
            },
        )
        &&& r.delivery == Some(SubMsg { contract_addr: info.sender, msg, id })
    }

    /// The outcome of setting the cost per request.
    pub open spec fn set_cost_ok(&self, next: &ProducerState, info: MessageInfo, cost: u128, r: Result<Response, ContractError>) -> bool {
        if self.admin@ == info.sender@ {
            (r matches Ok(resp) && plain_response(resp, "set_cost_per_request"@))
                && *next == (ProducerState { cost_per_request: Some(cost), ..*self })
        } else {
            unauthorized(r, "set_cost_per_request"@) && *next == *self
        }
    }

    /// The outcome of handing over the admin role.
    pub open spec fn change_admin_ok(&self, next: &ProducerState, info: MessageInfo, address: String, r: Result<Response, ContractError>) -> bool {
        if self.admin@ == info.sender@ {
            (r matches Ok(resp) && plain_response(resp, "change_admin"@))
                && *next == (ProducerState { admin: address, ..*self })
        } else {
            unauthorized(r, "change_admin"@) && *next == *self
        }
    }

    /// The outcome of setting a price.
    pub open spec fn update_price_ok(&self, next: &ProducerState, info: MessageInfo, symbol: String, price: Price, r: Result<Response, ContractError>) -> bool {
        if self.admin@ == info.sender@ {
            &&& r matches Ok(resp) && plain_response(resp, "update_price"@)
            &&& next.prices@ == self.prices@.insert(symbol@, price.price)
            &&& next.admin == self.admin
            &&& next.denom == self.denom
            &&& next.cost_per_request == self.cost_per_request
        } else {
            unauthorized(r, "update_price"@) && *next == *self
        }
    }

    /// The outcome of one call on the producer.
    pub open spec fn execute_ok(&self, next: &ProducerState, info: MessageInfo, msg: ExecMsg, r: Result<Response, ContractError>) -> bool {
        match msg {
            ExecMsg::UpdatePrice { symbol, price } => self.update_price_ok(next, info, symbol, price, r),
            ExecMsg::RequestPriceFeed { symbol } => self.request_price_ok(info, symbol, r) && *next == *self,
            ExecMsg::RequestPriceFeeds { request } => self.request_feeds_ok(info, request, r) && *next == *self,
            ExecMsg::SetCostPerRequest { cost_per_request } => self.set_cost_ok(next, info, cost_per_request, r),
            ExecMsg::ChangeAdmin { address } => self.change_admin_ok(next, info, address, r),
            _ => r == Err::<Response, ContractError>(ContractError::InvalidExecuteMsg) && *next == *self,
        }
    }

    /// The outcome of asking for one symbol.
    pub open spec fn request_price_ok(&self, info: MessageInfo, symbol: String, r: Result<Response, ContractError>) -> bool {
        if !self.prices@.contains_key(symbol@) {
            r == Err::<Response, ContractError>(ContractError::PriceNotFound { symbol })
        } else if self.cost_per_request is None {
            r == Err::<Response, ContractError>(ContractError::RequestFeesNotSet)
        } else if !pays(info.funds@, self.denom@, self.cost_per_request->0) {
            r == Err::<Response, ContractError>(
                ContractError::InsufficientFees {
                    required: self.cost_per_request->0,
                    attached: attached_or_zero(info.funds@, self.denom@),
                },
            )
        } else {
            r matches Ok(resp) && resp.action@ == "request_price_feed"@ && self.paid_delivery(
                info,
                resp,
                ExecMsg::ReceivePrice {
                    price_response: PriceFeedResponse { symbol, price: self.prices@[symbol@] },
                },
                REPLY_SINGLE,
            )
        }
    }

    /// `feeds` answers `pairs` one for one, zero for a symbol with no price.
    pub open spec fn answers(&self, pairs: Seq<String>, feeds: Seq<PriceFeedResponse>) -> bool {
        &&& feeds.len() == pairs.len()
        &&& forall|i: int|
            0 <= i < pairs.len() ==> #[trigger] feeds[i] == feed_of(self.prices@, pairs[i])
    }

    /// The outcome of asking for a batch of symbols.
    pub open spec fn request_feeds_ok(&self, info: MessageInfo, req: PriceFeedReq, r: Result<Response, ContractError>) -> bool {
        if self.cost_per_request is None {
            r == Err::<Response, ContractError>(ContractError::RequestFeesNotSet)
        } else if batch_cost(self.cost_per_request->0, req.pairs@.len()) > u128::MAX {
            r == Err::<Response, ContractError>(ContractError::CostOverflow)
        } else if !pays(info.funds@, self.denom@, batch_cost(self.cost_per_request->0, req.pairs@.len()) as u128) {
            r == Err::<Response, ContractError>(
                ContractError::InsufficientFees {
                    required: batch_cost(self.cost_per_request->0, req.pairs@.len()) as u128,
                    attached: attached_or_zero(info.funds@, self.denom@),
                },
            )
        } else {
            r matches Ok(resp) && resp.action@ == "request_price_feeds"@ && (resp.delivery matches Some(d)
                && (d.msg matches ExecMsg::ReceivePrices { prices_response } && self.answers(
                req.pairs@,
                prices_response.price_feeds@,
            ) && self.paid_delivery(info, resp, d.msg, REPLY_BATCH)))
        }
    }

    /// Creates a producer: the caller becomes admin, and fees are taken in
    /// `msg.denom`. No cost per request is set yet.
    pub fn instantiate(info: &MessageInfo, msg: InstantiateMsg) -> (r: (ProducerState, Response))
        ensures
            r.0.wf(),
            r.0.admin@ == info.sender@,
            r.0.denom == msg.denom,
            r.0.cost_per_request is None,
            r.0.prices@ == Map::<Seq<char>, Decimal>::empty(),
            plain_response(r.1, "instantiate"@),
    {
        let state = ProducerState {
            admin: info.sender.clone(),
            denom: msg.denom,
            cost_per_request: None,
            prices: SymbolMap::new(),
        };
        (state, Response { action: action("instantiate"), fee_transfer: None, delivery: None })
    }

    /// Whether the caller is the admin.
    pub fn check_admin(&self, info: &MessageInfo) -> (r: bool)
        ensures
            r == (info.sender@ == self.admin@),
    {
        info.sender == self.admin
    }

    /// The cost of one lookup.
    pub fn get_request_fees(&self) -> (r: Result<u128, ContractError>)
        ensures
            r == (match self.cost_per_request {
                Some(c) => Ok::<u128, ContractError>(c),
                None => Err(ContractError::RequestFeesNotSet),
            }),
    {
        match self.cost_per_request {
            Some(c) => Ok(c),
            None => Err(ContractError::RequestFeesNotSet),
        }
    }

    /// Sets the cost of one lookup; admin only.
    pub fn execute_set_cost(&mut self, info: &MessageInfo, cost_per_request: u128) -> (r: Result<Response, ContractError>)
        ensures
            old(self).set_cost_ok(final(self), *info, cost_per_request, r),
    {
        if self.check_admin(info) {
            self.cost_per_request = Some(cost_per_request);
            Ok(Response { action: action("set_cost_per_request"), fee_transfer: None, delivery: None })
        } else {
            Err(ContractError::Unauthorized { function: action("set_cost_per_request") })
        }
    }

    /// Hands the admin role to `address`; admin only.
    pub fn try_change_admin(&mut self, info: &MessageInfo, address: String) -> (r: Result<Response, ContractError>)
        ensures
            old(self).change_admin_ok(final(self), *info, address, r),
    {
        if self.check_admin(info) {
            self.admin = address;
            Ok(Response { action: action("change_admin"), fee_transfer: None, delivery: None })
        } else {
            Err(ContractError::Unauthorized { function: action("change_admin") })
        }
    }

    /// Sets the price of `symbol`, replacing any earlier one; admin only.
    pub fn try_update_price(&mut self, info: &MessageInfo, symbol: String, price: Price) -> (r: Result<Response, ContractError>)
        requires
            old(self).wf(),
        ensures
            final(self).wf(),
            old(self).update_price_ok(final(self), *info, symbol, price, r),
    {
        if self.check_admin(info) {
            self.prices.insert(symbol, price.price);
            Ok(Response { action: action("update_price"), fee_transfer: None, delivery: None })
        } else {
            Err(ContractError::Unauthorized { function: action("update_price") })
        }
    }

    /// Sells the price of one symbol: a symbol with no price is an error.
    pub fn try_request_price(&self, info: &MessageInfo, symbol: String) -> (r: Result<Response, ContractError>)
        requires
            self.wf(),
        ensures
            self.request_price_ok(*info, symbol, r),
    {
        let price = match self.prices.get(&symbol) {
            Some(p) => p,
            None => {
                return Err(ContractError::PriceNotFound { symbol });
            },
        };
        let cost = self.get_request_fees()?;
        match find_attached(&info.funds, &self.denom) {
            Some(amount) if amount >= cost => {
                let fee_transfer = BankSend {
                    to_address: self.admin.clone(),
                    amount: Coin { denom: self.denom.clone(), amount },
                };
                let price_response = PriceFeedResponse { symbol, price };
                let delivery = SubMsg {
                    contract_addr: info.sender.clone(),
                    msg: ExecMsg::ReceivePrice { price_response },
                    id: REPLY_SINGLE,
                };
                Ok(Response {
                    action: action("request_price_feed"),
                    fee_transfer: Some(fee_transfer),
                    delivery: Some(delivery),
                })
            },
            found => {
                let attached = match found {
                    Some(a) => a,
                    None => 0,
                };
                Err(ContractError::InsufficientFees { required: cost, attached })
            },
        }
    }

    /// Sells the prices of a batch of symbols: a symbol with no price is
    /// answered with zero, and the cost is one fee per symbol asked for.
    pub fn try_request_price_feeds(&self, info: &MessageInfo, req: PriceFeedReq) -> (r: Result<Response, ContractError>)
        requires
            self.wf(),
        ensures
            self.request_feeds_ok(*info, req, r),
    {
        let fee = self.get_request_fees()?;
        let n = req.pairs.len();
        let cost = match fee.checked_mul(n as u128) {
            Some(c) => c,
            None => {
                return Err(ContractError::CostOverflow);
            },
        };
        let mut feeds: Vec<PriceFeedResponse> = Vec::new();
        let mut i: usize = 0;
        while i < n
            invariant
                self.wf(),
                n == req.pairs@.len(),
                i <= n,
                feeds@.len() == i,
                forall|j: int|
                    0 <= j < i ==> #[trigger] feeds@[j] == feed_of(self.prices@, req.pairs@[j]),
            decreases n - i,
        {
            let symbol = req.pairs[i].clone();
            let price = match self.prices.get(&symbol) {
                Some(p) => p,
                None => Decimal::zero(),
            };
            feeds.push(PriceFeedResponse { symbol, price });
            i = i + 1;
        }
        match find_attached(&info.funds, &self.denom) {
            Some(amount) if amount >= cost => {
                let fee_transfer = BankSend {
                    to_address: self.admin.clone(),
                    amount: Coin { denom: self.denom.clone(), amount },
                };
                let delivery = SubMsg {
                    contract_addr: info.sender.clone(),
                    msg: ExecMsg::ReceivePrices { prices_response: PriceFeedsResponse { price_feeds: feeds } },
                    id: REPLY_BATCH,
                };
                Ok(Response {
                    action: action("request_price_feeds"),
                    fee_transfer: Some(fee_transfer),
                    delivery: Some(delivery),
                })
            },
            found => {
                let attached = match found {
                    Some(a) => a,
                    None => 0,
                };
                Err(ContractError::InsufficientFees { required: cost, attached })
            },
        }
    }

    /// Runs one call on the producer. The consumer's tags are refused, and a
    /// failed call leaves the state as it was.
    pub fn execute(&mut self, info: &MessageInfo, msg: ExecMsg) -> (r: Result<Response, ContractError>)
        requires
            old(self).wf(),
        ensures
            final(self).wf(),
            r is Err ==> *final(self) == *old(self),
            old(self).execute_ok(final(self), *info, msg, r),
    {
        match msg {
            ExecMsg::UpdatePrice { symbol, price } => self.try_update_price(info, symbol, price),
            ExecMsg::RequestPriceFeed { symbol } => self.try_request_price(info, symbol),
            ExecMsg::RequestPriceFeeds { request } => self.try_request_price_feeds(info, request),
            ExecMsg::ChangeAdmin { address } => self.try_change_admin(info, address),
            ExecMsg::SetCostPerRequest { cost_per_request } => self.execute_set_cost(info, cost_per_request),
            _ => Err(ContractError::InvalidExecuteMsg),
        }
    }

    /// Every symbol that has a price, ascending.
    pub fn query_all_symbols(&self) -> (r: Vec<String>)
        requires
            self.wf(),
        ensures
            string_views(r@) == self.prices.symbols(),
            ascending(string_views(r@)),
            forall|k: Seq<char>| #[trigger] self.prices@.contains_key(k) <==> string_views(r@).contains(k),
    {
        proof {
            self.prices.lemma_symbols();
        }
        self.prices.symbols_ascending()
    }

    /// Answers a query.
    pub fn query(&self, msg: QueryMsg) -> (r: Vec<String>)
        requires
            self.wf(),
        ensures
            string_views(r@) == self.prices.symbols(),
    {
        match msg {
            QueryMsg::GetAllSymbols => self.query_all_symbols(),
        }
    }
}

/// A symbol with no price: asked for alone it is an error; asked for in a
/// batch that is paid for, it is answered with zero.
pub proof fn missing_price_single_fails_batch_answers_zero(
    p: ProducerState,
    info: MessageInfo,
    symbol: String,
    req: PriceFeedReq,
    i: int,
    single: Result<Response, ContractError>,
    batch: Result<Response, ContractError>,
)
    requires
        !p.prices@.contains_key(symbol@),
        0 <= i < req.pairs@.len(),
        req.pairs@[i] == symbol,
        p.cost_per_request is Some,
        batch_cost(p.cost_per_request->0, req.pairs@.len()) <= u128::MAX,
        pays(info.funds@, p.denom@, batch_cost(p.cost_per_request->0, req.pairs@.len()) as u128),
        p.request_price_ok(info, symbol, single),
        p.request_feeds_ok(info, req, batch),
    ensures
        single == Err::<Response, ContractError>(ContractError::PriceNotFound { symbol }),
        batch matches Ok(resp) && (resp.delivery matches Some(d) && (d.msg matches ExecMsg::ReceivePrices {
            prices_response,
        } && prices_response.price_feeds@[i] == (PriceFeedResponse { symbol, price: Decimal { atomics: 0 } }))),
{
}

/// The cost of a batch is the fee times the number of symbols: attaching
/// exactly that much succeeds, and one less fails naming what was owed and
/// what was attached.
pub proof fn batch_fee_is_exact(
    p: ProducerState,
    info: MessageInfo,
    req: PriceFeedReq,
    attached: u128,
    r: Result<Response, ContractError>,
)
    requires
        p.cost_per_request is Some,
        batch_cost(p.cost_per_request->0, req.pairs@.len()) <= u128::MAX,
        attached_in(info.funds@, p.denom@) == Some(attached),
        p.request_feeds_ok(info, req, r),
    ensures
        attached == batch_cost(p.cost_per_request->0, req.pairs@.len()) ==> r is Ok,
        attached + 1 == batch_cost(p.cost_per_request->0, req.pairs@.len()) ==> r == Err::<Response, ContractError>(
            ContractError::InsufficientFees { required: (attached + 1) as u128, attached },
        ),
{
}

/// Only the admin may set prices, hand over the admin role or set the
/// cost: anyone else is refused and nothing changes.
pub proof fn only_admin_may_change(
    p: ProducerState,
    next: ProducerState,
    info: MessageInfo,
    msg: ExecMsg,
    r: Result<Response, ContractError>,
)
    requires
        msg is UpdatePrice || msg is ChangeAdmin || msg is SetCostPerRequest,
        info.sender@ != p.admin@,
        p.execute_ok(&next, info, msg, r),
    ensures
        r matches Err(ContractError::Unauthorized { .. }),
        next == p,
{
}

/// The listed symbols ascend strictly, so none repeats, and they are exactly
/// the symbols that have a price.
pub proof fn all_symbols_ascending(p: ProducerState, listed: Seq<String>)
    requires
        p.wf(),
        string_views(listed) == p.prices.symbols(),
    ensures
        forall|i: int, j: int|
            0 <= i < j < listed.len() ==> symbol_lt(#[trigger] listed[i]@, #[trigger] listed[j]@),
        forall|i: int, j: int| 0 <= i < j < listed.len() ==> #[trigger] listed[i]@ != #[trigger] listed[j]@,
        forall|k: Seq<char>| #[trigger] p.prices@.contains_key(k) <==> string_views(listed).contains(k),
{
    p.prices.lemma_symbols();
    assert forall|i: int, j: int| 0 <= i < j < listed.len() implies symbol_lt(
        #[trigger] listed[i]@,
        #[trigger] listed[j]@,
    ) by {
        assert(string_views(listed)[i] == listed[i]@);
        assert(string_views(listed)[j] == listed[j]@);
    }
    assert forall|i: int, j: int| 0 <= i < j < listed.len() implies #[trigger] listed[i]@ != #[trigger] listed[j]@ by {
        assert(symbol_lt(listed[i]@, listed[j]@));
        lemma_symbol_lt_distinct(listed[i]@, listed[j]@);
    }
}

/// The listing of symbols depends only on which symbols have a price, not
/// on the order in which their prices were set.
pub proof fn all_symbols_independent_of_order(p: ProducerState, q: ProducerState)
    requires
        p.wf(),
        q.wf(),
        p.prices@.dom() == q.prices@.dom(),
    ensures
        p.prices.symbols() == q.prices.symbols(),
{
    p.prices.lemma_symbols();
    q.prices.lemma_symbols();
    let a = p.prices.symbols();
    let b = q.prices.symbols();
    assert forall|k: Seq<char>| a.contains(k) <==> b.contains(k) by {
        assert(p.prices@.dom().contains(k) == q.prices@.dom().contains(k));
        assert(p.prices@.contains_key(k) == a.contains(k));
        assert(q.prices@.contains_key(k) == b.contains(k));
    }
    lemma_ascending_unique(a, b);
}

/// The delivery that a reply finishes.
#[derive(Clone, Copy, Debug, PartialEq, Eq, Structural)]
pub enum PendingDelivery {
    Single,
    Batch,
}

/// Which delivery a reply id stands for, if any.
pub fn pending_of(id: u64) -> (r: Option<PendingDelivery>)
    ensures
        r == (if id == REPLY_SINGLE {
            Some(PendingDelivery::Single)
        } else if id == REPLY_BATCH {
            Some(PendingDelivery::Batch)
        } else {
            None::<PendingDelivery>
        }),
{
    if id == REPLY_SINGLE {
        Some(PendingDelivery::Single)
    } else if id == REPLY_BATCH {
        Some(PendingDelivery::Batch)
    } else {
        None
    }
}

/// Finishes a request once its delivery succeeded: `REPLY_SINGLE` and
/// `REPLY_BATCH` are known, any other id is an error.
pub fn reply(id: u64) -> (r: Result<Response, ContractError>)
    ensures
        id == REPLY_SINGLE ==> (r matches Ok(resp) && plain_response(resp, "price_feed_reply"@)),
        id == REPLY_BATCH ==> (r matches Ok(resp) && plain_response(resp, "price_feeds_reply"@)),
        id != REPLY_SINGLE && id != REPLY_BATCH ==> r == Err::<Response, ContractError>(ContractError::UnknownReplyId { id }),
{
    match pending_of(id) {
        Some(PendingDelivery::Single) => Ok(
            Response { action: action("price_feed_reply"), fee_transfer: None, delivery: None },
        ),
        Some(PendingDelivery::Batch) => Ok(
            Response { action: action("price_feeds_reply"), fee_transfer: None, delivery: None },
        ),
        None => Err(ContractError::UnknownReplyId { id }),
    }
}

} // verus!
