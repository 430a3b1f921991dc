use price_feeds::chain::{Chain, ChainError};
use price_feeds::consumer::{
    ConsumerError, ConsumerState, ExecuteMsg, InstantiateMsg, PriceFeed, QueryMsg, FEE_PER_REQUEST,
};
use price_feeds::decimal::Decimal;
use price_feeds::funds::{BankSend, Coin, MessageInfo};
use price_feeds::producer::{
    self, ContractError, ExecMsg, Price, PriceFeedReq, PriceFeedResponse, PriceFeedsResponse, ProducerState,
};
use price_feeds::symbol_order::{compare_symbols, Comparison};

fn consumer() -> ConsumerState {
    ConsumerState::instantiate(InstantiateMsg { price_feed_contract: "producer".to_string() }).0
}

fn feed(symbol: &str, units: u64) -> PriceFeedResponse {
    PriceFeedResponse { symbol: symbol.to_string(), price: Decimal::from_integer(units) }
}

fn chain(cost: u128) -> Chain {
    let admin = MessageInfo { sender: "admin".to_string(), funds: vec![] };
    let (mut p, _) = ProducerState::instantiate(&admin, producer::InstantiateMsg { denom: "uom".to_string() });
    p.execute(&admin, ExecMsg::SetCostPerRequest { cost_per_request: cost }).unwrap();
    Chain {
        producer: p,
        producer_address: "producer".to_string(),
        consumer: consumer(),
        consumer_address: "consumer".to_string(),
        transfers: vec![],
    }
}

fn admin_sets(c: &mut Chain, symbol: &str, price: Decimal) {
    let admin = MessageInfo { sender: "admin".to_string(), funds: vec![] };
    c.run_producer_call(&admin, ExecMsg::UpdatePrice { symbol: symbol.to_string(), price: Price { price } })
        .unwrap();
}

fn cached(c: &Chain, symbol: &str) -> Result<PriceFeed, ConsumerError> {
    c.consumer.query(QueryMsg::GetValue { pair: symbol.to_string() })
}

#[test]
fn never_received_is_not_found() {
    let c = consumer();
    assert_eq!(
        c.query_price("BTC".to_string()),
        Err(ConsumerError::NotFound { pair: "BTC".to_string() })
    );
}

#[test]
fn single_request_attaches_flat_fee() {
    let c = consumer();
    let r = c.execute_request_single_price("BTC".to_string());
    assert_eq!(r.action, "request_single_price");
    let w = r.request.unwrap();
    assert_eq!(w.contract_addr, "producer");
    assert_eq!(w.msg, ExecMsg::RequestPriceFeed { symbol: "BTC".to_string() });
    assert_eq!(w.funds, vec![Coin { denom: "uom".to_string(), amount: 1000 }]);
}

#[test]
fn multiple_request_attaches_fee_per_symbol() {
    let c = consumer();
    let pairs = vec!["A".to_string(), "B".to_string(), "C".to_string()];
    let w = c.execute_request_multiple_prices(pairs.clone()).request.unwrap();
    assert_eq!(w.msg, ExecMsg::RequestPriceFeeds { request: PriceFeedReq { pairs } });
    assert_eq!(w.funds, vec![Coin { denom: "uom".to_string(), amount: 3 * FEE_PER_REQUEST }]);
}

#[test]
fn receive_prices_last_write_wins() {
    let mut c = consumer();
    let feeds = PriceFeedsResponse { price_feeds: vec![feed("ETH", 1), feed("SOL", 2), feed("ETH", 3)] };
    c.execute(ExecuteMsg::ReceivePrices { prices_response: feeds });
    assert_eq!(c.query_price("ETH".to_string()), Ok(PriceFeed { price: Decimal::from_integer(3) }));
    assert_eq!(c.query_price("SOL".to_string()), Ok(PriceFeed { price: Decimal::from_integer(2) }));
}

#[test]
fn delivering_twice_equals_once() {
    let mut once = consumer();
    let mut twice = consumer();
    once.execute_receive_price(feed("ATOM", 9));
    twice.execute_receive_price(feed("ATOM", 9));
    twice.execute_receive_price(feed("ATOM", 9));
    assert_eq!(once.query_price("ATOM".to_string()), twice.query_price("ATOM".to_string()));
    assert_eq!(once.price_feeds.len(), twice.price_feeds.len());
    assert_eq!(twice.price_feeds.symbols_ascending(), vec!["ATOM".to_string()]);
}

#[test]
fn round_trip_single() {
    let mut c = chain(1000);
    admin_sets(&mut c, "BTC", Decimal::from_cents(65000, 0));
    c.run_consumer_call(ExecuteMsg::RequestSinglePrice { pair: "BTC".to_string() }).unwrap();
    assert_eq!(cached(&c, "BTC"), Ok(PriceFeed { price: Decimal::from_cents(65000, 0) }));
    assert_eq!(
        c.transfers,
        vec![BankSend { to_address: "admin".to_string(), amount: Coin { denom: "uom".to_string(), amount: 1000 } }]
    );
}

#[test]
fn round_trip_batch() {
    let mut c = chain(1000);
    admin_sets(&mut c, "ETH", Decimal::from_integer(3000));
    let pairs = vec!["ETH".to_string(), "SOL".to_string()];
    c.run_consumer_call(ExecuteMsg::RequestMultiplePrices { pairs }).unwrap();
    assert_eq!(cached(&c, "ETH"), Ok(PriceFeed { price: Decimal::from_integer(3000) }));
    assert_eq!(cached(&c, "SOL"), Ok(PriceFeed { price: Decimal::zero() }));
    assert_eq!(c.transfers.len(), 1);
    assert_eq!(c.transfers[0].amount.amount, 2000);
}

#[test]
fn single_request_for_missing_price_unwinds() {
    let mut c = chain(1000);
    let r = c.run_consumer_call(ExecuteMsg::RequestSinglePrice { pair: "SOL".to_string() });
    assert_eq!(r, Err(ChainError::Producer(ContractError::PriceNotFound { symbol: "SOL".to_string() })));
    assert!(c.transfers.is_empty());
    assert!(cached(&c, "SOL").is_err());
}

#[test]
fn fee_above_flat_amount_unwinds() {
    let mut c = chain(1001);
    admin_sets(&mut c, "BTC", Decimal::from_integer(1));
    let r = c.run_consumer_call(ExecuteMsg::RequestSinglePrice { pair: "BTC".to_string() });
    assert_eq!(
        r,
        Err(ChainError::Producer(ContractError::InsufficientFees { required: 1001, attached: 1000 }))
    );
    assert!(c.transfers.is_empty());
}

#[test]
fn failed_delivery_leaves_no_fee_transfer() {
    let mut c = chain(10);
    admin_sets(&mut c, "BTC", Decimal::from_integer(1));
    let stranger = MessageInfo { sender: "stranger".to_string(), funds: vec![Coin { denom: "uom".to_string(), amount: 10 }] };
    let r = c.run_producer_call(&stranger, ExecMsg::RequestPriceFeed { symbol: "BTC".to_string() });
    assert_eq!(r, Err(ChainError::NoSuchContract { address: "stranger".to_string() }));
    assert!(c.transfers.is_empty());
    assert!(cached(&c, "BTC").is_err());
}

#[test]
fn request_to_wrong_producer_unwinds() {
    let mut c = chain(10);
    c.producer_address = "elsewhere".to_string();
    admin_sets(&mut c, "BTC", Decimal::from_integer(1));
    let r = c.run_consumer_call(ExecuteMsg::RequestSinglePrice { pair: "BTC".to_string() });
    assert_eq!(r, Err(ChainError::NoSuchContract { address: "producer".to_string() }));
    assert!(c.transfers.is_empty());
}

#[test]
fn symbol_comparison() {
    let s = |x: &str| x.to_string();
    assert_eq!(compare_symbols(&s("BTC"), &s("ETH")), Comparison::Less);
    assert_eq!(compare_symbols(&s("ETH"), &s("ETH")), Comparison::Equal);
    assert_eq!(compare_symbols(&s("eth"), &s("ETH")), Comparison::Greater);
    assert_eq!(compare_symbols(&s("B"), &s("BTC")), Comparison::Less);
    assert_eq!(compare_symbols(&s(""), &s("A")), Comparison::Less);
}
