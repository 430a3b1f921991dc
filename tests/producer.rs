use price_feeds::decimal::Decimal;
use price_feeds::funds::{BankSend, Coin, MessageInfo};
use price_feeds::producer::{
    reply, ContractError, ExecMsg, InstantiateMsg, Price, PriceFeedReq, PriceFeedResponse, ProducerState,
    QueryMsg, REPLY_BATCH, REPLY_SINGLE, pending_of, PendingDelivery,
};
use price_feeds::symbol_map::SymbolMap;

fn info(sender: &str, funds: Vec<(&str, u128)>) -> MessageInfo {
    MessageInfo {
        sender: sender.to_string(),
        funds: funds.into_iter().map(|(d, a)| Coin { denom: d.to_string(), amount: a }).collect(),
    }
}

fn producer(cost: Option<u128>) -> ProducerState {
    let (mut p, resp) = ProducerState::instantiate(&info("admin", vec![]), InstantiateMsg { denom: "uom".to_string() });
    assert_eq!(resp.action, "instantiate");
    if let Some(c) = cost {
        p.execute(&info("admin", vec![]), ExecMsg::SetCostPerRequest { cost_per_request: c }).unwrap();
    }
    p
}

fn set_price(p: &mut ProducerState, symbol: &str, units: u64) {
    let msg = ExecMsg::UpdatePrice { symbol: symbol.to_string(), price: Price { price: Decimal::from_integer(units) } };
    p.execute(&info("admin", vec![]), msg).unwrap();
}

#[test]
fn instantiate_makes_caller_admin() {
    let p = producer(None);
    assert_eq!(p.admin, "admin");
    assert_eq!(p.denom, "uom");
    assert_eq!(p.cost_per_request, None);
    assert!(p.query_all_symbols().is_empty());
}

#[test]
fn single_request_for_missing_symbol_fails() {
    let p = producer(Some(10));
    let r = p.try_request_price(&info("buyer", vec![("uom", 10)]), "SOL".to_string());
    assert_eq!(r, Err(ContractError::PriceNotFound { symbol: "SOL".to_string() }));
}

#[test]
fn batch_request_answers_missing_symbol_with_zero() {
    let mut p = producer(Some(10));
    set_price(&mut p, "ETH", 3000);
    let req = PriceFeedReq { pairs: vec!["ETH".to_string(), "SOL".to_string(), "ETH".to_string()] };
    let resp = p.try_request_price_feeds(&info("buyer", vec![("uom", 30)]), req).unwrap();
    let d = resp.delivery.unwrap();
    assert_eq!(d.id, REPLY_BATCH);
    assert_eq!(d.contract_addr, "buyer");
    match d.msg {
        ExecMsg::ReceivePrices { prices_response } => {
            assert_eq!(
                prices_response.price_feeds,
                vec![
                    PriceFeedResponse { symbol: "ETH".to_string(), price: Decimal::from_integer(3000) },
                    PriceFeedResponse { symbol: "SOL".to_string(), price: Decimal::zero() },
                    PriceFeedResponse { symbol: "ETH".to_string(), price: Decimal::from_integer(3000) },
                ]
            );
        },
        other => panic!("unexpected delivery {:?}", other),
    }
}

#[test]
fn single_request_pays_admin_and_delivers() {
    let mut p = producer(Some(10));
    set_price(&mut p, "BTC", 65000);
    let resp = p.try_request_price(&info("buyer", vec![("atom", 5), ("uom", 12)]), "BTC".to_string()).unwrap();
    assert_eq!(resp.action, "request_price_feed");
    assert_eq!(
        resp.fee_transfer,
        Some(BankSend { to_address: "admin".to_string(), amount: Coin { denom: "uom".to_string(), amount: 12 } })
    );
    let d = resp.delivery.unwrap();
    assert_eq!(d.id, REPLY_SINGLE);
    assert_eq!(d.contract_addr, "buyer");
    assert_eq!(
        d.msg,
        ExecMsg::ReceivePrice {
            price_response: PriceFeedResponse { symbol: "BTC".to_string(), price: Decimal::from_integer(65000) }
        }
    );
}

#[test]
fn batch_cost_is_fee_times_count() {
    let p = producer(Some(100));
    let pairs = || PriceFeedReq { pairs: vec!["A".to_string(), "B".to_string(), "C".to_string()] };
    let short = p.try_request_price_feeds(&info("buyer", vec![("uom", 299)]), pairs());
    assert_eq!(short, Err(ContractError::InsufficientFees { required: 300, attached: 299 }));
    let exact = p.try_request_price_feeds(&info("buyer", vec![("uom", 300)]), pairs());
    assert!(exact.is_ok());
}

#[test]
fn single_fee_one_short_fails_exact_succeeds() {
    let mut p = producer(Some(50));
    set_price(&mut p, "BTC", 1);
    let short = p.try_request_price(&info("buyer", vec![("uom", 49)]), "BTC".to_string());
    assert_eq!(short, Err(ContractError::InsufficientFees { required: 50, attached: 49 }));
    assert!(p.try_request_price(&info("buyer", vec![("uom", 50)]), "BTC".to_string()).is_ok());
}

#[test]
fn payment_in_other_denom_is_not_counted() {
    let mut p = producer(Some(50));
    set_price(&mut p, "BTC", 1);
    let r = p.try_request_price(&info("buyer", vec![("atom", 500)]), "BTC".to_string());
    assert_eq!(r, Err(ContractError::InsufficientFees { required: 50, attached: 0 }));
    let none = p.try_request_price(&info("buyer", vec![]), "BTC".to_string());
    assert_eq!(none, Err(ContractError::InsufficientFees { required: 50, attached: 0 }));
}

#[test]
fn batch_cost_overflow_is_rejected() {
    let p = producer(Some(u128::MAX));
    let req = PriceFeedReq { pairs: vec!["A".to_string(), "B".to_string()] };
    let r = p.try_request_price_feeds(&info("buyer", vec![("uom", u128::MAX)]), req);
    assert_eq!(r, Err(ContractError::CostOverflow));
}

#[test]
fn empty_batch_costs_nothing() {
    let p = producer(Some(100));
    let r = p.try_request_price_feeds(&info("buyer", vec![("uom", 0)]), PriceFeedReq { pairs: vec![] });
    assert!(r.is_ok());
}

#[test]
fn request_without_cost_set_fails() {
    let mut p = producer(None);
    set_price(&mut p, "BTC", 1);
    let r = p.try_request_price(&info("buyer", vec![("uom", 50)]), "BTC".to_string());
    assert_eq!(r, Err(ContractError::RequestFeesNotSet));
    let b = p.try_request_price_feeds(&info("buyer", vec![("uom", 50)]), PriceFeedReq { pairs: vec![] });
    assert_eq!(b, Err(ContractError::RequestFeesNotSet));
}

#[test]
fn non_admin_is_refused_and_nothing_changes() {
    let mut p = producer(Some(7));
    set_price(&mut p, "BTC", 1);
    let mallory = info("mallory", vec![]);
    let r1 = p.execute(
        &mallory,
        ExecMsg::UpdatePrice { symbol: "BTC".to_string(), price: Price { price: Decimal::from_integer(2) } },
    );
    assert_eq!(r1, Err(ContractError::Unauthorized { function: "update_price".to_string() }));
    let r2 = p.execute(&mallory, ExecMsg::ChangeAdmin { address: "mallory".to_string() });
    assert_eq!(r2, Err(ContractError::Unauthorized { function: "change_admin".to_string() }));
    let r3 = p.execute(&mallory, ExecMsg::SetCostPerRequest { cost_per_request: 0 });
    assert_eq!(r3, Err(ContractError::Unauthorized { function: "set_cost_per_request".to_string() }));
    assert_eq!(p.admin, "admin");
    assert_eq!(p.cost_per_request, Some(7));
    assert_eq!(p.prices.get(&"BTC".to_string()), Some(Decimal::from_integer(1)));
    assert_eq!(p.query_all_symbols(), vec!["BTC".to_string()]);
}

#[test]
fn new_admin_takes_over() {
    let mut p = producer(None);
    p.execute(&info("admin", vec![]), ExecMsg::ChangeAdmin { address: "carol".to_string() }).unwrap();
    assert_eq!(p.admin, "carol");
    let old = p.execute(&info("admin", vec![]), ExecMsg::SetCostPerRequest { cost_per_request: 3 });
    assert!(matches!(old, Err(ContractError::Unauthorized { .. })));
    p.execute(&info("carol", vec![]), ExecMsg::SetCostPerRequest { cost_per_request: 3 }).unwrap();
    assert_eq!(p.cost_per_request, Some(3));
}

#[test]
fn update_overwrites_price() {
    let mut p = producer(None);
    set_price(&mut p, "BTC", 1);
    set_price(&mut p, "BTC", 2);
    assert_eq!(p.prices.get(&"BTC".to_string()), Some(Decimal::from_integer(2)));
    assert_eq!(p.query_all_symbols().len(), 1);
}

#[test]
fn all_symbols_ascend_whatever_the_insertion_order() {
    let mut a = producer(None);
    let mut b = producer(None);
    for s in ["SOL", "BTC", "ETH", "ATOM", "BTC", "eth", "B"] {
        set_price(&mut a, s, 1);
    }
    for s in ["eth", "ATOM", "B", "ETH", "SOL", "BTC"] {
        set_price(&mut b, s, 1);
    }
    let expected: Vec<String> = ["ATOM", "B", "BTC", "ETH", "SOL", "eth"].iter().map(|s| s.to_string()).collect();
    assert_eq!(a.query_all_symbols(), expected);
    assert_eq!(b.query(QueryMsg::GetAllSymbols), expected);
}

#[test]
fn consumer_tags_are_refused() {
    let mut p = producer(None);
    let msg = ExecMsg::ReceivePrice {
        price_response: PriceFeedResponse { symbol: "BTC".to_string(), price: Decimal::zero() },
    };
    assert_eq!(p.execute(&info("admin", vec![]), msg), Err(ContractError::InvalidExecuteMsg));
}

#[test]
fn reply_ids() {
    assert_eq!(reply(1).unwrap().action, "price_feed_reply");
    assert_eq!(reply(2).unwrap().action, "price_feeds_reply");
    assert_eq!(reply(3), Err(ContractError::UnknownReplyId { id: 3 }));
}

#[test]
fn decimal_values() {
    assert_eq!(Decimal::from_integer(3000).atomics, 3_000_000_000_000_000_000_000);
    assert_eq!(Decimal::from_cents(65000, 0), Decimal::from_integer(65000));
    assert_eq!(Decimal::from_cents(1, 5).atomics, 1_050_000_000_000_000_000);
    assert!(Decimal::zero().is_zero());
    assert_eq!(Decimal::raw(7).atomics, 7);
}

#[test]
fn reply_ids_name_pending_deliveries() {
    assert_eq!(pending_of(REPLY_SINGLE), Some(PendingDelivery::Single));
    assert_eq!(pending_of(REPLY_BATCH), Some(PendingDelivery::Batch));
    assert_eq!(pending_of(0), None);
    assert_eq!(pending_of(u64::MAX), None);
}

#[test]
fn symbol_map_basics() {
    let mut m = SymbolMap::new();
    assert_eq!(m.len(), 0);
    assert!(!m.contains(&"X".to_string()));
    m.insert("X".to_string(), Decimal::raw(5));
    m.insert("A".to_string(), Decimal::raw(6));
    m.insert("X".to_string(), Decimal::raw(7));
    assert_eq!(m.len(), 2);
    assert!(m.contains(&"X".to_string()));
    assert_eq!(m.get(&"X".to_string()), Some(Decimal::raw(7)));
    assert_eq!(m.get(&"Y".to_string()), None);
    assert_eq!(m.symbols_ascending(), vec!["A".to_string(), "X".to_string()]);
}

#[test]
fn non_ascii_symbols_order_by_bytes() {
    let mut p = producer(None);
    for s in ["é", "z", "Z", "ä"] {
        set_price(&mut p, s, 1);
    }
    let expected: Vec<String> = ["Z", "z", "ä", "é"].iter().map(|s| s.to_string()).collect();
    assert_eq!(p.query_all_symbols(), expected);
}
