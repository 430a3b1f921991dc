//! One trigger run to the end: a call on the producer, its fee transfer, the
//! nested delivery into the consumer and the reply, all or nothing.
use vstd::prelude::*;
use crate::consumer::{apply_feeds, ConsumerState, ExecuteMsg, FEE_PER_REQUEST};
use crate::decimal::Decimal;
use crate::funds::{attached_in, attached_or_zero, pays, BankSend, Coin, MessageInfo};
use crate::producer::{feed_of, reply, ContractError, ExecMsg, ProducerState, Response};

verus! {

/// Why a trigger was unwound.
#[derive(Clone, Debug, PartialEq, Eq)]
pub enum ChainError {
    /// The producer refused the call.
    Producer(ContractError),
    /// A call went to an address where no program lives.
    NoSuchContract { address: String },
    /// The consumer refused the delivered message.
    DeliveryRejected,
}

/// A producer and a consumer side by side, with the fee transfers made so far.
pub struct Chain {
    pub producer: ProducerState,
    pub producer_address: String,
    pub consumer: ConsumerState,
    pub consumer_address: String,
    pub transfers: Vec<BankSend>,
}

/// What a batch delivers for `pairs`.
pub open spec fn answers_for(m: Map<Seq<char>, Decimal>, pairs: Seq<String>) -> Seq<crate::producer::PriceFeedResponse> {
    Seq::new(pairs.len(), |i: int| feed_of(m, pairs[i]))
}

/// What a single coin pays in `denom`.
proof fn lemma_one_coin(funds: Seq<Coin>, denom: Seq<char>)
    requires
        funds.len() == 1,
    ensures
        attached_in(funds, denom) == (if funds[0].denom@ == denom {
            Some(funds[0].amount)
        } else {
            None::<u128>
        }),
{
    reveal_with_fuel(attached_in, 2);
    assert(funds.drop_first().len() == 0);
}

impl Chain {
    pub open spec fn wf(&self) -> bool {
        self.producer.wf() && self.consumer.wf()
    }

    /// The fee transfer of a request paid with `info`.
    pub open spec fn fee_of(&self, info: MessageInfo) -> BankSend {
        BankSend {
            to_address: self.producer.admin,
            amount: Coin {
                denom: self.producer.denom,
                amount: attached_or_zero(info.funds@, self.producer.denom@),
            },
        }
    }

    /// A request for one symbol goes through.
    pub open spec fn single_succeeds(&self, info: MessageInfo, symbol: Seq<char>) -> bool {
        &&& info.sender@ == self.consumer_address@
        &&& self.producer.prices@.contains_key(symbol)
        &&& self.producer.cost_per_request is Some
        &&& pays(info.funds@, self.producer.denom@, self.producer.cost_per_request->0)
    }

    /// A request for a batch of `n` symbols goes through.
    pub open spec fn batch_succeeds(&self, info: MessageInfo, n: nat) -> bool {
        &&& info.sender@ == self.consumer_address@
        &&& self.producer.cost_per_request is Some
        &&& self.producer.cost_per_request->0 * n <= u128::MAX
        &&& pays(info.funds@, self.producer.denom@, (self.producer.cost_per_request->0 * n) as u128)
    }

    /// Runs one call on the producer, and the delivery and reply it asks for.
    /// When any step fails, nothing of the call remains.
    pub fn run_producer_call(&mut self, info: &MessageInfo, msg: ExecMsg) -> (r: Result<(), ChainError>)
        requires
            old(self).wf(),
        ensures
            final(self).wf(),
            r is Err ==> *final(self) == *old(self),
            match msg {
                ExecMsg::RequestPriceFeed { symbol } => {
                    &&& r is Ok <==> old(self).single_succeeds(*info, symbol@)
                    &&& r is Ok ==> {
                        &&& final(self).producer == old(self).producer
                        &&& final(self).consumer.price_feeds@ == old(self).consumer.price_feeds@.insert(
                            symbol@,
                            old(self).producer.prices@[symbol@],
                        )
                        &&& final(self).transfers@ == old(self).transfers@.push(old(self).fee_of(*info))
                    }
                },
                ExecMsg::RequestPriceFeeds { request } => {
                    &&& r is Ok <==> old(self).batch_succeeds(*info, request.pairs@.len())
                    &&& r is Ok ==> {
                        &&& final(self).producer == old(self).producer
                        &&& final(self).consumer.price_feeds@ == apply_feeds(
                            old(self).consumer.price_feeds@,
                            answers_for(old(self).producer.prices@, request.pairs@),
                        )
                        &&& final(self).transfers@ == old(self).transfers@.push(old(self).fee_of(*info))
                    }
                },
                ExecMsg::UpdatePrice { symbol, price } => {
                    &&& r is Ok <==> old(self).producer.admin@ == info.sender@
                    &&& r is Ok ==> final(self).producer.prices@ == old(self).producer.prices@.insert(symbol@, price.price)
                },
                ExecMsg::SetCostPerRequest { cost_per_request } => {
                    &&& r is Ok <==> old(self).producer.admin@ == info.sender@
                    &&& r is Ok ==> final(self).producer.cost_per_request == Some(cost_per_request)
                },
                ExecMsg::ChangeAdmin { address } => {
                    &&& r is Ok <==> old(self).producer.admin@ == info.sender@
                    &&& r is Ok ==> final(self).producer.admin == address
                },
                _ => r is Err,
            },
    {
        match msg {
            ExecMsg::RequestPriceFeed { symbol } => {
                match self.producer.try_request_price(info, symbol) {
                    Ok(resp) => self.deliver(resp),
                    Err(e) => Err(ChainError::Producer(e)),
                }
            },
            ExecMsg::RequestPriceFeeds { request } => {
                match self.producer.try_request_price_feeds(info, request) {
                    Ok(resp) => {
                        proof {
                            let d = resp.delivery->0;
                            let feeds = d.msg->prices_response.price_feeds@;
                            assert(feeds =~= answers_for(self.producer.prices@, request.pairs@));
                        }
                        self.deliver(resp)
                    },
                    Err(e) => Err(ChainError::Producer(e)),
                }
            },
            ExecMsg::UpdatePrice { symbol, price } => {
                match self.producer.try_update_price(info, symbol, price) {
                    Ok(_) => Ok(()),
                    Err(e) => Err(ChainError::Producer(e)),
                }
            },
            ExecMsg::SetCostPerRequest { cost_per_request } => {
                match self.producer.execute_set_cost(info, cost_per_request) {
                    Ok(_) => Ok(()),
                    Err(e) => Err(ChainError::Producer(e)),
                }
            },
            ExecMsg::ChangeAdmin { address } => {
                match self.producer.try_change_admin(info, address) {
                    Ok(_) => Ok(()),
                    Err(e) => Err(ChainError::Producer(e)),
                }
            },
            _ => Err(ChainError::Producer(ContractError::InvalidExecuteMsg)),
        }
    }

    /// The fee transfer of a consumer request paying `amount`.
    pub open spec fn consumer_fee(&self, amount: u128) -> BankSend {
        BankSend { to_address: self.producer.admin, amount: Coin { denom: self.producer.denom, amount } }
    }

    /// The consumer's request for `n` symbols reaches the producer and is
    /// paid for: the producer takes the consumer's denomination and its fee
    /// for `n` lookups is at most what the consumer attaches.
    pub open spec fn consumer_request_paid(&self, n: nat) -> bool {
        &&& self.consumer.price_feed_contract@ == self.producer_address@
        &&& self.producer.denom@ == "uom"@
        &&& self.producer.cost_per_request is Some
        &&& self.producer.cost_per_request->0 * n <= FEE_PER_REQUEST * n
    }

    /// Runs one call on the consumer. A request travels on to the producer,
    /// paid from the consumer's flat fee, and its answer comes back into the
    /// consumer's cache; when any step fails, nothing of the call remains.
    pub fn run_consumer_call(&mut self, msg: ExecuteMsg) -> (r: Result<(), ChainError>)
        requires
            old(self).wf(),
        ensures
            final(self).wf(),
            r is Err ==> *final(self) == *old(self),
            match msg {
                ExecuteMsg::RequestSinglePrice { pair } => {
                    &&& r is Ok <==> old(self).consumer_request_paid(1) && old(self).producer.prices@.contains_key(pair@)
                    &&& r is Ok ==> {
                        &&& final(self).producer == old(self).producer
                        &&& final(self).consumer.price_feeds@ == old(self).consumer.price_feeds@.insert(
                            pair@,
                            old(self).producer.prices@[pair@],
                        )
                        &&& final(self).transfers@ == old(self).transfers@.push(old(self).consumer_fee(FEE_PER_REQUEST))
                    }
                },
                ExecuteMsg::RequestMultiplePrices { pairs } => {
                    &&& r is Ok <==> old(self).consumer_request_paid(pairs@.len())
                    &&& r is Ok ==> {
                        &&& final(self).producer == old(self).producer
                        &&& final(self).consumer.price_feeds@ == apply_feeds(
                            old(self).consumer.price_feeds@,
                            answers_for(old(self).producer.prices@, pairs@),
                        )
                        &&& final(self).transfers@ == old(self).transfers@.push(
                            old(self).consumer_fee((FEE_PER_REQUEST * pairs@.len()) as u128),
                        )
                    }
                },
                ExecuteMsg::ReceivePrice { price_response } => {
                    &&& r is Ok
                    &&& final(self).consumer.price_feeds@ == old(self).consumer.price_feeds@.insert(
                        price_response.symbol@,
                        price_response.price,
                    )
                },
                ExecuteMsg::ReceivePrices { prices_response } => {
                    &&& r is Ok
                    &&& final(self).consumer.price_feeds@ == apply_feeds(
                        old(self).consumer.price_feeds@,
                        prices_response.price_feeds@,
                    )
                },
            },
    {
        match msg {
            ExecuteMsg::ReceivePrice { price_response } => {
                self.consumer.execute_receive_price(price_response);
                Ok(())
            },
            ExecuteMsg::ReceivePrices { prices_response } => {
                self.consumer.execute_receive_prices(prices_response);
                Ok(())
            },
            ExecuteMsg::RequestSinglePrice { pair } => {
                let resp = self.consumer.execute_request_single_price(pair);
                proof {
                    lemma_one_coin(resp.request->0.funds@, self.producer.denom@);
                }
                self.forward(resp)
            },
            ExecuteMsg::RequestMultiplePrices { pairs } => {
                let n: usize = pairs.len();
                let resp = self.consumer.execute_request_multiple_prices(pairs);
                proof {
                    assert(FEE_PER_REQUEST * n <= FEE_PER_REQUEST * usize::MAX) by (nonlinear_arith)
                        requires
                            n <= usize::MAX,
                    ;
                    lemma_one_coin(resp.request->0.funds@, self.producer.denom@);
                }
                self.forward(resp)
            },
        }
    }

    /// Sends the consumer's request on to the producer.
    fn forward(&mut self, resp: crate::consumer::ConsumerResponse) -> (r: Result<(), ChainError>)
        requires
            old(self).wf(),
            resp.request matches Some(w) && w.contract_addr == old(self).consumer.price_feed_contract
                && (w.msg is RequestPriceFeed || w.msg is RequestPriceFeeds) && w.funds@.len() == 1
                && w.funds@[0].denom@ == "uom"@,
        ensures
            final(self).wf(),
            r is Err ==> *final(self) == *old(self),
            resp.request matches Some(w) && {
                let info = MessageInfo { sender: old(self).consumer_address, funds: w.funds };
                let paid = w.funds@[0].amount;
                &&& match w.msg {
                    ExecMsg::RequestPriceFeed { symbol } => {
                        &&& r is Ok <==> old(self).consumer.price_feed_contract@ == old(self).producer_address@
                            && old(self).single_succeeds(info, symbol@)
                        &&& r is Ok ==> final(self).consumer.price_feeds@ == old(self).consumer.price_feeds@.insert(
                            symbol@,
                            old(self).producer.prices@[symbol@],
                        )
                    },
                    ExecMsg::RequestPriceFeeds { request } => {
                        &&& r is Ok <==> old(self).consumer.price_feed_contract@ == old(self).producer_address@
                            && old(self).batch_succeeds(info, request.pairs@.len())
                        &&& r is Ok ==> final(self).consumer.price_feeds@ == apply_feeds(
                            old(self).consumer.price_feeds@,
                            answers_for(old(self).producer.prices@, request.pairs@),
                        )
                    },
                    _ => false,
                }
                &&& r is Ok ==> final(self).producer == old(self).producer
                    && final(self).transfers@ == old(self).transfers@.push(old(self).fee_of(info))
            },
    {
        let w = match resp.request {
            Some(w) => w,
            None => {
                return Err(ChainError::DeliveryRejected);
            },
        };
        if w.contract_addr != self.producer_address {
            return Err(ChainError::NoSuchContract { address: w.contract_addr });
        }
        let info = MessageInfo { sender: self.consumer_address.clone(), funds: w.funds };
        self.run_producer_call(&info, w.msg)
    }

    /// Makes the fee transfer and the delivery that a paid request asked for,
    /// then finishes it through the reply; nothing happens unless all of
    /// them succeed.
    fn deliver(&mut self, resp: Response) -> (r: Result<(), ChainError>)
        requires
            old(self).wf(),
            resp.fee_transfer is Some,
            resp.delivery is Some,
            resp.delivery->0.id == crate::producer::REPLY_SINGLE || resp.delivery->0.id == crate::producer::REPLY_BATCH,
            resp.delivery->0.msg is ReceivePrice || resp.delivery->0.msg is ReceivePrices,
        ensures
            final(self).wf(),
            r is Err ==> *final(self) == *old(self),
            r is Ok <==> resp.delivery->0.contract_addr@ == old(self).consumer_address@,
            r is Ok ==> {
                &&& final(self).producer == old(self).producer
                &&& final(self).transfers@ == old(self).transfers@.push(resp.fee_transfer->0)
                &&& match resp.delivery->0.msg {
                    ExecMsg::ReceivePrice { price_response } => final(self).consumer.price_feeds@
                        == old(self).consumer.price_feeds@.insert(price_response.symbol@, price_response.price),
                    ExecMsg::ReceivePrices { prices_response } => final(self).consumer.price_feeds@
                        == apply_feeds(old(self).consumer.price_feeds@, prices_response.price_feeds@),
                    _ => false,
                }
            },
    {
        let Response { action: _, fee_transfer, delivery } = resp;
        let (fee, d) = match (fee_transfer, delivery) {
            (Some(fee), Some(d)) => (fee, d),
            _ => {
                return Err(ChainError::DeliveryRejected);
            },
        };
        if d.contract_addr != self.consumer_address {
            return Err(ChainError::NoSuchContract { address: d.contract_addr });
        }
        let delivered = match d.msg {
            ExecMsg::ReceivePrice { price_response } => ExecuteMsg::ReceivePrice { price_response },
            ExecMsg::ReceivePrices { prices_response } => ExecuteMsg::ReceivePrices { prices_response },
            _ => {
                return Err(ChainError::DeliveryRejected);
            },
        };
        if let Err(e) = reply(d.id) {
            return Err(ChainError::Producer(e));
        }
        self.transfers.push(fee);
        self.consumer.execute(delivered);
        Ok(())
    }
}

} // verus!
