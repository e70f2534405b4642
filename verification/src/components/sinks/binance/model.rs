//! Orders as the exchange takes and reports them.

use crate::objects::fixed_point::fixed_to_decimal;
use crate::objects::new_order::{NewOrderV1, OrderSide, OrderType};
use crate::utils::text::same_text;
use vstd::prelude::*;
use vstd::std_specs::convert::FromSpec;

verus! {

/// The side of an order.
#[derive(Clone, Copy, Debug, PartialEq, Eq, Structural)]
pub enum BinanceOrderSide {
    Buy,
    Sell,
}

/// The type of an order.
#[derive(Clone, Copy, Debug, PartialEq, Eq, Structural)]
pub enum BinanceOrderType {
    Limit,
    Market,
    StopLoss,
    StopLossLimit,
    TakeProfit,
    TakeProfitLimit,
    LimitMaker,
}

impl BinanceOrderSide {
    /// The word of the exchange for the side.
    pub open spec fn word(self) -> Seq<char> {
        match self {
            BinanceOrderSide::Buy => "BUY"@,
            BinanceOrderSide::Sell => "SELL"@,
        }
    }

    pub fn to_text(self) -> (r: String)
        ensures
            r@ == self.word(),
    {
        match self {
            BinanceOrderSide::Buy => "BUY".to_owned(),
            BinanceOrderSide::Sell => "SELL".to_owned(),
        }
    }
}

impl BinanceOrderType {
    /// The word of the exchange for the type.
    pub open spec fn word(self) -> Seq<char> {
        match self {
            BinanceOrderType::Limit => "LIMIT"@,
            BinanceOrderType::Market => "MARKET"@,
            BinanceOrderType::StopLoss => "STOP_LOSS"@,
            BinanceOrderType::StopLossLimit => "STOP_LOSS_LIMIT"@,
            BinanceOrderType::TakeProfit => "TAKE_PROFIT"@,
            BinanceOrderType::TakeProfitLimit => "TAKE_PROFIT_LIMIT"@,
            BinanceOrderType::LimitMaker => "LIMIT_MAKER"@,
        }
    }

    pub fn to_text(self) -> (r: String)
        ensures
            r@ == self.word(),
    {
        match self {
            BinanceOrderType::Limit => "LIMIT".to_owned(),
            BinanceOrderType::Market => "MARKET".to_owned(),
            BinanceOrderType::StopLoss => "STOP_LOSS".to_owned(),
            BinanceOrderType::StopLossLimit => "STOP_LOSS_LIMIT".to_owned(),
            BinanceOrderType::TakeProfit => "TAKE_PROFIT".to_owned(),
            BinanceOrderType::TakeProfitLimit => "TAKE_PROFIT_LIMIT".to_owned(),
            BinanceOrderType::LimitMaker => "LIMIT_MAKER".to_owned(),
        }
    }
}

impl From<OrderSide> for BinanceOrderSide {
    fn from(item: OrderSide) -> (r: BinanceOrderSide) {
        match item {
            OrderSide::Buy => BinanceOrderSide::Buy,
            OrderSide::Sell => BinanceOrderSide::Sell,
        }
    }
}

impl vstd::std_specs::convert::FromSpecImpl<OrderSide> for BinanceOrderSide {
    open spec fn obeys_from_spec() -> bool {
        true
    }

    open spec fn from_spec(item: OrderSide) -> BinanceOrderSide {
        match item {
            OrderSide::Buy => BinanceOrderSide::Buy,
            OrderSide::Sell => BinanceOrderSide::Sell,
        }
    }
}

impl From<OrderType> for BinanceOrderType {
    fn from(item: OrderType) -> (r: BinanceOrderType) {
        match item {
            OrderType::Limit => BinanceOrderType::Limit,
            OrderType::Market => BinanceOrderType::Market,
            OrderType::StopLoss => BinanceOrderType::StopLoss,
            OrderType::StopLossLimit => BinanceOrderType::StopLossLimit,
            OrderType::TakeProfit => BinanceOrderType::TakeProfit,
            OrderType::TakeProfitLimit => BinanceOrderType::TakeProfitLimit,
            OrderType::LimitMaker => BinanceOrderType::LimitMaker,
        }
    }
}

impl vstd::std_specs::convert::FromSpecImpl<OrderType> for BinanceOrderType {
    open spec fn obeys_from_spec() -> bool {
        true
    }

    open spec fn from_spec(item: OrderType) -> BinanceOrderType {
        match item {
            OrderType::Limit => BinanceOrderType::Limit,
            OrderType::Market => BinanceOrderType::Market,
            OrderType::StopLoss => BinanceOrderType::StopLoss,
            OrderType::StopLossLimit => BinanceOrderType::StopLossLimit,
            OrderType::TakeProfit => BinanceOrderType::TakeProfit,
            OrderType::TakeProfitLimit => BinanceOrderType::TakeProfitLimit,
            OrderType::LimitMaker => BinanceOrderType::LimitMaker,
        }
    }
}

/// What an account holds of one asset.
#[derive(Clone, Debug)]
pub struct BinanceBalance {
    pub asset: String,
    pub free: String,
    pub locked: String,
}

/// An order as the exchange reports it.
#[derive(Clone, Debug)]
pub struct BinanceOrder {
    pub symbol: String,
    pub order_id: u64,
    pub order_list_id: i64,
    pub client_order_id: String,
    pub price: String,
    pub orig_qty: String,
    pub executed_qty: String,
    pub cummulative_quote_qty: String,
    pub status: String,
    pub time_in_force: String,
    pub order_type_name: String,
    pub side: String,
    pub stop_price: String,
    pub iceberg_qty: String,
    pub time: u64,
    pub update_time: u64,
    pub is_working: bool,
    pub orig_quote_order_qty: String,
}

/// An order as the exchange takes it.
#[derive(Clone, Debug)]
pub struct BinanceNewOrder {
    pub symbol: String,
    pub order_side: BinanceOrderSide,
    pub order_type: BinanceOrderType,
    pub quantity: String,
    pub price: String,
}

impl BinanceNewOrder {
    /// The order as the exchange takes it: side and type in its words,
    /// quantity and price as decimal text.
    pub fn from_order(item: NewOrderV1) -> (r: BinanceNewOrder)
        ensures
            r.symbol == item.symbol,
            r.order_side == BinanceOrderSide::from_spec(item.order_side),
            r.order_type == BinanceOrderType::from_spec(item.order_type),
            r.quantity@ == fixed_to_decimal(item.quantity.bits),
            r.price@ == fixed_to_decimal(item.price.bits),
    {
        BinanceNewOrder {
            symbol: item.symbol,
            order_side: BinanceOrderSide::from(item.order_side),
            order_type: BinanceOrderType::from(item.order_type),
            quantity: item.quantity.to_string(),
            price: item.price.to_string(),
        }
    }
}

/// The acknowledgement of a placed order.
#[derive(Clone, Debug)]
pub struct BinanceAckOrder {
    pub symbol: String,
    pub order_id: u64,
    pub order_list_id: i64,
    pub client_order_id: String,
    pub transact_time: u64,
}

/// The acknowledgement of a cancelled order.
#[derive(Clone, Debug)]
pub struct BinanceOrderCanceled {
    pub symbol: String,
    pub orig_client_order_id: Option<String>,
    pub order_id: Option<u64>,
    pub client_order_id: Option<String>,
}

/// An error as the exchange reports it.
#[derive(Debug)]
pub struct BinanceContentError {
    pub code: i16,
    pub msg: String,
}

/// Where the balance of the asset stands among the balances of an
/// account: the index of the first balance of that asset.
pub fn find_balance(balances: &Vec<BinanceBalance>, symbol: &str) -> (r: Option<usize>)
    ensures
        match r {
            Some(i) => i < balances@.len() && balances@[i as int].asset@ == symbol@ && forall|
                j: int,
            | 0 <= j < i ==> (#[trigger] balances@[j]).asset@ != symbol@,
            None => forall|j: int| 0 <= j < balances@.len() ==> (#[trigger] balances@[j]).asset@
                != symbol@,
        },
{
    let mut i: usize = 0;
    while i < balances.len()
        invariant
            i <= balances.len(),
            forall|j: int| 0 <= j < i ==> (#[trigger] balances@[j]).asset@ != symbol@,
        decreases balances.len() - i,
    {
        if same_text(balances[i].asset.as_str(), symbol) {
            return Some(i);
        }
        i = i + 1;
    }
    None
}

} // verus!
