//! The consumer's capability set, the default consumer, and dispatch.

use vstd::prelude::*;
use crate::client::{Client, ClientError, ConnState, Step, current_time_request};
use crate::event::{Event, EventView, decodes_to, decoding_is_exact, known_tag};
use crate::frame::fields_view;
use crate::text::Decimal;

verus! {

/// One call that the dispatcher made on a consumer.
pub enum Call {
    /// An event operation, with the event its arguments make up.
    Event(EventView),
    /// `connect_ack`: the gateway accepted the handshake.
    ConnectAck,
    /// `connection_closed`: the connection is gone.
    ConnectionClosed,
}

/// The operations the dispatcher calls, one per event. Each is given the
/// client handle and may issue new requests through it: the receive step
/// has returned before dispatch, so nothing is held that such a call could
/// wait on.
pub trait Wrapper {
    /// The calls this consumer has been handed, oldest first. A consumer
    /// verified against this trait defines its own record; the empty default
    /// only lets consumers written outside Verus implement the trait.
    open spec fn seen(&self) -> Seq<Call> {
        Seq::empty()
    }

    fn tick_price(
        &mut self,
        client: &mut Client,
        req_id: i64,
        tick_type: i64,
        price: Decimal,
        size: Decimal,
        attrib: i64,
    )
        requires
            old(client).wf(),
        ensures
            final(client).wf(),
            final(self).seen() == old(self).seen().push(Call::Event(
                EventView::TickPrice {
                    req_id,
                    tick_type,
                    price,
                    size,
                    attrib,
                },
            )),
    ;

    fn tick_size(
        &mut self,
        client: &mut Client,
        req_id: i64,
        tick_type: i64,
        size: Decimal,
    )
        requires
            old(client).wf(),
        ensures
            final(client).wf(),
            final(self).seen() == old(self).seen().push(Call::Event(
                EventView::TickSize {
                    req_id,
                    tick_type,
                    size,
                },
            )),
    ;

    fn tick_string(
        &mut self,
        client: &mut Client,
        req_id: i64,
        tick_type: i64,
        value: &Vec<u8>,
    )
        requires
            old(client).wf(),
        ensures
            final(client).wf(),
            final(self).seen() == old(self).seen().push(Call::Event(
                EventView::TickString {
                    req_id,
                    tick_type,
                    value: value@,
                },
            )),
    ;

    fn order_status(
        &mut self,
        client: &mut Client,
        order_id: i64,
        status: &Vec<u8>,
        filled: Decimal,
        remaining: Decimal,
        avg_fill_price: Decimal,
        perm_id: i64,
        parent_id: i64,
        last_fill_price: Decimal,
        client_id: i64,
        why_held: &Vec<u8>,
        mkt_cap_price: Decimal,
    )
        requires
            old(client).wf(),
        ensures
            final(client).wf(),
            final(self).seen() == old(self).seen().push(Call::Event(
                EventView::OrderStatus {
                    order_id,
                    status: status@,
                    filled,
                    remaining,
                    avg_fill_price,
                    perm_id,
                    parent_id,
                    last_fill_price,
                    client_id,
                    why_held: why_held@,
                    mkt_cap_price,
                },
            )),
    ;

    fn error(
        &mut self,
        client: &mut Client,
        req_id: i64,
        code: i64,
        text: &Vec<u8>,
        advanced_reject: &Vec<u8>,
    )
        requires
            old(client).wf(),
        ensures
            final(client).wf(),
            final(self).seen() == old(self).seen().push(Call::Event(
                EventView::Error {
                    req_id,
                    code,
                    text: text@,
                    advanced_reject: advanced_reject@,
                },
            )),
    ;

    fn next_valid_id(
        &mut self,
        client: &mut Client,
        order_id: i64,
    )
        requires
            old(client).wf(),
        ensures
            final(client).wf(),
            final(self).seen() == old(self).seen().push(Call::Event(EventView::NextValidId { order_id })),
    ;

    fn historical_data(
        &mut self,
        client: &mut Client,
        req_id: i64,
        date: &Vec<u8>,
        open: Decimal,
        high: Decimal,
        low: Decimal,
        close: Decimal,
        volume: Decimal,
        wap: Decimal,
        bar_count: i64,
    )
        requires
            old(client).wf(),
        ensures
            final(client).wf(),
            final(self).seen() == old(self).seen().push(Call::Event(
                EventView::HistoricalData {
                    req_id,
                    date: date@,
                    open,
                    high,
                    low,
                    close,
                    volume,
                    wap,
                    bar_count,
                },
            )),
    ;

    fn historical_data_end(
        &mut self,
        client: &mut Client,
        req_id: i64,
        start: &Vec<u8>,
        end: &Vec<u8>,
    )
        requires
            old(client).wf(),
        ensures
            final(client).wf(),
            final(self).seen() == old(self).seen().push(Call::Event(
                EventView::HistoricalDataEnd {
                    req_id,
                    start: start@,
                    end: end@,
                },
            )),
    ;

    fn current_time(
        &mut self,
        client: &mut Client,
        time: i64,
    )
        requires
            old(client).wf(),
        ensures
            final(client).wf(),
            final(self).seen() == old(self).seen().push(Call::Event(EventView::CurrentTime { time })),
    ;

    fn account_summary(
        &mut self,
        client: &mut Client,
        req_id: i64,
        account: &Vec<u8>,
        tag: &Vec<u8>,
        value: &Vec<u8>,
        currency: &Vec<u8>,
    )
        requires
            old(client).wf(),
        ensures
            final(client).wf(),
            final(self).seen() == old(self).seen().push(Call::Event(
                EventView::AccountSummary {
                    req_id,
                    account: account@,
                    tag: tag@,
                    value: value@,
                    currency: currency@,
                },
            )),
    ;

    fn account_summary_end(
        &mut self,
        client: &mut Client,
        req_id: i64,
    )
        requires
            old(client).wf(),
        ensures
            final(client).wf(),
            final(self).seen() == old(self).seen().push(Call::Event(
                EventView::AccountSummaryEnd {
                    req_id,
                },
            )),
    ;

    fn tick_option_computation(
        &mut self,
        client: &mut Client,
        req_id: i64,
        tick_type: i64,
        implied_vol: Decimal,
        delta: Decimal,
        opt_price: Decimal,
        pv_dividend: Decimal,
        gamma: Decimal,
        vega: Decimal,
        theta: Decimal,
        und_price: Decimal,
    )
        requires
            old(client).wf(),
        ensures
            final(client).wf(),
            final(self).seen() == old(self).seen().push(Call::Event(
                EventView::TickOptionComputation {
                    req_id,
                    tick_type,
                    implied_vol,
                    delta,
                    opt_price,
                    pv_dividend,
                    gamma,
                    vega,
                    theta,
                    und_price,
                },
            )),
    ;

    fn tick_efp(
        &mut self,
        client: &mut Client,
        req_id: i64,
        tick_type: i64,
        basis_points: Decimal,
        formatted_basis_points: &Vec<u8>,
        total_dividends: Decimal,
        hold_days: i64,
        future_last_trade_date: &Vec<u8>,
        dividend_impact: Decimal,
        dividends_to_last_trade_date: Decimal,
    )
        requires
            old(client).wf(),
        ensures
            final(client).wf(),
            final(self).seen() == old(self).seen().push(Call::Event(
                EventView::TickEfp {
                    req_id,
                    tick_type,
                    basis_points,
                    formatted_basis_points: formatted_basis_points@,
                    total_dividends,
                    hold_days,
                    future_last_trade_date: future_last_trade_date@,
                    dividend_impact,
                    dividends_to_last_trade_date,
                },
            )),
    ;

    fn tick_generic(
        &mut self,
        client: &mut Client,
        req_id: i64,
        tick_type: i64,
        value: Decimal,
    )
        requires
            old(client).wf(),
        ensures
            final(client).wf(),
            final(self).seen() == old(self).seen().push(Call::Event(
                EventView::TickGeneric {
                    req_id,
                    tick_type,
                    value,
                },
            )),
    ;

    fn tick_snapshot_end(
        &mut self,
        client: &mut Client,
        req_id: i64,
    )
        requires
            old(client).wf(),
        ensures
            final(client).wf(),
            final(self).seen() == old(self).seen().push(Call::Event(EventView::TickSnapshotEnd { req_id })),
    ;

    fn market_data_type(
        &mut self,
        client: &mut Client,
        req_id: i64,
        market_data_type: i64,
    )
        requires
            old(client).wf(),
        ensures
            final(client).wf(),
            final(self).seen() == old(self).seen().push(Call::Event(
                EventView::MarketDataType {
                    req_id,
                    market_data_type,
                },
            )),
    ;

    fn tick_req_params(
        &mut self,
        client: &mut Client,
        req_id: i64,
        min_tick: Decimal,
        bbo_exchange: &Vec<u8>,
        snapshot_permissions: i64,
    )
        requires
            old(client).wf(),
        ensures
            final(client).wf(),
            final(self).seen() == old(self).seen().push(Call::Event(
                EventView::TickReqParams {
                    req_id,
                    min_tick,
                    bbo_exchange: bbo_exchange@,
                    snapshot_permissions,
                },
            )),
    ;

    fn realtime_bar(
        &mut self,
        client: &mut Client,
        req_id: i64,
        time: i64,
        open: Decimal,
        high: Decimal,
        low: Decimal,
        close: Decimal,
        volume: Decimal,
        wap: Decimal,
        count: i64,
    )
        requires
            old(client).wf(),
        ensures
            final(client).wf(),
            final(self).seen() == old(self).seen().push(Call::Event(
                EventView::RealtimeBar {
                    req_id,
                    time,
                    open,
                    high,
                    low,
                    close,
                    volume,
                    wap,
                    count,
                },
            )),
    ;

    fn update_mkt_depth(
        &mut self,
        client: &mut Client,
        req_id: i64,
        position: i64,
        operation: i64,
        side: i64,
        price: Decimal,
        size: Decimal,
    )
        requires
            old(client).wf(),
        ensures
            final(client).wf(),
            final(self).seen() == old(self).seen().push(Call::Event(
                EventView::UpdateMktDepth {
                    req_id,
                    position,
                    operation,
                    side,
                    price,
                    size,
                },
            )),
    ;

    fn update_account_value(
        &mut self,
        client: &mut Client,
        key: &Vec<u8>,
        val: &Vec<u8>,
        currency: &Vec<u8>,
        account_name: &Vec<u8>,
    )
        requires
            old(client).wf(),
        ensures
            final(client).wf(),
            final(self).seen() == old(self).seen().push(Call::Event(
                EventView::UpdateAccountValue {
                    key: key@,
                    val: val@,
                    currency: currency@,
                    account_name: account_name@,
                },
            )),
    ;

    fn update_account_time(
        &mut self,
        client: &mut Client,
        time_stamp: &Vec<u8>,
    )
        requires
            old(client).wf(),
        ensures
            final(client).wf(),
            final(self).seen() == old(self).seen().push(Call::Event(
                EventView::UpdateAccountTime {
                    time_stamp: time_stamp@,
                },
            )),
    ;

    fn account_download_end(
        &mut self,
        client: &mut Client,
        account_name: &Vec<u8>,
    )
        requires
            old(client).wf(),
        ensures
            final(client).wf(),
            final(self).seen() == old(self).seen().push(Call::Event(
                EventView::AccountDownloadEnd {
                    account_name: account_name@,
                },
            )),
    ;

    fn update_news_bulletin(
        &mut self,
        client: &mut Client,
        msg_id: i64,
        msg_type: i64,
        news_message: &Vec<u8>,
        origin_exchange: &Vec<u8>,
    )
        requires
            old(client).wf(),
        ensures
            final(client).wf(),
            final(self).seen() == old(self).seen().push(Call::Event(
                EventView::UpdateNewsBulletin {
                    msg_id,
                    msg_type,
                    news_message: news_message@,
                    origin_exchange: origin_exchange@,
                },
            )),
    ;

    fn managed_accounts(
        &mut self,
        client: &mut Client,
        accounts_list: &Vec<u8>,
    )
        requires
            old(client).wf(),
        ensures
            final(client).wf(),
            final(self).seen() == old(self).seen().push(Call::Event(
                EventView::ManagedAccounts {
                    accounts_list: accounts_list@,
                },
            )),
    ;

    fn receive_fa(
        &mut self,
        client: &mut Client,
        fa_data_type: i64,
        cxml: &Vec<u8>,
    )
        requires
            old(client).wf(),
        ensures
            final(client).wf(),
            final(self).seen() == old(self).seen().push(Call::Event(
                EventView::ReceiveFa {
                    fa_data_type,
                    cxml: cxml@,
                },
            )),
    ;

    fn scanner_parameters(
        &mut self,
        client: &mut Client,
        xml: &Vec<u8>,
    )
        requires
            old(client).wf(),
        ensures
            final(client).wf(),
            final(self).seen() == old(self).seen().push(Call::Event(EventView::ScannerParameters { xml: xml@ })),
    ;

    fn fundamental_data(
        &mut self,
        client: &mut Client,
        req_id: i64,
        data: &Vec<u8>,
    )
        requires
            old(client).wf(),
        ensures
            final(client).wf(),
            final(self).seen() == old(self).seen().push(Call::Event(
                EventView::FundamentalData {
                    req_id,
                    data: data@,
                },
            )),
    ;

    fn contract_details_end(
        &mut self,
        client: &mut Client,
        req_id: i64,
    )
        requires
            old(client).wf(),
        ensures
            final(client).wf(),
            final(self).seen() == old(self).seen().push(Call::Event(
                EventView::ContractDetailsEnd {
                    req_id,
                },
            )),
    ;

    fn open_order_end(
        &mut self,
        client: &mut Client,
    )
        requires
            old(client).wf(),
        ensures
            final(client).wf(),
            final(self).seen() == old(self).seen().push(Call::Event(EventView::OpenOrderEnd)),
    ;

    fn exec_details_end(
        &mut self,
        client: &mut Client,
        req_id: i64,
    )
        requires
            old(client).wf(),
        ensures
            final(client).wf(),
            final(self).seen() == old(self).seen().push(Call::Event(EventView::ExecDetailsEnd { req_id })),
    ;

    fn position_end(
        &mut self,
        client: &mut Client,
    )
        requires
            old(client).wf(),
        ensures
            final(client).wf(),
            final(self).seen() == old(self).seen().push(Call::Event(EventView::PositionEnd)),
    ;

    fn verify_message_api(
        &mut self,
        client: &mut Client,
        api_data: &Vec<u8>,
    )
        requires
            old(client).wf(),
        ensures
            final(client).wf(),
            final(self).seen() == old(self).seen().push(Call::Event(
                EventView::VerifyMessageApi {
                    api_data: api_data@,
                },
            )),
    ;

    fn display_group_list(
        &mut self,
        client: &mut Client,
        req_id: i64,
        groups: &Vec<u8>,
    )
        requires
            old(client).wf(),
        ensures
            final(client).wf(),
            final(self).seen() == old(self).seen().push(Call::Event(
                EventView::DisplayGroupList {
                    req_id,
                    groups: groups@,
                },
            )),
    ;

    fn display_group_updated(
        &mut self,
        client: &mut Client,
        req_id: i64,
        contract_info: &Vec<u8>,
    )
        requires
            old(client).wf(),
        ensures
            final(client).wf(),
            final(self).seen() == old(self).seen().push(Call::Event(
                EventView::DisplayGroupUpdated {
                    req_id,
                    contract_info: contract_info@,
                },
            )),
    ;

    fn position_multi_end(
        &mut self,
        client: &mut Client,
        req_id: i64,
    )
        requires
            old(client).wf(),
        ensures
            final(client).wf(),
            final(self).seen() == old(self).seen().push(Call::Event(EventView::PositionMultiEnd { req_id })),
    ;

    fn account_update_multi_end(
        &mut self,
        client: &mut Client,
        req_id: i64,
    )
        requires
            old(client).wf(),
        ensures
            final(client).wf(),
            final(self).seen() == old(self).seen().push(Call::Event(
                EventView::AccountUpdateMultiEnd {
                    req_id,
                },
            )),
    ;

    fn security_definition_option_parameter_end(
        &mut self,
        client: &mut Client,
        req_id: i64,
    )
        requires
            old(client).wf(),
        ensures
            final(client).wf(),
            final(self).seen() == old(self).seen().push(Call::Event(
                EventView::SecurityDefinitionOptionParameterEnd {
                    req_id,
                },
            )),
    ;

    fn news_article(
        &mut self,
        client: &mut Client,
        request_id: i64,
        article_type: i64,
        article_text: &Vec<u8>,
    )
        requires
            old(client).wf(),
        ensures
            final(client).wf(),
            final(self).seen() == old(self).seen().push(Call::Event(
                EventView::NewsArticle {
                    request_id,
                    article_type,
                    article_text: article_text@,
                },
            )),
    ;

    fn head_timestamp(
        &mut self,
        client: &mut Client,
        req_id: i64,
        head_timestamp: &Vec<u8>,
    )
        requires
            old(client).wf(),
        ensures
            final(client).wf(),
            final(self).seen() == old(self).seen().push(Call::Event(
                EventView::HeadTimestamp {
                    req_id,
                    head_timestamp: head_timestamp@,
                },
            )),
    ;

    fn reroute_mkt_data_req(
        &mut self,
        client: &mut Client,
        req_id: i64,
        con_id: i64,
        exchange: &Vec<u8>,
    )
        requires
            old(client).wf(),
        ensures
            final(client).wf(),
            final(self).seen() == old(self).seen().push(Call::Event(
                EventView::RerouteMktDataReq {
                    req_id,
                    con_id,
                    exchange: exchange@,
                },
            )),
    ;

    fn reroute_mkt_depth_req(
        &mut self,
        client: &mut Client,
        req_id: i64,
        con_id: i64,
        exchange: &Vec<u8>,
    )
        requires
            old(client).wf(),
        ensures
            final(client).wf(),
            final(self).seen() == old(self).seen().push(Call::Event(
                EventView::RerouteMktDepthReq {
                    req_id,
                    con_id,
                    exchange: exchange@,
                },
            )),
    ;

    fn pnl(
        &mut self,
        client: &mut Client,
        req_id: i64,
        daily_pnl: Decimal,
        unrealized_pnl: Decimal,
        realized_pnl: Decimal,
    )
        requires
            old(client).wf(),
        ensures
            final(client).wf(),
            final(self).seen() == old(self).seen().push(Call::Event(
                EventView::Pnl {
                    req_id,
                    daily_pnl,
                    unrealized_pnl,
                    realized_pnl,
                },
            )),
    ;

    fn order_bound(
        &mut self,
        client: &mut Client,
        req_id: i64,
        api_client_id: i64,
        api_order_id: i64,
    )
        requires
            old(client).wf(),
        ensures
            final(client).wf(),
            final(self).seen() == old(self).seen().push(Call::Event(
                EventView::OrderBound {
                    req_id,
                    api_client_id,
                    api_order_id,
                },
            )),
    ;

    fn completed_orders_end(
        &mut self,
        client: &mut Client,
    )
        requires
            old(client).wf(),
        ensures
            final(client).wf(),
            final(self).seen() == old(self).seen().push(Call::Event(EventView::CompletedOrdersEnd)),
    ;

    fn update_portfolio(
        &mut self,
        client: &mut Client,
        symbol: &Vec<u8>,
        sec_type: &Vec<u8>,
        exchange: &Vec<u8>,
        currency: &Vec<u8>,
        position: Decimal,
        market_price: Decimal,
        market_value: Decimal,
        average_cost: Decimal,
        unrealized_pnl: Decimal,
        realized_pnl: Decimal,
        account_name: &Vec<u8>,
    )
        requires
            old(client).wf(),
        ensures
            final(client).wf(),
            final(self).seen() == old(self).seen().push(Call::Event(
                EventView::UpdatePortfolio {
                    symbol: symbol@,
                    sec_type: sec_type@,
                    exchange: exchange@,
                    currency: currency@,
                    position,
                    market_price,
                    market_value,
                    average_cost,
                    unrealized_pnl,
                    realized_pnl,
                    account_name: account_name@,
                },
            )),
    ;

    fn position(
        &mut self,
        client: &mut Client,
        account: &Vec<u8>,
        symbol: &Vec<u8>,
        sec_type: &Vec<u8>,
        exchange: &Vec<u8>,
        currency: &Vec<u8>,
        position: Decimal,
        avg_cost: Decimal,
    )
        requires
            old(client).wf(),
        ensures
            final(client).wf(),
            final(self).seen() == old(self).seen().push(Call::Event(
                EventView::Position {
                    account: account@,
                    symbol: symbol@,
                    sec_type: sec_type@,
                    exchange: exchange@,
                    currency: currency@,
                    position,
                    avg_cost,
                },
            )),
    ;

    fn security_definition_option_parameter(
        &mut self,
        client: &mut Client,
        req_id: i64,
        exchange: &Vec<u8>,
        underlying_con_id: i64,
        trading_class: &Vec<u8>,
        multiplier: &Vec<u8>,
        expirations: &Vec<Vec<u8>>,
        strikes: &Vec<Decimal>,
    )
        requires
            old(client).wf(),
        ensures
            final(client).wf(),
            final(self).seen() == old(self).seen().push(Call::Event(
                EventView::SecurityDefinitionOptionParameter {
                    req_id,
                    exchange: exchange@,
                    underlying_con_id,
                    trading_class: trading_class@,
                    multiplier: multiplier@,
                    expirations: fields_view(expirations@),
                    strikes: strikes@,
                },
            )),
    ;

    /// The gateway accepted the handshake.
    fn connect_ack(
        &mut self,
        client: &mut Client,
    )
        requires
            old(client).wf(),
        ensures
            final(client).wf(),
            final(self).seen() == old(self).seen().push(Call::ConnectAck),
    ;

    /// The connection is gone; called once, and nothing follows it.
    fn connection_closed(
        &mut self,
        client: &mut Client,
    )
        requires
            old(client).wf(),
        ensures
            final(client).wf(),
            final(self).seen() == old(self).seen().push(Call::ConnectionClosed),
    ;
}

/// The consumer that ignores every event but the account summary, on which
/// it asks for the gateway's current time.
pub struct DefaultWrapper {
    pub calls: Ghost<Seq<Call>>,
}

/// What asking from inside a callback returns: success exactly when the
/// connection is up.
pub open spec fn ask_result(c: Client) -> Result<(), ClientError> {
    if c.state == ConnState::Connected {
        Ok(())
    } else {
        Err(ClientError::NotConnected)
    }
}

impl DefaultWrapper {
    pub fn new() -> (r: Self)
        ensures
            r.seen() == Seq::<Call>::empty(),
    {
        DefaultWrapper { calls: Ghost(Seq::empty()) }
    }
}

impl Wrapper for DefaultWrapper {
    open spec fn seen(&self) -> Seq<Call> {
        self.calls@
    }

    fn tick_price(
        &mut self,
        client: &mut Client,
        req_id: i64,
        tick_type: i64,
        price: Decimal,
        size: Decimal,
        attrib: i64,
    )
        ensures
            *final(client) == *old(client),
    {
        proof {
            self.calls@ = self.calls@.push(Call::Event(
                EventView::TickPrice {
                    req_id,
                    tick_type,
                    price,
                    size,
                    attrib,
                },
            ));
        }
    }

    fn tick_size(
        &mut self,
        client: &mut Client,
        req_id: i64,
        tick_type: i64,
        size: Decimal,
    )
        ensures
            *final(client) == *old(client),
    {
        proof {
            self.calls@ = self.calls@.push(Call::Event(
                EventView::TickSize {
                    req_id,
                    tick_type,
                    size,
                },
            ));
        }
    }

    fn tick_string(
        &mut self,
        client: &mut Client,
        req_id: i64,
        tick_type: i64,
        value: &Vec<u8>,
    )
        ensures
            *final(client) == *old(client),
    {
        proof {
            self.calls@ = self.calls@.push(Call::Event(
                EventView::TickString {
                    req_id,
                    tick_type,
                    value: value@,
                },
            ));
        }
    }

    fn order_status(
        &mut self,
        client: &mut Client,
        order_id: i64,
        status: &Vec<u8>,
        filled: Decimal,
        remaining: Decimal,
        avg_fill_price: Decimal,
        perm_id: i64,
        parent_id: i64,
        last_fill_price: Decimal,
        client_id: i64,
        why_held: &Vec<u8>,
        mkt_cap_price: Decimal,
    )
        ensures
            *final(client) == *old(client),
    {
        proof {
            self.calls@ = self.calls@.push(Call::Event(
                EventView::OrderStatus {
                    order_id,
                    status: status@,
                    filled,
                    remaining,
                    avg_fill_price,
                    perm_id,
                    parent_id,
                    last_fill_price,
                    client_id,
                    why_held: why_held@,
                    mkt_cap_price,
                },
            ));
        }
    }

    fn error(
        &mut self,
        client: &mut Client,
        req_id: i64,
        code: i64,
        text: &Vec<u8>,
        advanced_reject: &Vec<u8>,
    )
        ensures
            *final(client) == *old(client),
    {
        proof {
            self.calls@ = self.calls@.push(Call::Event(
                EventView::Error {
                    req_id,
                    code,
                    text: text@,
                    advanced_reject: advanced_reject@,
                },
            ));
        }
    }

    fn next_valid_id(
        &mut self,
        client: &mut Client,
        order_id: i64,
    )
        ensures
            *final(client) == *old(client),
    {
        proof {
            self.calls@ = self.calls@.push(Call::Event(EventView::NextValidId { order_id }));
        }
    }

    fn historical_data(
        &mut self,
        client: &mut Client,
        req_id: i64,
        date: &Vec<u8>,
        open: Decimal,
        high: Decimal,
        low: Decimal,
        close: Decimal,
        volume: Decimal,
        wap: Decimal,
        bar_count: i64,
    )
        ensures
            *final(client) == *old(client),
    {
        proof {
            self.calls@ = self.calls@.push(Call::Event(
                EventView::HistoricalData {
                    req_id,
                    date: date@,
                    open,
                    high,
                    low,
                    close,
                    volume,
                    wap,
                    bar_count,
                },
            ));
        }
    }

    fn historical_data_end(
        &mut self,
        client: &mut Client,
        req_id: i64,
        start: &Vec<u8>,
        end: &Vec<u8>,
    )
        ensures
            *final(client) == *old(client),
    {
        proof {
            self.calls@ = self.calls@.push(Call::Event(
                EventView::HistoricalDataEnd {
                    req_id,
                    start: start@,
                    end: end@,
                },
            ));
        }
    }

    fn current_time(
        &mut self,
        client: &mut Client,
        time: i64,
    )
        ensures
            *final(client) == *old(client),
    {
        proof {
            self.calls@ = self.calls@.push(Call::Event(EventView::CurrentTime { time }));
        }
    }

    fn account_summary(
        &mut self,
        client: &mut Client,
        req_id: i64,
        account: &Vec<u8>,
        tag: &Vec<u8>,
        value: &Vec<u8>,
        currency: &Vec<u8>,
    )
        ensures
            old(client).issued(*final(client), current_time_request(), ask_result(*old(client))),
    {
        proof {
            self.calls@ = self.calls@.push(Call::Event(
                EventView::AccountSummary {
                    req_id,
                    account: account@,
                    tag: tag@,
                    value: value@,
                    currency: currency@,
                },
            ));
        }
        let _ = client.req_current_time();
    }

    fn account_summary_end(
        &mut self,
        client: &mut Client,
        req_id: i64,
    )
        ensures
            *final(client) == *old(client),
    {
        proof {
            self.calls@ = self.calls@.push(Call::Event(
                EventView::AccountSummaryEnd {
                    req_id,
                },
            ));
        }
    }

    fn tick_option_computation(
        &mut self,
        client: &mut Client,
        req_id: i64,
        tick_type: i64,
        implied_vol: Decimal,
        delta: Decimal,
        opt_price: Decimal,
        pv_dividend: Decimal,
        gamma: Decimal,
        vega: Decimal,
        theta: Decimal,
        und_price: Decimal,
    )
        ensures
            *final(client) == *old(client),
    {
        proof {
            self.calls@ = self.calls@.push(Call::Event(
                EventView::TickOptionComputation {
                    req_id,
                    tick_type,
                    implied_vol,
                    delta,
                    opt_price,
                    pv_dividend,
                    gamma,
                    vega,
                    theta,
                    und_price,
                },
            ));
        }
    }

    fn tick_efp(
        &mut self,
        client: &mut Client,
        req_id: i64,
        tick_type: i64,
        basis_points: Decimal,
        formatted_basis_points: &Vec<u8>,
        total_dividends: Decimal,
        hold_days: i64,
        future_last_trade_date: &Vec<u8>,
        dividend_impact: Decimal,
        dividends_to_last_trade_date: Decimal,
    )
        ensures
            *final(client) == *old(client),
    {
        proof {
            self.calls@ = self.calls@.push(Call::Event(
                EventView::TickEfp {
                    req_id,
                    tick_type,
                    basis_points,
                    formatted_basis_points: formatted_basis_points@,
                    total_dividends,
                    hold_days,
                    future_last_trade_date: future_last_trade_date@,
                    dividend_impact,
                    dividends_to_last_trade_date,
                },
            ));
        }
    }

    fn tick_generic(
        &mut self,
        client: &mut Client,
        req_id: i64,
        tick_type: i64,
        value: Decimal,
    )
        ensures
            *final(client) == *old(client),
    {
        proof {
            self.calls@ = self.calls@.push(Call::Event(
                EventView::TickGeneric {
                    req_id,
                    tick_type,
                    value,
                },
            ));
        }
    }

    fn tick_snapshot_end(
        &mut self,
        client: &mut Client,
        req_id: i64,
    )
        ensures
            *final(client) == *old(client),
    {
        proof {
            self.calls@ = self.calls@.push(Call::Event(EventView::TickSnapshotEnd { req_id }));
        }
    }

    fn market_data_type(
        &mut self,
        client: &mut Client,
        req_id: i64,
        market_data_type: i64,
    )
        ensures
            *final(client) == *old(client),
    {
        proof {
            self.calls@ = self.calls@.push(Call::Event(
                EventView::MarketDataType {
                    req_id,
                    market_data_type,
                },
            ));
        }
    }

    fn tick_req_params(
        &mut self,
        client: &mut Client,
        req_id: i64,
        min_tick: Decimal,
        bbo_exchange: &Vec<u8>,
        snapshot_permissions: i64,
    )
        ensures
            *final(client) == *old(client),
    {
        proof {
            self.calls@ = self.calls@.push(Call::Event(
                EventView::TickReqParams {
                    req_id,
                    min_tick,
                    bbo_exchange: bbo_exchange@,
                    snapshot_permissions,
                },
            ));
        }
    }

    fn realtime_bar(
        &mut self,
        client: &mut Client,
        req_id: i64,
        time: i64,
        open: Decimal,
        high: Decimal,
        low: Decimal,
        close: Decimal,
        volume: Decimal,
        wap: Decimal,
        count: i64,
    )
        ensures
            *final(client) == *old(client),
    {
        proof {
            self.calls@ = self.calls@.push(Call::Event(
                EventView::RealtimeBar {
                    req_id,
                    time,
                    open,
                    high,
                    low,
                    close,
                    volume,
                    wap,
                    count,
                },
            ));
        }
    }

    fn update_mkt_depth(
        &mut self,
        client: &mut Client,
        req_id: i64,
        position: i64,
        operation: i64,
        side: i64,
        price: Decimal,
        size: Decimal,
    )
        ensures
            *final(client) == *old(client),
    {
        proof {
            self.calls@ = self.calls@.push(Call::Event(
                EventView::UpdateMktDepth {
                    req_id,
                    position,
                    operation,
                    side,
                    price,
                    size,
                },
            ));
        }
    }

    fn update_account_value(
        &mut self,
        client: &mut Client,
        key: &Vec<u8>,
        val: &Vec<u8>,
        currency: &Vec<u8>,
        account_name: &Vec<u8>,
    )
        ensures
            *final(client) == *old(client),
    {
        proof {
            self.calls@ = self.calls@.push(Call::Event(
                EventView::UpdateAccountValue {
                    key: key@,
                    val: val@,
                    currency: currency@,
                    account_name: account_name@,
                },
            ));
        }
    }

    fn update_account_time(
        &mut self,
        client: &mut Client,
        time_stamp: &Vec<u8>,
    )
        ensures
            *final(client) == *old(client),
    {
        proof {
            self.calls@ = self.calls@.push(Call::Event(
                EventView::UpdateAccountTime {
                    time_stamp: time_stamp@,
                },
            ));
        }
    }

    fn account_download_end(
        &mut self,
        client: &mut Client,
        account_name: &Vec<u8>,
    )
        ensures
            *final(client) == *old(client),
    {
        proof {
            self.calls@ = self.calls@.push(Call::Event(
                EventView::AccountDownloadEnd {
                    account_name: account_name@,
                },
            ));
        }
    }

    fn update_news_bulletin(
        &mut self,
        client: &mut Client,
        msg_id: i64,
        msg_type: i64,
        news_message: &Vec<u8>,
        origin_exchange: &Vec<u8>,
    )
        ensures
            *final(client) == *old(client),
    {
        proof {
            self.calls@ = self.calls@.push(Call::Event(
                EventView::UpdateNewsBulletin {
                    msg_id,
                    msg_type,
                    news_message: news_message@,
                    origin_exchange: origin_exchange@,
                },
            ));
        }
    }

    fn managed_accounts(
        &mut self,
        client: &mut Client,
        accounts_list: &Vec<u8>,
    )
        ensures
            *final(client) == *old(client),
    {
        proof {
            self.calls@ = self.calls@.push(Call::Event(
                EventView::ManagedAccounts {
                    accounts_list: accounts_list@,
                },
            ));
        }
    }

    fn receive_fa(
        &mut self,
        client: &mut Client,
        fa_data_type: i64,
        cxml: &Vec<u8>,
    )
        ensures
            *final(client) == *old(client),
    {
        proof {
            self.calls@ = self.calls@.push(Call::Event(
                EventView::ReceiveFa {
                    fa_data_type,
                    cxml: cxml@,
                },
            ));
        }
    }

    fn scanner_parameters(
        &mut self,
        client: &mut Client,
        xml: &Vec<u8>,
    )
        ensures
            *final(client) == *old(client),
    {
        proof {
            self.calls@ = self.calls@.push(Call::Event(EventView::ScannerParameters { xml: xml@ }));
        }
    }

    fn fundamental_data(
        &mut self,
        client: &mut Client,
        req_id: i64,
        data: &Vec<u8>,
    )
        ensures
            *final(client) == *old(client),
    {
        proof {
            self.calls@ = self.calls@.push(Call::Event(
                EventView::FundamentalData {
                    req_id,
                    data: data@,
                },
            ));
        }
    }

    fn contract_details_end(
        &mut self,
        client: &mut Client,
        req_id: i64,
    )
        ensures
            *final(client) == *old(client),
    {
        proof {
            self.calls@ = self.calls@.push(Call::Event(
                EventView::ContractDetailsEnd {
                    req_id,
                },
            ));
        }
    }

    fn open_order_end(
        &mut self,
        client: &mut Client,
    )
        ensures
            *final(client) == *old(client),
    {
        proof {
            self.calls@ = self.calls@.push(Call::Event(EventView::OpenOrderEnd));
        }
    }

    fn exec_details_end(
        &mut self,
        client: &mut Client,
        req_id: i64,
    )
        ensures
            *final(client) == *old(client),
    {
        proof {
            self.calls@ = self.calls@.push(Call::Event(EventView::ExecDetailsEnd { req_id }));
        }
    }

    fn position_end(
        &mut self,
        client: &mut Client,
    )
        ensures
            *final(client) == *old(client),
    {
        proof {
            self.calls@ = self.calls@.push(Call::Event(EventView::PositionEnd));
        }
    }

    fn verify_message_api(
        &mut self,
        client: &mut Client,
        api_data: &Vec<u8>,
    )
        ensures
            *final(client) == *old(client),
    {
        proof {
            self.calls@ = self.calls@.push(Call::Event(
                EventView::VerifyMessageApi {
                    api_data: api_data@,
                },
            ));
        }
    }

    fn display_group_list(
        &mut self,
        client: &mut Client,
        req_id: i64,
        groups: &Vec<u8>,
    )
        ensures
            *final(client) == *old(client),
    {
        proof {
            self.calls@ = self.calls@.push(Call::Event(
                EventView::DisplayGroupList {
                    req_id,
                    groups: groups@,
                },
            ));
        }
    }

    fn display_group_updated(
        &mut self,
        client: &mut Client,
        req_id: i64,
        contract_info: &Vec<u8>,
    )
        ensures
            *final(client) == *old(client),
    {
        proof {
            self.calls@ = self.calls@.push(Call::Event(
                EventView::DisplayGroupUpdated {
                    req_id,
                    contract_info: contract_info@,
                },
            ));
        }
    }

    fn position_multi_end(
        &mut self,
        client: &mut Client,
        req_id: i64,
    )
        ensures
            *final(client) == *old(client),
    {
        proof {
            self.calls@ = self.calls@.push(Call::Event(EventView::PositionMultiEnd { req_id }));
        }
    }

    fn account_update_multi_end(
        &mut self,
        client: &mut Client,
        req_id: i64,
    )
        ensures
            *final(client) == *old(client),
    {
        proof {
            self.calls@ = self.calls@.push(Call::Event(
                EventView::AccountUpdateMultiEnd {
                    req_id,
                },
            ));
        }
    }

    fn security_definition_option_parameter_end(
        &mut self,
        client: &mut Client,
        req_id: i64,
    )
        ensures
            *final(client) == *old(client),
    {
        proof {
            self.calls@ = self.calls@.push(Call::Event(
                EventView::SecurityDefinitionOptionParameterEnd {
                    req_id,
                },
            ));
        }
    }

    fn news_article(
        &mut self,
        client: &mut Client,
        request_id: i64,
        article_type: i64,
        article_text: &Vec<u8>,
    )
        ensures
            *final(client) == *old(client),
    {
        proof {
            self.calls@ = self.calls@.push(Call::Event(
                EventView::NewsArticle {
                    request_id,
                    article_type,
                    article_text: article_text@,
                },
            ));
        }
    }

    fn head_timestamp(
        &mut self,
        client: &mut Client,
        req_id: i64,
        head_timestamp: &Vec<u8>,
    )
        ensures
            *final(client) == *old(client),
    {
        proof {
            self.calls@ = self.calls@.push(Call::Event(
                EventView::HeadTimestamp {
                    req_id,
                    head_timestamp: head_timestamp@,
                },
            ));
        }
    }

    fn reroute_mkt_data_req(
        &mut self,
        client: &mut Client,
        req_id: i64,
        con_id: i64,
        exchange: &Vec<u8>,
    )
        ensures
            *final(client) == *old(client),
    {
        proof {
            self.calls@ = self.calls@.push(Call::Event(
                EventView::RerouteMktDataReq {
                    req_id,
                    con_id,
                    exchange: exchange@,
                },
            ));
        }
    }

    fn reroute_mkt_depth_req(
        &mut self,
        client: &mut Client,
        req_id: i64,
        con_id: i64,
        exchange: &Vec<u8>,
    )
        ensures
            *final(client) == *old(client),
    {
        proof {
            self.calls@ = self.calls@.push(Call::Event(
                EventView::RerouteMktDepthReq {
                    req_id,
                    con_id,
                    exchange: exchange@,
                },
            ));
        }
    }

    fn pnl(
        &mut self,
        client: &mut Client,
        req_id: i64,
        daily_pnl: Decimal,
        unrealized_pnl: Decimal,
        realized_pnl: Decimal,
    )
        ensures
            *final(client) == *old(client),
    {
        proof {
            self.calls@ = self.calls@.push(Call::Event(
                EventView::Pnl {
                    req_id,
                    daily_pnl,
                    unrealized_pnl,
                    realized_pnl,
                },
            ));
        }
    }

    fn order_bound(
        &mut self,
        client: &mut Client,
        req_id: i64,
        api_client_id: i64,
        api_order_id: i64,
    )
        ensures
            *final(client) == *old(client),
    {
        proof {
            self.calls@ = self.calls@.push(Call::Event(
                EventView::OrderBound {
                    req_id,
                    api_client_id,
                    api_order_id,
                },
            ));
        }
    }

    fn completed_orders_end(
        &mut self,
        client: &mut Client,
    )
        ensures
            *final(client) == *old(client),
    {
        proof {
            self.calls@ = self.calls@.push(Call::Event(EventView::CompletedOrdersEnd));
        }
    }

    fn update_portfolio(
        &mut self,
        client: &mut Client,
        symbol: &Vec<u8>,
        sec_type: &Vec<u8>,
        exchange: &Vec<u8>,
        currency: &Vec<u8>,
        position: Decimal,
        market_price: Decimal,
        market_value: Decimal,
        average_cost: Decimal,
        unrealized_pnl: Decimal,
        realized_pnl: Decimal,
        account_name: &Vec<u8>,
    )
        ensures
            *final(client) == *old(client),
    {
        proof {
            self.calls@ = self.calls@.push(Call::Event(
                EventView::UpdatePortfolio {
                    symbol: symbol@,
                    sec_type: sec_type@,
                    exchange: exchange@,
                    currency: currency@,
                    position,
                    market_price,
                    market_value,
                    average_cost,
                    unrealized_pnl,
                    realized_pnl,
                    account_name: account_name@,
                },
            ));
        }
    }

    fn position(
        &mut self,
        client: &mut Client,
        account: &Vec<u8>,
        symbol: &Vec<u8>,
        sec_type: &Vec<u8>,
        exchange: &Vec<u8>,
        currency: &Vec<u8>,
        position: Decimal,
        avg_cost: Decimal,
    )
        ensures
            *final(client) == *old(client),
    {
        proof {
            self.calls@ = self.calls@.push(Call::Event(
                EventView::Position {
                    account: account@,
                    symbol: symbol@,
                    sec_type: sec_type@,
                    exchange: exchange@,
                    currency: currency@,
                    position,
                    avg_cost,
                },
            ));
        }
    }

    fn security_definition_option_parameter(
        &mut self,
        client: &mut Client,
        req_id: i64,
        exchange: &Vec<u8>,
        underlying_con_id: i64,
        trading_class: &Vec<u8>,
        multiplier: &Vec<u8>,
        expirations: &Vec<Vec<u8>>,
        strikes: &Vec<Decimal>,
    )
        ensures
            *final(client) == *old(client),
    {
        proof {
            self.calls@ = self.calls@.push(Call::Event(
                EventView::SecurityDefinitionOptionParameter {
                    req_id,
                    exchange: exchange@,
                    underlying_con_id,
                    trading_class: trading_class@,
                    multiplier: multiplier@,
                    expirations: fields_view(expirations@),
                    strikes: strikes@,
                },
            ));
        }
    }

    fn connect_ack(
        &mut self,
        client: &mut Client,
    )
        ensures
            *final(client) == *old(client),
    {
        proof {
            self.calls@ = self.calls@.push(Call::ConnectAck);
        }
    }

    fn connection_closed(
        &mut self,
        client: &mut Client,
    )
        ensures
            *final(client) == *old(client),
    {
        proof {
            self.calls@ = self.calls@.push(Call::ConnectionClosed);
        }
    }
}

/// What one receive step hands the consumer: a delivered event to its own
/// operation, an accepted handshake to `connect_ack`, a lost connection to
/// `connection_closed`; other steps call nothing.
pub open spec fn calls_for(step: Step) -> Seq<Call> {
    match step {
        Step::Deliver(e) => seq![Call::Event(e@)],
        Step::Connected => seq![Call::ConnectAck],
        Step::Closed => seq![Call::ConnectionClosed],
        _ => Seq::empty(),
    }
}

/// A message that a receive step reads as event `e`, of an open stream or
/// of none, reaches the consumer as exactly one call: the operation for `e`,
/// with every field as the message gives it.
pub proof fn read_message_reaches_its_operation(
    before: Client,
    after: Client,
    step: Step,
    e: EventView,
)
    requires
        before.message_step(after, step),
        decodes_to(after.last_fields@, before.server_version, e),
        before.admits(e),
    ensures
        calls_for(step) == seq![Call::Event(e)],
{
    match step {
        Step::Deliver(d) => {
            decoding_is_exact(after.last_fields@, before.server_version, d@, e);
        },
        Step::Dropped(id) => {
            let e2 = choose|e2: EventView|
                decodes_to(after.last_fields@, before.server_version, e2)
                    && crate::client::stream_id(e2) == Some(id);
            decoding_is_exact(after.last_fields@, before.server_version, e2, e);
        },
        _ => {},
    }
}

/// A message that does not read as any event (an unknown tag, or a field
/// that does not parse) reaches the consumer as no call at all; the receive
/// loop goes on with the next message.
pub proof fn unreadable_message_calls_nothing(before: Client, after: Client, step: Step)
    requires
        before.message_step(after, step),
        !known_tag(after.last_fields@) || forall|e: EventView|
            !decodes_to(after.last_fields@, before.server_version, e),
    ensures
        calls_for(step) == Seq::<Call>::empty(),
        after.state == before.state,
        after.open_requests == before.open_requests,
{
}

/// Hands one step of the receive loop to the consumer: exactly one call of
/// the operation that the step names, with the step's fields, or none.
pub fn dispatch<W: Wrapper>(w: &mut W, client: &mut Client, step: Step)
    requires
        old(client).wf(),
    ensures
        final(client).wf(),
        final(w).seen() == old(w).seen() + calls_for(step),
        calls_for(step).len() == 0 ==> *final(client) == *old(client),
{
    let ghost s0 = w.seen();
    let ghost st = step;
    match step {
        Step::Deliver(e) => deliver(w, client, e),
        Step::Connected => w.connect_ack(client),
        Step::Closed => w.connection_closed(client),
        _ => {},
    }
    assert(w.seen() =~= s0 + calls_for(st));
}

fn deliver<W: Wrapper>(w: &mut W, client: &mut Client, e: Event)
    requires
        old(client).wf(),
    ensures
        final(client).wf(),
        final(w).seen() == old(w).seen().push(Call::Event(e@)),
{
    match e {
        Event::TickPrice { req_id, tick_type, price, size, attrib } => {
            w.tick_price(client, req_id, tick_type, price, size, attrib)
        },
        Event::TickSize { req_id, tick_type, size } => w.tick_size(client, req_id, tick_type, size),
        Event::TickString { req_id, tick_type, value } => {
            w.tick_string(client, req_id, tick_type, &value)
        },
        Event::OrderStatus {
            order_id,
            status,
            filled,
            remaining,
            avg_fill_price,
            perm_id,
            parent_id,
            last_fill_price,
            client_id,
            why_held,
            mkt_cap_price,
        } => {
            w.order_status(
                client,
                order_id,
                &status,
                filled,
                remaining,
                avg_fill_price,
                perm_id,
                parent_id,
                last_fill_price,
                client_id,
                &why_held,
                mkt_cap_price,
            )
        },
        Event::Error { req_id, code, text, advanced_reject } => {
            w.error(client, req_id, code, &text, &advanced_reject)
        },
        Event::NextValidId { order_id } => w.next_valid_id(client, order_id),
        Event::HistoricalData { req_id, date, open, high, low, close, volume, wap, bar_count } => {
            w.historical_data(client, req_id, &date, open, high, low, close, volume, wap, bar_count)
        },
        Event::HistoricalDataEnd { req_id, start, end } => {
            w.historical_data_end(client, req_id, &start, &end)
        },
        Event::CurrentTime { time } => w.current_time(client, time),
        Event::AccountSummary { req_id, account, tag, value, currency } => {
            w.account_summary(client, req_id, &account, &tag, &value, &currency)
        },
        Event::AccountSummaryEnd { req_id } => w.account_summary_end(client, req_id),
        Event::SecurityDefinitionOptionParameter {
            req_id,
            exchange,
            underlying_con_id,
            trading_class,
            multiplier,
            expirations,
            strikes,
        } => {
            w.security_definition_option_parameter(
                client,
                req_id,
                &exchange,
                underlying_con_id,
                &trading_class,
                &multiplier,
                &expirations,
                &strikes,
            )
        },
        Event::UpdatePortfolio {
            symbol,
            sec_type,
            exchange,
            currency,
            position,
            market_price,
            market_value,
            average_cost,
            unrealized_pnl,
            realized_pnl,
            account_name,
        } => {
            w.update_portfolio(
                client,
                &symbol,
                &sec_type,
                &exchange,
                &currency,
                position,
                market_price,
                market_value,
                average_cost,
                unrealized_pnl,
                realized_pnl,
                &account_name,
            )
        },
        Event::Position { account, symbol, sec_type, exchange, currency, position, avg_cost } => {
            w.position(
                client,
                &account,
                &symbol,
                &sec_type,
                &exchange,
                &currency,
                position,
                avg_cost,
            )
        },
        Event::TickOptionComputation {
            req_id,
            tick_type,
            implied_vol,
            delta,
            opt_price,
            pv_dividend,
            gamma,
            vega,
            theta,
            und_price,
        } => {
            w.tick_option_computation(
                client,
                req_id,
                tick_type,
                implied_vol,
                delta,
                opt_price,
                pv_dividend,
                gamma,
                vega,
                theta,
                und_price,
            )
        },
        Event::TickEfp {
            req_id,
            tick_type,
            basis_points,
            formatted_basis_points,
            total_dividends,
            hold_days,
            future_last_trade_date,
            dividend_impact,
            dividends_to_last_trade_date,
        } => {
            w.tick_efp(
                client,
                req_id,
                tick_type,
                basis_points,
                &formatted_basis_points,
                total_dividends,
                hold_days,
                &future_last_trade_date,
                dividend_impact,
                dividends_to_last_trade_date,
            )
        },
        Event::TickGeneric { req_id, tick_type, value } => {
            w.tick_generic(client, req_id, tick_type, value)
        },
        Event::TickSnapshotEnd { req_id } => w.tick_snapshot_end(client, req_id),
        Event::MarketDataType { req_id, market_data_type } => {
            w.market_data_type(client, req_id, market_data_type)
        },
        Event::TickReqParams { req_id, min_tick, bbo_exchange, snapshot_permissions } => {
            w.tick_req_params(client, req_id, min_tick, &bbo_exchange, snapshot_permissions)
        },
        Event::RealtimeBar { req_id, time, open, high, low, close, volume, wap, count } => {
            w.realtime_bar(client, req_id, time, open, high, low, close, volume, wap, count)
        },
        Event::UpdateMktDepth { req_id, position, operation, side, price, size } => {
            w.update_mkt_depth(client, req_id, position, operation, side, price, size)
        },
        Event::UpdateAccountValue { key, val, currency, account_name } => {
            w.update_account_value(client, &key, &val, &currency, &account_name)
        },
        Event::UpdateAccountTime { time_stamp } => w.update_account_time(client, &time_stamp),
        Event::AccountDownloadEnd { account_name } => w.account_download_end(client, &account_name),
        Event::UpdateNewsBulletin { msg_id, msg_type, news_message, origin_exchange } => {
            w.update_news_bulletin(client, msg_id, msg_type, &news_message, &origin_exchange)
        },
        Event::ManagedAccounts { accounts_list } => w.managed_accounts(client, &accounts_list),
        Event::ReceiveFa { fa_data_type, cxml } => w.receive_fa(client, fa_data_type, &cxml),
        Event::ScannerParameters { xml } => w.scanner_parameters(client, &xml),
        Event::FundamentalData { req_id, data } => w.fundamental_data(client, req_id, &data),
        Event::ContractDetailsEnd { req_id } => w.contract_details_end(client, req_id),
        Event::OpenOrderEnd => w.open_order_end(client),
        Event::ExecDetailsEnd { req_id } => w.exec_details_end(client, req_id),
        Event::PositionEnd => w.position_end(client),
        Event::VerifyMessageApi { api_data } => w.verify_message_api(client, &api_data),
        Event::DisplayGroupList { req_id, groups } => w.display_group_list(client, req_id, &groups),
        Event::DisplayGroupUpdated { req_id, contract_info } => {
            w.display_group_updated(client, req_id, &contract_info)
        },
        Event::PositionMultiEnd { req_id } => w.position_multi_end(client, req_id),
        Event::AccountUpdateMultiEnd { req_id } => w.account_update_multi_end(client, req_id),
        Event::SecurityDefinitionOptionParameterEnd { req_id } => {
            w.security_definition_option_parameter_end(client, req_id)
        },
        Event::NewsArticle { request_id, article_type, article_text } => {
            w.news_article(client, request_id, article_type, &article_text)
        },
        Event::HeadTimestamp { req_id, head_timestamp } => {
            w.head_timestamp(client, req_id, &head_timestamp)
        },
        Event::RerouteMktDataReq { req_id, con_id, exchange } => {
            w.reroute_mkt_data_req(client, req_id, con_id, &exchange)
        },
        Event::RerouteMktDepthReq { req_id, con_id, exchange } => {
            w.reroute_mkt_depth_req(client, req_id, con_id, &exchange)
        },
        Event::Pnl { req_id, daily_pnl, unrealized_pnl, realized_pnl } => {
            w.pnl(client, req_id, daily_pnl, unrealized_pnl, realized_pnl)
        },
        Event::OrderBound { req_id, api_client_id, api_order_id } => {
            w.order_bound(client, req_id, api_client_id, api_order_id)
        },
        Event::CompletedOrdersEnd => w.completed_orders_end(client),
    }
}

} // verus!
