//! Typed events and the interpreter that reads them from a message's fields.
//!
//! Field 0 of every message is its tag. The fields that follow depend on the
//! tag and on the protocol version negotiated at connect time; optional
//! trailing fields that a version allows may be absent (they take their
//! default), and fields past the last one read are ignored.

use vstd::prelude::*;
use crate::frame::fields_view;
use crate::text::{Decimal, decimal_of, i64_of, parse_decimal, parse_i64};

verus! {

pub const TICK_PRICE: i64 = 1;
pub const TICK_SIZE: i64 = 2;
pub const ORDER_STATUS: i64 = 3;
pub const ERR_MSG: i64 = 4;
pub const NEXT_VALID_ID: i64 = 9;
pub const HISTORICAL_DATA: i64 = 17;
pub const TICK_STRING: i64 = 46;
pub const CURRENT_TIME: i64 = 49;
pub const ACCOUNT_SUMMARY: i64 = 63;
pub const ACCOUNT_SUMMARY_END: i64 = 64;
pub const HISTORICAL_DATA_END: i64 = 108;
pub const SECURITY_DEFINITION_OPTION_PARAMETER: i64 = 75;
pub const PORTFOLIO_VALUE: i64 = 7;
pub const POSITION_DATA: i64 = 61;
pub const TICK_OPTION_COMPUTATION: i64 = 21;
pub const TICK_EFP: i64 = 47;
pub const TICK_GENERIC: i64 = 45;
pub const TICK_SNAPSHOT_END: i64 = 57;
pub const MARKET_DATA_TYPE: i64 = 58;
pub const TICK_REQ_PARAMS: i64 = 81;
pub const REAL_TIME_BARS: i64 = 50;
pub const MARKET_DEPTH: i64 = 12;
pub const ACCT_VALUE: i64 = 6;
pub const ACCT_UPDATE_TIME: i64 = 8;
pub const ACCT_DOWNLOAD_END: i64 = 54;
pub const NEWS_BULLETINS: i64 = 14;
pub const MANAGED_ACCTS: i64 = 15;
pub const RECEIVE_FA: i64 = 16;
pub const SCANNER_PARAMETERS: i64 = 19;
pub const FUNDAMENTAL_DATA: i64 = 51;
pub const CONTRACT_DATA_END: i64 = 52;
pub const OPEN_ORDER_END: i64 = 53;
pub const EXECUTION_DATA_END: i64 = 55;
pub const POSITION_END: i64 = 62;
pub const VERIFY_MESSAGE_API: i64 = 65;
pub const DISPLAY_GROUP_LIST: i64 = 67;
pub const DISPLAY_GROUP_UPDATED: i64 = 68;
pub const POSITION_MULTI_END: i64 = 72;
pub const ACCOUNT_UPDATE_MULTI_END: i64 = 74;
pub const SECURITY_DEFINITION_OPTION_PARAMETER_END: i64 = 76;
pub const NEWS_ARTICLE: i64 = 83;
pub const HEAD_TIMESTAMP: i64 = 88;
pub const REROUTE_MKT_DATA_REQ: i64 = 91;
pub const REROUTE_MKT_DEPTH_REQ: i64 = 92;
pub const PNL: i64 = 94;
pub const ORDER_BOUND: i64 = 100;
pub const COMPLETED_ORDERS_END: i64 = 102;

/// From this version on, a tick price may carry an attribute mask.
pub const MIN_VERSION_TICK_ATTRIB: u64 = 109;
/// From this version on, an order status may carry a market cap price.
pub const MIN_VERSION_MKT_CAP_PRICE: u64 = 131;
/// From this version on, an error may carry an advanced-reject text.
pub const MIN_VERSION_ADVANCED_REJECT: u64 = 166;

#[derive(Clone, Copy, Debug, PartialEq, Eq, Structural)]
pub enum InterpretError {
    /// The tag is missing, not an integer, or not one this interpreter knows.
    UnknownTag,
    /// A field that the tag and version require is absent or does not parse.
    MalformedField,
}

#[derive(Clone, Debug, PartialEq, Eq)]
pub enum Event {
    TickPrice { req_id: i64, tick_type: i64, price: Decimal, size: Decimal, attrib: i64 },
    TickSize { req_id: i64, tick_type: i64, size: Decimal },
    TickString { req_id: i64, tick_type: i64, value: Vec<u8> },
    OrderStatus {
        order_id: i64,
        status: Vec<u8>,
        filled: Decimal,
        remaining: Decimal,
        avg_fill_price: Decimal,
        perm_id: i64,
        parent_id: i64,
        last_fill_price: Decimal,
        client_id: i64,
        why_held: Vec<u8>,
        mkt_cap_price: Decimal,
    },
    Error { req_id: i64, code: i64, text: Vec<u8>, advanced_reject: Vec<u8> },
    NextValidId { order_id: i64 },
    HistoricalData {
        req_id: i64,
        date: Vec<u8>,
        open: Decimal,
        high: Decimal,
        low: Decimal,
        close: Decimal,
        volume: Decimal,
        wap: Decimal,
        bar_count: i64,
    },
    HistoricalDataEnd { req_id: i64, start: Vec<u8>, end: Vec<u8> },
    CurrentTime { time: i64 },
    AccountSummary {
        req_id: i64,
        account: Vec<u8>,
        tag: Vec<u8>,
        value: Vec<u8>,
        currency: Vec<u8>,
    },
    AccountSummaryEnd { req_id: i64 },
    TickOptionComputation {
        req_id: i64,
        tick_type: i64,
        implied_vol: Decimal,
        delta: Decimal,
        opt_price: Decimal,
        pv_dividend: Decimal,
        gamma: Decimal,
        vega: Decimal,
        theta: Decimal,
        und_price: Decimal,
    },
    TickEfp {
        req_id: i64,
        tick_type: i64,
        basis_points: Decimal,
        formatted_basis_points: Vec<u8>,
        total_dividends: Decimal,
        hold_days: i64,
        future_last_trade_date: Vec<u8>,
        dividend_impact: Decimal,
        dividends_to_last_trade_date: Decimal,
    },
    TickGeneric { req_id: i64, tick_type: i64, value: Decimal },
    TickSnapshotEnd { req_id: i64 },
    MarketDataType { req_id: i64, market_data_type: i64 },
    TickReqParams {
        req_id: i64,
        min_tick: Decimal,
        bbo_exchange: Vec<u8>,
        snapshot_permissions: i64,
    },
    RealtimeBar {
        req_id: i64,
        time: i64,
        open: Decimal,
        high: Decimal,
        low: Decimal,
        close: Decimal,
        volume: Decimal,
        wap: Decimal,
        count: i64,
    },
    UpdateMktDepth {
        req_id: i64,
        position: i64,
        operation: i64,
        side: i64,
        price: Decimal,
        size: Decimal,
    },
    UpdateAccountValue { key: Vec<u8>, val: Vec<u8>, currency: Vec<u8>, account_name: Vec<u8> },
    UpdateAccountTime { time_stamp: Vec<u8> },
    AccountDownloadEnd { account_name: Vec<u8> },
    UpdateNewsBulletin {
        msg_id: i64,
        msg_type: i64,
        news_message: Vec<u8>,
        origin_exchange: Vec<u8>,
    },
    ManagedAccounts { accounts_list: Vec<u8> },
    ReceiveFa { fa_data_type: i64, cxml: Vec<u8> },
    ScannerParameters { xml: Vec<u8> },
    FundamentalData { req_id: i64, data: Vec<u8> },
    ContractDetailsEnd { req_id: i64 },
    OpenOrderEnd,
    ExecDetailsEnd { req_id: i64 },
    PositionEnd,
    VerifyMessageApi { api_data: Vec<u8> },
    DisplayGroupList { req_id: i64, groups: Vec<u8> },
    DisplayGroupUpdated { req_id: i64, contract_info: Vec<u8> },
    PositionMultiEnd { req_id: i64 },
    AccountUpdateMultiEnd { req_id: i64 },
    SecurityDefinitionOptionParameterEnd { req_id: i64 },
    NewsArticle { request_id: i64, article_type: i64, article_text: Vec<u8> },
    HeadTimestamp { req_id: i64, head_timestamp: Vec<u8> },
    RerouteMktDataReq { req_id: i64, con_id: i64, exchange: Vec<u8> },
    RerouteMktDepthReq { req_id: i64, con_id: i64, exchange: Vec<u8> },
    Pnl { req_id: i64, daily_pnl: Decimal, unrealized_pnl: Decimal, realized_pnl: Decimal },
    OrderBound { req_id: i64, api_client_id: i64, api_order_id: i64 },
    CompletedOrdersEnd,
    SecurityDefinitionOptionParameter {
        req_id: i64,
        exchange: Vec<u8>,
        underlying_con_id: i64,
        trading_class: Vec<u8>,
        multiplier: Vec<u8>,
        expirations: Vec<Vec<u8>>,
        strikes: Vec<Decimal>,
    },
    UpdatePortfolio {
        symbol: Vec<u8>,
        sec_type: Vec<u8>,
        exchange: Vec<u8>,
        currency: Vec<u8>,
        position: Decimal,
        market_price: Decimal,
        market_value: Decimal,
        average_cost: Decimal,
        unrealized_pnl: Decimal,
        realized_pnl: Decimal,
        account_name: Vec<u8>,
    },
    Position {
        account: Vec<u8>,
        symbol: Vec<u8>,
        sec_type: Vec<u8>,
        exchange: Vec<u8>,
        currency: Vec<u8>,
        position: Decimal,
        avg_cost: Decimal,
    },
}

/// What an [`Event`] says, with text fields as byte sequences.
pub enum EventView {
    TickPrice { req_id: i64, tick_type: i64, price: Decimal, size: Decimal, attrib: i64 },
    TickSize { req_id: i64, tick_type: i64, size: Decimal },
    TickString { req_id: i64, tick_type: i64, value: Seq<u8> },
    OrderStatus {
        order_id: i64,
        status: Seq<u8>,
        filled: Decimal,
        remaining: Decimal,
        avg_fill_price: Decimal,
        perm_id: i64,
        parent_id: i64,
        last_fill_price: Decimal,
        client_id: i64,
        why_held: Seq<u8>,
        mkt_cap_price: Decimal,
    },
    Error { req_id: i64, code: i64, text: Seq<u8>, advanced_reject: Seq<u8> },
    NextValidId { order_id: i64 },
    HistoricalData {
        req_id: i64,
        date: Seq<u8>,
        open: Decimal,
        high: Decimal,
        low: Decimal,
        close: Decimal,
        volume: Decimal,
        wap: Decimal,
        bar_count: i64,
    },
    HistoricalDataEnd { req_id: i64, start: Seq<u8>, end: Seq<u8> },
    CurrentTime { time: i64 },
    AccountSummary {
        req_id: i64,
        account: Seq<u8>,
        tag: Seq<u8>,
        value: Seq<u8>,
        currency: Seq<u8>,
    },
    AccountSummaryEnd { req_id: i64 },
    TickOptionComputation {
        req_id: i64,
        tick_type: i64,
        implied_vol: Decimal,
        delta: Decimal,
        opt_price: Decimal,
        pv_dividend: Decimal,
        gamma: Decimal,
        vega: Decimal,
        theta: Decimal,
        und_price: Decimal,
    },
    TickEfp {
        req_id: i64,
        tick_type: i64,
        basis_points: Decimal,
        formatted_basis_points: Seq<u8>,
        total_dividends: Decimal,
        hold_days: i64,
        future_last_trade_date: Seq<u8>,
        dividend_impact: Decimal,
        dividends_to_last_trade_date: Decimal,
    },
    TickGeneric { req_id: i64, tick_type: i64, value: Decimal },
    TickSnapshotEnd { req_id: i64 },
    MarketDataType { req_id: i64, market_data_type: i64 },
    TickReqParams {
        req_id: i64,
        min_tick: Decimal,
        bbo_exchange: Seq<u8>,
        snapshot_permissions: i64,
    },
    RealtimeBar {
        req_id: i64,
        time: i64,
        open: Decimal,
        high: Decimal,
        low: Decimal,
        close: Decimal,
        volume: Decimal,
        wap: Decimal,
        count: i64,
    },
    UpdateMktDepth {
        req_id: i64,
        position: i64,
        operation: i64,
        side: i64,
        price: Decimal,
        size: Decimal,
    },
    UpdateAccountValue { key: Seq<u8>, val: Seq<u8>, currency: Seq<u8>, account_name: Seq<u8> },
    UpdateAccountTime { time_stamp: Seq<u8> },
    AccountDownloadEnd { account_name: Seq<u8> },
    UpdateNewsBulletin {
        msg_id: i64,
        msg_type: i64,
        news_message: Seq<u8>,
        origin_exchange: Seq<u8>,
    },
    ManagedAccounts { accounts_list: Seq<u8> },
    ReceiveFa { fa_data_type: i64, cxml: Seq<u8> },
    ScannerParameters { xml: Seq<u8> },
    FundamentalData { req_id: i64, data: Seq<u8> },
    ContractDetailsEnd { req_id: i64 },
    OpenOrderEnd,
    ExecDetailsEnd { req_id: i64 },
    PositionEnd,
    VerifyMessageApi { api_data: Seq<u8> },
    DisplayGroupList { req_id: i64, groups: Seq<u8> },
    DisplayGroupUpdated { req_id: i64, contract_info: Seq<u8> },
    PositionMultiEnd { req_id: i64 },
    AccountUpdateMultiEnd { req_id: i64 },
    SecurityDefinitionOptionParameterEnd { req_id: i64 },
    NewsArticle { request_id: i64, article_type: i64, article_text: Seq<u8> },
    HeadTimestamp { req_id: i64, head_timestamp: Seq<u8> },
    RerouteMktDataReq { req_id: i64, con_id: i64, exchange: Seq<u8> },
    RerouteMktDepthReq { req_id: i64, con_id: i64, exchange: Seq<u8> },
    Pnl { req_id: i64, daily_pnl: Decimal, unrealized_pnl: Decimal, realized_pnl: Decimal },
    OrderBound { req_id: i64, api_client_id: i64, api_order_id: i64 },
    CompletedOrdersEnd,
    SecurityDefinitionOptionParameter {
        req_id: i64,
        exchange: Seq<u8>,
        underlying_con_id: i64,
        trading_class: Seq<u8>,
        multiplier: Seq<u8>,
        expirations: Seq<Seq<u8>>,
        strikes: Seq<Decimal>,
    },
    UpdatePortfolio {
        symbol: Seq<u8>,
        sec_type: Seq<u8>,
        exchange: Seq<u8>,
        currency: Seq<u8>,
        position: Decimal,
        market_price: Decimal,
        market_value: Decimal,
        average_cost: Decimal,
        unrealized_pnl: Decimal,
        realized_pnl: Decimal,
        account_name: Seq<u8>,
    },
    Position {
        account: Seq<u8>,
        symbol: Seq<u8>,
        sec_type: Seq<u8>,
        exchange: Seq<u8>,
        currency: Seq<u8>,
        position: Decimal,
        avg_cost: Decimal,
    },
}

impl View for Event {
    type V = EventView;

    open spec fn view(&self) -> EventView {
        match self {
            Event::TickPrice {
                req_id,
                tick_type,
                price,
                size,
                attrib,
            } => EventView::TickPrice {
                req_id: *req_id,
                tick_type: *tick_type,
                price: *price,
                size: *size,
                attrib: *attrib,
            },
            Event::TickSize {
                req_id,
                tick_type,
                size,
            } => EventView::TickSize {
                req_id: *req_id,
                tick_type: *tick_type,
                size: *size,
            },
            Event::TickString {
                req_id,
                tick_type,
                value,
            } => EventView::TickString {
                req_id: *req_id,
                tick_type: *tick_type,
                value: value@,
            },
            Event::OrderStatus {
                order_id,
                status,
                filled,
                remaining,
                avg_fill_price,
                perm_id,
                parent_id,
                last_fill_price,
                client_id,
                why_held,
                mkt_cap_price,
            } => EventView::OrderStatus {
                order_id: *order_id,
                status: status@,
                filled: *filled,
                remaining: *remaining,
                avg_fill_price: *avg_fill_price,
                perm_id: *perm_id,
                parent_id: *parent_id,
                last_fill_price: *last_fill_price,
                client_id: *client_id,
                why_held: why_held@,
                mkt_cap_price: *mkt_cap_price,
            },
            Event::Error {
                req_id,
                code,
                text,
                advanced_reject,
            } => EventView::Error {
                req_id: *req_id,
                code: *code,
                text: text@,
                advanced_reject: advanced_reject@,
            },
            Event::NextValidId { order_id } => EventView::NextValidId { order_id: *order_id },
            Event::HistoricalData {
                req_id,
                date,
                open,
                high,
                low,
                close,
                volume,
                wap,
                bar_count,
            } => EventView::HistoricalData {
                req_id: *req_id,
                date: date@,
                open: *open,
                high: *high,
                low: *low,
                close: *close,
                volume: *volume,
                wap: *wap,
                bar_count: *bar_count,
            },
            Event::HistoricalDataEnd {
                req_id,
                start,
                end,
            } => EventView::HistoricalDataEnd {
                req_id: *req_id,
                start: start@,
                end: end@,
            },
            Event::CurrentTime { time } => EventView::CurrentTime { time: *time },
            Event::AccountSummary {
                req_id,
                account,
                tag,
                value,
                currency,
            } => EventView::AccountSummary {
                req_id: *req_id,
                account: account@,
                tag: tag@,
                value: value@,
                currency: currency@,
            },
            Event::AccountSummaryEnd { req_id } => EventView::AccountSummaryEnd { req_id: *req_id },
            Event::UpdatePortfolio {
                symbol,
                sec_type,
                exchange,
                currency,
                position,
                market_price,
                market_value,
                average_cost,
                unrealized_pnl,
                realized_pnl,
                account_name,
            } => EventView::UpdatePortfolio {
                symbol: symbol@,
                sec_type: sec_type@,
                exchange: exchange@,
                currency: currency@,
                position: *position,
                market_price: *market_price,
                market_value: *market_value,
                average_cost: *average_cost,
                unrealized_pnl: *unrealized_pnl,
                realized_pnl: *realized_pnl,
                account_name: account_name@,
            },
            Event::Position {
                account,
                symbol,
                sec_type,
                exchange,
                currency,
                position,
                avg_cost,
            } => EventView::Position {
                account: account@,
                symbol: symbol@,
                sec_type: sec_type@,
                exchange: exchange@,
                currency: currency@,
                position: *position,
                avg_cost: *avg_cost,
            },
            Event::TickOptionComputation {
                req_id,
                tick_type,
                implied_vol,
                delta,
                opt_price,
                pv_dividend,
                gamma,
                vega,
                theta,
                und_price,
            } => EventView::TickOptionComputation {
                req_id: *req_id,
                tick_type: *tick_type,
                implied_vol: *implied_vol,
                delta: *delta,
                opt_price: *opt_price,
                pv_dividend: *pv_dividend,
                gamma: *gamma,
                vega: *vega,
                theta: *theta,
                und_price: *und_price,
            },
            Event::TickEfp {
                req_id,
                tick_type,
                basis_points,
                formatted_basis_points,
                total_dividends,
                hold_days,
                future_last_trade_date,
                dividend_impact,
                dividends_to_last_trade_date,
            } => EventView::TickEfp {
                req_id: *req_id,
                tick_type: *tick_type,
                basis_points: *basis_points,
                formatted_basis_points: formatted_basis_points@,
                total_dividends: *total_dividends,
                hold_days: *hold_days,
                future_last_trade_date: future_last_trade_date@,
                dividend_impact: *dividend_impact,
                dividends_to_last_trade_date: *dividends_to_last_trade_date,
            },
            Event::TickGeneric {
                req_id,
                tick_type,
                value,
            } => EventView::TickGeneric {
                req_id: *req_id,
                tick_type: *tick_type,
                value: *value,
            },
            Event::TickSnapshotEnd { req_id } => EventView::TickSnapshotEnd { req_id: *req_id },
            Event::MarketDataType {
                req_id,
                market_data_type,
            } => EventView::MarketDataType {
                req_id: *req_id,
                market_data_type: *market_data_type,
            },
            Event::TickReqParams {
                req_id,
                min_tick,
                bbo_exchange,
                snapshot_permissions,
            } => EventView::TickReqParams {
                req_id: *req_id,
                min_tick: *min_tick,
                bbo_exchange: bbo_exchange@,
                snapshot_permissions: *snapshot_permissions,
            },
            Event::RealtimeBar {
                req_id,
                time,
                open,
                high,
                low,
                close,
                volume,
                wap,
                count,
            } => EventView::RealtimeBar {
                req_id: *req_id,
                time: *time,
                open: *open,
                high: *high,
                low: *low,
                close: *close,
                volume: *volume,
                wap: *wap,
                count: *count,
            },
            Event::UpdateMktDepth {
                req_id,
                position,
                operation,
                side,
                price,
                size,
            } => EventView::UpdateMktDepth {
                req_id: *req_id,
                position: *position,
                operation: *operation,
                side: *side,
                price: *price,
                size: *size,
            },
            Event::UpdateAccountValue {
                key,
                val,
                currency,
                account_name,
            } => EventView::UpdateAccountValue {
                key: key@,
                val: val@,
                currency: currency@,
                account_name: account_name@,
            },
            Event::UpdateAccountTime {
                time_stamp,
            } => EventView::UpdateAccountTime {
                time_stamp: time_stamp@,
            },
            Event::AccountDownloadEnd {
                account_name,
            } => EventView::AccountDownloadEnd {
                account_name: account_name@,
            },
            Event::UpdateNewsBulletin {
                msg_id,
                msg_type,
                news_message,
                origin_exchange,
            } => EventView::UpdateNewsBulletin {
                msg_id: *msg_id,
                msg_type: *msg_type,
                news_message: news_message@,
                origin_exchange: origin_exchange@,
            },
            Event::ManagedAccounts {
                accounts_list,
            } => EventView::ManagedAccounts {
                accounts_list: accounts_list@,
            },
            Event::ReceiveFa {
                fa_data_type,
                cxml,
            } => EventView::ReceiveFa {
                fa_data_type: *fa_data_type,
                cxml: cxml@,
            },
            Event::ScannerParameters { xml } => EventView::ScannerParameters { xml: xml@ },
            Event::FundamentalData {
                req_id,
                data,
            } => EventView::FundamentalData {
                req_id: *req_id,
                data: data@,
            },
            Event::ContractDetailsEnd {
                req_id,
            } => EventView::ContractDetailsEnd {
                req_id: *req_id,
            },
            Event::OpenOrderEnd => EventView::OpenOrderEnd,
            Event::ExecDetailsEnd { req_id } => EventView::ExecDetailsEnd { req_id: *req_id },
            Event::PositionEnd => EventView::PositionEnd,
            Event::VerifyMessageApi {
                api_data,
            } => EventView::VerifyMessageApi {
                api_data: api_data@,
            },
            Event::DisplayGroupList {
                req_id,
                groups,
            } => EventView::DisplayGroupList {
                req_id: *req_id,
                groups: groups@,
            },
            Event::DisplayGroupUpdated {
                req_id,
                contract_info,
            } => EventView::DisplayGroupUpdated {
                req_id: *req_id,
                contract_info: contract_info@,
            },
            Event::PositionMultiEnd { req_id } => EventView::PositionMultiEnd { req_id: *req_id },
            Event::AccountUpdateMultiEnd {
                req_id,
            } => EventView::AccountUpdateMultiEnd {
                req_id: *req_id,
            },
            Event::SecurityDefinitionOptionParameterEnd {
                req_id,
            } => EventView::SecurityDefinitionOptionParameterEnd {
                req_id: *req_id,
            },
            Event::NewsArticle {
                request_id,
                article_type,
                article_text,
            } => EventView::NewsArticle {
                request_id: *request_id,
                article_type: *article_type,
                article_text: article_text@,
            },
            Event::HeadTimestamp {
                req_id,
                head_timestamp,
            } => EventView::HeadTimestamp {
                req_id: *req_id,
                head_timestamp: head_timestamp@,
            },
            Event::RerouteMktDataReq {
                req_id,
                con_id,
                exchange,
            } => EventView::RerouteMktDataReq {
                req_id: *req_id,
                con_id: *con_id,
                exchange: exchange@,
            },
            Event::RerouteMktDepthReq {
                req_id,
                con_id,
                exchange,
            } => EventView::RerouteMktDepthReq {
                req_id: *req_id,
                con_id: *con_id,
                exchange: exchange@,
            },
            Event::Pnl {
                req_id,
                daily_pnl,
                unrealized_pnl,
                realized_pnl,
            } => EventView::Pnl {
                req_id: *req_id,
                daily_pnl: *daily_pnl,
                unrealized_pnl: *unrealized_pnl,
                realized_pnl: *realized_pnl,
            },
            Event::OrderBound {
                req_id,
                api_client_id,
                api_order_id,
            } => EventView::OrderBound {
                req_id: *req_id,
                api_client_id: *api_client_id,
                api_order_id: *api_order_id,
            },
            Event::CompletedOrdersEnd => EventView::CompletedOrdersEnd,
            Event::SecurityDefinitionOptionParameter {
                req_id,
                exchange,
                underlying_con_id,
                trading_class,
                multiplier,
                expirations,
                strikes,
            } => EventView::SecurityDefinitionOptionParameter {
                req_id: *req_id,
                exchange: exchange@,
                underlying_con_id: *underlying_con_id,
                trading_class: trading_class@,
                multiplier: multiplier@,
                expirations: fields_view(expirations@),
                strikes: strikes@,
            },
        }
    }
}

impl EventView {
    /// The tag of the message this event is read from.
    pub open spec fn tag(self) -> i64 {
        match self {
            EventView::TickPrice { .. } => TICK_PRICE,
            EventView::TickSize { .. } => TICK_SIZE,
            EventView::TickString { .. } => TICK_STRING,
            EventView::OrderStatus { .. } => ORDER_STATUS,
            EventView::Error { .. } => ERR_MSG,
            EventView::NextValidId { .. } => NEXT_VALID_ID,
            EventView::HistoricalData { .. } => HISTORICAL_DATA,
            EventView::HistoricalDataEnd { .. } => HISTORICAL_DATA_END,
            EventView::CurrentTime { .. } => CURRENT_TIME,
            EventView::AccountSummary { .. } => ACCOUNT_SUMMARY,
            EventView::AccountSummaryEnd { .. } => ACCOUNT_SUMMARY_END,
            EventView::UpdatePortfolio { .. } => PORTFOLIO_VALUE,
            EventView::Position { .. } => POSITION_DATA,
            EventView::TickOptionComputation { .. } => TICK_OPTION_COMPUTATION,
            EventView::TickEfp { .. } => TICK_EFP,
            EventView::TickGeneric { .. } => TICK_GENERIC,
            EventView::TickSnapshotEnd { .. } => TICK_SNAPSHOT_END,
            EventView::MarketDataType { .. } => MARKET_DATA_TYPE,
            EventView::TickReqParams { .. } => TICK_REQ_PARAMS,
            EventView::RealtimeBar { .. } => REAL_TIME_BARS,
            EventView::UpdateMktDepth { .. } => MARKET_DEPTH,
            EventView::UpdateAccountValue { .. } => ACCT_VALUE,
            EventView::UpdateAccountTime { .. } => ACCT_UPDATE_TIME,
            EventView::AccountDownloadEnd { .. } => ACCT_DOWNLOAD_END,
            EventView::UpdateNewsBulletin { .. } => NEWS_BULLETINS,
            EventView::ManagedAccounts { .. } => MANAGED_ACCTS,
            EventView::ReceiveFa { .. } => RECEIVE_FA,
            EventView::ScannerParameters { .. } => SCANNER_PARAMETERS,
            EventView::FundamentalData { .. } => FUNDAMENTAL_DATA,
            EventView::ContractDetailsEnd { .. } => CONTRACT_DATA_END,
            EventView::OpenOrderEnd => OPEN_ORDER_END,
            EventView::ExecDetailsEnd { .. } => EXECUTION_DATA_END,
            EventView::PositionEnd => POSITION_END,
            EventView::VerifyMessageApi { .. } => VERIFY_MESSAGE_API,
            EventView::DisplayGroupList { .. } => DISPLAY_GROUP_LIST,
            EventView::DisplayGroupUpdated { .. } => DISPLAY_GROUP_UPDATED,
            EventView::PositionMultiEnd { .. } => POSITION_MULTI_END,
            EventView::AccountUpdateMultiEnd { .. } => ACCOUNT_UPDATE_MULTI_END,
            EventView::SecurityDefinitionOptionParameterEnd { .. } => {
                SECURITY_DEFINITION_OPTION_PARAMETER_END
            },
            EventView::NewsArticle { .. } => NEWS_ARTICLE,
            EventView::HeadTimestamp { .. } => HEAD_TIMESTAMP,
            EventView::RerouteMktDataReq { .. } => REROUTE_MKT_DATA_REQ,
            EventView::RerouteMktDepthReq { .. } => REROUTE_MKT_DEPTH_REQ,
            EventView::Pnl { .. } => PNL,
            EventView::OrderBound { .. } => ORDER_BOUND,
            EventView::CompletedOrdersEnd => COMPLETED_ORDERS_END,
            EventView::SecurityDefinitionOptionParameter { .. } => {
                SECURITY_DEFINITION_OPTION_PARAMETER
            },
        }
    }
}

pub open spec fn int_at(raw: Seq<Seq<u8>>, i: int) -> Option<i64> {
    if 0 <= i < raw.len() {
        i64_of(raw[i])
    } else {
        None
    }
}

pub open spec fn dec_at(raw: Seq<Seq<u8>>, i: int) -> Option<Decimal> {
    if 0 <= i < raw.len() {
        decimal_of(raw[i])
    } else {
        None
    }
}

/// Field `i`, which the version allows to be absent: its value if present,
/// else the default.
pub open spec fn opt_int_at(raw: Seq<Seq<u8>>, i: int, allowed: bool, default: i64) -> Option<i64> {
    if allowed && i < raw.len() {
        int_at(raw, i)
    } else {
        Some(default)
    }
}

pub open spec fn opt_dec_at(raw: Seq<Seq<u8>>, i: int, allowed: bool) -> Option<Decimal> {
    if allowed && i < raw.len() {
        dec_at(raw, i)
    } else {
        Some(Decimal::Unset)
    }
}

pub open spec fn opt_text_at(raw: Seq<Seq<u8>>, i: int, allowed: bool) -> Seq<u8> {
    if allowed && 0 <= i < raw.len() {
        raw[i]
    } else {
        Seq::empty()
    }
}

/// Field `i` is an integer that counts `n` items.
pub open spec fn count_at(raw: Seq<Seq<u8>>, i: int, n: int) -> bool {
    match int_at(raw, i) {
        Some(c) => c as int == n,
        None => false,
    }
}

pub open spec fn tag_of(raw: Seq<Seq<u8>>) -> Option<i64> {
    int_at(raw, 0)
}

pub open spec fn is_known_tag(t: i64) -> bool {
    ||| t == TICK_PRICE
    ||| t == TICK_SIZE
    ||| t == TICK_STRING
    ||| t == ORDER_STATUS
    ||| t == ERR_MSG
    ||| t == NEXT_VALID_ID
    ||| t == HISTORICAL_DATA
    ||| t == HISTORICAL_DATA_END
    ||| t == CURRENT_TIME
    ||| t == ACCOUNT_SUMMARY
    ||| t == ACCOUNT_SUMMARY_END
    ||| t == TICK_OPTION_COMPUTATION
    ||| t == TICK_EFP
    ||| t == TICK_GENERIC
    ||| t == TICK_SNAPSHOT_END
    ||| t == MARKET_DATA_TYPE
    ||| t == TICK_REQ_PARAMS
    ||| t == REAL_TIME_BARS
    ||| t == MARKET_DEPTH
    ||| t == ACCT_VALUE
    ||| t == ACCT_UPDATE_TIME
    ||| t == ACCT_DOWNLOAD_END
    ||| t == NEWS_BULLETINS
    ||| t == MANAGED_ACCTS
    ||| t == RECEIVE_FA
    ||| t == SCANNER_PARAMETERS
    ||| t == FUNDAMENTAL_DATA
    ||| t == CONTRACT_DATA_END
    ||| t == OPEN_ORDER_END
    ||| t == EXECUTION_DATA_END
    ||| t == POSITION_END
    ||| t == VERIFY_MESSAGE_API
    ||| t == DISPLAY_GROUP_LIST
    ||| t == DISPLAY_GROUP_UPDATED
    ||| t == POSITION_MULTI_END
    ||| t == ACCOUNT_UPDATE_MULTI_END
    ||| t == SECURITY_DEFINITION_OPTION_PARAMETER_END
    ||| t == NEWS_ARTICLE
    ||| t == HEAD_TIMESTAMP
    ||| t == REROUTE_MKT_DATA_REQ
    ||| t == REROUTE_MKT_DEPTH_REQ
    ||| t == PNL
    ||| t == ORDER_BOUND
    ||| t == COMPLETED_ORDERS_END
    ||| t == SECURITY_DEFINITION_OPTION_PARAMETER
    ||| t == PORTFOLIO_VALUE
    ||| t == POSITION_DATA
}

pub open spec fn known_tag(raw: Seq<Seq<u8>>) -> bool {
    match tag_of(raw) {
        Some(t) => is_known_tag(t),
        None => false,
    }
}

/// `e` is what the message `raw` says under protocol version `v`: every field
/// of `e` is the value of the field at its place in `raw`.
pub open spec fn decodes_to(raw: Seq<Seq<u8>>, v: u64, e: EventView) -> bool {
    &&& tag_of(raw) == Some(e.tag())
    &&& match e {
        EventView::TickPrice { req_id, tick_type, price, size, attrib } => {
            &&& raw.len() >= 6
            &&& int_at(raw, 2) == Some(req_id)
            &&& int_at(raw, 3) == Some(tick_type)
            &&& dec_at(raw, 4) == Some(price)
            &&& dec_at(raw, 5) == Some(size)
            &&& opt_int_at(raw, 6, v >= MIN_VERSION_TICK_ATTRIB, 0) == Some(attrib)
        },
        EventView::TickSize { req_id, tick_type, size } => {
            &&& raw.len() >= 5
            &&& int_at(raw, 2) == Some(req_id)
            &&& int_at(raw, 3) == Some(tick_type)
            &&& dec_at(raw, 4) == Some(size)
        },
        EventView::TickString { req_id, tick_type, value } => {
            &&& raw.len() >= 5
            &&& int_at(raw, 2) == Some(req_id)
            &&& int_at(raw, 3) == Some(tick_type)
            &&& value == raw[4]
        },
        EventView::OrderStatus {
            order_id,
            status,
            filled,
            remaining,
            avg_fill_price,
            perm_id,
            parent_id,
            last_fill_price,
            client_id,
            why_held,
            mkt_cap_price,
        } => {
            &&& raw.len() >= 12
            &&& int_at(raw, 2) == Some(order_id)
            &&& status == raw[3]
            &&& dec_at(raw, 4) == Some(filled)
            &&& dec_at(raw, 5) == Some(remaining)
            &&& dec_at(raw, 6) == Some(avg_fill_price)
            &&& int_at(raw, 7) == Some(perm_id)
            &&& int_at(raw, 8) == Some(parent_id)
            &&& dec_at(raw, 9) == Some(last_fill_price)
            &&& int_at(raw, 10) == Some(client_id)
            &&& why_held == raw[11]
            &&& opt_dec_at(raw, 12, v >= MIN_VERSION_MKT_CAP_PRICE) == Some(mkt_cap_price)
        },
        EventView::Error { req_id, code, text, advanced_reject } => {
            &&& raw.len() >= 5
            &&& int_at(raw, 2) == Some(req_id)
            &&& int_at(raw, 3) == Some(code)
            &&& text == raw[4]
            &&& advanced_reject == opt_text_at(raw, 5, v >= MIN_VERSION_ADVANCED_REJECT)
        },
        EventView::NextValidId { order_id } => {
            &&& raw.len() >= 3
            &&& int_at(raw, 2) == Some(order_id)
        },
        EventView::HistoricalData {
            req_id,
            date,
            open,
            high,
            low,
            close,
            volume,
            wap,
            bar_count,
        } => {
            &&& raw.len() >= 10
            &&& int_at(raw, 1) == Some(req_id)
            &&& date == raw[2]
            &&& dec_at(raw, 3) == Some(open)
            &&& dec_at(raw, 4) == Some(high)
            &&& dec_at(raw, 5) == Some(low)
            &&& dec_at(raw, 6) == Some(close)
            &&& dec_at(raw, 7) == Some(volume)
            &&& dec_at(raw, 8) == Some(wap)
            &&& int_at(raw, 9) == Some(bar_count)
        },
        EventView::HistoricalDataEnd { req_id, start, end } => {
            &&& raw.len() >= 4
            &&& int_at(raw, 1) == Some(req_id)
            &&& start == raw[2]
            &&& end == raw[3]
        },
        EventView::CurrentTime { time } => {
            &&& raw.len() >= 3
            &&& int_at(raw, 2) == Some(time)
        },
        EventView::AccountSummary { req_id, account, tag, value, currency } => {
            &&& raw.len() >= 7
            &&& int_at(raw, 2) == Some(req_id)
            &&& account == raw[3]
            &&& tag == raw[4]
            &&& value == raw[5]
            &&& currency == raw[6]
        },
        EventView::AccountSummaryEnd { req_id } => {
            &&& raw.len() >= 3
            &&& int_at(raw, 2) == Some(req_id)
        },
        EventView::SecurityDefinitionOptionParameter {
            req_id,
            exchange,
            underlying_con_id,
            trading_class,
            multiplier,
            expirations,
            strikes,
        } => {
            let n = expirations.len() as int;
            let m = strikes.len() as int;
            &&& raw.len() >= 8 + n + m
            &&& int_at(raw, 1) == Some(req_id)
            &&& exchange == raw[2]
            &&& int_at(raw, 3) == Some(underlying_con_id)
            &&& trading_class == raw[4]
            &&& multiplier == raw[5]
            &&& count_at(raw, 6, n)
            &&& forall|i: int| 0 <= i < n ==> #[trigger] expirations[i] == raw[7 + i]
            &&& count_at(raw, 7 + n, m)
            &&& forall|i: int| 0 <= i < m ==> dec_at(raw, 8 + n + i) == Some(#[trigger] strikes[i])
        },
        EventView::UpdatePortfolio {
            symbol,
            sec_type,
            exchange,
            currency,
            position,
            market_price,
            market_value,
            average_cost,
            unrealized_pnl,
            realized_pnl,
            account_name,
        } => {
            &&& raw.len() >= 13
            &&& symbol == raw[2]
            &&& sec_type == raw[3]
            &&& exchange == raw[4]
            &&& currency == raw[5]
            &&& dec_at(raw, 6) == Some(position)
            &&& dec_at(raw, 7) == Some(market_price)
            &&& dec_at(raw, 8) == Some(market_value)
            &&& dec_at(raw, 9) == Some(average_cost)
            &&& dec_at(raw, 10) == Some(unrealized_pnl)
            &&& dec_at(raw, 11) == Some(realized_pnl)
            &&& account_name == raw[12]
        },
        EventView::Position {
            account,
            symbol,
            sec_type,
            exchange,
            currency,
            position,
            avg_cost,
        } => {
            &&& raw.len() >= 9
            &&& account == raw[2]
            &&& symbol == raw[3]
            &&& sec_type == raw[4]
            &&& exchange == raw[5]
            &&& currency == raw[6]
            &&& dec_at(raw, 7) == Some(position)
            &&& dec_at(raw, 8) == Some(avg_cost)
        },
        EventView::TickOptionComputation {
            req_id,
            tick_type,
            implied_vol,
            delta,
            opt_price,
            pv_dividend,
            gamma,
            vega,
            theta,
            und_price,
        } => {
            &&& raw.len() >= 12
            &&& int_at(raw, 2) == Some(req_id)
            &&& int_at(raw, 3) == Some(tick_type)
            &&& dec_at(raw, 4) == Some(implied_vol)
            &&& dec_at(raw, 5) == Some(delta)
            &&& dec_at(raw, 6) == Some(opt_price)
            &&& dec_at(raw, 7) == Some(pv_dividend)
            &&& dec_at(raw, 8) == Some(gamma)
            &&& dec_at(raw, 9) == Some(vega)
            &&& dec_at(raw, 10) == Some(theta)
            &&& dec_at(raw, 11) == Some(und_price)
        },
        EventView::TickEfp {
            req_id,
            tick_type,
            basis_points,
            formatted_basis_points,
            total_dividends,
            hold_days,
            future_last_trade_date,
            dividend_impact,
            dividends_to_last_trade_date,
        } => {
            &&& raw.len() >= 11
            &&& int_at(raw, 2) == Some(req_id)
            &&& int_at(raw, 3) == Some(tick_type)
            &&& dec_at(raw, 4) == Some(basis_points)
            &&& formatted_basis_points == raw[5]
            &&& dec_at(raw, 6) == Some(total_dividends)
            &&& int_at(raw, 7) == Some(hold_days)
            &&& future_last_trade_date == raw[8]
            &&& dec_at(raw, 9) == Some(dividend_impact)
            &&& dec_at(raw, 10) == Some(dividends_to_last_trade_date)
        },
        EventView::TickGeneric { req_id, tick_type, value } => {
            &&& raw.len() >= 5
            &&& int_at(raw, 2) == Some(req_id)
            &&& int_at(raw, 3) == Some(tick_type)
            &&& dec_at(raw, 4) == Some(value)
        },
        EventView::TickSnapshotEnd { req_id } => {
            &&& raw.len() >= 3
            &&& int_at(raw, 2) == Some(req_id)
        },
        EventView::MarketDataType { req_id, market_data_type } => {
            &&& raw.len() >= 4
            &&& int_at(raw, 2) == Some(req_id)
            &&& int_at(raw, 3) == Some(market_data_type)
        },
        EventView::TickReqParams { req_id, min_tick, bbo_exchange, snapshot_permissions } => {
            &&& raw.len() >= 5
            &&& int_at(raw, 1) == Some(req_id)
            &&& dec_at(raw, 2) == Some(min_tick)
            &&& bbo_exchange == raw[3]
            &&& int_at(raw, 4) == Some(snapshot_permissions)
        },
        EventView::RealtimeBar { req_id, time, open, high, low, close, volume, wap, count } => {
            &&& raw.len() >= 11
            &&& int_at(raw, 2) == Some(req_id)
            &&& int_at(raw, 3) == Some(time)
            &&& dec_at(raw, 4) == Some(open)
            &&& dec_at(raw, 5) == Some(high)
            &&& dec_at(raw, 6) == Some(low)
            &&& dec_at(raw, 7) == Some(close)
            &&& dec_at(raw, 8) == Some(volume)
            &&& dec_at(raw, 9) == Some(wap)
            &&& int_at(raw, 10) == Some(count)
        },
        EventView::UpdateMktDepth { req_id, position, operation, side, price, size } => {
            &&& raw.len() >= 8
            &&& int_at(raw, 2) == Some(req_id)
            &&& int_at(raw, 3) == Some(position)
            &&& int_at(raw, 4) == Some(operation)
            &&& int_at(raw, 5) == Some(side)
            &&& dec_at(raw, 6) == Some(price)
            &&& dec_at(raw, 7) == Some(size)
        },
        EventView::UpdateAccountValue { key, val, currency, account_name } => {
            &&& raw.len() >= 6
            &&& key == raw[2]
            &&& val == raw[3]
            &&& currency == raw[4]
            &&& account_name == raw[5]
        },
        EventView::UpdateAccountTime { time_stamp } => {
            &&& raw.len() >= 3
            &&& time_stamp == raw[2]
        },
        EventView::AccountDownloadEnd { account_name } => {
            &&& raw.len() >= 3
            &&& account_name == raw[2]
        },
        EventView::UpdateNewsBulletin { msg_id, msg_type, news_message, origin_exchange } => {
            &&& raw.len() >= 6
            &&& int_at(raw, 2) == Some(msg_id)
            &&& int_at(raw, 3) == Some(msg_type)
            &&& news_message == raw[4]
            &&& origin_exchange == raw[5]
        },
        EventView::ManagedAccounts { accounts_list } => {
            &&& raw.len() >= 3
            &&& accounts_list == raw[2]
        },
        EventView::ReceiveFa { fa_data_type, cxml } => {
            &&& raw.len() >= 4
            &&& int_at(raw, 2) == Some(fa_data_type)
            &&& cxml == raw[3]
        },
        EventView::ScannerParameters { xml } => {
            &&& raw.len() >= 3
            &&& xml == raw[2]
        },
        EventView::FundamentalData { req_id, data } => {
            &&& raw.len() >= 4
            &&& int_at(raw, 2) == Some(req_id)
            &&& data == raw[3]
        },
        EventView::ContractDetailsEnd { req_id } => {
            &&& raw.len() >= 3
            &&& int_at(raw, 2) == Some(req_id)
        },
        EventView::OpenOrderEnd => {
            &&& raw.len() >= 2
        },
        EventView::ExecDetailsEnd { req_id } => {
            &&& raw.len() >= 3
            &&& int_at(raw, 2) == Some(req_id)
        },
        EventView::PositionEnd => {
            &&& raw.len() >= 2
        },
        EventView::VerifyMessageApi { api_data } => {
            &&& raw.len() >= 3
            &&& api_data == raw[2]
        },
        EventView::DisplayGroupList { req_id, groups } => {
            &&& raw.len() >= 4
            &&& int_at(raw, 2) == Some(req_id)
            &&& groups == raw[3]
        },
        EventView::DisplayGroupUpdated { req_id, contract_info } => {
            &&& raw.len() >= 4
            &&& int_at(raw, 2) == Some(req_id)
            &&& contract_info == raw[3]
        },
        EventView::PositionMultiEnd { req_id } => {
            &&& raw.len() >= 3
            &&& int_at(raw, 2) == Some(req_id)
        },
        EventView::AccountUpdateMultiEnd { req_id } => {
            &&& raw.len() >= 3
            &&& int_at(raw, 2) == Some(req_id)
        },
        EventView::SecurityDefinitionOptionParameterEnd { req_id } => {
            &&& raw.len() >= 2
            &&& int_at(raw, 1) == Some(req_id)
        },
        EventView::NewsArticle { request_id, article_type, article_text } => {
            &&& raw.len() >= 4
            &&& int_at(raw, 1) == Some(request_id)
            &&& int_at(raw, 2) == Some(article_type)
            &&& article_text == raw[3]
        },
        EventView::HeadTimestamp { req_id, head_timestamp } => {
            &&& raw.len() >= 3
            &&& int_at(raw, 1) == Some(req_id)
            &&& head_timestamp == raw[2]
        },
        EventView::RerouteMktDataReq { req_id, con_id, exchange } => {
            &&& raw.len() >= 4
            &&& int_at(raw, 1) == Some(req_id)
            &&& int_at(raw, 2) == Some(con_id)
            &&& exchange == raw[3]
        },
        EventView::RerouteMktDepthReq { req_id, con_id, exchange } => {
            &&& raw.len() >= 4
            &&& int_at(raw, 1) == Some(req_id)
            &&& int_at(raw, 2) == Some(con_id)
            &&& exchange == raw[3]
        },
        EventView::Pnl { req_id, daily_pnl, unrealized_pnl, realized_pnl } => {
            &&& raw.len() >= 5
            &&& int_at(raw, 1) == Some(req_id)
            &&& dec_at(raw, 2) == Some(daily_pnl)
            &&& dec_at(raw, 3) == Some(unrealized_pnl)
            &&& dec_at(raw, 4) == Some(realized_pnl)
        },
        EventView::OrderBound { req_id, api_client_id, api_order_id } => {
            &&& raw.len() >= 4
            &&& int_at(raw, 1) == Some(req_id)
            &&& int_at(raw, 2) == Some(api_client_id)
            &&& int_at(raw, 3) == Some(api_order_id)
        },
        EventView::CompletedOrdersEnd => {
            &&& raw.len() >= 2
        },
    }
}

/// A message with a known tag reads as at most one event: the decoded
/// event is fully determined by the message's fields.
pub proof fn decoding_is_exact(raw: Seq<Seq<u8>>, v: u64, e1: EventView, e2: EventView)
    requires
        decodes_to(raw, v, e1),
        decodes_to(raw, v, e2),
    ensures
        e1 == e2,
{
    if let EventView::SecurityDefinitionOptionParameter {
        expirations: x1,
        strikes: s1,
        ..
    } = e1 {
        if let EventView::SecurityDefinitionOptionParameter {
            expirations: x2,
            strikes: s2,
            ..
        } = e2 {
            assert(x1.len() == x2.len());
            assert(x1 =~= x2) by {
                assert forall|i: int| 0 <= i < x1.len() implies x1[i] == x2[i] by {
                    assert(x1[i] == raw[7 + i]);
                    assert(x2[i] == raw[7 + i]);
                }
            }
            assert(s1 =~= s2) by {
                assert forall|i: int| 0 <= i < s1.len() implies s1[i] == s2[i] by {
                    assert(dec_at(raw, 8 + x1.len() + i) == Some(s1[i]));
                    assert(dec_at(raw, 8 + x2.len() + i) == Some(s2[i]));
                }
            }
        }
    }
}

fn int_field(raw: &Vec<Vec<u8>>, i: usize) -> (r: Option<i64>)
    ensures
        r == int_at(fields_view(raw@), i as int),
{
    if i < raw.len() {
        parse_i64(&raw[i])
    } else {
        None
    }
}

fn dec_field(raw: &Vec<Vec<u8>>, i: usize) -> (r: Option<Decimal>)
    ensures
        r == dec_at(fields_view(raw@), i as int),
{
    if i < raw.len() {
        parse_decimal(&raw[i])
    } else {
        None
    }
}

fn text_field(raw: &Vec<Vec<u8>>, i: usize) -> (r: Vec<u8>)
    requires
        i < raw.len(),
    ensures
        r@ == fields_view(raw@)[i as int],
{
    crate::text::copy_bytes(&raw[i])
}

/// What a reader of one tag owes: the event the message says, or
/// `MalformedField` exactly when the message says none.
pub open spec fn read_result(raw: Seq<Seq<u8>>, v: u64, r: Result<Event, InterpretError>) -> bool {
    match r {
        Ok(e) => decodes_to(raw, v, e@),
        Err(err) => err == InterpretError::MalformedField && forall|e: EventView|
            !decodes_to(raw, v, e),
    }
}

fn read_tick_price(raw: &Vec<Vec<u8>>, v: u64) -> (r: Result<Event, InterpretError>)
    requires
        tag_of(fields_view(raw@)) == Some(TICK_PRICE),
    ensures
        read_result(fields_view(raw@), v, r),
{
    if raw.len() < 6 {
        return Err(InterpretError::MalformedField);
    }
    let req_id = match int_field(raw, 2) {
        Some(x) => x,
        None => return Err(InterpretError::MalformedField),
    };
    let tick_type = match int_field(raw, 3) {
        Some(x) => x,
        None => return Err(InterpretError::MalformedField),
    };
    let price = match dec_field(raw, 4) {
        Some(x) => x,
        None => return Err(InterpretError::MalformedField),
    };
    let size = match dec_field(raw, 5) {
        Some(x) => x,
        None => return Err(InterpretError::MalformedField),
    };
    let attrib = if v >= MIN_VERSION_TICK_ATTRIB && raw.len() > 6 {
        match int_field(raw, 6) {
            Some(x) => x,
            None => return Err(InterpretError::MalformedField),
        }
    } else {
        0
    };
    Ok(Event::TickPrice { req_id, tick_type, price, size, attrib })
}

fn read_tick_size(raw: &Vec<Vec<u8>>, v: u64) -> (r: Result<Event, InterpretError>)
    requires
        tag_of(fields_view(raw@)) == Some(TICK_SIZE),
    ensures
        read_result(fields_view(raw@), v, r),
{
    if raw.len() < 5 {
        return Err(InterpretError::MalformedField);
    }
    let req_id = match int_field(raw, 2) {
        Some(x) => x,
        None => return Err(InterpretError::MalformedField),
    };
    let tick_type = match int_field(raw, 3) {
        Some(x) => x,
        None => return Err(InterpretError::MalformedField),
    };
    let size = match dec_field(raw, 4) {
        Some(x) => x,
        None => return Err(InterpretError::MalformedField),
    };
    Ok(Event::TickSize { req_id, tick_type, size })
}

fn read_tick_string(raw: &Vec<Vec<u8>>, v: u64) -> (r: Result<Event, InterpretError>)
    requires
        tag_of(fields_view(raw@)) == Some(TICK_STRING),
    ensures
        read_result(fields_view(raw@), v, r),
{
    if raw.len() < 5 {
        return Err(InterpretError::MalformedField);
    }
    let req_id = match int_field(raw, 2) {
        Some(x) => x,
        None => return Err(InterpretError::MalformedField),
    };
    let tick_type = match int_field(raw, 3) {
        Some(x) => x,
        None => return Err(InterpretError::MalformedField),
    };
    let value = text_field(raw, 4);
    Ok(Event::TickString { req_id, tick_type, value })
}

fn read_order_status(raw: &Vec<Vec<u8>>, v: u64) -> (r: Result<Event, InterpretError>)
    requires
        tag_of(fields_view(raw@)) == Some(ORDER_STATUS),
    ensures
        read_result(fields_view(raw@), v, r),
{
    if raw.len() < 12 {
        return Err(InterpretError::MalformedField);
    }
    let order_id = match int_field(raw, 2) {
        Some(x) => x,
        None => return Err(InterpretError::MalformedField),
    };
    let status = text_field(raw, 3);
    let filled = match dec_field(raw, 4) {
        Some(x) => x,
        None => return Err(InterpretError::MalformedField),
    };
    let remaining = match dec_field(raw, 5) {
        Some(x) => x,
        None => return Err(InterpretError::MalformedField),
    };
    let avg_fill_price = match dec_field(raw, 6) {
        Some(x) => x,
        None => return Err(InterpretError::MalformedField),
    };
    let perm_id = match int_field(raw, 7) {
        Some(x) => x,
        None => return Err(InterpretError::MalformedField),
    };
    let parent_id = match int_field(raw, 8) {
        Some(x) => x,
        None => return Err(InterpretError::MalformedField),
    };
    let last_fill_price = match dec_field(raw, 9) {
        Some(x) => x,
        None => return Err(InterpretError::MalformedField),
    };
    let client_id = match int_field(raw, 10) {
        Some(x) => x,
        None => return Err(InterpretError::MalformedField),
    };
    let why_held = text_field(raw, 11);
    let mkt_cap_price = if v >= MIN_VERSION_MKT_CAP_PRICE && raw.len() > 12 {
        match dec_field(raw, 12) {
            Some(x) => x,
            None => return Err(InterpretError::MalformedField),
        }
    } else {
        Decimal::Unset
    };
    Ok(
        Event::OrderStatus {
            order_id,
            status,
            filled,
            remaining,
            avg_fill_price,
            perm_id,
            parent_id,
            last_fill_price,
            client_id,
            why_held,
            mkt_cap_price,
        },
    )
}

fn read_error(raw: &Vec<Vec<u8>>, v: u64) -> (r: Result<Event, InterpretError>)
    requires
        tag_of(fields_view(raw@)) == Some(ERR_MSG),
    ensures
        read_result(fields_view(raw@), v, r),
{
    if raw.len() < 5 {
        return Err(InterpretError::MalformedField);
    }
    let req_id = match int_field(raw, 2) {
        Some(x) => x,
        None => return Err(InterpretError::MalformedField),
    };
    let code = match int_field(raw, 3) {
        Some(x) => x,
        None => return Err(InterpretError::MalformedField),
    };
    let text = text_field(raw, 4);
    let advanced_reject = if v >= MIN_VERSION_ADVANCED_REJECT && raw.len() > 5 {
        text_field(raw, 5)
    } else {
        Vec::new()
    };
    proof {
        let ghost allowed = v >= MIN_VERSION_ADVANCED_REJECT;
        assert(advanced_reject@ =~= opt_text_at(fields_view(raw@), 5, allowed));
    }
    Ok(Event::Error { req_id, code, text, advanced_reject })
}

/// Reads a message whose only payload is one integer at field `i`.
fn read_single_int(raw: &Vec<Vec<u8>>, i: usize) -> (r: Option<i64>)
    ensures
        r == (if raw.len() > i {
            int_at(fields_view(raw@), i as int)
        } else {
            None
        }),
{
    if raw.len() <= i {
        return None;
    }
    int_field(raw, i)
}

fn read_historical_data(raw: &Vec<Vec<u8>>, v: u64) -> (r: Result<Event, InterpretError>)
    requires
        tag_of(fields_view(raw@)) == Some(HISTORICAL_DATA),
    ensures
        read_result(fields_view(raw@), v, r),
{
    if raw.len() < 10 {
        return Err(InterpretError::MalformedField);
    }
    let req_id = match int_field(raw, 1) {
        Some(x) => x,
        None => return Err(InterpretError::MalformedField),
    };
    let date = text_field(raw, 2);
    let open = match dec_field(raw, 3) {
        Some(x) => x,
        None => return Err(InterpretError::MalformedField),
    };
    let high = match dec_field(raw, 4) {
        Some(x) => x,
        None => return Err(InterpretError::MalformedField),
    };
    let low = match dec_field(raw, 5) {
        Some(x) => x,
        None => return Err(InterpretError::MalformedField),
    };
    let close = match dec_field(raw, 6) {
        Some(x) => x,
        None => return Err(InterpretError::MalformedField),
    };
    let volume = match dec_field(raw, 7) {
        Some(x) => x,
        None => return Err(InterpretError::MalformedField),
    };
    let wap = match dec_field(raw, 8) {
        Some(x) => x,
        None => return Err(InterpretError::MalformedField),
    };
    let bar_count = match int_field(raw, 9) {
        Some(x) => x,
        None => return Err(InterpretError::MalformedField),
    };
    Ok(Event::HistoricalData { req_id, date, open, high, low, close, volume, wap, bar_count })
}

fn read_historical_data_end(raw: &Vec<Vec<u8>>, v: u64) -> (r: Result<Event, InterpretError>)
    requires
        tag_of(fields_view(raw@)) == Some(HISTORICAL_DATA_END),
    ensures
        read_result(fields_view(raw@), v, r),
{
    if raw.len() < 4 {
        return Err(InterpretError::MalformedField);
    }
    let req_id = match int_field(raw, 1) {
        Some(x) => x,
        None => return Err(InterpretError::MalformedField),
    };
    let start = text_field(raw, 2);
    let end = text_field(raw, 3);
    Ok(Event::HistoricalDataEnd { req_id, start, end })
}

fn read_account_summary(raw: &Vec<Vec<u8>>, v: u64) -> (r: Result<Event, InterpretError>)
    requires
        tag_of(fields_view(raw@)) == Some(ACCOUNT_SUMMARY),
    ensures
        read_result(fields_view(raw@), v, r),
{
    if raw.len() < 7 {
        return Err(InterpretError::MalformedField);
    }
    let req_id = match int_field(raw, 2) {
        Some(x) => x,
        None => return Err(InterpretError::MalformedField),
    };
    let account = text_field(raw, 3);
    let tag = text_field(raw, 4);
    let value = text_field(raw, 5);
    let currency = text_field(raw, 6);
    Ok(Event::AccountSummary { req_id, account, tag, value, currency })
}

fn read_tick_option_computation(raw: &Vec<Vec<u8>>, v: u64) -> (r: Result<Event, InterpretError>)
    requires
        tag_of(fields_view(raw@)) == Some(TICK_OPTION_COMPUTATION),
    ensures
        read_result(fields_view(raw@), v, r),
{
    if raw.len() < 12 {
        return Err(InterpretError::MalformedField);
    }
    let req_id = match int_field(raw, 2) {
        Some(x) => x,
        None => return Err(InterpretError::MalformedField),
    };
    let tick_type = match int_field(raw, 3) {
        Some(x) => x,
        None => return Err(InterpretError::MalformedField),
    };
    let implied_vol = match dec_field(raw, 4) {
        Some(x) => x,
        None => return Err(InterpretError::MalformedField),
    };
    let delta = match dec_field(raw, 5) {
        Some(x) => x,
        None => return Err(InterpretError::MalformedField),
    };
    let opt_price = match dec_field(raw, 6) {
        Some(x) => x,
        None => return Err(InterpretError::MalformedField),
    };
    let pv_dividend = match dec_field(raw, 7) {
        Some(x) => x,
        None => return Err(InterpretError::MalformedField),
    };
    let gamma = match dec_field(raw, 8) {
        Some(x) => x,
        None => return Err(InterpretError::MalformedField),
    };
    let vega = match dec_field(raw, 9) {
        Some(x) => x,
        None => return Err(InterpretError::MalformedField),
    };
    let theta = match dec_field(raw, 10) {
        Some(x) => x,
        None => return Err(InterpretError::MalformedField),
    };
    let und_price = match dec_field(raw, 11) {
        Some(x) => x,
        None => return Err(InterpretError::MalformedField),
    };
    Ok(
        Event::TickOptionComputation {
            req_id,
            tick_type,
            implied_vol,
            delta,
            opt_price,
            pv_dividend,
            gamma,
            vega,
            theta,
            und_price,
        },
    )
}

fn read_tick_efp(raw: &Vec<Vec<u8>>, v: u64) -> (r: Result<Event, InterpretError>)
    requires
        tag_of(fields_view(raw@)) == Some(TICK_EFP),
    ensures
        read_result(fields_view(raw@), v, r),
{
    if raw.len() < 11 {
        return Err(InterpretError::MalformedField);
    }
    let req_id = match int_field(raw, 2) {
        Some(x) => x,
        None => return Err(InterpretError::MalformedField),
    };
    let tick_type = match int_field(raw, 3) {
        Some(x) => x,
        None => return Err(InterpretError::MalformedField),
    };
    let basis_points = match dec_field(raw, 4) {
        Some(x) => x,
        None => return Err(InterpretError::MalformedField),
    };
    let formatted_basis_points = text_field(raw, 5);
    let total_dividends = match dec_field(raw, 6) {
        Some(x) => x,
        None => return Err(InterpretError::MalformedField),
    };
    let hold_days = match int_field(raw, 7) {
        Some(x) => x,
        None => return Err(InterpretError::MalformedField),
    };
    let future_last_trade_date = text_field(raw, 8);
    let dividend_impact = match dec_field(raw, 9) {
        Some(x) => x,
        None => return Err(InterpretError::MalformedField),
    };
    let dividends_to_last_trade_date = match dec_field(raw, 10) {
        Some(x) => x,
        None => return Err(InterpretError::MalformedField),
    };
    Ok(
        Event::TickEfp {
            req_id,
            tick_type,
            basis_points,
            formatted_basis_points,
            total_dividends,
            hold_days,
            future_last_trade_date,
            dividend_impact,
            dividends_to_last_trade_date,
        },
    )
}

fn read_tick_generic(raw: &Vec<Vec<u8>>, v: u64) -> (r: Result<Event, InterpretError>)
    requires
        tag_of(fields_view(raw@)) == Some(TICK_GENERIC),
    ensures
        read_result(fields_view(raw@), v, r),
{
    if raw.len() < 5 {
        return Err(InterpretError::MalformedField);
    }
    let req_id = match int_field(raw, 2) {
        Some(x) => x,
        None => return Err(InterpretError::MalformedField),
    };
    let tick_type = match int_field(raw, 3) {
        Some(x) => x,
        None => return Err(InterpretError::MalformedField),
    };
    let value = match dec_field(raw, 4) {
        Some(x) => x,
        None => return Err(InterpretError::MalformedField),
    };
    Ok(Event::TickGeneric { req_id, tick_type, value })
}

fn read_tick_snapshot_end(raw: &Vec<Vec<u8>>, v: u64) -> (r: Result<Event, InterpretError>)
    requires
        tag_of(fields_view(raw@)) == Some(TICK_SNAPSHOT_END),
    ensures
        read_result(fields_view(raw@), v, r),
{
    if raw.len() < 3 {
        return Err(InterpretError::MalformedField);
    }
    let req_id = match int_field(raw, 2) {
        Some(x) => x,
        None => return Err(InterpretError::MalformedField),
    };
    Ok(Event::TickSnapshotEnd { req_id })
}

fn read_market_data_type(raw: &Vec<Vec<u8>>, v: u64) -> (r: Result<Event, InterpretError>)
    requires
        tag_of(fields_view(raw@)) == Some(MARKET_DATA_TYPE),
    ensures
        read_result(fields_view(raw@), v, r),
{
    if raw.len() < 4 {
        return Err(InterpretError::MalformedField);
    }
    let req_id = match int_field(raw, 2) {
        Some(x) => x,
        None => return Err(InterpretError::MalformedField),
    };
    let market_data_type = match int_field(raw, 3) {
        Some(x) => x,
        None => return Err(InterpretError::MalformedField),
    };
    Ok(Event::MarketDataType { req_id, market_data_type })
}

fn read_tick_req_params(raw: &Vec<Vec<u8>>, v: u64) -> (r: Result<Event, InterpretError>)
    requires
        tag_of(fields_view(raw@)) == Some(TICK_REQ_PARAMS),
    ensures
        read_result(fields_view(raw@), v, r),
{
    if raw.len() < 5 {
        return Err(InterpretError::MalformedField);
    }
    let req_id = match int_field(raw, 1) {
        Some(x) => x,
        None => return Err(InterpretError::MalformedField),
    };
    let min_tick = match dec_field(raw, 2) {
        Some(x) => x,
        None => return Err(InterpretError::MalformedField),
    };
    let bbo_exchange = text_field(raw, 3);
    let snapshot_permissions = match int_field(raw, 4) {
        Some(x) => x,
        None => return Err(InterpretError::MalformedField),
    };
    Ok(Event::TickReqParams { req_id, min_tick, bbo_exchange, snapshot_permissions })
}

fn read_realtime_bar(raw: &Vec<Vec<u8>>, v: u64) -> (r: Result<Event, InterpretError>)
    requires
        tag_of(fields_view(raw@)) == Some(REAL_TIME_BARS),
    ensures
        read_result(fields_view(raw@), v, r),
{
    if raw.len() < 11 {
        return Err(InterpretError::MalformedField);
    }
    let req_id = match int_field(raw, 2) {
        Some(x) => x,
        None => return Err(InterpretError::MalformedField),
    };
    let time = match int_field(raw, 3) {
        Some(x) => x,
        None => return Err(InterpretError::MalformedField),
    };
    let open = match dec_field(raw, 4) {
        Some(x) => x,
        None => return Err(InterpretError::MalformedField),
    };
    let high = match dec_field(raw, 5) {
        Some(x) => x,
        None => return Err(InterpretError::MalformedField),
    };
    let low = match dec_field(raw, 6) {
        Some(x) => x,
        None => return Err(InterpretError::MalformedField),
    };
    let close = match dec_field(raw, 7) {
        Some(x) => x,
        None => return Err(InterpretError::MalformedField),
    };
    let volume = match dec_field(raw, 8) {
        Some(x) => x,
        None => return Err(InterpretError::MalformedField),
    };
    let wap = match dec_field(raw, 9) {
        Some(x) => x,
        None => return Err(InterpretError::MalformedField),
    };
    let count = match int_field(raw, 10) {
        Some(x) => x,
        None => return Err(InterpretError::MalformedField),
    };
    Ok(Event::RealtimeBar { req_id, time, open, high, low, close, volume, wap, count })
}

fn read_update_mkt_depth(raw: &Vec<Vec<u8>>, v: u64) -> (r: Result<Event, InterpretError>)
    requires
        tag_of(fields_view(raw@)) == Some(MARKET_DEPTH),
    ensures
        read_result(fields_view(raw@), v, r),
{
    if raw.len() < 8 {
        return Err(InterpretError::MalformedField);
    }
    let req_id = match int_field(raw, 2) {
        Some(x) => x,
        None => return Err(InterpretError::MalformedField),
    };
    let position = match int_field(raw, 3) {
        Some(x) => x,
        None => return Err(InterpretError::MalformedField),
    };
    let operation = match int_field(raw, 4) {
        Some(x) => x,
        None => return Err(InterpretError::MalformedField),
    };
    let side = match int_field(raw, 5) {
        Some(x) => x,
        None => return Err(InterpretError::MalformedField),
    };
    let price = match dec_field(raw, 6) {
        Some(x) => x,
        None => return Err(InterpretError::MalformedField),
    };
    let size = match dec_field(raw, 7) {
        Some(x) => x,
        None => return Err(InterpretError::MalformedField),
    };
    Ok(Event::UpdateMktDepth { req_id, position, operation, side, price, size })
}

fn read_update_account_value(raw: &Vec<Vec<u8>>, v: u64) -> (r: Result<Event, InterpretError>)
    requires
        tag_of(fields_view(raw@)) == Some(ACCT_VALUE),
    ensures
        read_result(fields_view(raw@), v, r),
{
    if raw.len() < 6 {
        return Err(InterpretError::MalformedField);
    }
    let key = text_field(raw, 2);
    let val = text_field(raw, 3);
    let currency = text_field(raw, 4);
    let account_name = text_field(raw, 5);
    Ok(Event::UpdateAccountValue { key, val, currency, account_name })
}

fn read_update_account_time(raw: &Vec<Vec<u8>>, v: u64) -> (r: Result<Event, InterpretError>)
    requires
        tag_of(fields_view(raw@)) == Some(ACCT_UPDATE_TIME),
    ensures
        read_result(fields_view(raw@), v, r),
{
    if raw.len() < 3 {
        return Err(InterpretError::MalformedField);
    }
    let time_stamp = text_field(raw, 2);
    Ok(Event::UpdateAccountTime { time_stamp })
}

fn read_account_download_end(raw: &Vec<Vec<u8>>, v: u64) -> (r: Result<Event, InterpretError>)
    requires
        tag_of(fields_view(raw@)) == Some(ACCT_DOWNLOAD_END),
    ensures
        read_result(fields_view(raw@), v, r),
{
    if raw.len() < 3 {
        return Err(InterpretError::MalformedField);
    }
    let account_name = text_field(raw, 2);
    Ok(Event::AccountDownloadEnd { account_name })
}

fn read_update_news_bulletin(raw: &Vec<Vec<u8>>, v: u64) -> (r: Result<Event, InterpretError>)
    requires
        tag_of(fields_view(raw@)) == Some(NEWS_BULLETINS),
    ensures
        read_result(fields_view(raw@), v, r),
{
    if raw.len() < 6 {
        return Err(InterpretError::MalformedField);
    }
    let msg_id = match int_field(raw, 2) {
        Some(x) => x,
        None => return Err(InterpretError::MalformedField),
    };
    let msg_type = match int_field(raw, 3) {
        Some(x) => x,
        None => return Err(InterpretError::MalformedField),
    };
    let news_message = text_field(raw, 4);
    let origin_exchange = text_field(raw, 5);
    Ok(Event::UpdateNewsBulletin { msg_id, msg_type, news_message, origin_exchange })
}

fn read_managed_accounts(raw: &Vec<Vec<u8>>, v: u64) -> (r: Result<Event, InterpretError>)
    requires
        tag_of(fields_view(raw@)) == Some(MANAGED_ACCTS),
    ensures
        read_result(fields_view(raw@), v, r),
{
    if raw.len() < 3 {
        return Err(InterpretError::MalformedField);
    }
    let accounts_list = text_field(raw, 2);
    Ok(Event::ManagedAccounts { accounts_list })
}

fn read_receive_fa(raw: &Vec<Vec<u8>>, v: u64) -> (r: Result<Event, InterpretError>)
    requires
        tag_of(fields_view(raw@)) == Some(RECEIVE_FA),
    ensures
        read_result(fields_view(raw@), v, r),
{
    if raw.len() < 4 {
        return Err(InterpretError::MalformedField);
    }
    let fa_data_type = match int_field(raw, 2) {
        Some(x) => x,
        None => return Err(InterpretError::MalformedField),
    };
    let cxml = text_field(raw, 3);
    Ok(Event::ReceiveFa { fa_data_type, cxml })
}

fn read_scanner_parameters(raw: &Vec<Vec<u8>>, v: u64) -> (r: Result<Event, InterpretError>)
    requires
        tag_of(fields_view(raw@)) == Some(SCANNER_PARAMETERS),
    ensures
        read_result(fields_view(raw@), v, r),
{
    if raw.len() < 3 {
        return Err(InterpretError::MalformedField);
    }
    let xml = text_field(raw, 2);
    Ok(Event::ScannerParameters { xml })
}

fn read_fundamental_data(raw: &Vec<Vec<u8>>, v: u64) -> (r: Result<Event, InterpretError>)
    requires
        tag_of(fields_view(raw@)) == Some(FUNDAMENTAL_DATA),
    ensures
        read_result(fields_view(raw@), v, r),
{
    if raw.len() < 4 {
        return Err(InterpretError::MalformedField);
    }
    let req_id = match int_field(raw, 2) {
        Some(x) => x,
        None => return Err(InterpretError::MalformedField),
    };
    let data = text_field(raw, 3);
    Ok(Event::FundamentalData { req_id, data })
}

fn read_contract_details_end(raw: &Vec<Vec<u8>>, v: u64) -> (r: Result<Event, InterpretError>)
    requires
        tag_of(fields_view(raw@)) == Some(CONTRACT_DATA_END),
    ensures
        read_result(fields_view(raw@), v, r),
{
    if raw.len() < 3 {
        return Err(InterpretError::MalformedField);
    }
    let req_id = match int_field(raw, 2) {
        Some(x) => x,
        None => return Err(InterpretError::MalformedField),
    };
    Ok(Event::ContractDetailsEnd { req_id })
}

fn read_open_order_end(raw: &Vec<Vec<u8>>, v: u64) -> (r: Result<Event, InterpretError>)
    requires
        tag_of(fields_view(raw@)) == Some(OPEN_ORDER_END),
    ensures
        read_result(fields_view(raw@), v, r),
{
    if raw.len() < 2 {
        return Err(InterpretError::MalformedField);
    }
    Ok(Event::OpenOrderEnd)
}

fn read_exec_details_end(raw: &Vec<Vec<u8>>, v: u64) -> (r: Result<Event, InterpretError>)
    requires
        tag_of(fields_view(raw@)) == Some(EXECUTION_DATA_END),
    ensures
        read_result(fields_view(raw@), v, r),
{
    if raw.len() < 3 {
        return Err(InterpretError::MalformedField);
    }
    let req_id = match int_field(raw, 2) {
        Some(x) => x,
        None => return Err(InterpretError::MalformedField),
    };
    Ok(Event::ExecDetailsEnd { req_id })
}

fn read_position_end(raw: &Vec<Vec<u8>>, v: u64) -> (r: Result<Event, InterpretError>)
    requires
        tag_of(fields_view(raw@)) == Some(POSITION_END),
    ensures
        read_result(fields_view(raw@), v, r),
{
    if raw.len() < 2 {
        return Err(InterpretError::MalformedField);
    }
    Ok(Event::PositionEnd)
}

fn read_verify_message_api(raw: &Vec<Vec<u8>>, v: u64) -> (r: Result<Event, InterpretError>)
    requires
        tag_of(fields_view(raw@)) == Some(VERIFY_MESSAGE_API),
    ensures
        read_result(fields_view(raw@), v, r),
{
    if raw.len() < 3 {
        return Err(InterpretError::MalformedField);
    }
    let api_data = text_field(raw, 2);
    Ok(Event::VerifyMessageApi { api_data })
}

fn read_display_group_list(raw: &Vec<Vec<u8>>, v: u64) -> (r: Result<Event, InterpretError>)
    requires
        tag_of(fields_view(raw@)) == Some(DISPLAY_GROUP_LIST),
    ensures
        read_result(fields_view(raw@), v, r),
{
    if raw.len() < 4 {
        return Err(InterpretError::MalformedField);
    }
    let req_id = match int_field(raw, 2) {
        Some(x) => x,
        None => return Err(InterpretError::MalformedField),
    };
    let groups = text_field(raw, 3);
    Ok(Event::DisplayGroupList { req_id, groups })
}

fn read_display_group_updated(raw: &Vec<Vec<u8>>, v: u64) -> (r: Result<Event, InterpretError>)
    requires
        tag_of(fields_view(raw@)) == Some(DISPLAY_GROUP_UPDATED),
    ensures
        read_result(fields_view(raw@), v, r),
{
    if raw.len() < 4 {
        return Err(InterpretError::MalformedField);
    }
    let req_id = match int_field(raw, 2) {
        Some(x) => x,
        None => return Err(InterpretError::MalformedField),
    };
    let contract_info = text_field(raw, 3);
    Ok(Event::DisplayGroupUpdated { req_id, contract_info })
}

fn read_position_multi_end(raw: &Vec<Vec<u8>>, v: u64) -> (r: Result<Event, InterpretError>)
    requires
        tag_of(fields_view(raw@)) == Some(POSITION_MULTI_END),
    ensures
        read_result(fields_view(raw@), v, r),
{
    if raw.len() < 3 {
        return Err(InterpretError::MalformedField);
    }
    let req_id = match int_field(raw, 2) {
        Some(x) => x,
        None => return Err(InterpretError::MalformedField),
    };
    Ok(Event::PositionMultiEnd { req_id })
}

fn read_account_update_multi_end(raw: &Vec<Vec<u8>>, v: u64) -> (r: Result<Event, InterpretError>)
    requires
        tag_of(fields_view(raw@)) == Some(ACCOUNT_UPDATE_MULTI_END),
    ensures
        read_result(fields_view(raw@), v, r),
{
    if raw.len() < 3 {
        return Err(InterpretError::MalformedField);
    }
    let req_id = match int_field(raw, 2) {
        Some(x) => x,
        None => return Err(InterpretError::MalformedField),
    };
    Ok(Event::AccountUpdateMultiEnd { req_id })
}

fn read_security_definition_option_parameter_end(
    raw: &Vec<Vec<u8>>,
    v: u64,
) -> (r: Result<Event, InterpretError>)
    requires
        tag_of(fields_view(raw@)) == Some(SECURITY_DEFINITION_OPTION_PARAMETER_END),
    ensures
        read_result(fields_view(raw@), v, r),
{
    if raw.len() < 2 {
        return Err(InterpretError::MalformedField);
    }
    let req_id = match int_field(raw, 1) {
        Some(x) => x,
        None => return Err(InterpretError::MalformedField),
    };
    Ok(Event::SecurityDefinitionOptionParameterEnd { req_id })
}

fn read_news_article(raw: &Vec<Vec<u8>>, v: u64) -> (r: Result<Event, InterpretError>)
    requires
        tag_of(fields_view(raw@)) == Some(NEWS_ARTICLE),
    ensures
        read_result(fields_view(raw@), v, r),
{
    if raw.len() < 4 {
        return Err(InterpretError::MalformedField);
    }
    let request_id = match int_field(raw, 1) {
        Some(x) => x,
        None => return Err(InterpretError::MalformedField),
    };
    let article_type = match int_field(raw, 2) {
        Some(x) => x,
        None => return Err(InterpretError::MalformedField),
    };
    let article_text = text_field(raw, 3);
    Ok(Event::NewsArticle { request_id, article_type, article_text })
}

fn read_head_timestamp(raw: &Vec<Vec<u8>>, v: u64) -> (r: Result<Event, InterpretError>)
    requires
        tag_of(fields_view(raw@)) == Some(HEAD_TIMESTAMP),
    ensures
        read_result(fields_view(raw@), v, r),
{
    if raw.len() < 3 {
        return Err(InterpretError::MalformedField);
    }
    let req_id = match int_field(raw, 1) {
        Some(x) => x,
        None => return Err(InterpretError::MalformedField),
    };
    let head_timestamp = text_field(raw, 2);
    Ok(Event::HeadTimestamp { req_id, head_timestamp })
}

fn read_reroute_mkt_data_req(raw: &Vec<Vec<u8>>, v: u64) -> (r: Result<Event, InterpretError>)
    requires
        tag_of(fields_view(raw@)) == Some(REROUTE_MKT_DATA_REQ),
    ensures
        read_result(fields_view(raw@), v, r),
{
    if raw.len() < 4 {
        return Err(InterpretError::MalformedField);
    }
    let req_id = match int_field(raw, 1) {
        Some(x) => x,
        None => return Err(InterpretError::MalformedField),
    };
    let con_id = match int_field(raw, 2) {
        Some(x) => x,
        None => return Err(InterpretError::MalformedField),
    };
    let exchange = text_field(raw, 3);
    Ok(Event::RerouteMktDataReq { req_id, con_id, exchange })
}

fn read_reroute_mkt_depth_req(raw: &Vec<Vec<u8>>, v: u64) -> (r: Result<Event, InterpretError>)
    requires
        tag_of(fields_view(raw@)) == Some(REROUTE_MKT_DEPTH_REQ),
    ensures
        read_result(fields_view(raw@), v, r),
{
    if raw.len() < 4 {
        return Err(InterpretError::MalformedField);
    }
    let req_id = match int_field(raw, 1) {
        Some(x) => x,
        None => return Err(InterpretError::MalformedField),
    };
    let con_id = match int_field(raw, 2) {
        Some(x) => x,
        None => return Err(InterpretError::MalformedField),
    };
    let exchange = text_field(raw, 3);
    Ok(Event::RerouteMktDepthReq { req_id, con_id, exchange })
}

fn read_pnl(raw: &Vec<Vec<u8>>, v: u64) -> (r: Result<Event, InterpretError>)
    requires
        tag_of(fields_view(raw@)) == Some(PNL),
    ensures
        read_result(fields_view(raw@), v, r),
{
    if raw.len() < 5 {
        return Err(InterpretError::MalformedField);
    }
    let req_id = match int_field(raw, 1) {
        Some(x) => x,
        None => return Err(InterpretError::MalformedField),
    };
    let daily_pnl = match dec_field(raw, 2) {
        Some(x) => x,
        None => return Err(InterpretError::MalformedField),
    };
    let unrealized_pnl = match dec_field(raw, 3) {
        Some(x) => x,
        None => return Err(InterpretError::MalformedField),
    };
    let realized_pnl = match dec_field(raw, 4) {
        Some(x) => x,
        None => return Err(InterpretError::MalformedField),
    };
    Ok(Event::Pnl { req_id, daily_pnl, unrealized_pnl, realized_pnl })
}

fn read_order_bound(raw: &Vec<Vec<u8>>, v: u64) -> (r: Result<Event, InterpretError>)
    requires
        tag_of(fields_view(raw@)) == Some(ORDER_BOUND),
    ensures
        read_result(fields_view(raw@), v, r),
{
    if raw.len() < 4 {
        return Err(InterpretError::MalformedField);
    }
    let req_id = match int_field(raw, 1) {
        Some(x) => x,
        None => return Err(InterpretError::MalformedField),
    };
    let api_client_id = match int_field(raw, 2) {
        Some(x) => x,
        None => return Err(InterpretError::MalformedField),
    };
    let api_order_id = match int_field(raw, 3) {
        Some(x) => x,
        None => return Err(InterpretError::MalformedField),
    };
    Ok(Event::OrderBound { req_id, api_client_id, api_order_id })
}

fn read_completed_orders_end(raw: &Vec<Vec<u8>>, v: u64) -> (r: Result<Event, InterpretError>)
    requires
        tag_of(fields_view(raw@)) == Some(COMPLETED_ORDERS_END),
    ensures
        read_result(fields_view(raw@), v, r),
{
    if raw.len() < 2 {
        return Err(InterpretError::MalformedField);
    }
    Ok(Event::CompletedOrdersEnd)
}

fn read_update_portfolio(raw: &Vec<Vec<u8>>, v: u64) -> (r: Result<Event, InterpretError>)
    requires
        tag_of(fields_view(raw@)) == Some(PORTFOLIO_VALUE),
    ensures
        read_result(fields_view(raw@), v, r),
{
    if raw.len() < 13 {
        return Err(InterpretError::MalformedField);
    }
    let symbol = text_field(raw, 2);
    let sec_type = text_field(raw, 3);
    let exchange = text_field(raw, 4);
    let currency = text_field(raw, 5);
    let position = match dec_field(raw, 6) {
        Some(x) => x,
        None => return Err(InterpretError::MalformedField),
    };
    let market_price = match dec_field(raw, 7) {
        Some(x) => x,
        None => return Err(InterpretError::MalformedField),
    };
    let market_value = match dec_field(raw, 8) {
        Some(x) => x,
        None => return Err(InterpretError::MalformedField),
    };
    let average_cost = match dec_field(raw, 9) {
        Some(x) => x,
        None => return Err(InterpretError::MalformedField),
    };
    let unrealized_pnl = match dec_field(raw, 10) {
        Some(x) => x,
        None => return Err(InterpretError::MalformedField),
    };
    let realized_pnl = match dec_field(raw, 11) {
        Some(x) => x,
        None => return Err(InterpretError::MalformedField),
    };
    let account_name = text_field(raw, 12);
    Ok(
        Event::UpdatePortfolio {
            symbol,
            sec_type,
            exchange,
            currency,
            position,
            market_price,
            market_value,
            average_cost,
            unrealized_pnl,
            realized_pnl,
            account_name,
        },
    )
}

fn read_position(raw: &Vec<Vec<u8>>, v: u64) -> (r: Result<Event, InterpretError>)
    requires
        tag_of(fields_view(raw@)) == Some(POSITION_DATA),
    ensures
        read_result(fields_view(raw@), v, r),
{
    if raw.len() < 9 {
        return Err(InterpretError::MalformedField);
    }
    let account = text_field(raw, 2);
    let symbol = text_field(raw, 3);
    let sec_type = text_field(raw, 4);
    let exchange = text_field(raw, 5);
    let currency = text_field(raw, 6);
    let position = match dec_field(raw, 7) {
        Some(x) => x,
        None => return Err(InterpretError::MalformedField),
    };
    let avg_cost = match dec_field(raw, 8) {
        Some(x) => x,
        None => return Err(InterpretError::MalformedField),
    };
    Ok(Event::Position { account, symbol, sec_type, exchange, currency, position, avg_cost })
}

/// A count field: an integer from 0 to `limit`.
fn count_field(raw: &Vec<Vec<u8>>, i: usize, limit: usize) -> (r: Option<usize>)
    ensures
        match r {
            Some(c) => count_at(fields_view(raw@), i as int, c as int) && c <= limit,
            None => forall|n: int| 0 <= n <= limit ==> !count_at(fields_view(raw@), i as int, n),
        },
{
    match int_field(raw, i) {
        Some(x) => if x >= 0 && (x as u64) <= (limit as u64) {
            Some(x as usize)
        } else {
            None
        },
        None => None,
    }
}

fn read_security_definition_option_parameter(
    raw: &Vec<Vec<u8>>,
    v: u64,
) -> (r: Result<Event, InterpretError>)
    requires
        tag_of(fields_view(raw@)) == Some(SECURITY_DEFINITION_OPTION_PARAMETER),
    ensures
        read_result(fields_view(raw@), v, r),
{
    let ghost fs = fields_view(raw@);
    if raw.len() < 8 {
        return Err(InterpretError::MalformedField);
    }
    let req_id = match int_field(raw, 1) {
        Some(x) => x,
        None => return Err(InterpretError::MalformedField),
    };
    let exchange = text_field(raw, 2);
    let underlying_con_id = match int_field(raw, 3) {
        Some(x) => x,
        None => return Err(InterpretError::MalformedField),
    };
    let trading_class = text_field(raw, 4);
    let multiplier = text_field(raw, 5);
    let n = match count_field(raw, 6, raw.len() - 8) {
        Some(c) => c,
        None => return Err(InterpretError::MalformedField),
    };
    let mut expirations: Vec<Vec<u8>> = Vec::new();
    let mut i: usize = 0;
    while i < n
        invariant
            i <= n,
            8 + n <= raw.len(),
            fs == fields_view(raw@),
            expirations@.len() == i,
            forall|k: int| 0 <= k < i ==> #[trigger] expirations@[k]@ == fs[7 + k],
        decreases n - i,
    {
        expirations.push(text_field(raw, 7 + i));
        i = i + 1;
    }
    let m = match count_field(raw, 7 + n, raw.len() - 8 - n) {
        Some(c) => c,
        None => return Err(InterpretError::MalformedField),
    };
    let mut strikes: Vec<Decimal> = Vec::new();
    let mut j: usize = 0;
    while j < m
        invariant
            j <= m,
            8 + n + m <= raw.len(),
            fs == fields_view(raw@),
            count_at(fs, 6, n as int),
            count_at(fs, 7 + n, m as int),
            tag_of(fs) == Some(SECURITY_DEFINITION_OPTION_PARAMETER),
            strikes@.len() == j,
            forall|k: int| 0 <= k < j ==> dec_at(fs, 8 + n + k) == Some(#[trigger] strikes@[k]),
        decreases m - j,
    {
        let d = match dec_field(raw, 8 + n + j) {
            Some(d) => d,
            None => {
                proof {
                    assert forall|e: EventView| !decodes_to(fs, v, e) by {
                        if decodes_to(fs, v, e) {
                            if let EventView::SecurityDefinitionOptionParameter {
                                expirations: ex,
                                strikes: st,
                                ..
                            } = e {
                                assert(ex.len() == n);
                                assert(st.len() == m);
                                assert(dec_at(fs, 8 + n + j) == Some(st[j as int]));
                            }
                        }
                    }
                }
                return Err(InterpretError::MalformedField);
            },
        };
        strikes.push(d);
        j = j + 1;
    }
    let e = Event::SecurityDefinitionOptionParameter {
        req_id,
        exchange,
        underlying_con_id,
        trading_class,
        multiplier,
        expirations,
        strikes,
    };
    proof {
        assert(fields_view(expirations@).len() == n);
        assert forall|k: int| 0 <= k < n implies #[trigger] fields_view(expirations@)[k] == fs[7 + k] by {
            assert(expirations@[k]@ == fs[7 + k]);
        }
    }
    Ok(e)
}

/// Reads the event that a message says under protocol version `version`.
pub fn interpret(raw: &Vec<Vec<u8>>, version: u64) -> (r: Result<Event, InterpretError>)
    ensures
        match r {
            Ok(e) => decodes_to(fields_view(raw@), version, e@),
            Err(InterpretError::UnknownTag) => !known_tag(fields_view(raw@)),
            Err(InterpretError::MalformedField) => known_tag(fields_view(raw@)) && forall|e: EventView|
                !decodes_to(fields_view(raw@), version, e),
        },
{
    let tag = match int_field(raw, 0) {
        Some(t) => t,
        None => return Err(InterpretError::UnknownTag),
    };
    if tag == TICK_PRICE {
        read_tick_price(raw, version)
    } else if tag == TICK_SIZE {
        read_tick_size(raw, version)
    } else if tag == TICK_STRING {
        read_tick_string(raw, version)
    } else if tag == ORDER_STATUS {
        read_order_status(raw, version)
    } else if tag == ERR_MSG {
        read_error(raw, version)
    } else if tag == NEXT_VALID_ID {
        match read_single_int(raw, 2) {
            Some(order_id) => Ok(Event::NextValidId { order_id }),
            None => Err(InterpretError::MalformedField),
        }
    } else if tag == HISTORICAL_DATA {
        read_historical_data(raw, version)
    } else if tag == HISTORICAL_DATA_END {
        read_historical_data_end(raw, version)
    } else if tag == CURRENT_TIME {
        match read_single_int(raw, 2) {
            Some(time) => Ok(Event::CurrentTime { time }),
            None => Err(InterpretError::MalformedField),
        }
    } else if tag == ACCOUNT_SUMMARY {
        read_account_summary(raw, version)
    } else if tag == ACCOUNT_SUMMARY_END {
        match read_single_int(raw, 2) {
            Some(req_id) => Ok(Event::AccountSummaryEnd { req_id }),
            None => Err(InterpretError::MalformedField),
        }
    } else if tag == TICK_OPTION_COMPUTATION {
        read_tick_option_computation(raw, version)
    } else if tag == TICK_EFP {
        read_tick_efp(raw, version)
    } else if tag == TICK_GENERIC {
        read_tick_generic(raw, version)
    } else if tag == TICK_SNAPSHOT_END {
        read_tick_snapshot_end(raw, version)
    } else if tag == MARKET_DATA_TYPE {
        read_market_data_type(raw, version)
    } else if tag == TICK_REQ_PARAMS {
        read_tick_req_params(raw, version)
    } else if tag == REAL_TIME_BARS {
        read_realtime_bar(raw, version)
    } else if tag == MARKET_DEPTH {
        read_update_mkt_depth(raw, version)
    } else if tag == ACCT_VALUE {
        read_update_account_value(raw, version)
    } else if tag == ACCT_UPDATE_TIME {
        read_update_account_time(raw, version)
    } else if tag == ACCT_DOWNLOAD_END {
        read_account_download_end(raw, version)
    } else if tag == NEWS_BULLETINS {
        read_update_news_bulletin(raw, version)
    } else if tag == MANAGED_ACCTS {
        read_managed_accounts(raw, version)
    } else if tag == RECEIVE_FA {
        read_receive_fa(raw, version)
    } else if tag == SCANNER_PARAMETERS {
        read_scanner_parameters(raw, version)
    } else if tag == FUNDAMENTAL_DATA {
        read_fundamental_data(raw, version)
    } else if tag == CONTRACT_DATA_END {
        read_contract_details_end(raw, version)
    } else if tag == OPEN_ORDER_END {
        read_open_order_end(raw, version)
    } else if tag == EXECUTION_DATA_END {
        read_exec_details_end(raw, version)
    } else if tag == POSITION_END {
        read_position_end(raw, version)
    } else if tag == VERIFY_MESSAGE_API {
        read_verify_message_api(raw, version)
    } else if tag == DISPLAY_GROUP_LIST {
        read_display_group_list(raw, version)
    } else if tag == DISPLAY_GROUP_UPDATED {
        read_display_group_updated(raw, version)
    } else if tag == POSITION_MULTI_END {
        read_position_multi_end(raw, version)
    } else if tag == ACCOUNT_UPDATE_MULTI_END {
        read_account_update_multi_end(raw, version)
    } else if tag == SECURITY_DEFINITION_OPTION_PARAMETER_END {
        read_security_definition_option_parameter_end(raw, version)
    } else if tag == NEWS_ARTICLE {
        read_news_article(raw, version)
    } else if tag == HEAD_TIMESTAMP {
        read_head_timestamp(raw, version)
    } else if tag == REROUTE_MKT_DATA_REQ {
        read_reroute_mkt_data_req(raw, version)
    } else if tag == REROUTE_MKT_DEPTH_REQ {
        read_reroute_mkt_depth_req(raw, version)
    } else if tag == PNL {
        read_pnl(raw, version)
    } else if tag == ORDER_BOUND {
        read_order_bound(raw, version)
    } else if tag == COMPLETED_ORDERS_END {
        read_completed_orders_end(raw, version)
    } else if tag == PORTFOLIO_VALUE {
        read_update_portfolio(raw, version)
    } else if tag == POSITION_DATA {
        read_position(raw, version)
    } else if tag == SECURITY_DEFINITION_OPTION_PARAMETER {
        read_security_definition_option_parameter(raw, version)
    } else {
        Err(InterpretError::UnknownTag)
    }
}

} // verus!
