use twsapi::client::{Client, ClientError, ConnError, ConnState, Contract, Step};
use twsapi::event::{interpret, Event, InterpretError};
use twsapi::frame::{encode_frame, split_fields, DecodeError, FrameDecoder};
use twsapi::text::{int_to_text, parse_decimal, parse_i64, Decimal};
use twsapi::wrapper::{dispatch, DefaultWrapper, Wrapper};

fn b(s: &str) -> Vec<u8> {
    s.as_bytes().to_vec()
}

fn msg(fields: &[&str]) -> Vec<Vec<u8>> {
    fields.iter().map(|f| b(f)).collect()
}

fn frame(fields: &[&str]) -> Vec<u8> {
    encode_frame(&msg(fields)).unwrap()
}

fn stock() -> Contract {
    Contract { symbol: b("AAPL"), sec_type: b("STK"), exchange: b("SMART"), currency: b("USD") }
}

/// A consumer that records, in order, which operation was called with what.
#[derive(Default)]
struct Recorder {
    calls: Vec<String>,
}

fn text(v: &Vec<u8>) -> String {
    String::from_utf8(v.clone()).unwrap()
}

impl Wrapper for Recorder {
    fn tick_price(&mut self, _c: &mut Client, req_id: i64, tick_type: i64, price: Decimal, size: Decimal, attrib: i64) {
        self.calls.push(format!("tick_price {} {} {:?} {:?} {}", req_id, tick_type, price, size, attrib));
    }
    fn tick_size(&mut self, _c: &mut Client, req_id: i64, tick_type: i64, size: Decimal) {
        self.calls.push(format!("tick_size {} {} {:?}", req_id, tick_type, size));
    }
    fn tick_string(&mut self, _c: &mut Client, req_id: i64, tick_type: i64, value: &Vec<u8>) {
        self.calls.push(format!("tick_string {} {} {}", req_id, tick_type, text(value)));
    }
    fn order_status(
        &mut self,
        _c: &mut Client,
        order_id: i64,
        status: &Vec<u8>,
        _filled: Decimal,
        _remaining: Decimal,
        _avg_fill_price: Decimal,
        _perm_id: i64,
        _parent_id: i64,
        _last_fill_price: Decimal,
        _client_id: i64,
        _why_held: &Vec<u8>,
        _mkt_cap_price: Decimal,
    ) {
        self.calls.push(format!("order_status {} {}", order_id, text(status)));
    }
    fn error(&mut self, _c: &mut Client, req_id: i64, code: i64, t: &Vec<u8>, _a: &Vec<u8>) {
        self.calls.push(format!("error {} {} {}", req_id, code, text(t)));
    }
    fn next_valid_id(&mut self, _c: &mut Client, order_id: i64) {
        self.calls.push(format!("next_valid_id {}", order_id));
    }
    fn historical_data(
        &mut self,
        _c: &mut Client,
        req_id: i64,
        date: &Vec<u8>,
        _open: Decimal,
        _high: Decimal,
        _low: Decimal,
        close: Decimal,
        _volume: Decimal,
        _wap: Decimal,
        _bar_count: i64,
    ) {
        self.calls.push(format!("bar {} {} {:?}", req_id, text(date), close));
    }
    fn historical_data_end(&mut self, _c: &mut Client, req_id: i64, _s: &Vec<u8>, _e: &Vec<u8>) {
        self.calls.push(format!("end {}", req_id));
    }
    fn current_time(&mut self, _c: &mut Client, time: i64) {
        self.calls.push(format!("current_time {}", time));
    }
    fn account_summary(&mut self, c: &mut Client, req_id: i64, _a: &Vec<u8>, tag: &Vec<u8>, _v: &Vec<u8>, _cur: &Vec<u8>) {
        self.calls.push(format!("account_summary {} {}", req_id, text(tag)));
        c.req_current_time().unwrap();
    }
    fn account_summary_end(&mut self, _c: &mut Client, req_id: i64) {
        self.calls.push(format!("account_summary_end {}", req_id));
    }
    fn tick_option_computation(&mut self, _c: &mut Client, req_id: i64, tick_type: i64, implied_vol: Decimal, delta: Decimal, opt_price: Decimal, pv_dividend: Decimal, gamma: Decimal, vega: Decimal, theta: Decimal, und_price: Decimal) {
        self.calls.push(format!("{} {} {} {:?} {:?} {:?} {:?} {:?} {:?} {:?} {:?}", "tick_option_computation", req_id, tick_type, implied_vol, delta, opt_price, pv_dividend, gamma, vega, theta, und_price));
    }
    fn tick_efp(&mut self, _c: &mut Client, req_id: i64, tick_type: i64, basis_points: Decimal, formatted_basis_points: &Vec<u8>, total_dividends: Decimal, hold_days: i64, future_last_trade_date: &Vec<u8>, dividend_impact: Decimal, dividends_to_last_trade_date: Decimal) {
        self.calls.push(format!("{} {} {} {:?} {} {:?} {} {} {:?} {:?}", "tick_efp", req_id, tick_type, basis_points, text(formatted_basis_points), total_dividends, hold_days, text(future_last_trade_date), dividend_impact, dividends_to_last_trade_date));
    }
    fn tick_generic(&mut self, _c: &mut Client, req_id: i64, tick_type: i64, value: Decimal) {
        self.calls.push(format!("{} {} {} {:?}", "tick_generic", req_id, tick_type, value));
    }
    fn tick_snapshot_end(&mut self, _c: &mut Client, req_id: i64) {
        self.calls.push(format!("{} {}", "tick_snapshot_end", req_id));
    }
    fn market_data_type(&mut self, _c: &mut Client, req_id: i64, market_data_type: i64) {
        self.calls.push(format!("{} {} {}", "market_data_type", req_id, market_data_type));
    }
    fn tick_req_params(&mut self, _c: &mut Client, req_id: i64, min_tick: Decimal, bbo_exchange: &Vec<u8>, snapshot_permissions: i64) {
        self.calls.push(format!("{} {} {:?} {} {}", "tick_req_params", req_id, min_tick, text(bbo_exchange), snapshot_permissions));
    }
    fn realtime_bar(&mut self, _c: &mut Client, req_id: i64, time: i64, open: Decimal, high: Decimal, low: Decimal, close: Decimal, volume: Decimal, wap: Decimal, count: i64) {
        self.calls.push(format!("{} {} {} {:?} {:?} {:?} {:?} {:?} {:?} {}", "realtime_bar", req_id, time, open, high, low, close, volume, wap, count));
    }
    fn update_mkt_depth(&mut self, _c: &mut Client, req_id: i64, position: i64, operation: i64, side: i64, price: Decimal, size: Decimal) {
        self.calls.push(format!("{} {} {} {} {} {:?} {:?}", "update_mkt_depth", req_id, position, operation, side, price, size));
    }
    fn update_account_value(&mut self, _c: &mut Client, key: &Vec<u8>, val: &Vec<u8>, currency: &Vec<u8>, account_name: &Vec<u8>) {
        self.calls.push(format!("{} {} {} {} {}", "update_account_value", text(key), text(val), text(currency), text(account_name)));
    }
    fn update_account_time(&mut self, _c: &mut Client, time_stamp: &Vec<u8>) {
        self.calls.push(format!("{} {}", "update_account_time", text(time_stamp)));
    }
    fn account_download_end(&mut self, _c: &mut Client, account_name: &Vec<u8>) {
        self.calls.push(format!("{} {}", "account_download_end", text(account_name)));
    }
    fn update_news_bulletin(&mut self, _c: &mut Client, msg_id: i64, msg_type: i64, news_message: &Vec<u8>, origin_exchange: &Vec<u8>) {
        self.calls.push(format!("{} {} {} {} {}", "update_news_bulletin", msg_id, msg_type, text(news_message), text(origin_exchange)));
    }
    fn managed_accounts(&mut self, _c: &mut Client, accounts_list: &Vec<u8>) {
        self.calls.push(format!("{} {}", "managed_accounts", text(accounts_list)));
    }
    fn receive_fa(&mut self, _c: &mut Client, fa_data_type: i64, cxml: &Vec<u8>) {
        self.calls.push(format!("{} {} {}", "receive_fa", fa_data_type, text(cxml)));
    }
    fn scanner_parameters(&mut self, _c: &mut Client, xml: &Vec<u8>) {
        self.calls.push(format!("{} {}", "scanner_parameters", text(xml)));
    }
    fn fundamental_data(&mut self, _c: &mut Client, req_id: i64, data: &Vec<u8>) {
        self.calls.push(format!("{} {} {}", "fundamental_data", req_id, text(data)));
    }
    fn contract_details_end(&mut self, _c: &mut Client, req_id: i64) {
        self.calls.push(format!("{} {}", "contract_details_end", req_id));
    }
    fn open_order_end(&mut self, _c: &mut Client) {
        self.calls.push(format!("{}", "open_order_end"));
    }
    fn exec_details_end(&mut self, _c: &mut Client, req_id: i64) {
        self.calls.push(format!("{} {}", "exec_details_end", req_id));
    }
    fn position_end(&mut self, _c: &mut Client) {
        self.calls.push(format!("{}", "position_end"));
    }
    fn verify_message_api(&mut self, _c: &mut Client, api_data: &Vec<u8>) {
        self.calls.push(format!("{} {}", "verify_message_api", text(api_data)));
    }
    fn display_group_list(&mut self, _c: &mut Client, req_id: i64, groups: &Vec<u8>) {
        self.calls.push(format!("{} {} {}", "display_group_list", req_id, text(groups)));
    }
    fn display_group_updated(&mut self, _c: &mut Client, req_id: i64, contract_info: &Vec<u8>) {
        self.calls.push(format!("{} {} {}", "display_group_updated", req_id, text(contract_info)));
    }
    fn position_multi_end(&mut self, _c: &mut Client, req_id: i64) {
        self.calls.push(format!("{} {}", "position_multi_end", req_id));
    }
    fn account_update_multi_end(&mut self, _c: &mut Client, req_id: i64) {
        self.calls.push(format!("{} {}", "account_update_multi_end", req_id));
    }
    fn security_definition_option_parameter_end(&mut self, _c: &mut Client, req_id: i64) {
        self.calls.push(format!("{} {}", "security_definition_option_parameter_end", req_id));
    }
    fn news_article(&mut self, _c: &mut Client, request_id: i64, article_type: i64, article_text: &Vec<u8>) {
        self.calls.push(format!("{} {} {} {}", "news_article", request_id, article_type, text(article_text)));
    }
    fn head_timestamp(&mut self, _c: &mut Client, req_id: i64, head_timestamp: &Vec<u8>) {
        self.calls.push(format!("{} {} {}", "head_timestamp", req_id, text(head_timestamp)));
    }
    fn reroute_mkt_data_req(&mut self, _c: &mut Client, req_id: i64, con_id: i64, exchange: &Vec<u8>) {
        self.calls.push(format!("{} {} {} {}", "reroute_mkt_data_req", req_id, con_id, text(exchange)));
    }
    fn reroute_mkt_depth_req(&mut self, _c: &mut Client, req_id: i64, con_id: i64, exchange: &Vec<u8>) {
        self.calls.push(format!("{} {} {} {}", "reroute_mkt_depth_req", req_id, con_id, text(exchange)));
    }
    fn pnl(&mut self, _c: &mut Client, req_id: i64, daily_pnl: Decimal, unrealized_pnl: Decimal, realized_pnl: Decimal) {
        self.calls.push(format!("{} {} {:?} {:?} {:?}", "pnl", req_id, daily_pnl, unrealized_pnl, realized_pnl));
    }
    fn order_bound(&mut self, _c: &mut Client, req_id: i64, api_client_id: i64, api_order_id: i64) {
        self.calls.push(format!("{} {} {} {}", "order_bound", req_id, api_client_id, api_order_id));
    }
    fn completed_orders_end(&mut self, _c: &mut Client) {
        self.calls.push(format!("{}", "completed_orders_end"));
    }
    fn update_portfolio(
        &mut self,
        _c: &mut Client,
        symbol: &Vec<u8>,
        _sec_type: &Vec<u8>,
        _exchange: &Vec<u8>,
        _currency: &Vec<u8>,
        position: Decimal,
        market_price: Decimal,
        _market_value: Decimal,
        _average_cost: Decimal,
        _unrealized_pnl: Decimal,
        _realized_pnl: Decimal,
        account_name: &Vec<u8>,
    ) {
        self.calls.push(format!(
            "update_portfolio {} {:?} {:?} {}",
            text(symbol),
            position,
            market_price,
            text(account_name)
        ));
    }
    fn position(
        &mut self,
        _c: &mut Client,
        account: &Vec<u8>,
        symbol: &Vec<u8>,
        _sec_type: &Vec<u8>,
        _exchange: &Vec<u8>,
        _currency: &Vec<u8>,
        position: Decimal,
        avg_cost: Decimal,
    ) {
        self.calls.push(format!("position {} {} {:?} {:?}", text(account), text(symbol), position, avg_cost));
    }
    fn security_definition_option_parameter(
        &mut self,
        _c: &mut Client,
        req_id: i64,
        exchange: &Vec<u8>,
        underlying_con_id: i64,
        trading_class: &Vec<u8>,
        multiplier: &Vec<u8>,
        expirations: &Vec<Vec<u8>>,
        strikes: &Vec<Decimal>,
    ) {
        let exps: Vec<String> = expirations.iter().map(text).collect();
        self.calls.push(format!(
            "security_definition_option_parameter {} {} {} {} {} {:?} {:?}",
            req_id,
            text(exchange),
            underlying_con_id,
            text(trading_class),
            text(multiplier),
            exps,
            strikes
        ));
    }
    fn connect_ack(&mut self, _c: &mut Client) {
        self.calls.push("connect_ack".to_string());
    }
    fn connection_closed(&mut self, _c: &mut Client) {
        self.calls.push("connection_closed".to_string());
    }
}

fn connected() -> Client {
    let mut c = Client::new();
    c.connect(7).unwrap();
    c.receive_bytes(&frame(&["176", "20240102 10:00:00 EST"]));
    assert_eq!(c.poll(), Step::Connected);
    c.take_outbox();
    c
}

/// Polls until idle, dispatching every step, and returns the steps seen.
fn pump<W: Wrapper>(c: &mut Client, w: &mut W) -> Vec<Step> {
    let mut steps = Vec::new();
    loop {
        let s = c.poll();
        if s == Step::Idle {
            return steps;
        }
        steps.push(s.clone());
        dispatch(w, c, s);
    }
}

#[test]
fn parses_integer_fields() {
    assert_eq!(parse_i64(&b("42")), Some(42));
    assert_eq!(parse_i64(&b("-7")), Some(-7));
    assert_eq!(parse_i64(&b("-9223372036854775808")), Some(i64::MIN));
    assert_eq!(parse_i64(&b("9223372036854775807")), Some(i64::MAX));
    assert_eq!(parse_i64(&b("9223372036854775808")), None);
    assert_eq!(parse_i64(&b("")), None);
    assert_eq!(parse_i64(&b("-")), None);
    assert_eq!(parse_i64(&b("4a")), None);
}

#[test]
fn parses_decimal_fields_keeping_unset_apart_from_zero() {
    assert_eq!(parse_decimal(&b("")), Some(Decimal::Unset));
    assert_eq!(parse_decimal(&b("0")), Some(Decimal::Value { units: 0, scale: 0 }));
    assert_eq!(parse_decimal(&b("1.25")), Some(Decimal::Value { units: 125, scale: 2 }));
    assert_eq!(parse_decimal(&b("-0.5")), Some(Decimal::Value { units: -5, scale: 1 }));
    assert_eq!(parse_decimal(&b("1.")), None);
    assert_eq!(parse_decimal(&b("1.2.3")), None);
    assert_eq!(parse_decimal(&b("abc")), None);
}

#[test]
fn writes_integer_fields() {
    assert_eq!(int_to_text(-120), b("-120"));
    assert_eq!(int_to_text(0), b("0"));
    assert_eq!(int_to_text(i64::MIN), b("-9223372036854775808"));
    for n in [0i64, 5, -5, 1234567, i64::MAX, i64::MIN] {
        assert_eq!(parse_i64(&int_to_text(n)), Some(n));
    }
}

#[test]
fn splits_fields() {
    assert_eq!(split_fields(&b("a\0bc\0")), vec![b("a"), b("bc")]);
    assert_eq!(split_fields(&b("a\0\0c")), vec![b("a"), b(""), b("c")]);
    assert_eq!(split_fields(&b("")), Vec::<Vec<u8>>::new());
}

#[test]
fn encodes_frames() {
    assert_eq!(frame(&["49", "1"]), vec![0, 0, 0, 5, b'4', b'9', 0, b'1', 0]);
    assert_eq!(encode_frame(&vec![vec![b'a', 0, b'b']]), None);
}

#[test]
fn decoder_waits_for_whole_frames() {
    let mut d = FrameDecoder::new();
    let f = frame(&["9", "1", "5"]);
    d.push(&f[..3].to_vec());
    assert_eq!(d.next_frame(), None);
    d.push(&f[3..].to_vec());
    assert_eq!(d.next_frame(), Some(b("9\x001\x005\x00")));
    assert_eq!(d.next_frame(), None);
}

#[test]
fn frames_come_out_in_stream_order_for_any_chunking() {
    let mut stream = Vec::new();
    for i in 0..5 {
        stream.extend(frame(&["17", "42", &format!("bar{}", i)]));
    }
    let whole = {
        let mut d = FrameDecoder::new();
        d.push(&stream);
        let mut out = Vec::new();
        while let Some(p) = d.next_frame() {
            out.push(p);
        }
        out
    };
    assert_eq!(whole.len(), 5);
    for chunk in [1usize, 2, 3, 7, 11] {
        let mut d = FrameDecoder::new();
        let mut out = Vec::new();
        for piece in stream.chunks(chunk) {
            d.push(&piece.to_vec());
            while let Some(p) = d.next_frame() {
                out.push(p);
            }
        }
        assert_eq!(out, whole);
    }
}

#[test]
fn interprets_tick_price_by_version() {
    let raw = msg(&["1", "6", "5", "4", "101.5", "", "3"]);
    assert_eq!(
        interpret(&raw, 150),
        Ok(Event::TickPrice {
            req_id: 5,
            tick_type: 4,
            price: Decimal::Value { units: 1015, scale: 1 },
            size: Decimal::Unset,
            attrib: 3,
        })
    );
    // before the attribute mask existed, the field is not read
    assert_eq!(
        interpret(&raw, 100),
        Ok(Event::TickPrice {
            req_id: 5,
            tick_type: 4,
            price: Decimal::Value { units: 1015, scale: 1 },
            size: Decimal::Unset,
            attrib: 0,
        })
    );
    // the optional field may be absent
    let short = msg(&["1", "6", "5", "4", "101.5", "2"]);
    assert!(matches!(interpret(&short, 150), Ok(Event::TickPrice { attrib: 0, .. })));
}

#[test]
fn interprets_each_known_tag() {
    assert_eq!(
        interpret(&msg(&["2", "6", "5", "8", "300"]), 150),
        Ok(Event::TickSize { req_id: 5, tick_type: 8, size: Decimal::Value { units: 300, scale: 0 } })
    );
    assert_eq!(
        interpret(&msg(&["46", "6", "5", "45", "1700000000"]), 150),
        Ok(Event::TickString { req_id: 5, tick_type: 45, value: b("1700000000") })
    );
    assert_eq!(interpret(&msg(&["9", "1", "1"]), 150), Ok(Event::NextValidId { order_id: 1 }));
    assert_eq!(interpret(&msg(&["49", "1", "1700000000"]), 150), Ok(Event::CurrentTime { time: 1700000000 }));
    assert_eq!(interpret(&msg(&["64", "1", "9"]), 150), Ok(Event::AccountSummaryEnd { req_id: 9 }));
    assert_eq!(
        interpret(&msg(&["63", "1", "9", "DU1", "NetLiquidation", "1000.5", "USD"]), 150),
        Ok(Event::AccountSummary {
            req_id: 9,
            account: b("DU1"),
            tag: b("NetLiquidation"),
            value: b("1000.5"),
            currency: b("USD"),
        })
    );
    assert_eq!(
        interpret(&msg(&["17", "42", "20240102", "1", "2", "0.5", "1.5", "100", "1.2", "7"]), 150),
        Ok(Event::HistoricalData {
            req_id: 42,
            date: b("20240102"),
            open: Decimal::Value { units: 1, scale: 0 },
            high: Decimal::Value { units: 2, scale: 0 },
            low: Decimal::Value { units: 5, scale: 1 },
            close: Decimal::Value { units: 15, scale: 1 },
            volume: Decimal::Value { units: 100, scale: 0 },
            wap: Decimal::Value { units: 12, scale: 1 },
            bar_count: 7,
        })
    );
    assert_eq!(
        interpret(&msg(&["108", "42", "20240101", "20240102"]), 150),
        Ok(Event::HistoricalDataEnd { req_id: 42, start: b("20240101"), end: b("20240102") })
    );
    assert_eq!(
        interpret(&msg(&["4", "2", "-1", "2104", "farm ok", "{}"]), 170),
        Ok(Event::Error { req_id: -1, code: 2104, text: b("farm ok"), advanced_reject: b("{}") })
    );
    assert_eq!(
        interpret(&msg(&["4", "2", "-1", "2104", "farm ok", "{}"]), 150),
        Ok(Event::Error { req_id: -1, code: 2104, text: b("farm ok"), advanced_reject: b("") })
    );
    let status = msg(&["3", "1", "11", "Filled", "100", "0", "10.5", "99", "0", "10.5", "7", "", "12.25"]);
    assert_eq!(
        interpret(&status, 150),
        Ok(Event::OrderStatus {
            order_id: 11,
            status: b("Filled"),
            filled: Decimal::Value { units: 100, scale: 0 },
            remaining: Decimal::Value { units: 0, scale: 0 },
            avg_fill_price: Decimal::Value { units: 105, scale: 1 },
            perm_id: 99,
            parent_id: 0,
            last_fill_price: Decimal::Value { units: 105, scale: 1 },
            client_id: 7,
            why_held: b(""),
            mkt_cap_price: Decimal::Value { units: 1225, scale: 2 },
        })
    );
    assert!(matches!(interpret(&status, 120), Ok(Event::OrderStatus { mkt_cap_price: Decimal::Unset, .. })));
}

#[test]
fn ignores_extra_trailing_fields() {
    assert_eq!(
        interpret(&msg(&["49", "1", "5", "future", "fields"]), 150),
        Ok(Event::CurrentTime { time: 5 })
    );
}

#[test]
fn reports_unknown_tags_and_malformed_fields() {
    assert_eq!(interpret(&msg(&["9999", "1"]), 150), Err(InterpretError::UnknownTag));
    assert_eq!(interpret(&msg(&["x"]), 150), Err(InterpretError::UnknownTag));
    assert_eq!(interpret(&Vec::new(), 150), Err(InterpretError::UnknownTag));
    assert_eq!(interpret(&msg(&["1", "6", "5", "4", "abc", "1"]), 150), Err(InterpretError::MalformedField));
    assert_eq!(interpret(&msg(&["2", "6", "5"]), 150), Err(InterpretError::MalformedField));
    assert_eq!(interpret(&msg(&["1", "6", "5", "4", "1", "1", "z"]), 150), Err(InterpretError::MalformedField));
}

#[test]
fn requests_fail_when_not_connected() {
    let mut c = Client::new();
    assert_eq!(c.req_current_time(), Err(ClientError::NotConnected));
    assert_eq!(c.req_mkt_data(1, &stock()), Err(ClientError::NotConnected));
    assert_eq!(c.next_order_id(), Err(ClientError::NotConnected));
    assert!(c.outbox.is_empty());
    assert!(c.open_requests.is_empty());
}

#[test]
fn connect_sends_the_version_range() {
    let mut c = Client::new();
    let hello = c.connect(3).unwrap();
    let mut want = b("API\0");
    want.extend(vec![0, 0, 0, 10]);
    want.extend(b("v100..176\0"));
    assert_eq!(hello, want);
    assert_eq!(c.state, ConnState::Connecting);
    assert_eq!(c.connect(3), Err(ConnError::Closed));
}

#[test]
fn handshake_accepts_a_supported_version() {
    let mut c = Client::new();
    c.connect(7).unwrap();
    assert_eq!(c.poll(), Step::Idle);
    c.receive_bytes(&frame(&["151", "20240102 10:00:00 EST"]));
    assert_eq!(c.poll(), Step::Connected);
    assert_eq!(c.state, ConnState::Connected);
    assert_eq!(c.server_version, 151);
    assert_eq!(c.take_outbox(), vec![msg(&["71", "2", "7", ""])]);
}

#[test]
fn handshake_rejects_unsupported_or_missing_versions() {
    let mut c = Client::new();
    c.connect(7).unwrap();
    c.receive_bytes(&frame(&["90", "t"]));
    assert_eq!(c.poll(), Step::Refused(ConnError::VersionMismatch));
    assert_eq!(c.state, ConnState::Disconnected);
    assert_eq!(c.poll(), Step::Idle);

    let mut c = Client::new();
    c.connect(7).unwrap();
    c.receive_bytes(&frame(&["v?"]));
    assert_eq!(c.poll(), Step::Refused(ConnError::Refused));
    assert_eq!(c.state, ConnState::Disconnected);
}

#[test]
fn requests_are_queued_in_order() {
    let mut c = connected();
    c.req_mkt_data(5, &stock()).unwrap();
    c.req_current_time().unwrap();
    c.cancel_mkt_data(5).unwrap();
    c.place_order(11, &stock(), &b("BUY"), 100, &b("MKT")).unwrap();
    c.cancel_order(11).unwrap();
    c.req_account_summary(9, &b("All"), &b("NetLiquidation")).unwrap();
    c.cancel_account_summary(9).unwrap();
    assert_eq!(
        c.take_outbox(),
        vec![
            msg(&["1", "11", "5", "AAPL", "STK", "SMART", "USD"]),
            msg(&["49", "1"]),
            msg(&["2", "1", "5"]),
            msg(&["3", "11", "AAPL", "STK", "SMART", "USD", "BUY", "100", "MKT"]),
            msg(&["4", "1", "11"]),
            msg(&["62", "1", "9", "All", "NetLiquidation"]),
            msg(&["63", "1", "9"]),
        ]
    );
    assert!(c.take_outbox().is_empty());
    assert!(c.open_requests.is_empty());
}

#[test]
fn order_ids_are_seeded_by_the_gateway_and_increase() {
    let mut c = connected();
    c.receive_bytes(&frame(&["9", "1", "1"]));
    assert_eq!(c.poll(), Step::Deliver(Event::NextValidId { order_id: 1 }));
    assert_eq!(c.next_order_id(), Ok(1));
    assert_eq!(c.next_order_id(), Ok(2));
    assert_eq!(c.next_order_id, 3);
}

#[test]
fn historical_bars_then_end_then_nothing_after_cancel() {
    let mut c = connected();
    let mut w = Recorder::default();
    c.receive_bytes(&frame(&["9", "1", "1"]));
    pump(&mut c, &mut w);
    assert_eq!(c.next_order_id, 1);
    c.req_historical_data(42, &stock(), &b("20240102 16:00:00"), &b("3 D"), &b("1 day"), &b("TRADES")).unwrap();
    assert_eq!(
        c.take_outbox(),
        vec![msg(&["20", "42", "AAPL", "STK", "SMART", "USD", "20240102 16:00:00", "1 day", "3 D", "TRADES"])]
    );
    for d in ["20231229", "20240101", "20240102"] {
        c.receive_bytes(&frame(&["17", "42", d, "1", "2", "0.5", "1.5", "100", "1.2", "7"]));
    }
    c.receive_bytes(&frame(&["108", "42", "20231229", "20240102"]));
    pump(&mut c, &mut w);
    assert_eq!(
        w.calls,
        vec![
            "next_valid_id 1",
            "bar 42 20231229 Value { units: 15, scale: 1 }",
            "bar 42 20240101 Value { units: 15, scale: 1 }",
            "bar 42 20240102 Value { units: 15, scale: 1 }",
            "end 42",
        ]
    );
    assert!(!c.is_request_open(42));
    c.req_historical_data(42, &stock(), &b(""), &b("1 D"), &b("1 min"), &b("TRADES")).unwrap();
    c.receive_bytes(&frame(&["17", "42", "20240103", "1", "2", "0.5", "1.5", "100", "1.2", "7"]));
    c.cancel_historical_data(42).unwrap();
    c.receive_bytes(&frame(&["17", "42", "20240104", "1", "2", "0.5", "1.5", "100", "1.2", "7"]));
    c.receive_bytes(&frame(&["108", "42", "20240103", "20240104"]));
    let steps = pump(&mut c, &mut w);
    assert_eq!(steps, vec![Step::Dropped(42), Step::Dropped(42), Step::Dropped(42)]);
    assert_eq!(w.calls.len(), 5);
}

#[test]
fn request_from_inside_a_callback_is_sent_and_answered_later() {
    let mut c = connected();
    let mut w = Recorder::default();
    c.req_account_summary(9, &b("All"), &b("NetLiquidation")).unwrap();
    c.take_outbox();
    c.receive_bytes(&frame(&["63", "1", "9", "DU1", "NetLiquidation", "1000", "USD"]));
    pump(&mut c, &mut w);
    assert_eq!(w.calls, vec!["account_summary 9 NetLiquidation"]);
    assert_eq!(c.take_outbox(), vec![msg(&["49", "1"])]);
    c.receive_bytes(&frame(&["49", "1", "1700000000"]));
    pump(&mut c, &mut w);
    assert_eq!(w.calls, vec!["account_summary 9 NetLiquidation", "current_time 1700000000"]);
}

#[test]
fn default_wrapper_asks_for_the_time_on_account_summary() {
    let mut c = connected();
    let mut w = DefaultWrapper::new();
    c.req_account_summary(9, &b("All"), &b("NetLiquidation")).unwrap();
    c.take_outbox();
    c.receive_bytes(&frame(&["63", "1", "9", "DU1", "NetLiquidation", "1000", "USD"]));
    c.receive_bytes(&frame(&["64", "1", "9"]));
    let steps = pump(&mut c, &mut w);
    assert_eq!(steps.len(), 2);
    assert_eq!(c.take_outbox(), vec![msg(&["49", "1"])]);
    assert!(!c.is_request_open(9));
}

#[test]
fn unknown_tag_does_not_stop_the_loop() {
    let mut c = connected();
    let mut w = Recorder::default();
    c.receive_bytes(&frame(&["9999", "1", "x"]));
    c.receive_bytes(&frame(&["49", "1", "77"]));
    let steps = pump(&mut c, &mut w);
    assert_eq!(steps[0], Step::Skipped(InterpretError::UnknownTag));
    assert_eq!(w.calls, vec!["current_time 77"]);
}

#[test]
fn malformed_message_is_skipped() {
    let mut c = connected();
    let mut w = Recorder::default();
    c.req_mkt_data(5, &stock()).unwrap();
    c.receive_bytes(&frame(&["1", "6", "5", "4", "abc", "1"]));
    c.receive_bytes(&frame(&["2", "6", "5", "8", "300"]));
    let steps = pump(&mut c, &mut w);
    assert_eq!(steps[0], Step::Skipped(InterpretError::MalformedField));
    assert_eq!(w.calls, vec!["tick_size 5 8 Value { units: 300, scale: 0 }"]);
}

#[test]
fn per_request_order_is_kept_across_interleaved_streams() {
    let mut stream = Vec::new();
    for i in 0..6 {
        let id = if i % 2 == 0 { "5" } else { "6" };
        stream.extend(frame(&["46", "6", id, "45", &format!("seq{}", i)]));
    }
    let mut seen_by_chunk = Vec::new();
    for chunk in [1usize, 4, 9, stream.len()] {
        let mut c = connected();
        c.req_mkt_data(5, &stock()).unwrap();
        c.req_mkt_data(6, &stock()).unwrap();
        let mut w = Recorder::default();
        for piece in stream.chunks(chunk) {
            c.receive_bytes(&piece.to_vec());
            pump(&mut c, &mut w);
        }
        let five: Vec<String> = w.calls.iter().filter(|s| s.starts_with("tick_string 5 ")).cloned().collect();
        assert_eq!(five, vec!["tick_string 5 45 seq0", "tick_string 5 45 seq2", "tick_string 5 45 seq4"]);
        seen_by_chunk.push(w.calls);
    }
    for s in &seen_by_chunk {
        assert_eq!(s, &seen_by_chunk[0]);
    }
}

#[test]
fn after_close_requests_fail_and_only_one_closed_is_reported() {
    let mut c = connected();
    let mut w = Recorder::default();
    c.req_mkt_data(5, &stock()).unwrap();
    c.receive_bytes(&frame(&["2", "6", "5", "8", "300"]));
    c.close();
    assert_eq!(c.state, ConnState::Disconnected);
    assert_eq!(c.req_current_time(), Err(ClientError::NotConnected));
    assert_eq!(c.cancel_mkt_data(5), Err(ClientError::NotConnected));
    c.receive_bytes(&frame(&["49", "1", "77"]));
    let steps = pump(&mut c, &mut w);
    assert_eq!(steps, vec![Step::Closed]);
    assert_eq!(w.calls, vec!["connection_closed"]);
    assert_eq!(c.poll(), Step::Idle);
    assert!(c.take_outbox().is_empty());
}

#[test]
fn stray_market_data_after_cancel_is_dropped() {
    let mut c = connected();
    c.req_mkt_data(5, &stock()).unwrap();
    c.cancel_mkt_data(5).unwrap();
    c.receive_bytes(&frame(&["2", "6", "5", "8", "300"]));
    assert_eq!(c.poll(), Step::Dropped(5));
    c.receive_bytes(&frame(&["2", "6", "77", "8", "300"]));
    assert_eq!(c.poll(), Step::Dropped(77));
}

#[test]
fn each_known_tag_reaches_its_own_operation_with_its_fields() {
    let cases: Vec<(Vec<&str>, &str)> = vec![
        (vec!["21", "1", "100", "101", "2.5", "3.5", "4.5", "5.5", "6.5", "7.5", "8.5", "9.5"], "tick_option_computation 100 101 Value { units: 25, scale: 1 } Value { units: 35, scale: 1 } Value { units: 45, scale: 1 } Value { units: 55, scale: 1 } Value { units: 65, scale: 1 } Value { units: 75, scale: 1 } Value { units: 85, scale: 1 } Value { units: 95, scale: 1 }"),
        (vec!["47", "1", "100", "101", "2.5", "txt3", "4.5", "105", "txt6", "7.5", "8.5"], "tick_efp 100 101 Value { units: 25, scale: 1 } txt3 Value { units: 45, scale: 1 } 105 txt6 Value { units: 75, scale: 1 } Value { units: 85, scale: 1 }"),
        (vec!["45", "1", "100", "101", "2.5"], "tick_generic 100 101 Value { units: 25, scale: 1 }"),
        (vec!["57", "1", "100"], "tick_snapshot_end 100"),
        (vec!["58", "1", "100", "101"], "market_data_type 100 101"),
        (vec!["81", "100", "1.5", "txt2", "103"], "tick_req_params 100 Value { units: 15, scale: 1 } txt2 103"),
        (vec!["50", "1", "100", "101", "2.5", "3.5", "4.5", "5.5", "6.5", "7.5", "108"], "realtime_bar 100 101 Value { units: 25, scale: 1 } Value { units: 35, scale: 1 } Value { units: 45, scale: 1 } Value { units: 55, scale: 1 } Value { units: 65, scale: 1 } Value { units: 75, scale: 1 } 108"),
        (vec!["12", "1", "100", "101", "102", "103", "4.5", "5.5"], "update_mkt_depth 100 101 102 103 Value { units: 45, scale: 1 } Value { units: 55, scale: 1 }"),
        (vec!["6", "1", "txt0", "txt1", "txt2", "txt3"], "update_account_value txt0 txt1 txt2 txt3"),
        (vec!["8", "1", "txt0"], "update_account_time txt0"),
        (vec!["54", "1", "txt0"], "account_download_end txt0"),
        (vec!["14", "1", "100", "101", "txt2", "txt3"], "update_news_bulletin 100 101 txt2 txt3"),
        (vec!["15", "1", "txt0"], "managed_accounts txt0"),
        (vec!["16", "1", "100", "txt1"], "receive_fa 100 txt1"),
        (vec!["19", "1", "txt0"], "scanner_parameters txt0"),
        (vec!["51", "1", "100", "txt1"], "fundamental_data 100 txt1"),
        (vec!["52", "1", "100"], "contract_details_end 100"),
        (vec!["53", "1"], "open_order_end"),
        (vec!["55", "1", "100"], "exec_details_end 100"),
        (vec!["62", "1"], "position_end"),
        (vec!["65", "1", "txt0"], "verify_message_api txt0"),
        (vec!["67", "1", "100", "txt1"], "display_group_list 100 txt1"),
        (vec!["68", "1", "100", "txt1"], "display_group_updated 100 txt1"),
        (vec!["72", "1", "100"], "position_multi_end 100"),
        (vec!["74", "1", "100"], "account_update_multi_end 100"),
        (vec!["76", "100"], "security_definition_option_parameter_end 100"),
        (vec!["83", "100", "101", "txt2"], "news_article 100 101 txt2"),
        (vec!["88", "100", "txt1"], "head_timestamp 100 txt1"),
        (vec!["91", "100", "101", "txt2"], "reroute_mkt_data_req 100 101 txt2"),
        (vec!["92", "100", "101", "txt2"], "reroute_mkt_depth_req 100 101 txt2"),
        (vec!["94", "100", "1.5", "2.5", "3.5"], "pnl 100 Value { units: 15, scale: 1 } Value { units: 25, scale: 1 } Value { units: 35, scale: 1 }"),
        (vec!["100", "100", "101", "102"], "order_bound 100 101 102"),
        (vec!["102", "1"], "completed_orders_end"),
        (
            vec!["7", "8", "AAPL", "STK", "SMART", "USD", "10", "101.5", "1015", "99", "1", "0", "DU1"],
            "update_portfolio AAPL Value { units: 10, scale: 0 } Value { units: 1015, scale: 1 } DU1",
        ),
        (
            vec!["61", "3", "DU1", "AAPL", "STK", "SMART", "USD", "10", "99.25"],
            "position DU1 AAPL Value { units: 10, scale: 0 } Value { units: 9925, scale: 2 }",
        ),
        (
            vec!["75", "3", "SMART", "265598", "AAPL", "100", "2", "20240119", "20240216", "3", "100", "105", "110.5"],
            "security_definition_option_parameter 3 SMART 265598 AAPL 100 [\"20240119\", \"20240216\"] \
             [Value { units: 100, scale: 0 }, Value { units: 105, scale: 0 }, Value { units: 1105, scale: 1 }]",
        ),
        (
            vec!["75", "3", "SMART", "265598", "AAPL", "100", "0", "0"],
            "security_definition_option_parameter 3 SMART 265598 AAPL 100 [] []",
        ),
    ];
    for (fields, want) in cases {
        let mut c = connected();
        c.req_mkt_data(100, &stock()).unwrap();
        let mut w = Recorder::default();
        c.receive_bytes(&frame(&fields));
        let steps = pump(&mut c, &mut w);
        assert_eq!(steps.len(), 1, "{:?}", fields);
        assert!(matches!(steps[0], Step::Deliver(_)), "{:?}", fields);
        assert_eq!(w.calls, vec![want.to_string()]);
    }
}

#[test]
fn stream_end_inside_a_frame_is_truncation() {
    let mut d = FrameDecoder::new();
    assert_eq!(d.end_of_stream(), Ok(()));
    let f = frame(&["49", "1", "5"]);
    d.push(&f);
    assert_eq!(d.end_of_stream(), Ok(()));
    d.push(&f[..6].to_vec());
    assert_eq!(d.end_of_stream(), Err(DecodeError::Truncated));
    d.push(&vec![0, 0]);
    assert_eq!(d.end_of_stream(), Err(DecodeError::Truncated));
}

#[test]
fn transport_end_closes_and_reports_truncation() {
    let mut c = connected();
    let f = frame(&["49", "1", "5"]);
    c.receive_bytes(&f[..5].to_vec());
    assert_eq!(c.transport_closed(), Err(DecodeError::Truncated));
    assert_eq!(c.state, ConnState::Disconnected);
    assert_eq!(c.poll(), Step::Closed);
    assert_eq!(c.poll(), Step::Idle);

    let mut c = connected();
    assert_eq!(c.transport_closed(), Ok(()));
    assert_eq!(c.poll(), Step::Closed);
}

#[test]
fn option_parameter_lists_must_match_their_counts() {
    let ok = msg(&["75", "3", "SMART", "1", "AAPL", "100", "1", "20240119", "1", "100", "extra"]);
    assert!(matches!(
        interpret(&ok, 150),
        Ok(Event::SecurityDefinitionOptionParameter { ref expirations, ref strikes, .. })
            if expirations.len() == 1 && strikes.len() == 1
    ));
    let short = msg(&["75", "3", "SMART", "1", "AAPL", "100", "2", "20240119", "1", "100"]);
    assert_eq!(interpret(&short, 150), Err(InterpretError::MalformedField));
    let negative = msg(&["75", "3", "SMART", "1", "AAPL", "100", "-1", "0"]);
    assert_eq!(interpret(&negative, 150), Err(InterpretError::MalformedField));
    let bad_strike = msg(&["75", "3", "SMART", "1", "AAPL", "100", "0", "1", "x"]);
    assert_eq!(interpret(&bad_strike, 150), Err(InterpretError::MalformedField));
}

#[test]
fn accepted_handshake_is_acknowledged_to_the_consumer() {
    let mut c = Client::new();
    let mut w = Recorder::default();
    c.connect(7).unwrap();
    c.receive_bytes(&frame(&["176", "20240102 10:00:00 EST"]));
    c.receive_bytes(&frame(&["9", "1", "1"]));
    let steps = pump(&mut c, &mut w);
    assert_eq!(steps[0], Step::Connected);
    assert_eq!(w.calls, vec!["connect_ack", "next_valid_id 1"]);
}

#[test]
fn default_wrapper_leaves_the_client_alone_on_other_events() {
    let mut c = connected();
    let mut w = DefaultWrapper::new();
    c.req_mkt_data(5, &stock()).unwrap();
    c.take_outbox();
    c.receive_bytes(&frame(&["21", "6", "5", "10", "0.2", "0.5", "1.5", "0", "0.1", "0.2", "-0.1", "100"]));
    c.receive_bytes(&frame(&["50", "3", "9", "1700000000", "1", "2", "0.5", "1.5", "100", "1.2", "7"]));
    let steps = pump(&mut c, &mut w);
    assert_eq!(steps.len(), 2);
    assert!(c.take_outbox().is_empty());
    assert_eq!(c.state, ConnState::Connected);
}
