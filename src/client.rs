//! The client handle: connection state, the order-id counter, the registry
//! of open requests, the outbound queue, and one step of the receive loop.
//!
//! Nothing here holds a lock: the receive step hands an event back to its
//! caller, which dispatches it with the handle free, so a consumer may issue
//! requests from inside a callback.

use vstd::prelude::*;
use crate::event::{Event, EventView, InterpretError, decodes_to, interpret, known_tag};
use crate::frame::{
    DecodeError,
    FrameDecoder,
    rest_of,
    encode_frame,
    fields_view,
    frame_bytes,
    frame_end,
    has_frame,
    join_fields,
    split_fields,
    terminated,
};
use crate::text::{copy_bytes, int_text, int_to_text, parse_i64};

verus! {

/// The lowest protocol version this client speaks.
pub const MIN_CLIENT_VERSION: i64 = 100;
/// The highest protocol version this client speaks.
pub const MAX_CLIENT_VERSION: i64 = 176;

pub const REQ_MKT_DATA: i64 = 1;
pub const CANCEL_MKT_DATA: i64 = 2;
pub const PLACE_ORDER: i64 = 3;
pub const CANCEL_ORDER: i64 = 4;
pub const REQ_HISTORICAL_DATA: i64 = 20;
pub const CANCEL_HISTORICAL_DATA: i64 = 25;
pub const REQ_CURRENT_TIME: i64 = 49;
pub const REQ_ACCOUNT_SUMMARY: i64 = 62;
pub const CANCEL_ACCOUNT_SUMMARY: i64 = 63;
pub const START_API: i64 = 71;

#[derive(Clone, Copy, Debug, PartialEq, Eq, Structural)]
pub enum ConnState {
    Disconnected,
    Connecting,
    Connected,
}

#[derive(Clone, Copy, Debug, PartialEq, Eq, Structural)]
pub enum ConnError {
    /// The gateway's handshake reply carries no version.
    Refused,
    /// The gateway's version lies outside what this client speaks.
    VersionMismatch,
    /// The connection is not in a state for this operation.
    Closed,
}

#[derive(Clone, Copy, Debug, PartialEq, Eq, Structural)]
pub enum ClientError {
    /// The request was dropped because the connection is not established.
    NotConnected,
    /// The transport could not take the request.
    SendFailed,
}

/// What one step of the receive loop found.
#[derive(Clone, Debug, PartialEq, Eq)]
pub enum Step {
    /// No whole message is buffered, or nothing is left to report.
    Idle,
    /// The gateway accepted the handshake.
    Connected,
    /// The gateway's handshake reply was rejected; the connection is down.
    Refused(ConnError),
    /// An event to hand to the consumer.
    Deliver(Event),
    /// A message that could not be read was skipped; the loop goes on.
    Skipped(InterpretError),
    /// An event of a request that is no longer open was dropped.
    Dropped(i64),
    /// The connection is gone; reported once, after which nothing is delivered.
    Closed,
}

/// The instrument a request is about, as its four identifying texts.
#[derive(Clone, Debug, PartialEq, Eq)]
pub struct Contract {
    pub symbol: Vec<u8>,
    pub sec_type: Vec<u8>,
    pub exchange: Vec<u8>,
    pub currency: Vec<u8>,
}

pub open spec fn contract_fields(c: Contract) -> Seq<Seq<u8>> {
    seq![c.symbol@, c.sec_type@, c.exchange@, c.currency@]
}

pub open spec fn sent_view(outbox: Seq<Vec<Vec<u8>>>) -> Seq<Seq<Seq<u8>>> {
    outbox.map_values(|m: Vec<Vec<u8>>| fields_view(m@))
}

/// The request stream an event belongs to, for events that belong to one.
pub open spec fn stream_id(e: EventView) -> Option<i64> {
    match e {
        EventView::TickPrice { req_id, .. } => Some(req_id),
        EventView::TickSize { req_id, .. } => Some(req_id),
        EventView::TickString { req_id, .. } => Some(req_id),
        EventView::HistoricalData { req_id, .. } => Some(req_id),
        EventView::HistoricalDataEnd { req_id, .. } => Some(req_id),
        EventView::AccountSummary { req_id, .. } => Some(req_id),
        EventView::AccountSummaryEnd { req_id } => Some(req_id),
        EventView::TickOptionComputation { req_id, .. } => Some(req_id),
        EventView::TickEfp { req_id, .. } => Some(req_id),
        EventView::TickGeneric { req_id, .. } => Some(req_id),
        EventView::TickSnapshotEnd { req_id, .. } => Some(req_id),
        EventView::MarketDataType { req_id, .. } => Some(req_id),
        EventView::TickReqParams { req_id, .. } => Some(req_id),
        _ => None,
    }
}

/// Whether an event is the terminal event of its stream.
pub open spec fn ends_stream(e: EventView) -> bool {
    match e {
        EventView::HistoricalDataEnd { .. } => true,
        EventView::AccountSummaryEnd { .. } => true,
        EventView::TickSnapshotEnd { .. } => true,
        _ => false,
    }
}

pub open spec fn version_range_text() -> Seq<u8> {
    seq![118u8] + int_text(MIN_CLIENT_VERSION as int) + seq![46u8, 46u8] + int_text(
        MAX_CLIENT_VERSION as int,
    )
}

/// The opening bytes of a connection: `API\0`, then a frame holding the
/// range of protocol versions this client speaks.
pub open spec fn handshake_bytes() -> Seq<u8> {
    seq![65u8, 80u8, 73u8, 0u8] + frame_bytes(join_fields(seq![version_range_text()]))
}

pub open spec fn start_api_request(client_id: i64) -> Seq<Seq<u8>> {
    seq![int_text(START_API as int), int_text(2), int_text(client_id as int), Seq::empty()]
}

pub open spec fn current_time_request() -> Seq<Seq<u8>> {
    seq![int_text(REQ_CURRENT_TIME as int), int_text(1)]
}

pub open spec fn mkt_data_request(req_id: i64, c: Contract) -> Seq<Seq<u8>> {
    seq![int_text(REQ_MKT_DATA as int), int_text(11), int_text(req_id as int)] + contract_fields(c)
}

pub open spec fn historical_data_request(
    req_id: i64,
    c: Contract,
    end: Seq<u8>,
    duration: Seq<u8>,
    bar_size: Seq<u8>,
    what_to_show: Seq<u8>,
) -> Seq<Seq<u8>> {
    seq![int_text(REQ_HISTORICAL_DATA as int), int_text(req_id as int)] + contract_fields(c) + seq![
        end,
        bar_size,
        duration,
        what_to_show,
    ]
}

pub open spec fn account_summary_request(req_id: i64, group: Seq<u8>, tags: Seq<u8>) -> Seq<
    Seq<u8>,
> {
    seq![int_text(REQ_ACCOUNT_SUMMARY as int), int_text(1), int_text(req_id as int), group, tags]
}

pub open spec fn place_order_request(
    order_id: i64,
    c: Contract,
    action: Seq<u8>,
    quantity: i64,
    order_type: Seq<u8>,
) -> Seq<Seq<u8>> {
    seq![int_text(PLACE_ORDER as int), int_text(order_id as int)] + contract_fields(c) + seq![
        action,
        int_text(quantity as int),
        order_type,
    ]
}

/// A cancellation: the tag, a message version of 1, and the id.
pub open spec fn cancel_request(tag: i64, id: i64) -> Seq<Seq<u8>> {
    seq![int_text(tag as int), int_text(1), int_text(id as int)]
}

pub struct Client {
    pub state: ConnState,
    /// The protocol version the gateway chose at the handshake.
    pub server_version: u64,
    pub client_id: i64,
    /// The next order id to hand out; seeded by the gateway.
    pub next_order_id: i64,
    /// Ids of the requests whose streams are open.
    pub open_requests: Vec<i64>,
    /// Requests issued and not yet taken by the transport, oldest first.
    pub outbox: Vec<Vec<Vec<u8>>>,
    pub decoder: FrameDecoder,
    /// A lost connection that the consumer has not been told of yet.
    pub closed_pending: bool,
    /// The fields of the message the last receive step read.
    pub last_fields: Ghost<Seq<Seq<u8>>>,
}

/// The fields `fs` are a split of payload `p`.
pub open spec fn split_of(p: Seq<u8>, fs: Seq<Seq<u8>>) -> bool {
    &&& join_fields(fs) == terminated(p)
    &&& forall|i: int| 0 <= i < fs.len() ==> crate::frame::no_nul(#[trigger] fs[i])
}

impl Client {
    pub open spec fn wf(&self) -> bool {
        self.decoder.wf()
    }

    pub open spec fn sent(&self) -> Seq<Seq<Seq<u8>>> {
        sent_view(self.outbox@)
    }

    pub open spec fn is_open(&self, id: i64) -> bool {
        self.open_requests@.contains(id)
    }

    /// The payload of the next whole frame buffered.
    pub open spec fn next_payload(&self) -> Seq<u8> {
        self.decoder.buf@.subrange(4, frame_end(self.decoder.buf@))
    }

    /// Whether the consumer may see `e`: it belongs to no stream, or to an
    /// open one.
    pub open spec fn admits(&self, e: EventView) -> bool {
        match stream_id(e) {
            Some(id) => self.is_open(id),
            None => true,
        }
    }

    /// `new` is `self` after issuing `msg` with result `r`: sent when
    /// connected, dropped otherwise; nothing else changes but the registry.
    pub open spec fn issued(
        &self,
        new: Client,
        msg: Seq<Seq<u8>>,
        r: Result<(), ClientError>,
    ) -> bool {
        &&& new.state == self.state
        &&& new.server_version == self.server_version
        &&& new.client_id == self.client_id
        &&& new.next_order_id == self.next_order_id
        &&& new.decoder == self.decoder
        &&& new.closed_pending == self.closed_pending
        &&& new.last_fields == self.last_fields
        &&& match r {
            Ok(()) => self.state == ConnState::Connected && new.sent() == self.sent().push(msg),
            Err(e) => {
                &&& self.state != ConnState::Connected
                &&& e == ClientError::NotConnected
                &&& new.outbox == self.outbox
                &&& new.open_requests == self.open_requests
            },
        }
    }

    /// The handshake reply in `new.last_fields` settled the connection as
    /// `r` says: accepted at a version this client speaks, or refused.
    pub open spec fn handshake_step(&self, new: Client, r: Step) -> bool {
        let fs = new.last_fields@;
        &&& new.next_order_id == self.next_order_id
        &&& new.client_id == self.client_id
        &&& new.open_requests == self.open_requests
        &&& !new.closed_pending
        &&& match crate::event::int_at(fs, 0) {
            None => {
                &&& r == Step::Refused(ConnError::Refused)
                &&& new.state == ConnState::Disconnected
                &&& new.sent() == self.sent()
            },
            Some(v) => if v < MIN_CLIENT_VERSION || v > MAX_CLIENT_VERSION {
                &&& r == Step::Refused(ConnError::VersionMismatch)
                &&& new.state == ConnState::Disconnected
                &&& new.sent() == self.sent()
            } else {
                &&& r == Step::Connected
                &&& new.state == ConnState::Connected
                &&& new.server_version == v as u64
                &&& new.sent() == self.sent().push(start_api_request(self.client_id))
            },
        }
    }

    /// The message in `new.last_fields` was handled as `r` says: delivered
    /// exactly as it reads, skipped when it does not read, or dropped when
    /// its stream is no longer open.
    pub open spec fn message_step(&self, new: Client, r: Step) -> bool {
        let fs = new.last_fields@;
        let v = self.server_version;
        &&& new.state == self.state
        &&& new.server_version == self.server_version
        &&& new.client_id == self.client_id
        &&& new.closed_pending == self.closed_pending
        &&& new.sent() == self.sent()
        &&& match r {
            Step::Deliver(e) => {
                &&& decodes_to(fs, v, e@)
                &&& self.admits(e@)
                &&& forall|x: i64|
                    new.is_open(x) <==> (self.is_open(x) && !(ends_stream(e@) && stream_id(e@)
                        == Some(x)))
                &&& new.next_order_id == match e@ {
                    EventView::NextValidId { order_id } => order_id,
                    _ => self.next_order_id,
                }
            },
            Step::Skipped(err) => {
                &&& (err == InterpretError::UnknownTag) == !known_tag(fs)
                &&& err == InterpretError::MalformedField ==> forall|e: EventView|
                    !decodes_to(fs, v, e)
                &&& new.open_requests == self.open_requests
                &&& new.next_order_id == self.next_order_id
            },
            Step::Dropped(id) => {
                &&& exists|e: EventView| decodes_to(fs, v, e) && stream_id(e) == Some(id)
                &&& !self.is_open(id)
                &&& new.open_requests == self.open_requests
                &&& new.next_order_id == self.next_order_id
            },
            _ => false,
        }
    }

    /// One receive step while the connection is down: the owed closed
    /// notification, if any, and nothing else.
    pub open spec fn poll_while_down(self) -> (Step, Client) {
        (
            if self.closed_pending {
                Step::Closed
            } else {
                Step::Idle
            },
            Client { closed_pending: false, ..self },
        )
    }

    pub fn new() -> (r: Self)
        ensures
            r.wf(),
            r.state == ConnState::Disconnected,
            r.sent() == Seq::<Seq<Seq<u8>>>::empty(),
            r.open_requests@ == Seq::<i64>::empty(),
            !r.closed_pending,
            r.next_order_id == 0,
    {
        let r = Client {
            state: ConnState::Disconnected,
            server_version: 0,
            client_id: 0,
            next_order_id: 0,
            open_requests: Vec::new(),
            outbox: Vec::new(),
            decoder: FrameDecoder::new(),
            closed_pending: false,
            last_fields: Ghost(Seq::empty()),
        };
        assert(r.sent() =~= Seq::<Seq<Seq<u8>>>::empty());
        r
    }

    /// Starts a connection attempt: from `Disconnected` only, it moves to
    /// `Connecting` and returns the bytes that open the handshake.
    pub fn connect(&mut self, client_id: i64) -> (r: Result<Vec<u8>, ConnError>)
        requires
            old(self).wf(),
        ensures
            final(self).wf(),
            match r {
                Ok(b) => {
                    &&& old(self).state == ConnState::Disconnected
                    &&& b@ == handshake_bytes()
                    &&& final(self).state == ConnState::Connecting
                    &&& final(self).client_id == client_id
                    &&& final(self).next_order_id == old(self).next_order_id
                    &&& final(self).decoder.buf@ == Seq::<u8>::empty()
                    &&& final(self).sent() == Seq::<Seq<Seq<u8>>>::empty()
                    &&& final(self).open_requests@ == Seq::<i64>::empty()
                    &&& !final(self).closed_pending
                },
                Err(e) => {
                    &&& old(self).state != ConnState::Disconnected
                    &&& e == ConnError::Closed
                    &&& *final(self) == *old(self)
                },
            },
    {
        if self.state != ConnState::Disconnected {
            return Err(ConnError::Closed);
        }
        let mut range: Vec<u8> = vec![118u8];
        let mut lo = int_to_text(MIN_CLIENT_VERSION);
        range.append(&mut lo);
        range.push(46u8);
        range.push(46u8);
        let mut hi = int_to_text(MAX_CLIENT_VERSION);
        range.append(&mut hi);
        assert(range@ =~= version_range_text());
        let fields: Vec<Vec<u8>> = vec![range];
        let mut framed = match encode_frame(&fields) {
            Some(b) => b,
            None => {
                proof {
                    lemma_version_range_frames(fields@);
                }
                return Err(ConnError::Closed);
            },
        };
        assert(fields_view(fields@) =~= seq![version_range_text()]);
        let mut out: Vec<u8> = vec![65u8, 80u8, 73u8, 0u8];
        out.append(&mut framed);
        assert(out@ =~= handshake_bytes());
        self.state = ConnState::Connecting;
        self.client_id = client_id;
        self.decoder = FrameDecoder::new();
        self.outbox = Vec::new();
        self.open_requests = Vec::new();
        self.closed_pending = false;
        assert(self.sent() =~= Seq::<Seq<Seq<u8>>>::empty());
        Ok(out)
    }

    /// Hands received bytes to the frame decoder.
    pub fn receive_bytes(&mut self, bytes: &Vec<u8>)
        requires
            old(self).wf(),
        ensures
            final(self).wf(),
            final(self).decoder.buf@ == old(self).decoder.buf@ + bytes@,
            final(self).decoder.received() == old(self).decoder.received() + bytes@,
            final(self).decoder.taken == old(self).decoder.taken,
            final(self).state == old(self).state,
            final(self).sent() == old(self).sent(),
            final(self).open_requests == old(self).open_requests,
            final(self).next_order_id == old(self).next_order_id,
            final(self).server_version == old(self).server_version,
            final(self).closed_pending == old(self).closed_pending,
    {
        self.decoder.push(bytes);
    }

    /// The transport failed or the connection was closed on purpose: the
    /// state goes to `Disconnected`, open requests are forgotten, and one
    /// closed notification is owed if a connection was up or being made.
    pub fn close(&mut self)
        requires
            old(self).wf(),
        ensures
            final(self).wf(),
            final(self).state == ConnState::Disconnected,
            final(self).closed_pending == (old(self).closed_pending || old(self).state
                != ConnState::Disconnected),
            final(self).open_requests@ == Seq::<i64>::empty(),
            final(self).decoder.buf@ == Seq::<u8>::empty(),
            final(self).sent() == Seq::<Seq<Seq<u8>>>::empty(),
            final(self).next_order_id == old(self).next_order_id,
    {
        if self.state != ConnState::Disconnected {
            self.closed_pending = true;
        }
        self.state = ConnState::Disconnected;
        self.open_requests = Vec::new();
        self.outbox = Vec::new();
        self.decoder = FrameDecoder::new();
        assert(self.sent() =~= Seq::<Seq<Seq<u8>>>::empty());
    }

    /// The transport reached its end: the connection closes as with
    /// [`Client::close`], and the result says whether a message was cut off.
    pub fn transport_closed(&mut self) -> (r: Result<(), DecodeError>)
        requires
            old(self).wf(),
        ensures
            final(self).wf(),
            r is Ok <==> rest_of(old(self).decoder.buf@) == Seq::<u8>::empty(),
            final(self).state == ConnState::Disconnected,
            final(self).closed_pending == (old(self).closed_pending || old(self).state
                != ConnState::Disconnected),
            final(self).open_requests@ == Seq::<i64>::empty(),
            final(self).decoder.buf@ == Seq::<u8>::empty(),
            final(self).sent() == Seq::<Seq<Seq<u8>>>::empty(),
    {
        let r = self.decoder.end_of_stream();
        self.close();
        r
    }

    /// Takes the queued requests, oldest first, for the transport to write.
    pub fn take_outbox(&mut self) -> (r: Vec<Vec<Vec<u8>>>)
        requires
            old(self).wf(),
        ensures
            final(self).wf(),
            sent_view(r@) == old(self).sent(),
            final(self).sent() == Seq::<Seq<Seq<u8>>>::empty(),
            final(self).state == old(self).state,
            final(self).open_requests == old(self).open_requests,
            final(self).decoder == old(self).decoder,
            final(self).next_order_id == old(self).next_order_id,
            final(self).closed_pending == old(self).closed_pending,
    {
        let mut r: Vec<Vec<Vec<u8>>> = Vec::new();
        std::mem::swap(&mut r, &mut self.outbox);
        assert(self.sent() =~= Seq::<Seq<Seq<u8>>>::empty());
        r
    }

    fn send(&mut self, msg: Vec<Vec<u8>>) -> (r: Result<(), ClientError>)
        requires
            old(self).wf(),
        ensures
            final(self).wf(),
            old(self).issued(*final(self), fields_view(msg@), r),
            final(self).open_requests == old(self).open_requests,
    {
        if self.state != ConnState::Connected {
            return Err(ClientError::NotConnected);
        }
        let ghost before = self.outbox@;
        self.outbox.push(msg);
        assert(self.sent() =~= sent_view(before).push(fields_view(msg@)));
        Ok(())
    }

    fn open_request(&mut self, id: i64)
        ensures
            forall|x: i64| final(self).is_open(x) <==> (old(self).is_open(x) || x == id),
            final(self).state == old(self).state,
            final(self).server_version == old(self).server_version,
            final(self).client_id == old(self).client_id,
            final(self).next_order_id == old(self).next_order_id,
            final(self).outbox == old(self).outbox,
            final(self).decoder == old(self).decoder,
            final(self).closed_pending == old(self).closed_pending,
            final(self).last_fields == old(self).last_fields,
    {
        let ghost before = self.open_requests@;
        self.open_requests.push(id);
        assert forall|x: i64| self.is_open(x) <==> (before.contains(x) || x == id) by {
            if before.contains(x) {
                let j = choose|j: int| 0 <= j < before.len() && before[j] == x;
                assert(self.open_requests@[j] == x);
            }
            if self.open_requests@.contains(x) {
                let j = choose|j: int|
                    0 <= j < self.open_requests@.len() && self.open_requests@[j] == x;
                if j < before.len() {
                    assert(before[j] == x);
                }
            }
            if x == id {
                assert(self.open_requests@[before.len() as int] == x);
            }
        }
    }

    fn close_request(&mut self, id: i64)
        ensures
            forall|x: i64| final(self).is_open(x) <==> (old(self).is_open(x) && x != id),
            final(self).state == old(self).state,
            final(self).server_version == old(self).server_version,
            final(self).client_id == old(self).client_id,
            final(self).next_order_id == old(self).next_order_id,
            final(self).outbox == old(self).outbox,
            final(self).decoder == old(self).decoder,
            final(self).closed_pending == old(self).closed_pending,
            final(self).last_fields == old(self).last_fields,
    {
        let mut kept: Vec<i64> = Vec::new();
        let mut i: usize = 0;
        let n: usize = self.open_requests.len();
        while i < n
            invariant
                i <= n == self.open_requests.len(),
                forall|x: i64|
                    kept@.contains(x) <==> (exists|j: int| 0 <= j < i && self.open_requests@[j] == x)
                        && x != id,
            decreases n - i,
        {
            let x = self.open_requests[i];
            let ghost k0 = kept@;
            if x != id {
                kept.push(x);
            }
            assert forall|y: i64|
                kept@.contains(y) <==> (exists|j: int| 0 <= j < i + 1 && self.open_requests@[j] == y)
                    && y != id by {
                if kept@.contains(y) {
                    let j = choose|j: int| 0 <= j < kept@.len() && kept@[j] == y;
                    if j < k0.len() {
                        assert(k0[j] == y);
                        assert(k0.contains(y));
                    } else {
                        assert(self.open_requests@[i as int] == y);
                    }
                }
                if (exists|j: int| 0 <= j < i + 1 && self.open_requests@[j] == y) && y != id {
                    let j = choose|j: int| 0 <= j < i + 1 && self.open_requests@[j] == y;
                    if j < i {
                        assert(k0.contains(y));
                        let m = choose|m: int| 0 <= m < k0.len() && k0[m] == y;
                        assert(kept@[m] == y);
                    } else {
                        assert(kept@[kept@.len() - 1] == y);
                    }
                }
            }
            i = i + 1;
        }
        self.open_requests = kept;
    }

    /// Hands out the next order id and advances the counter.
    pub fn next_order_id(&mut self) -> (r: Result<i64, ClientError>)
        requires
            old(self).wf(),
            old(self).next_order_id < i64::MAX,
        ensures
            final(self).wf(),
            match r {
                Ok(id) => {
                    &&& old(self).state == ConnState::Connected
                    &&& id == old(self).next_order_id
                    &&& final(self).next_order_id == id + 1
                    &&& (Client { next_order_id: old(self).next_order_id, ..*final(self) })
                        == *old(self)
                },
                Err(e) => old(self).state != ConnState::Connected && e == ClientError::NotConnected
                    && *final(self) == *old(self),
            },
    {
        if self.state != ConnState::Connected {
            return Err(ClientError::NotConnected);
        }
        let id = self.next_order_id;
        self.next_order_id = id + 1;
        Ok(id)
    }

    /// Asks for the gateway's current time.
    pub fn req_current_time(&mut self) -> (r: Result<(), ClientError>)
        requires
            old(self).wf(),
        ensures
            final(self).wf(),
            old(self).issued(*final(self), current_time_request(), r),
            final(self).open_requests == old(self).open_requests,
    {
        let msg: Vec<Vec<u8>> = vec![int_to_text(REQ_CURRENT_TIME), int_to_text(1)];
        assert(fields_view(msg@) =~= current_time_request());
        self.send(msg)
    }

    /// Subscribes to market data for `c` under `req_id`.
    pub fn req_mkt_data(&mut self, req_id: i64, c: &Contract) -> (r: Result<(), ClientError>)
        requires
            old(self).wf(),
        ensures
            final(self).wf(),
            old(self).issued(*final(self), mkt_data_request(req_id, *c), r),
            r is Ok ==> forall|x: i64|
                final(self).is_open(x) <==> (old(self).is_open(x) || x == req_id),
    {
        let mut msg: Vec<Vec<u8>> = vec![
            int_to_text(REQ_MKT_DATA),
            int_to_text(11),
            int_to_text(req_id),
        ];
        push_contract(&mut msg, c);
        assert(fields_view(msg@) =~= mkt_data_request(req_id, *c));
        let r = self.send(msg);
        if r.is_ok() {
            self.open_request(req_id);
        }
        r
    }

    /// Ends a market data subscription. Events already on their way may
    /// still arrive; they are dropped.
    pub fn cancel_mkt_data(&mut self, req_id: i64) -> (r: Result<(), ClientError>)
        requires
            old(self).wf(),
        ensures
            final(self).wf(),
            old(self).issued(*final(self), cancel_request(CANCEL_MKT_DATA, req_id), r),
            r is Ok ==> forall|x: i64|
                final(self).is_open(x) <==> (old(self).is_open(x) && x != req_id),
    {
        let msg = cancel_message(CANCEL_MKT_DATA, req_id);
        let r = self.send(msg);
        if r.is_ok() {
            self.close_request(req_id);
        }
        r
    }

    /// Asks for historical bars of `c` under `req_id`.
    pub fn req_historical_data(
        &mut self,
        req_id: i64,
        c: &Contract,
        end: &Vec<u8>,
        duration: &Vec<u8>,
        bar_size: &Vec<u8>,
        what_to_show: &Vec<u8>,
    ) -> (r: Result<(), ClientError>)
        requires
            old(self).wf(),
        ensures
            final(self).wf(),
            old(self).issued(
                *final(self),
                historical_data_request(req_id, *c, end@, duration@, bar_size@, what_to_show@),
                r,
            ),
            r is Ok ==> forall|x: i64|
                final(self).is_open(x) <==> (old(self).is_open(x) || x == req_id),
    {
        let mut msg: Vec<Vec<u8>> = vec![int_to_text(REQ_HISTORICAL_DATA), int_to_text(req_id)];
        push_contract(&mut msg, c);
        let ghost m1 = fields_view(msg@);
        push_field(&mut msg, copy_bytes(end));
        push_field(&mut msg, copy_bytes(bar_size));
        push_field(&mut msg, copy_bytes(duration));
        push_field(&mut msg, copy_bytes(what_to_show));
        assert(fields_view(msg@) =~= m1 + seq![end@, bar_size@, duration@, what_to_show@]);
        assert(fields_view(msg@) =~= historical_data_request(
            req_id,
            *c,
            end@,
            duration@,
            bar_size@,
            what_to_show@,
        ));
        let r = self.send(msg);
        if r.is_ok() {
            self.open_request(req_id);
        }
        r
    }

    /// Cancels a historical data request; later events for it are dropped.
    pub fn cancel_historical_data(&mut self, req_id: i64) -> (r: Result<(), ClientError>)
        requires
            old(self).wf(),
        ensures
            final(self).wf(),
            old(self).issued(*final(self), cancel_request(CANCEL_HISTORICAL_DATA, req_id), r),
            r is Ok ==> forall|x: i64|
                final(self).is_open(x) <==> (old(self).is_open(x) && x != req_id),
    {
        let msg = cancel_message(CANCEL_HISTORICAL_DATA, req_id);
        let r = self.send(msg);
        if r.is_ok() {
            self.close_request(req_id);
        }
        r
    }

    /// Subscribes to the account summary of `group` for the given tags.
    pub fn req_account_summary(&mut self, req_id: i64, group: &Vec<u8>, tags: &Vec<u8>) -> (r: Result<
        (),
        ClientError,
    >)
        requires
            old(self).wf(),
        ensures
            final(self).wf(),
            old(self).issued(*final(self), account_summary_request(req_id, group@, tags@), r),
            r is Ok ==> forall|x: i64|
                final(self).is_open(x) <==> (old(self).is_open(x) || x == req_id),
    {
        let msg: Vec<Vec<u8>> = vec![
            int_to_text(REQ_ACCOUNT_SUMMARY),
            int_to_text(1),
            int_to_text(req_id),
            copy_bytes(group),
            copy_bytes(tags),
        ];
        assert(fields_view(msg@) =~= account_summary_request(req_id, group@, tags@));
        let r = self.send(msg);
        if r.is_ok() {
            self.open_request(req_id);
        }
        r
    }

    /// Cancels an account summary subscription.
    pub fn cancel_account_summary(&mut self, req_id: i64) -> (r: Result<(), ClientError>)
        requires
            old(self).wf(),
        ensures
            final(self).wf(),
            old(self).issued(*final(self), cancel_request(CANCEL_ACCOUNT_SUMMARY, req_id), r),
            r is Ok ==> forall|x: i64|
                final(self).is_open(x) <==> (old(self).is_open(x) && x != req_id),
    {
        let msg = cancel_message(CANCEL_ACCOUNT_SUMMARY, req_id);
        let r = self.send(msg);
        if r.is_ok() {
            self.close_request(req_id);
        }
        r
    }

    /// Places an order under a caller-chosen order id.
    pub fn place_order(
        &mut self,
        order_id: i64,
        c: &Contract,
        action: &Vec<u8>,
        quantity: i64,
        order_type: &Vec<u8>,
    ) -> (r: Result<(), ClientError>)
        requires
            old(self).wf(),
        ensures
            final(self).wf(),
            old(self).issued(
                *final(self),
                place_order_request(order_id, *c, action@, quantity, order_type@),
                r,
            ),
            final(self).open_requests == old(self).open_requests,
    {
        let mut msg: Vec<Vec<u8>> = vec![int_to_text(PLACE_ORDER), int_to_text(order_id)];
        push_contract(&mut msg, c);
        let ghost m1 = fields_view(msg@);
        push_field(&mut msg, copy_bytes(action));
        push_field(&mut msg, int_to_text(quantity));
        push_field(&mut msg, copy_bytes(order_type));
        assert(fields_view(msg@) =~= m1 + seq![action@, int_text(quantity as int), order_type@]);
        assert(fields_view(msg@) =~= place_order_request(
            order_id,
            *c,
            action@,
            quantity,
            order_type@,
        ));
        self.send(msg)
    }

    /// Cancels an order.
    pub fn cancel_order(&mut self, order_id: i64) -> (r: Result<(), ClientError>)
        requires
            old(self).wf(),
        ensures
            final(self).wf(),
            old(self).issued(*final(self), cancel_request(CANCEL_ORDER, order_id), r),
            final(self).open_requests == old(self).open_requests,
    {
        let msg = cancel_message(CANCEL_ORDER, order_id);
        self.send(msg)
    }
    /// Whether the stream of request `id` is open.
    pub fn is_request_open(&self, id: i64) -> (r: bool)
        ensures
            r == self.is_open(id),
    {
        let mut i: usize = 0;
        while i < self.open_requests.len()
            invariant
                i <= self.open_requests.len(),
                forall|j: int| 0 <= j < i ==> self.open_requests@[j] != id,
            decreases self.open_requests.len() - i,
        {
            if self.open_requests[i] == id {
                return true;
            }
            i = i + 1;
        }
        false
    }

    fn finish_handshake(&mut self, fields: &Vec<Vec<u8>>) -> (r: Step)
        requires
            old(self).wf(),
            old(self).last_fields@ == fields_view(fields@),
        ensures
            final(self).wf(),
            final(self).decoder == old(self).decoder,
            final(self).last_fields == old(self).last_fields,
            old(self).handshake_step(*final(self), r),
    {
        self.closed_pending = false;
        let v = if fields.len() > 0 {
            parse_i64(&fields[0])
        } else {
            None
        };
        match v {
            None => {
                self.state = ConnState::Disconnected;
                Step::Refused(ConnError::Refused)
            },
            Some(v) => {
                if v < MIN_CLIENT_VERSION || v > MAX_CLIENT_VERSION {
                    self.state = ConnState::Disconnected;
                    Step::Refused(ConnError::VersionMismatch)
                } else {
                    self.state = ConnState::Connected;
                    self.server_version = v as u64;
                    let msg: Vec<Vec<u8>> = vec![
                        int_to_text(START_API),
                        int_to_text(2),
                        int_to_text(self.client_id),
                        Vec::new(),
                    ];
                    assert(fields_view(msg@) =~= start_api_request(self.client_id));
                    let ghost before = self.outbox@;
                    self.outbox.push(msg);
                    assert(self.sent() =~= sent_view(before).push(fields_view(msg@)));
                    Step::Connected
                }
            },
        }
    }

    fn handle_message(&mut self, fields: &Vec<Vec<u8>>) -> (r: Step)
        requires
            old(self).wf(),
            old(self).last_fields@ == fields_view(fields@),
        ensures
            final(self).wf(),
            final(self).decoder == old(self).decoder,
            final(self).last_fields == old(self).last_fields,
            old(self).message_step(*final(self), r),
    {
        let e = match interpret(fields, self.server_version) {
            Ok(e) => e,
            Err(err) => return Step::Skipped(err),
        };
        match stream_of(&e) {
            Some(id) => {
                if !self.is_request_open(id) {
                    return Step::Dropped(id);
                }
                if ends_a_stream(&e) {
                    self.close_request(id);
                }
            },
            None => {},
        }
        if let Event::NextValidId { order_id } = &e {
            self.next_order_id = *order_id;
        }
        Step::Deliver(e)
    }

    /// One step of the receive loop. Disconnected, it reports a lost
    /// connection once and is idle after that. Otherwise it takes the next
    /// whole buffered message, if any: while connecting, the handshake reply;
    /// once connected, an event for the consumer.
    pub fn poll(&mut self) -> (r: Step)
        requires
            old(self).wf(),
        ensures
            final(self).wf(),
            old(self).state == ConnState::Disconnected ==> (r, *final(self))
                == old(self).poll_while_down(),
            old(self).state != ConnState::Disconnected && !has_frame(old(self).decoder.buf@) ==> {
                &&& r == Step::Idle
                &&& *final(self) == *old(self)
            },
            old(self).state != ConnState::Disconnected && has_frame(old(self).decoder.buf@) ==> {
                &&& final(self).decoder.taken@ == old(self).decoder.taken@.push(
                    old(self).next_payload(),
                )
                &&& final(self).decoder.buf@ == old(self).decoder.buf@.subrange(
                    frame_end(old(self).decoder.buf@),
                    old(self).decoder.buf@.len() as int,
                )
                &&& split_of(old(self).next_payload(), final(self).last_fields@)
                &&& old(self).state == ConnState::Connecting ==> old(self).handshake_step(
                    *final(self),
                    r,
                )
                &&& old(self).state == ConnState::Connected ==> old(self).message_step(
                    *final(self),
                    r,
                )
            },
    {
        if self.state == ConnState::Disconnected {
            if self.closed_pending {
                self.closed_pending = false;
                return Step::Closed;
            }
            return Step::Idle;
        }
        let p = match self.decoder.next_frame() {
            Some(p) => p,
            None => return Step::Idle,
        };
        let fields = split_fields(&p);
        proof {
            self.last_fields@ = fields_view(fields@);
        }
        if self.state == ConnState::Connecting {
            self.finish_handshake(&fields)
        } else {
            self.handle_message(&fields)
        }
    }
}

fn stream_of(e: &Event) -> (r: Option<i64>)
    ensures
        r == stream_id(e@),
{
    match e {
        Event::TickPrice { req_id, .. } => Some(*req_id),
        Event::TickSize { req_id, .. } => Some(*req_id),
        Event::TickString { req_id, .. } => Some(*req_id),
        Event::HistoricalData { req_id, .. } => Some(*req_id),
        Event::HistoricalDataEnd { req_id, .. } => Some(*req_id),
        Event::AccountSummary { req_id, .. } => Some(*req_id),
        Event::AccountSummaryEnd { req_id } => Some(*req_id),
        Event::TickOptionComputation { req_id, .. } => Some(*req_id),
        Event::TickEfp { req_id, .. } => Some(*req_id),
        Event::TickGeneric { req_id, .. } => Some(*req_id),
        Event::TickSnapshotEnd { req_id, .. } => Some(*req_id),
        Event::MarketDataType { req_id, .. } => Some(*req_id),
        Event::TickReqParams { req_id, .. } => Some(*req_id),
        _ => None,
    }
}

fn ends_a_stream(e: &Event) -> (r: bool)
    ensures
        r == ends_stream(e@),
{
    match e {
        Event::HistoricalDataEnd { .. } => true,
        Event::AccountSummaryEnd { .. } => true,
        Event::TickSnapshotEnd { .. } => true,
        _ => false,
    }
}

/// While the connection is not up, every request is refused with
/// `NotConnected`, nothing reaches the transport, and the state stays.
pub proof fn disconnected_client_sends_nothing(
    c: Client,
    new: Client,
    msg: Seq<Seq<u8>>,
    r: Result<(), ClientError>,
)
    requires
        c.state != ConnState::Connected,
        c.issued(new, msg, r),
    ensures
        r == Err::<(), ClientError>(ClientError::NotConnected),
        new.sent() == c.sent(),
        new.state == c.state,
        new.open_requests == c.open_requests,
{
}

/// Once the connection is down, the receive loop delivers no event: the
/// first step reports the loss if one is owed, and every later step is idle.
pub proof fn closed_is_reported_once(c: Client)
    requires
        c.state == ConnState::Disconnected,
    ensures
        c.poll_while_down().0 == (if c.closed_pending {
            Step::Closed
        } else {
            Step::Idle
        }),
        c.poll_while_down().1.state == ConnState::Disconnected,
        c.poll_while_down().1.poll_while_down().0 == Step::Idle,
{
}

proof fn lemma_version_range_frames(fields: Seq<Vec<u8>>)
    requires
        fields.len() == 1,
        fields[0]@ == version_range_text(),
    ensures
        join_fields(fields_view(fields)).len() < 0x1_0000_0000,
        forall|k: int| 0 <= k < fields.len() ==> crate::frame::no_nul(#[trigger] fields[k]@),
{
    reveal_with_fuel(crate::text::nat_text, 4);
    let t = version_range_text();
    assert(fields_view(fields) =~= seq![t]);
    assert(seq![t].drop_last() =~= Seq::<Seq<u8>>::empty());
    assert(join_fields(seq![t].drop_last()) =~= Seq::<u8>::empty());
    assert(seq![t].last() == t);
    assert(join_fields(seq![t]) =~= t.push(0));
    assert(int_text(MIN_CLIENT_VERSION as int) =~= seq![49u8, 48u8, 48u8]);
    assert(int_text(MAX_CLIENT_VERSION as int) =~= seq![49u8, 55u8, 54u8]);
    assert(t =~= seq![118u8, 49u8, 48u8, 48u8, 46u8, 46u8, 49u8, 55u8, 54u8]);
    assert(fields_view(fields).drop_last() =~= Seq::<Seq<u8>>::empty());
}

fn push_field(msg: &mut Vec<Vec<u8>>, f: Vec<u8>)
    ensures
        fields_view(final(msg)@) == fields_view(old(msg)@).push(f@),
{
    let ghost m0 = msg@;
    msg.push(f);
    assert(fields_view(msg@) =~= fields_view(m0).push(f@));
}

fn push_contract(msg: &mut Vec<Vec<u8>>, c: &Contract)
    ensures
        fields_view(final(msg)@) == fields_view(old(msg)@) + contract_fields(*c),
{
    let ghost m0 = msg@;
    msg.push(copy_bytes(&c.symbol));
    msg.push(copy_bytes(&c.sec_type));
    msg.push(copy_bytes(&c.exchange));
    msg.push(copy_bytes(&c.currency));
    assert(fields_view(msg@) =~= fields_view(m0) + contract_fields(*c));
}

fn cancel_message(tag: i64, id: i64) -> (r: Vec<Vec<u8>>)
    ensures
        fields_view(r@) == cancel_request(tag, id),
{
    let r: Vec<Vec<u8>> = vec![int_to_text(tag), int_to_text(1), int_to_text(id)];
    assert(fields_view(r@) =~= cancel_request(tag, id));
    r
}

} // verus!
