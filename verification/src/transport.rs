//! The report transport: one request/response exchange at a time against
//! the configured endpoint, over fixed buffers reused for the life of the
//! process.
//!
//! An exchange walks `Idle -> Connecting -> Requesting -> ReceivingBody ->
//! Idle` and ends back at `Idle` on every path: a failure to build the
//! request, to send it, or to decode the body as UTF-8 each produce an
//! [`ReportOutcome`] and re-arm the transport — there is no terminal failure
//! phase, and no failure ever escapes to the caller as an error. The network
//! stack performs the actual connect, send and receive outside; each stage's
//! result is handed back here, and this module decides what it means.

use vstd::prelude::*;

use crate::utf8::{is_valid_utf8, utf8_body_valid};
use crate::{RX_BUFFER_BYTES, TLS_BUFFER_BYTES};

verus! {

/// Phase of the report exchange.
#[derive(Clone, Copy, Debug, PartialEq, Eq, Structural)]
pub enum TransportPhase {
    /// No exchange in flight.
    Idle,
    /// Building the client and request: name resolution, connect, security
    /// handshake.
    Connecting,
    /// Request built; sending and awaiting the response head.
    Requesting,
    /// Response head received; reading and decoding the body.
    ReceivingBody,
}

/// How one report exchange ended. Every variant is a normal return: the
/// caller proceeds to its next cycle whichever it gets.
#[derive(Clone, Copy, Debug, PartialEq, Eq, Structural)]
pub enum ReportOutcome {
    /// The endpoint answered and the body decoded as UTF-8 text.
    Delivered,
    /// The request could not be built (resolution, connect or handshake
    /// failed).
    RequestFailed,
    /// The request was built but sending it or awaiting the response
    /// failed.
    SendFailed,
    /// The response arrived but its body was truncated or not UTF-8.
    BodyInvalid,
}

/// A stage result reported by the network stack.
#[derive(Clone, Copy, Debug, PartialEq, Eq, Structural)]
pub enum ExchangeEvent {
    /// A new exchange starts.
    Begin,
    /// Request construction finished, successfully or not.
    RequestBuilt(bool),
    /// Sending the request and awaiting the response finished, successfully
    /// or not.
    ResponseReceived(bool),
    /// The body was read; the payload says whether it arrived whole and
    /// decoded as UTF-8.
    BodyRead(bool),
}

/// Phase after one stage result: success advances the exchange, failure at
/// any stage returns to `Idle`, and a stage result out of protocol order
/// changes nothing.
pub open spec fn exchange_step(p: TransportPhase, ev: ExchangeEvent) -> TransportPhase {
    match (p, ev) {
        (TransportPhase::Idle, ExchangeEvent::Begin) => TransportPhase::Connecting,
        (TransportPhase::Connecting, ExchangeEvent::RequestBuilt(true)) => TransportPhase::Requesting,
        (TransportPhase::Connecting, ExchangeEvent::RequestBuilt(false)) => TransportPhase::Idle,
        (TransportPhase::Requesting, ExchangeEvent::ResponseReceived(true)) => TransportPhase::ReceivingBody,
        (TransportPhase::Requesting, ExchangeEvent::ResponseReceived(false)) => TransportPhase::Idle,
        (TransportPhase::ReceivingBody, ExchangeEvent::BodyRead(_)) => TransportPhase::Idle,
        (_, _) => p,
    }
}

/// The outcome a stage result settles, if it ends the exchange: `None`
/// while the exchange is still in flight or the event is out of order.
pub open spec fn exchange_outcome(p: TransportPhase, ev: ExchangeEvent) -> Option<ReportOutcome> {
    match (p, ev) {
        (TransportPhase::Connecting, ExchangeEvent::RequestBuilt(false)) => Some(
            ReportOutcome::RequestFailed,
        ),
        (TransportPhase::Requesting, ExchangeEvent::ResponseReceived(false)) => Some(
            ReportOutcome::SendFailed,
        ),
        (TransportPhase::ReceivingBody, ExchangeEvent::BodyRead(true)) => Some(
            ReportOutcome::Delivered,
        ),
        (TransportPhase::ReceivingBody, ExchangeEvent::BodyRead(false)) => Some(
            ReportOutcome::BodyInvalid,
        ),
        (_, _) => None,
    }
}

/// The outcome of a whole exchange, given how each stage went: the first
/// failing stage names the outcome, and a whole, well-formed body means the
/// report was delivered.
pub open spec fn exchange_result(request_ok: bool, send_ok: bool, body_ok: bool) -> ReportOutcome {
    if !request_ok {
        ReportOutcome::RequestFailed
    } else if !send_ok {
        ReportOutcome::SendFailed
    } else if body_ok {
        ReportOutcome::Delivered
    } else {
        ReportOutcome::BodyInvalid
    }
}

/// A stage result that settles an outcome always returns the transport to
/// `Idle`: whatever failed, the next exchange can begin — there is no
/// terminal failure phase.
pub proof fn lemma_no_terminal_failure(p: TransportPhase, ev: ExchangeEvent)
    ensures
        exchange_outcome(p, ev) is Some ==> exchange_step(p, ev) is Idle,
{
}

/// A full exchange from `Idle` — begin, build, send, read — ends at `Idle`
/// and settles exactly the outcome of its first failing stage, for every
/// combination of stage results.
pub proof fn lemma_exchange_always_completes(request_ok: bool, send_ok: bool, body_ok: bool)
    ensures
        ({
            let p1 = exchange_step(TransportPhase::Idle, ExchangeEvent::Begin);
            let p2 = exchange_step(p1, ExchangeEvent::RequestBuilt(request_ok));
            let p3 = exchange_step(p2, ExchangeEvent::ResponseReceived(send_ok));
            let p4 = exchange_step(p3, ExchangeEvent::BodyRead(body_ok));
            &&& p4 is Idle
            &&& !request_ok ==> exchange_outcome(p1, ExchangeEvent::RequestBuilt(request_ok))
                == Some(exchange_result(request_ok, send_ok, body_ok))
            &&& request_ok && !send_ok ==> exchange_outcome(
                p2,
                ExchangeEvent::ResponseReceived(send_ok),
            ) == Some(exchange_result(request_ok, send_ok, body_ok))
            &&& request_ok && send_ok ==> exchange_outcome(p3, ExchangeEvent::BodyRead(body_ok))
                == Some(exchange_result(request_ok, send_ok, body_ok))
        }),
{
}

/// The three fixed byte regions the transport reuses on every exchange: the
/// plaintext receive buffer and the security layer's read and write scratch
/// space. Allocated once, never resized.
pub struct Buffers {
    rx: Vec<u8>,
    tls_read: Vec<u8>,
    tls_write: Vec<u8>,
}

impl Buffers {
    pub closed spec fn rx_len(self) -> nat {
        self.rx@.len()
    }

    pub closed spec fn tls_read_len(self) -> nat {
        self.tls_read@.len()
    }

    pub closed spec fn tls_write_len(self) -> nat {
        self.tls_write@.len()
    }

    /// Every region has exactly its fixed size.
    pub open spec fn wf(self) -> bool {
        &&& self.rx_len() == RX_BUFFER_BYTES
        &&& self.tls_read_len() == TLS_BUFFER_BYTES
        &&& self.tls_write_len() == TLS_BUFFER_BYTES
    }

    pub fn new() -> (b: Buffers)
        ensures
            b.wf(),
    {
        let mut rx: Vec<u8> = Vec::new();
        rx.resize(RX_BUFFER_BYTES, 0u8);
        let mut tls_read: Vec<u8> = Vec::new();
        tls_read.resize(TLS_BUFFER_BYTES, 0u8);
        let mut tls_write: Vec<u8> = Vec::new();
        tls_write.resize(TLS_BUFFER_BYTES, 0u8);
        Buffers { rx, tls_read, tls_write }
    }
}

/// The singleton report transport: at most one exchange in flight at a
/// time, over buffers owned for the life of the process.
pub struct DataLogTransport {
    phase: TransportPhase,
    buffers: Buffers,
}

impl DataLogTransport {
    pub closed spec fn phase(self) -> TransportPhase {
        self.phase
    }

    pub closed spec fn buffers(self) -> Buffers {
        self.buffers
    }

    pub open spec fn wf(self) -> bool {
        self.buffers().wf()
    }

    /// A fresh transport is idle, with its fixed buffers allocated once.
    pub fn new() -> (t: DataLogTransport)
        ensures
            t.wf(),
            t.phase() is Idle,
    {
        DataLogTransport { phase: TransportPhase::Idle, buffers: Buffers::new() }
    }

    pub fn current_phase(&self) -> (p: TransportPhase)
        ensures
            p == self.phase(),
    {
        self.phase
    }

    /// Start a new exchange. Refused (and nothing changes) unless the
    /// transport is idle: at most one exchange is in flight at a time.
    pub fn begin(&mut self) -> (started: bool)
        requires
            old(self).wf(),
        ensures
            final(self).wf(),
            final(self).buffers() == old(self).buffers(),
            started == (old(self).phase() is Idle),
            final(self).phase() == exchange_step(old(self).phase(), ExchangeEvent::Begin),
    {
        match self.phase {
            TransportPhase::Idle => {
                self.phase = TransportPhase::Connecting;
                true
            },
            _ => false,
        }
    }

    /// Record how request construction went: on success the exchange
    /// advances to sending; on failure it ends with `RequestFailed` and the
    /// transport is idle again.
    pub fn on_request_built(&mut self, ok: bool) -> (r: Option<ReportOutcome>)
        requires
            old(self).wf(),
        ensures
            final(self).wf(),
            final(self).buffers() == old(self).buffers(),
            final(self).phase() == exchange_step(old(self).phase(), ExchangeEvent::RequestBuilt(ok)),
            r == exchange_outcome(old(self).phase(), ExchangeEvent::RequestBuilt(ok)),
    {
        match self.phase {
            TransportPhase::Connecting => {
                if ok {
                    self.phase = TransportPhase::Requesting;
                    None
                } else {
                    self.phase = TransportPhase::Idle;
                    Some(ReportOutcome::RequestFailed)
                }
            },
            _ => None,
        }
    }

    /// Record how sending the request and awaiting the response went: on
    /// success the exchange advances to reading the body; on failure it
    /// ends with `SendFailed` and the transport is idle again.
    pub fn on_response(&mut self, ok: bool) -> (r: Option<ReportOutcome>)
        requires
            old(self).wf(),
        ensures
            final(self).wf(),
            final(self).buffers() == old(self).buffers(),
            final(self).phase() == exchange_step(
                old(self).phase(),
                ExchangeEvent::ResponseReceived(ok),
            ),
            r == exchange_outcome(old(self).phase(), ExchangeEvent::ResponseReceived(ok)),
    {
        match self.phase {
            TransportPhase::Requesting => {
                if ok {
                    self.phase = TransportPhase::ReceivingBody;
                    None
                } else {
                    self.phase = TransportPhase::Idle;
                    Some(ReportOutcome::SendFailed)
                }
            },
            _ => None,
        }
    }

    /// Record the body as read. The exchange ends and the transport is idle
    /// again whatever the body held: `Delivered` if it arrived whole
    /// (`read_ok`) and is well-formed UTF-8, else `BodyInvalid`.
    pub fn on_body(&mut self, read_ok: bool, body: &[u8]) -> (r: Option<ReportOutcome>)
        requires
            old(self).wf(),
        ensures
            final(self).wf(),
            final(self).buffers() == old(self).buffers(),
            final(self).phase() == exchange_step(
                old(self).phase(),
                ExchangeEvent::BodyRead(read_ok && is_valid_utf8(body@)),
            ),
            r == exchange_outcome(
                old(self).phase(),
                ExchangeEvent::BodyRead(read_ok && is_valid_utf8(body@)),
            ),
    {
        match self.phase {
            TransportPhase::ReceivingBody => {
                self.phase = TransportPhase::Idle;
                if read_ok && utf8_body_valid(body) {
                    Some(ReportOutcome::Delivered)
                } else {
                    Some(ReportOutcome::BodyInvalid)
                }
            },
            _ => None,
        }
    }
}

} // verus!
