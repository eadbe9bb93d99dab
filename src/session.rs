//! The per-connection state machine. The caller owns the connection and the
//! handlers: it hands each event to [`ConsoleState::step`], performs the action
//! that comes back, and reports what came of it as the next event.

use crate::builder::{admitted, ConsoleState};
use crate::codec::{
    decode_envelope, decoded, envelope_bytes, is_envelope, lemma_envelope_round_trip, MAX_PAYLOAD_LEN,
};
use crate::text::{ensure_newline, weak_text, weak_text_of, with_newline};
use vstd::prelude::*;

verus! {

/// What a handler returned.
pub enum Outcome<T> {
    /// A reply to send back on the same connection.
    Reply(T),
    /// No reply; for free text: "not mine".
    NoReply,
    /// The handler failed. The failure is the caller's to log; the session goes on.
    Failed,
}

/// How a frame is dispatched.
pub enum Route {
    /// An envelope for the handler at `index`, with its payload.
    Typed { index: usize, payload: Vec<u8> },
    /// An envelope for a service id that no handler is registered under.
    Unknown { service_id: u64 },
    /// Not an envelope: the free text it stands for.
    Text { text: String },
}

/// Where a session stands.
pub enum Phase {
    /// Accepted, nothing sent yet.
    Greeting,
    /// Waiting for the next frame.
    Reading,
    /// Waiting for a handler's answer to an envelope.
    Typed,
    /// Offering `text` to the handlers in registry order, now to the one at `index`.
    Weak { text: String, index: usize },
    /// Ended: nothing more is read or sent.
    Closed,
}

/// What happened since the last action.
pub enum Event {
    /// The connection was accepted.
    Started,
    /// A frame arrived.
    Frame(Vec<u8>),
    /// A frame could not be read, but the connection stands.
    ReadFailed,
    /// The peer closed the connection, or it failed for good.
    PeerClosed,
    /// The console's shutdown signal fired.
    StopSignal,
    /// The answer of a handler to an envelope.
    Handled(Outcome<Vec<u8>>),
    /// The answer of a handler to free text.
    WeakHandled(Outcome<String>),
}

/// What the caller does next.
pub enum Action {
    /// Send this text, then wait for the next frame.
    SendText(String),
    /// Send these bytes, then wait for the next frame.
    SendBytes(Vec<u8>),
    /// Wait for the next frame.
    Read,
    /// Hand `payload` to the handler at `index`, and report its answer.
    Handle { index: usize, payload: Vec<u8> },
    /// Hand `text` to the handler at `index`, and report its answer.
    WeakHandle { index: usize, text: String },
    /// Close the connection.
    Close,
}

/// What happened at the listening socket.
pub enum AcceptEvent {
    /// A connection arrived; whether its peer is on the loopback interface,
    /// `None` where the peer's address could not be read.
    Connection(Option<bool>),
    /// Accepting failed; the socket stands.
    AcceptFailed,
    /// The console's shutdown signal fired.
    StopSignal,
}

/// What the accept loop does next.
pub enum AcceptAction {
    /// Start a session on the new connection, in [`Phase::Greeting`].
    Serve,
    /// Close the new connection at once, sending nothing.
    Refuse,
    /// Go on accepting.
    Continue,
    /// Stop accepting, for good.
    Stop,
}

/// Whether `phase` waits for `event`.
pub open spec fn expects(phase: Phase, event: Event) -> bool {
    match phase {
        Phase::Greeting => event is Started,
        Phase::Reading => event is Frame || event is ReadFailed,
        Phase::Typed => event is Handled,
        Phase::Weak { .. } => event is WeakHandled,
        Phase::Closed => false,
    }
}

/// Whether `event` in `phase` ends the session: the shutdown signal, the
/// peer's close, or an event that the phase does not wait for.
pub open spec fn ends(phase: Phase, event: Event) -> bool {
    event is StopSignal || event is PeerClosed || !expects(phase, event)
}

/// The reply that a scan of free-text answers, from the one at `i` on, sends:
/// the first reply, line-terminated; none where no handler replies.
pub open spec fn scan(outs: Seq<Outcome<String>>, i: nat) -> Option<Seq<char>>
    decreases outs.len() - i,
{
    if i >= outs.len() {
        None
    } else {
        match outs[i as int] {
            Outcome::Reply(t) => Some(with_newline(t@)),
            _ => scan(outs, i + 1),
        }
    }
}

/// `index` is the first position of `id` in `ids`.
pub open spec fn first_at(ids: Seq<u64>, id: u64, index: int) -> bool {
    0 <= index < ids.len() && ids[index] == id && forall|j: int| 0 <= j < index ==> ids[j] != id
}

/// `a` sends the text `t`.
pub open spec fn sends_text(a: Action, t: Seq<char>) -> bool {
    match a {
        Action::SendText(x) => x@ == t,
        _ => false,
    }
}

/// `a` sends the bytes `b`.
pub open spec fn sends_bytes(a: Action, b: Seq<u8>) -> bool {
    match a {
        Action::SendBytes(x) => x@ == b,
        _ => false,
    }
}

/// `a` hands `text` to the handler at `index`.
pub open spec fn offers_text(a: Action, index: int, text: Seq<char>) -> bool {
    match a {
        Action::WeakHandle { index: i, text: t } => i == index && t@ == text,
        _ => false,
    }
}

/// `p` offers `text` to the handler at `index`.
pub open spec fn offering(p: Phase, index: int, text: Seq<char>) -> bool {
    match p {
        Phase::Weak { text: t, index: i } => i == index && t@ == text,
        _ => false,
    }
}

/// One move of a session on a console whose registry holds `ids` and whose
/// welcome text is `welcome`: from `phase`, on `event`, to `next`, doing `action`.
///
/// The shutdown signal and the peer's close end the session in every phase.
/// The welcome text goes first. An envelope goes to the first handler under its
/// service id, with its payload; one for an unknown id is dropped. Other bytes
/// become free text, offered to the handlers in registry order until one
/// replies; its reply is sent line-terminated. A handler's failure, or its
/// abstention, sends nothing and ends nothing.
pub open spec fn is_step(
    ids: Seq<u64>,
    welcome: Seq<char>,
    phase: Phase,
    event: Event,
    next: Phase,
    action: Action,
) -> bool {
    if ends(phase, event) {
        next is Closed && action is Close
    } else {
        match event {
            Event::Started => next is Reading && sends_text(action, welcome),
            Event::ReadFailed => next is Reading && action is Read,
            Event::Frame(b) => match decoded(b@) {
                Some(v) => if ids.contains(v.0) {
                    next is Typed && match action {
                        Action::Handle { index, payload } => first_at(ids, v.0, index as int)
                            && payload@ == v.1,
                        _ => false,
                    }
                } else {
                    next is Reading && action is Read
                },
                None => if ids.len() == 0 {
                    next is Reading && action is Read
                } else {
                    offering(next, 0, weak_text_of(b@)) && offers_text(action, 0, weak_text_of(b@))
                },
            },
            Event::Handled(o) => next is Reading && match o {
                Outcome::Reply(b) => sends_bytes(action, b@),
                _ => action is Read,
            },
            Event::WeakHandled(o) => match phase {
                Phase::Weak { text, index } => match o {
                    Outcome::Reply(t) => next is Reading && sends_text(action, with_newline(t@)),
                    _ => if index + 1 < ids.len() {
                        offering(next, index + 1, text@) && offers_text(action, index + 1, text@)
                    } else {
                        next is Reading && action is Read
                    },
                },
                _ => false,
            },
            _ => false,
        }
    }
}

/// Law: where exactly one handler replies to a free text, its reply is sent,
/// wherever it stands in registry order.
pub proof fn lemma_single_reply_delivered(outs: Seq<Outcome<String>>, k: int)
    requires
        0 <= k < outs.len(),
        outs[k] is Reply,
        forall|j: int| 0 <= j < outs.len() && j != k ==> !(outs[j] is Reply),
    ensures
        scan(outs, 0) == Some(with_newline(outs[k]->Reply_0@)),
{
    lemma_scan_from(outs, 0, k);
}

proof fn lemma_scan_from(outs: Seq<Outcome<String>>, i: nat, k: int)
    requires
        i <= k < outs.len(),
        outs[k] is Reply,
        forall|j: int| i <= j < k ==> !(outs[j] is Reply),
    ensures
        scan(outs, i) == Some(with_newline(outs[k]->Reply_0@)),
    decreases k - i,
{
    if i < k {
        lemma_scan_from(outs, i + 1, k);
    }
}

/// Law: where no handler replies to a free text, nothing is sent.
pub proof fn lemma_no_reply_silent(outs: Seq<Outcome<String>>, i: nat)
    requires
        forall|j: int| 0 <= j < outs.len() ==> !(outs[j] is Reply),
    ensures
        scan(outs, i) is None,
    decreases outs.len() - i,
{
    if i < outs.len() {
        lemma_no_reply_silent(outs, i + 1);
    }
}

/// Law: the moves of a session through a free-text scan send what `scan` gives.
/// Where the handler at `i` answers `outs[i]`, the session sends the scan's
/// reply, or offers the same text to the next handler with the same reply
/// still to come, or, after the last handler, sends nothing.
pub proof fn lemma_weak_step_follows_scan(
    ids: Seq<u64>,
    welcome: Seq<char>,
    text: String,
    i: usize,
    outs: Seq<Outcome<String>>,
    next: Phase,
    action: Action,
)
    requires
        outs.len() == ids.len(),
        i < ids.len(),
        is_step(ids, welcome, Phase::Weak { text, index: i }, Event::WeakHandled(outs[i as int]), next, action),
    ensures
        outs[i as int] is Reply ==> (scan(outs, i as nat) matches Some(t) && sends_text(action, t)),
        !(outs[i as int] is Reply) && i + 1 < ids.len() ==> offering(next, i + 1, text@)
            && scan(outs, i as nat) == scan(outs, (i + 1) as nat),
        !(outs[i as int] is Reply) && i + 1 >= ids.len() ==> action is Read && scan(outs, i as nat) is None,
{
    assert(!ends(Phase::Weak { text, index: i }, Event::WeakHandled(outs[i as int])));
}

/// Law: an envelope for a registered service reaches the first handler under
/// that id with its payload, bit for bit.
pub proof fn lemma_typed_payload_delivered(
    ids: Seq<u64>,
    welcome: Seq<char>,
    frame: Vec<u8>,
    service_id: u64,
    payload: Seq<u8>,
    next: Phase,
    action: Action,
)
    requires
        payload.len() <= MAX_PAYLOAD_LEN,
        frame@ == envelope_bytes(service_id, payload),
        ids.contains(service_id),
        is_step(ids, welcome, Phase::Reading, Event::Frame(frame), next, action),
    ensures
        next is Typed,
        action matches Action::Handle { index, payload: p } && first_at(ids, service_id, index as int)
            && p@ == payload,
{
    lemma_envelope_round_trip(service_id, payload);
}

/// Law: bytes that are not an envelope are free text: the first handler is
/// offered their lossy UTF-8 reading, trimmed.
pub proof fn lemma_text_frame_offered(
    ids: Seq<u64>,
    welcome: Seq<char>,
    frame: Vec<u8>,
    next: Phase,
    action: Action,
)
    requires
        !is_envelope(frame@),
        ids.len() > 0,
        is_step(ids, welcome, Phase::Reading, Event::Frame(frame), next, action),
    ensures
        offering(next, 0, weak_text_of(frame@)),
        offers_text(action, 0, weak_text_of(frame@)),
{
}

/// Law: once the shutdown signal fires, a session closes, whatever its phase.
pub proof fn lemma_stop_closes(
    ids: Seq<u64>,
    welcome: Seq<char>,
    phase: Phase,
    next: Phase,
    action: Action,
)
    requires
        is_step(ids, welcome, phase, Event::StopSignal, next, action),
    ensures
        next is Closed,
        action is Close,
{
}

/// Law: an admitted session's first action sends the welcome text.
pub proof fn lemma_welcome_first(
    ids: Seq<u64>,
    welcome: Seq<char>,
    next: Phase,
    action: Action,
)
    requires
        is_step(ids, welcome, Phase::Greeting, Event::Started, next, action),
    ensures
        next is Reading,
        sends_text(action, welcome),
{
}

impl<H, A> ConsoleState<H, A> {
    /// Decides what the accept loop does: stop on the shutdown signal, go on
    /// after a failed accept, and serve a new connection only where its peer is
    /// admitted.
    pub fn on_accept(&self, event: AcceptEvent) -> (r: AcceptAction)
        ensures
            match event {
                AcceptEvent::Connection(peer) => if admitted(self.localhost_only(), peer) {
                    r is Serve
                } else {
                    r is Refuse
                },
                AcceptEvent::AcceptFailed => r is Continue,
                AcceptEvent::StopSignal => r is Stop,
            },
    {
        match event {
            AcceptEvent::Connection(peer) => if self.admits(peer) {
                AcceptAction::Serve
            } else {
                AcceptAction::Refuse
            },
            AcceptEvent::AcceptFailed => AcceptAction::Continue,
            AcceptEvent::StopSignal => AcceptAction::Stop,
        }
    }

    /// Decides how a frame is dispatched: an envelope goes to the handler
    /// registered under its service id; other bytes are read as free text.
    pub fn route(&self, bytes: &[u8]) -> (r: Route)
        ensures
            match decoded(bytes@) {
                Some(v) => if self.service_ids().contains(v.0) {
                    match r {
                        Route::Typed { index, payload } => first_at(self.service_ids(), v.0, index as int)
                            && payload@ == v.1,
                        _ => false,
                    }
                } else {
                    r == (Route::Unknown { service_id: v.0 })
                },
                None => match r {
                    Route::Text { text } => text@ == weak_text_of(bytes@),
                    _ => false,
                },
            },
    {
        match decode_envelope(bytes) {
            Some(e) => match self.find(e.service_id) {
                Some(index) => Route::Typed { index, payload: e.payload },
                None => Route::Unknown { service_id: e.service_id },
            },
            None => Route::Text { text: weak_text(bytes) },
        }
    }

    /// The next phase of a session and the action to perform, from its phase
    /// and what just happened.
    pub fn step(&self, phase: Phase, event: Event) -> (r: (Phase, Action))
        ensures
            is_step(self.service_ids(), self.welcome_text(), phase, event, r.0, r.1),
    {
        match (phase, event) {
            (_, Event::StopSignal) => (Phase::Closed, Action::Close),
            (_, Event::PeerClosed) => (Phase::Closed, Action::Close),
            (Phase::Greeting, Event::Started) => (Phase::Reading, Action::SendText(self.welcome().clone())),
            (Phase::Reading, Event::ReadFailed) => (Phase::Reading, Action::Read),
            (Phase::Reading, Event::Frame(b)) => match self.route(b.as_slice()) {
                Route::Typed { index, payload } => (Phase::Typed, Action::Handle { index, payload }),
                Route::Unknown { .. } => (Phase::Reading, Action::Read),
                Route::Text { text } => {
                    if self.len() == 0 {
                        (Phase::Reading, Action::Read)
                    } else {
                        let t = text.clone();
                        (Phase::Weak { text, index: 0 }, Action::WeakHandle { index: 0, text: t })
                    }
                },
            },
            (Phase::Typed, Event::Handled(o)) => match o {
                Outcome::Reply(b) => (Phase::Reading, Action::SendBytes(b)),
                _ => (Phase::Reading, Action::Read),
            },
            (Phase::Weak { text, index }, Event::WeakHandled(o)) => match o {
                Outcome::Reply(t) => (Phase::Reading, Action::SendText(ensure_newline(t))),
                _ => {
                    let n = self.len();
                    if n > 0 && index < n - 1 {
                        let t = text.clone();
                        (Phase::Weak { text, index: index + 1 }, Action::WeakHandle { index: index + 1, text: t })
                    } else {
                        (Phase::Reading, Action::Read)
                    }
                },
            },
            _ => (Phase::Closed, Action::Close),
        }
    }
}

} // verus!
