//! The client's side of the session socket: what to do next, given what just happened.
//!
//! The driver performs one action at a time and reports its outcome as the next event. It
//! connects, asks for a session, then goes round: read one frame, pass it on, send what is queued,
//! pause.
use vstd::prelude::*;
use vstd::string::*;

use crate::message;
use crate::text;

verus! {

/// The pause between two rounds, in milliseconds.
pub const POLL_INTERVAL_MS: u64 = 16;

/// The path of the session socket on the server.
pub const SESSION_PATH: &'static str = "/ws/session";

/// Where the chat panel finds the session server.
pub const CHAT_SOCKET_URL: &'static str = "ws://127.0.0.1:5201/ws/session";

/// The address of the session socket of the server at `url`.
pub open spec fn socket_url_of(url: Seq<char>) -> Seq<char> {
    text::replaced(url, "http"@, "ws"@) + SESSION_PATH@
}

/// The address of the session socket of a server given by its HTTP address.
pub fn socket_url(url: &str) -> (r: String)
    ensures
        r@ == socket_url_of(url@),
{
    proof {
        reveal_strlit("http");
    }
    text::replace_all(url, "http", "ws").concat(SESSION_PATH)
}

/// What a read from the socket gave.
pub enum Frame {
    /// A text frame.
    Text(String),
    /// The other side closed the connection.
    Close,
    /// A frame of another sort.
    Skipped,
    /// Nothing has arrived yet.
    Pending,
    /// The connection is broken.
    Broken,
}

/// What the driver is waiting for.
#[derive(Clone, Copy, PartialEq, Eq, Structural)]
pub enum Phase {
    Connecting,
    Reporting,
    Opening,
    Unblocking,
    Reading,
    Forwarding,
    Draining,
    Sending,
    Pausing,
    Stopped,
}

/// What just happened.
pub enum Event {
    /// The connection stands.
    Connected,
    /// There is no connection; the reason in words.
    ConnectFailed(String),
    /// What was asked for is over, whatever came of it.
    Done,
    /// A read ended.
    Read(Frame),
    /// An event was passed on; `false` where nobody listens any more.
    Emitted(bool),
    /// The next queued message was looked for.
    Queued(Option<String>),
}

/// What to do next.
pub enum Step {
    /// Pass an event on to the reader of the event stream.
    Emit(String),
    /// Send a text frame.
    Send(String),
    /// Let reads return at once.
    SetNonblocking,
    /// Read a frame.
    Read,
    /// Take the next queued message.
    TakeQueued,
    /// Wait this many milliseconds.
    Pause(u64),
    /// End.
    Stop,
}

pub enum FrameView {
    Text(Seq<char>),
    Close,
    Skipped,
    Pending,
    Broken,
}

pub enum EventView {
    Connected,
    ConnectFailed(Seq<char>),
    Done,
    Read(FrameView),
    Emitted(bool),
    Queued(Option<Seq<char>>),
}

pub enum StepView {
    Emit(Seq<char>),
    Send(Seq<char>),
    SetNonblocking,
    Read,
    TakeQueued,
    Pause(nat),
    Stop,
}

impl View for Frame {
    type V = FrameView;

    open spec fn view(&self) -> FrameView {
        match self {
            Frame::Text(s) => FrameView::Text(s@),
            Frame::Close => FrameView::Close,
            Frame::Skipped => FrameView::Skipped,
            Frame::Pending => FrameView::Pending,
            Frame::Broken => FrameView::Broken,
        }
    }
}

impl View for Event {
    type V = EventView;

    open spec fn view(&self) -> EventView {
        match self {
            Event::Connected => EventView::Connected,
            Event::ConnectFailed(s) => EventView::ConnectFailed(s@),
            Event::Done => EventView::Done,
            Event::Read(f) => EventView::Read(f@),
            Event::Emitted(b) => EventView::Emitted(*b),
            Event::Queued(Some(s)) => EventView::Queued(Some(s@)),
            Event::Queued(None) => EventView::Queued(None),
        }
    }
}

impl View for Step {
    type V = StepView;

    open spec fn view(&self) -> StepView {
        match self {
            Step::Emit(s) => StepView::Emit(s@),
            Step::Send(s) => StepView::Send(s@),
            Step::SetNonblocking => StepView::SetNonblocking,
            Step::Read => StepView::Read,
            Step::TakeQueued => StepView::TakeQueued,
            Step::Pause(ms) => StepView::Pause(*ms as nat),
            Step::Stop => StepView::Stop,
        }
    }
}

/// Whether `event` is an outcome of what was asked for in `phase`.
pub open spec fn answers(phase: Phase, event: EventView) -> bool {
    match phase {
        Phase::Connecting => event is Connected || event is ConnectFailed,
        Phase::Reporting => event is Emitted,
        Phase::Opening => event is Done,
        Phase::Unblocking => event is Done,
        Phase::Reading => event is Read,
        Phase::Forwarding => event is Emitted,
        Phase::Draining => event is Queued,
        Phase::Sending => event is Done,
        Phase::Pausing => event is Done,
        Phase::Stopped => false,
    }
}

/// The phase and the step that follow `event` in `phase`. A failure to connect is reported with
/// `prefix` before the reason.
pub open spec fn next(prefix: Seq<char>, phase: Phase, event: EventView) -> (Phase, StepView) {
    match (phase, event) {
        (Phase::Connecting, EventView::Connected) => (
            Phase::Opening,
            StepView::Send(message::json_text(message::create_fields())),
        ),
        (Phase::Connecting, EventView::ConnectFailed(e)) => (
            Phase::Reporting,
            StepView::Emit(message::json_text(message::error_fields(prefix + e))),
        ),
        (Phase::Opening, EventView::Done) => (Phase::Unblocking, StepView::SetNonblocking),
        (Phase::Unblocking, EventView::Done) => (Phase::Reading, StepView::Read),
        (Phase::Reading, EventView::Read(FrameView::Text(s))) => (
            Phase::Forwarding,
            StepView::Emit(s),
        ),
        (Phase::Reading, EventView::Read(FrameView::Skipped)) => (
            Phase::Draining,
            StepView::TakeQueued,
        ),
        (Phase::Reading, EventView::Read(FrameView::Pending)) => (
            Phase::Draining,
            StepView::TakeQueued,
        ),
        (Phase::Forwarding, EventView::Emitted(true)) => (Phase::Draining, StepView::TakeQueued),
        (Phase::Draining, EventView::Queued(Some(p))) => (Phase::Sending, StepView::Send(p)),
        (Phase::Draining, EventView::Queued(None)) => (
            Phase::Pausing,
            StepView::Pause(POLL_INTERVAL_MS as nat),
        ),
        (Phase::Sending, EventView::Done) => (Phase::Draining, StepView::TakeQueued),
        (Phase::Pausing, EventView::Done) => (Phase::Reading, StepView::Read),
        _ => (Phase::Stopped, StepView::Stop),
    }
}

/// A socket driver.
pub struct Socket {
    /// What stands before the reason where a failure to connect is reported.
    pub prefix: String,
    pub phase: Phase,
}

impl Socket {
    /// The driver of the agent connection, before it connects.
    pub fn for_agent() -> (r: Socket)
        ensures
            r.prefix@ == ""@,
            r.phase == Phase::Connecting,
    {
        Socket { prefix: "".to_owned(), phase: Phase::Connecting }
    }

    /// The driver of the chat panel, before it connects.
    pub fn for_chat() -> (r: Socket)
        ensures
            r.prefix@ == "Connect failed: "@,
            r.phase == Phase::Connecting,
    {
        Socket { prefix: "Connect failed: ".to_owned(), phase: Phase::Connecting }
    }

    /// Takes note of what happened and says what to do next. Every event that is no outcome of
    /// what was asked for ends the driver.
    pub fn step(&mut self, event: Event) -> (r: Step)
        ensures
            final(self).prefix == old(self).prefix,
            (final(self).phase, r@) == next(old(self).prefix@, old(self).phase, event@),
            r matches Step::Send(s) ==> old(self).phase == Phase::Connecting ==> (
            message::json_fields(s@) matches Some(m) && message::is_create(m)),
            r matches Step::Emit(s) ==> event matches Event::ConnectFailed(e) ==> (
            message::json_fields(s@) matches Some(m) && message::is_error(
                m,
                old(self).prefix@ + e@,
            )),
    {
        let (phase, step) = match (self.phase, event) {
            (Phase::Connecting, Event::Connected) => (Phase::Opening, Step::Send(message::session_create())),
            (Phase::Connecting, Event::ConnectFailed(e)) => {
                let message = self.prefix.clone().concat(e.as_str());
                (Phase::Reporting, Step::Emit(message::error_event(message.as_str())))
            },
            (Phase::Opening, Event::Done) => (Phase::Unblocking, Step::SetNonblocking),
            (Phase::Unblocking, Event::Done) => (Phase::Reading, Step::Read),
            (Phase::Reading, Event::Read(Frame::Text(s))) => (Phase::Forwarding, Step::Emit(s)),
            (Phase::Reading, Event::Read(Frame::Skipped)) => (Phase::Draining, Step::TakeQueued),
            (Phase::Reading, Event::Read(Frame::Pending)) => (Phase::Draining, Step::TakeQueued),
            (Phase::Forwarding, Event::Emitted(true)) => (Phase::Draining, Step::TakeQueued),
            (Phase::Draining, Event::Queued(Some(p))) => (Phase::Sending, Step::Send(p)),
            (Phase::Draining, Event::Queued(None)) => {
                (Phase::Pausing, Step::Pause(POLL_INTERVAL_MS))
            },
            (Phase::Sending, Event::Done) => (Phase::Draining, Step::TakeQueued),
            (Phase::Pausing, Event::Done) => (Phase::Reading, Step::Read),
            _ => (Phase::Stopped, Step::Stop),
        };
        self.phase = phase;
        step
    }
}

/// A driver that has stopped stays so.
pub proof fn law_stopped_is_final(prefix: Seq<char>, event: EventView)
    ensures
        next(prefix, Phase::Stopped, event) == (Phase::Stopped, StepView::Stop),
{
}

/// A driver that is told the outcomes of what it asked for stops only after it has reported that
/// there is no connection, when the connection closes or breaks, or when nobody listens any more.
pub proof fn law_reasons_to_stop(prefix: Seq<char>, phase: Phase, event: EventView)
    requires
        answers(phase, event),
    ensures
        next(prefix, phase, event).1 is Stop <==> (phase == Phase::Reporting || event
            == EventView::Read(FrameView::Close) || event == EventView::Read(FrameView::Broken)
            || (phase == Phase::Forwarding && event == EventView::Emitted(false))),
        next(prefix, phase, event).0 == Phase::Stopped <==> next(prefix, phase, event).1 is Stop,
{
}

/// The steps that a driver takes over a run of events.
pub open spec fn run(prefix: Seq<char>, phase: Phase, events: Seq<EventView>) -> Seq<StepView>
    decreases events.len(),
{
    if events.len() == 0 {
        Seq::empty()
    } else {
        let (after, step) = next(prefix, phase, events[0]);
        seq![step] + run(prefix, after, events.skip(1))
    }
}

/// Whether each event of a run is an outcome of what the driver asked for before it.
pub open spec fn all_answer(prefix: Seq<char>, phase: Phase, events: Seq<EventView>) -> bool
    decreases events.len(),
{
    events.len() > 0 ==> answers(phase, events[0]) && all_answer(
        prefix,
        next(prefix, phase, events[0]).0,
        events.skip(1),
    )
}

/// The texts that were read in a run of events.
pub open spec fn texts_read(events: Seq<EventView>) -> Seq<Seq<char>>
    decreases events.len(),
{
    if events.len() == 0 {
        Seq::empty()
    } else {
        match events[0] {
            EventView::Read(FrameView::Text(s)) => seq![s] + texts_read(events.skip(1)),
            _ => texts_read(events.skip(1)),
        }
    }
}

/// The queued messages that were found in a run of events.
pub open spec fn messages_queued(events: Seq<EventView>) -> Seq<Seq<char>>
    decreases events.len(),
{
    if events.len() == 0 {
        Seq::empty()
    } else {
        match events[0] {
            EventView::Queued(Some(s)) => seq![s] + messages_queued(events.skip(1)),
            _ => messages_queued(events.skip(1)),
        }
    }
}

/// What is passed on in a run of steps.
pub open spec fn texts_emitted(steps: Seq<StepView>) -> Seq<Seq<char>>
    decreases steps.len(),
{
    if steps.len() == 0 {
        Seq::empty()
    } else {
        match steps[0] {
            StepView::Emit(s) => seq![s] + texts_emitted(steps.skip(1)),
            _ => texts_emitted(steps.skip(1)),
        }
    }
}

/// What is sent in a run of steps.
pub open spec fn messages_sent(steps: Seq<StepView>) -> Seq<Seq<char>>
    decreases steps.len(),
{
    if steps.len() == 0 {
        Seq::empty()
    } else {
        match steps[0] {
            StepView::Send(s) => seq![s] + messages_sent(steps.skip(1)),
            _ => messages_sent(steps.skip(1)),
        }
    }
}

/// Once connected, a driver passes on the texts that it reads and sends the messages that it finds
/// queued: all of them, unchanged, in order, and nothing else.
pub proof fn law_driver_is_faithful(prefix: Seq<char>, phase: Phase, events: Seq<EventView>)
    requires
        phase != Phase::Connecting,
        all_answer(prefix, phase, events),
    ensures
        texts_emitted(run(prefix, phase, events)) == texts_read(events),
        messages_sent(run(prefix, phase, events)) == messages_queued(events),
    decreases events.len(),
{
    if events.len() > 0 {
        let (after, step) = next(prefix, phase, events[0]);
        law_driver_is_faithful(prefix, after, events.skip(1));
        assert((seq![step] + run(prefix, after, events.skip(1))).skip(1) == run(
            prefix,
            after,
            events.skip(1),
        ));
    }
}

/// On a connection, the request for a session is sent before anything that is queued.
pub proof fn law_session_is_asked_for_first(prefix: Seq<char>, events: Seq<EventView>)
    requires
        events.len() > 0,
        events[0] == EventView::Connected,
        all_answer(prefix, Phase::Connecting, events),
    ensures
        messages_sent(run(prefix, Phase::Connecting, events)) == seq![
            message::json_text(message::create_fields()),
        ] + messages_queued(events),
        texts_emitted(run(prefix, Phase::Connecting, events)) == texts_read(events),
{
    let (after, step) = next(prefix, Phase::Connecting, events[0]);
    law_driver_is_faithful(prefix, after, events.skip(1));
    assert((seq![step] + run(prefix, after, events.skip(1))).skip(1) == run(
        prefix,
        after,
        events.skip(1),
    ));
}

/// The socket of a server at an HTTP address is at the same address with `ws` for `http`, so that
/// HTTPS becomes secure WebSocket.
pub proof fn law_socket_scheme(rest: Seq<char>)
    requires
        !text::occurs("http"@, rest),
    ensures
        socket_url_of("http"@ + rest) == "ws"@ + rest + SESSION_PATH@,
{
    reveal_strlit("http");
    let url = "http"@ + rest;
    assert("http"@.is_prefix_of(url)) by {
        assert(url.subrange(0, 4) == "http"@);
    }
    assert(url.skip(4) == rest);
    text::law_replace_nothing(rest, "http"@, "ws"@);
}

/// A driver that gets its connection asks for a session, makes reads return at once, and reads.
pub proof fn law_connection_is_opened(prefix: Seq<char>)
    ensures
        ({
            let (opening, first) = next(prefix, Phase::Connecting, EventView::Connected);
            let (unblocking, second) = next(prefix, opening, EventView::Done);
            &&& first == StepView::Send(
                message::json_text(
                    seq![
                        ("type"@, "session.create"@),
                        ("agent"@, "bala"@),
                        ("model"@, Seq::<char>::empty()),
                    ],
                ),
            )
            &&& second == StepView::SetNonblocking
            &&& next(prefix, unblocking, EventView::Done) == (Phase::Reading, StepView::Read)
        }),
{
    message::law_session_request();
}

/// A driver that gets no connection reports the reason, behind its own words, and stops.
pub proof fn law_missing_connection_is_reported(
    prefix: Seq<char>,
    reason: Seq<char>,
    listening: bool,
)
    ensures
        ({
            let (reporting, step) = next(
                prefix,
                Phase::Connecting,
                EventView::ConnectFailed(reason),
            );
            &&& step == StepView::Emit(
                message::json_text(seq![("type"@, "error"@), ("message"@, prefix + reason)]),
            )
            &&& next(prefix, reporting, EventView::Emitted(listening)) == (
                Phase::Stopped,
                StepView::Stop,
            )
        }),
{
    message::law_report_carries_the_reason(prefix + reason);
}

/// A round of the driver: one frame is read and, where it is a text, passed on; then the queue is
/// sent until nothing is left in it; then comes a pause of sixteen milliseconds and the next read.
pub proof fn law_round(prefix: Seq<char>, s: Seq<char>)
    ensures
        ({
            let (forwarding, step) = next(
                prefix,
                Phase::Reading,
                EventView::Read(FrameView::Text(s)),
            );
            &&& step == StepView::Emit(s)
            &&& next(prefix, forwarding, EventView::Emitted(true)) == (
                Phase::Draining,
                StepView::TakeQueued,
            )
        }),
        forall|f: FrameView|
            f is Skipped || f is Pending ==> #[trigger] next(
                prefix,
                Phase::Reading,
                EventView::Read(f),
            ) == (Phase::Draining, StepView::TakeQueued),
        ({
            let (sending, step) = next(prefix, Phase::Draining, EventView::Queued(Some(s)));
            &&& step == StepView::Send(s)
            &&& next(prefix, sending, EventView::Done) == (Phase::Draining, StepView::TakeQueued)
        }),
        ({
            let (pausing, step) = next(prefix, Phase::Draining, EventView::Queued(None));
            &&& step == StepView::Pause(16)
            &&& next(prefix, pausing, EventView::Done) == (Phase::Reading, StepView::Read)
        }),
{
}

/// A driver that is told something else than the outcome of what it asked for stops.
pub proof fn law_no_answer_no_step(prefix: Seq<char>, phase: Phase, event: EventView)
    requires
        !answers(phase, event),
    ensures
        next(prefix, phase, event) == (Phase::Stopped, StepView::Stop),
{
}

/// The socket's address is the server's with `ws` in place of each `http`, and the path of the
/// session socket behind it.
pub proof fn law_socket_address(a: Seq<char>, b: Seq<char>)
    ensures
        !text::occurs("http"@, b) ==> socket_url_of(b) == b + "/ws/session"@,
        (forall|i: int|
            0 <= i < a.len() ==> !(#[trigger] "http"@.is_prefix_of((a + "http"@ + b).skip(i))))
            ==> socket_url_of(a + "http"@ + b) == a + "ws"@ + socket_url_of(b),
{
    reveal_strlit("http");
    if !text::occurs("http"@, b) {
        text::law_replace_nothing(b, "http"@, "ws"@);
    }
    if forall|i: int|
        0 <= i < a.len() ==> !(#[trigger] "http"@.is_prefix_of((a + "http"@ + b).skip(i))) {
        text::law_replace_first(a, "http"@, "ws"@, b);
        let rest = text::replaced(b, "http"@, "ws"@);
        assert(a + "ws"@ + rest + SESSION_PATH@ == a + "ws"@ + (rest + SESSION_PATH@));
    }
}

/// What happened and what to do are seen as they are told.
pub proof fn law_step_view(s: String, ms: u64, listening: bool)
    ensures
        Event::Connected@ == EventView::Connected,
        Event::ConnectFailed(s)@ == EventView::ConnectFailed(s@),
        Event::Done@ == EventView::Done,
        Event::Read(Frame::Text(s))@ == EventView::Read(FrameView::Text(s@)),
        Event::Read(Frame::Close)@ == EventView::Read(FrameView::Close),
        Event::Read(Frame::Skipped)@ == EventView::Read(FrameView::Skipped),
        Event::Read(Frame::Pending)@ == EventView::Read(FrameView::Pending),
        Event::Read(Frame::Broken)@ == EventView::Read(FrameView::Broken),
        Event::Emitted(listening)@ == EventView::Emitted(listening),
        Event::Queued(Some(s))@ == EventView::Queued(Some(s@)),
        Event::Queued(None)@ == EventView::Queued(None),
        Step::Emit(s)@ == StepView::Emit(s@),
        Step::Send(s)@ == StepView::Send(s@),
        Step::SetNonblocking@ == StepView::SetNonblocking,
        Step::Read@ == StepView::Read,
        Step::TakeQueued@ == StepView::TakeQueued,
        Step::Pause(ms)@ == StepView::Pause(ms as nat),
        Step::Stop@ == StepView::Stop,
{
}

} // verus!
