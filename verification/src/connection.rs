//! The agent connection: opening sessions on the server and running prompts on them.
use vstd::prelude::*;
use vstd::string::*;

use crate::message;
use crate::message::{Fields, Message};
use crate::socket;
use crate::text;
use crate::text::same_text;

verus! {

/// The name under which the agent is registered.
pub const AGENT_ID: &'static str = "haak";

/// A session that the server has opened.
pub struct HaakSession {
    /// The server's name for the session, under which it is looked up here too.
    pub haakd_session_id: String,
    /// The event channel that was opened with the session.
    pub channel: usize,
}

/// A connection to a session server and the sessions that were opened through it.
///
/// Each session comes with an event channel of its own. A channel has one receiver, which a prompt
/// takes while it runs. Channels are numbered from 0 in the order in which they were opened.
pub struct HaakConnection {
    /// The HTTP address of the server.
    pub url: String,
    pub sessions: Vec<HaakSession>,
    /// For each channel, whether its receiver is there to be taken.
    pub receivers: Vec<bool>,
}

/// A connection, in contracts: the sessions are a map from their names to their channels.
#[verifier::ext_equal]
pub struct ConnectionView {
    pub url: Seq<char>,
    pub sessions: Map<Seq<char>, nat>,
    pub receivers: Seq<bool>,
}

/// The channels of the sessions in a list, by session name.
pub open spec fn sessions_of(list: Seq<HaakSession>) -> Map<Seq<char>, nat>
    decreases list.len(),
{
    if list.len() == 0 {
        Map::empty()
    } else {
        sessions_of(list.drop_last()).insert(
            list.last().haakd_session_id@,
            list.last().channel as nat,
        )
    }
}

/// Whether no two sessions in a list have one name.
pub open spec fn distinct_names(list: Seq<HaakSession>) -> bool {
    forall|i: int, j: int|
        0 <= i < j < list.len() ==> (#[trigger] list[i]).haakd_session_id@ != (
        #[trigger] list[j]).haakd_session_id@
}

/// Whether no two sessions in a list have one channel, and each channel is below `bound`.
pub open spec fn distinct_channels(list: Seq<HaakSession>, bound: nat) -> bool {
    &&& forall|i: int| 0 <= i < list.len() ==> (#[trigger] list[i]).channel < bound
    &&& forall|i: int, j: int|
        0 <= i < j < list.len() ==> (#[trigger] list[i]).channel != (#[trigger] list[j]).channel
}

proof fn lemma_sessions_of(list: Seq<HaakSession>)
    requires
        distinct_names(list),
    ensures
        forall|i: int|
            0 <= i < list.len() ==> sessions_of(list).contains_key(
                (#[trigger] list[i]).haakd_session_id@,
            ) && sessions_of(list)[list[i].haakd_session_id@] == list[i].channel,
        forall|k: Seq<char>| #[trigger]
            sessions_of(list).contains_key(k) ==> exists|i: int|
                0 <= i < list.len() && (#[trigger] list[i]).haakd_session_id@ == k,
    decreases list.len(),
{
    if list.len() > 0 {
        let front = list.drop_last();
        lemma_sessions_of(front);
        assert forall|k: Seq<char>| #[trigger] sessions_of(list).contains_key(k) implies exists|
            i: int,
        |
            0 <= i < list.len() && (#[trigger] list[i]).haakd_session_id@ == k by {
            if k == list.last().haakd_session_id@ {
                assert(list[list.len() - 1].haakd_session_id@ == k);
            } else {
                assert(sessions_of(front).contains_key(k));
                let i = choose|i: int|
                    0 <= i < front.len() && (#[trigger] front[i]).haakd_session_id@ == k;
                assert(list[i].haakd_session_id@ == k);
            }
        }
        assert forall|i: int| 0 <= i < list.len() implies sessions_of(list).contains_key(
            (#[trigger] list[i]).haakd_session_id@,
        ) && sessions_of(list)[list[i].haakd_session_id@] == list[i].channel by {
            if i < list.len() - 1 {
                assert(front[i] == list[i]);
                assert(list[list.len() - 1].haakd_session_id@ != list[i].haakd_session_id@);
            }
        }
    }
}

/// A block of a prompt.
pub enum ContentBlock {
    Text(String),
    /// A block that is no text; prompts leave it out.
    Other,
}

/// The texts among the blocks of a prompt.
pub open spec fn prompt_texts(blocks: Seq<ContentBlock>) -> Seq<Seq<char>>
    decreases blocks.len(),
{
    if blocks.len() == 0 {
        Seq::empty()
    } else {
        match blocks.last() {
            ContentBlock::Text(s) => prompt_texts(blocks.drop_last()).push(s@),
            ContentBlock::Other => prompt_texts(blocks.drop_last()),
        }
    }
}

/// The text of a prompt: its text blocks, one a line.
pub open spec fn prompt_text_of(blocks: Seq<ContentBlock>) -> Seq<char> {
    text::joined(prompt_texts(blocks), "\n"@)
}

/// Joins the text blocks of a prompt.
pub fn prompt_text(blocks: &Vec<ContentBlock>) -> (r: String)
    ensures
        r@ == prompt_text_of(blocks@),
{
    let mut out = String::new();
    let mut first: bool = true;
    let mut i: usize = 0;
    proof {
        assert(blocks@.take(0) == Seq::<ContentBlock>::empty());
    }
    while i < blocks.len()
        invariant
            i <= blocks@.len(),
            first == (prompt_texts(blocks@.take(i as int)).len() == 0),
            out@ == text::joined(prompt_texts(blocks@.take(i as int)), "\n"@),
        decreases blocks@.len() - i,
    {
        let ghost texts = prompt_texts(blocks@.take(i as int));
        proof {
            assert(blocks@.take(i as int + 1).drop_last() == blocks@.take(i as int));
            assert(blocks@.take(i as int + 1).last() == blocks@[i as int]);
        }
        match &blocks[i] {
            ContentBlock::Text(s) => {
                proof {
                    assert(texts.push(s@).drop_last() == texts);
                }
                if first {
                    first = false;
                } else {
                    out.append("\n");
                }
                out.append(s.as_str());
            },
            ContentBlock::Other => {},
        }
        i = i + 1;
    }
    proof {
        assert(blocks@.take(blocks@.len() as int) == blocks@);
    }
    out
}

/// Why no session was opened.
pub enum SessionError {
    /// The server reported a failure.
    Server(String),
    /// The event stream ended, or the server named no session.
    NotCreated,
}

impl SessionError {
    /// The failure in words, in contracts.
    pub open spec fn words(self) -> Seq<char> {
        match self {
            SessionError::Server(m) => "haakd: "@ + m@,
            SessionError::NotCreated => "haakd session not created"@,
        }
    }

    /// The failure in words.
    pub fn message(&self) -> (r: String)
        ensures
            r@ == self.words(),
    {
        match self {
            SessionError::Server(m) => "haakd: ".to_owned().concat(m.as_str()),
            SessionError::NotCreated => "haakd session not created".to_owned(),
        }
    }
}

/// What an event means to someone who waits for a session.
pub enum NewSession {
    /// Nothing yet.
    Wait,
    /// The session stands, with its channel.
    Created { session_id: String, channel: usize },
    /// There will be none.
    Failed(SessionError),
}

pub enum NewSessionView {
    Wait,
    Created { session_id: Seq<char>, channel: nat },
    Server(Seq<char>),
    NotCreated,
}

impl View for NewSession {
    type V = NewSessionView;

    open spec fn view(&self) -> NewSessionView {
        match self {
            NewSession::Wait => NewSessionView::Wait,
            NewSession::Created { session_id, channel } => NewSessionView::Created {
                session_id: session_id@,
                channel: *channel as nat,
            },
            NewSession::Failed(SessionError::Server(m)) => NewSessionView::Server(m@),
            NewSession::Failed(SessionError::NotCreated) => NewSessionView::NotCreated,
        }
    }
}

/// The connection `c` with a session `id` on a new channel. One of the same name is replaced.
pub open spec fn with_session(c: ConnectionView, id: Seq<char>) -> ConnectionView {
    ConnectionView {
        url: c.url,
        sessions: c.sessions.insert(id, c.receivers.len()),
        receivers: c.receivers.push(true),
    }
}

/// What the message `m` means to someone who waits for a session of `c`, and `c` after it.
pub open spec fn session_opening(c: ConnectionView, m: Fields) -> (ConnectionView, NewSessionView) {
    let kind = message::kind_of(m);
    if kind == "session.created"@ {
        let id = message::text_or(m, "sessionId"@, ""@);
        if id.len() == 0 {
            (c, NewSessionView::NotCreated)
        } else {
            (
                with_session(c, id),
                NewSessionView::Created { session_id: id, channel: c.receivers.len() },
            )
        }
    } else if kind == "error"@ {
        (c, NewSessionView::Server(message::text_or(m, "message"@, "?"@)))
    } else {
        (c, NewSessionView::Wait)
    }
}

/// What an event means to someone who waits for a session of `c`, and `c` after it. An event is
/// `None` where its text is no JSON.
pub open spec fn opening_event(c: ConnectionView, event: Option<Fields>) -> (
    ConnectionView,
    NewSessionView,
) {
    match event {
        Some(m) => session_opening(c, m),
        None => (c, NewSessionView::Wait),
    }
}

/// What comes of waiting for a session of `c` through `events`, after which the stream ends, and
/// `c` after it.
pub open spec fn opening_run(c: ConnectionView, events: Seq<Option<Fields>>) -> (
    ConnectionView,
    NewSessionView,
)
    decreases events.len(),
{
    if events.len() == 0 {
        (c, NewSessionView::NotCreated)
    } else {
        let (after, news) = opening_event(c, events[0]);
        if news is Wait {
            opening_run(after, events.drop_first())
        } else {
            (after, news)
        }
    }
}

/// Why a prompt did not run.
#[derive(Clone, Copy, PartialEq, Eq, Structural)]
pub enum PromptError {
    /// There is no session of that name.
    SessionNotFound,
    /// Another prompt has the session's events, or they have ended.
    ReceiverTaken,
}

impl PromptError {
    /// The failure in words, in contracts.
    pub open spec fn words(self) -> Seq<char> {
        match self {
            PromptError::SessionNotFound => "session not found"@,
            PromptError::ReceiverTaken => "event_rx already taken"@,
        }
    }

    /// The failure in words.
    pub fn message(&self) -> (r: String)
        ensures
            r@ == self.words(),
    {
        match self {
            PromptError::SessionNotFound => "session not found".to_owned(),
            PromptError::ReceiverTaken => "event_rx already taken".to_owned(),
        }
    }
}

/// What to send for a prompt, and on which channel to wait for the answer.
pub struct Prompt {
    pub channel: usize,
    pub payload: String,
}

/// News from a running turn, for the thread that shows it.
pub enum SessionUpdate {
    AgentMessageChunk(String),
    AgentThoughtChunk(String),
    ToolCall { id: String, title: String },
    ToolCallUpdate { id: String, failed: bool },
}

/// What an event means to a running prompt.
pub enum Turn {
    /// Nothing.
    Wait,
    /// There is news to show.
    Update(SessionUpdate),
    /// The turn is over and the session goes on.
    Done,
    /// The turn failed and the session goes on.
    Failed(String),
    /// The session is over, and the turn with it.
    Ended,
}

pub enum TurnView {
    Wait,
    MessageChunk(Seq<char>),
    ThoughtChunk(Seq<char>),
    ToolCall { id: Seq<char>, title: Seq<char> },
    ToolCallUpdate { id: Seq<char>, failed: bool },
    Done,
    Failed(Seq<char>),
    Ended,
}

impl View for Turn {
    type V = TurnView;

    open spec fn view(&self) -> TurnView {
        match self {
            Turn::Wait => TurnView::Wait,
            Turn::Update(SessionUpdate::AgentMessageChunk(s)) => TurnView::MessageChunk(s@),
            Turn::Update(SessionUpdate::AgentThoughtChunk(s)) => TurnView::ThoughtChunk(s@),
            Turn::Update(SessionUpdate::ToolCall { id, title }) => TurnView::ToolCall {
                id: id@,
                title: title@,
            },
            Turn::Update(SessionUpdate::ToolCallUpdate { id, failed }) => TurnView::ToolCallUpdate {
                id: id@,
                failed: *failed,
            },
            Turn::Done => TurnView::Done,
            Turn::Failed(s) => TurnView::Failed(s@),
            Turn::Ended => TurnView::Ended,
        }
    }
}

/// What the message `m` means to a running prompt.
pub open spec fn turn_of(m: Fields) -> TurnView {
    let kind = message::kind_of(m);
    if kind == "text"@ {
        let delta = message::text_or(m, "delta"@, ""@);
        if delta.len() == 0 {
            TurnView::Wait
        } else {
            TurnView::MessageChunk(delta)
        }
    } else if kind == "thinking"@ {
        let thought = message::text_or(m, "text"@, ""@);
        if thought.len() == 0 {
            TurnView::Wait
        } else {
            TurnView::ThoughtChunk(thought)
        }
    } else if kind == "tool_start"@ {
        TurnView::ToolCall {
            id: message::text_or(m, "id"@, "unknown"@),
            title: message::text_or(m, "name"@, "tool"@),
        }
    } else if kind == "tool_result"@ {
        TurnView::ToolCallUpdate {
            id: message::text_or(m, "tool_use_id"@, ""@),
            failed: message::flag_in(m, "is_error"@),
        }
    } else if kind == "turn_done"@ {
        TurnView::Done
    } else if kind == "error"@ {
        TurnView::Failed(message::text_or(m, "message"@, "unknown error"@))
    } else if kind == "session.ended"@ {
        TurnView::Ended
    } else {
        TurnView::Wait
    }
}

/// The connection `c` after a prompt has tried to take the receiver of `channel`, and whether it
/// got it.
pub open spec fn taking(c: ConnectionView, channel: nat) -> (ConnectionView, bool) {
    (
        ConnectionView { receivers: c.receivers.update(channel as int, false), ..c },
        c.receivers[channel as int],
    )
}

/// The connection `c` after a turn on `channel` has come to `turn`: a turn that is done or failed
/// puts the receiver back.
pub open spec fn after_turn(c: ConnectionView, channel: nat, turn: TurnView) -> ConnectionView {
    if turn is Done || turn is Failed {
        ConnectionView { receivers: c.receivers.update(channel as int, true), ..c }
    } else {
        c
    }
}

/// What an event means to a running prompt. An event is `None` where its text is no JSON.
pub open spec fn turn_in(event: Option<Fields>) -> TurnView {
    match event {
        Some(m) => turn_of(m),
        None => TurnView::Wait,
    }
}

/// Whether `turn` is the end of a prompt.
pub open spec fn is_last(turn: TurnView) -> bool {
    turn is Done || turn is Failed || turn is Ended
}

/// What comes of a prompt.
#[verifier::ext_equal]
pub struct RunView {
    /// The connection after it.
    pub connection: ConnectionView,
    /// The news that was shown, in order.
    pub updates: Seq<TurnView>,
    /// How it ended.
    pub end: TurnView,
}

/// What comes of a prompt that runs on `channel` of `c` through `events`, after which the stream
/// ends.
pub open spec fn prompt_run(
    c: ConnectionView,
    channel: nat,
    events: Seq<Option<Fields>>,
) -> RunView
    decreases events.len(),
{
    if events.len() == 0 {
        RunView { connection: c, updates: Seq::empty(), end: TurnView::Ended }
    } else {
        let turn = turn_in(events[0]);
        let after = after_turn(c, channel, turn);
        if is_last(turn) {
            RunView { connection: after, updates: Seq::empty(), end: turn }
        } else {
            let rest = prompt_run(after, channel, events.drop_first());
            if turn is Wait {
                rest
            } else {
                RunView { updates: seq![turn] + rest.updates, ..rest }
            }
        }
    }
}

/// What the message `m` means to a running prompt.
pub fn turn(m: &Message) -> (r: Turn)
    ensures
        r@ == turn_of(m@),
{
    let kind = m.kind();
    let kind = kind.as_str();
    if same_text(kind, "text") {
        let delta = m.text_or("delta", "");
        if delta.as_str().is_empty() {
            Turn::Wait
        } else {
            Turn::Update(SessionUpdate::AgentMessageChunk(delta))
        }
    } else if same_text(kind, "thinking") {
        let thought = m.text_or("text", "");
        if thought.as_str().is_empty() {
            Turn::Wait
        } else {
            Turn::Update(SessionUpdate::AgentThoughtChunk(thought))
        }
    } else if same_text(kind, "tool_start") {
        let title = m.text_or("name", "tool");
        let id = m.text_or("id", "unknown");
        Turn::Update(SessionUpdate::ToolCall { id, title })
    } else if same_text(kind, "tool_result") {
        let id = m.text_or("tool_use_id", "");
        let failed = m.flag("is_error");
        Turn::Update(SessionUpdate::ToolCallUpdate { id, failed })
    } else if same_text(kind, "turn_done") {
        Turn::Done
    } else if same_text(kind, "error") {
        Turn::Failed(m.text_or("message", "unknown error"))
    } else if same_text(kind, "session.ended") {
        Turn::Ended
    } else {
        Turn::Wait
    }
}

impl View for HaakConnection {
    type V = ConnectionView;

    open spec fn view(&self) -> ConnectionView {
        ConnectionView {
            url: self.url@,
            sessions: sessions_of(self.sessions@),
            receivers: self.receivers@,
        }
    }
}

impl HaakConnection {
    /// Whether sessions have names and channels of their own.
    pub open spec fn wf(&self) -> bool {
        &&& distinct_names(self.sessions@)
        &&& distinct_channels(self.sessions@, self.receivers@.len())
    }

    /// A connection to the server at `url`, without sessions.
    pub fn new(url: &str) -> (r: HaakConnection)
        ensures
            r.wf(),
            r@ == (ConnectionView {
                url: url@,
                sessions: Map::empty(),
                receivers: Seq::empty(),
            }),
    {
        HaakConnection { url: url.to_owned(), sessions: Vec::new(), receivers: Vec::new() }
    }

    /// The name under which the agent is registered.
    pub fn agent_id(&self) -> (r: &'static str)
        ensures
            r@ == AGENT_ID@,
    {
        AGENT_ID
    }

    /// The name under which telemetry counts the agent.
    pub fn telemetry_id(&self) -> (r: &'static str)
        ensures
            r@ == AGENT_ID@,
    {
        AGENT_ID
    }

    /// The address of the server's session socket.
    pub fn socket_url(&self) -> (r: String)
        ensures
            r@ == socket::socket_url_of(self@.url),
    {
        socket::socket_url(self.url.as_str())
    }

    /// The index of a session in the list.
    fn find(&self, id: &str) -> (r: Option<usize>)
        requires
            self.wf(),
        ensures
            match r {
                Some(i) => {
                    &&& i < self.sessions@.len()
                    &&& self.sessions@[i as int].haakd_session_id@ == id@
                    &&& self@.sessions.contains_key(id@)
                    &&& self@.sessions[id@] == self.sessions@[i as int].channel
                },
                None => {
                    &&& !self@.sessions.contains_key(id@)
                    &&& forall|j: int|
                        0 <= j < self.sessions@.len() ==> (
                        #[trigger] self.sessions@[j]).haakd_session_id@ != id@
                },
            },
    {
        let mut i: usize = 0;
        proof {
            lemma_sessions_of(self.sessions@);
        }
        while i < self.sessions.len()
            invariant
                i <= self.sessions@.len(),
                forall|j: int|
                    0 <= j < i ==> (#[trigger] self.sessions@[j]).haakd_session_id@ != id@,
                forall|j: int|
                    0 <= j < self.sessions@.len() ==> self@.sessions.contains_key(
                        (#[trigger] self.sessions@[j]).haakd_session_id@,
                    ) && self@.sessions[self.sessions@[j].haakd_session_id@]
                        == self.sessions@[j].channel,
            decreases self.sessions@.len() - i,
        {
            if same_text(self.sessions[i].haakd_session_id.as_str(), id) {
                return Some(i);
            }
            i = i + 1;
        }
        None
    }

    /// Enters a session that the server has opened, on a new channel. One of the same name is
    /// replaced.
    pub fn register(&mut self, id: String) -> (r: usize)
        requires
            old(self).wf(),
        ensures
            final(self).wf(),
            final(self)@ == with_session(old(self)@, id@),
            r == old(self)@.receivers.len(),
    {
        let channel: usize = self.receivers.len();
        let at = self.find(id.as_str());
        let ghost before = self.sessions@;
        self.receivers.push(true);
        match at {
            Some(i) => {
                self.sessions.set(i, HaakSession { haakd_session_id: id, channel });
                proof {
                    lemma_sessions_update(before, i as int, self.sessions@[i as int]);
                }
            },
            None => {
                self.sessions.push(HaakSession { haakd_session_id: id, channel });
                proof {
                    assert(self.sessions@.drop_last() == before);
                }
            },
        }
        channel
    }

    /// Whether there is a session on the channel. That of a session that was replaced has none.
    pub fn has_session_on(&self, channel: usize) -> (r: bool)
        requires
            self.wf(),
        ensures
            r == self@.sessions.contains_value(channel as nat),
    {
        let mut i: usize = 0;
        proof {
            lemma_sessions_of(self.sessions@);
        }
        while i < self.sessions.len()
            invariant
                i <= self.sessions@.len(),
                forall|j: int| 0 <= j < i ==> (#[trigger] self.sessions@[j]).channel != channel,
                forall|j: int|
                    0 <= j < self.sessions@.len() ==> self@.sessions.contains_key(
                        (#[trigger] self.sessions@[j]).haakd_session_id@,
                    ) && self@.sessions[self.sessions@[j].haakd_session_id@]
                        == self.sessions@[j].channel,
                forall|k: Seq<char>| #[trigger]
                    self@.sessions.contains_key(k) ==> exists|j: int|
                        0 <= j < self.sessions@.len() && (
                        #[trigger] self.sessions@[j]).haakd_session_id@ == k,
            decreases self.sessions@.len() - i,
        {
            if self.sessions[i].channel == channel {
                proof {
                    assert(self@.sessions.contains_key(
                        self.sessions@[i as int].haakd_session_id@,
                    ));
                }
                return true;
            }
            i = i + 1;
        }
        false
    }

    /// Takes note of a message that arrived while a new session was waited for.
    pub fn new_session_message(&mut self, m: &Message) -> (r: NewSession)
        requires
            old(self).wf(),
        ensures
            final(self).wf(),
            (final(self)@, r@) == session_opening(old(self)@, m@),
    {
        let kind = m.kind();
        let kind = kind.as_str();
        if same_text(kind, "session.created") {
            let session_id = m.text_or("sessionId", "");
            if session_id.as_str().is_empty() {
                NewSession::Failed(SessionError::NotCreated)
            } else {
                let channel = self.register(session_id.clone());
                NewSession::Created { session_id, channel }
            }
        } else if same_text(kind, "error") {
            NewSession::Failed(SessionError::Server(m.text_or("message", "?")))
        } else {
            NewSession::Wait
        }
    }

    /// Takes note of an event that arrived while a new session was waited for. Text that is no
    /// JSON is passed over.
    pub fn new_session_event(&mut self, raw: &str) -> (r: NewSession)
        requires
            old(self).wf(),
        ensures
            final(self).wf(),
            (final(self)@, r@) == opening_event(old(self)@, message::json_fields(raw@)),
    {
        match Message::decode(raw) {
            Some(m) => self.new_session_message(&m),
            None => NewSession::Wait,
        }
    }

    /// What it means that the events ended while a new session was waited for.
    pub fn new_session_closed(&self) -> (r: NewSession)
        ensures
            r@ == NewSessionView::NotCreated,
    {
        NewSession::Failed(SessionError::NotCreated)
    }

    /// Puts a prompt to a session: what to send, and where to wait.
    pub fn prompt(&self, session_id: &str, blocks: &Vec<ContentBlock>) -> (r: Result<
        Prompt,
        PromptError,
    >)
        requires
            self.wf(),
        ensures
            match r {
                Ok(p) => {
                    &&& self@.sessions.contains_key(session_id@)
                    &&& p.channel == self@.sessions[session_id@]
                    &&& p.channel < self@.receivers.len()
                    &&& p.payload@ == message::json_text(
                        message::user_fields(session_id@, prompt_text_of(blocks@)),
                    )
                    &&& message::json_fields(p.payload@) matches Some(m)
                        && message::is_user_message(m, session_id@, prompt_text_of(blocks@))
                },
                Err(e) => {
                    &&& !self@.sessions.contains_key(session_id@)
                    &&& e == PromptError::SessionNotFound
                },
            },
    {
        match self.find(session_id) {
            Some(i) => {
                let text = prompt_text(blocks);
                let payload = message::user_message(
                    self.sessions[i].haakd_session_id.as_str(),
                    text.as_str(),
                );
                Ok(Prompt { channel: self.sessions[i].channel, payload })
            },
            None => Err(PromptError::SessionNotFound),
        }
    }

    /// Takes the receiver of a channel for a prompt.
    pub fn begin_turn(&mut self, channel: usize) -> (r: Result<(), PromptError>)
        requires
            old(self).wf(),
            channel < old(self)@.receivers.len(),
        ensures
            final(self).wf(),
            final(self)@ == taking(old(self)@, channel as nat).0,
            r == (if taking(old(self)@, channel as nat).1 {
                Ok(())
            } else {
                Err(PromptError::ReceiverTaken)
            }),
    {
        if self.receivers[channel] {
            self.receivers.set(channel, false);
            Ok(())
        } else {
            proof {
                assert(self.receivers@.update(channel as int, false) == self.receivers@);
            }
            Err(PromptError::ReceiverTaken)
        }
    }

    /// Takes note of a message that arrived while a prompt ran on `channel`.
    pub fn turn_message(&mut self, channel: usize, m: &Message) -> (r: Turn)
        requires
            old(self).wf(),
            channel < old(self)@.receivers.len(),
        ensures
            final(self).wf(),
            r@ == turn_of(m@),
            final(self)@ == after_turn(old(self)@, channel as nat, turn_of(m@)),
    {
        let r = turn(m);
        match &r {
            Turn::Done => {
                self.receivers.set(channel, true);
            },
            Turn::Failed(_) => {
                self.receivers.set(channel, true);
            },
            _ => {},
        }
        r
    }

    /// Takes note of an event that arrived while a prompt ran on `channel`. Text that is no JSON
    /// is passed over.
    pub fn turn_event(&mut self, channel: usize, raw: &str) -> (r: Turn)
        requires
            old(self).wf(),
            channel < old(self)@.receivers.len(),
        ensures
            final(self).wf(),
            r@ == turn_in(message::json_fields(raw@)),
            final(self)@ == after_turn(
                old(self)@,
                channel as nat,
                turn_in(message::json_fields(raw@)),
            ),
    {
        match Message::decode(raw) {
            Some(m) => self.turn_message(channel, &m),
            None => Turn::Wait,
        }
    }

    /// What it means to a running prompt that the events ended.
    pub fn turn_closed(&self) -> (r: Turn)
        ensures
            r@ == TurnView::Ended,
    {
        Turn::Ended
    }
}

proof fn lemma_sessions_update(list: Seq<HaakSession>, i: int, s: HaakSession)
    requires
        distinct_names(list),
        0 <= i < list.len(),
        s.haakd_session_id@ == list[i].haakd_session_id@,
    ensures
        sessions_of(list.update(i, s)) == sessions_of(list).insert(
            s.haakd_session_id@,
            s.channel as nat,
        ),
    decreases list.len(),
{
    let new = list.update(i, s);
    if i == list.len() - 1 {
        assert(new.drop_last() == list.drop_last());
    } else {
        assert(new.drop_last() == list.drop_last().update(i, s));
        lemma_sessions_update(list.drop_last(), i, s);
        assert(list[i].haakd_session_id@ != list[list.len() - 1].haakd_session_id@);
    }
    assert(sessions_of(new) =~= sessions_of(list).insert(s.haakd_session_id@, s.channel as nat));
}

/// A session that the server opens can be prompted, on a channel of its own whose receiver is
/// there, and the other sessions and channels stay as they are.
pub proof fn law_opened_session_is_ready(c: ConnectionView, m: Fields)
    requires
        message::kind_of(m) == "session.created"@,
        message::text_or(m, "sessionId"@, ""@).len() > 0,
    ensures
        ({
            let id = message::text_or(m, "sessionId"@, ""@);
            let (after, r) = session_opening(c, m);
            &&& r == NewSessionView::Created { session_id: id, channel: c.receivers.len() }
            &&& after.sessions.contains_key(id)
            &&& after.sessions[id] == c.receivers.len()
            &&& taking(after, c.receivers.len()).1
            &&& after.url == c.url
            &&& forall|other: Seq<char>|
                other != id ==> (#[trigger] after.sessions.contains_key(other)
                    == c.sessions.contains_key(other))
            &&& forall|other: Seq<char>|
                other != id && c.sessions.contains_key(other) ==> #[trigger] after.sessions[other]
                    == c.sessions[other]
            &&& forall|k: int|
                0 <= k < c.receivers.len() ==> #[trigger] after.receivers[k] == c.receivers[k]
        }),
{
}

/// Only a message that names a session opens one; every other leaves the connection as it is.
pub proof fn law_no_session_without_name(c: ConnectionView, m: Fields)
    ensures
        session_opening(c, m).1 is Created <==> message::kind_of(m) == "session.created"@
            && message::text_or(m, "sessionId"@, ""@).len() > 0,
        !(session_opening(c, m).1 is Created) ==> session_opening(c, m).0 == c,
{
}

/// While a prompt has the receiver of a channel, no other gets it.
pub proof fn law_one_prompt_at_a_time(c: ConnectionView, channel: nat)
    requires
        channel < c.receivers.len(),
    ensures
        !taking(taking(c, channel).0, channel).1,
{
}

/// Whether an event decides on the session that is waited for.
pub open spec fn decides(event: Option<Fields>) -> bool {
    event matches Some(m) && (message::kind_of(m) == "session.created"@ || message::kind_of(m)
        == "error"@)
}

/// The first event that decides is the answer to someone who waits for a session: those before it
/// leave the connection as it was, and those after it do not count. Where no event decides, there
/// is no session.
pub proof fn law_first_decision_counts(c: ConnectionView, events: Seq<Option<Fields>>, first: int)
    requires
        0 <= first <= events.len(),
        forall|j: int| 0 <= j < first ==> !decides(#[trigger] events[j]),
        first < events.len() ==> decides(events[first]),
    ensures
        opening_run(c, events) == (if first < events.len() {
            session_opening(c, events[first].unwrap())
        } else {
            (c, NewSessionView::NotCreated)
        }),
        forall|j: int|
            0 <= j < first ==> opening_event(c, #[trigger] events[j]) == (c, NewSessionView::Wait),
        forall|j: int|
            0 <= j <= first ==> opening_run(c, #[trigger] events.take(j)) == (
                c,
                NewSessionView::NotCreated,
            ),
    decreases events.len(),
{
    if first > 0 {
        let rest = events.drop_first();
        assert(!decides(events[0]));
        assert forall|j: int| 0 <= j < first - 1 implies !decides(#[trigger] rest[j]) by {
            assert(!decides(events[j + 1]));
        }
        law_first_decision_counts(c, rest, first - 1);
        assert forall|j: int| 0 <= j <= first implies opening_run(c, #[trigger] events.take(j)) == (
            c,
            NewSessionView::NotCreated,
        ) by {
            if j > 0 {
                assert(events.take(j).drop_first() == rest.take(j - 1));
            }
        }
    }
}

/// The turns among `turns` that bring something.
pub open spec fn news_among(turns: Seq<TurnView>) -> Seq<TurnView> {
    turns.filter(|turn: TurnView| !(turn is Wait))
}

/// A prompt shows what the events before its end bring, in order and each once, and nothing else.
/// Its end is the first event that is one, or that of the stream, and the receiver is put back as
/// that end says.
pub proof fn law_prompt_shows_the_news(
    c: ConnectionView,
    channel: nat,
    events: Seq<Option<Fields>>,
    last: int,
)
    requires
        0 <= last <= events.len(),
        forall|j: int| 0 <= j < last ==> !is_last(turn_in(#[trigger] events[j])),
        last < events.len() ==> is_last(turn_in(events[last])),
    ensures
        ({
            let run = prompt_run(c, channel, events);
            let turns = Seq::new(last as nat, |j: int| turn_in(events[j]));
            &&& run.updates == news_among(turns)
            &&& run.end == (if last < events.len() {
                turn_in(events[last])
            } else {
                TurnView::Ended
            })
            &&& run.connection == after_turn(c, channel, run.end)
        }),
    decreases events.len(),
{
    reveal(Seq::filter);
    let turns = Seq::new(last as nat, |j: int| turn_in(events[j]));
    if last > 0 {
        let rest = events.drop_first();
        let turn = turn_in(events[0]);
        assert(!is_last(turn));
        assert forall|j: int| 0 <= j < last - 1 implies !is_last(turn_in(#[trigger] rest[j])) by {
            assert(!is_last(turn_in(events[j + 1])));
        }
        law_prompt_shows_the_news(c, channel, rest, last - 1);
        let later = Seq::new((last - 1) as nat, |j: int| turn_in(rest[j]));
        let bring = |turn: TurnView| !(turn is Wait);
        assert(turns == seq![turn] + later);
        Seq::filter_distributes_over_add(seq![turn], later, bring);
        assert(seq![turn].drop_last() == Seq::<TurnView>::empty());
        assert(seq![turn].drop_last().filter(bring) == Seq::<TurnView>::empty());
        assert(news_among(seq![turn]) == (if turn is Wait {
            Seq::<TurnView>::empty()
        } else {
            seq![turn]
        }));
    }
}

proof fn lemma_run_ends(c: ConnectionView, channel: nat, events: Seq<Option<Fields>>)
    ensures
        is_last(prompt_run(c, channel, events).end),
        prompt_run(c, channel, events).connection == after_turn(
            c,
            channel,
            prompt_run(c, channel, events).end,
        ),
    decreases events.len(),
{
    if events.len() > 0 && !is_last(turn_in(events[0])) {
        lemma_run_ends(c, channel, events.drop_first());
    }
}

/// A prompt that has run to its end leaves the session ready for the next one if its turn was done
/// or failed, and closed to every other if the session or the stream ended. Other sessions and
/// channels stay as they are.
pub proof fn law_session_after_a_prompt(
    c: ConnectionView,
    channel: nat,
    events: Seq<Option<Fields>>,
)
    requires
        channel < c.receivers.len(),
    ensures
        ({
            let run = prompt_run(taking(c, channel).0, channel, events);
            &&& is_last(run.end)
            &&& taking(run.connection, channel).1 <==> (run.end is Done || run.end is Failed)
            &&& run.connection.url == c.url
            &&& run.connection.sessions == c.sessions
            &&& run.connection.receivers.len() == c.receivers.len()
            &&& forall|k: int|
                0 <= k < c.receivers.len() && k != channel
                    ==> #[trigger] run.connection.receivers[k] == c.receivers[k]
        }),
{
    lemma_run_ends(taking(c, channel).0, channel, events);
}

/// The channel of a session that is replaced is left without one.
pub proof fn law_replaced_channel_is_left(c: HaakConnection, id: Seq<char>)
    requires
        c.wf(),
        c@.sessions.contains_key(id),
    ensures
        !with_session(c@, id).sessions.contains_value(c@.sessions[id]),
{
    lemma_sessions_of(c.sessions@);
    let at = choose|i: int|
        0 <= i < c.sessions@.len() && (#[trigger] c.sessions@[i]).haakd_session_id@ == id;
    let after = with_session(c@, id).sessions;
    assert forall|k: Seq<char>| #[trigger] after.dom().contains(k) implies after[k]
        != c@.sessions[id] by {
        if k != id {
            assert(c@.sessions.contains_key(k));
            let i = choose|i: int|
                0 <= i < c.sessions@.len() && (#[trigger] c.sessions@[i]).haakd_session_id@ == k;
            assert(c.sessions@[i].channel != c.sessions@[at].channel);
        }
    }
}

/// Someone who waits for a session learns of a failure to connect, with its reason.
pub proof fn law_connect_failure_is_reported(c: ConnectionView, m: Fields, reason: Seq<char>)
    requires
        message::is_error(m, ""@ + reason),
    ensures
        session_opening(c, m) == (c, NewSessionView::Server(reason)),
{
    reveal_strlit("");
    reveal_strlit("error");
    reveal_strlit("session.created");
    assert("error"@.len() != "session.created"@.len());
    assert(""@ + reason == reason);
}

proof fn lemma_kinds_differ()
    ensures
        "text"@ != "thinking"@,
        "text"@ != "tool_start"@,
        "text"@ != "tool_result"@,
        "text"@ != "turn_done"@,
        "text"@ != "error"@,
        "text"@ != "session.ended"@,
        "thinking"@ != "tool_start"@,
        "thinking"@ != "tool_result"@,
        "thinking"@ != "turn_done"@,
        "thinking"@ != "error"@,
        "thinking"@ != "session.ended"@,
        "tool_start"@ != "tool_result"@,
        "tool_start"@ != "turn_done"@,
        "tool_start"@ != "error"@,
        "tool_start"@ != "session.ended"@,
        "tool_result"@ != "turn_done"@,
        "tool_result"@ != "error"@,
        "tool_result"@ != "session.ended"@,
        "turn_done"@ != "error"@,
        "turn_done"@ != "session.ended"@,
        "error"@ != "session.ended"@,
        "error"@ != "session.created"@,
        ""@ != "text"@,
        ""@ != "thinking"@,
        ""@ != "tool_start"@,
        ""@ != "tool_result"@,
        ""@ != "turn_done"@,
        ""@ != "error"@,
        ""@ != "session.ended"@,
        ""@ != "session.created"@,
{
    reveal_strlit("");
    reveal_strlit("text");
    reveal_strlit("thinking");
    reveal_strlit("tool_start");
    reveal_strlit("tool_result");
    reveal_strlit("turn_done");
    reveal_strlit("error");
    reveal_strlit("session.ended");
    reveal_strlit("session.created");
    assert(""@.len() == 0 && "text"@.len() == 4 && "thinking"@.len() == 8);
    assert("tool_start"@.len() == 10 && "tool_result"@.len() == 11 && "turn_done"@.len() == 9);
    assert("error"@.len() == 5 && "session.ended"@.len() == 13 && "session.created"@.len() == 15);
}

/// Whether `m` is a message of the kind `kind`.
pub open spec fn is_kind(m: Fields, kind: Seq<char>) -> bool {
    message::holds_text(m, "type"@, kind)
}

/// The agent's text and its thoughts are handed on character for character, each as a chunk of its
/// own; only empty ones are passed over.
pub proof fn law_text_is_handed_on(m: Fields, s: Seq<char>)
    ensures
        is_kind(m, "text"@) && message::holds_text(m, "delta"@, s) && s.len() > 0 ==> turn_of(m)
            == TurnView::MessageChunk(s),
        is_kind(m, "thinking"@) && message::holds_text(m, "text"@, s) && s.len() > 0 ==> turn_of(m)
            == TurnView::ThoughtChunk(s),
        is_kind(m, "text"@) && (message::lacks_text(m, "delta"@) || message::holds_text(
            m,
            "delta"@,
            Seq::empty(),
        )) ==> turn_of(m) is Wait,
        is_kind(m, "thinking"@) && (message::lacks_text(m, "text"@) || message::holds_text(
            m,
            "text"@,
            Seq::empty(),
        )) ==> turn_of(m) is Wait,
{
    lemma_kinds_differ();
    reveal_strlit("");
}

/// A tool call is announced under the server's identifier and name for it, and its end under the
/// identifier, as failed if and only if the server says so.
pub proof fn law_tool_calls_are_handed_on(m: Fields, id: Seq<char>, title: Seq<char>)
    ensures
        is_kind(m, "tool_start"@) && message::gives_text(m, "id"@, "unknown"@, id)
            && message::gives_text(m, "name"@, "tool"@, title) ==> turn_of(m) == (
        TurnView::ToolCall { id, title }),
        is_kind(m, "tool_result"@) && message::gives_text(m, "tool_use_id"@, Seq::empty(), id)
            ==> turn_of(m) == (TurnView::ToolCallUpdate {
            id,
            failed: message::holds_true(m, "is_error"@),
        }),
{
    lemma_kinds_differ();
    reveal_strlit("");
    assert(""@ == Seq::<char>::empty());
}

/// A turn ends when the server says that it is done, that it failed, with the server's reason, or
/// that the session ended, and for nothing else.
pub proof fn law_ends_of_a_turn(m: Fields, reason: Seq<char>)
    ensures
        turn_of(m) is Done <==> is_kind(m, "turn_done"@),
        turn_of(m) is Failed <==> is_kind(m, "error"@),
        is_kind(m, "error"@) && message::gives_text(m, "message"@, "unknown error"@, reason)
            ==> turn_of(m) == TurnView::Failed(reason),
        turn_of(m) is Ended <==> is_kind(m, "session.ended"@),
{
    lemma_kinds_differ();
}

/// A message of no kind that is known says nothing to a running prompt, and neither does text that
/// is no JSON.
pub proof fn law_other_messages_are_passed_over(m: Fields)
    requires
        !is_kind(m, "text"@),
        !is_kind(m, "thinking"@),
        !is_kind(m, "tool_start"@),
        !is_kind(m, "tool_result"@),
        !is_kind(m, "turn_done"@),
        !is_kind(m, "error"@),
        !is_kind(m, "session.ended"@),
    ensures
        turn_of(m) is Wait,
{
    lemma_kinds_differ();
}

/// A prompt takes an event as the message in it, and passes over one that is none.
pub proof fn law_events_are_their_messages(c: ConnectionView, m: Fields)
    ensures
        turn_in(Some(m)) == turn_of(m),
        turn_in(None) is Wait,
        opening_event(c, Some(m)) == session_opening(c, m),
        opening_event(c, None) == (c, NewSessionView::Wait),
{
}

/// The message chunks among `updates`, one after the other.
pub open spec fn chunk_text(updates: Seq<TurnView>) -> Seq<char>
    decreases updates.len(),
{
    if updates.len() == 0 {
        Seq::empty()
    } else {
        (match updates[0] {
            TurnView::MessageChunk(s) => s,
            _ => Seq::empty(),
        }) + chunk_text(updates.drop_first())
    }
}

/// Whether an event is one at which a prompt ends.
pub open spec fn ends_prompt(event: Option<Fields>) -> bool {
    event matches Some(m) && (is_kind(m, "turn_done"@) || is_kind(m, "error"@) || is_kind(
        m,
        "session.ended"@,
    ))
}

/// The deltas of the text messages among `events` before the end of the prompt, one after the
/// other.
pub open spec fn delta_text(events: Seq<Option<Fields>>) -> Seq<char>
    decreases events.len(),
{
    if events.len() == 0 || ends_prompt(events[0]) {
        Seq::empty()
    } else {
        (match events[0] {
            Some(m) => if is_kind(m, "text"@) && m.contains_key("delta"@) {
                match m["delta"@] {
                    message::FieldView::Text(s) => s,
                    _ => Seq::empty(),
                }
            } else {
                Seq::empty()
            },
            None => Seq::empty(),
        }) + delta_text(events.drop_first())
    }
}

/// The chunks of a turn, put one after the other, are the deltas of its text messages, put one
/// after the other.
pub proof fn law_chunks_spell_the_text(
    c: ConnectionView,
    channel: nat,
    events: Seq<Option<Fields>>,
)
    ensures
        chunk_text(prompt_run(c, channel, events).updates) == delta_text(events),
    decreases events.len(),
{
    lemma_kinds_differ();
    reveal_strlit("");
    if events.len() > 0 {
        let turn = turn_in(events[0]);
        let after = after_turn(c, channel, turn);
        let rest = prompt_run(after, channel, events.drop_first());
        law_chunks_spell_the_text(after, channel, events.drop_first());
        if let Some(m) = events[0] {
            law_ends_of_a_turn(m, Seq::empty());
        }
        assert(is_last(turn) == ends_prompt(events[0]));
        if !is_last(turn) && !(turn is Wait) {
            let updates = seq![turn] + rest.updates;
            assert(updates.drop_first() == rest.updates);
            assert(updates[0] == turn);
        }
        if !is_last(turn) {
            assert(Seq::<char>::empty() + delta_text(events.drop_first()) == delta_text(
                events.drop_first(),
            ));
        }
    }
}

/// A prompt gets the receiver of a channel if and only if it is there, and it is gone then. No
/// other channel is touched.
pub proof fn law_taking(c: ConnectionView, channel: nat)
    requires
        channel < c.receivers.len(),
    ensures
        ({
            let (after, got) = taking(c, channel);
            &&& got == c.receivers[channel as int]
            &&& after.url == c.url
            &&& after.sessions == c.sessions
            &&& after.receivers.len() == c.receivers.len()
            &&& !after.receivers[channel as int]
            &&& forall|k: int|
                0 <= k < c.receivers.len() && k != channel ==> #[trigger] after.receivers[k]
                    == c.receivers[k]
        }),
{
}

/// The receiver is back after a turn that is done or failed, and not before; no other channel is
/// touched.
pub proof fn law_receiver_comes_back(c: ConnectionView, channel: nat, turn: TurnView)
    requires
        channel < c.receivers.len(),
    ensures
        ({
            let after = after_turn(c, channel, turn);
            &&& after.url == c.url
            &&& after.sessions == c.sessions
            &&& after.receivers.len() == c.receivers.len()
            &&& after.receivers[channel as int] == (c.receivers[channel as int] || turn is Done
                || turn is Failed)
            &&& forall|k: int|
                0 <= k < c.receivers.len() && k != channel ==> #[trigger] after.receivers[k]
                    == c.receivers[k]
        }),
{
}

/// What the server answers to one who waits for a session: a session under the name that it gives,
/// on a new channel whose receiver is there, or none where it gives no name; the reason where it
/// refuses; and nothing yet in any other message.
pub proof fn law_answers_to_a_request(c: ConnectionView, m: Fields, s: Seq<char>)
    ensures
        is_kind(m, "session.created"@) && message::holds_text(m, "sessionId"@, s) && s.len() > 0
            ==> {
            let (after, news) = session_opening(c, m);
            &&& news == NewSessionView::Created { session_id: s, channel: c.receivers.len() }
            &&& after.url == c.url
            &&& after.sessions == c.sessions.insert(s, c.receivers.len())
            &&& after.receivers == c.receivers.push(true)
        },
        is_kind(m, "session.created"@) && (message::lacks_text(m, "sessionId"@)
            || message::holds_text(m, "sessionId"@, Seq::empty())) ==> session_opening(c, m) == (
            c,
            NewSessionView::NotCreated,
        ),
        is_kind(m, "error"@) && message::gives_text(m, "message"@, "?"@, s) ==> session_opening(
            c,
            m,
        ) == (c, NewSessionView::Server(s)),
        !is_kind(m, "session.created"@) && !is_kind(m, "error"@) ==> session_opening(c, m) == (
            c,
            NewSessionView::Wait,
        ),
{
    lemma_kinds_differ();
    reveal_strlit("");
}

/// A block of text adds to a prompt its text, on a line of its own where there is text before it;
/// other blocks add nothing.
pub proof fn law_prompt_text(blocks: Seq<ContentBlock>, s: String)
    ensures
        prompt_text_of(Seq::empty()).len() == 0,
        prompt_text_of(blocks.push(ContentBlock::Other)) == prompt_text_of(blocks),
        (forall|i: int| 0 <= i < blocks.len() ==> !((#[trigger] blocks[i]) is Text))
            ==> prompt_text_of(blocks.push(ContentBlock::Text(s))) == s@,
        (exists|i: int| 0 <= i < blocks.len() && (#[trigger] blocks[i]) is Text) ==> prompt_text_of(
            blocks.push(ContentBlock::Text(s)),
        ) == prompt_text_of(blocks) + seq!['\n'] + s@,
{
    reveal_strlit("\n");
    assert("\n"@ == seq!['\n']);
    assert(blocks.push(ContentBlock::Other).drop_last() == blocks);
    assert(blocks.push(ContentBlock::Text(s)).drop_last() == blocks);
    lemma_prompt_texts(blocks);
    let texts = prompt_texts(blocks);
    text::law_joined(texts, "\n"@, s@);
    if texts.len() == 0 {
        assert(texts.push(s@) == seq![s@]);
    }
}

proof fn lemma_prompt_texts(blocks: Seq<ContentBlock>)
    ensures
        prompt_texts(blocks).len() > 0 <==> exists|i: int|
            0 <= i < blocks.len() && (#[trigger] blocks[i]) is Text,
    decreases blocks.len(),
{
    if blocks.len() > 0 {
        let front = blocks.drop_last();
        lemma_prompt_texts(front);
        if prompt_texts(blocks).len() > 0 {
            if blocks.last() is Text {
                assert(blocks[blocks.len() - 1] is Text);
            } else {
                let i = choose|i: int| 0 <= i < front.len() && (#[trigger] front[i]) is Text;
                assert(blocks[i] is Text);
            }
        }
        if exists|i: int| 0 <= i < blocks.len() && (#[trigger] blocks[i]) is Text {
            let i = choose|i: int| 0 <= i < blocks.len() && (#[trigger] blocks[i]) is Text;
            if i < front.len() {
                assert(front[i] is Text);
            }
        }
    }
}

/// Failures are put in words that carry the server's own.
pub proof fn law_failures_in_words(reason: String)
    ensures
        SessionError::Server(reason).words() == "haakd: "@ + reason@,
        SessionError::NotCreated.words() == "haakd session not created"@,
        PromptError::SessionNotFound.words() == "session not found"@,
        PromptError::ReceiverTaken.words() == "event_rx already taken"@,
{
}

/// Each session of a connection is found under its name, on its channel, and no other is.
pub proof fn law_sessions_by_name(c: HaakConnection, i: int, name: Seq<char>)
    requires
        c.wf(),
    ensures
        0 <= i < c.sessions@.len() ==> c@.sessions.contains_key(c.sessions@[i].haakd_session_id@)
            && c@.sessions[c.sessions@[i].haakd_session_id@] == c.sessions@[i].channel,
        c@.sessions.contains_key(name) ==> exists|j: int|
            0 <= j < c.sessions@.len() && (#[trigger] c.sessions@[j]).haakd_session_id@ == name,
        c@.url == c.url@,
        c@.receivers == c.receivers@,
{
    lemma_sessions_of(c.sessions@);
}

/// What an event means is seen as it is told.
pub proof fn law_turn_view(a: String, b: String, failed: bool, channel: usize)
    ensures
        Turn::Wait@ == TurnView::Wait,
        Turn::Update(SessionUpdate::AgentMessageChunk(a))@ == TurnView::MessageChunk(a@),
        Turn::Update(SessionUpdate::AgentThoughtChunk(a))@ == TurnView::ThoughtChunk(a@),
        Turn::Update((SessionUpdate::ToolCall { id: a, title: b }))@ == (TurnView::ToolCall {
            id: a@,
            title: b@,
        }),
        Turn::Update((SessionUpdate::ToolCallUpdate { id: a, failed }))@ == (
        TurnView::ToolCallUpdate { id: a@, failed }),
        Turn::Done@ == TurnView::Done,
        Turn::Failed(a)@ == TurnView::Failed(a@),
        Turn::Ended@ == TurnView::Ended,
        NewSession::Wait@ == NewSessionView::Wait,
        (NewSession::Created { session_id: a, channel })@ == (NewSessionView::Created {
            session_id: a@,
            channel: channel as nat,
        }),
        NewSession::Failed(SessionError::Server(a))@ == NewSessionView::Server(a@),
        NewSession::Failed(SessionError::NotCreated)@ == NewSessionView::NotCreated,
{
}

} // verus!
