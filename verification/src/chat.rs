//! The chat panel: a transcript that the server's events and the user's keys build up.
use vstd::prelude::*;
use vstd::string::*;

use crate::message;
use crate::message::{Field, Fields, Message};
use crate::panel;
use crate::panel::{DockPosition, Icon, ThemeColor};
use crate::text;
use crate::text::same_text;

verus! {

/// How many characters of a tool's result the panel keeps.
pub const RESULT_CHARS: usize = 200;

/// The agent that a session runs where the server names none.
pub const DEFAULT_AGENT: &'static str = "bala";

/// An entry of the transcript.
pub enum ChatEntry {
    User { text: String },
    /// What the agent writes, as Markdown; `done` once its turn is over.
    Assistant { text: String, done: bool },
    ToolCall { name: String, input_summary: String, result: Option<String>, is_error: bool },
    System { text: String },
}

pub enum EntryView {
    User { text: Seq<char> },
    Assistant { text: Seq<char>, done: bool },
    ToolCall {
        name: Seq<char>,
        input_summary: Seq<char>,
        result: Option<Seq<char>>,
        is_error: bool,
    },
    System { text: Seq<char> },
}

impl View for ChatEntry {
    type V = EntryView;

    open spec fn view(&self) -> EntryView {
        match self {
            ChatEntry::User { text } => EntryView::User { text: text@ },
            ChatEntry::Assistant { text, done } => EntryView::Assistant { text: text@, done: *done },
            ChatEntry::ToolCall { name, input_summary, result, is_error } => EntryView::ToolCall {
                name: name@,
                input_summary: input_summary@,
                result: text::option_view(*result),
                is_error: *is_error,
            },
            ChatEntry::System { text } => EntryView::System { text: text@ },
        }
    }
}

/// The chat panel.
pub struct HaakChat {
    pub entries: Vec<ChatEntry>,
    /// How many rows the list on the screen was last set up for.
    pub list_len: usize,
    /// What the user has typed and not sent.
    pub input_text: String,
    pub session_id: Option<String>,
    pub session_name: Option<String>,
    pub agent: String,
    pub model: String,
    /// The session's state in one word.
    pub state: String,
}

/// The chat panel, in contracts.
#[verifier::ext_equal]
pub struct ChatView {
    pub entries: Seq<EntryView>,
    pub list_len: nat,
    pub input_text: Seq<char>,
    pub session_id: Option<Seq<char>>,
    pub session_name: Option<Seq<char>>,
    pub agent: Seq<char>,
    pub model: Seq<char>,
    pub state: Seq<char>,
}

/// The views of the entries of a transcript.
pub open spec fn entries_view(entries: Seq<ChatEntry>) -> Seq<EntryView> {
    entries.map_values(|e: ChatEntry| e@)
}

impl View for HaakChat {
    type V = ChatView;

    open spec fn view(&self) -> ChatView {
        ChatView {
            entries: entries_view(self.entries@),
            list_len: self.list_len as nat,
            input_text: self.input_text@,
            session_id: text::option_view(self.session_id),
            session_name: text::option_view(self.session_name),
            agent: self.agent@,
            model: self.model@,
            state: self.state@,
        }
    }
}

/// Whether the screen has a row for each entry, and no tool result is longer than is kept.
pub open spec fn chat_wf(c: ChatView) -> bool {
    &&& c.list_len == c.entries.len()
    &&& forall|i: int|
        0 <= i < c.entries.len() ==> ((#[trigger] c.entries[i]) matches EntryView::ToolCall {
            result: Some(r),
            ..
        } ==> r.len() <= RESULT_CHARS)
}

/// What the window has to do about the panel.
pub enum Refresh {
    /// Nothing.
    Unchanged,
    /// Draw the panel again.
    Redraw,
    /// Add this text to the Markdown of the last entry, and draw the panel again.
    Append(String),
    /// Set the list up anew, for `list_len` rows, and draw the panel again.
    Rebuild,
}

pub enum RefreshView {
    Unchanged,
    Redraw,
    Append(Seq<char>),
    Rebuild,
}

impl View for Refresh {
    type V = RefreshView;

    open spec fn view(&self) -> RefreshView {
        match self {
            Refresh::Unchanged => RefreshView::Unchanged,
            Refresh::Redraw => RefreshView::Redraw,
            Refresh::Append(s) => RefreshView::Append(s@),
            Refresh::Rebuild => RefreshView::Rebuild,
        }
    }
}

/// The panel `c` with one more entry, and a row for it.
pub open spec fn with_entry(c: ChatView, e: EntryView) -> ChatView {
    ChatView { entries: c.entries.push(e), list_len: c.entries.len() + 1, ..c }
}

/// The panel `c` with entry `i` replaced.
pub open spec fn with_entry_at(c: ChatView, i: int, e: EntryView) -> ChatView {
    ChatView { entries: c.entries.update(i, e), ..c }
}

/// The index of the last tool call in a transcript, or -1.
pub open spec fn last_tool_call(entries: Seq<EntryView>) -> int
    decreases entries.len(),
{
    if entries.len() == 0 {
        -1
    } else if entries.last() is ToolCall {
        entries.len() - 1
    } else {
        last_tool_call(entries.drop_last())
    }
}

/// The index of the last entry of the agent in a transcript, or -1.
pub open spec fn last_assistant(entries: Seq<EntryView>) -> int
    decreases entries.len(),
{
    if entries.len() == 0 {
        -1
    } else if entries.last() is Assistant {
        entries.len() - 1
    } else {
        last_assistant(entries.drop_last())
    }
}

/// The agent that a `session.created` message names.
pub open spec fn agent_of(m: Fields) -> Seq<char> {
    let agent = message::text_or(m, "agent"@, ""@);
    if agent.len() == 0 {
        DEFAULT_AGENT@
    } else {
        agent
    }
}

/// The state that a state message brings: the string in `state`, or in `value` where there is no
/// field `state` at all.
pub open spec fn state_of(m: Fields) -> Seq<char> {
    if m.contains_key("state"@) {
        message::text_or(m, "state"@, ""@)
    } else {
        message::text_or(m, "value"@, ""@)
    }
}

/// The panel `c` after a `session.created` message.
pub open spec fn after_created(c: ChatView, m: Fields) -> ChatView {
    with_entry(
        ChatView {
            session_id: Some(message::text_or(m, "sessionId"@, ""@)),
            session_name: Some(message::text_or(m, "name"@, ""@)),
            agent: agent_of(m),
            model: message::text_or(m, "model"@, ""@),
            state: "connected"@,
            ..c
        },
        EntryView::System { text: "Connected as "@ + agent_of(m) },
    )
}

/// The panel `c` after the agent has written `delta`: more of an entry that it is still writing,
/// or a new entry.
pub open spec fn after_delta(c: ChatView, delta: Seq<char>) -> (ChatView, RefreshView) {
    if delta.len() == 0 {
        (c, RefreshView::Unchanged)
    } else if c.entries.len() > 0 {
        match c.entries.last() {
            EntryView::Assistant { text, done: false } => (
                with_entry_at(
                    c,
                    c.entries.len() - 1,
                    EntryView::Assistant { text: text + delta, done: false },
                ),
                RefreshView::Append(delta),
            ),
            _ => (
                with_entry(c, EntryView::Assistant { text: delta, done: false }),
                RefreshView::Rebuild,
            ),
        }
    } else {
        (with_entry(c, EntryView::Assistant { text: delta, done: false }), RefreshView::Rebuild)
    }
}

/// The panel `c` after a summary of the running tool call's input.
pub open spec fn after_tool_input(c: ChatView, summary: Seq<char>) -> (ChatView, RefreshView) {
    if c.entries.len() > 0 {
        match c.entries.last() {
            EntryView::ToolCall { name, result, is_error, .. } => (
                with_entry_at(
                    c,
                    c.entries.len() - 1,
                    EntryView::ToolCall { name, input_summary: summary, result, is_error },
                ),
                RefreshView::Redraw,
            ),
            _ => (c, RefreshView::Unchanged),
        }
    } else {
        (c, RefreshView::Unchanged)
    }
}

/// The panel `c` after a tool's result, which belongs to the last tool call.
pub open spec fn after_tool_result(c: ChatView, content: Seq<char>, failed: bool) -> ChatView {
    let i = last_tool_call(c.entries);
    if i < 0 {
        c
    } else {
        match c.entries[i] {
            EntryView::ToolCall { name, input_summary, .. } => with_entry_at(
                c,
                i,
                EntryView::ToolCall {
                    name,
                    input_summary,
                    result: Some(text::first_chars(content, RESULT_CHARS as nat)),
                    is_error: failed,
                },
            ),
            _ => c,
        }
    }
}

/// The panel `c` after the agent's turn, which its last entry belongs to.
pub open spec fn after_turn_done(c: ChatView) -> ChatView {
    let i = last_assistant(c.entries);
    let marked = if i < 0 {
        c
    } else {
        match c.entries[i] {
            EntryView::Assistant { text, .. } => with_entry_at(
                c,
                i,
                EntryView::Assistant { text, done: true },
            ),
            _ => c,
        }
    };
    ChatView { state: "idle"@, ..marked }
}

/// The panel `c` after the message `m`, and what the window has to do.
pub open spec fn after_message(c: ChatView, m: Fields) -> (ChatView, RefreshView) {
    let kind = message::kind_of(m);
    if kind == "session.created"@ {
        (after_created(c, m), RefreshView::Rebuild)
    } else if kind == "session.state"@ || kind == "state"@ {
        (
            if state_of(m).len() == 0 {
                c
            } else {
                ChatView { state: state_of(m), ..c }
            },
            RefreshView::Redraw,
        )
    } else if kind == "text"@ {
        after_delta(c, message::text_or(m, "delta"@, ""@))
    } else if kind == "tool_start"@ {
        (
            with_entry(
                c,
                EntryView::ToolCall {
                    name: message::text_or(m, "name"@, ""@),
                    input_summary: ""@,
                    result: None,
                    is_error: false,
                },
            ),
            RefreshView::Rebuild,
        )
    } else if kind == "tool_input"@ {
        after_tool_input(c, message::text_or(m, "summary"@, ""@))
    } else if kind == "tool_result"@ {
        (
            after_tool_result(
                c,
                message::text_or(m, "content"@, ""@),
                message::flag_in(m, "is_error"@),
            ),
            RefreshView::Redraw,
        )
    } else if kind == "turn_done"@ {
        (after_turn_done(c), RefreshView::Redraw)
    } else if kind == "error"@ {
        (
            with_entry(
                c,
                EntryView::System { text: "Error: "@ + message::text_or(m, "message"@, ""@) },
            ),
            RefreshView::Rebuild,
        )
    } else if kind == "session.ended"@ {
        (
            with_entry(
                ChatView { state: "ended"@, ..c },
                EntryView::System { text: "Session ended"@ },
            ),
            RefreshView::Rebuild,
        )
    } else {
        (c, RefreshView::Unchanged)
    }
}

/// The session that messages go to: empty where there is none yet.
pub open spec fn session_id_or_empty(c: ChatView) -> Seq<char> {
    match c.session_id {
        Some(id) => id,
        None => ""@,
    }
}

/// The panel `c` after the user has sent the input: nothing is sent of white space alone.
pub open spec fn after_send(c: ChatView) -> ChatView {
    let text = text::trimmed(c.input_text);
    if text.len() == 0 {
        c
    } else {
        with_entry(
            ChatView { input_text: ""@, state: "running"@, ..c },
            EntryView::User { text },
        )
    }
}

/// What came of a key.
pub enum Key {
    /// The input was sent: the message for the server.
    Sent(String),
    /// The input may have changed and is to be drawn again.
    Edited,
    /// Nothing.
    Ignored,
}

/// The view of the text that a key types.
pub open spec fn typed_view(typed: Option<&str>) -> Option<Seq<char>> {
    match typed {
        Some(s) => Some(s@),
        None => None,
    }
}

/// Whether a key sends the input: enter does, with no modifier key held.
pub open spec fn sends(key: Seq<char>, modified: bool) -> bool {
    key == "enter"@ && !modified
}

/// Whether `typed` is text to put in: some, and free of control characters.
pub open spec fn types_text(typed: Option<Seq<char>>) -> bool {
    match typed {
        Some(s) => s.len() > 0 && forall|i: int|
            0 <= i < s.len() ==> !text::control(#[trigger] s[i]),
        None => false,
    }
}

/// Whether a key edits the input: backspace does, and every other key that types text.
pub open spec fn edits(key: Seq<char>, modified: bool, typed: Option<Seq<char>>) -> bool {
    !sends(key, modified) && (key == "backspace"@ || types_text(typed))
}

/// The panel `c` after a key.
pub open spec fn after_key(
    c: ChatView,
    key: Seq<char>,
    modified: bool,
    typed: Option<Seq<char>>,
) -> ChatView {
    if sends(key, modified) {
        after_send(c)
    } else if key == "backspace"@ {
        if c.input_text.len() == 0 {
            c
        } else {
            ChatView { input_text: c.input_text.drop_last(), ..c }
        }
    } else if types_text(typed) {
        ChatView { input_text: c.input_text + typed.unwrap(), ..c }
    } else {
        c
    }
}

/// The colour of the dot that shows a session's state.
pub open spec fn state_color_of(state: Seq<char>) -> ThemeColor {
    if state == "running"@ {
        ThemeColor::Green
    } else if state == "idle"@ || state == "connected"@ {
        ThemeColor::Cyan
    } else if state == "connecting"@ {
        ThemeColor::Yellow
    } else {
        ThemeColor::Red
    }
}

/// What the panel shows around its list of entries.
pub struct ChatScreen {
    pub state_color: ThemeColor,
    pub title: String,
    pub state: String,
    /// How many rows the list has.
    pub rows: usize,
    /// What stands in the input field, and its colour.
    pub input: String,
    pub input_color: ThemeColor,
}

/// What the panel shows of an entry.
pub enum Row {
    /// A text under the name of who wrote it.
    Said { by: String, by_color: ThemeColor, text: String, markdown: bool },
    /// A tool call: a dot, the tool's name and its input.
    Tool { color: ThemeColor, dot: &'static str, name: String, input_summary: String },
    /// A note in italics.
    Note { text: String },
}

pub enum RowView {
    Said { by: Seq<char>, by_color: ThemeColor, text: Seq<char>, markdown: bool },
    Tool { color: ThemeColor, dot: Seq<char>, name: Seq<char>, input_summary: Seq<char> },
    Note { text: Seq<char> },
}

impl View for Row {
    type V = RowView;

    open spec fn view(&self) -> RowView {
        match self {
            Row::Said { by, by_color, text, markdown } => RowView::Said {
                by: by@,
                by_color: *by_color,
                text: text@,
                markdown: *markdown,
            },
            Row::Tool { color, dot, name, input_summary } => RowView::Tool {
                color: *color,
                dot: dot@,
                name: name@,
                input_summary: input_summary@,
            },
            Row::Note { text } => RowView::Note { text: text@ },
        }
    }
}

/// What the panel shows of the entry `e` where `agent` is the session's agent. A tool call has a
/// hollow dot until its result is there.
pub open spec fn row_of(e: EntryView, agent: Seq<char>) -> RowView {
    match e {
        EntryView::User { text } => RowView::Said {
            by: "you"@,
            by_color: ThemeColor::TextMuted,
            text,
            markdown: false,
        },
        EntryView::Assistant { text, .. } => RowView::Said {
            by: agent,
            by_color: ThemeColor::Cyan,
            text,
            markdown: true,
        },
        EntryView::ToolCall { name, input_summary, result, is_error } => RowView::Tool {
            color: if result is None {
                ThemeColor::TextDisabled
            } else if is_error {
                ThemeColor::Red
            } else {
                ThemeColor::Green
            },
            dot: if result is None {
                "○"@
            } else {
                "●"@
            },
            name,
            input_summary,
        },
        EntryView::System { text } => RowView::Note { text },
    }
}

proof fn lemma_last_tool_call(entries: Seq<EntryView>)
    ensures
        -1 <= last_tool_call(entries) < entries.len(),
        last_tool_call(entries) >= 0 ==> entries[last_tool_call(entries)] is ToolCall,
    decreases entries.len(),
{
    if entries.len() > 0 {
        lemma_last_tool_call(entries.drop_last());
    }
}

proof fn lemma_last_assistant(entries: Seq<EntryView>)
    ensures
        -1 <= last_assistant(entries) < entries.len(),
        last_assistant(entries) >= 0 ==> entries[last_assistant(entries)] is Assistant,
    decreases entries.len(),
{
    if entries.len() > 0 {
        lemma_last_assistant(entries.drop_last());
    }
}

impl HaakChat {
    /// An empty panel that is about to connect.
    pub fn new() -> (r: HaakChat)
        ensures
            chat_wf(r@),
            r@ == (ChatView {
                entries: Seq::empty(),
                list_len: 0,
                input_text: ""@,
                session_id: None,
                session_name: None,
                agent: DEFAULT_AGENT@,
                model: ""@,
                state: "connecting"@,
            }),
    {
        let r = HaakChat {
            entries: Vec::new(),
            list_len: 0,
            input_text: "".to_owned(),
            session_id: None,
            session_name: None,
            agent: DEFAULT_AGENT.to_owned(),
            model: "".to_owned(),
            state: "connecting".to_owned(),
        };
        proof {
            assert(r@.entries == Seq::<EntryView>::empty());
        }
        r
    }

    /// Adds an entry, and a row for it.
    fn push(&mut self, e: ChatEntry)
        requires
            chat_wf(old(self)@),
            e@ matches EntryView::ToolCall { result: Some(r), .. } ==> r.len() <= RESULT_CHARS,
        ensures
            chat_wf(final(self)@),
            final(self)@ == with_entry(old(self)@, e@),
    {
        self.entries.push(e);
        self.rebuild_list();
        proof {
            assert(self@.entries == old(self)@.entries.push(e@));
        }
    }

    /// Sets the list up for as many rows as there are entries.
    fn rebuild_list(&mut self)
        ensures
            final(self)@ == (ChatView { list_len: old(self)@.entries.len(), ..old(self)@ }),
    {
        self.list_len = self.entries.len();
    }

    /// Takes note that the agent has written `delta`.
    fn write_delta(&mut self, delta: String) -> (r: Refresh)
        requires
            chat_wf(old(self)@),
        ensures
            chat_wf(final(self)@),
            (final(self)@, r@) == after_delta(old(self)@, delta@),
    {
        if delta.as_str().is_empty() {
            return Refresh::Unchanged;
        }
        let n: usize = self.entries.len();
        if n > 0 {
            if let ChatEntry::Assistant { text, done: false } = &mut self.entries[n - 1] {
                text.append(delta.as_str());
                proof {
                    assert(self@.entries == after_delta(old(self)@, delta@).0.entries);
                }
                return Refresh::Append(delta);
            }
        }
        self.push(ChatEntry::Assistant { text: delta, done: false });
        Refresh::Rebuild
    }

    /// Takes note of a summary of the running tool call's input.
    fn write_tool_input(&mut self, summary: String) -> (r: Refresh)
        requires
            chat_wf(old(self)@),
        ensures
            chat_wf(final(self)@),
            (final(self)@, r@) == after_tool_input(old(self)@, summary@),
    {
        let n: usize = self.entries.len();
        if n > 0 {
            if let ChatEntry::ToolCall { input_summary, .. } = &mut self.entries[n - 1] {
                *input_summary = summary;
                proof {
                    assert(self@.entries == after_tool_input(old(self)@, summary@).0.entries);
                }
                return Refresh::Redraw;
            }
        }
        proof {
            assert(self@.entries == old(self)@.entries);
        }
        Refresh::Unchanged
    }

    /// Takes note of a tool's result.
    fn write_tool_result(&mut self, content: &str, failed: bool)
        requires
            chat_wf(old(self)@),
        ensures
            chat_wf(final(self)@),
            final(self)@ == after_tool_result(old(self)@, content@, failed),
    {
        let mut i: usize = self.entries.len();
        let kept = text::take_chars(content, RESULT_CHARS);
        let ghost before = self@;
        proof {
            assert(before.entries.take(i as int) == before.entries);
        }
        while i > 0
            invariant
                i <= self.entries@.len(),
                self@ == before,
                before == old(self)@,
                chat_wf(before),
                kept@ == text::first_chars(content@, RESULT_CHARS as nat),
                last_tool_call(before.entries.take(i as int)) == last_tool_call(before.entries),
            decreases i,
        {
            proof {
                assert(before.entries.take(i as int).drop_last() == before.entries.take(
                    i as int - 1,
                ));
                assert(before.entries[i as int - 1] == self.entries@[i as int - 1]@);
            }
            if let ChatEntry::ToolCall { result, is_error, .. } = &mut self.entries[i - 1] {
                *result = Some(kept);
                *is_error = failed;
                proof {
                    assert(self@.entries == after_tool_result(before, content@, failed).entries);
                }
                return;
            }
            i = i - 1;
        }
    }

    /// Takes note that the agent's turn is over.
    fn finish_turn(&mut self)
        requires
            chat_wf(old(self)@),
        ensures
            chat_wf(final(self)@),
            final(self)@ == after_turn_done(old(self)@),
    {
        let mut i: usize = self.entries.len();
        let ghost before = self@;
        self.state = "idle".to_owned();
        proof {
            assert(before.entries.take(i as int) == before.entries);
        }
        while i > 0
            invariant
                i <= self.entries@.len(),
                self@ == (ChatView { state: "idle"@, ..before }),
                before == old(self)@,
                chat_wf(before),
                last_assistant(before.entries.take(i as int)) == last_assistant(before.entries),
            decreases i,
        {
            proof {
                assert(before.entries.take(i as int).drop_last() == before.entries.take(
                    i as int - 1,
                ));
                assert(before.entries[i as int - 1] == self.entries@[i as int - 1]@);
            }
            if let ChatEntry::Assistant { done, .. } = &mut self.entries[i - 1] {
                *done = true;
                proof {
                    assert(self@.entries == after_turn_done(before).entries);
                }
                return;
            }
            i = i - 1;
        }
    }

    /// The state that a state message brings.
    fn state_in(m: &Message) -> (r: String)
        ensures
            r@ == state_of(m@),
    {
        match m.get("state") {
            Some(Field::Text(s)) => s.clone(),
            Some(_) => "".to_owned(),
            None => m.text_or("value", ""),
        }
    }

    /// Takes note of a message from the server.
    pub fn handle_message(&mut self, m: &Message) -> (r: Refresh)
        requires
            chat_wf(old(self)@),
        ensures
            chat_wf(final(self)@),
            (final(self)@, r@) == after_message(old(self)@, m@),
    {
        let kind = m.kind();
        let kind = kind.as_str();
        if same_text(kind, "session.created") {
            self.session_id = Some(m.text_or("sessionId", ""));
            self.session_name = Some(m.text_or("name", ""));
            let agent = m.text_or("agent", "");
            self.agent = if agent.as_str().is_empty() {
                DEFAULT_AGENT.to_owned()
            } else {
                agent
            };
            self.model = m.text_or("model", "");
            self.state = "connected".to_owned();
            let label = "Connected as ".to_owned().concat(self.agent.as_str());
            self.push(ChatEntry::System { text: label });
            Refresh::Rebuild
        } else if same_text(kind, "session.state") || same_text(kind, "state") {
            let state = HaakChat::state_in(m);
            if !state.as_str().is_empty() {
                self.state = state;
            }
            Refresh::Redraw
        } else if same_text(kind, "text") {
            self.write_delta(m.text_or("delta", ""))
        } else if same_text(kind, "tool_start") {
            self.push(
                ChatEntry::ToolCall {
                    name: m.text_or("name", ""),
                    input_summary: "".to_owned(),
                    result: None,
                    is_error: false,
                },
            );
            Refresh::Rebuild
        } else if same_text(kind, "tool_input") {
            self.write_tool_input(m.text_or("summary", ""))
        } else if same_text(kind, "tool_result") {
            let content = m.text_or("content", "");
            self.write_tool_result(content.as_str(), m.flag("is_error"));
            Refresh::Redraw
        } else if same_text(kind, "turn_done") {
            self.finish_turn();
            Refresh::Redraw
        } else if same_text(kind, "error") {
            let reason = m.text_or("message", "");
            self.push(ChatEntry::System { text: "Error: ".to_owned().concat(reason.as_str()) });
            Refresh::Rebuild
        } else if same_text(kind, "session.ended") {
            self.state = "ended".to_owned();
            self.push(ChatEntry::System { text: "Session ended".to_owned() });
            Refresh::Rebuild
        } else {
            Refresh::Unchanged
        }
    }

    /// Takes note of an event from the server. Text that is no JSON is passed over.
    pub fn handle_event(&mut self, raw: &str) -> (r: Refresh)
        requires
            chat_wf(old(self)@),
        ensures
            chat_wf(final(self)@),
            match message::json_fields(raw@) {
                Some(m) => (final(self)@, r@) == after_message(old(self)@, m),
                None => final(self)@ == old(self)@ && r@ == RefreshView::Unchanged,
            },
    {
        match Message::decode(raw) {
            Some(m) => self.handle_message(&m),
            None => Refresh::Unchanged,
        }
    }

    /// Sends what the user has typed, where it is more than white space: the text goes to the
    /// transcript, and the message for the server is handed back.
    pub fn send_message(&mut self) -> (r: Option<String>)
        requires
            chat_wf(old(self)@),
        ensures
            chat_wf(final(self)@),
            final(self)@ == after_send(old(self)@),
            match r {
                Some(payload) => {
                    let text = text::trimmed(old(self)@.input_text);
                    let session = session_id_or_empty(old(self)@);
                    &&& text.len() > 0
                    &&& payload@ == message::json_text(message::user_fields(session, text))
                    &&& message::json_fields(payload@) matches Some(m)
                        && message::is_user_message(m, session, text)
                },
                None => text::trimmed(old(self)@.input_text).len() == 0,
            },
    {
        let text = text::trim(self.input_text.as_str());
        if text.as_str().is_empty() {
            return None;
        }
        self.input_text = "".to_owned();
        self.state = "running".to_owned();
        self.push(ChatEntry::User { text: text.clone() });
        let session = match &self.session_id {
            Some(id) => id.clone(),
            None => "".to_owned(),
        };
        Some(message::user_message(session.as_str(), text.as_str()))
    }

    /// Takes note of a key: `key` is its name, `modified` whether a modifier key was held, and
    /// `typed` the text that it types, where it types any.
    pub fn key_down(&mut self, key: &str, modified: bool, typed: Option<&str>) -> (r: Key)
        requires
            chat_wf(old(self)@),
        ensures
            chat_wf(final(self)@),
            final(self)@ == after_key(old(self)@, key@, modified, typed_view(typed)),
            match r {
                Key::Sent(payload) => {
                    let text = text::trimmed(old(self)@.input_text);
                    let session = session_id_or_empty(old(self)@);
                    &&& sends(key@, modified)
                    &&& text.len() > 0
                    &&& payload@ == message::json_text(message::user_fields(session, text))
                    &&& message::json_fields(payload@) matches Some(m)
                        && message::is_user_message(m, session, text)
                },
                Key::Edited => edits(key@, modified, typed_view(typed)),
                Key::Ignored => if sends(key@, modified) {
                    text::trimmed(old(self)@.input_text).len() == 0
                } else {
                    !edits(key@, modified, typed_view(typed))
                },
            },
    {
        if same_text(key, "enter") && !modified {
            match self.send_message() {
                Some(payload) => Key::Sent(payload),
                None => Key::Ignored,
            }
        } else if same_text(key, "backspace") {
            let n: usize = self.input_text.as_str().unicode_len();
            if n > 0 {
                self.input_text = self.input_text.as_str().substring_char(0, n - 1).to_owned();
                proof {
                    assert(self.input_text@ == old(self).input_text@.drop_last());
                }
            }
            Key::Edited
        } else {
            match typed {
                Some(s) => if !s.is_empty() && text::is_printable(s) {
                    self.input_text.append(s);
                    Key::Edited
                } else {
                    Key::Ignored
                },
                None => Key::Ignored,
            }
        }
    }

    /// What the panel shows of an entry.
    pub fn render_entry(&self, ix: usize) -> (r: Row)
        requires
            ix < self@.entries.len(),
        ensures
            r@ == row_of(self@.entries[ix as int], self@.agent),
    {
        match &self.entries[ix] {
            ChatEntry::User { text } => Row::Said {
                by: "you".to_owned(),
                by_color: ThemeColor::TextMuted,
                text: text.clone(),
                markdown: false,
            },
            ChatEntry::Assistant { text, .. } => Row::Said {
                by: self.agent.clone(),
                by_color: ThemeColor::Cyan,
                text: text.clone(),
                markdown: true,
            },
            ChatEntry::ToolCall { name, input_summary, result, is_error } => {
                let color = if result.is_some() {
                    if *is_error {
                        ThemeColor::Red
                    } else {
                        ThemeColor::Green
                    }
                } else {
                    ThemeColor::TextDisabled
                };
                let dot = if result.is_some() {
                    "●"
                } else {
                    "○"
                };
                Row::Tool { color, dot, name: name.clone(), input_summary: input_summary.clone() }
            },
            ChatEntry::System { text } => Row::Note { text: text.clone() },
        }
    }

    /// What the panel shows around its list of entries.
    pub fn render(&self) -> (r: ChatScreen)
        ensures
            r.state_color == state_color_of(self@.state),
            r.title@ == (match self@.session_name {
                Some(name) => name,
                None => self@.agent,
            }),
            r.state@ == self@.state,
            r.rows == self@.list_len,
            r.input@ == (if self@.input_text.len() == 0 {
                "Write a message..."@
            } else {
                self@.input_text
            }),
            r.input_color == (if self@.input_text.len() == 0 {
                ThemeColor::TextDisabled
            } else {
                ThemeColor::Text
            }),
    {
        let state = self.state.as_str();
        let state_color = if same_text(state, "running") {
            ThemeColor::Green
        } else if same_text(state, "idle") || same_text(state, "connected") {
            ThemeColor::Cyan
        } else if same_text(state, "connecting") {
            ThemeColor::Yellow
        } else {
            ThemeColor::Red
        };
        let title = match &self.session_name {
            Some(name) => name.clone(),
            None => self.agent.clone(),
        };
        let (input, input_color) = if self.input_text.as_str().is_empty() {
            ("Write a message...".to_owned(), ThemeColor::TextDisabled)
        } else {
            (self.input_text.clone(), ThemeColor::Text)
        };
        ChatScreen {
            state_color,
            title,
            state: self.state.clone(),
            rows: self.list_len,
            input,
            input_color,
        }
    }

    /// The panel's name in settings.
    pub fn persistent_name() -> (r: &'static str)
        ensures
            r@ == "Haak Chat"@,
    {
        "Haak Chat"
    }

    /// The panel's key in the store of open panels.
    pub fn panel_key() -> (r: &'static str)
        ensures
            r@ == "HaakChat"@,
    {
        "HaakChat"
    }

    /// The side at which the panel docks.
    pub fn position(&self) -> (r: DockPosition)
        ensures
            r == DockPosition::Right,
    {
        panel::position()
    }

    /// Whether the panel may dock at a side.
    pub fn position_is_valid(&self, position: DockPosition) -> (r: bool)
        ensures
            r == (position == DockPosition::Left || position == DockPosition::Right),
    {
        panel::position_is_valid(position)
    }

    /// The panel's width in pixels before the user has set one.
    pub fn default_size(&self) -> (r: u32)
        ensures
            r == 420,
    {
        420
    }

    /// The panel's icon.
    pub fn icon(&self) -> (r: Icon)
        ensures
            r == Icon::Chat,
    {
        Icon::Chat
    }

    /// What the icon says when pointed at.
    pub fn icon_tooltip(&self) -> (r: &'static str)
        ensures
            r@ == "HaaK Chat"@,
    {
        "HaaK Chat"
    }

    /// The panel's rank among those that want to be shown.
    pub fn activation_priority(&self) -> (r: u32)
        ensures
            r == 11,
    {
        11
    }
}

/// It does not matter in which pieces the agent's text arrives.
pub proof fn law_chunks_join(c: ChatView, a: Seq<char>, b: Seq<char>)
    requires
        a.len() > 0,
        b.len() > 0,
    ensures
        after_delta(after_delta(c, a).0, b).0 == after_delta(c, a + b).0,
        after_delta(after_delta(c, a).0, b).1 == RefreshView::Append(b),
{
    let first = after_delta(c, a).0;
    let whole = after_delta(c, a + b).0;
    let last = first.entries.len() - 1;
    assert(first.entries.last() is Assistant);
    if let EntryView::Assistant { text, done } = first.entries[last] {
        if c.entries.len() > 0 && c.entries.last() is Assistant {
            assert(c.entries.last()->Assistant_text + a + b == c.entries.last()->Assistant_text + (a
                + b));
        }
        assert(after_delta(first, b).0.entries == whole.entries);
    }
}

/// Once a turn is done, what the agent writes next is an entry of its own.
pub proof fn law_turn_starts_a_new_entry(c: ChatView, delta: Seq<char>)
    requires
        delta.len() > 0,
    ensures
        after_delta(after_turn_done(c), delta) == (
            with_entry(after_turn_done(c), EntryView::Assistant { text: delta, done: false }),
            RefreshView::Rebuild,
        ),
{
    lemma_last_assistant(c.entries);
}

/// Whether transcript `b` is a later state of transcript `a`: nothing was taken away, each entry
/// is of the sort that it was, and what the user or the system said stands unchanged.
pub open spec fn continues(a: Seq<EntryView>, b: Seq<EntryView>) -> bool {
    &&& a.len() <= b.len()
    &&& forall|i: int|
        0 <= i < a.len() ==> match #[trigger] a[i] {
            EntryView::User { .. } => b[i] == a[i],
            EntryView::System { .. } => b[i] == a[i],
            EntryView::Assistant { .. } => b[i] is Assistant,
            EntryView::ToolCall { .. } => b[i] is ToolCall,
        }
}

/// Messages from the server add to the transcript and never take from it.
pub proof fn law_transcript_only_grows(c: ChatView, m: Fields)
    ensures
        continues(c.entries, after_message(c, m).0.entries),
        after_message(c, m).0.entries.len() <= c.entries.len() + 1,
{
    lemma_last_tool_call(c.entries);
    lemma_last_assistant(c.entries);
}

/// Messages from the server leave alone what the user is typing.
pub proof fn law_messages_keep_input(c: ChatView, m: Fields)
    ensures
        after_message(c, m).0.input_text == c.input_text,
{
}

/// A tool's result changes the last tool call and nothing else.
pub proof fn law_result_goes_to_last_tool_call(c: ChatView, content: Seq<char>, failed: bool)
    ensures
        ({
            let i = last_tool_call(c.entries);
            let after = after_tool_result(c, content, failed);
            &&& forall|j: int| i < j < c.entries.len() ==> !((#[trigger] c.entries[j]) is ToolCall)
            &&& forall|j: int|
                0 <= j < c.entries.len() && j != i ==> #[trigger] after.entries[j] == c.entries[j]
            &&& i >= 0 ==> (after.entries[i] matches EntryView::ToolCall {
                result: Some(r),
                is_error,
                ..
            } && r == text::first_chars(content, RESULT_CHARS as nat) && is_error == failed)
            &&& i < 0 ==> after == c
        }),
{
    lemma_last_tool_call(c.entries);
    lemma_after_last_tool_call(c.entries);
}

proof fn lemma_after_last_tool_call(entries: Seq<EntryView>)
    ensures
        forall|j: int|
            last_tool_call(entries) < j < entries.len() ==> !((#[trigger] entries[j]) is ToolCall),
    decreases entries.len(),
{
    if entries.len() > 0 && !(entries.last() is ToolCall) {
        let front = entries.drop_last();
        lemma_last_tool_call(front);
        lemma_after_last_tool_call(front);
        assert forall|j: int| last_tool_call(entries) < j < entries.len() implies !((
        #[trigger] entries[j]) is ToolCall) by {
            if j < entries.len() - 1 {
                assert(front[j] == entries[j]);
            }
        }
    }
}

/// Messages go to the session that was opened last.
pub proof fn law_messages_go_to_the_session(c: ChatView, m: Fields)
    requires
        message::kind_of(m) == "session.created"@,
    ensures
        session_id_or_empty(after_message(c, m).0) == message::text_or(m, "sessionId"@, ""@),
{
}

/// The session stays the same until another is opened.
pub proof fn law_session_is_kept(c: ChatView, m: Fields)
    requires
        message::kind_of(m) != "session.created"@,
    ensures
        after_message(c, m).0.session_id == c.session_id,
{
}

/// What was sent is not sent again.
pub proof fn law_sent_once(c: ChatView)
    ensures
        text::trimmed(c.input_text).len() > 0 ==> after_send(c).input_text.len() == 0,
        after_send(after_send(c)) == after_send(c),
{
    reveal_strlit("");
    assert(text::trimmed(""@) == ""@);
}

/// Backspace takes back a character that was typed.
pub proof fn law_backspace_undoes_a_character(c: ChatView, key: Seq<char>, ch: char)
    requires
        key != "enter"@,
        key != "backspace"@,
        !text::control(ch),
    ensures
        after_key(after_key(c, key, false, Some(seq![ch])), "backspace"@, false, None) == c,
{
    reveal_strlit("enter");
    reveal_strlit("backspace");
    assert("enter"@.len() != "backspace"@.len());
    let typed = after_key(c, key, false, Some(seq![ch]));
    assert(typed.input_text == c.input_text.push(ch));
    assert(typed.input_text.drop_last() == c.input_text);
}

/// A failure to connect is shown with its reason.
pub proof fn law_connect_failure_is_shown(c: ChatView, m: Fields, reason: Seq<char>)
    requires
        message::is_error(m, "Connect failed: "@ + reason),
    ensures
        after_message(c, m).0 == with_entry(
            c,
            EntryView::System { text: "Error: "@ + ("Connect failed: "@ + reason) },
        ),
{
    reveal_strlit("error");
    reveal_strlit("session.created");
    reveal_strlit("session.state");
    reveal_strlit("state");
    reveal_strlit("text");
    reveal_strlit("tool_start");
    reveal_strlit("tool_input");
    reveal_strlit("tool_result");
    reveal_strlit("turn_done");
    assert("error"@[0] != "state"@[0]);
}

proof fn lemma_kinds_differ()
    ensures
        "session.created"@ != "session.state"@,
        "session.created"@ != "state"@,
        "session.created"@ != "text"@,
        "session.created"@ != "tool_start"@,
        "session.created"@ != "tool_input"@,
        "session.created"@ != "tool_result"@,
        "session.created"@ != "turn_done"@,
        "session.created"@ != "error"@,
        "session.created"@ != "session.ended"@,
        "session.state"@ != "text"@,
        "session.state"@ != "tool_start"@,
        "session.state"@ != "tool_input"@,
        "session.state"@ != "tool_result"@,
        "session.state"@ != "turn_done"@,
        "session.state"@ != "error"@,
        "session.state"@ != "session.ended"@,
        "state"@ != "text"@,
        "state"@ != "tool_start"@,
        "state"@ != "tool_input"@,
        "state"@ != "tool_result"@,
        "state"@ != "turn_done"@,
        "state"@ != "error"@,
        "state"@ != "session.ended"@,
        "text"@ != "tool_start"@,
        "text"@ != "tool_input"@,
        "text"@ != "tool_result"@,
        "text"@ != "turn_done"@,
        "text"@ != "error"@,
        "text"@ != "session.ended"@,
        "tool_start"@ != "tool_input"@,
        "tool_start"@ != "tool_result"@,
        "tool_start"@ != "turn_done"@,
        "tool_start"@ != "error"@,
        "tool_start"@ != "session.ended"@,
        "tool_input"@ != "tool_result"@,
        "tool_input"@ != "turn_done"@,
        "tool_input"@ != "error"@,
        "tool_input"@ != "session.ended"@,
        "tool_result"@ != "turn_done"@,
        "tool_result"@ != "error"@,
        "tool_result"@ != "session.ended"@,
        "turn_done"@ != "error"@,
        "turn_done"@ != "session.ended"@,
        "error"@ != "session.ended"@,
        ""@ != "session.created"@,
        ""@ != "session.state"@,
        ""@ != "state"@,
        ""@ != "text"@,
        ""@ != "tool_start"@,
        ""@ != "tool_input"@,
        ""@ != "tool_result"@,
        ""@ != "turn_done"@,
        ""@ != "error"@,
        ""@ != "session.ended"@,
{
    reveal_strlit("");
    reveal_strlit("session.created");
    reveal_strlit("session.state");
    reveal_strlit("state");
    reveal_strlit("text");
    reveal_strlit("tool_start");
    reveal_strlit("tool_input");
    reveal_strlit("tool_result");
    reveal_strlit("turn_done");
    reveal_strlit("error");
    reveal_strlit("session.ended");
    assert("session.state"@[8] != "session.ended"@[8]);
    assert("state"@[0] != "error"@[0]);
    assert("tool_start"@[5] != "tool_input"@[5]);
    assert("session.created"@.len() == 15);
    assert("session.state"@.len() == 13);
    assert("state"@.len() == 5);
    assert("text"@.len() == 4);
    assert("tool_start"@.len() == 10);
    assert("tool_input"@.len() == 10);
    assert("tool_result"@.len() == 11);
    assert("turn_done"@.len() == 9);
    assert("error"@.len() == 5);
    assert("session.ended"@.len() == 13);
    assert(""@.len() == 0);
}

/// Whether `m` is a message of the kind `kind`.
pub open spec fn is_kind(m: Fields, kind: Seq<char>) -> bool {
    message::holds_text(m, "type"@, kind)
}

/// Whether what the user types and what is known of the session are the same in `c` and `d`.
pub open spec fn same_session(c: ChatView, d: ChatView) -> bool {
    &&& d.input_text == c.input_text
    &&& d.session_id == c.session_id
    &&& d.session_name == c.session_name
    &&& d.agent == c.agent
    &&& d.model == c.model
}

/// Whether `d` has the entries of `c`, untouched, and `e` after them, with a row for each.
pub open spec fn adds_entry(c: ChatView, d: ChatView, e: EntryView) -> bool {
    &&& d.entries.len() == c.entries.len() + 1
    &&& forall|j: int| 0 <= j < c.entries.len() ==> #[trigger] d.entries[j] == c.entries[j]
    &&& d.entries[c.entries.len() as int] == e
    &&& d.list_len == c.entries.len() + 1
}

/// Whether `c` and `d` have the same entries but for entry `i`, and as many rows.
pub open spec fn changes_only(c: ChatView, d: ChatView, i: int) -> bool {
    &&& d.entries.len() == c.entries.len()
    &&& forall|j: int| 0 <= j < c.entries.len() && j != i ==> #[trigger] d.entries[j] == c.entries[j]
    &&& d.list_len == c.list_len
}

/// Whether the last entry of the transcript is one that the agent is still writing.
pub open spec fn is_writing(c: ChatView) -> bool {
    &&& c.entries.len() > 0
    &&& c.entries[c.entries.len() - 1] is Assistant
    &&& !c.entries[c.entries.len() - 1]->done
}

/// Text that arrives when the last entry is not one that the agent is still writing becomes a new
/// entry at the end, and all before it stay as they are.
pub proof fn law_text_after_something_else_is_a_new_entry(c: ChatView, m: Fields, delta: Seq<char>)
    requires
        is_kind(m, "text"@),
        message::holds_text(m, "delta"@, delta),
        delta.len() > 0,
        !is_writing(c),
    ensures
        ({
            let (d, refresh) = after_message(c, m);
            &&& adds_entry(c, d, EntryView::Assistant { text: delta, done: false })
            &&& refresh == RefreshView::Rebuild
            &&& same_session(c, d)
            &&& d.state == c.state
        }),
{
    lemma_kinds_differ();
}

/// Text that arrives while the agent is writing its entry, the last one, is put to the end of it,
/// and no other entry changes.
pub proof fn law_text_continues_the_entry(
    c: ChatView,
    m: Fields,
    before: Seq<char>,
    delta: Seq<char>,
)
    requires
        is_kind(m, "text"@),
        message::holds_text(m, "delta"@, delta),
        delta.len() > 0,
        c.entries.len() > 0,
        c.entries[c.entries.len() - 1] == (EntryView::Assistant { text: before, done: false }),
    ensures
        ({
            let (d, refresh) = after_message(c, m);
            let last = c.entries.len() - 1;
            &&& changes_only(c, d, last)
            &&& d.entries[last] == EntryView::Assistant { text: before + delta, done: false }
            &&& refresh == RefreshView::Append(delta)
            &&& same_session(c, d)
            &&& d.state == c.state
        }),
{
    lemma_kinds_differ();
}

/// A text message without text changes nothing.
pub proof fn law_no_text_no_change(c: ChatView, m: Fields)
    requires
        is_kind(m, "text"@),
        message::lacks_text(m, "delta"@) || message::holds_text(m, "delta"@, Seq::empty()),
    ensures
        after_message(c, m) == (c, RefreshView::Unchanged),
{
    lemma_kinds_differ();
    reveal_strlit("");
}

/// A tool that starts becomes a new entry under its name, without input or result.
pub proof fn law_tool_start_is_a_new_entry(c: ChatView, m: Fields, name: Seq<char>)
    requires
        is_kind(m, "tool_start"@),
        message::gives_text(m, "name"@, Seq::empty(), name),
    ensures
        ({
            let (d, refresh) = after_message(c, m);
            &&& adds_entry(
                c,
                d,
                EntryView::ToolCall {
                    name,
                    input_summary: Seq::empty(),
                    result: None,
                    is_error: false,
                },
            )
            &&& refresh == RefreshView::Rebuild
            &&& same_session(c, d)
            &&& d.state == c.state
        }),
{
    lemma_kinds_differ();
    reveal_strlit("");
    assert(""@ == Seq::<char>::empty());
}

/// The summary of a tool's input goes to the last entry where that is a tool call, in place of the
/// one that was there, and nowhere else.
pub proof fn law_tool_input_goes_to_the_last_entry(c: ChatView, m: Fields, summary: Seq<char>)
    requires
        is_kind(m, "tool_input"@),
        message::gives_text(m, "summary"@, Seq::empty(), summary),
    ensures
        ({
            let (d, refresh) = after_message(c, m);
            let last = c.entries.len() - 1;
            if c.entries.len() > 0 && c.entries[last] is ToolCall {
                &&& changes_only(c, d, last)
                &&& d.entries[last] is ToolCall
                &&& d.entries[last]->input_summary == summary
                &&& d.entries[last]->name == c.entries[last]->name
                &&& d.entries[last]->result == c.entries[last]->result
                &&& d.entries[last]->is_error == c.entries[last]->is_error
                &&& refresh == RefreshView::Redraw
                &&& same_session(c, d)
                &&& d.state == c.state
            } else {
                d == c && refresh == RefreshView::Unchanged
            }
        }),
{
    lemma_kinds_differ();
    reveal_strlit("");
    assert(""@ == Seq::<char>::empty());
}

/// A tool's result goes to the last tool call, which keeps its name and input: the first two
/// hundred characters of it, and whether the tool failed. Without a tool call it goes nowhere.
pub proof fn law_tool_result_goes_to_its_call(c: ChatView, m: Fields, content: Seq<char>, i: int)
    requires
        is_kind(m, "tool_result"@),
        message::gives_text(m, "content"@, Seq::empty(), content),
        -1 <= i < c.entries.len(),
        i >= 0 ==> c.entries[i] is ToolCall,
        forall|j: int| i < j < c.entries.len() ==> !((#[trigger] c.entries[j]) is ToolCall),
    ensures
        ({
            let (d, refresh) = after_message(c, m);
            &&& changes_only(c, d, i)
            &&& i >= 0 ==> {
                &&& d.entries[i] is ToolCall
                &&& d.entries[i]->name == c.entries[i]->name
                &&& d.entries[i]->input_summary == c.entries[i]->input_summary
                &&& d.entries[i]->result == Some(
                    content.take(
                        if content.len() < 200 {
                            content.len() as int
                        } else {
                            200
                        },
                    ),
                )
                &&& d.entries[i]->is_error == message::holds_true(m, "is_error"@)
            }
            &&& refresh == RefreshView::Redraw
            &&& same_session(c, d)
            &&& d.state == c.state
        }),
{
    lemma_kinds_differ();
    reveal_strlit("");
    assert(""@ == Seq::<char>::empty());
    lemma_last_tool_call(c.entries);
    lemma_after_last_tool_call(c.entries);
    assert(last_tool_call(c.entries) == i);
    assert(content.take(content.len() as int) == content);
}

proof fn lemma_after_last_assistant(entries: Seq<EntryView>)
    ensures
        forall|j: int|
            last_assistant(entries) < j < entries.len() ==> !((#[trigger] entries[j]) is Assistant),
    decreases entries.len(),
{
    if entries.len() > 0 && !(entries.last() is Assistant) {
        let front = entries.drop_last();
        lemma_last_assistant(front);
        lemma_after_last_assistant(front);
        assert forall|j: int| last_assistant(entries) < j < entries.len() implies !((
        #[trigger] entries[j]) is Assistant) by {
            if j < entries.len() - 1 {
                assert(front[j] == entries[j]);
            }
        }
    }
}

/// The end of a turn marks the agent's last entry as done, with the text that it has, and leaves
/// the session idle. No other entry changes.
pub proof fn law_turn_done_marks_the_last_entry(c: ChatView, m: Fields, i: int)
    requires
        is_kind(m, "turn_done"@),
        -1 <= i < c.entries.len(),
        i >= 0 ==> c.entries[i] is Assistant,
        forall|j: int| i < j < c.entries.len() ==> !((#[trigger] c.entries[j]) is Assistant),
    ensures
        ({
            let (d, refresh) = after_message(c, m);
            &&& changes_only(c, d, i)
            &&& i >= 0 ==> {
                &&& d.entries[i] is Assistant
                &&& d.entries[i]->done
                &&& d.entries[i]->Assistant_text == c.entries[i]->Assistant_text
            }
            &&& refresh == RefreshView::Redraw
            &&& same_session(c, d)
            &&& d.state == "idle"@
        }),
{
    lemma_kinds_differ();
    lemma_last_assistant(c.entries);
    lemma_after_last_assistant(c.entries);
    assert(last_assistant(c.entries) == i);
}

/// An error becomes a note with the server's words.
pub proof fn law_error_is_noted(c: ChatView, m: Fields, reason: Seq<char>)
    requires
        is_kind(m, "error"@),
        message::gives_text(m, "message"@, Seq::empty(), reason),
    ensures
        ({
            let (d, refresh) = after_message(c, m);
            &&& adds_entry(c, d, EntryView::System { text: "Error: "@ + reason })
            &&& refresh == RefreshView::Rebuild
            &&& same_session(c, d)
            &&& d.state == c.state
        }),
{
    lemma_kinds_differ();
    reveal_strlit("");
    assert(""@ == Seq::<char>::empty());
}

/// The end of the session is noted, and the session is left as ended.
pub proof fn law_session_end_is_noted(c: ChatView, m: Fields)
    requires
        is_kind(m, "session.ended"@),
    ensures
        ({
            let (d, refresh) = after_message(c, m);
            &&& adds_entry(c, d, EntryView::System { text: "Session ended"@ })
            &&& refresh == RefreshView::Rebuild
            &&& same_session(c, d)
            &&& d.state == "ended"@
        }),
{
    lemma_kinds_differ();
}

/// A session that the server opens is taken over as the server describes it, with the agent `bala`
/// where it names none, and a note says who is connected. What the user types is kept.
pub proof fn law_new_session_is_taken_over(
    c: ChatView,
    m: Fields,
    id: Seq<char>,
    name: Seq<char>,
    agent: Seq<char>,
    model: Seq<char>,
)
    requires
        is_kind(m, "session.created"@),
        message::gives_text(m, "sessionId"@, Seq::empty(), id),
        message::gives_text(m, "name"@, Seq::empty(), name),
        message::gives_text(m, "model"@, Seq::empty(), model),
        if message::lacks_text(m, "agent"@) || message::holds_text(m, "agent"@, Seq::empty()) {
            agent == "bala"@
        } else {
            message::holds_text(m, "agent"@, agent)
        },
    ensures
        ({
            let (d, refresh) = after_message(c, m);
            &&& d.session_id == Some(id)
            &&& d.session_name == Some(name)
            &&& d.agent == agent
            &&& d.model == model
            &&& d.state == "connected"@
            &&& d.input_text == c.input_text
            &&& adds_entry(c, d, EntryView::System { text: "Connected as "@ + agent })
            &&& refresh == RefreshView::Rebuild
        }),
{
    lemma_kinds_differ();
    reveal_strlit("");
    assert(""@ == Seq::<char>::empty());
    if agent_of(m) != agent {
        assert(message::text_or(m, "agent"@, ""@).len() > 0 ==> message::holds_text(
            m,
            "agent"@,
            message::text_or(m, "agent"@, ""@),
        ));
        assert(message::text_or(m, "agent"@, ""@).len() == 0 ==> message::text_or(
            m,
            "agent"@,
            ""@,
        ) == Seq::<char>::empty());
    }
}

/// Whether `m` brings the state `s`: in its field `state`, or in `value` where there is no field
/// `state`.
pub open spec fn brings_state(m: Fields, s: Seq<char>) -> bool {
    &&& s.len() > 0
    &&& if m.contains_key("state"@) {
        message::holds_text(m, "state"@, s)
    } else {
        message::holds_text(m, "value"@, s)
    }
}

/// A state message sets the state that it brings, where it brings one, and nothing else.
pub proof fn law_state_is_taken_over(c: ChatView, m: Fields, s: Seq<char>)
    requires
        is_kind(m, "state"@) || is_kind(m, "session.state"@),
        brings_state(m, s) || forall|t: Seq<char>| !(#[trigger] brings_state(m, t)),
    ensures
        ({
            let (d, refresh) = after_message(c, m);
            &&& d.state == (if brings_state(m, s) {
                s
            } else {
                c.state
            })
            &&& d.entries == c.entries
            &&& d.list_len == c.list_len
            &&& same_session(c, d)
            &&& refresh == RefreshView::Redraw
        }),
{
    lemma_kinds_differ();
    reveal_strlit("");
    if !brings_state(m, s) {
        assert(!brings_state(m, state_of(m)));
    }
}

/// A message of no kind that is known changes nothing.
pub proof fn law_other_messages_change_nothing(c: ChatView, m: Fields)
    requires
        !is_kind(m, "session.created"@),
        !is_kind(m, "session.state"@),
        !is_kind(m, "state"@),
        !is_kind(m, "text"@),
        !is_kind(m, "tool_start"@),
        !is_kind(m, "tool_input"@),
        !is_kind(m, "tool_result"@),
        !is_kind(m, "turn_done"@),
        !is_kind(m, "error"@),
        !is_kind(m, "session.ended"@),
    ensures
        after_message(c, m) == (c, RefreshView::Unchanged),
{
    lemma_kinds_differ();
}

/// What is sent is the input without the white space around it: it becomes the user's entry at the
/// end of the transcript, the input is empty afterwards, and the session runs.
pub proof fn law_send_enters_the_text(
    c: ChatView,
    before: Seq<char>,
    text: Seq<char>,
    after: Seq<char>,
)
    requires
        c.input_text == before + text + after,
        forall|i: int| 0 <= i < before.len() ==> text::white_space(#[trigger] before[i]),
        forall|i: int| 0 <= i < after.len() ==> text::white_space(#[trigger] after[i]),
        text.len() > 0,
        !text::white_space(text[0]),
        !text::white_space(text[text.len() - 1]),
    ensures
        ({
            let d = after_send(c);
            &&& adds_entry(c, d, EntryView::User { text })
            &&& d.input_text.len() == 0
            &&& d.state == "running"@
            &&& d.session_id == c.session_id
            &&& d.session_name == c.session_name
            &&& d.agent == c.agent
            &&& d.model == c.model
        }),
        text::trimmed(c.input_text) == text,
{
    text::law_trimmed_is_the_middle(before, text, after);
    reveal_strlit("");
}

/// White space alone is not sent, and stays in the input.
pub proof fn law_white_space_is_not_sent(c: ChatView)
    requires
        forall|i: int|
            0 <= i < c.input_text.len() ==> text::white_space(#[trigger] c.input_text[i]),
    ensures
        after_send(c) == c,
        text::trimmed(c.input_text).len() == 0,
{
    let none = Seq::<char>::empty();
    text::law_trimmed_is_the_middle(c.input_text, none, none);
    assert(c.input_text + none + none == c.input_text);
}

/// Messages are addressed to the session that is there, and to none where none is.
pub proof fn law_address(c: ChatView, id: Seq<char>)
    ensures
        c.session_id == Some(id) ==> session_id_or_empty(c) == id,
        c.session_id is None ==> session_id_or_empty(c).len() == 0,
{
    reveal_strlit("");
}

/// Whether `d` is `c` but for the input.
pub open spec fn changes_only_the_input(c: ChatView, d: ChatView) -> bool {
    d == ChatView { input_text: d.input_text, ..c }
}

/// Every key but backspace, and but enter without a modifier, puts the text that it types behind
/// the input, whatever modifier is held, and counts as an edit.
pub proof fn law_typed_text_is_put_in(
    c: ChatView,
    key: Seq<char>,
    modified: bool,
    typed: Seq<char>,
)
    requires
        key != "backspace"@,
        key != "enter"@ || modified,
        typed.len() > 0,
        forall|i: int| 0 <= i < typed.len() ==> !text::control(#[trigger] typed[i]),
    ensures
        after_key(c, key, modified, Some(typed)).input_text == c.input_text + typed,
        changes_only_the_input(c, after_key(c, key, modified, Some(typed))),
        edits(key, modified, Some(typed)),
        !sends(key, modified),
{
}

/// Backspace takes the last character off the input, whatever modifier is held and whatever it
/// types, and counts as an edit; an empty input stays as it is.
pub proof fn law_backspace(
    c: ChatView,
    modified: bool,
    typed: Option<Seq<char>>,
    front: Seq<char>,
    last: char,
)
    ensures
        c.input_text == front.push(last) ==> after_key(
            c,
            "backspace"@,
            modified,
            typed,
        ).input_text == front,
        c.input_text.len() == 0 ==> after_key(c, "backspace"@, modified, typed) == c,
        changes_only_the_input(c, after_key(c, "backspace"@, modified, typed)),
        edits("backspace"@, modified, typed),
        !sends("backspace"@, modified),
{
    reveal_strlit("enter");
    reveal_strlit("backspace");
    assert("enter"@.len() != "backspace"@.len());
    assert(front.push(last).drop_last() == front);
}

/// Enter without a modifier sends, whatever it types, and is no edit.
pub proof fn law_enter_sends(c: ChatView, typed: Option<Seq<char>>)
    ensures
        after_key(c, "enter"@, false, typed) == after_send(c),
        sends("enter"@, false),
        !edits("enter"@, false, typed),
{
}

/// A key that types nothing, or something with a control character in it, does nothing.
pub proof fn law_other_keys_do_nothing(
    c: ChatView,
    key: Seq<char>,
    modified: bool,
    typed: Option<Seq<char>>,
)
    requires
        key != "backspace"@,
        key != "enter"@ || modified,
        match typed {
            Some(s) => s.len() == 0 || exists|i: int|
                0 <= i < s.len() && text::control(#[trigger] s[i]),
            None => true,
        },
    ensures
        after_key(c, key, modified, typed) == c,
        !edits(key, modified, typed),
        !sends(key, modified),
{
}

/// The text that a key types is seen as it is.
pub proof fn law_typed_view(s: &str)
    ensures
        typed_view(Some(s)) == Some(s@),
        typed_view(None) is None,
{
}

/// The state's dot is green while the session runs, cyan while it waits, yellow before it is
/// there, and red in every other state.
pub proof fn law_state_colors(state: Seq<char>)
    ensures
        state_color_of(state) == ThemeColor::Green <==> state == "running"@,
        state_color_of(state) == ThemeColor::Cyan <==> state == "idle"@ || state == "connected"@,
        state_color_of(state) == ThemeColor::Yellow <==> state == "connecting"@,
        state_color_of(state) == ThemeColor::Red <==> state != "running"@ && state != "idle"@
            && state != "connected"@ && state != "connecting"@,
{
    reveal_strlit("running");
    reveal_strlit("idle");
    reveal_strlit("connected");
    reveal_strlit("connecting");
    assert("running"@.len() == 7 && "idle"@.len() == 4);
    assert("connected"@.len() == 9 && "connecting"@.len() == 10);
}

/// What was said is shown whole under the name of who said it, the agent's as Markdown, and notes
/// are shown whole.
pub proof fn law_what_was_said_is_shown(text: Seq<char>, done: bool, agent: Seq<char>)
    ensures
        row_of(EntryView::User { text }, agent) == (RowView::Said {
            by: "you"@,
            by_color: ThemeColor::TextMuted,
            text,
            markdown: false,
        }),
        row_of(EntryView::Assistant { text, done }, agent) == (RowView::Said {
            by: agent,
            by_color: ThemeColor::Cyan,
            text,
            markdown: true,
        }),
        row_of(EntryView::System { text }, agent) == (RowView::Note { text }),
{
}

/// A tool call is shown with its name and input: with a hollow, dim dot until its result is there,
/// then with a full one, red if and only if the tool failed, and else green.
pub proof fn law_tool_call_is_shown(e: EntryView, agent: Seq<char>)
    requires
        e is ToolCall,
    ensures
        ({
            let r = row_of(e, agent);
            &&& r is Tool
            &&& r->name == e->name
            &&& r->input_summary == e->input_summary
            &&& r->dot == "○"@ <==> e->result is None
            &&& r->dot == "●"@ <==> e->result is Some
            &&& r->color == ThemeColor::TextDisabled <==> e->result is None
            &&& r->color == ThemeColor::Red <==> e->result is Some && e->is_error
            &&& r->color == ThemeColor::Green <==> e->result is Some && !e->is_error
        }),
{
    reveal_strlit("○");
    reveal_strlit("●");
    assert("○"@[0] != "●"@[0]);
}

/// An entry is seen as what it holds.
pub proof fn law_entry_view(text: String, other: String, result: Option<String>, flag: bool)
    ensures
        (ChatEntry::User { text })@ == (EntryView::User { text: text@ }),
        (ChatEntry::Assistant { text, done: flag })@ == (EntryView::Assistant {
            text: text@,
            done: flag,
        }),
        (ChatEntry::System { text })@ == (EntryView::System { text: text@ }),
        ({
            let e = (ChatEntry::ToolCall {
                name: text,
                input_summary: other,
                result,
                is_error: flag,
            })@;
            &&& e is ToolCall
            &&& e->name == text@
            &&& e->input_summary == other@
            &&& e->is_error == flag
            &&& match result {
                Some(r) => e->result == Some(r@),
                None => e->result is None,
            }
        }),
{
}

/// What the window is told to do is seen as it is told.
pub proof fn law_refresh_view(s: String)
    ensures
        Refresh::Unchanged@ == RefreshView::Unchanged,
        Refresh::Redraw@ == RefreshView::Redraw,
        Refresh::Append(s)@ == RefreshView::Append(s@),
        Refresh::Rebuild@ == RefreshView::Rebuild,
{
}

/// A row is seen as what it shows.
pub proof fn law_row_view(
    a: String,
    b: String,
    color: ThemeColor,
    dot: &'static str,
    markdown: bool,
)
    ensures
        (Row::Said { by: a, by_color: color, text: b, markdown })@ == (RowView::Said {
            by: a@,
            by_color: color,
            text: b@,
            markdown,
        }),
        (Row::Tool { color, dot, name: a, input_summary: b })@ == (RowView::Tool {
            color,
            dot: dot@,
            name: a@,
            input_summary: b@,
        }),
        (Row::Note { text: a })@ == (RowView::Note { text: a@ }),
{
}

/// The panel is seen as what its fields hold.
pub proof fn law_chat_view(c: HaakChat, i: int)
    ensures
        c@.entries.len() == c.entries@.len(),
        0 <= i < c.entries@.len() ==> c@.entries[i] == c.entries@[i]@,
        c@.list_len == c.list_len,
        c@.input_text == c.input_text@,
        c@.agent == c.agent@,
        c@.model == c.model@,
        c@.state == c.state@,
        match c.session_id {
            Some(id) => c@.session_id == Some(id@),
            None => c@.session_id is None,
        },
        match c.session_name {
            Some(name) => c@.session_name == Some(name@),
            None => c@.session_name is None,
        },
{
}

} // verus!
