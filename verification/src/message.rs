//! The JSON messages that the session server and its clients exchange.
//!
//! A message is read as the fields of one JSON object. The protocol looks only at strings and
//! booleans, so that is what a field keeps of its value.
use vstd::prelude::*;
use vstd::string::*;

use crate::text::same_text;

verus! {

/// The value of a message field.
pub enum Field {
    /// A string.
    Text(String),
    /// A boolean.
    Flag(bool),
    /// `null`, a number, an array or an object.
    Other,
}

/// The value of a message field, in contracts.
pub enum FieldView {
    Text(Seq<char>),
    Flag(bool),
    Other,
}

impl View for Field {
    type V = FieldView;

    open spec fn view(&self) -> FieldView {
        match self {
            Field::Text(s) => FieldView::Text(s@),
            Field::Flag(b) => FieldView::Flag(*b),
            Field::Other => FieldView::Other,
        }
    }
}

/// The fields of a message, by name.
pub type Fields = Map<Seq<char>, FieldView>;

/// The fields in a list of names and values; the first of two with one name counts.
pub open spec fn fields_of(list: Seq<(String, Field)>) -> Fields
    decreases list.len(),
{
    if list.len() == 0 {
        Map::empty()
    } else {
        fields_of(list.skip(1)).insert(list[0].0@, list[0].1@)
    }
}

/// The string in field `key`; `None` where the field is missing or no string.
pub open spec fn text_in(m: Fields, key: Seq<char>) -> Option<Seq<char>> {
    if m.contains_key(key) {
        match m[key] {
            FieldView::Text(s) => Some(s),
            _ => None,
        }
    } else {
        None
    }
}

/// The string in field `key`, or `default`.
pub open spec fn text_or(m: Fields, key: Seq<char>, default: Seq<char>) -> Seq<char> {
    match text_in(m, key) {
        Some(s) => s,
        None => default,
    }
}

/// Whether field `key` is the boolean `true`.
pub open spec fn flag_in(m: Fields, key: Seq<char>) -> bool {
    m.contains_key(key) && m[key] == FieldView::Flag(true)
}

/// What kind of message `m` is: its `type`, empty where it has none.
pub open spec fn kind_of(m: Fields) -> Seq<char> {
    text_or(m, "type"@, ""@)
}

/// The fields of the JSON document that `raw` holds, or `None` where `raw` holds none. A document
/// that is no object has no fields.
pub uninterp spec fn json_fields(raw: Seq<char>) -> Option<Fields>;

/// The JSON object that has these strings as its fields, written as text.
pub uninterp spec fn json_text(fields: Seq<(Seq<char>, Seq<char>)>) -> Seq<char>;

/// The fields of an object that is given these strings one after the other.
pub open spec fn text_fields(fields: Seq<(Seq<char>, Seq<char>)>) -> Fields
    decreases fields.len(),
{
    if fields.len() == 0 {
        Map::empty()
    } else {
        text_fields(fields.drop_last()).insert(
            fields.last().0,
            FieldView::Text(fields.last().1),
        )
    }
}

/// Whether no field name starts with `$`, the mark of `serde_json`'s private names.
pub open spec fn plain_names(fields: Seq<(Seq<char>, Seq<char>)>) -> bool {
    forall|i: int|
        0 <= i < fields.len() ==> (#[trigger] fields[i]).0.len() == 0 || fields[i].0[0] != '$'
}

/// The views of a list of names and strings.
pub open spec fn pairs_view(fields: Seq<(&str, &str)>) -> Seq<(Seq<char>, Seq<char>)> {
    fields.map_values(|p: (&str, &str)| (p.0@, p.1@))
}

/// `serde_json::from_str` into a `serde_json::Value`.
///
/// Trusted: the call depends on the text alone. The fields handed out are those of the document's
/// object, each string and boolean with its value; `None` stands for the parse error.
#[verifier::external_body]
fn parse_fields(raw: &str) -> (r: Option<Vec<(String, Field)>>)
    ensures
        match r {
            Some(list) => json_fields(raw@) == Some(fields_of(list@)),
            None => json_fields(raw@) is None,
        },
{
    let document: serde_json::Value = serde_json::from_str(raw).ok()?;
    let object = document.as_object().into_iter().flatten();
    let fields = object.map(|(name, value)| {
        let field = match value {
            serde_json::Value::String(s) => Field::Text(s.clone()),
            serde_json::Value::Bool(b) => Field::Flag(*b),
            serde_json::Value::Null | serde_json::Value::Number(_) => Field::Other,
            serde_json::Value::Array(_) | serde_json::Value::Object(_) => Field::Other,
        };
        (name.clone(), field)
    });
    Some(fields.collect())
}

/// `serde_json::Value`'s `FromIterator` over names and strings, and its `to_string`.
///
/// Trusted: the text depends on the names and strings alone, and where no name is one of
/// `serde_json`'s private ones, it parses back to an object with exactly those fields.
#[verifier::external_body]
fn object_text(fields: &Vec<(&str, &str)>) -> (r: String)
    ensures
        r@ == json_text(pairs_view(fields@)),
        plain_names(pairs_view(fields@)) ==> json_fields(r@) == Some(
            text_fields(pairs_view(fields@)),
        ),
{
    fields.iter().copied().collect::<serde_json::Value>().to_string()
}

/// A message, as the fields of its JSON object.
pub struct Message {
    pub fields: Vec<(String, Field)>,
}

impl View for Message {
    type V = Fields;

    open spec fn view(&self) -> Fields {
        fields_of(self.fields@)
    }
}

/// The message that a parse gave, in contracts.
pub open spec fn message_view(m: Option<Message>) -> Option<Fields> {
    match m {
        Some(msg) => Some(msg@),
        None => None,
    }
}

proof fn lemma_fields_skip(list: Seq<(String, Field)>, i: int)
    requires
        0 <= i < list.len(),
    ensures
        fields_of(list.skip(i)) == fields_of(list.skip(i + 1)).insert(list[i].0@, list[i].1@),
{
    assert(list.skip(i).skip(1) == list.skip(i + 1));
}

impl Message {
    /// Reads a message; `None` where the text is no JSON.
    pub fn decode(raw: &str) -> (r: Option<Message>)
        ensures
            message_view(r) == json_fields(raw@),
    {
        match parse_fields(raw) {
            Some(fields) => Some(Message { fields }),
            None => None,
        }
    }

    /// Finds a field.
    pub fn get(&self, key: &str) -> (r: Option<&Field>)
        ensures
            match r {
                Some(f) => self@.contains_key(key@) && self@[key@] == f@,
                None => !self@.contains_key(key@),
            },
    {
        let mut i: usize = 0;
        proof {
            assert(self.fields@.skip(0) == self.fields@);
        }
        while i < self.fields.len()
            invariant
                i <= self.fields@.len(),
                self@.contains_key(key@) == fields_of(self.fields@.skip(i as int)).contains_key(
                    key@,
                ),
                self@.contains_key(key@) ==> self@[key@] == fields_of(
                    self.fields@.skip(i as int),
                )[key@],
            decreases self.fields@.len() - i,
        {
            proof {
                lemma_fields_skip(self.fields@, i as int);
            }
            if same_text(self.fields[i].0.as_str(), key) {
                return Some(&self.fields[i].1);
            }
            i = i + 1;
        }
        None
    }

    /// The string in a field.
    pub fn text(&self, key: &str) -> (r: Option<&str>)
        ensures
            match r {
                Some(s) => text_in(self@, key@) == Some(s@),
                None => text_in(self@, key@) is None,
            },
    {
        match self.get(key) {
            Some(Field::Text(s)) => Some(s.as_str()),
            _ => None,
        }
    }

    /// The string in a field, or a default.
    pub fn text_or(&self, key: &str, default: &str) -> (r: String)
        ensures
            r@ == text_or(self@, key@, default@),
    {
        match self.text(key) {
            Some(s) => s.to_owned(),
            None => default.to_owned(),
        }
    }

    /// Whether a field is the boolean `true`.
    pub fn flag(&self, key: &str) -> (r: bool)
        ensures
            r == flag_in(self@, key@),
    {
        match self.get(key) {
            Some(Field::Flag(b)) => *b,
            _ => false,
        }
    }

    /// What kind of message this is.
    pub fn kind(&self) -> (r: String)
        ensures
            r@ == kind_of(self@),
    {
        self.text_or("type", "")
    }
}

/// The fields of the request that opens a session.
pub open spec fn create_fields() -> Seq<(Seq<char>, Seq<char>)> {
    seq![("type"@, "session.create"@), ("agent"@, "bala"@), ("model"@, ""@)]
}

/// The fields of a message from the user.
pub open spec fn user_fields(session: Seq<char>, text: Seq<char>) -> Seq<(Seq<char>, Seq<char>)> {
    seq![("type"@, "user.message"@), ("sessionId"@, session), ("text"@, text)]
}

/// The fields of the event that reports a failure.
pub open spec fn error_fields(message: Seq<char>) -> Seq<(Seq<char>, Seq<char>)> {
    seq![("type"@, "error"@), ("message"@, message)]
}

/// Whether `m` is a request for a session with the agent `bala` and the server's own model.
pub open spec fn is_create(m: Fields) -> bool {
    &&& kind_of(m) == "session.create"@
    &&& text_in(m, "agent"@) == Some("bala"@)
    &&& text_in(m, "model"@) == Some(""@)
}

/// Whether `m` brings `text` from the user to `session`.
pub open spec fn is_user_message(m: Fields, session: Seq<char>, text: Seq<char>) -> bool {
    &&& kind_of(m) == "user.message"@
    &&& text_in(m, "sessionId"@) == Some(session)
    &&& text_in(m, "text"@) == Some(text)
}

/// Whether `m` reports the failure `message`.
pub open spec fn is_error(m: Fields, message: Seq<char>) -> bool {
    &&& kind_of(m) == "error"@
    &&& text_in(m, "message"@) == Some(message)
}

proof fn lemma_create_fields()
    ensures
        plain_names(create_fields()),
        is_create(text_fields(create_fields())),
{
    reveal_strlit("type");
    reveal_strlit("agent");
    reveal_strlit("model");
    reveal_with_fuel(text_fields, 4);
    let f = create_fields();
    assert(f.drop_last() == seq![f[0], f[1]]);
    assert(f.drop_last().drop_last() == seq![f[0]]);
    assert("type"@[0] != "agent"@[0]);
    assert("type"@[0] != "model"@[0]);
    assert("agent"@[0] != "model"@[0]);
}

proof fn lemma_user_fields(session: Seq<char>, text: Seq<char>)
    ensures
        plain_names(user_fields(session, text)),
        is_user_message(text_fields(user_fields(session, text)), session, text),
{
    reveal_strlit("type");
    reveal_strlit("sessionId");
    reveal_strlit("text");
    reveal_with_fuel(text_fields, 4);
    let f = user_fields(session, text);
    assert(f.drop_last() == seq![f[0], f[1]]);
    assert(f.drop_last().drop_last() == seq![f[0]]);
    assert("type"@[1] != "text"@[1]);
    assert("type"@[0] != "sessionId"@[0]);
    assert("text"@[0] != "sessionId"@[0]);
}

proof fn lemma_error_fields(message: Seq<char>)
    ensures
        plain_names(error_fields(message)),
        is_error(text_fields(error_fields(message)), message),
{
    reveal_strlit("type");
    reveal_strlit("message");
    reveal_with_fuel(text_fields, 3);
    let f = error_fields(message);
    assert(f.drop_last() == seq![f[0]]);
    assert("type"@[0] != "message"@[0]);
}

/// The request that opens a session.
pub fn session_create() -> (r: String)
    ensures
        r@ == json_text(create_fields()),
        json_fields(r@) == Some(text_fields(create_fields())),
        is_create(text_fields(create_fields())),
{
    let mut fields: Vec<(&str, &str)> = Vec::new();
    fields.push(("type", "session.create"));
    fields.push(("agent", "bala"));
    fields.push(("model", ""));
    proof {
        assert(pairs_view(fields@) == create_fields());
        lemma_create_fields();
    }
    object_text(&fields)
}

/// A message from the user to a session.
pub fn user_message(session: &str, text: &str) -> (r: String)
    ensures
        r@ == json_text(user_fields(session@, text@)),
        json_fields(r@) == Some(text_fields(user_fields(session@, text@))),
        is_user_message(text_fields(user_fields(session@, text@)), session@, text@),
{
    let mut fields: Vec<(&str, &str)> = Vec::new();
    fields.push(("type", "user.message"));
    fields.push(("sessionId", session));
    fields.push(("text", text));
    proof {
        assert(pairs_view(fields@) == user_fields(session@, text@));
        lemma_user_fields(session@, text@);
    }
    object_text(&fields)
}

/// The event that reports a failure to the reader of the event stream.
pub fn error_event(message: &str) -> (r: String)
    ensures
        r@ == json_text(error_fields(message@)),
        json_fields(r@) == Some(text_fields(error_fields(message@))),
        is_error(text_fields(error_fields(message@)), message@),
{
    let mut fields: Vec<(&str, &str)> = Vec::new();
    fields.push(("type", "error"));
    fields.push(("message", message));
    proof {
        assert(pairs_view(fields@) == error_fields(message@));
        lemma_error_fields(message@);
    }
    object_text(&fields)
}

/// Whether field `key` of `m` is the string `s`.
pub open spec fn holds_text(m: Fields, key: Seq<char>, s: Seq<char>) -> bool {
    m.contains_key(key) && m[key] == FieldView::Text(s)
}

/// Whether `m` has no string in field `key`: no such field, or one that is no string.
pub open spec fn lacks_text(m: Fields, key: Seq<char>) -> bool {
    m.contains_key(key) ==> !(m[key] is Text)
}

/// Whether field `key` of `m` gives the string `s` to one who makes do with `default`.
pub open spec fn gives_text(m: Fields, key: Seq<char>, default: Seq<char>, s: Seq<char>) -> bool {
    holds_text(m, key, s) || (lacks_text(m, key) && s == default)
}

/// Whether field `key` of `m` is there and true.
pub open spec fn holds_true(m: Fields, key: Seq<char>) -> bool {
    m.contains_key(key) && m[key] == FieldView::Flag(true)
}

/// The string in a field is read as it stands; only where there is none is something put in its
/// place.
pub proof fn law_text_is_read_as_it_stands(
    m: Fields,
    key: Seq<char>,
    default: Seq<char>,
    s: Seq<char>,
)
    ensures
        holds_text(m, key, s) <==> text_in(m, key) == Some(s),
        lacks_text(m, key) <==> text_in(m, key) is None,
        gives_text(m, key, default, s) <==> text_or(m, key, default) == s,
        flag_in(m, key) <==> holds_true(m, key),
{
}

/// The kind of a message is the string in its field `type`.
pub proof fn law_kind_is_the_type(m: Fields, kind: Seq<char>)
    ensures
        holds_text(m, "type"@, kind) ==> kind_of(m) == kind,
        lacks_text(m, "type"@) ==> kind_of(m).len() == 0,
{
    reveal_strlit("");
}

/// A field is seen as what it carries.
pub proof fn law_field_view(s: String, b: bool)
    ensures
        Field::Text(s)@ == FieldView::Text(s@),
        Field::Flag(b)@ == FieldView::Flag(b),
        Field::Other@ == FieldView::Other,
{
}

/// A message has the fields that are listed, each with its first value, and no others.
pub proof fn law_first_field_counts(list: Seq<(String, Field)>, i: int)
    ensures
        0 <= i < list.len() && (forall|j: int| 0 <= j < i ==> (#[trigger] list[j]).0@ != list[i].0@)
            ==> fields_of(list).contains_key(list[i].0@) && fields_of(list)[list[i].0@]
            == list[i].1@,
        forall|key: Seq<char>| #[trigger]
            fields_of(list).contains_key(key) ==> exists|j: int|
                0 <= j < list.len() && (#[trigger] list[j]).0@ == key,
    decreases list.len(),
{
    if list.len() > 0 {
        let rest = list.skip(1);
        law_first_field_counts(rest, i - 1);
        if 0 < i < list.len() && (forall|j: int|
            0 <= j < i ==> (#[trigger] list[j]).0@ != list[i].0@) {
            assert(rest[i - 1] == list[i]);
            assert(list[0].0@ != list[i].0@);
            assert forall|j: int| 0 <= j < i - 1 implies (#[trigger] rest[j]).0@ != rest[i - 1].0@ by {
                assert(list[j + 1].0@ != list[i].0@);
            }
        }
        assert forall|key: Seq<char>| #[trigger] fields_of(list).contains_key(key) implies exists|
            j: int,
        |
            0 <= j < list.len() && (#[trigger] list[j]).0@ == key by {
            if key == list[0].0@ {
                assert(list[0].0@ == key);
            } else {
                assert(fields_of(rest).contains_key(key));
                let j = choose|j: int| 0 <= j < rest.len() && (#[trigger] rest[j]).0@ == key;
                assert(list[j + 1].0@ == key);
            }
        }
    }
}

/// The request for a session asks for the agent `bala` and leaves the model to the server.
pub proof fn law_session_request()
    ensures
        create_fields() == seq![
            ("type"@, "session.create"@),
            ("agent"@, "bala"@),
            ("model"@, Seq::<char>::empty()),
        ],
        ({
            let m = text_fields(create_fields());
            &&& holds_text(m, "type"@, "session.create"@)
            &&& holds_text(m, "agent"@, "bala"@)
            &&& holds_text(m, "model"@, Seq::empty())
        }),
{
    reveal_strlit("");
    assert(""@ == Seq::<char>::empty());
    lemma_create_fields();
    lemma_kind_is_type();
}

/// A message from the user carries the session and the text as they are.
pub proof fn law_user_message_carries_the_text(session: Seq<char>, text: Seq<char>)
    ensures
        user_fields(session, text) == seq![
            ("type"@, "user.message"@),
            ("sessionId"@, session),
            ("text"@, text),
        ],
        ({
            let m = text_fields(user_fields(session, text));
            &&& holds_text(m, "type"@, "user.message"@)
            &&& holds_text(m, "sessionId"@, session)
            &&& holds_text(m, "text"@, text)
        }),
        forall|m: Fields| #[trigger]
            is_user_message(m, session, text) ==> holds_text(m, "type"@, "user.message"@)
                && holds_text(m, "sessionId"@, session) && holds_text(m, "text"@, text),
{
    lemma_user_fields(session, text);
    lemma_kind_is_type();
}

/// The report of a failure carries the reason as it is.
pub proof fn law_report_carries_the_reason(reason: Seq<char>)
    ensures
        error_fields(reason) == seq![("type"@, "error"@), ("message"@, reason)],
        ({
            let m = text_fields(error_fields(reason));
            &&& holds_text(m, "type"@, "error"@)
            &&& holds_text(m, "message"@, reason)
        }),
        forall|m: Fields| #[trigger]
            is_error(m, reason) ==> holds_text(m, "type"@, "error"@) && holds_text(
                m,
                "message"@,
                reason,
            ),
{
    lemma_error_fields(reason);
    lemma_kind_is_type();
}

proof fn lemma_kind_is_type()
    ensures
        forall|m: Fields| #[trigger]
            kind_of(m) == "user.message"@ ==> holds_text(m, "type"@, "user.message"@),
        forall|m: Fields| #[trigger] kind_of(m) == "error"@ ==> holds_text(m, "type"@, "error"@),
        forall|m: Fields| #[trigger]
            kind_of(m) == "session.create"@ ==> holds_text(m, "type"@, "session.create"@),
{
    reveal_strlit("");
    reveal_strlit("user.message");
    reveal_strlit("error");
    reveal_strlit("session.create");
    assert(""@.len() != "user.message"@.len());
    assert(""@.len() != "error"@.len());
    assert(""@.len() != "session.create"@.len());
}

/// What an object is given under a name last is what it has there; what it is not given it has not.
pub proof fn law_last_text_counts(
    fields: Seq<(Seq<char>, Seq<char>)>,
    name: Seq<char>,
    s: Seq<char>,
    other: Seq<char>,
)
    ensures
        holds_text(text_fields(fields.push((name, s))), name, s),
        other != name ==> text_fields(fields.push((name, s))).contains_key(other) == text_fields(
            fields,
        ).contains_key(other),
        other != name && text_fields(fields).contains_key(other) ==> text_fields(
            fields.push((name, s)),
        )[other] == text_fields(fields)[other],
        !text_fields(Seq::empty()).contains_key(other),
{
    assert(fields.push((name, s)).drop_last() == fields);
}

} // verus!
