//! The chat relay: the request that is sent to a provider of language
//! models, and the events that its answer streams back.

use crate::database::{Message, MessageView, ModelWithProvider};
use crate::json::{items_value, members_value, push_member, Json, JsonValue};
use crate::text::{
    after_prefix, chars_of, join_two, find_char_from, position_of, str_equal, strip_prefix,
    trim_end_char, trim_range, trimmed, without_trailing,
};
use vstd::prelude::*;

verus! {

/// The address of the chat completions of a provider.
pub open spec fn completions_address(provider_url: Seq<char>) -> Seq<char> {
    without_trailing(provider_url, '/') + "/chat/completions"@
}

/// The address to which a chat is posted: the address of the provider,
/// without slashes at its end, and the path of the chat completions.
pub fn chat_url(provider_url: &str) -> (url: String)
    ensures
        url@ == completions_address(provider_url@),
{
    let base = trim_end_char(provider_url, '/');
    join_two(base.as_str(), "/chat/completions")
}

/// The value of the header that carries the key of the provider.
pub fn authorization(provider_key: &str) -> (value: String)
    ensures
        value@ == "Bearer "@ + provider_key@,
{
    join_two("Bearer ", provider_key)
}

/// The name of the event under which the pieces of an answer are handed on.
pub fn stream_event_name(conversation_id: &str) -> (name: String)
    ensures
        name@ == "chat-stream://"@ + conversation_id@,
{
    join_two("chat-stream://", conversation_id)
}

/// A message as it is sent to the provider: its role and its content.
pub open spec fn message_document(message: MessageView) -> JsonValue {
    JsonValue::Object(
        Seq::empty().push(("content"@, JsonValue::Text(message.content))).push(
            ("role"@, JsonValue::Text(message.role)),
        ),
    )
}

/// The messages as they are sent to the provider, in order.
pub open spec fn message_documents(messages: Seq<Message>) -> Seq<JsonValue> {
    Seq::new(messages.len(), |i: int| message_document(messages[i]@))
}

/// The body of a chat request: the key of the model, the messages, and the
/// wish for a streamed answer.
pub open spec fn request_document(model_key: Seq<char>, messages: Seq<Message>) -> JsonValue {
    JsonValue::Object(
        Seq::empty().push(("messages"@, JsonValue::Array(message_documents(messages)))).push(
            ("model"@, JsonValue::Text(model_key)),
        ).push(("stream"@, JsonValue::Bool(true))),
    )
}

/// Writes a message as it is sent to the provider.
fn message_json(message: &Message) -> (json: Json)
    ensures
        json@ == message_document(message@),
{
    let mut members: Vec<(String, Json)> = Vec::new();
    assert(members_value(members@) =~= Seq::empty());
    push_member(&mut members, "content", Json::Text(message.content.clone()));
    push_member(&mut members, "role", Json::Text(message.role.clone()));
    Json::object(members)
}

/// Writes the body of the chat request for `model` with the given messages.
pub fn chat_request(model: &ModelWithProvider, messages: &Vec<Message>) -> (body: Json)
    ensures
        body@ == request_document(model@.model_key, messages@),
{
    let mut items: Vec<Json> = Vec::new();
    let mut i: usize = 0;
    while i < messages.len()
        invariant
            i <= messages.len(),
            items@.len() == i,
            forall|k: int| 0 <= k < i ==> (#[trigger] items@[k])@ == message_document(messages@[k]@),
        decreases messages.len() - i,
    {
        items.push(message_json(&messages[i]));
        i += 1;
    }
    assert(items_value(items@) =~= message_documents(messages@));
    let mut members: Vec<(String, Json)> = Vec::new();
    assert(members_value(members@) =~= Seq::empty());
    push_member(&mut members, "messages", Json::array(items));
    push_member(&mut members, "model", Json::Text(model.model_key.clone()));
    push_member(&mut members, "stream", Json::Bool(true));
    Json::object(members)
}

/// What a line of a streamed answer tells.
#[derive(Debug, PartialEq, Eq)]
pub enum StreamEvent {
    /// A piece of the answer, as JSON text.
    Data(String),
    /// The answer is complete.
    Done,
}

/// The mathematical value of a [`StreamEvent`].
pub enum StreamEventView {
    Data(Seq<char>),
    Done,
}

impl View for StreamEvent {
    type V = StreamEventView;

    open spec fn view(&self) -> StreamEventView {
        match *self {
            StreamEvent::Data(payload) => StreamEventView::Data(payload@),
            StreamEvent::Done => StreamEventView::Done,
        }
    }
}

/// What a line tells that has no white space at its ends: the end of the
/// answer, the payload behind `data: `, or nothing.
pub open spec fn trimmed_event(t: Seq<char>) -> Option<StreamEventView> {
    if t.len() == 0 {
        None
    } else if t == "data: [DONE]"@ {
        Some(StreamEventView::Done)
    } else {
        match after_prefix(t, "data: "@) {
            Some(payload) => Some(StreamEventView::Data(payload)),
            None => None,
        }
    }
}

/// What one line tells, white space at its ends apart.
pub open spec fn line_event(line: Seq<char>) -> Option<StreamEventView> {
    trimmed_event(trimmed(line))
}

/// The events of a chunk of the stream: those of its lines in order, up to
/// and with the first that ends the answer.
pub open spec fn chunk_events(chunk: Seq<char>) -> Seq<StreamEventView>
    decreases chunk.len(),
{
    if chunk.len() == 0 {
        Seq::empty()
    } else {
        let end = position_of(chunk, '\n') as int;
        let rest = if end < chunk.len() {
            chunk.skip(end + 1)
        } else {
            Seq::empty()
        };
        match line_event(chunk.take(end)) {
            Some(StreamEventView::Done) => seq![StreamEventView::Done],
            Some(event) => seq![event] + chunk_events(rest),
            None => chunk_events(rest),
        }
    }
}

/// The values of a list of events.
pub open spec fn events_view(events: Seq<StreamEvent>) -> Seq<StreamEventView> {
    Seq::new(events.len(), |i: int| events[i]@)
}

/// Reads what one line tells. `line` is the line without white space at its
/// ends.
fn read_line(line: &str) -> (event: Option<StreamEvent>)
    ensures
        match event {
            Some(e) => trimmed_event(line@) == Some(e@),
            None => trimmed_event(line@) is None,
        },
{
    if line.is_empty() {
        None
    } else if str_equal(line, "data: [DONE]") {
        Some(StreamEvent::Done)
    } else {
        match strip_prefix(line, "data: ") {
            Some(payload) => Some(StreamEvent::Data(payload)),
            None => None,
        }
    }
}

/// Reads the events of a chunk of the stream.
pub fn stream_events(chunk: &str) -> (events: Vec<StreamEvent>)
    ensures
        events_view(events@) == chunk_events(chunk@),
{
    let chars = chars_of(chunk);
    let mut events: Vec<StreamEvent> = Vec::new();
    let mut start: usize = 0;
    assert(chars@.skip(0) =~= chars@);
    assert(events_view(events@) =~= Seq::<StreamEventView>::empty());
    while start < chars.len()
        invariant
            start <= chars.len(),
            chars@ == chunk@,
            chunk_events(chunk@) == events_view(events@) + chunk_events(chars@.skip(start as int)),
        decreases chars.len() - start,
    {
        let ghost here = chars@.skip(start as int);
        let ghost before = events_view(events@);
        let end = find_char_from(&chars, start, '\n');
        let line = trim_range(&chars, start, end);
        proof {
            assert(chars@.subrange(start as int, end as int) =~= here.take(end - start));
            if end < chars.len() {
                assert(here.skip(end - start + 1) =~= chars@.skip(end + 1));
            }
        }
        match read_line(line.as_str()) {
            Some(StreamEvent::Done) => {
                events.push(StreamEvent::Done);
                assert(events_view(events@) =~= before + seq![StreamEventView::Done]);
                return events;
            },
            Some(event) => {
                let ghost e = event@;
                events.push(event);
                assert(events_view(events@) =~= before + seq![e]);
                assert(before + (seq![e] + chunk_events(chars@.skip(end + 1))) =~= (before
                    + seq![e]) + chunk_events(chars@.skip(end + 1)));
            },
            None => {},
        }
        if end < chars.len() {
            start = end + 1;
        } else {
            start = end;
            assert(chars@.skip(start as int) =~= Seq::<char>::empty());
        }
    }
    assert(chars@.skip(start as int).len() == 0);
    assert(events_view(events@) + Seq::<StreamEventView>::empty() =~= events_view(events@));
    events
}

} // verus!
