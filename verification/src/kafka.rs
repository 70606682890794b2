//! The settings of the Kafka clients and the reading of consumed payloads.
use vstd::prelude::*;
use vstd::string::*;

verus! {

/// A message of the web socket topic.
#[derive(Debug, Clone)]
pub struct MyMessage {
    pub key: String,
    pub value: String,
}

/// The topic of the Hacker News stories.
pub const HN_TOPIC: &'static str = "hnstories";

/// The key of the Hacker News story messages.
pub const HN_KEY: &'static str = "Rust";

/// Seconds between two fetches of Hacker News stories.
pub const HN_FETCH_INTERVAL_SECS: u64 = 60;

/// The topic of the price information.
pub const PRICE_TOPIC: &'static str = "token";

/// The key of the price messages.
pub const PRICE_KEY: &'static str = "Bitcoin";

/// Seconds between two fetches of the price information: a day in thirty
/// parts.
pub const PRICE_FETCH_INTERVAL_SECS: u64 = 2880;

/// The view of a list of settings.
pub open spec fn settings_view(s: Seq<(String, String)>) -> Seq<(Seq<char>, Seq<char>)> {
    s.map_values(|p: (String, String)| (p.0@, p.1@))
}

/// The settings of the stream consumer, for the brokers `bootstrap`.
pub open spec fn spec_consumer_settings(bootstrap: Seq<char>) -> Seq<(Seq<char>, Seq<char>)> {
    seq![
        ("bootstrap.servers"@, bootstrap),
        ("group.id"@, "unique_consumer_group_id"@),
        ("enable.partition.eof"@, "false"@),
        ("enable.auto.commit"@, "true"@),
        ("socket.timeout.ms"@, "4000"@),
        ("auto.offset.reset"@, "earliest"@),
        ("fetch.min.bytes"@, "1"@),
        ("session.timeout.ms"@, "60000"@),
        ("heartbeat.interval.ms"@, "20000"@),
        ("max.poll.interval.ms"@, "600000"@),
        ("reconnect.backoff.max.ms"@, "30000"@),
        ("reconnect.backoff.ms"@, "2000"@),
    ]
}

fn setting(key: &str, value: &str) -> (res: (String, String))
    ensures
        res.0@ == key@,
        res.1@ == value@,
{
    (String::from_str(key), String::from_str(value))
}

/// The client settings that the stream consumer is created with: a fixed
/// consumer group, automatic commits, reading from the earliest offset, and
/// the timeouts and back-offs of the service.
pub fn consumer_settings(bootstrap: &str) -> (res: Vec<(String, String)>)
    ensures
        settings_view(res@) == spec_consumer_settings(bootstrap@),
{
    let mut v: Vec<(String, String)> = Vec::new();
    v.push(setting("bootstrap.servers", bootstrap));
    v.push(setting("group.id", "unique_consumer_group_id"));
    v.push(setting("enable.partition.eof", "false"));
    v.push(setting("enable.auto.commit", "true"));
    v.push(setting("socket.timeout.ms", "4000"));
    v.push(setting("auto.offset.reset", "earliest"));
    v.push(setting("fetch.min.bytes", "1"));
    v.push(setting("session.timeout.ms", "60000"));
    v.push(setting("heartbeat.interval.ms", "20000"));
    v.push(setting("max.poll.interval.ms", "600000"));
    v.push(setting("reconnect.backoff.max.ms", "30000"));
    v.push(setting("reconnect.backoff.ms", "2000"));
    assert(settings_view(v@) =~= spec_consumer_settings(bootstrap@));
    v
}

/// The client settings that the producer is created with.
pub fn producer_settings(host: &str) -> (res: Vec<(String, String)>)
    ensures
        settings_view(res@) == seq![("bootstrap.servers"@, host@)],
{
    let mut v: Vec<(String, String)> = Vec::new();
    v.push(setting("bootstrap.servers", host));
    assert(settings_view(v@) =~= seq![("bootstrap.servers"@, host@)]);
    v
}

/// The text of a consumed payload: `None` when the message has no payload,
/// `Some(None)` when it is not UTF-8. Both read as the empty text, and an
/// empty text is not stored.
pub fn payload_text(payload: Option<Option<String>>) -> (res: String)
    ensures
        match payload {
            Some(Some(s)) => res@ == s@,
            _ => res@.len() == 0,
        },
{
    match payload {
        Some(Some(s)) => s,
        _ => String::new(),
    }
}

/// A consumed payload is parsed and stored only when it is not empty.
pub fn payload_is_storable(text: &String) -> (res: bool)
    ensures
        res == (text@.len() > 0),
{
    text.as_str().unicode_len() > 0
}

/// What the story consumer learns from one receive.
pub enum ConsumeEvent {
    /// The receive failed.
    RecvFailed,
    /// A message came in, with its payload as `payload_text` takes it.
    Received(Option<Option<String>>),
}

/// What the story consumer does with one receive.
pub struct ConsumeAction {
    /// The text to parse as a story and insert, when there is one. A parse
    /// or insert failure is only logged.
    pub store: Option<String>,
    /// Whether to commit the message's offset, after the store whatever it
    /// gave.
    pub commit: bool,
}

/// The consumer's decision on one receive: a failed receive is skipped (no
/// store, no commit); a received message is always committed, and its
/// payload is stored when it is a non-empty text.
pub fn consume_step(event: ConsumeEvent) -> (res: ConsumeAction)
    ensures
        match event {
            ConsumeEvent::RecvFailed => res.store is None && !res.commit,
            ConsumeEvent::Received(p) => res.commit && match p {
                Some(Some(s)) => if s@.len() > 0 {
                    res.store matches Some(t) && t@ == s@
                } else {
                    res.store is None
                },
                _ => res.store is None,
            },
        },
{
    match event {
        ConsumeEvent::RecvFailed => ConsumeAction { store: None, commit: false },
        ConsumeEvent::Received(p) => {
            let text = payload_text(p);
            if payload_is_storable(&text) {
                ConsumeAction { store: Some(text), commit: true }
            } else {
                ConsumeAction { store: None, commit: true }
            }
        },
    }
}

} // verus!
