//! The server side of a question's live channel, and the cache keys of
//! the texts that open answers are projected by.
use vstd::prelude::*;

verus! {

/// What happens on a question's live channel.
#[derive(Debug, PartialEq)]
pub enum WsEvent {
    /// The client sent a text message.
    ClientText(String),
    /// The client sent a ping.
    ClientPing(Vec<u8>),
    /// The client sent anything else, the stream failed, or it ended.
    ClientGone,
    /// A message was broadcast to the question's room.
    Relayed(String),
    /// The room's channel failed (closed, or this listener fell behind).
    RelayFailed,
    /// Sending to the client failed.
    SendFailed,
}

/// What the server does next on a live channel.
#[derive(Debug, PartialEq)]
pub enum WsAction {
    /// Broadcast the text to everyone in the room (the sender included).
    Broadcast(String),
    /// Answer a ping with the same payload; a failure is ignored.
    Pong(Vec<u8>),
    /// Send the text to this client.
    Send(String),
    /// Close this side of the channel.
    Stop,
}

/// The decision taken on each event of a live channel: client texts go
/// to the whole room, pings are answered, room messages go to the client,
/// and anything that goes wrong ends the channel.
pub fn ws_step(event: WsEvent) -> (action: WsAction)
    ensures
        match event {
            WsEvent::ClientText(t) => action == WsAction::Broadcast(t),
            WsEvent::ClientPing(d) => action == WsAction::Pong(d),
            WsEvent::Relayed(t) => action == WsAction::Send(t),
            WsEvent::ClientGone | WsEvent::RelayFailed | WsEvent::SendFailed => action
                == WsAction::Stop,
        },
{
    match event {
        WsEvent::ClientText(t) => WsAction::Broadcast(t),
        WsEvent::ClientPing(d) => WsAction::Pong(d),
        WsEvent::Relayed(t) => WsAction::Send(t),
        WsEvent::ClientGone => WsAction::Stop,
        WsEvent::RelayFailed => WsAction::Stop,
        WsEvent::SendFailed => WsAction::Stop,
    }
}

/// The key under which the embedding of an axis text is cached beside the
/// embeddings of a question's answers, which are keyed by author name.
pub fn axis_cache_key(text: &str) -> (key: String)
    ensures
        key@ == "__axis:"@ + text@ + "__"@,
{
    let mut key = String::from_str("__axis:");
    key.append(text);
    key.append("__");
    key
}

/// Different axis texts are cached under different keys.
pub proof fn law_axis_keys_distinct(a: Seq<char>, b: Seq<char>)
    requires
        "__axis:"@ + a + "__"@ == "__axis:"@ + b + "__"@,
    ensures
        a == b,
{
    let ka = "__axis:"@ + a + "__"@;
    let kb = "__axis:"@ + b + "__"@;
    let p = "__axis:"@.len();
    assert(ka.len() == kb.len());
    assert(a.len() == b.len());
    assert(a =~= ka.subrange(p as int, (p + a.len()) as int));
    assert(b =~= kb.subrange(p as int, (p + b.len()) as int));
}

} // verus!
