//! Messages between users over WebSockets.

use vstd::prelude::*;
use vstd::string::*;

use crate::text::contains_text;
use crate::text::occurs;
use crate::text::or_default;
use crate::text::or_text;
use crate::text::same;

verus! {

pub struct WsQuery {
    pub pubkey: String,
}

/// A message from one user to another.
pub struct RideMessage {
    pub to: String,
    pub from: String,
    pub msg_type: String,
    /// The payload, as JSON.
    pub payload: String,
    /// The name of the caller that the payload gives.
    pub caller_name: Option<String>,
}

/// A frame of text is a client's sign of life.
pub open spec fn is_ping(text: Seq<char>) -> bool {
    occurs(text, "\"ping\""@)
}

/// What is done with a frame of text.
pub enum Incoming {
    /// A sign of life: it is returned.
    Pong,
    /// A message: it is passed on, from the user whose connection it came over.
    PassOn { message: RideMessage },
    /// Neither: it is dropped.
    Drop,
}

/// What is done with a frame of text that came over a user's connection, given the
/// message that it holds, if it holds one. Whatever sender the message names, it is
/// passed on as coming from that user, and otherwise unchanged.
pub fn handle_socket(text: &str, message: Option<RideMessage>, pubkey: &str) -> (r: Incoming)
    ensures
        match r {
            Incoming::Pong => is_ping(text@),
            Incoming::PassOn { message: m } => {
                &&& !is_ping(text@)
                &&& message is Some
                &&& m.from@ == pubkey@
                &&& m.to == message->0.to
                &&& m.msg_type == message->0.msg_type
                &&& m.payload == message->0.payload
                &&& m.caller_name == message->0.caller_name
            },
            Incoming::Drop => !is_ping(text@) && message is None,
        },
{
    if contains_text(text, "\"ping\"") {
        return Incoming::Pong;
    }
    match message {
        Some(m) => {
            let mut m: RideMessage = m;
            m.from = pubkey.to_owned();
            Incoming::PassOn { message: m }
        },
        None => Incoming::Drop,
    }
}

/// What is done with a message.
pub struct Delivery {
    /// It goes to the recipient's connection.
    pub forward: bool,
    /// The recipient is not connected but called: this caller is told of by a push.
    pub push_caller: Option<String>,
    /// The sender is told that it was delivered.
    pub confirm: bool,
}

/// What is done with a message, given who is connected. Only calls reach a recipient
/// who is not.
pub fn deliver(message: &RideMessage, recipient_connected: bool, sender_connected: bool) -> (r:
    Delivery)
    ensures
        r.forward == recipient_connected,
        r.push_caller.deep_view() == (if !recipient_connected && message.msg_type@
            == "ulendo-call-offer"@ {
            Some(or_text(message.caller_name.deep_view(), "Someone"@))
        } else {
            None
        }),
        r.confirm == sender_connected,
{
    let push_caller: Option<String> = if !recipient_connected && same(
        message.msg_type.as_str(),
        "ulendo-call-offer",
    ) {
        Some(or_default(&message.caller_name, "Someone"))
    } else {
        None
    };
    Delivery { forward: recipient_connected, push_caller, confirm: sender_connected }
}

/// What a push tells of a call.
pub struct CallNotice {
    pub title: String,
    pub body: String,
    pub icon: String,
    pub badge: String,
    pub tag: String,
    pub require_interaction: bool,
    pub kind: String,
    pub from: String,
}

/// What a push tells of a call to a user.
pub fn send_call_push(to_pubkey: &str, caller_name: &str) -> (r: CallNotice)
    ensures
        r.title@ == "📞 Incoming Ulendo Call"@,
        r.body@ == caller_name@ + " is calling you"@,
        r.icon@ == "/logo-icon.svg"@,
        r.badge@ == "/logo-icon.svg"@,
        r.tag@ == "ulendo-call"@,
        r.require_interaction,
        r.kind@ == "incoming_call"@,
        r.from@ == to_pubkey@,
{
    CallNotice {
        title: "📞 Incoming Ulendo Call".to_owned(),
        body: caller_name.to_owned().concat(" is calling you"),
        icon: "/logo-icon.svg".to_owned(),
        badge: "/logo-icon.svg".to_owned(),
        tag: "ulendo-call".to_owned(),
        require_interaction: true,
        kind: "incoming_call".to_owned(),
        from: to_pubkey.to_owned(),
    }
}

} // verus!
