//! A logged event written out as one line of text.

use vstd::prelude::*;

use crate::game::logging::{entries_map, entry_keys, keys_sorted, ActorType, Channel, LogEvent};
use crate::logging::{event_type_label, event_type_name};
use crate::text::{decimal, push_char, push_decimal};

verus! {

/// What std's `Debug` writes for a text (`format!("{:?}", s)`): the text
/// in double quotes, with quotes, backslashes and special characters
/// escaped. Its result is a function of the text alone.
pub uninterp spec fn debug_quoted(s: Seq<char>) -> Seq<char>;

/// The text as std's `Debug` writes it; its result is named
/// [`debug_quoted`].
#[verifier::external_body]
fn debug_quote(s: &str) -> (r: String)
    ensures
        r@ == debug_quoted(s@),
{
    format!("{:?}", s)
}

/// The name of an actor type, as its variant is written.
pub open spec fn actor_name(a: ActorType) -> Seq<char> {
    match a {
        ActorType::Planet => "Planet"@,
        ActorType::Explorer => "Explorer"@,
        ActorType::Orchestrator => "Orchestrator"@,
        ActorType::User => "User"@,
        ActorType::Broadcast => "Broadcast"@,
        ActorType::SelfActor => "SelfActor"@,
    }
}

/// The name of a channel, as its variant is written.
pub open spec fn channel_name(c: Channel) -> Seq<char> {
    match c {
        Channel::Error => "Error"@,
        Channel::Warning => "Warning"@,
        Channel::Info => "Info"@,
        Channel::Debug => "Debug"@,
        Channel::Trace => "Trace"@,
    }
}

/// The decimal notation of `n`, with a minus sign when negative.
pub open spec fn signed_decimal(n: int) -> Seq<char> {
    if n < 0 {
        seq!['-'] + decimal((-n) as nat)
    } else {
        decimal(n as nat)
    }
}

/// The entries `"key": "value"`, in order, separated by `, `.
pub open spec fn entries_text(es: Seq<(String, String)>) -> Seq<char>
    decreases es.len(),
{
    if es.len() == 0 {
        Seq::empty()
    } else {
        let e = es.last();
        entries_text(es.drop_last()) + (if es.len() > 1 { ", "@ } else { Seq::empty() }) + debug_quoted(e.0@) + ": "@
            + debug_quoted(e.1@)
    }
}

/// The line an event is written as: its time, sender, receiver, event
/// type, channel, and its data in key order as std writes a sorted map.
pub open spec fn event_text(e: LogEvent) -> Seq<char> {
    "LogEvent { ts: "@ + signed_decimal(e.timestamp_unix as int) + ", sender: "@ + actor_name(e.sender_type) + "#"@
        + decimal(e.sender_id as nat) + ", receiver: "@ + actor_name(e.receiver_type) + "/"@ + e.receiver_id@
        + ", event: "@ + event_type_name(e.event_type) + ", channel: "@ + channel_name(e.channel) + ", payload: {"@
        + entries_text(e.payload.listing()) + "} }"@
}

fn actor_label(a: ActorType) -> (s: &'static str)
    ensures
        s@ == actor_name(a),
{
    match a {
        ActorType::Planet => "Planet",
        ActorType::Explorer => "Explorer",
        ActorType::Orchestrator => "Orchestrator",
        ActorType::User => "User",
        ActorType::Broadcast => "Broadcast",
        ActorType::SelfActor => "SelfActor",
    }
}

fn channel_label(c: Channel) -> (s: &'static str)
    ensures
        s@ == channel_name(c),
{
    match c {
        Channel::Error => "Error",
        Channel::Warning => "Warning",
        Channel::Info => "Info",
        Channel::Debug => "Debug",
        Channel::Trace => "Trace",
    }
}

/// Appends the decimal notation of `n`, signed.
fn push_signed(s: &mut String, n: i64)
    ensures
        final(s)@ == old(s)@ + signed_decimal(n as int),
{
    if n < 0 {
        push_char(s, '-');
        let m: u64 = if n == i64::MIN { 9223372036854775808u64 } else { (-n) as u64 };
        push_decimal(s, m);
        assert(old(s)@.push('-') + decimal(m as nat) =~= old(s)@ + (seq!['-'] + decimal(m as nat)));
    } else {
        push_decimal(s, n as u64);
    }
}

impl LogEvent {
    /// The event as one line of text: its time, sender, receiver, event
    /// type, channel, and its data with each key once and the keys in
    /// text order.
    pub fn render(&self) -> (s: String)
        ensures
            s@ == event_text(*self),
            keys_sorted(entry_keys(self.payload.listing())),
            self.payload@ == entries_map(self.payload.listing()),
    {
        let mut s = String::from_str("LogEvent { ts: ");
        proof {
            reveal_strlit("LogEvent { ts: ");
        }
        push_signed(&mut s, self.timestamp_unix);
        s.append(", sender: ");
        s.append(actor_label(self.sender_type));
        s.append("#");
        push_decimal(&mut s, self.sender_id);
        s.append(", receiver: ");
        s.append(actor_label(self.receiver_type));
        s.append("/");
        s.append(self.receiver_id.as_str());
        s.append(", event: ");
        let et = event_type_label(self.event_type);
        s.append(et.as_str());
        s.append(", channel: ");
        s.append(channel_label(self.channel));
        s.append(", payload: {");
        let ghost head = s@;
        let es = self.payload.entries();
        let mut i: usize = 0;
        while i < es.len()
            invariant
                i <= es@.len(),
                s@ == head + entries_text(es@.take(i as int)),
            decreases es@.len() - i,
        {
            let ghost before = s@;
            if i > 0 {
                s.append(", ");
            }
            let k = debug_quote(es[i].0.as_str());
            s.append(k.as_str());
            s.append(": ");
            let v = debug_quote(es[i].1.as_str());
            s.append(v.as_str());
            proof {
                let t = es@.take(i as int + 1);
                assert(t.drop_last() =~= es@.take(i as int));
                assert(t.last() == es@[i as int]);
                if i > 0 {
                    assert(s@ =~= head + entries_text(t));
                } else {
                    assert(es@.take(0) =~= Seq::<(String, String)>::empty());
                    assert(s@ =~= head + entries_text(t));
                }
            }
            i = i + 1;
        }
        s.append("} }");
        proof {
            assert(es@.take(es@.len() as int) =~= es@);
        }
        s
    }
}

} // verus!
