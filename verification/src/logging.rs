//! The log records a planet emits: a level and one line of `key=value`
//! text.

use vstd::prelude::*;

use crate::game::logging::{Channel, EventType};
use crate::planet_ai::skycartel::RustyPlanetId;
use crate::text::{decimal, push_char, push_decimal};

verus! {

broadcast use vstd::string::axiom_spec_iter;

/// The severity a record is logged at.
#[derive(Debug, Clone, Copy, PartialEq, Eq, Structural)]
pub enum LogLevel {
    Error,
    Warn,
    Info,
    Debug,
    Trace,
}

/// The level each channel is logged at.
pub open spec fn level_of(channel: Channel) -> LogLevel {
    match channel {
        Channel::Info => LogLevel::Info,
        Channel::Warning => LogLevel::Warn,
        Channel::Error => LogLevel::Error,
        Channel::Debug => LogLevel::Debug,
        Channel::Trace => LogLevel::Trace,
    }
}

/// The level each channel is logged at.
pub fn channel_to_level(channel: Channel) -> (l: LogLevel)
    ensures
        l == level_of(channel),
{
    match channel {
        Channel::Info => LogLevel::Info,
        Channel::Warning => LogLevel::Warn,
        Channel::Error => LogLevel::Error,
        Channel::Debug => LogLevel::Debug,
        Channel::Trace => LogLevel::Trace,
    }
}

/// A character of a value as logged: line breaks and tabs become spaces.
pub open spec fn sanitize_char(c: char) -> char {
    if c == '\n' || c == '\r' || c == '\t' { ' ' } else { c }
}

/// A value as logged: line breaks and tabs become spaces, so that a record
/// stays on one line.
pub open spec fn sanitized(v: Seq<char>) -> Seq<char> {
    v.map_values(|c: char| sanitize_char(c))
}

/// A value as logged (see [`sanitized`]).
pub fn sanitize_value(v: &str) -> (r: String)
    ensures
        r@ == sanitized(v@),
{
    let mut out = String::new();
    for c in it: v.chars()
        invariant
            it.seq() == v@,
            out@ == sanitized(v@.take(it.index() as int)),
    {
        assert(v@.take(it.index() as int + 1) =~= v@.take(it.index() as int).push(c));
        push_char(&mut out, if c == '\n' || c == '\r' || c == '\t' { ' ' } else { c });
        assert(out@ =~= sanitized(v@.take(it.index() as int + 1)));
    }
    assert(v@.take(v@.len() as int) =~= v@);
    out
}

/// A sanitized value stays on one line: it has as many characters as the
/// value, none of them a line break or a tab, and every other character
/// kept.
pub proof fn lemma_sanitized_single_line(v: Seq<char>)
    ensures
        sanitized(v).len() == v.len(),
        forall|i: int| 0 <= i < v.len() ==> {
            let c = #[trigger] sanitized(v)[i];
            c != '\n' && c != '\r' && c != '\t'
        },
        forall|i: int| 0 <= i < v.len() && v[i] != '\n' && v[i] != '\r' && v[i] != '\t' ==> #[trigger] sanitized(v)[i] == v[i],
{
}

/// The name of an event type, as its variant is written.
pub open spec fn event_type_name(e: EventType) -> Seq<char> {
    match e {
        EventType::MessagePlanetToOrchestrator => "MessagePlanetToOrchestrator"@,
        EventType::MessagePlanetToExplorer => "MessagePlanetToExplorer"@,
        EventType::MessageOrchestratorToExplorer => "MessageOrchestratorToExplorer"@,
        EventType::MessageOrchestratorToPlanet => "MessageOrchestratorToPlanet"@,
        EventType::MessageExplorerToPlanet => "MessageExplorerToPlanet"@,
        EventType::MessageExplorerToOrchestrator => "MessageExplorerToOrchestrator"@,
        EventType::InternalPlanetAction => "InternalPlanetAction"@,
        EventType::InternalExplorerAction => "InternalExplorerAction"@,
        EventType::InternalOrchestratorAction => "InternalOrchestratorAction"@,
        EventType::UserToPlanet => "UserToPlanet"@,
        EventType::UserToExplorer => "UserToExplorer"@,
        EventType::UserToOrchestrator => "UserToOrchestrator"@,
    }
}

/// The name of an event type, as its variant is written.
pub fn event_type_label(e: EventType) -> (s: String)
    ensures
        s@ == event_type_name(e),
{
    match e {
        EventType::MessagePlanetToOrchestrator => {
            let s = String::from_str("MessagePlanetToOrchestrator");
            proof { reveal_strlit("MessagePlanetToOrchestrator"); }
            s
        },
        EventType::MessagePlanetToExplorer => {
            let s = String::from_str("MessagePlanetToExplorer");
            proof { reveal_strlit("MessagePlanetToExplorer"); }
            s
        },
        EventType::MessageOrchestratorToExplorer => {
            let s = String::from_str("MessageOrchestratorToExplorer");
            proof { reveal_strlit("MessageOrchestratorToExplorer"); }
            s
        },
        EventType::MessageOrchestratorToPlanet => {
            let s = String::from_str("MessageOrchestratorToPlanet");
            proof { reveal_strlit("MessageOrchestratorToPlanet"); }
            s
        },
        EventType::MessageExplorerToPlanet => {
            let s = String::from_str("MessageExplorerToPlanet");
            proof { reveal_strlit("MessageExplorerToPlanet"); }
            s
        },
        EventType::MessageExplorerToOrchestrator => {
            let s = String::from_str("MessageExplorerToOrchestrator");
            proof { reveal_strlit("MessageExplorerToOrchestrator"); }
            s
        },
        EventType::InternalPlanetAction => {
            let s = String::from_str("InternalPlanetAction");
            proof { reveal_strlit("InternalPlanetAction"); }
            s
        },
        EventType::InternalExplorerAction => {
            let s = String::from_str("InternalExplorerAction");
            proof { reveal_strlit("InternalExplorerAction"); }
            s
        },
        EventType::InternalOrchestratorAction => {
            let s = String::from_str("InternalOrchestratorAction");
            proof { reveal_strlit("InternalOrchestratorAction"); }
            s
        },
        EventType::UserToPlanet => {
            let s = String::from_str("UserToPlanet");
            proof { reveal_strlit("UserToPlanet"); }
            s
        },
        EventType::UserToExplorer => {
            let s = String::from_str("UserToExplorer");
            proof { reveal_strlit("UserToExplorer"); }
            s
        },
        EventType::UserToOrchestrator => {
            let s = String::from_str("UserToOrchestrator");
            proof { reveal_strlit("UserToOrchestrator"); }
            s
        },
    }
}

/// The `key=value` pairs of a record, each after a space, values
/// sanitized.
pub open spec fn meta_text(meta: Seq<(Seq<char>, Seq<char>)>) -> Seq<char>
    decreases meta.len(),
{
    if meta.len() == 0 {
        seq![]
    } else {
        meta_text(meta.drop_last()) + " "@ + meta.last().0 + "="@ + sanitized(meta.last().1)
    }
}

/// The view of a list of key/value pairs.
pub open spec fn pairs_view(meta: Seq<(String, String)>) -> Seq<(Seq<char>, Seq<char>)> {
    meta.map_values(|e: (String, String)| (e.0@, e.1@))
}

/// The line logged for a planet event: the planet, the event type, the
/// message in quotes, then the metadata pairs.
pub open spec fn planet_event_line(
    planet_id: u32,
    event_type: EventType,
    message: Seq<char>,
    meta: Option<Seq<(Seq<char>, Seq<char>)>>,
) -> Seq<char> {
    "planet_id="@ + decimal(planet_id as nat) + " event_type="@ + event_type_name(event_type) + " msg=\""@
        + message + "\""@ + match meta {
        Some(m) => meta_text(m),
        None => seq![],
    }
}

/// The record to log for a planet event: the level of `channel`, and the
/// line of [`planet_event_line`]. Metadata is meant to be small.
pub fn log_planet_event(
    planet_id: RustyPlanetId,
    event_type: EventType,
    channel: Channel,
    message: &str,
    meta: Option<Vec<(String, String)>>,
) -> (record: (LogLevel, String))
    ensures
        record.0 == level_of(channel),
        record.1@ == planet_event_line(
            planet_id@,
            event_type,
            message@,
            match meta {
                Some(m) => Some(pairs_view(m@)),
                None => None,
            },
        ),
{
    let mut line = String::from_str("planet_id=");
    proof { reveal_strlit("planet_id="); }
    push_decimal(&mut line, planet_id.as_u32() as u64);
    line.append(" event_type=");
    proof { reveal_strlit(" event_type="); }
    let name = event_type_label(event_type);
    line.append(name.as_str());
    line.append(" msg=\"");
    proof { reveal_strlit(" msg=\""); }
    line.append(message);
    line.append("\"");
    proof { reveal_strlit("\""); }
    let ghost head = line@;
    match meta {
        Some(m) => {
            let mut i: usize = 0;
            while i < m.len()
                invariant
                    i <= m@.len(),
                    line@ == head + meta_text(pairs_view(m@).take(i as int)),
                decreases m@.len() - i,
            {
                let ghost before = line@;
                line.append(" ");
                proof { reveal_strlit(" "); }
                line.append(m[i].0.as_str());
                line.append("=");
                proof { reveal_strlit("="); }
                let v = sanitize_value(m[i].1.as_str());
                line.append(v.as_str());
                proof {
                    let t = pairs_view(m@).take(i as int + 1);
                    assert(t.drop_last() =~= pairs_view(m@).take(i as int));
                    assert(t.last() == (m@[i as int].0@, m@[i as int].1@));
                }
                i = i + 1;
            }
            assert(pairs_view(m@).take(m@.len() as int) =~= pairs_view(m@));
        },
        None => {
            assert(line@ =~= head + Seq::<char>::empty());
        },
    }
    (channel_to_level(channel), line)
}

} // verus!
