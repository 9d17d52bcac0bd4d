use crate::error::{malformed, DecodeError, Field};
use crate::text::{chars_of, is_word, lemma_pieces, pieces, split, trim, trimmed, views};
use crate::Beatmap;
use vstd::prelude::*;

verus! {

/// The types of event.
#[derive(Debug, Clone, Copy, PartialEq, Eq, Structural)]
pub enum EventType {
    Background,
    Video,
    Break,
    Storyboard,
}

/// An event of the storyboard.
#[derive(Debug, PartialEq)]
pub struct Event {
    pub event_type: EventType,
    pub start_time: u32,
    pub event_params: Vec<String>,
}

impl Event {
    /// The event with these parts.
    pub fn new(event_type: EventType, start_time: u32, event_params: Vec<String>) -> (event: Event)
        ensures
            event.event_type == event_type,
            event.start_time == start_time,
            event.event_params == event_params,
    {
        Self { event_type, start_time, event_params }
    }
}

impl Default for Event {
    fn default() -> (event: Event)
        ensures
            event.event_type == EventType::Background,
            event.start_time == 0,
            event.event_params@.len() == 0,
    {
        Self { event_type: EventType::Background, start_time: 0, event_params: Vec::new() }
    }
}

/// The type of event of this name: `0` a background, `1` or `Video` a video,
/// `2` or `Break` a break.
pub open spec fn event_type_named(name: Seq<char>) -> Option<EventType> {
    if name == "0"@ {
        Some(EventType::Background)
    } else if name == "1"@ || name == "Video"@ {
        Some(EventType::Video)
    } else if name == "2"@ || name == "Break"@ {
        Some(EventType::Break)
    } else {
        None
    }
}

/// The type of the event that `line` writes: what its first part names, the
/// parts being divided by commas and the first taken without the white space
/// around it.
pub open spec fn event_type_of(line: Seq<char>) -> Result<EventType, DecodeError> {
    match event_type_named(trimmed(pieces(line, ',')[0])) {
        Some(t) => Ok(t),
        None => Err(malformed(Field::EventType)),
    }
}

/// Reads the type of the event that a line of the events writes.
pub fn read_event_type(line: &[char]) -> (r: Result<EventType, DecodeError>)
    ensures
        r == event_type_of(line@),
{
    let p = split(line, ',');
    proof {
        lemma_pieces(line@, ',');
    }
    let name = trim(p[0]);
    if is_word(name, "0") {
        Ok(EventType::Background)
    } else if is_word(name, "1") || is_word(name, "Video") {
        Ok(EventType::Video)
    } else if is_word(name, "2") || is_word(name, "Break") {
        Ok(EventType::Break)
    } else {
        Err(DecodeError::malformed(Field::EventType))
    }
}

/// Reads a line of the events. A beatmap keeps no events: the line is held to
/// name a type of event, and the beatmap stays as it is.
pub fn parse_events(line: &str, beatmap: &mut Beatmap) -> (r: Result<(), DecodeError>)
    ensures
        match event_type_of(line@) {
            Ok(_) => r is Ok,
            Err(e) => r == Err::<(), DecodeError>(e),
        },
        *final(beatmap) == *old(beatmap),
{
    let chars = chars_of(line);
    match read_event_type(chars.as_slice()) {
        Ok(_) => Ok(()),
        Err(e) => Err(e),
    }
}

} // verus!
