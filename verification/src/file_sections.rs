use crate::text::{
    chars_of, is_word, strip_end, strip_start, stripped_end, stripped_start, trim, trimmed,
};
use vstd::prelude::*;

verus! {

/// The sections of a beatmap file.
#[derive(Debug, Clone, Copy, PartialEq, Eq, Structural)]
pub enum FileSections {
    /// No section: before the first header, and after a header that names
    /// no section.
    NoSection,
    Format,
    General,
    Editor,
    Metadata,
    Difficulty,
    Events,
    TimingPoints,
    Colours,
    HitObjects,
}

/// The section of this name; `NoSection` for a name that no section has.
pub open spec fn section_named(name: Seq<char>) -> FileSections {
    if name == "Format"@ {
        FileSections::Format
    } else if name == "General"@ {
        FileSections::General
    } else if name == "Editor"@ {
        FileSections::Editor
    } else if name == "Metadata"@ {
        FileSections::Metadata
    } else if name == "Difficulty"@ {
        FileSections::Difficulty
    } else if name == "Events"@ {
        FileSections::Events
    } else if name == "TimingPoints"@ {
        FileSections::TimingPoints
    } else if name == "Colours"@ {
        FileSections::Colours
    } else if name == "HitObjects"@ {
        FileSections::HitObjects
    } else {
        FileSections::NoSection
    }
}

/// The name in a section header: the line without the white space around it,
/// the `[` before the name and the `]` after it.
pub open spec fn header_name(line: Seq<char>) -> Seq<char> {
    stripped_end(stripped_start(trimmed(line), '['), ']')
}

/// The section that the header `line` opens; `NoSection` where it names
/// none.
pub open spec fn section_of(line: Seq<char>) -> FileSections {
    section_named(header_name(line))
}

impl FileSections {
    /// The section that the header `line` opens.
    pub fn read_section(line: &[char]) -> (section: FileSections)
        ensures
            section == section_of(line@),
    {
        let name = strip_end(strip_start(trim(line), '['), ']');
        if is_word(name, "Format") {
            FileSections::Format
        } else if is_word(name, "General") {
            FileSections::General
        } else if is_word(name, "Editor") {
            FileSections::Editor
        } else if is_word(name, "Metadata") {
            FileSections::Metadata
        } else if is_word(name, "Difficulty") {
            FileSections::Difficulty
        } else if is_word(name, "Events") {
            FileSections::Events
        } else if is_word(name, "TimingPoints") {
            FileSections::TimingPoints
        } else if is_word(name, "Colours") {
            FileSections::Colours
        } else if is_word(name, "HitObjects") {
            FileSections::HitObjects
        } else {
            FileSections::NoSection
        }
    }

    /// The section that the header `line` opens, from a string.
    pub fn get_section(line: &str) -> (section: FileSections)
        ensures
            section == section_of(line@),
    {
        let chars = chars_of(line);
        FileSections::read_section(chars.as_slice())
    }
}

} // verus!
