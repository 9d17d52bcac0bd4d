use crate::error::{DecodeError, Field};
use crate::fields::{read_u32, u32_in};
use crate::text::{chars_of, strip_prefix, stripped_prefix, trim, trimmed};
use crate::{applies, Beatmap, BeatmapView};
use vstd::prelude::*;

verus! {

/// The version of the file format.
#[derive(Debug, PartialEq)]
pub struct Format {
    version: u32,
}

impl View for Format {
    type V = u32;

    closed spec fn view(&self) -> u32 {
        self.version
    }
}

/// The version of a file that names none.
pub open spec fn default_version() -> u32 {
    14
}

impl Format {
    /// The format of this version.
    pub fn new(version: u32) -> (format: Format)
        ensures
            format@ == version,
    {
        Self { version }
    }

    /// The version.
    pub fn version(&self) -> (version: u32)
        ensures
            version == self@,
    {
        self.version
    }
}

impl Default for Format {
    fn default() -> (format: Format)
        ensures
            format@ == default_version(),
    {
        Self { version: 14 }
    }
}

/// The version that `line` writes: a number, after `osu file format v` or
/// alone.
pub open spec fn version_of(line: Seq<char>) -> Result<u32, DecodeError> {
    u32_in(stripped_prefix(trimmed(line), "osu file format v"@), Field::Version)
}

/// What a line of the format section does to a beatmap.
pub open spec fn format_line(b: BeatmapView, line: Seq<char>) -> Result<BeatmapView, DecodeError> {
    match version_of(line) {
        Err(e) => Err(e),
        Ok(format) => Ok(BeatmapView { format, ..b }),
    }
}

/// Reads a line of the format section into the beatmap.
pub fn read_format(line: &[char], beatmap: &mut Beatmap) -> (r: Result<(), DecodeError>)
    ensures
        applies(r, old(beatmap)@, final(beatmap)@, format_line(old(beatmap)@, line@)),
{
    let version = read_u32(strip_prefix(trim(line), "osu file format v"), Field::Version)?;
    beatmap.format = Format::new(version);
    Ok(())
}

/// Reads a line of the format section, from a string, into the beatmap.
pub fn parse_format(line: &str, beatmap: &mut Beatmap) -> (r: Result<(), DecodeError>)
    ensures
        applies(r, old(beatmap)@, final(beatmap)@, format_line(old(beatmap)@, line@)),
{
    let chars = chars_of(line);
    read_format(chars.as_slice(), beatmap)
}

} // verus!
