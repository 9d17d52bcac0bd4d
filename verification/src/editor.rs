use crate::error::{malformed, DecodeError, Field};
use crate::fields::{
    each, float_in, key_value, lemma_each_error, lemma_each_next, read_float, read_key_value,
    read_u32, read_u8, u32_in, u8_in,
};
use crate::number::{digits_end, FloatLiteral};
use crate::text::{chars_of, is_word, pieces, split, views};
use crate::{applies, Beatmap, BeatmapView};
use vstd::prelude::*;

verus! {

/// The settings of the editor.
#[derive(Debug, PartialEq)]
pub struct Editor {
    pub bookmarks: Vec<u32>,
    pub distance_spacing: FloatLiteral,
    pub beat_divisor: u8,
    pub grid_size: u8,
    pub timeline_zoom: FloatLiteral,
}

/// What an `Editor` holds.
pub struct EditorView {
    pub bookmarks: Seq<u32>,
    pub distance_spacing: Seq<char>,
    pub beat_divisor: u8,
    pub grid_size: u8,
    pub timeline_zoom: Seq<char>,
}

impl View for Editor {
    type V = EditorView;

    open spec fn view(&self) -> EditorView {
        EditorView {
            bookmarks: self.bookmarks@,
            distance_spacing: self.distance_spacing@,
            beat_divisor: self.beat_divisor,
            grid_size: self.grid_size,
            timeline_zoom: self.timeline_zoom@,
        }
    }
}

/// The editor settings of a file that sets none.
pub open spec fn default_editor() -> EditorView {
    EditorView {
        bookmarks: Seq::empty(),
        distance_spacing: "1.0"@,
        beat_divisor: 4,
        grid_size: 4,
        timeline_zoom: "1.0"@,
    }
}

impl Editor {
    /// The editor with these settings.
    pub fn new(
        bookmarks: Vec<u32>,
        distance_spacing: FloatLiteral,
        beat_divisor: u8,
        grid_size: u8,
        timeline_zoom: FloatLiteral,
    ) -> (editor: Editor)
        ensures
            editor.bookmarks == bookmarks,
            editor.distance_spacing == distance_spacing,
            editor.beat_divisor == beat_divisor,
            editor.grid_size == grid_size,
            editor.timeline_zoom == timeline_zoom,
    {
        Self { bookmarks, distance_spacing, beat_divisor, grid_size, timeline_zoom }
    }
}

impl Default for Editor {
    fn default() -> (editor: Editor)
        ensures
            editor@ == default_editor(),
    {
        proof {
            reveal_strlit("1.0");
            reveal_with_fuel(digits_end, 3);
        }
        Self {
            bookmarks: Vec::new(),
            distance_spacing: FloatLiteral::constant("1.0"),
            beat_divisor: 4,
            grid_size: 4,
            timeline_zoom: FloatLiteral::constant("1.0"),
        }
    }
}

/// The bookmark that one part of the list writes.
pub open spec fn bookmark_of(seg: Seq<char>) -> Result<u32, DecodeError> {
    u32_in(seg, Field::Value)
}

/// The bookmarks that `value` writes: numbers divided by commas.
pub open spec fn bookmarks_of(value: Seq<char>) -> Result<Seq<u32>, DecodeError> {
    each(pieces(value, ','), |seg: Seq<char>| bookmark_of(seg))
}

/// The editor settings after a line of their section: where the key of the
/// line is one of the five settings, that setting has what the value of the
/// line writes; a line with another key changes nothing.
pub open spec fn editor_after(e: EditorView, line: Seq<char>) -> Result<EditorView, DecodeError> {
    match key_value(line) {
        None => Err(malformed(Field::Line)),
        Some((key, value)) => if key == "Bookmarks"@ {
            match bookmarks_of(value) {
                Err(err) => Err(err),
                Ok(bookmarks) => Ok(EditorView { bookmarks, ..e }),
            }
        } else if key == "DistanceSpacing"@ {
            match float_in(value, Field::Value) {
                Err(err) => Err(err),
                Ok(distance_spacing) => Ok(EditorView { distance_spacing, ..e }),
            }
        } else if key == "BeatDivisor"@ {
            match u8_in(value, Field::Value) {
                Err(err) => Err(err),
                Ok(beat_divisor) => Ok(EditorView { beat_divisor, ..e }),
            }
        } else if key == "GridSize"@ {
            match u8_in(value, Field::Value) {
                Err(err) => Err(err),
                Ok(grid_size) => Ok(EditorView { grid_size, ..e }),
            }
        } else if key == "TimelineZoom"@ {
            match float_in(value, Field::Value) {
                Err(err) => Err(err),
                Ok(timeline_zoom) => Ok(EditorView { timeline_zoom, ..e }),
            }
        } else {
            Ok(e)
        },
    }
}

/// What a line of the editor section does to a beatmap.
pub open spec fn editor_line(b: BeatmapView, line: Seq<char>) -> Result<BeatmapView, DecodeError> {
    match editor_after(b.editor, line) {
        Err(e) => Err(e),
        Ok(editor) => Ok(BeatmapView { editor, ..b }),
    }
}

/// Reads a list of bookmarks.
pub fn read_bookmarks(value: &[char]) -> (r: Result<Vec<u32>, DecodeError>)
    ensures
        match r {
            Ok(bookmarks) => bookmarks_of(value@) == Ok::<Seq<u32>, DecodeError>(bookmarks@),
            Err(e) => bookmarks_of(value@) == Err::<Seq<u32>, DecodeError>(e),
        },
{
    let p = split(value, ',');
    let ghost segs = views(p@);
    let ghost f = |seg: Seq<char>| bookmark_of(seg);
    let mut bookmarks: Vec<u32> = Vec::new();
    let mut i: usize = 0;
    while i < p.len()
        invariant
            0 <= i <= p@.len(),
            segs == views(p@),
            segs == pieces(value@, ','),
            f == (|seg: Seq<char>| bookmark_of(seg)),
            each(segs.subrange(0, i as int), f) == Ok::<Seq<u32>, DecodeError>(bookmarks@),
        decreases p@.len() - i,
    {
        proof {
            lemma_each_next(segs, f, i as int);
        }
        match read_u32(p[i], Field::Value) {
            Ok(bookmark) => {
                bookmarks.push(bookmark);
            },
            Err(e) => {
                proof {
                    lemma_each_error(segs, f, i + 1);
                }
                return Err(e);
            },
        }
        i += 1;
    }
    assert(segs.subrange(0, p@.len() as int) =~= segs);
    Ok(bookmarks)
}

/// Reads a line of the editor section into the beatmap.
pub fn read_editor(line: &[char], beatmap: &mut Beatmap) -> (r: Result<(), DecodeError>)
    ensures
        applies(r, old(beatmap)@, final(beatmap)@, editor_line(old(beatmap)@, line@)),
{
    let (key, value) = match read_key_value(line) {
        Some(pair) => pair,
        None => { return Err(DecodeError::malformed(Field::Line)); },
    };
    if is_word(key, "Bookmarks") {
        beatmap.editor.bookmarks = read_bookmarks(value)?;
    } else if is_word(key, "DistanceSpacing") {
        beatmap.editor.distance_spacing = read_float(value, Field::Value)?;
    } else if is_word(key, "BeatDivisor") {
        beatmap.editor.beat_divisor = read_u8(value, Field::Value)?;
    } else if is_word(key, "GridSize") {
        beatmap.editor.grid_size = read_u8(value, Field::Value)?;
    } else if is_word(key, "TimelineZoom") {
        beatmap.editor.timeline_zoom = read_float(value, Field::Value)?;
    }
    Ok(())
}

/// Reads a line of the editor section, from a string, into the beatmap.
pub fn parse_editor(line: &str, beatmap: &mut Beatmap) -> (r: Result<(), DecodeError>)
    ensures
        applies(r, old(beatmap)@, final(beatmap)@, editor_line(old(beatmap)@, line@)),
{
    let chars = chars_of(line);
    read_editor(chars.as_slice(), beatmap)
}

} // verus!
