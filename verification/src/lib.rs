use crate::difficulty::{
    default_difficulty, difficulty_line, read_difficulty, Difficulty, DifficultyView,
};
use crate::editor::{default_editor, editor_line, read_editor, Editor, EditorView};
use crate::error::{DecodeError, LineError};
use crate::file_sections::{section_of, FileSections};
use crate::format::{default_version, format_line, read_format, Format};
use crate::general::{default_general, general_line, read_general, General, GeneralView};
use crate::hit_objects::{
    hit_objects_line, lemma_well_formed, read_hit_objects, well_formed, HitObject, HitObjectView,
};
use crate::metadata::{default_metadata, metadata_line, read_metadata, Metadata, MetadataView};
use crate::text::{chars_of, has_prefix, pieces, split, starts_with, trim, trimmed, views};
use crate::timing_points::{
    read_timing_points, timing_points_line, TimingPoint, TimingPointView,
};
use vstd::prelude::*;

pub mod difficulty;
pub mod editor;
pub mod error;
pub mod events;
pub mod fields;
pub mod file_sections;
pub mod format;
pub mod general;
pub mod hit_objects;
pub mod metadata;
pub mod number;
pub mod text;
pub mod timing_points;

verus! {

/// A beatmap: the settings of its sections, its timing points and its hit
/// objects, both in the order of the file.
#[derive(Debug, PartialEq)]
pub struct Beatmap {
    pub format: Format,
    pub general: General,
    pub editor: Editor,
    pub metadata: Metadata,
    pub difficulty: Difficulty,
    pub timing_points: Vec<TimingPoint>,
    pub hit_objects: Vec<HitObject>,
}

/// What a `Beatmap` holds.
pub struct BeatmapView {
    pub format: u32,
    pub general: GeneralView,
    pub editor: EditorView,
    pub metadata: MetadataView,
    pub difficulty: DifficultyView,
    pub timing_points: Seq<TimingPointView>,
    pub hit_objects: Seq<HitObjectView>,
}

/// What each of `points` holds.
pub open spec fn timing_point_views(points: Seq<TimingPoint>) -> Seq<TimingPointView> {
    Seq::new(points.len(), |i: int| points[i]@)
}

/// What each of `objects` holds.
pub open spec fn hit_object_views(objects: Seq<HitObject>) -> Seq<HitObjectView> {
    Seq::new(objects.len(), |i: int| objects[i]@)
}

impl View for Beatmap {
    type V = BeatmapView;

    open spec fn view(&self) -> BeatmapView {
        BeatmapView {
            format: self.format@,
            general: self.general@,
            editor: self.editor@,
            metadata: self.metadata@,
            difficulty: self.difficulty@,
            timing_points: timing_point_views(self.timing_points@),
            hit_objects: hit_object_views(self.hit_objects@),
        }
    }
}

/// The beatmap of an empty file: every section as it is where nothing sets
/// it, no timing point and no hit object.
pub open spec fn default_beatmap() -> BeatmapView {
    BeatmapView {
        format: default_version(),
        general: default_general(),
        editor: default_editor(),
        metadata: default_metadata(),
        difficulty: default_difficulty(),
        timing_points: Seq::empty(),
        hit_objects: Seq::empty(),
    }
}

/// Whether a line was applied as `expected` says: with `Ok`, the beatmap
/// went from `before` to the beatmap that `expected` holds; with an error,
/// that is the error of `expected` and the beatmap is as it was.
pub open spec fn applies(
    r: Result<(), DecodeError>,
    before: BeatmapView,
    after: BeatmapView,
    expected: Result<BeatmapView, DecodeError>,
) -> bool {
    match r {
        Ok(_) => expected == Ok::<BeatmapView, DecodeError>(after),
        Err(e) => expected == Err::<BeatmapView, DecodeError>(e) && after == before,
    }
}

impl Beatmap {
    /// The beatmap with these parts.
    pub fn new(
        format: Format,
        general: General,
        editor: Editor,
        metadata: Metadata,
        difficulty: Difficulty,
        timing_points: Vec<TimingPoint>,
        hit_objects: Vec<HitObject>,
    ) -> (beatmap: Beatmap)
        ensures
            beatmap.format == format,
            beatmap.general == general,
            beatmap.editor == editor,
            beatmap.metadata == metadata,
            beatmap.difficulty == difficulty,
            beatmap.timing_points == timing_points,
            beatmap.hit_objects == hit_objects,
    {
        Self { format, general, editor, metadata, difficulty, timing_points, hit_objects }
    }
}

impl Default for Beatmap {
    fn default() -> (beatmap: Beatmap)
        ensures
            beatmap@ == default_beatmap(),
    {
        let beatmap = Beatmap {
            format: Format::default(),
            general: General::default(),
            editor: Editor::default(),
            metadata: Metadata::default(),
            difficulty: Difficulty::default(),
            timing_points: Vec::new(),
            hit_objects: Vec::new(),
        };
        assert(beatmap@.timing_points =~= Seq::empty());
        assert(beatmap@.hit_objects =~= Seq::empty());
        beatmap
    }
}

/// Whether `line` is passed over: a line of white space only, or one that
/// begins with `//`.
pub open spec fn is_skipped(line: Seq<char>) -> bool {
    trimmed(line).len() == 0 || has_prefix(line, "//"@)
}

/// Whether `line` is a name in square brackets, white space around it aside.
pub open spec fn is_bracketed(line: Seq<char>) -> bool {
    let t = trimmed(line);
    t.len() >= 2 && t[0] == '[' && t[t.len() - 1] == ']'
}

/// Whether `line` opens a section: it reads the name of a section, in
/// brackets or without them, or it is a name in brackets that no section has.
pub open spec fn opens_section(line: Seq<char>) -> bool {
    section_of(line) != FileSections::NoSection || is_bracketed(line)
}

/// What a line does to a beatmap in this section. A line of the events, of
/// the colours or of no section does nothing.
pub open spec fn section_line(section: FileSections, b: BeatmapView, line: Seq<char>) -> Result<
    BeatmapView,
    DecodeError,
> {
    match section {
        FileSections::Format => format_line(b, line),
        FileSections::General => general_line(b, line),
        FileSections::Editor => editor_line(b, line),
        FileSections::Metadata => metadata_line(b, line),
        FileSections::Difficulty => difficulty_line(b, line),
        FileSections::TimingPoints => timing_points_line(b, line),
        FileSections::HitObjects => hit_objects_line(b, line),
        _ => Ok(b),
    }
}

/// The section and the beatmap after `line`. A line that is passed over
/// changes neither; a line that opens a section changes the section, to no
/// section where no section has its name; any other line goes by the section
/// that is open.
pub open spec fn after_line(state: (FileSections, BeatmapView), line: Seq<char>) -> Result<
    (FileSections, BeatmapView),
    DecodeError,
> {
    if is_skipped(line) {
        Ok(state)
    } else if opens_section(line) {
        Ok((section_of(line), state.1))
    } else {
        match section_line(state.0, state.1, line) {
            Err(e) => Err(e),
            Ok(b) => Ok((state.0, b)),
        }
    }
}

/// The section and the beatmap after the first `n` of `lines`, or the error
/// of the first of them that is rejected, with its number. Before the first
/// line no section is open and the beatmap is that of an empty file.
pub open spec fn after_lines(lines: Seq<Seq<char>>, n: int) -> Result<
    (FileSections, BeatmapView),
    LineError,
>
    decreases n,
{
    if n <= 0 {
        Ok((FileSections::NoSection, default_beatmap()))
    } else {
        match after_lines(lines, n - 1) {
            Err(e) => Err(e),
            Ok(state) => match after_line(state, lines[n - 1]) {
                Err(e) => Err(LineError { line: n as usize, error: e }),
                Ok(next) => Ok(next),
            },
        }
    }
}

/// The beatmap that `text` writes, line by line, or the error of its first
/// line that is rejected.
pub open spec fn beatmap_of(text: Seq<char>) -> Result<BeatmapView, LineError> {
    let lines = pieces(text, '\n');
    match after_lines(lines, lines.len() as int) {
        Err(e) => Err(e),
        Ok(state) => Ok(state.1),
    }
}

/// A line takes away no hit object and no timing point, and changes none:
/// those that the beatmap had stay first, in their order, and at most one
/// comes after them.
pub proof fn lemma_line_only_adds(state: (FileSections, BeatmapView), line: Seq<char>)
    ensures
        after_line(state, line) matches Ok(next) ==> {
            &&& state.1.hit_objects.is_prefix_of(next.1.hit_objects)
            &&& next.1.hit_objects.len() <= state.1.hit_objects.len() + 1
            &&& state.1.timing_points.is_prefix_of(next.1.timing_points)
            &&& next.1.timing_points.len() <= state.1.timing_points.len() + 1
        },
{
}

/// Every hit object of the beatmap that a text writes is well formed.
pub proof fn lemma_objects_well_formed(text: Seq<char>)
    ensures
        beatmap_of(text) matches Ok(b) ==> forall|i: int|
            0 <= i < b.hit_objects.len() ==> well_formed(#[trigger] b.hit_objects[i]),
{
    let lines = pieces(text, '\n');
    lemma_objects_well_formed_after(lines, lines.len() as int);
}

/// Every hit object of the beatmap after the first `n` of `lines` is well
/// formed.
proof fn lemma_objects_well_formed_after(lines: Seq<Seq<char>>, n: int)
    ensures
        after_lines(lines, n) matches Ok(state) ==> forall|i: int|
            0 <= i < state.1.hit_objects.len() ==> well_formed(#[trigger] state.1.hit_objects[i]),
    decreases n,
{
    if n > 0 {
        lemma_objects_well_formed_after(lines, n - 1);
        lemma_well_formed(lines[n - 1]);
    }
}

/// Once a line is rejected, its error is the error of every longer run of
/// lines.
pub proof fn lemma_error_stays(lines: Seq<Seq<char>>, k: int, n: int)
    requires
        0 <= k <= n,
        after_lines(lines, k) is Err,
    ensures
        after_lines(lines, n) == after_lines(lines, k),
    decreases n,
{
    if k < n {
        lemma_error_stays(lines, k, n - 1);
    }
}

/// Decides `is_bracketed`.
pub fn is_bracketed_line(line: &[char]) -> (b: bool)
    ensures
        b == is_bracketed(line@),
{
    let t = trim(line);
    t.len() >= 2 && t[0] == '[' && t[t.len() - 1] == ']'
}

/// Reads one line of a file: passes over it, opens a section, or reads it
/// into the beatmap as the open section asks.
pub fn read_line(line: &[char], section: &mut FileSections, beatmap: &mut Beatmap) -> (r: Result<
    (),
    DecodeError,
>)
    ensures
        match r {
            Ok(_) => after_line((*old(section), old(beatmap)@), line@) == Ok::<
                (FileSections, BeatmapView),
                DecodeError,
            >((*final(section), final(beatmap)@)),
            Err(e) => after_line((*old(section), old(beatmap)@), line@) == Err::<
                (FileSections, BeatmapView),
                DecodeError,
            >(e) && *final(section) == *old(section) && final(beatmap)@ == old(beatmap)@,
        },
{
    if trim(line).len() == 0 || starts_with(line, "//") {
        return Ok(());
    }
    let named = FileSections::read_section(line);
    let opens = match named {
        FileSections::NoSection => is_bracketed_line(line),
        _ => true,
    };
    if opens {
        *section = named;
        return Ok(());
    }
    match *section {
        FileSections::Format => read_format(line, beatmap),
        FileSections::General => read_general(line, beatmap),
        FileSections::Editor => read_editor(line, beatmap),
        FileSections::Metadata => read_metadata(line, beatmap),
        FileSections::Difficulty => read_difficulty(line, beatmap),
        FileSections::TimingPoints => read_timing_points(line, beatmap),
        FileSections::HitObjects => read_hit_objects(line, beatmap),
        _ => Ok(()),
    }
}

/// Reads a beatmap from the text of a file.
pub fn parse(text: &str) -> (r: Result<Beatmap, LineError>)
    ensures
        match r {
            Ok(beatmap) => beatmap_of(text@) == Ok::<BeatmapView, LineError>(beatmap@),
            Err(e) => beatmap_of(text@) == Err::<BeatmapView, LineError>(e),
        },
{
    let chars = chars_of(text);
    let lines = split(chars.as_slice(), '\n');
    let mut beatmap = Beatmap::default();
    let mut section = FileSections::NoSection;
    let mut i: usize = 0;
    while i < lines.len()
        invariant
            i <= lines@.len(),
            views(lines@) == pieces(text@, '\n'),
            after_lines(views(lines@), i as int) == Ok::<(FileSections, BeatmapView), LineError>(
                (section, beatmap@),
            ),
        decreases lines@.len() - i,
    {
        match read_line(lines[i], &mut section, &mut beatmap) {
            Ok(_) => {},
            Err(e) => {
                proof {
                    lemma_error_stays(views(lines@), i + 1, lines@.len() as int);
                }
                return Err(LineError { line: i + 1, error: e });
            },
        }
        i += 1;
    }
    Ok(beatmap)
}

} // verus!
