use crate::error::{malformed, DecodeError, Field};
use crate::fields::{key_value, read_key_value, read_u32, u32_in};
use crate::text::{chars_of, is_word, pieces, split, string_of, strings_of, texts};
use crate::{applies, Beatmap, BeatmapView};
use vstd::prelude::*;

verus! {

/// What a file says of the song and of the beatmap.
#[derive(Debug, PartialEq)]
pub struct Metadata {
    pub title: String,
    pub title_unicode: String,
    pub artist: String,
    pub artist_unicode: String,
    pub creator: String,
    pub version: String,
    pub source: String,
    pub tags: Vec<String>,
    pub beatmap_id: u32,
    pub beatmap_set_id: u32,
}

/// What a `Metadata` holds.
pub struct MetadataView {
    pub title: Seq<char>,
    pub title_unicode: Seq<char>,
    pub artist: Seq<char>,
    pub artist_unicode: Seq<char>,
    pub creator: Seq<char>,
    pub version: Seq<char>,
    pub source: Seq<char>,
    pub tags: Seq<Seq<char>>,
    pub beatmap_id: u32,
    pub beatmap_set_id: u32,
}

impl View for Metadata {
    type V = MetadataView;

    open spec fn view(&self) -> MetadataView {
        MetadataView {
            title: self.title@,
            title_unicode: self.title_unicode@,
            artist: self.artist@,
            artist_unicode: self.artist_unicode@,
            creator: self.creator@,
            version: self.version@,
            source: self.source@,
            tags: texts(self.tags@),
            beatmap_id: self.beatmap_id,
            beatmap_set_id: self.beatmap_set_id,
        }
    }
}

/// The metadata of a file that gives none: every text empty, no tag, and
/// zero for both numbers.
pub open spec fn default_metadata() -> MetadataView {
    MetadataView {
        title: Seq::empty(),
        title_unicode: Seq::empty(),
        artist: Seq::empty(),
        artist_unicode: Seq::empty(),
        creator: Seq::empty(),
        version: Seq::empty(),
        source: Seq::empty(),
        tags: Seq::empty(),
        beatmap_id: 0,
        beatmap_set_id: 0,
    }
}

impl Metadata {
    /// The empty metadata.
    pub fn new() -> (metadata: Metadata)
        ensures
            metadata@ == default_metadata(),
    {
        let metadata = Metadata {
            title: String::new(),
            title_unicode: String::new(),
            artist: String::new(),
            artist_unicode: String::new(),
            creator: String::new(),
            version: String::new(),
            source: String::new(),
            tags: Vec::new(),
            beatmap_id: 0,
            beatmap_set_id: 0,
        };
        assert(metadata@.tags =~= Seq::empty());
        metadata
    }
}

impl Default for Metadata {
    fn default() -> (metadata: Metadata)
        ensures
            metadata@ == default_metadata(),
    {
        Metadata::new()
    }
}

/// The metadata after a line of their section: where the key of the line is
/// one of the ten entries, that entry has the value of the line, the tags
/// being the parts of the value between its spaces and the two numbers what
/// the value writes; a line with another key changes nothing.
pub open spec fn metadata_after(m: MetadataView, line: Seq<char>) -> Result<
    MetadataView,
    DecodeError,
> {
    match key_value(line) {
        None => Err(malformed(Field::Line)),
        Some((key, value)) => if key == "Title"@ {
            Ok(MetadataView { title: value, ..m })
        } else if key == "TitleUnicode"@ {
            Ok(MetadataView { title_unicode: value, ..m })
        } else if key == "Artist"@ {
            Ok(MetadataView { artist: value, ..m })
        } else if key == "ArtistUnicode"@ {
            Ok(MetadataView { artist_unicode: value, ..m })
        } else if key == "Creator"@ {
            Ok(MetadataView { creator: value, ..m })
        } else if key == "Version"@ {
            Ok(MetadataView { version: value, ..m })
        } else if key == "Source"@ {
            Ok(MetadataView { source: value, ..m })
        } else if key == "Tags"@ {
            Ok(MetadataView { tags: pieces(value, ' '), ..m })
        } else if key == "BeatmapID"@ {
            match u32_in(value, Field::Value) {
                Err(e) => Err(e),
                Ok(beatmap_id) => Ok(MetadataView { beatmap_id, ..m }),
            }
        } else if key == "BeatmapSetID"@ {
            match u32_in(value, Field::Value) {
                Err(e) => Err(e),
                Ok(beatmap_set_id) => Ok(MetadataView { beatmap_set_id, ..m }),
            }
        } else {
            Ok(m)
        },
    }
}

/// What a line of the metadata section does to a beatmap.
pub open spec fn metadata_line(b: BeatmapView, line: Seq<char>) -> Result<
    BeatmapView,
    DecodeError,
> {
    match metadata_after(b.metadata, line) {
        Err(e) => Err(e),
        Ok(metadata) => Ok(BeatmapView { metadata, ..b }),
    }
}

/// Reads a line of the metadata section into the beatmap.
pub fn read_metadata(line: &[char], beatmap: &mut Beatmap) -> (r: Result<(), DecodeError>)
    ensures
        applies(r, old(beatmap)@, final(beatmap)@, metadata_line(old(beatmap)@, line@)),
{
    let (key, value) = match read_key_value(line) {
        Some(pair) => pair,
        None => { return Err(DecodeError::malformed(Field::Line)); },
    };
    if is_word(key, "Title") {
        beatmap.metadata.title = string_of(value);
    } else if is_word(key, "TitleUnicode") {
        beatmap.metadata.title_unicode = string_of(value);
    } else if is_word(key, "Artist") {
        beatmap.metadata.artist = string_of(value);
    } else if is_word(key, "ArtistUnicode") {
        beatmap.metadata.artist_unicode = string_of(value);
    } else if is_word(key, "Creator") {
        beatmap.metadata.creator = string_of(value);
    } else if is_word(key, "Version") {
        beatmap.metadata.version = string_of(value);
    } else if is_word(key, "Source") {
        beatmap.metadata.source = string_of(value);
    } else if is_word(key, "Tags") {
        let parts = split(value, ' ');
        beatmap.metadata.tags = strings_of(&parts);
    } else if is_word(key, "BeatmapID") {
        beatmap.metadata.beatmap_id = read_u32(value, Field::Value)?;
    } else if is_word(key, "BeatmapSetID") {
        beatmap.metadata.beatmap_set_id = read_u32(value, Field::Value)?;
    }
    Ok(())
}

/// Reads a line of the metadata section, from a string, into the beatmap.
pub fn parse_metadata(line: &str, beatmap: &mut Beatmap) -> (r: Result<(), DecodeError>)
    ensures
        applies(r, old(beatmap)@, final(beatmap)@, metadata_line(old(beatmap)@, line@)),
{
    let chars = chars_of(line);
    read_metadata(chars.as_slice(), beatmap)
}

} // verus!
