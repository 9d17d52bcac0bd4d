use crate::error::{malformed, DecodeError, Field};
use crate::fields::{
    flag_in, float_in, i32_in, key_value, read_flag, read_float, read_i32, read_key_value,
    read_u32, u32_in,
};
use crate::number::{digits_end, FloatLiteral};
use crate::text::{chars_of, is_word, string_of};
use crate::{applies, Beatmap, BeatmapView};
use vstd::prelude::*;

verus! {

/// The sample sets.
#[derive(Debug, Clone, Copy, PartialEq, Eq, Structural)]
pub enum SampleSet {
    Default,
    Normal,
    Soft,
    Drum,
}

/// The sample set of this number: 0 the default, 1 normal, 2 soft, 3 drum.
pub open spec fn sample_set_numbered(n: u32) -> Option<SampleSet> {
    if n == 0 {
        Some(SampleSet::Default)
    } else if n == 1 {
        Some(SampleSet::Normal)
    } else if n == 2 {
        Some(SampleSet::Soft)
    } else if n == 3 {
        Some(SampleSet::Drum)
    } else {
        None
    }
}

impl SampleSet {
    /// The sample set of this number.
    pub fn from_number(n: u32) -> (r: Option<SampleSet>)
        ensures
            r == sample_set_numbered(n),
    {
        if n == 0 {
            Some(SampleSet::Default)
        } else if n == 1 {
            Some(SampleSet::Normal)
        } else if n == 2 {
            Some(SampleSet::Soft)
        } else if n == 3 {
            Some(SampleSet::Drum)
        } else {
            None
        }
    }
}

/// The general settings.
#[derive(Debug, PartialEq)]
pub struct General {
    pub audio_filename: String,
    pub audio_lead_in: u32,
    pub audio_hash: String,
    pub preview_time: i32,
    pub countdown: u32,
    pub sample_set: String,
    pub stack_leniency: FloatLiteral,
    pub mode: u32,
    pub letterbox_in_breaks: bool,
    pub story_fire_in_front: bool,
    pub use_skin_sprites: bool,
    pub always_show_playfield: bool,
    pub overlay_position: String,
    pub skin_preference: String,
    pub epilepsy_warning: bool,
    pub countdown_offset: u32,
    pub special_style: bool,
    pub widescreen_storyboard: bool,
    pub samples_match_playback_rate: bool,
}

/// What a `General` holds.
pub struct GeneralView {
    pub audio_filename: Seq<char>,
    pub audio_lead_in: u32,
    pub audio_hash: Seq<char>,
    pub preview_time: i32,
    pub countdown: u32,
    pub sample_set: Seq<char>,
    pub stack_leniency: Seq<char>,
    pub mode: u32,
    pub letterbox_in_breaks: bool,
    pub story_fire_in_front: bool,
    pub use_skin_sprites: bool,
    pub always_show_playfield: bool,
    pub overlay_position: Seq<char>,
    pub skin_preference: Seq<char>,
    pub epilepsy_warning: bool,
    pub countdown_offset: u32,
    pub special_style: bool,
    pub widescreen_storyboard: bool,
    pub samples_match_playback_rate: bool,
}

impl View for General {
    type V = GeneralView;

    open spec fn view(&self) -> GeneralView {
        GeneralView {
            audio_filename: self.audio_filename@,
            audio_lead_in: self.audio_lead_in,
            audio_hash: self.audio_hash@,
            preview_time: self.preview_time,
            countdown: self.countdown,
            sample_set: self.sample_set@,
            stack_leniency: self.stack_leniency@,
            mode: self.mode,
            letterbox_in_breaks: self.letterbox_in_breaks,
            story_fire_in_front: self.story_fire_in_front,
            use_skin_sprites: self.use_skin_sprites,
            always_show_playfield: self.always_show_playfield,
            overlay_position: self.overlay_position@,
            skin_preference: self.skin_preference@,
            epilepsy_warning: self.epilepsy_warning,
            countdown_offset: self.countdown_offset,
            special_style: self.special_style,
            widescreen_storyboard: self.widescreen_storyboard,
            samples_match_playback_rate: self.samples_match_playback_rate,
        }
    }
}

/// The general settings of a file that sets none.
pub open spec fn default_general() -> GeneralView {
    GeneralView {
        audio_filename: Seq::empty(),
        audio_lead_in: 0,
        audio_hash: Seq::empty(),
        preview_time: -1i32,
        countdown: 1,
        sample_set: "Normal"@,
        stack_leniency: "0.7"@,
        mode: 0,
        letterbox_in_breaks: false,
        story_fire_in_front: true,
        use_skin_sprites: false,
        always_show_playfield: false,
        overlay_position: "NoChange"@,
        skin_preference: Seq::empty(),
        epilepsy_warning: false,
        countdown_offset: 0,
        special_style: false,
        widescreen_storyboard: false,
        samples_match_playback_rate: false,
    }
}

impl General {
    /// The general settings of a file that sets none.
    pub fn new() -> (general: General)
        ensures
            general@ == default_general(),
    {
        proof {
            reveal_strlit("0.7");
            reveal_with_fuel(digits_end, 3);
        }
        General {
            audio_filename: String::new(),
            audio_lead_in: 0,
            audio_hash: String::new(),
            preview_time: -1,
            countdown: 1,
            sample_set: "Normal".to_owned(),
            stack_leniency: FloatLiteral::constant("0.7"),
            mode: 0,
            letterbox_in_breaks: false,
            story_fire_in_front: true,
            use_skin_sprites: false,
            always_show_playfield: false,
            overlay_position: "NoChange".to_owned(),
            skin_preference: String::new(),
            epilepsy_warning: false,
            countdown_offset: 0,
            special_style: false,
            widescreen_storyboard: false,
            samples_match_playback_rate: false,
        }
    }
}

impl Default for General {
    fn default() -> (general: General)
        ensures
            general@ == default_general(),
    {
        General::new()
    }
}

/// The settings with the text `value` under `key`, where `key` is one of the
/// five settings that are texts.
pub open spec fn with_text(g: GeneralView, key: Seq<char>, value: Seq<char>) -> Option<
    GeneralView,
> {
    if key == "AudioFilename"@ {
        Some(GeneralView { audio_filename: value, ..g })
    } else if key == "AudioHash"@ {
        Some(GeneralView { audio_hash: value, ..g })
    } else if key == "SampleSet"@ {
        Some(GeneralView { sample_set: value, ..g })
    } else if key == "OverlayPosition"@ {
        Some(GeneralView { overlay_position: value, ..g })
    } else if key == "SkinPreference"@ {
        Some(GeneralView { skin_preference: value, ..g })
    } else {
        None
    }
}

/// The settings with the number that `value` writes under `key`, or the error
/// of a value that writes none, where `key` is one of the six settings that
/// are numbers.
pub open spec fn with_number(g: GeneralView, key: Seq<char>, value: Seq<char>) -> Option<
    Result<GeneralView, DecodeError>,
> {
    if key == "AudioLeadIn"@ {
        Some(
            match u32_in(value, Field::Value) {
                Err(e) => Err(e),
                Ok(audio_lead_in) => Ok(GeneralView { audio_lead_in, ..g }),
            },
        )
    } else if key == "PreviewTime"@ {
        Some(
            match i32_in(value, Field::Value) {
                Err(e) => Err(e),
                Ok(preview_time) => Ok(GeneralView { preview_time, ..g }),
            },
        )
    } else if key == "Countdown"@ {
        Some(
            match u32_in(value, Field::Value) {
                Err(e) => Err(e),
                Ok(countdown) => Ok(GeneralView { countdown, ..g }),
            },
        )
    } else if key == "StackLeniency"@ {
        Some(
            match float_in(value, Field::Value) {
                Err(e) => Err(e),
                Ok(stack_leniency) => Ok(GeneralView { stack_leniency, ..g }),
            },
        )
    } else if key == "Mode"@ {
        Some(
            match u32_in(value, Field::Value) {
                Err(e) => Err(e),
                Ok(mode) => Ok(GeneralView { mode, ..g }),
            },
        )
    } else if key == "CountdownOffset"@ {
        Some(
            match u32_in(value, Field::Value) {
                Err(e) => Err(e),
                Ok(countdown_offset) => Ok(GeneralView { countdown_offset, ..g }),
            },
        )
    } else {
        None
    }
}

/// The settings with `flag` under `key`, where `key` is one of the eight
/// settings that are flags.
pub open spec fn with_flag(g: GeneralView, key: Seq<char>, flag: bool) -> Option<GeneralView> {
    if key == "LetterboxInBreaks"@ {
        Some(GeneralView { letterbox_in_breaks: flag, ..g })
    } else if key == "StoryFireInFront"@ {
        Some(GeneralView { story_fire_in_front: flag, ..g })
    } else if key == "UseSkinSprites"@ {
        Some(GeneralView { use_skin_sprites: flag, ..g })
    } else if key == "AlwaysShowPlayfield"@ {
        Some(GeneralView { always_show_playfield: flag, ..g })
    } else if key == "EpilepsyWarning"@ {
        Some(GeneralView { epilepsy_warning: flag, ..g })
    } else if key == "SpecialStyle"@ {
        Some(GeneralView { special_style: flag, ..g })
    } else if key == "WidescreenStoryboard"@ {
        Some(GeneralView { widescreen_storyboard: flag, ..g })
    } else if key == "SamplesMatchPlaybackRate"@ {
        Some(GeneralView { samples_match_playback_rate: flag, ..g })
    } else {
        None
    }
}

/// The general settings after a line of their section: where the key of the
/// line is one of the nineteen settings, that setting has what the value of
/// the line writes, a text as it stands, a number or a floating-point number
/// as written, a flag set by any 8-bit number but zero; a line with another
/// key changes nothing.
pub open spec fn general_after(g: GeneralView, line: Seq<char>) -> Result<
    GeneralView,
    DecodeError,
> {
    match key_value(line) {
        None => Err(malformed(Field::Line)),
        Some((key, value)) => if with_text(g, key, value) is Some {
            Ok(with_text(g, key, value).unwrap())
        } else if with_number(g, key, value) is Some {
            with_number(g, key, value).unwrap()
        } else if with_flag(g, key, false) is Some {
            match flag_in(value, Field::Value) {
                Err(e) => Err(e),
                Ok(flag) => Ok(with_flag(g, key, flag).unwrap()),
            }
        } else {
            Ok(g)
        },
    }
}

/// What a line of the general section does to a beatmap.
pub open spec fn general_line(b: BeatmapView, line: Seq<char>) -> Result<BeatmapView, DecodeError> {
    match general_after(b.general, line) {
        Err(e) => Err(e),
        Ok(general) => Ok(BeatmapView { general, ..b }),
    }
}

impl General {
    /// Sets the text under `key`, and says whether `key` is such a setting.
    fn set_text(&mut self, key: &[char], value: &[char]) -> (found: bool)
        ensures
            match with_text(old(self)@, key@, value@) {
                Some(g) => found && final(self)@ == g,
                None => !found && final(self)@ == old(self)@,
            },
    {
        if is_word(key, "AudioFilename") {
            self.audio_filename = string_of(value);
            true
        } else if is_word(key, "AudioHash") {
            self.audio_hash = string_of(value);
            true
        } else if is_word(key, "SampleSet") {
            self.sample_set = string_of(value);
            true
        } else if is_word(key, "OverlayPosition") {
            self.overlay_position = string_of(value);
            true
        } else if is_word(key, "SkinPreference") {
            self.skin_preference = string_of(value);
            true
        } else {
            false
        }
    }

    /// Sets the number under `key`, and says whether `key` is such a setting
    /// and the value a number.
    fn set_number(&mut self, key: &[char], value: &[char]) -> (r: Option<Result<(), DecodeError>>)
        ensures
            match with_number(old(self)@, key@, value@) {
                Some(Ok(g)) => r == Some(Ok::<(), DecodeError>(())) && final(self)@ == g,
                Some(Err(e)) => r == Some(Err::<(), DecodeError>(e)) && final(self)@ == old(
                    self,
                )@,
                None => r is None && final(self)@ == old(self)@,
            },
    {
        if is_word(key, "AudioLeadIn") {
            match read_u32(value, Field::Value) {
                Ok(audio_lead_in) => {
                    self.audio_lead_in = audio_lead_in;
                    Some(Ok(()))
                },
                Err(e) => Some(Err(e)),
            }
        } else if is_word(key, "PreviewTime") {
            match read_i32(value, Field::Value) {
                Ok(preview_time) => {
                    self.preview_time = preview_time;
                    Some(Ok(()))
                },
                Err(e) => Some(Err(e)),
            }
        } else if is_word(key, "Countdown") {
            match read_u32(value, Field::Value) {
                Ok(countdown) => {
                    self.countdown = countdown;
                    Some(Ok(()))
                },
                Err(e) => Some(Err(e)),
            }
        } else if is_word(key, "StackLeniency") {
            match read_float(value, Field::Value) {
                Ok(stack_leniency) => {
                    self.stack_leniency = stack_leniency;
                    Some(Ok(()))
                },
                Err(e) => Some(Err(e)),
            }
        } else if is_word(key, "Mode") {
            match read_u32(value, Field::Value) {
                Ok(mode) => {
                    self.mode = mode;
                    Some(Ok(()))
                },
                Err(e) => Some(Err(e)),
            }
        } else if is_word(key, "CountdownOffset") {
            match read_u32(value, Field::Value) {
                Ok(countdown_offset) => {
                    self.countdown_offset = countdown_offset;
                    Some(Ok(()))
                },
                Err(e) => Some(Err(e)),
            }
        } else {
            None
        }
    }

    /// Whether `key` is a setting that is a flag.
    fn is_flag(key: &[char]) -> (found: bool)
        ensures
            forall|g: GeneralView, flag: bool|
                found == (#[trigger] with_flag(g, key@, flag) is Some),
    {
        is_word(key, "LetterboxInBreaks")
            || is_word(key, "StoryFireInFront")
            || is_word(key, "UseSkinSprites")
            || is_word(key, "AlwaysShowPlayfield")
            || is_word(key, "EpilepsyWarning")
            || is_word(key, "SpecialStyle")
            || is_word(key, "WidescreenStoryboard")
            || is_word(key, "SamplesMatchPlaybackRate")
    }

    /// Sets the flag under `key`, and says whether `key` is such a setting.
    fn set_flag(&mut self, key: &[char], flag: bool) -> (found: bool)
        ensures
            match with_flag(old(self)@, key@, flag) {
                Some(g) => found && final(self)@ == g,
                None => !found && final(self)@ == old(self)@,
            },
    {
        if is_word(key, "LetterboxInBreaks") {
            self.letterbox_in_breaks = flag;
            true
        } else if is_word(key, "StoryFireInFront") {
            self.story_fire_in_front = flag;
            true
        } else if is_word(key, "UseSkinSprites") {
            self.use_skin_sprites = flag;
            true
        } else if is_word(key, "AlwaysShowPlayfield") {
            self.always_show_playfield = flag;
            true
        } else if is_word(key, "EpilepsyWarning") {
            self.epilepsy_warning = flag;
            true
        } else if is_word(key, "SpecialStyle") {
            self.special_style = flag;
            true
        } else if is_word(key, "WidescreenStoryboard") {
            self.widescreen_storyboard = flag;
            true
        } else if is_word(key, "SamplesMatchPlaybackRate") {
            self.samples_match_playback_rate = flag;
            true
        } else {
            false
        }
    }

    /// Reads a line of the general section into these settings.
    pub fn read_line(&mut self, line: &[char]) -> (r: Result<(), DecodeError>)
        ensures
            match r {
                Ok(_) => general_after(old(self)@, line@) == Ok::<GeneralView, DecodeError>(
                    final(self)@,
                ),
                Err(e) => general_after(old(self)@, line@) == Err::<GeneralView, DecodeError>(e)
                    && final(self)@ == old(self)@,
            },
    {
        let (key, value) = match read_key_value(line) {
            Some(pair) => pair,
            None => { return Err(DecodeError::malformed(Field::Line)); },
        };
        if self.set_text(key, value) {
            return Ok(());
        }
        match self.set_number(key, value) {
            Some(r) => { return r; },
            None => {},
        }
        if General::is_flag(key) {
            let flag = read_flag(value, Field::Value)?;
            self.set_flag(key, flag);
        }
        Ok(())
    }
}

/// Reads a line of the general section into the beatmap.
pub fn read_general(line: &[char], beatmap: &mut Beatmap) -> (r: Result<(), DecodeError>)
    ensures
        applies(r, old(beatmap)@, final(beatmap)@, general_line(old(beatmap)@, line@)),
{
    beatmap.general.read_line(line)
}

/// Reads a line of the general section, from a string, into the beatmap.
pub fn parse_general(line: &str, beatmap: &mut Beatmap) -> (r: Result<(), DecodeError>)
    ensures
        applies(r, old(beatmap)@, final(beatmap)@, general_line(old(beatmap)@, line@)),
{
    let chars = chars_of(line);
    read_general(chars.as_slice(), beatmap)
}

} // verus!
