use crate::error::{malformed, numeric, DecodeError, Field};
use crate::fields::{key_value, read_float, read_key_value};
use crate::number::{digits_end, is_float, FloatLiteral};
use crate::text::{chars_of, is_word};
use crate::{applies, Beatmap, BeatmapView};
use vstd::prelude::*;

verus! {

/// The difficulty settings.
#[derive(Debug, PartialEq)]
pub struct Difficulty {
    pub hp: FloatLiteral,
    pub cs: FloatLiteral,
    pub od: FloatLiteral,
    pub ar: FloatLiteral,
    pub slider_multiplier: FloatLiteral,
    pub slider_tickrate: FloatLiteral,
}

/// What a `Difficulty` holds.
pub struct DifficultyView {
    pub hp: Seq<char>,
    pub cs: Seq<char>,
    pub od: Seq<char>,
    pub ar: Seq<char>,
    pub slider_multiplier: Seq<char>,
    pub slider_tickrate: Seq<char>,
}

impl View for Difficulty {
    type V = DifficultyView;

    open spec fn view(&self) -> DifficultyView {
        DifficultyView {
            hp: self.hp@,
            cs: self.cs@,
            od: self.od@,
            ar: self.ar@,
            slider_multiplier: self.slider_multiplier@,
            slider_tickrate: self.slider_tickrate@,
        }
    }
}

/// The difficulty of a file that sets none.
pub open spec fn default_difficulty() -> DifficultyView {
    DifficultyView {
        hp: "5.0"@,
        cs: "5.0"@,
        od: "5.0"@,
        ar: "5.0"@,
        slider_multiplier: "1.0"@,
        slider_tickrate: "1.4"@,
    }
}

impl Difficulty {
    /// The difficulty with these settings.
    pub fn new(
        hp: FloatLiteral,
        cs: FloatLiteral,
        od: FloatLiteral,
        ar: FloatLiteral,
        slider_multiplier: FloatLiteral,
        slider_tickrate: FloatLiteral,
    ) -> (difficulty: Difficulty)
        ensures
            difficulty.hp == hp,
            difficulty.cs == cs,
            difficulty.od == od,
            difficulty.ar == ar,
            difficulty.slider_multiplier == slider_multiplier,
            difficulty.slider_tickrate == slider_tickrate,
    {
        Self { hp, cs, od, ar, slider_multiplier, slider_tickrate }
    }
}

impl Default for Difficulty {
    fn default() -> (difficulty: Difficulty)
        ensures
            difficulty@ == default_difficulty(),
    {
        proof {
            reveal_strlit("5.0");
            reveal_strlit("1.0");
            reveal_strlit("1.4");
            reveal_with_fuel(digits_end, 3);
        }
        Self {
            hp: FloatLiteral::constant("5.0"),
            cs: FloatLiteral::constant("5.0"),
            od: FloatLiteral::constant("5.0"),
            ar: FloatLiteral::constant("5.0"),
            slider_multiplier: FloatLiteral::constant("1.0"),
            slider_tickrate: FloatLiteral::constant("1.4"),
        }
    }
}

/// The difficulty after a line of its section: where the key of the line is
/// one of the six settings, that setting has the value of the line, which
/// writes a floating-point number; a line with another key changes nothing.
pub open spec fn difficulty_after(d: DifficultyView, line: Seq<char>) -> Result<
    DifficultyView,
    DecodeError,
> {
    match key_value(line) {
        None => Err(malformed(Field::Line)),
        Some((key, value)) => {
            let known = key == "HPDrainRate"@ || key == "CircleSize"@ || key
                == "OverallDifficulty"@ || key == "ApproachRate"@ || key == "SliderMultiplier"@
                || key == "SliderTickRate"@;
            if !known {
                Ok(d)
            } else if !is_float(value) {
                Err(numeric(Field::Value))
            } else if key == "HPDrainRate"@ {
                Ok(DifficultyView { hp: value, ..d })
            } else if key == "CircleSize"@ {
                Ok(DifficultyView { cs: value, ..d })
            } else if key == "OverallDifficulty"@ {
                Ok(DifficultyView { od: value, ..d })
            } else if key == "ApproachRate"@ {
                Ok(DifficultyView { ar: value, ..d })
            } else if key == "SliderMultiplier"@ {
                Ok(DifficultyView { slider_multiplier: value, ..d })
            } else {
                Ok(DifficultyView { slider_tickrate: value, ..d })
            }
        },
    }
}

/// What a line of the difficulty section does to a beatmap.
pub open spec fn difficulty_line(b: BeatmapView, line: Seq<char>) -> Result<
    BeatmapView,
    DecodeError,
> {
    match difficulty_after(b.difficulty, line) {
        Err(e) => Err(e),
        Ok(difficulty) => Ok(BeatmapView { difficulty, ..b }),
    }
}

/// Reads a line of the difficulty section into the beatmap.
pub fn read_difficulty(line: &[char], beatmap: &mut Beatmap) -> (r: Result<(), DecodeError>)
    ensures
        applies(r, old(beatmap)@, final(beatmap)@, difficulty_line(old(beatmap)@, line@)),
{
    let (key, value) = match read_key_value(line) {
        Some(pair) => pair,
        None => { return Err(DecodeError::malformed(Field::Line)); },
    };
    if is_word(key, "HPDrainRate") {
        beatmap.difficulty.hp = read_float(value, Field::Value)?;
    } else if is_word(key, "CircleSize") {
        beatmap.difficulty.cs = read_float(value, Field::Value)?;
    } else if is_word(key, "OverallDifficulty") {
        beatmap.difficulty.od = read_float(value, Field::Value)?;
    } else if is_word(key, "ApproachRate") {
        beatmap.difficulty.ar = read_float(value, Field::Value)?;
    } else if is_word(key, "SliderMultiplier") {
        beatmap.difficulty.slider_multiplier = read_float(value, Field::Value)?;
    } else if is_word(key, "SliderTickRate") {
        beatmap.difficulty.slider_tickrate = read_float(value, Field::Value)?;
    }
    Ok(())
}

/// Reads a line of the difficulty section, from a string, into the beatmap.
pub fn parse_difficulty(line: &str, beatmap: &mut Beatmap) -> (r: Result<(), DecodeError>)
    ensures
        applies(r, old(beatmap)@, final(beatmap)@, difficulty_line(old(beatmap)@, line@)),
{
    let chars = chars_of(line);
    read_difficulty(chars.as_slice(), beatmap)
}

} // verus!
