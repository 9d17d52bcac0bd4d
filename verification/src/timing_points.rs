use crate::error::{malformed, numeric, Field, DecodeError};
use crate::general::{sample_set_numbered, SampleSet};
use crate::number::{
    decimal_value, digit_value, digits_end, is_float, parse_u32, parse_u8, u32_of, u8_of,
    without_sign, FloatLiteral,
};
use crate::text::{chars_of, is_word, pieces, split, trim, trimmed, views};
use crate::{applies, timing_point_views, Beatmap, BeatmapView};
use vstd::prelude::*;

verus! {

/// The effects of a timing point.
#[derive(Debug, Clone, Copy, PartialEq, Eq, Structural)]
pub enum Effects {
    /// No effect that is known.
    NoEffect,
    Kiai,
    OmitFirstBarline,
    /// Both `Kiai` and `OmitFirstBarline`.
    All,
}

/// A timing point.
#[derive(Debug, PartialEq)]
pub struct TimingPoint {
    pub time: u32,
    /// The length of a beat in milliseconds; where it is negative, the point
    /// inherits its tempo and this is a multiplier of the slider velocity.
    pub beat_length: FloatLiteral,
    pub meter: u32,
    pub sample_set: SampleSet,
    pub sample_index: u32,
    pub volume: u32,
    pub uninherited: bool,
    pub effects: Effects,
}

/// What a `TimingPoint` holds.
pub struct TimingPointView {
    pub time: u32,
    pub beat_length: Seq<char>,
    pub meter: u32,
    pub sample_set: SampleSet,
    pub sample_index: u32,
    pub volume: u32,
    pub uninherited: bool,
    pub effects: Effects,
}

impl View for TimingPoint {
    type V = TimingPointView;

    open spec fn view(&self) -> TimingPointView {
        TimingPointView {
            time: self.time,
            beat_length: self.beat_length@,
            meter: self.meter,
            sample_set: self.sample_set,
            sample_index: self.sample_index,
            volume: self.volume,
            uninherited: self.uninherited,
            effects: self.effects,
        }
    }
}

/// The timing point that stands where none is given.
pub open spec fn default_timing_point() -> TimingPointView {
    TimingPointView {
        time: 0,
        beat_length: "500.0"@,
        meter: 4,
        sample_set: SampleSet::Default,
        sample_index: 0,
        volume: 100,
        uninherited: true,
        effects: Effects::NoEffect,
    }
}

impl TimingPoint {
    /// The timing point with these parts.
    pub fn new(
        time: u32,
        beat_length: FloatLiteral,
        meter: u32,
        sample_set: SampleSet,
        sample_index: u32,
        volume: u32,
        uninherited: bool,
        effects: Effects,
    ) -> (point: TimingPoint)
        ensures
            point.time == time,
            point.beat_length == beat_length,
            point.meter == meter,
            point.sample_set == sample_set,
            point.sample_index == sample_index,
            point.volume == volume,
            point.uninherited == uninherited,
            point.effects == effects,
    {
        Self { time, beat_length, meter, sample_set, sample_index, volume, uninherited, effects }
    }
}

impl Default for TimingPoint {
    fn default() -> (point: TimingPoint)
        ensures
            point@ == default_timing_point(),
    {
        proof {
            reveal_strlit("500.0");
            reveal_with_fuel(digits_end, 4);
        }
        TimingPoint::new(
            0,
            FloatLiteral::constant("500.0"),
            4,
            SampleSet::Default,
            0,
            100,
            true,
            Effects::NoEffect,
        )
    }
}

/// The error type of strum, of which nothing is known here but that it is
/// what `Effects::from_str` fails with.
#[verifier::external_type_specification]
#[verifier::external_body]
pub struct ExStrumParseError(strum::ParseError);

/// `strum::ParseError::VariantNotFound`: the error that strum has for a
/// string that names no variant. Nothing is claimed of it.
#[verifier::external_body]
fn variant_not_found() -> strum::ParseError {
    strum::ParseError::VariantNotFound
}

/// The effects that a string names: `0` none, `1` kiai, `8` the omitted first
/// barline, `9` both.
pub open spec fn effects_named(val: Seq<char>) -> Option<Effects> {
    if val == "0"@ {
        Some(Effects::NoEffect)
    } else if val == "1"@ {
        Some(Effects::Kiai)
    } else if val == "8"@ {
        Some(Effects::OmitFirstBarline)
    } else if val == "9"@ {
        Some(Effects::All)
    } else {
        None
    }
}

/// The effects that this number stands for: bit 0 is kiai, bit 3 the omitted
/// first barline. A number with any other bit set stands for no effect that
/// is known.
pub open spec fn effects_numbered(n: u32) -> Effects {
    if n == 1 {
        Effects::Kiai
    } else if n == 8 {
        Effects::OmitFirstBarline
    } else if n == 9 {
        Effects::All
    } else {
        Effects::NoEffect
    }
}

/// The effects that a string names are those that the number stands for
/// which the string writes.
pub proof fn lemma_effects_named(val: Seq<char>)
    ensures
        effects_named(val) matches Some(effects) ==> u32_of(val) matches Some(n)
            && effects_numbered(n) == effects,
{
    reveal_strlit("0");
    reveal_strlit("1");
    reveal_strlit("8");
    reveal_strlit("9");
    if effects_named(val) is Some {
        assert(decimal_value(val) == decimal_value(val.drop_last()) * 10 + digit_value(val.last()));
    }
}

impl Effects {
    /// The effects that `val` names, or strum's error where it names none.
    pub fn from_str(val: &str) -> (r: Result<Effects, strum::ParseError>)
        ensures
            match effects_named(val@) {
                Some(effects) => r == Ok::<Effects, strum::ParseError>(effects),
                None => r is Err,
            },
    {
        let chars = chars_of(val);
        let s = chars.as_slice();
        if is_word(s, "0") {
            Ok(Effects::NoEffect)
        } else if is_word(s, "1") {
            Ok(Effects::Kiai)
        } else if is_word(s, "8") {
            Ok(Effects::OmitFirstBarline)
        } else if is_word(s, "9") {
            Ok(Effects::All)
        } else {
            Err(variant_not_found())
        }
    }

    /// The effects that the number `n` stands for.
    pub fn from_number(n: u32) -> (effects: Effects)
        ensures
            effects == effects_numbered(n),
    {
        if n == 1 {
            Effects::Kiai
        } else if n == 8 {
            Effects::OmitFirstBarline
        } else if n == 9 {
            Effects::All
        } else {
            Effects::NoEffect
        }
    }
}

impl std::str::FromStr for Effects {
    type Err = strum::ParseError;

    /// The effects that `val` names, or strum's error where it names none.
    fn from_str(val: &str) -> (r: Result<Effects, strum::ParseError>)
        ensures
            match effects_named(val@) {
                Some(effects) => r == Ok::<Effects, strum::ParseError>(effects),
                None => r is Err,
            },
    {
        Effects::from_str(val)
    }
}

/// The timing point that `line` writes: eight parts divided by commas, each
/// taken without the white space around it. Parts after the eighth are passed
/// over.
pub open spec fn timing_point_of(line: Seq<char>) -> Result<TimingPointView, DecodeError> {
    let p = pieces(line, ',');
    if p.len() < 8 {
        Err(malformed(Field::Line))
    } else if u32_of(trimmed(p[0])) is None {
        Err(numeric(Field::Time))
    } else if !is_float(trimmed(p[1])) {
        Err(numeric(Field::BeatLength))
    } else if u32_of(trimmed(p[2])) is None {
        Err(numeric(Field::Meter))
    } else if u32_of(trimmed(p[3])) is None || sample_set_numbered(u32_of(trimmed(p[3])).unwrap())
        is None {
        Err(numeric(Field::SampleSet))
    } else if u32_of(trimmed(p[4])) is None {
        Err(numeric(Field::SampleIndex))
    } else if u32_of(trimmed(p[5])) is None {
        Err(numeric(Field::Volume))
    } else if u8_of(trimmed(p[6])) is None {
        Err(numeric(Field::Uninherited))
    } else if u32_of(trimmed(p[7])) is None {
        Err(numeric(Field::Effects))
    } else {
        Ok(
            TimingPointView {
                time: u32_of(trimmed(p[0])).unwrap(),
                beat_length: trimmed(p[1]),
                meter: u32_of(trimmed(p[2])).unwrap(),
                sample_set: sample_set_numbered(u32_of(trimmed(p[3])).unwrap()).unwrap(),
                sample_index: u32_of(trimmed(p[4])).unwrap(),
                volume: u32_of(trimmed(p[5])).unwrap(),
                uninherited: u8_of(trimmed(p[6])).unwrap() != 0,
                effects: effects_numbered(u32_of(trimmed(p[7])).unwrap()),
            },
        )
    }
}

/// What a line of the timing points does to a beatmap: the point that it
/// writes comes after those that the beatmap has.
pub open spec fn timing_points_line(b: BeatmapView, line: Seq<char>) -> Result<
    BeatmapView,
    DecodeError,
> {
    match timing_point_of(line) {
        Err(e) => Err(e),
        Ok(point) => Ok(BeatmapView { timing_points: b.timing_points.push(point), ..b }),
    }
}

/// Reads the number in part `i`, without the white space around it.
fn read_number(p: &Vec<&[char]>, i: usize, field: Field) -> (r: Result<u32, DecodeError>)
    requires
        i < p@.len(),
    ensures
        match u32_of(trimmed(views(p@)[i as int])) {
            Some(n) => r == Ok::<u32, DecodeError>(n),
            None => r == Err::<u32, DecodeError>(numeric(field)),
        },
{
    match parse_u32(trim(p[i])) {
        Some(n) => Ok(n),
        None => Err(DecodeError::numeric(field)),
    }
}

/// Reads the timing point that a line of the timing points writes.
pub fn read_timing_point(line: &[char]) -> (r: Result<TimingPoint, DecodeError>)
    ensures
        match r {
            Ok(point) => timing_point_of(line@) == Ok::<TimingPointView, DecodeError>(point@),
            Err(e) => timing_point_of(line@) == Err::<TimingPointView, DecodeError>(e),
        },
{
    let p = split(line, ',');
    if p.len() < 8 {
        return Err(DecodeError::malformed(Field::Line));
    }
    let time = read_number(&p, 0, Field::Time)?;
    let beat_length = match FloatLiteral::from_chars(trim(p[1])) {
        Some(f) => f,
        None => { return Err(DecodeError::numeric(Field::BeatLength)); },
    };
    let meter = read_number(&p, 2, Field::Meter)?;
    let sample_set = match read_number(&p, 3, Field::SampleSet) {
        Ok(n) => match SampleSet::from_number(n) {
            Some(set) => set,
            None => { return Err(DecodeError::numeric(Field::SampleSet)); },
        },
        Err(e) => { return Err(e); },
    };
    let sample_index = read_number(&p, 4, Field::SampleIndex)?;
    let volume = read_number(&p, 5, Field::Volume)?;
    let uninherited = match parse_u8(trim(p[6])) {
        Some(n) => n != 0,
        None => { return Err(DecodeError::numeric(Field::Uninherited)); },
    };
    let effects = Effects::from_number(read_number(&p, 7, Field::Effects)?);
    Ok(
        TimingPoint {
            time,
            beat_length,
            meter,
            sample_set,
            sample_index,
            volume,
            uninherited,
            effects,
        },
    )
}

/// Reads a line of the timing points and adds its point to the beatmap.
pub fn read_timing_points(line: &[char], beatmap: &mut Beatmap) -> (r: Result<(), DecodeError>)
    ensures
        applies(r, old(beatmap)@, final(beatmap)@, timing_points_line(old(beatmap)@, line@)),
{
    let point = read_timing_point(line)?;
    let ghost view = point@;
    beatmap.timing_points.push(point);
    assert(timing_point_views(beatmap.timing_points@) =~= timing_point_views(
        old(beatmap).timing_points@,
    ).push(view));
    Ok(())
}

/// Reads a line of the timing points, from a string, and adds its point to
/// the beatmap.
pub fn parse_timing_points(line: &str, beatmap: &mut Beatmap) -> (r: Result<(), DecodeError>)
    ensures
        applies(r, old(beatmap)@, final(beatmap)@, timing_points_line(old(beatmap)@, line@)),
{
    let chars = chars_of(line);
    read_timing_points(chars.as_slice(), beatmap)
}

} // verus!
