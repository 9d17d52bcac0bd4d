use crate::error::{malformed, missing, numeric, DecodeError, ErrorKind, Field};
use crate::fields::{
    each, lemma_each_error, lemma_each_next, read_i32, read_u32, u32_in, yields,
};
use crate::number::{
    i32_of, is_unsigned_float, is_unsigned_float_text, parse_i32, parse_u32, u32_of, FloatLiteral,
};
use crate::text::{
    chars_of, halves, lemma_pieces, pieces, split, split_once, string_of, trim, trimmed,
    views,
};
use crate::{applies, hit_object_views, Beatmap, BeatmapView};
use vstd::prelude::*;

verus! {

/// The four kinds of hit object.
#[derive(Debug, Clone, Copy, PartialEq, Eq, Structural)]
pub enum ObjectKind {
    Circle,
    Slider,
    Spinner,
    Hold,
}

/// The shape of a slider's curve.
#[derive(Debug, Clone, Copy, PartialEq, Eq, Structural)]
pub enum CurveType {
    Linear,
    Bezier,
    Perfect,
    Catmull,
}

/// The sample that a hit object plays.
#[derive(Debug, PartialEq)]
pub struct HitSample {
    pub normal_set: u32,
    pub addition_set: u32,
    pub index: u32,
    pub volume: u32,
    /// The name of a sample file; empty for the default sample.
    pub filename: String,
}

/// What a `HitSample` holds.
pub struct HitSampleView {
    pub normal_set: u32,
    pub addition_set: u32,
    pub index: u32,
    pub volume: u32,
    pub filename: Seq<char>,
}

impl View for HitSample {
    type V = HitSampleView;

    open spec fn view(&self) -> HitSampleView {
        HitSampleView {
            normal_set: self.normal_set,
            addition_set: self.addition_set,
            index: self.index,
            volume: self.volume,
            filename: self.filename@,
        }
    }
}

/// The sample of a hit object that names none: zero throughout, and no file
/// name.
pub open spec fn default_sample() -> HitSampleView {
    HitSampleView { normal_set: 0, addition_set: 0, index: 0, volume: 0, filename: Seq::empty() }
}

impl Default for HitSample {
    fn default() -> (r: HitSample)
        ensures
            r@ == default_sample(),
    {
        HitSample { normal_set: 0, addition_set: 0, index: 0, volume: 0, filename: String::new() }
    }
}

/// A circle: an object that is hit once.
#[derive(Debug, PartialEq)]
pub struct HitCircle {
    pub position_x: i32,
    pub position_y: i32,
    pub new_combo: bool,
    pub color_skip: u32,
    pub time: u32,
    pub hitsound: u32,
    pub hit_sample: HitSample,
}

/// A slider: an object that is followed along a curve, back and forth
/// `slides` times.
#[derive(Debug, PartialEq)]
pub struct Slider {
    pub position_x: i32,
    pub position_y: i32,
    pub new_combo: bool,
    pub color_skip: u32,
    pub time: u32,
    pub hitsound: u32,
    pub curve_type: CurveType,
    pub curve_points: Vec<(i32, i32)>,
    pub slides: u32,
    /// The length of the curve in pixels.
    pub length: FloatLiteral,
    pub edge_sounds: Vec<u32>,
    pub edge_additions: Vec<(u32, u32)>,
    pub hit_sample: HitSample,
}

/// A spinner: an object that is spun until `end_time`.
#[derive(Debug, PartialEq)]
pub struct Spinner {
    pub position_x: i32,
    pub position_y: i32,
    pub new_combo: bool,
    pub color_skip: u32,
    pub time: u32,
    pub hitsound: u32,
    pub end_time: u32,
    pub hit_sample: HitSample,
}

/// A hold: a key that is held down until `end_time`.
#[derive(Debug, PartialEq)]
pub struct ManiaHold {
    pub position_x: i32,
    pub position_y: i32,
    pub new_combo: bool,
    pub color_skip: u32,
    pub time: u32,
    pub hitsound: u32,
    pub end_time: u32,
    pub hit_sample: HitSample,
}

/// A hit object of one of the four kinds.
#[derive(Debug, PartialEq)]
pub enum HitObject {
    HitCircle(HitCircle),
    Slider(Slider),
    Spinner(Spinner),
    ManiaHold(ManiaHold),
}

/// What every hit object has: where it is, when it comes, and what the type
/// bits and the hitsound say.
#[derive(Debug, Clone, Copy, PartialEq, Eq, Structural)]
pub struct Head {
    pub position_x: i32,
    pub position_y: i32,
    pub time: u32,
    pub new_combo: bool,
    pub color_skip: u32,
    pub hitsound: u32,
}

/// What a hit object has by its kind.
pub enum Shape {
    Circle,
    Slider {
        curve_type: CurveType,
        curve_points: Seq<(i32, i32)>,
        slides: u32,
        length: Seq<char>,
        edge_sounds: Seq<u32>,
        edge_additions: Seq<(u32, u32)>,
    },
    Spinner { end_time: u32 },
    Hold { end_time: u32 },
}

/// What a hit object holds.
pub struct HitObjectView {
    pub head: Head,
    pub shape: Shape,
    pub hit_sample: HitSampleView,
}

impl View for HitCircle {
    type V = HitObjectView;

    open spec fn view(&self) -> HitObjectView {
        HitObjectView {
            head: Head {
                position_x: self.position_x,
                position_y: self.position_y,
                time: self.time,
                new_combo: self.new_combo,
                color_skip: self.color_skip,
                hitsound: self.hitsound,
            },
            shape: Shape::Circle,
            hit_sample: self.hit_sample@,
        }
    }
}

impl View for Slider {
    type V = HitObjectView;

    open spec fn view(&self) -> HitObjectView {
        HitObjectView {
            head: Head {
                position_x: self.position_x,
                position_y: self.position_y,
                time: self.time,
                new_combo: self.new_combo,
                color_skip: self.color_skip,
                hitsound: self.hitsound,
            },
            shape: Shape::Slider {
                curve_type: self.curve_type,
                curve_points: self.curve_points@,
                slides: self.slides,
                length: self.length@,
                edge_sounds: self.edge_sounds@,
                edge_additions: self.edge_additions@,
            },
            hit_sample: self.hit_sample@,
        }
    }
}

impl View for Spinner {
    type V = HitObjectView;

    open spec fn view(&self) -> HitObjectView {
        HitObjectView {
            head: Head {
                position_x: self.position_x,
                position_y: self.position_y,
                time: self.time,
                new_combo: self.new_combo,
                color_skip: self.color_skip,
                hitsound: self.hitsound,
            },
            shape: Shape::Spinner { end_time: self.end_time },
            hit_sample: self.hit_sample@,
        }
    }
}

impl View for ManiaHold {
    type V = HitObjectView;

    open spec fn view(&self) -> HitObjectView {
        HitObjectView {
            head: Head {
                position_x: self.position_x,
                position_y: self.position_y,
                time: self.time,
                new_combo: self.new_combo,
                color_skip: self.color_skip,
                hitsound: self.hitsound,
            },
            shape: Shape::Hold { end_time: self.end_time },
            hit_sample: self.hit_sample@,
        }
    }
}

impl View for HitObject {
    type V = HitObjectView;

    open spec fn view(&self) -> HitObjectView {
        match self {
            HitObject::HitCircle(o) => o@,
            HitObject::Slider(o) => o@,
            HitObject::Spinner(o) => o@,
            HitObject::ManiaHold(o) => o@,
        }
    }
}

/// The kind of an object of this shape.
pub open spec fn kind_of_shape(shape: Shape) -> ObjectKind {
    match shape {
        Shape::Circle => ObjectKind::Circle,
        Shape::Slider { .. } => ObjectKind::Slider,
        Shape::Spinner { .. } => ObjectKind::Spinner,
        Shape::Hold { .. } => ObjectKind::Hold,
    }
}

/// What holds of every hit object that a line writes: it skips at most 7
/// colours; a slider slides at least once, has one hitsound and one pair of
/// sample sets for each of its edges, which are one more than its slides, and
/// a length that writes a floating-point number not below zero; a spinner
/// does not end before it begins.
pub open spec fn well_formed(o: HitObjectView) -> bool {
    &&& o.head.color_skip <= 7
    &&& match o.shape {
        Shape::Slider { slides, length, edge_sounds, edge_additions, .. } => {
            &&& slides >= 1
            &&& edge_sounds.len() == slides + 1
            &&& edge_additions.len() == slides + 1
            &&& is_unsigned_float(length)
        },
        Shape::Spinner { end_time } => end_time >= o.head.time,
        _ => true,
    }
}

/// Whether bit `k` of `bits` is set, bit 0 being the lowest.
pub open spec fn has_bit(bits: u32, k: u32) -> bool {
    (bits >> k) & 1 == 1
}

/// The error of type bits that name no kind, or more than one.
pub open spec fn unknown_kind() -> DecodeError {
    DecodeError { kind: ErrorKind::UnknownObjectKind, field: Field::ObjectType }
}

/// The kind that the type bits name: bit 0 a circle, bit 1 a slider, bit 3 a
/// spinner, bit 7 a hold, where exactly one of these four is set.
pub open spec fn kind_of(bits: u32) -> Option<ObjectKind> {
    let circle = has_bit(bits, 0);
    let slider = has_bit(bits, 1);
    let spinner = has_bit(bits, 3);
    let hold = has_bit(bits, 7);
    if circle && !slider && !spinner && !hold {
        Some(ObjectKind::Circle)
    } else if !circle && slider && !spinner && !hold {
        Some(ObjectKind::Slider)
    } else if !circle && !slider && spinner && !hold {
        Some(ObjectKind::Spinner)
    } else if !circle && !slider && !spinner && hold {
        Some(ObjectKind::Hold)
    } else {
        None
    }
}

/// Whether the type bits start a new combo: bit 2.
pub open spec fn new_combo_of(bits: u32) -> bool {
    has_bit(bits, 2)
}

/// The number of combo colours that the type bits skip: bits 4 to 6.
pub open spec fn color_skip_of(bits: u32) -> u32 {
    (bits >> 4) & 0b111
}

/// The type bits of an object of `kind` that starts a new combo or not and
/// skips `color_skip` colours.
pub open spec fn type_bits(kind: ObjectKind, new_combo: bool, color_skip: u32) -> u32 {
    let kind_bit: u32 = match kind {
        ObjectKind::Circle => 0b0000_0001,
        ObjectKind::Slider => 0b0000_0010,
        ObjectKind::Spinner => 0b0000_1000,
        ObjectKind::Hold => 0b1000_0000,
    };
    let combo_bit: u32 = if new_combo {
        0b0000_0100
    } else {
        0
    };
    kind_bit | combo_bit | (color_skip << 4)
}

/// Type bits made from a kind, a combo flag and a colour skip of at most 7
/// give back all three.
pub proof fn lemma_type_bits_round_trip(kind: ObjectKind, new_combo: bool, color_skip: u32)
    requires
        color_skip <= 7,
    ensures
        kind_of(type_bits(kind, new_combo, color_skip)) == Some(kind),
        new_combo_of(type_bits(kind, new_combo, color_skip)) == new_combo,
        color_skip_of(type_bits(kind, new_combo, color_skip)) == color_skip,
{
    let k: u32 = match kind {
        ObjectKind::Circle => 0b0000_0001,
        ObjectKind::Slider => 0b0000_0010,
        ObjectKind::Spinner => 0b0000_1000,
        ObjectKind::Hold => 0b1000_0000,
    };
    let c: u32 = if new_combo {
        0b0000_0100
    } else {
        0
    };
    let s = color_skip;
    assert((k == 1 || k == 2 || k == 8 || k == 128) && (c == 0 || c == 4) && s <= 7 ==> {
        let b = k | c | (s << 4);
        &&& ((b >> 0) & 1 == 1) == (k == 1)
        &&& ((b >> 1) & 1 == 1) == (k == 2)
        &&& ((b >> 3) & 1 == 1) == (k == 8)
        &&& ((b >> 7) & 1 == 1) == (k == 128)
        &&& ((b >> 2) & 1 == 1) == (c == 4)
        &&& (b >> 4) & 0b111 == s
    }) by (bit_vector);
}

/// The kind that the type bits name, or the error of bits that name none or
/// more than one.
pub fn decode_kind(bits: u32) -> (r: Result<ObjectKind, DecodeError>)
    ensures
        match kind_of(bits) {
            Some(kind) => r == Ok::<ObjectKind, DecodeError>(kind),
            None => r == Err::<ObjectKind, DecodeError>(unknown_kind()),
        },
{
    let masked: u32 = bits & 0b1000_1011;
    assert({
        &&& (bits & 0b1000_1011 == 1) == ((bits >> 0) & 1 == 1 && (bits >> 1) & 1 != 1 && (bits
            >> 3) & 1 != 1 && (bits >> 7) & 1 != 1)
        &&& (bits & 0b1000_1011 == 2) == ((bits >> 0) & 1 != 1 && (bits >> 1) & 1 == 1 && (bits
            >> 3) & 1 != 1 && (bits >> 7) & 1 != 1)
        &&& (bits & 0b1000_1011 == 8) == ((bits >> 0) & 1 != 1 && (bits >> 1) & 1 != 1 && (bits
            >> 3) & 1 == 1 && (bits >> 7) & 1 != 1)
        &&& (bits & 0b1000_1011 == 128) == ((bits >> 0) & 1 != 1 && (bits >> 1) & 1 != 1 && (bits
            >> 3) & 1 != 1 && (bits >> 7) & 1 == 1)
    }) by (bit_vector);
    if masked == 1 {
        Ok(ObjectKind::Circle)
    } else if masked == 2 {
        Ok(ObjectKind::Slider)
    } else if masked == 8 {
        Ok(ObjectKind::Spinner)
    } else if masked == 128 {
        Ok(ObjectKind::Hold)
    } else {
        Err(DecodeError { kind: ErrorKind::UnknownObjectKind, field: Field::ObjectType })
    }
}

/// Whether the type bits start a new combo.
pub fn is_new_combo(bits: u32) -> (b: bool)
    ensures
        b == new_combo_of(bits),
{
    assert((bits & 0b100 != 0) == ((bits >> 2) & 1 == 1)) by (bit_vector);
    bits & 0b100 != 0
}

/// The number of combo colours that the type bits skip.
pub fn color_skip(bits: u32) -> (n: u32)
    ensures
        n == color_skip_of(bits),
        n == (bits >> 4) & 0b111,
        n <= 7,
{
    assert((bits >> 4) & 0b111 <= 7) by (bit_vector);
    (bits >> 4) & 0b111
}

/// The sample that `token` writes: five parts divided by colons, of which the
/// first four are numbers and the fifth is the file name, which may be empty.
/// Parts after the fifth are passed over.
pub open spec fn hit_sample_of(token: Seq<char>) -> Result<HitSampleView, DecodeError> {
    let p = pieces(trimmed(token), ':');
    if p.len() < 5 {
        Err(malformed(Field::HitSample))
    } else if u32_of(p[0]) is None {
        Err(numeric(Field::NormalSet))
    } else if u32_of(p[1]) is None {
        Err(numeric(Field::AdditionSet))
    } else if u32_of(p[2]) is None {
        Err(numeric(Field::Index))
    } else if u32_of(p[3]) is None {
        Err(numeric(Field::Volume))
    } else {
        Ok(
            HitSampleView {
                normal_set: u32_of(p[0]).unwrap(),
                addition_set: u32_of(p[1]).unwrap(),
                index: u32_of(p[2]).unwrap(),
                volume: u32_of(p[3]).unwrap(),
                filename: p[4],
            },
        )
    }
}

/// Reads a hit sample.
pub fn read_hit_sample(token: &[char]) -> (r: Result<HitSample, DecodeError>)
    ensures
        yields(r, hit_sample_of(token@)),
{
    let p = split(trim(token), ':');
    if p.len() < 5 {
        return Err(DecodeError::malformed(Field::HitSample));
    }
    let normal_set = match parse_u32(p[0]) {
        Some(v) => v,
        None => { return Err(DecodeError::numeric(Field::NormalSet)); },
    };
    let addition_set = match parse_u32(p[1]) {
        Some(v) => v,
        None => { return Err(DecodeError::numeric(Field::AdditionSet)); },
    };
    let index = match parse_u32(p[2]) {
        Some(v) => v,
        None => { return Err(DecodeError::numeric(Field::Index)); },
    };
    let volume = match parse_u32(p[3]) {
        Some(v) => v,
        None => { return Err(DecodeError::numeric(Field::Volume)); },
    };
    Ok(HitSample { normal_set, addition_set, index, volume, filename: string_of(p[4]) })
}

/// Reads a hit sample from a string.
pub fn parse_hit_sample(line: &str) -> (r: Result<HitSample, DecodeError>)
    ensures
        yields(r, hit_sample_of(line@)),
{
    let chars = chars_of(line);
    read_hit_sample(chars.as_slice())
}

/// The curve type that the tag writes: `B`, `C`, `L` or `P`.
pub open spec fn curve_type_of(tag: Seq<char>) -> Option<CurveType> {
    if tag.len() != 1 {
        None
    } else if tag[0] == 'B' {
        Some(CurveType::Bezier)
    } else if tag[0] == 'C' {
        Some(CurveType::Catmull)
    } else if tag[0] == 'L' {
        Some(CurveType::Linear)
    } else if tag[0] == 'P' {
        Some(CurveType::Perfect)
    } else {
        None
    }
}

/// The point that `seg` writes: two numbers with a colon between them.
pub open spec fn point_of(seg: Seq<char>) -> Result<(i32, i32), DecodeError> {
    match halves(seg, ':') {
        None => Err(malformed(Field::CurvePoints)),
        Some((x, y)) => if i32_of(x) is None || i32_of(y) is None {
            Err(numeric(Field::CurvePoints))
        } else {
            Ok((i32_of(x).unwrap(), i32_of(y).unwrap()))
        },
    }
}

/// The curve that `token` writes: parts divided by `|`, the first the tag of
/// the curve type, each of the others a control point.
pub open spec fn curve_of(token: Seq<char>) -> Result<(CurveType, Seq<(i32, i32)>), DecodeError> {
    let p = pieces(trimmed(token), '|');
    match curve_type_of(p[0]) {
        None => Err(DecodeError { kind: ErrorKind::UnknownCurveTag, field: Field::CurveType }),
        Some(curve_type) => match each(
            p.subrange(1, p.len() as int),
            |seg: Seq<char>| point_of(seg),
        ) {
            Err(e) => Err(e),
            Ok(points) => Ok((curve_type, points)),
        },
    }
}

/// The hitsound of one edge of a slider.
pub open spec fn edge_sound_of(seg: Seq<char>) -> Result<u32, DecodeError> {
    u32_in(seg, Field::EdgeSounds)
}

/// The hitsounds of a slider's edges that `token` writes: numbers divided by
/// `|`.
pub open spec fn edge_sounds_of(token: Seq<char>) -> Result<Seq<u32>, DecodeError> {
    each(pieces(trimmed(token), '|'), |seg: Seq<char>| edge_sound_of(seg))
}

/// The sample sets of one edge of a slider: the normal set and the addition
/// set, with a colon between them.
pub open spec fn edge_set_of(seg: Seq<char>) -> Result<(u32, u32), DecodeError> {
    match halves(seg, ':') {
        None => Err(malformed(Field::EdgeAdditions)),
        Some((x, y)) => if u32_of(x) is None || u32_of(y) is None {
            Err(numeric(Field::EdgeAdditions))
        } else {
            Ok((u32_of(x).unwrap(), u32_of(y).unwrap()))
        },
    }
}

/// The sample sets of a slider's edges that `token` writes: pairs divided by
/// `|`.
pub open spec fn edge_sets_of(token: Seq<char>) -> Result<Seq<(u32, u32)>, DecodeError> {
    each(pieces(trimmed(token), '|'), |seg: Seq<char>| edge_set_of(seg))
}

/// Reads the tag of a curve type.
pub fn read_curve_type(tag: &[char]) -> (r: Option<CurveType>)
    ensures
        r == curve_type_of(tag@),
{
    if tag.len() != 1 {
        None
    } else if tag[0] == 'B' {
        Some(CurveType::Bezier)
    } else if tag[0] == 'C' {
        Some(CurveType::Catmull)
    } else if tag[0] == 'L' {
        Some(CurveType::Linear)
    } else if tag[0] == 'P' {
        Some(CurveType::Perfect)
    } else {
        None
    }
}

/// Reads a control point.
pub fn read_point(seg: &[char]) -> (r: Result<(i32, i32), DecodeError>)
    ensures
        r == point_of(seg@),
{
    match split_once(seg, ':') {
        None => Err(DecodeError::malformed(Field::CurvePoints)),
        Some((x, y)) => {
            let x = parse_i32(x);
            let y = parse_i32(y);
            match (x, y) {
                (Some(x), Some(y)) => Ok((x, y)),
                _ => Err(DecodeError::numeric(Field::CurvePoints)),
            }
        },
    }
}

/// Reads the sample sets of one edge.
pub fn read_edge_set(seg: &[char]) -> (r: Result<(u32, u32), DecodeError>)
    ensures
        r == edge_set_of(seg@),
{
    match split_once(seg, ':') {
        None => Err(DecodeError::malformed(Field::EdgeAdditions)),
        Some((x, y)) => {
            let x = parse_u32(x);
            let y = parse_u32(y);
            match (x, y) {
                (Some(x), Some(y)) => Ok((x, y)),
                _ => Err(DecodeError::numeric(Field::EdgeAdditions)),
            }
        },
    }
}

/// Reads a curve.
pub fn read_curve(token: &[char]) -> (r: Result<(CurveType, Vec<(i32, i32)>), DecodeError>)
    ensures
        match r {
            Ok((curve_type, points)) => curve_of(token@) == Ok::<
                (CurveType, Seq<(i32, i32)>),
                DecodeError,
            >((curve_type, points@)),
            Err(e) => curve_of(token@) == Err::<(CurveType, Seq<(i32, i32)>), DecodeError>(e),
        },
{
    let p = split(trim(token), '|');
    proof {
        lemma_pieces(trimmed(token@), '|');
    }
    let curve_type = match read_curve_type(p[0]) {
        Some(t) => t,
        None => {
            return Err(
                DecodeError { kind: ErrorKind::UnknownCurveTag, field: Field::CurveType },
            );
        },
    };
    let ghost segs = views(p@).subrange(1, p@.len() as int);
    let ghost f = |seg: Seq<char>| point_of(seg);
    let mut points: Vec<(i32, i32)> = Vec::new();
    let mut i: usize = 1;
    while i < p.len()
        invariant
            1 <= i <= p@.len(),
            views(p@) == pieces(trimmed(token@), '|'),
            curve_type_of(views(p@)[0]) == Some(curve_type),
            segs == views(p@).subrange(1, p@.len() as int),
            f == (|seg: Seq<char>| point_of(seg)),
            each(segs.subrange(0, i - 1), f) == Ok::<Seq<(i32, i32)>, DecodeError>(points@),
        decreases p@.len() - i,
    {
        proof {
            lemma_each_next(segs, f, i - 1);
        }
        match read_point(p[i]) {
            Ok(point) => {
                points.push(point);
            },
            Err(e) => {
                proof {
                    lemma_each_error(segs, f, i as int);
                }
                return Err(e);
            },
        }
        i += 1;
    }
    assert(segs.subrange(0, p@.len() - 1) =~= segs);
    Ok((curve_type, points))
}

/// Reads the hitsounds of a slider's edges.
pub fn read_edge_sounds(token: &[char]) -> (r: Result<Vec<u32>, DecodeError>)
    ensures
        yields(r, edge_sounds_of(token@)),
{
    let p = split(trim(token), '|');
    let ghost segs = views(p@);
    let ghost f = |seg: Seq<char>| edge_sound_of(seg);
    let mut sounds: Vec<u32> = Vec::new();
    let mut i: usize = 0;
    while i < p.len()
        invariant
            0 <= i <= p@.len(),
            segs == views(p@),
            segs == pieces(trimmed(token@), '|'),
            f == (|seg: Seq<char>| edge_sound_of(seg)),
            each(segs.subrange(0, i as int), f) == Ok::<Seq<u32>, DecodeError>(sounds@),
        decreases p@.len() - i,
    {
        proof {
            lemma_each_next(segs, f, i as int);
        }
        match read_u32(p[i], Field::EdgeSounds) {
            Ok(sound) => {
                sounds.push(sound);
            },
            Err(e) => {
                proof {
                    lemma_each_error(segs, f, i + 1);
                }
                return Err(e);
            },
        }
        i += 1;
    }
    assert(segs.subrange(0, p@.len() as int) =~= segs);
    Ok(sounds)
}

/// Reads the sample sets of a slider's edges.
pub fn read_edge_sets(token: &[char]) -> (r: Result<Vec<(u32, u32)>, DecodeError>)
    ensures
        yields(r, edge_sets_of(token@)),
{
    let p = split(trim(token), '|');
    let ghost segs = views(p@);
    let ghost f = |seg: Seq<char>| edge_set_of(seg);
    let mut sets: Vec<(u32, u32)> = Vec::new();
    let mut i: usize = 0;
    while i < p.len()
        invariant
            0 <= i <= p@.len(),
            segs == views(p@),
            segs == pieces(trimmed(token@), '|'),
            f == (|seg: Seq<char>| edge_set_of(seg)),
            each(segs.subrange(0, i as int), f) == Ok::<Seq<(u32, u32)>, DecodeError>(sets@),
        decreases p@.len() - i,
    {
        proof {
            lemma_each_next(segs, f, i as int);
        }
        match read_edge_set(p[i]) {
            Ok(set) => {
                sets.push(set);
            },
            Err(e) => {
                proof {
                    lemma_each_error(segs, f, i + 1);
                }
                return Err(e);
            },
        }
        i += 1;
    }
    assert(segs.subrange(0, p@.len() as int) =~= segs);
    Ok(sets)
}

/// Reads a curve from a string.
pub fn parse_curve(line: &str) -> (r: Result<(CurveType, Vec<(i32, i32)>), DecodeError>)
    ensures
        match r {
            Ok((curve_type, points)) => curve_of(line@) == Ok::<
                (CurveType, Seq<(i32, i32)>),
                DecodeError,
            >((curve_type, points@)),
            Err(e) => curve_of(line@) == Err::<(CurveType, Seq<(i32, i32)>), DecodeError>(e),
        },
{
    let chars = chars_of(line);
    read_curve(chars.as_slice())
}

/// Reads the hitsounds of a slider's edges from a string.
pub fn parse_slider_edge_sounds(line: &str) -> (r: Result<Vec<u32>, DecodeError>)
    ensures
        yields(r, edge_sounds_of(line@)),
{
    let chars = chars_of(line);
    read_edge_sounds(chars.as_slice())
}

/// Reads the sample sets of a slider's edges from a string.
pub fn parse_slider_edge_sets(line: &str) -> (r: Result<Vec<(u32, u32)>, DecodeError>)
    ensures
        yields(r, edge_sets_of(line@)),
{
    let chars = chars_of(line);
    read_edge_sets(chars.as_slice())
}

/// What the first five parts of a line write: the position, the time, the
/// type bits and the hitsound, all numbers; and the kind that the type bits
/// name.
pub open spec fn head_of(t: Seq<Seq<char>>) -> Result<(Head, ObjectKind), DecodeError> {
    if i32_of(t[0]) is None {
        Err(numeric(Field::PositionX))
    } else if i32_of(t[1]) is None {
        Err(numeric(Field::PositionY))
    } else if u32_of(t[2]) is None {
        Err(numeric(Field::Time))
    } else if u32_of(t[3]) is None {
        Err(numeric(Field::ObjectType))
    } else if u32_of(t[4]) is None {
        Err(numeric(Field::Hitsound))
    } else {
        match kind_of(u32_of(t[3]).unwrap()) {
            None => Err(unknown_kind()),
            Some(kind) => Ok(
                (
                    Head {
                        position_x: i32_of(t[0]).unwrap(),
                        position_y: i32_of(t[1]).unwrap(),
                        time: u32_of(t[2]).unwrap(),
                        new_combo: new_combo_of(u32_of(t[3]).unwrap()),
                        color_skip: color_skip_of(u32_of(t[3]).unwrap()),
                        hitsound: u32_of(t[4]).unwrap(),
                    },
                    kind,
                ),
            ),
        }
    }
}

/// The sample in part `i` of a line; the default sample where the line has
/// no such part.
pub open spec fn sample_at(t: Seq<Seq<char>>, i: int) -> Result<HitSampleView, DecodeError> {
    if i < t.len() {
        hit_sample_of(t[i])
    } else {
        Ok(default_sample())
    }
}

/// The circle that the parts `t` write after the head: an optional sample.
pub open spec fn circle_of(head: Head, t: Seq<Seq<char>>) -> Result<HitObjectView, DecodeError> {
    match sample_at(t, 5) {
        Err(e) => Err(e),
        Ok(hit_sample) => Ok(HitObjectView { head, shape: Shape::Circle, hit_sample }),
    }
}

/// The slider that the parts `t` write after the head: the curve, the number
/// of slides, which is at least 1, the length, which is not below zero, the
/// hitsounds and the sample sets of the edges, all required, and an optional
/// sample. There is one edge more than there are slides.
pub open spec fn slider_of(head: Head, t: Seq<Seq<char>>) -> Result<HitObjectView, DecodeError> {
    if t.len() <= 5 {
        Err(missing(Field::Curve))
    } else if curve_of(t[5]) is Err {
        Err(curve_of(t[5])->Err_0)
    } else if t.len() <= 6 {
        Err(missing(Field::Slides))
    } else if u32_of(t[6]) is None || u32_of(t[6]).unwrap() < 1 {
        Err(numeric(Field::Slides))
    } else if t.len() <= 7 {
        Err(missing(Field::Length))
    } else if !is_unsigned_float(t[7]) {
        Err(numeric(Field::Length))
    } else if t.len() <= 8 {
        Err(missing(Field::EdgeSounds))
    } else if edge_sounds_of(t[8]) is Err {
        Err(edge_sounds_of(t[8])->Err_0)
    } else if (edge_sounds_of(t[8])->Ok_0).len() != u32_of(t[6]).unwrap() + 1 {
        Err(malformed(Field::EdgeSounds))
    } else if t.len() <= 9 {
        Err(missing(Field::EdgeAdditions))
    } else if edge_sets_of(t[9]) is Err {
        Err(edge_sets_of(t[9])->Err_0)
    } else if (edge_sets_of(t[9])->Ok_0).len() != u32_of(t[6]).unwrap() + 1 {
        Err(malformed(Field::EdgeAdditions))
    } else if sample_at(t, 10) is Err {
        Err(sample_at(t, 10)->Err_0)
    } else {
        Ok(
            HitObjectView {
                head,
                shape: Shape::Slider {
                    curve_type: (curve_of(t[5])->Ok_0).0,
                    curve_points: (curve_of(t[5])->Ok_0).1,
                    slides: u32_of(t[6]).unwrap(),
                    length: t[7],
                    edge_sounds: edge_sounds_of(t[8])->Ok_0,
                    edge_additions: edge_sets_of(t[9])->Ok_0,
                },
                hit_sample: sample_at(t, 10)->Ok_0,
            },
        )
    }
}

/// The spinner that the parts `t` write after the head: the end time, which
/// is required and not before the time of the head, and an optional sample.
pub open spec fn spinner_of(head: Head, t: Seq<Seq<char>>) -> Result<HitObjectView, DecodeError> {
    if t.len() <= 5 {
        Err(missing(Field::EndTime))
    } else if u32_of(t[5]) is None || u32_of(t[5]).unwrap() < head.time {
        Err(numeric(Field::EndTime))
    } else if sample_at(t, 6) is Err {
        Err(sample_at(t, 6)->Err_0)
    } else {
        Ok(
            HitObjectView {
                head,
                shape: Shape::Spinner { end_time: u32_of(t[5]).unwrap() },
                hit_sample: sample_at(t, 6)->Ok_0,
            },
        )
    }
}

/// The hold that the parts `t` write after the head: one required part, which
/// holds the end time, a colon and the sample.
pub open spec fn hold_of(head: Head, t: Seq<Seq<char>>) -> Result<HitObjectView, DecodeError> {
    if t.len() <= 5 {
        Err(missing(Field::EndTime))
    } else {
        match halves(t[5], ':') {
            None => Err(malformed(Field::EndTime)),
            Some((end, sample)) => if u32_of(end) is None {
                Err(numeric(Field::EndTime))
            } else {
                match hit_sample_of(sample) {
                    Err(e) => Err(e),
                    Ok(hit_sample) => Ok(
                        HitObjectView {
                            head,
                            shape: Shape::Hold { end_time: u32_of(end).unwrap() },
                            hit_sample,
                        },
                    ),
                }
            },
        }
    }
}

/// The hit object that `line` writes: parts divided by commas, of which the
/// first five are the head and the others go by the kind of the object. A
/// line of fewer than five parts is malformed, whatever it holds.
pub open spec fn hit_object_of(line: Seq<char>) -> Result<HitObjectView, DecodeError> {
    let t = pieces(trimmed(line), ',');
    if t.len() < 5 {
        Err(malformed(Field::Line))
    } else {
        match head_of(t) {
            Err(e) => Err(e),
            Ok((head, kind)) => match kind {
                ObjectKind::Circle => circle_of(head, t),
                ObjectKind::Slider => slider_of(head, t),
                ObjectKind::Spinner => spinner_of(head, t),
                ObjectKind::Hold => hold_of(head, t),
            },
        }
    }
}

/// Reads the sample in part `i`, if there is such a part.
fn read_sample_at(t: &Vec<&[char]>, i: usize) -> (r: Result<HitSample, DecodeError>)
    ensures
        yields(r, sample_at(views(t@), i as int)),
{
    if i < t.len() {
        read_hit_sample(t[i])
    } else {
        Ok(HitSample::default())
    }
}

/// Reads a slider after its head.
fn read_slider(head: Head, t: &Vec<&[char]>) -> (r: Result<Slider, DecodeError>)
    ensures
        yields(r, slider_of(head, views(t@))),
{
    if t.len() <= 5 {
        return Err(DecodeError::missing(Field::Curve));
    }
    let (curve_type, curve_points) = read_curve(t[5])?;
    if t.len() <= 6 {
        return Err(DecodeError::missing(Field::Slides));
    }
    let slides = match parse_u32(t[6]) {
        Some(n) if n >= 1 => n,
        _ => { return Err(DecodeError::numeric(Field::Slides)); },
    };
    if t.len() <= 7 {
        return Err(DecodeError::missing(Field::Length));
    }
    if !is_unsigned_float_text(t[7]) {
        return Err(DecodeError::numeric(Field::Length));
    }
    let length = match FloatLiteral::from_chars(t[7]) {
        Some(f) => f,
        None => { return Err(DecodeError::numeric(Field::Length)); },
    };
    if t.len() <= 8 {
        return Err(DecodeError::missing(Field::EdgeSounds));
    }
    let edge_sounds = read_edge_sounds(t[8])?;
    if edge_sounds.len() as u64 != slides as u64 + 1 {
        return Err(DecodeError::malformed(Field::EdgeSounds));
    }
    if t.len() <= 9 {
        return Err(DecodeError::missing(Field::EdgeAdditions));
    }
    let edge_additions = read_edge_sets(t[9])?;
    if edge_additions.len() as u64 != slides as u64 + 1 {
        return Err(DecodeError::malformed(Field::EdgeAdditions));
    }
    let hit_sample = read_sample_at(t, 10)?;
    Ok(
        Slider {
            position_x: head.position_x,
            position_y: head.position_y,
            new_combo: head.new_combo,
            color_skip: head.color_skip,
            time: head.time,
            hitsound: head.hitsound,
            curve_type,
            curve_points,
            slides,
            length,
            edge_sounds,
            edge_additions,
            hit_sample,
        },
    )
}

/// Reads a spinner after its head.
fn read_spinner(head: Head, t: &Vec<&[char]>) -> (r: Result<Spinner, DecodeError>)
    ensures
        yields(r, spinner_of(head, views(t@))),
{
    if t.len() <= 5 {
        return Err(DecodeError::missing(Field::EndTime));
    }
    let end_time = match parse_u32(t[5]) {
        Some(n) if n >= head.time => n,
        _ => { return Err(DecodeError::numeric(Field::EndTime)); },
    };
    let hit_sample = read_sample_at(t, 6)?;
    Ok(
        Spinner {
            position_x: head.position_x,
            position_y: head.position_y,
            new_combo: head.new_combo,
            color_skip: head.color_skip,
            time: head.time,
            hitsound: head.hitsound,
            end_time,
            hit_sample,
        },
    )
}

/// Reads a hold after its head.
fn read_hold(head: Head, t: &Vec<&[char]>) -> (r: Result<ManiaHold, DecodeError>)
    ensures
        yields(r, hold_of(head, views(t@))),
{
    if t.len() <= 5 {
        return Err(DecodeError::missing(Field::EndTime));
    }
    let (end, sample) = match split_once(t[5], ':') {
        Some(parts) => parts,
        None => { return Err(DecodeError::malformed(Field::EndTime)); },
    };
    let end_time = read_u32(end, Field::EndTime)?;
    let hit_sample = read_hit_sample(sample)?;
    Ok(
        ManiaHold {
            position_x: head.position_x,
            position_y: head.position_y,
            new_combo: head.new_combo,
            color_skip: head.color_skip,
            time: head.time,
            hitsound: head.hitsound,
            end_time,
            hit_sample,
        },
    )
}

/// Reads the head of a line of at least five parts.
fn read_head(t: &Vec<&[char]>) -> (r: Result<(Head, ObjectKind), DecodeError>)
    requires
        t@.len() >= 5,
    ensures
        r == head_of(views(t@)),
{
    let position_x = read_i32(t[0], Field::PositionX)?;
    let position_y = read_i32(t[1], Field::PositionY)?;
    let time = read_u32(t[2], Field::Time)?;
    let bits = read_u32(t[3], Field::ObjectType)?;
    let hitsound = read_u32(t[4], Field::Hitsound)?;
    let kind = decode_kind(bits)?;
    Ok(
        (
            Head {
                position_x,
                position_y,
                time,
                new_combo: is_new_combo(bits),
                color_skip: color_skip(bits),
                hitsound,
            },
            kind,
        ),
    )
}

/// Reads the hit object that a line of the hit objects writes.
pub fn read_hit_object(line: &[char]) -> (r: Result<HitObject, DecodeError>)
    ensures
        yields(r, hit_object_of(line@)),
        r matches Ok(o) ==> well_formed(o@),
{
    let t = split(trim(line), ',');
    if t.len() < 5 {
        return Err(DecodeError::malformed(Field::Line));
    }
    let (head, kind) = read_head(&t)?;
    proof {
        lemma_well_formed(line@);
    }
    match kind {
        ObjectKind::Circle => {
            let hit_sample = read_sample_at(&t, 5)?;
            Ok(
                HitObject::HitCircle(
                    HitCircle {
                        position_x: head.position_x,
                        position_y: head.position_y,
                        new_combo: head.new_combo,
                        color_skip: head.color_skip,
                        time: head.time,
                        hitsound: head.hitsound,
                        hit_sample,
                    },
                ),
            )
        },
        ObjectKind::Slider => Ok(HitObject::Slider(read_slider(head, &t)?)),
        ObjectKind::Spinner => Ok(HitObject::Spinner(read_spinner(head, &t)?)),
        ObjectKind::Hold => Ok(HitObject::ManiaHold(read_hold(head, &t)?)),
    }
}

/// Reads the hit object that a line of the hit objects writes, from a string.
pub fn decode_hit_object(line: &str) -> (r: Result<HitObject, DecodeError>)
    ensures
        yields(r, hit_object_of(line@)),
        r matches Ok(o) ==> well_formed(o@),
{
    let chars = chars_of(line);
    read_hit_object(chars.as_slice())
}

/// Every hit object that a line writes is well formed. In particular a slider
/// has as many edge hitsounds as edge sample sets: one more than its slides.
pub proof fn lemma_well_formed(line: Seq<char>)
    ensures
        hit_object_of(line) matches Ok(o) ==> well_formed(o),
{
    assert forall|bits: u32| color_skip_of(bits) <= 7 by {
        assert((bits >> 4) & 0b111 <= 7) by (bit_vector);
    }
}

/// A slider that a line writes has as many hitsounds of edges as sample sets
/// of edges: one more than its slides.
pub proof fn lemma_slider_edges(line: Seq<char>)
    ensures
        hit_object_of(line) matches Ok(o) ==> (o.shape matches Shape::Slider {
            slides,
            edge_sounds,
            edge_additions,
            ..
        } ==> edge_sounds.len() == edge_additions.len() == slides + 1),
{
}

/// A line of fewer than five parts is malformed, whatever the parts hold.
pub proof fn lemma_short_line(line: Seq<char>)
    requires
        pieces(trimmed(line), ',').len() < 5,
    ensures
        hit_object_of(line) == Err::<HitObjectView, DecodeError>(malformed(Field::Line)),
{
}

/// The kind of the object that a line writes is the kind that its type bits
/// name; a line of five parts or more, all numbers, whose type bits name no
/// kind is rejected for that.
pub proof fn lemma_kind_of_line(line: Seq<char>)
    ensures
        hit_object_of(line) matches Ok(o) ==> kind_of(
            u32_of(pieces(trimmed(line), ',')[3]).unwrap(),
        ) == Some(kind_of_shape(o.shape)),
        ({
            let t = pieces(trimmed(line), ',');
            t.len() >= 5 && i32_of(t[0]) is Some && i32_of(t[1]) is Some && u32_of(t[2]) is Some
                && u32_of(t[3]) is Some && u32_of(t[4]) is Some && kind_of(u32_of(t[3]).unwrap())
                is None ==> hit_object_of(line) == Err::<HitObjectView, DecodeError>(
                unknown_kind(),
            )
        }),
{
}

/// A circle, a slider or a spinner whose line ends before the sample has the
/// default sample.
pub proof fn lemma_absent_sample(line: Seq<char>)
    ensures
        ({
            let t = pieces(trimmed(line), ',');
            hit_object_of(line) matches Ok(o) ==> {
                &&& o.shape is Circle && t.len() <= 5 ==> o.hit_sample == default_sample()
                &&& o.shape is Slider && t.len() <= 10 ==> o.hit_sample == default_sample()
                &&& o.shape is Spinner && t.len() <= 6 ==> o.hit_sample == default_sample()
            }
        }),
{
}

/// What a line of the hit objects does to a beatmap: the object that it
/// writes comes after those that the beatmap has.
pub open spec fn hit_objects_line(b: BeatmapView, line: Seq<char>) -> Result<
    BeatmapView,
    DecodeError,
> {
    match hit_object_of(line) {
        Err(e) => Err(e),
        Ok(o) => Ok(BeatmapView { hit_objects: b.hit_objects.push(o), ..b }),
    }
}

/// Reads a line of the hit objects and adds its object to the beatmap.
pub fn read_hit_objects(line: &[char], beatmap: &mut Beatmap) -> (r: Result<(), DecodeError>)
    ensures
        applies(r, old(beatmap)@, final(beatmap)@, hit_objects_line(old(beatmap)@, line@)),
{
    let object = read_hit_object(line)?;
    let ghost o = object@;
    beatmap.hit_objects.push(object);
    assert(hit_object_views(beatmap.hit_objects@) =~= hit_object_views(
        old(beatmap).hit_objects@,
    ).push(o));
    Ok(())
}

/// Reads a line of the hit objects, from a string, and adds its object to
/// the beatmap.
pub fn parse_hit_objects(line: &str, beatmap: &mut Beatmap) -> (r: Result<(), DecodeError>)
    ensures
        applies(r, old(beatmap)@, final(beatmap)@, hit_objects_line(old(beatmap)@, line@)),
{
    let chars = chars_of(line);
    read_hit_objects(chars.as_slice(), beatmap)
}

} // verus!
