use crate::error::{numeric, DecodeError, Field};
use crate::number::{
    i32_of, is_float, parse_i32, parse_u32, parse_u8, u32_of, u8_of, FloatLiteral,
};
use crate::text::{halves, split_once, trim, trimmed};
use vstd::prelude::*;

verus! {

/// Whether `r` is the outcome `expected`, a value standing for its view.
pub open spec fn yields<T: View>(
    r: Result<T, DecodeError>,
    expected: Result<T::V, DecodeError>,
) -> bool {
    match r {
        Ok(v) => expected == Ok::<T::V, DecodeError>(v@),
        Err(e) => expected == Err::<T::V, DecodeError>(e),
    }
}

/// The number that `s` writes, or the error that `field` holds no number.
pub open spec fn u32_in(s: Seq<char>, field: Field) -> Result<u32, DecodeError> {
    match u32_of(s) {
        Some(v) => Ok(v),
        None => Err(numeric(field)),
    }
}

/// The number that `s` writes, or the error that `field` holds no number.
pub open spec fn i32_in(s: Seq<char>, field: Field) -> Result<i32, DecodeError> {
    match i32_of(s) {
        Some(v) => Ok(v),
        None => Err(numeric(field)),
    }
}

/// Reads an unsigned number for `field`.
pub fn read_u32(s: &[char], field: Field) -> (r: Result<u32, DecodeError>)
    ensures
        r == u32_in(s@, field),
{
    match parse_u32(s) {
        Some(v) => Ok(v),
        None => Err(DecodeError::numeric(field)),
    }
}

/// Reads a signed number for `field`.
pub fn read_i32(s: &[char], field: Field) -> (r: Result<i32, DecodeError>)
    ensures
        r == i32_in(s@, field),
{
    match parse_i32(s) {
        Some(v) => Ok(v),
        None => Err(DecodeError::numeric(field)),
    }
}

/// The values that `f` reads from `segs`, one from each in order, or the
/// error of the first of `segs` that `f` rejects.
pub open spec fn each<T>(
    segs: Seq<Seq<char>>,
    f: spec_fn(Seq<char>) -> Result<T, DecodeError>,
) -> Result<Seq<T>, DecodeError>
    decreases segs.len(),
{
    if segs.len() == 0 {
        Ok(Seq::empty())
    } else {
        match each(segs.drop_last(), f) {
            Err(e) => Err(e),
            Ok(items) => match f(segs.last()) {
                Err(e) => Err(e),
                Ok(item) => Ok(items.push(item)),
            },
        }
    }
}

/// Where `f` rejects one of the first `k` of `segs`, the error of those `k`
/// is the error of all.
pub proof fn lemma_each_error<T>(
    segs: Seq<Seq<char>>,
    f: spec_fn(Seq<char>) -> Result<T, DecodeError>,
    k: int,
)
    requires
        0 <= k <= segs.len(),
        each(segs.subrange(0, k), f) is Err,
    ensures
        each(segs, f) == each(segs.subrange(0, k), f),
    decreases segs.len(),
{
    if k == segs.len() {
        assert(segs.subrange(0, k) =~= segs);
    } else {
        assert(segs.drop_last().subrange(0, k) =~= segs.subrange(0, k));
        lemma_each_error(segs.drop_last(), f, k);
    }
}

/// What `each` gives for one more of `segs` than the first `k`.
pub proof fn lemma_each_next<T>(
    segs: Seq<Seq<char>>,
    f: spec_fn(Seq<char>) -> Result<T, DecodeError>,
    k: int,
)
    requires
        0 <= k < segs.len(),
    ensures
        each(segs.subrange(0, k + 1), f) == match each(segs.subrange(0, k), f) {
            Err(e) => Err::<Seq<T>, DecodeError>(e),
            Ok(items) => match f(segs[k]) {
                Err(e) => Err(e),
                Ok(item) => Ok(items.push(item)),
            },
        },
{
    assert(segs.subrange(0, k + 1).drop_last() =~= segs.subrange(0, k));
}

/// The key and the value of a `Key: Value` line: what stands before the first
/// colon and what stands after it, each without the white space around it.
pub open spec fn key_value(line: Seq<char>) -> Option<(Seq<char>, Seq<char>)> {
    match halves(line, ':') {
        None => None,
        Some((key, value)) => Some((trimmed(key), trimmed(value))),
    }
}

/// Reads the key and the value of a `Key: Value` line.
pub fn read_key_value<'a>(line: &'a [char]) -> (r: Option<(&'a [char], &'a [char])>)
    ensures
        match r {
            Some((key, value)) => key_value(line@) == Some((key@, value@)),
            None => key_value(line@) is None,
        },
{
    match split_once(line, ':') {
        None => None,
        Some((key, value)) => Some((trim(key), trim(value))),
    }
}

/// The flag that the value `s` writes: an unsigned 8-bit number, which sets
/// the flag unless it is zero.
pub open spec fn flag_in(s: Seq<char>, field: Field) -> Result<bool, DecodeError> {
    match u8_of(s) {
        Some(n) => Ok(n != 0),
        None => Err(numeric(field)),
    }
}

/// The small number that `s` writes, or the error that `field` holds none.
pub open spec fn u8_in(s: Seq<char>, field: Field) -> Result<u8, DecodeError> {
    match u8_of(s) {
        Some(n) => Ok(n),
        None => Err(numeric(field)),
    }
}

/// The text `s` where it writes a floating-point number, or the error that
/// `field` holds none.
pub open spec fn float_in(s: Seq<char>, field: Field) -> Result<Seq<char>, DecodeError> {
    if is_float(s) {
        Ok(s)
    } else {
        Err(numeric(field))
    }
}

/// Reads a flag for `field`.
pub fn read_flag(s: &[char], field: Field) -> (r: Result<bool, DecodeError>)
    ensures
        r == flag_in(s@, field),
{
    match parse_u8(s) {
        Some(n) => Ok(n != 0),
        None => Err(DecodeError::numeric(field)),
    }
}

/// Reads a small number for `field`.
pub fn read_u8(s: &[char], field: Field) -> (r: Result<u8, DecodeError>)
    ensures
        r == u8_in(s@, field),
{
    match parse_u8(s) {
        Some(n) => Ok(n),
        None => Err(DecodeError::numeric(field)),
    }
}

/// Reads a floating-point number for `field`.
pub fn read_float(s: &[char], field: Field) -> (r: Result<FloatLiteral, DecodeError>)
    ensures
        yields(r, float_in(s@, field)),
{
    match FloatLiteral::from_chars(s) {
        Some(f) => Ok(f),
        None => Err(DecodeError::numeric(field)),
    }
}

} // verus!
