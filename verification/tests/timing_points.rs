use hoshizora_parser::error::{DecodeError, ErrorKind, Field};
use hoshizora_parser::general::SampleSet;
use hoshizora_parser::number::FloatLiteral;
use hoshizora_parser::timing_points::{parse_timing_points, Effects, TimingPoint};
use hoshizora_parser::Beatmap;

fn err(kind: ErrorKind, field: Field) -> DecodeError {
    DecodeError { kind, field }
}

fn point(line: &str) -> Result<TimingPoint, DecodeError> {
    let mut beatmap = Beatmap::default();
    parse_timing_points(line, &mut beatmap)?;
    assert_eq!(beatmap.timing_points.len(), 1);
    Ok(beatmap.timing_points.pop().unwrap())
}

#[test]
fn test_parse_timing_points() {
    let test_str = "1342, 333.33, 4, 2, 1, 35, 1, 0";
    let mut beatmap = Beatmap::default();
    parse_timing_points(test_str, &mut beatmap).unwrap();

    assert_eq!(beatmap.timing_points.len(), 1);
    assert_eq!(
        beatmap.timing_points[0],
        TimingPoint {
            time: 1342,
            beat_length: FloatLiteral::new("333.33").unwrap(),
            meter: 4,
            sample_set: SampleSet::Soft,
            sample_index: 1,
            volume: 35,
            uninherited: true,
            effects: Effects::NoEffect,
        }
    );
    assert_eq!(
        beatmap.timing_points[0]
            .beat_length
            .as_str()
            .parse::<f32>()
            .unwrap(),
        333.33
    );
}

#[test]
fn negative_beat_length_is_kept_as_written() {
    let p = point("10000,-66.6666666666667,4,1,0,70,0,1").unwrap();
    assert_eq!(p.beat_length.as_str(), "-66.6666666666667");
    assert!(p.beat_length.is_negative());
    assert!(p.beat_length.as_str().parse::<f64>().unwrap() < 0.0);
    assert!(!p.uninherited);
    assert_eq!(p.effects, Effects::Kiai);
    assert_eq!(p.sample_set, SampleSet::Normal);
    let q = point("0,500,4,0,0,100,1,0").unwrap();
    assert!(!q.beat_length.is_negative());
    assert_eq!(q.sample_set, SampleSet::Default);
}

#[test]
fn effects_by_number() {
    assert_eq!(point("0,1,4,3,0,0,1,0").unwrap().effects, Effects::NoEffect);
    assert_eq!(point("0,1,4,3,0,0,1,1").unwrap().effects, Effects::Kiai);
    assert_eq!(
        point("0,1,4,3,0,0,1,8").unwrap().effects,
        Effects::OmitFirstBarline
    );
    assert_eq!(point("0,1,4,3,0,0,1,9").unwrap().effects, Effects::All);
    assert_eq!(point("0,1,4,3,0,0,1,09").unwrap().effects, Effects::All);
    assert_eq!(point("0,1,4,3,0,0,1,2").unwrap().effects, Effects::NoEffect);
    assert_eq!(point("0,1,4,3,0,0,1,3").unwrap().effects, Effects::NoEffect);
    assert_eq!(point("0,1,4,3,0,0,1,16").unwrap().effects, Effects::NoEffect);
    assert_eq!(
        point("0,1,4,3,0,0,1,4294967295").unwrap().effects,
        Effects::NoEffect
    );
    assert_eq!(point("0,1,4,3,0,0,1,0").unwrap().sample_set, SampleSet::Drum);
}

#[test]
fn effects_by_name() {
    assert_eq!(Effects::from_str("0"), Ok(Effects::NoEffect));
    assert_eq!(Effects::from_str("1"), Ok(Effects::Kiai));
    assert_eq!(Effects::from_str("8"), Ok(Effects::OmitFirstBarline));
    assert_eq!(Effects::from_str("9"), Ok(Effects::All));
    assert_eq!(
        Effects::from_str("2"),
        Err(strum::ParseError::VariantNotFound)
    );
    assert_eq!(
        Effects::from_str(""),
        Err(strum::ParseError::VariantNotFound)
    );
    assert_eq!(
        Effects::from_str("01"),
        Err(strum::ParseError::VariantNotFound)
    );
    assert_eq!(
        Effects::from_str("Kiai"),
        Err(strum::ParseError::VariantNotFound)
    );
    assert_eq!("8".parse::<Effects>(), Ok(Effects::OmitFirstBarline));
    assert_eq!(
        " 8".parse::<Effects>(),
        Err(strum::ParseError::VariantNotFound)
    );
}

#[test]
fn effects_from_number() {
    assert_eq!(Effects::from_number(0), Effects::NoEffect);
    assert_eq!(Effects::from_number(1), Effects::Kiai);
    assert_eq!(Effects::from_number(8), Effects::OmitFirstBarline);
    assert_eq!(Effects::from_number(9), Effects::All);
    assert_eq!(Effects::from_number(10), Effects::NoEffect);
}

#[test]
fn sample_set_from_number() {
    assert_eq!(SampleSet::from_number(0), Some(SampleSet::Default));
    assert_eq!(SampleSet::from_number(1), Some(SampleSet::Normal));
    assert_eq!(SampleSet::from_number(2), Some(SampleSet::Soft));
    assert_eq!(SampleSet::from_number(3), Some(SampleSet::Drum));
    assert_eq!(SampleSet::from_number(4), None);
}

#[test]
fn uninherited_is_any_small_number_but_zero() {
    assert!(point("0,1,4,0,0,0,2,0").unwrap().uninherited);
    assert!(point("0,1,4,0,0,0,255,0").unwrap().uninherited);
    assert!(!point("0,1,4,0,0,0,0,0").unwrap().uninherited);
    assert_eq!(
        point("0,1,4,0,0,0,256,0"),
        Err(err(ErrorKind::NumericFormat, Field::Uninherited))
    );
}

#[test]
fn timing_point_errors() {
    assert_eq!(
        point("0,1,4,0,0,0,1"),
        Err(err(ErrorKind::MalformedLine, Field::Line))
    );
    assert_eq!(point(""), Err(err(ErrorKind::MalformedLine, Field::Line)));
    assert_eq!(
        point("x,1,4,0,0,0,1,0"),
        Err(err(ErrorKind::NumericFormat, Field::Time))
    );
    assert_eq!(
        point("0,fast,4,0,0,0,1,0"),
        Err(err(ErrorKind::NumericFormat, Field::BeatLength))
    );
    assert_eq!(
        point("0,1,,0,0,0,1,0"),
        Err(err(ErrorKind::NumericFormat, Field::Meter))
    );
    assert_eq!(
        point("0,1,4,4,0,0,1,0"),
        Err(err(ErrorKind::NumericFormat, Field::SampleSet))
    );
    assert_eq!(
        point("0,1,4,Soft,0,0,1,0"),
        Err(err(ErrorKind::NumericFormat, Field::SampleSet))
    );
    assert_eq!(
        point("0,1,4,0,-1,0,1,0"),
        Err(err(ErrorKind::NumericFormat, Field::SampleIndex))
    );
    assert_eq!(
        point("0,1,4,0,0,loud,1,0"),
        Err(err(ErrorKind::NumericFormat, Field::Volume))
    );
    assert_eq!(
        point("0,1,4,0,0,0,yes,0"),
        Err(err(ErrorKind::NumericFormat, Field::Uninherited))
    );
    assert_eq!(
        point("0,1,4,0,0,0,1,kiai"),
        Err(err(ErrorKind::NumericFormat, Field::Effects))
    );
    let mut beatmap = Beatmap::default();
    assert!(parse_timing_points("0,1,4,0,0,0,1,kiai", &mut beatmap).is_err());
    assert_eq!(beatmap, Beatmap::default());
}

#[test]
fn timing_points_keep_the_order_of_the_lines() {
    let mut beatmap = Beatmap::default();
    parse_timing_points("30,1,4,0,0,0,1,0", &mut beatmap).unwrap();
    parse_timing_points("10,1,4,0,0,0,1,0,extra", &mut beatmap).unwrap();
    parse_timing_points(" 20 ,\t1 ,4,0,0,0,1,0\r", &mut beatmap).unwrap();
    let times: Vec<u32> = beatmap.timing_points.iter().map(|p| p.time).collect();
    assert_eq!(times, vec![30, 10, 20]);
}

#[test]
fn default_timing_point() {
    assert_eq!(
        TimingPoint::default(),
        TimingPoint::new(
            0,
            FloatLiteral::new("500.0").unwrap(),
            4,
            SampleSet::Default,
            0,
            100,
            true,
            Effects::NoEffect
        )
    );
}
