use hoshizora_parser::difficulty::Difficulty;
use hoshizora_parser::editor::Editor;
use hoshizora_parser::error::{DecodeError, ErrorKind, Field, LineError};
use hoshizora_parser::file_sections::FileSections;
use hoshizora_parser::format::Format;
use hoshizora_parser::general::General;
use hoshizora_parser::hit_objects::{HitCircle, HitObject, HitSample};
use hoshizora_parser::metadata::Metadata;
use hoshizora_parser::{parse, read_line, Beatmap};

#[test]
fn test_parse() {
    let test_str = "[General]
            AudioFilename: audio.mp3
            AudioLeadIn: 0
            AudioHash: afjskldfjaldksfjklasf
            PreviewTime: 10
            Countdown: 0
            SampleSet: Drum
            StackLeniency: 0.75
            Mode: 1
            LetterboxInBreaks: 1
            StoryFireInFront: 0
            UseSkinSprites: 1
            AlwaysShowPlayfield: 1
            OverlayPosition: Below
            SkinPreference: Seoul v10
            EpilepsyWarning: 1
            CountdownOffset: 1
            SpecialStyle: 1
            WidescreenStoryboard: 1
            SamplesMatchPlaybackRate: 1

            [Editor]
            DistanceSpacing: 0.8
            BeatDivisor: 4
            GridSize: 32
            TimelineZoom: 3.2

            [Metadata]
            Title:End Time
            TitleUnicode:End Time
            Artist:Cres
            ArtistUnicode:Cres
            Creator:PaRaDogi
            Version:Dogi
            Source:
            Tags:DeviousPanda
            BeatmapID:2797865
            BeatmapSetID:1351450

            [Difficulty]
            HPDrainRate:6.0
            CircleSize:4.2
            OverallDifficulty:8.5
            ApproachRate:9.8
            SliderMultiplier:1.4
            SliderTickRate:2.0

            [HitObjects]
            256,192,11000,21,2
            256,192,11200,8,12,12000,3:0:0:80:
            100,100,12600,6,1,B|200:200|250:200|250:200|300:150,2,310.123,2|1|2,0:0|0:0|0:2,0:0:0:0:";
    let beatmap = parse(test_str).unwrap();

    assert_eq!(beatmap.general.audio_filename, String::from("audio.mp3"));
    assert_eq!(beatmap.difficulty.cs.as_str().parse::<f32>().unwrap(), 4.2);
    assert_eq!(beatmap.metadata.title, String::from("End Time"));
    assert_eq!(beatmap.editor.beat_divisor, 4);
    assert_eq!(beatmap.editor.bookmarks, Vec::new());
    assert_eq!(
        beatmap.hit_objects[0],
        HitObject::HitCircle(HitCircle {
            position_x: 256,
            position_y: 192,
            new_combo: true,
            color_skip: 1,
            time: 11000,
            hitsound: 2,
            hit_sample: HitSample::default(),
        })
    );
    assert_eq!(beatmap.hit_objects.len(), 3);
    assert_eq!(beatmap.timing_points.len(), 0);
}

#[test]
fn empty_text_is_the_default_beatmap() {
    assert_eq!(parse(""), Ok(Beatmap::default()));
    assert_eq!(parse("\n\n  \n"), Ok(Beatmap::default()));
    assert_eq!(
        Beatmap::default(),
        Beatmap::new(
            Format::default(),
            General::default(),
            Editor::default(),
            Metadata::default(),
            Difficulty::default(),
            Vec::new(),
            Vec::new()
        )
    );
}

#[test]
fn lines_outside_every_section_are_passed_over() {
    let beatmap = parse("osu file format v14\nnot a line of anything\n1,2,3").unwrap();
    assert_eq!(beatmap, Beatmap::default());
}

#[test]
fn format_section() {
    let beatmap = parse("[Format]\nosu file format v11\n").unwrap();
    assert_eq!(beatmap.format.version(), 11);
}

#[test]
fn comments_and_blank_lines_keep_the_section() {
    let text = "[HitObjects]\n// a comment\n\n   \n1,2,3,1,0\n//1,2,3,0,0\n4,5,6,1,0\n";
    let beatmap = parse(text).unwrap();
    assert_eq!(beatmap.hit_objects.len(), 2);
}

#[test]
fn indented_comment_is_a_line_of_its_section() {
    assert_eq!(
        parse("[HitObjects]\n  // a comment\n"),
        Err(LineError {
            line: 2,
            error: DecodeError { kind: ErrorKind::MalformedLine, field: Field::Line },
        })
    );
}

#[test]
fn unknown_header_closes_the_section() {
    let text = "[HitObjects]\n1,2,3,1,0\n[Garbage]\nthis is no hit object\n[TimingPoints]\n0,500,4,1,0,100,1,0\n";
    let beatmap = parse(text).unwrap();
    assert_eq!(beatmap.hit_objects.len(), 1);
    assert_eq!(beatmap.timing_points.len(), 1);
}

#[test]
fn events_and_colours_are_passed_over() {
    let text = "[Events]\nSprite,whatever\n[Colours]\nCombo1 : 255,0,0\n[Metadata]\nTitle:x\n";
    let beatmap = parse(text).unwrap();
    assert_eq!(beatmap.metadata.title, "x");
}

#[test]
fn carriage_returns_are_white_space() {
    let text = "[Metadata]\r\nTitle:End Time\r\n[HitObjects]\r\n256,192,11000,21,2\r\n";
    let beatmap = parse(text).unwrap();
    assert_eq!(beatmap.metadata.title, "End Time");
    assert_eq!(beatmap.hit_objects.len(), 1);
}

#[test]
fn first_rejected_line_is_reported_with_its_number() {
    let text = "[HitObjects]\n1,2,3,1,0\n\n1,2,3,0,0\nx\n";
    assert_eq!(
        parse(text),
        Err(LineError {
            line: 4,
            error: DecodeError { kind: ErrorKind::UnknownObjectKind, field: Field::ObjectType },
        })
    );
    assert_eq!(
        parse("[TimingPoints]\n1,2,3"),
        Err(LineError {
            line: 2,
            error: DecodeError { kind: ErrorKind::MalformedLine, field: Field::Line },
        })
    );
    assert_eq!(
        parse("[Difficulty]\nCircleSize:4\nCircleSize:x"),
        Err(LineError {
            line: 3,
            error: DecodeError { kind: ErrorKind::NumericFormat, field: Field::Value },
        })
    );
    assert_eq!(
        parse("[HitObjects]\n1,2,3,2,0"),
        Err(LineError {
            line: 2,
            error: DecodeError { kind: ErrorKind::MissingMandatoryField, field: Field::Curve },
        })
    );
    assert_eq!(
        parse("[HitObjects]\n1,2,3,2,0,Z|1:1,1,1,0|0,0:0|0:0"),
        Err(LineError {
            line: 2,
            error: DecodeError { kind: ErrorKind::UnknownCurveTag, field: Field::CurveType },
        })
    );
}

#[test]
fn one_line_at_a_time() {
    let mut section = FileSections::NoSection;
    let mut beatmap = Beatmap::default();
    let chars = |s: &str| s.chars().collect::<Vec<char>>();
    read_line(&chars("1,2,3,1,0"), &mut section, &mut beatmap).unwrap();
    assert_eq!(beatmap.hit_objects.len(), 0);
    read_line(&chars(" [HitObjects] "), &mut section, &mut beatmap).unwrap();
    assert_eq!(section, FileSections::HitObjects);
    read_line(&chars("1,2,3,1,0"), &mut section, &mut beatmap).unwrap();
    assert_eq!(beatmap.hit_objects.len(), 1);
    assert!(read_line(&chars("1,2,3"), &mut section, &mut beatmap).is_err());
    assert_eq!(section, FileSections::HitObjects);
    assert_eq!(beatmap.hit_objects.len(), 1);
    read_line(&chars("Metadata"), &mut section, &mut beatmap).unwrap();
    assert_eq!(section, FileSections::Metadata);
    read_line(&chars("[Nothing]"), &mut section, &mut beatmap).unwrap();
    assert_eq!(section, FileSections::NoSection);
}
