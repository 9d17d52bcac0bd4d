use hoshizora_parser::difficulty::{parse_difficulty, Difficulty};
use hoshizora_parser::editor::{parse_editor, Editor};
use hoshizora_parser::error::{DecodeError, ErrorKind, Field};
use hoshizora_parser::events::{parse_events, read_event_type, Event, EventType};
use hoshizora_parser::format::{parse_format, Format};
use hoshizora_parser::general::{parse_general, General};
use hoshizora_parser::metadata::{parse_metadata, Metadata};
use hoshizora_parser::number::FloatLiteral;
use hoshizora_parser::Beatmap;

fn err(kind: ErrorKind, field: Field) -> DecodeError {
    DecodeError { kind, field }
}

fn float(text: &str) -> FloatLiteral {
    FloatLiteral::new(text).unwrap()
}

#[test]
fn test_parse_difficulty() {
    let test_str = "HPDrainRate:6.0
            CircleSize:4.2
            OverallDifficulty:8.5
            ApproachRate:9.8
            SliderMultiplier:1.4
            SliderTickRate:2.0";
    let mut beatmap = Beatmap::default();
    for line in test_str.lines() {
        parse_difficulty(line, &mut beatmap).unwrap();
    }

    assert_eq!(
        beatmap,
        Beatmap {
            format: Format::default(),
            general: General::default(),
            editor: Editor::default(),
            metadata: Metadata::default(),
            difficulty: Difficulty {
                hp: float("6.0"),
                cs: float("4.2"),
                od: float("8.5"),
                ar: float("9.8"),
                slider_multiplier: float("1.4"),
                slider_tickrate: float("2.0"),
            },
            timing_points: Vec::new(),
            hit_objects: Vec::new(),
        }
    );
    assert_eq!(beatmap.difficulty.hp.as_str().parse::<f32>().unwrap(), 6.0);
    assert_eq!(beatmap.difficulty.cs.as_str().parse::<f32>().unwrap(), 4.2);
    assert_eq!(beatmap.difficulty.od.as_str().parse::<f32>().unwrap(), 8.5);
    assert_eq!(beatmap.difficulty.ar.as_str().parse::<f32>().unwrap(), 9.8);
    assert_eq!(
        beatmap
            .difficulty
            .slider_multiplier
            .as_str()
            .parse::<f32>()
            .unwrap(),
        1.4
    );
    assert_eq!(
        beatmap
            .difficulty
            .slider_tickrate
            .as_str()
            .parse::<f32>()
            .unwrap(),
        2.0
    );
}

#[test]
fn default_difficulty() {
    assert_eq!(
        Difficulty::default(),
        Difficulty::new(
            float("5.0"),
            float("5.0"),
            float("5.0"),
            float("5.0"),
            float("1.0"),
            float("1.4")
        )
    );
}

#[test]
fn difficulty_errors() {
    let mut beatmap = Beatmap::default();
    assert_eq!(
        parse_difficulty("CircleSize", &mut beatmap),
        Err(err(ErrorKind::MalformedLine, Field::Line))
    );
    assert_eq!(
        parse_difficulty("CircleSize:big", &mut beatmap),
        Err(err(ErrorKind::NumericFormat, Field::Value))
    );
    assert_eq!(
        parse_difficulty("CircleSize:", &mut beatmap),
        Err(err(ErrorKind::NumericFormat, Field::Value))
    );
    assert_eq!(parse_difficulty("Unknown:big", &mut beatmap), Ok(()));
    assert_eq!(parse_difficulty("circlesize:1", &mut beatmap), Ok(()));
    assert_eq!(beatmap, Beatmap::default());
}

#[test]
fn test_parse_editor() {
    let test_str = "DistanceSpacing: 0.8
        BeatDivisor: 4
        GridSize: 32
        TimelineZoom: 3.2";
    let mut beatmap = Beatmap::default();
    for line in test_str.lines() {
        parse_editor(line, &mut beatmap).unwrap();
    }

    assert_eq!(
        beatmap,
        Beatmap {
            format: Format::default(),
            general: General::default(),
            editor: Editor {
                bookmarks: Vec::new(),
                distance_spacing: float("0.8"),
                beat_divisor: 4,
                grid_size: 32,
                timeline_zoom: float("3.2"),
            },
            metadata: Metadata::default(),
            difficulty: Difficulty::default(),
            timing_points: Vec::new(),
            hit_objects: Vec::new(),
        }
    );
    assert_eq!(
        beatmap
            .editor
            .distance_spacing
            .as_str()
            .parse::<f32>()
            .unwrap(),
        0.8
    );
    assert_eq!(
        beatmap.editor.timeline_zoom.as_str().parse::<f32>().unwrap(),
        3.2
    );
}

#[test]
fn editor_bookmarks() {
    let mut beatmap = Beatmap::default();
    parse_editor("Bookmarks: 1000,2500,40000", &mut beatmap).unwrap();
    assert_eq!(beatmap.editor.bookmarks, vec![1000, 2500, 40000]);
    parse_editor("Bookmarks:7", &mut beatmap).unwrap();
    assert_eq!(beatmap.editor.bookmarks, vec![7]);
    assert_eq!(
        parse_editor("Bookmarks:", &mut beatmap),
        Err(err(ErrorKind::NumericFormat, Field::Value))
    );
    assert_eq!(
        parse_editor("Bookmarks: 1, 2", &mut beatmap),
        Err(err(ErrorKind::NumericFormat, Field::Value))
    );
    assert_eq!(beatmap.editor.bookmarks, vec![7]);
}

#[test]
fn editor_errors_and_defaults() {
    assert_eq!(
        Editor::default(),
        Editor::new(Vec::new(), float("1.0"), 4, 4, float("1.0"))
    );
    let mut beatmap = Beatmap::default();
    assert_eq!(
        parse_editor("GridSize: 256", &mut beatmap),
        Err(err(ErrorKind::NumericFormat, Field::Value))
    );
    assert_eq!(
        parse_editor("BeatDivisor: -1", &mut beatmap),
        Err(err(ErrorKind::NumericFormat, Field::Value))
    );
    assert_eq!(
        parse_editor("TimelineZoom: wide", &mut beatmap),
        Err(err(ErrorKind::NumericFormat, Field::Value))
    );
    assert_eq!(
        parse_editor("no colon here", &mut beatmap),
        Err(err(ErrorKind::MalformedLine, Field::Line))
    );
    assert_eq!(parse_editor("Other: 1", &mut beatmap), Ok(()));
    assert_eq!(beatmap, Beatmap::default());
}

#[test]
fn test_parse_metadata() {
    let test_str = "Title:End Time
            TitleUnicode:End Time
            Artist:Cres
            ArtistUnicode:Cres
            Creator:PaRaDogi
            Version:Dogi
            Source:
            Tags:DeviousPanda
            BeatmapID:2797865
            BeatmapSetID:1351450";
    let mut beatmap = Beatmap::default();
    for line in test_str.lines() {
        parse_metadata(line, &mut beatmap).unwrap();
    }

    assert_eq!(
        beatmap,
        Beatmap {
            format: Format::default(),
            general: General::default(),
            editor: Editor::default(),
            metadata: Metadata {
                title: String::from("End Time"),
                title_unicode: String::from("End Time"),
                artist: String::from("Cres"),
                artist_unicode: String::from("Cres"),
                creator: String::from("PaRaDogi"),
                version: String::from("Dogi"),
                source: String::new(),
                tags: vec![String::from("DeviousPanda")],
                beatmap_id: 2797865,
                beatmap_set_id: 1351450,
            },
            difficulty: Difficulty::default(),
            timing_points: Vec::new(),
            hit_objects: Vec::new(),
        }
    );
}

#[test]
fn metadata_tags_and_colons() {
    let mut beatmap = Beatmap::default();
    parse_metadata("Tags: one two  three ", &mut beatmap).unwrap();
    assert_eq!(
        beatmap.metadata.tags,
        vec![
            String::from("one"),
            String::from("two"),
            String::new(),
            String::from("three")
        ]
    );
    parse_metadata("Tags:", &mut beatmap).unwrap();
    assert_eq!(beatmap.metadata.tags, vec![String::new()]);
    parse_metadata("Title: Re:Zero \u{3000}", &mut beatmap).unwrap();
    assert_eq!(beatmap.metadata.title, String::from("Re:Zero"));
    parse_metadata("TitleUnicode:\u{6642}\u{9593}", &mut beatmap).unwrap();
    assert_eq!(
        beatmap.metadata.title_unicode,
        String::from("\u{6642}\u{9593}")
    );
    assert_eq!(
        parse_metadata("BeatmapID: x", &mut beatmap),
        Err(err(ErrorKind::NumericFormat, Field::Value))
    );
    assert_eq!(
        parse_metadata("BeatmapSetID: -1", &mut beatmap),
        Err(err(ErrorKind::NumericFormat, Field::Value))
    );
    assert_eq!(
        parse_metadata("Title", &mut beatmap),
        Err(err(ErrorKind::MalformedLine, Field::Line))
    );
    assert_eq!(Metadata::new(), Metadata::default());
    assert_eq!(Metadata::new().tags, Vec::<String>::new());
}

#[test]
fn test_parse_general() {
    let test_str = "AudioFilename: audio.mp3
            AudioLeadIn: 0
            AudioHash: afjskldfjaldksfjklasf
            PreviewTime: 10
            Countdown: 0
            SampleSet: Drum
            StackLeniency: 0.75
            Mode: 1
            LetterboxInBreaks: 1
            StoryFireInFront: 0
            UseSkinSprites: 1
            AlwaysShowPlayfield: 1
            OverlayPosition: Below
            SkinPreference: Seoul v10
            EpilepsyWarning: 1
            CountdownOffset: 1
            SpecialStyle: 1
            WidescreenStoryboard: 1
            SamplesMatchPlaybackRate: 1";
    let mut beatmap = Beatmap::default();
    for line in test_str.lines() {
        parse_general(line, &mut beatmap).unwrap()
    }

    assert_eq!(
        beatmap,
        Beatmap {
            format: Format::default(),
            general: General {
                audio_filename: String::from("audio.mp3"),
                audio_lead_in: 0,
                audio_hash: String::from("afjskldfjaldksfjklasf"),
                preview_time: 10,
                countdown: 0,
                sample_set: String::from("Drum"),
                stack_leniency: float("0.75"),
                mode: 1,
                letterbox_in_breaks: true,
                story_fire_in_front: false,
                use_skin_sprites: true,
                always_show_playfield: true,
                overlay_position: String::from("Below"),
                skin_preference: String::from("Seoul v10"),
                epilepsy_warning: true,
                countdown_offset: 1,
                special_style: true,
                widescreen_storyboard: true,
                samples_match_playback_rate: true,
            },
            editor: Editor::default(),
            metadata: Metadata::default(),
            difficulty: Difficulty::default(),
            timing_points: Vec::new(),
            hit_objects: Vec::new(),
        }
    );
    assert_eq!(
        beatmap
            .general
            .stack_leniency
            .as_str()
            .parse::<f32>()
            .unwrap(),
        0.75
    );
}

#[test]
fn general_defaults() {
    let general = General::new();
    assert_eq!(general, General::default());
    assert_eq!(general.audio_filename, "");
    assert_eq!(general.audio_lead_in, 0);
    assert_eq!(general.audio_hash, "");
    assert_eq!(general.preview_time, -1);
    assert_eq!(general.countdown, 1);
    assert_eq!(general.sample_set, "Normal");
    assert_eq!(general.stack_leniency.as_str(), "0.7");
    assert_eq!(general.mode, 0);
    assert!(!general.letterbox_in_breaks);
    assert!(general.story_fire_in_front);
    assert!(!general.use_skin_sprites);
    assert!(!general.always_show_playfield);
    assert_eq!(general.overlay_position, "NoChange");
    assert_eq!(general.skin_preference, "");
    assert!(!general.epilepsy_warning);
    assert_eq!(general.countdown_offset, 0);
    assert!(!general.special_style);
    assert!(!general.widescreen_storyboard);
    assert!(!general.samples_match_playback_rate);
}

#[test]
fn general_errors() {
    let mut beatmap = Beatmap::default();
    assert_eq!(
        parse_general("AudioLeadIn: soon", &mut beatmap),
        Err(err(ErrorKind::NumericFormat, Field::Value))
    );
    assert_eq!(
        parse_general("PreviewTime: 2147483648", &mut beatmap),
        Err(err(ErrorKind::NumericFormat, Field::Value))
    );
    assert_eq!(
        parse_general("StackLeniency: 0,7", &mut beatmap),
        Err(err(ErrorKind::NumericFormat, Field::Value))
    );
    assert_eq!(
        parse_general("EpilepsyWarning: true", &mut beatmap),
        Err(err(ErrorKind::NumericFormat, Field::Value))
    );
    assert_eq!(
        parse_general("SpecialStyle: 256", &mut beatmap),
        Err(err(ErrorKind::NumericFormat, Field::Value))
    );
    assert_eq!(
        parse_general("AudioFilename", &mut beatmap),
        Err(err(ErrorKind::MalformedLine, Field::Line))
    );
    assert_eq!(beatmap, Beatmap::default());
    parse_general("PreviewTime: -1500", &mut beatmap).unwrap();
    assert_eq!(beatmap.general.preview_time, -1500);
    parse_general("StoryFireInFront: 0", &mut beatmap).unwrap();
    assert!(!beatmap.general.story_fire_in_front);
    parse_general("StoryFireInFront: 7", &mut beatmap).unwrap();
    assert!(beatmap.general.story_fire_in_front);
    parse_general("Unknown: whatever", &mut beatmap).unwrap();
    parse_general("AudioFilename: a:b.mp3", &mut beatmap).unwrap();
    assert_eq!(beatmap.general.audio_filename, "a:b.mp3");
}

#[test]
fn format_version() {
    let mut beatmap = Beatmap::default();
    assert_eq!(beatmap.format.version(), 14);
    assert_eq!(Format::default(), Format::new(14));
    parse_format("osu file format v12", &mut beatmap).unwrap();
    assert_eq!(beatmap.format, Format::new(12));
    parse_format("  osu file format v9  ", &mut beatmap).unwrap();
    assert_eq!(beatmap.format.version(), 9);
    parse_format("128", &mut beatmap).unwrap();
    assert_eq!(beatmap.format.version(), 128);
    parse_format("osu file format vosu file format v7", &mut beatmap).unwrap();
    assert_eq!(beatmap.format.version(), 7);
    assert_eq!(
        parse_format("osu file format v", &mut beatmap),
        Err(err(ErrorKind::NumericFormat, Field::Version))
    );
    assert_eq!(
        parse_format("osu file format 14", &mut beatmap),
        Err(err(ErrorKind::NumericFormat, Field::Version))
    );
    assert_eq!(
        parse_format("osu file format v 14", &mut beatmap),
        Err(err(ErrorKind::NumericFormat, Field::Version))
    );
    assert_eq!(beatmap.format.version(), 7);
}

#[test]
fn event_types() {
    assert_eq!(
        read_event_type(&['0', ',', 'x']),
        Ok(EventType::Background)
    );
    let mut beatmap = Beatmap::default();
    assert_eq!(parse_events("0,0,\"bg.jpg\",0,0", &mut beatmap), Ok(()));
    assert_eq!(parse_events("Video,0,\"v.mp4\"", &mut beatmap), Ok(()));
    assert_eq!(parse_events(" 1 ,0,\"v.mp4\"", &mut beatmap), Ok(()));
    assert_eq!(parse_events("2,100,200", &mut beatmap), Ok(()));
    assert_eq!(parse_events("Break,100,200", &mut beatmap), Ok(()));
    assert_eq!(
        parse_events("Sprite,Background,Centre,\"a.png\",0,0", &mut beatmap),
        Err(err(ErrorKind::MalformedLine, Field::EventType))
    );
    assert_eq!(
        parse_events("", &mut beatmap),
        Err(err(ErrorKind::MalformedLine, Field::EventType))
    );
    assert_eq!(beatmap, Beatmap::default());
    let chars: Vec<char> = "Video,5".chars().collect();
    assert_eq!(read_event_type(&chars), Ok(EventType::Video));
    let chars: Vec<char> = "2".chars().collect();
    assert_eq!(read_event_type(&chars), Ok(EventType::Break));
}

#[test]
fn events_are_built() {
    let event = Event::new(EventType::Break, 5, vec![String::from("10")]);
    assert_eq!(
        event,
        Event {
            event_type: EventType::Break,
            start_time: 5,
            event_params: vec![String::from("10")],
        }
    );
    assert_eq!(
        Event::default(),
        Event::new(EventType::Background, 0, Vec::new())
    );
}
