use hoshizora_parser::file_sections::FileSections;

#[test]
fn test_parse_success() {
    let test_str = "[Difficulty]";
    assert_eq!(
        FileSections::get_section(test_str),
        FileSections::Difficulty
    );
}

#[test]
fn test_parse_fail() {
    let test_str = "[Garbage]";
    assert_eq!(FileSections::get_section(test_str), FileSections::NoSection);
}

#[test]
fn every_section_is_named() {
    assert_eq!(FileSections::get_section("[Format]"), FileSections::Format);
    assert_eq!(FileSections::get_section("[General]"), FileSections::General);
    assert_eq!(FileSections::get_section("[Editor]"), FileSections::Editor);
    assert_eq!(FileSections::get_section("[Metadata]"), FileSections::Metadata);
    assert_eq!(FileSections::get_section("[Difficulty]"), FileSections::Difficulty);
    assert_eq!(FileSections::get_section("[Events]"), FileSections::Events);
    assert_eq!(FileSections::get_section("[TimingPoints]"), FileSections::TimingPoints);
    assert_eq!(FileSections::get_section("[Colours]"), FileSections::Colours);
    assert_eq!(FileSections::get_section("[HitObjects]"), FileSections::HitObjects);
}

#[test]
fn header_is_trimmed_and_brackets_are_stripped() {
    assert_eq!(FileSections::get_section("   [General]  \r"), FileSections::General);
    assert_eq!(FileSections::get_section("\t[[HitObjects]]"), FileSections::HitObjects);
    assert_eq!(FileSections::get_section("Editor"), FileSections::Editor);
    assert_eq!(FileSections::get_section("\u{3000}[Events]\u{a0}"), FileSections::Events);
}

#[test]
fn names_are_case_sensitive_and_exact() {
    assert_eq!(FileSections::get_section("[general]"), FileSections::NoSection);
    assert_eq!(FileSections::get_section("[ General ]"), FileSections::NoSection);
    assert_eq!(FileSections::get_section("[Generals]"), FileSections::NoSection);
    assert_eq!(FileSections::get_section("[NoSection]"), FileSections::NoSection);
    assert_eq!(FileSections::get_section("[None]"), FileSections::NoSection);
    assert_eq!(FileSections::get_section(""), FileSections::NoSection);
    assert_eq!(FileSections::get_section("[]"), FileSections::NoSection);
}
