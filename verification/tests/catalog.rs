use audio_recorder::catalog::{contains_part, is_space_char, matches_at, parse_sources, trim_bounds};

const LISTING: &str = "Source #0
\tState: SUSPENDED
\tName: alsa_output.pci-0000_00_1f.3.analog-stereo.monitor
\tDescription: Monitor of Built-in Audio Analog Stereo
\tDriver: module-alsa-card.c
\tProperties:
\t\tdevice.description = \"Monitor of Built-in Audio\"

Source #1
\tState: RUNNING
\tName: alsa_input.pci-0000_00_1f.3.analog-stereo
\tDescription: Built-in Audio Analog Stereo
";

#[test]
fn the_listing_is_read_into_sources() {
    let sources = parse_sources(LISTING);
    assert_eq!(sources.len(), 2);
    assert_eq!(sources[0].name, "alsa_output.pci-0000_00_1f.3.analog-stereo.monitor");
    assert_eq!(sources[0].display_name, "Monitor of Built-in Audio Analog Stereo");
    assert!(sources[0].is_monitor);
    assert_eq!(sources[1].name, "alsa_input.pci-0000_00_1f.3.analog-stereo");
    assert_eq!(sources[1].display_name, "Built-in Audio Analog Stereo");
    assert!(!sources[1].is_monitor);
}

#[test]
fn an_empty_listing_has_no_sources() {
    assert!(parse_sources("").is_empty());
    assert!(parse_sources("\n\n\n").is_empty());
    assert!(parse_sources("nothing to see").is_empty());
}

#[test]
fn a_description_without_a_name_is_skipped() {
    let sources = parse_sources("Description: lonely\nName: a\nDescription: A\nDescription: again\n");
    assert_eq!(sources.len(), 1);
    assert_eq!(sources[0].name, "a");
    assert_eq!(sources[0].display_name, "A");
}

#[test]
fn a_later_name_replaces_a_waiting_one() {
    let sources = parse_sources("Name: first\nName: second.monitor\nDescription: Second");
    assert_eq!(sources.len(), 1);
    assert_eq!(sources[0].name, "second.monitor");
    assert!(sources[0].is_monitor);
}

#[test]
fn lines_are_trimmed_and_carriage_returns_do_not_count() {
    let sources = parse_sources("   Name: mic  \r\n\u{a0}Description: Le micro d'été \u{2003}\r\n");
    assert_eq!(sources.len(), 1);
    assert_eq!(sources[0].name, "mic");
    assert_eq!(sources[0].display_name, "Le micro d'été");
}

#[test]
fn prefixes_need_their_space_and_something_behind_it() {
    assert!(parse_sources("Name:x\nDescription: X").is_empty());
    assert!(parse_sources("Name: \nDescription: X").is_empty());
    assert!(parse_sources("Name: x\nDescription: ").is_empty());
    assert!(parse_sources("Name: x\nDescription:X").is_empty());
    assert_eq!(parse_sources("Name: x\nDescription: ").len(), 0);
    assert_eq!(parse_sources("Name: x\nDescription: \nDescription: late").len(), 1);
}

#[test]
fn white_space_is_what_the_standard_library_calls_white_space() {
    for code in 0u32..=0x10ffff {
        if let Some(c) = char::from_u32(code) {
            assert_eq!(is_space_char(c), c.is_whitespace());
        }
    }
}

#[test]
fn trimming_finds_the_bounds_of_the_inner_text() {
    let chars: Vec<char> = "ab  cd \t".chars().collect();
    assert_eq!(trim_bounds(&chars, 0, chars.len()), (0, 6));
    assert_eq!(trim_bounds(&chars, 2, chars.len()), (4, 6));
    assert_eq!(trim_bounds(&chars, 2, 4), (4, 4));
    assert_eq!(trim_bounds(&chars, 6, 8), (8, 8));
    assert_eq!(trim_bounds(&chars, 3, 3), (3, 3));
}

#[test]
fn parts_are_found_where_they_occur() {
    let chars: Vec<char> = "a.monitor.b".chars().collect();
    let part: Vec<char> = ".monitor".chars().collect();
    assert!(matches_at(&chars, 0, chars.len(), 1, &part));
    assert!(!matches_at(&chars, 0, chars.len(), 0, &part));
    assert!(!matches_at(&chars, 0, chars.len(), 4, &part));
    assert!(!matches_at(&chars, 0, chars.len(), 11, &part));
    assert!(matches_at(&chars, 0, chars.len(), 11, &[]));
    assert!(!matches_at(&chars, 0, chars.len(), 12, &[]));
    assert!(contains_part(&chars, 0, chars.len(), &part));
    assert!(contains_part(&chars, 1, 9, &part));
    assert!(!contains_part(&chars, 1, 8, &part));
    assert!(!contains_part(&chars, 2, chars.len(), &part));
    assert!(contains_part(&chars, 3, 3, &[]));
}
