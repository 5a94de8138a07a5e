use mod_player::text::latin1_string;
use mod_player::textout::{has_mod_extension, line_string, note_string, song_info_string};
use mod_player::{Effect, FormatDescription, Note, Sample, Song};

#[test]
fn every_note_of_the_table_has_its_name() {
    assert_eq!(note_string(428), "C-4");
    assert_eq!(note_string(856), "C-3");
    assert_eq!(note_string(113), "B-5");
    assert_eq!(note_string(453), "B-3");
    assert_eq!(note_string(1357), "E-3");
    assert_eq!(note_string(58), "B-6");
    assert_eq!(note_string(59), "A#6");
    assert_eq!(note_string(1711), "C-2");
    assert_eq!(note_string(1664), "C-2");
    assert_eq!(note_string(1663), "C#2");
    assert_eq!(note_string(u32::MAX), "C-2");
    assert_eq!(note_string(1), "B-6");
}

#[test]
fn bytes_are_read_as_latin_1() {
    assert_eq!(latin1_string(b"hello world", 0, 5), "hello");
    assert_eq!(latin1_string(b"hello world", 6, 11), "world");
    assert_eq!(latin1_string(b"hello world", 3, 3), "");
    assert_eq!(latin1_string(&[0x41, 0xe9, 0x00, 0x7f, 0x80, 0xff], 0, 6), "A\u{e9}\0\u{7f}\u{80}\u{ff}");
}

#[test]
fn a_line_prints_note_by_note() {
    let line = vec![
        Note { sample_number: 1, period: 428, effect: Effect::SetVolume { volume: 48 } },
        Note { sample_number: 0, period: 0, effect: Effect::NoEffect },
        Note { sample_number: 31, period: 128, effect: Effect::VolumeSlide { volume_change: -3 } },
    ];
    assert_eq!(
        line_string(&line),
        "C-4  1 Volme   48   ... .. ..........   A-5 31 VolSl   -3   "
    );
    assert_eq!(line_string(&Vec::new()), "");
}

#[test]
fn a_song_prints_its_summary() {
    let song = Song {
        name: String::from("tune"),
        format: FormatDescription { num_channels: 4, num_samples: 31, has_tag: true },
        samples: vec![
            Sample {
                name: String::from("lead"),
                size: 131070,
                volume: 64,
                fine_tune: 15,
                repeat_offset: 0,
                repeat_size: 2,
                samples: Vec::new(),
            },
            Sample {
                name: String::new(),
                size: 0,
                volume: 0,
                fine_tune: 0,
                repeat_offset: 10,
                repeat_size: 200,
                samples: Vec::new(),
            },
        ],
        patterns: Vec::new(),
        pattern_table: Vec::new(),
        num_used_patterns: 0,
        end_position: 127,
        has_standard_notes: true,
    };
    assert_eq!(
        song.samples[0].info_string(),
        "   sample Name: lead\n   sample Size: 131070\n   sample volume: 64, fine tune 15\n   repeat Offset: 0, repeat Size 2\n"
    );
    assert_eq!(
        song_info_string(&song),
        "Song: tune\nNumber of channels: 4\nNumber of samples: 31\n\
         Sample #1\n   sample Name: lead\n   sample Size: 131070\n   sample volume: 64, fine tune 15\n   repeat Offset: 0, repeat Size 2\n\
         Sample #2\n   sample Name: \n   sample Size: 0\n   sample volume: 0, fine tune 0\n   repeat Offset: 10, repeat Size 200\n \
         num patterns in song: 0\n end position: 127\n uses standard note table: true\n"
    );
}

#[test]
fn modules_are_known_by_their_extension() {
    assert!(has_mod_extension("tune.mod"));
    assert!(has_mod_extension("TUNE.MOD"));
    assert!(has_mod_extension("dir/a tune.Mod"));
    assert!(has_mod_extension(".mOd"));
    assert!(has_mod_extension("ü.mod"));
    assert!(!has_mod_extension("mod"));
    assert!(!has_mod_extension("tune.mod.txt"));
    assert!(!has_mod_extension("tunemod"));
    assert!(!has_mod_extension("tune.mo"));
    assert!(!has_mod_extension("tune.modx"));
    assert!(!has_mod_extension(""));
    assert!(!has_mod_extension("dir.mod/tune"));
}
