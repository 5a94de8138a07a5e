use mod_player::line::play_line;
use mod_player::row::play_note;
use mod_player::tick::update_effects;
use mod_player::{
    next_sample, Effect, FormatDescription, Note, Pattern, PlayerState, Sample, Song,
};

fn blank_note() -> Note {
    Note { sample_number: 0, period: 0, effect: Effect::NoEffect }
}

fn blank_pattern(num_channels: usize) -> Pattern {
    let mut pattern = Pattern::new();
    for line in 0..64 {
        for _ in 0..num_channels {
            pattern.lines[line].push(blank_note());
        }
    }
    pattern
}

fn square_wave(size: usize, volume: u8) -> Sample {
    let mut samples = Vec::new();
    for i in 0..size {
        samples.push(if (i / 8) % 2 == 0 { 127 } else { -127 });
    }
    Sample {
        name: String::from("square"),
        size: size as u32,
        volume,
        fine_tune: 0,
        repeat_offset: 0,
        repeat_size: size as u32,
        samples,
    }
}

fn song_of(num_channels: u32, patterns: Vec<Pattern>, pattern_table: Vec<u8>) -> Song {
    let num_used_patterns = pattern_table.len() as u32;
    Song {
        name: String::from("test"),
        format: FormatDescription { num_channels, num_samples: 31, has_tag: true },
        samples: vec![square_wave(64, 64)],
        patterns,
        pattern_table,
        num_used_patterns,
        end_position: 255,
        has_standard_notes: true,
    }
}

#[test]
fn silent_song_ends_on_the_first_call() {
    let song = song_of(4, Vec::new(), Vec::new());
    let mut player = PlayerState::new(4, 48_100);
    assert!(!player.song_has_ended);
    let levels = next_sample(&song, &mut player);
    assert!(player.song_has_ended);
    assert_eq!(levels, (0, 0));
    for _ in 0..5000 {
        assert_eq!(next_sample(&song, &mut player), (0, 0));
        assert!(player.song_has_ended);
        assert_eq!(player.song_pattern_position, 0);
    }
}

#[test]
fn one_tone_sounds_on_the_left_from_the_first_sample() {
    let mut pattern = blank_pattern(1);
    pattern.lines[0][0] = Note { sample_number: 1, period: 428, effect: Effect::NoEffect };
    let song = song_of(1, vec![pattern], vec![0]);
    let mut player = PlayerState::new(1, 48_100);
    let levels = next_sample(&song, &mut player);
    assert_eq!(levels, (127 * 64, 0));
    assert_eq!(levels.0 as f32 / 8192.0, 127.0 / 128.0);
    // at a volume of 1 the level is 127 / (128 * 64)
    let mut quiet = song;
    quiet.samples[0].volume = 1;
    let mut player = PlayerState::new(1, 48_100);
    let levels = next_sample(&quiet, &mut player);
    assert_eq!(levels, (127, 0));
    assert!((levels.0 as f32 / 8192.0 - 0.0155).abs() < 0.00005);
    // the second device sample is read one step on, from the same byte
    assert_eq!(player.channels[0].sample_pos, (3_579_545u64 * 65536 / 48_100) / 428);
    assert_eq!(next_sample(&quiet, &mut player), (127, 0));
}

#[test]
fn set_speed_three_plays_a_line_every_three_ticks() {
    let mut pattern = blank_pattern(4);
    pattern.lines[0][0] = Note { sample_number: 0, period: 0, effect: Effect::SetSpeed { speed: 3 } };
    let song = song_of(4, vec![pattern], vec![0]);
    let mut player = PlayerState::new(4, 48_100);
    next_sample(&song, &mut player);
    assert_eq!(player.song_speed, 3);
    assert_eq!(player.current_line, 1);
    let per_tick = player.samples_per_vblank;
    assert_eq!(per_tick, 962);
    for line in 1..10u32 {
        for _ in 0..3 * per_tick - 1 {
            next_sample(&song, &mut player);
            assert_eq!(player.current_line, line);
        }
        next_sample(&song, &mut player);
        assert_eq!(player.current_line, line + 1);
    }
}

#[test]
fn pattern_break_goes_to_the_line_of_the_next_pattern() {
    let mut first = blank_pattern(4);
    first.lines[0][1] = Note {
        sample_number: 0,
        period: 0,
        effect: Effect::new(13, 0x16).unwrap(),
    };
    let song = song_of(4, vec![first, blank_pattern(4)], vec![0, 1]);
    let mut player = PlayerState::new(4, 48_100);
    play_line(&song, &mut player);
    assert_eq!(player.next_pattern_pos, 16);
    assert_eq!((player.song_pattern_position, player.current_line), (0, 1));
    play_line(&song, &mut player);
    assert_eq!(player.next_pattern_pos, -1);
    assert_eq!((player.song_pattern_position, player.current_line), (1, 17));
}

#[test]
fn volume_slide_up_stops_at_64() {
    let song = song_of(4, vec![blank_pattern(4)], vec![0]);
    let mut player = PlayerState::new(4, 48_100);
    play_note(
        &Note { sample_number: 1, period: 428, effect: Effect::SetVolume { volume: 60 } },
        &mut player,
        0,
        &song,
    );
    assert_eq!(player.channels[0].volume, 60);
    play_note(
        &Note { sample_number: 0, period: 0, effect: Effect::new(10, 0xf0u8 as i8).unwrap() },
        &mut player,
        0,
        &song,
    );
    assert_eq!(player.channels[0].volume_change, 15);
    update_effects(&mut player, &song);
    assert_eq!(player.channels[0].volume, 64);
    update_effects(&mut player, &song);
    assert_eq!(player.channels[0].volume, 64);
}

fn note(sample_number: u8, period: u32, effect: Effect) -> Note {
    Note { sample_number, period, effect }
}

fn fresh(song: &Song) -> PlayerState {
    PlayerState::new(song.format.num_channels, 48_100)
}

/// Plays device samples until the song has come to another line.
fn play_to_next_line(song: &Song, player: &mut PlayerState) {
    let place = (player.song_pattern_position, player.current_line);
    while (player.song_pattern_position, player.current_line) == place {
        next_sample(song, player);
    }
}

#[test]
fn a_pattern_loop_of_three_plays_its_lines_four_times() {
    let mut pattern = blank_pattern(4);
    pattern.lines[0][0] = note(0, 0, Effect::PatternLoop { arg: 0 });
    pattern.lines[2][1] = note(0, 0, Effect::PatternLoop { arg: 3 });
    let song = song_of(4, vec![pattern], vec![0]);
    let mut player = fresh(&song);
    let mut lines = Vec::new();
    for _ in 0..14 {
        // the line that is about to be played
        lines.push(player.current_line);
        play_line(&song, &mut player);
    }
    assert_eq!(lines, vec![0, 1, 2, 0, 1, 2, 0, 1, 2, 0, 1, 2, 3, 4]);
    assert_eq!(player.pattern_loop, 0);
    assert_eq!(player.pattern_loop_position, None);
}

#[test]
fn a_pattern_loop_without_a_mark_jumps_nowhere() {
    let mut pattern = blank_pattern(4);
    pattern.lines[2][1] = note(0, 0, Effect::PatternLoop { arg: 3 });
    let song = song_of(4, vec![pattern], vec![0]);
    let mut player = fresh(&song);
    for line in 0..10 {
        assert_eq!(player.current_line, line);
        play_line(&song, &mut player);
        assert!(!player.set_pattern_position);
    }
}

#[test]
fn a_vibrato_or_tremolo_of_zero_goes_on_as_before() {
    let song = song_of(4, vec![blank_pattern(4)], vec![0]);
    let mut player = fresh(&song);
    play_note(&note(1, 428, Effect::Vibrato { speed: 5, amplitude: 9 }), &mut player, 2, &song);
    assert_eq!((player.channels[2].vibrato_speed, player.channels[2].vibrato_depth), (5, 9));
    play_note(&note(0, 0, Effect::Vibrato { speed: 0, amplitude: 0 }), &mut player, 2, &song);
    assert_eq!((player.channels[2].vibrato_speed, player.channels[2].vibrato_depth), (5, 9));
    play_note(&note(0, 0, Effect::Vibrato { speed: 0, amplitude: 3 }), &mut player, 2, &song);
    assert_eq!((player.channels[2].vibrato_speed, player.channels[2].vibrato_depth), (5, 3));
    play_note(&note(0, 0, Effect::Vibrato { speed: 7, amplitude: 0 }), &mut player, 2, &song);
    assert_eq!((player.channels[2].vibrato_speed, player.channels[2].vibrato_depth), (7, 3));
    play_note(&note(0, 0, Effect::NoEffect), &mut player, 2, &song);
    assert_eq!((player.channels[2].vibrato_speed, player.channels[2].vibrato_depth), (0, 0));

    play_note(&note(1, 428, Effect::Tremolo { speed: 4, amplitude: 6 }), &mut player, 1, &song);
    assert_eq!((player.channels[1].tremolo_speed, player.channels[1].tremolo_depth), (4, 6));
    play_note(&note(0, 0, Effect::Tremolo { speed: 0, amplitude: 0 }), &mut player, 1, &song);
    assert_eq!((player.channels[1].tremolo_speed, player.channels[1].tremolo_depth), (4, 6));
    play_note(&note(0, 0, Effect::Tremolo { speed: 0, amplitude: 2 }), &mut player, 1, &song);
    assert_eq!((player.channels[1].tremolo_speed, player.channels[1].tremolo_depth), (0, 2));
}

#[test]
fn a_tone_portamento_without_a_note_slides_to_the_last_target() {
    let song = song_of(4, vec![blank_pattern(4)], vec![0]);
    let mut player = fresh(&song);
    play_note(&note(1, 428, Effect::NoEffect), &mut player, 0, &song);
    play_note(&note(0, 214, Effect::TonePortamento { speed: 8 }), &mut player, 0, &song);
    let channel = player.channels[0];
    assert_eq!((channel.period, channel.period_target, channel.note_change), (428, Some(214), 8));
    assert_eq!((channel.last_porta_target, channel.last_porta_speed), (214, 8));
    update_effects(&mut player, &song);
    assert_eq!(player.channels[0].period, 420);
    play_note(&note(0, 0, Effect::NoEffect), &mut player, 0, &song);
    update_effects(&mut player, &song);
    assert_eq!(player.channels[0].period, 420);
    play_note(&note(0, 0, Effect::TonePortamento { speed: 0 }), &mut player, 0, &song);
    let channel = player.channels[0];
    assert_eq!((channel.period, channel.period_target, channel.note_change), (420, Some(214), 8));
    for _ in 0..30 {
        update_effects(&mut player, &song);
    }
    assert_eq!(player.channels[0].period, 214);
    play_note(&note(0, 0, Effect::TonePortamentoVolumeSlide { volume_change: -2 }), &mut player, 0, &song);
    let channel = player.channels[0];
    assert_eq!((channel.period_target, channel.note_change, channel.volume_change), (Some(214), 8, -2));
}

#[test]
fn a_slide_after_a_tone_portamento_slides_plainly() {
    let song = song_of(4, vec![blank_pattern(4)], vec![0]);
    let mut player = fresh(&song);
    play_note(&note(1, 428, Effect::NoEffect), &mut player, 0, &song);
    play_note(&note(0, 214, Effect::TonePortamento { speed: 8 }), &mut player, 0, &song);
    update_effects(&mut player, &song);
    assert_eq!(player.channels[0].period, 420);
    // the target of the portamento lies below, and the slide goes up all the same
    play_note(&note(0, 0, Effect::SlideDown { speed: 10 }), &mut player, 0, &song);
    assert_eq!(player.channels[0].period_target, None);
    update_effects(&mut player, &song);
    assert_eq!(player.channels[0].period, 430);
    play_note(&note(0, 0, Effect::SlideUp { speed: 10 }), &mut player, 0, &song);
    update_effects(&mut player, &song);
    update_effects(&mut player, &song);
    assert_eq!(player.channels[0].period, 410);
    // a portamento upwards stops at its target
    play_note(&note(0, 428, Effect::TonePortamento { speed: 10 }), &mut player, 0, &song);
    let mut periods = Vec::new();
    for _ in 0..4 {
        update_effects(&mut player, &song);
        periods.push(player.channels[0].period);
    }
    assert_eq!(periods, vec![420, 428, 428, 428]);
}

#[test]
fn a_sample_offset_past_the_end_starts_from_the_remainder() {
    let mut song = song_of(4, vec![blank_pattern(4)], vec![0]);
    song.samples = vec![square_wave(600, 64)];
    let mut player = fresh(&song);
    play_note(&note(1, 428, Effect::SetSampleOffset { offset: 1 }), &mut player, 0, &song);
    assert_eq!(player.channels[0].sample_pos, 256 * 65536);
    play_note(&note(1, 428, Effect::SetSampleOffset { offset: 2 }), &mut player, 0, &song);
    assert_eq!(player.channels[0].sample_pos, 512 * 65536);
    play_note(&note(1, 428, Effect::SetSampleOffset { offset: 3 }), &mut player, 0, &song);
    assert_eq!(player.channels[0].sample_pos, (768 - 600) * 65536);
    play_note(&note(1, 428, Effect::SetSampleOffset { offset: 255 }), &mut player, 0, &song);
    assert_eq!(player.channels[0].sample_pos, (255 * 256 % 600) * 65536);
    // without a period the offset is left alone
    play_note(&note(1, 0, Effect::SetSampleOffset { offset: 1 }), &mut player, 0, &song);
    assert_eq!(player.channels[0].sample_pos, (255 * 256 % 600) * 65536);
}

#[test]
fn set_speed_counts_ticks_up_to_31_and_beats_from_32() {
    let song = song_of(4, vec![blank_pattern(4)], vec![0]);
    let mut player = fresh(&song);
    assert_eq!((player.song_speed, player.samples_per_vblank), (6, 962));
    play_note(&note(0, 0, Effect::SetSpeed { speed: 31 }), &mut player, 0, &song);
    assert_eq!((player.song_speed, player.samples_per_vblank), (31, 962));
    play_note(&note(0, 0, Effect::SetSpeed { speed: 32 }), &mut player, 0, &song);
    assert_eq!((player.song_speed, player.samples_per_vblank), (31, 48_100 * 5 / 64));
    play_note(&note(0, 0, Effect::SetSpeed { speed: 125 }), &mut player, 0, &song);
    assert_eq!((player.song_speed, player.samples_per_vblank), (31, 962));
    play_note(&note(0, 0, Effect::SetSpeed { speed: 255 }), &mut player, 0, &song);
    assert_eq!((player.song_speed, player.samples_per_vblank), (31, 471));
    play_note(&note(0, 0, Effect::SetSpeed { speed: 0 }), &mut player, 0, &song);
    assert_eq!((player.song_speed, player.samples_per_vblank), (0, 471));
}

#[test]
fn a_speed_of_zero_plays_a_line_on_every_tick() {
    let mut pattern = blank_pattern(4);
    pattern.lines[0][0] = note(0, 0, Effect::SetSpeed { speed: 0 });
    let song = song_of(4, vec![pattern], vec![0]);
    let mut player = fresh(&song);
    next_sample(&song, &mut player);
    for line in 1..20u32 {
        assert_eq!(player.current_line, line);
        for _ in 0..962 {
            next_sample(&song, &mut player);
        }
    }
}

#[test]
fn a_new_player_stands_before_the_first_line() {
    let player = PlayerState::new(8, 44_100);
    assert_eq!(player.channels.len(), 8);
    assert!(player.channels.iter().all(|channel| *channel == mod_player::ChannelInfo::new()));
    assert_eq!((player.song_pattern_position, player.current_line), (0, 0));
    assert!(!player.song_has_ended && !player.has_looped);
    assert_eq!(player.device_sample_rate, 44_100);
    assert_eq!(player.song_speed, 6);
    assert_eq!(player.samples_per_vblank, 882);
    assert_eq!(player.clock_ticks_per_device_sample, 3_579_545 * 65536 / 44_100);
    assert_eq!((player.next_pattern_pos, player.next_position), (-1, -1));
    assert_eq!(player.delay_line, 0);
    assert_eq!(player.pattern_loop_position, None);
    let slow = PlayerState::new(0, 49);
    assert_eq!((slow.samples_per_vblank, slow.current_vblank_sample), (0, 0));
    assert!(slow.channels.is_empty());
}

#[test]
fn lines_follow_each_other_every_six_ticks() {
    let song = song_of(4, vec![blank_pattern(4), blank_pattern(4)], vec![0, 1]);
    let mut player = fresh(&song);
    let mut calls = 0u32;
    for line in 0..130u32 {
        assert_eq!(player.song_pattern_position * 64 + player.current_line, line);
        // the line is played on the first call of its six ticks
        next_sample(&song, &mut player);
        calls += 1;
        assert_eq!(calls, line * 6 * 962 + 1);
        if line == 127 {
            assert!(player.song_has_ended);
            assert_eq!((player.song_pattern_position, player.current_line), (2, 0));
            break;
        }
        assert!(!player.song_has_ended);
        for _ in 0..6 * 962 - 1 {
            next_sample(&song, &mut player);
            calls += 1;
        }
    }
    // an ended song stays where it is
    for _ in 0..20_000 {
        assert_eq!(next_sample(&song, &mut player), (0, 0));
        assert!(player.song_has_ended);
        assert_eq!((player.song_pattern_position, player.current_line), (2, 0));
    }
}

#[test]
fn a_song_with_an_end_position_goes_on_from_there() {
    let mut song = song_of(4, vec![blank_pattern(4), blank_pattern(4)], vec![0, 1]);
    song.end_position = 1;
    let mut player = fresh(&song);
    for _ in 0..128 {
        assert!(!player.has_looped);
        play_line(&song, &mut player);
    }
    assert!(player.song_has_ended);
    assert_eq!((player.song_pattern_position, player.current_line), (2, 0));
    play_line(&song, &mut player);
    assert!(player.has_looped);
    assert_eq!((player.song_pattern_position, player.current_line), (1, 1));
}

#[test]
fn a_position_jump_goes_to_the_first_line_of_its_entry() {
    let mut first = blank_pattern(4);
    first.lines[5][2] = note(0, 0, Effect::PositionJump { next_pattern: 2 });
    let mut third = blank_pattern(4);
    third.lines[0][0] = note(0, 0, Effect::PositionJump { next_pattern: 0 });
    let song = song_of(4, vec![first, blank_pattern(4), third], vec![0, 1, 2]);
    let mut player = fresh(&song);
    for _ in 0..6 {
        play_line(&song, &mut player);
    }
    assert_eq!(player.next_position, 2);
    assert!(!player.has_looped);
    assert_eq!((player.song_pattern_position, player.current_line), (0, 6));
    play_line(&song, &mut player);
    assert_eq!(player.next_position, 0);
    assert!(player.has_looped);
    assert_eq!((player.song_pattern_position, player.current_line), (2, 1));
    play_line(&song, &mut player);
    assert_eq!(player.next_position, -1);
    assert_eq!((player.song_pattern_position, player.current_line), (0, 1));
}

#[test]
fn a_pattern_break_past_line_63_goes_to_the_first_line() {
    let song = song_of(4, vec![blank_pattern(4)], vec![0]);
    let mut player = fresh(&song);
    play_note(&note(0, 0, Effect::PatternBreak { next_pattern_pos: 63 }), &mut player, 0, &song);
    assert_eq!(player.next_pattern_pos, 63);
    play_note(&note(0, 0, Effect::PatternBreak { next_pattern_pos: 64 }), &mut player, 0, &song);
    assert_eq!(player.next_pattern_pos, 0);
    // the break leads past the only pattern, and the song has no end position
    play_line(&song, &mut player);
    assert!(player.song_has_ended);
    assert_eq!(player.song_pattern_position, 1);
}

#[test]
fn a_delayed_line_holds_the_next_line_back() {
    let mut pattern = blank_pattern(4);
    pattern.lines[0][0] = note(0, 0, Effect::DelayedLine { delay_ticks: 3 });
    let song = song_of(4, vec![pattern], vec![0]);
    let mut player = fresh(&song);
    next_sample(&song, &mut player);
    assert_eq!((player.current_line, player.delay_line), (1, 3));
    for _ in 0..9 * 962 - 1 {
        next_sample(&song, &mut player);
        assert_eq!(player.current_line, 1);
    }
    next_sample(&song, &mut player);
    assert_eq!((player.current_line, player.delay_line), (2, 0));
}

#[test]
fn slides_move_the_period_on_every_tick() {
    let song = song_of(4, vec![blank_pattern(4)], vec![0]);
    let mut player = fresh(&song);
    play_note(&note(1, 428, Effect::SlideUp { speed: 100 }), &mut player, 0, &song);
    assert_eq!(player.channels[0].note_change, -100);
    let mut periods = Vec::new();
    for _ in 0..5 {
        update_effects(&mut player, &song);
        periods.push(player.channels[0].period);
    }
    assert_eq!(periods, vec![328, 228, 128, 113, 113]);
    play_note(&note(0, 0, Effect::SlideDown { speed: 255 }), &mut player, 0, &song);
    let mut periods = Vec::new();
    for _ in 0..4 {
        update_effects(&mut player, &song);
        periods.push(player.channels[0].period);
    }
    assert_eq!(periods, vec![368, 623, 856, 856]);
    play_note(&note(0, 0, Effect::FinePortaUp { period_change: 15 }), &mut player, 0, &song);
    assert_eq!(player.channels[0].period, 841);
    play_note(&note(0, 0, Effect::FinePortaDown { period_change: 15 }), &mut player, 0, &song);
    assert_eq!(player.channels[0].period, 856);
    play_note(&note(0, 0, Effect::FinePortaDown { period_change: 15 }), &mut player, 0, &song);
    assert_eq!(player.channels[0].period, 856);
}

#[test]
fn volume_slides_and_fine_slides_stay_between_0_and_64() {
    let song = song_of(4, vec![blank_pattern(4)], vec![0]);
    let mut player = fresh(&song);
    play_note(&note(1, 428, Effect::VolumeSlide { volume_change: -30 }), &mut player, 0, &song);
    let mut volumes = Vec::new();
    for _ in 0..4 {
        update_effects(&mut player, &song);
        volumes.push(player.channels[0].volume);
    }
    assert_eq!(volumes, vec![34, 4, 0, 0]);
    play_note(&note(0, 0, Effect::FineVolumeSlideUp { volume_change: 15 }), &mut player, 0, &song);
    assert_eq!(player.channels[0].volume, 15);
    play_note(&note(0, 0, Effect::SetVolume { volume: 60 }), &mut player, 0, &song);
    play_note(&note(0, 0, Effect::FineVolumeSlideUp { volume_change: 15 }), &mut player, 0, &song);
    assert_eq!(player.channels[0].volume, 64);
    play_note(&note(0, 0, Effect::FineVolumeSlideDown { volume_change: 4 }), &mut player, 0, &song);
    assert_eq!(player.channels[0].volume, 60);
    play_note(&note(0, 0, Effect::SetVolume { volume: 3 }), &mut player, 0, &song);
    play_note(&note(0, 0, Effect::FineVolumeSlideDown { volume_change: 4 }), &mut player, 0, &song);
    assert_eq!(player.channels[0].volume, 0);
    // a volume above 64 is held to 64 at the next tick
    play_note(&note(0, 0, Effect::SetVolume { volume: 200 }), &mut player, 0, &song);
    assert_eq!(player.channels[0].volume, 200);
    update_effects(&mut player, &song);
    assert_eq!(player.channels[0].volume, 64);
}

#[test]
fn a_vibrato_swings_the_period_round_the_tuned_note() {
    let song = song_of(4, vec![blank_pattern(4)], vec![0]);
    let mut player = fresh(&song);
    play_note(&note(1, 428, Effect::Vibrato { speed: 16, amplitude: 8 }), &mut player, 0, &song);
    let mut periods = Vec::new();
    for _ in 0..5 {
        update_effects(&mut player, &song);
        periods.push(player.channels[0].period);
    }
    // the table gives 0, 255, 0, -255, 0 at the positions 0, 16, 32, 48, 64
    assert_eq!(periods, vec![428, 428 + 63, 428, 428 - 63, 428]);
    assert_eq!(player.channels[0].vibrato_pos, 80);
    // a swing below zero wraps round
    play_note(&note(1, 57, Effect::Vibrato { speed: 48, amplitude: 15 }), &mut player, 1, &song);
    update_effects(&mut player, &song);
    update_effects(&mut player, &song);
    assert_eq!(player.channels[1].period, (57i64 - 119 + (1 << 32)) as u32);
}

#[test]
fn a_tremolo_swings_the_volume_round_the_volume_of_the_sample() {
    let mut song = song_of(4, vec![blank_pattern(4)], vec![0]);
    song.samples = vec![square_wave(64, 32)];
    let mut player = fresh(&song);
    play_note(&note(1, 428, Effect::Tremolo { speed: 16, amplitude: 4 }), &mut player, 0, &song);
    let mut volumes = Vec::new();
    for _ in 0..5 {
        update_effects(&mut player, &song);
        volumes.push(player.channels[0].volume);
    }
    assert_eq!(volumes, vec![32, 32 + 15, 32, 32 - 15, 32]);
    play_note(&note(0, 0, Effect::Tremolo { speed: 16, amplitude: 15 }), &mut player, 0, &song);
    let mut volumes = Vec::new();
    for _ in 0..4 {
        update_effects(&mut player, &song);
        volumes.push(player.channels[0].volume);
    }
    // positions 80, 96, 112, 128: a swing of 59, 0, -59, 0
    assert_eq!(volumes, vec![64, 32, 0, 32]);
}

#[test]
fn an_arpeggio_plays_three_notes_in_turn() {
    let song = song_of(4, vec![blank_pattern(4)], vec![0]);
    let mut player = fresh(&song);
    play_note(
        &note(1, 428, Effect::Arpeggio { chord_offset_1: 4, chord_offset_2: 7 }),
        &mut player,
        0,
        &song,
    );
    let mut periods = Vec::new();
    for _ in 0..7 {
        update_effects(&mut player, &song);
        periods.push(player.channels[0].period);
    }
    // 428 is entry 35 of the table; entries 31 and 28 are 339 and 285
    assert_eq!(periods, vec![428, 339, 285, 428, 339, 285, 428]);
    play_note(
        &note(1, 64, Effect::Arpeggio { chord_offset_1: 1, chord_offset_2: 15 }),
        &mut player,
        0,
        &song,
    );
    let mut periods = Vec::new();
    for _ in 0..3 {
        update_effects(&mut player, &song);
        periods.push(player.channels[0].period);
    }
    assert_eq!(periods, vec![64, 60, 57]);
}

#[test]
fn a_retrigger_starts_the_sample_again_and_a_cut_silences_it() {
    let song = song_of(4, vec![blank_pattern(4)], vec![0]);
    let mut player = fresh(&song);
    play_note(&note(1, 428, Effect::RetriggerSample { retrigger_delay: 3 }), &mut player, 0, &song);
    let mut positions = Vec::new();
    for _ in 0..6 {
        player.channels[0].sample_pos = 1000;
        update_effects(&mut player, &song);
        positions.push(player.channels[0].sample_pos);
    }
    assert_eq!(positions, vec![1000, 1000, 0, 1000, 1000, 0]);
    play_note(&note(1, 428, Effect::CutNote { delay: 2 }), &mut player, 0, &song);
    assert_eq!(player.channels[0].size, 64);
    update_effects(&mut player, &song);
    assert_eq!(player.channels[0].size, 64);
    update_effects(&mut player, &song);
    assert_eq!(player.channels[0].size, 0);
    update_effects(&mut player, &song);
    assert_eq!((player.channels[0].size, player.channels[0].cut_note_delay), (0, 0));
}

#[test]
fn a_channel_without_a_sample_takes_no_tick() {
    let song = song_of(4, vec![blank_pattern(4)], vec![0]);
    let mut player = fresh(&song);
    play_note(&note(0, 428, Effect::VolumeSlide { volume_change: 5 }), &mut player, 0, &song);
    play_note(&note(0, 0, Effect::SetVolume { volume: 100 }), &mut player, 0, &song);
    let before = player.channels[0];
    update_effects(&mut player, &song);
    assert_eq!(player.channels[0], before);
    assert_eq!(before.volume, 100);
}

#[test]
fn channels_are_mixed_to_their_sides() {
    let mut pattern = blank_pattern(8);
    for channel in 0..8 {
        pattern.lines[0][channel] = note(1, 428, Effect::SetVolume { volume: 1 << channel.min(6) });
    }
    let song = song_of(8, vec![pattern], vec![0]);
    let mut player = fresh(&song);
    let levels = next_sample(&song, &mut player);
    assert_eq!(levels, (127 * (1 + 8 + 16 + 64), 127 * (2 + 4 + 32 + 64)));
}

#[test]
fn a_channel_steps_through_its_sample_and_repeats() {
    let mut song = song_of(1, vec![blank_pattern(1)], vec![0]);
    let mut sample = square_wave(8, 64);
    sample.samples = vec![10, 20, 30, 40, 50, 60, 70, 80];
    sample.repeat_offset = 4;
    sample.repeat_size = 4;
    song.samples = vec![sample];
    let mut player = PlayerState::new(1, 3_579_545);
    assert_eq!(player.clock_ticks_per_device_sample, 65536);
    // at this rate a period of 2 steps by half a byte for each device sample
    play_note(&note(1, 2, Effect::NoEffect), &mut player, 0, &song);
    song.has_standard_notes = false;
    player.channels[0].period = 2;
    let mut bytes = Vec::new();
    for _ in 0..26 {
        bytes.push(mod_player::mixer::mix(&song, &mut player).0 / 64);
    }
    assert_eq!(
        bytes,
        vec![
            10, 10, 20, 20, 30, 30, 40, 40, 50, 50, 60, 60, 70, 70, 80, 80, 50, 50, 60, 60, 70,
            70, 80, 80, 50, 50
        ]
    );
    assert_eq!(player.channels[0].size, 8);
    assert_eq!(player.channels[0].sample_pos, 5 * 65536);
}

#[test]
fn a_sample_without_a_repeat_plays_once() {
    let mut song = song_of(1, vec![blank_pattern(1)], vec![0]);
    let mut sample = square_wave(4, 64);
    sample.samples = vec![1, 2, 3, 4];
    sample.repeat_offset = 0;
    sample.repeat_size = 2;
    song.samples = vec![sample];
    let mut player = PlayerState::new(1, 3_579_545);
    play_note(&note(1, 113, Effect::NoEffect), &mut player, 0, &song);
    player.channels[0].period = 1;
    let mut levels = Vec::new();
    for _ in 0..7 {
        levels.push(mod_player::mixer::mix(&song, &mut player));
    }
    assert_eq!(levels, vec![(64, 0), (128, 0), (192, 0), (256, 0), (0, 0), (0, 0), (0, 0)]);
    assert_eq!(player.channels[0].size, 2);
}

#[test]
fn a_period_of_zero_steps_without_bound() {
    let mut song = song_of(1, vec![blank_pattern(1)], vec![0]);
    song.samples[0].repeat_size = 2;
    let mut player = fresh(&song);
    play_note(&note(1, 0, Effect::NoEffect), &mut player, 0, &song);
    assert_eq!(player.channels[0].period, 0);
    assert_eq!(mod_player::mixer::mix(&song, &mut player), (127 * 64, 0));
    assert_eq!(player.channels[0].sample_pos, u64::MAX);
    assert_eq!(mod_player::mixer::mix(&song, &mut player), (0, 0));
    assert_eq!(player.channels[0].size, 2);
}

#[test]
fn two_players_give_the_same_levels() {
    let mut pattern = blank_pattern(4);
    pattern.lines[0][0] = note(1, 428, Effect::Vibrato { speed: 3, amplitude: 4 });
    pattern.lines[0][1] = note(1, 214, Effect::VolumeSlide { volume_change: -1 });
    pattern.lines[1][2] = note(1, 856, Effect::Arpeggio { chord_offset_1: 3, chord_offset_2: 5 });
    pattern.lines[2][3] = note(1, 113, Effect::SlideDown { speed: 9 });
    pattern.lines[3][0] = note(0, 0, Effect::PatternBreak { next_pattern_pos: 0 });
    let mut song = song_of(4, vec![pattern], vec![0, 0]);
    song.end_position = 0;
    let mut first = fresh(&song);
    let mut second = fresh(&song);
    let mut levels = Vec::new();
    for _ in 0..40_000 {
        levels.push(next_sample(&song, &mut first));
    }
    // the second player takes its calls in batches of uneven length
    let mut again = Vec::new();
    let mut batch = 1;
    while again.len() < 40_000 {
        for _ in 0..batch.min(40_000 - again.len()) {
            again.push(next_sample(&song, &mut second));
        }
        batch = batch * 3 + 1;
    }
    assert_eq!(levels, again);
    assert_eq!(first.channels, second.channels);
    assert!(levels.iter().any(|pair| pair.0 != 0) && levels.iter().any(|pair| pair.1 != 0));
}

#[test]
fn as_many_samples_as_ticks_are_long_give_as_many_ticks() {
    let mut pattern = blank_pattern(4);
    pattern.lines[0][0] = note(1, 428, Effect::VolumeSlide { volume_change: -1 });
    for line in 1..64 {
        pattern.lines[line][0] = note(0, 0, Effect::VolumeSlide { volume_change: -1 });
    }
    let song = song_of(4, vec![pattern], vec![0]);
    for start in [0u32, 1, 500, 961] {
        let mut player = fresh(&song);
        player.current_vblank_sample = start;
        player.current_vblank = 0;
        player.song_speed = 31;
        play_note(&note(1, 428, Effect::VolumeSlide { volume_change: -1 }), &mut player, 0, &song);
        // every tick takes the volume of the channel down by one
        for ticks in 1..=30 {
            for _ in 0..962 {
                next_sample(&song, &mut player);
            }
            assert_eq!(player.channels[0].volume, 64 - ticks);
        }
    }
}

#[test]
fn the_state_stays_in_its_ranges_while_a_song_plays() {
    let mut first = blank_pattern(4);
    first.lines[0][0] = note(1, 428, Effect::VolumeSlide { volume_change: 15 });
    first.lines[0][1] = note(1, 856, Effect::SlideDown { speed: 200 });
    first.lines[1][2] = note(1, 113, Effect::SlideUp { speed: 200 });
    first.lines[1][3] = note(1, 428, Effect::NoEffect);
    first.lines[2][3] = note(1, 214, Effect::TonePortamento { speed: 40 });
    first.lines[3][3] = note(0, 856, Effect::TonePortamento { speed: 0 });
    first.lines[4][0] = note(0, 0, Effect::FineVolumeSlideDown { volume_change: 15 });
    first.lines[5][0] = note(0, 0, Effect::Tremolo { speed: 9, amplitude: 15 });
    first.lines[6][1] = note(0, 0, Effect::FinePortaDown { period_change: 15 });
    first.lines[7][1] = note(0, 0, Effect::PatternLoop { arg: 0 });
    first.lines[9][1] = note(0, 0, Effect::PatternLoop { arg: 2 });
    first.lines[12][2] = note(0, 0, Effect::PatternBreak { next_pattern_pos: 60 });
    let mut second = blank_pattern(4);
    second.lines[61][0] = note(1, 320, Effect::SetSampleOffset { offset: 7 });
    second.lines[62][0] = note(0, 0, Effect::SetSpeed { speed: 2 });
    let song = song_of(4, vec![first, second], vec![0, 1]);
    assert!(song.is_well_formed());
    let mut player = fresh(&song);
    assert!(player.is_well_formed(&song));
    let mut calls = 0;
    while !player.song_has_ended {
        let levels = mod_player::advance::try_next_sample(&song, &mut player).unwrap();
        calls += 1;
        assert!(levels.0.abs() <= 2 * 127 * 64 && levels.1.abs() <= 2 * 127 * 64);
        assert!(player.current_line < 64);
        assert!(player.song_pattern_position <= song.num_used_patterns);
        for channel in &player.channels {
            assert!(0 <= channel.volume && channel.volume <= 64);
            assert!(channel.period == 0 || (113 <= channel.period && channel.period <= 856));
        }
        if calls % 997 == 0 {
            assert!(player.is_well_formed(&song));
        }
    }
    assert_eq!(player.song_pattern_position, 2);
    assert!(calls > 20 * 6 * 962);
}

#[test]
fn a_state_that_cannot_be_taken_on_is_left_as_it_is() {
    let mut pattern = blank_pattern(4);
    // an arpeggio on a channel that has a sample and has played no note yet
    pattern.lines[0][0] = note(1, 0, Effect::Arpeggio { chord_offset_1: 3, chord_offset_2: 7 });
    let mut song = song_of(4, vec![pattern], vec![0]);
    song.samples[0].repeat_size = 2;
    let mut player = fresh(&song);
    assert!(player.can_advance(&song));
    for _ in 0..962 {
        assert!(mod_player::advance::try_next_sample(&song, &mut player).is_some());
    }
    assert!(!player.can_advance(&song));
    let channels = player.channels.clone();
    let counter = player.current_vblank_sample;
    assert_eq!(mod_player::advance::try_next_sample(&song, &mut player), None);
    assert_eq!(player.channels, channels);
    assert_eq!(player.current_vblank_sample, counter);
    assert!(!player.channels[0].can_tick(&song));
    assert!(player.channels[1].can_tick(&song));
}

#[test]
fn notes_that_cannot_be_played_are_told_apart() {
    let mut song = song_of(4, vec![blank_pattern(4)], vec![0]);
    song.samples.push(square_wave(0, 64));
    let player = fresh(&song);
    let channel = player.channels[0];
    assert!(channel.can_play(&note(1, 428, Effect::NoEffect), &song));
    assert!(channel.can_play(&note(2, 428, Effect::NoEffect), &song));
    assert!(!channel.can_play(&note(3, 428, Effect::NoEffect), &song));
    assert!(!channel.can_play(&note(1, 429, Effect::NoEffect), &song));
    assert!(channel.can_play(&note(1, 428, Effect::SetSampleOffset { offset: 200 }), &song));
    assert!(!channel.can_play(&note(2, 428, Effect::SetSampleOffset { offset: 1 }), &song));
    assert!(channel.can_play(&note(2, 428, Effect::SetSampleOffset { offset: 0 }), &song));
    assert!(channel.can_play(&note(2, 0, Effect::SetSampleOffset { offset: 1 }), &song));
    song.has_standard_notes = false;
    assert!(channel.can_play(&note(1, 429, Effect::NoEffect), &song));
}

#[test]
fn a_channel_that_stands_outside_its_sample_cannot_be_mixed() {
    let song = song_of(4, vec![blank_pattern(4)], vec![0]);
    let mut player = fresh(&song);
    play_note(&note(1, 428, Effect::NoEffect), &mut player, 0, &song);
    assert!(player.channels[0].can_mix(&song));
    player.channels[0].sample_pos = 63 * 65536 + 65535;
    assert!(player.channels[0].can_mix(&song));
    player.channels[0].sample_pos = 64 * 65536;
    assert!(player.channels[0].can_mix(&song));
    player.channels[0].sample_pos = 128 * 65536;
    assert!(!player.channels[0].can_mix(&song));
    player.channels[0].size = 2;
    assert!(player.channels[0].can_mix(&song));
}

#[test]
fn states_out_of_range_are_not_well_formed() {
    let song = song_of(4, vec![blank_pattern(4)], vec![0]);
    assert!(fresh(&song).is_well_formed(&song));
    assert!(!PlayerState::new(3, 48_100).is_well_formed(&song));
    let mut player = fresh(&song);
    player.current_line = 64;
    assert!(!player.is_well_formed(&song));
    let mut player = fresh(&song);
    player.song_pattern_position = 2;
    assert!(!player.is_well_formed(&song));
    let mut player = fresh(&song);
    player.channels[3].sample_num = 2;
    assert!(!player.is_well_formed(&song));
    let mut player = fresh(&song);
    player.channels[1].volume = 256;
    assert!(!player.is_well_formed(&song));
    let mut player = fresh(&song);
    player.pattern_loop_position = Some(64);
    assert!(!player.is_well_formed(&song));
    let mut player = fresh(&song);
    player.has_looped = true;
    player.song_has_ended = true;
    player.pattern_loop_position = Some(63);
    assert!(player.is_well_formed(&song));
}

#[test]
fn songs_out_of_shape_are_not_well_formed() {
    let good = || song_of(4, vec![blank_pattern(4)], vec![0]);
    assert!(good().is_well_formed());
    let mut song = good();
    song.patterns[0].lines[63].pop();
    assert!(!song.is_well_formed());
    let mut song = good();
    song.patterns[0].lines.pop();
    assert!(!song.is_well_formed());
    let mut song = good();
    song.patterns[0].lines[7][2].sample_number = 2;
    assert!(!song.is_well_formed());
    let mut song = good();
    song.pattern_table = vec![1];
    assert!(!song.is_well_formed());
    let mut song = good();
    song.num_used_patterns = 2;
    assert!(!song.is_well_formed());
    let mut song = good();
    song.samples[0].fine_tune = 16;
    assert!(!song.is_well_formed());
    let mut song = good();
    song.samples[0].samples.pop();
    assert!(!song.is_well_formed());
    let mut song = good();
    song.patterns[0].lines[7][2].period = 429;
    assert!(!song.is_well_formed());
    song.has_standard_notes = false;
    assert!(song.is_well_formed());
    let mut song = good();
    song.format.num_channels = 1;
    assert!(!song.is_well_formed());
}
