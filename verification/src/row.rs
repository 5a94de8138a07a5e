//! The row interpreter: what one note does to its channel and to the song's
//! clocks and pending jumps when its line is played.

use crate::pitch::{can_tune, change_note, fine_tune_period, slid_period, tuned_period};
use crate::player::{ChannelInfo, PlayerModel, PlayerState};
use crate::song::{Effect, Note, Song};
use vstd::prelude::*;

verus! {

/// The channel once the note's sample, where it names one, has been taken up.
pub open spec fn channel_with_sample(channel: ChannelInfo, note: Note, song: &Song) -> ChannelInfo {
    if note.sample_number > 0 {
        let sample = song.samples@[note.sample_number - 1];
        ChannelInfo {
            volume: sample.volume as i32,
            size: sample.size,
            sample_num: note.sample_number,
            fine_tune: sample.fine_tune as u32,
            ..channel
        }
    } else {
        channel
    }
}

/// The channel with everything cleared that lasts for one line only.
pub open spec fn channel_cleared_for_line(channel: ChannelInfo) -> ChannelInfo {
    ChannelInfo {
        volume_change: 0,
        note_change: 0,
        period_target: None,
        retrigger_delay: 0,
        vibrato_speed: 0,
        vibrato_depth: 0,
        tremolo_speed: 0,
        tremolo_depth: 0,
        arpeggio_counter: 0,
        arpeggio_offsets: [0, 0],
        ..channel
    }
}

/// The channel once the note's period, where it has one, has been struck: the
/// sample starts again from its beginning at the tuned period.
pub open spec fn channel_with_period(channel: ChannelInfo, note: Note, song: &Song) -> ChannelInfo {
    if note.period != 0 {
        ChannelInfo {
            period: tuned_period(note.period, channel.fine_tune, song.has_standard_notes),
            base_period: note.period,
            sample_pos: 0,
            size: if channel.sample_num > 0 {
                song.samples@[channel.sample_num - 1].size
            } else {
                channel.size
            },
            ..channel
        }
    } else {
        channel
    }
}

/// The channel as it stands when the note's effect is taken up.
pub open spec fn channel_before_effect(channel: ChannelInfo, note: Note, song: &Song)
    -> ChannelInfo {
    channel_with_period(
        channel_cleared_for_line(channel_with_sample(channel, note, song)),
        note,
        song,
    )
}

/// The sample position, in bytes, that `SetSampleOffset` with `offset` asks
/// for in a sample of `size` bytes: 256 bytes per unit, and from the start
/// again where that lies past the end.
pub open spec fn sample_offset_bytes(offset: u8, size: u32) -> int {
    if offset as int * 256 > size {
        (offset as int * 256) % (size as int)
    } else {
        offset as int * 256
    }
}

/// What a tone portamento makes of the channel. `before` is the channel before
/// the line was played, `channel` the channel with the note struck.
pub open spec fn channel_with_portamento(
    before: ChannelInfo,
    channel: ChannelInfo,
    note: Note,
) -> ChannelInfo {
    let target = if note.period != 0 {
        channel.period
    } else {
        channel.last_porta_target
    };
    ChannelInfo {
        period_target: Some(target),
        period: before.period,
        last_porta_target: target,
        ..channel
    }
}

/// What the note's effect makes of the channel. `before` is the channel before
/// the line was played, `channel` the channel as `channel_before_effect` gives it.
pub open spec fn channel_with_effect(
    before: ChannelInfo,
    channel: ChannelInfo,
    note: Note,
    song: &Song,
) -> ChannelInfo {
    match note.effect {
        Effect::Arpeggio { chord_offset_1, chord_offset_2 } => ChannelInfo {
            arpeggio_offsets: [chord_offset_1 as u32, chord_offset_2 as u32],
            arpeggio_counter: 0,
            ..channel
        },
        Effect::SlideUp { speed } =>
            ChannelInfo { note_change: (-(speed as int)) as i32, ..channel },
        Effect::SlideDown { speed } => ChannelInfo { note_change: speed as i32, ..channel },
        Effect::TonePortamento { speed } => {
            let slid = channel_with_portamento(before, channel, note);
            let note_change = if speed != 0 {
                speed as i32
            } else {
                channel.last_porta_speed
            };
            ChannelInfo {
                note_change,
                last_porta_speed: note_change,
                sample_pos: if before.sample_num == channel.sample_num {
                    before.sample_pos
                } else {
                    channel.sample_pos
                },
                ..slid
            }
        },
        Effect::Vibrato { speed, amplitude } => ChannelInfo {
            vibrato_speed: if speed != 0 {
                speed as u32
            } else {
                before.vibrato_speed
            },
            vibrato_depth: if amplitude != 0 {
                amplitude as i32
            } else {
                before.vibrato_depth
            },
            ..channel
        },
        Effect::TonePortamentoVolumeSlide { volume_change } => {
            let slid = channel_with_portamento(before, channel, note);
            ChannelInfo {
                volume_change: volume_change as i32,
                note_change: channel.last_porta_speed,
                sample_pos: before.sample_pos,
                ..slid
            }
        },
        Effect::VibratoVolumeSlide { volume_change } => ChannelInfo {
            volume_change: volume_change as i32,
            vibrato_pos: before.vibrato_pos,
            vibrato_speed: before.vibrato_speed,
            vibrato_depth: before.vibrato_depth,
            ..channel
        },
        Effect::Tremolo { speed, amplitude } => if speed == 0 && amplitude == 0 {
            ChannelInfo {
                tremolo_speed: before.tremolo_speed,
                tremolo_depth: before.tremolo_depth,
                ..channel
            }
        } else {
            ChannelInfo { tremolo_speed: speed as u32, tremolo_depth: amplitude as i32, ..channel }
        },
        Effect::SetSampleOffset { offset } => if note.period != 0 && channel.sample_num > 0 {
            ChannelInfo {
                sample_pos: (sample_offset_bytes(
                    offset,
                    song.samples@[channel.sample_num - 1].size,
                ) * 65536) as u64,
                ..channel
            }
        } else {
            channel
        },
        Effect::VolumeSlide { volume_change } => ChannelInfo {
            volume_change: volume_change as i32,
            ..channel
        },
        Effect::SetVolume { volume } => ChannelInfo { volume: volume as i32, ..channel },
        Effect::FinePortaUp { period_change } => ChannelInfo {
            period: slid_period(channel.period, -(period_change as int)),
            ..channel
        },
        Effect::FinePortaDown { period_change } => ChannelInfo {
            period: slid_period(channel.period, period_change as int),
            ..channel
        },
        Effect::RetriggerSample { retrigger_delay } => ChannelInfo {
            retrigger_delay: retrigger_delay as u32,
            retrigger_counter: 0,
            ..channel
        },
        Effect::FineVolumeSlideUp { volume_change } => ChannelInfo {
            volume: if channel.volume + volume_change > 64 {
                64
            } else {
                (channel.volume + volume_change) as i32
            },
            ..channel
        },
        Effect::FineVolumeSlideDown { volume_change } => ChannelInfo {
            volume: if channel.volume - volume_change < 0 {
                0
            } else {
                (channel.volume - volume_change) as i32
            },
            ..channel
        },
        Effect::CutNote { delay } => ChannelInfo { cut_note_delay: delay as u32, ..channel },
        _ => channel,
    }
}

/// The channel after `note` has been played on it.
pub open spec fn channel_after_note(channel: ChannelInfo, note: Note, song: &Song) -> ChannelInfo {
    channel_with_effect(channel, channel_before_effect(channel, note, song), note, song)
}

/// `note` can be played on `channel`: its sample is one of the song's, its
/// period can be tuned, and an offset into the sample is not asked of a sample
/// without data.
pub open spec fn can_play_note(channel: ChannelInfo, note: Note, song: &Song) -> bool {
    &&& note.sample_number <= song.samples@.len()
    &&& note.period != 0 ==> can_tune(note.period, song.has_standard_notes)
    &&& note.effect matches Effect::SetSampleOffset { offset } ==> {
        let struck = channel_before_effect(channel, note, song);
        note.period != 0 && struck.sample_num > 0 && offset > 0 ==> song.samples@[struck.sample_num
            - 1].size > 0
    }
}

/// Device samples per tick at `bpm` beats per minute: a tick lasts 2.5 / `bpm`
/// seconds.
pub open spec fn bpm_samples_per_vblank(device_sample_rate: u32, bpm: u8) -> u32 {
    ((device_sample_rate as int * 5) / (bpm as int * 2)) as u32
}

/// What a `PatternLoop` with `arg` makes of the state: with 0 it marks the
/// current line; otherwise it counts one round, and asks for the jump back to
/// the mark while rounds are left and a mark exists, dropping the mark where
/// it asks for none.
pub open spec fn model_after_pattern_loop(state: PlayerModel, arg: u8) -> PlayerModel {
    if arg == 0 {
        PlayerModel { pattern_loop_position: Some(state.current_line), ..state }
    } else {
        let rounds = if state.pattern_loop == 0 {
            arg as i32
        } else {
            (state.pattern_loop - 1) as i32
        };
        if rounds > 0 && state.pattern_loop_position is Some {
            PlayerModel { pattern_loop: rounds, set_pattern_position: true, ..state }
        } else {
            PlayerModel { pattern_loop: rounds, pattern_loop_position: None, ..state }
        }
    }
}

/// What an effect makes of the state of the song as a whole; the channels stay.
pub open spec fn model_after_effect(state: PlayerModel, effect: Effect) -> PlayerModel {
    match effect {
        Effect::SetSpeed { speed } => if speed <= 31 {
            PlayerModel { song_speed: speed as u32, ..state }
        } else {
            PlayerModel {
                samples_per_vblank: bpm_samples_per_vblank(state.device_sample_rate, speed),
                ..state
            }
        },
        Effect::PatternBreak { next_pattern_pos } => PlayerModel {
            next_pattern_pos: if next_pattern_pos > 63 {
                0
            } else {
                next_pattern_pos as i32
            },
            ..state
        },
        Effect::PositionJump { next_pattern } => PlayerModel {
            has_looped: state.has_looped || next_pattern <= state.song_pattern_position,
            next_position: next_pattern as i32,
            ..state
        },
        Effect::PatternLoop { arg } => model_after_pattern_loop(state, arg),
        Effect::DelayedLine { delay_ticks } => PlayerModel {
            delay_line: delay_ticks as u32,
            ..state
        },
        _ => state,
    }
}

/// The state after `note` has been played on the channel `channel_num`.
pub open spec fn model_after_note(
    state: PlayerModel,
    channel_num: int,
    note: Note,
    song: &Song,
) -> PlayerModel {
    let played = PlayerModel {
        channels: state.channels.update(
            channel_num,
            channel_after_note(state.channels[channel_num], note, song),
        ),
        ..state
    };
    model_after_effect(played, note.effect)
}

/// A note that can be played on a channel keeps the channel in the ranges of
/// the engine.
pub proof fn lemma_note_keeps_wf(channel: ChannelInfo, note: Note, song: &Song)
    requires
        song.wf(),
        channel.wf(song),
        can_play_note(channel, note, song),
    ensures
        channel_after_note(channel, note, song).wf(song),
{
}

/// Plays `note` on a channel by itself.
pub fn note_channel(channel: ChannelInfo, note: &Note, song: &Song) -> (played: ChannelInfo)
    requires
        song.wf(),
        channel.wf(song),
        can_play_note(channel, *note, song),
    ensures
        played == channel_after_note(channel, *note, song),
        played.wf(song),
{
    let before = channel;
    let mut channel = channel;
    if note.sample_number > 0 {
        let current_sample = &song.samples[(note.sample_number - 1) as usize];
        channel.volume = current_sample.volume as i32;
        channel.size = current_sample.size;
        channel.sample_num = note.sample_number;
        channel.fine_tune = current_sample.fine_tune as u32;
    }
    channel.volume_change = 0;
    channel.note_change = 0;
    channel.period_target = None;
    channel.retrigger_delay = 0;
    channel.vibrato_speed = 0;
    channel.vibrato_depth = 0;
    channel.tremolo_speed = 0;
    channel.tremolo_depth = 0;
    channel.arpeggio_counter = 0;
    channel.arpeggio_offsets = [0, 0];
    if note.period != 0 {
        channel.period = fine_tune_period(note.period, channel.fine_tune, song.has_standard_notes);
        channel.base_period = note.period;
        channel.sample_pos = 0;
        if channel.sample_num > 0 {
            channel.size = song.samples[(channel.sample_num - 1) as usize].size;
        }
    }
    assert(channel == channel_before_effect(before, *note, song));
    let struck = channel;
    match note.effect {
        Effect::Arpeggio { chord_offset_1, chord_offset_2 } => {
            channel.arpeggio_offsets = [chord_offset_1 as u32, chord_offset_2 as u32];
            channel.arpeggio_counter = 0;
        },
        Effect::SlideUp { speed } => {
            channel.note_change = -(speed as i32);
        },
        Effect::SlideDown { speed } => {
            channel.note_change = speed as i32;
        },
        Effect::TonePortamento { speed } => {
            if note.period != 0 {
                channel.last_porta_target = channel.period;
            }
            channel.period_target = Some(channel.last_porta_target);
            channel.period = before.period;
            if speed != 0 {
                channel.note_change = speed as i32;
            } else {
                channel.note_change = channel.last_porta_speed;
            }
            channel.last_porta_speed = channel.note_change;
            if before.sample_num == channel.sample_num {
                channel.sample_pos = before.sample_pos;
            }
        },
        Effect::Vibrato { speed, amplitude } => {
            if speed != 0 {
                channel.vibrato_speed = speed as u32;
            } else {
                channel.vibrato_speed = before.vibrato_speed;
            }
            if amplitude != 0 {
                channel.vibrato_depth = amplitude as i32;
            } else {
                channel.vibrato_depth = before.vibrato_depth;
            }
        },
        Effect::TonePortamentoVolumeSlide { volume_change } => {
            channel.volume_change = volume_change as i32;
            if note.period != 0 {
                channel.last_porta_target = channel.period;
            }
            channel.period_target = Some(channel.last_porta_target);
            channel.period = before.period;
            channel.sample_pos = before.sample_pos;
            channel.note_change = channel.last_porta_speed;
        },
        Effect::VibratoVolumeSlide { volume_change } => {
            channel.volume_change = volume_change as i32;
            channel.vibrato_pos = before.vibrato_pos;
            channel.vibrato_speed = before.vibrato_speed;
            channel.vibrato_depth = before.vibrato_depth;
        },
        Effect::Tremolo { speed, amplitude } => {
            if speed == 0 && amplitude == 0 {
                channel.tremolo_depth = before.tremolo_depth;
                channel.tremolo_speed = before.tremolo_speed;
            } else {
                channel.tremolo_depth = amplitude as i32;
                channel.tremolo_speed = speed as u32;
            }
        },
        Effect::SetSampleOffset { offset } => {
            if note.period != 0 && channel.sample_num > 0 {
                let size: u32 = song.samples[(channel.sample_num - 1) as usize].size;
                let mut bytes: u32 = offset as u32 * 256;
                if bytes > size {
                    bytes = bytes % size;
                }
                channel.sample_pos = bytes as u64 * 65536;
            }
        },
        Effect::VolumeSlide { volume_change } => {
            channel.volume_change = volume_change as i32;
        },
        Effect::SetVolume { volume } => {
            channel.volume = volume as i32;
        },
        Effect::FinePortaUp { period_change } => {
            channel.period = change_note(channel.period, -(period_change as i32));
        },
        Effect::FinePortaDown { period_change } => {
            channel.period = change_note(channel.period, period_change as i32);
        },
        Effect::RetriggerSample { retrigger_delay } => {
            channel.retrigger_delay = retrigger_delay as u32;
            channel.retrigger_counter = 0;
        },
        Effect::FineVolumeSlideUp { volume_change } => {
            channel.volume = channel.volume + volume_change as i32;
            if channel.volume > 64 {
                channel.volume = 64;
            }
        },
        Effect::FineVolumeSlideDown { volume_change } => {
            channel.volume = channel.volume - volume_change as i32;
            if channel.volume < 0 {
                channel.volume = 0;
            }
        },
        Effect::CutNote { delay } => {
            channel.cut_note_delay = delay as u32;
        },
        _ => {},
    }
    assert(channel == channel_with_effect(before, struck, *note, song));
    channel
}

/// Applies one note to its channel and to the song's clocks and pending jumps.
pub fn play_note(note: &Note, player_state: &mut PlayerState, channel_num: usize, song: &Song)
    requires
        song.wf(),
        old(player_state).wf(song),
        channel_num < old(player_state).channels@.len(),
        can_play_note(old(player_state).channels@[channel_num as int], *note, song),
    ensures
        final(player_state)@ == model_after_note(
            old(player_state)@,
            channel_num as int,
            *note,
            song,
        ),
        final(player_state).wf(song),
        final(player_state).song_pattern_position == old(player_state).song_pattern_position,
        final(player_state).current_line == old(player_state).current_line,
        final(player_state).song_has_ended == old(player_state).song_has_ended,
        final(player_state).current_vblank == old(player_state).current_vblank,
        old(player_state).has_looped ==> final(player_state).has_looped,
{
    let played = note_channel(player_state.channels[channel_num], note, song);
    player_state.channels[channel_num] = played;
    match note.effect {
        Effect::SetSpeed { speed } => {
            if speed <= 31 {
                player_state.song_speed = speed as u32;
            } else {
                let scaled: u64 = player_state.device_sample_rate as u64 * 5;
                let beats: u64 = speed as u64 * 2;
                assert(scaled / beats <= u32::MAX) by (nonlinear_arith)
                    requires
                        beats >= 64,
                        scaled <= 5 * 0xFFFF_FFFF,
                ;
                player_state.samples_per_vblank = (scaled / beats) as u32;
            }
        },
        Effect::PatternBreak { next_pattern_pos } => {
            player_state.next_pattern_pos = next_pattern_pos as i32;
            if player_state.next_pattern_pos > 63 {
                player_state.next_pattern_pos = 0;
            }
        },
        Effect::PositionJump { next_pattern } => {
            if next_pattern as u32 <= player_state.song_pattern_position {
                player_state.has_looped = true;
            }
            player_state.next_position = next_pattern as i32;
        },
        Effect::PatternLoop { arg } => {
            if arg == 0 {
                player_state.pattern_loop_position = Some(player_state.current_line);
            } else {
                if player_state.pattern_loop == 0 {
                    player_state.pattern_loop = arg as i32;
                } else {
                    player_state.pattern_loop -= 1;
                }
                if player_state.pattern_loop > 0 && player_state.pattern_loop_position.is_some() {
                    player_state.set_pattern_position = true;
                } else {
                    player_state.pattern_loop_position = None;
                }
            }
        },
        Effect::DelayedLine { delay_ticks } => {
            player_state.delay_line = delay_ticks as u32;
        },
        _ => {},
    }
}

} // verus!
