//! The tick updater: how the running effects move a channel on every tick.

use crate::pitch::{
    can_tune, change_note, find_period, fine_tune_period, is_table_period,
    lemma_table_index_unique, slid_period, table_index, tuned_period,
};
use crate::player::{ChannelInfo, PlayerModel, PlayerState};
use crate::song::Song;
use crate::tables::{FREQUENCY_TABLE, VIBRATO_TABLE};
use vstd::prelude::*;

verus! {

/// The quotient of `numerator` by a positive `divisor`, rounded towards zero.
pub open spec fn truncated_quotient(numerator: int, divisor: int) -> int {
    if numerator >= 0 {
        numerator / divisor
    } else {
        -((-numerator) / divisor)
    }
}

/// What the oscillator adds at the position `pos` with the given `depth`,
/// before it is scaled down.
pub open spec fn oscillation(pos: u32, depth: i32) -> int {
    VIBRATO_TABLE@[pos as int % 64] as int * depth as int
}

/// `volume` held to the range in which a channel plays.
pub open spec fn clamped_volume(volume: int) -> i32 {
    if volume < 0 {
        0
    } else if volume > 64 {
        64
    } else {
        volume as i32
    }
}

/// The channel after a tick of a pending note cut: the delay counts down, and
/// the channel falls silent when it reaches zero.
pub open spec fn channel_after_cut(channel: ChannelInfo) -> ChannelInfo {
    if channel.cut_note_delay > 0 {
        ChannelInfo {
            cut_note_delay: (channel.cut_note_delay - 1) as u32,
            size: if channel.cut_note_delay == 1 {
                0
            } else {
                channel.size
            },
            ..channel
        }
    } else {
        channel
    }
}

/// The channel after a tick of a retrigger: every `retrigger_delay` ticks the
/// sample starts again.
pub open spec fn channel_after_retrigger(channel: ChannelInfo) -> ChannelInfo {
    if channel.retrigger_delay > 0 {
        if channel.retrigger_counter + 1 == channel.retrigger_delay {
            ChannelInfo { sample_pos: 0, retrigger_counter: 0, ..channel }
        } else {
            ChannelInfo { retrigger_counter: (channel.retrigger_counter + 1) as u32, ..channel }
        }
    } else {
        channel
    }
}

/// The channel after a tick of its volume effects: the volume slide is added,
/// a tremolo sets the volume from the sample's own and the oscillator, and the
/// result is held to the range from 0 to 64.
pub open spec fn channel_after_volume(channel: ChannelInfo, song: &Song) -> ChannelInfo {
    if channel.tremolo_depth > 0 {
        ChannelInfo {
            volume: clamped_volume(
                song.samples@[channel.sample_num - 1].volume as int + truncated_quotient(
                    oscillation(channel.tremolo_pos, channel.tremolo_depth),
                    64,
                ),
            ),
            tremolo_pos: channel.tremolo_pos.wrapping_add(channel.tremolo_speed),
            ..channel
        }
    } else {
        ChannelInfo { volume: clamped_volume(channel.volume + channel.volume_change), ..channel }
    }
}

/// An arpeggio is running on the channel.
pub open spec fn arpeggio_active(channel: ChannelInfo) -> bool {
    channel.arpeggio_offsets@[0] != 0 || channel.arpeggio_offsets@[1] != 0
}

/// The untuned period that an arpeggio plays in the phase `arpeggio_counter`:
/// the note itself in phase 0, and in phases 1 and 2 the table entry that lies
/// the phase's offset before the note's, or the first entry where the table
/// does not reach that far.
pub open spec fn arpeggio_period(channel: ChannelInfo) -> u32 {
    if channel.arpeggio_counter > 0 {
        let entry = table_index(channel.base_period)
            - channel.arpeggio_offsets@[channel.arpeggio_counter - 1];
        FREQUENCY_TABLE@[if entry < 0 {
            0
        } else {
            entry
        }]
    } else {
        channel.base_period
    }
}

/// The channel after a tick of a running arpeggio.
pub open spec fn channel_after_arpeggio(channel: ChannelInfo, song: &Song) -> ChannelInfo {
    if arpeggio_active(channel) {
        ChannelInfo {
            period: tuned_period(
                arpeggio_period(channel),
                channel.fine_tune,
                song.has_standard_notes,
            ),
            arpeggio_counter: if channel.arpeggio_counter + 1 >= 3 {
                0
            } else {
                (channel.arpeggio_counter + 1) as u32
            },
            ..channel
        }
    } else {
        channel
    }
}

/// The period after one tick of a slide by `note_change`: towards the target
/// of a tone portamento and no further where there is one, plainly otherwise.
pub open spec fn period_after_slide(
    period: u32,
    period_target: Option<u32>,
    note_change: i32,
) -> u32 {
    match period_target {
        Some(target) => if target > period {
            let slid = slid_period(period, note_change as int);
            if slid >= target {
                target
            } else {
                slid
            }
        } else {
            let slid = slid_period(period, -(note_change as int));
            if slid <= target {
                target
            } else {
                slid
            }
        },
        None => slid_period(period, note_change as int),
    }
}

/// The channel after a tick of its pitch effects: a vibrato sets the period
/// from the tuned note and the oscillator; without one, a slide moves it.
pub open spec fn channel_after_pitch(channel: ChannelInfo, song: &Song) -> ChannelInfo {
    if channel.vibrato_depth > 0 {
        ChannelInfo {
            period: tuned_period(
                channel.base_period,
                channel.fine_tune,
                song.has_standard_notes,
            ).wrapping_add_signed(
                truncated_quotient(
                    oscillation(channel.vibrato_pos, channel.vibrato_depth),
                    32,
                ) as i32,
            ),
            vibrato_pos: channel.vibrato_pos.wrapping_add(channel.vibrato_speed),
            ..channel
        }
    } else if channel.note_change != 0 {
        ChannelInfo {
            period: period_after_slide(channel.period, channel.period_target, channel.note_change),
            ..channel
        }
    } else {
        channel
    }
}

/// The channel after one tick. A channel that no sample has been set on stays
/// as it is.
pub open spec fn channel_after_tick(channel: ChannelInfo, song: &Song) -> ChannelInfo {
    if channel.sample_num != 0 {
        channel_after_pitch(
            channel_after_arpeggio(
                channel_after_volume(channel_after_retrigger(channel_after_cut(channel)), song),
                song,
            ),
            song,
        )
    } else {
        channel
    }
}

/// The channel can take a tick: the note that a running arpeggio or vibrato
/// starts from can be found in the period table where the effect looks it up.
pub open spec fn can_tick(channel: ChannelInfo, song: &Song) -> bool {
    channel.sample_num != 0 ==> {
        &&& arpeggio_active(channel) ==> is_table_period(channel.base_period)
        &&& channel.vibrato_depth > 0 ==> can_tune(channel.base_period, song.has_standard_notes)
    }
}

/// Every channel of the state can take a tick.
pub open spec fn all_can_tick(channels: Seq<ChannelInfo>, song: &Song) -> bool {
    forall|c: int| 0 <= c < channels.len() ==> can_tick(#[trigger] channels[c], song)
}

/// A tick keeps a channel in the ranges of the engine, whether or not it can
/// take the tick.
pub proof fn lemma_channel_tick_keeps_wf(channel: ChannelInfo, song: &Song)
    requires
        channel.wf(song),
    ensures
        channel_after_tick(channel, song).wf(song),
        channel_after_tick(channel, song).sample_num == channel.sample_num,
{
}

/// The channels after each has taken a tick.
pub open spec fn channels_after_tick(channels: Seq<ChannelInfo>, song: &Song) -> Seq<ChannelInfo> {
    Seq::new(channels.len(), |c: int| channel_after_tick(channels[c], song))
}

/// The state after every channel has taken a tick; nothing else changes.
pub open spec fn model_after_effects(state: PlayerModel, song: &Song) -> PlayerModel {
    PlayerModel { channels: channels_after_tick(state.channels, song), ..state }
}

/// What the oscillator adds at `pos` with `depth`, scaled down by `divisor`.
fn oscillate(pos: u32, depth: i32, divisor: i32) -> (swing: i32)
    requires
        0 <= depth <= 255,
        divisor == 32 || divisor == 64,
    ensures
        swing == truncated_quotient(oscillation(pos, depth), divisor as int),
        -2040 <= swing <= 2040,
{
    let level: i32 = VIBRATO_TABLE[(pos % 64) as usize];
    assert(-255 <= level <= 255);
    assert(-65025 <= level * depth <= 65025) by (nonlinear_arith)
        requires
            -255 <= level <= 255,
            0 <= depth <= 255,
    ;
    (level * depth) / divisor
}

/// One tick of a pending note cut and of a retrigger.
fn tick_cut_and_retrigger(channel: ChannelInfo, song: &Song) -> (ticked: ChannelInfo)
    requires
        channel.wf(song),
        channel.sample_num != 0,
    ensures
        ticked == channel_after_retrigger(channel_after_cut(channel)),
        ticked.wf(song),
        ticked.sample_num != 0,
{
    let mut channel = channel;
    if channel.cut_note_delay > 0 {
        channel.cut_note_delay -= 1;
        if channel.cut_note_delay == 0 {
            channel.size = 0;
        }
    }
    if channel.retrigger_delay > 0 {
        channel.retrigger_counter += 1;
        if channel.retrigger_delay == channel.retrigger_counter {
            channel.sample_pos = 0;
            channel.retrigger_counter = 0;
        }
    }
    channel
}

/// One tick of the volume slide and the tremolo.
fn tick_volume(channel: ChannelInfo, song: &Song) -> (ticked: ChannelInfo)
    requires
        song.wf(),
        channel.wf(song),
        channel.sample_num != 0,
    ensures
        ticked == channel_after_volume(channel, song),
        ticked.wf(song),
        ticked.sample_num != 0,
        0 <= ticked.volume <= 64,
{
    let mut channel = channel;
    channel.volume += channel.volume_change;
    if channel.tremolo_depth > 0 {
        let base_volume = song.samples[(channel.sample_num - 1) as usize].volume as i32;
        let tremolo_size = oscillate(channel.tremolo_pos, channel.tremolo_depth, 64);
        channel.tremolo_pos = channel.tremolo_pos.wrapping_add(channel.tremolo_speed);
        channel.volume = base_volume + tremolo_size;
    }
    if channel.volume < 0 {
        channel.volume = 0;
    }
    if channel.volume > 64 {
        channel.volume = 64;
    }
    channel
}

/// One tick of the arpeggio.
fn tick_arpeggio(channel: ChannelInfo, song: &Song) -> (ticked: ChannelInfo)
    requires
        channel.wf(song),
        arpeggio_active(channel) ==> is_table_period(channel.base_period),
    ensures
        ticked == channel_after_arpeggio(channel, song),
        ticked.wf(song),
        ticked.sample_num == channel.sample_num,
        ticked.volume == channel.volume,
        ticked.base_period == channel.base_period,
        ticked.vibrato_depth == channel.vibrato_depth,
{
    let mut channel = channel;
    if channel.arpeggio_offsets[0] != 0 || channel.arpeggio_offsets[1] != 0 {
        let mut new_period: u32 = channel.base_period;
        if channel.arpeggio_counter > 0 {
            let index = find_period(channel.base_period).unwrap();
            let offset = channel.arpeggio_offsets[(channel.arpeggio_counter - 1) as usize];
            let note_offset: usize = if index as u32 >= offset {
                index - offset as usize
            } else {
                0
            };
            new_period = FREQUENCY_TABLE[note_offset];
            proof {
                lemma_table_index_unique(new_period, note_offset as int);
            }
        }
        channel.period = fine_tune_period(new_period, channel.fine_tune, song.has_standard_notes);
        channel.arpeggio_counter += 1;
        if channel.arpeggio_counter >= 3 {
            channel.arpeggio_counter = 0;
        }
    }
    channel
}

/// One tick of the vibrato or, without one, of the slide.
fn tick_pitch(channel: ChannelInfo, song: &Song) -> (ticked: ChannelInfo)
    requires
        channel.wf(song),
        channel.vibrato_depth > 0 ==> can_tune(channel.base_period, song.has_standard_notes),
    ensures
        ticked == channel_after_pitch(channel, song),
        ticked.wf(song),
        ticked.sample_num == channel.sample_num,
        ticked.volume == channel.volume,
{
    let mut channel = channel;
    if channel.vibrato_depth > 0 {
        let period = fine_tune_period(
            channel.base_period,
            channel.fine_tune,
            song.has_standard_notes,
        );
        let swing = oscillate(channel.vibrato_pos, channel.vibrato_depth, 32);
        channel.period = period.wrapping_add_signed(swing);
        channel.vibrato_pos = channel.vibrato_pos.wrapping_add(channel.vibrato_speed);
    } else if channel.note_change != 0 {
        match channel.period_target {
            Some(target) => {
                if target > channel.period {
                    channel.period = change_note(channel.period, channel.note_change);
                    if channel.period >= target {
                        channel.period = target;
                    }
                } else {
                    channel.period = change_note(channel.period, -channel.note_change);
                    if channel.period <= target {
                        channel.period = target;
                    }
                }
            },
            None => {
                channel.period = change_note(channel.period, channel.note_change);
            },
        }
    }
    channel
}

/// Moves one channel on by a tick.
pub fn tick_channel(channel: ChannelInfo, song: &Song) -> (ticked: ChannelInfo)
    requires
        song.wf(),
        channel.wf(song),
        can_tick(channel, song),
    ensures
        ticked == channel_after_tick(channel, song),
        ticked.wf(song),
        ticked.sample_num != 0 ==> 0 <= ticked.volume <= 64,
{
    if channel.sample_num != 0 {
        let timed = tick_cut_and_retrigger(channel, song);
        let levelled = tick_volume(timed, song);
        let chorded = tick_arpeggio(levelled, song);
        tick_pitch(chorded, song)
    } else {
        channel
    }
}

/// Moves every channel on by a tick.
pub fn update_effects(player_state: &mut PlayerState, song: &Song)
    requires
        song.wf(),
        old(player_state).wf(song),
        all_can_tick(old(player_state).channels@, song),
    ensures
        final(player_state)@ == model_after_effects(old(player_state)@, song),
        final(player_state).wf(song),
        forall|c: int|
            #![trigger final(player_state).channels@[c]]
            0 <= c < final(player_state).channels@.len() && final(
                player_state
            ).channels@[c].sample_num != 0 ==> 0 <= final(player_state).channels@[c].volume <= 64,
{
    let count = player_state.channels.len();
    let mut c: usize = 0;
    while c < count
        invariant
            song.wf(),
            c <= count,
            count == player_state.channels@.len(),
            player_state.channels@.len() == old(player_state).channels@.len(),
            forall|i: int|
                0 <= i < c ==> #[trigger] player_state.channels@[i] == channel_after_tick(
                    old(player_state).channels@[i],
                    song,
                ),
            forall|i: int|
                0 <= i < c && (#[trigger] player_state.channels@[i]).sample_num != 0 ==> 0
                    <= player_state.channels@[i].volume <= 64,
            forall|i: int|
                c <= i < count ==>
                    #[trigger] player_state.channels@[i] == old(player_state).channels@[i],
            forall|i: int| 0 <= i < count ==> (#[trigger] player_state.channels@[i]).wf(song),
            all_can_tick(old(player_state).channels@, song),
            player_state@
                == (PlayerModel { channels: player_state.channels@, ..old(player_state)@ }),
        decreases count - c,
    {
        let ticked = tick_channel(player_state.channels[c], song);
        player_state.channels[c] = ticked;
        c += 1;
    }
    assert(player_state.channels@ =~= channels_after_tick(old(player_state).channels@, song));
}

} // verus!
