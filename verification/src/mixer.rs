//! The mixer: one call plays one device sample. It moves the clocks on, has
//! the effects and the next line take their turn when they are due, reads one
//! level from every sounding channel and adds the levels up for the two sides.

use crate::line::{
    can_play_line, current_note, current_notes, lemma_line_plays_on_its_channels,
    model_after_line, model_at_line_start, play_line,
};
use crate::player::{ChannelInfo, PlayerModel, PlayerState};
use crate::row::{can_play_note, channel_after_note, lemma_note_keeps_wf};
use crate::song::Song;
use crate::tick::{
    all_can_tick, channel_after_tick, lemma_channel_tick_keeps_wf, model_after_effects,
    update_effects,
};
use vstd::prelude::*;

verus! {

/// The level that a sample byte of 128 at full volume would mix to: the
/// mixed levels count in 1/8192 of full scale.
pub const FULL_SCALE: i64 = 8192;

/// How far a channel moves through its sample with one device sample at
/// `period`, in 1/65536 of a byte. With a period of zero the step has no
/// bound: it is the largest one there is.
pub open spec fn position_step(clock_ticks: u64, period: u32) -> u64 {
    if period == 0 {
        u64::MAX
    } else {
        clock_ticks / (period as u64)
    }
}

/// `position` held to the range of a sample position.
pub open spec fn bounded_position(position: int) -> u64 {
    if position > u64::MAX {
        u64::MAX
    } else {
        position as u64
    }
}

/// The channel with a position that has run past the end of the part to play
/// taken into the repeated part of its sample: as far behind the start of that
/// part as it was behind the end, and with the end of that part as the new end.
pub open spec fn channel_wrapped(channel: ChannelInfo, song: &Song) -> ChannelInfo {
    let sample = song.samples@[channel.sample_num - 1];
    if channel.sample_pos >= channel.size as int * 65536 {
        ChannelInfo {
            sample_pos: bounded_position(
                sample.repeat_offset as int * 65536 + (channel.sample_pos - channel.size as int
                    * 65536),
            ),
            size: (sample.repeat_offset + sample.repeat_size) as u32,
            ..channel
        }
    } else {
        channel
    }
}

/// The channel sounds in this device sample: it has more than two bytes to
/// play, and still has where its position had to be taken into the repeated part.
pub open spec fn channel_sounds(channel: ChannelInfo, song: &Song) -> bool {
    channel.size > 2 && channel_wrapped(channel, song).size > 2
}

/// The byte of sample data that the channel stands on.
pub open spec fn channel_byte(channel: ChannelInfo, song: &Song) -> i8 {
    song.samples@[channel.sample_num - 1].samples@[channel_wrapped(channel, song).sample_pos as int
        / 65536]
}

/// What the channel adds to its side of the mix: the byte it stands on times
/// its volume, or nothing where it does not sound.
pub open spec fn channel_level(channel: ChannelInfo, song: &Song) -> int {
    if channel_sounds(channel, song) {
        channel_byte(channel, song) as int * channel.volume as int
    } else {
        0
    }
}

/// The channel after a device sample: where it sounds, it has moved on by one
/// step at its period.
pub open spec fn channel_after_mix(channel: ChannelInfo, song: &Song, clock_ticks: u64)
    -> ChannelInfo {
    if channel.size > 2 {
        let wrapped = channel_wrapped(channel, song);
        if wrapped.size > 2 {
            ChannelInfo {
                sample_pos: bounded_position(
                    wrapped.sample_pos + position_step(clock_ticks, wrapped.period),
                ),
                ..wrapped
            }
        } else {
            wrapped
        }
    } else {
        channel
    }
}

/// The channel can be mixed: where it sounds, it stands on a byte of its sample.
pub open spec fn can_mix(channel: ChannelInfo, song: &Song) -> bool {
    channel_sounds(channel, song) ==> channel_wrapped(channel, song).sample_pos as int / 65536
        < song.samples@[channel.sample_num - 1].samples@.len()
}

/// Every channel can be mixed.
pub open spec fn all_can_mix(channels: Seq<ChannelInfo>, song: &Song) -> bool {
    forall|c: int| 0 <= c < channels.len() ==> can_mix(#[trigger] channels[c], song)
}

/// The channel `c` plays on the left: of every four channels the first and
/// the last do, the two in the middle play on the right.
pub open spec fn plays_left(c: int) -> bool {
    c % 4 == 0 || c % 4 == 3
}

/// The sum of the levels of those of the first `count` channels that play on
/// the left (`left`) or on the right (`!left`).
pub open spec fn mixed_level(channels: Seq<ChannelInfo>, song: &Song, count: int, left: bool) -> int
    decreases count,
{
    if count <= 0 {
        0
    } else {
        mixed_level(channels, song, count - 1, left) + if plays_left(count - 1) == left {
            channel_level(channels[count - 1], song)
        } else {
            0
        }
    }
}

/// The channels after a device sample.
pub open spec fn channels_after_mix(channels: Seq<ChannelInfo>, song: &Song, clock_ticks: u64)
    -> Seq<
    ChannelInfo,
> {
    Seq::new(channels.len(), |c: int| channel_after_mix(channels[c], song, clock_ticks))
}

/// The state after its channels have been mixed for one device sample.
pub open spec fn model_after_mix(state: PlayerModel, song: &Song) -> PlayerModel {
    PlayerModel {
        channels: channels_after_mix(state.channels, song, state.clock_ticks_per_device_sample),
        ..state
    }
}

/// This device sample completes a tick.
pub open spec fn tick_due(state: PlayerModel) -> bool {
    state.current_vblank_sample + 1 >= state.samples_per_vblank
}

/// Enough ticks have passed since the last line for the next one.
pub open spec fn line_due(state: PlayerModel) -> bool {
    state.current_vblank >= state.song_speed
}

/// The state after the part of a tick that concerns lines: where a line is
/// due, a pending delay counts down by one tick, and without a delay the tick
/// counter starts again and the line is played. In every case the tick is
/// counted at the end.
pub open spec fn model_after_line_clock(state: PlayerModel, song: &Song) -> PlayerModel {
    let stepped = if line_due(state) {
        if state.delay_line > 0 {
            PlayerModel { delay_line: (state.delay_line - 1) as u32, ..state }
        } else {
            model_after_line(PlayerModel { current_vblank: 0, ..state }, song)
        }
    } else {
        state
    };
    PlayerModel { current_vblank: (stepped.current_vblank + 1) as u32, ..stepped }
}

/// The state after a tick: the sample counter starts again, the effects of
/// every channel take their turn, and then the line does.
pub open spec fn model_after_tick(state: PlayerModel, song: &Song) -> PlayerModel {
    model_after_line_clock(
        model_after_effects(PlayerModel { current_vblank_sample: 0, ..state }, song),
        song,
    )
}

/// The state after the clocks have moved on by one device sample: it counts
/// the sample, and completes a tick where one is due.
pub open spec fn model_after_clock(state: PlayerModel, song: &Song) -> PlayerModel {
    if tick_due(state) {
        model_after_tick(state, song)
    } else {
        PlayerModel { current_vblank_sample: (state.current_vblank_sample + 1) as u32, ..state }
    }
}

/// The state after one device sample.
pub open spec fn model_after_sample(state: PlayerModel, song: &Song) -> PlayerModel {
    model_after_mix(model_after_clock(state, song), song)
}

/// The levels on the left and on the right that one device sample gives, in
/// 1/8192 of full scale.
pub open spec fn sample_levels(state: PlayerModel, song: &Song) -> (int, int) {
    let clocked = model_after_clock(state, song);
    (
        mixed_level(clocked.channels, song, clocked.channels.len() as int, true),
        mixed_level(clocked.channels, song, clocked.channels.len() as int, false),
    )
}

/// A line is played in the tick that is due: enough ticks have passed, and no
/// delay is pending.
pub open spec fn line_plays(state: PlayerModel) -> bool {
    line_due(state) && state.delay_line == 0
}

/// The state can be taken through one device sample: where a tick is due,
/// every channel can take it; where a line is played in that tick, its notes
/// can be played; and after that every channel can be mixed.
pub open spec fn can_advance(state: PlayerModel, song: &Song) -> bool {
    &&& tick_due(state) ==> {
        &&& all_can_tick(state.channels, song)
        &&& line_plays(state) ==> can_play_line(model_before_line(state, song), song)
    }
    &&& all_can_mix(model_after_clock(state, song).channels, song)
}

/// The state in which the line is played that a tick of `state` plays: the
/// effects have taken their turn, and the tick counter has started again.
pub open spec fn model_before_line(state: PlayerModel, song: &Song) -> PlayerModel {
    PlayerModel {
        current_vblank: 0,
        ..model_after_effects(PlayerModel { current_vblank_sample: 0, ..state }, song)
    }
}

/// The state at the start of the line that a tick of `state` plays.
pub open spec fn line_to_play(state: PlayerModel, song: &Song) -> PlayerModel {
    model_at_line_start(model_before_line(state, song), song)
}

/// This device sample plays the notes of a line: it completes a tick in which
/// a line is played, and the song has come to a line.
pub open spec fn line_is_played(state: PlayerModel, song: &Song) -> bool {
    tick_due(state) && line_plays(state) && line_to_play(state, song).on_live_entry(song)
}

/// What the clock of one device sample makes of the channel `c`: it takes the
/// tick where one is due, and after that the note of the line where one is
/// played.
pub open spec fn channel_after_clock(state: PlayerModel, song: &Song, c: int) -> ChannelInfo {
    if line_is_played(state, song) {
        channel_after_note(
            channel_after_tick(state.channels[c], song),
            current_note(line_to_play(state, song), song, c),
            song,
        )
    } else if tick_due(state) {
        channel_after_tick(state.channels[c], song)
    } else {
        state.channels[c]
    }
}

/// The clock of a device sample changes each channel by the channel's own
/// tick and note alone.
pub proof fn lemma_clock_moves_channels_alone(state: PlayerModel, song: &Song)
    requires
        song.wf(),
        state.wf(song),
    ensures
        model_after_clock(state, song).channels.len() == state.channels.len(),
        forall|c: int|
            0 <= c < state.channels.len() ==> #[trigger] model_after_clock(state, song).channels[c]
                == channel_after_clock(state, song, c),
        can_advance(state, song) ==> forall|c: int|
            0 <= c < state.channels.len() ==> (#[trigger] model_after_clock(
                state,
                song,
            ).channels[c]).wf(song),
        line_is_played(state, song) ==> line_to_play(state, song).wf(song),
{
    if tick_due(state) {
        let rested = model_before_line(state, song);
        assert forall|c: int| 0 <= c < rested.channels.len() implies
            (#[trigger] rested.channels[c]).wf(
            song,
        ) by {
            lemma_channel_tick_keeps_wf(state.channels[c], song);
        }
        if line_plays(state) {
            lemma_line_plays_on_its_channels(rested, song);
            assert(model_after_clock(state, song).channels == model_after_line(
                rested,
                song,
            ).channels);
        }
    }
    if can_advance(state, song) {
        assert forall|c: int| 0 <= c < state.channels.len() implies (#[trigger] model_after_clock(
            state,
            song,
        ).channels[c]).wf(song) by {
            if tick_due(state) {
                lemma_channel_tick_keeps_wf(state.channels[c], song);
                if line_is_played(state, song) {
                    let start = line_to_play(state, song);
                    assert(start.channels[c] == channel_after_tick(state.channels[c], song));
                    assert(can_play_note(start.channels[c], current_notes(start, song)[c], song));
                    lemma_note_keeps_wf(
                        start.channels[c],
                        current_notes(start, song)[c],
                        song,
                    );
                }
            }
        }
    }
}

/// The level of a channel is bounded by the range of a sample byte and of the
/// volume.
pub proof fn lemma_channel_level_bounded(channel: ChannelInfo, song: &Song)
    requires
        0 <= channel.volume <= 255,
    ensures
        -32640 <= channel_level(channel, song) <= 32640,
{
    if channel_sounds(channel, song) {
        let byte = channel_byte(channel, song) as int;
        let volume = channel.volume as int;
        assert(-32640 <= byte * volume <= 32640) by (nonlinear_arith)
            requires
                -128 <= byte <= 127,
                0 <= volume <= 255,
        ;
    }
}

/// Mixes one channel by itself: the channel after the device sample, and the
/// level it adds.
pub fn mix_channel(channel: ChannelInfo, song: &Song, clock_ticks: u64) -> (mixed: (
    ChannelInfo,
    i64,
))
    requires
        song.wf(),
        channel.wf(song),
        can_mix(channel, song),
    ensures
        mixed.0 == channel_after_mix(channel, song, clock_ticks),
        mixed.1 == channel_level(channel, song),
        mixed.0.wf(song),
        -32640 <= mixed.1 <= 32640,
{
    let mut channel = channel;
    proof {
        lemma_channel_level_bounded(channel, song);
    }
    if channel.size > 2 {
        let current_sample = &song.samples[(channel.sample_num - 1) as usize];
        let end: u64 = channel.size as u64 * 65536;
        if channel.sample_pos >= end {
            let overflow: u64 = channel.sample_pos - end;
            channel.sample_pos = (current_sample.repeat_offset as u64 * 65536).saturating_add(
                overflow,
            );
            channel.size = current_sample.repeat_size + current_sample.repeat_offset;
            if channel.size <= 2 {
                return (channel, 0);
            }
        }
        let byte: i8 = current_sample.samples[(channel.sample_pos / 65536) as usize];
        let level: i64 = byte as i64 * channel.volume as i64;
        let step: u64 = if channel.period == 0 {
            u64::MAX
        } else {
            clock_ticks / channel.period as u64
        };
        channel.sample_pos = channel.sample_pos.saturating_add(step);
        (channel, level)
    } else {
        (channel, 0)
    }
}

/// Mixes every channel for one device sample.
pub fn mix(song: &Song, player_state: &mut PlayerState) -> (levels: (i64, i64))
    requires
        song.wf(),
        old(player_state).wf(song),
        all_can_mix(old(player_state).channels@, song),
    ensures
        final(player_state)@ == model_after_mix(old(player_state)@, song),
        final(player_state).wf(song),
        levels.0 == mixed_level(
            old(player_state).channels@,
            song,
            old(player_state).channels@.len() as int,
            true,
        ),
        levels.1 == mixed_level(
            old(player_state).channels@,
            song,
            old(player_state).channels@.len() as int,
            false,
        ),
        -32640 * old(player_state).channels@.len()
            <= levels.0 <= 32640 * old(player_state).channels@.len(),
        -32640 * old(player_state).channels@.len()
            <= levels.1 <= 32640 * old(player_state).channels@.len(),
{
    let mut left: i64 = 0;
    let mut right: i64 = 0;
    let clock_ticks = player_state.clock_ticks_per_device_sample;
    let count = player_state.channels.len();
    let mut c: usize = 0;
    while c < count
        invariant
            song.wf(),
            c <= count,
            count == player_state.channels@.len(),
            count == old(player_state).channels@.len(),
            count <= u32::MAX,
            clock_ticks == old(player_state).clock_ticks_per_device_sample,
            forall|i: int|
                0 <= i < c ==> #[trigger] player_state.channels@[i] == channel_after_mix(
                    old(player_state).channels@[i],
                    song,
                    clock_ticks,
                ),
            forall|i: int|
                c <= i < count ==>
                    #[trigger] player_state.channels@[i] == old(player_state).channels@[i],
            forall|i: int| 0 <= i < count ==> (#[trigger] player_state.channels@[i]).wf(song),
            all_can_mix(old(player_state).channels@, song),
            player_state@
                == (PlayerModel { channels: player_state.channels@, ..old(player_state)@ }),
            left == mixed_level(old(player_state).channels@, song, c as int, true),
            right == mixed_level(old(player_state).channels@, song, c as int, false),
            -32640 * c <= left <= 32640 * c,
            -32640 * c <= right <= 32640 * c,
        decreases count - c,
    {
        let (mixed, level) = mix_channel(player_state.channels[c], song, clock_ticks);
        player_state.channels[c] = mixed;
        let selector = c % 4;
        if selector == 0 || selector == 3 {
            left += level;
        } else {
            right += level;
        }
        c += 1;
    }
    assert(player_state.channels@ =~= channels_after_mix(
        old(player_state).channels@,
        song,
        clock_ticks,
    ));
    (left, right)
}

/// Counts one device sample, and completes the tick where one is due.
fn advance_clock(song: &Song, player_state: &mut PlayerState)
    requires
        song.wf(),
        old(player_state).wf(song),
        old(player_state)@.ticks_bounded(),
        tick_due(old(player_state)@) ==> {
            &&& all_can_tick(old(player_state).channels@, song)
            &&& line_plays(old(player_state)@) ==> can_play_line(
                model_before_line(old(player_state)@, song),
                song,
            )
        },
    ensures
        final(player_state)@ == model_after_clock(old(player_state)@, song),
        final(player_state).wf(song),
        final(player_state)@.ticks_bounded(),
        old(player_state).song_has_ended ==> final(player_state).song_has_ended,
        old(player_state).has_looped ==> final(player_state).has_looped,
{
    let due = player_state.samples_per_vblank == 0 || player_state.current_vblank_sample
        >= player_state.samples_per_vblank - 1;
    if due {
        player_state.current_vblank_sample = 0;
        update_effects(player_state, song);
        if player_state.current_vblank >= player_state.song_speed {
            if player_state.delay_line > 0 {
                player_state.delay_line -= 1;
            } else {
                player_state.current_vblank = 0;
                play_line(song, player_state);
            }
        }
        player_state.current_vblank += 1;
    } else {
        player_state.current_vblank_sample += 1;
    }
}

/// Calculates the next sample pair (left, right) to be played from the song.
/// The levels count in 1/8192 of full scale.
pub fn next_sample(song: &Song, player_state: &mut PlayerState) -> (levels: (i64, i64))
    requires
        song.wf(),
        old(player_state).wf(song),
        old(player_state)@.ticks_bounded(),
        can_advance(old(player_state)@, song),
    ensures
        final(player_state)@ == model_after_sample(old(player_state)@, song),
        levels.0 == sample_levels(old(player_state)@, song).0,
        levels.1 == sample_levels(old(player_state)@, song).1,
        final(player_state).wf(song),
        final(player_state)@.ticks_bounded(),
        final(player_state).current_line < 64,
        final(player_state).song_pattern_position <= song.num_used_patterns,
        old(player_state).song_has_ended ==> final(player_state).song_has_ended,
        old(player_state).has_looped ==> final(player_state).has_looped,
        -32640 * old(player_state).channels@.len()
            <= levels.0 <= 32640 * old(player_state).channels@.len(),
        -32640 * old(player_state).channels@.len()
            <= levels.1 <= 32640 * old(player_state).channels@.len(),
{
    advance_clock(song, player_state);
    mix(song, player_state)
}

} // verus!
