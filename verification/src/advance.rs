//! Playing a device sample from a state of which it is not known beforehand
//! that the engine can take it through: the conditions of `next_sample` are
//! tested first.

use crate::line::{current_note, current_notes, model_after_jump, model_after_wrap};
use crate::mixer::{
    can_advance, can_mix, lemma_clock_moves_channels_alone, line_is_played, line_to_play,
    model_after_clock, model_after_sample, model_before_line, next_sample, sample_levels,
    tick_due,
};
use crate::pitch::find_period;
use crate::player::{ChannelInfo, PlayerModel, PlayerState};
use crate::row::{can_play_note, channel_after_note, channel_before_effect, note_channel};
use crate::song::{Effect, Note, Song};
use crate::tick::{can_tick, channel_after_tick, tick_channel};
use vstd::prelude::*;

verus! {

impl ChannelInfo {
    /// Tells whether the channel can take a tick.
    pub fn can_tick(&self, song: &Song) -> (can: bool)
        ensures
            can == can_tick(*self, song),
    {
        if self.sample_num == 0 {
            return true;
        }
        let in_table = find_period(self.base_period).is_some();
        let arpeggio = self.arpeggio_offsets[0] != 0 || self.arpeggio_offsets[1] != 0;
        let tuned_vibrato = self.vibrato_depth > 0 && song.has_standard_notes;
        in_table || !(arpeggio || tuned_vibrato)
    }

    /// Tells whether `note` can be played on the channel.
    pub fn can_play(&self, note: &Note, song: &Song) -> (can: bool)
        requires
            self.wf(song),
        ensures
            can == can_play_note(*self, *note, song),
    {
        if note.sample_number as usize > song.samples.len() {
            return false;
        }
        if note.period != 0 && song.has_standard_notes && find_period(note.period).is_none() {
            return false;
        }
        match note.effect {
            Effect::SetSampleOffset { offset } => {
                let sample_num = if note.sample_number > 0 {
                    note.sample_number
                } else {
                    self.sample_num
                };
                assert(sample_num == channel_before_effect(*self, *note, song).sample_num);
                if note.period != 0 && sample_num > 0 && offset > 0 {
                    song.samples[(sample_num - 1) as usize].size > 0
                } else {
                    true
                }
            },
            _ => true,
        }
    }

    /// Tells whether the channel can be mixed.
    pub fn can_mix(&self, song: &Song) -> (can: bool)
        requires
            song.wf(),
            self.wf(song),
        ensures
            can == can_mix(*self, song),
    {
        if self.size <= 2 {
            return true;
        }
        let sample = &song.samples[(self.sample_num - 1) as usize];
        let end: u64 = self.size as u64 * 65536;
        if self.sample_pos >= end {
            if sample.repeat_size + sample.repeat_offset <= 2 {
                return true;
            }
            let wrapped: u64 = (sample.repeat_offset as u64 * 65536).saturating_add(
                self.sample_pos - end,
            );
            wrapped / 65536 < sample.samples.len() as u64
        } else {
            self.sample_pos / 65536 < sample.samples.len() as u64
        }
    }
}

impl PlayerState {
    /// The place of the line that a tick plays now: the entry of the pattern
    /// table and the line, where the song comes to a line at all.
    fn line_to_play(&self, song: &Song) -> (place: Option<(usize, usize)>)
        requires
            song.wf(),
            self.wf(song),
        ensures
            place is Some <==> line_to_play(self@, song).on_live_entry(song),
            place matches Some(found) ==> found.0 == line_to_play(self@, song).song_pattern_position
                && found.1 == line_to_play(self@, song).current_line,
    {
        let mut position: u32 = self.song_pattern_position;
        let mut line: u32 = self.current_line;
        if self.next_pattern_pos != -1 {
            position += 1;
            line = self.next_pattern_pos as u32;
        } else if self.next_position != -1 {
            position = self.next_position as u32;
            line = 0;
        }
        if position >= song.num_used_patterns {
            if song.end_position < song.num_used_patterns {
                position = song.end_position;
            } else {
                position = song.num_used_patterns;
            }
        }
        proof {
            let rested = model_before_line(self@, song);
            let jumped = model_after_jump(rested);
            let start = model_after_wrap(jumped, song);
            assert(start == line_to_play(self@, song));
            assert(start.song_pattern_position == position);
            assert(start.current_line == line);
        }
        if position < song.num_used_patterns {
            Some((position as usize, line as usize))
        } else {
            None
        }
    }

    /// Tells whether `next_sample` can take the state through the next device
    /// sample.
    pub fn can_advance(&self, song: &Song) -> (can: bool)
        requires
            song.wf(),
            self.wf(song),
        ensures
            can == can_advance(self@, song),
    {
        let due = self.samples_per_vblank == 0 || self.current_vblank_sample
            >= self.samples_per_vblank - 1;
        let plays = due && self.current_vblank >= self.song_speed && self.delay_line == 0;
        let place = if plays {
            self.line_to_play(song)
        } else {
            None
        };
        proof {
            lemma_channels_advance_alone(self@, song);
        }
        let count = self.channels.len();
        let mut c: usize = 0;
        while c < count
            invariant
                song.wf(),
                self.wf(song),
                c <= count,
                count == self.channels@.len(),
                due == tick_due(self@),
                place is Some <==> line_is_played(self@, song),
                place matches Some(found) ==> found.0 == line_to_play(
                    self@,
                    song,
                ).song_pattern_position && found.1 == line_to_play(self@, song).current_line,
                forall|i: int| 0 <= i < c ==> #[trigger] channel_can_advance(self@, song, i),
                can_advance(self@, song) <==> forall|i: int|
                    0 <= i < count ==> #[trigger] channel_can_advance(self@, song, i),
            decreases count - c,
        {
            let note = match place {
                Some((position, line)) => {
                    proof {
                        lemma_clock_moves_channels_alone(self@, song);
                    }
                    let pattern = &song.patterns[song.pattern_table[position] as usize];
                    assert(pattern.has_shape(song.format.num_channels));
                    Some(&pattern.lines[line][c])
                },
                None => None,
            };
            if !channel_passes(self.channels[c], song, due, note) {
                assert(!channel_can_advance(self@, song, c as int));
                return false;
            }
            c += 1;
        }
        true
    }
}

/// The note that this device sample plays on the channel `c`, if it plays a line.
pub open spec fn note_to_play(state: PlayerModel, song: &Song, c: int) -> Option<Note> {
    if line_is_played(state, song) {
        Some(current_note(line_to_play(state, song), song, c))
    } else {
        None
    }
}

/// A channel can be taken through a device sample in which it takes a tick
/// if `due`, and is played `note` on if there is one: it can take the tick,
/// then the note can be played on it, and then it can be mixed.
pub open spec fn channel_can_pass(
    channel: ChannelInfo,
    song: &Song,
    due: bool,
    note: Option<Note>,
) -> bool {
    let ticked = if due {
        channel_after_tick(channel, song)
    } else {
        channel
    };
    &&& due ==> can_tick(channel, song)
    &&& match note {
        Some(note) => can_play_note(ticked, note, song) && can_mix(
            channel_after_note(ticked, note, song),
            song,
        ),
        None => can_mix(ticked, song),
    }
}

/// The channel `c` can be taken through the next device sample.
pub open spec fn channel_can_advance(state: PlayerModel, song: &Song, c: int) -> bool {
    channel_can_pass(state.channels[c], song, tick_due(state), note_to_play(state, song, c))
}

/// The state can be taken through a device sample exactly when each of its
/// channels can.
pub proof fn lemma_channels_advance_alone(state: PlayerModel, song: &Song)
    requires
        song.wf(),
        state.wf(song),
    ensures
        can_advance(state, song) <==> forall|c: int|
            0 <= c < state.channels.len() ==> #[trigger] channel_can_advance(state, song, c),
{
    lemma_clock_moves_channels_alone(state, song);
    let clocked = model_after_clock(state, song);
    let start = line_to_play(state, song);
    let every = forall|c: int|
        0 <= c < state.channels.len() ==> #[trigger] channel_can_advance(state, song, c);
    if can_advance(state, song) {
        assert forall|c: int| 0 <= c < state.channels.len() implies #[trigger] channel_can_advance(
            state,
            song,
            c,
        ) by {
            assert(can_mix(clocked.channels[c], song));
            if tick_due(state) {
                assert(can_tick(state.channels[c], song));
            }
            if line_is_played(state, song) {
                assert(start.channels[c] == channel_after_tick(state.channels[c], song));
                assert(can_play_note(start.channels[c], current_notes(start, song)[c], song));
            }
        }
    }
    if every {
        assert forall|c: int| 0 <= c < clocked.channels.len() implies can_mix(
            #[trigger] clocked.channels[c],
            song,
        ) by {
            assert(channel_can_advance(state, song, c));
        }
        if tick_due(state) {
            assert forall|c: int| 0 <= c < state.channels.len() implies can_tick(
                #[trigger] state.channels[c],
                song,
            ) by {
                assert(channel_can_advance(state, song, c));
            }
            if line_is_played(state, song) {
                assert forall|c: int| 0 <= c < start.channels.len() implies can_play_note(
                    #[trigger] start.channels[c],
                    current_notes(start, song)[c],
                    song,
                ) by {
                    assert(channel_can_advance(state, song, c));
                    assert(start.channels[c] == channel_after_tick(state.channels[c], song));
                }
            }
        }
    }
}

/// Tells whether a channel can be taken through a device sample.
fn channel_passes(channel: ChannelInfo, song: &Song, due: bool, note: Option<&Note>) -> (can: bool)
    requires
        song.wf(),
        channel.wf(song),
    ensures
        can == channel_can_pass(
            channel,
            song,
            due,
            match note {
                Some(note) => Some(*note),
                None => None,
            },
        ),
{
    let mut channel = channel;
    if due {
        if !channel.can_tick(song) {
            return false;
        }
        channel = tick_channel(channel, song);
    }
    match note {
        Some(note) => {
            if !channel.can_play(note, song) {
                return false;
            }
            channel = note_channel(channel, note, song);
        },
        None => {},
    }
    channel.can_mix(song)
}

/// Plays the next device sample where the engine can take the state through
/// it, and leaves the state as it is where it cannot.
pub fn try_next_sample(song: &Song, player_state: &mut PlayerState) -> (levels: Option<(i64, i64)>)
    requires
        song.wf(),
        old(player_state).wf(song),
        old(player_state)@.ticks_bounded(),
    ensures
        levels is Some <==> can_advance(old(player_state)@, song),
        levels matches Some(pair) ==> {
            &&& final(player_state)@ == model_after_sample(old(player_state)@, song)
            &&& pair.0 == sample_levels(old(player_state)@, song).0
            &&& pair.1 == sample_levels(old(player_state)@, song).1
        },
        levels is None ==> *final(player_state) == *old(player_state),
        final(player_state).wf(song),
        final(player_state)@.ticks_bounded(),
{
    if player_state.can_advance(song) {
        Some(next_sample(song, player_state))
    } else {
        None
    }
}

} // verus!
