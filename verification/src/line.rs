//! Playing one line of the song: settling where the song goes on, playing the
//! line's notes, and stepping to the line after it.

use crate::pitch::{can_tune, is_standard_period};
use crate::player::{PlayerModel, PlayerState};
use crate::row::{can_play_note, channel_after_note, model_after_note, play_note};
use crate::song::{Note, Song};
use vstd::prelude::*;

verus! {

/// The state once a pending pattern break or, without one, a pending position
/// jump has been carried out. A pattern break goes to the next entry of the
/// pattern table, on the line it names; a position jump goes to the first line
/// of the entry it names, and marks the song as looped where that entry is not
/// ahead.
pub open spec fn model_after_jump(state: PlayerModel) -> PlayerModel {
    if state.next_pattern_pos != -1 {
        PlayerModel {
            song_pattern_position: (state.song_pattern_position + 1) as u32,
            current_line: state.next_pattern_pos as u32,
            next_pattern_pos: -1i32,
            ..state
        }
    } else if state.next_position != -1 {
        PlayerModel {
            song_pattern_position: state.next_position as u32,
            current_line: 0,
            next_position: -1i32,
            has_looped: state.has_looped || state.next_position <= state.song_pattern_position,
            ..state
        }
    } else {
        state
    }
}

/// The state with a position past the live entries of the pattern table
/// settled: the song goes on at `end_position` and is marked as looped where
/// that is a live entry; otherwise it has ended, and the position stays on the
/// first entry that is not live.
pub open spec fn model_after_wrap(state: PlayerModel, song: &Song) -> PlayerModel {
    if state.song_pattern_position >= song.num_used_patterns {
        if song.end_position < song.num_used_patterns {
            PlayerModel { song_pattern_position: song.end_position, has_looped: true, ..state }
        } else {
            PlayerModel {
                song_pattern_position: song.num_used_patterns,
                song_has_ended: true,
                ..state
            }
        }
    } else {
        state
    }
}

/// The state at the start of a line: pending jumps carried out, and the
/// position settled.
pub open spec fn model_at_line_start(state: PlayerModel, song: &Song) -> PlayerModel {
    model_after_wrap(model_after_jump(state), song)
}

/// The notes of the line that the state stands on.
pub open spec fn current_notes(state: PlayerModel, song: &Song) -> Seq<Note> {
    song.patterns@[state.current_pattern(song)].lines@[state.current_line as int]@
}

/// The state after the first `count` notes of `notes` have been played, each
/// on the channel of its place in the line.
pub open spec fn model_after_notes(
    state: PlayerModel,
    notes: Seq<Note>,
    count: int,
    song: &Song,
) -> PlayerModel
    decreases count,
{
    if count <= 0 {
        state
    } else {
        model_after_note(
            model_after_notes(state, notes, count - 1, song),
            count - 1,
            notes[count - 1],
            song,
        )
    }
}

/// The state stepped to the next line: back to the mark of a pattern loop
/// where the line asked for that jump and a mark exists; otherwise on to the
/// line after, which past the last line of a pattern is the first line of the
/// next entry of the pattern table. Stepping past the last live entry ends the
/// song.
pub open spec fn model_at_line_end(state: PlayerModel, song: &Song) -> PlayerModel {
    if state.set_pattern_position && state.pattern_loop_position is Some {
        PlayerModel {
            set_pattern_position: false,
            current_line: state.pattern_loop_position->0,
            ..state
        }
    } else if state.current_line + 1 >= 64 {
        PlayerModel {
            current_line: 0,
            song_pattern_position: (state.song_pattern_position + 1) as u32,
            song_has_ended: state.song_has_ended || state.song_pattern_position + 1
                >= song.num_used_patterns,
            ..state
        }
    } else {
        PlayerModel { current_line: (state.current_line + 1) as u32, ..state }
    }
}

/// The state after a line has been played. Where the position at the start of
/// the line is on no live entry of the pattern table, there is no line to
/// play, and the state stays as the start of the line left it.
pub open spec fn model_after_line(state: PlayerModel, song: &Song) -> PlayerModel {
    let start = model_at_line_start(state, song);
    if start.on_live_entry(song) {
        let notes = current_notes(start, song);
        model_at_line_end(model_after_notes(start, notes, notes.len() as int, song), song)
    } else {
        start
    }
}

/// Every note of the line that is about to be played can be played on its
/// channel.
pub open spec fn can_play_line(state: PlayerModel, song: &Song) -> bool {
    let start = model_at_line_start(state, song);
    start.on_live_entry(song) ==> forall|c: int|
        0 <= c < start.channels.len() ==> can_play_note(
            #[trigger] start.channels[c],
            current_notes(start, song)[c],
            song,
        )
}

/// Playing notes leaves the channels of the notes not yet played as they were,
/// and changes each of the others by its own note alone.
pub proof fn lemma_notes_play_on_their_channels(
    state: PlayerModel,
    notes: Seq<Note>,
    count: int,
    song: &Song,
)
    requires
        0 <= count <= notes.len(),
        notes.len() <= state.channels.len(),
    ensures
        model_after_notes(state, notes, count, song).channels.len() == state.channels.len(),
        forall|c: int|
            0 <= c < count ==> #[trigger] model_after_notes(state, notes, count, song).channels[c]
                == channel_after_note(state.channels[c], notes[c], song),
        forall|c: int|
            count <= c < state.channels.len() ==> #[trigger] model_after_notes(
                state,
                notes,
                count,
                song,
            ).channels[c] == state.channels[c],
    decreases count,
{
    if count > 0 {
        lemma_notes_play_on_their_channels(state, notes, count - 1, song);
    }
}

/// The note that the state stands on in `channel`, where its position is on a
/// live entry of the pattern table.
pub open spec fn current_note(state: PlayerModel, song: &Song, channel: int) -> Note {
    song.patterns@[state.current_pattern(song)].note(state.current_line as int, channel)
}

/// Playing a line changes each channel by the note that the line holds for
/// it, and by nothing else; where there is no line to play, the channels stay
/// as they are.
pub proof fn lemma_line_plays_on_its_channels(state: PlayerModel, song: &Song)
    requires
        song.wf(),
        state.wf(song),
    ensures
        model_at_line_start(state, song).wf(song),
        model_at_line_start(state, song).channels == state.channels,
        model_after_line(state, song).channels.len() == state.channels.len(),
        model_at_line_start(state, song).on_live_entry(song) ==> forall|c: int|
            0 <= c < state.channels.len() ==> #[trigger] model_after_line(state, song).channels[c]
                == channel_after_note(
                state.channels[c],
                current_note(model_at_line_start(state, song), song, c),
                song,
            ),
        !model_at_line_start(state, song).on_live_entry(song) ==> model_after_line(
            state,
            song,
        ).channels == state.channels,
{
    let start = model_at_line_start(state, song);
    if start.on_live_entry(song) {
        let notes = current_notes(start, song);
        assert(song.patterns@[start.current_pattern(song)].has_shape(
            song.format.num_channels,
        ));
        lemma_notes_play_on_their_channels(start, notes, notes.len() as int, song);
    }
}

/// In a well-formed song every note of the line to play names a sample of the
/// song or none, and has a period that can be tuned; so the line can be played
/// unless one of its notes asks for an offset into a sample without data.
pub proof fn lemma_line_of_song_can_be_tuned(state: PlayerModel, song: &Song, c: int)
    requires
        song.wf(),
        state.wf(song),
        model_at_line_start(state, song).on_live_entry(song),
        0 <= c < state.channels.len(),
    ensures
        current_note(model_at_line_start(state, song), song, c).sample_number
            <= song.samples@.len(),
        current_note(model_at_line_start(state, song), song, c).period != 0 ==> can_tune(
            current_note(model_at_line_start(state, song), song, c).period,
            song.has_standard_notes,
        ),
        !(current_note(model_at_line_start(state, song), song, c).effect is SetSampleOffset)
            ==> can_play_note(
            model_at_line_start(state, song).channels[c],
            current_note(model_at_line_start(state, song), song, c),
            song,
        ),
{
    let start = model_at_line_start(state, song);
    let entry = start.song_pattern_position as int;
    let pattern = song.pattern_table@[entry] as int;
    assert(song.patterns@[pattern].has_shape(song.format.num_channels));
    let note = song.patterns@[pattern].lines@[start.current_line as int]@[c];
    assert(note == song.patterns@[pattern].note(start.current_line as int, c));
    if song.has_standard_notes {
        assert(is_standard_period(note.period));
    }
}

/// Carries out the pending jumps and settles the position.
fn start_line(song: &Song, player_state: &mut PlayerState)
    requires
        song.wf(),
        old(player_state).wf(song),
    ensures
        final(player_state)@ == model_at_line_start(old(player_state)@, song),
        final(player_state).wf(song),
        final(player_state).current_vblank == old(player_state).current_vblank,
        old(player_state).song_has_ended ==> final(player_state).song_has_ended,
        old(player_state).has_looped ==> final(player_state).has_looped,
{
    if player_state.next_pattern_pos != -1 {
        player_state.song_pattern_position += 1;
        player_state.current_line = player_state.next_pattern_pos as u32;
        player_state.next_pattern_pos = -1;
    } else if player_state.next_position != -1 {
        if player_state.next_position as u32 <= player_state.song_pattern_position {
            player_state.has_looped = true;
        }
        player_state.song_pattern_position = player_state.next_position as u32;
        player_state.current_line = 0;
        player_state.next_position = -1;
    }
    if player_state.song_pattern_position >= song.num_used_patterns {
        if song.end_position < song.num_used_patterns {
            player_state.song_pattern_position = song.end_position;
            player_state.has_looped = true;
        } else {
            player_state.song_pattern_position = song.num_used_patterns;
            player_state.song_has_ended = true;
        }
    }
}

/// Plays the notes of the line that the state stands on.
fn play_notes(song: &Song, player_state: &mut PlayerState)
    requires
        song.wf(),
        old(player_state).wf(song),
        old(player_state)@.on_live_entry(song),
        forall|c: int|
            0 <= c < old(player_state).channels@.len() ==> can_play_note(
                #[trigger] old(player_state).channels@[c],
                current_notes(old(player_state)@, song)[c],
                song,
            ),
    ensures
        final(player_state)@ == model_after_notes(
            old(player_state)@,
            current_notes(old(player_state)@, song),
            current_notes(old(player_state)@, song).len() as int,
            song,
        ),
        final(player_state).wf(song),
        final(player_state).song_pattern_position == old(player_state).song_pattern_position,
        final(player_state).current_line == old(player_state).current_line,
        final(player_state).song_has_ended == old(player_state).song_has_ended,
        final(player_state).current_vblank == old(player_state).current_vblank,
        old(player_state).has_looped ==> final(player_state).has_looped,
{
    let ghost start = player_state@;
    let line = player_state.get_song_line(song);
    assert(line@ == current_notes(start, song));
    let count = line.len();
    let mut c: usize = 0;
    while c < count
        invariant
            song.wf(),
            c <= count,
            count == line@.len(),
            count == start.channels.len(),
            player_state.wf(song),
            player_state@ == model_after_notes(start, line@, c as int, song),
            player_state.song_pattern_position == start.song_pattern_position,
            player_state.current_line == start.current_line,
            player_state.song_has_ended == start.song_has_ended,
            player_state.current_vblank == start.current_vblank,
            start.has_looped ==> player_state.has_looped,
            forall|i: int|
                0 <= i < count ==> can_play_note(#[trigger] start.channels[i], line@[i], song),
        decreases count - c,
    {
        proof {
            lemma_notes_play_on_their_channels(start, line@, c as int, song);
        }
        play_note(&line[c], player_state, c, song);
        c += 1;
    }
}

/// Steps to the line to play next.
fn end_line(song: &Song, player_state: &mut PlayerState)
    requires
        song.wf(),
        old(player_state).wf(song),
        old(player_state)@.on_live_entry(song),
    ensures
        final(player_state)@ == model_at_line_end(old(player_state)@, song),
        final(player_state).wf(song),
        final(player_state).current_vblank == old(player_state).current_vblank,
        old(player_state).song_has_ended ==> final(player_state).song_has_ended,
        final(player_state).has_looped == old(player_state).has_looped,
{
    if player_state.set_pattern_position && player_state.pattern_loop_position.is_some() {
        player_state.set_pattern_position = false;
        player_state.current_line = player_state.pattern_loop_position.unwrap();
    } else {
        player_state.current_line += 1;
        if player_state.current_line >= 64 {
            player_state.song_pattern_position += 1;
            if player_state.song_pattern_position >= song.num_used_patterns {
                player_state.song_has_ended = true;
            }
            player_state.current_line = 0;
        }
    }
}

/// Plays the line that the song has come to, and steps to the next.
pub fn play_line(song: &Song, player_state: &mut PlayerState)
    requires
        song.wf(),
        old(player_state).wf(song),
        can_play_line(old(player_state)@, song),
    ensures
        final(player_state)@ == model_after_line(old(player_state)@, song),
        final(player_state).wf(song),
        final(player_state).current_vblank == old(player_state).current_vblank,
        old(player_state).song_has_ended ==> final(player_state).song_has_ended,
        old(player_state).has_looped ==> final(player_state).has_looped,
{
    start_line(song, player_state);
    if player_state.song_pattern_position < song.num_used_patterns {
        play_notes(song, player_state);
        end_line(song, player_state);
    }
}

} // verus!
