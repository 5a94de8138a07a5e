//! What holds of the engine as a whole, proved from the definitions of its
//! steps.

use crate::line::{
    current_note, current_notes, model_after_jump, model_after_line, model_after_notes,
    model_at_line_start,
};
use crate::mixer::{
    can_mix, channel_after_mix, channel_sounds, channel_wrapped, lemma_clock_moves_channels_alone,
    line_is_played, line_to_play, model_after_clock, model_after_sample, sample_levels, tick_due,
};
use crate::pitch::tuned_period;
use crate::player::{ChannelInfo, PlayerModel, PlayerState};
use crate::row::{
    bpm_samples_per_vblank, channel_after_note, channel_before_effect, model_after_effect,
    sample_offset_bytes,
};
use crate::song::{Effect, Note, Song};
use crate::tick::{arpeggio_active, channel_after_tick, model_after_effects};
use vstd::prelude::*;

verus! {

/// A vibrato whose argument is zero goes on at the speed and depth that the
/// channel had before the line, and so does a tremolo.
pub proof fn lemma_zero_argument_keeps_modulation(channel: ChannelInfo, note: Note, song: &Song)
    ensures
        note.effect == (Effect::Vibrato { speed: 0, amplitude: 0 }) ==> {
            &&& channel_after_note(channel, note, song).vibrato_speed == channel.vibrato_speed
            &&& channel_after_note(channel, note, song).vibrato_depth == channel.vibrato_depth
        },
        note.effect == (Effect::Tremolo { speed: 0, amplitude: 0 }) ==> {
            &&& channel_after_note(channel, note, song).tremolo_speed == channel.tremolo_speed
            &&& channel_after_note(channel, note, song).tremolo_depth == channel.tremolo_depth
        },
{
}

/// A tone portamento on a note without a period slides on to the target of
/// the portamento before it.
pub proof fn lemma_portamento_reuses_target(
    channel: ChannelInfo,
    note: Note,
    song: &Song,
    speed: u8,
)
    requires
        note.period == 0,
        note.effect == (Effect::TonePortamento { speed }),
    ensures
        channel_after_note(channel, note, song).period_target == Some(channel.last_porta_target),
        channel_after_note(channel, note, song).last_porta_target == channel.last_porta_target,
        channel_after_note(channel, note, song).period == channel.period,
{
}

/// A sample offset that lies past the end of the sample starts the sample at
/// the offset's remainder by the sample's size, which is a place inside it.
pub proof fn lemma_sample_offset_wraps(channel: ChannelInfo, note: Note, song: &Song, offset: u8)
    requires
        note.period != 0,
        note.effect == (Effect::SetSampleOffset { offset }),
        channel_before_effect(channel, note, song).sample_num > 0,
        offset as int * 256 > song.samples@[channel_before_effect(channel, note, song).sample_num
            - 1].size > 0,
    ensures
        channel_after_note(channel, note, song).sample_pos == ((offset as int * 256)
            % (channel_after_note(channel, note, song).size as int)) * 65536,
        channel_after_note(channel, note, song).sample_pos < channel_after_note(
            channel,
            note,
            song,
        ).size * 65536,
{
    let struck = channel_before_effect(channel, note, song);
    let size = song.samples@[struck.sample_num - 1].size;
    assert(struck.size == size);
    assert(sample_offset_bytes(offset, size) == (offset as int * 256) % (size as int));
    assert(0 <= (offset as int * 256) % (size as int) < size);
}

/// `SetSpeed` counts ticks per line up to an argument of 31 and leaves the
/// length of a tick alone; from 32 on it sets the length of a tick from the
/// beats per minute and leaves the ticks per line alone.
pub proof fn lemma_set_speed_boundary(state: PlayerModel, speed: u8)
    ensures
        speed <= 31 ==> model_after_effect(state, Effect::SetSpeed { speed }) == (PlayerModel {
            song_speed: speed as u32,
            ..state
        }),
        speed >= 32 ==> model_after_effect(state, Effect::SetSpeed { speed }) == (PlayerModel {
            samples_per_vblank: bpm_samples_per_vblank(state.device_sample_rate, speed),
            ..state
        }),
{
}

/// A pattern loop that finds no mark asks for no jump, whatever its count.
pub proof fn lemma_pattern_loop_needs_mark(state: PlayerModel, arg: u8)
    requires
        arg > 0,
        state.pattern_loop_position is None,
    ensures
        model_after_effect(state, Effect::PatternLoop { arg }).set_pattern_position
            == state.set_pattern_position,
        model_after_effect(state, Effect::PatternLoop { arg }).pattern_loop_position is None,
{
}

/// Where the song has ended with nowhere to go on, playing a line changes
/// nothing: no note is struck, and the position stays on the first entry of
/// the pattern table that is not live.
pub proof fn lemma_ended_song_plays_no_line(state: PlayerModel, song: &Song)
    requires
        state.song_has_ended,
        state.song_pattern_position == song.num_used_patterns,
        song.end_position >= song.num_used_patterns,
        state.next_pattern_pos == -1,
        state.next_position == -1,
    ensures
        model_after_line(state, song) == state,
{
    assert(model_after_jump(state) == state);
    assert(model_at_line_start(state, song) == state);
}

/// The state after the next `calls` device samples.
pub open spec fn model_after_samples(state: PlayerModel, song: &Song, calls: nat) -> PlayerModel
    decreases calls,
{
    if calls == 0 {
        state
    } else {
        model_after_sample(model_after_samples(state, song, (calls - 1) as nat), song)
    }
}

/// The levels of the next `calls` device samples, one pair for each.
pub open spec fn levels_of_samples(state: PlayerModel, song: &Song, calls: nat) -> Seq<(int, int)>
    decreases calls,
{
    if calls == 0 {
        Seq::empty()
    } else {
        levels_of_samples(state, song, (calls - 1) as nat).push(
            sample_levels(model_after_samples(state, song, (calls - 1) as nat), song),
        )
    }
}

/// How many of the next `calls` device samples complete a tick.
pub open spec fn ticks_in_samples(state: PlayerModel, song: &Song, calls: nat) -> nat
    decreases calls,
{
    if calls == 0 {
        0
    } else {
        ticks_in_samples(state, song, (calls - 1) as nat) + if tick_due(
            model_after_samples(state, song, (calls - 1) as nat),
        ) {
            1nat
        } else {
            0nat
        }
    }
}

/// Two players that start from the same state on the same song give the same
/// levels, call for call, and stand in the same state afterwards.
pub proof fn lemma_playback_is_deterministic(
    first: PlayerState,
    second: PlayerState,
    song: &Song,
    calls: nat,
)
    requires
        first@ == second@,
    ensures
        levels_of_samples(first@, song, calls) == levels_of_samples(second@, song, calls),
        model_after_samples(first@, song, calls) == model_after_samples(second@, song, calls),
{
}

/// Playing `first` device samples and then `second` more comes to the same
/// state, the same levels and as many ticks as playing them in one go.
pub proof fn lemma_batches_add_up(state: PlayerModel, song: &Song, first: nat, second: nat)
    ensures
        model_after_samples(state, song, first + second) == model_after_samples(
            model_after_samples(state, song, first),
            song,
            second,
        ),
        levels_of_samples(state, song, first + second) == levels_of_samples(state, song, first)
            + levels_of_samples(model_after_samples(state, song, first), song, second),
        ticks_in_samples(state, song, first + second) == ticks_in_samples(state, song, first)
            + ticks_in_samples(model_after_samples(state, song, first), song, second),
    decreases second,
{
    let middle = model_after_samples(state, song, first);
    if second == 0 {
        assert(levels_of_samples(state, song, first) + levels_of_samples(middle, song, 0)
            =~= levels_of_samples(state, song, first));
    } else {
        let fewer = (second - 1) as nat;
        lemma_batches_add_up(state, song, first, fewer);
        assert((first + second - 1) as nat == first + fewer);
        assert(levels_of_samples(state, song, first + second) =~= levels_of_samples(
            state,
            song,
            first,
        ) + levels_of_samples(middle, song, second));
    }
}

/// Playing notes leaves the count of device samples in the tick alone.
proof fn lemma_notes_keep_sample_counter(
    state: PlayerModel,
    notes: Seq<Note>,
    count: int,
    song: &Song,
)
    ensures
        model_after_notes(state, notes, count, song).current_vblank_sample
            == state.current_vblank_sample,
    decreases count,
{
    if count > 0 {
        lemma_notes_keep_sample_counter(state, notes, count - 1, song);
    }
}

/// A device sample that completes a tick starts the count of device samples
/// again; any other adds one to it.
pub proof fn lemma_sample_counter(state: PlayerModel, song: &Song)
    ensures
        model_after_sample(state, song).current_vblank_sample == if tick_due(state) {
            0
        } else {
            (state.current_vblank_sample + 1) as u32
        },
{
    if tick_due(state) {
        let ticked = model_after_effects(PlayerModel { current_vblank_sample: 0, ..state }, song);
        let rested = PlayerModel { current_vblank: 0, ..ticked };
        let start = model_at_line_start(rested, song);
        let notes = current_notes(start, song);
        lemma_notes_keep_sample_counter(start, notes, notes.len() as int, song);
    }
}

/// The length of a tick stays what it is in `state` over the next `calls`
/// device samples.
pub open spec fn tempo_is_steady(state: PlayerModel, song: &Song, calls: nat) -> bool {
    forall|earlier: nat|
        earlier <= calls ==> (#[trigger] model_after_samples(
            state,
            song,
            earlier,
        )).samples_per_vblank == state.samples_per_vblank
}

/// A steady tempo over a run of device samples is steady over every part of it.
proof fn lemma_steady_part(state: PlayerModel, song: &Song, first: nat, second: nat)
    requires
        tempo_is_steady(state, song, first + second),
    ensures
        tempo_is_steady(state, song, first),
        tempo_is_steady(model_after_samples(state, song, first), song, second),
        model_after_samples(state, song, first).samples_per_vblank == state.samples_per_vblank,
{
    let middle = model_after_samples(state, song, first);
    assert(middle.samples_per_vblank == state.samples_per_vblank);
    assert forall|earlier: nat| earlier <= second implies (#[trigger] model_after_samples(
        middle,
        song,
        earlier,
    )).samples_per_vblank == middle.samples_per_vblank by {
        lemma_batches_add_up(state, song, first, earlier);
        assert(model_after_samples(state, song, first + earlier).samples_per_vblank
            == state.samples_per_vblank);
    }
}

/// While the count of device samples stays short of a tick, no tick is
/// completed, and every device sample adds one to the count.
proof fn lemma_no_tick_before_its_time(state: PlayerModel, song: &Song, calls: nat)
    requires
        tempo_is_steady(state, song, calls),
        state.current_vblank_sample + calls < state.samples_per_vblank,
    ensures
        ticks_in_samples(state, song, calls) == 0,
        model_after_samples(state, song, calls).current_vblank_sample
            == state.current_vblank_sample + calls,
    decreases calls,
{
    if calls > 0 {
        let fewer = (calls - 1) as nat;
        lemma_steady_part(state, song, fewer, 1);
        lemma_no_tick_before_its_time(state, song, fewer);
        lemma_sample_counter(model_after_samples(state, song, fewer), song);
    }
}

/// From a state in which a tick is due, the next tick after that one is due
/// a whole tick later, and none before.
proof fn lemma_one_tick_from_its_start(state: PlayerModel, song: &Song)
    requires
        state.samples_per_vblank > 0,
        tempo_is_steady(state, song, state.samples_per_vblank as nat),
        tick_due(state),
    ensures
        ticks_in_samples(state, song, state.samples_per_vblank as nat) == 1,
        model_after_samples(state, song, state.samples_per_vblank as nat).current_vblank_sample
            == state.samples_per_vblank - 1,
{
    let rest = (state.samples_per_vblank - 1) as nat;
    lemma_steady_part(state, song, 1, rest);
    lemma_batches_add_up(state, song, 1, rest);
    let ticked = model_after_samples(state, song, 1);
    assert(model_after_samples(state, song, 0) == state);
    assert(ticked == model_after_sample(state, song));
    lemma_sample_counter(state, song);
    assert(ticks_in_samples(state, song, 0) == 0);
    assert(ticks_in_samples(state, song, 1) == 1);
    lemma_no_tick_before_its_time(ticked, song, rest);
}

/// Among as many device samples as a tick is long, exactly one completes a
/// tick, wherever in a tick they start.
proof fn lemma_one_tick_per_period(state: PlayerModel, song: &Song)
    requires
        state.samples_per_vblank > 0,
        tempo_is_steady(state, song, state.samples_per_vblank as nat),
    ensures
        ticks_in_samples(state, song, state.samples_per_vblank as nat) == 1,
{
    let length = state.samples_per_vblank as nat;
    if tick_due(state) {
        lemma_one_tick_from_its_start(state, song);
    } else {
        let before = (length - 1 - state.current_vblank_sample) as nat;
        let after = state.current_vblank_sample as nat;
        assert(length == before + (1 + after));
        lemma_steady_part(state, song, before, 1 + after);
        lemma_batches_add_up(state, song, before, 1 + after);
        lemma_no_tick_before_its_time(state, song, before);
        let due = model_after_samples(state, song, before);
        assert(tick_due(due));
        lemma_steady_part(due, song, 1, after);
        lemma_batches_add_up(due, song, 1, after);
        let ticked = model_after_samples(due, song, 1);
        assert(model_after_samples(due, song, 0) == due);
        assert(ticked == model_after_sample(due, song));
        lemma_sample_counter(due, song);
        assert(ticks_in_samples(due, song, 0) == 0);
        assert(ticks_in_samples(due, song, 1) == 1);
        lemma_no_tick_before_its_time(ticked, song, after);
    }
}

/// While the length of a tick stays the same, as many device samples as
/// `periods` ticks are long complete exactly `periods` ticks, wherever in a
/// tick they start; with `lemma_batches_add_up`, in whatever batches they are
/// played.
pub proof fn lemma_ticks_follow_samples(state: PlayerModel, song: &Song, periods: nat)
    requires
        state.samples_per_vblank > 0,
        tempo_is_steady(state, song, periods * state.samples_per_vblank as nat),
    ensures
        ticks_in_samples(state, song, periods * state.samples_per_vblank as nat) == periods,
    decreases periods,
{
    let length = state.samples_per_vblank as nat;
    if periods > 0 {
        let fewer = (periods - 1) as nat;
        assert(periods * length == fewer * length + length) by (nonlinear_arith)
            requires
                periods == fewer + 1,
        ;
        lemma_steady_part(state, song, fewer * length, length);
        lemma_batches_add_up(state, song, fewer * length, length);
        lemma_ticks_follow_samples(state, song, fewer);
        lemma_one_tick_per_period(model_after_samples(state, song, fewer * length), song);
    } else {
        assert(periods * length == 0) by (nonlinear_arith)
            requires
                periods == 0,
        ;
    }
}

/// What holds of every channel and is kept by a tick on a channel, by every
/// note of the song on a channel and by the mixing of a channel is kept by a
/// device sample as a whole.
pub proof fn lemma_kept_by_steps_is_kept_by_sample(
    state: PlayerModel,
    song: &Song,
    holds: spec_fn(ChannelInfo) -> bool,
)
    requires
        song.wf(),
        state.wf(song),
        forall|c: int| 0 <= c < state.channels.len() ==> holds(#[trigger] state.channels[c]),
        forall|channel: ChannelInfo|
            holds(channel) ==> holds(#[trigger] channel_after_tick(channel, song)),
        forall|channel: ChannelInfo, pattern: int, line: int, place: int|
            holds(channel) && song.is_note_place(pattern, line, place) ==> holds(
                #[trigger] channel_after_note(channel, song.note_at(pattern, line, place), song),
            ),
        forall|channel: ChannelInfo, clock_ticks: u64|
            holds(channel) ==> holds(#[trigger] channel_after_mix(channel, song, clock_ticks)),
    ensures
        model_after_sample(state, song).channels.len() == state.channels.len(),
        forall|c: int|
            0 <= c < state.channels.len() ==> holds(
                #[trigger] model_after_sample(state, song).channels[c],
            ),
{
    let clocked = model_after_clock(state, song);
    lemma_clock_moves_channels_alone(state, song);
    assert forall|c: int| 0 <= c < state.channels.len() implies holds(
        #[trigger] clocked.channels[c],
    ) by {
        let ticked = channel_after_tick(state.channels[c], song);
        if line_is_played(state, song) {
            let start = line_to_play(state, song);
            assert(song.is_note_place(
                song.pattern_table@[start.song_pattern_position as int] as int,
                start.current_line as int,
                c,
            ));
            assert(current_note(start, song, c) == song.note_at(
                song.pattern_table@[start.song_pattern_position as int] as int,
                start.current_line as int,
                c,
            ));
            assert(holds(ticked));
        }
    }
    assert forall|c: int| 0 <= c < state.channels.len() implies holds(
        #[trigger] model_after_sample(state, song).channels[c],
    ) by {
        assert(model_after_sample(state, song).channels[c] == channel_after_mix(
            clocked.channels[c],
            song,
            clocked.clock_ticks_per_device_sample,
        ));
        assert(holds(clocked.channels[c]));
    }
}

/// The volume of the channel is one that a channel plays at.
pub open spec fn volume_in_range(channel: ChannelInfo) -> bool {
    0 <= channel.volume <= 64
}

/// On a song whose samples and `SetVolume` effects ask for no volume above 64,
/// the volume of every channel stays in the range from 0 to 64, device sample
/// after device sample.
pub proof fn lemma_volume_stays_in_range(state: PlayerModel, song: &Song)
    requires
        song.wf(),
        state.wf(song),
        song.volumes_in_range(),
        forall|c: int| 0 <= c < state.channels.len() ==>
            volume_in_range(#[trigger] state.channels[c]),
    ensures
        forall|c: int|
            0 <= c < state.channels.len() ==> volume_in_range(
                #[trigger] model_after_sample(state, song).channels[c],
            ),
{
    let holds = |channel: ChannelInfo| volume_in_range(channel);
    assert forall|channel: ChannelInfo, pattern: int, line: int, place: int|
        holds(channel) && song.is_note_place(pattern, line, place) implies holds(
        #[trigger] channel_after_note(channel, song.note_at(pattern, line, place), song),
    ) by {
        let note = song.note_at(pattern, line, place);
        assert(song.patterns@[pattern].has_shape(song.format.num_channels));
        assert(note.sample_number <= song.samples@.len());
    }
    lemma_kept_by_steps_is_kept_by_sample(state, song, holds);
}

/// The period is zero, as it is before the first note, or one that a slide can
/// reach.
pub open spec fn at_rest_or_in_slide_range(period: u32) -> bool {
    period == 0 || 113 <= period <= 856
}

/// The period of the channel, and the periods it may yet slide to, are zero or
/// in the range of a slide, and neither a vibrato nor an arpeggio runs on it.
pub open spec fn pitch_in_range(channel: ChannelInfo) -> bool {
    &&& at_rest_or_in_slide_range(channel.period)
    &&& channel.period_target matches Some(target) ==> at_rest_or_in_slide_range(target)
    &&& at_rest_or_in_slide_range(channel.last_porta_target)
    &&& channel.vibrato_depth == 0
    &&& !arpeggio_active(channel)
    &&& channel.fine_tune < 16
}

/// On a song whose notes all play in the range of a slide and carry neither
/// arpeggio nor vibrato, the period of every channel stays zero or in the
/// range from 113 to 856, device sample after device sample.
pub proof fn lemma_period_stays_in_range(state: PlayerModel, song: &Song)
    requires
        song.wf(),
        state.wf(song),
        song.periods_in_slide_range(),
        forall|c: int| 0 <= c < state.channels.len() ==>
            pitch_in_range(#[trigger] state.channels[c]),
    ensures
        forall|c: int|
            0 <= c < state.channels.len() ==> pitch_in_range(
                #[trigger] model_after_sample(state, song).channels[c],
            ),
        forall|c: int|
            0 <= c < state.channels.len() ==> at_rest_or_in_slide_range(
                (#[trigger] model_after_sample(state, song).channels[c]).period,
            ),
{
    let holds = |channel: ChannelInfo| pitch_in_range(channel);
    assert forall|channel: ChannelInfo, pattern: int, line: int, place: int|
        holds(channel) && song.is_note_place(pattern, line, place) implies holds(
        #[trigger] channel_after_note(channel, song.note_at(pattern, line, place), song),
    ) by {
        let note = song.note_at(pattern, line, place);
        assert(song.patterns@[pattern].has_shape(song.format.num_channels));
        assert(note.sample_number <= song.samples@.len());
        let struck = channel_before_effect(channel, note, song);
        assert(struck.fine_tune < 16);
        if note.period != 0 {
            assert(113 <= tuned_period(note.period, struck.fine_tune, song.has_standard_notes)
                <= 856);
        }
    }
    lemma_kept_by_steps_is_kept_by_sample(state, song, holds);
}

/// A channel that has not run past the end of the part it plays, or has run
/// past it by less than the repeated part of its sample is long, plays a byte
/// inside the part to play; and where that part lies inside the sample, as the
/// repeated part does, the channel can be mixed.
pub proof fn lemma_position_stays_inside(channel: ChannelInfo, song: &Song)
    requires
        song.wf(),
        channel.wf(song),
        channel.size > 2,
        channel.sample_pos < (channel.size + song.samples@[channel.sample_num
            - 1].repeat_size) * 65536,
    ensures
        channel_sounds(channel, song) ==> channel_wrapped(channel, song).sample_pos
            < channel_wrapped(channel, song).size * 65536,
        channel.size <= song.samples@[channel.sample_num - 1].size
            && song.samples@[channel.sample_num
            - 1].repeat_fits() ==> can_mix(channel, song),
{
}

} // verus!
