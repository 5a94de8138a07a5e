//! The playback state: one `ChannelInfo` per channel and the clocks and
//! pending jumps of the song as a whole.

use crate::song::{Note, Song};
use vstd::prelude::*;

verus! {

/// Ticks of the Amiga hardware clock per second.
pub const CLOCK_TICKS_PER_SECOND: u64 = 3579545;

/// One byte of sample data in the fixed-point format of sample positions and
/// of `clock_ticks_per_device_sample`: both count in 1/65536.
pub const POSITION_ONE: u64 = 65536;

/// The state of one channel.
#[derive(Clone, Copy, Debug, PartialEq, Eq)]
pub struct ChannelInfo {
    /// Which sample is playing, counted from 1; 0 while none has been set.
    pub sample_num: u8,
    /// Where in the sample the channel plays, in 1/65536 of a byte.
    pub sample_pos: u64,
    /// The period in use, after fine-tuning and effects.
    pub period: u32,
    pub fine_tune: u32,
    /// Where the part of the sample that is playing ends, in bytes.
    pub size: u32,
    pub volume: i32,
    /// Added to the volume on every tick.
    pub volume_change: i32,
    /// Added to the period on every tick.
    pub note_change: i32,
    /// The period that the tone portamento of the line slides to; none while
    /// the line carries no tone portamento.
    pub period_target: Option<u32>,
    pub last_porta_speed: i32,
    pub last_porta_target: u32,
    /// The untuned period of the last note played.
    pub base_period: u32,
    pub vibrato_pos: u32,
    pub vibrato_speed: u32,
    pub vibrato_depth: i32,
    pub tremolo_pos: u32,
    pub tremolo_speed: u32,
    pub tremolo_depth: i32,
    pub retrigger_delay: u32,
    pub retrigger_counter: u32,
    pub cut_note_delay: u32,
    pub arpeggio_counter: u32,
    pub arpeggio_offsets: [u32; 2],
}

impl ChannelInfo {
    /// A channel that has played nothing yet.
    pub open spec fn silent() -> ChannelInfo {
        ChannelInfo {
            sample_num: 0,
            sample_pos: 0,
            period: 0,
            fine_tune: 0,
            size: 0,
            volume: 0,
            volume_change: 0,
            note_change: 0,
            period_target: None,
            last_porta_speed: 0,
            last_porta_target: 0,
            base_period: 0,
            vibrato_pos: 0,
            vibrato_speed: 0,
            vibrato_depth: 0,
            tremolo_pos: 0,
            tremolo_speed: 0,
            tremolo_depth: 0,
            retrigger_delay: 0,
            retrigger_counter: 0,
            cut_note_delay: 0,
            arpeggio_counter: 0,
            arpeggio_offsets: [0, 0],
        }
    }

    /// A channel that has played nothing yet.
    pub fn new() -> (channel: ChannelInfo)
        ensures
            channel == ChannelInfo::silent(),
    {
        ChannelInfo {
            sample_num: 0,
            sample_pos: 0,
            period: 0,
            fine_tune: 0,
            size: 0,
            volume: 0,
            volume_change: 0,
            note_change: 0,
            period_target: None,
            last_porta_speed: 0,
            last_porta_target: 0,
            base_period: 0,
            vibrato_pos: 0,
            vibrato_speed: 0,
            vibrato_depth: 0,
            tremolo_pos: 0,
            tremolo_speed: 0,
            tremolo_depth: 0,
            retrigger_delay: 0,
            retrigger_counter: 0,
            cut_note_delay: 0,
            arpeggio_counter: 0,
            arpeggio_offsets: [0, 0],
        }
    }

    /// The ranges that the engine keeps the fields of a channel in, and the
    /// channel's references into `song`.
    pub open spec fn wf(&self, song: &Song) -> bool {
        &&& self.sample_num <= song.samples@.len()
        &&& self.size > 0 ==> self.sample_num > 0
        &&& self.fine_tune < 16
        &&& 0 <= self.volume <= 255
        &&& -128 <= self.volume_change <= 127
        &&& -255 <= self.note_change <= 255
        &&& -255 <= self.last_porta_speed <= 255
        &&& 0 <= self.vibrato_depth <= 255
        &&& 0 <= self.tremolo_depth <= 255
        &&& self.retrigger_delay <= 255
        &&& self.retrigger_delay > 0 ==> self.retrigger_counter < self.retrigger_delay
        &&& self.arpeggio_counter < 3
        &&& self.arpeggio_offsets@[0] <= 255
        &&& self.arpeggio_offsets@[1] <= 255
    }
}

/// Keeps track of all the dynamic state required for playing the song.
pub struct PlayerState {
    pub channels: Vec<ChannelInfo>,
    /// Where in the pattern table the song is.
    pub song_pattern_position: u32,
    /// The line of the pattern that is played next. Every pattern has 64 lines.
    pub current_line: u32,
    /// Set when the song stops playing.
    pub song_has_ended: bool,
    /// Set when the song loops. The player never clears this flag; to detect
    /// the next loop, the client has to clear it.
    pub has_looped: bool,
    pub device_sample_rate: u32,
    /// Ticks per line.
    pub song_speed: u32,
    /// Ticks since the last line was played.
    pub current_vblank: u32,
    /// Device samples per tick.
    pub samples_per_vblank: u32,
    /// Hardware clock ticks per device sample, in 1/65536.
    pub clock_ticks_per_device_sample: u64,
    /// Device samples played in the current tick.
    pub current_vblank_sample: u32,
    /// The line to start the next pattern at, or -1 where no pattern break is pending.
    pub next_pattern_pos: i32,
    /// The position to jump to, or -1 where no position jump is pending.
    pub next_position: i32,
    /// Extra ticks to wait before the next line is played.
    pub delay_line: u32,
    /// The line that a pattern loop jumps back to, where one has been marked.
    pub pattern_loop_position: Option<u32>,
    /// How many times the pattern loop has yet to jump back.
    pub pattern_loop: i32,
    /// Set where the line just played asks for the jump of a pattern loop.
    pub set_pattern_position: bool,
}

/// The mathematical model of a `PlayerState`: its channels as a sequence, and
/// its other fields as they are.
pub struct PlayerModel {
    pub channels: Seq<ChannelInfo>,
    pub song_pattern_position: u32,
    pub current_line: u32,
    pub song_has_ended: bool,
    pub has_looped: bool,
    pub device_sample_rate: u32,
    pub song_speed: u32,
    pub current_vblank: u32,
    pub samples_per_vblank: u32,
    pub clock_ticks_per_device_sample: u64,
    pub current_vblank_sample: u32,
    pub next_pattern_pos: i32,
    pub next_position: i32,
    pub delay_line: u32,
    pub pattern_loop_position: Option<u32>,
    pub pattern_loop: i32,
    pub set_pattern_position: bool,
}

impl View for PlayerState {
    type V = PlayerModel;

    open spec fn view(&self) -> PlayerModel {
        PlayerModel {
            channels: self.channels@,
            song_pattern_position: self.song_pattern_position,
            current_line: self.current_line,
            song_has_ended: self.song_has_ended,
            has_looped: self.has_looped,
            device_sample_rate: self.device_sample_rate,
            song_speed: self.song_speed,
            current_vblank: self.current_vblank,
            samples_per_vblank: self.samples_per_vblank,
            clock_ticks_per_device_sample: self.clock_ticks_per_device_sample,
            current_vblank_sample: self.current_vblank_sample,
            next_pattern_pos: self.next_pattern_pos,
            next_position: self.next_position,
            delay_line: self.delay_line,
            pattern_loop_position: self.pattern_loop_position,
            pattern_loop: self.pattern_loop,
            set_pattern_position: self.set_pattern_position,
        }
    }
}

impl PlayerModel {
    /// The state in which playback starts: every channel silent, the position
    /// at the first line of the first pattern, six ticks per line and fifty
    /// ticks per second, and the clocks one sample before the tick on which the
    /// first line is played.
    pub open spec fn initial(num_channels: u32, device_sample_rate: u32) -> PlayerModel {
        let samples_per_vblank = device_sample_rate / 50;
        PlayerModel {
            channels: Seq::new(num_channels as nat, |i: int| ChannelInfo::silent()),
            song_pattern_position: 0,
            current_line: 0,
            song_has_ended: false,
            has_looped: false,
            device_sample_rate,
            song_speed: 6,
            current_vblank: 6,
            samples_per_vblank,
            clock_ticks_per_device_sample: ((3579545int * 65536) / (
            device_sample_rate as int)) as u64,
            current_vblank_sample: if samples_per_vblank > 0 {
                (samples_per_vblank - 1) as u32
            } else {
                0
            },
            next_pattern_pos: -1i32,
            next_position: -1i32,
            delay_line: 0,
            pattern_loop_position: None,
            pattern_loop: 0,
            set_pattern_position: false,
        }
    }

    /// The ranges that the engine keeps the state in, and the state's
    /// references into `song`.
    pub open spec fn wf(&self, song: &Song) -> bool {
        &&& self.channels.len() == song.format.num_channels
        &&& forall|c: int| 0 <= c < self.channels.len() ==> (#[trigger] self.channels[c]).wf(song)
        &&& self.current_line < 64
        &&& self.song_pattern_position <= song.num_used_patterns
        &&& self.song_speed <= 31
        &&& self.delay_line <= 255
        &&& -1 <= self.next_pattern_pos <= 63
        &&& -1 <= self.next_position <= 255
        &&& self.pattern_loop_position is Some ==> self.pattern_loop_position->0 < 64
        &&& 0 <= self.pattern_loop <= 255
    }

    /// The tick counter has not run away: it is reset with every line played,
    /// and a line is delayed by 255 ticks at most.
    pub open spec fn ticks_bounded(&self) -> bool {
        self.current_vblank + self.delay_line <= 300
    }

    /// The pattern that the entry of the pattern table names on which the
    /// state stands.
    pub open spec fn current_pattern(&self, song: &Song) -> int {
        song.pattern_table@[self.song_pattern_position as int] as int
    }

    /// The position is on a live entry of the pattern table.
    pub open spec fn on_live_entry(&self, song: &Song) -> bool {
        self.song_pattern_position < song.num_used_patterns
    }
}

impl PlayerState {
    /// The state in which the playback of a song with `num_channels` channels
    /// starts, for a device that plays `device_sample_rate` samples a second.
    pub fn new(num_channels: u32, device_sample_rate: u32) -> (player_state: PlayerState)
        requires
            device_sample_rate > 0,
        ensures
            player_state@ == PlayerModel::initial(num_channels, device_sample_rate),
    {
        let mut channels: Vec<ChannelInfo> = Vec::new();
        let mut channel: u32 = 0;
        while channel < num_channels
            invariant
                channel <= num_channels,
                channels@.len() == channel,
                forall|i: int| 0 <= i < channel ==>
                    #[trigger] channels@[i] == ChannelInfo::silent(),
            decreases num_channels - channel,
        {
            channels.push(ChannelInfo::new());
            channel += 1;
        }
        let samples_per_vblank: u32 = device_sample_rate / 50;
        let player_state = PlayerState {
            channels,
            song_pattern_position: 0,
            current_line: 0,
            song_has_ended: false,
            has_looped: false,
            device_sample_rate,
            song_speed: 6,
            current_vblank: 6,
            samples_per_vblank,
            clock_ticks_per_device_sample: (CLOCK_TICKS_PER_SECOND * POSITION_ONE)
                / device_sample_rate as u64,
            current_vblank_sample: if samples_per_vblank > 0 {
                samples_per_vblank - 1
            } else {
                0
            },
            next_pattern_pos: -1,
            next_position: -1,
            delay_line: 0,
            pattern_loop_position: None,
            pattern_loop: 0,
            set_pattern_position: false,
        };
        assert(player_state@.channels =~= PlayerModel::initial(
            num_channels,
            device_sample_rate,
        ).channels);
        player_state
    }

    /// The state is one that the engine can work on and belongs to `song`.
    pub open spec fn wf(&self, song: &Song) -> bool {
        self@.wf(song)
    }

    /// The line of notes at the current position of the song.
    pub fn get_song_line<'a>(&self, song: &'a Song) -> (line: &'a Vec<Note>)
        requires
            self.song_pattern_position < song.pattern_table@.len(),
            self@.current_pattern(song) < song.patterns@.len(),
            self.current_line < song.patterns@[self@.current_pattern(song)].lines@.len(),
        ensures
            *line == song.patterns@[self@.current_pattern(song)].lines@[self.current_line as int],
    {
        let pattern_idx = song.pattern_table[self.song_pattern_position as usize];
        let pattern = &song.patterns[pattern_idx as usize];
        let line = &pattern.lines[self.current_line as usize];
        line
    }
}

/// A fresh state belongs to every song with as many channels.
pub proof fn lemma_initial_state_wf(song: &Song, device_sample_rate: u32)
    requires
        device_sample_rate > 0,
    ensures
        PlayerModel::initial(song.format.num_channels, device_sample_rate).wf(song),
        PlayerModel::initial(song.format.num_channels, device_sample_rate).ticks_bounded(),
{
}

} // verus!
