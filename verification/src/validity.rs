//! Tests of well-formedness at run time, for songs and states that come from
//! outside the verified code.

use crate::loader::has_standard_notes_only;
use crate::player::{ChannelInfo, PlayerState};
use crate::song::{Note, Pattern, Sample, Song};
use vstd::prelude::*;

verus! {

impl Sample {
    /// What the engine relies on in a sample: a fine-tune setting that the
    /// tables hold, as many bytes of data as its size says, and a repeated part
    /// whose end can be counted.
    pub open spec fn wf(&self) -> bool {
        &&& self.fine_tune < 16
        &&& self.samples@.len() == self.size
        &&& self.repeat_offset + self.repeat_size <= u32::MAX
    }

    /// Tells whether the engine can play the sample.
    pub fn is_well_formed(&self) -> (well_formed: bool)
        ensures
            well_formed == self.wf(),
    {
        self.fine_tune < 16 && self.samples.len() == self.size as usize && self.repeat_offset
            <= u32::MAX - self.repeat_size
    }
}

/// The line holds `num_channels` notes, and each of them names a sample that
/// exists or none.
pub open spec fn line_wf(line: Seq<Note>, num_channels: u32, num_samples: int) -> bool {
    &&& line.len() == num_channels
    &&& forall|channel: int|
        0 <= channel < line.len() ==> (#[trigger] line[channel]).sample_number <= num_samples
}

fn line_is_well_formed(line: &Vec<Note>, num_channels: u32, num_samples: usize)
    -> (well_formed: bool)
    ensures
        well_formed == line_wf(line@, num_channels, num_samples as int),
{
    if line.len() != num_channels as usize {
        return false;
    }
    let mut channel: usize = 0;
    while channel < line.len()
        invariant
            channel <= line@.len(),
            line@.len() == num_channels,
            forall|c: int| 0 <= c < channel ==> (#[trigger] line@[c]).sample_number <= num_samples,
        decreases line@.len() - channel,
    {
        if line[channel].sample_number as usize > num_samples {
            return false;
        }
        channel += 1;
    }
    true
}

impl Pattern {
    /// The pattern has 64 lines of `num_channels` notes, and each note names a
    /// sample that exists or none.
    pub open spec fn wf(&self, num_channels: u32, num_samples: int) -> bool {
        &&& self.lines@.len() == 64
        &&& forall|line: int|
            0 <= line < 64 ==> line_wf((#[trigger] self.lines@[line])@, num_channels, num_samples)
    }

    /// Tells whether the pattern fits a song with `num_channels` channels and
    /// `num_samples` samples.
    pub fn is_well_formed(&self, num_channels: u32, num_samples: usize) -> (well_formed: bool)
        ensures
            well_formed == self.wf(num_channels, num_samples as int),
    {
        if self.lines.len() != 64 {
            return false;
        }
        let mut line: usize = 0;
        while line < 64
            invariant
                line <= 64,
                self.lines@.len() == 64,
                forall|l: int|
                    0 <= l < line ==> line_wf(
                        (#[trigger] self.lines@[l])@,
                        num_channels,
                        num_samples as int,
                    ),
            decreases 64 - line,
        {
            if !line_is_well_formed(&self.lines[line], num_channels, num_samples) {
                return false;
            }
            line += 1;
        }
        true
    }
}

/// The parts of `Song::wf` that concern the samples, the patterns and the
/// pattern table, each in terms of the well-formedness of its items.
pub open spec fn song_wf_by_parts(song: &Song) -> bool {
    &&& song.samples@.len() <= 255
    &&& forall|i: int| 0 <= i < song.samples@.len() ==> (#[trigger] song.samples@[i]).wf()
    &&& forall|p: int|
        0 <= p < song.patterns@.len() ==> (#[trigger] song.patterns@[p]).wf(
            song.format.num_channels,
            song.samples@.len() as int,
        )
    &&& song.pattern_table@.len() <= 128
    &&& song.num_used_patterns <= song.pattern_table@.len()
    &&& forall|entry: int|
        0 <= entry < song.num_used_patterns ==> (#[trigger] song.pattern_table@[entry])
            < song.patterns@.len()
}

/// A song is well-formed exactly when its parts are and its claim to hold
/// standard notes only is true.
pub proof fn lemma_song_wf_by_parts(song: &Song)
    ensures
        song.wf() <==> song_wf_by_parts(song) && (song.has_standard_notes
            ==> crate::song::standard_notes_only(song.patterns@, song.pattern_table@)),
{
    if song.wf() {
        assert forall|p: int| 0 <= p < song.patterns@.len() implies
            (#[trigger] song.patterns@[p]).wf(
            song.format.num_channels,
            song.samples@.len() as int,
        ) by {
            assert(song.patterns@[p].has_shape(song.format.num_channels));
            assert forall|line: int| 0 <= line < 64 implies line_wf(
                (#[trigger] song.patterns@[p].lines@[line])@,
                song.format.num_channels,
                song.samples@.len() as int,
            ) by {
                assert forall|channel: int|
                    0 <= channel < song.patterns@[p].lines@[line]@.len() implies (
                #[trigger] song.patterns@[p].lines@[line]@[channel]).sample_number
                    <= song.samples@.len() by {
                    assert(song.patterns@[p].note(line, channel).sample_number
                        <= song.samples@.len());
                }
            }
        }
    }
    if song_wf_by_parts(song) {
        assert forall|p: int| 0 <= p < song.patterns@.len() implies (
        #[trigger] song.patterns@[p]).has_shape(song.format.num_channels) by {
            assert(song.patterns@[p].wf(song.format.num_channels, song.samples@.len() as int));
            assert forall|line: int| 0 <= line < 64 implies (
            #[trigger] song.patterns@[p].lines@[line])@.len() == song.format.num_channels by {
                assert(line_wf(
                    song.patterns@[p].lines@[line]@,
                    song.format.num_channels,
                    song.samples@.len() as int,
                ));
            }
        }
        assert forall|p: int, line: int, channel: int|
            0 <= p < song.patterns@.len() && 0 <= line < 64 && 0 <= channel
                < song.format.num_channels implies (#[trigger] song.patterns@[p].note(
            line,
            channel,
        )).sample_number <= song.samples@.len() by {
            assert(song.patterns@[p].wf(song.format.num_channels, song.samples@.len() as int));
            assert(line_wf(
                song.patterns@[p].lines@[line]@,
                song.format.num_channels,
                song.samples@.len() as int,
            ));
        }
    }
}

impl Song {
    fn parts_are_well_formed(&self) -> (well_formed: bool)
        ensures
            well_formed == song_wf_by_parts(self),
    {
        if self.samples.len() > 255 || self.pattern_table.len() > 128
            || self.num_used_patterns as usize > self.pattern_table.len() {
            return false;
        }
        let mut i: usize = 0;
        while i < self.samples.len()
            invariant
                i <= self.samples@.len(),
                forall|k: int| 0 <= k < i ==> (#[trigger] self.samples@[k]).wf(),
            decreases self.samples@.len() - i,
        {
            if !self.samples[i].is_well_formed() {
                return false;
            }
            i += 1;
        }
        let mut p: usize = 0;
        while p < self.patterns.len()
            invariant
                p <= self.patterns@.len(),
                forall|k: int|
                    0 <= k < p ==> (#[trigger] self.patterns@[k]).wf(
                        self.format.num_channels,
                        self.samples@.len() as int,
                    ),
            decreases self.patterns@.len() - p,
        {
            if !self.patterns[p].is_well_formed(self.format.num_channels, self.samples.len()) {
                return false;
            }
            p += 1;
        }
        let mut entry: usize = 0;
        while entry < self.num_used_patterns as usize
            invariant
                entry <= self.num_used_patterns <= self.pattern_table@.len(),
                forall|e: int|
                    0 <= e < entry ==> (#[trigger] self.pattern_table@[e]) < self.patterns@.len(),
            decreases self.num_used_patterns - entry,
        {
            if self.pattern_table[entry] as usize >= self.patterns.len() {
                return false;
            }
            entry += 1;
        }
        true
    }

    /// Tells whether the engine can play the song.
    pub fn is_well_formed(&self) -> (well_formed: bool)
        ensures
            well_formed == self.wf(),
    {
        proof {
            lemma_song_wf_by_parts(self);
        }
        self.parts_are_well_formed() && (!self.has_standard_notes || has_standard_notes_only(
            &self.patterns,
            &self.pattern_table,
        ))
    }
}

impl ChannelInfo {
    /// Tells whether the channel is in the ranges of the engine and fits `song`.
    pub fn is_well_formed(&self, song: &Song) -> (well_formed: bool)
        ensures
            well_formed == self.wf(song),
    {
        self.sample_num as usize <= song.samples.len() && (self.size == 0 || self.sample_num > 0)
            && self.fine_tune < 16 && 0 <= self.volume && self.volume <= 255 && -128
            <= self.volume_change && self.volume_change <= 127 && -255 <= self.note_change
            && self.note_change <= 255 && -255 <= self.last_porta_speed && self.last_porta_speed
            <= 255 && 0 <= self.vibrato_depth && self.vibrato_depth <= 255 && 0
            <= self.tremolo_depth && self.tremolo_depth <= 255 && self.retrigger_delay <= 255 && (
        self.retrigger_delay == 0 || self.retrigger_counter < self.retrigger_delay)
            && self.arpeggio_counter < 3 && self.arpeggio_offsets[0] <= 255
            && self.arpeggio_offsets[1] <= 255
    }
}

impl PlayerState {
    /// Tells whether the state is one that `next_sample` can start from on `song`.
    pub fn is_well_formed(&self, song: &Song) -> (well_formed: bool)
        ensures
            well_formed == (self.wf(song) && self@.ticks_bounded()),
    {
        if self.channels.len() != song.format.num_channels as usize || self.current_line >= 64
            || self.song_pattern_position > song.num_used_patterns || self.song_speed > 31
            || self.delay_line > 255 || self.current_vblank > 300 - self.delay_line
            || self.next_pattern_pos < -1 || self.next_pattern_pos > 63 || self.next_position < -1
            || self.next_position > 255 || self.pattern_loop < 0 || self.pattern_loop > 255 {
            return false;
        }
        match self.pattern_loop_position {
            Some(line) => {
                if line >= 64 {
                    return false;
                }
            },
            None => {},
        }
        let mut c: usize = 0;
        while c < self.channels.len()
            invariant
                c <= self.channels@.len(),
                forall|i: int| 0 <= i < c ==> (#[trigger] self.channels@[i]).wf(song),
            decreases self.channels@.len() - c,
        {
            if !self.channels[c].is_well_formed(song) {
                assert(!self@.channels[c as int].wf(song));
                return false;
            }
            c += 1;
        }
        true
    }
}

} // verus!
