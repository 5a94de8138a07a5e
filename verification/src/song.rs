//! The song model: samples, effects, notes, patterns and the song that holds
//! them, with the decoders that build each of them from the bytes of a module.

use crate::pitch::{is_standard_period, tuned_period};
use crate::text::{latin1, latin1_string};
use vstd::prelude::*;

verus! {

/// Why a module could not be loaded.
#[derive(Clone, Copy, Debug, PartialEq, Eq)]
pub enum LoadError {
    /// The data could not be read, or ends before a record is complete.
    Io,
    /// The format tag names a layout that is known but not handled.
    UnexpectedTag([u8; 4]),
    /// The space left for patterns is not a whole number of patterns.
    PatternSpaceMismatch,
    /// An effect number above 15.
    UnknownEffect(u8),
    /// An extended effect number above 15.
    UnknownExtendedEffect(u8),
}

/// Holds the info and sample data for a sample.
pub struct Sample {
    /// The name of the sample as the module gives it.
    pub name: String,
    /// Length of the sample in bytes.
    pub size: u32,
    /// The volume that a note starts at when it names the sample, from 0 to 64.
    pub volume: u8,
    /// The pitch trim of the sample: 0 to 7 raise the pitch in steps of an
    /// eighth of a semitone; 8 to 15 stand for -8 to -1 and lower it.
    pub fine_tune: u8,
    /// Where the repeated part starts, in bytes.
    pub repeat_offset: u32,
    /// Length of the repeated part in bytes.
    pub repeat_size: u32,
    /// The sample data, one signed byte for each point of the wave.
    pub samples: Vec<i8>,
}

/// The 16-bit number that a high and a low byte spell.
pub open spec fn word(high: u8, low: u8) -> int {
    high as int * 256 + low as int
}

/// Where the repeated part of a sample starts: the offset read from the header,
/// moved down as far as it must be for the repeated part to end inside the sample.
pub open spec fn adjusted_repeat_offset(size: int, repeat_offset: int, repeat_size: int) -> int {
    if repeat_offset + repeat_size <= size {
        repeat_offset
    } else if repeat_size <= size {
        size - repeat_size
    } else {
        0
    }
}

impl Sample {
    /// Reads the thirty bytes of a sample header. The sample data itself is
    /// filled in later.
    pub fn new(sample_info: &[u8]) -> (sample: Sample)
        requires
            sample_info.len() >= 30,
        ensures
            sample.has_header(sample_info@),
            sample.samples@.len() == 0,
    {
        let name = latin1_string(sample_info, 0, 22);
        let size: u32 = (sample_info[23] as u32 + sample_info[22] as u32 * 256) * 2;
        let fine_tune = sample_info[24];
        let volume = sample_info[25];
        let mut repeat_offset: u32 = sample_info[27] as u32 + sample_info[26] as u32 * 256;
        let repeat_size: u32 = (sample_info[29] as u32 + sample_info[28] as u32 * 256) * 2;
        if repeat_offset + repeat_size > size {
            if repeat_size <= size {
                repeat_offset = size - repeat_size;
            } else {
                repeat_offset = 0;
            }
        }
        Sample { name, size, volume, fine_tune, repeat_offset, repeat_size, samples: Vec::new() }
    }

    /// The fields of the sample other than its data are those that the header
    /// `sample_info` gives: the name in 22 bytes; the length in words; the
    /// fine-tune setting; the volume; the start of the repeated part in bytes, moved
    /// down where that part would end outside the sample; and the length of
    /// the repeated part in words.
    pub open spec fn has_header(&self, sample_info: Seq<u8>) -> bool {
        &&& self.name@ == latin1(sample_info.subrange(0, 22))
        &&& self.size == word(sample_info[22], sample_info[23]) * 2
        &&& self.fine_tune == sample_info[24]
        &&& self.volume == sample_info[25]
        &&& self.repeat_size == word(sample_info[28], sample_info[29]) * 2
        &&& self.repeat_offset == adjusted_repeat_offset(
            self.size as int,
            word(sample_info[26], sample_info[27]),
            self.repeat_size as int,
        )
    }

    /// The repeated part ends inside the sample.
    pub open spec fn repeat_fits(&self) -> bool {
        self.repeat_offset + self.repeat_size <= self.size
    }
}

/// What a note does besides sounding: one variant for each effect of the format.
#[derive(Clone, Copy, Debug, PartialEq, Eq)]
#[allow(inconsistent_fields)]
pub enum Effect {
    /// The note carries no effect.
    NoEffect,
    /// `0xy`: play the note, the note `x` and the note `y` table entries up, in turn.
    Arpeggio { chord_offset_1: u8, chord_offset_2: u8 },
    /// `1xx`: lower the period on every tick.
    SlideUp { speed: u8 },
    /// `2xx`: raise the period on every tick.
    SlideDown { speed: u8 },
    /// `3xx`: slide from the period that is playing to that of the note.
    TonePortamento { speed: u8 },
    /// `4xy`: swing the period at the speed `x` by the depth `y`.
    Vibrato { speed: u8, amplitude: u8 },
    /// `5xy`: go on with the tone portamento, and slide the volume.
    TonePortamentoVolumeSlide { volume_change: i8 },
    /// `6xy`: go on with the vibrato, and slide the volume.
    VibratoVolumeSlide { volume_change: i8 },
    /// `7xy`: swing the volume at the speed `x` by the depth `y`.
    Tremolo { speed: u8, amplitude: u8 },
    /// `8xx`: set the panning; read, and not played.
    Pan { position: u8 },
    /// `9xx`: start the sample 256 times `xx` bytes in.
    SetSampleOffset { offset: u8 },
    /// `Axy`: change the volume on every tick.
    VolumeSlide { volume_change: i8 },
    /// `Bxx`: go on at the entry `xx` of the pattern table.
    PositionJump { next_pattern: u8 },
    /// `Cxx`: set the volume.
    SetVolume { volume: u8 },
    /// `Dxy`: go on at the line `x` times ten plus `y` of the next pattern.
    PatternBreak { next_pattern_pos: u8 },
    /// `Fxx`: set the ticks per line up to 31, the beats per minute above.
    SetSpeed { speed: u8 },
    /// `E0x`: switch the hardware filter; read, and not played.
    SetHardwareFilter { new_state: u8 },
    /// `E1x`: lower the period once.
    FinePortaUp { period_change: u8 },
    /// `E2x`: raise the period once.
    FinePortaDown { period_change: u8 },
    /// `E3x`: slide in semitones; read, and not played.
    Glissando { use_smooth_slide: bool },
    /// `E6x`: with 0 mark the line; otherwise jump back to the mark `x` times.
    PatternLoop { arg: u8 },
    /// `E7x`: choose the wave of the tremolo; read, and not played.
    TremoloWaveform { wave: u8 },
    /// `E8x`: set the panning coarsely; read, and not played.
    CoarsePan { pan_pos: u8 },
    /// `E9x`: start the sample again every `x` ticks.
    RetriggerSample { retrigger_delay: u8 },
    /// `EAx`: raise the volume once.
    FineVolumeSlideUp { volume_change: u8 },
    /// `EBx`: lower the volume once.
    FineVolumeSlideDown { volume_change: u8 },
    /// `ECx`: silence the channel after `x` ticks.
    CutNote { delay: u8 },
    /// `EDx`: start the note `x` ticks late; read, and not played.
    DelayedSample { delay_ticks: u8 },
    /// `EEx`: hold the next line back by `x` ticks.
    DelayedLine { delay_ticks: u8 },
    /// `EFx`: invert the loop of the sample; read, and not played.
    InvertLoop { loop_position: u8 },
    /// `E4x`: choose the wave of the vibrato; read, and not played.
    SetVibratoWave { wave: u8 },
    /// `E5x`: set the fine-tune setting; read, and not played.
    SetFineTune { fine_tune: u8 },
}

/// The byte that a signed effect argument stands for.
pub open spec fn argument_byte(effect_argument: i8) -> u8 {
    if effect_argument >= 0 {
        effect_argument as u8
    } else {
        (effect_argument + 256) as u8
    }
}

/// The volume change per tick that the argument `xy` of a volume slide asks
/// for: up by `x` where `x` is not zero, down by `y` otherwise.
pub open spec fn volume_slide_change(argument: u8) -> i8 {
    if argument / 16 != 0 {
        (argument / 16) as i8
    } else {
        (-(argument % 16)) as i8
    }
}

/// The effect that the extended effect number `code` (the `x` of `Exy`) and its
/// argument (the `y`) stand for.
pub open spec fn extended_effect(code: u8, argument: u8) -> Effect {
    match code {
        0 => Effect::SetHardwareFilter { new_state: argument },
        1 => Effect::FinePortaUp { period_change: argument },
        2 => Effect::FinePortaDown { period_change: argument },
        3 => Effect::Glissando { use_smooth_slide: argument != 0 },
        4 => Effect::SetVibratoWave { wave: argument },
        5 => Effect::SetFineTune { fine_tune: argument },
        6 => Effect::PatternLoop { arg: argument },
        7 => Effect::TremoloWaveform { wave: argument },
        8 => Effect::CoarsePan { pan_pos: argument },
        9 => Effect::RetriggerSample { retrigger_delay: argument },
        10 => Effect::FineVolumeSlideUp { volume_change: argument },
        11 => Effect::FineVolumeSlideDown { volume_change: argument },
        12 => Effect::CutNote { delay: argument },
        13 => Effect::DelayedSample { delay_ticks: argument },
        14 => Effect::DelayedLine { delay_ticks: argument },
        _ => Effect::InvertLoop { loop_position: argument },
    }
}

/// The effect that the effect number `number` and the argument byte `xy`
/// stand for.
pub open spec fn primary_effect(number: u8, argument: u8) -> Effect {
    match number {
        0 => if argument == 0 {
            Effect::NoEffect
        } else {
            Effect::Arpeggio { chord_offset_1: argument / 16, chord_offset_2: argument % 16 }
        },
        1 => Effect::SlideUp { speed: argument },
        2 => Effect::SlideDown { speed: argument },
        3 => Effect::TonePortamento { speed: argument },
        4 => Effect::Vibrato { speed: argument / 16, amplitude: argument % 16 },
        5 => Effect::TonePortamentoVolumeSlide { volume_change: volume_slide_change(argument) },
        6 => Effect::VibratoVolumeSlide { volume_change: volume_slide_change(argument) },
        7 => Effect::Tremolo { speed: argument / 16, amplitude: argument % 16 },
        8 => Effect::Pan { position: argument },
        9 => Effect::SetSampleOffset { offset: argument },
        10 => Effect::VolumeSlide { volume_change: volume_slide_change(argument) },
        11 => Effect::PositionJump { next_pattern: argument },
        12 => Effect::SetVolume { volume: argument },
        13 => Effect::PatternBreak {
            next_pattern_pos: ((argument / 16) * 10 + argument % 16) as u8,
        },
        14 => extended_effect(argument / 16, argument % 16),
        _ => Effect::SetSpeed { speed: argument },
    }
}

fn slide_change(argument: u8) -> (change: i8)
    ensures
        change == volume_slide_change(argument),
{
    if argument / 16 != 0 {
        (argument / 16) as i8
    } else {
        -((argument % 16) as i8)
    }
}

impl Effect {
    /// Decodes an effect number and its argument.
    pub fn new(effect_number: u8, effect_argument: i8) -> (decoded: Result<Effect, LoadError>)
        ensures
            effect_number <= 15 ==> decoded == Ok::<Effect, LoadError>(
                primary_effect(effect_number, argument_byte(effect_argument)),
            ),
            effect_number > 15 ==> decoded == Err::<Effect, LoadError>(
                LoadError::UnknownEffect(effect_number),
            ),
    {
        let argument: u8 = if effect_argument >= 0 {
            effect_argument as u8
        } else {
            (effect_argument as i16 + 256) as u8
        };
        let high: u8 = argument / 16;
        let low: u8 = argument % 16;
        match effect_number {
            0 => if argument == 0 {
                Ok(Effect::NoEffect)
            } else {
                Ok(Effect::Arpeggio { chord_offset_1: high, chord_offset_2: low })
            },
            1 => Ok(Effect::SlideUp { speed: argument }),
            2 => Ok(Effect::SlideDown { speed: argument }),
            3 => Ok(Effect::TonePortamento { speed: argument }),
            4 => Ok(Effect::Vibrato { speed: high, amplitude: low }),
            5 => Ok(Effect::TonePortamentoVolumeSlide { volume_change: slide_change(argument) }),
            6 => Ok(Effect::VibratoVolumeSlide { volume_change: slide_change(argument) }),
            7 => Ok(Effect::Tremolo { speed: high, amplitude: low }),
            8 => Ok(Effect::Pan { position: argument }),
            9 => Ok(Effect::SetSampleOffset { offset: argument }),
            10 => Ok(Effect::VolumeSlide { volume_change: slide_change(argument) }),
            11 => Ok(Effect::PositionJump { next_pattern: argument }),
            12 => Ok(Effect::SetVolume { volume: argument }),
            13 => Ok(Effect::PatternBreak { next_pattern_pos: high * 10 + low }),
            14 => Effect::new_extended(high, low),
            15 => Ok(Effect::SetSpeed { speed: argument }),
            _ => Err(LoadError::UnknownEffect(effect_number)),
        }
    }

    /// Decodes an extended effect: the effect number 14 carries a second
    /// effect number in the upper half of its argument.
    pub fn new_extended(extended_effect: u8, extended_argument: u8) -> (decoded: Result<
        Effect,
        LoadError,
    >)
        ensures
            extended_effect <= 15 ==> decoded == Ok::<Effect, LoadError>(
                self::extended_effect(extended_effect, extended_argument),
            ),
            extended_effect > 15 ==> decoded == Err::<Effect, LoadError>(
                LoadError::UnknownExtendedEffect(extended_effect),
            ),
    {
        match extended_effect {
            0 => Ok(Effect::SetHardwareFilter { new_state: extended_argument }),
            1 => Ok(Effect::FinePortaUp { period_change: extended_argument }),
            2 => Ok(Effect::FinePortaDown { period_change: extended_argument }),
            3 => Ok(Effect::Glissando { use_smooth_slide: extended_argument != 0 }),
            4 => Ok(Effect::SetVibratoWave { wave: extended_argument }),
            5 => Ok(Effect::SetFineTune { fine_tune: extended_argument }),
            6 => Ok(Effect::PatternLoop { arg: extended_argument }),
            7 => Ok(Effect::TremoloWaveform { wave: extended_argument }),
            8 => Ok(Effect::CoarsePan { pan_pos: extended_argument }),
            9 => Ok(Effect::RetriggerSample { retrigger_delay: extended_argument }),
            10 => Ok(Effect::FineVolumeSlideUp { volume_change: extended_argument }),
            11 => Ok(Effect::FineVolumeSlideDown { volume_change: extended_argument }),
            12 => Ok(Effect::CutNote { delay: extended_argument }),
            13 => Ok(Effect::DelayedSample { delay_ticks: extended_argument }),
            14 => Ok(Effect::DelayedLine { delay_ticks: extended_argument }),
            15 => Ok(Effect::InvertLoop { loop_position: extended_argument }),
            _ => Err(LoadError::UnknownExtendedEffect(extended_effect)),
        }
    }
}

/// Describes what sample to play at what pitch, and an effect (if any) to apply.
#[derive(Clone, Copy, Debug, PartialEq, Eq)]
pub struct Note {
    /// Which sample to play, counted from 1; 0 keeps the sample that is playing.
    pub sample_number: u8,
    /// How many clock ticks each sample is held for; 0 starts no new pitch.
    pub period: u32,
    /// What else the note does.
    pub effect: Effect,
}

/// The features of the song.
#[derive(Clone, Copy, Debug, PartialEq, Eq)]
pub struct FormatDescription {
    /// How many notes a line holds: 4, 8 or 12.
    pub num_channels: u32,
    /// How many samples the module has headers for: 15 or 31.
    pub num_samples: u32,
    /// Whether the format was told from a tag. Most modules carry a tag that
    /// names their layout; the very earliest have none, and are taken to have
    /// 4 channels and 15 samples.
    pub has_tag: bool,
}

/// The sample number that the four bytes of a note spell, in a song with
/// `num_samples` samples: four bits where there are 15, five otherwise.
pub open spec fn note_sample_number(note_data: Seq<u8>, num_samples: u32) -> u8 {
    let number = note_data[2] as int / 16 + (note_data[0] as int / 16) * 16;
    if num_samples == 15 {
        (number % 16) as u8
    } else {
        (number % 32) as u8
    }
}

/// The period that the four bytes of a note spell: twelve bits.
pub open spec fn note_period(note_data: Seq<u8>) -> u32 {
    ((note_data[0] as int % 16) * 256 + note_data[1] as int) as u32
}

/// The note that four bytes of pattern data spell.
pub open spec fn decoded_note(note_data: Seq<u8>, num_samples: u32) -> Note {
    Note {
        sample_number: note_sample_number(note_data, num_samples),
        period: note_period(note_data),
        effect: primary_effect(note_data[2] % 16, note_data[3]),
    }
}

impl Note {
    /// Decodes the four bytes of a note.
    pub fn new(note_data: &[u8], format_description: &FormatDescription) -> (note: Note)
        requires
            note_data.len() >= 4,
        ensures
            note == decoded_note(note_data@, format_description.num_samples),
            note.period <= 4095,
            note.sample_number <= 31,
            format_description.num_samples == 15 ==> note.sample_number <= 15,
    {
        let mut sample_number: u8 = note_data[2] / 16 + (note_data[0] / 16) * 16;
        if format_description.num_samples == 15 {
            sample_number = sample_number % 16;
        } else {
            sample_number = sample_number % 32;
        }
        let period: u32 = (note_data[0] % 16) as u32 * 256 + note_data[1] as u32;
        let argument: u8 = note_data[3];
        let effect_argument: i8 = if argument < 128 {
            argument as i8
        } else {
            (argument as i16 - 256) as i8
        };
        let effect_number: u8 = note_data[2] % 16;
        let effect = Effect::new(effect_number, effect_argument).unwrap();
        Note { sample_number, period, effect }
    }
}

/// Sixty-four lines of notes, one note per channel in each line.
pub struct Pattern {
    /// The outer vector is the lines; the inner vector holds the notes of a line.
    pub lines: Vec<Vec<Note>>,
}

impl Pattern {
    /// A pattern of 64 lines that hold no notes yet.
    pub fn new() -> (pattern: Pattern)
        ensures
            pattern.lines@.len() == 64,
            forall|line: int| 0 <= line < 64 ==> (#[trigger] pattern.lines@[line])@.len() == 0,
    {
        let mut lines: Vec<Vec<Note>> = Vec::new();
        let mut line: usize = 0;
        while line < 64
            invariant
                line <= 64,
                lines@.len() == line,
                forall|i: int| 0 <= i < line ==> (#[trigger] lines@[i])@.len() == 0,
            decreases 64 - line,
        {
            lines.push(Vec::new());
            line += 1;
        }
        Pattern { lines }
    }

    /// The pattern has 64 lines of `num_channels` notes each.
    pub open spec fn has_shape(&self, num_channels: u32) -> bool {
        &&& self.lines@.len() == 64
        &&& forall|line: int|
            0 <= line < 64 ==> (#[trigger] self.lines@[line])@.len() == num_channels
    }

    /// The note of `channel` in `line`.
    pub open spec fn note(&self, line: int, channel: int) -> Note {
        self.lines@[line]@[channel]
    }
}

/// Contains the entire song of a module.
pub struct Song {
    /// The name of the song as the module gives it.
    pub name: String,
    /// Features of the song.
    pub format: FormatDescription,
    /// The audio samples used by the song.
    pub samples: Vec<Sample>,
    /// The patterns, which contain all the note data.
    pub patterns: Vec<Pattern>,
    /// The order in which the patterns are played. The same pattern may be
    /// played several times in the same song.
    pub pattern_table: Vec<u8>,
    /// How many entries of the pattern table are live. The table has a fixed
    /// length, and is usually longer than the song.
    pub num_used_patterns: u32,
    /// Which entry of the pattern table is played after the last live one, in
    /// songs that repeat for ever. A value that names no live entry ends the song.
    pub end_position: u32,
    /// Set if all the notes are standard notes, that is, have periods of the
    /// period table.
    pub has_standard_notes: bool,
}

/// Every note of the patterns that an entry of the pattern table names carries
/// a standard period.
pub open spec fn standard_notes_only(patterns: Seq<Pattern>, pattern_table: Seq<u8>) -> bool {
    forall|entry: int, line: int, channel: int|
        #![trigger patterns[pattern_table[entry] as int].lines@[line]@[channel]]
        0 <= entry < pattern_table.len() && pattern_table[entry] < patterns.len() && 0 <= line
            < patterns[pattern_table[entry] as int].lines@.len() && 0 <= channel
            < patterns[pattern_table[entry] as int].lines@[line]@.len() ==> is_standard_period(
            patterns[pattern_table[entry] as int].lines@[line]@[channel].period,
        )
}

impl Song {
    /// The note at a place of a pattern.
    pub open spec fn note_at(&self, pattern: int, line: int, channel: int) -> Note {
        self.patterns@[pattern].note(line, channel)
    }

    /// `pattern`, `line` and `channel` name a place of a note of the song.
    pub open spec fn is_note_place(&self, pattern: int, line: int, channel: int) -> bool {
        0 <= pattern < self.patterns@.len() && 0 <= line < 64 && 0 <= channel
            < self.format.num_channels
    }

    /// No sample and no `SetVolume` of the song asks for a volume above 64.
    pub open spec fn volumes_in_range(&self) -> bool {
        &&& forall|i: int| 0 <= i < self.samples@.len() ==>
            (#[trigger] self.samples@[i]).volume <= 64
        &&& forall|pattern: int, line: int, channel: int|
            self.is_note_place(pattern, line, channel) ==> (#[trigger] self.note_at(
                pattern,
                line,
                channel,
            ).effect matches Effect::SetVolume { volume } ==> volume <= 64)
    }

    /// Every note of the song plays, with every fine-tune setting, at a period
    /// that a slide can reach, and none of them carries an arpeggio or a vibrato.
    pub open spec fn periods_in_slide_range(&self) -> bool {
        forall|pattern: int, line: int, channel: int|
            self.is_note_place(pattern, line, channel) ==> {
                let note = #[trigger] self.note_at(pattern, line, channel);
                &&& note.period != 0 ==> forall|fine_tune: u32|
                    fine_tune < 16 ==> 113 <= #[trigger] tuned_period(
                        note.period,
                        fine_tune,
                        self.has_standard_notes,
                    ) <= 856
                &&& !(note.effect is Arpeggio)
                &&& !(note.effect is Vibrato)
            }
    }

    /// What the playback engine relies on: the shape of the patterns, the
    /// references from notes to samples and from the pattern table to patterns,
    /// the range of each sample's fine-tune setting and the size of its data.
    pub open spec fn wf(&self) -> bool {
        &&& self.samples@.len() <= 255
        &&& forall|i: int| 0 <= i < self.samples@.len() ==> (#[trigger] self.samples@[i]).wf()
        &&& forall|p: int|
            0 <= p < self.patterns@.len() ==> (#[trigger] self.patterns@[p]).has_shape(
                self.format.num_channels,
            )
        &&& forall|p: int, line: int, channel: int|
            0 <= p < self.patterns@.len() && 0 <= line < 64 && 0 <= channel
                < self.format.num_channels ==> (#[trigger] self.patterns@[p].note(
                line,
                channel,
            )).sample_number <= self.samples@.len()
        &&& self.pattern_table@.len() <= 128
        &&& self.num_used_patterns <= self.pattern_table@.len()
        &&& forall|entry: int|
            0 <= entry < self.num_used_patterns ==> (#[trigger] self.pattern_table@[entry])
                < self.patterns@.len()
        &&& self.has_standard_notes ==> standard_notes_only(self.patterns@, self.pattern_table@)
    }
}

} // verus!
