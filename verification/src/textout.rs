//! Text for looking at a song: the names of notes, the effects in short, a
//! line of notes as a tracker shows it, and a summary of a song.

use crate::pitch::{find_period_rank, period_rank};
use crate::song::{Effect, Note, Sample, Song};
use crate::tables::FREQUENCY_TABLE;
use crate::text::push_char;
use vstd::prelude::*;
use vstd::string::*;

verus! {

/// The name of the note at `index` of the period table.
pub open spec fn note_name(index: usize) -> Seq<char> {
    match index {
        0 => "B-6"@,
        1 => "A#6"@,
        2 => "A-6"@,
        3 => "G#6"@,
        4 => "G-6"@,
        5 => "F#6"@,
        6 => "F-6"@,
        7 => "E-6"@,
        8 => "D#6"@,
        9 => "D-6"@,
        10 => "C#6"@,
        11 => "C-6"@,
        12 => "B-5"@,
        13 => "A#5"@,
        14 => "A-5"@,
        15 => "G#5"@,
        16 => "G-5"@,
        17 => "F#5"@,
        18 => "F-5"@,
        19 => "E-5"@,
        20 => "D#5"@,
        21 => "D-5"@,
        22 => "C#5"@,
        23 => "C-5"@,
        24 => "B-4"@,
        25 => "A#4"@,
        26 => "A-4"@,
        27 => "G#4"@,
        28 => "G-4"@,
        29 => "F#4"@,
        30 => "F-4"@,
        31 => "E-4"@,
        32 => "D#4"@,
        33 => "D-4"@,
        34 => "C#4"@,
        35 => "C-4"@,
        36 => "B-3"@,
        37 => "A#3"@,
        38 => "A-3"@,
        39 => "G#3"@,
        40 => "G-3"@,
        41 => "F#3"@,
        42 => "F-3"@,
        43 => "E-3"@,
        44 => "D#3"@,
        45 => "D-3"@,
        46 => "C#3"@,
        47 => "C-3"@,
        48 => "B-2"@,
        49 => "A#2"@,
        50 => "A-2"@,
        51 => "G#2"@,
        52 => "G-2"@,
        53 => "F#2"@,
        54 => "F-2"@,
        55 => "E-3"@,
        56 => "D#2"@,
        57 => "D-2"@,
        58 => "C#2"@,
        _ => "C-2"@,
    }
}

/// The text for a period: three dots for no note, else the name of the note
/// whose period is nearest, and of two that are equally near the lower note's.
pub open spec fn note_text(period: u32) -> Seq<char> {
    let rank = period_rank(period);
    if period == 0 {
        "..."@
    } else if rank == 60 {
        note_name(59)
    } else if FREQUENCY_TABLE@[rank] == period || rank == 0 {
        note_name(rank as usize)
    } else if period - FREQUENCY_TABLE@[rank - 1] < FREQUENCY_TABLE@[rank] - period {
        note_name((rank - 1) as usize)
    } else {
        note_name(rank as usize)
    }
}

fn name_of_note(index: usize) -> (name: &'static str)
    ensures
        name@ == note_name(index),
{
    match index {
        0 => "B-6",
        1 => "A#6",
        2 => "A-6",
        3 => "G#6",
        4 => "G-6",
        5 => "F#6",
        6 => "F-6",
        7 => "E-6",
        8 => "D#6",
        9 => "D-6",
        10 => "C#6",
        11 => "C-6",
        12 => "B-5",
        13 => "A#5",
        14 => "A-5",
        15 => "G#5",
        16 => "G-5",
        17 => "F#5",
        18 => "F-5",
        19 => "E-5",
        20 => "D#5",
        21 => "D-5",
        22 => "C#5",
        23 => "C-5",
        24 => "B-4",
        25 => "A#4",
        26 => "A-4",
        27 => "G#4",
        28 => "G-4",
        29 => "F#4",
        30 => "F-4",
        31 => "E-4",
        32 => "D#4",
        33 => "D-4",
        34 => "C#4",
        35 => "C-4",
        36 => "B-3",
        37 => "A#3",
        38 => "A-3",
        39 => "G#3",
        40 => "G-3",
        41 => "F#3",
        42 => "F-3",
        43 => "E-3",
        44 => "D#3",
        45 => "D-3",
        46 => "C#3",
        47 => "C-3",
        48 => "B-2",
        49 => "A#2",
        50 => "A-2",
        51 => "G#2",
        52 => "G-2",
        53 => "F#2",
        54 => "F-2",
        55 => "E-3",
        56 => "D#2",
        57 => "D-2",
        58 => "C#2",
        _ => "C-2",
    }
}

/// The name of the note that `period` stands for.
pub fn note_string(period: u32) -> (name: &'static str)
    ensures
        name@ == note_text(period),
{
    if period == 0 {
        return "...";
    }
    let rank = find_period_rank(period);
    if rank == 60 {
        name_of_note(59)
    } else if FREQUENCY_TABLE[rank] == period || rank == 0 {
        name_of_note(rank)
    } else if period - FREQUENCY_TABLE[rank - 1] < FREQUENCY_TABLE[rank] - period {
        name_of_note(rank - 1)
    } else {
        name_of_note(rank)
    }
}

/// The character of the digit `digit`.
pub open spec fn digit_char(digit: int) -> char {
    (48 + digit) as u8 as char
}

/// `value` in decimal digits.
pub open spec fn decimal(value: nat) -> Seq<char>
    decreases value,
{
    if value < 10 {
        seq![digit_char(value as int)]
    } else {
        decimal(value / 10).push(digit_char(value as int % 10))
    }
}

/// `value` in decimal digits, with a minus sign before them where it is negative.
pub open spec fn signed_decimal(value: int) -> Seq<char> {
    if value < 0 {
        seq!['-'] + decimal((-value) as nat)
    } else {
        decimal(value as nat)
    }
}

/// `text` brought to `width` characters by `fill` in front of it; a text that
/// is longer stays as it is.
pub open spec fn padded(text: Seq<char>, width: nat, fill: char) -> Seq<char> {
    if text.len() >= width {
        text
    } else {
        Seq::new((width - text.len()) as nat, |i: int| fill) + text
    }
}

/// `label` followed by `value` in decimal, right-aligned in four characters.
pub open spec fn labelled_text(label: Seq<char>, value: int) -> Seq<char> {
    label + padded(signed_decimal(value), 4, ' ')
}

/// `label` followed by two numbers of two digits each.
pub open spec fn paired_text(label: Seq<char>, first: u8, second: u8) -> Seq<char> {
    label + padded(decimal(first as nat), 2, '0') + padded(decimal(second as nat), 2, '0')
}

/// The text of an effect: a name of five letters and the arguments, ten
/// characters in all for every argument the format can hold.
pub open spec fn effect_text(effect: Effect) -> Seq<char> {
    match effect {
        Effect::Arpeggio { chord_offset_1, chord_offset_2 } =>
            paired_text("Arpgi "@, chord_offset_1, chord_offset_2),
        Effect::Vibrato { speed, amplitude } => paired_text("Vibra "@, speed, amplitude),
        Effect::Tremolo { speed, amplitude } => paired_text("Trmlo "@, speed, amplitude),
        Effect::SlideUp { speed } => labelled_text("SldUp "@, speed as int),
        Effect::SlideDown { speed } => labelled_text("SldDn "@, speed as int),
        Effect::TonePortamento { speed } => labelled_text("TonPo "@, speed as int),
        Effect::TonePortamentoVolumeSlide { volume_change } =>
            labelled_text("TPVos "@, volume_change as int),
        Effect::VibratoVolumeSlide { volume_change } =>
            labelled_text("ViVoS "@, volume_change as int),
        Effect::SetSampleOffset { offset } => labelled_text("Offst "@, offset as int),
        Effect::VolumeSlide { volume_change } => labelled_text("VolSl "@, volume_change as int),
        Effect::PositionJump { next_pattern } => labelled_text("Jump  "@, next_pattern as int),
        Effect::SetVolume { volume } => labelled_text("Volme "@, volume as int),
        Effect::PatternBreak { next_pattern_pos } =>
            labelled_text("Break "@, next_pattern_pos as int),
        Effect::SetSpeed { speed } => labelled_text("Speed "@, speed as int),
        Effect::SetHardwareFilter { new_state } => labelled_text("StHwF "@, new_state as int),
        Effect::FinePortaUp { period_change } => labelled_text("FPoUp "@, period_change as int),
        Effect::FinePortaDown { period_change } => labelled_text("FPoDn "@, period_change as int),
        Effect::PatternLoop { arg } => labelled_text("PtnLp "@, arg as int),
        Effect::TremoloWaveform { wave } => labelled_text("TrmWv "@, wave as int),
        Effect::CoarsePan { pan_pos } => labelled_text("CrPan "@, pan_pos as int),
        Effect::RetriggerSample { retrigger_delay } =>
            labelled_text("ReTrg "@, retrigger_delay as int),
        Effect::FineVolumeSlideUp { volume_change } =>
            labelled_text("FVSUp "@, volume_change as int),
        Effect::FineVolumeSlideDown { volume_change } =>
            labelled_text("FVSDn "@, volume_change as int),
        Effect::CutNote { delay } => labelled_text("CutNt "@, delay as int),
        Effect::DelayedSample { delay_ticks } => labelled_text("DlySm "@, delay_ticks as int),
        Effect::DelayedLine { delay_ticks } => labelled_text("DlyLn "@, delay_ticks as int),
        Effect::InvertLoop { loop_position } => labelled_text("InvLp "@, loop_position as int),
        Effect::SetVibratoWave { wave } => labelled_text("VibWv "@, wave as int),
        Effect::SetFineTune { fine_tune } => labelled_text("FnTne "@, fine_tune as int),
        Effect::Pan { position } => "Pan   "@ + padded(signed_decimal(position as int), 5, ' ')
            + "."@,
        Effect::Glissando { use_smooth_slide } => "Glsnd "@ + bool_text(use_smooth_slide),
        Effect::NoEffect => ".........."@,
    }
}

/// Appends the decimal digits of `value`.
fn push_decimal(text: &mut String, value: u64)
    ensures
        final(text)@ == old(text)@ + decimal(value as nat),
    decreases value,
{
    if value >= 10 {
        push_decimal(text, value / 10);
    }
    push_char(text, (48 + (value % 10) as u8) as char);
    assert(final(text)@ =~= old(text)@ + decimal(value as nat));
}

/// Counts the decimal digits of a number of up to three digits.
fn decimal_length(value: u32) -> (length: usize)
    requires
        value <= 999,
    ensures
        length == decimal(value as nat).len(),
        1 <= length <= 3,
{
    if value >= 100 {
        assert(decimal(value as nat / 10).len() == 2) by {
            assert(decimal(value as nat / 10 / 10).len() == 1);
        }
        3
    } else if value >= 10 {
        assert(decimal(value as nat / 10).len() == 1);
        2
    } else {
        1
    }
}

/// Appends `value` in decimal, brought to `width` characters by `fill`.
fn push_aligned(text: &mut String, value: i32, width: usize, fill: char)
    requires
        -999 <= value <= 999,
    ensures
        final(text)@ == old(text)@ + padded(signed_decimal(value as int), width as nat, fill),
{
    let magnitude: u32 = if value < 0 {
        (-value) as u32
    } else {
        value as u32
    };
    let length: usize = if value < 0 {
        decimal_length(magnitude) + 1
    } else {
        decimal_length(magnitude)
    };
    assert(length == signed_decimal(value as int).len());
    let mut filled: usize = length;
    while filled < width
        invariant
            length <= filled,
            length < width ==> filled <= width,
            length >= width ==> filled == length,
            text@ == old(text)@ + Seq::new((filled - length) as nat, |i: int| fill),
        decreases width - filled,
    {
        push_char(text, fill);
        filled += 1;
        assert(text@ =~= old(text)@ + Seq::new((filled - length) as nat, |i: int| fill));
    }
    let ghost filling = text@;
    if value < 0 {
        push_char(text, '-');
    }
    push_decimal(text, magnitude as u64);
    assert(text@ =~= filling + signed_decimal(value as int));
    assert(filling =~= old(text)@ + Seq::new((filled - length) as nat, |i: int| fill));
    assert(padded(signed_decimal(value as int), width as nat, fill) =~= Seq::new(
        (filled - length) as nat,
        |i: int| fill,
    ) + signed_decimal(value as int));
    assert(text@ =~= old(text)@ + padded(signed_decimal(value as int), width as nat, fill));
}

/// `label` followed by `value`, right-aligned in four characters.
fn labelled(label: &str, value: i32) -> (text: String)
    requires
        -999 <= value <= 999,
    ensures
        text@ == labelled_text(label@, value as int),
{
    let mut text = String::from_str(label);
    push_aligned(&mut text, value, 4, ' ');
    text
}

impl Effect {
    /// The effect in ten characters, as a tracker shows it.
    pub fn to_string(&self) -> (text: String)
        ensures
            text@ == effect_text(*self),
    {
        match self {
            Effect::Arpeggio { chord_offset_1, chord_offset_2 } => {
                let mut text = String::from_str("Arpgi ");
                push_aligned(&mut text, *chord_offset_1 as i32, 2, '0');
                push_aligned(&mut text, *chord_offset_2 as i32, 2, '0');
                text
            },
            Effect::Vibrato { speed, amplitude } => {
                let mut text = String::from_str("Vibra ");
                push_aligned(&mut text, *speed as i32, 2, '0');
                push_aligned(&mut text, *amplitude as i32, 2, '0');
                text
            },
            Effect::Tremolo { speed, amplitude } => {
                let mut text = String::from_str("Trmlo ");
                push_aligned(&mut text, *speed as i32, 2, '0');
                push_aligned(&mut text, *amplitude as i32, 2, '0');
                text
            },
            Effect::SlideUp { speed } => labelled("SldUp ", *speed as i32),
            Effect::SlideDown { speed } => labelled("SldDn ", *speed as i32),
            Effect::TonePortamento { speed } => labelled("TonPo ", *speed as i32),
            Effect::TonePortamentoVolumeSlide { volume_change } =>
                labelled("TPVos ", *volume_change as i32),
            Effect::VibratoVolumeSlide { volume_change } =>
                labelled("ViVoS ", *volume_change as i32),
            Effect::SetSampleOffset { offset } => labelled("Offst ", *offset as i32),
            Effect::VolumeSlide { volume_change } => labelled("VolSl ", *volume_change as i32),
            Effect::PositionJump { next_pattern } => labelled("Jump  ", *next_pattern as i32),
            Effect::SetVolume { volume } => labelled("Volme ", *volume as i32),
            Effect::PatternBreak { next_pattern_pos } =>
                labelled("Break ", *next_pattern_pos as i32),
            Effect::SetSpeed { speed } => labelled("Speed ", *speed as i32),
            Effect::SetHardwareFilter { new_state } => labelled("StHwF ", *new_state as i32),
            Effect::FinePortaUp { period_change } => labelled("FPoUp ", *period_change as i32),
            Effect::FinePortaDown { period_change } => labelled("FPoDn ", *period_change as i32),
            Effect::PatternLoop { arg } => labelled("PtnLp ", *arg as i32),
            Effect::TremoloWaveform { wave } => labelled("TrmWv ", *wave as i32),
            Effect::CoarsePan { pan_pos } => labelled("CrPan ", *pan_pos as i32),
            Effect::RetriggerSample { retrigger_delay } =>
                labelled("ReTrg ", *retrigger_delay as i32),
            Effect::FineVolumeSlideUp { volume_change } =>
                labelled("FVSUp ", *volume_change as i32),
            Effect::FineVolumeSlideDown { volume_change } =>
                labelled("FVSDn ", *volume_change as i32),
            Effect::CutNote { delay } => labelled("CutNt ", *delay as i32),
            Effect::DelayedSample { delay_ticks } => labelled("DlySm ", *delay_ticks as i32),
            Effect::DelayedLine { delay_ticks } => labelled("DlyLn ", *delay_ticks as i32),
            Effect::InvertLoop { loop_position } => labelled("InvLp ", *loop_position as i32),
            Effect::SetVibratoWave { wave } => labelled("VibWv ", *wave as i32),
            Effect::SetFineTune { fine_tune } => labelled("FnTne ", *fine_tune as i32),
            Effect::Pan { position } => {
                let mut text = String::from_str("Pan   ");
                push_aligned(&mut text, *position as i32, 5, ' ');
                text.append(".");
                text
            },
            Effect::Glissando { use_smooth_slide } => {
                let mut text = String::from_str("Glsnd ");
                if *use_smooth_slide {
                    text.append("true");
                } else {
                    text.append("false");
                }
                text
            },
            Effect::NoEffect => String::from_str(".........."),
        }
    }
}

/// The text of a sample number in a line of notes: two dots for none.
pub open spec fn sample_number_text(sample_number: u8) -> Seq<char> {
    if sample_number == 0 {
        ".."@
    } else {
        padded(decimal(sample_number as nat), 2, ' ')
    }
}

/// The text of a note in a line of notes: the name of the note, the sample
/// number and the effect, with three spaces behind them.
pub open spec fn note_line_text(note: Note) -> Seq<char> {
    note_text(note.period) + " "@ + sample_number_text(note.sample_number) + " "@ + effect_text(
        note.effect,
    ) + "   "@
}

/// The text of the first `count` notes of a line, one after the other.
pub open spec fn line_text(line: Seq<Note>, count: int) -> Seq<char>
    decreases count,
{
    if count <= 0 {
        Seq::empty()
    } else {
        line_text(line, count - 1) + note_line_text(line[count - 1])
    }
}

/// One line of note data as text.
pub fn line_string(line: &Vec<Note>) -> (text: String)
    ensures
        text@ == line_text(line@, line@.len() as int),
{
    let mut text = String::new();
    let mut c: usize = 0;
    while c < line.len()
        invariant
            c <= line@.len(),
            text@ == line_text(line@, c as int),
        decreases line@.len() - c,
    {
        let note = &line[c];
        let ghost before = text@;
        text.append(note_string(note.period));
        text.append(" ");
        if note.sample_number == 0 {
            text.append("..");
        } else {
            push_aligned(&mut text, note.sample_number as i32, 2, ' ');
        }
        text.append(" ");
        let effect = note.effect.to_string();
        text.append(effect.as_str());
        text.append("   ");
        assert(text@ =~= before + note_line_text(*note));
        c += 1;
    }
    text
}

/// The text of `true` and of `false`.
pub open spec fn bool_text(value: bool) -> Seq<char> {
    if value {
        "true"@
    } else {
        "false"@
    }
}

/// The lines of text that describe a sample.
pub open spec fn sample_info_text(sample: &Sample) -> Seq<char> {
    "   sample Name: "@ + sample.name@ + "\n   sample Size: "@ + decimal(sample.size as nat)
        + "\n   sample volume: "@ + decimal(sample.volume as nat) + ", fine tune "@ + decimal(
        sample.fine_tune as nat,
    ) + "\n   repeat Offset: "@ + decimal(sample.repeat_offset as nat) + ", repeat Size "@
        + decimal(sample.repeat_size as nat) + "\n"@
}

impl Sample {
    /// The name, the size, the volume, the fine-tune setting and the repeated
    /// part of the sample, in four lines of text.
    pub fn info_string(&self) -> (text: String)
        ensures
            text@ == sample_info_text(self),
    {
        let mut text = String::from_str("   sample Name: ");
        text.append(self.name.as_str());
        text.append("\n   sample Size: ");
        push_decimal(&mut text, self.size as u64);
        text.append("\n   sample volume: ");
        push_decimal(&mut text, self.volume as u64);
        text.append(", fine tune ");
        push_decimal(&mut text, self.fine_tune as u64);
        text.append("\n   repeat Offset: ");
        push_decimal(&mut text, self.repeat_offset as u64);
        text.append(", repeat Size ");
        push_decimal(&mut text, self.repeat_size as u64);
        text.append("\n");
        text
    }
}

/// The text that describes the first `count` samples, each under a heading
/// with its number.
pub open spec fn samples_info_text(samples: Seq<Sample>, count: int) -> Seq<char>
    decreases count,
{
    if count <= 0 {
        Seq::empty()
    } else {
        samples_info_text(samples, count - 1) + "Sample #"@ + decimal(count as nat) + "\n"@
            + sample_info_text(&samples[count - 1])
    }
}

/// The text that describes a song: its name, its format, its samples, and
/// how many patterns it has, where it ends and whether its notes are standard.
pub open spec fn song_info_text(song: &Song) -> Seq<char> {
    "Song: "@ + song.name@ + "\nNumber of channels: "@ + decimal(song.format.num_channels as nat)
        + "\nNumber of samples: "@ + decimal(song.format.num_samples as nat) + "\n"@
        + samples_info_text(song.samples@, song.samples@.len() as int)
        + " num patterns in song: "@ + decimal(song.patterns@.len()) + "\n end position: "@
        + decimal(song.end_position as nat) + "\n uses standard note table: "@ + bool_text(
        song.has_standard_notes,
    ) + "\n"@
}

/// General info about the song as text.
pub fn song_info_string(song: &Song) -> (text: String)
    ensures
        text@ == song_info_text(song),
{
    let mut text = String::from_str("Song: ");
    text.append(song.name.as_str());
    text.append("\nNumber of channels: ");
    push_decimal(&mut text, song.format.num_channels as u64);
    text.append("\nNumber of samples: ");
    push_decimal(&mut text, song.format.num_samples as u64);
    text.append("\n");
    let ghost head = text@;
    let mut sample_num: usize = 0;
    while sample_num < song.samples.len()
        invariant
            sample_num <= song.samples@.len(),
            text@ == head + samples_info_text(song.samples@, sample_num as int),
        decreases song.samples@.len() - sample_num,
    {
        let ghost before = text@;
        text.append("Sample #");
        push_decimal(&mut text, sample_num as u64 + 1);
        text.append("\n");
        let info = song.samples[sample_num].info_string();
        text.append(info.as_str());
        sample_num += 1;
        assert(text@ =~= head + samples_info_text(song.samples@, sample_num as int));
    }
    text.append(" num patterns in song: ");
    push_decimal(&mut text, song.patterns.len() as u64);
    text.append("\n end position: ");
    push_decimal(&mut text, song.end_position as u64);
    text.append("\n uses standard note table: ");
    if song.has_standard_notes {
        text.append("true");
    } else {
        text.append("false");
    }
    text.append("\n");
    text
}

/// The text ends in a dot and the letters `m`, `o` and `d`, each in either case.
pub open spec fn is_mod_file_name(name: Seq<char>) -> bool {
    let n = name.len() as int;
    &&& n >= 4
    &&& name[n - 4] == '.'
    &&& name[n - 3] == 'm' || name[n - 3] == 'M'
    &&& name[n - 2] == 'o' || name[n - 2] == 'O'
    &&& name[n - 1] == 'd' || name[n - 1] == 'D'
}

/// Tells whether a path names a module by its extension.
pub fn has_mod_extension(path: &str) -> (has: bool)
    ensures
        has == is_mod_file_name(path@),
{
    let n = path.unicode_len();
    if n < 4 {
        return false;
    }
    let dot = path.get_char(n - 4);
    let m = path.get_char(n - 3);
    let o = path.get_char(n - 2);
    let d = path.get_char(n - 1);
    dot == '.' && (m == 'm' || m == 'M') && (o == 'o' || o == 'O') && (d == 'd' || d == 'D')
}

} // verus!
