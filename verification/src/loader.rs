//! The loader: decodes the bytes of a module into a `Song`.
//!
//! A module is laid out as a 20-byte name, 15 or 31 sample headers of 30 bytes,
//! the number of live entries of the pattern table, the end position, the 128
//! entries of the pattern table, a 4-byte tag in all but the oldest files, the
//! patterns, and at the very end the data of the samples.

use crate::pitch::{is_standard_note_period, is_standard_period};
use crate::song::{
    decoded_note, standard_notes_only, word, FormatDescription, LoadError, Note, Pattern, Sample,
    Song,
};
use crate::text::{latin1, latin1_string};
use vstd::prelude::*;
use vstd::slice::{slice_subrange, slice_to_vec};

verus! {

/// The bytes `a`, `b`, `c`, `d` are the tag.
pub open spec fn spells(tag: Seq<u8>, a: u8, b: u8, c: u8, d: u8) -> bool {
    tag.len() == 4 && tag[0] == a && tag[1] == b && tag[2] == c && tag[3] == d
}

/// The tag is one of `M.K.`, `FLT4`, `M!K!` and `4CHN`, which mark four channels.
pub open spec fn is_four_channel_tag(tag: Seq<u8>) -> bool {
    spells(tag, 0x4d, 0x2e, 0x4b, 0x2e) || spells(tag, 0x46, 0x4c, 0x54, 0x34) || spells(
        tag,
        0x4d,
        0x21,
        0x4b,
        0x21,
    ) || spells(tag, 0x34, 0x43, 0x48, 0x4e)
}

/// The tag is `8CHN` or `CD81`, which mark eight channels.
pub open spec fn is_eight_channel_tag(tag: Seq<u8>) -> bool {
    spells(tag, 0x38, 0x43, 0x48, 0x4e) || spells(tag, 0x43, 0x44, 0x38, 0x31)
}

/// The tag is `12CH`, which marks twelve channels.
pub open spec fn is_twelve_channel_tag(tag: Seq<u8>) -> bool {
    spells(tag, 0x31, 0x32, 0x43, 0x48)
}

/// The tag is `CD61`, which names a layout that is not handled.
pub open spec fn is_unhandled_tag(tag: Seq<u8>) -> bool {
    spells(tag, 0x43, 0x44, 0x36, 0x31)
}

/// The bytes of the tag that is not handled.
pub open spec fn unhandled_tag() -> [u8; 4] {
    [0x43, 0x44, 0x36, 0x31]
}

/// The format that a tag stands for. Bytes that are no known tag belong to the
/// oldest layout, which has none: four channels and 15 samples.
pub open spec fn format_of_tag(tag: Seq<u8>) -> FormatDescription {
    if is_four_channel_tag(tag) {
        FormatDescription { num_channels: 4, num_samples: 31, has_tag: true }
    } else if is_eight_channel_tag(tag) {
        FormatDescription { num_channels: 8, num_samples: 31, has_tag: true }
    } else if is_twelve_channel_tag(tag) {
        FormatDescription { num_channels: 12, num_samples: 31, has_tag: true }
    } else {
        FormatDescription { num_channels: 4, num_samples: 15, has_tag: false }
    }
}

/// The four bytes at the place of the tag.
pub open spec fn tag_of(file_data: Seq<u8>) -> Seq<u8> {
    file_data.subrange(1080, 1084)
}

fn tag_is(file_data: &[u8], a: u8, b: u8, c: u8, d: u8) -> (is: bool)
    requires
        file_data.len() >= 1084,
    ensures
        is == spells(tag_of(file_data@), a, b, c, d),
{
    file_data[1080] == a && file_data[1081] == b && file_data[1082] == c && file_data[1083] == d
}

/// Identify the mod format version based on the tag. If there is no tag that
/// can be identified, the file is taken to have the oldest layout.
pub fn get_format(file_data: &[u8]) -> (format: Result<FormatDescription, LoadError>)
    ensures
        file_data.len() < 1084 ==> format == Err::<FormatDescription, LoadError>(LoadError::Io),
        file_data.len() >= 1084 && is_unhandled_tag(tag_of(file_data@)) ==> format == Err::<
            FormatDescription,
            LoadError,
        >(LoadError::UnexpectedTag(unhandled_tag())),
        file_data.len() >= 1084 && !is_unhandled_tag(tag_of(file_data@)) ==> format == Ok::<
            FormatDescription,
            LoadError,
        >(format_of_tag(tag_of(file_data@))),
{
    if file_data.len() < 1084 {
        return Err(LoadError::Io);
    }
    if tag_is(file_data, 0x4d, 0x2e, 0x4b, 0x2e) || tag_is(file_data, 0x46, 0x4c, 0x54, 0x34)
        || tag_is(file_data, 0x4d, 0x21, 0x4b, 0x21) || tag_is(file_data, 0x34, 0x43, 0x48, 0x4e) {
        Ok(FormatDescription { num_channels: 4, num_samples: 31, has_tag: true })
    } else if tag_is(file_data, 0x38, 0x43, 0x48, 0x4e) || tag_is(
        file_data,
        0x43,
        0x44,
        0x38,
        0x31,
    ) {
        Ok(FormatDescription { num_channels: 8, num_samples: 31, has_tag: true })
    } else if tag_is(file_data, 0x31, 0x32, 0x43, 0x48) {
        Ok(FormatDescription { num_channels: 12, num_samples: 31, has_tag: true })
    } else if tag_is(file_data, 0x43, 0x44, 0x36, 0x31) {
        let tag: [u8; 4] = [file_data[1080], file_data[1081], file_data[1082], file_data[1083]];
        assert(tag =~= unhandled_tag());
        Err(LoadError::UnexpectedTag(tag))
    } else {
        Ok(FormatDescription { num_channels: 4, num_samples: 15, has_tag: false })
    }
}

/// Every note of the line carries a standard period.
fn line_is_standard(line: &Vec<Note>) -> (standard: bool)
    ensures
        standard == forall|channel: int|
            0 <= channel < line@.len() ==> is_standard_period((#[trigger] line@[channel]).period),
{
    let mut channel: usize = 0;
    while channel < line.len()
        invariant
            channel <= line@.len(),
            forall|i: int| 0 <= i < channel ==> is_standard_period((#[trigger] line@[i]).period),
        decreases line@.len() - channel,
    {
        if !is_standard_note_period(line[channel].period) {
            return false;
        }
        channel += 1;
    }
    true
}

/// Every note of the pattern carries a standard period.
fn pattern_is_standard(pattern: &Pattern) -> (standard: bool)
    ensures
        standard == forall|line: int, channel: int|
            0 <= line < pattern.lines@.len() && 0 <= channel < pattern.lines@[line]@.len()
                ==> is_standard_period((#[trigger] pattern.lines@[line]@[channel]).period),
{
    let mut line: usize = 0;
    while line < pattern.lines.len()
        invariant
            line <= pattern.lines@.len(),
            forall|l: int, channel: int|
                0 <= l < line && 0 <= channel < pattern.lines@[l]@.len() ==> is_standard_period(
                    (#[trigger] pattern.lines@[l]@[channel]).period,
                ),
        decreases pattern.lines@.len() - line,
    {
        if !line_is_standard(&pattern.lines[line]) {
            return false;
        }
        line += 1;
    }
    true
}

/// Go through all the notes to determine if the song uses only standard notes
/// (this is a requirement for using table based fine tunes).
pub fn has_standard_notes_only(patterns: &Vec<Pattern>, pattern_table: &Vec<u8>) -> (standard: bool)
    ensures
        standard == standard_notes_only(patterns@, pattern_table@),
{
    let mut entry: usize = 0;
    while entry < pattern_table.len()
        invariant
            entry <= pattern_table@.len(),
            forall|e: int, line: int, channel: int|
                #![trigger patterns@[pattern_table@[e] as int].lines@[line]@[channel]]
                0 <= e < entry && pattern_table@[e] < patterns@.len() && 0 <= line
                    < patterns@[pattern_table@[e] as int].lines@.len() && 0 <= channel
                    < patterns@[pattern_table@[e] as int].lines@[line]@.len()
                    ==> is_standard_period(
                    patterns@[pattern_table@[e] as int].lines@[line]@[channel].period,
                ),
        decreases pattern_table@.len() - entry,
    {
        let pattern_idx = pattern_table[entry] as usize;
        if pattern_idx < patterns.len() {
            if !pattern_is_standard(&patterns[pattern_idx]) {
                return false;
            }
        }
        entry += 1;
    }
    true
}

/// The sample data byte that a byte of the file stands for: the same bits,
/// read as a signed number.
pub open spec fn signed_byte(byte: u8) -> i8 {
    if byte < 128 {
        byte as i8
    } else {
        (byte - 256) as i8
    }
}

/// The header of the sample `index`, counted from 0.
pub open spec fn sample_info(file_data: Seq<u8>, index: int) -> Seq<u8> {
    file_data.subrange(20 + 30 * index, 50 + 30 * index)
}

/// The length in bytes that the header of the sample `index` gives.
pub open spec fn sample_size(file_data: Seq<u8>, index: int) -> int {
    word(file_data[20 + 30 * index + 22], file_data[20 + 30 * index + 23]) * 2
}

/// The lengths of the first `count` samples together.
pub open spec fn total_sample_size(file_data: Seq<u8>, count: int) -> int
    decreases count,
{
    if count <= 0 {
        0
    } else {
        total_sample_size(file_data, count - 1) + sample_size(file_data, count - 1)
    }
}

/// Where the pattern table starts: behind the name, the sample headers, the
/// number of live entries and the end position.
pub open spec fn table_offset(format: FormatDescription) -> int {
    20 + 30 * format.num_samples + 2
}

/// Where the patterns start: behind the pattern table and the tag.
pub open spec fn patterns_offset(format: FormatDescription) -> int {
    table_offset(format) + 128 + if format.has_tag {
        4int
    } else {
        0int
    }
}

/// The size of one pattern in bytes: 64 lines of four bytes for each channel.
pub open spec fn pattern_size(format: FormatDescription) -> int {
    format.num_channels * 4 * 64
}

/// What the file has left for patterns: everything between the header and
/// the sample data at its end.
pub open spec fn pattern_space(file_data: Seq<u8>, format: FormatDescription) -> int {
    file_data.len() - patterns_offset(format) - total_sample_size(
        file_data,
        format.num_samples as int,
    )
}

/// One more than the highest of the first `count` entries of the pattern
/// table, or zero where `count` is: the number of patterns that those entries
/// call for.
pub open spec fn patterns_called_for(pattern_table: Seq<u8>, count: int) -> int
    decreases count,
{
    if count <= 0 {
        0
    } else {
        let before = patterns_called_for(pattern_table, count - 1);
        if pattern_table[count - 1] + 1 > before {
            pattern_table[count - 1] + 1
        } else {
            before
        }
    }
}

/// The pattern table of the module.
pub open spec fn table_of(file_data: Seq<u8>, format: FormatDescription) -> Seq<u8> {
    file_data.subrange(table_offset(format), table_offset(format) + 128)
}

/// How many of the table's entries are live, as the module gives it.
pub open spec fn used_patterns(file_data: Seq<u8>, format: FormatDescription) -> u8 {
    file_data[table_offset(format) - 2]
}

/// The number of patterns to read: as many as the space for patterns holds,
/// and at least as many as the live entries of the pattern table call for.
pub open spec fn pattern_count(file_data: Seq<u8>, format: FormatDescription) -> int {
    let held = pattern_space(file_data, format) / pattern_size(format);
    let live = used_patterns(file_data, format) as int;
    let called_for = patterns_called_for(
        table_of(file_data, format),
        if live > 128 {
            128
        } else {
            live
        },
    );
    if called_for > held {
        called_for
    } else {
        held
    }
}

/// Why the module cannot be loaded, if it cannot: it is too short to hold the
/// tag; its tag is not handled; it is too short to hold its sample data; the
/// space left for patterns is not a whole number of patterns; or it is too short to
/// hold the patterns that its pattern table calls for.
pub open spec fn load_error(file_data: Seq<u8>) -> Option<LoadError> {
    if file_data.len() < 1084 {
        Some(LoadError::Io)
    } else if is_unhandled_tag(tag_of(file_data)) {
        Some(LoadError::UnexpectedTag(unhandled_tag()))
    } else {
        let format = format_of_tag(tag_of(file_data));
        if pattern_space(file_data, format) < 0 {
            Some(LoadError::Io)
        } else if pattern_space(file_data, format) % pattern_size(format) != 0 {
            Some(LoadError::PatternSpaceMismatch)
        } else if patterns_offset(format) + pattern_count(file_data, format) * pattern_size(format)
            > file_data.len() {
            Some(LoadError::Io)
        } else {
            None
        }
    }
}

/// Where the data of the sample `index` starts: the sample data lies at the
/// end of the file, one sample after the other.
pub open spec fn sample_data_offset(file_data: Seq<u8>, format: FormatDescription, index: int)
    -> int {
    file_data.len() - total_sample_size(file_data, format.num_samples as int) + total_sample_size(
        file_data,
        index,
    )
}

/// Where the four bytes of a note start.
pub open spec fn note_offset(format: FormatDescription, pattern: int, line: int, channel: int)
    -> int {
    patterns_offset(format) + ((pattern * 64 + line) * format.num_channels + channel) * 4
}

/// `sample` is the sample `index` of the module: its header fields are those
/// that `Sample::new` reads, and its data are the bytes at its place at the
/// end of the file.
pub open spec fn is_sample_of(
    sample: &Sample,
    file_data: Seq<u8>,
    format: FormatDescription,
    index: int,
) -> bool {
    &&& sample.has_header(sample_info(file_data, index))
    &&& sample.samples@.len() == sample.size
    &&& forall|i: int|
        0 <= i < sample.size ==> #[trigger] sample.samples@[i] == signed_byte(
            file_data[sample_data_offset(file_data, format, index) + i],
        )
}

/// `song` is what the module `file_data` holds.
pub open spec fn is_song_of(song: &Song, file_data: Seq<u8>) -> bool {
    let format = format_of_tag(tag_of(file_data));
    &&& song.name@ == latin1(file_data.subrange(0, 20))
    &&& song.format == format
    &&& song.samples@.len() == format.num_samples
    &&& forall|i: int|
        0 <= i < format.num_samples ==> is_sample_of(
            #[trigger] &song.samples@[i],
            file_data,
            format,
            i,
        )
    &&& song.num_used_patterns == used_patterns(file_data, format)
    &&& song.end_position == file_data[table_offset(format) - 1]
    &&& song.pattern_table@ == table_of(file_data, format)
    &&& song.patterns@.len() == pattern_count(file_data, format)
    &&& forall|p: int|
        0 <= p < song.patterns@.len() ==> (#[trigger] song.patterns@[p]).has_shape(
            format.num_channels,
        )
    &&& forall|p: int, line: int, channel: int|
        0 <= p < song.patterns@.len() && 0 <= line < 64 && 0 <= channel < format.num_channels
            ==> #[trigger] song.patterns@[p].note(line, channel) == decoded_note(
            file_data.subrange(
                note_offset(format, p, line, channel),
                note_offset(format, p, line, channel) + 4,
            ),
            format.num_samples,
        )
    &&& song.has_standard_notes == standard_notes_only(song.patterns@, song.pattern_table@)
}

/// The patterns that the first `count` entries of the pattern table call for
/// include the pattern of each of those entries.
pub proof fn lemma_called_for_covers_entries(pattern_table: Seq<u8>, count: int, entry: int)
    requires
        0 <= entry < count,
    ensures
        pattern_table[entry] < patterns_called_for(pattern_table, count),
    decreases count,
{
    if entry < count - 1 {
        lemma_called_for_covers_entries(pattern_table, count - 1, entry);
    }
}

/// The fine-tune setting that the header of the sample `index` gives.
pub open spec fn sample_fine_tune(file_data: Seq<u8>, index: int) -> u8 {
    file_data[20 + 30 * index + 24]
}

/// The module holds nothing that the engine cannot play: its pattern table
/// has no more live entries than it has entries, and the fine-tune setting of
/// every sample is one of the sixteen.
pub open spec fn is_playable_module(file_data: Seq<u8>) -> bool {
    let format = format_of_tag(tag_of(file_data));
    &&& used_patterns(file_data, format) <= 128
    &&& forall|i: int| 0 <= i < format.num_samples ==>
        #[trigger] sample_fine_tune(file_data, i) < 16
}

/// A song that was loaded is well-formed exactly when its module is playable.
pub proof fn lemma_loaded_song_wf(song: &Song, file_data: Seq<u8>)
    requires
        load_error(file_data) is None,
        is_song_of(song, file_data),
    ensures
        song.wf() <==> is_playable_module(file_data),
{
    let format = format_of_tag(tag_of(file_data));
    assert forall|i: int| 0 <= i < format.num_samples implies
        (#[trigger] song.samples@[i]).fine_tune
        == sample_fine_tune(file_data, i) && song.samples@[i].samples@.len()
        == song.samples@[i].size && song.samples@[i].repeat_offset + song.samples@[i].repeat_size
        <= u32::MAX by {
        assert(is_sample_of(&song.samples@[i], file_data, format, i));
        assert(sample_info(file_data, i)[24] == file_data[20 + 30 * i + 24]);
    }
    if is_playable_module(file_data) {
        assert forall|i: int| 0 <= i < song.samples@.len() implies
            (#[trigger] song.samples@[i]).wf() by {
            assert(sample_fine_tune(file_data, i) < 16);
        }
        assert forall|entry: int| 0 <= entry < song.num_used_patterns implies (
        #[trigger] song.pattern_table@[entry]) < song.patterns@.len() by {
            lemma_called_for_covers_entries(
                table_of(file_data, format),
                song.num_used_patterns as int,
                entry,
            );
        }
        assert forall|p: int, line: int, channel: int|
            0 <= p < song.patterns@.len() && 0 <= line < 64 && 0 <= channel
                < song.format.num_channels implies (#[trigger] song.patterns@[p].note(
            line,
            channel,
        )).sample_number <= song.samples@.len() by {}
        assert(song.wf());
    }
    if song.wf() {
        assert forall|i: int| 0 <= i < format.num_samples implies #[trigger] sample_fine_tune(
            file_data,
            i,
        ) < 16 by {
            assert(song.samples@[i].wf());
        }
    }
}

/// Adds up the lengths that the sample headers give.
fn sum_sample_sizes(file_data: &[u8], num_samples: u32) -> (total: u32)
    requires
        num_samples <= 31,
        file_data.len() >= 20 + 30 * num_samples,
    ensures
        total == total_sample_size(file_data@, num_samples as int),
{
    let mut total: u32 = 0;
    let mut index: u32 = 0;
    while index < num_samples
        invariant
            index <= num_samples <= 31,
            file_data.len() >= 20 + 30 * num_samples,
            total == total_sample_size(file_data@, index as int),
            total <= index * 131070,
        decreases num_samples - index,
    {
        let header: usize = 20 + 30 * index as usize;
        let size: u32 = (file_data[header + 23] as u32 + file_data[header + 22] as u32 * 256) * 2;
        total += size;
        index += 1;
    }
    total
}

/// Reads `size` bytes of sample data from `start` on.
fn read_sample_data(file_data: &[u8], start: usize, size: u32) -> (data: Vec<i8>)
    requires
        start + size <= file_data.len(),
    ensures
        data@.len() == size,
        forall|i: int| 0 <= i < size ==> #[trigger] data@[i] == signed_byte(file_data[start + i]),
{
    let mut data: Vec<i8> = Vec::new();
    let mut i: usize = 0;
    while i < size as usize
        invariant
            i <= size,
            start + size <= file_data.len(),
            data@.len() == i,
            forall|k: int| 0 <= k < i ==> #[trigger] data@[k] == signed_byte(file_data[start + k]),
        decreases size - i,
    {
        let byte: u8 = file_data[start + i];
        let value: i8 = if byte < 128 {
            byte as i8
        } else {
            (byte as i16 - 256) as i8
        };
        data.push(value);
        i += 1;
    }
    data
}

/// Reads the samples: each header from its place behind the name, each
/// sample's data from its place at the end of the file.
fn read_samples(file_data: &[u8], format: &FormatDescription, total_size: u32) -> (samples: Vec<
    Sample,
>)
    requires
        format.num_samples <= 31,
        file_data.len() >= 20 + 30 * format.num_samples,
        total_size == total_sample_size(file_data@, format.num_samples as int),
        total_size <= file_data.len(),
    ensures
        samples@.len() == format.num_samples,
        forall|i: int|
            0 <= i < format.num_samples ==> is_sample_of(
                #[trigger] &samples@[i],
                file_data@,
                *format,
                i,
            ),
{
    let mut samples: Vec<Sample> = Vec::new();
    let mut data_start: usize = file_data.len() - total_size as usize;
    let mut index: u32 = 0;
    while index < format.num_samples
        invariant
            index <= format.num_samples <= 31,
            file_data.len() >= 20 + 30 * format.num_samples,
            total_size == total_sample_size(file_data@, format.num_samples as int),
            total_size <= file_data.len(),
            samples@.len() == index,
            data_start == sample_data_offset(file_data@, *format, index as int),
            total_sample_size(file_data@, index as int) <= total_size,
            forall|i: int|
                0 <= i < index ==> is_sample_of(#[trigger] &samples@[i], file_data@, *format, i),
        decreases format.num_samples - index,
    {
        let header: usize = 20 + 30 * index as usize;
        let mut sample = Sample::new(slice_subrange(file_data, header, header + 30));
        proof {
            lemma_sample_sizes_ascend(file_data@, index as int + 1, format.num_samples as int);
            assert(sample_info(file_data@, index as int)[22] == file_data@[header + 22]);
            assert(sample_info(file_data@, index as int)[23] == file_data@[header + 23]);
        }
        sample.samples = read_sample_data(file_data, data_start, sample.size);
        data_start += sample.size as usize;
        samples.push(sample);
        index += 1;
    }
    samples
}

/// The lengths of more samples together are no less than those of fewer.
pub proof fn lemma_sample_sizes_ascend(file_data: Seq<u8>, fewer: int, more: int)
    requires
        0 <= fewer <= more,
    ensures
        0 <= total_sample_size(file_data, fewer) <= total_sample_size(file_data, more),
        total_sample_size(file_data, more) <= more * 131070,
    decreases more,
{
    if more > 0 {
        if fewer < more {
            lemma_sample_sizes_ascend(file_data, fewer, more - 1);
        } else {
            lemma_sample_sizes_ascend(file_data, fewer - 1, more - 1);
        }
    }
}

/// Reads the notes of one line, which start at `start`.
fn read_line(file_data: &[u8], format: &FormatDescription, start: usize) -> (line: Vec<Note>)
    requires
        format.num_channels <= 12,
        start + format.num_channels * 4 <= file_data.len(),
    ensures
        line@.len() == format.num_channels,
        forall|channel: int|
            0 <= channel < format.num_channels ==> #[trigger] line@[channel] == decoded_note(
                file_data@.subrange(start + channel * 4, start + channel * 4 + 4),
                format.num_samples,
            ),
{
    let mut line: Vec<Note> = Vec::new();
    let mut channel: usize = 0;
    while channel < format.num_channels as usize
        invariant
            channel <= format.num_channels <= 12,
            start + format.num_channels * 4 <= file_data.len(),
            line@.len() == channel,
            forall|c: int|
                0 <= c < channel ==> #[trigger] line@[c] == decoded_note(
                    file_data@.subrange(start + c * 4, start + c * 4 + 4),
                    format.num_samples,
                ),
        decreases format.num_channels - channel,
    {
        let at: usize = start + channel * 4;
        let note = Note::new(slice_subrange(file_data, at, at + 4), format);
        line.push(note);
        channel += 1;
    }
    line
}

/// Reads one pattern, which starts at `start`.
fn read_pattern(file_data: &[u8], format: &FormatDescription, start: usize) -> (pattern: Pattern)
    requires
        format.num_channels <= 12,
        start + format.num_channels * 256 <= file_data.len(),
    ensures
        pattern.has_shape(format.num_channels),
        forall|line: int, channel: int|
            0 <= line < 64 && 0 <= channel < format.num_channels ==> #[trigger] pattern.note(
                line,
                channel,
            ) == decoded_note(
                file_data@.subrange(
                    start + (line * format.num_channels + channel) * 4,
                    start + (line * format.num_channels + channel) * 4 + 4,
                ),
                format.num_samples,
            ),
{
    let mut pattern = Pattern::new();
    let width: usize = format.num_channels as usize * 4;
    let mut line: usize = 0;
    while line < 64
        invariant
            line <= 64,
            format.num_channels <= 12,
            width == format.num_channels * 4,
            start + format.num_channels * 256 <= file_data.len(),
            pattern.lines@.len() == 64,
            forall|l: int|
                0 <= l < line ==> (#[trigger] pattern.lines@[l])@.len() == format.num_channels,
            forall|l: int, channel: int|
                0 <= l < line && 0 <= channel < format.num_channels ==> #[trigger] pattern.note(
                    l,
                    channel,
                ) == decoded_note(
                    file_data@.subrange(
                        start + (l * format.num_channels + channel) * 4,
                        start + (l * format.num_channels + channel) * 4 + 4,
                    ),
                    format.num_samples,
                ),
        decreases 64 - line,
    {
        assert(line * width + width <= format.num_channels * 256) by (nonlinear_arith)
            requires
                line < 64,
                width == format.num_channels * 4,
        ;
        let at: usize = start + line * width;
        let notes = read_line(file_data, format, at);
        let ghost before = pattern;
        pattern.lines[line] = notes;
        proof {
            assert(pattern.lines@ == before.lines@.update(line as int, notes));
            assert forall|l: int, channel: int|
                0 <= l < line && 0 <= channel < format.num_channels implies #[trigger] pattern.note(
                l,
                channel,
            ) == before.note(l, channel) by {}
            assert forall|channel: int| 0 <= channel < format.num_channels implies
                #[trigger] pattern.note(
                line as int,
                channel,
            ) == decoded_note(
                file_data@.subrange(
                    start + (line * format.num_channels + channel) * 4,
                    start + (line * format.num_channels + channel) * 4 + 4,
                ),
                format.num_samples,
            ) by {
                assert(at + channel * 4 == start + (line * format.num_channels + channel) * 4)
                    by (nonlinear_arith)
                    requires
                        at == start + line * width,
                        width == format.num_channels * 4,
                ;
            }
        }
        line += 1;
    }
    pattern
}

/// Finds how many patterns the first `count` entries of the pattern table call for.
fn count_patterns_called_for(pattern_table: &Vec<u8>, count: usize) -> (called_for: u32)
    requires
        count <= pattern_table@.len(),
    ensures
        called_for == patterns_called_for(pattern_table@, count as int),
        called_for <= 256,
        forall|entry: int| 0 <= entry < count ==> (#[trigger] pattern_table@[entry]) < called_for,
{
    let mut called_for: u32 = 0;
    let mut entry: usize = 0;
    while entry < count
        invariant
            entry <= count <= pattern_table@.len(),
            called_for == patterns_called_for(pattern_table@, entry as int),
            called_for <= 256,
            forall|e: int| 0 <= e < entry ==> (#[trigger] pattern_table@[e]) < called_for,
        decreases count - entry,
    {
        let needed: u32 = pattern_table[entry] as u32 + 1;
        if needed > called_for {
            called_for = needed;
        }
        entry += 1;
    }
    called_for
}

/// Reads `count` patterns from `start` on.
fn read_patterns(file_data: &[u8], format: &FormatDescription, start: usize, count: usize)
    -> (patterns: Vec<
    Pattern,
>)
    requires
        0 < format.num_channels <= 12,
        start == patterns_offset(*format),
        start + count * pattern_size(*format) <= file_data.len(),
    ensures
        patterns@.len() == count,
        forall|p: int|
            0 <= p < count ==> (#[trigger] patterns@[p]).has_shape(format.num_channels),
        forall|p: int, line: int, channel: int|
            0 <= p < count && 0 <= line < 64 && 0 <= channel < format.num_channels
                ==> #[trigger] patterns@[p].note(line, channel) == decoded_note(
                file_data@.subrange(
                    note_offset(*format, p, line, channel),
                    note_offset(*format, p, line, channel) + 4,
                ),
                format.num_samples,
            ),
{
    let mut patterns: Vec<Pattern> = Vec::new();
    let size: usize = format.num_channels as usize * 256;
    let mut p: usize = 0;
    while p < count
        invariant
            p <= count,
            0 < format.num_channels <= 12,
            size == pattern_size(*format),
            start == patterns_offset(*format),
            start + count * size <= file_data.len(),
            patterns@.len() == p,
            forall|i: int| 0 <= i < p ==> (#[trigger] patterns@[i]).has_shape(format.num_channels),
            forall|i: int, line: int, channel: int|
                0 <= i < p && 0 <= line < 64 && 0 <= channel < format.num_channels
                    ==> #[trigger] patterns@[i].note(line, channel) == decoded_note(
                    file_data@.subrange(
                        note_offset(*format, i, line, channel),
                        note_offset(*format, i, line, channel) + 4,
                    ),
                    format.num_samples,
                ),
        decreases count - p,
    {
        assert(p * size + size <= count * size) by (nonlinear_arith)
            requires
                p < count,
        ;
        let at: usize = start + p * size;
        let pattern = read_pattern(file_data, format, at);
        proof {
            assert forall|line: int, channel: int|
                0 <= line < 64 && 0 <= channel < format.num_channels implies
                    #[trigger] pattern.note(
                line,
                channel,
            ) == decoded_note(
                file_data@.subrange(
                    note_offset(*format, p as int, line, channel),
                    note_offset(*format, p as int, line, channel) + 4,
                ),
                format.num_samples,
            ) by {
                assert(start + ((p * 64 + line) * format.num_channels + channel) * 4 == at + (line
                    * format.num_channels + channel) * 4) by (nonlinear_arith)
                    requires
                        at == start + p * size,
                        size == format.num_channels * 256,
                ;
            }
        }
        patterns.push(pattern);
        p += 1;
    }
    patterns
}

/// Reads a module from the bytes of its file, and returns a song structure
/// ready for playing.
pub fn read_mod_file_slice(file_data: &[u8]) -> (loaded: Result<Song, LoadError>)
    ensures
        match loaded {
            Ok(song) => load_error(file_data@) is None && is_song_of(&song, file_data@) && (
            song.wf() <==> is_playable_module(file_data@)),
            Err(error) => load_error(file_data@) == Some(error),
        },
{
    let format = match get_format(file_data) {
        Ok(format) => format,
        Err(error) => {
            return Err(error);
        },
    };
    let name = latin1_string(file_data, 0, 20);
    let table_at: usize = 20 + 30 * format.num_samples as usize + 2;
    let num_used_patterns: u8 = file_data[table_at - 2];
    let end_position: u8 = file_data[table_at - 1];
    let pattern_table: Vec<u8> = slice_to_vec(slice_subrange(file_data, table_at, table_at + 128));
    let patterns_at: usize = if format.has_tag {
        table_at + 128 + 4
    } else {
        table_at + 128
    };
    let total_sample_size = sum_sample_sizes(file_data, format.num_samples);
    proof {
        lemma_sample_sizes_ascend(file_data@, 0, format.num_samples as int);
    }
    if file_data.len() - patterns_at < total_sample_size as usize {
        return Err(LoadError::Io);
    }
    let total_pattern_size: usize = file_data.len() - patterns_at - total_sample_size as usize;
    let single_pattern_size: usize = format.num_channels as usize * 4 * 64;
    if total_pattern_size % single_pattern_size != 0 {
        return Err(LoadError::PatternSpaceMismatch);
    }
    let mut num_patterns: usize = total_pattern_size / single_pattern_size;
    assert(num_patterns * single_pattern_size <= total_pattern_size) by (nonlinear_arith)
        requires
            single_pattern_size > 0,
            num_patterns == total_pattern_size / single_pattern_size,
    ;
    let ghost held = num_patterns;
    let live: usize = if num_used_patterns > 128 {
        128
    } else {
        num_used_patterns as usize
    };
    let min_pattern_required = count_patterns_called_for(&pattern_table, live);
    if min_pattern_required as usize > num_patterns {
        num_patterns = min_pattern_required as usize;
    }
    assert(num_patterns == pattern_count(file_data@, format));
    assert(num_patterns * single_pattern_size <= usize::MAX) by (nonlinear_arith)
        requires
            num_patterns <= 256 || num_patterns == held,
            held * single_pattern_size <= total_pattern_size,
            single_pattern_size <= 3072,
            total_pattern_size <= usize::MAX,
            usize::MAX >= 0xffff_ffff,
    ;
    if file_data.len() - patterns_at < num_patterns * single_pattern_size {
        return Err(LoadError::Io);
    }
    let patterns = read_patterns(file_data, &format, patterns_at, num_patterns);
    let samples = read_samples(file_data, &format, total_sample_size);
    let has_standard_notes = has_standard_notes_only(&patterns, &pattern_table);
    let song = Song {
        name,
        format,
        samples,
        patterns,
        pattern_table,
        num_used_patterns: num_used_patterns as u32,
        end_position: end_position as u32,
        has_standard_notes,
    };
    proof {
        lemma_loaded_song_wf(&song, file_data@);
    }
    Ok(song)
}

} // verus!
