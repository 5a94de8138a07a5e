use mod_player::pitch::{
    change_note, find_period, find_period_rank, fine_tune_period, is_standard_note_period,
};
use mod_player::tables::{FINE_TUNE_TABLE, FREQUENCY_TABLE, SCALE_FINE_TUNE, VIBRATO_TABLE};

#[test]
fn slides_stay_between_113_and_856() {
    assert_eq!(change_note(428, 10), 438);
    assert_eq!(change_note(428, -10), 418);
    assert_eq!(change_note(850, 10), 856);
    assert_eq!(change_note(856, 1), 856);
    assert_eq!(change_note(115, -10), 113);
    assert_eq!(change_note(113, -1), 113);
    assert_eq!(change_note(0, 0), 113);
    assert_eq!(change_note(0, -255), 113);
    assert_eq!(change_note(4000, -255), 856);
    assert_eq!(change_note(u32::MAX, i32::MIN), 856);
    assert_eq!(change_note(113, 743), 856);
}

#[test]
fn table_tuning_reads_the_fine_tune_table() {
    assert_eq!(fine_tune_period(428, 0, true), 428);
    assert_eq!(fine_tune_period(428, 1, true), 425);
    assert_eq!(fine_tune_period(428, 7, true), 407);
    assert_eq!(fine_tune_period(428, 8, true), 453);
    assert_eq!(fine_tune_period(428, 15, true), 431);
    assert_eq!(fine_tune_period(856, 8, true), 907);
    assert_eq!(fine_tune_period(113, 7, true), 108);
    assert_eq!(fine_tune_period(57, 0, true), 57);
    assert_eq!(fine_tune_period(1712, 0, true), 1712);
    for index in 0..60 {
        assert_eq!(fine_tune_period(FREQUENCY_TABLE[index], 0, true), FREQUENCY_TABLE[index]);
        for fine_tune in 0..16 {
            assert_eq!(
                fine_tune_period(FREQUENCY_TABLE[index], fine_tune as u32, true),
                FINE_TUNE_TABLE[fine_tune][index]
            );
        }
    }
}

#[test]
fn linear_tuning_scales_and_rounds_down() {
    assert_eq!(fine_tune_period(428, 0, false), 428);
    assert_eq!(fine_tune_period(430, 0, false), 430);
    assert_eq!(fine_tune_period(1000, 1, false), 992);
    assert_eq!(fine_tune_period(1000, 8, false), 1059);
    assert_eq!(fine_tune_period(1000, 15, false), 1007);
    assert_eq!(fine_tune_period(0, 3, false), 0);
    assert_eq!(fine_tune_period(4095, 8, false), 4338);
    assert_eq!(fine_tune_period(u32::MAX, 0, false), u32::MAX);
    assert_eq!(fine_tune_period(u32::MAX, 8, false), u32::MAX);
    assert_eq!(SCALE_FINE_TUNE[0], 65536);
}

#[test]
fn standard_periods_are_zero_and_the_table() {
    assert!(is_standard_note_period(0));
    assert!(is_standard_note_period(428));
    assert!(is_standard_note_period(57));
    assert!(is_standard_note_period(1712));
    assert!(!is_standard_note_period(429));
    assert!(!is_standard_note_period(1));
    assert!(!is_standard_note_period(56));
    assert!(!is_standard_note_period(1713));
    assert!(!is_standard_note_period(u32::MAX));
}

#[test]
fn the_table_is_searched_by_bisection() {
    for index in 0..60 {
        assert_eq!(find_period(FREQUENCY_TABLE[index]), Some(index));
        assert_eq!(find_period_rank(FREQUENCY_TABLE[index]), index);
        assert_eq!(find_period_rank(FREQUENCY_TABLE[index] + 1), index + 1);
        assert_eq!(find_period(FREQUENCY_TABLE[index] + 1), None);
    }
    assert_eq!(find_period(0), None);
    assert_eq!(find_period_rank(0), 0);
    assert_eq!(find_period_rank(u32::MAX), 60);
    assert_eq!(find_period(428), Some(35));
}

#[test]
fn the_tables_have_their_shape() {
    for index in 1..60 {
        assert!(FREQUENCY_TABLE[index - 1] < FREQUENCY_TABLE[index]);
    }
    assert_eq!(VIBRATO_TABLE[0], 0);
    assert_eq!(VIBRATO_TABLE[16], 255);
    assert_eq!(VIBRATO_TABLE[32], 0);
    assert_eq!(VIBRATO_TABLE[48], -255);
    for pos in 0..32 {
        assert_eq!(VIBRATO_TABLE[pos], -VIBRATO_TABLE[pos + 32]);
    }
}
