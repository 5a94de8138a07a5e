use mod_player::{Effect, LoadError};

fn decoded(number: u8, argument: u8) -> Effect {
    Effect::new(number, argument as i8).unwrap()
}

#[test]
fn every_effect_number_decodes_to_its_variant() {
    assert_eq!(decoded(0, 0x00), Effect::NoEffect);
    assert_eq!(decoded(0, 0x37), Effect::Arpeggio { chord_offset_1: 3, chord_offset_2: 7 });
    assert_eq!(decoded(1, 0x20), Effect::SlideUp { speed: 0x20 });
    assert_eq!(decoded(2, 0xff), Effect::SlideDown { speed: 0xff });
    assert_eq!(decoded(3, 0x08), Effect::TonePortamento { speed: 8 });
    assert_eq!(decoded(4, 0x84), Effect::Vibrato { speed: 8, amplitude: 4 });
    assert_eq!(decoded(7, 0xf1), Effect::Tremolo { speed: 15, amplitude: 1 });
    assert_eq!(decoded(8, 0x80), Effect::Pan { position: 0x80 });
    assert_eq!(decoded(9, 0x12), Effect::SetSampleOffset { offset: 0x12 });
    assert_eq!(decoded(11, 0x05), Effect::PositionJump { next_pattern: 5 });
    assert_eq!(decoded(12, 0x40), Effect::SetVolume { volume: 64 });
    assert_eq!(decoded(13, 0x16), Effect::PatternBreak { next_pattern_pos: 16 });
    assert_eq!(decoded(13, 0x63), Effect::PatternBreak { next_pattern_pos: 63 });
    assert_eq!(decoded(15, 0x1f), Effect::SetSpeed { speed: 31 });
    assert_eq!(decoded(15, 0x7d), Effect::SetSpeed { speed: 125 });
}

#[test]
fn volume_slides_go_up_by_the_high_nibble_and_down_by_the_low() {
    assert_eq!(decoded(10, 0xf0), Effect::VolumeSlide { volume_change: 15 });
    assert_eq!(decoded(10, 0x80), Effect::VolumeSlide { volume_change: 8 });
    assert_eq!(decoded(10, 0x10), Effect::VolumeSlide { volume_change: 1 });
    assert_eq!(decoded(10, 0x0f), Effect::VolumeSlide { volume_change: -15 });
    assert_eq!(decoded(10, 0x00), Effect::VolumeSlide { volume_change: 0 });
    assert_eq!(decoded(10, 0x34), Effect::VolumeSlide { volume_change: 3 });
    assert_eq!(decoded(5, 0x20), Effect::TonePortamentoVolumeSlide { volume_change: 2 });
    assert_eq!(decoded(5, 0x02), Effect::TonePortamentoVolumeSlide { volume_change: -2 });
    assert_eq!(decoded(6, 0xa0), Effect::VibratoVolumeSlide { volume_change: 10 });
    assert_eq!(decoded(6, 0x0a), Effect::VibratoVolumeSlide { volume_change: -10 });
}

#[test]
fn every_extended_effect_number_decodes_to_its_variant() {
    assert_eq!(decoded(14, 0x01), Effect::SetHardwareFilter { new_state: 1 });
    assert_eq!(decoded(14, 0x13), Effect::FinePortaUp { period_change: 3 });
    assert_eq!(decoded(14, 0x2f), Effect::FinePortaDown { period_change: 15 });
    assert_eq!(decoded(14, 0x30), Effect::Glissando { use_smooth_slide: false });
    assert_eq!(decoded(14, 0x31), Effect::Glissando { use_smooth_slide: true });
    assert_eq!(decoded(14, 0x42), Effect::SetVibratoWave { wave: 2 });
    assert_eq!(decoded(14, 0x5c), Effect::SetFineTune { fine_tune: 12 });
    assert_eq!(decoded(14, 0x63), Effect::PatternLoop { arg: 3 });
    assert_eq!(decoded(14, 0x71), Effect::TremoloWaveform { wave: 1 });
    assert_eq!(decoded(14, 0x88), Effect::CoarsePan { pan_pos: 8 });
    assert_eq!(decoded(14, 0x93), Effect::RetriggerSample { retrigger_delay: 3 });
    assert_eq!(decoded(14, 0xa4), Effect::FineVolumeSlideUp { volume_change: 4 });
    assert_eq!(decoded(14, 0xb4), Effect::FineVolumeSlideDown { volume_change: 4 });
    assert_eq!(decoded(14, 0xc2), Effect::CutNote { delay: 2 });
    assert_eq!(decoded(14, 0xd1), Effect::DelayedSample { delay_ticks: 1 });
    assert_eq!(decoded(14, 0xe5), Effect::DelayedLine { delay_ticks: 5 });
    assert_eq!(decoded(14, 0xf7), Effect::InvertLoop { loop_position: 7 });
    assert_eq!(Effect::new_extended(9, 3), Ok(Effect::RetriggerSample { retrigger_delay: 3 }));
}

#[test]
fn effect_numbers_above_fifteen_are_unknown() {
    assert_eq!(Effect::new(16, 0), Err(LoadError::UnknownEffect(16)));
    assert_eq!(Effect::new(255, 0x12), Err(LoadError::UnknownEffect(255)));
    assert_eq!(Effect::new_extended(16, 0), Err(LoadError::UnknownExtendedEffect(16)));
    assert_eq!(Effect::new_extended(200, 1), Err(LoadError::UnknownExtendedEffect(200)));
}

#[test]
fn effects_print_in_ten_characters() {
    assert_eq!(Effect::NoEffect.to_string(), "..........");
    assert_eq!(
        Effect::Arpeggio { chord_offset_1: 3, chord_offset_2: 7 }.to_string(),
        "Arpgi 0307"
    );
    assert_eq!(
        Effect::Arpeggio { chord_offset_1: 12, chord_offset_2: 15 }.to_string(),
        "Arpgi 1215"
    );
    assert_eq!(Effect::SlideUp { speed: 5 }.to_string(), "SldUp    5");
    assert_eq!(Effect::SlideDown { speed: 255 }.to_string(), "SldDn  255");
    assert_eq!(Effect::TonePortamento { speed: 16 }.to_string(), "TonPo   16");
    assert_eq!(Effect::Vibrato { speed: 8, amplitude: 4 }.to_string(), "Vibra 0804");
    assert_eq!(Effect::Tremolo { speed: 0, amplitude: 0 }.to_string(), "Trmlo 0000");
    assert_eq!(Effect::VolumeSlide { volume_change: -3 }.to_string(), "VolSl   -3");
    assert_eq!(Effect::VolumeSlide { volume_change: 15 }.to_string(), "VolSl   15");
    assert_eq!(
        Effect::TonePortamentoVolumeSlide { volume_change: -15 }.to_string(),
        "TPVos  -15"
    );
    assert_eq!(Effect::VibratoVolumeSlide { volume_change: -128 }.to_string(), "ViVoS -128");
    assert_eq!(Effect::SetVolume { volume: 64 }.to_string(), "Volme   64");
    assert_eq!(Effect::PatternBreak { next_pattern_pos: 16 }.to_string(), "Break   16");
    assert_eq!(Effect::PositionJump { next_pattern: 0 }.to_string(), "Jump     0");
    assert_eq!(Effect::SetSpeed { speed: 125 }.to_string(), "Speed  125");
    assert_eq!(Effect::SetSampleOffset { offset: 9 }.to_string(), "Offst    9");
    assert_eq!(Effect::Pan { position: 12 }.to_string(), "Pan      12.");
    assert_eq!(Effect::Glissando { use_smooth_slide: true }.to_string(), "Glsnd true");
    assert_eq!(Effect::Glissando { use_smooth_slide: false }.to_string(), "Glsnd false");
    assert_eq!(Effect::PatternLoop { arg: 3 }.to_string(), "PtnLp    3");
    assert_eq!(Effect::CutNote { delay: 2 }.to_string(), "CutNt    2");
    assert_eq!(Effect::DelayedLine { delay_ticks: 5 }.to_string(), "DlyLn    5");
    assert_eq!(Effect::DelayedSample { delay_ticks: 1 }.to_string(), "DlySm    1");
    assert_eq!(Effect::RetriggerSample { retrigger_delay: 3 }.to_string(), "ReTrg    3");
    assert_eq!(Effect::FineVolumeSlideUp { volume_change: 4 }.to_string(), "FVSUp    4");
    assert_eq!(Effect::FineVolumeSlideDown { volume_change: 4 }.to_string(), "FVSDn    4");
    assert_eq!(Effect::FinePortaUp { period_change: 3 }.to_string(), "FPoUp    3");
    assert_eq!(Effect::FinePortaDown { period_change: 3 }.to_string(), "FPoDn    3");
    assert_eq!(Effect::SetHardwareFilter { new_state: 1 }.to_string(), "StHwF    1");
    assert_eq!(Effect::TremoloWaveform { wave: 1 }.to_string(), "TrmWv    1");
    assert_eq!(Effect::CoarsePan { pan_pos: 8 }.to_string(), "CrPan    8");
    assert_eq!(Effect::InvertLoop { loop_position: 7 }.to_string(), "InvLp    7");
    assert_eq!(Effect::SetVibratoWave { wave: 2 }.to_string(), "VibWv    2");
    assert_eq!(Effect::SetFineTune { fine_tune: 12 }.to_string(), "FnTne   12");
}
