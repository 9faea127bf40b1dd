use morse_blink::units::{encode, TimingUnit};

#[test]
fn encode_short_is_high_four_ticks() {
    let t = encode(TimingUnit::Short);
    assert_eq!(t.level, true);
    assert_eq!(t.duration, 4);
}

#[test]
fn encode_long_is_high_twelve_ticks() {
    let t = encode(TimingUnit::Long);
    assert_eq!(t.level, true);
    assert_eq!(t.duration, 12);
}

#[test]
fn encode_unit_gap_is_low_four_ticks() {
    let t = encode(TimingUnit::UnitGap);
    assert_eq!(t.level, false);
    assert_eq!(t.duration, 4);
}

#[test]
fn encode_letter_gap_is_low_twelve_ticks() {
    let t = encode(TimingUnit::LetterGap);
    assert_eq!(t.level, false);
    assert_eq!(t.duration, 12);
}

#[test]
fn encode_word_gap_is_low_twenty_eight_ticks() {
    let t = encode(TimingUnit::WordGap);
    assert_eq!(t.level, false);
    assert_eq!(t.duration, 28);
}
