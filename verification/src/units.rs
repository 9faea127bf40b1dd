//! The symbol encoder: abstract timing units and their timed pin levels.

use vstd::prelude::*;

verus! {

/// One abstract timing event of the blink pattern: a dot pulse, a dash pulse,
/// or one of the three gap widths between pulses, letters and words.
#[derive(Clone, Copy, Debug, PartialEq, Eq, Structural)]
pub enum TimingUnit {
    Short,
    Long,
    UnitGap,
    LetterGap,
    WordGap,
}

/// The electrical state to hold (`true` is driven high) and for how many
/// abstract clock ticks to hold it.
#[derive(Clone, Copy, Debug, PartialEq, Eq, Structural)]
pub struct TimedLevel {
    pub level: bool,
    pub duration: u8,
}

/// Ticks of a dot pulse and of the gap inside one symbol: one unit.
pub const SHORT_TICKS: u8 = 4;

/// Ticks of a dash pulse and of the gap between letters: three units.
pub const LONG_TICKS: u8 = 12;

/// Ticks of the gap between words: seven units.
pub const WORD_GAP_TICKS: u8 = 28;

/// The (level, ticks) pair that one timing unit stands for. Pulses drive the
/// pin high, gaps drive it low; the durations follow the 1:3:7 Morse ratios.
pub open spec fn encode_spec(u: TimingUnit) -> (bool, u8) {
    match u {
        TimingUnit::Short => (true, SHORT_TICKS),
        TimingUnit::Long => (true, LONG_TICKS),
        TimingUnit::UnitGap => (false, SHORT_TICKS),
        TimingUnit::LetterGap => (false, LONG_TICKS),
        TimingUnit::WordGap => (false, WORD_GAP_TICKS),
    }
}

/// Maps one timing unit to its timed pin level. Total over the enumeration,
/// pure, and the only place the timing constants are chosen.
pub fn encode(u: TimingUnit) -> (r: TimedLevel)
    ensures
        r.level == encode_spec(u).0,
        r.duration == encode_spec(u).1,
{
    match u {
        TimingUnit::Short => TimedLevel { level: true, duration: SHORT_TICKS },
        TimingUnit::Long => TimedLevel { level: true, duration: LONG_TICKS },
        TimingUnit::UnitGap => TimedLevel { level: false, duration: SHORT_TICKS },
        TimingUnit::LetterGap => TimedLevel { level: false, duration: LONG_TICKS },
        TimingUnit::WordGap => TimedLevel { level: false, duration: WORD_GAP_TICKS },
    }
}

/// The built-in distress pattern: three short pulses, three long pulses,
/// three short pulses, with unit gaps inside a letter, a letter gap between
/// the S and the O, and a word gap before the final S.
pub open spec fn sos_units() -> Seq<TimingUnit> {
    seq![
        TimingUnit::Short,
        TimingUnit::UnitGap,
        TimingUnit::Short,
        TimingUnit::UnitGap,
        TimingUnit::Short,
        TimingUnit::LetterGap,
        TimingUnit::Long,
        TimingUnit::UnitGap,
        TimingUnit::Long,
        TimingUnit::UnitGap,
        TimingUnit::Long,
        TimingUnit::WordGap,
        TimingUnit::Short,
        TimingUnit::UnitGap,
        TimingUnit::Short,
        TimingUnit::UnitGap,
        TimingUnit::Short,
    ]
}

/// Builds the fixed message this blinker repeats: the distress pattern above.
pub fn sos_message() -> (r: Vec<TimingUnit>)
    ensures
        r@ == sos_units(),
{
    let mut v: Vec<TimingUnit> = Vec::new();
    v.push(TimingUnit::Short);
    v.push(TimingUnit::UnitGap);
    v.push(TimingUnit::Short);
    v.push(TimingUnit::UnitGap);
    v.push(TimingUnit::Short);
    v.push(TimingUnit::LetterGap);
    v.push(TimingUnit::Long);
    v.push(TimingUnit::UnitGap);
    v.push(TimingUnit::Long);
    v.push(TimingUnit::UnitGap);
    v.push(TimingUnit::Long);
    v.push(TimingUnit::WordGap);
    v.push(TimingUnit::Short);
    v.push(TimingUnit::UnitGap);
    v.push(TimingUnit::Short);
    v.push(TimingUnit::UnitGap);
    v.push(TimingUnit::Short);
    proof {
        assert(v@ =~= sos_units());
    }
    v
}

/// Every duration the encoder can produce fits a single co-processor
/// instruction, so no unit ever needs to be split across instructions.
pub proof fn lemma_encoded_duration_fits(u: TimingUnit)
    ensures
        1 <= encode_spec(u).1 < 32,
{
}

} // verus!
