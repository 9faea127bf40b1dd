use morse_blink::assembly::{assemble, simulate, Instr, StartupError};
use morse_blink::units::{encode, sos_message, TimingUnit};

fn level_of(ins: &Instr) -> bool {
    match ins {
        Instr::SetLevel { level, .. } => *level,
        Instr::SetDirOut => panic!("not a level instruction"),
    }
}

fn duration_of(ins: &Instr) -> u8 {
    match ins {
        Instr::SetLevel { duration, .. } => *duration,
        Instr::SetDirOut => panic!("not a level instruction"),
    }
}

#[test]
fn empty_message_is_rejected() {
    let msg: Vec<TimingUnit> = Vec::new();
    assert_eq!(assemble(&msg), Err(StartupError::EmptyProgram));
}

#[test]
fn oversized_message_is_rejected() {
    let msg = vec![TimingUnit::Short; 32];
    assert_eq!(assemble(&msg), Err(StartupError::AssemblyOverflow));
}

#[test]
fn largest_message_still_fits() {
    let msg = vec![TimingUnit::Short; 31];
    let s = assemble(&msg).unwrap();
    assert_eq!(s.instrs.len(), 32);
    assert_eq!(s.loop_start, 1);
    assert_eq!(s.loop_end, 31);
}

#[test]
fn count_is_message_length_plus_prologue() {
    let msg = vec![TimingUnit::Short, TimingUnit::UnitGap, TimingUnit::Long];
    let s = assemble(&msg).unwrap();
    assert_eq!(s.instrs.len(), 1 + msg.len());
    assert_eq!(s.instrs[0], Instr::SetDirOut);
    assert_eq!(s.loop_start, 1);
    assert_eq!(s.loop_end, msg.len());
    for (i, unit) in msg.iter().enumerate() {
        let t = encode(*unit);
        assert_eq!(s.instrs[1 + i], Instr::SetLevel { level: t.level, duration: t.duration });
    }
}

#[test]
fn assembling_twice_gives_identical_sequences() {
    let s1 = assemble(&sos_message()).unwrap();
    let s2 = assemble(&sos_message()).unwrap();
    assert_eq!(s1.instrs, s2.instrs);
    assert_eq!(s1.loop_start, s2.loop_start);
    assert_eq!(s1.loop_end, s2.loop_end);
}

#[test]
fn sos_assembles_to_the_expected_pattern() {
    let s = assemble(&sos_message()).unwrap();
    assert_eq!(s.instrs.len(), 18);
    assert_eq!(s.instrs[0], Instr::SetDirOut);
    let expected_durations = [4, 4, 4, 4, 4, 12, 12, 4, 12, 4, 12, 28, 4, 4, 4, 4, 4];
    for (i, d) in expected_durations.iter().enumerate() {
        assert_eq!(duration_of(&s.instrs[1 + i]), *d);
    }
    // The level sequence alternates strictly, starting and ending on a pulse.
    assert_eq!(level_of(&s.instrs[1]), true);
    assert_eq!(level_of(&s.instrs[17]), true);
    for i in 1..17 {
        assert_ne!(level_of(&s.instrs[i]), level_of(&s.instrs[i + 1]));
    }
}

#[test]
fn loop_wraps_with_no_gap_and_no_duplicate() {
    let msg = sos_message();
    let s = assemble(&msg).unwrap();
    let steps = 3 * msg.len() + 1;
    let run = simulate(&s, steps);
    assert_eq!(run.len(), steps);
    // One full period equals the message's level instructions in order.
    for (i, unit) in msg.iter().enumerate() {
        let t = encode(*unit);
        assert_eq!(run[i], Instr::SetLevel { level: t.level, duration: t.duration });
    }
    // Later periods repeat the first one exactly.
    for k in 0..steps - msg.len() {
        assert_eq!(run[k + msg.len()], run[k]);
    }
}
