use morse_blink::assembly::StartupError;
use morse_blink::emitter::build_program;
use morse_blink::units::{sos_message, TimingUnit};

#[test]
fn program_rejects_empty_message() {
    let msg: Vec<TimingUnit> = Vec::new();
    assert_eq!(build_program(&msg).err(), Some(StartupError::EmptyProgram));
}

#[test]
fn program_rejects_oversized_message() {
    let msg = vec![TimingUnit::UnitGap; 40];
    assert_eq!(build_program(&msg).err(), Some(StartupError::AssemblyOverflow));
}

#[test]
fn sos_program_encodes_the_documented_words() {
    let p = build_program(&sos_message()).unwrap();
    // SET instruction word: 0b111 in the top three bits, the delay in bits
    // 12..8, the destination in bits 7..5 and the data in bits 4..0.
    let expected: [u16; 18] = [
        0xE081, // set pindirs, 1 (the one-time prologue)
        0xE401, // set pins, 1 [4]
        0xE400, // set pins, 0 [4]
        0xE401, // set pins, 1 [4]
        0xE400, // set pins, 0 [4]
        0xE401, // set pins, 1 [4]
        0xEC00, // set pins, 0 [12]
        0xEC01, // set pins, 1 [12]
        0xE400, // set pins, 0 [4]
        0xEC01, // set pins, 1 [12]
        0xE400, // set pins, 0 [4]
        0xEC01, // set pins, 1 [12]
        0xFC00, // set pins, 0 [28]
        0xE401, // set pins, 1 [4]
        0xE400, // set pins, 0 [4]
        0xE401, // set pins, 1 [4]
        0xE400, // set pins, 0 [4]
        0xE401, // set pins, 1 [4]
    ];
    assert_eq!(p.code.len(), expected.len());
    for (i, w) in expected.iter().enumerate() {
        assert_eq!(p.code[i], *w, "word {i}");
    }
    // The wrap region covers exactly the message-derived instructions.
    assert_eq!(p.wrap.target, 1);
    assert_eq!(p.wrap.source, 17);
}

#[test]
fn building_twice_gives_identical_programs() {
    let p1 = build_program(&sos_message()).unwrap();
    let p2 = build_program(&sos_message()).unwrap();
    assert_eq!(p1.code, p2.code);
    assert_eq!(p1.wrap.source, p2.wrap.source);
    assert_eq!(p1.wrap.target, p2.wrap.target);
}

#[test]
fn single_unit_program() {
    let msg = vec![TimingUnit::Long];
    let p = build_program(&msg).unwrap();
    assert_eq!(p.code.len(), 2);
    assert_eq!(p.code[0], 0xE081);
    assert_eq!(p.code[1], 0xEC01);
    assert_eq!(p.wrap.target, 1);
    assert_eq!(p.wrap.source, 1);
}
