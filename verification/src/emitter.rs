//! Lowers an assembled message to co-processor bytecode through the `pio`
//! crate's assembler, behind trusted declarations of that crate's types.
//!
//! The model of a `pio::Assembler` or `pio::Program` is one entry per held
//! instruction, as the triple `(destination, data, delay)` of a SET
//! instruction that carries no side-set; an instruction of any other shape is
//! collapsed to the fixed triple `(3, 0, 0)`, a value no SET instruction can
//! produce, since destination 3 is reserved. A label's position is its bound
//! offset once bound, `-1` while it is fresh (unbound, referenced by no
//! instruction), and `-2` in any other state.

use vstd::prelude::*;

use crate::assembly::{assembled_instrs, level_instr, Instr, StartupError, MAX_PROGRAM_LEN};
use crate::units::{encode, TimingUnit};

verus! {

/// SET destination code for the pin output levels.
pub const SET_DEST_PINS: u8 = 0;

/// SET destination code for the pin direction register.
pub const SET_DEST_PINDIRS: u8 = 4;

#[verifier::external_type_specification]
#[verifier::external_body]
pub struct ExAssembler<const PROGRAM_SIZE: usize>(pio::Assembler<PROGRAM_SIZE>);

#[verifier::external_type_specification]
#[verifier::external_body]
pub struct ExLabel(pio::Label);

#[verifier::external_type_specification]
#[verifier::external_body]
pub struct ExProgram<const PROGRAM_SIZE: usize>(pio::Program<PROGRAM_SIZE>);

/// The instructions an assembler holds, as model entries in emission order.
pub uninterp spec fn asm_entries(a: pio::Assembler<32>) -> Seq<(u8, u8, u8)>;

/// Whether an assembler was created with the default side-set configuration:
/// zero side-set bits, not optional, so a delay may use all five bits.
pub uninterp spec fn asm_plain(a: pio::Assembler<32>) -> bool;

/// The position of a label: its bound offset, or a negative state marker.
pub uninterp spec fn label_pos(l: pio::Label) -> int;

/// The instructions a finished program encodes, as model entries.
pub uninterp spec fn prog_entries(p: pio::Program<32>) -> Seq<(u8, u8, u8)>;

/// The program's wrap markers, as (source, target): execution runs up to and
/// including the instruction at `source`, then wraps back to `target`.
pub uninterp spec fn prog_wrap(p: pio::Program<32>) -> (int, int);

/// A model entry the emitter may hand to the encoder: a SET on the pins or on
/// the pin directions, with data and delay inside their five-bit fields.
pub open spec fn set_entry_wf(e: (u8, u8, u8)) -> bool {
    (e.0 == SET_DEST_PINS || e.0 == SET_DEST_PINDIRS) && e.1 < 32 && e.2 < 32
}

/// Relies on pio::Assembler::new: a fresh assembler holds no instructions and
/// the default side-set configuration.
#[verifier::external_body]
fn asm_new() -> (r: pio::Assembler<32>)
    ensures
        asm_entries(r) == Seq::<(u8, u8, u8)>::empty(),
        asm_plain(r),
{
    pio::Assembler::new()
}

/// Relies on pio::Assembler::label: returns a fresh unbound label and leaves
/// the assembler untouched. The label must be bound before it is dropped;
/// pio::Label's Drop panics on an unbound label.
#[verifier::external_body]
fn asm_label(a: &mut pio::Assembler<32>) -> (r: pio::Label)
    ensures
        asm_entries(*final(a)) == asm_entries(*old(a)),
        asm_plain(*final(a)) == asm_plain(*old(a)),
        label_pos(r) == -1,
{
    a.label()
}

/// Relies on pio::Assembler::bind: binds a fresh label to the index of the
/// next instruction; a fresh label has no pending references, so the held
/// instructions are untouched.
#[verifier::external_body]
fn asm_bind(a: &mut pio::Assembler<32>, l: &mut pio::Label)
    requires
        label_pos(*old(l)) == -1,
    ensures
        asm_entries(*final(a)) == asm_entries(*old(a)),
        asm_plain(*final(a)) == asm_plain(*old(a)),
        label_pos(*final(l)) == asm_entries(*old(a)).len(),
{
    a.bind(l)
}

/// Relies on pio::Assembler::set with SetDestination::PINDIRS: appends one
/// SET instruction with zero delay and no side-set that writes `data` to the
/// pin directions. The assembler's backing store holds 32 instructions.
#[verifier::external_body]
fn asm_set_pindirs(a: &mut pio::Assembler<32>, data: u8)
    requires
        asm_entries(*old(a)).len() < 32,
        data < 32,
    ensures
        asm_entries(*final(a)) == asm_entries(*old(a)).push((SET_DEST_PINDIRS, data, 0u8)),
        asm_plain(*final(a)) == asm_plain(*old(a)),
{
    a.set(pio::SetDestination::PINDIRS, data)
}

/// Relies on pio::Assembler::set_with_delay with SetDestination::PINS:
/// appends one SET instruction with no side-set that writes `data` to the
/// pins and then holds for `delay` ticks.
#[verifier::external_body]
fn asm_set_pins_with_delay(a: &mut pio::Assembler<32>, data: u8, delay: u8)
    requires
        asm_entries(*old(a)).len() < 32,
        data < 32,
        delay < 32,
    ensures
        asm_entries(*final(a)) == asm_entries(*old(a)).push((SET_DEST_PINS, data, delay)),
        asm_plain(*final(a)) == asm_plain(*old(a)),
{
    a.set_with_delay(pio::SetDestination::PINS, data, delay)
}

/// Relies on pio::Assembler::assemble_with_wrap: encodes the held
/// instructions, in order and one word each, and records the wrap markers as
/// (source label position - 1, target label position). The bounds keep every
/// encoding step and the wrap check inside that call panic-free.
#[verifier::external_body]
fn asm_assemble_with_wrap(a: pio::Assembler<32>, source: pio::Label, target: pio::Label) -> (r:
    pio::Program<32>)
    requires
        asm_plain(a),
        1 <= label_pos(source) <= asm_entries(a).len(),
        0 <= label_pos(target) < asm_entries(a).len(),
        forall|i: int| 0 <= i < asm_entries(a).len() ==> set_entry_wf(#[trigger] asm_entries(a)[i]),
    ensures
        prog_entries(r) == asm_entries(a),
        prog_wrap(r) == (label_pos(source) - 1, label_pos(target)),
{
    a.assemble_with_wrap(source, target)
}

/// The model entry that one library instruction is emitted as: a direction-set
/// writes 1 to the pin directions with no delay; a level instruction writes
/// the level to the pins and holds for its duration.
pub open spec fn instr_entry(ins: Instr) -> (u8, u8, u8) {
    match ins {
        Instr::SetDirOut => (SET_DEST_PINDIRS, 1u8, 0u8),
        Instr::SetLevel { level, duration } => (
            SET_DEST_PINS,
            if level {
                1u8
            } else {
                0u8
            },
            duration,
        ),
    }
}

/// The model entries of a whole instruction list, in order.
pub open spec fn entries_of(instrs: Seq<Instr>) -> Seq<(u8, u8, u8)> {
    Seq::new(instrs.len(), |i: int| instr_entry(instrs[i]))
}

/// Builds the finished co-processor program for a message, ready for a
/// hardware loader: the same instructions that `assemble` produces, emitted
/// through the pio assembler, with the wrap markers set so that execution
/// repeats exactly the message-derived instructions. Rejects the same
/// messages that `assemble` rejects, with the same errors.
pub fn build_program(msg: &Vec<TimingUnit>) -> (r: Result<pio::Program<32>, StartupError>)
    ensures
        msg@.len() == 0 ==> (r matches Err(e) && e == StartupError::EmptyProgram),
        msg@.len() + 1 > MAX_PROGRAM_LEN ==> (r matches Err(e) && e
            == StartupError::AssemblyOverflow),
        0 < msg@.len() && msg@.len() + 1 <= MAX_PROGRAM_LEN ==> (r matches Ok(p) && prog_entries(p)
            == entries_of(assembled_instrs(msg@)) && prog_wrap(p) == (msg@.len() as int, 1int)),
{
    if msg.len() == 0 {
        return Err(StartupError::EmptyProgram);
    }
    if msg.len() > MAX_PROGRAM_LEN - 1 {
        return Err(StartupError::AssemblyOverflow);
    }
    let mut a = asm_new();
    let mut wrap_target = asm_label(&mut a);
    let mut wrap_source = asm_label(&mut a);
    asm_set_pindirs(&mut a, 1);
    proof {
        assert(asm_entries(a) =~= entries_of(assembled_instrs(msg@.subrange(0, 0))));
    }
    asm_bind(&mut a, &mut wrap_target);
    let mut i: usize = 0;
    while i < msg.len()
        invariant
            i <= msg@.len(),
            msg@.len() + 1 <= MAX_PROGRAM_LEN,
            asm_entries(a) == entries_of(assembled_instrs(msg@.subrange(0, i as int))),
            asm_plain(a),
            label_pos(wrap_target) == 1,
            label_pos(wrap_source) == -1,
        decreases msg@.len() - i,
    {
        let t = encode(msg[i]);
        asm_set_pins_with_delay(&mut a, if t.level { 1 } else { 0 }, t.duration);
        proof {
            assert(asm_entries(a) =~= entries_of(assembled_instrs(msg@.subrange(0, i + 1))));
        }
        i += 1;
    }
    proof {
        assert(msg@.subrange(0, msg@.len() as int) =~= msg@);
    }
    asm_bind(&mut a, &mut wrap_source);
    proof {
        lemma_assembled_entries_wf(msg@);
    }
    let p = asm_assemble_with_wrap(a, wrap_source, wrap_target);
    Ok(p)
}

/// Every entry the assembler emits for a message is a well-formed SET entry:
/// the destination is pins or pin directions and data and delay fit their
/// five-bit fields.
pub proof fn lemma_assembled_entries_wf(msg: Seq<TimingUnit>)
    ensures
        forall|i: int|
            0 <= i < entries_of(assembled_instrs(msg)).len() ==> set_entry_wf(
                #[trigger] entries_of(assembled_instrs(msg))[i],
            ),
{
    let entries = entries_of(assembled_instrs(msg));
    assert forall|i: int| 0 <= i < entries.len() implies set_entry_wf(#[trigger] entries[i]) by {
        if i > 0 {
            assert(entries[i] == instr_entry(level_instr(msg[i - 1])));
        }
    }
}

} // verus!
