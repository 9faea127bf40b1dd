//! The program assembler and looper: turns a message of timing units into a
//! loop-wrapped instruction sequence for the timing co-processor.

use vstd::prelude::*;

use crate::units::{encode, encode_spec, TimingUnit};

verus! {

/// Why startup must abort: the peripheral or pin cannot be claimed, the
/// program would not fit the co-processor's instruction memory, or the
/// message is empty and would make a degenerate loop.
#[derive(Clone, Copy, Debug, PartialEq, Eq, Structural)]
pub enum StartupError {
    ResourceUnavailable,
    AssemblyOverflow,
    EmptyProgram,
}

/// One instruction of the generated program: configure the pin as an output,
/// or drive it to `level` and hold for `duration` ticks.
#[derive(Clone, Copy, Debug, PartialEq, Eq, Structural)]
pub enum Instr {
    SetDirOut,
    SetLevel { level: bool, duration: u8 },
}

/// Capacity of the co-processor's instruction memory.
pub const MAX_PROGRAM_LEN: usize = 32;

/// The level instruction that one timing unit assembles to.
pub open spec fn level_instr(u: TimingUnit) -> Instr {
    Instr::SetLevel { level: encode_spec(u).0, duration: encode_spec(u).1 }
}

/// The instructions assembled from a message: one direction-set executed once
/// outside the loop, then one level instruction per unit, in message order.
pub open spec fn assembled_instrs(msg: Seq<TimingUnit>) -> Seq<Instr> {
    seq![Instr::SetDirOut] + Seq::new(msg.len(), |i: int| level_instr(msg[i]))
}

/// An assembled program: a flat instruction list plus the two loop markers.
/// `loop_start` is the index of the first instruction that re-executes,
/// `loop_end` the index of the last; execution wraps from `loop_end` back to
/// `loop_start` forever.
#[derive(Debug, PartialEq, Eq)]
pub struct InstructionSequence {
    pub instrs: Vec<Instr>,
    pub loop_start: usize,
    pub loop_end: usize,
}

impl InstructionSequence {
    /// Well-formedness: the loop region is non-empty, lies inside the list
    /// after the one-time prologue, fits instruction memory, and holds only
    /// level instructions.
    pub open spec fn wf(self) -> bool {
        &&& 0 < self.loop_start <= self.loop_end < self.instrs@.len()
        &&& self.instrs@.len() <= MAX_PROGRAM_LEN
        &&& forall|i: int|
            self.loop_start <= i <= self.loop_end ==> (#[trigger] self.instrs@[i]) is SetLevel
    }

    /// Number of instructions in the loop region.
    pub open spec fn loop_len(self) -> int {
        self.loop_end - self.loop_start + 1
    }

    /// The instruction executed at step `n` once the co-processor has entered
    /// the loop: it steps from `loop_start` to `loop_end`, then wraps back.
    pub open spec fn step_instr(self, n: int) -> Instr
        recommends
            self.wf(),
            0 <= n,
    {
        self.instrs@[self.loop_start + n % self.loop_len()]
    }
}

/// What `assemble` returns on a message: the assembled instructions with the
/// loop region covering exactly the message-derived instructions.
pub open spec fn assembly_result_ok(msg: Seq<TimingUnit>, s: InstructionSequence) -> bool {
    &&& s.instrs@ == assembled_instrs(msg)
    &&& s.loop_start == 1
    &&& s.loop_end == msg.len()
}

/// Assembles a message into a complete, loop-wrapped instruction sequence.
/// An empty message is rejected, as is one whose program would exceed the
/// co-processor's instruction memory; any other message assembles to one
/// direction-set instruction followed by one level instruction per unit, with
/// the loop markers bounding exactly the message-derived instructions.
pub fn assemble(msg: &Vec<TimingUnit>) -> (r: Result<InstructionSequence, StartupError>)
    ensures
        msg@.len() == 0 ==> (r matches Err(e) && e == StartupError::EmptyProgram),
        msg@.len() + 1 > MAX_PROGRAM_LEN ==> (r matches Err(e) && e
            == StartupError::AssemblyOverflow),
        0 < msg@.len() && msg@.len() + 1 <= MAX_PROGRAM_LEN ==> (r matches Ok(s)
            && assembly_result_ok(msg@, s) && s.wf()),
{
    if msg.len() == 0 {
        return Err(StartupError::EmptyProgram);
    }
    if msg.len() > MAX_PROGRAM_LEN - 1 {
        return Err(StartupError::AssemblyOverflow);
    }
    let mut instrs: Vec<Instr> = Vec::new();
    instrs.push(Instr::SetDirOut);
    let mut i: usize = 0;
    while i < msg.len()
        invariant
            i <= msg@.len(),
            instrs@ == assembled_instrs(msg@.subrange(0, i as int)),
        decreases msg@.len() - i,
    {
        let t = encode(msg[i]);
        instrs.push(Instr::SetLevel { level: t.level, duration: t.duration });
        proof {
            assert(instrs@ =~= assembled_instrs(msg@.subrange(0, i + 1)));
        }
        i += 1;
    }
    proof {
        assert(msg@.subrange(0, msg@.len() as int) =~= msg@);
    }
    let s = InstructionSequence { instrs, loop_start: 1, loop_end: msg.len() };
    proof {
        lemma_assembly_result_wf(msg@, s);
    }
    Ok(s)
}

/// A sequence that assembles from a message that fits instruction memory is
/// well formed: the loop region is non-empty, in bounds, and all level
/// instructions.
pub proof fn lemma_assembly_result_wf(msg: Seq<TimingUnit>, s: InstructionSequence)
    requires
        assembly_result_ok(msg, s),
        0 < msg.len(),
        msg.len() + 1 <= MAX_PROGRAM_LEN,
    ensures
        s.wf(),
{
    assert forall|i: int| s.loop_start <= i <= s.loop_end implies (#[trigger] s.instrs@[i])
        is SetLevel by {
        assert(s.instrs@[i] == level_instr(msg[i - 1]));
    }
}

/// The assembled program holds exactly one instruction more than the message
/// has units: the one-time direction-set, then one level instruction per
/// unit, and the loop markers bound exactly those message-derived
/// instructions.
pub proof fn lemma_assembled_count(msg: Seq<TimingUnit>, s: InstructionSequence)
    requires
        assembly_result_ok(msg, s),
    ensures
        s.instrs@.len() == 1 + msg.len(),
        s.instrs@[0] == Instr::SetDirOut,
        s.loop_start == 1 && s.loop_end == msg.len(),
        forall|i: int|
            s.loop_start <= i <= s.loop_end ==> #[trigger] s.instrs@[i] == level_instr(
                msg[i - 1],
            ),
{
}

/// Assembling the same message twice yields identical instruction sequences:
/// the same instructions and the same loop markers.
pub proof fn lemma_assemble_idempotent(
    msg: Seq<TimingUnit>,
    s1: InstructionSequence,
    s2: InstructionSequence,
)
    requires
        assembly_result_ok(msg, s1),
        assembly_result_ok(msg, s2),
    ensures
        s1.instrs@ == s2.instrs@,
        s1.loop_start == s2.loop_start,
        s1.loop_end == s2.loop_end,
{
}

/// Executes an assembled program as the co-processor would once it has
/// entered the loop: run the instruction under the program counter, then step
/// forward, wrapping from `loop_end` back to `loop_start` unconditionally and
/// forever. Returns the first `steps` executed instructions.
pub fn simulate(s: &InstructionSequence, steps: usize) -> (r: Vec<Instr>)
    requires
        s.wf(),
    ensures
        r@.len() == steps,
        forall|k: int| 0 <= k < steps ==> #[trigger] r@[k] == s.step_instr(k),
{
    let mut out: Vec<Instr> = Vec::new();
    let mut pc: usize = s.loop_start;
    let mut k: usize = 0;
    while k < steps
        invariant
            s.wf(),
            k <= steps,
            out@.len() == k,
            s.loop_start <= pc <= s.loop_end,
            pc - s.loop_start == k as int % s.loop_len(),
            forall|j: int| 0 <= j < k ==> #[trigger] out@[j] == s.step_instr(j),
        decreases steps - k,
    {
        out.push(s.instrs[pc]);
        proof {
            assert(out@[k as int] == s.step_instr(k as int));
        }
        let ghost len = s.loop_len();
        if pc == s.loop_end {
            pc = s.loop_start;
            proof {
                assert((k as int + 1) % len == 0) by (nonlinear_arith)
                    requires
                        0 < len,
                        0 <= k as int,
                        k as int % len == len - 1,
                ;
            }
        } else {
            pc = pc + 1;
            proof {
                assert((k as int + 1) % len == k as int % len + 1) by (nonlinear_arith)
                    requires
                        0 < len,
                        0 <= k as int,
                        0 <= k as int % len < len - 1,
                ;
            }
        }
        k = k + 1;
    }
    out
}

/// Loop-wrap correctness: once running, the co-processor repeats the
/// message's level instructions with period equal to the message length; the
/// step after `loop_end` is `loop_start` again, with no gap and no duplicate
/// at the wrap boundary.
pub proof fn lemma_loop_wrap(msg: Seq<TimingUnit>, s: InstructionSequence, n: int)
    requires
        assembly_result_ok(msg, s),
        0 < msg.len(),
        0 <= n,
    ensures
        s.loop_len() == msg.len(),
        s.step_instr(n) == level_instr(msg[n % msg.len() as int]),
        s.step_instr(n + s.loop_len()) == s.step_instr(n),
{
    let len = msg.len() as int;
    assert(0 <= n % len < len) by (nonlinear_arith)
        requires 0 < len, 0 <= n;
    assert((n + len) % len == n % len) by (nonlinear_arith)
        requires 0 < len, 0 <= n;
    assert(s.instrs@[1 + n % len] == level_instr(msg[n % len]));
}

} // verus!
