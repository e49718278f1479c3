//! One emulated machine: a register/flag file, a memory array, and the
//! program table the driver loads.  Each call executes one instruction
//! atomically and reports the next program line to resume at.

use vstd::prelude::*;

verus! {

use crate::add::{add_exec_spec, handler_add};
use crate::cpucontext::{CpuContext, boot_cpu};
use crate::errors::EmuError;
use crate::inc::{handler_inc, inc_spec};
use crate::jmp::handler_jmp;
use crate::memory::{Memory, all_zero};
use crate::mov::{handler_mov, mov_spec};
use crate::org::{handler_org, org_spec};
use crate::parser::Operand;

/// Whether a source line is a label line: it ends with a colon.
pub open spec fn is_label_line(s: Seq<char>) -> bool {
    s.len() > 0 && s[s.len() - 1] == ':'
}

/// Whether one sequence begins with another.
pub open spec fn starts_with_spec(s: Seq<char>, p: Seq<char>) -> bool {
    p.len() <= s.len() && (forall|j: int| 0 <= j < p.len() ==> s[j] == p[j])
}

/// Whether a source line ends with a colon.
fn line_is_label(code: &str) -> (r: bool)
    ensures
        r == is_label_line(code@),
{
    let n = code.unicode_len();
    if n == 0 {
        false
    } else {
        code.get_char(n - 1) == ':'
    }
}

/// Whether a string begins with a prefix.
fn str_starts_with(s: &str, prefix: &str) -> (r: bool)
    ensures
        r == starts_with_spec(s@, prefix@),
{
    let n = s.unicode_len();
    let p = prefix.unicode_len();
    if p > n {
        return false;
    }
    let mut i: usize = 0;
    while i < p
        invariant
            p == prefix@.len() <= n == s@.len(),
            i <= p,
            forall|j: int| 0 <= j < i ==> s@[j] == prefix@[j],
        decreases p - i,
    {
        if s.get_char(i) != prefix.get_char(i) {
            return false;
        }
        i = i + 1;
    }
    true
}

/// One loaded program line: its source text and whether it is a label line.
pub struct ProgramLine {
    /// The source text of the line.
    pub code: String,
    /// Reserved: the address the line assembles at.
    pub _start_address: u16,
    /// Reserved: the machine code of the line.
    pub _machine_code: Vec<u8>,
    /// Whether this line is a label line such as `loop:`.
    pub label: bool,
}

impl ProgramLine {
    /// Wraps one source line, not yet marked as a label.
    pub fn new(code: &str) -> (r: Self)
        ensures
            r.code@ == code@,
            r._start_address == 0,
            r._machine_code@ == Seq::<u8>::empty(),
            r.label == false,
    {
        ProgramLine { code: code.to_owned(), _start_address: 0, _machine_code: Vec::new(), label: false }
    }
}

/// Whether a program line is a label line whose text begins with the label.
pub open spec fn line_matches(p: ProgramLine, label: Seq<char>) -> bool {
    p.label && starts_with_spec(p.code@, label)
}

/// The first program line matching a label, if any.
pub open spec fn find_label_spec(program: Seq<ProgramLine>, label: Seq<char>) -> Option<int>
    decreases program.len(),
{
    if program.len() == 0 {
        None
    } else if line_matches(program[0], label) {
        Some(0)
    } else {
        match find_label_spec(program.drop_first(), label) {
            Some(i) => Some(i + 1),
            None => None,
        }
    }
}

/// `find_label_spec` returns the first matching line; a `None` means no
/// line matches.
pub proof fn lemma_find_label_is_first(program: Seq<ProgramLine>, label: Seq<char>)
    ensures
        find_label_spec(program, label) matches Some(i) ==> 0 <= i < program.len()
            && line_matches(program[i], label) && (forall|j: int|
            0 <= j < i ==> !line_matches(program[j], label)),
        find_label_spec(program, label) is None ==> forall|j: int|
            0 <= j < program.len() ==> !line_matches(program[j], label),
    decreases program.len(),
{
    if program.len() > 0 && !line_matches(program[0], label) {
        let t = program.drop_first();
        lemma_find_label_is_first(t, label);
        assert(forall|j: int| 0 <= j < t.len() ==> t[j] == program[j + 1]);
        match find_label_spec(t, label) {
            Some(k) => {
                assert(program[k + 1] == t[k]);
                assert forall|j: int| 0 <= j < k + 1 implies !line_matches(program[j], label) by {
                    if j > 0 {
                        assert(t[j - 1] == program[j]);
                    }
                }
            },
            None => {
                assert forall|j: int| 0 <= j < program.len() implies !line_matches(
                    program[j],
                    label,
                ) by {
                    if j > 0 {
                        assert(t[j - 1] == program[j]);
                    }
                }
            },
        }
    }
}

/// One instruction, as the external parser delivers it: the family name
/// and the operand nodes its form requires.
#[derive(Clone, Debug)]
pub enum Instruction {
    /// `mov destination, source`.
    Mov(Operand, Operand),
    /// `add destination, source`.
    Add(Operand, Operand),
    /// `inc operand`.
    Inc(Operand),
    /// `org immediate`.
    Org(Operand),
    /// `jmp label`.
    Jmp(Operand),
    /// A label line; executing it does nothing.
    Label,
}

/// The line a jump resumes at: one past the first line matching the label,
/// or one past the jump itself when no line matches.
pub open spec fn jump_target_spec(program: Seq<ProgramLine>, label: Seq<char>, linenum: int) -> int {
    match find_label_spec(program, label) {
        Some(i) => i + 1,
        None => linenum + 1,
    }
}

/// The outcome of one successfully executed step: the line to resume at,
/// and whether the step fully resolved.  A jump to a label no program line
/// carries falls through to the next line but is reported as unresolved,
/// so a driver or a test can tell it from a successful no-op.
#[derive(Clone, Copy, Debug, PartialEq, Eq, Structural)]
pub struct StepOutcome {
    /// The program line to resume at.
    pub nextline: usize,
    /// Whether the step fully resolved; false only for a jump whose label
    /// no program line carries.
    pub resolved: bool,
}

/// The state transition, next line and resolution of one instruction step.
pub open spec fn handle_spec(
    c: CpuContext,
    m: Seq<u8>,
    program: Seq<ProgramLine>,
    linenum: int,
    instr: Instruction,
) -> Result<(CpuContext, Seq<u8>, int, bool), EmuError> {
    match instr {
        Instruction::Mov(f, s) => match mov_spec(c, f, s) {
            Ok(c2) => Ok((c2, m, linenum + 1, true)),
            Err(e) => Err(e),
        },
        Instruction::Add(f, s) => match add_exec_spec(c, m, f, s) {
            Ok(next) => Ok((next.0, next.1, linenum + 1, true)),
            Err(e) => Err(e),
        },
        Instruction::Inc(f) => match inc_spec(c, m, f) {
            Ok(next) => Ok((next.0, next.1, linenum + 1, true)),
            Err(e) => Err(e),
        },
        Instruction::Org(f) => match org_spec(c, f) {
            Ok(c2) => Ok((c2, m, linenum + 1, true)),
            Err(e) => Err(e),
        },
        Instruction::Jmp(f) => match f {
            Operand::Label(l) => Ok(
                (
                    c,
                    m,
                    jump_target_spec(program, l@, linenum),
                    find_label_spec(program, l@) is Some,
                ),
            ),
            _ => Err(EmuError::UnsupportedOperandForm),
        },
        Instruction::Label => Ok((c, m, linenum + 1, true)),
    }
}

/// One emulated machine: processor state, memory, and the loaded program.
pub struct Hardware8086 {
    /// The register and flag file.
    pub cpu: CpuContext,
    /// The flat memory array.
    pub memory: Memory,
    /// The loaded program, one entry per source line.
    pub program: Vec<ProgramLine>,
}

impl Hardware8086 {
    /// The machine's memory always spans the full address space.
    pub open spec fn wf(&self) -> bool {
        self.memory.wf()
    }

    /// A freshly booted machine with an empty program table.
    pub fn new() -> (r: Self)
        ensures
            r.wf(),
            r.cpu == boot_cpu(),
            all_zero(r.memory@),
            r.program@ == Seq::<ProgramLine>::empty(),
    {
        Hardware8086 { cpu: CpuContext::boot(), memory: Memory::boot(), program: Vec::new() }
    }

    /// Resets the processor and zero-fills the memory; the loaded program
    /// is kept.
    pub fn reboot(&mut self)
        ensures
            final(self).wf(),
            final(self).cpu == boot_cpu(),
            all_zero(final(self).memory@),
            final(self).program@ == old(self).program@,
    {
        self.cpu.reboot();
        self.memory.reboot();
    }

    /// Replaces the program table: one entry per source line, marking the
    /// lines that end in a colon as label lines.
    pub fn build_program_table(&mut self, program: &Vec<String>)
        ensures
            final(self).cpu == old(self).cpu,
            final(self).memory@ == old(self).memory@,
            final(self).program@.len() == program@.len(),
            forall|i: int|
                0 <= i < program@.len() ==> (#[trigger] final(self).program@[i]).code@
                    == program@[i]@ && final(self).program@[i].label == is_label_line(
                    program@[i]@,
                ),
    {
        self.program = Vec::new();
        let n = program.len();
        let mut i: usize = 0;
        while i < n
            invariant
                n == program@.len(),
                i <= n,
                self.program@.len() == i,
                forall|k: int|
                    0 <= k < i ==> (#[trigger] self.program@[k]).code@ == program@[k]@
                        && self.program@[k].label == is_label_line(program@[k]@),
                self.cpu == old(self).cpu,
                self.memory@ == old(self).memory@,
            decreases n - i,
        {
            let mut p = ProgramLine::new(program[i].as_str());
            if line_is_label(program[i].as_str()) {
                p.label = true;
            }
            self.program.push(p);
            i = i + 1;
        }
    }

    /// Finds the first label line whose text begins with the given label.
    pub fn find_label(&self, label: &str) -> (r: Option<usize>)
        ensures
            r matches Some(i) ==> i < usize::MAX && i < self.program@.len() && find_label_spec(
                self.program@,
                label@,
            ) == Some(i as int),
            r is None ==> find_label_spec(self.program@, label@) is None,
    {
        proof {
            lemma_find_label_is_first(self.program@, label@);
        }
        let n = self.program.len();
        let mut i: usize = 0;
        while i < n
            invariant
                n == self.program@.len(),
                i <= n,
                forall|j: int| 0 <= j < i ==> !line_matches(self.program@[j], label@),
                find_label_spec(self.program@, label@) matches Some(k) ==> 0 <= k
                    < self.program@.len() && line_matches(self.program@[k], label@) && (forall|
                    j: int,
                |
                    0 <= j < k ==> !line_matches(self.program@[j], label@)),
                find_label_spec(self.program@, label@) is None ==> forall|j: int|
                    0 <= j < self.program@.len() ==> !line_matches(self.program@[j], label@),
            decreases n - i,
        {
            let line = &self.program[i];
            if line.label && str_starts_with(line.code.as_str(), label) {
                return Some(i);
            }
            i = i + 1;
        }
        None
    }

    /// Executes one already-parsed instruction as an atomic step and
    /// returns the line to resume at: the next line, or, for a jump to a
    /// known label, the line after that label.  On an error nothing
    /// changes and the caller decides whether to skip or halt.
    pub fn handle_instruction(&mut self, linenum: usize, instr: &Instruction) -> (r: Result<
        StepOutcome,
        EmuError,
    >)
        requires
            old(self).wf(),
            linenum < usize::MAX,
        ensures
            final(self).wf(),
            final(self).program@ == old(self).program@,
            handle_spec(old(self).cpu, old(self).memory@, old(self).program@, linenum as int, *instr)
                matches Ok(t) ==> (r matches Ok(o) && final(self).cpu == t.0 && final(self).memory@
                == t.1 && o.nextline as int == t.2 && o.resolved == t.3),
            handle_spec(old(self).cpu, old(self).memory@, old(self).program@, linenum as int, *instr)
                matches Err(e) ==> r == Err::<StepOutcome, EmuError>(e) && final(self).cpu == old(
                self,
            ).cpu && final(self).memory@ == old(self).memory@,
    {
        match instr {
            Instruction::Mov(f, s) => match handler_mov(&mut self.cpu, &mut self.memory, f, s) {
                Ok(_) => Ok(StepOutcome { nextline: linenum + 1, resolved: true }),
                Err(e) => Err(e),
            },
            Instruction::Add(f, s) => match handler_add(&mut self.cpu, &mut self.memory, f, s) {
                Ok(_) => Ok(StepOutcome { nextline: linenum + 1, resolved: true }),
                Err(e) => Err(e),
            },
            Instruction::Inc(f) => match handler_inc(&mut self.cpu, &mut self.memory, f) {
                Ok(_) => Ok(StepOutcome { nextline: linenum + 1, resolved: true }),
                Err(e) => Err(e),
            },
            Instruction::Org(f) => match handler_org(&mut self.cpu, &mut self.memory, f) {
                Ok(_) => Ok(StepOutcome { nextline: linenum + 1, resolved: true }),
                Err(e) => Err(e),
            },
            Instruction::Jmp(f) => {
                let label = match handler_jmp(f) {
                    Ok(l) => l,
                    Err(e) => {
                        return Err(e);
                    },
                };
                match self.find_label(label.as_str()) {
                    Some(i) => Ok(StepOutcome { nextline: i + 1, resolved: true }),
                    None => Ok(StepOutcome { nextline: linenum + 1, resolved: false }),
                }
            },
            Instruction::Label => Ok(StepOutcome { nextline: linenum + 1, resolved: true }),
        }
    }
}

} // verus!
