use vstd::prelude::*;

use crate::trigger::EdgePolarity;
use crate::trigger::EdgeTrigger;
use crate::trigger::Trigger;
use crate::channel::stored_cycles;

verus! {

// ---------------------------------------------------------------------------
// The abstract instruction model.
//
// The compiler emits programs built from four instruction shapes of the
// sequencer's instruction set. Each shape has a fixed 16-bit machine
// encoding; `instr_word` states it, and the trusted assembler items below
// are the only place where that statement is taken on faith.
// ---------------------------------------------------------------------------

/// Scratch register a `mov` from the output shift register can target.
pub enum MovDest {
    X,
    Y,
}

/// The jump conditions the compiler uses: unconditional, or
/// branch-while-nonzero with post-decrement on a scratch register.
pub enum JmpCond {
    Always,
    XDecNonZero,
    YDecNonZero,
}

/// One sequencer instruction of the shapes this compiler emits. `side`
/// carries the optional one-bit side-set that drives the output pin level.
pub enum Instr {
    /// Dequeue one word from the input queue into the output shift
    /// register, stalling while the queue is empty.
    Pull,
    /// Copy the output shift register into a scratch register.
    MovFromOsr { dest: MovDest },
    /// Stall until the watched GPIO reads the given level.
    WaitGpio { high: bool, pin: u8 },
    /// Jump to `target`, optionally latching the output pin via side-set.
    Jmp { cond: JmpCond, target: u8, side: Option<bool> },
}

/// Bits 7:5 of a `mov` word select the destination register.
pub open spec fn mov_dest_bits(d: MovDest) -> int {
    match d {
        MovDest::X => 1,
        MovDest::Y => 2,
    }
}

/// Bits 7:5 of a `jmp` word select the condition.
pub open spec fn jmp_cond_bits(c: JmpCond) -> int {
    match c {
        JmpCond::Always => 0,
        JmpCond::XDecNonZero => 2,
        JmpCond::YDecNonZero => 4,
    }
}

/// Bits 12:8 of any word under the optional one-bit side-set
/// configuration: bit 12 enables the side-set, bit 11 is the driven level.
pub open spec fn side_set_field(side: Option<bool>) -> int {
    match side {
        None => 0,
        Some(false) => 0x1000,
        Some(true) => 0x1800,
    }
}

/// The 16-bit machine encoding of an instruction, under the optional
/// one-bit side-set configuration every program of this crate is
/// assembled with.
pub open spec fn instr_word(i: Instr) -> u16 {
    match i {
        Instr::Pull => 0x80A0u16,
        Instr::MovFromOsr { dest } => (0xA007 + mov_dest_bits(dest) * 0x20) as u16,
        Instr::WaitGpio { high, pin } => ((if high {
            0x2080int
        } else {
            0x2000int
        }) + pin) as u16,
        Instr::Jmp { cond, target, side } => (side_set_field(side) + jmp_cond_bits(cond) * 0x20
            + target) as u16,
    }
}

// ---------------------------------------------------------------------------
// The compiled program's shape.
// ---------------------------------------------------------------------------

/// The edge-gate prologue: pull the arm count into Y, then loop — wait for
/// one matching transition, decrement Y, repeat while nonzero. For a rising
/// trigger a transition is pin-low then pin-high; for a falling one the
/// reverse. The loop head sits at offset 2, right after the pull/mov pair.
pub open spec fn gate_instrs(polarity: EdgePolarity, pin: u8) -> Seq<Instr> {
    seq![
        Instr::Pull,
        Instr::MovFromOsr { dest: MovDest::Y },
        Instr::WaitGpio { high: polarity is Falling, pin },
        Instr::WaitGpio { high: polarity is Rising, pin },
        Instr::Jmp { cond: JmpCond::YDecNonZero, target: 2, side: None },
    ]
}

/// The pulse-train loop, laid out from `base`: pull a delay into X, pull a
/// width into Y, burn X cycles with the pin at its latched (low) level,
/// burn Y cycles driving the pin high, then latch the pin low and jump back
/// for the next pair. When the queue is exhausted the pull at `base`
/// stalls, leaving the output latched low.
pub open spec fn train_instrs(base: u8) -> Seq<Instr> {
    seq![
        Instr::Pull,
        Instr::MovFromOsr { dest: MovDest::X },
        Instr::Pull,
        Instr::MovFromOsr { dest: MovDest::Y },
        Instr::Jmp { cond: JmpCond::XDecNonZero, target: (base + 4) as u8, side: None },
        Instr::Jmp { cond: JmpCond::YDecNonZero, target: (base + 5) as u8, side: Some(true) },
        Instr::Jmp { cond: JmpCond::Always, target: base, side: Some(false) },
    ]
}

/// The whole program: the edge-wait prologue only under an edge trigger,
/// then the pulse-train loop. `pin` is the GPIO index the prologue watches.
pub open spec fn program_instrs(trigger: Trigger, pin: u8) -> Seq<Instr> {
    match trigger {
        Trigger::Edge(e) => gate_instrs(e.polarity, pin) + train_instrs(5),
        Trigger::Immediate => train_instrs(0),
    }
}

/// The machine words of the whole program, in order.
pub open spec fn program_words(trigger: Trigger, pin: u8) -> Seq<u16> {
    program_instrs(trigger, pin).map_values(|i: Instr| instr_word(i))
}

/// The GPIO index a program compiled from this trigger watches: the edge
/// trigger's own pin. Immaterial for an immediate trigger, which compiles
/// no prologue; 0 then stands in where a pin argument is needed.
pub open spec fn gate_pin(trigger: Trigger) -> u8 {
    match trigger {
        Trigger::Edge(e) => e.index,
        Trigger::Immediate => 0,
    }
}

// ---------------------------------------------------------------------------
// Trusted view of the outside assembler.
//
// The machine encoding itself is produced by the `pio` crate's assembler;
// the items below say, over the names `emitted_words`, `one_bit_side_set`,
// `label_target`, `program_code`, `program_origin`, `program_wrap` and
// `program_one_bit_side_set`, what each call contributes, and are the
// trust boundary of this module.
// ---------------------------------------------------------------------------

#[verifier::external_type_specification]
#[verifier::external_body]
pub struct ExAssembler<const PROGRAM_SIZE: usize>(pio::Assembler<PROGRAM_SIZE>);

#[verifier::external_type_specification]
#[verifier::external_body]
pub struct ExLabel(pio::Label);

#[verifier::external_type_specification]
#[verifier::external_body]
pub struct ExProgram<const PROGRAM_SIZE: usize>(pio::Program<PROGRAM_SIZE>);

/// The machine words the assembler's instructions emitted so far will
/// encode to.
pub uninterp spec fn emitted_words(a: pio::Assembler<32>) -> Seq<u16>;

/// Whether the assembler was configured with the optional one-bit side-set
/// that the encodings stated here assume.
pub uninterp spec fn one_bit_side_set(a: pio::Assembler<32>) -> bool;

/// The offset a label is bound to; `None` for a fresh, unreferenced label.
pub uninterp spec fn label_target(l: pio::Label) -> Option<u8>;

/// The assembled machine words a compiled program holds.
pub uninterp spec fn program_code(p: pio::Program<32>) -> Seq<u16>;

/// The load origin recorded in a compiled program.
pub uninterp spec fn program_origin(p: pio::Program<32>) -> Option<u8>;

/// The wrap recorded in a compiled program, as (source, target) offsets.
pub uninterp spec fn program_wrap(p: pio::Program<32>) -> (u8, u8);

/// Whether the compiled program records the optional one-bit side-set
/// configuration.
pub uninterp spec fn program_one_bit_side_set(p: pio::Program<32>) -> bool;

/// Relies on pio::SideSet::new and pio::Assembler::new_with_side_set: a
/// fresh assembler holding no instructions, configured with an optional
/// side-set of one bit.
#[verifier::external_body]
fn builder_new() -> (a: pio::Assembler<32>)
    ensures
        emitted_words(a) == Seq::<u16>::empty(),
        one_bit_side_set(a),
{
    pio::Assembler::new_with_side_set(pio::SideSet::new(true, 1, false))
}

/// Relies on pio::Assembler::label: a fresh unbound label with no pending
/// references; the assembler is untouched.
#[verifier::external_body]
fn new_label(a: &mut pio::Assembler<32>) -> (l: pio::Label)
    ensures
        label_target(l) is None,
        emitted_words(*final(a)) == emitted_words(*old(a)),
        one_bit_side_set(*final(a)) == one_bit_side_set(*old(a)),
{
    a.label()
}

/// Relies on pio::Assembler::bind: binds an unbound label to the current
/// instruction position. A label this crate hands it carries no pending
/// forward references (jumps are only emitted to bound labels), so the
/// instructions already emitted are unchanged.
#[verifier::external_body]
fn bind_label(a: &mut pio::Assembler<32>, l: &mut pio::Label)
    requires
        label_target(*old(l)) is None,
        emitted_words(*old(a)).len() < 32,
    ensures
        label_target(*final(l)) == Some(emitted_words(*old(a)).len() as u8),
        emitted_words(*final(a)) == emitted_words(*old(a)),
        one_bit_side_set(*final(a)) == one_bit_side_set(*old(a)),
{
    a.bind(l)
}

/// Relies on pio::Assembler::pull: appends one blocking `pull` (no
/// if-empty flag), encoded 0x80A0.
#[verifier::external_body]
fn emit_pull(a: &mut pio::Assembler<32>)
    requires
        emitted_words(*old(a)).len() < 32,
        one_bit_side_set(*old(a)),
    ensures
        emitted_words(*final(a)) == emitted_words(*old(a)).push(instr_word(Instr::Pull)),
        one_bit_side_set(*final(a)),
{
    a.pull(false, true)
}

/// Relies on pio::Assembler::mov: appends a `mov` from the output shift
/// register into the given scratch register, encoded 0xA027 for X and
/// 0xA047 for Y.
#[verifier::external_body]
fn emit_mov_from_osr(a: &mut pio::Assembler<32>, dest: MovDest)
    requires
        emitted_words(*old(a)).len() < 32,
        one_bit_side_set(*old(a)),
    ensures
        emitted_words(*final(a)) == emitted_words(*old(a)).push(instr_word(Instr::MovFromOsr { dest })),
        one_bit_side_set(*final(a)),
{
    let d = match dest {
        MovDest::X => pio::MovDestination::X,
        MovDest::Y => pio::MovDestination::Y,
    };
    a.mov(d, pio::MovOperation::None, pio::MovSource::OSR)
}

/// Relies on pio::Assembler::wait: appends a non-relative `wait` on a GPIO
/// level, encoded 0x2000 (low) or 0x2080 (high) plus the pin index.
#[verifier::external_body]
fn emit_wait_gpio(a: &mut pio::Assembler<32>, high: bool, pin: u8)
    requires
        emitted_words(*old(a)).len() < 32,
        one_bit_side_set(*old(a)),
        pin < 32,
    ensures
        emitted_words(*final(a)) == emitted_words(*old(a)).push(instr_word(Instr::WaitGpio { high, pin })),
        one_bit_side_set(*final(a)),
{
    let polarity: u8 = if high {
        1
    } else {
        0
    };
    a.wait(polarity, pio::WaitSource::GPIO, pin, false)
}

/// Relies on pio::Assembler::jmp: appends a `jmp` to a bound label without
/// side-set, encoded as the condition bits at 7:5 plus the target address.
/// The label, being bound, is left as it was.
#[verifier::external_body]
fn emit_jmp(a: &mut pio::Assembler<32>, cond: JmpCond, l: &mut pio::Label)
    requires
        emitted_words(*old(a)).len() < 32,
        one_bit_side_set(*old(a)),
        label_target(*old(l)) is Some,
        label_target(*old(l)).unwrap() < 32,
    ensures
        emitted_words(*final(a)) == emitted_words(*old(a)).push(
            instr_word(
                Instr::Jmp { cond, target: label_target(*old(l)).unwrap(), side: None },
            ),
        ),
        one_bit_side_set(*final(a)),
        label_target(*final(l)) == label_target(*old(l)),
{
    let c = match cond {
        JmpCond::Always => pio::JmpCondition::Always,
        JmpCond::XDecNonZero => pio::JmpCondition::XDecNonZero,
        JmpCond::YDecNonZero => pio::JmpCondition::YDecNonZero,
    };
    a.jmp(c, l)
}

/// Relies on pio::Assembler::jmp_with_side_set: like `jmp`, with the
/// one-bit side-set driving the output pin, adding 0x1800 (high) or
/// 0x1000 (low) to the word.
#[verifier::external_body]
fn emit_jmp_side(a: &mut pio::Assembler<32>, cond: JmpCond, l: &mut pio::Label, high: bool)
    requires
        emitted_words(*old(a)).len() < 32,
        one_bit_side_set(*old(a)),
        label_target(*old(l)) is Some,
        label_target(*old(l)).unwrap() < 32,
    ensures
        emitted_words(*final(a)) == emitted_words(*old(a)).push(
            instr_word(
                Instr::Jmp { cond, target: label_target(*old(l)).unwrap(), side: Some(high) },
            ),
        ),
        one_bit_side_set(*final(a)),
        label_target(*final(l)) == label_target(*old(l)),
{
    let c = match cond {
        JmpCond::Always => pio::JmpCondition::Always,
        JmpCond::XDecNonZero => pio::JmpCondition::XDecNonZero,
        JmpCond::YDecNonZero => pio::JmpCondition::YDecNonZero,
    };
    let side: u8 = if high {
        1
    } else {
        0
    };
    a.jmp_with_side_set(c, l, side)
}

/// Relies on pio::Assembler::assemble_program: encodes the emitted
/// instructions, in order, into a program with no origin set, wrapping
/// from the last instruction back to offset 0, and carrying the
/// assembler's side-set configuration.
#[verifier::external_body]
fn build_program(a: pio::Assembler<32>) -> (p: pio::Program<32>)
    requires
        1 <= emitted_words(a).len(),
        one_bit_side_set(a),
    ensures
        program_code(p) == emitted_words(a),
        program_origin(p) is None,
        program_wrap(p) == (((emitted_words(a).len() - 1) as u8, 0u8)),
        program_one_bit_side_set(p),
{
    a.assemble_program()
}

/// Relies on pio::Program::set_origin: records the load origin and changes
/// nothing else.
#[verifier::external_body]
fn program_at_origin(p: pio::Program<32>, origin: u8) -> (r: pio::Program<32>)
    ensures
        program_code(r) == program_code(p),
        program_origin(r) == Some(origin),
        program_wrap(r) == program_wrap(p),
        program_one_bit_side_set(r) == program_one_bit_side_set(p),
{
    p.set_origin(Some(origin))
}

/// Relies on the public `code` field of pio::Program: the assembled words,
/// in order.
#[verifier::external_body]
fn program_code_read(p: &pio::Program<32>) -> (v: Vec<u16>)
    ensures
        v@ == program_code(*p),
{
    p.code.iter().copied().collect()
}

/// Relies on the public `origin` field of pio::Program.
#[verifier::external_body]
fn program_origin_read(p: &pio::Program<32>) -> (o: Option<u8>)
    ensures
        o == program_origin(*p),
{
    p.origin
}

/// Relies on the public `wrap` field of pio::Program.
#[verifier::external_body]
fn program_wrap_read(p: &pio::Program<32>) -> (w: (u8, u8))
    ensures
        w == program_wrap(*p),
{
    (p.wrap.source, p.wrap.target)
}

// ---------------------------------------------------------------------------
// The compiler.
// ---------------------------------------------------------------------------

/// Compile a trigger specification into the shared sequencer program,
/// loaded at origin 0. `index` is the GPIO the edge gate watches; the
/// output pin is chosen per channel by side-set routing, not here, which is
/// why both channels can share one image.
pub fn assemble(trigger: &Trigger, index: u8) -> (p: pio::Program<32>)
    requires
        index < 32,
    ensures
        program_code(p) == program_words(*trigger, index),
        program_origin(p) == Some(0u8),
        program_wrap(p) == (((program_words(*trigger, index).len() - 1) as u8, 0u8)),
        program_one_bit_side_set(p),
{
    let mut b = builder_new();
    match trigger {
        Trigger::Edge(edge_trigger) => {
            // Pull the number of edges to wait for into Y.
            emit_pull(&mut b);
            emit_mov_from_osr(&mut b, MovDest::Y);
            // Wait for that many matching transitions.
            let mut edge_label = new_label(&mut b);
            bind_label(&mut b, &mut edge_label);
            match edge_trigger.polarity {
                EdgePolarity::Falling => {
                    emit_wait_gpio(&mut b, true, index);
                    emit_wait_gpio(&mut b, false, index);
                },
                EdgePolarity::Rising => {
                    emit_wait_gpio(&mut b, false, index);
                    emit_wait_gpio(&mut b, true, index);
                },
            }
            emit_jmp(&mut b, JmpCond::YDecNonZero, &mut edge_label);
            proof {
                assert(emitted_words(b) =~= gate_instrs(edge_trigger.polarity, index).map_values(
                    |i: Instr| instr_word(i),
                ));
            }
        },
        Trigger::Immediate => {},
    }
    let ghost base: u8 = if trigger is Edge {
        5
    } else {
        0
    };
    // Pull the next delay into X and the next width into Y.
    let mut loop_label = new_label(&mut b);
    bind_label(&mut b, &mut loop_label);
    emit_pull(&mut b);
    emit_mov_from_osr(&mut b, MovDest::X);
    emit_pull(&mut b);
    emit_mov_from_osr(&mut b, MovDest::Y);
    // Burn the delay with the pin at its latched low level.
    let mut delay_label = new_label(&mut b);
    bind_label(&mut b, &mut delay_label);
    emit_jmp(&mut b, JmpCond::XDecNonZero, &mut delay_label);
    // Burn the width driving the pin high.
    let mut width_label = new_label(&mut b);
    bind_label(&mut b, &mut width_label);
    emit_jmp_side(&mut b, JmpCond::YDecNonZero, &mut width_label, true);
    // Latch the pin low and fetch the next pair.
    emit_jmp_side(&mut b, JmpCond::Always, &mut loop_label, false);
    proof {
        assert(emitted_words(b) =~= program_words(*trigger, index));
    }
    let prog = build_program(b);
    program_at_origin(prog, 0)
}

/// The assembled machine words of a compiled program, in order.
pub fn program_words_vec(p: &pio::Program<32>) -> (v: Vec<u16>)
    ensures
        v@ == program_code(*p),
{
    program_code_read(p)
}

/// The load origin of a compiled program.
pub fn program_origin_of(p: &pio::Program<32>) -> (o: Option<u8>)
    ensures
        o == program_origin(*p),
{
    program_origin_read(p)
}

/// The wrap of a compiled program, as (source, target) offsets.
pub fn program_wrap_of(p: &pio::Program<32>) -> (w: (u8, u8))
    ensures
        w == program_wrap(*p),
{
    program_wrap_read(p)
}

// ---------------------------------------------------------------------------
// Laws of the compiled shape.
// ---------------------------------------------------------------------------

/// Compiling the same trigger twice yields bit-identical images: any two
/// programs that satisfy `assemble`'s postcondition for the same trigger
/// and gate pin agree in every recorded component — words, origin, wrap
/// and side-set configuration.
pub proof fn lemma_assemble_deterministic(
    trigger: Trigger,
    index: u8,
    p1: pio::Program<32>,
    p2: pio::Program<32>,
)
    requires
        program_code(p1) == program_words(trigger, index),
        program_origin(p1) == Some(0u8),
        program_wrap(p1) == (((program_words(trigger, index).len() - 1) as u8, 0u8)),
        program_one_bit_side_set(p1),
        program_code(p2) == program_words(trigger, index),
        program_origin(p2) == Some(0u8),
        program_wrap(p2) == (((program_words(trigger, index).len() - 1) as u8, 0u8)),
        program_one_bit_side_set(p2),
    ensures
        program_code(p1) == program_code(p2),
        program_origin(p1) == program_origin(p2),
        program_wrap(p1) == program_wrap(p2),
        program_one_bit_side_set(p1) == program_one_bit_side_set(p2),
{
}

/// How many times a decrement-while-nonzero loop body runs when the loop
/// is entered with `v` in its scratch register: the closing jump branches
/// back while the register is nonzero and decrements it afterwards, so a
/// stored value of `v` yields `v + 1` runs. The edge-wait loop and the
/// delay and width loops of the pulse train all have this shape.
pub open spec fn dec_loop_runs(v: u32) -> nat
    decreases v,
{
    if v == 0 {
        1
    } else {
        1 + dec_loop_runs((v - 1) as u32)
    }
}

proof fn lemma_dec_loop_runs(y: u32)
    ensures
        dec_loop_runs(y) == y + 1,
    decreases y,
{
    if y > 0 {
        lemma_dec_loop_runs((y - 1) as u32);
    }
}

/// Edge-trigger semantics: under an edge trigger the compiled program
/// first pulls the channel's arm word into Y, then loops over exactly one
/// polarity-matched wait pair — pin-low then pin-high for a rising
/// trigger, the reverse for a falling one — decrementing Y once per
/// matching transition. With the stored arm word for a requested count of
/// `count`, the pair runs exactly `count` times before the pulse-train
/// loop's first pull at offset 5 can execute.
pub proof fn lemma_edge_gate_semantics(edge: EdgeTrigger, index: u8, count: u32)
    requires
        1 <= count,
    ensures
        ({
            let instrs = program_instrs(Trigger::Edge(edge), index);
            &&& instrs.len() == 12
            &&& instrs[0] == Instr::Pull
            &&& instrs[1] == (Instr::MovFromOsr { dest: MovDest::Y })
            &&& instrs[2] == (Instr::WaitGpio { high: edge.polarity is Falling, pin: index })
            &&& instrs[3] == (Instr::WaitGpio { high: edge.polarity is Rising, pin: index })
            &&& instrs[4] == (Instr::Jmp { cond: JmpCond::YDecNonZero, target: 2, side: None })
            &&& dec_loop_runs(stored_cycles(count)) == count
            &&& instrs[5] == Instr::Pull
        }),
{
    lemma_dec_loop_runs(stored_cycles(count));
}

/// Pulse-train semantics: whatever the trigger, the program ends in the
/// seven-instruction train loop. One queued pair is pulled into X (delay)
/// and Y (width); the delay loop burns its cycles with the output at its
/// latched low level, the width loop burns its cycles with side-set
/// driving the output high, and the loop-closing jump relatches the
/// output low before the next pull — which stalls there, output low, once
/// the queue is empty. For a step the caller configured as
/// `set_delay(n); set_width(m)`, the stored words make the delay loop run
/// `max(n, 1)` times and the width loop `max(m, 1)` times.
pub proof fn lemma_pulse_train_semantics(trigger: Trigger, pin: u8, n: u32, m: u32)
    ensures
        ({
            let instrs = program_instrs(trigger, pin);
            let base = instrs.len() - 7;
            &&& instrs.len() == (if trigger is Edge { 12int } else { 7int })
            &&& instrs[base] == Instr::Pull
            &&& instrs[base + 1] == (Instr::MovFromOsr { dest: MovDest::X })
            &&& instrs[base + 2] == Instr::Pull
            &&& instrs[base + 3] == (Instr::MovFromOsr { dest: MovDest::Y })
            &&& instrs[base + 4] == (Instr::Jmp {
                cond: JmpCond::XDecNonZero,
                target: (base + 4) as u8,
                side: None,
            })
            &&& instrs[base + 5] == (Instr::Jmp {
                cond: JmpCond::YDecNonZero,
                target: (base + 5) as u8,
                side: Some(true),
            })
            &&& instrs[base + 6] == (Instr::Jmp {
                cond: JmpCond::Always,
                target: base as u8,
                side: Some(false),
            })
            &&& dec_loop_runs(stored_cycles(n)) == (if n <= 1 { 1nat } else { n as nat })
            &&& dec_loop_runs(stored_cycles(m)) == (if m <= 1 { 1nat } else { m as nat })
        }),
{
    lemma_dec_loop_runs(stored_cycles(n));
    lemma_dec_loop_runs(stored_cycles(m));
}

} // verus!
