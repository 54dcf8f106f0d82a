use vstd::prelude::*;

use crate::trigger::Trigger;
use crate::channel::PulseGeneratorChannel;
use crate::program::assemble;
use crate::program::gate_pin;
use crate::program::program_code;
use crate::program::program_one_bit_side_set;
use crate::program::program_origin;
use crate::program::program_words;
use crate::program::program_wrap;

verus! {

/// The dual-channel coordinator: it compiles the shared program image once,
/// from the trigger chosen at construction, and owns two independent
/// channels bound to adjacent output pins. The image is read-only after
/// construction; the channels share its shape and nothing else.
pub struct PulseGenerator {
    /// The compiled image both channels run, for installation into the
    /// hardware's shared instruction store.
    pub program: pio::Program<32>,
    pub ch0: PulseGeneratorChannel,
    pub ch1: PulseGeneratorChannel,
    /// The trigger the shared program was compiled from.
    pub trigger: Trigger,
}

impl PulseGenerator {
    /// Compile the trigger into the shared program — an edge trigger's
    /// prologue watches the trigger's own pin index — and construct the
    /// two fresh channels, bound to output pins 15 and 16. The pin index
    /// must fit the wait instruction's five-bit field.
    pub fn new(trigger: Trigger) -> (r: Self)
        requires
            gate_pin(trigger) < 32,
        ensures
            program_code(r.program) == program_words(r.trigger, gate_pin(r.trigger)),
            program_origin(r.program) == Some(0u8),
            program_wrap(r.program) == (((program_words(r.trigger, gate_pin(r.trigger)).len()
                - 1) as u8, 0u8)),
            program_one_bit_side_set(r.program),
            r.trigger == trigger,
            r.ch0@.param.index == 15,
            r.ch0@.param.delay.len() == 0,
            r.ch0@.param.width.len() == 0,
            r.ch0@.param.trigger_edge_count == 0,
            r.ch0@.tx_transfer is None,
            r.ch1@.param.index == 16,
            r.ch1@.param.delay.len() == 0,
            r.ch1@.param.width.len() == 0,
            r.ch1@.param.trigger_edge_count == 0,
            r.ch1@.tx_transfer is None,
    {
        let pin = match &trigger {
            Trigger::Edge(e) => e.index,
            Trigger::Immediate => 0,
        };
        let program = assemble(&trigger, pin);
        PulseGenerator {
            program,
            ch0: PulseGeneratorChannel::new(15),
            ch1: PulseGeneratorChannel::new(16),
            trigger,
        }
    }
}

} // verus!
