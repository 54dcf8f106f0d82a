use vstd::prelude::*;

use crate::stream::encode_stream;
use crate::stream::word_stream;

verus! {

/// Most steps a channel can hold for one arm cycle. The ceiling is the
/// hardware's: the sequencer's input queue is fed delay/width pairs out of a
/// fixed-size staging buffer.
pub const NUM_PULSES_MAX: usize = 32;

/// Length of the longest word stream one arm cycle can deliver: the
/// arm-count word plus a delay and a width per step.
pub const DMA_BUF_LEN: usize = NUM_PULSES_MAX * 2 + 1;

/// What the channel stores for a caller-supplied cycle count. The compiled
/// program burns cycles in decrement-while-nonzero loops, so a stored value
/// of `k` lasts `k + 1` cycles; the channel stores the saturating
/// predecessor, and 0 and 1 both yield the minimum one-cycle segment.
pub open spec fn stored_cycles(cycle: u32) -> u32 {
    if cycle == 0 {
        0u32
    } else {
        (cycle - 1) as u32
    }
}

/// Saturating encode law: a caller value of 0 or 1 is stored as 0, and any
/// value `n >= 1` is stored as `n - 1`.
pub proof fn lemma_saturating_encode()
    ensures
        stored_cycles(0) == 0,
        stored_cycles(1) == 0,
        forall|n: u32| n >= 1 ==> stored_cycles(n) == n - 1,
{
}

/// Errors the channel's configuration calls surface to the caller.
#[derive(Clone, Copy, Debug, PartialEq, Eq, Structural)]
pub enum ConfigError {
    /// `arm`: the delay list and the width list differ in length.
    LengthMismatch,
    /// `set_delay` / `set_width`: the fixed step buffer is already full.
    CapacityExceeded,
}

/// The per-channel configuration: the bound output pin index, the two
/// parallel step lists, and the stored arm count.
pub struct PulseParameter {
    index: u8,
    delay: Vec<u32>,
    width: Vec<u32>,
    trigger_edge_count: u32,
}

/// The mathematical content of a `PulseParameter`.
pub ghost struct ParameterView {
    pub index: u8,
    pub delay: Seq<u32>,
    pub width: Seq<u32>,
    pub trigger_edge_count: u32,
}

impl View for PulseParameter {
    type V = ParameterView;

    closed spec fn view(&self) -> ParameterView {
        ParameterView {
            index: self.index,
            delay: self.delay@,
            width: self.width@,
            trigger_edge_count: self.trigger_edge_count,
        }
    }
}

impl PulseParameter {
    fn new(index: u8) -> (r: Self)
        ensures
            r@.index == index,
            r@.delay.len() == 0,
            r@.width.len() == 0,
            r@.trigger_edge_count == 0,
    {
        PulseParameter { index, delay: Vec::new(), width: Vec::new(), trigger_edge_count: 0 }
    }
}

/// One in-flight delivery of an encoded word stream: the parameters were
/// frozen at `arm` time and are never mutated in place, only replaced
/// wholesale by the next successful `arm`.
pub struct ArmedTransfer {
    words: Vec<u32>,
}

impl View for ArmedTransfer {
    type V = Seq<u32>;

    closed spec fn view(&self) -> Seq<u32> {
        self.words@
    }
}

impl ArmedTransfer {
    /// The frozen word stream this transfer delivers.
    pub fn words(&self) -> (w: &Vec<u32>)
        ensures
            w@ == self@,
    {
        &self.words
    }
}

/// One output channel: it accumulates steps between arms and freezes them
/// into an `ArmedTransfer` on `arm`. The channel is `Unarmed` until its
/// first successful `arm` and `Armed` from then on; a failed `arm` leaves
/// both the configuration and the previous transfer untouched.
pub struct PulseGeneratorChannel {
    param: PulseParameter,
    tx_transfer: Option<ArmedTransfer>,
}

/// The mathematical content of a channel: its configuration and, when
/// armed, the frozen word stream of the transfer in flight.
pub ghost struct ChannelView {
    pub param: ParameterView,
    pub tx_transfer: Option<Seq<u32>>,
}

impl View for PulseGeneratorChannel {
    type V = ChannelView;

    closed spec fn view(&self) -> ChannelView {
        ChannelView {
            param: self.param@,
            tx_transfer: match self.tx_transfer {
                Some(t) => Some(t@),
                None => None,
            },
        }
    }
}

impl Default for PulseGeneratorChannel {
    /// A fresh, unarmed channel with no steps, bound to output pin 15.
    fn default() -> (r: Self)
        ensures
            r@.param.index == 15,
            r@.param.delay.len() == 0,
            r@.param.width.len() == 0,
            r@.param.trigger_edge_count == 0,
            r@.tx_transfer is None,
    {
        PulseGeneratorChannel { param: PulseParameter::new(15), tx_transfer: None }
    }
}

impl PulseGeneratorChannel {
    /// A fresh, unarmed channel bound to the given output pin index.
    pub(crate) fn new(index: u8) -> (r: Self)
        ensures
            r@.param.index == index,
            r@.param.delay.len() == 0,
            r@.param.width.len() == 0,
            r@.param.trigger_edge_count == 0,
            r@.tx_transfer is None,
    {
        PulseGeneratorChannel { param: PulseParameter::new(index), tx_transfer: None }
    }

    /// Append one low-segment duration. The cycle count is stored as its
    /// saturating predecessor; the call is rejected once the fixed step
    /// buffer holds `NUM_PULSES_MAX` delays.
    pub fn set_delay(&mut self, cycle: u32) -> (r: Result<(), ConfigError>)
        ensures
            r is Ok <==> old(self)@.param.delay.len() < NUM_PULSES_MAX,
            r is Ok ==> final(self)@.param.delay == old(self)@.param.delay.push(stored_cycles(cycle)),
            r is Err ==> final(self)@.param.delay == old(self)@.param.delay
                && r == Err::<(), ConfigError>(ConfigError::CapacityExceeded),
            final(self)@.param.width == old(self)@.param.width,
            final(self)@.param.index == old(self)@.param.index,
            final(self)@.param.trigger_edge_count == old(self)@.param.trigger_edge_count,
            final(self)@.tx_transfer == old(self)@.tx_transfer,
    {
        if self.param.delay.len() < NUM_PULSES_MAX {
            self.param.delay.push(cycle.saturating_sub(1));
            Ok(())
        } else {
            Err(ConfigError::CapacityExceeded)
        }
    }

    /// Append one high-segment duration, stored like `set_delay` stores its
    /// cycle count and bounded by the same step ceiling.
    pub fn set_width(&mut self, cycle: u32) -> (r: Result<(), ConfigError>)
        ensures
            r is Ok <==> old(self)@.param.width.len() < NUM_PULSES_MAX,
            r is Ok ==> final(self)@.param.width == old(self)@.param.width.push(stored_cycles(cycle)),
            r is Err ==> final(self)@.param.width == old(self)@.param.width
                && r == Err::<(), ConfigError>(ConfigError::CapacityExceeded),
            final(self)@.param.delay == old(self)@.param.delay,
            final(self)@.param.index == old(self)@.param.index,
            final(self)@.param.trigger_edge_count == old(self)@.param.trigger_edge_count,
            final(self)@.tx_transfer == old(self)@.tx_transfer,
    {
        if self.param.width.len() < NUM_PULSES_MAX {
            self.param.width.push(cycle.saturating_sub(1));
            Ok(())
        } else {
            Err(ConfigError::CapacityExceeded)
        }
    }

    /// Store the number of trigger transitions the next arm cycle waits
    /// for, as its saturating predecessor: the edge-wait loop, too, runs
    /// decrement-while-nonzero. The stored word leads every armed stream;
    /// only a program compiled from an edge trigger has the prologue pull
    /// that consumes it, so on a channel driven by an `Immediate` program
    /// the word reaches the pulse-train loop instead — see `arm`.
    pub fn set_trigger_edge_count(&mut self, count: u32)
        ensures
            final(self)@.param.trigger_edge_count == stored_cycles(count),
            final(self)@.param.delay == old(self)@.param.delay,
            final(self)@.param.width == old(self)@.param.width,
            final(self)@.param.index == old(self)@.param.index,
            final(self)@.tx_transfer == old(self)@.tx_transfer,
    {
        self.param.trigger_edge_count = count.saturating_sub(1);
    }

    /// Freeze the accumulated steps into a new transfer. Succeeds exactly
    /// when the delay and width lists reconcile pairwise; on success the
    /// step lists are drained into the frozen stream
    /// `[armCount, delay0, width0, delay1, width1, ...]` and the previous
    /// transfer, if any, is replaced by the new one. On failure nothing
    /// changes: the previous transfer stays in flight undisturbed.
    ///
    /// The arm-count word leads the stream whatever trigger the shared
    /// program was compiled from, so the stream layout never depends on
    /// the trigger. A program compiled from an edge trigger consumes that
    /// word in its prologue; an `Immediate` program has no prologue, so
    /// its first pull reads the word as a delay, which shifts every later
    /// word by one place. A channel run against an `Immediate` program
    /// therefore sees the leading word as one extra low segment, not the
    /// documented step shape; integrators who want the steps verbatim on
    /// such a program must account for that word.
    pub fn arm(&mut self) -> (r: Result<(), ConfigError>)
        ensures
            r is Ok <==> old(self)@.param.delay.len() == old(self)@.param.width.len(),
            r is Ok ==> final(self)@.tx_transfer == Some(
                word_stream(
                    old(self)@.param.trigger_edge_count,
                    old(self)@.param.delay,
                    old(self)@.param.width,
                ),
            ) && final(self)@.param.delay.len() == 0 && final(self)@.param.width.len() == 0,
            r is Err ==> final(self)@.param.delay == old(self)@.param.delay
                && final(self)@.param.width == old(self)@.param.width
                && final(self)@.tx_transfer == old(self)@.tx_transfer
                && r == Err::<(), ConfigError>(ConfigError::LengthMismatch),
            final(self)@.param.index == old(self)@.param.index,
            final(self)@.param.trigger_edge_count == old(self)@.param.trigger_edge_count,
    {
        if self.param.delay.len() != self.param.width.len() {
            return Err(ConfigError::LengthMismatch);
        }
        let words = encode_stream(self.param.trigger_edge_count, &self.param.delay, &self.param.width);
        self.param.delay.clear();
        self.param.width.clear();
        self.tx_transfer = Some(ArmedTransfer { words });
        Ok(())
    }

    /// The transfer in flight, or `None` while the channel has never been
    /// armed.
    pub fn armed_transfer(&self) -> (t: Option<&ArmedTransfer>)
        ensures
            match t {
                Some(a) => self@.tx_transfer == Some(a@),
                None => self@.tx_transfer is None,
            },
    {
        match &self.tx_transfer {
            Some(t) => Some(t),
            None => None,
        }
    }
}

} // verus!
