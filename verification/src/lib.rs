//! Pulse-timing engine for a programmable hardware sequencer.
//!
//! The library compiles a trigger specification into the sequencer's
//! micro-program, encodes per-channel pulse trains into the flat word stream
//! the hardware consumes, and tracks the arm/rearm state machine of two
//! independent output channels that share one installed program image.

mod trigger;
mod stream;
mod channel;
mod program;
mod generator;

pub use trigger::EdgePolarity;
pub use trigger::EdgeTrigger;
pub use trigger::Trigger;
pub use stream::word_stream;
pub use stream::stream_delays;
pub use stream::stream_widths;
pub use stream::encode_stream;
pub use stream::decode_stream;
pub use stream::lemma_stream_round_trip;
pub use channel::ConfigError;
pub use channel::PulseParameter;
pub use channel::ParameterView;
pub use channel::ChannelView;
pub use channel::ArmedTransfer;
pub use channel::PulseGeneratorChannel;
pub use channel::NUM_PULSES_MAX;
pub use channel::DMA_BUF_LEN;
pub use channel::stored_cycles;
pub use channel::lemma_saturating_encode;
pub use program::MovDest;
pub use program::JmpCond;
pub use program::Instr;
pub use program::instr_word;
pub use program::gate_instrs;
pub use program::train_instrs;
pub use program::program_instrs;
pub use program::program_words;
pub use program::gate_pin;
pub use program::program_code;
pub use program::program_origin;
pub use program::program_wrap;
pub use program::program_one_bit_side_set;
pub use program::assemble;
pub use program::program_words_vec;
pub use program::program_origin_of;
pub use program::program_wrap_of;
pub use program::dec_loop_runs;
pub use program::lemma_assemble_deterministic;
pub use program::lemma_edge_gate_semantics;
pub use program::lemma_pulse_train_semantics;
pub use generator::PulseGenerator;
