use pulse_generator::assemble;
use pulse_generator::program_origin_of;
use pulse_generator::program_wrap_of;
use pulse_generator::program_words_vec;
use pulse_generator::EdgePolarity;
use pulse_generator::EdgeTrigger;
use pulse_generator::PulseGenerator;
use pulse_generator::Trigger;

// The expected machine words, from the sequencer's instruction set: pull
// (block) is 0x80A0; mov X/Y from the output shift register is
// 0xA027/0xA047; wait for a GPIO level is 0x2000 (low) or 0x2080 (high)
// plus the pin index; jmp carries its condition in bits 7:5 (X--: 2,
// Y--: 4) and its target in bits 4:0; the optional one-bit side-set adds
// 0x1800 (drive high) or 0x1000 (drive low).

const IMMEDIATE_WORDS: [u16; 7] = [
    0x80A0, // pull delay
    0xA027, // mov x, osr
    0x80A0, // pull width
    0xA047, // mov y, osr
    0x0044, // jmp x-- 4
    0x1885, // jmp y-- 5, side 1
    0x1000, // jmp 0, side 0
];

const EDGE_RISING_WORDS: [u16; 12] = [
    0x80A0, // pull arm count
    0xA047, // mov y, osr
    0x2000, // wait 0 gpio 0
    0x2080, // wait 1 gpio 0
    0x0082, // jmp y-- 2
    0x80A0, // pull delay
    0xA027, // mov x, osr
    0x80A0, // pull width
    0xA047, // mov y, osr
    0x0049, // jmp x-- 9
    0x188A, // jmp y-- 10, side 1
    0x1005, // jmp 5, side 0
];

#[test]
fn immediate_program_words() {
    let p = assemble(&Trigger::Immediate, 0);
    assert_eq!(program_words_vec(&p), IMMEDIATE_WORDS.to_vec());
    assert_eq!(program_origin_of(&p), Some(0));
    assert_eq!(program_wrap_of(&p), (6, 0));
}

#[test]
fn edge_rising_program_words() {
    let t = Trigger::Edge(EdgeTrigger { index: 0, polarity: EdgePolarity::Rising });
    let p = assemble(&t, 0);
    assert_eq!(program_words_vec(&p), EDGE_RISING_WORDS.to_vec());
    assert_eq!(program_origin_of(&p), Some(0));
    assert_eq!(program_wrap_of(&p), (11, 0));
}

#[test]
fn edge_falling_swaps_the_wait_pair() {
    let t = Trigger::Edge(EdgeTrigger { index: 3, polarity: EdgePolarity::Falling });
    let p = assemble(&t, 3);
    let words = program_words_vec(&p);
    assert_eq!(words.len(), 12);
    assert_eq!(words[2], 0x2083); // wait 1 gpio 3
    assert_eq!(words[3], 0x2003); // wait 0 gpio 3
    // Everything outside the wait pair matches the rising program on the
    // same pin.
    let rising = Trigger::Edge(EdgeTrigger { index: 3, polarity: EdgePolarity::Rising });
    let rising_words = program_words_vec(&assemble(&rising, 3));
    for i in 0..12 {
        if i != 2 && i != 3 {
            assert_eq!(words[i], rising_words[i]);
        }
    }
}

#[test]
fn gate_pin_index_is_encoded_in_the_waits() {
    let t = Trigger::Edge(EdgeTrigger { index: 5, polarity: EdgePolarity::Rising });
    let words = program_words_vec(&assemble(&t, 5));
    assert_eq!(words[2], 0x2005);
    assert_eq!(words[3], 0x2085);
}

#[test]
fn compiling_twice_is_bit_identical() {
    let t1 = Trigger::Edge(EdgeTrigger { index: 0, polarity: EdgePolarity::Rising });
    let t2 = Trigger::Edge(EdgeTrigger { index: 0, polarity: EdgePolarity::Rising });
    let p1 = assemble(&t1, 0);
    let p2 = assemble(&t2, 0);
    assert_eq!(program_words_vec(&p1), program_words_vec(&p2));
    assert_eq!(program_origin_of(&p1), program_origin_of(&p2));
    assert_eq!(program_wrap_of(&p1), program_wrap_of(&p2));

    let q1 = assemble(&Trigger::Immediate, 0);
    let q2 = assemble(&Trigger::Immediate, 0);
    assert_eq!(program_words_vec(&q1), program_words_vec(&q2));
    assert_eq!(program_origin_of(&q1), program_origin_of(&q2));
    assert_eq!(program_wrap_of(&q1), program_wrap_of(&q2));
}

#[test]
fn generator_gates_on_the_trigger_pin() {
    // The coordinator compiles the prologue against the trigger's own pin
    // index, not a fixed one.
    let t = Trigger::Edge(EdgeTrigger { index: 5, polarity: EdgePolarity::Rising });
    let gen = PulseGenerator::new(t);
    let words = program_words_vec(&gen.program);
    assert_eq!(words[2], 0x2005); // wait 0 gpio 5
    assert_eq!(words[3], 0x2085); // wait 1 gpio 5

    let u = Trigger::Edge(EdgeTrigger { index: 17, polarity: EdgePolarity::Falling });
    let gen = PulseGenerator::new(u);
    let words = program_words_vec(&gen.program);
    assert_eq!(words[2], 0x2091); // wait 1 gpio 17
    assert_eq!(words[3], 0x2011); // wait 0 gpio 17
}

#[test]
fn generator_compiles_shared_program_and_two_fresh_channels() {
    let t = Trigger::Edge(EdgeTrigger { index: 0, polarity: EdgePolarity::Rising });
    let mut gen = PulseGenerator::new(t);
    assert_eq!(program_words_vec(&gen.program), EDGE_RISING_WORDS.to_vec());
    assert_eq!(program_origin_of(&gen.program), Some(0));
    assert!(gen.ch0.armed_transfer().is_none());
    assert!(gen.ch1.armed_transfer().is_none());

    // The channels are independent: arming one leaves the other untouched.
    gen.ch0.set_trigger_edge_count(1);
    gen.ch0.set_delay(10_000).unwrap();
    gen.ch0.set_width(10_000).unwrap();
    gen.ch0.arm().unwrap();
    assert_eq!(*gen.ch0.armed_transfer().unwrap().words(), vec![0, 9_999, 9_999]);
    assert!(gen.ch1.armed_transfer().is_none());

    gen.ch1.set_trigger_edge_count(1);
    gen.ch1.set_delay(20_000).unwrap();
    gen.ch1.set_width(10_000).unwrap();
    gen.ch1.set_delay(40_000).unwrap();
    gen.ch1.set_width(15_000).unwrap();
    gen.ch1.arm().unwrap();
    assert_eq!(*gen.ch1.armed_transfer().unwrap().words(), vec![0, 19_999, 9_999, 39_999, 14_999]);
    assert_eq!(*gen.ch0.armed_transfer().unwrap().words(), vec![0, 9_999, 9_999]);
}

#[test]
fn generator_with_immediate_trigger() {
    let gen = PulseGenerator::new(Trigger::Immediate);
    assert_eq!(program_words_vec(&gen.program), IMMEDIATE_WORDS.to_vec());
}
