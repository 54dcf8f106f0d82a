use vstd::prelude::*;

verus! {

/// The flat word stream one arm cycle delivers to the sequencer's input
/// queue: the arm-count word first, then the stored delay and width of each
/// step, in execution order.
pub open spec fn word_stream(count: u32, delay: Seq<u32>, width: Seq<u32>) -> Seq<u32> {
    Seq::new(
        1 + 2 * delay.len(),
        |i: int|
            if i == 0 {
                count
            } else if (i - 1) % 2 == 0 {
                delay[(i - 1) / 2]
            } else {
                width[(i - 1) / 2]
            },
    )
}

/// The delay words of a stream: every second word after the arm count.
pub open spec fn stream_delays(s: Seq<u32>) -> Seq<u32> {
    Seq::new(((s.len() - 1) / 2) as nat, |i: int| s[1 + 2 * i])
}

/// The width words of a stream: the word following each delay word.
pub open spec fn stream_widths(s: Seq<u32>) -> Seq<u32> {
    Seq::new(((s.len() - 1) / 2) as nat, |i: int| s[2 + 2 * i])
}

/// Flatten the arm count and the parallel step lists into the word stream
/// the DMA engine feeds to the sequencer.
pub fn encode_stream(count: u32, delay: &Vec<u32>, width: &Vec<u32>) -> (words: Vec<u32>)
    requires
        delay@.len() == width@.len(),
    ensures
        words@ == word_stream(count, delay@, width@),
        words@.len() == 1 + 2 * delay@.len(),
{
    let mut words: Vec<u32> = Vec::new();
    words.push(count);
    let mut i: usize = 0;
    while i < delay.len()
        invariant
            i <= delay@.len(),
            delay@.len() == width@.len(),
            words@.len() == 1 + 2 * i,
            forall|j: int| 0 <= j < words@.len() ==> words@[j] == word_stream(count, delay@, width@)[j],
        decreases delay@.len() - i,
    {
        words.push(delay[i]);
        words.push(width[i]);
        i = i + 1;
    }
    proof {
        assert(words@ =~= word_stream(count, delay@, width@));
    }
    words
}

/// Split a word stream back into its arm count and its ordered delay and
/// width lists. Succeeds exactly on the streams the encoder can produce:
/// an arm-count word followed by whole pairs.
pub fn decode_stream(words: &Vec<u32>) -> (r: Option<(u32, Vec<u32>, Vec<u32>)>)
    ensures
        r is Some <==> words@.len() % 2 == 1,
        r matches Some(t) ==> {
            &&& t.0 == words@[0]
            &&& t.1@ == stream_delays(words@)
            &&& t.2@ == stream_widths(words@)
            &&& words@ == word_stream(t.0, t.1@, t.2@)
        },
{
    if words.len() % 2 != 1 {
        return None;
    }
    let count = words[0];
    let pairs = (words.len() - 1) / 2;
    let mut delay: Vec<u32> = Vec::new();
    let mut width: Vec<u32> = Vec::new();
    let mut i: usize = 0;
    while i < pairs
        invariant
            i <= pairs,
            words@.len() % 2 == 1,
            pairs == (words@.len() - 1) / 2,
            pairs <= usize::MAX / 2,
            delay@.len() == i,
            width@.len() == i,
            forall|j: int| 0 <= j < i ==> delay@[j] == words@[1 + 2 * j],
            forall|j: int| 0 <= j < i ==> width@[j] == words@[2 + 2 * j],
        decreases pairs - i,
    {
        delay.push(words[1 + 2 * i]);
        width.push(words[2 + 2 * i]);
        i = i + 1;
    }
    proof {
        assert(delay@ =~= stream_delays(words@));
        assert(width@ =~= stream_widths(words@));
        assert(words@ =~= word_stream(count, delay@, width@));
    }
    Some((count, delay, width))
}

/// Round trip: encoding `k` steps yields a stream of length `1 + 2 * k`, and
/// reading the stream back recovers the arm count and the ordered
/// (delay, width) pairs exactly.
pub proof fn lemma_stream_round_trip(count: u32, delay: Seq<u32>, width: Seq<u32>)
    requires
        delay.len() == width.len(),
    ensures
        word_stream(count, delay, width).len() == 1 + 2 * delay.len(),
        word_stream(count, delay, width)[0] == count,
        stream_delays(word_stream(count, delay, width)) == delay,
        stream_widths(word_stream(count, delay, width)) == width,
{
    assert(stream_delays(word_stream(count, delay, width)) =~= delay);
    assert(stream_widths(word_stream(count, delay, width)) =~= width);
}

} // verus!
