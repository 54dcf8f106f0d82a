use pulse_generator::decode_stream;
use pulse_generator::encode_stream;

#[test]
fn encode_single_pair() {
    let words = encode_stream(0, &vec![9], &vec![9]);
    assert_eq!(words, vec![0, 9, 9]);
}

#[test]
fn encode_length_is_one_plus_two_k() {
    for k in 0..33usize {
        let delay: Vec<u32> = (0..k as u32).collect();
        let width: Vec<u32> = (0..k as u32).map(|x| x + 100).collect();
        let words = encode_stream(7, &delay, &width);
        assert_eq!(words.len(), 1 + 2 * k);
    }
}

#[test]
fn encode_interleaves_in_order() {
    let words = encode_stream(3, &vec![10, 20, 30], &vec![11, 21, 31]);
    assert_eq!(words, vec![3, 10, 11, 20, 21, 30, 31]);
}

#[test]
fn decode_recovers_encoded_stream() {
    let delay = vec![1, 2, 3];
    let width = vec![4, 5, 6];
    let words = encode_stream(42, &delay, &width);
    let (count, d, w) = decode_stream(&words).unwrap();
    assert_eq!(count, 42);
    assert_eq!(d, delay);
    assert_eq!(w, width);
}

#[test]
fn decode_count_only_stream() {
    let (count, d, w) = decode_stream(&vec![5]).unwrap();
    assert_eq!(count, 5);
    assert!(d.is_empty());
    assert!(w.is_empty());
}

#[test]
fn decode_rejects_even_length() {
    assert!(decode_stream(&vec![]).is_none());
    assert!(decode_stream(&vec![1, 2]).is_none());
    assert!(decode_stream(&vec![1, 2, 3, 4]).is_none());
}
