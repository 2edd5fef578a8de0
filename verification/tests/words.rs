use gbcore::util::{pack_words, split_doubleword, split_word};

#[test]
fn split_doubleword_functions() {
    let value = 0xDEAD;
    let sampled = split_doubleword(value);
    let expected: (u8, u8) = (0xAD, 0xDE);
    assert_eq!(expected, sampled);
}

#[test]
fn pack_words_functions() {
    let (lo, hi): (u8, u8) = (0xAD, 0xDE);
    let expected = 0xDEAD;
    let sampled = pack_words(lo, hi);
    assert_eq!(expected, sampled);
}

#[test]
fn split_word_functions() {
    let value = 0xAB;
    let expected = (0xB, 0xA);
    let sampled = split_word(value);
    assert_eq!(expected, sampled);
}

#[test]
fn split_then_pack_round_trips() {
    let samples: Vec<u16> = vec![0x0000, 0x0001, 0x00FF, 0x0100, 0x1234, 0x8000, 0xFFFF];
    for value in samples {
        let (lo, hi) = split_doubleword(value);
        assert_eq!(pack_words(lo, hi), value);
    }
}
