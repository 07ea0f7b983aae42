use encoding::all::WINDOWS_1253 as CODEC;
use encoding::{DecoderTrap, EncoderTrap, Encoding};
use encripta::shift::{shift_backward, shift_forward};
use encripta::{backward, forward, text_or_raw, ShiftError, MAGIC};
use std::borrow::Cow;

const TESTS: [(&str, &str); 1] = [("10.10.70.32", "„yot]ƒ…zp†{")];

fn forward_bytes(text: &str) -> Vec<u8> {
    let mut bytes = CODEC.encode(text, EncoderTrap::Strict).unwrap();
    shift_forward(&mut bytes, &MAGIC);
    bytes
}

fn backward_bytes(text: &str) -> Vec<u8> {
    let mut bytes = CODEC.encode(text, EncoderTrap::Strict).unwrap();
    shift_backward(&mut bytes, &MAGIC);
    bytes
}

#[test]
fn lib_forwards() {
    for (s, d) in TESTS {
        let r: String = forward(s, &MAGIC).unwrap();
        println!("{s} => {}", r.as_str());
        assert_eq!(r.as_str(), d);
    }
}

#[test]
fn lib_backward() {
    for (s, d) in TESTS {
        let r = backward(d, &MAGIC).unwrap();
        println!("{d} => {}", r.as_str());
        assert_eq!(s, r.as_str());
    }
}

#[test]
fn lib_roundtrip() {
    for (s, d) in TESTS {
        let r: String = forward(s, &MAGIC).unwrap();
        let b: String = backward(r.as_str(), &MAGIC).unwrap();
        println!("{s} => {} => {}", r.as_str(), b.as_str());
        assert_eq!(b.as_str(), s);

        let r: String = backward(d, &MAGIC).unwrap();
        let b: String = forward(r.as_str(), &MAGIC).unwrap();
        println!("{d} => {} => {}", r.as_str(), b.as_str(),);
        assert_eq!(forward(r.as_str(), &MAGIC).unwrap().as_str(), d);
    }
}

#[test]
fn test_forwards() {
    for (s, d) in TESTS {
        let r = forward_bytes(s);
        let dd = CODEC.encode(d, EncoderTrap::NcrEscape).unwrap();
        assert_eq!(r.as_slice(), dd.as_slice());
    }
}

#[test]
fn test_backward() {
    for (s, d) in TESTS {
        let r = backward_bytes(d);
        assert_eq!(s.as_bytes(), r.as_slice());
    }
}

#[test]
fn test_roundtrip() {
    for (s, d) in TESTS {
        let r: String = CODEC.decode(&forward_bytes(s), DecoderTrap::Strict).unwrap();
        assert_eq!(
            CODEC.decode(backward_bytes(r.as_str()).as_slice(), DecoderTrap::Strict).unwrap(),
            s
        );
        let r: String = CODEC.decode(&backward_bytes(d), DecoderTrap::Strict).unwrap();
        assert_eq!(
            CODEC.decode(forward_bytes(r.as_str()).as_slice(), DecoderTrap::Strict).unwrap(),
            d
        );
    }
}

#[test]
fn magic_is_the_ascii_of_the_default_key() {
    assert_eq!(&MAGIC[..], "SIAC-UNJB".as_bytes());
    assert_eq!(MAGIC.len(), 9);
}

#[test]
fn empty_key_is_refused_forward() {
    for text in ["", "10.10.70.32", "„yot]ƒ…zp†{", "日本語", "\u{0}"] {
        match forward(text, &[]) {
            Err(ShiftError::InvalidCypher(message)) => assert_eq!(message, "Cypher can't be empty"),
            other => panic!("{:?}", other),
        }
    }
}

#[test]
fn empty_key_is_refused_backward() {
    for text in ["", "10.10.70.32", "„yot]ƒ…zp†{", "日本語", "\u{0}"] {
        match backward(text, &[]) {
            Err(ShiftError::InvalidCypher(message)) => assert_eq!(message, "Cypher can't be empty"),
            other => panic!("{:?}", other),
        }
    }
}

#[test]
fn empty_key_is_looked_at_before_the_text() {
    assert!(matches!(forward("日本語", &[]), Err(ShiftError::InvalidCypher(_))));
    assert!(matches!(forward("日本語", &[1]), Err(ShiftError::NonRepresentableInput(_))));
    assert!(matches!(backward("日本語", &[]), Err(ShiftError::InvalidCypher(_))));
    assert!(matches!(backward("日本語", &[1]), Err(ShiftError::NonRepresentableInput(_))));
}

#[test]
fn text_outside_the_character_set_is_refused() {
    match forward("abc日", &MAGIC) {
        Err(ShiftError::NonRepresentableInput(cause)) => {
            assert_eq!(cause, "unrepresentable character")
        },
        other => panic!("{:?}", other),
    }
    match backward("ж", &MAGIC) {
        Err(ShiftError::NonRepresentableInput(cause)) => {
            assert_eq!(cause, "unrepresentable character")
        },
        other => panic!("{:?}", other),
    }
}

#[test]
fn empty_text_stays_empty() {
    assert_eq!(forward("", &MAGIC).unwrap(), "");
    assert_eq!(backward("", &MAGIC).unwrap(), "");
}

#[test]
fn zero_key_changes_nothing() {
    assert_eq!(forward("Καλημέρα, κόσμε!", &[0]).unwrap(), "Καλημέρα, κόσμε!");
    assert_eq!(backward("Καλημέρα, κόσμε!", &[0, 0, 0]).unwrap(), "Καλημέρα, κόσμε!");
}

#[test]
fn forward_wraps_past_the_last_byte() {
    // 'ώ' is byte 0xFE: two more wrap to 0x00.
    assert_eq!(forward("ώ", &[0x02]).unwrap(), "\u{0}");
    // and three more to 0x01.
    assert_eq!(forward("ώ", &[0x03]).unwrap(), "\u{1}");
}

#[test]
fn backward_wraps_below_zero() {
    // byte 0x00 less one is 0xFF, which stands for no character.
    match backward("\u{0}", &[0x01]) {
        Err(ShiftError::NonRepresentableOutput((raw, cause))) => {
            assert_eq!(raw, vec![0xFF]);
            assert_eq!(cause, "invalid sequence");
        },
        other => panic!("{:?}", other),
    }
    // byte 0x00 less two is 0xFE, 'ώ'.
    assert_eq!(backward("\u{0}", &[0x02]).unwrap(), "ώ");
}

#[test]
fn key_repeats_over_the_text() {
    // key bytes 1, 2 fall on positions 0, 1, 2, 3, 4 as 1, 2, 1, 2, 1
    assert_eq!(forward("aaaaa", &[1, 2]).unwrap(), "bcbcb");
    assert_eq!(backward("bcbcb", &[1, 2]).unwrap(), "aaaaa");
    // a key longer than the text is used as far as the text goes
    assert_eq!(forward("ab", &[1, 1, 7, 7, 7]).unwrap(), "bc");
}

#[test]
fn output_has_one_character_for_each_of_the_input() {
    for text in ["", "a", "10.10.70.32", "Καλημέρα", "„yot]ƒ…zp†{"] {
        for key in [&MAGIC[..], &[1][..], &[200, 3][..]] {
            if let Ok(shifted) = forward(text, key) {
                assert_eq!(shifted.chars().count(), text.chars().count());
            }
            if let Ok(shifted) = backward(text, key) {
                assert_eq!(shifted.chars().count(), text.chars().count());
            }
        }
    }
}

#[test]
fn raw_output_is_the_shifted_buffer_forward() {
    // 'A' is 0x41; 0x41 + 0x69 is 0xAA, which stands for no character.
    match forward("A", &[0x69]) {
        Err(ShiftError::NonRepresentableOutput((raw, cause))) => {
            assert_eq!(raw, vec![0xAA]);
            assert_eq!(cause, "invalid sequence");
        },
        other => panic!("{:?}", other),
    }
    // the whole buffer comes back, also the bytes around the one at fault
    let text = "xAy„";
    let key = [0x69, 0x69, 0x01];
    let mut expected = CODEC.encode(text, EncoderTrap::Strict).unwrap();
    assert_eq!(expected, vec![0x78, 0x41, 0x79, 0x84]);
    shift_forward(&mut expected, &key);
    assert_eq!(expected, vec![0xE1, 0xAA, 0x7A, 0xED]);
    match forward(text, &key) {
        Err(ShiftError::NonRepresentableOutput((raw, _))) => assert_eq!(raw, expected),
        other => panic!("{:?}", other),
    }
}

#[test]
fn raw_output_is_the_shifted_buffer_backward() {
    // 'Σ' is 0xD3; 0xD3 - 1 is 0xD2, which stands for no character.
    let text = "aΣb";
    let key = [1];
    match backward(text, &key) {
        Err(ShiftError::NonRepresentableOutput((raw, cause))) => {
            assert_eq!(raw, vec![0x60, 0xD2, 0x61]);
            assert_eq!(cause, "invalid sequence");
        },
        other => panic!("{:?}", other),
    }
}

#[test]
fn text_or_raw_keeps_the_text() {
    let r = text_or_raw(vec![1, 2, 3], Ok(String::from("abc")));
    assert_eq!(r.unwrap(), "abc");
}

#[test]
fn text_or_raw_keeps_the_bytes_and_the_cause() {
    match text_or_raw(vec![0xAA, 0x41], Err(Cow::Borrowed("invalid sequence"))) {
        Err(ShiftError::NonRepresentableOutput((raw, cause))) => {
            assert_eq!(raw, vec![0xAA, 0x41]);
            assert_eq!(cause, "invalid sequence");
        },
        other => panic!("{:?}", other),
    }
    match text_or_raw(Vec::new(), Err(Cow::Owned(String::from("why")))) {
        Err(ShiftError::NonRepresentableOutput((raw, cause))) => {
            assert_eq!(raw, Vec::<u8>::new());
            assert_eq!(cause, "why");
        },
        other => panic!("{:?}", other),
    }
}

#[test]
fn backward_undoes_forward_where_the_text_allows() {
    for text in ["10.10.70.32", "hello, world", "0123456789"] {
        let shifted = forward(text, &MAGIC).unwrap();
        assert_eq!(backward(shifted.as_str(), &MAGIC).unwrap(), text);
    }
}
