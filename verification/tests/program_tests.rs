use swb_reader::program::Instruction;
use swb_reader::program::Program;
use swb_reader::program::TextAddress;

#[test]
fn text_slice_returns_the_addressed_bytes() {
    let p = Program { code: vec![], text: b"HelloWorld".to_vec() };
    let got = p.text_slice(TextAddress { offset: 5, len: 5 });
    assert_eq!(got, Some(b"World".to_vec()));
}

#[test]
fn text_slice_of_whole_blob_and_empty_range() {
    let p = Program { code: vec![], text: b"abc".to_vec() };
    assert_eq!(p.text_slice(TextAddress { offset: 0, len: 3 }), Some(b"abc".to_vec()));
    assert_eq!(p.text_slice(TextAddress { offset: 3, len: 0 }), Some(vec![]));
}

#[test]
fn text_slice_fails_out_of_range_instead_of_truncating() {
    let p = Program { code: vec![], text: b"abc".to_vec() };
    assert_eq!(p.text_slice(TextAddress { offset: 1, len: 3 }), None);
    assert_eq!(p.text_slice(TextAddress { offset: 4, len: 0 }), None);
    assert_eq!(p.text_slice(TextAddress { offset: usize::MAX, len: 1 }), None);
}

#[test]
fn validate_accepts_in_bounds_addresses() {
    let p = Program {
        code: vec![
            Instruction::Text(TextAddress { offset: 0, len: 2 }),
            Instruction::Endl,
            Instruction::Text(TextAddress { offset: 2, len: 1 }),
            Instruction::Stop,
        ],
        text: b"abc".to_vec(),
    };
    assert!(p.validate());
}

#[test]
fn validate_rejects_an_out_of_bounds_address() {
    let p = Program {
        code: vec![Instruction::Text(TextAddress { offset: 2, len: 2 })],
        text: b"abc".to_vec(),
    };
    assert!(!p.validate());
}

#[test]
fn empty_program_is_well_formed() {
    assert!(Program::new().validate());
}
