use swb_reader::program::Instruction;
use swb_reader::program::Program;
use swb_reader::program::StyleVar;
use swb_reader::program::TextAddress;
use swb_reader::render::render_pass;

fn addr(offset: usize, len: usize) -> TextAddress {
    TextAddress { offset, len }
}

fn hello_world_program() -> Program {
    Program {
        code: vec![
            Instruction::Text(addr(0, 5)),
            Instruction::Endl,
            Instruction::Push(StyleVar::Bold),
            Instruction::Text(addr(5, 5)),
            Instruction::Pop(StyleVar::Bold),
            Instruction::Stop,
        ],
        text: b"HelloWorld".to_vec(),
    }
}

#[test]
fn hello_world_page() {
    // Two visible lines: "Hello" plain, then "World" bold, in that order.
    let page = render_pass(&hello_world_program(), 0, 3);
    assert_eq!(page.lines.len(), 2);
    assert_eq!(page.lines[0].text, b"Hello".to_vec());
    assert!(!page.lines[0].bold);
    assert_eq!(page.lines[1].text, b"World".to_vec());
    assert!(page.lines[1].bold);
    // The Endl between them consumed a viewport row.
    assert_eq!(page.lines[0].row, 0);
    assert_eq!(page.lines[1].row, 2);
}

#[test]
fn page_never_exceeds_viewport_capacity() {
    let p = Program {
        code: vec![
            Instruction::Text(addr(0, 1)),
            Instruction::Text(addr(1, 1)),
            Instruction::Text(addr(2, 1)),
            Instruction::Text(addr(3, 1)),
            Instruction::Text(addr(4, 1)),
        ],
        text: b"abcde".to_vec(),
    };
    let page = render_pass(&p, 0, 2);
    assert_eq!(page.lines.len(), 2);
    assert_eq!(page.lines[0].text, b"a".to_vec());
    assert_eq!(page.lines[1].text, b"b".to_vec());
}

#[test]
fn zero_capacity_renders_nothing() {
    let page = render_pass(&hello_world_program(), 0, 0);
    assert_eq!(page.lines.len(), 0);
}

#[test]
fn stop_terminates_the_pass() {
    let p = Program {
        code: vec![
            Instruction::Text(addr(0, 1)),
            Instruction::Stop,
            Instruction::Text(addr(1, 1)),
        ],
        text: b"ab".to_vec(),
    };
    let page = render_pass(&p, 0, 5);
    assert_eq!(page.lines.len(), 1);
    assert_eq!(page.lines[0].text, b"a".to_vec());
}

#[test]
fn scrolling_past_the_end_yields_a_blank_page() {
    let page = render_pass(&hello_world_program(), 50, 3);
    assert_eq!(page.lines.len(), 0);
}

#[test]
fn style_instructions_apply_while_lines_are_skipped() {
    // The Push sits before the window; the line scrolled into view must
    // still come out bold.
    let p = Program {
        code: vec![
            Instruction::Push(StyleVar::Bold),
            Instruction::Text(addr(0, 1)),
            Instruction::Pop(StyleVar::Bold),
            Instruction::Text(addr(1, 1)),
            Instruction::Push(StyleVar::Bold),
            Instruction::Text(addr(2, 1)),
        ],
        text: b"abc".to_vec(),
    };
    let page = render_pass(&p, 2, 4);
    assert_eq!(page.lines.len(), 1);
    assert_eq!(page.lines[0].text, b"c".to_vec());
    assert!(page.lines[0].bold);
}

#[test]
fn skipped_lines_do_not_consume_viewport_rows() {
    let p = Program {
        code: vec![
            Instruction::Text(addr(0, 1)),
            Instruction::Text(addr(1, 1)),
            Instruction::Text(addr(2, 1)),
        ],
        text: b"abc".to_vec(),
    };
    let page = render_pass(&p, 2, 3);
    assert_eq!(page.lines.len(), 1);
    assert_eq!(page.lines[0].text, b"c".to_vec());
    assert_eq!(page.lines[0].row, 0);
}

#[test]
fn endl_visibility_threshold_differs_from_text() {
    // With start_line = 1 a Text counted as line 1 is skipped, but an Endl
    // counted as line 1 already consumes a row.
    let text_first = Program {
        code: vec![Instruction::Text(addr(0, 1)), Instruction::Text(addr(1, 1))],
        text: b"ab".to_vec(),
    };
    let page = render_pass(&text_first, 1, 3);
    assert_eq!(page.lines.len(), 1);
    assert_eq!(page.lines[0].text, b"b".to_vec());
    assert_eq!(page.lines[0].row, 0);

    let endl_first = Program {
        code: vec![Instruction::Endl, Instruction::Text(addr(0, 1))],
        text: b"a".to_vec(),
    };
    let page = render_pass(&endl_first, 1, 3);
    assert_eq!(page.lines.len(), 1);
    assert_eq!(page.lines[0].text, b"a".to_vec());
    assert_eq!(page.lines[0].row, 1);
}

#[test]
fn unmatched_pop_leaves_style_inactive() {
    let p = Program {
        code: vec![
            Instruction::Pop(StyleVar::Bold),
            Instruction::Text(addr(0, 1)),
        ],
        text: b"a".to_vec(),
    };
    let page = render_pass(&p, 0, 3);
    assert_eq!(page.lines.len(), 1);
    assert!(!page.lines[0].bold);
}

#[test]
fn empty_program_renders_nothing() {
    let page = render_pass(&Program::new(), 0, 7);
    assert_eq!(page.lines.len(), 0);
}
