use riko::key::{
    ctrl, parse_csi, parse_escape_sequence, parse_function_key, parse_input, parse_next,
    EditorKey, KeyStage, KeyStep,
};

#[test]
fn first_byte_table() {
    assert_eq!(parse_input(0x00), KeyStep::Done(EditorKey::Null));
    assert_eq!(parse_input(0x01), KeyStep::Done(EditorKey::Ctrl(b'A')));
    assert_eq!(parse_input(0x07), KeyStep::Done(EditorKey::Ctrl(b'G')));
    assert_eq!(parse_input(0x08), KeyStep::Done(EditorKey::BackSpace));
    assert_eq!(parse_input(0x09), KeyStep::Done(EditorKey::Ctrl(b'I')));
    assert_eq!(parse_input(0x0d), KeyStep::Done(EditorKey::Ctrl(b'M')));
    assert_eq!(parse_input(0x11), KeyStep::Done(EditorKey::Ctrl(b'Q')));
    assert_eq!(parse_input(0x13), KeyStep::Done(EditorKey::Ctrl(b'S')));
    assert_eq!(parse_input(0x1a), KeyStep::Done(EditorKey::Ctrl(b'Z')));
    assert_eq!(parse_input(0x1b), KeyStep::Pending(KeyStage::Escape));
    assert_eq!(parse_input(0x1c), KeyStep::Done(EditorKey::Ctrl(b'\\')));
    assert_eq!(parse_input(0x1f), KeyStep::Done(EditorKey::Ctrl(b'_')));
    assert_eq!(parse_input(b' '), KeyStep::Done(EditorKey::Char(b' ')));
    assert_eq!(parse_input(b'a'), KeyStep::Done(EditorKey::Char(b'a')));
    assert_eq!(parse_input(b'~'), KeyStep::Done(EditorKey::Char(b'~')));
    assert_eq!(parse_input(0x7f), KeyStep::Done(EditorKey::Delete));
    assert_eq!(parse_input(0x80), KeyStep::Done(EditorKey::Undefined));
    assert_eq!(parse_input(0xff), KeyStep::Done(EditorKey::Undefined));
}

#[test]
fn printable_bytes_are_chars() {
    for b in 0x20u8..=0x7e {
        assert_eq!(parse_input(b), KeyStep::Done(EditorKey::Char(b)));
    }
}

#[test]
fn escape_table() {
    assert_eq!(parse_escape_sequence(b'['), KeyStep::Pending(KeyStage::Csi));
    assert_eq!(parse_escape_sequence(b'O'), KeyStep::Done(EditorKey::Undefined));
    assert_eq!(parse_escape_sequence(0), KeyStep::Done(EditorKey::Undefined));
}

#[test]
fn csi_table() {
    assert_eq!(parse_csi(b'A'), KeyStep::Done(EditorKey::ArrowUp));
    assert_eq!(parse_csi(b'B'), KeyStep::Done(EditorKey::ArrowDown));
    assert_eq!(parse_csi(b'C'), KeyStep::Done(EditorKey::ArrowRight));
    assert_eq!(parse_csi(b'D'), KeyStep::Done(EditorKey::ArrowLeft));
    assert_eq!(parse_csi(b'H'), KeyStep::Done(EditorKey::Home));
    assert_eq!(parse_csi(b'F'), KeyStep::Done(EditorKey::End));
    assert_eq!(parse_csi(b'O'), KeyStep::Pending(KeyStage::FunctionKey));
    assert_eq!(parse_csi(b'1'), KeyStep::Pending(KeyStage::FunctionKey));
    assert_eq!(parse_csi(b'2'), KeyStep::Pending(KeyStage::FunctionKey));
    assert_eq!(parse_csi(b'3'), KeyStep::Done(EditorKey::Delete));
    assert_eq!(parse_csi(b'5'), KeyStep::Done(EditorKey::PageUp));
    assert_eq!(parse_csi(b'6'), KeyStep::Done(EditorKey::PageDown));
    assert_eq!(parse_csi(b'Z'), KeyStep::Done(EditorKey::Undefined));
}

#[test]
fn function_key_table() {
    let codes = [b'P', b'Q', b'R', b'S', b'5', b'7', b'8', b'9', b'0', b'1', b'3', b'4'];
    for (i, c) in codes.iter().enumerate() {
        assert_eq!(parse_function_key(*c), EditorKey::Function(i as u8 + 1));
    }
    assert_eq!(parse_function_key(b'2'), EditorKey::Undefined);
    assert_eq!(parse_function_key(b'x'), EditorKey::Undefined);
}

#[test]
fn parse_next_dispatches_on_stage() {
    assert_eq!(parse_next(KeyStage::Escape, b'['), KeyStep::Pending(KeyStage::Csi));
    assert_eq!(parse_next(KeyStage::Csi, b'A'), KeyStep::Done(EditorKey::ArrowUp));
    assert_eq!(
        parse_next(KeyStage::FunctionKey, b'P'),
        KeyStep::Done(EditorKey::Function(1))
    );
}

#[test]
fn decode_arrow_sequence() {
    let bytes = [0x1bu8, b'[', b'D'];
    let mut step = parse_input(bytes[0]);
    let mut i = 1;
    while let KeyStep::Pending(stage) = step {
        step = parse_next(stage, bytes[i]);
        i += 1;
    }
    assert_eq!(step, KeyStep::Done(EditorKey::ArrowLeft));
    assert_eq!(i, 3);
}

#[test]
fn ctrl_keeps_low_five_bits() {
    assert_eq!(ctrl('q'), EditorKey::Char(17));
    assert_eq!(ctrl('Q'), EditorKey::Char(17));
    assert_eq!(ctrl('a'), EditorKey::Char(1));
    assert_eq!(ctrl('@'), EditorKey::Char(0));
    assert_eq!(ctrl('\u{141}'), EditorKey::Char(1));
}
