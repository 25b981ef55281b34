use rasm::assembler::Pass;
use rasm::errors::{ErrorKind, ErrorMsg};
use rasm::instructions::{addr_default, get_instruction_bytes, AddressMode};
use rasm::opcodes::opcode_row;
use rasm::symbols::SymbolTable;
use rasm::target::{char_format, Target};
use rasm::utility::{hi8, lo8, parse_expression, parse_num, parse_value};

#[test]
fn lo8_hi8_split_a_word() {
    assert_eq!(lo8(0x1234), 0x34);
    assert_eq!(hi8(0x1234), 0x12);
    assert_eq!(lo8(0x00ff), 0xff);
    assert_eq!(hi8(0x00ff), 0x00);
}

#[test]
fn parse_num_hexadecimal() {
    assert_eq!(parse_num(b"$ff"), Some(0xff));
    assert_eq!(parse_num(b"$FF"), Some(0xff));
    assert_eq!(parse_num(b"$c000"), Some(0xc000));
    assert_eq!(parse_num(b"$"), None);
    assert_eq!(parse_num(b"$g1"), None);
    assert_eq!(parse_num(b"$10000"), None);
}

#[test]
fn parse_num_binary() {
    assert_eq!(parse_num(b"%1010"), Some(10));
    assert_eq!(parse_num(b"%2"), None);
    assert_eq!(parse_num(b"%"), None);
}

#[test]
fn parse_num_decimal() {
    assert_eq!(parse_num(b"0"), Some(0));
    assert_eq!(parse_num(b"65535"), Some(65535));
    assert_eq!(parse_num(b"65536"), None);
    assert_eq!(parse_num(b""), None);
    assert_eq!(parse_num(b"12a"), None);
}

#[test]
fn parse_num_char_literal() {
    assert_eq!(parse_num(b"'A'"), Some(0x41));
    assert_eq!(parse_num(b"\"z\""), Some(0x7a));
    assert_eq!(parse_num(b"'"), None);
}

#[test]
fn parse_value_checks_constants_before_labels() {
    let mut constants = SymbolTable::new();
    let mut labels = SymbolTable::new();
    constants.insert(b"x".to_vec(), 1);
    labels.insert(b"x".to_vec(), 2);
    labels.insert(b"y".to_vec(), 3);
    assert_eq!(parse_value(b"x", &constants, &labels), Some(1));
    assert_eq!(parse_value(b"y", &constants, &labels), Some(3));
    assert_eq!(parse_value(b"z", &constants, &labels), None);
    assert_eq!(parse_value(b"7", &constants, &labels), Some(7));
}

#[test]
fn parse_expression_selectors_and_arithmetic() {
    let mut constants = SymbolTable::new();
    let labels = SymbolTable::new();
    constants.insert(b"addr".to_vec(), 0x1234);
    assert_eq!(parse_expression(b"addr", &constants, &labels), Some(0x1234));
    assert_eq!(parse_expression(b"<addr", &constants, &labels), Some(0x34));
    assert_eq!(parse_expression(b">addr", &constants, &labels), Some(0x12));
    assert_eq!(parse_expression(b"addr + 1", &constants, &labels), Some(0x1235));
    assert_eq!(parse_expression(b"addr - 1", &constants, &labels), Some(0x1233));
    assert_eq!(parse_expression(b"<addr + $100", &constants, &labels), Some(0x34));
    assert_eq!(parse_expression(b"missing + 1", &constants, &labels), None);
}

#[test]
fn parse_expression_wraps_modulo_2_16() {
    let constants = SymbolTable::new();
    let labels = SymbolTable::new();
    assert_eq!(parse_expression(b"$ffff + 2", &constants, &labels), Some(1));
    assert_eq!(parse_expression(b"0 - 1", &constants, &labels), Some(0xffff));
}

#[test]
fn char_format_c64_lowercase_mapping() {
    assert_eq!(char_format(b'a', &Target::C64), 0x01);
    assert_eq!(char_format(b'z', &Target::C64), 0x1a);
    assert_eq!(char_format(b'A', &Target::C64), 0x41);
    assert_eq!(char_format(b'0', &Target::C64), 0x30);
    assert_eq!(char_format(0x60, &Target::C64), 0x60);
    assert_eq!(char_format(0x7b, &Target::C64), 0x7b);
}

#[test]
fn target_from_string_always_lands_on_c64() {
    assert_eq!(Target::from_string("C64"), Target::C64);
    assert_eq!(Target::from_string("c64"), Target::C64);
    assert_eq!(Target::from_string("amiga"), Target::C64);
}

#[test]
fn error_msg_new_keeps_its_parts() {
    let e = ErrorMsg::new(String::from("went wrong"), 7);
    assert_eq!(e.line_num, 7);
    assert_eq!(e.msg, "went wrong");
}

#[test]
fn get_instruction_bytes_encodes_each_form() {
    let constants = SymbolTable::new();
    let labels = SymbolTable::new();
    let enc = |m: &[u8], op: &[u8]| {
        get_instruction_bytes(m, op, &constants, &labels, &labels, 0x0801, 1, Pass::Main)
    };
    assert_eq!(enc(b"lda", b"#$01").unwrap(), vec![0xa9, 0x01]);
    assert_eq!(enc(b"lda", b"$10").unwrap(), vec![0xa5, 0x10]);
    assert_eq!(enc(b"lda", b"$1234").unwrap(), vec![0xad, 0x34, 0x12]);
    assert_eq!(enc(b"nop", b"").unwrap(), vec![0xea]);
    assert_eq!(enc(b"jmp", b"($fffc)").unwrap(), vec![0x6c, 0xfc, 0xff]);
    assert_eq!(enc(b"xyz", b"").err().unwrap().kind, ErrorKind::UnknownMnemonic);
    assert_eq!(enc(b"sta", b"#1").err().unwrap().kind, ErrorKind::IllegalAddressMode);
}

#[test]
fn get_instruction_bytes_placeholder_widens_in_label_pass() {
    let constants = SymbolTable::new();
    let labels = SymbolTable::new();
    // An unresolved symbol before pass Main stands in as 0xFFFF, so the
    // instruction gets its widest (absolute) form.
    let b = get_instruction_bytes(
        b"lda", b"later", &constants, &labels, &labels, 0x0801, 1, Pass::Label,
    )
    .unwrap();
    assert_eq!(b.len(), 3);
    let e = get_instruction_bytes(
        b"lda", b"later", &constants, &labels, &labels, 0x0801, 1, Pass::Main,
    )
    .err()
    .unwrap();
    assert_eq!(e.kind, ErrorKind::UndefinedSymbol);
}

#[test]
fn forward_reference_keeps_instruction_width() {
    // Pass length stability: a forward reference classifies against the
    // labels seen so far, so even a label that ends up in the zero page
    // keeps the wide form pass Label chose.
    let constants = SymbolTable::new();
    let mut labels = SymbolTable::new();
    let seen = SymbolTable::new();
    let label_pass = get_instruction_bytes(
        b"lda", b"later", &constants, &seen, &seen, 0x0050, 1, Pass::Label,
    )
    .unwrap();
    labels.insert(b"later".to_vec(), 0x0053);
    let main_pass = get_instruction_bytes(
        b"lda", b"later", &constants, &labels, &seen, 0x0050, 1, Pass::Main,
    )
    .unwrap();
    assert_eq!(label_pass.len(), main_pass.len());
    assert_eq!(main_pass, vec![0xad, 0x53, 0x00]);
}

#[test]
fn backward_reference_in_zero_page_stays_narrow() {
    // A label already seen when the operand is classified keeps the
    // one-byte zero-page form in both passes.
    let constants = SymbolTable::new();
    let mut seen = SymbolTable::new();
    seen.insert(b"zp".to_vec(), 0x0050);
    let b = get_instruction_bytes(
        b"lda", b"zp", &constants, &seen, &seen, 0x0051, 1, Pass::Main,
    )
    .unwrap();
    assert_eq!(b, vec![0xa5, 0x50]);
}

#[test]
fn addr_default_selects_relative_form_for_branches() {
    let constants = SymbolTable::new();
    let labels = SymbolTable::new();
    let row = opcode_row(b'b', b'n', b'e').unwrap();
    let (mode, bytes) =
        addr_default(b"$0800", &row, &constants, &labels, &labels, 0x0800, 1, Pass::Main).unwrap();
    assert_eq!(mode, AddressMode::Relative);
    assert_eq!(bytes, vec![0xfe]);
    let e = addr_default(b"$1000", &row, &constants, &labels, &labels, 0x0800, 1, Pass::Main)
        .err()
        .unwrap();
    assert_eq!(e.kind, ErrorKind::BranchOutOfRange);
}

#[test]
fn addr_default_zeropage_boundary() {
    let constants = SymbolTable::new();
    let labels = SymbolTable::new();
    let row = opcode_row(b'l', b'd', b'a').unwrap();
    let (mode, bytes) =
        addr_default(b"$ff", &row, &constants, &labels, &labels, 0x0801, 1, Pass::Main).unwrap();
    assert_eq!(mode, AddressMode::Zeropage);
    assert_eq!(bytes, vec![0xff]);
    let (mode, bytes) =
        addr_default(b"$100", &row, &constants, &labels, &labels, 0x0801, 1, Pass::Main).unwrap();
    assert_eq!(mode, AddressMode::Absolute);
    assert_eq!(bytes, vec![0x00, 0x01]);
}

#[test]
fn address_mode_is_plain_data() {
    assert_eq!(AddressMode::Implied, AddressMode::Implied);
    assert_ne!(AddressMode::Zeropage, AddressMode::Absolute);
}
