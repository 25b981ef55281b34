use rasm::assembler::assemble_program;
use rasm::errors::ErrorKind;
use rasm::target::Target;

fn lines_of(src: &str) -> Vec<Vec<u8>> {
    src.split('\n').map(|l| l.as_bytes().to_vec()).collect()
}

fn run(src: &str) -> Vec<u8> {
    assemble_program(&lines_of(src), Target::C64).expect("assembly should succeed")
}

fn run_err(src: &str) -> rasm::errors::ErrorMsg {
    assemble_program(&lines_of(src), Target::C64).err().expect("assembly should fail")
}

#[test]
fn immediate_with_default_origin() {
    assert_eq!(run("lda #$01"), vec![0x01, 0x08, 0xa9, 0x01]);
}

#[test]
fn label_loop_program() {
    let src = "* = $c000\nstart: lda #0\n       sta $d020\n       jmp start";
    assert_eq!(
        run(src),
        vec![0x00, 0xc0, 0xa9, 0x00, 0x8d, 0x20, 0xd0, 0x4c, 0x00, 0xc0]
    );
}

#[test]
fn forward_branch() {
    let src = "* = $0800\n       beq skip\n       nop\nskip:  rts";
    assert_eq!(run(src), vec![0x00, 0x08, 0xf0, 0x01, 0xea, 0x60]);
}

#[test]
fn byte_selectors_and_word() {
    let src = "* = $1000\ntbl:   .byte 1,2,3\nptr:   .word tbl\n       lda #<tbl\n       ldx #>tbl";
    assert_eq!(
        run(src),
        vec![0x00, 0x10, 0x01, 0x02, 0x03, 0x00, 0x10, 0xa9, 0x00, 0xa2, 0x10]
    );
}

#[test]
fn string_petscii_mapping() {
    // `H` (0x48) passes through; lowercase `i` (0x69) maps to PETSCII 0x09.
    let src = "* = $2000\n.string \"Hi\"";
    assert_eq!(run(src), vec![0x00, 0x20, 0x48, 0x09]);
}

#[test]
fn string_uppercase_is_identity() {
    let src = "* = $2000\n.string \"HI\"";
    assert_eq!(run(src), vec![0x00, 0x20, 0x48, 0x49]);
}

#[test]
fn addrstring_pads_to_five_digits() {
    assert_eq!(
        run(".addrstring 42"),
        vec![0x01, 0x08, 0x30, 0x30, 0x30, 0x34, 0x32]
    );
}

#[test]
fn empty_source_is_header_only() {
    assert_eq!(run(""), vec![0x01, 0x08]);
}

#[test]
fn origin_then_nop() {
    assert_eq!(run("* = $C000\nnop"), vec![0x00, 0xc0, 0xea]);
}

#[test]
fn zeropage_boundary_label() {
    // A label worth 0x00FF still selects the zero-page form.
    let src = "* = $00ff\ntgt: lda tgt";
    assert_eq!(run(src), vec![0xff, 0x00, 0xa5, 0xff]);
}

#[test]
fn absolute_just_past_boundary() {
    let src = "* = $0100\ntgt: lda tgt";
    assert_eq!(run(src), vec![0x00, 0x01, 0xad, 0x00, 0x01]);
}

#[test]
fn forward_reference_to_zero_page_keeps_wide_form() {
    // The width pass Label chose for a forward reference is honored in
    // pass Main: the label lands at 0x0053, inside the zero page, yet
    // `lda fwd` stays a three-byte absolute instruction in both passes,
    // so no addresses shift between them.
    let src = "* = $0050\nlda fwd\nfwd: rts";
    assert_eq!(run(src), vec![0x50, 0x00, 0xad, 0x53, 0x00, 0x60]);
}

#[test]
fn forward_indexed_reference_to_zero_page_keeps_wide_form() {
    let src = "* = $0050\nlda fwd,x\nfwd: rts";
    assert_eq!(run(src), vec![0x50, 0x00, 0xbd, 0x53, 0x00, 0x60]);
}

#[test]
fn backward_zero_page_reference_uses_narrow_form() {
    let src = "* = $0050\nzp: rts\nlda zp";
    assert_eq!(run(src), vec![0x50, 0x00, 0x60, 0xa5, 0x50]);
}

#[test]
fn branch_to_self() {
    let src = "* = $0800\nhere: beq here";
    assert_eq!(run(src), vec![0x00, 0x08, 0xf0, 0xfe]);
}

#[test]
fn constants_resolve_in_operands() {
    assert_eq!(run("five = 5\nlda #five"), vec![0x01, 0x08, 0xa9, 0x05]);
}

#[test]
fn expression_addition_and_subtraction() {
    assert_eq!(
        run("base = $1000\nlda base + 2\nlda base - 1"),
        vec![0x01, 0x08, 0xad, 0x02, 0x10, 0xad, 0xff, 0x0f]
    );
}

#[test]
fn selector_laws_on_concrete_value() {
    let src = "addr = $1234\nlda #<addr\nldx #>addr";
    assert_eq!(run(src), vec![0x01, 0x08, 0xa9, 0x34, 0xa2, 0x12]);
}

#[test]
fn indexed_and_indirect_modes() {
    let src = "lda $10,x\nlda $1234,x\nldx $10,y\njmp ($1234)\nlda ($10,x)\nlda ($10),y";
    assert_eq!(
        run(src),
        vec![
            0x01, 0x08, 0xb5, 0x10, 0xbd, 0x34, 0x12, 0xb6, 0x10, 0x6c, 0x34, 0x12, 0xa1,
            0x10, 0xb1, 0x10
        ]
    );
}

#[test]
fn char_literal_operand() {
    assert_eq!(run("lda #'A'"), vec![0x01, 0x08, 0xa9, 0x41]);
}

#[test]
fn accumulator_shift_is_implied_form() {
    assert_eq!(run("asl a\nasl"), vec![0x01, 0x08, 0x0a, 0x0a]);
}

#[test]
fn comments_and_blank_lines_are_skipped() {
    let src = "; nothing here\n\nnop ; trailing words\n   \nrts";
    assert_eq!(run(src), vec![0x01, 0x08, 0xea, 0x60]);
}

#[test]
fn word_list_little_endian() {
    assert_eq!(
        run(".word $1234,$5678"),
        vec![0x01, 0x08, 0x34, 0x12, 0x78, 0x56]
    );
}

#[test]
fn cstring_appends_terminator() {
    assert_eq!(run(".cstring \"AB\""), vec![0x01, 0x08, 0x41, 0x42, 0x00]);
}

#[test]
fn cbmstring_marks_last_byte() {
    assert_eq!(run(".cbmstring \"AB\""), vec![0x01, 0x08, 0x41, 0xc2]);
}

#[test]
fn cbmstring_empty_is_rejected() {
    let e = run_err(".cbmstring \"\"");
    assert_eq!(e.kind, ErrorKind::Syntax);
    assert_eq!(e.line_num, 1);
}

#[test]
fn binary_and_decimal_literals() {
    assert_eq!(
        run("lda #%1010\nlda #10"),
        vec![0x01, 0x08, 0xa9, 0x0a, 0xa9, 0x0a]
    );
}

#[test]
fn error_undefined_symbol() {
    let e = run_err("lda nowhere");
    assert_eq!(e.kind, ErrorKind::UndefinedSymbol);
    assert_eq!(e.line_num, 1);
}

#[test]
fn error_unknown_mnemonic() {
    let e = run_err("nop\nxyz #1");
    assert_eq!(e.kind, ErrorKind::UnknownMnemonic);
    assert_eq!(e.line_num, 2);
}

#[test]
fn error_illegal_addressing_mode() {
    let e = run_err("sta #5");
    assert_eq!(e.kind, ErrorKind::IllegalAddressMode);
    assert_eq!(e.line_num, 1);
}

#[test]
fn error_branch_out_of_range() {
    let e = run_err("far = $1000\nbeq far");
    assert_eq!(e.kind, ErrorKind::BranchOutOfRange);
    assert_eq!(e.line_num, 2);
}

#[test]
fn error_unknown_pseudo_op() {
    let e = run_err(".tricks 1");
    assert_eq!(e.kind, ErrorKind::UnknownPseudoOp);
    assert_eq!(e.line_num, 1);
}

#[test]
fn error_syntax() {
    let e = run_err("nop\n!!!");
    assert_eq!(e.kind, ErrorKind::Syntax);
    assert_eq!(e.line_num, 2);
}

#[test]
fn determinism_byte_identical_reruns() {
    let src = "* = $c000\nstart: lda #0\n  sta $d020\n  jmp start\n.string \"ok\"";
    let first = run(src);
    let second = run(src);
    assert_eq!(first, second);
}

#[test]
fn later_origin_does_not_move_load_address() {
    // The first `* = expr` fixes the load address; later ones only move
    // the program counter.
    let src = "* = $c000\nnop\n* = $c010\nnop";
    assert_eq!(run(src), vec![0x00, 0xc0, 0xea, 0xea]);
}

#[test]
fn mnemonics_are_case_insensitive() {
    assert_eq!(run("LDA #$01\nNop"), vec![0x01, 0x08, 0xa9, 0x01, 0xea]);
}

#[test]
fn byte_list_tolerates_spacing() {
    assert_eq!(
        run(".byte 1, 2 ,  3"),
        vec![0x01, 0x08, 0x01, 0x02, 0x03]
    );
}

#[test]
fn constant_reassignment_rebinds() {
    assert_eq!(run("v = 1\nv = 2\nlda #v"), vec![0x01, 0x08, 0xa9, 0x02]);
}
