//! The laws the assembler obeys, stated and proved over the spec model.

use vstd::prelude::*;

use crate::assembler::{
    spec_assemble, spec_pass_init, spec_pass_label, spec_pass_main, spec_pseudo_result,
    spec_run_from, spec_step_line, Pass, PseudoTag, SpecState, StepError,
};
use crate::errors::ErrorKind;
use crate::instructions::{
    spec_classify, spec_disp8, spec_encode_instr, OperandKind,
};
use crate::opcodes::spec_opcode_row;
use crate::pseudo::{spec_data_bytes8, spec_data_bytes16, spec_split_commas};
use crate::target::Target;
use crate::utility::{spec_eval_term, spec_hi8, spec_lo8, spec_parse_expr};

verus! {

/// Byte-selector law, low half: for any expression text `e` whose term
/// resolves to `v`, the expression `<e` resolves to `v & 0xFF`.
pub proof fn lemma_byte_selector_low(
    e: Seq<u8>,
    constants: Map<Seq<u8>, u16>,
    labels: Map<Seq<u8>, u16>,
    v: u16,
)
    requires
        spec_eval_term(e, constants, labels) == Some(v),
    ensures
        spec_parse_expr(seq![0x3cu8] + e, constants, labels) == Some((v & 0xff) as u16),
{
    let s = seq![0x3cu8] + e;
    assert(s[0] == 0x3c);
    assert(s.drop_first() =~= e);
    assert(v & 0xff <= 0xff) by (bit_vector);
    assert(((v & 0xff) as u8) as u16 == (v & 0xff) as u16);
}

/// Byte-selector law, high half: for any expression text `e` whose term
/// resolves to `v`, the expression `>e` resolves to `(v >> 8) & 0xFF`.
pub proof fn lemma_byte_selector_high(
    e: Seq<u8>,
    constants: Map<Seq<u8>, u16>,
    labels: Map<Seq<u8>, u16>,
    v: u16,
)
    requires
        spec_eval_term(e, constants, labels) == Some(v),
    ensures
        spec_parse_expr(seq![0x3eu8] + e, constants, labels) == Some(((v >> 8) & 0xff) as u16),
{
    let s = seq![0x3eu8] + e;
    assert(s[0] == 0x3e);
    assert(s[0] != 0x3c);
    assert(s.drop_first() =~= e);
    assert(v >> 8 <= 0xff) by (bit_vector);
    assert((v >> 8) & 0xff == v >> 8) by (bit_vector);
    assert(((v >> 8) as u8) as u16 == ((v >> 8) & 0xff) as u16);
}

/// Relative-displacement law: a branch instruction at `pc` whose operand
/// resolves to `target` encodes, in pass Main, two bytes whose second is
/// `(target - (pc + 2)) mod 256`, and only when the signed displacement
/// `target - (pc + 2)` lies in -128..=127.
pub proof fn lemma_relative_displacement(
    m: Seq<u8>,
    op: Seq<u8>,
    constants: Map<Seq<u8>, u16>,
    labels: Map<Seq<u8>, u16>,
    seen: Map<Seq<u8>, u16>,
    pc: u16,
    v: u16,
    b: Seq<u8>,
)
    requires
        m.len() == 3,
        spec_classify(op).kind == OperandKind::Plain,
        spec_opcode_row(m[0], m[1], m[2]).is_some(),
        spec_opcode_row(m[0], m[1], m[2])->Some_0.relative.is_some(),
        spec_parse_expr(op, constants, labels) == Some(v),
        spec_encode_instr(m, op, constants, labels, seen, pc, Pass::Main) == Ok::<
            Seq<u8>,
            ErrorKind,
        >(b),
    ensures
        b.len() == 2,
        b[1] == spec_disp8(v, pc),
        b[1] == ((v - pc - 2) % 256) as u8,
        -128 <= v - (pc + 2) <= 127,
{
}

/// Pass-length stability for instructions: an instruction that encodes
/// in pass Label against the labels defined so far, and in pass Main
/// against the full table with that same seen-so-far view deciding its
/// width, has the same byte length in both passes — forward references
/// included, which take the wide form in both. The driver supplies
/// exactly these views: constants are frozen after the first pass, and
/// pass Main replays pass Label's label insertions line by line.
pub proof fn lemma_instr_length_stability(
    m: Seq<u8>,
    op: Seq<u8>,
    constants: Map<Seq<u8>, u16>,
    seen: Map<Seq<u8>, u16>,
    labels_full: Map<Seq<u8>, u16>,
    pc1: u16,
    pc2: u16,
    b1: Seq<u8>,
    b2: Seq<u8>,
)
    requires
        spec_encode_instr(m, op, constants, seen, seen, pc1, Pass::Label) == Ok::<
            Seq<u8>,
            ErrorKind,
        >(b1),
        spec_encode_instr(m, op, constants, labels_full, seen, pc2, Pass::Main) == Ok::<
            Seq<u8>,
            ErrorKind,
        >(b2),
    ensures
        b1.len() == b2.len(),
{
}

/// A `.byte` list lays down exactly one byte per piece.
pub proof fn lemma_data_bytes8_len(
    pieces: Seq<Seq<u8>>,
    constants: Map<Seq<u8>, u16>,
    labels: Map<Seq<u8>, u16>,
    pass: Pass,
)
    ensures
        match spec_data_bytes8(pieces, constants, labels, pass) {
            Ok(b) => b.len() == pieces.len(),
            Err(_) => true,
        },
    decreases pieces.len(),
{
    if pieces.len() > 0 {
        lemma_data_bytes8_len(pieces.drop_first(), constants, labels, pass);
    }
}

/// A `.word` list lays down exactly two bytes per piece.
pub proof fn lemma_data_bytes16_len(
    pieces: Seq<Seq<u8>>,
    constants: Map<Seq<u8>, u16>,
    labels: Map<Seq<u8>, u16>,
    pass: Pass,
)
    ensures
        match spec_data_bytes16(pieces, constants, labels, pass) {
            Ok(b) => b.len() == 2 * pieces.len(),
            Err(_) => true,
        },
    decreases pieces.len(),
{
    if pieces.len() > 0 {
        lemma_data_bytes16_len(pieces.drop_first(), constants, labels, pass);
    }
}

/// Pass-length stability for data directives: a directive that succeeds
/// in pass Label and in pass Main lays down the same number of bytes in
/// both, whatever either pass resolved. The byte count depends only on
/// the argument text.
#[verifier::rlimit(100)]
pub proof fn lemma_pseudo_length_stability(
    tag: PseudoTag,
    args: Seq<u8>,
    c1: Map<Seq<u8>, u16>,
    l1: Map<Seq<u8>, u16>,
    c2: Map<Seq<u8>, u16>,
    l2: Map<Seq<u8>, u16>,
    target: Target,
    b1: Seq<u8>,
    b2: Seq<u8>,
)
    requires
        spec_pseudo_result(tag, args, c1, l1, Pass::Label, target) == Ok::<Seq<u8>, ErrorKind>(b1),
        spec_pseudo_result(tag, args, c2, l2, Pass::Main, target) == Ok::<Seq<u8>, ErrorKind>(b2),
    ensures
        b1.len() == b2.len(),
{
    match tag {
        PseudoTag::Byte => {
            lemma_data_bytes8_len(spec_split_commas(args), c1, l1, Pass::Label);
            lemma_data_bytes8_len(spec_split_commas(args), c2, l2, Pass::Main);
        },
        PseudoTag::Word => {
            lemma_data_bytes16_len(spec_split_commas(args), c1, l1, Pass::Label);
            lemma_data_bytes16_len(spec_split_commas(args), c2, l2, Pass::Main);
        },
        _ => {},
    }
}

/// The bytes pass Main appends for each line from index `i` on, summed
/// over the source: what each encoded directive or instruction emits.
pub open spec fn spec_emitted_from(
    lines: Seq<Seq<u8>>,
    i: int,
    st: SpecState,
    target: Target,
) -> int
    decreases lines.len() - i,
{
    if i < 0 || i >= lines.len() {
        0
    } else {
        match spec_step_line(lines[i], st, Pass::Main, target) {
            Err(_) => 0,
            Ok(ss) => (ss.code.len() - st.code.len()) + spec_emitted_from(
                lines,
                i + 1,
                ss,
                target,
            ),
        }
    }
}

/// A successful pass Main grows the image by exactly the sum of the
/// bytes each line emits.
pub proof fn lemma_run_emits_sum(
    lines: Seq<Seq<u8>>,
    i: int,
    st: SpecState,
    target: Target,
)
    ensures
        match spec_run_from(lines, i, st, Pass::Main, target) {
            Ok(fs) => fs.code.len() == st.code.len() + spec_emitted_from(lines, i, st, target),
            Err(_) => true,
        },
    decreases lines.len() - i,
{
    if 0 <= i < lines.len() {
        match spec_step_line(lines[i], st, Pass::Main, target) {
            Err(_) => {},
            Ok(ss) => {
                lemma_run_emits_sum(lines, i + 1, ss, target);
            },
        }
    }
}

/// Image-length law: the output is the two header bytes followed by
/// exactly the bytes the encoded directives and instructions emit, so
/// its length is 2 plus their sum.
pub proof fn lemma_image_length(lv: Seq<Seq<u8>>, target: Target, s2: SpecState, s3: SpecState)
    requires
        spec_pass_label(lv, target) == Ok::<SpecState, StepError>(s2),
        spec_pass_main(lv, target) == Ok::<SpecState, StepError>(s3),
    ensures
        match spec_assemble(lv, target) {
            Ok(out) => out.len() == 2 + spec_emitted_from(
                lv,
                0,
                spec_pass_init(s2.consts, s2.labels),
                target,
            ),
            Err(_) => false,
        },
{
    let init = spec_pass_init(s2.consts, s2.labels);
    lemma_run_emits_sum(lv, 0, init, target);
    crate::assembler::lemma_run_code_extends(lv, 0, init, Pass::Main, target);
    assert(s3.code.len() >= 2);
    assert(spec_run_from(lv, 0, init, Pass::Main, target) == Ok::<SpecState, StepError>(s3));
    assert(s3.code.len() == init.code.len() + spec_emitted_from(lv, 0, init, target));
    assert(init.code.len() == 2);
}

/// Header-correctness law: the first two output bytes are the load
/// address, low byte first.
pub proof fn lemma_header_correctness(lv: Seq<Seq<u8>>, target: Target, s3: SpecState)
    requires
        spec_pass_main(lv, target) == Ok::<SpecState, StepError>(s3),
    ensures
        match spec_assemble(lv, target) {
            Ok(out) => out.len() >= 2 && out[0] == spec_lo8(s3.load_addr) && out[1] == spec_hi8(
                s3.load_addr,
            ),
            Err(_) => false,
        },
{
    let s2 = spec_pass_label(lv, target)->Ok_0;
    crate::assembler::lemma_run_code_extends(
        lv,
        0,
        spec_pass_init(s2.consts, s2.labels),
        Pass::Main,
        target,
    );
}

/// Determinism law: the output is a pure function of the source text and
/// the target profile, so two runs on identical inputs agree byte for
/// byte.
pub proof fn lemma_determinism(
    lv: Seq<Seq<u8>>,
    target: Target,
    r1: Result<Seq<u8>, (ErrorKind, int)>,
    r2: Result<Seq<u8>, (ErrorKind, int)>,
)
    requires
        r1 == spec_assemble(lv, target),
        r2 == spec_assemble(lv, target),
    ensures
        r1 == r2,
{
}

} // verus!
