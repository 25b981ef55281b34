//! Addressing-mode classification and instruction encoding.

use vstd::prelude::*;

use crate::assembler::Pass;
use crate::errors::{ErrorKind, ErrorMsg};
use crate::opcodes::{opcode_row, row_get, spec_opcode_row, spec_row_get, OpcodeRow};
use crate::symbols::SymbolTable;
use crate::utility::{
    hi8, lo8, parse_expression, spec_hi8, spec_lo8, spec_parse_expr,
};

verus! {

/// The rule by which a 6502 instruction computes its operand's effective
/// address.
#[derive(Clone, Copy, PartialEq, Eq, Structural, Debug)]
pub enum AddressMode {
    Implied,
    Immediate,
    Absolute,
    AbsoluteX,
    AbsoluteY,
    Zeropage,
    ZeropageX,
    ZeropageY,
    Relative,
    Indirect,
    IndirectX,
    IndirectY,
}

/// The textual shape of an operand, before its expression is resolved.
#[derive(Clone, Copy, PartialEq, Eq, Structural, Debug)]
pub enum OperandKind {
    /// Empty, or the accumulator name `a` / `A`.
    Implied,
    /// `#expr`
    Immediate,
    /// `(expr,X)`
    IndirectX,
    /// `(expr),Y`
    IndirectY,
    /// `(expr)`
    Indirect,
    /// `expr,X`
    IndexedX,
    /// `expr,Y`
    IndexedY,
    /// A bare expression.
    Plain,
}

/// An operand's shape together with its inner expression text.
pub struct OperandShape {
    pub kind: OperandKind,
    pub inner: Seq<u8>,
}

/// Classifies an operand's text. The patterns are tried in priority
/// order; the first match wins, and the leftover expression text is the
/// shape's `inner`.
pub open spec fn spec_classify(op: Seq<u8>) -> OperandShape {
    let n = op.len() as int;
    if n == 0 || (n == 1 && (op[0] == 0x61 || op[0] == 0x41)) {
        OperandShape { kind: OperandKind::Implied, inner: Seq::empty() }
    } else if op[0] == 0x23 && n >= 2 {
        OperandShape { kind: OperandKind::Immediate, inner: op.subrange(1, n) }
    } else if n >= 5 && op[0] == 0x28 && op[n - 1] == 0x29 && (op[n - 2] == 0x78 || op[n - 2]
        == 0x58) && op[n - 3] == 0x2c {
        OperandShape { kind: OperandKind::IndirectX, inner: op.subrange(1, n - 3) }
    } else if n >= 5 && op[0] == 0x28 && (op[n - 1] == 0x79 || op[n - 1] == 0x59) && op[n - 2]
        == 0x2c && op[n - 3] == 0x29 {
        OperandShape { kind: OperandKind::IndirectY, inner: op.subrange(1, n - 3) }
    } else if n >= 3 && op[0] == 0x28 && op[n - 1] == 0x29 {
        OperandShape { kind: OperandKind::Indirect, inner: op.subrange(1, n - 1) }
    } else if n >= 3 && (op[n - 1] == 0x78 || op[n - 1] == 0x58) && op[n - 2] == 0x2c {
        OperandShape { kind: OperandKind::IndexedX, inner: op.subrange(0, n - 2) }
    } else if n >= 3 && (op[n - 1] == 0x79 || op[n - 1] == 0x59) && op[n - 2] == 0x2c {
        OperandShape { kind: OperandKind::IndexedY, inner: op.subrange(0, n - 2) }
    } else {
        OperandShape { kind: OperandKind::Plain, inner: op }
    }
}

/// Classifies an operand and hands back its inner expression text.
pub fn classify(op: &[u8]) -> (r: (OperandKind, &[u8]))
    ensures
        r.0 == spec_classify(op@).kind,
        r.1@ == spec_classify(op@).inner,
{
    let n = op.len();
    if n == 0 || (n == 1 && (op[0] == 0x61 || op[0] == 0x41)) {
        let r = &op[0..0];
        proof {
            assert(r@ =~= Seq::<u8>::empty());
        }
        (OperandKind::Implied, r)
    } else if op[0] == 0x23 && n >= 2 {
        (OperandKind::Immediate, &op[1..n])
    } else if n >= 5 && op[0] == 0x28 && op[n - 1] == 0x29 && (op[n - 2] == 0x78 || op[n - 2]
        == 0x58) && op[n - 3] == 0x2c {
        (OperandKind::IndirectX, &op[1..n - 3])
    } else if n >= 5 && op[0] == 0x28 && (op[n - 1] == 0x79 || op[n - 1] == 0x59) && op[n - 2]
        == 0x2c && op[n - 3] == 0x29 {
        (OperandKind::IndirectY, &op[1..n - 3])
    } else if n >= 3 && op[0] == 0x28 && op[n - 1] == 0x29 {
        (OperandKind::Indirect, &op[1..n - 1])
    } else if n >= 3 && (op[n - 1] == 0x78 || op[n - 1] == 0x58) && op[n - 2] == 0x2c {
        (OperandKind::IndexedX, &op[0..n - 2])
    } else if n >= 3 && (op[n - 1] == 0x79 || op[n - 1] == 0x59) && op[n - 2] == 0x2c {
        (OperandKind::IndexedY, &op[0..n - 2])
    } else {
        (OperandKind::Plain, op)
    }
}

/// What an operand expression resolves to in a given pass: its value, a
/// `0xFFFF` placeholder when a pass before Main meets an unresolved
/// symbol, and a fatal error in pass Main.
pub open spec fn spec_resolve(
    e: Seq<u8>,
    constants: Map<Seq<u8>, u16>,
    labels: Map<Seq<u8>, u16>,
    pass: Pass,
) -> Result<u16, ErrorKind> {
    match spec_parse_expr(e, constants, labels) {
        Some(v) => Ok(v),
        None => if pass != Pass::Main {
            Ok(0xffff)
        } else {
            Err(ErrorKind::UndefinedSymbol)
        },
    }
}

/// Resolves an operand expression under the forward-reference policy.
pub fn resolve_expr(
    e: &[u8],
    constants: &SymbolTable,
    labels: &SymbolTable,
    pass: Pass,
) -> (r: Result<u16, ErrorKind>)
    ensures
        r == spec_resolve(e@, constants@, labels@, pass),
{
    match parse_expression(e, constants, labels) {
        Some(v) => Ok(v),
        None => if pass != Pass::Main {
            Ok(0xffff)
        } else {
            Err(ErrorKind::UndefinedSymbol)
        },
    }
}

/// The value an operand expression has for choosing an instruction's
/// width: its resolution against the labels *seen so far*, or the widest
/// placeholder 0xFFFF when it does not resolve there. In passes before
/// Main the seen view is the live label table; in pass Main it is the
/// view pass Label had at the same line, so the width pass Label chose
/// is honored even when the full table now holds a one-byte value.
pub open spec fn spec_width(
    e: Seq<u8>,
    constants: Map<Seq<u8>, u16>,
    seen: Map<Seq<u8>, u16>,
) -> u16 {
    match spec_parse_expr(e, constants, seen) {
        Some(v) => v,
        None => 0xffff,
    }
}

/// Resolves an operand against the labels seen so far, for width choice.
pub fn width_of(e: &[u8], constants: &SymbolTable, seen: &SymbolTable) -> (r: u16)
    ensures
        r == spec_width(e@, constants@, seen@),
{
    match parse_expression(e, constants, seen) {
        Some(v) => v,
        None => 0xffff,
    }
}

/// The encoded displacement of a branch from `pc` to `target`: the
/// two-byte instruction ends at `pc + 2`, and the byte is the difference
/// modulo 256 (two's complement).
pub open spec fn spec_disp8(target: u16, pc: u16) -> u8 {
    ((target - pc - 2) % 256) as u8
}

/// Computes the relative-branch displacement byte.
pub fn disp8(target: u16, pc: u16) -> (r: u8)
    ensures
        r == spec_disp8(target, pc),
{
    let x: u32 = target as u32 + 0x20000 - pc as u32 - 2;
    let r = (x % 256) as u8;
    proof {
        vstd::arithmetic::div_mod::lemma_mod_multiples_vanish(
            512,
            target - pc - 2,
            256,
        );
    }
    r
}

/// What the default classification (no pattern matched) yields: the
/// Implied form for an empty or accumulator operand; the Relative form
/// with a range-checked displacement for branch mnemonics; otherwise
/// Zeropage when the width value is below 0x100 and Absolute above, the
/// width taken against the labels seen so far so that a forward
/// reference keeps the wide form in every pass.
pub open spec fn spec_addr_default(
    op: Seq<u8>,
    row: OpcodeRow,
    constants: Map<Seq<u8>, u16>,
    labels: Map<Seq<u8>, u16>,
    seen: Map<Seq<u8>, u16>,
    pc: u16,
    pass: Pass,
) -> Result<(AddressMode, Seq<u8>), ErrorKind> {
    if op.len() == 0 || (op.len() == 1 && (op[0] == 0x61 || op[0] == 0x41)) {
        Ok((AddressMode::Implied, Seq::empty()))
    } else {
        match spec_resolve(op, constants, labels, pass) {
            Err(k) => Err(k),
            Ok(v) => if row.relative.is_some() {
                if pass == Pass::Main && !(-128 <= v - pc - 2 <= 127) {
                    Err(ErrorKind::BranchOutOfRange)
                } else {
                    Ok((AddressMode::Relative, seq![spec_disp8(v, pc)]))
                }
            } else if spec_width(op, constants, seen) < 0x100 {
                Ok((AddressMode::Zeropage, seq![spec_lo8(v)]))
            } else {
                Ok((AddressMode::Absolute, seq![spec_lo8(v), spec_hi8(v)]))
            },
        }
    }
}

/// Falls back to the Implied, Relative, or Zeropage/Absolute form for an
/// operand no pattern matched.
pub fn addr_default(
    op_str: &[u8],
    mnemonic_map: &OpcodeRow,
    constants: &SymbolTable,
    labels: &SymbolTable,
    labels_seen: &SymbolTable,
    program_counter: u16,
    line_num: usize,
    pass: Pass,
) -> (r: Result<(AddressMode, Vec<u8>), ErrorMsg>)
    ensures
        match (r, spec_addr_default(
            op_str@,
            *mnemonic_map,
            constants@,
            labels@,
            labels_seen@,
            program_counter,
            pass,
        )) {
            (Ok((m1, b1)), Ok((m2, b2))) => m1 == m2 && b1@ == b2,
            (Err(e), Err(k)) => e.kind == k && e.line_num == line_num,
            _ => false,
        },
{
    let n = op_str.len();
    if n == 0 || (n == 1 && (op_str[0] == 0x61 || op_str[0] == 0x41)) {
        let bytes: Vec<u8> = Vec::new();
        proof {
            assert(bytes@ =~= Seq::<u8>::empty());
        }
        return Ok((AddressMode::Implied, bytes));
    }
    let v = match resolve_expr(op_str, constants, labels, pass) {
        Ok(v) => v,
        Err(k) => {
            return Err(ErrorMsg::from_kind(k, line_num));
        },
    };
    if mnemonic_map.relative.is_some() {
        if pass == Pass::Main {
            let diff: i32 = v as i32 - program_counter as i32 - 2;
            if diff < -128 || diff > 127 {
                return Err(ErrorMsg::from_kind(ErrorKind::BranchOutOfRange, line_num));
            }
        }
        let mut bytes: Vec<u8> = Vec::new();
        bytes.push(disp8(v, program_counter));
        proof {
            assert(bytes@ =~= seq![spec_disp8(v, program_counter)]);
        }
        Ok((AddressMode::Relative, bytes))
    } else if width_of(op_str, constants, labels_seen) < 0x100 {
        let mut bytes: Vec<u8> = Vec::new();
        bytes.push(lo8(v));
        proof {
            assert(bytes@ =~= seq![spec_lo8(v)]);
        }
        Ok((AddressMode::Zeropage, bytes))
    } else {
        let mut bytes: Vec<u8> = Vec::new();
        bytes.push(lo8(v));
        bytes.push(hi8(v));
        proof {
            assert(bytes@ =~= seq![spec_lo8(v), spec_hi8(v)]);
        }
        Ok((AddressMode::Absolute, bytes))
    }
}

/// What an instruction line encodes to: the opcode byte chosen by the
/// mnemonic and the classified addressing mode, followed by the operand
/// bytes. The zero-page-or-absolute width is chosen against `seen`, the
/// labels defined up to this line, so the length never changes between
/// the length-counting pass and the emitting pass. Errors are an unknown
/// mnemonic, a mode the mnemonic does not support, an unresolved symbol
/// in pass Main, and a branch out of range.
pub open spec fn spec_encode_instr(
    m: Seq<u8>,
    op: Seq<u8>,
    constants: Map<Seq<u8>, u16>,
    labels: Map<Seq<u8>, u16>,
    seen: Map<Seq<u8>, u16>,
    pc: u16,
    pass: Pass,
) -> Result<Seq<u8>, ErrorKind> {
    if m.len() != 3 {
        Err(ErrorKind::UnknownMnemonic)
    } else {
        match spec_opcode_row(m[0], m[1], m[2]) {
            None => Err(ErrorKind::UnknownMnemonic),
            Some(row) => {
                let shape = spec_classify(op);
                let mb: Result<(AddressMode, Seq<u8>), ErrorKind> = match shape.kind {
                    OperandKind::Implied | OperandKind::Plain => spec_addr_default(
                        op,
                        row,
                        constants,
                        labels,
                        seen,
                        pc,
                        pass,
                    ),
                    OperandKind::Immediate => match spec_resolve(
                        shape.inner,
                        constants,
                        labels,
                        pass,
                    ) {
                        Err(k) => Err(k),
                        Ok(v) => Ok((AddressMode::Immediate, seq![spec_lo8(v)])),
                    },
                    OperandKind::IndirectX => match spec_resolve(
                        shape.inner,
                        constants,
                        labels,
                        pass,
                    ) {
                        Err(k) => Err(k),
                        Ok(v) => Ok((AddressMode::IndirectX, seq![spec_lo8(v)])),
                    },
                    OperandKind::IndirectY => match spec_resolve(
                        shape.inner,
                        constants,
                        labels,
                        pass,
                    ) {
                        Err(k) => Err(k),
                        Ok(v) => Ok((AddressMode::IndirectY, seq![spec_lo8(v)])),
                    },
                    OperandKind::Indirect => match spec_resolve(
                        shape.inner,
                        constants,
                        labels,
                        pass,
                    ) {
                        Err(k) => Err(k),
                        Ok(v) => Ok((AddressMode::Indirect, seq![spec_lo8(v), spec_hi8(v)])),
                    },
                    OperandKind::IndexedX => match spec_resolve(
                        shape.inner,
                        constants,
                        labels,
                        pass,
                    ) {
                        Err(k) => Err(k),
                        Ok(v) => if spec_width(shape.inner, constants, seen) <= 0xff {
                            Ok((AddressMode::ZeropageX, seq![spec_lo8(v)]))
                        } else {
                            Ok((AddressMode::AbsoluteX, seq![spec_lo8(v), spec_hi8(v)]))
                        },
                    },
                    OperandKind::IndexedY => match spec_resolve(
                        shape.inner,
                        constants,
                        labels,
                        pass,
                    ) {
                        Err(k) => Err(k),
                        Ok(v) => if spec_width(shape.inner, constants, seen) <= 0xff {
                            Ok((AddressMode::ZeropageY, seq![spec_lo8(v)]))
                        } else {
                            Ok((AddressMode::AbsoluteY, seq![spec_lo8(v), spec_hi8(v)]))
                        },
                    },
                };
                match mb {
                    Err(k) => Err(k),
                    Ok((mode, ob)) => match spec_row_get(row, mode) {
                        None => Err(ErrorKind::IllegalAddressMode),
                        Some(opc) => Ok(seq![opc] + ob),
                    },
                }
            },
        }
    }
}

/// Encodes one instruction: classifies the operand, resolves its
/// expression, and looks the opcode up. `labels_seen` holds the labels
/// defined up to this line and alone decides between the zero-page and
/// absolute widths; passes before Main hand their live label table here,
/// and pass Main hands the same view replayed, so a forward reference
/// encodes with the wide form in every pass.
pub fn get_instruction_bytes(
    mnemonic: &[u8],
    operand: &[u8],
    constants: &SymbolTable,
    labels: &SymbolTable,
    labels_seen: &SymbolTable,
    program_counter: u16,
    line_num: usize,
    pass: Pass,
) -> (r: Result<Vec<u8>, ErrorMsg>)
    ensures
        match (r, spec_encode_instr(
            mnemonic@,
            operand@,
            constants@,
            labels@,
            labels_seen@,
            program_counter,
            pass,
        )) {
            (Ok(b), Ok(sb)) => b@ == sb,
            (Err(e), Err(k)) => e.kind == k && e.line_num == line_num,
            _ => false,
        },
{
    if mnemonic.len() != 3 {
        return Err(ErrorMsg::from_kind(ErrorKind::UnknownMnemonic, line_num));
    }
    let row = match opcode_row(mnemonic[0], mnemonic[1], mnemonic[2]) {
        None => {
            return Err(ErrorMsg::from_kind(ErrorKind::UnknownMnemonic, line_num));
        },
        Some(row) => row,
    };
    let (kind, inner) = classify(operand);
    let mode_bytes: Result<(AddressMode, Vec<u8>), ErrorKind> = match kind {
        OperandKind::Implied | OperandKind::Plain => {
            match addr_default(
                operand,
                &row,
                constants,
                labels,
                labels_seen,
                program_counter,
                line_num,
                pass,
            ) {
                Ok(mb) => Ok(mb),
                Err(e) => {
                    return Err(e);
                },
            }
        },
        OperandKind::Immediate => match resolve_expr(inner, constants, labels, pass) {
            Err(k) => Err(k),
            Ok(v) => {
                let mut bytes: Vec<u8> = Vec::new();
                bytes.push(lo8(v));
                proof {
                    assert(bytes@ =~= seq![spec_lo8(v)]);
                }
                Ok((AddressMode::Immediate, bytes))
            },
        },
        OperandKind::IndirectX => match resolve_expr(inner, constants, labels, pass) {
            Err(k) => Err(k),
            Ok(v) => {
                let mut bytes: Vec<u8> = Vec::new();
                bytes.push(lo8(v));
                proof {
                    assert(bytes@ =~= seq![spec_lo8(v)]);
                }
                Ok((AddressMode::IndirectX, bytes))
            },
        },
        OperandKind::IndirectY => match resolve_expr(inner, constants, labels, pass) {
            Err(k) => Err(k),
            Ok(v) => {
                let mut bytes: Vec<u8> = Vec::new();
                bytes.push(lo8(v));
                proof {
                    assert(bytes@ =~= seq![spec_lo8(v)]);
                }
                Ok((AddressMode::IndirectY, bytes))
            },
        },
        OperandKind::Indirect => match resolve_expr(inner, constants, labels, pass) {
            Err(k) => Err(k),
            Ok(v) => {
                let mut bytes: Vec<u8> = Vec::new();
                bytes.push(lo8(v));
                bytes.push(hi8(v));
                proof {
                    assert(bytes@ =~= seq![spec_lo8(v), spec_hi8(v)]);
                }
                Ok((AddressMode::Indirect, bytes))
            },
        },
        OperandKind::IndexedX => match resolve_expr(inner, constants, labels, pass) {
            Err(k) => Err(k),
            Ok(v) => if width_of(inner, constants, labels_seen) <= 0xff {
                let mut bytes: Vec<u8> = Vec::new();
                bytes.push(lo8(v));
                proof {
                    assert(bytes@ =~= seq![spec_lo8(v)]);
                }
                Ok((AddressMode::ZeropageX, bytes))
            } else {
                let mut bytes: Vec<u8> = Vec::new();
                bytes.push(lo8(v));
                bytes.push(hi8(v));
                proof {
                    assert(bytes@ =~= seq![spec_lo8(v), spec_hi8(v)]);
                }
                Ok((AddressMode::AbsoluteX, bytes))
            },
        },
        OperandKind::IndexedY => match resolve_expr(inner, constants, labels, pass) {
            Err(k) => Err(k),
            Ok(v) => if width_of(inner, constants, labels_seen) <= 0xff {
                let mut bytes: Vec<u8> = Vec::new();
                bytes.push(lo8(v));
                proof {
                    assert(bytes@ =~= seq![spec_lo8(v)]);
                }
                Ok((AddressMode::ZeropageY, bytes))
            } else {
                let mut bytes: Vec<u8> = Vec::new();
                bytes.push(lo8(v));
                bytes.push(hi8(v));
                proof {
                    assert(bytes@ =~= seq![spec_lo8(v), spec_hi8(v)]);
                }
                Ok((AddressMode::AbsoluteY, bytes))
            },
        },
    };
    match mode_bytes {
        Err(k) => Err(ErrorMsg::from_kind(k, line_num)),
        Ok((mode, operand_vec)) => match row_get(&row, mode) {
            None => Err(ErrorMsg::from_kind(ErrorKind::IllegalAddressMode, line_num)),
            Some(opcode) => {
                let mut ret: Vec<u8> = Vec::new();
                ret.push(opcode);
                let mut j: usize = 0;
                while j < operand_vec.len()
                    invariant
                        0 <= j <= operand_vec@.len(),
                        ret@ == seq![opcode].add(operand_vec@.take(j as int)),
                    decreases operand_vec@.len() - j,
                {
                    ret.push(operand_vec[j]);
                    proof {
                        assert(seq![opcode].add(operand_vec@.take(j + 1)) =~= seq![opcode].add(
                            operand_vec@.take(j as int),
                        ).push(operand_vec@[j as int]));
                    }
                    j = j + 1;
                }
                proof {
                    assert(operand_vec@.take(operand_vec@.len() as int) =~= operand_vec@);
                }
                Ok(ret)
            },
        },
    }
}

} // verus!
