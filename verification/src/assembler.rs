//! The multi-pass driver: line classification, pseudo-op handling, and
//! the pass machinery that turns source lines into a byte image.

use vstd::prelude::*;

use crate::errors::{ErrorKind, ErrorMsg};
use crate::instructions::{
    get_instruction_bytes, resolve_expr, spec_encode_instr, spec_resolve,
};
use crate::pseudo::{
    addr5, cbm_bytes, data_bytes8, data_bytes16, spec_addr5, spec_cbm_bytes, spec_data_bytes8,
    spec_data_bytes16, spec_split_commas, spec_strip_quotes, spec_transcode, split_commas,
    strip_quotes, transcode,
};
use crate::symbols::SymbolTable;
use crate::target::Target;
use crate::utility::{
    find_byte, is_ident, is_ident_exec, is_ident_start, is_word_byte, is_ws, lo8, hi8,
    parse_expression, spec_find, spec_hi8, spec_lo8, spec_parse_expr, spec_to_lower,
    spec_trim, spec_trim_end, spec_trim_start, to_lower, trim_bytes, trim_end_bytes,
    trim_start_bytes, word_prefix, word_prefix_len,
};
use vstd::slice::slice_to_vec;

verus! {

/// Which traversal of the source is running.
#[derive(Clone, Copy, PartialEq, Eq, Structural, Debug)]
pub enum Pass {
    /// Gathers `IDENT = expr` assignments into the constants namespace.
    Constant,
    /// Walks the source advancing the program counter and records labels.
    Label,
    /// Emits bytes; every symbol must resolve.
    Main,
}

/// The driver's working state, reused across all passes. Symbol tables
/// persist between passes; the counters are reset when a pass starts.
pub struct AssemblyState {
    pub target: Target,
    pub pass: Pass,
    pub line_num: usize,
    pub program_counter: u16,
    pub constants: SymbolTable,
    pub labels: SymbolTable,
}

/// The mathematical state one pass threads through the source: the
/// program counter, the load address and whether a `* =` has set it yet,
/// the 1-based line number, both symbol namespaces, the labels defined
/// so far in this pass (pass Main replays pass Label's view there, so
/// instruction widths never change between the passes), and the byte
/// image.
#[verifier::ext_equal]
pub struct SpecState {
    pub pc: u16,
    pub load_addr: u16,
    pub load_set: bool,
    pub line: int,
    pub consts: Map<Seq<u8>, u16>,
    pub labels: Map<Seq<u8>, u16>,
    pub seen: Map<Seq<u8>, u16>,
    pub code: Seq<u8>,
}

/// A failed line: the error's kind, the 1-based line it arose on, and
/// the state the pass had reached when it stopped.
pub type StepError = (ErrorKind, int, SpecState);

/// The abstraction of the driver's concrete working state.
pub open spec fn pack(
    st: AssemblyState,
    code: Seq<u8>,
    load_addr: u16,
    load_set: bool,
    seen: Map<Seq<u8>, u16>,
) -> SpecState {
    SpecState {
        pc: st.program_counter,
        load_addr,
        load_set,
        line: st.line_num as int,
        consts: st.constants@,
        labels: st.labels@,
        seen,
        code,
    }
}

/// The program counter advanced by `n` bytes, wrapping modulo 2^16.
pub open spec fn spec_advance(pc: u16, n: nat) -> u16 {
    ((pc + n) % 0x10000) as u16
}

/// Advances the program counter by a byte count, wrapping modulo 2^16.
pub fn advance(pc: u16, n: usize) -> (r: u16)
    ensures
        r == spec_advance(pc, n as nat),
{
    let m: u64 = (n % 0x10000) as u64;
    let r = ((pc as u64 + m) % 0x10000) as u16;
    proof {
        vstd::arithmetic::div_mod::lemma_add_mod_noop(pc as int, n as int, 0x10000);
        vstd::arithmetic::div_mod::lemma_small_mod(pc as nat, 0x10000);
        vstd::arithmetic::div_mod::lemma_small_mod(
            (pc as int + (n as int % 0x10000)) as nat % 0x10000,
            0x10000,
        );
        vstd::arithmetic::div_mod::lemma_add_mod_noop(pc as int, n as int % 0x10000, 0x10000);
    }
    r
}

/// The assignment production `NAME = expr`: the text around the first
/// `=`, name trimmed at its end and value at its start; the name must be
/// `*` or an identifier and the value nonempty.
pub open spec fn spec_line_assignment(s: Seq<u8>) -> Option<(Seq<u8>, Seq<u8>)> {
    match spec_find(s, 0x3d) {
        None => None,
        Some(i) => {
            let name = spec_trim_end(s.take(i));
            let value = spec_trim_start(s.subrange(i + 1, s.len() as int));
            if (name == seq![0x2au8] || is_ident(name)) && value.len() > 0 {
                Some((name, value))
            } else {
                None
            }
        },
    }
}

/// The label production `IDENT:` at the front of a line, with whatever
/// follows the colon (itself a line) trimmed at its start.
pub open spec fn spec_line_label(s: Seq<u8>) -> Option<(Seq<u8>, Seq<u8>)> {
    let w = word_prefix_len(s);
    if s.len() > 0 && is_ident_start(s[0]) && 1 <= w < s.len() && s[w] == 0x3a {
        Some((s.take(w), spec_trim_start(s.subrange(w + 1, s.len() as int))))
    } else {
        None
    }
}

/// The pseudo-op production `.NAME [args]`: a dot, a word-byte name, and
/// optional argument text behind whitespace.
pub open spec fn spec_line_pseudo(s: Seq<u8>) -> Option<(Seq<u8>, Seq<u8>)> {
    if s.len() > 0 && s[0] == 0x2e {
        let w = word_prefix_len(s.drop_first());
        if w >= 1 {
            let name = s.subrange(1, 1 + w);
            if 1 + w == s.len() {
                Some((name, Seq::empty()))
            } else if is_ws(s[1 + w]) {
                Some((name, spec_trim_start(s.subrange(1 + w, s.len() as int))))
            } else {
                None
            }
        } else {
            None
        }
    } else {
        None
    }
}

/// The instruction production: exactly three word bytes, lowercased into
/// the mnemonic, then either the end of the line or whitespace and the
/// operand text.
pub open spec fn spec_line_instr(s: Seq<u8>) -> Option<(Seq<u8>, Seq<u8>)> {
    if s.len() >= 3 && is_word_byte(s[0]) && is_word_byte(s[1]) && is_word_byte(s[2])
        && word_prefix_len(s) == 3 && (s.len() == 3 || is_ws(s[3])) {
        let m = seq![spec_to_lower(s[0]), spec_to_lower(s[1]), spec_to_lower(s[2])];
        let operand = if s.len() == 3 {
            Seq::<u8>::empty()
        } else {
            spec_trim_start(s.subrange(3, s.len() as int))
        };
        Some((m, operand))
    } else {
        None
    }
}

/// Recognizes the assignment production.
fn line_assignment<'a>(s: &'a [u8]) -> (r: Option<(&'a [u8], &'a [u8])>)
    ensures
        match (r, spec_line_assignment(s@)) {
            (Some((a, b)), Some((sa, sb))) => a@ == sa && b@ == sb,
            (None, None) => true,
            _ => false,
        },
{
    let n = s.len();
    match find_byte(s, 0x3d) {
        None => None,
        Some(i) => {
            let name = trim_end_bytes(&s[0..i]);
            let value = trim_start_bytes(&s[i + 1..n]);
            proof {
                assert(s@.subrange(0, i as int) =~= s@.take(i as int));
            }
            let star = name.len() == 1 && name[0] == 0x2a;
            proof {
                if star {
                    assert(name@ =~= seq![0x2au8]);
                } else {
                    assert(name@ != seq![0x2au8]);
                }
            }
            if (star || is_ident_exec(name)) && value.len() > 0 {
                Some((name, value))
            } else {
                None
            }
        },
    }
}

/// Recognizes a leading label.
fn line_label<'a>(s: &'a [u8]) -> (r: Option<(&'a [u8], &'a [u8])>)
    ensures
        match (r, spec_line_label(s@)) {
            (Some((a, b)), Some((sa, sb))) => a@ == sa && b@ == sb && b@.len() < s@.len(),
            (None, None) => true,
            _ => false,
        },
{
    let n = s.len();
    if n == 0 {
        return None;
    }
    let b0 = s[0];
    if !((0x41 <= b0 && b0 <= 0x5a) || (0x61 <= b0 && b0 <= 0x7a) || b0 == 0x5f) {
        return None;
    }
    let w = word_prefix(s);
    if 1 <= w && w < n && s[w] == 0x3a {
        let name = &s[0..w];
        let rest = trim_start_bytes(&s[w + 1..n]);
        proof {
            assert(s@.subrange(0, w as int) =~= s@.take(w as int));
            crate::utility::lemma_trim_start_le(s@.subrange(w + 1, s@.len() as int));
        }
        Some((name, rest))
    } else {
        None
    }
}

/// Recognizes a pseudo-op line.
fn line_pseudo<'a>(s: &'a [u8]) -> (r: Option<(&'a [u8], &'a [u8])>)
    ensures
        match (r, spec_line_pseudo(s@)) {
            (Some((a, b)), Some((sa, sb))) => a@ == sa && b@ == sb,
            (None, None) => true,
            _ => false,
        },
{
    let n = s.len();
    if n == 0 || s[0] != 0x2e {
        return None;
    }
    let w = word_prefix(&s[1..n]);
    proof {
        assert(s@.subrange(1, n as int) =~= s@.drop_first());
    }
    if w == 0 {
        return None;
    }
    let name = &s[1..1 + w];
    if 1 + w == n {
        let args = &s[n..n];
        proof {
            assert(args@ =~= Seq::<u8>::empty());
        }
        Some((name, args))
    } else {
        let b = s[1 + w];
        if b == 32 || b == 9 || b == 10 || b == 12 || b == 13 {
            let args = trim_start_bytes(&s[1 + w..n]);
            Some((name, args))
        } else {
            None
        }
    }
}

/// Recognizes an instruction line and lowercases its mnemonic.
fn line_instr<'a>(s: &'a [u8]) -> (r: Option<(u8, u8, u8, &'a [u8])>)
    ensures
        match (r, spec_line_instr(s@)) {
            (Some((m0, m1, m2, op)), Some((sm, sop))) => seq![m0, m1, m2] == sm && op@ == sop,
            (None, None) => true,
            _ => false,
        },
{
    let n = s.len();
    let w = word_prefix(s);
    if n >= 3 && w == 3 && (n == 3 || {
        let b = s[3];
        b == 32 || b == 9 || b == 10 || b == 12 || b == 13
    }) {
        let m0 = to_lower(s[0]);
        let m1 = to_lower(s[1]);
        let m2 = to_lower(s[2]);
        if n == 3 {
            let op = &s[0..0];
            proof {
                assert(op@ =~= Seq::<u8>::empty());
            }
            Some((m0, m1, m2, op))
        } else {
            let op = trim_start_bytes(&s[3..n]);
            Some((m0, m1, m2, op))
        }
    } else {
        None
    }
}

/// The recognized data directives.
#[derive(Clone, Copy, PartialEq, Eq, Structural, Debug)]
pub enum PseudoTag {
    Byte,
    Word,
    AddrString,
    Str,
    CStr,
    CbmStr,
    Unknown,
}

/// Which directive a pseudo-op name denotes.
pub open spec fn spec_pseudo_tag(name: Seq<u8>) -> PseudoTag {
    if name == seq![0x62u8, 0x79, 0x74, 0x65] {
        PseudoTag::Byte
    } else if name == seq![0x77u8, 0x6f, 0x72, 0x64] {
        PseudoTag::Word
    } else if name == seq![0x61u8, 0x64, 0x64, 0x72, 0x73, 0x74, 0x72, 0x69, 0x6e, 0x67] {
        PseudoTag::AddrString
    } else if name == seq![0x73u8, 0x74, 0x72, 0x69, 0x6e, 0x67] {
        PseudoTag::Str
    } else if name == seq![0x63u8, 0x73, 0x74, 0x72, 0x69, 0x6e, 0x67] {
        PseudoTag::CStr
    } else if name == seq![0x63u8, 0x62, 0x6d, 0x73, 0x74, 0x72, 0x69, 0x6e, 0x67] {
        PseudoTag::CbmStr
    } else {
        PseudoTag::Unknown
    }
}

/// Maps a directive name (`byte`, `word`, `addrstring`, `string`,
/// `cstring`, `cbmstring`) to its tag.
fn pseudo_tag(name: &[u8]) -> (t: PseudoTag)
    ensures
        t == spec_pseudo_tag(name@),
{
    let n = name.len();
    if n == 4 && name[0] == 0x62 && name[1] == 0x79 && name[2] == 0x74 && name[3] == 0x65 {
        proof {
            assert(name@ =~= seq![0x62u8, 0x79, 0x74, 0x65]);
        }
        PseudoTag::Byte
    } else if n == 4 && name[0] == 0x77 && name[1] == 0x6f && name[2] == 0x72 && name[3] == 0x64 {
        proof {
            assert(name@ =~= seq![0x77u8, 0x6f, 0x72, 0x64]);
        }
        PseudoTag::Word
    } else if n == 10 && name[0] == 0x61 && name[1] == 0x64 && name[2] == 0x64 && name[3] == 0x72
        && name[4] == 0x73 && name[5] == 0x74 && name[6] == 0x72 && name[7] == 0x69 && name[8]
        == 0x6e && name[9] == 0x67 {
        proof {
            assert(name@ =~= seq![0x61u8, 0x64, 0x64, 0x72, 0x73, 0x74, 0x72, 0x69, 0x6e, 0x67]);
        }
        PseudoTag::AddrString
    } else if n == 6 && name[0] == 0x73 && name[1] == 0x74 && name[2] == 0x72 && name[3] == 0x69
        && name[4] == 0x6e && name[5] == 0x67 {
        proof {
            assert(name@ =~= seq![0x73u8, 0x74, 0x72, 0x69, 0x6e, 0x67]);
        }
        PseudoTag::Str
    } else if n == 7 && name[0] == 0x63 && name[1] == 0x73 && name[2] == 0x74 && name[3] == 0x72
        && name[4] == 0x69 && name[5] == 0x6e && name[6] == 0x67 {
        proof {
            assert(name@ =~= seq![0x63u8, 0x73, 0x74, 0x72, 0x69, 0x6e, 0x67]);
        }
        PseudoTag::CStr
    } else if n == 9 && name[0] == 0x63 && name[1] == 0x62 && name[2] == 0x6d && name[3] == 0x73
        && name[4] == 0x74 && name[5] == 0x72 && name[6] == 0x69 && name[7] == 0x6e && name[8]
        == 0x67 {
        proof {
            assert(name@ =~= seq![0x63u8, 0x62, 0x6d, 0x73, 0x74, 0x72, 0x69, 0x6e, 0x67]);
        }
        PseudoTag::CbmStr
    } else {
        proof {
            assert(name@ != seq![0x62u8, 0x79, 0x74, 0x65]);
            assert(name@ != seq![0x77u8, 0x6f, 0x72, 0x64]);
            assert(name@ != seq![0x61u8, 0x64, 0x64, 0x72, 0x73, 0x74, 0x72, 0x69, 0x6e, 0x67]);
            assert(name@ != seq![0x73u8, 0x74, 0x72, 0x69, 0x6e, 0x67]);
            assert(name@ != seq![0x63u8, 0x73, 0x74, 0x72, 0x69, 0x6e, 0x67]);
            assert(name@ != seq![0x63u8, 0x62, 0x6d, 0x73, 0x74, 0x72, 0x69, 0x6e, 0x67]);
        }
        PseudoTag::Unknown
    }
}

/// The bytes a data directive lays down, or the error it raises. The
/// string directives strip the quotation marks around their text; an
/// empty `.cbmstring` has no last byte to mark and is rejected.
pub open spec fn spec_pseudo_result(
    tag: PseudoTag,
    args: Seq<u8>,
    constants: Map<Seq<u8>, u16>,
    labels: Map<Seq<u8>, u16>,
    pass: Pass,
    target: Target,
) -> Result<Seq<u8>, ErrorKind> {
    match tag {
        PseudoTag::Byte => spec_data_bytes8(spec_split_commas(args), constants, labels, pass),
        PseudoTag::Word => spec_data_bytes16(spec_split_commas(args), constants, labels, pass),
        PseudoTag::AddrString => match spec_resolve(args, constants, labels, pass) {
            Err(k) => Err(k),
            Ok(v) => Ok(spec_addr5(v)),
        },
        PseudoTag::Str => Ok(spec_transcode(spec_strip_quotes(args), target)),
        PseudoTag::CStr => Ok(spec_transcode(spec_strip_quotes(args), target) + seq![0u8]),
        PseudoTag::CbmStr => {
            let t = spec_strip_quotes(args);
            if t.len() == 0 {
                Err(ErrorKind::Syntax)
            } else {
                Ok(spec_cbm_bytes(t, target))
            }
        },
        PseudoTag::Unknown => Err(ErrorKind::UnknownPseudoOp),
    }
}

/// Computes the bytes of one data directive.
fn pseudo_result(
    tag: PseudoTag,
    args: &[u8],
    constants: &SymbolTable,
    labels: &SymbolTable,
    pass: Pass,
    target: &Target,
) -> (r: Result<Vec<u8>, ErrorKind>)
    ensures
        match (r, spec_pseudo_result(tag, args@, constants@, labels@, pass, *target)) {
            (Ok(b), Ok(sb)) => b@ == sb,
            (Err(k1), Err(k2)) => k1 == k2,
            _ => false,
        },
{
    match tag {
        PseudoTag::Byte => {
            let pieces = split_commas(args);
            data_bytes8(&pieces, constants, labels, pass)
        },
        PseudoTag::Word => {
            let pieces = split_commas(args);
            data_bytes16(&pieces, constants, labels, pass)
        },
        PseudoTag::AddrString => match resolve_expr(args, constants, labels, pass) {
            Err(k) => Err(k),
            Ok(v) => Ok(addr5(v)),
        },
        PseudoTag::Str => {
            let text = strip_quotes(args);
            Ok(transcode(text, target))
        },
        PseudoTag::CStr => {
            let text = strip_quotes(args);
            let mut b = transcode(text, target);
            b.push(0);
            proof {
                assert(b@ =~= spec_transcode(spec_strip_quotes(args@), *target) + seq![0u8]);
            }
            Ok(b)
        },
        PseudoTag::CbmStr => {
            let text = strip_quotes(args);
            if text.len() == 0 {
                Err(ErrorKind::Syntax)
            } else {
                Ok(cbm_bytes(text, target))
            }
        },
        PseudoTag::Unknown => Err(ErrorKind::UnknownPseudoOp),
    }
}

/// One classified line applied to the pass state. Productions are tried
/// in priority order: empty, assignment, label, pseudo-op, instruction;
/// a line matching none is a syntax error. Assignments evaluate in every
/// pass; `* = expr` moves the program counter and the first one of a
/// pass fixes the load address; other names bind constants in pass
/// Constant only. A leading label binds the program counter in pass
/// Label and the remainder of the line is processed in turn. Pseudo-ops
/// and instructions are skipped in pass Constant; otherwise they advance
/// the program counter by their byte count, and pass Main appends the
/// bytes to the image.
pub open spec fn spec_dispatch(
    s: Seq<u8>,
    st: SpecState,
    pass: Pass,
    target: Target,
) -> Result<SpecState, StepError>
    decreases s.len() via spec_dispatch_decreases
{
    if s.len() == 0 {
        Ok(st)
    } else {
        match spec_line_assignment(s) {
            Some((name, value)) => match spec_parse_expr(value, st.consts, st.labels) {
                None => Err((ErrorKind::UndefinedSymbol, st.line, st)),
                Some(v) => if name == seq![0x2au8] {
                    Ok(
                        SpecState {
                            pc: v,
                            load_addr: if st.load_set {
                                st.load_addr
                            } else {
                                v
                            },
                            load_set: true,
                            line: st.line,
                            consts: st.consts,
                            labels: st.labels,
                            seen: st.seen,
                            code: st.code,
                        },
                    )
                } else if pass == Pass::Constant {
                    Ok(
                        SpecState {
                            pc: st.pc,
                            load_addr: st.load_addr,
                            load_set: st.load_set,
                            line: st.line,
                            consts: st.consts.insert(name, v),
                            labels: st.labels,
                            seen: st.seen,
                            code: st.code,
                        },
                    )
                } else {
                    Ok(st)
                },
            },
            None => match spec_line_label(s) {
                Some((name, rest)) => {
                    let st2 = if pass == Pass::Label {
                        SpecState {
                            pc: st.pc,
                            load_addr: st.load_addr,
                            load_set: st.load_set,
                            line: st.line,
                            consts: st.consts,
                            labels: st.labels.insert(name, st.pc),
                            seen: st.seen,
                            code: st.code,
                        }
                    } else if pass == Pass::Main {
                        SpecState {
                            pc: st.pc,
                            load_addr: st.load_addr,
                            load_set: st.load_set,
                            line: st.line,
                            consts: st.consts,
                            labels: st.labels,
                            seen: st.seen.insert(name, st.pc),
                            code: st.code,
                        }
                    } else {
                        st
                    };
                    spec_dispatch(rest, st2, pass, target)
                },
                None => match spec_line_pseudo(s) {
                    Some((name, args)) => if pass == Pass::Constant {
                        Ok(st)
                    } else {
                        match spec_pseudo_result(
                            spec_pseudo_tag(name),
                            args,
                            st.consts,
                            st.labels,
                            pass,
                            target,
                        ) {
                            Err(k) => Err((k, st.line, st)),
                            Ok(bytes) => Ok(
                                SpecState {
                                    pc: spec_advance(st.pc, bytes.len()),
                                    load_addr: st.load_addr,
                                    load_set: st.load_set,
                                    line: st.line,
                                    consts: st.consts,
                                    labels: st.labels,
                                    seen: st.seen,
                                    code: if pass == Pass::Main {
                                        st.code + bytes
                                    } else {
                                        st.code
                                    },
                                },
                            ),
                        }
                    },
                    None => match spec_line_instr(s) {
                        Some((m, operand)) => if pass == Pass::Constant {
                            Ok(st)
                        } else {
                            match spec_encode_instr(
                                m,
                                operand,
                                st.consts,
                                st.labels,
                                if pass == Pass::Main {
                                    st.seen
                                } else {
                                    st.labels
                                },
                                st.pc,
                                pass,
                            ) {
                                Err(k) => Err((k, st.line, st)),
                                Ok(bytes) => Ok(
                                    SpecState {
                                        pc: spec_advance(st.pc, bytes.len()),
                                        load_addr: st.load_addr,
                                        load_set: st.load_set,
                                        line: st.line,
                                        consts: st.consts,
                                        labels: st.labels,
                                        seen: st.seen,
                                        code: if pass == Pass::Main {
                                            st.code + bytes
                                        } else {
                                            st.code
                                        },
                                    },
                                ),
                            }
                        },
                        None => Err((ErrorKind::Syntax, st.line, st)),
                    },
                },
            },
        }
    }
}

#[via_fn]
proof fn spec_dispatch_decreases(s: Seq<u8>, st: SpecState, pass: Pass, target: Target) {
    if s.len() > 0 && spec_line_assignment(s).is_none() {
        let w = word_prefix_len(s);
        if s.len() > 0 && is_ident_start(s[0]) && 1 <= w < s.len() && s[w] == 0x3a {
            crate::utility::lemma_trim_start_le(s.subrange(w + 1, s.len() as int));
        }
    }
}

/// Applies one already-trimmed line to the working state: symbol tables
/// and program counter in `state`, image bytes in `code`, load address
/// in `load_addr` / `load_set`. The pass and target are those of
/// `state`; the line number is left to the caller.
pub fn process_line(
    s: &[u8],
    state: &mut AssemblyState,
    code: &mut Vec<u8>,
    load_addr: &mut u16,
    load_set: &mut bool,
    labels_seen: &mut SymbolTable,
) -> (r: Result<(), ErrorMsg>)
    ensures
        final(state).pass == old(state).pass,
        final(state).target == old(state).target,
        final(state).line_num == old(state).line_num,
        match (r, spec_dispatch(
            s@,
            pack(*old(state), old(code)@, *old(load_addr), *old(load_set), old(labels_seen)@),
            old(state).pass,
            old(state).target,
        )) {
            (Ok(u), Ok(ss)) => ss == pack(
                *final(state),
                final(code)@,
                *final(load_addr),
                *final(load_set),
                final(labels_seen)@,
            ),
            (Err(e), Err((k, ln, es))) => e.kind == k && e.line_num as int == ln && es == pack(
                *final(state),
                final(code)@,
                *final(load_addr),
                *final(load_set),
                final(labels_seen)@,
            ),
            _ => false,
        },
    decreases s@.len(),
{
    if s.len() == 0 {
        return Ok(());
    }
    match line_assignment(s) {
        Some((name, value)) => {
            let v = match parse_expression(value, &state.constants, &state.labels) {
                Some(v) => v,
                None => {
                    return Err(ErrorMsg::from_kind(ErrorKind::UndefinedSymbol, state.line_num));
                },
            };
            let star = name.len() == 1 && name[0] == 0x2a;
            proof {
                if star {
                    assert(name@ =~= seq![0x2au8]);
                } else {
                    assert(name@ != seq![0x2au8]);
                }
            }
            if star {
                state.program_counter = v;
                if !*load_set {
                    *load_addr = v;
                    *load_set = true;
                }
            } else if state.pass == Pass::Constant {
                state.constants.insert(slice_to_vec(name), v);
            }
            return Ok(());
        },
        None => {},
    }
    match line_label(s) {
        Some((name, rest)) => {
            if state.pass == Pass::Label {
                let pc = state.program_counter;
                state.labels.insert(slice_to_vec(name), pc);
            } else if state.pass == Pass::Main {
                let pc = state.program_counter;
                labels_seen.insert(slice_to_vec(name), pc);
            }
            return process_line(rest, state, code, load_addr, load_set, labels_seen);
        },
        None => {},
    }
    match line_pseudo(s) {
        Some((name, args)) => {
            if state.pass == Pass::Constant {
                return Ok(());
            }
            let tag = pseudo_tag(name);
            match pseudo_result(tag, args, &state.constants, &state.labels, state.pass,
                &state.target) {
                Err(k) => {
                    return Err(ErrorMsg::from_kind(k, state.line_num));
                },
                Ok(bytes) => {
                    state.program_counter = advance(state.program_counter, bytes.len());
                    if state.pass == Pass::Main {
                        let mut b = bytes;
                        code.append(&mut b);
                    }
                    return Ok(());
                },
            }
        },
        None => {},
    }
    match line_instr(s) {
        Some((m0, m1, m2, operand)) => {
            if state.pass == Pass::Constant {
                return Ok(());
            }
            let mut mv: Vec<u8> = Vec::new();
            mv.push(m0);
            mv.push(m1);
            mv.push(m2);
            proof {
                assert(mv@ =~= seq![m0, m1, m2]);
            }
            let seen: &SymbolTable = if state.pass == Pass::Main {
                labels_seen
            } else {
                &state.labels
            };
            match get_instruction_bytes(
                mv.as_slice(),
                operand,
                &state.constants,
                &state.labels,
                seen,
                state.program_counter,
                state.line_num,
                state.pass,
            ) {
                Err(e) => {
                    return Err(e);
                },
                Ok(bytes) => {
                    state.program_counter = advance(state.program_counter, bytes.len());
                    if state.pass == Pass::Main {
                        let mut b = bytes;
                        code.append(&mut b);
                    }
                    return Ok(());
                },
            }
        },
        None => {},
    }
    Err(ErrorMsg::from_kind(ErrorKind::Syntax, state.line_num))
}

/// One raw source line applied to the state: trim it, cut the first `;`
/// comment off, dispatch what is left, and step to the next line number.
pub open spec fn spec_step_line(
    line: Seq<u8>,
    st: SpecState,
    pass: Pass,
    target: Target,
) -> Result<SpecState, StepError> {
    let t0 = spec_trim(line);
    let t = match spec_find(t0, 0x3b) {
        Some(i) => spec_trim_end(t0.take(i)),
        None => t0,
    };
    match spec_dispatch(t, st, pass, target) {
        Err(e) => Err(e),
        Ok(ss) => Ok(
            SpecState {
                pc: ss.pc,
                load_addr: ss.load_addr,
                load_set: ss.load_set,
                line: ss.line + 1,
                consts: ss.consts,
                labels: ss.labels,
                seen: ss.seen,
                code: ss.code,
            },
        ),
    }
}

/// One pass over the source from line index `i` on: the final state, or
/// the first error.
pub open spec fn spec_run_from(
    lines: Seq<Seq<u8>>,
    i: int,
    st: SpecState,
    pass: Pass,
    target: Target,
) -> Result<SpecState, StepError>
    decreases lines.len() - i,
{
    if i < 0 || i >= lines.len() {
        Ok(st)
    } else {
        match spec_step_line(lines[i], st, pass, target) {
            Err(e) => Err(e),
            Ok(ss) => spec_run_from(lines, i + 1, ss, pass, target),
        }
    }
}

/// The state a pass starts from: counters and image reset, both symbol
/// namespaces carried over.
pub open spec fn spec_pass_init(consts: Map<Seq<u8>, u16>, labels: Map<Seq<u8>, u16>) -> SpecState {
    SpecState {
        pc: 0x0801,
        load_addr: 0x0801,
        load_set: false,
        line: 1,
        consts,
        labels,
        seen: Map::empty(),
        code: seq![0u8, 0u8],
    }
}

/// Runs one pass over the source lines. The program counter, line
/// number, and image are reset to the pass's initial conditions; the
/// symbol tables persist from earlier passes. Returns the image bytes
/// (two placeholder header bytes first) and the load address.
pub fn assemble(lines: &Vec<Vec<u8>>, state: &mut AssemblyState) -> (r: Result<
    (Vec<u8>, u16),
    ErrorMsg,
>)
    requires
        lines@.len() < usize::MAX,
    ensures
        final(state).pass == old(state).pass,
        final(state).target == old(state).target,
        match (r, spec_run_from(
            lines@.map_values(|l: Vec<u8>| l@),
            0,
            spec_pass_init(old(state).constants@, old(state).labels@),
            old(state).pass,
            old(state).target,
        )) {
            (Ok(res), Ok(fs)) => {
                &&& res.0@ == fs.code
                &&& res.1 == fs.load_addr
                &&& final(state).constants@ == fs.consts
                &&& final(state).labels@ == fs.labels
                &&& final(state).program_counter == fs.pc
                &&& final(state).line_num as int == fs.line
            },
            (Err(e), Err((k, ln, es))) => {
                &&& e.kind == k
                &&& e.line_num as int == ln
                &&& final(state).constants@ == es.consts
                &&& final(state).labels@ == es.labels
                &&& final(state).program_counter == es.pc
                &&& final(state).line_num as int == es.line
            },
            _ => false,
        },
{
    let ghost lv = lines@.map_values(|l: Vec<u8>| l@);
    let ghost pass0 = state.pass;
    let ghost target0 = state.target;
    state.line_num = 1;
    state.program_counter = 0x0801;
    let mut load_addr: u16 = 0x0801;
    let mut load_set: bool = false;
    let mut labels_seen = SymbolTable::new();
    let mut code: Vec<u8> = Vec::new();
    code.push(0);
    code.push(0);
    proof {
        assert(code@ =~= seq![0u8, 0u8]);
        assert(pack(*state, code@, load_addr, load_set, labels_seen@) =~= spec_pass_init(
            state.constants@,
            state.labels@,
        ));
    }
    let mut i: usize = 0;
    while i < lines.len()
        invariant
            lines@.len() < usize::MAX,
            lv == lines@.map_values(|l: Vec<u8>| l@),
            0 <= i <= lines@.len(),
            pass0 == old(state).pass,
            target0 == old(state).target,
            state.pass == pass0,
            state.target == target0,
            state.line_num == i + 1,
            spec_run_from(lv, 0, spec_pass_init(old(state).constants@, old(state).labels@), pass0,
                target0) == spec_run_from(lv, i as int, pack(*state, code@, load_addr, load_set,
                labels_seen@), pass0, target0),
        decreases lines@.len() - i,
    {
        let ghost st_before = pack(*state, code@, load_addr, load_set, labels_seen@);
        let pretrimmed = trim_bytes(lines[i].as_slice());
        let t = match find_byte(pretrimmed, 0x3b) {
            Some(j) => trim_end_bytes(&pretrimmed[0..j]),
            None => pretrimmed,
        };
        proof {
            assert(lv[i as int] == lines@[i as int]@);
            assert(pretrimmed@.subrange(0, spec_find(pretrimmed@, 0x3b).unwrap_or(0)) =~= pretrimmed@.take(
                spec_find(pretrimmed@, 0x3b).unwrap_or(0),
            ));
        }
        match process_line(t, state, &mut code, &mut load_addr, &mut load_set, &mut labels_seen) {
            Err(e) => {
                proof {
                    assert(spec_step_line(lv[i as int], st_before, pass0, target0) == Err::<
                        SpecState,
                        StepError,
                    >((e.kind, e.line_num as int, pack(*state, code@, load_addr, load_set,
                    labels_seen@))));
                }
                return Err(e);
            },
            Ok(()) => {
                state.line_num = state.line_num + 1;
                proof {
                    let ss = spec_dispatch(t@, st_before, pass0, target0)->Ok_0;
                    assert(spec_step_line(lv[i as int], st_before, pass0, target0) == Ok::<
                        SpecState,
                        StepError,
                    >(pack(*state, code@, load_addr, load_set, labels_seen@))) by {
                        assert(pack(*state, code@, load_addr, load_set, labels_seen@) =~= SpecState {
                            pc: ss.pc,
                            load_addr: ss.load_addr,
                            load_set: ss.load_set,
                            line: ss.line + 1,
                            consts: ss.consts,
                            labels: ss.labels,
                            seen: ss.seen,
                            code: ss.code,
                        });
                    }
                }
                i = i + 1;
            },
        }
    }
    Ok((code, load_addr))
}

/// A dispatched line only ever appends to the image: the old bytes stay
/// as a prefix.
pub proof fn lemma_dispatch_code_extends(s: Seq<u8>, st: SpecState, pass: Pass, target: Target)
    ensures
        match spec_dispatch(s, st, pass, target) {
            Ok(ss) => ss.code.len() >= st.code.len() && ss.code.take(st.code.len() as int)
                == st.code,
            Err(_) => true,
        },
    decreases s.len(),
{
    if s.len() == 0 {
    } else {
        match spec_line_assignment(s) {
            Some(_) => {
                assert(st.code.take(st.code.len() as int) =~= st.code);
            },
            None => match spec_line_label(s) {
                Some((name, rest)) => {
                    let st2 = if pass == Pass::Label {
                        SpecState {
                            pc: st.pc,
                            load_addr: st.load_addr,
                            load_set: st.load_set,
                            line: st.line,
                            consts: st.consts,
                            labels: st.labels.insert(name, st.pc),
                            seen: st.seen,
                            code: st.code,
                        }
                    } else if pass == Pass::Main {
                        SpecState {
                            pc: st.pc,
                            load_addr: st.load_addr,
                            load_set: st.load_set,
                            line: st.line,
                            consts: st.consts,
                            labels: st.labels,
                            seen: st.seen.insert(name, st.pc),
                            code: st.code,
                        }
                    } else {
                        st
                    };
                    crate::utility::lemma_trim_start_le(s.subrange(
                        word_prefix_len(s) + 1,
                        s.len() as int,
                    ));
                    lemma_dispatch_code_extends(rest, st2, pass, target);
                },
                None => {
                    assert(st.code.take(st.code.len() as int) =~= st.code);
                    if let Ok(ss) = spec_dispatch(s, st, pass, target) {
                        assert(ss.code.take(st.code.len() as int) =~= st.code);
                    }
                },
            },
        }
    }
}

/// A whole pass only ever appends to the image.
pub proof fn lemma_run_code_extends(
    lines: Seq<Seq<u8>>,
    i: int,
    st: SpecState,
    pass: Pass,
    target: Target,
)
    ensures
        match spec_run_from(lines, i, st, pass, target) {
            Ok(fs) => fs.code.len() >= st.code.len() && fs.code.take(st.code.len() as int)
                == st.code,
            Err(_) => true,
        },
    decreases lines.len() - i,
{
    if i < 0 || i >= lines.len() {
        assert(st.code.take(st.code.len() as int) =~= st.code);
    } else {
        let t0 = spec_trim(lines[i]);
        let t = match spec_find(t0, 0x3b) {
            Some(j) => spec_trim_end(t0.take(j)),
            None => t0,
        };
        lemma_dispatch_code_extends(t, st, pass, target);
        match spec_step_line(lines[i], st, pass, target) {
            Err(_) => {},
            Ok(ss) => {
                lemma_run_code_extends(lines, i + 1, ss, pass, target);
                if let Ok(fs) = spec_run_from(lines, i + 1, ss, pass, target) {
                    assert(fs.code.take(st.code.len() as int) =~= ss.code.take(
                        st.code.len() as int,
                    ));
                }
            },
        }
    }
}

/// The state after pass Constant, starting from empty namespaces.
pub open spec fn spec_pass_constant(lv: Seq<Seq<u8>>, target: Target) -> Result<
    SpecState,
    StepError,
> {
    spec_run_from(lv, 0, spec_pass_init(Map::empty(), Map::empty()), Pass::Constant, target)
}

/// The state after pass Label, the constants namespace frozen.
pub open spec fn spec_pass_label(lv: Seq<Seq<u8>>, target: Target) -> Result<
    SpecState,
    StepError,
> {
    match spec_pass_constant(lv, target) {
        Err(e) => Err(e),
        Ok(s1) => spec_run_from(lv, 0, spec_pass_init(s1.consts, s1.labels), Pass::Label, target),
    }
}

/// The state after pass Main, both namespaces frozen.
pub open spec fn spec_pass_main(lv: Seq<Seq<u8>>, target: Target) -> Result<
    SpecState,
    StepError,
> {
    match spec_pass_label(lv, target) {
        Err(e) => Err(e),
        Ok(s2) => spec_run_from(lv, 0, spec_pass_init(s2.consts, s2.labels), Pass::Main, target),
    }
}

/// What the whole assembler produces for a source text: pass Constant
/// gathers constants, pass Label places labels, pass Main emits bytes,
/// and the two header bytes are patched to the little-endian load
/// address.
pub open spec fn spec_assemble(lv: Seq<Seq<u8>>, target: Target) -> Result<
    Seq<u8>,
    (ErrorKind, int),
> {
    match spec_pass_main(lv, target) {
        Err((k, ln, _)) => Err((k, ln)),
        Ok(s3) => Ok(s3.code.update(0, spec_lo8(s3.load_addr)).update(1, spec_hi8(s3.load_addr))),
    }
}

/// Assembles a source text into a `.prg` image: two little-endian load
/// address bytes followed by the bytes pass Main emits.
pub fn assemble_program(lines: &Vec<Vec<u8>>, target: Target) -> (r: Result<Vec<u8>, ErrorMsg>)
    requires
        lines@.len() < usize::MAX,
    ensures
        match (r, spec_assemble(lines@.map_values(|l: Vec<u8>| l@), target)) {
            (Ok(b), Ok(sb)) => b@ == sb,
            (Err(e), Err((k, ln))) => e.kind == k && e.line_num as int == ln,
            _ => false,
        },
{
    let ghost lv = lines@.map_values(|l: Vec<u8>| l@);
    let mut state = AssemblyState {
        target,
        pass: Pass::Constant,
        line_num: 1,
        program_counter: 0,
        constants: SymbolTable::new(),
        labels: SymbolTable::new(),
    };
    match assemble(lines, &mut state) {
        Err(e) => {
            return Err(e);
        },
        Ok(_) => {},
    }
    state.pass = Pass::Label;
    match assemble(lines, &mut state) {
        Err(e) => {
            return Err(e);
        },
        Ok(_) => {},
    }
    state.pass = Pass::Main;
    let (mut code, la) = match assemble(lines, &mut state) {
        Err(e) => {
            return Err(e);
        },
        Ok(x) => x,
    };
    proof {
        let s2 = spec_pass_label(lv, target)->Ok_0;
        lemma_run_code_extends(lv, 0, spec_pass_init(s2.consts, s2.labels), Pass::Main, target);
    }
    let lo = lo8(la);
    let hi = hi8(la);
    code.set(0, lo);
    code.set(1, hi);
    Ok(code)
}

} // verus!
