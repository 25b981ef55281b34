//! Data pseudo-ops: the bytes that `.byte`, `.word`, `.addrstring` and
//! the string directives lay down.

use vstd::prelude::*;
use vstd::pervasive::VecAdditionalExecFns;
use vstd::slice::slice_to_vec;

use crate::assembler::Pass;
use crate::errors::ErrorKind;
use crate::instructions::{resolve_expr, spec_resolve};
use crate::symbols::SymbolTable;
use crate::target::{char_format, spec_char_format, Target};
use crate::utility::{
    find_byte, hi8, lo8, spec_find, spec_hi8, spec_lo8, spec_trim, trim_bytes,
};

verus! {

/// The comma-separated pieces of a directive's argument text. The commas
/// themselves vanish; the pieces keep their surrounding whitespace.
pub open spec fn spec_split_commas(s: Seq<u8>) -> Seq<Seq<u8>>
    decreases s.len() via spec_split_commas_decreases
{
    match spec_find(s, 0x2c) {
        None => seq![s],
        Some(i) => seq![s.take(i)] + spec_split_commas(s.subrange(i + 1, s.len() as int)),
    }
}

#[via_fn]
proof fn spec_split_commas_decreases(s: Seq<u8>) {
    crate::utility::lemma_find_some(s, 0x2c);
}

/// Splits argument text at every comma.
pub fn split_commas(s: &[u8]) -> (r: Vec<Vec<u8>>)
    ensures
        r@.map_values(|v: Vec<u8>| v@) == spec_split_commas(s@),
    decreases s@.len(),
{
    let n = s.len();
    match find_byte(s, 0x2c) {
        None => {
            let mut r: Vec<Vec<u8>> = Vec::new();
            r.push(slice_to_vec(s));
            proof {
                assert(r@.map_values(|v: Vec<u8>| v@) =~= seq![s@]);
            }
            r
        },
        Some(i) => {
            let head = slice_to_vec(&s[0..i]);
            let mut rest = split_commas(&s[i + 1..n]);
            let ghost rest_view = rest@;
            let mut r: Vec<Vec<u8>> = Vec::new();
            r.push(head);
            r.append(&mut rest);
            proof {
                assert(s@.subrange(0, i as int) =~= s@.take(i as int));
                assert(r@.map_values(|v: Vec<u8>| v@) =~= seq![s@.take(i as int)]
                    + rest_view.map_values(|v: Vec<u8>| v@));
            }
            r
        },
    }
}

/// The bytes of a `.byte` list: the low byte of each trimmed piece's
/// resolved value, in order; an unresolved piece is fatal in pass Main.
pub open spec fn spec_data_bytes8(
    pieces: Seq<Seq<u8>>,
    constants: Map<Seq<u8>, u16>,
    labels: Map<Seq<u8>, u16>,
    pass: Pass,
) -> Result<Seq<u8>, ErrorKind>
    decreases pieces.len(),
{
    if pieces.len() == 0 {
        Ok(Seq::empty())
    } else {
        match spec_resolve(spec_trim(pieces[0]), constants, labels, pass) {
            Err(k) => Err(k),
            Ok(v) => match spec_data_bytes8(pieces.drop_first(), constants, labels, pass) {
                Err(k) => Err(k),
                Ok(bs) => Ok(seq![spec_lo8(v)] + bs),
            },
        }
    }
}

/// The bytes of a `.word` list: each trimmed piece's resolved value as a
/// little-endian 16-bit pair, in order.
pub open spec fn spec_data_bytes16(
    pieces: Seq<Seq<u8>>,
    constants: Map<Seq<u8>, u16>,
    labels: Map<Seq<u8>, u16>,
    pass: Pass,
) -> Result<Seq<u8>, ErrorKind>
    decreases pieces.len(),
{
    if pieces.len() == 0 {
        Ok(Seq::empty())
    } else {
        match spec_resolve(spec_trim(pieces[0]), constants, labels, pass) {
            Err(k) => Err(k),
            Ok(v) => match spec_data_bytes16(pieces.drop_first(), constants, labels, pass) {
                Err(k) => Err(k),
                Ok(bs) => Ok(seq![spec_lo8(v), spec_hi8(v)] + bs),
            },
        }
    }
}

/// Emits one byte per `.byte` piece.
pub fn data_bytes8(
    pieces: &Vec<Vec<u8>>,
    constants: &SymbolTable,
    labels: &SymbolTable,
    pass: Pass,
) -> (r: Result<Vec<u8>, ErrorKind>)
    ensures
        match (r, spec_data_bytes8(
            pieces@.map_values(|v: Vec<u8>| v@),
            constants@,
            labels@,
            pass,
        )) {
            (Ok(b), Ok(sb)) => b@ == sb,
            (Err(k1), Err(k2)) => k1 == k2,
            _ => false,
        },
{
    let ghost pm = pieces@.map_values(|v: Vec<u8>| v@);
    let mut acc: Vec<u8> = Vec::new();
    proof {
        assert(pm.skip(0) =~= pm);
        if let Ok(bs) = spec_data_bytes8(pm, constants@, labels@, pass) {
            assert(Seq::<u8>::empty() + bs =~= bs);
        }
    }
    let mut i: usize = 0;
    while i < pieces.len()
        invariant
            0 <= i <= pieces@.len(),
            pm == pieces@.map_values(|v: Vec<u8>| v@),
            match spec_data_bytes8(pm.skip(i as int), constants@, labels@, pass) {
                Ok(bs) => spec_data_bytes8(pm, constants@, labels@, pass) == Ok::<Seq<u8>, ErrorKind>(acc@ + bs),
                Err(k) => spec_data_bytes8(pm, constants@, labels@, pass) == Err::<Seq<u8>,
                    ErrorKind,
                >(k),
            },
        decreases pieces@.len() - i,
    {
        proof {
            assert(pm.skip(i as int)[0] == pm[i as int]);
            assert(pm.skip(i as int).drop_first() =~= pm.skip(i + 1));
        }
        let piece = trim_bytes(pieces[i].as_slice());
        proof {
            assert(pm[i as int] == pieces@[i as int]@);
            assert(piece@ == spec_trim(pm.skip(i as int)[0]));
        }
        match resolve_expr(piece, constants, labels, pass) {
            Err(k) => {
                return Err(k);
            },
            Ok(v) => {
                let ghost acc_old = acc@;
                acc.push(lo8(v));
                proof {
                    if let Ok(bs) = spec_data_bytes8(pm.skip(i + 1), constants@, labels@, pass) {
                        assert(acc_old + (seq![spec_lo8(v)] + bs) =~= acc@ + bs);
                    }
                }
            },
        }
        i = i + 1;
    }
    proof {
        assert(pm.skip(i as int) =~= Seq::<Seq<u8>>::empty());
        assert(acc@ + Seq::<u8>::empty() =~= acc@);
    }
    Ok(acc)
}

/// Emits two little-endian bytes per `.word` piece.
pub fn data_bytes16(
    pieces: &Vec<Vec<u8>>,
    constants: &SymbolTable,
    labels: &SymbolTable,
    pass: Pass,
) -> (r: Result<Vec<u8>, ErrorKind>)
    ensures
        match (r, spec_data_bytes16(
            pieces@.map_values(|v: Vec<u8>| v@),
            constants@,
            labels@,
            pass,
        )) {
            (Ok(b), Ok(sb)) => b@ == sb,
            (Err(k1), Err(k2)) => k1 == k2,
            _ => false,
        },
{
    let ghost pm = pieces@.map_values(|v: Vec<u8>| v@);
    let mut acc: Vec<u8> = Vec::new();
    proof {
        assert(pm.skip(0) =~= pm);
        if let Ok(bs) = spec_data_bytes16(pm, constants@, labels@, pass) {
            assert(Seq::<u8>::empty() + bs =~= bs);
        }
    }
    let mut i: usize = 0;
    while i < pieces.len()
        invariant
            0 <= i <= pieces@.len(),
            pm == pieces@.map_values(|v: Vec<u8>| v@),
            match spec_data_bytes16(pm.skip(i as int), constants@, labels@, pass) {
                Ok(bs) => spec_data_bytes16(pm, constants@, labels@, pass) == Ok::<Seq<u8>, ErrorKind>(acc@ + bs),
                Err(k) => spec_data_bytes16(pm, constants@, labels@, pass) == Err::<Seq<u8>,
                    ErrorKind,
                >(k),
            },
        decreases pieces@.len() - i,
    {
        proof {
            assert(pm.skip(i as int)[0] == pm[i as int]);
            assert(pm.skip(i as int).drop_first() =~= pm.skip(i + 1));
        }
        let piece = trim_bytes(pieces[i].as_slice());
        proof {
            assert(pm[i as int] == pieces@[i as int]@);
            assert(piece@ == spec_trim(pm.skip(i as int)[0]));
        }
        match resolve_expr(piece, constants, labels, pass) {
            Err(k) => {
                return Err(k);
            },
            Ok(v) => {
                let ghost acc_old = acc@;
                acc.push(lo8(v));
                acc.push(hi8(v));
                proof {
                    if let Ok(bs) = spec_data_bytes16(pm.skip(i + 1), constants@, labels@, pass) {
                        assert(acc_old + (seq![spec_lo8(v), spec_hi8(v)] + bs) =~= acc@ + bs);
                    }
                }
            },
        }
        i = i + 1;
    }
    proof {
        assert(pm.skip(i as int) =~= Seq::<Seq<u8>>::empty());
        assert(acc@ + Seq::<u8>::empty() =~= acc@);
    }
    Ok(acc)
}

/// The five ASCII digits of `.addrstring`: the value rendered in decimal,
/// left-padded with `0` to exactly five characters.
pub open spec fn spec_addr5(v: u16) -> Seq<u8> {
    seq![
        (0x30 + v / 10000) as u8,
        (0x30 + (v / 1000) % 10) as u8,
        (0x30 + (v / 100) % 10) as u8,
        (0x30 + (v / 10) % 10) as u8,
        (0x30 + v % 10) as u8,
    ]
}

/// Renders a value as five zero-padded decimal digits.
pub fn addr5(v: u16) -> (r: Vec<u8>)
    ensures
        r@ == spec_addr5(v),
{
    let mut r: Vec<u8> = Vec::new();
    r.push(0x30 + (v / 10000) as u8);
    r.push(0x30 + ((v / 1000) % 10) as u8);
    r.push(0x30 + ((v / 100) % 10) as u8);
    r.push(0x30 + ((v / 10) % 10) as u8);
    r.push(0x30 + (v % 10) as u8);
    proof {
        assert(r@ =~= spec_addr5(v));
    }
    r
}

/// Quotation marks stripped from both ends of a string directive's
/// argument, the way the source dialect delimits its string literals.
pub open spec fn spec_strip_quotes_start(s: Seq<u8>) -> Seq<u8>
    decreases s.len(),
{
    if s.len() > 0 && s[0] == 0x22 {
        spec_strip_quotes_start(s.drop_first())
    } else {
        s
    }
}

/// The string with trailing quotation marks removed.
pub open spec fn spec_strip_quotes_end(s: Seq<u8>) -> Seq<u8>
    decreases s.len(),
{
    if s.len() > 0 && s.last() == 0x22 {
        spec_strip_quotes_end(s.drop_last())
    } else {
        s
    }
}

/// The payload of a string literal: quotation marks stripped from both ends.
pub open spec fn spec_strip_quotes(s: Seq<u8>) -> Seq<u8> {
    spec_strip_quotes_end(spec_strip_quotes_start(s))
}

/// A quote prefix stopped by a non-quote pins down `spec_strip_quotes_start`.
proof fn lemma_strip_quotes_start_at(s: Seq<u8>, a: int)
    requires
        0 <= a <= s.len(),
        forall|k: int| 0 <= k < a ==> s[k] == 0x22,
        a < s.len() ==> s[a] != 0x22,
    ensures
        spec_strip_quotes_start(s) == s.subrange(a, s.len() as int),
    decreases a,
{
    if a == 0 {
        assert(s.subrange(0, s.len() as int) =~= s);
    } else {
        lemma_strip_quotes_start_at(s.drop_first(), a - 1);
        assert(s.drop_first().subrange(a - 1, s.drop_first().len() as int) =~= s.subrange(
            a,
            s.len() as int,
        ));
    }
}

/// A quote suffix stopped by a non-quote pins down `spec_strip_quotes_end`.
proof fn lemma_strip_quotes_end_at(s: Seq<u8>, b: int)
    requires
        0 <= b <= s.len(),
        forall|k: int| b <= k < s.len() ==> s[k] == 0x22,
        b > 0 ==> s[b - 1] != 0x22,
    ensures
        spec_strip_quotes_end(s) == s.subrange(0, b),
    decreases s.len() - b,
{
    if b == s.len() {
        assert(s.subrange(0, s.len() as int) =~= s);
    } else {
        lemma_strip_quotes_end_at(s.drop_last(), b);
        assert(s.drop_last().subrange(0, b) =~= s.subrange(0, b));
    }
}

/// Strips quotation marks from both ends of the argument text.
pub fn strip_quotes(s: &[u8]) -> (r: &[u8])
    ensures
        r@ == spec_strip_quotes(s@),
{
    let mut a: usize = 0;
    while a < s.len() && s[a] == 0x22
        invariant
            0 <= a <= s@.len(),
            forall|k: int| 0 <= k < a ==> s@[k] == 0x22,
        decreases s@.len() - a,
    {
        a = a + 1;
    }
    proof {
        lemma_strip_quotes_start_at(s@, a as int);
    }
    let t = &s[a..s.len()];
    let mut b: usize = t.len();
    while b > 0 && t[b - 1] == 0x22
        invariant
            0 <= b <= t@.len(),
            forall|k: int| b <= k < t@.len() ==> t@[k] == 0x22,
        decreases b,
    {
        b = b - 1;
    }
    proof {
        lemma_strip_quotes_end_at(t@, b as int);
    }
    &t[0..b]
}

/// The text of a string directive transcoded byte for byte into the
/// target encoding.
pub open spec fn spec_transcode(t: Seq<u8>, target: Target) -> Seq<u8> {
    t.map_values(|b: u8| spec_char_format(b, target))
}

/// Transcodes a string payload into the target encoding.
pub fn transcode(text: &[u8], target: &Target) -> (r: Vec<u8>)
    ensures
        r@ == spec_transcode(text@, *target),
{
    let mut r: Vec<u8> = Vec::new();
    let mut i: usize = 0;
    while i < text.len()
        invariant
            0 <= i <= text@.len(),
            r@ == text@.take(i as int).map_values(|b: u8| spec_char_format(b, *target)),
        decreases text@.len() - i,
    {
        r.push(char_format(text[i], target));
        proof {
            assert(text@.take(i + 1).map_values(|b: u8| spec_char_format(b, *target)) =~= text@.take(
                i as int,
            ).map_values(|b: u8| spec_char_format(b, *target)).push(
                spec_char_format(text@[i as int], *target),
            ));
        }
        i = i + 1;
    }
    proof {
        assert(text@.take(text@.len() as int) =~= text@);
    }
    r
}

/// The bytes of `.cbmstring`: the transcoded text with bit 7 of the last
/// byte set.
pub open spec fn spec_cbm_bytes(t: Seq<u8>, target: Target) -> Seq<u8> {
    let m = spec_transcode(t, target);
    m.update(m.len() - 1, m.last() | 0x80)
}

/// Transcodes a `.cbmstring` payload and marks its final byte.
pub fn cbm_bytes(text: &[u8], target: &Target) -> (r: Vec<u8>)
    requires
        text@.len() > 0,
    ensures
        r@ == spec_cbm_bytes(text@, *target),
{
    let mut r = transcode(text, target);
    let n = r.len();
    let last = r[n - 1];
    r.set(n - 1, last | 0x80);
    r
}

} // verus!
