//! Byte-level lexing helpers: whitespace trimming, searching, numeric
//! literals, and the expression evaluator.

use vstd::prelude::*;

verus! {

/// The low byte of a 16-bit value.
pub open spec fn spec_lo8(n: u16) -> u8 {
    (n & 0xff) as u8
}

/// The high byte of a 16-bit value.
pub open spec fn spec_hi8(n: u16) -> u8 {
    (n >> 8) as u8
}

/// Extracts the low byte of a 16-bit value.
pub fn lo8(n: u16) -> (r: u8)
    ensures
        r == spec_lo8(n),
{
    (n & 0xff) as u8
}

/// Extracts the high byte of a 16-bit value.
pub fn hi8(n: u16) -> (r: u8)
    ensures
        r == spec_hi8(n),
{
    (n >> 8) as u8
}

/// ASCII whitespace: space, tab, line feed, form feed, carriage return.
pub open spec fn is_ws(b: u8) -> bool {
    b == 32 || b == 9 || b == 10 || b == 12 || b == 13
}

/// A word byte: ASCII letter, digit, or underscore.
pub open spec fn is_word_byte(b: u8) -> bool {
    (0x30 <= b && b <= 0x39) || (0x41 <= b && b <= 0x5a) || (0x61 <= b && b <= 0x7a) || b == 0x5f
}

/// A byte that may start an identifier: ASCII letter or underscore.
pub open spec fn is_ident_start(b: u8) -> bool {
    (0x41 <= b && b <= 0x5a) || (0x61 <= b && b <= 0x7a) || b == 0x5f
}

/// Whether `s` is an identifier: a letter or underscore followed by word bytes.
pub open spec fn is_ident(s: Seq<u8>) -> bool {
    s.len() > 0 && is_ident_start(s[0]) && forall|i: int| 0 <= i < s.len() ==> is_word_byte(#[trigger] s[i])
}

/// `s` without its leading ASCII whitespace.
pub open spec fn spec_trim_start(s: Seq<u8>) -> Seq<u8>
    decreases s.len(),
{
    if s.len() > 0 && is_ws(s[0]) {
        spec_trim_start(s.drop_first())
    } else {
        s
    }
}

/// `s` without its trailing ASCII whitespace.
pub open spec fn spec_trim_end(s: Seq<u8>) -> Seq<u8>
    decreases s.len(),
{
    if s.len() > 0 && is_ws(s.last()) {
        spec_trim_end(s.drop_last())
    } else {
        s
    }
}

/// Trimming only ever shortens a string.
pub proof fn lemma_trim_start_le(s: Seq<u8>)
    ensures
        spec_trim_start(s).len() <= s.len(),
    decreases s.len(),
{
    if s.len() > 0 && is_ws(s[0]) {
        lemma_trim_start_le(s.drop_first());
    }
}

/// `s` without leading and trailing ASCII whitespace.
pub open spec fn spec_trim(s: Seq<u8>) -> Seq<u8> {
    spec_trim_end(spec_trim_start(s))
}

/// The index of the first occurrence of `b` in `s`, if any.
pub open spec fn spec_find(s: Seq<u8>, b: u8) -> Option<int>
    decreases s.len(),
{
    if s.len() == 0 {
        None
    } else if s[0] == b {
        Some(0)
    } else {
        match spec_find(s.drop_first(), b) {
            Some(i) => Some(i + 1),
            None => None,
        }
    }
}

/// A prefix of whitespace bytes followed by a non-whitespace byte (or the
/// end) pins down `spec_trim_start`.
pub proof fn lemma_trim_start_at(s: Seq<u8>, a: int)
    requires
        0 <= a <= s.len(),
        forall|k: int| 0 <= k < a ==> is_ws(#[trigger] s[k]),
        a < s.len() ==> !is_ws(s[a]),
    ensures
        spec_trim_start(s) == s.subrange(a, s.len() as int),
    decreases a,
{
    if a == 0 {
        assert(s.subrange(0, s.len() as int) =~= s);
    } else {
        lemma_trim_start_at(s.drop_first(), a - 1);
        assert(s.drop_first().subrange(a - 1, s.drop_first().len() as int) =~= s.subrange(
            a,
            s.len() as int,
        ));
    }
}

/// A suffix of whitespace bytes preceded by a non-whitespace byte (or the
/// start) pins down `spec_trim_end`.
pub proof fn lemma_trim_end_at(s: Seq<u8>, b: int)
    requires
        0 <= b <= s.len(),
        forall|k: int| b <= k < s.len() ==> is_ws(#[trigger] s[k]),
        b > 0 ==> !is_ws(s[b - 1]),
    ensures
        spec_trim_end(s) == s.subrange(0, b),
    decreases s.len() - b,
{
    if b == s.len() {
        assert(s.subrange(0, s.len() as int) =~= s);
    } else {
        lemma_trim_end_at(s.drop_last(), b);
        assert(s.drop_last().subrange(0, b) =~= s.subrange(0, b));
    }
}

/// Removes leading ASCII whitespace from a byte slice.
pub fn trim_start_bytes(s: &[u8]) -> (r: &[u8])
    ensures
        r@ == spec_trim_start(s@),
{
    let mut a: usize = 0;
    while a < s.len() && is_ws_byte(s[a])
        invariant
            0 <= a <= s@.len(),
            forall|k: int| 0 <= k < a ==> is_ws(#[trigger] s@[k]),
        decreases s@.len() - a,
    {
        a = a + 1;
    }
    proof {
        lemma_trim_start_at(s@, a as int);
    }
    &s[a..s.len()]
}

/// Removes trailing ASCII whitespace from a byte slice.
pub fn trim_end_bytes(s: &[u8]) -> (r: &[u8])
    ensures
        r@ == spec_trim_end(s@),
{
    let mut b: usize = s.len();
    while b > 0 && is_ws_byte(s[b - 1])
        invariant
            0 <= b <= s@.len(),
            forall|k: int| b <= k < s@.len() ==> is_ws(#[trigger] s@[k]),
        decreases b,
    {
        b = b - 1;
    }
    proof {
        lemma_trim_end_at(s@, b as int);
    }
    &s[0..b]
}

/// Removes leading and trailing ASCII whitespace from a byte slice.
pub fn trim_bytes(s: &[u8]) -> (r: &[u8])
    ensures
        r@ == spec_trim(s@),
{
    trim_end_bytes(trim_start_bytes(s))
}

/// Tests a byte for ASCII whitespace.
pub fn is_ws_byte(b: u8) -> (r: bool)
    ensures
        r == is_ws(b),
{
    b == 32 || b == 9 || b == 10 || b == 12 || b == 13
}

/// Tests for a word byte: letter, digit, or underscore.
pub fn is_word_byte_exec(b: u8) -> (r: bool)
    ensures
        r == is_word_byte(b),
{
    (0x30 <= b && b <= 0x39) || (0x41 <= b && b <= 0x5a) || (0x61 <= b && b <= 0x7a) || b == 0x5f
}

/// What a successful `spec_find` means: a position inside the string
/// holding `b`, with nothing equal to `b` before it.
pub proof fn lemma_find_some(s: Seq<u8>, b: u8)
    ensures
        match spec_find(s, b) {
            Some(i) => 0 <= i < s.len() && s[i] == b && forall|k: int| 0 <= k < i ==> s[k] != b,
            None => forall|k: int| 0 <= k < s.len() ==> s[k] != b,
        },
    decreases s.len(),
{
    if s.len() > 0 && s[0] != b {
        lemma_find_some(s.drop_first(), b);
        match spec_find(s.drop_first(), b) {
            Some(j) => {
                assert forall|k: int| 0 <= k < j + 1 implies s[k] != b by {
                    if k > 0 {
                        assert(s.drop_first()[k - 1] == s[k]);
                    }
                }
            },
            None => {
                assert forall|k: int| 0 <= k < s.len() implies s[k] != b by {
                    if k > 0 {
                        assert(s.drop_first()[k - 1] == s[k]);
                    }
                }
            },
        }
    }
}

/// A position whose earlier bytes all differ from `b` pins down `spec_find`.
pub proof fn lemma_find_at(s: Seq<u8>, i: int, b: u8)
    requires
        0 <= i <= s.len(),
        forall|k: int| 0 <= k < i ==> s[k] != b,
        i < s.len() ==> s[i] == b,
    ensures
        i < s.len() ==> spec_find(s, b) == Some(i),
        i == s.len() ==> spec_find(s, b).is_none(),
    decreases i,
{
    if i == 0 {
        if s.len() > 0 {
        } else {
        }
    } else {
        lemma_find_at(s.drop_first(), i - 1, b);
    }
}

/// Finds the first occurrence of `b` in `s`.
pub fn find_byte(s: &[u8], b: u8) -> (r: Option<usize>)
    ensures
        match r {
            Some(i) => spec_find(s@, b) == Some(i as int) && i < s@.len() && s@[i as int] == b,
            None => spec_find(s@, b).is_none(),
        },
{
    let mut i: usize = 0;
    while i < s.len()
        invariant
            0 <= i <= s@.len(),
            forall|k: int| 0 <= k < i ==> s@[k] != b,
        decreases s@.len() - i,
    {
        if s[i] == b {
            proof {
                lemma_find_at(s@, i as int, b);
            }
            return Some(i);
        }
        i = i + 1;
    }
    proof {
        lemma_find_at(s@, i as int, b);
    }
    None
}

/// The value of an ASCII digit in the given base, if it is one.
/// Hex digits are case-insensitive.
pub open spec fn spec_digit_val(b: u8, base: u16) -> Option<u16> {
    let v: u16 = if 0x30 <= b && b <= 0x39 {
        (b - 0x30) as u16
    } else if 0x61 <= b && b <= 0x66 {
        (b - 0x61 + 10) as u16
    } else if 0x41 <= b && b <= 0x46 {
        (b - 0x41 + 10) as u16
    } else {
        99
    };
    if v < base {
        Some(v)
    } else {
        None
    }
}

/// The numeric value of a digit string in the given base, with no bound;
/// `None` when the string is empty or holds a non-digit.
pub open spec fn spec_radix_val(s: Seq<u8>, base: u16) -> Option<nat>
    decreases s.len(),
{
    if s.len() == 0 {
        None
    } else if s.len() == 1 {
        match spec_digit_val(s[0], base) {
            Some(d) => Some(d as nat),
            None => None,
        }
    } else {
        match (spec_radix_val(s.drop_last(), base), spec_digit_val(s.last(), base)) {
            (Some(v), Some(d)) => Some((v * base + d) as nat),
            _ => None,
        }
    }
}

/// A digit string parses to a 16-bit value exactly when it is nonempty,
/// all digits, and its value fits.
pub open spec fn spec_parse_radix(s: Seq<u8>, base: u16) -> Option<u16> {
    match spec_radix_val(s, base) {
        Some(v) => if v <= 0xffff {
            Some(v as u16)
        } else {
            None
        },
        None => None,
    }
}

/// A non-digit anywhere makes the whole string fail to parse.
proof fn lemma_radix_bad(s: Seq<u8>, i: int, base: u16)
    requires
        0 <= i < s.len(),
        spec_digit_val(s[i], base).is_none(),
    ensures
        spec_radix_val(s, base).is_none(),
    decreases s.len(),
{
    if s.len() > 1 && i < s.len() - 1 {
        lemma_radix_bad(s.drop_last(), i, base);
    }
}

/// The value of a digit string is at least the value of any of its prefixes.
proof fn lemma_radix_prefix_le(s: Seq<u8>, i: int, base: u16, u: nat, v: nat)
    requires
        0 < i <= s.len(),
        base >= 2,
        spec_radix_val(s.take(i), base) == Some(u),
        spec_radix_val(s, base) == Some(v),
    ensures
        v >= u,
    decreases s.len() - i,
{
    if i == s.len() {
        assert(s.take(i) =~= s);
    } else {
        let t = s.take(i + 1);
        assert(t.drop_last() =~= s.take(i));
        assert(t.last() == s[i]);
        if s.len() == i + 1 {
            assert(t =~= s);
            assert(spec_radix_val(s, base).is_some());
            let d = spec_digit_val(s[i], base).unwrap();
            assert(v == u * base + d);
            assert(u * base >= u * 2) by (nonlinear_arith)
                requires
                    base >= 2,
                    u >= 0,
            ;
        } else {
            if spec_digit_val(s[i], base).is_none() {
                lemma_radix_bad(s, i, base);
            } else {
                let d = spec_digit_val(s[i], base).unwrap();
                let u2 = (u * base + d) as nat;
                assert(spec_radix_val(t, base) == Some(u2));
                lemma_radix_prefix_le(s, i + 1, base, u2, v);
                assert(u * base >= u * 1) by (nonlinear_arith)
                    requires
                        base >= 1,
                        u >= 0,
                ;
            }
        }
    }
}

/// Tests and converts one digit.
fn digit_val(b: u8, base: u16) -> (r: Option<u16>)
    ensures
        r == spec_digit_val(b, base),
{
    let v: u16 = if 0x30 <= b && b <= 0x39 {
        (b - 0x30) as u16
    } else if 0x61 <= b && b <= 0x66 {
        (b - 0x61 + 10) as u16
    } else if 0x41 <= b && b <= 0x46 {
        (b - 0x41 + 10) as u16
    } else {
        99
    };
    if v < base {
        Some(v)
    } else {
        None
    }
}

/// Parses a digit string in the given base into a 16-bit value.
pub fn parse_radix(s: &[u8], base: u16) -> (r: Option<u16>)
    requires
        2 <= base <= 16,
    ensures
        r == spec_parse_radix(s@, base),
{
    if s.len() == 0 {
        return None;
    }
    let mut acc: u32 = 0;
    let mut i: usize = 0;
    while i < s.len()
        invariant
            2 <= base <= 16,
            0 <= i <= s@.len(),
            s@.len() > 0,
            acc <= 0xffff,
            i > 0 ==> spec_radix_val(s@.take(i as int), base) == Some(acc as nat),
            i == 0 ==> acc == 0,
        decreases s@.len() - i,
    {
        match digit_val(s[i], base) {
            None => {
                proof {
                    lemma_radix_bad(s@, i as int, base);
                }
                return None;
            },
            Some(d) => {
                proof {
                    if i > 0 {
                        assert(s@.take(i + 1).drop_last() =~= s@.take(i as int));
                        assert(s@.take(i + 1).last() == s@[i as int]);
                    } else {
                        assert(s@.take(1).len() == 1);
                        assert(s@.take(1)[0] == s@[0]);
                    }
                }
                proof {
                    assert(acc * base <= 0xffff * 16) by (nonlinear_arith)
                        requires
                            acc <= 0xffff,
                            base <= 16,
                    ;
                }
                acc = acc * (base as u32) + (d as u32);
                i = i + 1;
                if acc > 0xffff {
                    proof {
                        assert(spec_radix_val(s@.take(i as int), base) == Some(acc as nat));
                        if spec_radix_val(s@, base).is_some() {
                            lemma_radix_prefix_le(
                                s@,
                                i as int,
                                base,
                                acc as nat,
                                spec_radix_val(s@, base).unwrap(),
                            );
                        }
                    }
                    return None;
                }
            },
        }
    }
    proof {
        assert(s@.take(i as int) =~= s@);
    }
    Some(acc as u16)
}

/// What `parse_num` returns: `$` starts hexadecimal, `%` binary, a quote
/// starts a character literal whose value is the byte after the quote,
/// and anything else is decimal. Failure to parse is `None`.
pub open spec fn spec_parse_num(s: Seq<u8>) -> Option<u16> {
    if s.len() > 0 && s[0] == 0x24 {
        spec_parse_radix(s.drop_first(), 16)
    } else if s.len() > 0 && s[0] == 0x25 {
        spec_parse_radix(s.drop_first(), 2)
    } else if s.len() > 0 && (s[0] == 0x22 || s[0] == 0x27) {
        if s.len() >= 2 {
            Some(s[1] as u16)
        } else {
            None
        }
    } else {
        spec_parse_radix(s, 10)
    }
}

/// Parses a single numeric or character literal into a 16-bit value.
pub fn parse_num(num: &[u8]) -> (r: Option<u16>)
    ensures
        r == spec_parse_num(num@),
{
    if num.len() > 0 && num[0] == 0x24 {
        let r = parse_radix(&num[1..num.len()], 16);
        proof {
            assert(num@.subrange(1, num@.len() as int) =~= num@.drop_first());
        }
        r
    } else if num.len() > 0 && num[0] == 0x25 {
        let r = parse_radix(&num[1..num.len()], 2);
        proof {
            assert(num@.subrange(1, num@.len() as int) =~= num@.drop_first());
        }
        r
    } else if num.len() > 0 && (num[0] == 0x22 || num[0] == 0x27) {
        if num.len() >= 2 {
            Some(num[1] as u16)
        } else {
            None
        }
    } else {
        parse_radix(num, 10)
    }
}

/// The length of the longest prefix of `s` made of word bytes.
pub open spec fn word_prefix_len(s: Seq<u8>) -> int
    decreases s.len(),
{
    if s.len() > 0 && is_word_byte(s[0]) {
        1 + word_prefix_len(s.drop_first())
    } else {
        0
    }
}

/// A run of word bytes stopped by a non-word byte (or the end) pins down
/// `word_prefix_len`.
pub proof fn lemma_word_prefix_at(s: Seq<u8>, a: int)
    requires
        0 <= a <= s.len(),
        forall|k: int| 0 <= k < a ==> is_word_byte(#[trigger] s[k]),
        a < s.len() ==> !is_word_byte(s[a]),
    ensures
        word_prefix_len(s) == a,
    decreases a,
{
    if a > 0 {
        lemma_word_prefix_at(s.drop_first(), a - 1);
    }
}

/// Measures the longest prefix of word bytes.
pub fn word_prefix(s: &[u8]) -> (r: usize)
    ensures
        r == word_prefix_len(s@),
        r <= s@.len(),
        r < s@.len() ==> !is_word_byte(s@[r as int]),
        forall|k: int| 0 <= k < r ==> is_word_byte(#[trigger] s@[k]),
{
    let mut a: usize = 0;
    while a < s.len() && is_word_byte_exec(s[a])
        invariant
            0 <= a <= s@.len(),
            forall|k: int| 0 <= k < a ==> is_word_byte(#[trigger] s@[k]),
        decreases s@.len() - a,
    {
        a = a + 1;
    }
    proof {
        lemma_word_prefix_at(s@, a as int);
    }
    a
}

/// Tests whether a byte string is an identifier.
pub fn is_ident_exec(s: &[u8]) -> (r: bool)
    ensures
        r == is_ident(s@),
{
    if s.len() == 0 {
        return false;
    }
    let b0 = s[0];
    if !((0x41 <= b0 && b0 <= 0x5a) || (0x61 <= b0 && b0 <= 0x7a) || b0 == 0x5f) {
        return false;
    }
    let w = word_prefix(s);
    proof {
        if w == s@.len() {
            lemma_word_prefix_all(s@, 0);
        } else {
            assert(!is_word_byte(s@[word_prefix_len(s@)]));
        }
    }
    w == s.len()
}

/// A word-prefix that spans the whole string makes every byte a word byte.
pub proof fn lemma_word_prefix_all(s: Seq<u8>, k: int)
    requires
        word_prefix_len(s) == s.len(),
    ensures
        forall|i: int| 0 <= i < s.len() ==> is_word_byte(#[trigger] s[i]),
    decreases s.len(),
{
    if s.len() > 0 {
        lemma_word_prefix_all(s.drop_first(), 0);
        assert forall|i: int| 0 <= i < s.len() implies is_word_byte(#[trigger] s[i]) by {
            if i > 0 {
                assert(s.drop_first()[i - 1] == s[i]);
            }
        }
    }
}

/// ASCII lowercase of one byte: `A`..`Z` gain 0x20, all else unchanged.
pub open spec fn spec_to_lower(b: u8) -> u8 {
    if 0x41 <= b && b <= 0x5a {
        (b + 0x20) as u8
    } else {
        b
    }
}

/// Lowercases one ASCII byte.
pub fn to_lower(b: u8) -> (r: u8)
    ensures
        r == spec_to_lower(b),
{
    if 0x41 <= b && b <= 0x5a {
        b + 0x20
    } else {
        b
    }
}

/// 16-bit addition with wrap-around.
pub open spec fn spec_wrap_add(a: u16, b: u16) -> u16 {
    if a + b <= 0xffff {
        (a + b) as u16
    } else {
        (a + b - 0x10000) as u16
    }
}

/// 16-bit subtraction with wrap-around.
pub open spec fn spec_wrap_sub(a: u16, b: u16) -> u16 {
    if a >= b {
        (a - b) as u16
    } else {
        (a + 0x10000 - b) as u16
    }
}

/// What `parse_value` returns: a numeric literal's value, else the value
/// bound to the identifier, constants first, labels second.
pub open spec fn spec_parse_value(
    s: Seq<u8>,
    constants: Map<Seq<u8>, u16>,
    labels: Map<Seq<u8>, u16>,
) -> Option<u16> {
    match spec_parse_num(s) {
        Some(v) => Some(v),
        None => if constants.contains_key(s) {
            Some(constants[s])
        } else if labels.contains_key(s) {
            Some(labels[s])
        } else {
            None
        },
    }
}

/// The value of a term: either a single primary, or two primaries around
/// the first `+` (checked before `-`), each trimmed, combined with
/// wrap-around arithmetic. Both sides must resolve.
pub open spec fn spec_eval_term(
    s: Seq<u8>,
    constants: Map<Seq<u8>, u16>,
    labels: Map<Seq<u8>, u16>,
) -> Option<u16> {
    match spec_find(s, 0x2b) {
        Some(i) => {
            let lv = spec_parse_value(spec_trim(s.take(i)), constants, labels);
            let rv = spec_parse_value(
                spec_trim(s.subrange(i + 1, s.len() as int)),
                constants,
                labels,
            );
            match (lv, rv) {
                (Some(a), Some(b)) => Some(spec_wrap_add(a, b)),
                _ => None,
            }
        },
        None => match spec_find(s, 0x2d) {
            Some(i) => {
                let lv = spec_parse_value(spec_trim(s.take(i)), constants, labels);
                let rv = spec_parse_value(
                    spec_trim(s.subrange(i + 1, s.len() as int)),
                    constants,
                    labels,
                );
                match (lv, rv) {
                    (Some(a), Some(b)) => Some(spec_wrap_sub(a, b)),
                    _ => None,
                }
            },
            None => spec_parse_value(s, constants, labels),
        },
    }
}

/// What `parse_expression` returns: an optional leading `<` or `>`
/// selects the low or high byte of the term behind it.
pub open spec fn spec_parse_expr(
    s: Seq<u8>,
    constants: Map<Seq<u8>, u16>,
    labels: Map<Seq<u8>, u16>,
) -> Option<u16> {
    if s.len() > 0 && s[0] == 0x3c {
        match spec_eval_term(s.drop_first(), constants, labels) {
            Some(v) => Some(spec_lo8(v) as u16),
            None => None,
        }
    } else if s.len() > 0 && s[0] == 0x3e {
        match spec_eval_term(s.drop_first(), constants, labels) {
            Some(v) => Some(spec_hi8(v) as u16),
            None => None,
        }
    } else {
        spec_eval_term(s, constants, labels)
    }
}

/// Resolves a primary: a numeric literal, or an identifier looked up in
/// the constants and then the labels namespace.
pub fn parse_value(
    value: &[u8],
    constants: &crate::symbols::SymbolTable,
    labels: &crate::symbols::SymbolTable,
) -> (r: Option<u16>)
    ensures
        r == spec_parse_value(value@, constants@, labels@),
{
    match parse_num(value) {
        Some(num) => Some(num),
        None => {
            match constants.lookup(value) {
                Some(v) => Some(v),
                None => labels.lookup(value),
            }
        },
    }
}

/// Adds two 16-bit values with wrap-around.
pub fn wrap_add(a: u16, b: u16) -> (r: u16)
    ensures
        r == spec_wrap_add(a, b),
{
    let s: u32 = a as u32 + b as u32;
    if s <= 0xffff {
        s as u16
    } else {
        (s - 0x10000) as u16
    }
}

/// Subtracts two 16-bit values with wrap-around.
pub fn wrap_sub(a: u16, b: u16) -> (r: u16)
    ensures
        r == spec_wrap_sub(a, b),
{
    if a >= b {
        a - b
    } else {
        (a as u32 + 0x10000 - b as u32) as u16
    }
}

/// Evaluates a term around the first `+` or `-`, if any.
fn eval_term(
    s: &[u8],
    constants: &crate::symbols::SymbolTable,
    labels: &crate::symbols::SymbolTable,
) -> (r: Option<u16>)
    ensures
        r == spec_eval_term(s@, constants@, labels@),
{
    let split = match find_byte(s, 0x2b) {
        Some(i) => Some((i, true)),
        None => match find_byte(s, 0x2d) {
            Some(i) => Some((i, false)),
            None => None,
        },
    };
    match split {
        Some((i, is_add)) => {
            let n = s.len();
            let left = trim_bytes(&s[0..i]);
            let right = trim_bytes(&s[i + 1..n]);
            proof {
                assert(s@.subrange(0, i as int) =~= s@.take(i as int));
            }
            let lv = parse_value(left, constants, labels);
            let rv = parse_value(right, constants, labels);
            match (lv, rv) {
                (Some(a), Some(b)) => if is_add {
                    Some(wrap_add(a, b))
                } else {
                    Some(wrap_sub(a, b))
                },
                _ => None,
            }
        },
        None => parse_value(s, constants, labels),
    }
}

/// Evaluates a textual expression: an optional `<` or `>` byte selector
/// in front of a term of at most one binary `+` or `-`.
pub fn parse_expression(
    expression: &[u8],
    constants: &crate::symbols::SymbolTable,
    labels: &crate::symbols::SymbolTable,
) -> (r: Option<u16>)
    ensures
        r == spec_parse_expr(expression@, constants@, labels@),
{
    if expression.len() > 0 && (expression[0] == 0x3c || expression[0] == 0x3e) {
        let lo = expression[0] == 0x3c;
        let inner = &expression[1..expression.len()];
        proof {
            assert(inner@ =~= expression@.drop_first());
        }
        match eval_term(inner, constants, labels) {
            Some(v) => if lo {
                Some(lo8(v) as u16)
            } else {
                Some(hi8(v) as u16)
            },
            None => None,
        }
    } else {
        eval_term(expression, constants, labels)
    }
}

} // verus!
