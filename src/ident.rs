//! Paste identifiers and deletion tokens: 128-bit random values whose
//! external form is the hyphenated lowercase hexadecimal text of their
//! sixteen big-endian bytes.

use vstd::prelude::*;

verus! {

/// The sixteen lowercase hexadecimal digits, by value.
pub open spec fn hex_char(d: nat) -> char {
    seq!['0', '1', '2', '3', '4', '5', '6', '7', '8', '9', 'a', 'b', 'c', 'd', 'e', 'f'][d as int]
}

pub open spec fn is_hex_digit(c: char) -> bool {
    ('0' <= c && c <= '9') || ('a' <= c && c <= 'f') || ('A' <= c && c <= 'F')
}

/// The value of a hexadecimal digit of either case.
pub open spec fn hex_value(c: char) -> nat {
    if '0' <= c && c <= '9' {
        (c as u32 - '0' as u32) as nat
    } else if 'a' <= c && c <= 'f' {
        (c as u32 - 'a' as u32 + 10) as nat
    } else {
        (c as u32 - 'A' as u32 + 10) as nat
    }
}

pub open spec fn all_hex(s: Seq<char>) -> bool {
    forall|i: int| 0 <= i < s.len() ==> is_hex_digit(#[trigger] s[i])
}

/// The number written by a string of hexadecimal digits, most significant first.
pub open spec fn hex_number(s: Seq<char>) -> nat
    decreases s.len(),
{
    if s.len() == 0 {
        0
    } else {
        hex_number(s.drop_last()) * 16 + hex_value(s.last())
    }
}

/// The `n` lowest hexadecimal digits of `v` in lowercase, most significant first.
pub open spec fn hex_digits(v: nat, n: nat) -> Seq<char>
    decreases n,
{
    if n == 0 {
        seq![]
    } else {
        hex_digits(v / 16, (n - 1) as nat).push(hex_char(v % 16))
    }
}

/// The 32 digits of a 36-character hyphenated form, hyphens left out.
pub open spec fn without_hyphens(s: Seq<char>) -> Seq<char> {
    s.subrange(0, 8) + s.subrange(9, 13) + s.subrange(14, 18) + s.subrange(19, 23) + s.subrange(
        24,
        36,
    )
}

/// `8-4-4-4-12` hexadecimal digits of either case, separated by hyphens.
pub open spec fn is_hyphenated(s: Seq<char>) -> bool {
    &&& s.len() == 36
    &&& s[8] == '-' && s[13] == '-' && s[18] == '-' && s[23] == '-'
    &&& all_hex(without_hyphens(s))
}

/// `urn:uuid:` in any mix of case.
pub open spec fn is_urn_prefix(p: Seq<char>) -> bool {
    let lower = seq!['u', 'r', 'n', ':', 'u', 'u', 'i', 'd', ':'];
    let upper = seq!['U', 'R', 'N', ':', 'U', 'U', 'I', 'D', ':'];
    p.len() == 9 && forall|i: int| 0 <= i < 9 ==> (#[trigger] p[i] == lower[i] || p[i] == upper[i])
}

/// The 32 digits that an accepted identifier text carries, in order.
pub open spec fn id_digits(s: Seq<char>) -> Seq<char> {
    if s.len() == 32 {
        s
    } else if s.len() == 36 {
        without_hyphens(s)
    } else if s.len() == 38 {
        without_hyphens(s.subrange(1, 37))
    } else {
        without_hyphens(s.subrange(9, 45))
    }
}

/// The texts accepted as an identifier: 32 plain digits, the hyphenated
/// form, the hyphenated form in braces, or the hyphenated form after
/// `urn:uuid:`.
pub open spec fn is_id_text(s: Seq<char>) -> bool {
    ||| s.len() == 32 && all_hex(s)
    ||| is_hyphenated(s)
    ||| s.len() == 38 && s[0] == '{' && s[37] == '}' && is_hyphenated(s.subrange(1, 37))
    ||| s.len() == 45 && is_urn_prefix(s.subrange(0, 9)) && is_hyphenated(s.subrange(9, 45))
}

/// The canonical external form of an identifier: 36 characters, lowercase.
pub open spec fn id_text(v: u128) -> Seq<char> {
    let d = hex_digits(v as nat, 32);
    d.subrange(0, 8) + seq!['-'] + d.subrange(8, 12) + seq!['-'] + d.subrange(12, 16) + seq!['-']
        + d.subrange(16, 20) + seq!['-'] + d.subrange(20, 32)
}

/// What reading `s` as an identifier gives.
pub open spec fn parsed_id(s: Seq<char>) -> Option<u128> {
    if is_id_text(s) {
        Some(hex_number(id_digits(s)) as u128)
    } else {
        None
    }
}

/// Relies on uuid's `Uuid::new_v4` and `Uuid::as_u128`: 128 random bits with
/// the version nibble set to 4 and the two variant bits set to `10`.
#[verifier::external_body]
pub fn new_random_id() -> (r: u128)
    ensures
        (r >> 76u128) & 0xfu128 == 4,
        (r >> 62u128) & 3u128 == 2,
{
    uuid::Uuid::new_v4().as_u128()
}

/// Relies on uuid's `Uuid::parse_str`, which reads the simple, hyphenated,
/// braced and URN forms, hexadecimal digits of either case, and
/// `Uuid::as_u128`, which packs the sixteen bytes big-endian.
#[verifier::external_body]
fn uuid_parse(s: &str) -> (r: Option<u128>)
    ensures
        r == parsed_id(s@),
{
    match uuid::Uuid::parse_str(s) {
        Ok(u) => Some(u.as_u128()),
        Err(_) => None,
    }
}

/// Relies on uuid's `Uuid::from_u128` and the `Display` of its hyphenated
/// form: lowercase digits of the big-endian bytes in groups 8-4-4-4-12.
#[verifier::external_body]
fn uuid_hyphenated(v: u128) -> (r: String)
    ensures
        r@ == id_text(v),
{
    uuid::Uuid::from_u128(v).hyphenated().to_string()
}

/// Reads an identifier from its external text.
pub fn parse_id(s: &str) -> (r: Option<u128>)
    ensures
        r == parsed_id(s@),
{
    uuid_parse(s)
}

/// The canonical external text of an identifier.
pub fn id_to_string(v: u128) -> (r: String)
    ensures
        r@ == id_text(v),
{
    uuid_hyphenated(v)
}

pub open spec fn pow16(n: nat) -> nat
    decreases n,
{
    if n == 0 {
        1
    } else {
        16 * pow16((n - 1) as nat)
    }
}

proof fn lemma_hex_char_value(d: nat)
    requires
        d < 16,
    ensures
        is_hex_digit(hex_char(d)),
        hex_value(hex_char(d)) == d,
        hex_char(d) != '-',
{
}

proof fn lemma_hex_digits(v: nat, n: nat)
    requires
        v < pow16(n),
    ensures
        hex_digits(v, n).len() == n,
        all_hex(hex_digits(v, n)),
        forall|i: int| 0 <= i < n ==> #[trigger] hex_digits(v, n)[i] != '-',
        hex_number(hex_digits(v, n)) == v,
    decreases n,
{
    if n > 0 {
        let m = (n - 1) as nat;
        assert(v / 16 < pow16(m)) by (nonlinear_arith)
            requires
                v < pow16(n),
                pow16(n) == 16 * pow16(m),
        ;
        lemma_hex_digits(v / 16, m);
        lemma_hex_char_value(v % 16);
        let d = hex_digits(v, n);
        assert(d.drop_last() =~= hex_digits(v / 16, m));
        assert(v == (v / 16) * 16 + v % 16) by (nonlinear_arith);
    }
}

/// Reading back the canonical text of an identifier gives the identifier.
pub proof fn lemma_id_text_round_trip(v: u128)
    ensures
        id_text(v).len() == 36,
        is_id_text(id_text(v)),
        parsed_id(id_text(v)) == Some(v),
{
    reveal_with_fuel(pow16, 33);
    assert(pow16(32) == 0x1_0000_0000_0000_0000_0000_0000_0000_0000nat);
    lemma_hex_digits(v as nat, 32);
    let d = hex_digits(v as nat, 32);
    let t = id_text(v);
    assert(without_hyphens(t) =~= d);
}

} // verus!
