//! Deterministic derivation of an interface name from a caller-supplied
//! prefix and a 32-bit connection identifier.

use vstd::prelude::*;
use vstd::string::StringExecFns;

verus! {

/// The sixteen lowercase hexadecimal digit characters, by value.
pub open spec fn hex_digit(n: int) -> char {
    if n == 0 {
        '0'
    } else if n == 1 {
        '1'
    } else if n == 2 {
        '2'
    } else if n == 3 {
        '3'
    } else if n == 4 {
        '4'
    } else if n == 5 {
        '5'
    } else if n == 6 {
        '6'
    } else if n == 7 {
        '7'
    } else if n == 8 {
        '8'
    } else if n == 9 {
        '9'
    } else if n == 10 {
        'a'
    } else if n == 11 {
        'b'
    } else if n == 12 {
        'c'
    } else if n == 13 {
        'd'
    } else if n == 14 {
        'e'
    } else {
        'f'
    }
}

/// Big-endian hexadecimal rendering of a 32-bit identifier: eight lowercase
/// digits, most significant nibble first.
pub open spec fn spec_hex8(id: u32) -> Seq<char> {
    seq![
        hex_digit(((id >> 28) & 0xf) as int),
        hex_digit(((id >> 24) & 0xf) as int),
        hex_digit(((id >> 20) & 0xf) as int),
        hex_digit(((id >> 16) & 0xf) as int),
        hex_digit(((id >> 12) & 0xf) as int),
        hex_digit(((id >> 8) & 0xf) as int),
        hex_digit(((id >> 4) & 0xf) as int),
        hex_digit((id & 0xf) as int),
    ]
}

/// The interface name owed to a prefix and an identifier: the prefix followed
/// by the identifier's eight big-endian hex digits.
pub open spec fn spec_synthesize(prefix: Seq<char>, id: u32) -> Seq<char> {
    prefix + spec_hex8(id)
}

/// Relies on hex::encode: each input byte becomes two lowercase hexadecimal
/// digits, high nibble first, from the table "0123456789abcdef"; applied to
/// the identifier's big-endian bytes this yields its eight nibbles, most
/// significant first.
#[verifier::external_body]
fn hex_encode_u32_be(id: u32) -> (r: String)
    ensures
        r@ == spec_hex8(id),
{
    hex::encode(id.to_be_bytes())
}

/// Derive the interface name for `if_id` under `if_prefix`.  The result is a
/// function of the two arguments alone; `lemma_synthesize_injective` shows it
/// never collides for two identifiers under one prefix.
pub fn synthesize(if_prefix: &str, if_id: u32) -> (r: String)
    ensures
        r@ == spec_synthesize(if_prefix@, if_id),
{
    let mut s = if_prefix.to_owned();
    let digits = hex_encode_u32_be(if_id);
    s.append(digits.as_str());
    s
}

/// Reading a digit back: the value each lowercase hex digit stands for.
pub open spec fn hex_digit_val(c: char) -> int {
    if c == '0' {
        0
    } else if c == '1' {
        1
    } else if c == '2' {
        2
    } else if c == '3' {
        3
    } else if c == '4' {
        4
    } else if c == '5' {
        5
    } else if c == '6' {
        6
    } else if c == '7' {
        7
    } else if c == '8' {
        8
    } else if c == '9' {
        9
    } else if c == 'a' {
        10
    } else if c == 'b' {
        11
    } else if c == 'c' {
        12
    } else if c == 'd' {
        13
    } else if c == 'e' {
        14
    } else if c == 'f' {
        15
    } else {
        16
    }
}

proof fn lemma_hex_digit_inverts(n: int)
    requires
        0 <= n < 16,
    ensures
        hex_digit_val(hex_digit(n)) == n,
{
}

proof fn lemma_nibble_bound(x: u32)
    ensures
        x & 0xf < 16,
{
    assert(x & 0xf < 16) by (bit_vector);
}

/// Two identifiers with the same eight hex digits are the same identifier.
pub proof fn lemma_hex8_injective(a: u32, b: u32)
    requires
        spec_hex8(a) == spec_hex8(b),
    ensures
        a == b,
{
    let na7 = (a >> 28) & 0xf;
    let na6 = (a >> 24) & 0xf;
    let na5 = (a >> 20) & 0xf;
    let na4 = (a >> 16) & 0xf;
    let na3 = (a >> 12) & 0xf;
    let na2 = (a >> 8) & 0xf;
    let na1 = (a >> 4) & 0xf;
    let na0 = a & 0xf;
    let nb7 = (b >> 28) & 0xf;
    let nb6 = (b >> 24) & 0xf;
    let nb5 = (b >> 20) & 0xf;
    let nb4 = (b >> 16) & 0xf;
    let nb3 = (b >> 12) & 0xf;
    let nb2 = (b >> 8) & 0xf;
    let nb1 = (b >> 4) & 0xf;
    let nb0 = b & 0xf;
    lemma_nibble_bound(a >> 28);
    lemma_nibble_bound(a >> 24);
    lemma_nibble_bound(a >> 20);
    lemma_nibble_bound(a >> 16);
    lemma_nibble_bound(a >> 12);
    lemma_nibble_bound(a >> 8);
    lemma_nibble_bound(a >> 4);
    lemma_nibble_bound(a);
    lemma_nibble_bound(b >> 28);
    lemma_nibble_bound(b >> 24);
    lemma_nibble_bound(b >> 20);
    lemma_nibble_bound(b >> 16);
    lemma_nibble_bound(b >> 12);
    lemma_nibble_bound(b >> 8);
    lemma_nibble_bound(b >> 4);
    lemma_nibble_bound(b);
    assert(spec_hex8(a)[0] == spec_hex8(b)[0]);
    assert(spec_hex8(a)[1] == spec_hex8(b)[1]);
    assert(spec_hex8(a)[2] == spec_hex8(b)[2]);
    assert(spec_hex8(a)[3] == spec_hex8(b)[3]);
    assert(spec_hex8(a)[4] == spec_hex8(b)[4]);
    assert(spec_hex8(a)[5] == spec_hex8(b)[5]);
    assert(spec_hex8(a)[6] == spec_hex8(b)[6]);
    assert(spec_hex8(a)[7] == spec_hex8(b)[7]);
    lemma_hex_digit_inverts(na7 as int);
    lemma_hex_digit_inverts(na6 as int);
    lemma_hex_digit_inverts(na5 as int);
    lemma_hex_digit_inverts(na4 as int);
    lemma_hex_digit_inverts(na3 as int);
    lemma_hex_digit_inverts(na2 as int);
    lemma_hex_digit_inverts(na1 as int);
    lemma_hex_digit_inverts(na0 as int);
    lemma_hex_digit_inverts(nb7 as int);
    lemma_hex_digit_inverts(nb6 as int);
    lemma_hex_digit_inverts(nb5 as int);
    lemma_hex_digit_inverts(nb4 as int);
    lemma_hex_digit_inverts(nb3 as int);
    lemma_hex_digit_inverts(nb2 as int);
    lemma_hex_digit_inverts(nb1 as int);
    lemma_hex_digit_inverts(nb0 as int);
    assert(a == b) by (bit_vector)
        requires
            (a >> 28) & 0xf == (b >> 28) & 0xf,
            (a >> 24) & 0xf == (b >> 24) & 0xf,
            (a >> 20) & 0xf == (b >> 20) & 0xf,
            (a >> 16) & 0xf == (b >> 16) & 0xf,
            (a >> 12) & 0xf == (b >> 12) & 0xf,
            (a >> 8) & 0xf == (b >> 8) & 0xf,
            (a >> 4) & 0xf == (b >> 4) & 0xf,
            a & 0xf == b & 0xf,
    ;
}

/// Name derivation is injective for a fixed prefix: distinct identifiers
/// always yield distinct interface names.
pub proof fn lemma_synthesize_injective(prefix: Seq<char>, a: u32, b: u32)
    requires
        a != b,
    ensures
        spec_synthesize(prefix, a) != spec_synthesize(prefix, b),
{
    if spec_synthesize(prefix, a) == spec_synthesize(prefix, b) {
        assert forall|i: int| 0 <= i < 8 implies spec_hex8(a)[i] == spec_hex8(b)[i] by {
            assert((prefix + spec_hex8(a))[prefix.len() + i] == spec_hex8(a)[i]);
            assert((prefix + spec_hex8(b))[prefix.len() + i] == spec_hex8(b)[i]);
        }
        assert(spec_hex8(a) =~= spec_hex8(b));
        lemma_hex8_injective(a, b);
    }
}

} // verus!
