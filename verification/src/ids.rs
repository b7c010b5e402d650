use vstd::prelude::*;
use crate::text::push_char;

verus! {

/// A lower-case hexadecimal digit.
pub open spec fn is_lower_hex(c: char) -> bool {
    ('0' <= c && c <= '9') || ('a' <= c && c <= 'f')
}

/// The hyphenated text form of a version-4 UUID: 36 characters, hyphens at 8, 13,
/// 18 and 23, the version digit `4` at 14, the variant digit (8, 9, a or b) at 19,
/// lower-case hexadecimal digits elsewhere.
pub open spec fn is_uuid_v4_text(s: Seq<char>) -> bool {
    &&& s.len() == 36
    &&& forall|i: int| 0 <= i < 36 ==> {
        if i == 8 || i == 13 || i == 18 || i == 23 {
            #[trigger] s[i] == '-'
        } else {
            is_lower_hex(s[i])
        }
    }
    &&& s[14] == '4'
    &&& (s[19] == '8' || s[19] == '9' || s[19] == 'a' || s[19] == 'b')
}

/// `uuid::Uuid::new_v4` followed by its `Display` (`to_string`): a fresh random UUID
/// in hyphenated lower-case form. The source masks the version and variant bits
/// (`& 0xFFFFFFFFFFFF4FFFBFFFFFFFFFFFFFFF | 0x40008000000000000000`) and formats
/// with `format_hyphenated`, which gives the shape stated here. Which UUID comes out
/// depends on the random source and is not stated; the call panics when the
/// platform's random source fails, which no argument can rule out.
#[verifier::external_body]
pub fn new_todo_id() -> (r: String)
    ensures
        is_uuid_v4_text(r@),
{
    uuid::Uuid::new_v4().to_string()
}

/// The lower-case hexadecimal digit for `v` (taken as 15 above 15).
pub open spec fn hex_char(v: u64) -> char {
    if v == 0 {
        '0'
    } else if v == 1 {
        '1'
    } else if v == 2 {
        '2'
    } else if v == 3 {
        '3'
    } else if v == 4 {
        '4'
    } else if v == 5 {
        '5'
    } else if v == 6 {
        '6'
    } else if v == 7 {
        '7'
    } else if v == 8 {
        '8'
    } else if v == 9 {
        '9'
    } else if v == 10 {
        'a'
    } else if v == 11 {
        'b'
    } else if v == 12 {
        'c'
    } else if v == 13 {
        'd'
    } else if v == 14 {
        'e'
    } else {
        'f'
    }
}

/// The `t`-th of the sixteen four-bit digits of `k`, most significant first.
pub open spec fn nibble(k: u64, t: int) -> u64 {
    (k >> ((60 - 4 * t) as u64)) & 15u64
}

/// Which digit of the number a spare id shows at position `i` (-1 for none): position
/// 17, then 20 to 22, then 24 to 35.
pub open spec fn digit_slot(i: int) -> int {
    if i == 17 {
        0
    } else if 20 <= i <= 22 {
        i - 19
    } else if 24 <= i <= 35 {
        i - 20
    } else {
        -1
    }
}

/// The character at position `i` of the spare id numbered `k`.
pub open spec fn spare_id_char(k: u64, i: int) -> char {
    if i == 8 || i == 13 || i == 18 || i == 23 {
        '-'
    } else if i == 14 {
        '4'
    } else if i == 19 {
        '8'
    } else if digit_slot(i) >= 0 {
        hex_char(nibble(k, digit_slot(i)))
    } else {
        '0'
    }
}

/// The spare id numbered `k`: a version-4 UUID text whose free digits spell `k` in
/// hexadecimal (`00000000-0000-400k-8kkk-kkkkkkkkkkkk`).
pub open spec fn spare_id(k: u64) -> Seq<char> {
    Seq::new(36, |i: int| spare_id_char(k, i))
}

proof fn lemma_nibble_small(k: u64, t: int)
    requires
        0 <= t < 16,
    ensures
        nibble(k, t) < 16,
{
    let sh: u64 = (60 - 4 * t) as u64;
    assert((k >> sh) & 15u64 < 16) by (bit_vector);
}

proof fn lemma_hex_char_injective(v: u64, w: u64)
    requires
        v < 16,
        w < 16,
        hex_char(v) == hex_char(w),
    ensures
        v == w,
{
}

/// Every spare id has the shape of a version-4 UUID text.
pub proof fn lemma_spare_id_shape(k: u64)
    ensures
        is_uuid_v4_text(spare_id(k)),
{
    let s = spare_id(k);
    assert forall|i: int| 0 <= i < 36 implies (if i == 8 || i == 13 || i == 18 || i == 23 {
        #[trigger] s[i] == '-'
    } else {
        is_lower_hex(s[i])
    }) by {}
}

/// Different numbers give different spare ids.
pub proof fn lemma_spare_id_injective(a: u64, b: u64)
    requires
        spare_id(a) == spare_id(b),
    ensures
        a == b,
{
    let sa = spare_id(a);
    let sb = spare_id(b);
    assert forall|i: int| 0 <= i < 36 && digit_slot(i) >= 0 implies nibble(a, digit_slot(i)) == nibble(
        b,
        digit_slot(i),
    ) by {
        assert(sa[i] == sb[i]);
        lemma_nibble_small(a, digit_slot(i));
        lemma_nibble_small(b, digit_slot(i));
        lemma_hex_char_injective(nibble(a, digit_slot(i)), nibble(b, digit_slot(i)));
    }
    assert(digit_slot(17) == 0);
    assert(digit_slot(20) == 1);
    assert(digit_slot(21) == 2);
    assert(digit_slot(22) == 3);
    assert(digit_slot(24) == 4);
    assert(digit_slot(25) == 5);
    assert(digit_slot(26) == 6);
    assert(digit_slot(27) == 7);
    assert(digit_slot(28) == 8);
    assert(digit_slot(29) == 9);
    assert(digit_slot(30) == 10);
    assert(digit_slot(31) == 11);
    assert(digit_slot(32) == 12);
    assert(digit_slot(33) == 13);
    assert(digit_slot(34) == 14);
    assert(digit_slot(35) == 15);
    assert(nibble(a, 0) == nibble(b, 0));
    assert(nibble(a, 1) == nibble(b, 1));
    assert(nibble(a, 2) == nibble(b, 2));
    assert(nibble(a, 3) == nibble(b, 3));
    assert(nibble(a, 4) == nibble(b, 4));
    assert(nibble(a, 5) == nibble(b, 5));
    assert(nibble(a, 6) == nibble(b, 6));
    assert(nibble(a, 7) == nibble(b, 7));
    assert(nibble(a, 8) == nibble(b, 8));
    assert(nibble(a, 9) == nibble(b, 9));
    assert(nibble(a, 10) == nibble(b, 10));
    assert(nibble(a, 11) == nibble(b, 11));
    assert(nibble(a, 12) == nibble(b, 12));
    assert(nibble(a, 13) == nibble(b, 13));
    assert(nibble(a, 14) == nibble(b, 14));
    assert(nibble(a, 15) == nibble(b, 15));
    assert({
        &&& (a >> 60u64) & 15u64 == (b >> 60u64) & 15u64
        &&& (a >> 56u64) & 15u64 == (b >> 56u64) & 15u64
        &&& (a >> 52u64) & 15u64 == (b >> 52u64) & 15u64
        &&& (a >> 48u64) & 15u64 == (b >> 48u64) & 15u64
        &&& (a >> 44u64) & 15u64 == (b >> 44u64) & 15u64
        &&& (a >> 40u64) & 15u64 == (b >> 40u64) & 15u64
        &&& (a >> 36u64) & 15u64 == (b >> 36u64) & 15u64
        &&& (a >> 32u64) & 15u64 == (b >> 32u64) & 15u64
        &&& (a >> 28u64) & 15u64 == (b >> 28u64) & 15u64
        &&& (a >> 24u64) & 15u64 == (b >> 24u64) & 15u64
        &&& (a >> 20u64) & 15u64 == (b >> 20u64) & 15u64
        &&& (a >> 16u64) & 15u64 == (b >> 16u64) & 15u64
        &&& (a >> 12u64) & 15u64 == (b >> 12u64) & 15u64
        &&& (a >> 8u64) & 15u64 == (b >> 8u64) & 15u64
        &&& (a >> 4u64) & 15u64 == (b >> 4u64) & 15u64
        &&& (a >> 0u64) & 15u64 == (b >> 0u64) & 15u64
    });
    assert({
        &&& (a >> 60u64) & 15u64 == (b >> 60u64) & 15u64
        &&& (a >> 56u64) & 15u64 == (b >> 56u64) & 15u64
        &&& (a >> 52u64) & 15u64 == (b >> 52u64) & 15u64
        &&& (a >> 48u64) & 15u64 == (b >> 48u64) & 15u64
        &&& (a >> 44u64) & 15u64 == (b >> 44u64) & 15u64
        &&& (a >> 40u64) & 15u64 == (b >> 40u64) & 15u64
        &&& (a >> 36u64) & 15u64 == (b >> 36u64) & 15u64
        &&& (a >> 32u64) & 15u64 == (b >> 32u64) & 15u64
        &&& (a >> 28u64) & 15u64 == (b >> 28u64) & 15u64
        &&& (a >> 24u64) & 15u64 == (b >> 24u64) & 15u64
        &&& (a >> 20u64) & 15u64 == (b >> 20u64) & 15u64
        &&& (a >> 16u64) & 15u64 == (b >> 16u64) & 15u64
        &&& (a >> 12u64) & 15u64 == (b >> 12u64) & 15u64
        &&& (a >> 8u64) & 15u64 == (b >> 8u64) & 15u64
        &&& (a >> 4u64) & 15u64 == (b >> 4u64) & 15u64
        &&& (a >> 0u64) & 15u64 == (b >> 0u64) & 15u64
    } ==> a == b) by (bit_vector);
}

fn hex_digit(v: u64) -> (r: char)
    requires
        v < 16,
    ensures
        r == hex_char(v),
{
    if v == 0 {
        '0'
    } else if v == 1 {
        '1'
    } else if v == 2 {
        '2'
    } else if v == 3 {
        '3'
    } else if v == 4 {
        '4'
    } else if v == 5 {
        '5'
    } else if v == 6 {
        '6'
    } else if v == 7 {
        '7'
    } else if v == 8 {
        '8'
    } else if v == 9 {
        '9'
    } else if v == 10 {
        'a'
    } else if v == 11 {
        'b'
    } else if v == 12 {
        'c'
    } else if v == 13 {
        'd'
    } else if v == 14 {
        'e'
    } else {
        'f'
    }
}

fn spare_id_char_at(k: u64, i: usize) -> (r: char)
    requires
        i < 36,
    ensures
        r == spare_id_char(k, i as int),
{
    if i == 8 || i == 13 || i == 18 || i == 23 {
        '-'
    } else if i == 14 {
        '4'
    } else if i == 19 {
        '8'
    } else if i == 17 || (20 <= i && i <= 22) || (24 <= i && i <= 35) {
        let t: u64 = if i == 17 {
            0
        } else if i <= 22 {
            (i - 19) as u64
        } else {
            (i - 20) as u64
        };
        let d: u64 = (k >> (60 - 4 * t)) & 15u64;
        proof {
            assert(d == nibble(k, t as int));
            lemma_nibble_small(k, t as int);
        }
        hex_digit(d)
    } else {
        '0'
    }
}

/// Writes out the spare id numbered `k`.
pub fn spare_id_text(k: u64) -> (r: String)
    ensures
        r@ == spare_id(k),
        is_uuid_v4_text(r@),
{
    let mut s = String::new();
    let mut i: usize = 0;
    while i < 36
        invariant
            i <= 36,
            s@.len() == i,
            forall|j: int| 0 <= j < i ==> s@[j] == spare_id_char(k, j),
        decreases 36 - i,
    {
        let c = spare_id_char_at(k, i);
        push_char(&mut s, c);
        i = i + 1;
    }
    proof {
        assert(s@ =~= spare_id(k));
        lemma_spare_id_shape(k);
    }
    s
}

} // verus!
