//! Random identifiers: version-4 UUIDs in their textual forms, and the
//! event ids built from them.
use vstd::prelude::*;
use crate::text::{owned, push_char, push_str};

verus! {

/// `uuid::Uuid::new_v4`, as its 128-bit value (`as_u128`, most significant
/// byte first).  Claimed, as the crate's source sets them: the version
/// nibble is 4 and the variant bits are `10`.  The other bits are random;
/// nothing is claimed of them.
#[verifier::external_body]
fn new_uuid_v4() -> (r: u128)
    ensures
        (r >> 76u128) & 0xfu128 == 4u128,
        (r >> 62u128) & 3u128 == 2u128,
{
    uuid::Uuid::new_v4().as_u128()
}

/// Lower-case hexadecimal digit for `d < 16`.
pub open spec fn hex_lower(d: nat) -> char {
    if d < 10 {
        (48 + d) as char
    } else {
        (87 + d) as char
    }
}

/// The lowest `count` hexadecimal digits of `n`, most significant first.
pub open spec fn hex_digits(n: nat, count: nat) -> Seq<char>
    decreases count,
{
    if count == 0 {
        Seq::empty()
    } else {
        hex_digits(n / 16, (count - 1) as nat).push(hex_lower(n % 16))
    }
}

fn hex_lower_digit(d: u128) -> (c: char)
    requires
        d < 16,
    ensures
        c == hex_lower(d as nat),
{
    let b = d as u8;
    if b < 10 {
        (b + 48) as char
    } else {
        (b + 87) as char
    }
}

fn push_hex_digits(s: &mut String, n: u128, count: u32)
    ensures
        final(s)@ == old(s)@ + hex_digits(n as nat, count as nat),
    decreases count,
{
    if count > 0 {
        push_hex_digits(s, n / 16, count - 1);
        push_char(s, hex_lower_digit(n % 16));
    }
}

/// The simple form of a UUID: 32 lower-case hexadecimal digits.
pub open spec fn uuid_simple_seq(n: u128) -> Seq<char> {
    hex_digits(n as nat, 32)
}

/// The hyphenated form of a UUID: its 32 digits in groups of 8, 4, 4, 4
/// and 12, separated by `-`.
pub open spec fn uuid_hyphenated_seq(n: u128) -> Seq<char> {
    let s = uuid_simple_seq(n);
    s.subrange(0, 8) + "-"@ + s.subrange(8, 12) + "-"@ + s.subrange(12, 16) + "-"@ + s.subrange(16, 20)
        + "-"@ + s.subrange(20, 32)
}

proof fn lemma_hex_digits_len(n: nat, count: nat)
    ensures
        hex_digits(n, count).len() == count,
    decreases count,
{
    if count > 0 {
        lemma_hex_digits_len(n / 16, (count - 1) as nat);
    }
}

/// The simple form of a UUID value.
pub fn uuid_simple(n: u128) -> (s: String)
    ensures
        s@ == uuid_simple_seq(n),
{
    let mut s = String::new();
    push_hex_digits(&mut s, n, 32);
    assert(s@ =~= uuid_simple_seq(n));
    s
}

fn push_range(s: &mut String, d: &[char], a: usize, b: usize)
    requires
        a <= b <= d@.len(),
    ensures
        final(s)@ == old(s)@ + d@.subrange(a as int, b as int),
{
    let ghost s0 = s@;
    let mut i = a;
    while i < b
        invariant
            a <= i <= b <= d@.len(),
            s@ == s0 + d@.subrange(a as int, i as int),
        decreases b - i,
    {
        push_char(s, d[i]);
        i = i + 1;
        assert(s0 + d@.subrange(a as int, i as int) =~= (s0 + d@.subrange(a as int, i - 1)).push(
            d@[i - 1],
        ));
    }
}

/// The hyphenated form of a UUID value.
pub fn uuid_hyphenated(n: u128) -> (s: String)
    ensures
        s@ == uuid_hyphenated_seq(n),
{
    let d = crate::text::chars_of(uuid_simple(n).as_str());
    proof {
        lemma_hex_digits_len(n as nat, 32);
        reveal_strlit("-");
    }
    let d = d.as_slice();
    let mut s = String::new();
    push_range(&mut s, d, 0, 8);
    push_char(&mut s, '-');
    push_range(&mut s, d, 8, 12);
    push_char(&mut s, '-');
    push_range(&mut s, d, 12, 16);
    push_char(&mut s, '-');
    push_range(&mut s, d, 16, 20);
    push_char(&mut s, '-');
    push_range(&mut s, d, 20, 32);
    assert(s@ =~= uuid_hyphenated_seq(n));
    s
}

/// A version-4 UUID value: the version nibble is 4 and the variant bits
/// are `10`.
pub open spec fn is_v4(n: u128) -> bool {
    (n >> 76u128) & 0xfu128 == 4u128 && (n >> 62u128) & 3u128 == 2u128
}

/// A fresh random UUID in hyphenated form (connection and task ids): the
/// text of some version-4 UUID value.
pub fn new_uuid_string() -> (s: String)
    ensures
        exists|n: u128| #[trigger] is_v4(n) && s@ == uuid_hyphenated_seq(n),
{
    let n = new_uuid_v4();
    let s = uuid_hyphenated(n);
    assert(is_v4(n) && s@ == uuid_hyphenated_seq(n));
    s
}

/// A fresh event id: `evt_` and a random version-4 UUID in simple form.
pub fn evt_id() -> (s: String)
    ensures
        exists|n: u128| #[trigger] is_v4(n) && s@ == "evt_"@ + uuid_simple_seq(n),
{
    let n = new_uuid_v4();
    let mut s = owned("evt_");
    let u = uuid_simple(n);
    push_str(&mut s, u.as_str());
    assert(is_v4(n) && s@ == "evt_"@ + uuid_simple_seq(n));
    s
}

} // verus!
