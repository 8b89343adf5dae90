use std::collections::HashMap;
use vstd::prelude::*;

verus! {

/// The tag hash that names no tag.
pub const TAG_HASH_NONE: u32 = u32::MAX;

/// Unicode `White_Space` characters (what `char::is_whitespace` accepts).
pub open spec fn spec_is_whitespace(c: char) -> bool {
    let u = c as u32;
    ||| 0x09 <= u <= 0x0d
    ||| u == 0x20
    ||| u == 0x85
    ||| u == 0xa0
    ||| u == 0x1680
    ||| 0x2000 <= u <= 0x200a
    ||| u == 0x2028
    ||| u == 0x2029
    ||| u == 0x202f
    ||| u == 0x205f
    ||| u == 0x3000
}

pub fn is_whitespace(c: char) -> (r: bool)
    ensures
        r == spec_is_whitespace(c),
{
    let u = c as u32;
    (0x09 <= u && u <= 0x0d) || u == 0x20 || u == 0x85 || u == 0xa0 || u == 0x1680 || (0x2000 <= u
        && u <= 0x200a) || u == 0x2028 || u == 0x2029 || u == 0x202f || u == 0x205f || u == 0x3000
}

/// Number of leading whitespace characters.
pub open spec fn leading_ws(s: Seq<char>) -> nat
    decreases s.len(),
{
    if s.len() > 0 && spec_is_whitespace(s[0]) {
        1 + leading_ws(s.drop_first())
    } else {
        0
    }
}

/// Number of trailing whitespace characters.
pub open spec fn trailing_ws(s: Seq<char>) -> nat
    decreases s.len(),
{
    if s.len() > 0 && spec_is_whitespace(s.last()) {
        1 + trailing_ws(s.drop_last())
    } else {
        0
    }
}

/// The text without leading and trailing whitespace.
pub open spec fn spec_trim(s: Seq<char>) -> Seq<char> {
    let lead = leading_ws(s);
    let rest = s.subrange(lead as int, s.len() as int);
    rest.subrange(0, rest.len() - trailing_ws(rest))
}

proof fn lemma_leading_ws_bound(s: Seq<char>)
    ensures
        leading_ws(s) <= s.len(),
        forall|k: int| 0 <= k < leading_ws(s) ==> spec_is_whitespace(#[trigger] s[k]),
        leading_ws(s) < s.len() ==> !spec_is_whitespace(s[leading_ws(s) as int]),
    decreases s.len(),
{
    if s.len() > 0 && spec_is_whitespace(s[0]) {
        lemma_leading_ws_bound(s.drop_first());
        assert forall|k: int| 0 <= k < leading_ws(s) implies spec_is_whitespace(#[trigger] s[k]) by {
            if k > 0 {
                assert(s[k] == s.drop_first()[k - 1]);
            }
        }
    }
}

proof fn lemma_trailing_ws_bound(s: Seq<char>)
    ensures
        trailing_ws(s) <= s.len(),
        forall|k: int| s.len() - trailing_ws(s) <= k < s.len() ==> spec_is_whitespace(#[trigger] s[k]),
        trailing_ws(s) < s.len() ==> !spec_is_whitespace(s[s.len() - trailing_ws(s) - 1]),
    decreases s.len(),
{
    if s.len() > 0 && spec_is_whitespace(s.last()) {
        lemma_trailing_ws_bound(s.drop_last());
        assert forall|k: int| s.len() - trailing_ws(s) <= k < s.len() implies spec_is_whitespace(#[trigger] s[k]) by {
            if k < s.len() - 1 {
                assert(s[k] == s.drop_last()[k]);
            }
        }
    }
}

/// Counts leading whitespace with a loop.
fn count_leading_ws(s: &str) -> (r: usize)
    ensures
        r == leading_ws(s@),
{
    let n = s.unicode_len();
    let mut i: usize = 0;
    proof { lemma_leading_ws_bound(s@); }
    while i < n && is_whitespace(s.get_char(i))
        invariant
            n == s@.len(),
            i <= n,
            i <= leading_ws(s@),
            leading_ws(s@) <= n,
            forall|k: int| 0 <= k < leading_ws(s@) ==> spec_is_whitespace(#[trigger] s@[k]),
            leading_ws(s@) < n ==> !spec_is_whitespace(s@[leading_ws(s@) as int]),
        decreases n - i,
    {
        i = i + 1;
    }
    i
}

/// The text without leading and trailing whitespace (`str::trim`).
pub fn trim(s: &str) -> (r: &str)
    ensures
        r@ == spec_trim(s@),
{
    let lead = count_leading_ws(s);
    let n = s.unicode_len();
    proof { lemma_leading_ws_bound(s@); }
    let rest = s.substring_char(lead, n);
    let m = rest.unicode_len();
    proof { lemma_trailing_ws_bound(rest@); }
    let mut j: usize = m;
    while j > 0 && is_whitespace(rest.get_char(j - 1))
        invariant
            m == rest@.len(),
            j <= m,
            m - j <= trailing_ws(rest@),
            trailing_ws(rest@) <= m,
            forall|k: int| m - trailing_ws(rest@) <= k < m ==> spec_is_whitespace(#[trigger] rest@[k]),
            trailing_ws(rest@) < m ==> !spec_is_whitespace(rest@[m - trailing_ws(rest@) - 1]),
        decreases j,
    {
        j = j - 1;
    }
    rest.substring_char(0, j)
}

/// The value of a hexadecimal digit, if `c` is one.
pub open spec fn spec_hex_digit(c: char) -> Option<nat> {
    if '0' <= c && c <= '9' {
        Some((c as u32 - 48) as nat)
    } else if 'a' <= c && c <= 'f' {
        Some((c as u32 - 87) as nat)
    } else if 'A' <= c && c <= 'F' {
        Some((c as u32 - 55) as nat)
    } else {
        None
    }
}

/// The value of a sequence of hexadecimal digits, if all of them are.
pub open spec fn spec_hex_digits(s: Seq<char>) -> Option<nat>
    decreases s.len(),
{
    if s.len() == 0 {
        Some(0)
    } else {
        match (spec_hex_digits(s.drop_last()), spec_hex_digit(s.last())) {
            (Some(v), Some(d)) => Some(v * 16 + d),
            _ => None,
        }
    }
}

/// What `from_str_radix(s, 16)` gives for an unsigned type whose values are
/// below `bound`: an optional `+`, then at least one hexadecimal digit, and a
/// value below the bound.
pub open spec fn spec_parse_hex(s: Seq<char>, bound: nat) -> Option<nat> {
    let digits = if s.len() > 0 && s[0] == '+' { s.drop_first() } else { s };
    if s.len() == 0 || digits.len() == 0 {
        None
    } else {
        match spec_hex_digits(digits) {
            Some(v) => if v < bound { Some(v) } else { None },
            None => None,
        }
    }
}

/// Parses a hexadecimal number below `bound` (at most 2^64).
pub fn parse_hex(s: &str, bound: u128) -> (r: Option<u64>)
    requires
        0 < bound <= 0x1_0000_0000_0000_0000,
    ensures
        r matches Some(v) ==> spec_parse_hex(s@, bound as nat) == Some(v as nat),
        r is None ==> spec_parse_hex(s@, bound as nat) is None,
{
    let n = s.unicode_len();
    if n == 0 {
        return None;
    }
    let start: usize = if s.get_char(0) == '+' { 1 } else { 0 };
    let ghost digits = if s@.len() > 0 && s@[0] == '+' { s@.drop_first() } else { s@ };
    if start >= n {
        assert(digits.len() == 0);
        return None;
    }
    assert(digits =~= s@.subrange(start as int, n as int));
    assert(digits.subrange(0, 0) =~= Seq::<char>::empty());
    let mut value: u128 = 0;
    let mut i: usize = start;
    while i < n
        invariant
            n == s@.len(),
            start <= i <= n,
            start <= 1,
            digits == s@.subrange(start as int, n as int),
            digits == (if s@.len() > 0 && s@[0] == '+' { s@.drop_first() } else { s@ }),
            s@.len() > 0,
            digits.len() > 0,
            0 < bound <= 0x1_0000_0000_0000_0000,
            spec_hex_digits(digits.subrange(0, i - start)) == Some(value as nat),
            value < bound,
        decreases n - i,
    {
        let c = s.get_char(i);
        let d: u128 = if '0' <= c && c <= '9' {
            (c as u32 - 48) as u128
        } else if 'a' <= c && c <= 'f' {
            (c as u32 - 87) as u128
        } else if 'A' <= c && c <= 'F' {
            (c as u32 - 55) as u128
        } else {
            assert(digits.subrange(0, i + 1 - start).drop_last() =~= digits.subrange(0, i - start));
            assert(spec_hex_digits(digits.subrange(0, i + 1 - start)) is None);
            proof { lemma_hex_none_extends(digits, (i + 1 - start) as nat); }
            return None;
        };
        assert(digits.subrange(0, i + 1 - start).drop_last() =~= digits.subrange(0, i - start));
        let next = value * 16 + d;
        if next >= bound {
            proof { lemma_hex_grows(digits, (i + 1 - start) as nat); }
            return None;
        }
        value = next;
        i = i + 1;
    }
    assert(digits.subrange(0, n - start) =~= digits);
    Some(value as u64)
}

/// Once a prefix is not all hexadecimal digits, neither is any longer one.
proof fn lemma_hex_none_extends(s: Seq<char>, k: nat)
    requires
        k <= s.len(),
        spec_hex_digits(s.subrange(0, k as int)) is None,
    ensures
        spec_hex_digits(s) is None,
    decreases s.len() - k,
{
    if k < s.len() {
        assert(s.subrange(0, (k + 1) as int).drop_last() =~= s.subrange(0, k as int));
        lemma_hex_none_extends(s, k + 1);
    } else {
        assert(s.subrange(0, k as int) =~= s);
    }
}

/// The value of hexadecimal digits only grows as digits are added.
proof fn lemma_hex_grows(s: Seq<char>, k: nat)
    requires
        k <= s.len(),
    ensures
        spec_hex_digits(s.subrange(0, k as int)) matches Some(v) ==> spec_hex_digits(s) is None
            || spec_hex_digits(s)->0 >= v,
    decreases s.len() - k,
{
    if k < s.len() {
        let p = s.subrange(0, k as int);
        let q = s.subrange(0, (k + 1) as int);
        assert(q.drop_last() =~= p);
        lemma_hex_grows(s, k + 1);
        if spec_hex_digits(p) is Some && spec_hex_digits(q) is None {
            lemma_hex_none_extends(s, k + 1);
        }
    } else {
        assert(s.subrange(0, k as int) =~= s);
    }
}

/// The 32-bit value with its four bytes in reverse order: the value of a
/// big-endian number read on a little-endian machine.
pub open spec fn spec_swap_bytes_u32(x: u32) -> u32 {
    let b0 = x % 256;
    let b1 = (x / 256) % 256;
    let b2 = (x / 65536) % 256;
    let b3 = x / 16777216;
    (b0 * 16777216 + b1 * 65536 + b2 * 256 + b3) as u32
}

/// The 64-bit value with its eight bytes in reverse order.
pub open spec fn spec_swap_bytes_u64(x: u64) -> u64 {
    let lo = (x % 0x1_0000_0000) as u32;
    let hi = (x / 0x1_0000_0000) as u32;
    (spec_swap_bytes_u32(lo) as int * 0x1_0000_0000 + spec_swap_bytes_u32(hi) as int) as u64
}

pub fn swap_bytes_u32(x: u32) -> (r: u32)
    ensures
        r == spec_swap_bytes_u32(x),
{
    let b0 = x % 256;
    let b1 = (x / 256) % 256;
    let b2 = (x / 65536) % 256;
    let b3 = x / 16777216;
    b0 * 16777216 + b1 * 65536 + b2 * 256 + b3
}

pub fn swap_bytes_u64(x: u64) -> (r: u64)
    ensures
        r == spec_swap_bytes_u64(x),
{
    let lo = (x % 0x1_0000_0000) as u32;
    let hi = (x / 0x1_0000_0000) as u32;
    let a = swap_bytes_u32(lo) as u64;
    let b = swap_bytes_u32(hi) as u64;
    a * 0x1_0000_0000 + b
}

/// The tag that the text typed into the tag box names. Text of 16 bytes or
/// more (after trimming) is a 64-bit tag hash written as hex in byte order,
/// looked up in the 64-bit hash table (unknown hashes name no tag); shorter
/// text is a 32-bit tag hash in byte order. Text that is not a hex number
/// counts as 0.
pub open spec fn spec_parse_tag_input(input: Seq<char>, hash64_table: Map<u64, u32>) -> u32 {
    let t = spec_trim(input);
    if vstd::utf8::encode_utf8(t).len() >= 16 {
        let v = match spec_parse_hex(t, 0x1_0000_0000_0000_0000) {
            Some(v) => v as u64,
            None => 0,
        };
        let key = spec_swap_bytes_u64(v);
        if hash64_table.contains_key(key) {
            hash64_table[key]
        } else {
            TAG_HASH_NONE
        }
    } else {
        let v = match spec_parse_hex(t, 0x1_0000_0000) {
            Some(v) => v as u32,
            None => 0,
        };
        spec_swap_bytes_u32(v)
    }
}

/// Reads the tag typed into the tag box (see `spec_parse_tag_input`); the
/// table maps 64-bit tag hashes to their 32-bit tags.
pub fn parse_tag_input(input: &str, hash64_table: &HashMap<u64, u32>) -> (r: u32)
    ensures
        r == spec_parse_tag_input(input@, hash64_table@),
{
    broadcast use vstd::std_specs::hash::group_hash_axioms;

    let t = trim(input);
    if t.as_bytes().len() >= 16 {
        let v = match parse_hex(t, 0x1_0000_0000_0000_0000) {
            Some(v) => v,
            None => 0,
        };
        let key = swap_bytes_u64(v);
        match hash64_table.get(&key) {
            Some(h) => *h,
            None => TAG_HASH_NONE,
        }
    } else {
        let v = match parse_hex(t, 0x1_0000_0000) {
            Some(v) => v as u32,
            None => 0,
        };
        swap_bytes_u32(v)
    }
}

} // verus!
