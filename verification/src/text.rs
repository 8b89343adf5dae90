use vstd::prelude::*;

verus! {

/// Appends one character to a string.
#[verifier::external_body]
pub(crate) fn push_char(s: &mut String, c: char)
    ensures
        final(s)@ == old(s)@.push(c),
{
    s.push(c);
}

/// The character of a decimal digit.
pub open spec fn digit_char(d: int) -> char
    recommends
        0 <= d < 10,
{
    (48 + d) as char
}

/// The decimal representation of a number, without leading zeros.
pub open spec fn decimal(n: nat) -> Seq<char>
    decreases n,
{
    if n < 10 {
        seq![digit_char(n as int)]
    } else {
        decimal(n / 10).push(digit_char((n % 10) as int))
    }
}

/// Appends the decimal representation of `n`.
pub fn push_decimal(s: &mut String, n: u64)
    ensures
        final(s)@ == old(s)@ + decimal(n as nat),
    decreases n,
{
    if n >= 10 {
        push_decimal(s, n / 10);
    }
    let d: u8 = (n % 10) as u8;
    push_char(s, (48u8 + d) as char);
    assert(final(s)@ =~= old(s)@ + decimal(n as nat));
}

/// A character with every newline written as the two characters `\n`.
pub open spec fn escape_newline(c: char) -> Seq<char> {
    if c == '\n' {
        seq!['\\', 'n']
    } else {
        seq![c]
    }
}

/// The text with every newline written as the two characters `\n`.
pub open spec fn escape_newlines(s: Seq<char>) -> Seq<char>
    decreases s.len(),
{
    if s.len() == 0 {
        Seq::empty()
    } else {
        escape_newlines(s.drop_last()) + escape_newline(s.last())
    }
}

/// The characters of `s` up to `n` of them.
pub open spec fn take_chars(s: Seq<char>, n: int) -> Seq<char> {
    if n < s.len() {
        s.subrange(0, n)
    } else {
        s
    }
}

/// What a list entry shows of a string: newlines escaped and, when the escaped
/// text is `max_length` bytes or longer in UTF-8, its first `max_length`
/// characters followed by `...`.
pub open spec fn spec_truncate_string_stripped(s: Seq<char>, max_length: nat) -> Seq<char> {
    let e = escape_newlines(s);
    if vstd::utf8::encode_utf8(e).len() >= max_length {
        take_chars(e, max_length as int) + "..."@
    } else {
        e
    }
}

fn escape_newlines_exec(s: &str) -> (r: String)
    ensures
        r@ == escape_newlines(s@),
{
    let mut out = String::new();
    let n = s.unicode_len();
    let mut i: usize = 0;
    while i < n
        invariant
            n == s@.len(),
            i <= n,
            out@ == escape_newlines(s@.subrange(0, i as int)),
        decreases n - i,
    {
        let c = s.get_char(i);
        if c == '\n' {
            push_char(&mut out, '\\');
            push_char(&mut out, 'n');
        } else {
            push_char(&mut out, c);
        }
        assert(s@.subrange(0, i + 1).drop_last() =~= s@.subrange(0, i as int));
        assert(out@ =~= escape_newlines(s@.subrange(0, i + 1)));
        i = i + 1;
    }
    assert(s@.subrange(0, n as int) =~= s@);
    out
}

/// Shortens a string for a one-line list entry: newlines become `\n`, and a
/// text of `max_length` bytes or more keeps `max_length` characters and gets
/// `...` appended.
pub fn truncate_string_stripped(s: &str, max_length: usize) -> (r: String)
    ensures
        r@ == spec_truncate_string_stripped(s@, max_length as nat),
{
    let escaped = escape_newlines_exec(s);
    let e = escaped.as_str();
    if e.as_bytes().len() >= max_length {
        let n = e.unicode_len();
        let keep = if max_length < n {
            max_length
        } else {
            n
        };
        let mut out = String::from_str(e.substring_char(0, keep));
        out.append("...");
        assert(out@ =~= spec_truncate_string_stripped(s@, max_length as nat));
        out
    } else {
        escaped
    }
}


/// True when both strings hold the same characters.
pub fn str_eq(a: &str, b: &str) -> (r: bool)
    ensures
        r == (a@ == b@),
{
    let n = a.unicode_len();
    if n != b.unicode_len() {
        return false;
    }
    let mut i: usize = 0;
    while i < n
        invariant
            n == a@.len(),
            n == b@.len(),
            i <= n,
            forall|k: int| 0 <= k < i ==> a@[k] == b@[k],
        decreases n - i,
    {
        if a.get_char(i) != b.get_char(i) {
            return false;
        }
        i = i + 1;
    }
    assert(a@ =~= b@);
    true
}

} // verus!
