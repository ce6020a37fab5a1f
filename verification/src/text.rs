//! Small verified helpers on strings, stated over their `Seq<char>` views.

use vstd::prelude::*;
use vstd::string::StrSliceExecFns;
use vstd::string::StringExecFns;
use vstd::string::StringSliceAdditionalSpecFns;
use vstd::utf8::encode_utf8;
use vstd::utf8::encode_utf8_decode_utf8;

verus! {

/// Two strings with the same UTF-8 bytes hold the same characters.
pub proof fn lemma_same_bytes_same_chars(a: Seq<char>, b: Seq<char>)
    requires
        encode_utf8(a) == encode_utf8(b),
    ensures
        a == b,
{
    encode_utf8_decode_utf8(a);
    encode_utf8_decode_utf8(b);
}

/// Whether `a` and `b` hold the same characters.
pub fn str_eq(a: &str, b: &str) -> (r: bool)
    ensures
        r == (a@ == b@),
{
    let x = a.as_bytes();
    let y = b.as_bytes();
    if x.len() != y.len() {
        return false;
    }
    let mut i: usize = 0;
    while i < x.len()
        invariant
            i <= x.len(),
            x.len() == y.len(),
            x@ == a.spec_bytes(),
            y@ == b.spec_bytes(),
            forall|k: int| 0 <= k < i ==> x@[k] == y@[k],
        decreases x.len() - i,
    {
        if x[i] != y[i] {
            return false;
        }
        i += 1;
    }
    proof {
        assert(x@ =~= y@);
        lemma_same_bytes_same_chars(a@, b@);
    }
    true
}

/// The characters with the Unicode property `White_Space`.
pub open spec fn is_white_space(c: char) -> bool {
    let n = c as u32;
    ||| 0x09 <= n <= 0x0d
    ||| n == 0x20
    ||| n == 0x85
    ||| n == 0xa0
    ||| n == 0x1680
    ||| 0x2000 <= n <= 0x200a
    ||| n == 0x2028
    ||| n == 0x2029
    ||| n == 0x202f
    ||| n == 0x205f
    ||| n == 0x3000
}

/// `s` without the white space it begins with.
pub open spec fn without_leading_space(s: Seq<char>) -> Seq<char>
    decreases s.len(),
{
    if s.len() > 0 && is_white_space(s[0]) {
        without_leading_space(s.drop_first())
    } else {
        s
    }
}

/// `s` without the white space it ends with.
pub open spec fn without_trailing_space(s: Seq<char>) -> Seq<char>
    decreases s.len(),
{
    if s.len() > 0 && is_white_space(s.last()) {
        without_trailing_space(s.drop_last())
    } else {
        s
    }
}

/// `s` without the white space at either end.
pub open spec fn trimmed(s: Seq<char>) -> Seq<char> {
    without_trailing_space(without_leading_space(s))
}

/// Calls `str::trim`, which std documents to return the slice with leading
/// and trailing white space removed, white space being the characters with
/// the Unicode property `White_Space`.
#[verifier::external_body]
pub(crate) fn trim(text: &str) -> (r: &str)
    ensures
        r@ == trimmed(text@),
{
    text.trim()
}

/// How many characters of a text that is cut to `limit` are kept before
/// the three dots.
pub open spec fn kept_length(limit: nat) -> nat {
    if limit >= 3 {
        (limit - 3) as nat
    } else {
        0
    }
}

/// `s` cut to `limit` characters: a text longer than that keeps its first
/// `limit - 3` characters, followed by three dots.
pub open spec fn shortened(s: Seq<char>, limit: nat) -> Seq<char> {
    if s.len() > limit {
        s.take(kept_length(limit) as int) + "..."@
    } else {
        s
    }
}

/// Cuts `s` to `limit` characters, marking the cut with three dots. The
/// result has at most `limit` characters where `limit` leaves room for the
/// dots.
pub fn shorten(s: &str, limit: usize) -> (r: String)
    ensures
        r@ == shortened(s@, limit as nat),
        limit >= 3 ==> r@.len() <= limit,
{
    if s.unicode_len() > limit {
        let keep = if limit >= 3 {
            limit - 3
        } else {
            0
        };
        let mut out = String::from_str(s.substring_char(0, keep));
        out.append("...");
        proof {
            reveal_strlit("...");
            assert(s@.subrange(0, keep as int) =~= s@.take(keep as int));
        }
        out
    } else {
        String::from_str(s)
    }
}

/// One path below another, as a Unix file system has it: an absolute `name`
/// stands alone, and a separator is put between the two unless `base` is
/// empty or ends in one.
pub open spec fn joined_path(base: Seq<char>, name: Seq<char>) -> Seq<char> {
    if name.len() > 0 && name[0] == '/' {
        name
    } else if base.len() == 0 || base.last() == '/' {
        base + name
    } else {
        base + "/"@ + name
    }
}

/// Joins two paths.
pub fn join_path(base: &str, name: &str) -> (r: String)
    ensures
        r@ == joined_path(base@, name@),
{
    if !name.is_empty() && name.get_char(0) == '/' {
        return String::from_str(name);
    }
    let n = base.unicode_len();
    let mut out = String::from_str(base);
    if n > 0 && base.get_char(n - 1) != '/' {
        out.append("/");
    }
    out.append(name);
    out
}

/// The lower-case hexadecimal digit for a value below sixteen.
pub open spec fn hex_digit(d: int) -> char {
    if d == 0 {
        '0'
    } else if d == 1 {
        '1'
    } else if d == 2 {
        '2'
    } else if d == 3 {
        '3'
    } else if d == 4 {
        '4'
    } else if d == 5 {
        '5'
    } else if d == 6 {
        '6'
    } else if d == 7 {
        '7'
    } else if d == 8 {
        '8'
    } else if d == 9 {
        '9'
    } else if d == 10 {
        'a'
    } else if d == 11 {
        'b'
    } else if d == 12 {
        'c'
    } else if d == 13 {
        'd'
    } else if d == 14 {
        'e'
    } else {
        'f'
    }
}

/// A number in lower-case hexadecimal, without leading zeros.
pub open spec fn hex_text(n: nat) -> Seq<char>
    decreases n,
{
    if n < 16 {
        seq![hex_digit(n as int)]
    } else {
        hex_text(n / 16).push(hex_digit((n % 16) as int))
    }
}

/// The digit for a value below sixteen, as a string of one character.
fn hex_digit_str(d: u64) -> (r: &'static str)
    requires
        d < 16,
    ensures
        r@ == seq![hex_digit(d as int)],
{
    proof {
        reveal_strlit("0");
        reveal_strlit("1");
        reveal_strlit("2");
        reveal_strlit("3");
        reveal_strlit("4");
        reveal_strlit("5");
        reveal_strlit("6");
        reveal_strlit("7");
        reveal_strlit("8");
        reveal_strlit("9");
        reveal_strlit("a");
        reveal_strlit("b");
        reveal_strlit("c");
        reveal_strlit("d");
        reveal_strlit("e");
        reveal_strlit("f");
    }
    let r = if d == 0 {
        "0"
    } else if d == 1 {
        "1"
    } else if d == 2 {
        "2"
    } else if d == 3 {
        "3"
    } else if d == 4 {
        "4"
    } else if d == 5 {
        "5"
    } else if d == 6 {
        "6"
    } else if d == 7 {
        "7"
    } else if d == 8 {
        "8"
    } else if d == 9 {
        "9"
    } else if d == 10 {
        "a"
    } else if d == 11 {
        "b"
    } else if d == 12 {
        "c"
    } else if d == 13 {
        "d"
    } else if d == 14 {
        "e"
    } else {
        "f"
    };
    assert(r@ =~= seq![hex_digit(d as int)]);
    r
}

/// Writes a number in lower-case hexadecimal, without leading zeros.
pub fn to_hex(n: u64) -> (r: String)
    ensures
        r@ == hex_text(n as nat),
{
    let mut digits: Vec<u64> = Vec::new();
    let mut rest: u64 = n;
    while rest >= 16
        invariant
            forall|k: int| 0 <= k < digits@.len() ==> digits@[k] < 16,
            hex_text(n as nat) == hex_text(rest as nat) + Seq::new(
                digits@.len(),
                |k: int| hex_digit(digits@[digits@.len() - 1 - k] as int),
            ),
        decreases rest,
    {
        let ghost before = digits@;
        let ghost tail = Seq::new(
            before.len(),
            |k: int| hex_digit(before[before.len() - 1 - k] as int),
        );
        digits.push(rest % 16);
        proof {
            let now = Seq::new(
                digits@.len(),
                |k: int| hex_digit(digits@[digits@.len() - 1 - k] as int),
            );
            assert(now =~= seq![hex_digit((rest % 16) as int)] + tail);
            assert(hex_text(rest as nat) == hex_text((rest / 16) as nat).push(
                hex_digit((rest % 16) as int),
            ));
            assert(hex_text((rest / 16) as nat).push(hex_digit((rest % 16) as int)) + tail
                =~= hex_text((rest / 16) as nat) + now);
        }
        rest = rest / 16;
    }
    let mut out = String::from_str(hex_digit_str(rest));
    let ghost all = Seq::new(
        digits@.len(),
        |k: int| hex_digit(digits@[digits@.len() - 1 - k] as int),
    );
    let mut i: usize = digits.len();
    proof {
        assert(all.take(0) =~= Seq::<char>::empty());
        assert(out@ + Seq::<char>::empty() =~= out@);
    }
    while i > 0
        invariant
            i <= digits.len(),
            forall|k: int| 0 <= k < digits@.len() ==> digits@[k] < 16,
            all == Seq::new(
                digits@.len(),
                |k: int| hex_digit(digits@[digits@.len() - 1 - k] as int),
            ),
            out@ == hex_text(rest as nat) + all.take(digits@.len() - i),
        decreases i,
    {
        i -= 1;
        let ghost before = out@;
        out.append(hex_digit_str(digits[i]));
        proof {
            let done = digits@.len() - i;
            assert(all.take(done) =~= all.take(done - 1).push(all[done - 1]));
            assert(out@ =~= hex_text(rest as nat) + all.take(done));
        }
    }
    proof {
        assert(all.take(digits@.len() as int) =~= all);
    }
    out
}

} // verus!
