//! Verified text utilities: string comparison, decimal formatting,
//! whitespace trimming, digit parsing, and quoting for the rendered
//! configuration blob.

use vstd::prelude::*;
use vstd::string::StrSliceExecFns;

verus! {

/// Character-wise string equality.
pub fn str_eq_str(a: &str, b: &str) -> (r: bool)
    ensures
        r == (a@ == b@),
{
    let alen = a.unicode_len();
    let blen = b.unicode_len();
    if alen != blen {
        return false;
    }
    let mut i: usize = 0;
    while i < alen
        invariant
            alen == a@.len(),
            blen == b@.len(),
            alen == blen,
            i <= alen,
            forall|j: int| 0 <= j < i ==> a@[j] == b@[j],
        decreases alen - i,
    {
        if a.get_char(i) != b.get_char(i) {
            return false;
        }
        i += 1;
    }
    proof {
        assert(a@ =~= b@);
    }
    true
}

pub fn string_eq_str(a: &String, b: &str) -> (r: bool)
    ensures
        r == (a@ == b@),
{
    str_eq_str(a.as_str(), b)
}

/// True when `p` is a prefix of `s`.
pub open spec fn spec_has_prefix(s: Seq<char>, p: Seq<char>) -> bool {
    p.len() <= s.len() && s.subrange(0, p.len() as int) == p
}

pub fn str_has_prefix(s: &str, p: &str) -> (r: bool)
    ensures
        r == spec_has_prefix(s@, p@),
{
    let slen = s.unicode_len();
    let plen = p.unicode_len();
    if plen > slen {
        assert(!spec_has_prefix(s@, p@));
        return false;
    }
    let mut i: usize = 0;
    while i < plen
        invariant
            slen == s@.len(),
            plen == p@.len(),
            plen <= slen,
            i <= plen,
            forall|j: int| 0 <= j < i ==> s@[j] == p@[j],
        decreases plen - i,
    {
        if s.get_char(i) != p.get_char(i) {
            assert(s@.subrange(0, p@.len() as int)[i as int] != p@[i as int]);
            return false;
        }
        i += 1;
    }
    proof {
        assert(s@.subrange(0, p@.len() as int) =~= p@);
    }
    true
}

/// The characters of `s` after a prefix `p`, when `p` is a prefix.
pub fn strip_prefix_str(s: &str, p: &str) -> (r: Option<String>)
    ensures
        match r {
            Some(rest) => spec_has_prefix(s@, p@) && s@ == p@ + rest@,
            None => !spec_has_prefix(s@, p@),
        },
{
    if !str_has_prefix(s, p) {
        return None;
    }
    let slen = s.unicode_len();
    let plen = p.unicode_len();
    let rest = s.substring_char(plen, slen);
    proof {
        assert(s@ =~= p@ + rest@);
    }
    Some(rest.to_owned())
}

/// True when the path is absolute, that is, begins with a slash.
pub open spec fn spec_is_absolute(s: Seq<char>) -> bool {
    s.len() > 0 && s[0] == '/'
}

pub fn is_absolute_path(s: &str) -> (r: bool)
    ensures
        r == spec_is_absolute(s@),
{
    if s.unicode_len() == 0 {
        false
    } else {
        s.get_char(0) == '/'
    }
}

pub open spec fn spec_digit_char(d: nat) -> char {
    if d == 0 {
        '0'
    } else if d == 1 {
        '1'
    } else if d == 2 {
        '2'
    } else if d == 3 {
        '3'
    } else if d == 4 {
        '4'
    } else if d == 5 {
        '5'
    } else if d == 6 {
        '6'
    } else if d == 7 {
        '7'
    } else if d == 8 {
        '8'
    } else {
        '9'
    }
}

/// The decimal digit string of a natural number, most significant first.
pub open spec fn spec_dec(n: nat) -> Seq<char>
    decreases n,
{
    if n < 10 {
        seq![spec_digit_char(n)]
    } else {
        spec_dec(n / 10) + seq![spec_digit_char(n % 10)]
    }
}

fn digit_str(d: u64) -> (r: &'static str)
    requires
        d < 10,
    ensures
        r@ == seq![spec_digit_char(d as nat)],
{
    proof {
        reveal_strlit("0");
        reveal_strlit("1");
        reveal_strlit("2");
        reveal_strlit("3");
        reveal_strlit("4");
        reveal_strlit("5");
        reveal_strlit("6");
        reveal_strlit("7");
        reveal_strlit("8");
        reveal_strlit("9");
    }
    let r = if d == 0 {
        "0"
    } else if d == 1 {
        "1"
    } else if d == 2 {
        "2"
    } else if d == 3 {
        "3"
    } else if d == 4 {
        "4"
    } else if d == 5 {
        "5"
    } else if d == 6 {
        "6"
    } else if d == 7 {
        "7"
    } else if d == 8 {
        "8"
    } else {
        "9"
    };
    proof {
        assert(r@ =~= seq![spec_digit_char(d as nat)]);
    }
    r
}

pub fn fmt_u64(n: u64) -> (s: String)
    ensures
        s@ == spec_dec(n as nat),
    decreases n,
{
    if n < 10 {
        digit_str(n).to_owned()
    } else {
        proof {
            assert(n / 10 < n) by (nonlinear_arith)
                requires
                    n >= 10,
            ;
        }
        let mut s = fmt_u64(n / 10);
        s.append(digit_str(n % 10));
        s
    }
}

pub fn fmt_u32(n: u32) -> (s: String)
    ensures
        s@ == spec_dec(n as nat),
{
    fmt_u64(n as u64)
}

pub fn fmt_u16(n: u16) -> (s: String)
    ensures
        s@ == spec_dec(n as nat),
{
    fmt_u64(n as u64)
}

pub fn fmt_usize(n: usize) -> (s: String)
    ensures
        s@ == spec_dec(n as nat),
{
    fmt_u64(n as u64)
}

/// The decimal string of an integer, with a leading minus sign when
/// negative.
pub open spec fn spec_dec_int(n: int) -> Seq<char> {
    if n >= 0 {
        spec_dec(n as nat)
    } else {
        seq!['-'] + spec_dec((-n) as nat)
    }
}

pub fn fmt_i64(n: i64) -> (s: String)
    ensures
        s@ == spec_dec_int(n as int),
{
    if n >= 0 {
        fmt_u64(n as u64)
    } else {
        let mag: u64 = ((-(n + 1)) as u64) + 1;
        assert(mag as int == -(n as int));
        let mut s = "-".to_owned();
        s.append(fmt_u64(mag).as_str());
        proof {
            reveal_strlit("-");
            assert("-"@ =~= seq!['-']);
        }
        s
    }
}

pub fn fmt_i32(n: i32) -> (s: String)
    ensures
        s@ == spec_dec_int(n as int),
{
    fmt_i64(n as i64)
}

pub fn bool_str(b: bool) -> (r: &'static str)
    ensures
        b ==> r@ == "true"@,
        !b ==> r@ == "false"@,
{
    if b {
        "true"
    } else {
        "false"
    }
}

pub open spec fn spec_is_ws(c: char) -> bool {
    c == ' ' || c == '\t' || c == '\n' || c == '\r'
}

/// `s` with leading and trailing ASCII whitespace removed.
pub open spec fn spec_trim(s: Seq<char>) -> Seq<char>
    decreases s.len(),
{
    if s.len() == 0 {
        s
    } else if spec_is_ws(s[0]) {
        spec_trim(s.subrange(1, s.len() as int))
    } else if spec_is_ws(s.last()) {
        spec_trim(s.drop_last())
    } else {
        s
    }
}

fn is_ws(c: char) -> (r: bool)
    ensures
        r == spec_is_ws(c),
{
    c == ' ' || c == '\t' || c == '\n' || c == '\r'
}

proof fn lemma_trim_inner(s: Seq<char>, lo: int, hi: int)
    requires
        0 <= lo <= hi <= s.len(),
        forall|j: int| 0 <= j < lo ==> spec_is_ws(s[j]),
        forall|j: int| hi <= j < s.len() ==> spec_is_ws(s[j]),
        lo < hi ==> !spec_is_ws(s[lo]) && !spec_is_ws(s[hi - 1]),
        lo == hi ==> lo == 0 || hi == s.len(),
    ensures
        spec_trim(s) == s.subrange(lo, hi),
    decreases s.len(),
{
    if s.len() == 0 {
        assert(spec_trim(s) =~= s.subrange(lo, hi));
    } else if spec_is_ws(s[0]) {
        assert(lo > 0 || (lo == 0 && lo == hi && hi != s.len())) by {
            if lo == 0 && lo < hi {
                assert(!spec_is_ws(s[0]));
            }
        }
        let t = s.subrange(1, s.len() as int);
        if lo > 0 {
            lemma_trim_inner(t, lo - 1, hi - 1);
            assert(t.subrange(lo - 1, hi - 1) =~= s.subrange(lo, hi));
        } else {
            // lo == hi == 0, whole string is whitespace after position hi
            lemma_trim_inner(t, 0, 0);
            assert(t.subrange(0, 0) =~= s.subrange(lo, hi));
        }
    } else if spec_is_ws(s.last()) {
        assert(hi < s.len() || (hi == s.len() && lo == hi && lo != 0)) by {
            if hi == s.len() && lo < hi {
                assert(!spec_is_ws(s[hi - 1]));
            }
        }
        let t = s.drop_last();
        if hi < s.len() {
            lemma_trim_inner(t, lo, hi);
            assert(t.subrange(lo, hi) =~= s.subrange(lo, hi));
        } else {
            lemma_trim_inner(t, t.len() as int, t.len() as int);
            assert(t.subrange(t.len() as int, t.len() as int) =~= s.subrange(lo, hi));
        }
    } else {
        assert(lo == 0 && hi == s.len()) by {
            if lo > 0 {
                assert(spec_is_ws(s[0]));
            }
            if lo == 0 && hi < s.len() {
                if lo == hi {
                } else {
                    assert(spec_is_ws(s.last()));
                }
            }
            if lo == hi && !(lo == 0 && hi == s.len()) {
                if lo == 0 {
                    assert(spec_is_ws(s[hi]) || hi >= s.len());
                    assert(spec_is_ws(s[0]));
                } else {
                    assert(spec_is_ws(s[s.len() - 1]));
                }
            }
        }
        assert(spec_trim(s) =~= s.subrange(lo, hi));
    }
}

pub fn trim_str(s: &str) -> (r: String)
    ensures
        r@ == spec_trim(s@),
{
    let len = s.unicode_len();
    let mut lo: usize = 0;
    while lo < len && is_ws(s.get_char(lo))
        invariant
            len == s@.len(),
            lo <= len,
            forall|j: int| 0 <= j < lo ==> spec_is_ws(s@[j]),
        decreases len - lo,
    {
        lo += 1;
    }
    let mut hi: usize = len;
    while hi > lo && is_ws(s.get_char(hi - 1))
        invariant
            len == s@.len(),
            lo <= hi <= len,
            forall|j: int| 0 <= j < lo ==> spec_is_ws(s@[j]),
            forall|j: int| hi <= j < len ==> spec_is_ws(s@[j]),
        decreases hi,
    {
        hi -= 1;
    }
    proof {
        if lo == hi && lo != 0 && hi != s@.len() {
            assert(spec_is_ws(s@[lo - 1]));
            assert(spec_is_ws(s@[hi as int]));
            // hi > lo failed, so hi == lo; positions before lo and from hi on
            // are whitespace, hence the whole string is whitespace
            assert(forall|j: int| 0 <= j < s@.len() ==> spec_is_ws(s@[j]));
        }
        if lo == hi && lo != 0 && hi != s@.len() {
            lemma_trim_inner(s@, 0, 0);
        } else {
            lemma_trim_inner(s@, lo as int, hi as int);
        }
    }
    if lo == hi && lo != 0 && hi != len {
        proof {
            assert(s@.subrange(0, 0) =~= s@.subrange(lo as int, hi as int));
        }
        let r = s.substring_char(0, 0);
        r.to_owned()
    } else {
        let r = s.substring_char(lo, hi);
        r.to_owned()
    }
}

pub open spec fn spec_is_digit(c: char) -> bool {
    '0' <= c && c <= '9'
}

pub open spec fn spec_digit_val(c: char) -> nat {
    ((c as int) - ('0' as int)) as nat
}

pub open spec fn spec_all_digits(s: Seq<char>) -> bool {
    s.len() > 0 && forall|j: int| 0 <= j < s.len() ==> spec_is_digit(s[j])
}

/// The value of a digit string, most significant digit first.
pub open spec fn spec_digits_val(s: Seq<char>) -> nat
    decreases s.len(),
{
    if s.len() == 0 {
        0
    } else {
        spec_digits_val(s.drop_last()) * 10 + spec_digit_val(s.last())
    }
}

fn digit_val(c: char) -> (r: u64)
    requires
        spec_is_digit(c),
    ensures
        r == spec_digit_val(c),
{
    (c as u32 as u64) - 48
}

fn is_digit(c: char) -> (r: bool)
    ensures
        r == spec_is_digit(c),
{
    '0' <= c && c <= '9'
}

/// Parses a non-empty all-digit string into a `u64`; `None` when the
/// string is empty, holds a non-digit, or exceeds the `u64` range.
pub fn parse_u64_digits(s: &str) -> (r: Option<u64>)
    ensures
        match r {
            Some(v) => spec_all_digits(s@) && v == spec_digits_val(s@),
            None => !spec_all_digits(s@) || spec_digits_val(s@) > u64::MAX,
        },
{
    let len = s.unicode_len();
    if len == 0 {
        return None;
    }
    let mut acc: u64 = 0;
    let mut i: usize = 0;
    while i < len
        invariant
            len == s@.len(),
            0 < len,
            i <= len,
            forall|j: int| 0 <= j < i ==> spec_is_digit(s@[j]),
            acc == spec_digits_val(s@.take(i as int)),
        decreases len - i,
    {
        let c = s.get_char(i);
        if !is_digit(c) {
            return None;
        }
        let d = digit_val(c);
        let shifted = match acc.checked_mul(10) {
            Some(v) => v,
            None => {
                proof {
                    lemma_digits_val_monotone(s@, i as int);
                }
                return None;
            },
        };
        let next = match shifted.checked_add(d) {
            Some(v) => v,
            None => {
                proof {
                    lemma_digits_val_monotone(s@, i as int);
                }
                return None;
            },
        };
        proof {
            assert(s@.take(i + 1).drop_last() =~= s@.take(i as int));
        }
        acc = next;
        i += 1;
    }
    proof {
        assert(s@.take(len as int) =~= s@);
    }
    Some(acc)
}

/// When the value through position `i` already exceeds what fits, the
/// whole string's value exceeds it too.
proof fn lemma_digits_val_monotone(s: Seq<char>, i: int)
    requires
        0 <= i < s.len(),
    ensures
        spec_digits_val(s) >= spec_digits_val(s.take(i)) * 10 + spec_digit_val(s[i]),
    decreases s.len() - i,
{
    if i == s.len() - 1 {
        assert(s.drop_last() =~= s.take(i));
    } else {
        lemma_digits_val_monotone(s, i + 1);
        assert(s.take(i + 1).drop_last() =~= s.take(i));
        assert(s.take(i + 1).last() == s[i]);
        assert(spec_digits_val(s.take(i + 1)) == spec_digits_val(s.take(i)) * 10 + spec_digit_val(
            s[i],
        ));
        assert(spec_digits_val(s.take(i + 1)) * 10 + spec_digit_val(s[i + 1])
            >= spec_digits_val(s.take(i + 1)) * 10) by (nonlinear_arith);
        assert(spec_digits_val(s.take(i + 1)) * 10 >= spec_digits_val(s.take(i + 1)))
            by (nonlinear_arith);
    }
}

/// How a character is written inside a quoted configuration string:
/// quotes and backslashes take a backslash escape, all else stands as is.
pub open spec fn spec_escape_char(c: char) -> Seq<char> {
    if c == '"' {
        seq!['\\', '"']
    } else if c == '\\' {
        seq!['\\', '\\']
    } else {
        seq![c]
    }
}

pub open spec fn spec_escaped(s: Seq<char>) -> Seq<char>
    decreases s.len(),
{
    if s.len() == 0 {
        Seq::empty()
    } else {
        spec_escaped(s.drop_last()) + spec_escape_char(s.last())
    }
}

/// A value as it stands in the rendered blob: quoted and escaped.
pub open spec fn spec_quoted(s: Seq<char>) -> Seq<char> {
    seq!['"'] + spec_escaped(s) + seq!['"']
}

pub fn escape_value(s: &str) -> (r: String)
    ensures
        r@ == spec_escaped(s@),
{
    let len = s.unicode_len();
    let mut out = String::new();
    let mut i: usize = 0;
    while i < len
        invariant
            len == s@.len(),
            i <= len,
            out@ == spec_escaped(s@.take(i as int)),
        decreases len - i,
    {
        let c = s.get_char(i);
        if c == '"' {
            out.append("\\\"");
            proof {
                reveal_strlit("\\\"");
                assert("\\\""@ =~= spec_escape_char(c));
            }
        } else if c == '\\' {
            out.append("\\\\");
            proof {
                reveal_strlit("\\\\");
                assert("\\\\"@ =~= spec_escape_char(c));
            }
        } else {
            let piece = s.substring_char(i, i + 1);
            out.append(piece);
            proof {
                assert(piece@ =~= spec_escape_char(c));
            }
        }
        proof {
            assert(s@.take(i + 1).drop_last() =~= s@.take(i as int));
            assert(s@.take(i + 1).last() == s@[i as int]);
        }
        i += 1;
    }
    proof {
        assert(s@.take(len as int) =~= s@);
    }
    out
}

/// A byte count as a binary-unit quantity: whole tebi-, gibi-, mebi-
/// or kibibytes, or a plain number under a kibibyte; the division
/// rounds down.
pub open spec fn spec_format_bytes(b: nat) -> Seq<char> {
    if b >= 0x10000000000 {
        spec_dec(b / 0x10000000000) + "Ti"@
    } else if b >= 0x40000000 {
        spec_dec(b / 0x40000000) + "Gi"@
    } else if b >= 0x100000 {
        spec_dec(b / 0x100000) + "Mi"@
    } else if b >= 0x400 {
        spec_dec(b / 0x400) + "Ki"@
    } else {
        spec_dec(b)
    }
}

pub fn format_bytes(bytes: u64) -> (r: String)
    ensures
        r@ == spec_format_bytes(bytes as nat),
{
    if bytes >= 0x10000000000 {
        let mut s = fmt_u64(bytes / 0x10000000000);
        s.append("Ti");
        s
    } else if bytes >= 0x40000000 {
        let mut s = fmt_u64(bytes / 0x40000000);
        s.append("Gi");
        s
    } else if bytes >= 0x100000 {
        let mut s = fmt_u64(bytes / 0x100000);
        s.append("Mi");
        s
    } else if bytes >= 0x400 {
        let mut s = fmt_u64(bytes / 0x400);
        s.append("Ki");
        s
    } else {
        fmt_u64(bytes)
    }
}

pub fn quoted_value(s: &str) -> (r: String)
    ensures
        r@ == spec_quoted(s@),
{
    let mut out = "\"".to_owned();
    out.append(escape_value(s).as_str());
    out.append("\"");
    proof {
        reveal_strlit("\"");
        assert("\""@ =~= seq!['"']);
    }
    out
}

} // verus!
