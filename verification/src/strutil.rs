//! Character and string helpers: ASCII classification, case-insensitive
//! comparison, suffix tests, base names, trimming and decimal rendering.
use vstd::prelude::*;
use vstd::string::StrSliceExecFns;

verus! {

pub open spec fn is_ascii_digit_char(c: char) -> bool {
    ('0' as u32) <= (c as u32) && (c as u32) <= ('9' as u32)
}

pub open spec fn is_ascii_upper(c: char) -> bool {
    ('A' as u32) <= (c as u32) && (c as u32) <= ('Z' as u32)
}

pub open spec fn is_ascii_lower(c: char) -> bool {
    ('a' as u32) <= (c as u32) && (c as u32) <= ('z' as u32)
}

/// ASCII-case-insensitive equality of two characters.
pub open spec fn chars_eq_ic(a: char, b: char) -> bool {
    a == b || (is_ascii_upper(a) && (b as u32) == (a as u32) + 32) || (is_ascii_upper(b) && (
    a as u32) == (b as u32) + 32)
}

/// ASCII-case-insensitive equality of two character sequences.
pub open spec fn seq_eq_ic(a: Seq<char>, b: Seq<char>) -> bool {
    a.len() == b.len() && (forall|i: int| 0 <= i < a.len() ==> chars_eq_ic(a[i], b[i]))
}

/// Compares two characters up to ASCII case.
pub fn char_eq_ic(a: char, b: char) -> (r: bool)
    ensures
        r == chars_eq_ic(a, b),
{
    let au = a as u32;
    let bu = b as u32;
    if au == bu {
        true
    } else if ('A' as u32) <= au && au <= ('Z' as u32) && bu == au + 32 {
        true
    } else if ('A' as u32) <= bu && bu <= ('Z' as u32) && au == bu + 32 {
        true
    } else {
        false
    }
}

/// Character-exact string equality.
pub fn str_eq(a: &str, b: &str) -> (r: bool)
    ensures
        r == (a@ == b@),
{
    let alen = a.unicode_len();
    let blen = b.unicode_len();
    if alen != blen {
        return false;
    }
    let mut i: usize = 0;
    while i < alen
        invariant
            i <= alen,
            alen == a@.len(),
            alen == b@.len(),
            forall|j: int| 0 <= j < i ==> a@[j] == b@[j],
        decreases alen - i,
    {
        if a.get_char(i) != b.get_char(i) {
            return false;
        }
        i += 1;
    }
    proof {
        assert(a@ =~= b@);
    }
    true
}

/// ASCII-case-insensitive string equality.
pub fn str_eq_ic(a: &str, b: &str) -> (r: bool)
    ensures
        r == seq_eq_ic(a@, b@),
{
    let alen = a.unicode_len();
    let blen = b.unicode_len();
    if alen != blen {
        return false;
    }
    let mut i: usize = 0;
    while i < alen
        invariant
            i <= alen,
            alen == a@.len(),
            alen == b@.len(),
            forall|j: int| 0 <= j < i ==> chars_eq_ic(a@[j], b@[j]),
        decreases alen - i,
    {
        if !char_eq_ic(a.get_char(i), b.get_char(i)) {
            return false;
        }
        i += 1;
    }
    true
}

pub open spec fn spec_ends_with(s: Seq<char>, suf: Seq<char>) -> bool {
    suf.len() <= s.len() && s.skip(s.len() - suf.len()) == suf
}

/// Whether `s` ends with the suffix `suf`, character for character.
pub fn ends_with_str(s: &str, suf: &str) -> (r: bool)
    ensures
        r == spec_ends_with(s@, suf@),
{
    let slen = s.unicode_len();
    let flen = suf.unicode_len();
    if flen > slen {
        return false;
    }
    let tail = s.substring_char(slen - flen, slen);
    proof {
        assert(tail@ =~= s@.skip(s@.len() - suf@.len()));
    }
    str_eq(tail, suf)
}

pub open spec fn is_sep(c: char) -> bool {
    c == '/' || c == '\\'
}

/// The part of a path after its last separator (`/` or `\`); empty when the
/// path ends in a separator.
pub open spec fn base_name_spec(s: Seq<char>) -> Seq<char>
    decreases s.len(),
{
    if s.len() == 0 {
        s
    } else if is_sep(s.last()) {
        Seq::empty()
    } else {
        base_name_spec(s.drop_last()).push(s.last())
    }
}

proof fn lemma_base_name_suffix(s: Seq<char>, k: int)
    requires
        0 <= k <= s.len(),
        k == 0 || is_sep(s[k - 1]),
        forall|j: int| k <= j < s.len() ==> !is_sep(s[j]),
    ensures
        base_name_spec(s) == s.skip(k),
    decreases s.len() - k,
{
    if k == s.len() {
        if s.len() == 0 {
            assert(base_name_spec(s) =~= s.skip(k));
        } else {
            assert(is_sep(s.last()));
            assert(base_name_spec(s) =~= s.skip(k));
        }
    } else {
        assert(!is_sep(s.last()));
        lemma_base_name_suffix(s.drop_last(), k);
        assert(base_name_spec(s.drop_last()).push(s.last()) =~= s.skip(k));
    }
}

/// Returns the part of a path after its last separator.
pub fn base_name(s: &str) -> (r: &str)
    ensures
        r@ == base_name_spec(s@),
{
    let len = s.unicode_len();
    let mut k: usize = len;
    loop
        invariant
            k <= len,
            len == s@.len(),
            forall|j: int| k <= j < len ==> !is_sep(s@[j]),
        ensures
            k <= len,
            len == s@.len(),
            forall|j: int| k <= j < len ==> !is_sep(s@[j]),
            k == 0 || is_sep(s@[k - 1]),
        decreases k,
    {
        if k == 0 {
            break ;
        }
        let c = s.get_char(k - 1);
        if c == '/' || c == '\\' {
            break ;
        }
        k -= 1;
    }
    proof {
        lemma_base_name_suffix(s@, k as int);
    }
    s.substring_char(k, len)
}

/// Path separators normalized: every `\` becomes `/`.
pub open spec fn normalize_seps_spec(s: Seq<char>) -> Seq<char> {
    s.map_values(|c: char| if c == '\\' { '/' } else { c })
}

/// Rewrites every backslash to a forward slash.
pub fn normalize_seps(s: &str) -> (r: String)
    ensures
        r@ == normalize_seps_spec(s@),
{
    let len = s.unicode_len();
    let mut out = String::new();
    let mut i: usize = 0;
    proof {
        assert(out@ =~= normalize_seps_spec(s@.take(0)));
    }
    while i < len
        invariant
            i <= len,
            len == s@.len(),
            out@ == normalize_seps_spec(s@.take(i as int)),
        decreases len - i,
    {
        let c = s.get_char(i);
        if c == '\\' {
            push_char(&mut out, '/');
        } else {
            push_char(&mut out, c);
        }
        proof {
            assert(out@ =~= normalize_seps_spec(s@.take(i as int + 1)));
        }
        i += 1;
    }
    proof {
        assert(s@.take(len as int) =~= s@);
    }
    out
}

/// The Unicode White_Space set, the one `char::is_whitespace` tests.
pub open spec fn is_white_space(c: char) -> bool {
    let u = c as u32;
    ||| u == 0x9
    ||| u == 0xA
    ||| u == 0xB
    ||| u == 0xC
    ||| u == 0xD
    ||| u == 0x20
    ||| u == 0x85
    ||| u == 0xA0
    ||| u == 0x1680
    ||| (0x2000 <= u && u <= 0x200A)
    ||| u == 0x2028
    ||| u == 0x2029
    ||| u == 0x202F
    ||| u == 0x205F
    ||| u == 0x3000
}

/// Tests a character against the White_Space set.
fn is_ws_char(c: char) -> (r: bool)
    ensures
        r == is_white_space(c),
{
    let u = c as u32;
    u == 0x9 || u == 0xA || u == 0xB || u == 0xC || u == 0xD || u == 0x20 || u == 0x85 || u == 0xA0
        || u == 0x1680 || (0x2000 <= u && u <= 0x200A) || u == 0x2028 || u == 0x2029 || u == 0x202F
        || u == 0x205F || u == 0x3000
}

pub open spec fn trim_front_spec(s: Seq<char>) -> Seq<char>
    decreases s.len(),
{
    if s.len() > 0 && is_white_space(s[0]) {
        trim_front_spec(s.drop_first())
    } else {
        s
    }
}

pub open spec fn trim_back_spec(s: Seq<char>) -> Seq<char>
    decreases s.len(),
{
    if s.len() > 0 && is_white_space(s.last()) {
        trim_back_spec(s.drop_last())
    } else {
        s
    }
}

/// `s` with leading and trailing whitespace removed.
pub open spec fn trim_spec(s: Seq<char>) -> Seq<char> {
    trim_back_spec(trim_front_spec(s))
}

/// A string whose ends hold no whitespace trims to itself.
pub proof fn lemma_trim_id(s: Seq<char>)
    requires
        s.len() > 0,
        !is_white_space(s[0]),
        !is_white_space(s.last()),
    ensures
        trim_spec(s) == s,
{
}

/// Removes leading and trailing whitespace.
pub fn trim_ws(s: &str) -> (r: &str)
    ensures
        r@ == trim_spec(s@),
{
    let len = s.unicode_len();
    proof {
        assert(s@.skip(0) =~= s@);
    }
    let mut lo: usize = 0;
    loop
        invariant
            lo <= len,
            len == s@.len(),
            trim_front_spec(s@) == trim_front_spec(s@.skip(lo as int)),
        ensures
            lo <= len,
            len == s@.len(),
            trim_front_spec(s@) == s@.skip(lo as int),
        decreases len - lo,
    {
        if lo == len {
            proof {
                assert(s@.skip(lo as int).len() == 0);
            }
            break ;
        }
        let c = s.get_char(lo);
        if !is_ws_char(c) {
            proof {
                assert(s@.skip(lo as int)[0] == s@[lo as int]);
            }
            break ;
        }
        proof {
            assert(s@.skip(lo as int).drop_first() =~= s@.skip(lo as int + 1));
        }
        lo += 1;
    }
    let mut hi: usize = len;
    proof {
        assert(s@.skip(lo as int) =~= s@.subrange(lo as int, len as int));
    }
    loop
        invariant
            lo <= hi <= len,
            len == s@.len(),
            trim_front_spec(s@) == s@.skip(lo as int),
            trim_back_spec(s@.skip(lo as int)) == trim_back_spec(s@.subrange(lo as int, hi as int)),
        ensures
            lo <= hi <= len,
            len == s@.len(),
            trim_spec(s@) == s@.subrange(lo as int, hi as int),
        decreases hi,
    {
        if hi == lo {
            proof {
                assert(s@.subrange(lo as int, hi as int).len() == 0);
            }
            break ;
        }
        let c = s.get_char(hi - 1);
        if !is_ws_char(c) {
            proof {
                assert(s@.subrange(lo as int, hi as int).last() == s@[hi as int - 1]);
            }
            break ;
        }
        proof {
            assert(s@.subrange(lo as int, hi as int).drop_last() =~= s@.subrange(
                lo as int,
                hi as int - 1,
            ));
        }
        hi -= 1;
    }
    s.substring_char(lo, hi)
}

pub open spec fn digit_char(d: nat) -> char {
    if d == 0 {
        '0'
    } else if d == 1 {
        '1'
    } else if d == 2 {
        '2'
    } else if d == 3 {
        '3'
    } else if d == 4 {
        '4'
    } else if d == 5 {
        '5'
    } else if d == 6 {
        '6'
    } else if d == 7 {
        '7'
    } else if d == 8 {
        '8'
    } else {
        '9'
    }
}

/// The decimal digits of `n`, most significant first, no leading zeros.
pub open spec fn dec_str(n: nat) -> Seq<char>
    decreases n,
{
    if n < 10 {
        seq![digit_char(n)]
    } else {
        dec_str(n / 10).push(digit_char(n % 10))
    }
}

/// Every character of a decimal rendering is a digit, and there is at
/// least one.
pub proof fn lemma_dec_str_digits(n: nat)
    ensures
        dec_str(n).len() >= 1,
        forall|i: int| 0 <= i < dec_str(n).len() ==> is_ascii_digit_char(#[trigger] dec_str(n)[i]),
    decreases n,
{
    if n < 10 {
        assert(is_ascii_digit_char(digit_char(n)));
    } else {
        lemma_dec_str_digits(n / 10);
        assert(is_ascii_digit_char(digit_char(n % 10)));
        assert(forall|i: int|
            0 <= i < dec_str(n).len() - 1 ==> dec_str(n)[i] == dec_str(n / 10)[i]);
    }
}

/// Relies on the `Display` implementation of `u64`: it prints the decimal
/// digits, most significant first, with no sign, padding or leading zeros.
#[verifier::external_body]
pub(crate) fn u64_to_string(n: u64) -> (r: String)
    ensures
        r@ == dec_str(n as nat),
{
    n.to_string()
}

/// Relies on `String::push`: it appends exactly the given character.
#[verifier::external_body]
pub(crate) fn push_char(s: &mut String, c: char)
    ensures
        final(s)@ == old(s)@.push(c),
{
    s.push(c);
}

pub open spec fn contains_seq(h: Seq<char>, n: Seq<char>) -> bool {
    exists|i: int| 0 <= i && i + n.len() <= h.len() && #[trigger] h.subrange(i, i + n.len()) == n
}

/// Relies on `str::contains` with a `&str` pattern: true exactly when the
/// pattern occurs as a contiguous substring.
#[verifier::external_body]
pub(crate) fn str_contains(h: &str, n: &str) -> (r: bool)
    ensures
        r == contains_seq(h@, n@),
{
    h.contains(n)
}

/// What `str::to_lowercase` returns: a function of the characters alone.
pub uninterp spec fn lower_of(s: Seq<char>) -> Seq<char>;

/// Relies on `str::to_lowercase`: the result depends on the characters
/// alone, and an empty string stays empty.
#[verifier::external_body]
pub(crate) fn lowercase(s: &str) -> (r: String)
    ensures
        r@ == lower_of(s@),
        s@.len() == 0 ==> r@.len() == 0,
{
    s.to_lowercase()
}

} // verus!
