//! Character-level helpers for command-line tokens and catalog ids.
//!
//! Everything here works on the `Seq<char>` view of strings: trimming
//! Unicode white space, ASCII lower-casing, prefix and substring tests,
//! and comparison against string literals.

use vstd::prelude::*;
use vstd::string::*;

verus! {

/// Unicode `White_Space` code points (the set `char::is_whitespace` accepts).
pub open spec fn is_white_space(c: char) -> bool {
    let u = c as u32;
    ||| (0x09 <= u && u <= 0x0d)
    ||| u == 0x20
    ||| u == 0x85
    ||| u == 0xa0
    ||| u == 0x1680
    ||| (0x2000 <= u && u <= 0x200a)
    ||| u == 0x2028
    ||| u == 0x2029
    ||| u == 0x202f
    ||| u == 0x205f
    ||| u == 0x3000
}

/// `s` with its leading white space removed.
pub open spec fn trim_front(s: Seq<char>) -> Seq<char>
    decreases s.len(),
{
    if s.len() > 0 && is_white_space(s[0]) {
        trim_front(s.drop_first())
    } else {
        s
    }
}

/// `s` with its trailing white space removed.
pub open spec fn trim_back(s: Seq<char>) -> Seq<char>
    decreases s.len(),
{
    if s.len() > 0 && is_white_space(s.last()) {
        trim_back(s.drop_last())
    } else {
        s
    }
}

/// `s` with white space removed at both ends (what `str::trim` returns).
pub open spec fn trim(s: Seq<char>) -> Seq<char> {
    trim_back(trim_front(s))
}

/// ASCII upper-case letters map to lower case; every other char is kept.
pub open spec fn ascii_lower_char(c: char) -> char {
    if 'A' <= c && c <= 'Z' {
        ((c as u32) + 32) as char
    } else {
        c
    }
}

/// `str::to_ascii_lowercase` on the char view.
pub open spec fn ascii_lower(s: Seq<char>) -> Seq<char> {
    s.map_values(|c: char| ascii_lower_char(c))
}

/// The normal form a command-line token is matched in: trimmed, then ASCII lower-cased.
pub open spec fn cli_normal_form(s: Seq<char>) -> Seq<char> {
    ascii_lower(trim(s))
}

/// `prefix` is a prefix of `s`.
pub open spec fn has_prefix(s: Seq<char>, prefix: Seq<char>) -> bool {
    prefix.len() <= s.len() && s.subrange(0, prefix.len() as int) == prefix
}

/// `needle` occurs in `s` at position `i`.
pub open spec fn occurs_at(s: Seq<char>, needle: Seq<char>, i: int) -> bool {
    0 <= i && i + needle.len() <= s.len() && s.subrange(i, i + needle.len()) == needle
}

/// `needle` occurs somewhere in `s`.
pub open spec fn has_infix(s: Seq<char>, needle: Seq<char>) -> bool {
    exists|i: int| occurs_at(s, needle, i)
}

/// A token that has no white space at either end and no ASCII upper-case
/// letter is its own normal form.
pub proof fn lemma_normal_form_fixed(s: Seq<char>)
    requires
        s.len() > 0,
        !is_white_space(s[0]),
        !is_white_space(s.last()),
        forall|i: int| 0 <= i < s.len() ==> !('A' <= #[trigger] s[i] && s[i] <= 'Z'),
    ensures
        cli_normal_form(s) == s,
{
    assert(trim_front(s) == s);
    assert(trim_back(s) == s);
    assert(ascii_lower(s) =~= s);
}

/// Whether `c` is Unicode white space.
pub fn is_white_space_char(c: char) -> (b: bool)
    ensures
        b == is_white_space(c),
{
    let u = c as u32;
    (0x09 <= u && u <= 0x0d) || u == 0x20 || u == 0x85 || u == 0xa0 || u == 0x1680 || (0x2000
        <= u && u <= 0x200a) || u == 0x2028 || u == 0x2029 || u == 0x202f || u == 0x205f || u
        == 0x3000
}

/// The chars of `s`, in order.
pub fn chars_of(s: &str) -> (v: Vec<char>)
    ensures
        v@ == s@,
{
    let n = s.unicode_len();
    let mut v: Vec<char> = Vec::new();
    let mut i: usize = 0;
    while i < n
        invariant
            n == s@.len(),
            i <= n,
            v@ == s@.subrange(0, i as int),
        decreases n - i,
    {
        let c = s.get_char(i);
        v.push(c);
        i = i + 1;
        assert(v@ =~= s@.subrange(0, i as int));
    }
    assert(v@ =~= s@);
    v
}

proof fn lemma_trim_front_step(s: Seq<char>, i: int)
    requires
        0 <= i < s.len(),
        is_white_space(s[i]),
    ensures
        trim_front(s.subrange(i, s.len() as int)) == trim_front(s.subrange(i + 1, s.len() as int)),
{
    let t = s.subrange(i, s.len() as int);
    assert(t.drop_first() =~= s.subrange(i + 1, s.len() as int));
}

proof fn lemma_trim_back_step(s: Seq<char>, j: int)
    requires
        0 < j <= s.len(),
        is_white_space(s[j - 1]),
    ensures
        trim_back(s.subrange(0, j)) == trim_back(s.subrange(0, j - 1)),
{
    let t = s.subrange(0, j);
    assert(t.drop_last() =~= s.subrange(0, j - 1));
}

/// `cli_normal_form` of `raw`, as a vector of chars.
pub fn cli_normalize(raw: &str) -> (v: Vec<char>)
    ensures
        v@ == cli_normal_form(raw@),
{
    let cs = chars_of(raw);
    let n = cs.len();
    let mut start: usize = 0;
    assert(cs@.subrange(0, n as int) =~= cs@);
    while start < n && is_white_space_char(cs[start])
        invariant
            n == cs@.len(),
            start <= n,
            trim_front(cs@) == trim_front(cs@.subrange(start as int, n as int)),
        decreases n - start,
    {
        proof {
            lemma_trim_front_step(cs@, start as int);
        }
        start = start + 1;
    }
    assert(cs@.subrange(0, n as int) =~= cs@);
    let ghost front = cs@.subrange(start as int, n as int);
    assert(trim_front(cs@) == front);
    let mut end: usize = n;
    assert(front.subrange(0, n - start) =~= front);
    while end > start && is_white_space_char(cs[end - 1])
        invariant
            n == cs@.len(),
            start <= end <= n,
            front == cs@.subrange(start as int, n as int),
            trim_back(front) == trim_back(front.subrange(0, end - start)),
        decreases end,
    {
        proof {
            assert(front[end - start - 1] == cs@[end - 1]);
            lemma_trim_back_step(front, end - start);
        }
        end = end - 1;
    }
    assert(front.subrange(0, n - start) =~= front);
    let ghost trimmed = front.subrange(0, end - start);
    assert(trim(raw@) == trimmed);
    let mut out: Vec<char> = Vec::new();
    let mut k: usize = start;
    while k < end
        invariant
            n == cs@.len(),
            start <= k <= end <= n,
            trimmed == cs@.subrange(start as int, end as int),
            out@ == ascii_lower(trimmed).subrange(0, k - start),
        decreases end - k,
    {
        let lc = lower_char(cs[k]);
        out.push(lc);
        k = k + 1;
        assert(out@ =~= ascii_lower(trimmed).subrange(0, k - start));
    }
    assert(out@ =~= ascii_lower(trimmed));
    out
}

/// `ascii_lower` of the chars of `s`.
pub fn ascii_lowercase_chars(s: &str) -> (v: Vec<char>)
    ensures
        v@ == ascii_lower(s@),
{
    let cs = chars_of(s);
    let n = cs.len();
    let mut out: Vec<char> = Vec::new();
    let mut k: usize = 0;
    while k < n
        invariant
            n == cs@.len(),
            cs@ == s@,
            k <= n,
            out@ == ascii_lower(s@).subrange(0, k as int),
        decreases n - k,
    {
        let lc = lower_char(cs[k]);
        out.push(lc);
        k = k + 1;
        assert(out@ =~= ascii_lower(s@).subrange(0, k as int));
    }
    assert(out@ =~= ascii_lower(s@));
    out
}

fn lower_char(c: char) -> (r: char)
    ensures
        r == ascii_lower_char(c),
{
    if 'A' <= c && c <= 'Z' {
        proof {
            assert(((c as u8) + 32) as char == ((c as u32) + 32) as char);
        }
        ((c as u8) + 32) as char
    } else {
        c
    }
}

/// Whether `v` holds exactly the chars of `lit`.
pub fn chars_equal(v: &Vec<char>, lit: &str) -> (b: bool)
    ensures
        b == (v@ == lit@),
{
    let n = lit.unicode_len();
    if v.len() != n {
        return false;
    }
    let mut i: usize = 0;
    while i < n
        invariant
            n == lit@.len(),
            n == v@.len(),
            i <= n,
            v@.subrange(0, i as int) == lit@.subrange(0, i as int),
        decreases n - i,
    {
        if v[i] != lit.get_char(i) {
            return false;
        }
        i = i + 1;
        assert(v@.subrange(0, i as int) =~= lit@.subrange(0, i as int));
    }
    assert(v@ =~= v@.subrange(0, n as int));
    assert(lit@ =~= lit@.subrange(0, n as int));
    true
}

/// Whether `s` starts with `prefix`.
pub fn starts_with(s: &str, prefix: &str) -> (b: bool)
    ensures
        b == has_prefix(s@, prefix@),
{
    let cs = chars_of(s);
    let ps = chars_of(prefix);
    occurs_in_at(&cs, &ps, 0)
}

/// Whether `needle` occurs in `cs` at position `at`.
fn occurs_in_at(cs: &Vec<char>, needle: &Vec<char>, at: usize) -> (b: bool)
    ensures
        b == occurs_at(cs@, needle@, at as int),
{
    let n = cs.len();
    let m = needle.len();
    if at > n || m > n - at {
        return false;
    }
    let mut i: usize = 0;
    while i < m
        invariant
            n == cs@.len(),
            m == needle@.len(),
            at + m <= n,
            i <= m,
            cs@.subrange(at as int, at + i) == needle@.subrange(0, i as int),
        decreases m - i,
    {
        if cs[at + i] != needle[i] {
            assert(cs@.subrange(at as int, at + m)[i as int] != needle@[i as int]);
            return false;
        }
        i = i + 1;
        assert(cs@.subrange(at as int, at + i) =~= needle@.subrange(0, i as int));
    }
    assert(needle@ =~= needle@.subrange(0, m as int));
    true
}

/// Whether `needle` occurs anywhere in `s`.
pub fn contains_str(s: &str, needle: &str) -> (b: bool)
    ensures
        b == has_infix(s@, needle@),
{
    let cs = chars_of(s);
    let ns = chars_of(needle);
    let n = cs.len();
    let mut at: usize = 0;
    while at < n
        invariant
            n == cs@.len(),
            cs@ == s@,
            ns@ == needle@,
            at <= n,
            forall|j: int| 0 <= j < at ==> !occurs_at(s@, needle@, j),
        decreases n - at,
    {
        if occurs_in_at(&cs, &ns, at) {
            return true;
        }
        at = at + 1;
    }
    if occurs_in_at(&cs, &ns, n) {
        return true;
    }
    assert forall|j: int| !occurs_at(s@, needle@, j) by {
        if 0 <= j && j + needle@.len() <= s@.len() {
            assert(j <= n);
        }
    }
    false
}

/// A `String` holding the chars of `s`.
pub fn owned(s: &str) -> (r: String)
    ensures
        r@ == s@,
{
    String::from_str(s)
}

/// `a` followed by `b`, as a new `String`.
pub fn concat2(a: &str, b: &str) -> (r: String)
    ensures
        r@ == a@ + b@,
{
    let mut r = String::from_str(a);
    r.append(b);
    r
}

/// The decimal digit `d` as a char.
pub open spec fn digit_char(d: nat) -> char {
    ((48 + d) as u32) as char
}

/// Decimal notation of `n` (no sign, no leading zeros).
pub open spec fn decimal(n: nat) -> Seq<char>
    decreases n,
{
    if n < 10 {
        seq![digit_char(n)]
    } else {
        decimal(n / 10).push(digit_char(n % 10))
    }
}

/// `s` left-padded with `0` to at least `width` chars.
pub open spec fn zero_padded(s: Seq<char>, width: nat) -> Seq<char> {
    if s.len() >= width {
        s
    } else {
        Seq::new((width - s.len()) as nat, |i: int| '0') + s
    }
}

fn digit_str(d: u64) -> (s: &'static str)
    requires
        d < 10,
    ensures
        s@ == seq![digit_char(d as nat)],
{
    proof {
        reveal_strlit("0");
        reveal_strlit("1");
        reveal_strlit("2");
        reveal_strlit("3");
        reveal_strlit("4");
        reveal_strlit("5");
        reveal_strlit("6");
        reveal_strlit("7");
        reveal_strlit("8");
        reveal_strlit("9");
    }
    let s = if d == 0 {
        "0"
    } else if d == 1 {
        "1"
    } else if d == 2 {
        "2"
    } else if d == 3 {
        "3"
    } else if d == 4 {
        "4"
    } else if d == 5 {
        "5"
    } else if d == 6 {
        "6"
    } else if d == 7 {
        "7"
    } else if d == 8 {
        "8"
    } else {
        "9"
    };
    assert(s@ =~= seq![digit_char(d as nat)]);
    s
}

/// Decimal notation of `n`, as `u64`'s `Display` writes it.
pub fn decimal_string(n: u64) -> (s: String)
    ensures
        s@ == decimal(n as nat),
    decreases n,
{
    if n < 10 {
        owned(digit_str(n))
    } else {
        let mut s = decimal_string(n / 10);
        s.append(digit_str(n % 10));
        s
    }
}

/// `n` in decimal, left-padded with `0` to `width` chars (as `{:0width$}` writes it).
pub fn zero_padded_decimal(n: u64, width: usize) -> (s: String)
    ensures
        s@ == zero_padded(decimal(n as nat), width as nat),
{
    let digits = decimal_string(n);
    let len = digits.as_str().unicode_len();
    if len >= width {
        return digits;
    }
    proof {
        reveal_strlit("");
    }
    let mut s = owned("");
    assert(s@ =~= Seq::new(0, |i: int| '0'));
    let mut k: usize = 0;
    while k < width - len
        invariant
            len < width,
            k <= width - len,
            s@ == Seq::new(k as nat, |i: int| '0'),
        decreases width - len - k,
    {
        s.append("0");
        proof {
            reveal_strlit("0");
        }
        k = k + 1;
        assert(s@ =~= Seq::new(k as nat, |i: int| '0'));
    }
    s.append(digits.as_str());
    s
}

} // verus!
