//! Character-sequence helpers shared by the health checks and the message builders.

use vstd::prelude::*;

verus! {

/// `sub` occurs in `s` starting at position `i`.
pub open spec fn occurs_at(s: Seq<char>, sub: Seq<char>, i: int) -> bool {
    0 <= i && i + sub.len() <= s.len() && s.subrange(i, i + sub.len()) == sub
}

/// `sub` occurs somewhere in `s` (the empty sequence occurs in every sequence).
pub open spec fn seq_contains(s: Seq<char>, sub: Seq<char>) -> bool {
    exists|i: int| occurs_at(s, sub, i)
}

/// `s` begins with `prefix`.
pub open spec fn seq_starts_with(s: Seq<char>, prefix: Seq<char>) -> bool {
    occurs_at(s, prefix, 0)
}

/// Text around a contained sequence keeps it contained.
pub proof fn lemma_contains_extended(s: Seq<char>, sub: Seq<char>, prefix: Seq<char>, suffix: Seq<char>)
    requires
        seq_contains(s, sub),
    ensures
        seq_contains(prefix + s + suffix, sub),
{
    let i = choose|i: int| occurs_at(s, sub, i);
    let t = prefix + s + suffix;
    let j = i + prefix.len();
    assert(t.subrange(j, j + sub.len()) =~= s.subrange(i, i + sub.len()));
    assert(occurs_at(t, sub, j));
}

/// Text after a prefix keeps the prefix.
pub proof fn lemma_starts_with_extended(s: Seq<char>, prefix: Seq<char>, suffix: Seq<char>)
    requires
        seq_starts_with(s, prefix),
    ensures
        seq_starts_with(s + suffix, prefix),
{
    assert((s + suffix).subrange(0, prefix.len() as int) =~= s.subrange(0, prefix.len() as int));
}

/// The characters of `s` collected into a vector.
pub fn chars_of(s: &str) -> (v: Vec<char>)
    ensures
        v@ == s@,
{
    let mut v: Vec<char> = Vec::new();
    for c in it: s.chars()
        invariant
            it.seq() == s@,
            v@ == it.seq().take(it.index() as int),
    {
        v.push(c);
    }
    v
}


/// Whether `c` is one of the layout characters that health replies are stripped of.
pub open spec fn is_blank(c: char) -> bool {
    c == '\n' || c == ' '
}

/// `s` with every newline and every space removed.
pub open spec fn strip_blanks(s: Seq<char>) -> Seq<char>
    decreases s.len(),
{
    if s.len() == 0 {
        Seq::empty()
    } else if is_blank(s.last()) {
        strip_blanks(s.drop_last())
    } else {
        strip_blanks(s.drop_last()).push(s.last())
    }
}

/// Removing newlines and spaces leaves something exactly when some character
/// is neither.
pub proof fn lemma_strip_blanks_nonempty(s: Seq<char>)
    ensures
        strip_blanks(s).len() > 0 <==> exists|i: int| 0 <= i < s.len() && !is_blank(#[trigger] s[i]),
    decreases s.len(),
{
    if s.len() > 0 {
        let init = s.drop_last();
        lemma_strip_blanks_nonempty(init);
        if exists|i: int| 0 <= i < init.len() && !is_blank(#[trigger] init[i]) {
            let i = choose|i: int| 0 <= i < init.len() && !is_blank(#[trigger] init[i]);
            assert(s[i] == init[i]);
        }
        if exists|i: int| 0 <= i < s.len() && !is_blank(#[trigger] s[i]) {
            let i = choose|i: int| 0 <= i < s.len() && !is_blank(#[trigger] s[i]);
            if i < init.len() {
                assert(init[i] == s[i]);
            }
        }
    }
}

/// The ASCII lower-case form of one character; other characters are unchanged.
pub open spec fn ascii_lower(c: char) -> char {
    if 65 <= (c as u32) <= 90 {
        ((c as u32) + 32) as char
    } else {
        c
    }
}

/// The character of a decimal digit.
pub open spec fn digit_char(d: nat) -> char {
    if d == 0 { '0' }
    else if d == 1 { '1' }
    else if d == 2 { '2' }
    else if d == 3 { '3' }
    else if d == 4 { '4' }
    else if d == 5 { '5' }
    else if d == 6 { '6' }
    else if d == 7 { '7' }
    else if d == 8 { '8' }
    else { '9' }
}

/// The decimal digits of `n`, most significant first, without leading zeros.
pub open spec fn decimal_digits(n: nat) -> Seq<char>
    decreases n,
{
    if n < 10 {
        seq![digit_char(n)]
    } else {
        decimal_digits(n / 10).push(digit_char(n % 10))
    }
}

/// The decimal text of `i`, with a leading minus sign when it is negative.
pub open spec fn decimal(i: int) -> Seq<char> {
    if i < 0 {
        seq!['-'] + decimal_digits((-i) as nat)
    } else {
        decimal_digits(i as nat)
    }
}

/// Appends one character (std `String::push`, whose documentation says that it
/// appends the given `char` to the end of the string).
#[verifier::external_body]
pub fn push_char(s: &mut String, c: char)
    ensures
        final(s)@ == old(s)@.push(c),
{
    s.push(c)
}

/// The ASCII lower-case form of one character.
fn lower_char(c: char) -> (l: char)
    ensures
        l == ascii_lower(c),
{
    if 'A' <= c && c <= 'Z' {
        let code: u32 = (c as u32) + 32;
        let lowered = (code as u8) as char;
        lowered
    } else {
        c
    }
}

/// `s` with `A`..`Z` mapped to `a`..`z` and every other character kept.
pub fn ascii_lowercase(s: &str) -> (res: String)
    ensures
        res@ == s@.map_values(|c: char| ascii_lower(c)),
{
    let sv = chars_of(s);
    let mut res = String::new();
    let mut i: usize = 0;
    while i < sv.len()
        invariant
            sv@ == s@,
            i <= sv@.len(),
            res@ == s@.take(i as int).map_values(|c: char| ascii_lower(c)),
        decreases sv@.len() - i,
    {
        push_char(&mut res, lower_char(sv[i]));
        assert(s@.take(i + 1).map_values(|c: char| ascii_lower(c)) =~= s@.take(i as int).map_values(
            |c: char| ascii_lower(c),
        ).push(ascii_lower(sv@[i as int])));
        i += 1;
    }
    assert(s@.take(sv@.len() as int) =~= s@);
    res
}

/// A fresh string holding the characters of `s`.
pub fn owned(s: &str) -> (res: String)
    ensures
        res@ == s@,
{
    s.to_owned()
}

/// Whether two texts are equal.
pub fn str_eq(a: &str, b: &str) -> (res: bool)
    ensures
        res == (a@ == b@),
{
    owned(a) == owned(b)
}

/// Whether `t` occurs in `s` at position `i`.
fn matches_at(s: &Vec<char>, t: &Vec<char>, i: usize) -> (res: bool)
    requires
        i + t@.len() <= s@.len(),
    ensures
        res == (s@.subrange(i as int, i + t@.len()) == t@),
{
    let n = s.len();
    let mut k: usize = 0;
    while k < t.len()
        invariant
            n == s@.len(),
            i + t@.len() <= s@.len(),
            k <= t@.len(),
            forall|j: int| 0 <= j < k ==> s@[i + j] == t@[j],
        decreases t@.len() - k,
    {
        if s[i + k] != t[k] {
            assert(s@.subrange(i as int, i + t@.len())[k as int] != t@[k as int]);
            return false;
        }
        k += 1;
    }
    assert(s@.subrange(i as int, i + t@.len()) =~= t@);
    true
}

/// Whether `sub` occurs in `s` (`str::contains` with a string pattern).
pub fn str_contains(s: &str, sub: &str) -> (res: bool)
    ensures
        res == seq_contains(s@, sub@),
{
    let sv = chars_of(s);
    let tv = chars_of(sub);
    if tv.len() > sv.len() {
        assert forall|j: int| !occurs_at(s@, sub@, j) by {}
        return false;
    }
    let last = sv.len() - tv.len();
    let mut i: usize = 0;
    loop
        invariant
            sv@ == s@,
            tv@ == sub@,
            last == sv@.len() - tv@.len(),
            i <= last,
            forall|j: int| 0 <= j < i ==> !occurs_at(s@, sub@, j),
        ensures
            forall|j: int| 0 <= j <= last ==> !occurs_at(s@, sub@, j),
        decreases last - i,
    {
        if matches_at(&sv, &tv, i) {
            assert(occurs_at(s@, sub@, i as int));
            return true;
        }
        if i == last {
            break;
        }
        i += 1;
    }
    assert forall|j: int| !occurs_at(s@, sub@, j) by {
        if 0 <= j && j > last {
            assert(j + sub@.len() > s@.len());
        }
    }
    false
}

/// Whether `s` begins with `prefix` (`str::starts_with` with a string pattern).
pub fn str_starts_with(s: &str, prefix: &str) -> (res: bool)
    ensures
        res == seq_starts_with(s@, prefix@),
{
    let sv = chars_of(s);
    let tv = chars_of(prefix);
    if tv.len() > sv.len() {
        return false;
    }
    matches_at(&sv, &tv, 0)
}

/// `s` with every newline and every space removed (what
/// `.replace("\n", "").replace(" ", "")` computes).
pub fn remove_blanks(s: &str) -> (res: String)
    ensures
        res@ == strip_blanks(s@),
{
    let sv = chars_of(s);
    let mut res = String::new();
    let mut i: usize = 0;
    while i < sv.len()
        invariant
            sv@ == s@,
            i <= sv@.len(),
            res@ == strip_blanks(s@.take(i as int)),
        decreases sv@.len() - i,
    {
        let c = sv[i];
        assert(s@.take(i + 1).drop_last() =~= s@.take(i as int));
        if c != '\n' && c != ' ' {
            push_char(&mut res, c);
        }
        i += 1;
    }
    assert(s@.take(sv@.len() as int) =~= s@);
    res
}

/// The character of the decimal digit `d`.
fn digit(d: u64) -> (c: char)
    requires
        d < 10,
    ensures
        c == digit_char(d as nat),
{
    if d == 0 { '0' }
    else if d == 1 { '1' }
    else if d == 2 { '2' }
    else if d == 3 { '3' }
    else if d == 4 { '4' }
    else if d == 5 { '5' }
    else if d == 6 { '6' }
    else if d == 7 { '7' }
    else if d == 8 { '8' }
    else { '9' }
}

/// Appends the decimal digits of `n` to `out`.
fn push_decimal_digits(out: &mut String, n: u64)
    ensures
        final(out)@ == old(out)@ + decimal_digits(n as nat),
{
    let mut suffix: Vec<char> = Vec::new();
    let mut m: u64 = n;
    while m >= 10
        invariant
            decimal_digits(n as nat) == decimal_digits(m as nat) + suffix@,
        decreases m,
    {
        let d = digit(m % 10);
        let ghost old_suffix = suffix@;
        suffix.insert(0, d);
        assert(suffix@ =~= seq![d] + old_suffix);
        assert(decimal_digits(m as nat) == decimal_digits((m / 10) as nat).push(d));
        assert(decimal_digits((m / 10) as nat).push(d) + old_suffix
            =~= decimal_digits((m / 10) as nat) + suffix@);
        m = m / 10;
    }
    push_char(out, digit(m));
    let mut k: usize = 0;
    while k < suffix.len()
        invariant
            out@ == old(out)@ + decimal_digits(m as nat) + suffix@.take(k as int),
            m < 10,
            k <= suffix@.len(),
            decimal_digits(n as nat) == decimal_digits(m as nat) + suffix@,
        decreases suffix@.len() - k,
    {
        push_char(out, suffix[k]);
        assert(suffix@.take(k + 1) =~= suffix@.take(k as int).push(suffix@[k as int]));
        k += 1;
    }
    assert(suffix@.take(suffix@.len() as int) =~= suffix@);
}

/// The decimal text of `i` (what `i.to_string()` gives for an integer).
pub fn int_to_decimal(i: i64) -> (res: String)
    ensures
        res@ == decimal(i as int),
{
    let mut res = String::new();
    if i < 0 {
        push_char(&mut res, '-');
        let magnitude: u64 = if i == i64::MIN {
            9223372036854775808u64
        } else {
            (-i) as u64
        };
        push_decimal_digits(&mut res, magnitude);
        assert(res@ =~= seq!['-'] + decimal_digits((-i) as nat));
    } else {
        push_decimal_digits(&mut res, i as u64);
        assert(res@ =~= decimal_digits(i as nat));
    }
    res
}

} // verus!
