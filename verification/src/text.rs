use vstd::prelude::*;

verus! {

// ---------------------------------------------------------------------------
// Characters
// ---------------------------------------------------------------------------

/// ASCII lower-casing of one character; other characters are unchanged.
pub open spec fn lower_char(c: char) -> char {
    if 'A' <= c && c <= 'Z' {
        ((c as u32) + 32) as char
    } else {
        c
    }
}

/// ASCII upper-casing of one character; other characters are unchanged.
pub open spec fn upper_char(c: char) -> char {
    if 'a' <= c && c <= 'z' {
        ((c as u32) - 32) as char
    } else {
        c
    }
}

/// ASCII upper-casing of a whole text.
pub open spec fn upper_seq(s: Seq<char>) -> Seq<char> {
    s.map_values(|c: char| upper_char(c))
}

/// Lower-casing an upper-cased text gives the lower-cased text.
pub proof fn lemma_lower_upper(s: Seq<char>)
    ensures
        lower_seq(upper_seq(s)) == lower_seq(s),
{
    assert forall|i: int| 0 <= i < s.len() implies lower_char(upper_char(s[i])) == lower_char(s[i]) by {
        let c = s[i];
        if 'a' <= c && c <= 'z' {
            assert(((((c as u32) - 32) as char) as u32) == (c as u32) - 32);
        }
    }
    assert(lower_seq(upper_seq(s)) =~= lower_seq(s));
}

/// ASCII lower-casing of a whole text.
pub open spec fn lower_seq(s: Seq<char>) -> Seq<char> {
    s.map_values(|c: char| lower_char(c))
}

pub open spec fn is_ascii_alnum(c: char) -> bool {
    ('a' <= c && c <= 'z') || ('A' <= c && c <= 'Z') || ('0' <= c && c <= '9')
}

pub open spec fn is_ascii_digit(c: char) -> bool {
    '0' <= c && c <= '9'
}

/// The characters that `char::is_whitespace` accepts (Unicode `White_Space`).
pub open spec fn is_white(c: char) -> bool {
    ||| c == ' ' || c == '\t' || c == '\n' || c == '\r'
    ||| c == '\u{0B}' || c == '\u{0C}' || c == '\u{85}' || c == '\u{A0}'
    ||| c == '\u{1680}' || ('\u{2000}' <= c && c <= '\u{200A}')
    ||| c == '\u{2028}' || c == '\u{2029}' || c == '\u{202F}' || c == '\u{205F}'
    ||| c == '\u{3000}'
}

pub fn to_lower_char(c: char) -> (r: char)
    ensures
        r == lower_char(c),
{
    if 'A' <= c && c <= 'Z' {
        let b: u8 = c as u8;
        let r = (b + 32) as char;
        assert(r == ((c as u32) + 32) as char);
        r
    } else {
        c
    }
}

pub fn ascii_alnum(c: char) -> (r: bool)
    ensures
        r == is_ascii_alnum(c),
{
    ('a' <= c && c <= 'z') || ('A' <= c && c <= 'Z') || ('0' <= c && c <= '9')
}

pub fn white(c: char) -> (r: bool)
    ensures
        r == is_white(c),
{
    c == ' ' || c == '\t' || c == '\n' || c == '\r' || c == '\u{0B}' || c == '\u{0C}'
        || c == '\u{85}' || c == '\u{A0}' || c == '\u{1680}' || ('\u{2000}' <= c && c
        <= '\u{200A}') || c == '\u{2028}' || c == '\u{2029}' || c == '\u{202F}' || c
        == '\u{205F}' || c == '\u{3000}'
}

// ---------------------------------------------------------------------------
// Conversions between `str`/`String` and character vectors
// ---------------------------------------------------------------------------

/// The characters of a string slice, in order.
pub fn chars_of(s: &str) -> (r: Vec<char>)
    ensures
        r@ == s@,
{
    let mut out: Vec<char> = Vec::new();
    for c in it: s.chars()
        invariant
            out@ == it.seq().take(it.index() as int),
            it.seq() == s@,
    {
        out.push(c);
    }
    out
}

/// Collects characters into a `String` (`String::from_iter`).
#[verifier::external_body]
pub(crate) fn string_from_chars(v: &Vec<char>) -> (r: String)
    ensures
        r@ == v@,
{
    String::from_iter(v.iter())
}

/// Copies a string slice into an owned `String`.
pub fn own(s: &str) -> (r: String)
    ensures
        r@ == s@,
{
    String::from_str(s)
}

// ---------------------------------------------------------------------------
// Lower-casing
// ---------------------------------------------------------------------------

pub fn lower_chars(s: &Vec<char>) -> (r: Vec<char>)
    ensures
        r@ == lower_seq(s@),
{
    let mut out: Vec<char> = Vec::new();
    let mut i: usize = 0;
    while i < s.len()
        invariant
            i <= s.len(),
            out@ == lower_seq(s@.take(i as int)),
        decreases s.len() - i,
    {
        let c = to_lower_char(s[i]);
        out.push(c);
        i += 1;
        assert(lower_seq(s@.take(i as int)) =~= lower_seq(s@.take((i - 1) as int)).push(
            lower_char(s@[i - 1]),
        ));
    }
    assert(s@.take(s.len() as int) =~= s@);
    out
}

/// `str::to_ascii_lowercase`.
pub fn to_ascii_lowercase(s: &str) -> (r: String)
    ensures
        r@ == lower_seq(s@),
{
    let cs = chars_of(s);
    let l = lower_chars(&cs);
    string_from_chars(&l)
}

// ---------------------------------------------------------------------------
// Searching
// ---------------------------------------------------------------------------

/// `sub` occurs in `s` at position `i`.
pub open spec fn occurs_at(s: Seq<char>, sub: Seq<char>, i: int) -> bool {
    0 <= i && i + sub.len() <= s.len() && s.subrange(i, i + sub.len()) == sub
}

/// `sub` occurs somewhere in `s` (`str::contains`).
pub open spec fn seq_contains(s: Seq<char>, sub: Seq<char>) -> bool {
    exists|i: int| occurs_at(s, sub, i)
}

pub open spec fn seq_starts_with(s: Seq<char>, p: Seq<char>) -> bool {
    p.len() <= s.len() && s.take(p.len() as int) == p
}

pub open spec fn seq_ends_with(s: Seq<char>, p: Seq<char>) -> bool {
    p.len() <= s.len() && s.skip(s.len() - p.len()) == p
}

pub fn matches_at(s: &Vec<char>, sub: &Vec<char>, i: usize) -> (r: bool)
    ensures
        r == occurs_at(s@, sub@, i as int),
{
    if i > s.len() || sub.len() > s.len() - i {
        return false;
    }
    let mut j: usize = 0;
    while j < sub.len()
        invariant
            j <= sub.len(),
            i + sub.len() <= s.len(),
            forall|k: int| 0 <= k < j ==> s@[i + k] == sub@[k],
        decreases sub.len() - j,
    {
        if s[i + j] != sub[j] {
            assert(s@.subrange(i as int, i + sub.len())[j as int] != sub@[j as int]);
            return false;
        }
        j += 1;
    }
    assert(s@.subrange(i as int, i + sub.len()) =~= sub@);
    true
}

/// Position of the first occurrence of `sub` in `s`, if any (`str::find`, in characters).
pub open spec fn first_occurrence(s: Seq<char>, sub: Seq<char>, i: int) -> bool {
    occurs_at(s, sub, i) && forall|k: int| 0 <= k < i ==> !occurs_at(s, sub, k)
}

pub fn find_chars_from(s: &Vec<char>, sub: &Vec<char>, from: usize) -> (r: Option<usize>)
    ensures
        match r {
            Some(i) => from <= i && occurs_at(s@, sub@, i as int) && forall|k: int|
                from <= k < i ==> !occurs_at(s@, sub@, k),
            None => forall|k: int| from <= k ==> !occurs_at(s@, sub@, k),
        },
{
    if sub.len() > s.len() || from > s.len() - sub.len() {
        return None;
    }
    let last = s.len() - sub.len();
    let mut i: usize = from;
    while i <= last
        invariant
            from <= i,
            last == s.len() - sub.len(),
            forall|k: int| from <= k < i ==> !occurs_at(s@, sub@, k),
        decreases last + 1 - i,
    {
        if matches_at(s, sub, i) {
            return Some(i);
        }
        if i == last {
            return None;
        }
        i += 1;
    }
    None
}

pub fn find_chars(s: &Vec<char>, sub: &Vec<char>) -> (r: Option<usize>)
    ensures
        match r {
            Some(i) => first_occurrence(s@, sub@, i as int),
            None => !seq_contains(s@, sub@),
        },
{
    find_chars_from(s, sub, 0)
}

pub fn contains_chars(s: &Vec<char>, sub: &Vec<char>) -> (r: bool)
    ensures
        r == seq_contains(s@, sub@),
{
    match find_chars(s, sub) {
        Some(_) => true,
        None => false,
    }
}

/// `str::contains` with a string needle.
pub fn str_contains(s: &str, sub: &str) -> (r: bool)
    ensures
        r == seq_contains(s@, sub@),
{
    let a = chars_of(s);
    let b = chars_of(sub);
    contains_chars(&a, &b)
}

pub fn starts_with_chars(s: &Vec<char>, p: &Vec<char>) -> (r: bool)
    ensures
        r == seq_starts_with(s@, p@),
{
    let r = matches_at(s, p, 0);
    assert(r ==> s@.take(p.len() as int) =~= s@.subrange(0, p.len() as int));
    assert(seq_starts_with(s@, p@) ==> s@.take(p.len() as int) =~= s@.subrange(
        0,
        p.len() as int,
    ));
    r
}

pub fn ends_with_chars(s: &Vec<char>, p: &Vec<char>) -> (r: bool)
    ensures
        r == seq_ends_with(s@, p@),
{
    if p.len() > s.len() {
        return false;
    }
    let r = matches_at(s, p, s.len() - p.len());
    assert(s@.skip(s.len() - p.len()) =~= s@.subrange(s.len() - p.len(), s.len() as int));
    r
}

pub fn str_starts_with(s: &str, p: &str) -> (r: bool)
    ensures
        r == seq_starts_with(s@, p@),
{
    let a = chars_of(s);
    let b = chars_of(p);
    starts_with_chars(&a, &b)
}


// ---------------------------------------------------------------------------
// Replacing (`str::replace`)
// ---------------------------------------------------------------------------

/// Left-to-right, non-overlapping replacement of every occurrence of a non-empty `from`.
pub open spec fn replace_seq(s: Seq<char>, from: Seq<char>, to: Seq<char>) -> Seq<char>
    decreases s.len(),
{
    if from.len() == 0 || s.len() < from.len() {
        s
    } else if s.take(from.len() as int) == from {
        to + replace_seq(s.skip(from.len() as int), from, to)
    } else {
        seq![s[0]] + replace_seq(s.skip(1), from, to)
    }
}

pub fn replace_chars(s: &Vec<char>, from: &Vec<char>, to: &Vec<char>) -> (r: Vec<char>)
    requires
        from.len() > 0,
    ensures
        r@ == replace_seq(s@, from@, to@),
{
    let mut out: Vec<char> = Vec::new();
    let mut i: usize = 0;
    assert(s@.skip(0) =~= s@);
    while i < s.len()
        invariant
            i <= s.len(),
            from.len() > 0,
            replace_seq(s@, from@, to@) == out@ + replace_seq(s@.skip(i as int), from@, to@),
        decreases s.len() - i,
    {
        let ghost rest = s@.skip(i as int);
        if matches_at(s, from, i) {
            assert(rest.take(from.len() as int) =~= s@.subrange(i as int, i + from.len()));
            assert(rest.skip(from.len() as int) =~= s@.skip(i + from.len()));
            let mut k: usize = 0;
            let ghost before = out@;
            while k < to.len()
                invariant
                    k <= to.len(),
                    out@ == before + to@.take(k as int),
                decreases to.len() - k,
            {
                out.push(to[k]);
                k += 1;
                assert(before + to@.take(k as int) =~= (before + to@.take((k - 1) as int)).push(
                    to@[k - 1],
                ));
            }
            assert(to@.take(to.len() as int) =~= to@);
            assert(out@ + replace_seq(s@.skip(i + from.len()), from@, to@) =~= before + (to@
                + replace_seq(rest.skip(from.len() as int), from@, to@)));
            i = i + from.len();
        } else {
            if from.len() <= s.len() - i {
                assert(rest.take(from.len() as int) =~= s@.subrange(i as int, i + from.len()));
                assert(rest.skip(1) =~= s@.skip(i + 1));
                assert(out@.push(s@[i as int]) + replace_seq(s@.skip(i + 1), from@, to@) =~= out@
                    + (seq![rest[0]] + replace_seq(rest.skip(1), from@, to@)));
                out.push(s[i]);
                i = i + 1;
            } else {
                let mut k: usize = i;
                let ghost before = out@;
                while k < s.len()
                    invariant
                        i <= k <= s.len(),
                        out@ == before + s@.subrange(i as int, k as int),
                    decreases s.len() - k,
                {
                    out.push(s[k]);
                    k += 1;
                    assert(before + s@.subrange(i as int, k as int) =~= (before + s@.subrange(
                        i as int,
                        (k - 1) as int,
                    )).push(s@[k - 1]));
                }
                assert(rest =~= s@.subrange(i as int, s.len() as int));
                assert(s@.skip(s.len() as int) =~= Seq::<char>::empty());
                i = s.len();
            }
        }
    }
    assert(s@.skip(s.len() as int) =~= Seq::<char>::empty());
    assert(out@ + Seq::<char>::empty() =~= out@);
    out
}

/// `str::replace` with a non-empty pattern.
pub fn str_replace(s: &str, from: &str, to: &str) -> (r: String)
    requires
        from@.len() > 0,
    ensures
        r@ == replace_seq(s@, from@, to@),
{
    let a = chars_of(s);
    let b = chars_of(from);
    let c = chars_of(to);
    let d = replace_chars(&a, &b, &c);
    string_from_chars(&d)
}

// ---------------------------------------------------------------------------
// Trimming
// ---------------------------------------------------------------------------

/// What a trim removes: Unicode whitespace (`None`) or one given character (`Some(c)`).
pub open spec fn strips(sel: Option<char>, c: char) -> bool {
    match sel {
        None => is_white(c),
        Some(x) => c == x,
    }
}

pub open spec fn trim_start_seq(s: Seq<char>, sel: Option<char>) -> Seq<char>
    decreases s.len(),
{
    if s.len() > 0 && strips(sel, s[0]) {
        trim_start_seq(s.drop_first(), sel)
    } else {
        s
    }
}

pub open spec fn trim_end_seq(s: Seq<char>, sel: Option<char>) -> Seq<char>
    decreases s.len(),
{
    if s.len() > 0 && strips(sel, s.last()) {
        trim_end_seq(s.drop_last(), sel)
    } else {
        s
    }
}

/// `str::trim` (for `None`) and `str::trim_matches(c)` (for `Some(c)`).
pub open spec fn trim_seq(s: Seq<char>, sel: Option<char>) -> Seq<char> {
    trim_end_seq(trim_start_seq(s, sel), sel)
}

fn strips_exec(sel: Option<char>, c: char) -> (r: bool)
    ensures
        r == strips(sel, c),
{
    match sel {
        None => white(c),
        Some(x) => c == x,
    }
}

pub fn trim_chars(s: &Vec<char>, sel: Option<char>) -> (r: Vec<char>)
    ensures
        r@ == trim_seq(s@, sel),
{
    let mut a: usize = 0;
    assert(s@.skip(0) =~= s@);
    while a < s.len() && strips_exec(sel, s[a])
        invariant
            a <= s.len(),
            trim_start_seq(s@, sel) == trim_start_seq(s@.skip(a as int), sel),
        decreases s.len() - a,
    {
        assert(s@.skip(a as int).drop_first() =~= s@.skip(a + 1));
        a += 1;
    }
    let ghost mid = s@.skip(a as int);
    assert(trim_start_seq(s@, sel) == mid);
    let mut b: usize = s.len();
    assert(mid.take(mid.len() as int) =~= mid);
    while b > a && strips_exec(sel, s[b - 1])
        invariant
            a <= b <= s.len(),
            mid == s@.skip(a as int),
            trim_end_seq(mid, sel) == trim_end_seq(mid.take(b - a), sel),
        decreases b,
    {
        assert(mid.take(b - a).drop_last() =~= mid.take(b - 1 - a));
        b -= 1;
    }
    let mut out: Vec<char> = Vec::new();
    let mut k: usize = a;
    while k < b
        invariant
            a <= k <= b <= s.len(),
            out@ == s@.subrange(a as int, k as int),
        decreases b - k,
    {
        out.push(s[k]);
        k += 1;
        assert(s@.subrange(a as int, k as int) =~= s@.subrange(a as int, (k - 1) as int).push(
            s@[k - 1],
        ));
    }
    assert(out@ =~= mid.take(b - a));
    out
}

/// `str::trim_end` (Unicode whitespace).
pub fn trim_end_chars(s: &Vec<char>) -> (r: Vec<char>)
    ensures
        r@ == trim_end_seq(s@, None),
{
    let mut b: usize = s.len();
    assert(s@.take(s.len() as int) =~= s@);
    while b > 0 && white(s[b - 1])
        invariant
            b <= s.len(),
            trim_end_seq(s@, None) == trim_end_seq(s@.take(b as int), None),
        decreases b,
    {
        assert(s@.take(b as int).drop_last() =~= s@.take(b - 1));
        b -= 1;
    }
    let mut out: Vec<char> = Vec::new();
    let mut k: usize = 0;
    while k < b
        invariant
            k <= b <= s.len(),
            out@ == s@.take(k as int),
        decreases b - k,
    {
        out.push(s[k]);
        k += 1;
        assert(s@.take(k as int) =~= s@.take(k - 1).push(s@[k - 1]));
    }
    out
}

// ---------------------------------------------------------------------------
// Decimal numbers
// ---------------------------------------------------------------------------

pub open spec fn digit_char(d: nat) -> char {
    (('0' as u32) + d) as char
}

/// Decimal rendering of a natural number (as `ToString` on integers renders it).
pub open spec fn dec_seq(n: nat) -> Seq<char>
    decreases n,
{
    if n < 10 {
        seq![digit_char(n)]
    } else {
        dec_seq(n / 10).push(digit_char(n % 10))
    }
}

pub fn digit_to_char(d: u64) -> (c: char)
    requires
        d < 10,
    ensures
        c == digit_char(d as nat),
{
    let b: u8 = d as u8;
    let c = (b + 48) as char;
    assert(c == (('0' as u32) + d) as char);
    c
}

pub fn dec_chars(n: u64) -> (r: Vec<char>)
    ensures
        r@ == dec_seq(n as nat),
    decreases n,
{
    if n < 10 {
        let mut v: Vec<char> = Vec::new();
        v.push(digit_to_char(n));
        assert(v@ =~= seq![digit_char(n as nat)]);
        v
    } else {
        let mut v = dec_chars(n / 10);
        v.push(digit_to_char(n % 10));
        v
    }
}

/// Decimal text of an unsigned integer (`u64::to_string`).
pub fn u64_to_string(n: u64) -> (r: String)
    ensures
        r@ == dec_seq(n as nat),
{
    let v = dec_chars(n);
    string_from_chars(&v)
}

pub open spec fn all_digits(s: Seq<char>) -> bool {
    forall|i: int| 0 <= i < s.len() ==> is_ascii_digit(#[trigger] s[i])
}

pub open spec fn digit_value(c: char) -> nat {
    ((c as u32) - ('0' as u32)) as nat
}

/// Value of a string of decimal digits.
pub open spec fn digits_value(s: Seq<char>) -> nat
    decreases s.len(),
{
    if s.len() == 0 {
        0
    } else {
        digits_value(s.drop_last()) * 10 + digit_value(s.last())
    }
}

/// What parsing a run of decimal digits into a `usize` gives: the value, when the
/// text is a non-empty run of ASCII digits whose value fits.
pub open spec fn parse_usize_spec(s: Seq<char>) -> Option<usize> {
    if s.len() > 0 && all_digits(s) && digits_value(s) <= usize::MAX {
        Some(digits_value(s) as usize)
    } else {
        None
    }
}

proof fn lemma_digits_value_grows(s: Seq<char>, i: int)
    requires
        0 <= i <= s.len(),
        all_digits(s),
    ensures
        digits_value(s.take(i)) <= digits_value(s),
    decreases s.len() - i,
{
    if i < s.len() {
        lemma_digits_value_grows(s, i + 1);
        assert(s.take(i + 1).drop_last() =~= s.take(i));
    } else {
        assert(s.take(i) =~= s);
    }
}

pub fn parse_usize(s: &Vec<char>) -> (r: Option<usize>)
    ensures
        r == parse_usize_spec(s@),
{
    if s.len() == 0 {
        return None;
    }
    let mut i: usize = 0;
    while i < s.len()
        invariant
            i <= s.len(),
            forall|k: int| 0 <= k < i ==> is_ascii_digit(#[trigger] s@[k]),
        decreases s.len() - i,
    {
        if !('0' <= s[i] && s[i] <= '9') {
            return None;
        }
        i += 1;
    }
    assert(all_digits(s@));
    let mut v: usize = 0;
    let mut j: usize = 0;
    assert(s@.take(0) =~= Seq::<char>::empty());
    while j < s.len()
        invariant
            j <= s.len(),
            all_digits(s@),
            v == digits_value(s@.take(j as int)),
        decreases s.len() - j,
    {
        let c = s[j];
        let d: usize = ((c as u32) - 48) as usize;
        assert(s@.take(j + 1).drop_last() =~= s@.take(j as int));
        match v.checked_mul(10) {
            Some(m) => match m.checked_add(d) {
                Some(n) => {
                    v = n;
                },
                None => {
                    proof {
                        lemma_digits_value_grows(s@, j + 1);
                    }
                    return None;
                },
            },
            None => {
                proof {
                    lemma_digits_value_grows(s@, j + 1);
                }
                return None;
            },
        }
        j += 1;
    }
    assert(s@.take(s.len() as int) =~= s@);
    Some(v)
}

} // verus!

verus! {

/// Decimal rendering of a signed integer (`i64::to_string`).
pub open spec fn int_dec_seq(n: int) -> Seq<char> {
    if n < 0 { seq!['-'] + dec_seq((-n) as nat) } else { dec_seq(n as nat) }
}

pub fn i64_to_string(n: i64) -> (r: String)
    ensures
        r@ == int_dec_seq(n as int),
{
    if n < 0 {
        let m: u64 = (-(n as i128)) as u64;
        let mut v: Vec<char> = Vec::new();
        v.push('-');
        let d = dec_chars(m);
        let mut i: usize = 0;
        while i < d.len()
            invariant
                i <= d.len(),
                v@ == seq!['-'] + d@.take(i as int),
            decreases d.len() - i,
        {
            v.push(d[i]);
            i += 1;
            assert(v@ =~= seq!['-'] + d@.take(i as int));
        }
        assert(d@.take(d.len() as int) =~= d@);
        string_from_chars(&v)
    } else {
        u64_to_string(n as u64)
    }
}

/// The texts of a list of strings.
pub open spec fn strs_view(v: Seq<String>) -> Seq<Seq<char>> {
    v.map_values(|s: String| s@)
}

/// Appends a string to a list of strings.
pub fn push_str(v: &mut Vec<String>, s: String)
    ensures
        strs_view(final(v)@) == strs_view(old(v)@).push(s@),
{
    v.push(s);
    assert(strs_view(v@) =~= strs_view(old(v)@).push(s@));
}

/// A copy of a list of strings.
pub fn clone_strings(v: &Vec<String>) -> (r: Vec<String>)
    ensures
        strs_view(r@) == strs_view(v@),
{
    let mut out: Vec<String> = Vec::new();
    let mut i: usize = 0;
    while i < v.len()
        invariant
            i <= v.len(),
            strs_view(out@) == strs_view(v@).take(i as int),
        decreases v.len() - i,
    {
        push_str(&mut out, v[i].clone());
        i += 1;
        assert(strs_view(out@) =~= strs_view(v@).take(i as int));
    }
    assert(strs_view(v@).take(v.len() as int) =~= strs_view(v@));
    out
}

/// Whether a list of strings holds the given text.
pub fn contains_str(list: &Vec<String>, w: &String) -> (r: bool)
    ensures
        r == strs_view(list@).contains(w@),
{
    let mut i: usize = 0;
    while i < list.len()
        invariant
            i <= list.len(),
            forall|k: int| 0 <= k < i ==> strs_view(list@)[k] != w@,
        decreases list.len() - i,
    {
        if list[i] == *w {
            assert(strs_view(list@)[i as int] == w@);
            return true;
        }
        i += 1;
    }
    false
}

/// Whether two texts hold the same characters.
pub fn str_eq(a: &str, b: &str) -> (r: bool)
    ensures
        r == (a@ == b@),
{
    own(a) == own(b)
}

/// Concatenation of two texts.
pub fn concat(a: &str, b: &str) -> (r: String)
    ensures
        r@ == a@ + b@,
{
    let mut s = own(a);
    s.append(b);
    s
}

/// Concatenation of three texts.
pub fn concat3(a: &str, b: &str, c: &str) -> (r: String)
    ensures
        r@ == a@ + b@ + c@,
{
    let mut s = own(a);
    s.append(b);
    s.append(c);
    s
}

} // verus!

verus! {

/// Pushing onto a sequence adds exactly the pushed element to its set of elements.
pub proof fn lemma_push_to_set<A>(s: Seq<A>, x: A)
    ensures
        s.push(x).to_set() == s.to_set().insert(x),
{
    assert forall|a: A| s.push(x).to_set().contains(a) == s.to_set().insert(x).contains(a) by {
        if s.push(x).contains(a) {
            let i = choose|i: int| 0 <= i < s.push(x).len() && s.push(x)[i] == a;
            if i < s.len() {
                assert(s[i] == a);
            }
        }
        if s.contains(a) {
            let i = choose|i: int| 0 <= i < s.len() && s[i] == a;
            assert(s.push(x)[i] == a);
        }
        if a == x {
            assert(s.push(x)[s.len() as int] == x);
        }
    }
    assert(s.push(x).to_set() =~= s.to_set().insert(x));
}

} // verus!

verus! {

/// Full Unicode lower-casing of a text, as `str::to_lowercase` does it.
pub uninterp spec fn unicode_lower(s: Seq<char>) -> Seq<char>;

/// `str::to_lowercase`.
#[verifier::external_body]
pub(crate) fn to_lowercase(s: &str) -> (r: String)
    ensures
        r@ == unicode_lower(s@),
{
    s.to_lowercase()
}

/// Whether `char::is_alphanumeric` holds (Unicode `Alphabetic` or `Numeric`).
pub uninterp spec fn unicode_alnum(c: char) -> bool;

/// `char::is_alphanumeric`.
#[verifier::external_body]
pub(crate) fn is_alphanumeric(c: char) -> (r: bool)
    ensures
        r == unicode_alnum(c),
{
    c.is_alphanumeric()
}


/// Whether `char::is_alphabetic` holds (Unicode `Alphabetic`).
pub uninterp spec fn unicode_alpha(c: char) -> bool;

/// `char::is_alphabetic`.
#[verifier::external_body]
pub(crate) fn is_alphabetic(c: char) -> (r: bool)
    ensures
        r == unicode_alpha(c),
{
    c.is_alphabetic()
}

/// Whether `char::is_numeric` holds (Unicode `Numeric`).
pub uninterp spec fn unicode_numeric(c: char) -> bool;

/// `char::is_numeric`.
#[verifier::external_body]
pub(crate) fn is_numeric(c: char) -> (r: bool)
    ensures
        r == unicode_numeric(c),
{
    c.is_numeric()
}


/// The view of an optional text.
pub open spec fn opt_text_view(o: Option<String>) -> Option<Seq<char>> {
    match o {
        Some(t) => Some(t@),
        None => None,
    }
}

/// The groups of one regex match (group 0 is the whole match), `None` for a
/// group that took no part.
pub open spec fn groups_view(m: Seq<Option<String>>) -> Seq<Option<Seq<char>>> {
    m.map_values(|g: Option<String>| opt_text_view(g))
}

/// The group texts of every match of `pattern` in `text`, left to right, as the
/// `regex` crate finds them; no match at all where the pattern does not compile.
pub uninterp spec fn regex_all_captures(pattern: Seq<char>, text: Seq<char>) -> Seq<Seq<Option<Seq<char>>>>;

/// `regex::Regex::new(pattern)` and `captures_iter(text)`, each match as its groups.
#[verifier::external_body]
pub(crate) fn all_captures(pattern: &str, text: &str) -> (r: Vec<Vec<Option<String>>>)
    ensures
        r@.map_values(|m: Vec<Option<String>>| groups_view(m@)) == regex_all_captures(pattern@, text@),
{
    match regex::Regex::new(pattern) {
        Ok(re) => re.captures_iter(text).map(|c| c.iter().map(|g| g.map(|x| x.as_str().to_string())).collect()).collect(),
        Err(_) => Vec::new(),
    }
}

/// The groups of the first match of `pattern` in `text`, as the `regex` crate
/// finds it; none where there is no match or the pattern does not compile.
pub uninterp spec fn regex_first_captures(pattern: Seq<char>, text: Seq<char>) -> Option<Seq<Option<Seq<char>>>>;

/// `regex::Regex::new(pattern)` and `captures(text)`, as its groups.
#[verifier::external_body]
pub(crate) fn first_captures(pattern: &str, text: &str) -> (r: Option<Vec<Option<String>>>)
    ensures
        match r {
            Some(m) => regex_first_captures(pattern@, text@) == Some(groups_view(m@)),
            None => regex_first_captures(pattern@, text@) is None,
        },
{
    match regex::Regex::new(pattern) {
        Ok(re) => re.captures(text).map(|c| c.iter().map(|g| g.map(|x| x.as_str().to_string())).collect()),
        Err(_) => None,
    }
}

/// Group `k` of a match as text: empty where the group is missing.
pub open spec fn group_text(m: Seq<Option<Seq<char>>>, k: int) -> Seq<char> {
    if 0 <= k < m.len() {
        match m[k] {
            Some(t) => t,
            None => Seq::empty(),
        }
    } else {
        Seq::empty()
    }
}

pub fn group_at(m: &Vec<Option<String>>, k: usize) -> (r: Option<String>)
    ensures
        opt_text_view(r) == (if k < m.len() { opt_text_view(m@[k as int]) } else { None }),
{
    if k < m.len() {
        match &m[k] {
            Some(t) => Some(t.clone()),
            None => None,
        }
    } else {
        None
    }
}


/// The pieces of a text between occurrences of `sep`, empty pieces included
/// (`str::split` with a character).
pub open spec fn split_on(s: Seq<char>, sep: char) -> Seq<Seq<char>>
    decreases s.len(),
{
    if s.len() == 0 {
        seq![Seq::empty()]
    } else {
        let prev = split_on(s.drop_last(), sep);
        if s.last() == sep {
            prev.push(Seq::empty())
        } else {
            prev.update(prev.len() - 1, prev.last().push(s.last()))
        }
    }
}

pub proof fn lemma_split_on_nonempty(s: Seq<char>, sep: char)
    ensures
        split_on(s, sep).len() >= 1,
    decreases s.len(),
{
    if s.len() > 0 {
        lemma_split_on_nonempty(s.drop_last(), sep);
    }
}

pub fn split_chars(p: &Vec<char>, sep: char) -> (r: Vec<Vec<char>>)
    ensures
        r@.map_values(|v: Vec<char>| v@) == split_on(p@, sep),
{
    let mut out: Vec<Vec<char>> = Vec::new();
    let mut cur: Vec<char> = Vec::new();
    let mut i: usize = 0;
    while i < p.len()
        invariant
            i <= p.len(),
            out@.map_values(|v: Vec<char>| v@).push(cur@) == split_on(p@.take(i as int), sep),
        decreases p.len() - i,
    {
        let ghost before = p@.take(i as int);
        proof {
            lemma_split_on_nonempty(before, sep);
            assert(p@.take(i + 1).drop_last() =~= before);
        }
        if p[i] == sep {
            let done = cur;
            out.push(done);
            cur = Vec::new();
            proof {
                assert(out@.map_values(|v: Vec<char>| v@).push(cur@) =~= split_on(p@.take(i + 1), sep));
            }
        } else {
            cur.push(p[i]);
            proof {
                assert(out@.map_values(|v: Vec<char>| v@).push(cur@) =~= split_on(p@.take(i + 1), sep));
            }
        }
        i += 1;
    }
    assert(p@.take(p.len() as int) =~= p@);
    out.push(cur);
    out
}

} // verus!
