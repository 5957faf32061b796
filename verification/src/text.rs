//! Text helpers shared by the rest of the crate.

use vstd::prelude::*;

verus! {

/// `p` is a prefix of `s`.
pub open spec fn is_prefix(p: Seq<char>, s: Seq<char>) -> bool {
    p.len() <= s.len() && s.subrange(0, p.len() as int) == p
}

/// Prefix test of `str::starts_with`: true exactly when the characters of
/// `prefix` are the first characters of `s`.
#[verifier::external_body]
pub(crate) fn starts_with(s: &str, prefix: &str) -> (r: bool)
    ensures
        r == is_prefix(prefix@, s@),
{
    s.starts_with(prefix)
}

/// Equality of two string slices, as `str`'s `==` decides it: the same
/// characters in the same order.
#[verifier::external_body]
pub(crate) fn str_eq(a: &str, b: &str) -> (r: bool)
    ensures
        r == (a@ == b@),
{
    a == b
}

/// The views of a sequence of strings.
pub open spec fn views(v: Seq<String>) -> Seq<Seq<char>> {
    v.map_values(|s: String| s@)
}

/// Copies a list of strings.
pub fn clone_strings(v: &Vec<String>) -> (r: Vec<String>)
    ensures
        views(r@) == views(v@),
{
    let mut out: Vec<String> = Vec::new();
    let mut i: usize = 0;
    while i < v.len()
        invariant
            i <= v.len(),
            out@.len() == i,
            forall|j: int| 0 <= j < i ==> out@[j]@ == v@[j]@,
        decreases v.len() - i,
    {
        out.push(v[i].clone());
        i += 1;
    }
    assert(views(out@) =~= views(v@));
    out
}

/// Whether `needle` occurs in `v`.
pub fn contains_str(v: &Vec<String>, needle: &str) -> (r: bool)
    ensures
        r == views(v@).contains(needle@),
{
    let mut i: usize = 0;
    while i < v.len()
        invariant
            i <= v.len(),
            forall|j: int| 0 <= j < i ==> v@[j]@ != needle@,
        decreases v.len() - i,
    {
        if str_eq(v[i].as_str(), needle) {
            assert(views(v@)[i as int] == needle@);
            return true;
        }
        i += 1;
    }
    assert(!views(v@).contains(needle@)) by {
        if views(v@).contains(needle@) {
            let j = choose|j: int| 0 <= j < views(v@).len() && views(v@)[j] == needle@;
            assert(v@[j]@ == needle@);
        }
    }
    false
}

/// The view of an optional string.
pub open spec fn opt_view(o: Option<String>) -> Option<Seq<char>> {
    match o {
        Some(s) => Some(s@),
        None => None,
    }
}

/// Copies an optional string.
pub fn clone_opt_string(o: &Option<String>) -> (r: Option<String>)
    ensures
        opt_view(r) == opt_view(*o),
{
    match o {
        Some(s) => Some(s.clone()),
        None => None,
    }
}

/// The views of the elements of a sequence.
pub open spec fn elem_views<T: View>(s: Seq<T>) -> Seq<T::V> {
    s.map_values(|x: T| x@)
}

/// The values behind a sequence of references.
pub open spec fn deref_all<T>(s: Seq<&T>) -> Seq<T> {
    s.map_values(|x: &T| *x)
}

/// Filtering one element more either appends that element or changes nothing.
pub proof fn lemma_filter_step<A>(s: Seq<A>, p: spec_fn(A) -> bool, i: int)
    requires
        0 <= i < s.len(),
    ensures
        s.take(i + 1).filter(p) == if p(s[i]) {
            s.take(i).filter(p).push(s[i])
        } else {
            s.take(i).filter(p)
        },
{
    reveal(Seq::filter);
    assert(s.take(i + 1).drop_last() =~= s.take(i));
    assert(s.take(i + 1).last() == s[i]);
}

/// Filtering nothing gives nothing.
pub proof fn lemma_filter_none<A>(s: Seq<A>, p: spec_fn(A) -> bool)
    ensures
        s.take(0).filter(p) == Seq::<A>::empty(),
        s.take(s.len() as int) == s,
{
    reveal(Seq::filter);
    assert(s.take(0) =~= Seq::<A>::empty());
    assert(s.take(s.len() as int) =~= s);
}

/// `s` without the characters `c` at its end.
pub open spec fn trim_trailing(s: Seq<char>, c: char) -> Seq<char>
    decreases s.len(),
{
    if s.len() > 0 && s.last() == c {
        trim_trailing(s.drop_last(), c)
    } else {
        s
    }
}

/// What trimming leaves is the front of the text, what it takes away is
/// nothing but the character, and what it leaves does not end in it.
pub proof fn lemma_trim_trailing(s: Seq<char>, c: char)
    ensures
        trim_trailing(s, c).len() <= s.len(),
        trim_trailing(s, c) == s.take(trim_trailing(s, c).len() as int),
        forall|i: int| trim_trailing(s, c).len() <= i < s.len() ==> s[i] == c,
        trim_trailing(s, c).len() > 0 ==> trim_trailing(s, c).last() != c,
    decreases s.len(),
{
    if s.len() > 0 && s.last() == c {
        let shorter = s.drop_last();
        lemma_trim_trailing(shorter, c);
        let t = trim_trailing(shorter, c);
        assert(t =~= s.take(t.len() as int));
        assert forall|i: int| t.len() <= i < s.len() implies s[i] == c by {
            if i < shorter.len() {
                assert(shorter[i] == s[i]);
            }
        }
    } else {
        assert(s =~= s.take(s.len() as int));
    }
}

/// `str::trim_end_matches` with a character as its pattern: the slice that
/// is left when every `c` at the end of `s` is taken away.
#[verifier::external_body]
pub(crate) fn trim_end<'a>(s: &'a str, c: char) -> (r: &'a str)
    ensures
        r@ == trim_trailing(s@, c),
{
    s.trim_end_matches(c)
}

/// The decimal digit of `d`, for `d` below ten.
pub open spec fn digit_char(d: nat) -> char {
    if d == 0 {
        '0'
    } else if d == 1 {
        '1'
    } else if d == 2 {
        '2'
    } else if d == 3 {
        '3'
    } else if d == 4 {
        '4'
    } else if d == 5 {
        '5'
    } else if d == 6 {
        '6'
    } else if d == 7 {
        '7'
    } else if d == 8 {
        '8'
    } else {
        '9'
    }
}

/// `n` written in decimal, without leading zeros.
pub open spec fn decimal(n: nat) -> Seq<char>
    decreases n,
{
    if n < 10 {
        seq![digit_char(n)]
    } else {
        decimal(n / 10).push(digit_char(n % 10))
    }
}

fn digit_str(d: u64) -> (r: &'static str)
    requires
        d < 10,
    ensures
        r@ == seq![digit_char(d as nat)],
{
    proof {
        reveal_strlit("0");
        reveal_strlit("1");
        reveal_strlit("2");
        reveal_strlit("3");
        reveal_strlit("4");
        reveal_strlit("5");
        reveal_strlit("6");
        reveal_strlit("7");
        reveal_strlit("8");
        reveal_strlit("9");
    }
    let r = if d == 0 {
        "0"
    } else if d == 1 {
        "1"
    } else if d == 2 {
        "2"
    } else if d == 3 {
        "3"
    } else if d == 4 {
        "4"
    } else if d == 5 {
        "5"
    } else if d == 6 {
        "6"
    } else if d == 7 {
        "7"
    } else if d == 8 {
        "8"
    } else {
        "9"
    };
    assert(r@ =~= seq![digit_char(d as nat)]);
    r
}

/// Writes `n` in decimal.
pub fn decimal_text(n: u64) -> (r: String)
    ensures
        r@ == decimal(n as nat),
    decreases n,
{
    if n < 10 {
        String::from_str(digit_str(n))
    } else {
        let mut s = decimal_text(n / 10);
        s.append(digit_str(n % 10));
        assert(s@ =~= decimal(n as nat));
        s
    }
}

/// `s` without the white space at its two ends, as `str::trim` cuts it.
pub uninterp spec fn trimmed(s: Seq<char>) -> Seq<char>;

/// The lines of `s`, as `str::lines` splits it.
pub uninterp spec fn lines_of(s: Seq<char>) -> Seq<Seq<char>>;

/// `str::trim`: the slice without leading and trailing white space. The
/// result depends on the text alone.
#[verifier::external_body]
pub(crate) fn trim(s: &str) -> (r: &str)
    ensures
        r@ == trimmed(s@),
{
    s.trim()
}

/// `str::lines`: the lines of the text, without their line endings. The
/// result depends on the text alone.
#[verifier::external_body]
pub(crate) fn lines(s: &str) -> (r: Vec<String>)
    ensures
        views(r@) == lines_of(s@),
{
    s.lines().map(|l| l.to_string()).collect()
}

/// The texts of `parts` with a line feed between each two.
pub open spec fn joined(parts: Seq<Seq<char>>) -> Seq<char>
    decreases parts.len(),
{
    if parts.len() == 0 {
        Seq::empty()
    } else if parts.len() == 1 {
        parts[0]
    } else {
        joined(parts.drop_last()) + seq!['\n'] + parts.last()
    }
}

/// At most the first `n` lines of `s`, joined by line feeds.
pub open spec fn head_lines(s: Seq<char>, n: usize) -> Seq<char> {
    let all = lines_of(s);
    joined(if all.len() <= n { all } else { all.take(n as int) })
}

/// At most the first `n` lines of `s`, joined by line feeds.
pub fn first_lines(s: &str, n: usize) -> (r: String)
    ensures
        r@ == head_lines(s@, n),
{
    let all = lines(s);
    let ghost parts = views(all@);
    let stop = if all.len() <= n { all.len() } else { n };
    let mut out = String::new();
    let mut i: usize = 0;
    proof {
        assert(parts.take(0) =~= Seq::<Seq<char>>::empty());
        reveal_strlit("\n");
    }
    while i < stop
        invariant
            i <= stop,
            stop <= all@.len(),
            parts == views(all@),
            out@ == joined(parts.take(i as int)),
        decreases stop - i,
    {
        proof {
            reveal_strlit("\n");
            assert(parts.take(i + 1).drop_last() =~= parts.take(i as int));
            assert(parts.take(i + 1).last() == all@[i as int]@);
            assert("\n"@ =~= seq!['\n']);
        }
        if i > 0 {
            out.append("\n");
        }
        out.append(all[i].as_str());
        proof {
            if i == 0 {
                assert(out@ =~= parts.take(1)[0]);
            }
        }
        i += 1;
    }
    proof {
        assert(parts.take(parts.len() as int) =~= parts);
    }
    out
}

/// `s` between double quotes, with what must be escaped in it escaped, as
/// the `Debug` form of a `str` writes it.
pub uninterp spec fn quoted(s: Seq<char>) -> Seq<char>;

/// The `Debug` form of a `str`: the text between double quotes, with double
/// quotes, backslashes and characters that cannot be printed written as
/// escapes. The result depends on the text alone.
#[verifier::external_body]
pub(crate) fn quote(s: &str) -> (r: String)
    ensures
        r@ == quoted(s@),
{
    format!("{:?}", s)
}

} // verus!
