//! Character-sequence utilities shared by the hotkey grammar: ASCII case
//! folding, whitespace trimming, and splitting a chord string on the `+`
//! delimiter.

use vstd::prelude::*;

verus! {

/// The whitespace characters that are trimmed from the ends of each
/// delimited part of a chord.
pub open spec fn is_space(c: char) -> bool {
    c == ' ' || c == '\t' || c == '\n' || c == '\r' || c == '\u{b}' || c == '\u{c}'
}

/// An ASCII letter or digit: the only characters accepted as printable
/// keys.
pub open spec fn is_alnum_char(c: char) -> bool {
    ||| 48 <= c as u32 <= 57
    ||| 65 <= c as u32 <= 90
    ||| 97 <= c as u32 <= 122
}

/// Letter-or-digit test, executable form.
pub fn is_alnum_char_exec(c: char) -> (r: bool)
    ensures
        r == is_alnum_char(c),
{
    let u: u32 = c as u32;
    (48 <= u && u <= 57) || (65 <= u && u <= 90) || (97 <= u && u <= 122)
}

/// Maps an ASCII lowercase letter to its uppercase form and leaves every
/// other character unchanged.
pub open spec fn upper_char(c: char) -> char {
    if 97 <= c as u32 && c as u32 <= 122 {
        ((c as u32) - 32) as char
    } else {
        c
    }
}

/// Case folding of a whole sequence, character by character.
pub open spec fn upper_seq(s: Seq<char>) -> Seq<char> {
    s.map_values(|c: char| upper_char(c))
}

/// Drops leading whitespace.
pub open spec fn trim_front(s: Seq<char>) -> Seq<char>
    decreases s.len(),
{
    if s.len() > 0 && is_space(s[0]) {
        trim_front(s.skip(1))
    } else {
        s
    }
}

/// Drops trailing whitespace.
pub open spec fn trim_back(s: Seq<char>) -> Seq<char>
    decreases s.len(),
{
    if s.len() > 0 && is_space(s[s.len() - 1]) {
        trim_back(s.take(s.len() - 1))
    } else {
        s
    }
}

/// Drops whitespace from both ends.
pub open spec fn trim(s: Seq<char>) -> Seq<char> {
    trim_back(trim_front(s))
}

/// Splits a sequence on `+`, keeping empty parts; splitting the empty
/// sequence yields one empty part.
pub open spec fn split_plus(s: Seq<char>) -> Seq<Seq<char>>
    decreases s.len(),
{
    if s.len() == 0 {
        seq![Seq::<char>::empty()]
    } else if s[0] == '+' {
        seq![Seq::<char>::empty()] + split_plus(s.skip(1))
    } else {
        let rest = split_plus(s.skip(1));
        seq![seq![s[0]] + rest[0]] + rest.skip(1)
    }
}

/// The views of a vector of character vectors.
pub open spec fn views_of(vs: Seq<Vec<char>>) -> Seq<Seq<char>> {
    vs.map_values(|t: Vec<char>| t@)
}

pub proof fn lemma_split_plus_len(s: Seq<char>)
    ensures
        split_plus(s).len() >= 1,
    decreases s.len(),
{
    if s.len() > 0 {
        lemma_split_plus_len(s.skip(1));
    }
}

/// A sequence without the delimiter splits into itself alone.
pub proof fn lemma_split_no_plus(s: Seq<char>)
    requires
        forall|i: int| 0 <= i < s.len() ==> s[i] != '+',
    ensures
        split_plus(s) == seq![s],
    decreases s.len(),
{
    if s.len() == 0 {
        assert(split_plus(s) =~~= seq![s]);
    } else {
        lemma_split_no_plus(s.skip(1));
        assert(seq![s[0]] + s.skip(1) =~= s);
        assert(split_plus(s) =~~= seq![s]);
    }
}

/// Splitting a sequence that starts with a delimiter-free prefix followed by
/// `+` yields that prefix and then the split of the remainder.
pub proof fn lemma_split_prefix(a: Seq<char>, b: Seq<char>)
    requires
        forall|i: int| 0 <= i < a.len() ==> a[i] != '+',
    ensures
        split_plus(a + seq!['+'] + b) == seq![a] + split_plus(b),
    decreases a.len(),
{
    let s = a + seq!['+'] + b;
    if a.len() == 0 {
        assert(s[0] == '+');
        assert(s.skip(1) =~= b);
        assert(split_plus(s) =~~= seq![a] + split_plus(b));
    } else {
        assert(s[0] == a[0]);
        assert(s.skip(1) =~= a.skip(1) + seq!['+'] + b);
        lemma_split_prefix(a.skip(1), b);
        lemma_split_plus_len(b);
        assert(seq![s[0]] + (seq![a.skip(1)] + split_plus(b))[0] =~= a);
        assert((seq![a.skip(1)] + split_plus(b)).skip(1) =~~= split_plus(b));
        assert(split_plus(s) =~~= seq![a] + split_plus(b));
    }
}

/// No part produced by splitting contains the delimiter.
pub proof fn lemma_split_parts_no_plus(s: Seq<char>)
    ensures
        forall|p: int, i: int|
            0 <= p < split_plus(s).len() && 0 <= i < split_plus(s)[p].len()
                ==> split_plus(s)[p][i] != '+',
    decreases s.len(),
{
    if s.len() > 0 {
        lemma_split_parts_no_plus(s.skip(1));
        if s[0] != '+' {
            lemma_split_plus_len(s.skip(1));
        }
    }
}

/// Trimming produces a subsequence whose ends are not whitespace.
pub proof fn lemma_trim_front_props(s: Seq<char>)
    ensures
        trim_front(s).len() <= s.len(),
        trim_front(s).len() > 0 ==> !is_space(trim_front(s)[0]),
        forall|i: int|
            0 <= i < trim_front(s).len() ==> trim_front(s)[i] == s[s.len() - trim_front(s).len()
                + i],
    decreases s.len(),
{
    if s.len() > 0 && is_space(s[0]) {
        lemma_trim_front_props(s.skip(1));
    }
}

pub proof fn lemma_trim_back_props(s: Seq<char>)
    ensures
        trim_back(s).len() <= s.len(),
        trim_back(s).len() > 0 ==> !is_space(trim_back(s)[trim_back(s).len() - 1]),
        forall|i: int| 0 <= i < trim_back(s).len() ==> trim_back(s)[i] == s[i],
    decreases s.len(),
{
    if s.len() > 0 && is_space(s[s.len() - 1]) {
        lemma_trim_back_props(s.take(s.len() - 1));
        assert forall|i: int| 0 <= i < trim_back(s).len() implies trim_back(s)[i] == s[i] by {
            assert(trim_back(s)[i] == s.take(s.len() - 1)[i]);
        }
    }
}

/// The trimmed sequence keeps only characters of the original, so a sequence
/// without a given character stays without it, and its ends are not
/// whitespace.
pub proof fn lemma_trim_props(s: Seq<char>, c: char)
    requires
        forall|i: int| 0 <= i < s.len() ==> s[i] != c,
    ensures
        trim(s).len() <= s.len(),
        trim(s).len() > 0 ==> !is_space(trim(s)[0]) && !is_space(trim(s)[trim(s).len() - 1]),
        forall|i: int| 0 <= i < trim(s).len() ==> trim(s)[i] != c,
{
    lemma_trim_front_props(s);
    lemma_trim_back_props(trim_front(s));
    let f = trim_front(s);
    let t = trim(s);
    if t.len() > 0 {
        assert(t[0] == f[0]);
    }
    assert forall|i: int| 0 <= i < t.len() implies t[i] != c by {
        assert(t[i] == f[i]);
        assert(f[i] == s[s.len() - f.len() + i]);
    }
}

/// A sequence with no whitespace at either end trims to itself.
pub proof fn lemma_trim_clean(s: Seq<char>)
    requires
        s.len() > 0 ==> !is_space(s[0]) && !is_space(s[s.len() - 1]),
    ensures
        trim(s) == s,
{
}

/// Builds the vector of characters of a string slice.
pub fn chars_of(s: &str) -> (r: Vec<char>)
    ensures
        r@ == s@,
{
    let n = s.unicode_len();
    let mut r: Vec<char> = Vec::new();
    let mut i: usize = 0;
    while i < n
        invariant
            i <= n,
            n == s@.len(),
            r@ == s@.take(i as int),
        decreases n - i,
    {
        r.push(s.get_char(i));
        proof {
            assert(r@ =~= s@.take(i + 1));
        }
        i += 1;
    }
    proof {
        assert(r@ =~= s@);
    }
    r
}

/// Case folding, executable form.
pub fn upper_char_exec(c: char) -> (r: char)
    ensures
        r == upper_char(c),
{
    let u: u32 = c as u32;
    if 97 <= u && u <= 122 {
        (((u - 32) as u8) as char)
    } else {
        c
    }
}

/// Whether the case-folded token equals the given (already uppercase) name.
pub fn upper_token_is(tok: &Vec<char>, name: &str) -> (r: bool)
    ensures
        r == (upper_seq(tok@) == name@),
{
    let n = name.unicode_len();
    if tok.len() != n {
        proof {
            assert(upper_seq(tok@).len() == tok@.len());
        }
        return false;
    }
    let mut i: usize = 0;
    while i < n
        invariant
            i <= n,
            n == name@.len(),
            tok@.len() == n,
            forall|k: int| 0 <= k < i ==> upper_char(tok@[k]) == name@[k],
        decreases n - i,
    {
        let c = upper_char_exec(tok[i]);
        let d = name.get_char(i);
        if c as u32 != d as u32 {
            proof {
                assert(upper_seq(tok@)[i as int] != name@[i as int]);
            }
            return false;
        }
        i += 1;
    }
    proof {
        assert(upper_seq(tok@) =~= name@);
    }
    true
}

/// Trims whitespace from both ends of a character vector.
pub fn trim_exec(v: &Vec<char>) -> (r: Vec<char>)
    ensures
        r@ == trim(v@),
{
    let mut i: usize = 0;
    proof {
        assert(v@.skip(0) =~= v@);
    }
    while i < v.len() && is_space_exec(v[i])
        invariant
            i <= v.len(),
            trim_front(v@) == trim_front(v@.skip(i as int)),
        decreases v.len() - i,
    {
        proof {
            assert(v@.skip(i as int).skip(1) =~= v@.skip(i + 1));
        }
        i += 1;
    }
    proof {
        assert(trim_front(v@) == v@.skip(i as int));
    }
    let mut j: usize = v.len();
    while j > i && is_space_exec(v[j - 1])
        invariant
            i <= j <= v.len(),
            trim_front(v@) == v@.skip(i as int),
            trim_back(v@.skip(i as int)) == trim_back(v@.subrange(i as int, j as int)),
        decreases j,
    {
        proof {
            let sub = v@.subrange(i as int, j as int);
            assert(sub[sub.len() - 1] == v@[j - 1]);
            assert(sub.take(sub.len() - 1) =~= v@.subrange(i as int, j - 1));
        }
        j -= 1;
    }
    proof {
        let sub = v@.subrange(i as int, j as int);
        if j > i {
            assert(sub[sub.len() - 1] == v@[j - 1]);
        }
        assert(trim_back(sub) == sub);
    }
    let mut r: Vec<char> = Vec::new();
    let mut k: usize = i;
    while k < j
        invariant
            i <= k <= j <= v.len(),
            r@ == v@.subrange(i as int, k as int),
        decreases j - k,
    {
        r.push(v[k]);
        proof {
            assert(r@ =~= v@.subrange(i as int, k + 1));
        }
        k += 1;
    }
    r
}

/// Relies on String::push: appends exactly the one given character.
#[verifier::external_body]
pub fn push_char(s: &mut String, c: char)
    ensures
        final(s)@ == old(s)@.push(c),
{
    s.push(c);
}

/// Whitespace test, executable form.
pub fn is_space_exec(c: char) -> (r: bool)
    ensures
        r == is_space(c),
{
    c == ' ' || c == '\t' || c == '\n' || c == '\r' || c == '\u{b}' || c == '\u{c}'
}

/// Splits the characters from position `from` on into `+`-delimited parts.
fn split_from(v: &Vec<char>, from: usize) -> (r: Vec<Vec<char>>)
    requires
        from <= v@.len(),
    ensures
        views_of(r@) == split_plus(v@.skip(from as int)),
    decreases v@.len() - from,
{
    let mut j = from;
    while j < v.len() && v[j] != '+'
        invariant
            from <= j <= v@.len(),
            forall|k: int| from <= k < j ==> v@[k] != '+',
        decreases v@.len() - j,
    {
        j += 1;
    }
    let mut part: Vec<char> = Vec::new();
    let mut i = from;
    while i < j
        invariant
            from <= i <= j <= v@.len(),
            part@ == v@.subrange(from as int, i as int),
        decreases j - i,
    {
        part.push(v[i]);
        proof {
            assert(part@ =~= v@.subrange(from as int, i + 1));
        }
        i += 1;
    }
    if j == v.len() {
        proof {
            assert(part@ =~= v@.skip(from as int));
            lemma_split_no_plus(v@.skip(from as int));
        }
        let mut r: Vec<Vec<char>> = Vec::new();
        r.push(part);
        proof {
            assert(views_of(r@) =~= split_plus(v@.skip(from as int)));
        }
        r
    } else {
        let mut r = split_from(v, j + 1);
        proof {
            lemma_split_prefix(v@.subrange(from as int, j as int), v@.skip(j + 1));
            assert(v@.skip(from as int) =~= v@.subrange(from as int, j as int) + seq!['+']
                + v@.skip(j + 1));
        }
        let ghost old_r = r@;
        r.insert(0, part);
        proof {
            assert(views_of(r@) =~= seq![part@] + views_of(old_r));
            assert(views_of(r@) =~= split_plus(v@.skip(from as int)));
        }
        r
    }
}

/// Splits a whole character vector into `+`-delimited parts.
pub fn split_plus_exec(v: &Vec<char>) -> (r: Vec<Vec<char>>)
    ensures
        views_of(r@) == split_plus(v@),
{
    let r = split_from(v, 0);
    proof {
        assert(v@.skip(0) =~= v@);
    }
    r
}

} // verus!
