//! A three-part semantic version, parsed from a `major.minor.patch` string
//! and ordered lexicographically by its numeric parts.

use vstd::prelude::*;

use crate::text::chars_of;
use crate::text::push_char;

verus! {

/// A decimal digit.
pub open spec fn is_digit(c: char) -> bool {
    48 <= c as u32 <= 57
}

pub open spec fn digit_val(c: char) -> int {
    c as u32 - 48
}

pub open spec fn all_digits(s: Seq<char>) -> bool {
    forall|i: int| 0 <= i < s.len() ==> is_digit(#[trigger] s[i])
}

/// The number a digit run denotes, most significant digit first.
pub open spec fn num_of(s: Seq<char>) -> int
    decreases s.len(),
{
    if s.len() == 0 {
        0
    } else {
        num_of(s.take(s.len() - 1)) * 10 + digit_val(s[s.len() - 1])
    }
}

/// The decimal rendering of a non-negative number, without leading zeros.
pub open spec fn dec_seq(n: int) -> Seq<char>
    decreases n,
{
    if n < 10 {
        seq![((48 + n) as char)]
    } else {
        dec_seq(n / 10).push(((48 + n % 10) as char))
    }
}

/// The two dot positions split the string into three non-empty digit runs,
/// each denoting a number that fits the stored width.
pub open spec fn version_split_at(s: Seq<char>, i: int, j: int) -> bool {
    &&& 1 <= i
    &&& i + 2 <= j
    &&& j + 2 <= s.len()
    &&& s[i] == '.'
    &&& s[j] == '.'
    &&& all_digits(s.subrange(0, i))
    &&& all_digits(s.subrange(i + 1, j))
    &&& all_digits(s.subrange(j + 1, s.len() as int))
    &&& num_of(s.subrange(0, i)) <= i32::MAX
    &&& num_of(s.subrange(i + 1, j)) <= i32::MAX
    &&& num_of(s.subrange(j + 1, s.len() as int)) <= i32::MAX
}

/// A well-formed version string: `major.minor.patch`, three digit runs.
pub open spec fn is_version_string(s: Seq<char>) -> bool {
    exists|i: int, j: int| version_split_at(s, i, j)
}

/// The dot positions of a well-formed version string.
pub open spec fn version_dots(s: Seq<char>) -> (int, int) {
    choose|i: int, j: int| version_split_at(s, i, j)
}

pub open spec fn major_of(s: Seq<char>) -> int {
    num_of(s.subrange(0, version_dots(s).0))
}

pub open spec fn minor_of(s: Seq<char>) -> int {
    num_of(s.subrange(version_dots(s).0 + 1, version_dots(s).1))
}

pub open spec fn patch_of(s: Seq<char>) -> int {
    num_of(s.subrange(version_dots(s).1 + 1, s.len() as int))
}

/// The canonical rendering of the three parts.
pub open spec fn version_seq(major: int, minor: int, patch: int) -> Seq<char> {
    dec_seq(major) + seq!['.'] + dec_seq(minor) + seq!['.'] + dec_seq(patch)
}

/// The dot positions of a well-formed version string are unique: everything
/// around them is a digit, and a digit is not a dot.
pub proof fn lemma_version_split_unique(s: Seq<char>, i1: int, j1: int, i2: int, j2: int)
    requires
        version_split_at(s, i1, j1),
        version_split_at(s, i2, j2),
    ensures
        i1 == i2,
        j1 == j2,
{
    if i1 < i2 {
        assert(is_digit(s.subrange(0, i2)[i1]));
    }
    if i2 < i1 {
        assert(is_digit(s.subrange(0, i1)[i2]));
    }
    if j1 < j2 {
        assert(is_digit(s.subrange(i2 + 1, j2)[j1 - i2 - 1]));
    }
    if j2 < j1 {
        assert(is_digit(s.subrange(i1 + 1, j1)[j2 - i1 - 1]));
    }
}

/// A digit run denotes a non-negative number, and every prefix of it denotes
/// at most as much.
pub proof fn lemma_num_of_nonneg(s: Seq<char>)
    requires
        all_digits(s),
    ensures
        num_of(s) >= 0,
    decreases s.len(),
{
    if s.len() > 0 {
        assert(all_digits(s.take(s.len() - 1)));
        lemma_num_of_nonneg(s.take(s.len() - 1));
    }
}

pub proof fn lemma_num_of_prefix(s: Seq<char>, k: int)
    requires
        all_digits(s),
        0 <= k <= s.len(),
    ensures
        0 <= num_of(s.take(k)) <= num_of(s),
    decreases s.len() - k,
{
    assert(all_digits(s.take(k)));
    lemma_num_of_nonneg(s.take(k));
    if k < s.len() {
        lemma_num_of_prefix(s, k + 1);
        assert(s.take(k + 1).take(k) =~= s.take(k));
        assert(num_of(s.take(k + 1)) == num_of(s.take(k)) * 10 + digit_val(s[k]));
    } else {
        assert(s.take(k) =~= s);
    }
}

#[derive(Clone, Debug, Eq)]
pub struct Version {
    pub major: i32,
    pub minor: i32,
    pub patch: i32,
    pub version: String,
}

impl PartialEq for Version {
    fn eq(&self, other: &Self) -> bool {
        self.major == other.major && self.minor == other.minor && self.patch == other.patch
    }
}

impl vstd::std_specs::cmp::PartialEqSpecImpl for Version {
    open spec fn obeys_eq_spec() -> bool {
        true
    }

    open spec fn eq_spec(&self, other: &Version) -> bool {
        self.major == other.major && self.minor == other.minor && self.patch == other.patch
    }
}

/// The lexicographic order on (major, minor, patch).
pub open spec fn version_cmp(a: Version, b: Version) -> core::cmp::Ordering {
    if a.major != b.major {
        if a.major < b.major {
            core::cmp::Ordering::Less
        } else {
            core::cmp::Ordering::Greater
        }
    } else if a.minor != b.minor {
        if a.minor < b.minor {
            core::cmp::Ordering::Less
        } else {
            core::cmp::Ordering::Greater
        }
    } else if a.patch != b.patch {
        if a.patch < b.patch {
            core::cmp::Ordering::Less
        } else {
            core::cmp::Ordering::Greater
        }
    } else {
        core::cmp::Ordering::Equal
    }
}

impl PartialOrd for Version {
    fn partial_cmp(&self, other: &Self) -> Option<core::cmp::Ordering> {
        let ord = if self.major != other.major {
            if self.major < other.major {
                core::cmp::Ordering::Less
            } else {
                core::cmp::Ordering::Greater
            }
        } else if self.minor != other.minor {
            if self.minor < other.minor {
                core::cmp::Ordering::Less
            } else {
                core::cmp::Ordering::Greater
            }
        } else if self.patch != other.patch {
            if self.patch < other.patch {
                core::cmp::Ordering::Less
            } else {
                core::cmp::Ordering::Greater
            }
        } else {
            core::cmp::Ordering::Equal
        };
        Some(ord)
    }
}

impl vstd::std_specs::cmp::PartialOrdSpecImpl for Version {
    open spec fn obeys_partial_cmp_spec() -> bool {
        true
    }

    open spec fn partial_cmp_spec(&self, other: &Version) -> Option<core::cmp::Ordering> {
        Some(version_cmp(*self, *other))
    }
}

/// Parses the digit run `v[from..to]`.
fn parse_number(v: &Vec<char>, from: usize, to: usize) -> (r: i32)
    requires
        from <= to <= v@.len(),
        all_digits(v@.subrange(from as int, to as int)),
        num_of(v@.subrange(from as int, to as int)) <= i32::MAX,
    ensures
        r == num_of(v@.subrange(from as int, to as int)),
        r >= 0,
{
    let ghost run = v@.subrange(from as int, to as int);
    proof {
        lemma_num_of_nonneg(run);
    }
    let mut acc: i32 = 0;
    let mut i: usize = from;
    while i < to
        invariant
            from <= i <= to <= v@.len(),
            run == v@.subrange(from as int, to as int),
            all_digits(run),
            num_of(run) <= i32::MAX,
            acc == num_of(run.take(i - from)),
            acc >= 0,
        decreases to - i,
    {
        let c = v[i];
        proof {
            assert(run[i - from] == v@[i as int]);
            assert(is_digit(c));
            lemma_num_of_prefix(run, i + 1 - from);
            assert(run.take(i + 1 - from).take(i - from) =~= run.take(i - from));
            assert(num_of(run.take(i + 1 - from)) == num_of(run.take(i - from)) * 10 + digit_val(
                run[i - from],
            ));
        }
        let d: i32 = ((c as u32) - 48) as i32;
        acc = acc * 10 + d;
        i += 1;
    }
    proof {
        assert(run.take(to - from) =~= run);
    }
    acc
}

/// Appends the decimal rendering of a non-negative number.
fn push_decimal(out: &mut String, n: i32)
    requires
        n >= 0,
    ensures
        final(out)@ == old(out)@ + dec_seq(n as int),
    decreases n,
{
    if n < 10 {
        push_char(out, (((48 + n) as u8) as char));
    } else {
        push_decimal(out, n / 10);
        push_char(out, (((48 + n % 10) as u8) as char));
        proof {
            assert(old(out)@ + dec_seq((n / 10) as int).push(((48 + n % 10) as char)) =~= (old(
                out,
            )@ + dec_seq((n / 10) as int)).push(((48 + n % 10) as char)));
        }
    }
}

/// Builds the canonical `major.minor.patch` string.
fn render_version(major: i32, minor: i32, patch: i32) -> (r: String)
    requires
        major >= 0,
        minor >= 0,
        patch >= 0,
    ensures
        r@ == version_seq(major as int, minor as int, patch as int),
{
    let mut out = String::new();
    push_decimal(&mut out, major);
    push_char(&mut out, '.');
    push_decimal(&mut out, minor);
    push_char(&mut out, '.');
    push_decimal(&mut out, patch);
    proof {
        assert(out@ =~= version_seq(major as int, minor as int, patch as int));
    }
    out
}

impl Version {
    /// Parses a `major.minor.patch` string; the stored text is the canonical
    /// rendering of the three numbers.
    pub fn new(version: &'static str) -> (r: Self)
        requires
            is_version_string(version@),
        ensures
            r.major == major_of(version@),
            r.minor == minor_of(version@),
            r.patch == patch_of(version@),
            r.version@ == version_seq(major_of(version@), minor_of(version@), patch_of(version@)),
    {
        let chars = chars_of(version);
        let ghost s = version@;
        let n = chars.len();
        let mut i: usize = 0;
        while i < n && chars[i] != '.'
            invariant
                i <= n,
                n == s.len(),
                chars@ == s,
                forall|k: int| 0 <= k < i ==> s[k] != '.',
            decreases n - i,
        {
            i += 1;
        }
        let mut j: usize = i + 1;
        while j < n && chars[j] != '.'
            invariant
                i < j <= n + 1,
                n == s.len(),
                chars@ == s,
                forall|k: int| i < k < j ==> k < n && s[k] != '.',
            decreases n + 1 - j,
        {
            j += 1;
        }
        proof {
            let (si, sj) = version_dots(s);
            assert(version_split_at(s, si, sj));
            // The scans found the first two dots, which are the split's dots.
            if i != si {
                if i < si {
                    assert(i < n);
                    assert(s[i as int] == '.');
                    assert(is_digit(s.subrange(0, si)[i as int]));
                    assert(false);
                } else {
                    assert(s[si] != '.');
                    assert(false);
                }
            }
            if j != sj {
                if j < sj {
                    assert(j < n);
                    assert(s[j as int] == '.');
                    assert(is_digit(s.subrange(si + 1, sj)[j - si - 1]));
                    assert(false);
                } else {
                    assert(s[sj] != '.');
                    assert(false);
                }
            }
        }
        let major = parse_number(&chars, 0, i);
        let minor = parse_number(&chars, i + 1, j);
        let patch = parse_number(&chars, j + 1, n);
        let rendered = render_version(major, minor, patch);
        Version { major, minor, patch, version: rendered }
    }

    /// The version this crate was built as.
    pub fn from_cargo_package() -> (r: Self)
        ensures
            r.major == 0,
            r.minor == 1,
            r.patch == 0,
            r.version@ == "0.1.0"@,
    {
        proof {
            reveal_strlit("0.1.0");
            reveal_with_fuel(num_of, 3);
            reveal_with_fuel(dec_seq, 2);
            assert(all_digits("0.1.0"@.subrange(0, 1)));
            assert(all_digits("0.1.0"@.subrange(2, 3)));
            assert(all_digits("0.1.0"@.subrange(4, 5)));
            assert(num_of("0.1.0"@.subrange(0, 1)) == 0);
            assert(num_of("0.1.0"@.subrange(2, 3)) == 1);
            assert(num_of("0.1.0"@.subrange(4, 5)) == 0);
            assert(version_split_at("0.1.0"@, 1, 3));
            lemma_version_split_unique(
                "0.1.0"@,
                1,
                3,
                version_dots("0.1.0"@).0,
                version_dots("0.1.0"@).1,
            );
            assert(version_seq(0, 1, 0) =~= "0.1.0"@);
        }
        Version::new("0.1.0")
    }

    pub fn get_major(&self) -> (r: i32)
        ensures
            r == self.major,
    {
        self.major
    }

    pub fn get_minor(&self) -> (r: i32)
        ensures
            r == self.minor,
    {
        self.minor
    }

    pub fn get_patch(&self) -> (r: i32)
        ensures
            r == self.patch,
    {
        self.patch
    }

    pub fn get_version(&self) -> (r: &String)
        ensures
            r@ == self.version@,
    {
        &self.version
    }
}

} // verus!
