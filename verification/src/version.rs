//! Semantic versions as the application uses them: parsed by the `semver`
//! crate, held here as plain values, and written back out as text.

use vstd::prelude::*;
use vstd::string::StrSliceExecFns;
use vstd::string::StringExecFns;

verus! {

/// A semantic version: `major.minor.patch`, an optional pre-release part
/// and optional build metadata (each empty when absent).
///
/// Holds the same values as `semver::Version`, with the pre-release and
/// build parts as their text.
pub struct Version {
    pub major: u64,
    pub minor: u64,
    pub patch: u64,
    pub pre: String,
    pub build: String,
}

/// The plain values of a version: major, minor, patch, pre-release text and
/// build metadata text.
pub type VersionParts = (u64, u64, u64, Seq<char>, Seq<char>);

impl Version {
    /// The plain values of this version.
    pub open spec fn parts(&self) -> VersionParts {
        (self.major, self.minor, self.patch, self.pre@, self.build@)
    }

    /// This version holds what a `semver::Version` can hold: its pre-release
    /// part and build metadata are valid (see [`spec_wf_parts`]).
    pub open spec fn wf(&self) -> bool {
        spec_wf_parts(self.parts())
    }
}

/// An ASCII decimal digit.
pub open spec fn is_ascii_digit(c: char) -> bool {
    '0' <= c && c <= '9'
}

/// A character that may stand in an identifier of a pre-release part or of
/// build metadata: an ASCII letter or digit, or `-`.
pub open spec fn is_identifier_char(c: char) -> bool {
    ('A' <= c && c <= 'Z') || ('a' <= c && c <= 'z') || is_ascii_digit(c) || c == '-'
}

/// `s` is empty, or a `.`-separated list of non-empty identifiers made of
/// ASCII letters, digits and `-`.
pub open spec fn spec_dotted_identifiers(s: Seq<char>) -> bool {
    s.len() == 0 || {
        &&& forall|i: int| 0 <= i < s.len() ==> is_identifier_char(#[trigger] s[i]) || s[i] == '.'
        &&& s[0] != '.'
        &&& s[s.len() - 1] != '.'
        &&& forall|i: int| 0 <= i < s.len() - 1 && #[trigger] s[i] == '.' ==> s[i + 1] != '.'
    }
}

/// No identifier of `s` is a number of more than one digit that starts with
/// `0`: an identifier that starts with `0` and a further digit holds a
/// character other than a digit before its end.
pub open spec fn spec_no_leading_zero(s: Seq<char>) -> bool {
    forall|i: int|
        #![trigger s[i]]
        0 <= i < s.len() - 1 && (i == 0 || s[i - 1] == '.') && s[i] == '0' && is_ascii_digit(s[i + 1])
            ==> exists|j: int|
            #![trigger s[j]]
            i < j < s.len() && !is_ascii_digit(s[j]) && s[j] != '.' && forall|m: int|
                i < m < j ==> #[trigger] s[m] != '.'
}

/// The parts of a valid semantic version: a valid pre-release part (dotted
/// identifiers, none a number with a leading zero) and valid build metadata
/// (dotted identifiers).
pub open spec fn spec_wf_parts(v: VersionParts) -> bool {
    &&& spec_dotted_identifiers(v.3)
    &&& spec_no_leading_zero(v.3)
    &&& spec_dotted_identifiers(v.4)
}

/// The text was no valid semantic version.
#[derive(Debug, Clone, Copy)]
pub enum VersionError {
    Invalid,
}

/// `text` is the text of a valid version (see [`spec_wf_parts`]).
pub open spec fn spec_is_version_text(text: Seq<char>) -> bool {
    exists|p: VersionParts| spec_wf_parts(p) && #[trigger] spec_version_text(p) == text
}

#[verifier::external_type_specification]
#[verifier::external_body]
pub struct ExSemverError(semver::Error);

/// Calls `semver::Version::parse`. Trusted: it accepts exactly the texts of
/// valid versions, and gives back the version that the text writes. That is
/// how the crate's `FromStr` impl reads a text: three decimal numbers without
/// leading zeros (and without overflow of a `u64`) separated by `.`, then
/// optionally `-` and a pre-release part, then optionally `+` and build
/// metadata, nothing after them; the pre-release and build parts are what its
/// `identifier` scanner accepts (non-empty dotted identifiers of ASCII
/// letters, digits and `-`, no all-digit pre-release identifier of more than
/// one digit starting with `0`), kept as they stand.
#[verifier::external_body]
fn semver_version_parse(text: &str) -> (r: Result<Version, semver::Error>)
    ensures
        match r {
            Ok(v) => v.wf() && spec_version_text(v.parts()) == text@,
            Err(_) => !spec_is_version_text(text@),
        },
{
    match semver::Version::parse(text) {
        Ok(v) => Ok(
            Version {
                major: v.major,
                minor: v.minor,
                patch: v.patch,
                pre: v.pre.as_str().to_string(),
                build: v.build.as_str().to_string(),
            },
        ),
        Err(e) => Err(e),
    }
}

/// The character of the decimal digit `d`.
pub open spec fn digit_char(d: nat) -> char {
    ((48 + d) as u8) as char
}

/// The decimal text of `n`, without leading zeros.
pub open spec fn spec_decimal(n: nat) -> Seq<char>
    decreases n,
{
    if n < 10 {
        seq![digit_char(n)]
    } else {
        spec_decimal(n / 10).push(digit_char(n % 10))
    }
}

/// The text of a version: `major.minor.patch`, then `-pre` where the
/// pre-release part is not empty, then `+build` where the build metadata is
/// not empty.
pub open spec fn spec_version_text(v: VersionParts) -> Seq<char> {
    spec_decimal(v.0 as nat) + seq!['.'] + spec_decimal(v.1 as nat) + seq!['.'] + spec_decimal(
        v.2 as nat,
    ) + (if v.3.len() > 0 {
        seq!['-'] + v.3
    } else {
        Seq::empty()
    }) + (if v.4.len() > 0 {
        seq!['+'] + v.4
    } else {
        Seq::empty()
    })
}

/// Appends the decimal text of `n` to `out`.
fn push_decimal(out: &mut String, n: u64)
    ensures
        final(out)@ == old(out)@ + spec_decimal(n as nat),
    decreases n,
{
    if n >= 10 {
        push_decimal(out, n / 10);
    }
    let d: usize = (n % 10) as usize;
    let digits = "0123456789";
    proof {
        reveal_strlit("0123456789");
    }
    let digit = digits.substring_char(d, d + 1);
    assert(digit@ =~= seq![digit_char(d as nat)]);
    out.append(digit);
    assert(n >= 10 ==> spec_decimal(n as nat) == spec_decimal((n / 10) as nat).push(
        digit_char((n % 10) as nat),
    ));
    assert(final(out)@ =~= old(out)@ + spec_decimal(n as nat));
}

impl Version {
    /// Parses `text` as a semantic version, as `semver::Version::parse` does.
    pub fn parse(text: &str) -> (r: Result<Version, VersionError>)
        ensures
            match r {
                Ok(v) => v.wf() && spec_version_text(v.parts()) == text@,
                Err(_) => !spec_is_version_text(text@),
            },
            forall|p: VersionParts|
                spec_wf_parts(p) && #[trigger] spec_version_text(p) == text@ ==> (r matches Ok(v)
                    && v.parts() == p),
            text@.len() == 0 ==> r is Err,
    {
        let r = match semver_version_parse(text) {
            Ok(v) => Ok(v),
            Err(_) => Err(VersionError::Invalid),
        };
        proof {
            assert forall|p: VersionParts|
                spec_wf_parts(p) && #[trigger] spec_version_text(p) == text@ implies (r matches Ok(
                v,
            ) && v.parts() == p) by {
                if let Ok(v) = r {
                    lemma_version_text_injective(v.parts(), p);
                }
            }
            if text@.len() == 0 && r is Ok {
                lemma_version_text_nonempty(r->Ok_0.parts());
            }
        }
        r
    }

    /// The text of this version, as `semver::Version` displays it.
    pub fn to_string(&self) -> (r: String)
        ensures
            r@ == spec_version_text(self.parts()),
    {
        proof {
            reveal_strlit(".");
            reveal_strlit("-");
            reveal_strlit("+");
        }
        let mut out = String::new();
        push_decimal(&mut out, self.major);
        out.append(".");
        push_decimal(&mut out, self.minor);
        out.append(".");
        push_decimal(&mut out, self.patch);
        if self.pre.unicode_len() > 0 {
            out.append("-");
            out.append(self.pre.as_str());
        }
        if self.build.unicode_len() > 0 {
            out.append("+");
            out.append(self.build.as_str());
        }
        assert(out@ =~= spec_version_text(self.parts()));
        out
    }
}

/// Every character of the decimal text of `n` is a digit, and there is at
/// least one.
proof fn lemma_decimal_digits(n: nat)
    ensures
        spec_decimal(n).len() >= 1,
        forall|i: int| 0 <= i < spec_decimal(n).len() ==> is_ascii_digit(#[trigger] spec_decimal(n)[i]),
    decreases n,
{
    if n >= 10 {
        lemma_decimal_digits(n / 10);
    }
}

/// Different numbers have different decimal texts.
proof fn lemma_decimal_injective(m: nat, n: nat)
    requires
        spec_decimal(m) == spec_decimal(n),
    ensures
        m == n,
    decreases m,
{
    lemma_decimal_digits(m / 10);
    lemma_decimal_digits(n / 10);
    let a = spec_decimal(m);
    let b = spec_decimal(n);
    if m < 10 && n < 10 {
        assert(a[0] == b[0]);
        assert(a[0] == digit_char(m));
        assert(b[0] == digit_char(n));
        assert(digit_char(m) == digit_char(n));
        assert(digit_char(m) as int == 48 + m);
        assert(digit_char(n) as int == 48 + n);
        assert(m == n);
    } else if m < 10 {
        assert(b.len() >= 2);
        assert(a.len() == 1);
    } else if n < 10 {
        assert(a.len() >= 2);
        assert(b.len() == 1);
    } else {
        assert(a.last() == b.last());
        assert(a.last() == digit_char(m % 10));
        assert(b.last() == digit_char(n % 10));
        assert(digit_char(m % 10) as int == 48 + m % 10);
        assert(digit_char(n % 10) as int == 48 + n % 10);
        assert(spec_decimal(m / 10) =~= a.drop_last());
        assert(spec_decimal(n / 10) =~= b.drop_last());
        lemma_decimal_injective(m / 10, n / 10);
        assert(m == 10 * (m / 10) + m % 10);
        assert(n == 10 * (n / 10) + n % 10);
        assert(m % 10 == n % 10);
        assert(m == n);
    }
}

/// Where `x` and `x2` hold only characters that satisfy `inside`, and `y` and
/// `y2` are empty or start with one that does not, `x + y == x2 + y2` splits
/// in one way only.
proof fn lemma_split_unique(
    inside: spec_fn(char) -> bool,
    x: Seq<char>,
    y: Seq<char>,
    x2: Seq<char>,
    y2: Seq<char>,
)
    requires
        forall|i: int| 0 <= i < x.len() ==> inside(#[trigger] x[i]),
        forall|i: int| 0 <= i < x2.len() ==> inside(#[trigger] x2[i]),
        y.len() == 0 || !inside(y[0]),
        y2.len() == 0 || !inside(y2[0]),
        x + y == x2 + y2,
    ensures
        x == x2,
        y == y2,
{
    let t = x + y;
    if x.len() < x2.len() {
        assert(t[x.len() as int] == x2[x.len() as int]);
        assert(y.len() > 0 ==> t[x.len() as int] == y[0]);
        assert(false);
    } else if x2.len() < x.len() {
        assert(t[x2.len() as int] == x[x2.len() as int]);
        assert(y2.len() > 0 ==> (x2 + y2)[x2.len() as int] == y2[0]);
        assert(false);
    }
    assert(x =~= t.subrange(0, x.len() as int));
    assert(x2 =~= (x2 + y2).subrange(0, x2.len() as int));
    assert(y =~= t.subrange(x.len() as int, t.len() as int));
    assert(y2 =~= (x2 + y2).subrange(x2.len() as int, t.len() as int));
}

/// The text that an optional part adds after `marker`: nothing when the part
/// is empty, else the marker and the part.
pub open spec fn spec_marked(marker: char, part: Seq<char>) -> Seq<char> {
    if part.len() > 0 {
        seq![marker] + part
    } else {
        Seq::empty()
    }
}

/// The text of a version: its numbers, then its marked optional parts.
proof fn lemma_version_text_shape(p: VersionParts)
    ensures
        spec_version_text(p) == spec_decimal(p.0 as nat) + (seq!['.'] + (spec_decimal(p.1 as nat) + (
        seq!['.'] + (spec_decimal(p.2 as nat) + (spec_marked('-', p.3) + spec_marked('+', p.4)))))),
{
    assert(spec_version_text(p) =~= spec_decimal(p.0 as nat) + (seq!['.'] + (spec_decimal(
        p.1 as nat,
    ) + (seq!['.'] + (spec_decimal(p.2 as nat) + (spec_marked('-', p.3) + spec_marked(
        '+',
        p.4,
    )))))));
}

/// The text of a version is never empty.
proof fn lemma_version_text_nonempty(p: VersionParts)
    ensures
        spec_version_text(p).len() > 0,
{
    lemma_decimal_digits(p.0 as nat);
}

/// Splits the digits of a number off the text that follows it.
proof fn lemma_split_number(n: nat, y: Seq<char>, n2: nat, y2: Seq<char>)
    requires
        y.len() == 0 || !is_ascii_digit(y[0]),
        y2.len() == 0 || !is_ascii_digit(y2[0]),
        spec_decimal(n) + y == spec_decimal(n2) + y2,
    ensures
        n == n2,
        y == y2,
{
    lemma_decimal_digits(n);
    lemma_decimal_digits(n2);
    let digit = |c: char| is_ascii_digit(c);
    lemma_split_unique(digit, spec_decimal(n), y, spec_decimal(n2), y2);
    lemma_decimal_injective(n, n2);
}

/// The marked build metadata of a valid version determines it.
proof fn lemma_marked_build_unique(b: Seq<char>, b2: Seq<char>)
    requires
        spec_marked('+', b) == spec_marked('+', b2),
    ensures
        b == b2,
{
    if b.len() > 0 && b2.len() > 0 {
        assert(b =~= spec_marked('+', b).drop_first());
        assert(b2 =~= spec_marked('+', b2).drop_first());
    } else if b.len() > 0 {
        assert(spec_marked('+', b).len() > 0);
    } else if b2.len() > 0 {
        assert(spec_marked('+', b2).len() > 0);
    }
}

/// The marked optional parts of valid versions determine the parts.
proof fn lemma_marked_parts_unique(p: VersionParts, q: VersionParts)
    requires
        spec_wf_parts(p),
        spec_wf_parts(q),
        spec_marked('-', p.3) + spec_marked('+', p.4) == spec_marked('-', q.3) + spec_marked(
            '+',
            q.4,
        ),
    ensures
        p.3 == q.3,
        p.4 == q.4,
{
    let t = spec_marked('-', p.3) + spec_marked('+', p.4);
    let t2 = spec_marked('-', q.3) + spec_marked('+', q.4);
    if p.3.len() > 0 && q.3.len() > 0 {
        let not_plus = |c: char| c != '+';
        assert(p.3 + spec_marked('+', p.4) =~= t.drop_first());
        assert(q.3 + spec_marked('+', q.4) =~= t2.drop_first());
        assert(forall|i: int| 0 <= i < p.3.len() ==> not_plus(#[trigger] p.3[i]));
        assert(forall|i: int| 0 <= i < q.3.len() ==> not_plus(#[trigger] q.3[i]));
        lemma_split_unique(not_plus, p.3, spec_marked('+', p.4), q.3, spec_marked('+', q.4));
        lemma_marked_build_unique(p.4, q.4);
    } else if p.3.len() > 0 {
        assert(t[0] == '-');
        assert(t2 == spec_marked('+', q.4));
        assert(false);
    } else if q.3.len() > 0 {
        assert(t2[0] == '-');
        assert(t == spec_marked('+', p.4));
        assert(false);
    } else {
        assert(t =~= spec_marked('+', p.4));
        assert(t2 =~= spec_marked('+', q.4));
        lemma_marked_build_unique(p.4, q.4);
    }
}

/// Valid versions with the same text are the same version: the text of a
/// version determines its numbers, pre-release part and build metadata.
pub proof fn lemma_version_text_injective(p: VersionParts, q: VersionParts)
    requires
        spec_wf_parts(p),
        spec_wf_parts(q),
        spec_version_text(p) == spec_version_text(q),
    ensures
        p == q,
{
    lemma_version_text_shape(p);
    lemma_version_text_shape(q);
    let tail_p = spec_marked('-', p.3) + spec_marked('+', p.4);
    let tail_q = spec_marked('-', q.3) + spec_marked('+', q.4);
    lemma_decimal_digits(p.1 as nat);
    lemma_decimal_digits(q.1 as nat);
    lemma_decimal_digits(p.2 as nat);
    lemma_decimal_digits(q.2 as nat);
    let rest1_p = seq!['.'] + (spec_decimal(p.1 as nat) + (seq!['.'] + (spec_decimal(p.2 as nat)
        + tail_p)));
    let rest1_q = seq!['.'] + (spec_decimal(q.1 as nat) + (seq!['.'] + (spec_decimal(q.2 as nat)
        + tail_q)));
    assert(rest1_p[0] == '.');
    assert(rest1_q[0] == '.');
    lemma_split_number(p.0 as nat, rest1_p, q.0 as nat, rest1_q);
    let rest2_p = seq!['.'] + (spec_decimal(p.2 as nat) + tail_p);
    let rest2_q = seq!['.'] + (spec_decimal(q.2 as nat) + tail_q);
    assert(rest1_p.drop_first() =~= spec_decimal(p.1 as nat) + rest2_p);
    assert(rest1_q.drop_first() =~= spec_decimal(q.1 as nat) + rest2_q);
    assert(rest2_p[0] == '.');
    assert(rest2_q[0] == '.');
    lemma_split_number(p.1 as nat, rest2_p, q.1 as nat, rest2_q);
    assert(rest2_p.drop_first() =~= spec_decimal(p.2 as nat) + tail_p);
    assert(rest2_q.drop_first() =~= spec_decimal(q.2 as nat) + tail_q);
    assert(tail_p.len() > 0 ==> tail_p[0] == '-' || tail_p[0] == '+');
    assert(tail_q.len() > 0 ==> tail_q[0] == '-' || tail_q[0] == '+');
    lemma_split_number(p.2 as nat, tail_p, q.2 as nat, tail_q);
    lemma_marked_parts_unique(p, q);
}

/// The number that a text of decimal digits writes, read in base 10.
pub open spec fn spec_digits_value(s: Seq<char>) -> int
    decreases s.len(),
{
    if s.len() == 0 {
        0
    } else {
        spec_digits_value(s.drop_last()) * 10 + (s.last() as int - 48)
    }
}

/// The decimal text of `n` is plain base 10: it is made of digits only, it
/// reads back as `n`, and it has no leading zero (`0` itself is written `0`).
pub proof fn lemma_decimal_value(n: nat)
    ensures
        spec_decimal(n).len() >= 1,
        forall|i: int|
            0 <= i < spec_decimal(n).len() ==> is_ascii_digit(#[trigger] spec_decimal(n)[i]),
        spec_digits_value(spec_decimal(n)) == n,
        n > 0 ==> spec_decimal(n)[0] != '0',
        n == 0 ==> spec_decimal(n) == seq!['0'],
    decreases n,
{
    lemma_decimal_digits(n);
    let s = spec_decimal(n);
    if n < 10 {
        assert(digit_char(n) as int == 48 + n);
        assert(s.drop_last() =~= Seq::<char>::empty());
        assert(s.last() == digit_char(n));
        assert(spec_digits_value(s.drop_last()) == 0);
        assert(spec_digits_value(s) == spec_digits_value(s.drop_last()) * 10 + (s.last() as int
            - 48));
    } else {
        lemma_decimal_value(n / 10);
        assert(s.drop_last() =~= spec_decimal(n / 10));
        assert(s.last() == digit_char(n % 10));
        assert(digit_char(n % 10) as int == 48 + n % 10);
        assert(n == (n / 10) * 10 + n % 10);
        assert(spec_digits_value(s) == spec_digits_value(s.drop_last()) * 10 + (s.last() as int
            - 48));
        assert(s[0] == spec_decimal(n / 10)[0]);
    }
}

} // verus!
