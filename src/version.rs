use vstd::prelude::*;
use crate::text::str_eq;

verus! {

/// The parts of a semantic version: major, minor, patch, pre-release, build metadata.
pub type SemVerParts = (u64, u64, u64, Seq<char>, Seq<char>);

/// What `semver::Version::parse` makes of a text: `None` where it refuses the
/// text, else the parts of the version it reads.
pub uninterp spec fn semver_parse(text: Seq<char>) -> Option<SemVerParts>;

/// A parsed semantic version, held as plain values.
pub struct SemVer {
    pub major: u64,
    pub minor: u64,
    pub patch: u64,
    pub pre: String,
    pub build: String,
}

impl View for SemVer {
    type V = SemVerParts;

    open spec fn view(&self) -> SemVerParts {
        (self.major, self.minor, self.patch, self.pre@, self.build@)
    }
}

/// Relies on `semver::Version::parse`, and reads the parts of the version it returns.
#[verifier::external_body]
pub(crate) fn parse_semver(text: &str) -> (r: Option<SemVer>)
    ensures
        match r {
            Some(v) => semver_parse(text@) == Some(v@),
            None => semver_parse(text@) is None,
        },
{
    match semver::Version::parse(text) {
        Ok(v) => Some(
            SemVer {
                major: v.major,
                minor: v.minor,
                patch: v.patch,
                pre: v.pre.as_str().to_string(),
                build: v.build.as_str().to_string(),
            },
        ),
        Err(_) => None,
    }
}

/// The decimal digit for `d < 10`.
pub open spec fn digit_char(d: nat) -> char {
    seq!['0', '1', '2', '3', '4', '5', '6', '7', '8', '9'][d as int]
}

/// The decimal notation of `n`, without leading zeros.
pub open spec fn decimal(n: nat) -> Seq<char>
    decreases n,
{
    if n < 10 {
        seq![digit_char(n)]
    } else {
        decimal(n / 10).push(digit_char(n % 10))
    }
}

/// The decimal digit `d < 10` as a text.
fn digit_text(d: u64) -> (r: &'static str)
    requires
        d < 10,
    ensures
        r@ == seq![digit_char(d as nat)],
{
    proof {
        reveal_strlit("0");
        reveal_strlit("1");
        reveal_strlit("2");
        reveal_strlit("3");
        reveal_strlit("4");
        reveal_strlit("5");
        reveal_strlit("6");
        reveal_strlit("7");
        reveal_strlit("8");
        reveal_strlit("9");
    }
    let r = if d == 0 {
        "0"
    } else if d == 1 {
        "1"
    } else if d == 2 {
        "2"
    } else if d == 3 {
        "3"
    } else if d == 4 {
        "4"
    } else if d == 5 {
        "5"
    } else if d == 6 {
        "6"
    } else if d == 7 {
        "7"
    } else if d == 8 {
        "8"
    } else {
        "9"
    };
    assert(r@ =~= seq![digit_char(d as nat)]);
    r
}

/// Writes `n` in decimal notation.
pub fn decimal_text(n: u64) -> (r: String)
    ensures
        r@ == decimal(n as nat),
    decreases n,
{
    if n < 10 {
        String::from_str(digit_text(n))
    } else {
        let mut r = decimal_text(n / 10);
        r.append(digit_text(n % 10));
        assert(r@ =~= decimal((n / 10) as nat).push(digit_char((n % 10) as nat)));
        r
    }
}

/// The canonical text of a version: `major.minor.patch`, then `-pre` and
/// `+build` where those are not empty.
pub open spec fn semver_text(v: SemVerParts) -> Seq<char> {
    let core = decimal(v.0 as nat) + seq!['.'] + decimal(v.1 as nat) + seq!['.'] + decimal(
        v.2 as nat,
    );
    let with_pre = if v.3.len() > 0 {
        core + seq!['-'] + v.3
    } else {
        core
    };
    if v.4.len() > 0 {
        with_pre + seq!['+'] + v.4
    } else {
        with_pre
    }
}

impl SemVer {
    /// The canonical text of this version, as the `semver` crate prints it.
    pub fn to_text(&self) -> (r: String)
        ensures
            r@ == semver_text(self@),
    {
        let mut r = decimal_text(self.major);
        r.append(".");
        let minor = decimal_text(self.minor);
        r.append(minor.as_str());
        r.append(".");
        let patch = decimal_text(self.patch);
        r.append(patch.as_str());
        proof {
            reveal_strlit(".");
            reveal_strlit("-");
            reveal_strlit("+");
        }
        if self.pre.unicode_len() > 0 {
            r.append("-");
            r.append(self.pre.as_str());
        }
        if self.build.unicode_len() > 0 {
            r.append("+");
            r.append(self.build.as_str());
        }
        assert(r@ =~= semver_text(self@));
        r
    }
}

/// Whether two version texts name the same version: by semantic-version
/// equality where both parse, by plain text equality otherwise.
pub open spec fn versions_match(a: Seq<char>, b: Seq<char>) -> bool {
    match (semver_parse(a), semver_parse(b)) {
        (Some(x), Some(y)) => x == y,
        _ => a == b,
    }
}

/// Compares two version texts: semantically where both are semantic
/// versions, else as plain text.
pub fn versions_equal(a: &str, b: &str) -> (r: bool)
    ensures
        r == versions_match(a@, b@),
{
    let pa = parse_semver(a);
    let pb = parse_semver(b);
    match (pa, pb) {
        (Some(x), Some(y)) => {
            let same = x.major == y.major && x.minor == y.minor && x.patch == y.patch && x.pre
                == y.pre && x.build == y.build;
            assert(same == (x@ == y@));
            same
        },
        _ => str_eq(a, b),
    }
}

} // verus!
