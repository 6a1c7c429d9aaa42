//! Semantic versions: the installed-version marker, tag parsing and the
//! precedence order. Parsing and ordering are delegated to the `semver`
//! crate behind trusted wrappers; everything around them is verified.
use vstd::prelude::*;
use vstd::string::StrSliceExecFns;
use vstd::string::StringExecFns;
use crate::strutil::{is_ascii_digit_char, is_ascii_lower, is_ascii_upper, is_white_space, dec_str,
    lemma_dec_str_digits, trim_spec, lemma_trim_id, trim_ws, u64_to_string, push_char};

verus! {

/// A parsed semantic version. `pre` and `build` hold the pre-release and
/// build-metadata text without their leading `-` / `+`.
pub struct Version {
    pub major: u64,
    pub minor: u64,
    pub patch: u64,
    pub pre: String,
    pub build: String,
}

pub ghost struct VersionV {
    pub major: int,
    pub minor: int,
    pub patch: int,
    pub pre: Seq<char>,
    pub build: Seq<char>,
}

impl View for Version {
    type V = VersionV;

    open spec fn view(&self) -> VersionV {
        VersionV {
            major: self.major as int,
            minor: self.minor as int,
            patch: self.patch as int,
            pre: self.pre@,
            build: self.build@,
        }
    }
}

pub open spec fn is_ident_char(c: char) -> bool {
    is_ascii_digit_char(c) || is_ascii_lower(c) || is_ascii_upper(c) || c == '-'
}

pub open spec fn all_digits(s: Seq<char>) -> bool {
    forall|i: int| 0 <= i < s.len() ==> is_ascii_digit_char(s[i])
}

/// One dot-free identifier: nonempty, alphanumerics and hyphens, and (for
/// pre-release identifiers) no leading zero on an all-digit identifier.
pub open spec fn ident_ok(id: Seq<char>, allow_leading_zero: bool) -> bool {
    id.len() > 0 && (forall|i: int| 0 <= i < id.len() ==> is_ident_char(id[i]))
        && (allow_leading_zero || !(id.len() > 1 && id[0] == '0' && all_digits(id)))
}

/// One or more dot-separated identifiers.
pub open spec fn valid_idents(s: Seq<char>, allow_leading_zero: bool) -> bool
    decreases s.len(),
{
    exists|i: int|
        0 < i <= s.len() && #[trigger] ident_ok(s.take(i), allow_leading_zero) && (i == s.len() || (
        s[i] == '.' && valid_idents(s.skip(i + 1), allow_leading_zero)))
}

/// A valid identifier list begins and ends with an identifier character.
pub proof fn lemma_valid_idents_ends(s: Seq<char>, lz: bool)
    requires
        valid_idents(s, lz),
    ensures
        s.len() > 0,
        is_ident_char(s[0]),
        is_ident_char(s.last()),
    decreases s.len(),
{
    let i = choose|i: int|
        0 < i <= s.len() && #[trigger] ident_ok(s.take(i), lz) && (i == s.len() || (s[i] == '.'
            && valid_idents(s.skip(i + 1), lz)));
    assert(s.take(i)[0] == s[0]);
    if i == s.len() {
        assert(s.take(i).last() == s.last());
    } else {
        lemma_valid_idents_ends(s.skip(i + 1), lz);
        assert(s.skip(i + 1).last() == s.last());
    }
}

/// The version grammar accepted by `semver::Version::parse`: numeric
/// fields that fit in a `u64`, written without leading zeros, and valid
/// identifier lists for the optional pre-release and build parts.
pub open spec fn valid_version(v: VersionV) -> bool {
    &&& 0 <= v.major <= u64::MAX
    &&& 0 <= v.minor <= u64::MAX
    &&& 0 <= v.patch <= u64::MAX
    &&& (v.pre.len() == 0 || valid_idents(v.pre, false))
    &&& (v.build.len() == 0 || valid_idents(v.build, true))
}

/// The canonical rendering `major.minor.patch[-pre][+build]`.
pub open spec fn canonical(v: VersionV) -> Seq<char> {
    dec_str(v.major as nat) + seq!['.'] + dec_str(v.minor as nat) + seq!['.'] + dec_str(
        v.patch as nat,
    ) + (if v.pre.len() > 0 {
        seq!['-'] + v.pre
    } else {
        Seq::<char>::empty()
    }) + (if v.build.len() > 0 {
        seq!['+'] + v.build
    } else {
        Seq::<char>::empty()
    })
}

impl VersionV {
    /// The lowest version, `0.0.0`.
    pub open spec fn zero_spec() -> VersionV {
        VersionV { major: 0, minor: 0, patch: 0, pre: Seq::empty(), build: Seq::empty() }
    }
}

impl Version {
    /// The lowest version, `0.0.0`.
    pub fn zero() -> (r: Version)
        ensures
            r@ == VersionV::zero_spec(),
            valid_version(r@),
    {
        Version { major: 0, minor: 0, patch: 0, pre: String::new(), build: String::new() }
    }
}

/// What `semver::Version::parse` returns on a given string: `None` exactly
/// on text outside the version grammar.
pub uninterp spec fn semver_parse(s: Seq<char>) -> Option<VersionV>;

/// Relies on `semver::Version::parse`: it accepts exactly the semantic
/// version grammar (numeric fields up to `u64::MAX` without leading zeros,
/// dot-separated alphanumeric/hyphen identifiers after `-` and `+`), and
/// returns the parsed fields, so parsing a canonical rendering gives the
/// fields back.
#[verifier::external_body]
fn parse_semver(s: &str) -> (r: Option<Version>)
    ensures
        r is Some <==> semver_parse(s@) is Some,
        r is Some ==> r.unwrap()@ == semver_parse(s@).unwrap() && valid_version(r.unwrap()@),
        forall|v: VersionV|
            valid_version(v) && s@ == #[trigger] canonical(v) ==> r is Some && r.unwrap()@ == v,
{
    match semver::Version::parse(s) {
        Ok(v) => Some(
            Version {
                major: v.major,
                minor: v.minor,
                patch: v.patch,
                pre: v.pre.as_str().to_owned(),
                build: v.build.as_str().to_owned(),
            },
        ),
        Err(_) => None,
    }
}

/// What the pre-release precedence order of `semver::Prerelease` says of
/// two nonempty pre-release strings.
pub uninterp spec fn pre_gt(a: Seq<char>, b: Seq<char>) -> bool;

/// What the ordering of `semver::BuildMetadata` says of two nonempty
/// build-metadata strings.
pub uninterp spec fn build_gt(a: Seq<char>, b: Seq<char>) -> bool;

/// The total order of `semver::Version`: numeric fields first, then
/// pre-release (absence ranks above presence), then build metadata
/// (absence ranks below presence).
pub open spec fn version_gt(a: VersionV, b: VersionV) -> bool {
    if a.major != b.major {
        a.major > b.major
    } else if a.minor != b.minor {
        a.minor > b.minor
    } else if a.patch != b.patch {
        a.patch > b.patch
    } else if a.pre != b.pre {
        if a.pre.len() == 0 {
            true
        } else if b.pre.len() == 0 {
            false
        } else {
            pre_gt(a.pre, b.pre)
        }
    } else if a.build != b.build {
        if a.build.len() == 0 {
            false
        } else if b.build.len() == 0 {
            true
        } else {
            build_gt(a.build, b.build)
        }
    } else {
        false
    }
}

/// Relies on the `Ord` implementation of `semver::Version`: it compares
/// major, minor and patch numerically, then pre-release text (a release
/// outranks any pre-release, distinct texts never compare equal), then
/// build metadata (empty ranks lowest, distinct texts never compare
/// equal).
#[verifier::external_body]
pub(crate) fn version_greater(a: &Version, b: &Version) -> (r: bool)
    requires
        valid_version(a@),
        valid_version(b@),
    ensures
        r == version_gt(a@, b@),
        (a@.major == b@.major && a@.minor == b@.minor && a@.patch == b@.patch && a@.pre != b@.pre
            && a@.pre.len() > 0 && b@.pre.len() > 0) ==> r == pre_gt(a@.pre, b@.pre),
        (a@.major == b@.major && a@.minor == b@.minor && a@.patch == b@.patch && a@.pre == b@.pre
            && a@.build != b@.build && a@.build.len() > 0 && b@.build.len() > 0) ==> r == build_gt(
            a@.build,
            b@.build,
        ),
{
    let av = semver::Version {
        major: a.major,
        minor: a.minor,
        patch: a.patch,
        pre: semver::Prerelease::new(&a.pre).unwrap(),
        build: semver::BuildMetadata::new(&a.build).unwrap(),
    };
    let bv = semver::Version {
        major: b.major,
        minor: b.minor,
        patch: b.patch,
        pre: semver::Prerelease::new(&b.pre).unwrap(),
        build: semver::BuildMetadata::new(&b.build).unwrap(),
    };
    av > bv
}

/// `s` without one leading `v`, if it has one.
pub open spec fn strip_v_spec(s: Seq<char>) -> Seq<char> {
    if s.len() > 0 && s[0] == 'v' {
        s.skip(1)
    } else {
        s
    }
}

/// A release tag parses as a version after an optional leading `v`.
pub open spec fn parse_tag_spec(s: Seq<char>) -> Option<VersionV> {
    semver_parse(strip_v_spec(s))
}

/// The first character of a canonical rendering is a decimal digit.
pub proof fn lemma_canonical_first_digit(v: VersionV)
    ensures
        canonical(v).len() > 0,
        is_ascii_digit_char(canonical(v)[0]),
{
    lemma_dec_str_digits(v.major as nat);
    assert(canonical(v)[0] == dec_str(v.major as nat)[0]);
}

/// The last character of a canonical rendering of a valid version is a
/// digit or an identifier character; in particular it is not whitespace.
pub proof fn lemma_canonical_last(v: VersionV)
    requires
        valid_version(v),
    ensures
        canonical(v).len() > 0,
        is_ident_char(canonical(v).last()),
{
    lemma_dec_str_digits(v.patch as nat);
    if v.build.len() > 0 {
        lemma_valid_idents_ends(v.build, true);
        assert(canonical(v).last() == v.build.last());
    } else if v.pre.len() > 0 {
        lemma_valid_idents_ends(v.pre, false);
        assert(canonical(v).last() == v.pre.last());
    } else {
        assert(canonical(v).last() == dec_str(v.patch as nat).last());
    }
}

/// Parses a release tag: an optional leading `v`, then a semantic
/// version. A canonical rendering of a valid version always parses back
/// to that version.
pub fn parse_tag(tag: &str) -> (r: Option<Version>)
    ensures
        r is Some <==> parse_tag_spec(tag@) is Some,
        r is Some ==> r.unwrap()@ == parse_tag_spec(tag@).unwrap() && valid_version(r.unwrap()@),
        forall|v: VersionV|
            valid_version(v) && tag@ == #[trigger] canonical(v) ==> r is Some && r.unwrap()@ == v,
{
    let len = tag.unicode_len();
    let stripped: &str = if len > 0 && tag.get_char(0) == 'v' {
        tag.substring_char(1, len)
    } else {
        tag
    };
    proof {
        assert(stripped@ =~= strip_v_spec(tag@));
        assert forall|v: VersionV| valid_version(v) && tag@ == #[trigger] canonical(v) implies tag@
            == stripped@ by {
            lemma_canonical_first_digit(v);
        }
    }
    parse_semver(stripped)
}

/// What the installed-version marker denotes: absent or unparsable
/// content is the zero version.
pub open spec fn marker_version_spec(content: Option<Seq<char>>) -> VersionV {
    match content {
        Option::None => VersionV::zero_spec(),
        Option::Some(s) => match parse_tag_spec(trim_spec(s)) {
            Option::None => VersionV::zero_spec(),
            Option::Some(v) => v,
        },
    }
}

pub open spec fn opt_str_view(content: Option<&String>) -> Option<Seq<char>> {
    match content {
        Option::None => Option::None,
        Option::Some(s) => Option::Some(s@),
    }
}

/// Reads the installed-version marker: trims the content and parses it,
/// and returns the zero version when the marker is missing or does not
/// parse. Never fails. Reading back a canonical rendering yields the
/// version that was written.
pub fn read_marker(content: Option<&String>) -> (r: Version)
    ensures
        r@ == marker_version_spec(opt_str_view(content)),
        valid_version(r@),
        forall|v: VersionV|
            valid_version(v) && (content matches Some(s) && s@ == #[trigger] canonical(v)) ==> r@
                == v,
{
    match content {
        None => Version::zero(),
        Some(s) => {
            proof {
                assert forall|v: VersionV|
                    valid_version(v) && s@ == #[trigger] canonical(v) implies trim_spec(s@)
                    == s@ by {
                    lemma_canonical_first_digit(v);
                    lemma_canonical_last(v);
                    assert(!is_white_space(canonical(v)[0]));
                    assert(!is_white_space(canonical(v).last()));
                    lemma_trim_id(s@);
                }
            }
            let t = trim_ws(s.as_str());
            match parse_tag(t) {
                Some(v) => v,
                None => Version::zero(),
            }
        },
    }
}

/// Renders a version in its canonical form.
pub fn version_string(v: &Version) -> (r: String)
    ensures
        r@ == canonical(v@),
{
    let mut s = u64_to_string(v.major);
    push_char(&mut s, '.');
    s.append(u64_to_string(v.minor).as_str());
    push_char(&mut s, '.');
    s.append(u64_to_string(v.patch).as_str());
    if !v.pre.as_str().is_empty() {
        push_char(&mut s, '-');
        s.append(v.pre.as_str());
    }
    if !v.build.as_str().is_empty() {
        push_char(&mut s, '+');
        s.append(v.build.as_str());
    }
    proof {
        assert(s@ =~= canonical(v@));
    }
    s
}

} // verus!
