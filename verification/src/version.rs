//! The version model: parsing, rendering and bumping.

use crate::error::{result_view, ErrorView, TagError};
use crate::numeral::{decimal, decimal_string, lemma_decimal_digits, triple_text};
use crate::trusted::{parse_error_text, parse_semver, semver_parsed, SemverParts};
use vstd::prelude::*;

verus! {

/// The component of a version that a bump increments.
#[derive(Clone, Copy, Debug, PartialEq, Eq, Structural)]
pub enum PartType {
    Major,
    Minor,
    Patch,
}

/// A semantic version as a tag names it.
#[derive(Clone, Debug)]
pub struct Version {
    pub major: u64,
    pub minor: u64,
    pub patch: u64,
    /// The pre-release label, empty when the version has none.
    pub pre: String,
    /// The build metadata, empty when the version has none.
    pub build: String,
    /// Whether the tag's text began with `v`. It affects rendering only.
    pub v_prefix: bool,
}

/// The mathematical content of a [`Version`].
pub struct VersionView {
    pub major: u64,
    pub minor: u64,
    pub patch: u64,
    pub pre: Seq<char>,
    pub build: Seq<char>,
    pub v_prefix: bool,
}

impl View for Version {
    type V = VersionView;

    open spec fn view(&self) -> VersionView {
        VersionView {
            major: self.major,
            minor: self.minor,
            patch: self.patch,
            pre: self.pre@,
            build: self.build@,
            v_prefix: self.v_prefix,
        }
    }
}

impl DeepView for Version {
    type V = VersionView;

    open spec fn deep_view(&self) -> VersionView {
        self@
    }
}

/// A request to bump the latest version.
#[derive(Clone, Copy, Debug)]
pub struct Bump<'a> {
    /// The component to increment.
    pub version_type: PartType,
    /// By how much.
    pub number: u64,
    /// A label to append to the new tag's name after a hyphen; empty for none.
    pub suffix: &'a str,
}

/// `text` behind `mark`, or nothing where `text` is empty.
pub open spec fn marked(mark: char, text: Seq<char>) -> Seq<char> {
    if text.len() == 0 {
        text
    } else {
        seq![mark] + text
    }
}

impl VersionView {
    /// A version without pre-release label or build metadata.
    pub open spec fn is_release(self) -> bool {
        self.pre.len() == 0 && self.build.len() == 0
    }

    /// The version without its `v`: the three numbers, then the pre-release
    /// label behind a hyphen and the build metadata behind a plus sign.
    pub open spec fn bare_text(self) -> Seq<char> {
        triple_text(self.major, self.minor, self.patch) + marked('-', self.pre) + marked(
            '+',
            self.build,
        )
    }

    /// The text of the tag that names this version.
    pub open spec fn text(self) -> Seq<char> {
        if self.v_prefix {
            seq!['v'] + self.bare_text()
        } else {
            self.bare_text()
        }
    }

    /// Whether this version comes before `other`: by the major number, then
    /// the minor, then the patch. Labels and the `v` have no part in it.
    pub open spec fn precedes(self, other: VersionView) -> bool {
        self.major < other.major || (self.major == other.major && (self.minor < other.minor || (
        self.minor == other.minor && self.patch < other.patch)))
    }

    /// Whether `part` can grow by `number` and still fit in 64 bits.
    pub open spec fn can_bump(self, part: PartType, number: u64) -> bool {
        match part {
            PartType::Major => self.major + number <= u64::MAX,
            PartType::Minor => self.minor + number <= u64::MAX,
            PartType::Patch => self.patch + number <= u64::MAX,
        }
    }

    /// The version after `part` has grown by `number`: the parts of lower
    /// significance start again at zero, everything else stays.
    pub open spec fn bumped(self, part: PartType, number: u64) -> VersionView {
        match part {
            PartType::Major => VersionView {
                major: (self.major + number) as u64,
                minor: 0,
                patch: 0,
                ..self
            },
            PartType::Minor => VersionView {
                minor: (self.minor + number) as u64,
                patch: 0,
                ..self
            },
            PartType::Patch => VersionView { patch: (self.patch + number) as u64, ..self },
        }
    }
}

/// The name of the tag that records `version`: always with `v`, the three
/// numbers, and `suffix` behind a hyphen unless it is empty.
pub open spec fn tag_name_text(version: VersionView, suffix: Seq<char>) -> Seq<char> {
    seq!['v'] + triple_text(version.major, version.minor, version.patch) + marked('-', suffix)
}

/// The message of the tag `name` over the commits that `log` lists.
pub open spec fn tag_message_text(name: Seq<char>, log: Seq<char>) -> Seq<char> {
    "Latest release: "@ + name + "\n\n"@ + log
}

/// Whether `text` begins with the letter `v`.
pub open spec fn has_v(text: Seq<char>) -> bool {
    text.len() > 0 && text[0] == 'v'
}

/// `text` without one leading `v`, if it has one.
pub open spec fn without_v(text: Seq<char>) -> Seq<char> {
    if has_v(text) {
        text.subrange(1, text.len() as int)
    } else {
        text
    }
}

/// Removes one leading `v` from a tag's name.
pub fn strip_v(tag: &str) -> (r: &str)
    ensures
        r@ == without_v(tag@),
{
    if !tag.is_empty() && tag.get_char(0) == 'v' {
        let len: usize = tag.unicode_len();
        tag.substring_char(1, len)
    } else {
        tag
    }
}

/// A version's text begins with `v` exactly where the version has the `v`,
/// and without it is the version's bare text.
pub proof fn lemma_text_keeps_v(version: VersionView)
    ensures
        has_v(version.text()) == version.v_prefix,
        without_v(version.text()) == version.bare_text(),
{
    // The bare text begins with a digit, which is no `v`.
    lemma_decimal_digits(version.major as nat);
}

/// The version that `text` names, if it names one: an optional `v`, then a
/// version as `semver_parsed` reads it.
pub open spec fn parsed_version(text: Seq<char>) -> Option<VersionView> {
    match semver_parsed(without_v(text)) {
        Some(parts) => Some(
            VersionView {
                major: parts.0,
                minor: parts.1,
                patch: parts.2,
                pre: parts.3,
                build: parts.4,
                v_prefix: has_v(text),
            },
        ),
        None => None,
    }
}

/// What parsing `text` gives: the version it names, or the text as the one
/// that names none.
pub open spec fn parse_outcome(text: Seq<char>) -> Result<VersionView, ErrorView> {
    match parsed_version(text) {
        Some(v) => Ok(v),
        None => Err(ErrorView::Parse { text }),
    }
}

/// Renders `major.minor.patch`.
fn triple_string(major: u64, minor: u64, patch: u64) -> (r: String)
    ensures
        r@ == triple_text(major, minor, patch),
{
    let mut out = decimal_string(major);
    let minor_text = decimal_string(minor);
    let patch_text = decimal_string(patch);
    proof {
        reveal_strlit(".");
    }
    out.append(".");
    out.append(minor_text.as_str());
    out.append(".");
    out.append(patch_text.as_str());
    out
}

/// Appends `mark` and `text` to `out`, or nothing where `text` is empty.
fn append_marked(out: &mut String, mark: &str, text: &str)
    requires
        mark@.len() == 1,
    ensures
        final(out)@ == old(out)@ + marked(mark@[0], text@),
{
    if !text.is_empty() {
        out.append(mark);
        out.append(text);
    }
}

impl Version {
    /// The version that the tag `tag` names, where `parts` is what the text
    /// behind the tag's `v` holds.
    pub fn from_semver(tag: &str, parts: SemverParts) -> (r: Version)
        ensures
            r@ == (VersionView {
                major: parts.0,
                minor: parts.1,
                patch: parts.2,
                pre: parts.3@,
                build: parts.4@,
                v_prefix: has_v(tag@),
            }),
    {
        Version {
            major: parts.0,
            minor: parts.1,
            patch: parts.2,
            pre: parts.3,
            build: parts.4,
            v_prefix: !tag.is_empty() && tag.get_char(0) == 'v',
        }
    }

    /// Reads a version from a tag's name: an optional leading `v`, then
    /// `major.minor.patch` with an optional pre-release label and build
    /// metadata. Fails exactly where the text behind the `v` is no such
    /// version. The text of a release version parses back to that version.
    pub fn parse(version: &str) -> (r: Result<Version, TagError>)
        ensures
            result_view(r) == parse_outcome(version@),
            forall|v: VersionView|
                v.is_release() && version@ == #[trigger] v.text() ==> (r matches Ok(parsed)
                    && parsed@ == v),
    {
        let r = match parse_semver(strip_v(version)) {
            Ok(parts) => Ok(Version::from_semver(version, parts)),
            Err(e) => Err(
                TagError::Parse { text: version.to_owned(), reason: parse_error_text(&e) },
            ),
        };
        proof {
            assert forall|v: VersionView|
                v.is_release() && version@ == #[trigger] v.text() implies (r matches Ok(parsed)
                && parsed@ == v) by {
                lemma_text_keeps_v(v);
                let parsed = r->Ok_0;
                assert(parsed@.pre =~= v.pre);
                assert(parsed@.build =~= v.build);
            }
        }
        r
    }

    /// Whether this version comes before `other`: by the major number, then
    /// the minor, then the patch. Labels and the `v` have no part in it.
    pub fn precedes(&self, other: &Version) -> (r: bool)
        ensures
            r == self@.precedes(other@),
    {
        if self.major != other.major {
            self.major < other.major
        } else if self.minor != other.minor {
            self.minor < other.minor
        } else {
            self.patch < other.patch
        }
    }

    /// The version after the bump `b`: the requested part grown by
    /// `b.number`, the parts of lower significance at zero, the rest as it
    /// was. `None` exactly where the grown part does not fit in 64 bits.
    pub fn bumped(&self, b: &Bump) -> (r: Option<Version>)
        ensures
            match r {
                Some(next) => self@.can_bump(b.version_type, b.number) && next@ == self@.bumped(
                    b.version_type,
                    b.number,
                ),
                None => !self@.can_bump(b.version_type, b.number),
            },
    {
        let grown = match b.version_type {
            PartType::Major => self.major.checked_add(b.number),
            PartType::Minor => self.minor.checked_add(b.number),
            PartType::Patch => self.patch.checked_add(b.number),
        };
        match grown {
            Some(value) => {
                let (major, minor, patch): (u64, u64, u64) = match b.version_type {
                    PartType::Major => (value, 0, 0),
                    PartType::Minor => (self.major, value, 0),
                    PartType::Patch => (self.major, self.minor, value),
                };
                Some(
                    Version {
                        major,
                        minor,
                        patch,
                        pre: self.pre.clone(),
                        build: self.build.clone(),
                        v_prefix: self.v_prefix,
                    },
                )
            },
            None => None,
        }
    }

    /// The text of the tag that names this version: `v` if the tag had it,
    /// the three numbers, then the pre-release label behind a hyphen and the
    /// build metadata behind a plus sign.
    pub fn to_string(&self) -> (r: String)
        ensures
            r@ == self@.text(),
    {
        let mut out = String::new();
        proof {
            reveal_strlit("v");
            reveal_strlit("-");
            reveal_strlit("+");
        }
        if self.v_prefix {
            out.append("v");
        }
        let triple = triple_string(self.major, self.minor, self.patch);
        out.append(triple.as_str());
        append_marked(&mut out, "-", self.pre.as_str());
        append_marked(&mut out, "+", self.build.as_str());
        out
    }
}

/// The name of the tag that records `version`: `v`, the three numbers, and
/// `suffix` behind a hyphen unless it is empty.
pub fn tag_name(version: &Version, suffix: &str) -> (r: String)
    ensures
        r@ == tag_name_text(version@, suffix@),
{
    proof {
        reveal_strlit("v");
        reveal_strlit("-");
    }
    let mut out = "v".to_owned();
    out.append(triple_string(version.major, version.minor, version.patch).as_str());
    append_marked(&mut out, "-", suffix);
    out
}

/// The message of the tag `name` over the commits that `log` lists: a line
/// that names the release, an empty line, then the log.
pub fn tag_message(name: &str, log: &str) -> (r: String)
    ensures
        r@ == tag_message_text(name@, log@),
{
    let mut out = "Latest release: ".to_owned();
    out.append(name);
    out.append("\n\n");
    out.append(log);
    out
}

} // verus!
