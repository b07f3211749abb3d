//! Application identity and build configuration.

use vstd::prelude::*;
use vstd::string::StrSliceExecFns;
use vstd::string::StringExecFns;

use crate::version::{
    is_ascii_digit, lemma_decimal_value, spec_decimal, spec_version_text, spec_wf_parts, Version,
    VersionParts,
};

verus! {

/// The app ID to use.
pub const APP_ID: &'static str = "de.swsnr.umbrella";

/// The glib log domain of our application logs.
pub const G_LOG_DOMAIN: &'static str = "Umbrella";

/// The suffix that marks the app ID of a development/nightly build.
pub const DEVELOPMENT_SUFFIX: &'static str = ".Devel";

/// Whether `suffix` is a suffix of `s`, character by character.
pub open spec fn spec_ends_with(s: Seq<char>, suffix: Seq<char>) -> bool {
    suffix.len() <= s.len() && s.subrange(s.len() - suffix.len(), s.len() as int) == suffix
}

/// Whether the app ID `app_id` denotes a development/nightly build, that is,
/// ends with `.Devel`.
pub open spec fn spec_is_development_id(app_id: Seq<char>) -> bool {
    spec_ends_with(app_id, DEVELOPMENT_SUFFIX@)
}

/// Whether `s` ends with `suffix`.
fn str_ends_with(s: &str, suffix: &str) -> (r: bool)
    ensures
        r == spec_ends_with(s@, suffix@),
{
    let n: usize = s.unicode_len();
    let m: usize = suffix.unicode_len();
    if m > n {
        return false;
    }
    let offset: usize = n - m;
    let mut i: usize = 0;
    while i < m
        invariant
            n == s@.len(),
            m == suffix@.len(),
            m <= n,
            offset == n - m,
            i <= m,
            forall|j: int| 0 <= j < i ==> s@[offset + j] == suffix@[j],
        decreases m - i,
    {
        if s.get_char(offset + i) != suffix.get_char(i) {
            assert(s@.subrange(offset as int, n as int)[i as int] != suffix@[i as int]);
            return false;
        }
        i = i + 1;
    }
    assert(s@.subrange(offset as int, n as int) =~= suffix@);
    true
}

/// Whether this is a development/nightly build.
pub fn is_development() -> (r: bool)
    ensures
        r == spec_is_development_id(APP_ID@),
{
    str_ends_with(APP_ID, DEVELOPMENT_SUFFIX)
}


/// The version to show release notes for.
pub enum ReleaseNotesVersion {
    /// The upcoming release, for development/nightly builds.
    Next,
    /// The release notes of a published version.
    Release(Version),
}

/// The release-notes version of a published version: the same major and
/// minor version, with patch 0 and neither pre-release part nor build
/// metadata.
pub open spec fn spec_release_notes_parts(v: VersionParts) -> VersionParts {
    (v.0, v.1, 0, Seq::empty(), Seq::empty())
}

/// The version to use for release notes.
///
/// For nightly builds (see [`is_development`]) this returns `next`, otherwise
/// it returns `version` (the package version) but with patch set to 0, and
/// all pre and build parts emptied.
///
/// This follows our versioning policy which uses patch releases only for
/// translation updates.
pub fn release_notes_version(version: Version) -> (r: ReleaseNotesVersion)
    ensures
        match r {
            ReleaseNotesVersion::Next => spec_is_development_id(APP_ID@),
            ReleaseNotesVersion::Release(v) => !spec_is_development_id(APP_ID@) && v.parts()
                == spec_release_notes_parts(version.parts()),
        },
        r matches ReleaseNotesVersion::Release(v) ==> v.wf(),
{
    if is_development() {
        ReleaseNotesVersion::Next
    } else {
        let mut version = version;
        version.patch = 0;
        version.pre = String::new();
        version.build = String::new();
        assert(version.pre@ =~= Seq::<char>::empty());
        ReleaseNotesVersion::Release(version)
    }
}

impl ReleaseNotesVersion {
    /// The text of this release-notes version: `next`, or the version's text.
    pub open spec fn spec_text(&self) -> Seq<char> {
        match self {
            ReleaseNotesVersion::Next => seq!['n', 'e', 'x', 't'],
            ReleaseNotesVersion::Release(v) => spec_version_text(v.parts()),
        }
    }

    /// The text of this release-notes version, as the about dialog takes it.
    pub fn to_string(&self) -> (r: String)
        ensures
            r@ == self.spec_text(),
            self matches ReleaseNotesVersion::Release(v) ==> r@ == spec_version_text(v.parts()),
            self is Next ==> r@ == seq!['n', 'e', 'x', 't'],
    {
        match self {
            ReleaseNotesVersion::Next => {
                proof {
                    reveal_strlit("next");
                }
                String::from_str("next")
            },
            ReleaseNotesVersion::Release(v) => v.to_string(),
        }
    }
}


/// The locale directory inside the flatpak sandbox.
pub const FLATPAK_LOCALE_DIRECTORY: &'static str = "/app/share/locale";

/// The system-wide locale directory.
pub const SYSTEM_LOCALE_DIRECTORY: &'static str = "/usr/share/locale";

/// The locale directory to use, given the value of `$UMBRELLA_LOCALE_DIR` (if
/// set) and whether the app runs in flatpak.
///
/// The variable takes precedence; otherwise the flatpak locale directory
/// inside flatpak, and the system-wide one outside.
pub open spec fn spec_locale_directory(env_dir: Option<Seq<char>>, in_flatpak: bool) -> Seq<char> {
    match env_dir {
        Some(dir) => dir,
        None => if in_flatpak {
            FLATPAK_LOCALE_DIRECTORY@
        } else {
            SYSTEM_LOCALE_DIRECTORY@
        },
    }
}

/// Get the locale directory.
///
/// `env_dir` is the value of `$UMBRELLA_LOCALE_DIR` where it is set;
/// `running_in_flatpak` tells whether the app runs in flatpak. Return the
/// directory from the environment if any, else the flatpak locale directory
/// when in flatpak, else the system-wide one.
pub fn locale_directory(env_dir: Option<String>, running_in_flatpak: bool) -> (r: String)
    ensures
        r@ == spec_locale_directory(
            match env_dir {
                Some(d) => Some(d@),
                None => None,
            },
            running_in_flatpak,
        ),
        env_dir matches Some(d) ==> r@ == d@,
        env_dir is None && running_in_flatpak ==> r@ == FLATPAK_LOCALE_DIRECTORY@,
        env_dir is None && !running_in_flatpak ==> r@ == SYSTEM_LOCALE_DIRECTORY@,
{
    match env_dir {
        Some(dir) => dir,
        None => if running_in_flatpak {
            String::from_str(FLATPAK_LOCALE_DIRECTORY)
        } else {
            String::from_str(SYSTEM_LOCALE_DIRECTORY)
        },
    }
}

/// Release notes follow the versioning policy: two package versions with the
/// same major and minor version have the same release notes, whatever their
/// patch level, pre-release part or build metadata.
pub proof fn lemma_release_notes_ignore_patch_level(a: VersionParts, b: VersionParts)
    requires
        a.0 == b.0,
        a.1 == b.1,
    ensures
        spec_release_notes_parts(a) == spec_release_notes_parts(b),
{
}

/// The release-notes version of any version is a valid version.
pub proof fn lemma_release_notes_valid(v: VersionParts)
    ensures
        spec_wf_parts(spec_release_notes_parts(v)),
{
}

/// The release-notes version of a release-notes version is itself: it already
/// has patch 0 and no pre-release part or build metadata.
pub proof fn lemma_release_notes_idempotent(v: VersionParts)
    ensures
        spec_release_notes_parts(spec_release_notes_parts(v)) == spec_release_notes_parts(v),
        spec_release_notes_parts(v).0 == v.0,
        spec_release_notes_parts(v).1 == v.1,
{
}


/// The text of a release-notes version is `major.minor.0`, with neither
/// pre-release part nor build metadata.
pub proof fn lemma_release_notes_text(v: VersionParts)
    ensures
        spec_version_text(spec_release_notes_parts(v)) == spec_decimal(v.0 as nat) + seq!['.']
            + spec_decimal(v.1 as nat) + seq!['.', '0'],
{
    let r = spec_release_notes_parts(v);
    assert(spec_decimal(0) == seq!['0']);
    assert(spec_version_text(r) =~= spec_decimal(v.0 as nat) + seq!['.'] + spec_decimal(
        v.1 as nat,
    ) + seq!['.', '0']);
}

/// `$UMBRELLA_LOCALE_DIR` takes precedence: where it gives a directory, that
/// directory is the locale directory, whatever it is and whether in flatpak or
/// not; without it, the flatpak and the system-wide directory are used, and
/// they differ.
pub proof fn lemma_locale_directory_choice(dir: Seq<char>, in_flatpak: bool)
    ensures
        spec_locale_directory(Some(dir), in_flatpak) == dir,
        spec_locale_directory(None, true) == FLATPAK_LOCALE_DIRECTORY@,
        spec_locale_directory(None, false) == SYSTEM_LOCALE_DIRECTORY@,
        spec_locale_directory(None, true) != spec_locale_directory(None, false),
{
    reveal_strlit("/app/share/locale");
    reveal_strlit("/usr/share/locale");
    assert(FLATPAK_LOCALE_DIRECTORY@[1] != SYSTEM_LOCALE_DIRECTORY@[1]);
}

/// Only `next` is written as `next`: the text of a published release-notes
/// version is the text of its version, which starts with a digit.
pub proof fn lemma_release_notes_version_text(v: Version)
    ensures
        ReleaseNotesVersion::Release(v).spec_text() == spec_version_text(v.parts()),
        is_ascii_digit(ReleaseNotesVersion::Release(v).spec_text()[0]),
        ReleaseNotesVersion::Release(v).spec_text() != ReleaseNotesVersion::Next.spec_text(),
        ReleaseNotesVersion::Next.spec_text() == seq!['n', 'e', 'x', 't'],
{
    lemma_decimal_value(v.major as nat);
    let t = spec_version_text(v.parts());
    assert(t[0] == spec_decimal(v.major as nat)[0]);
    assert(!is_ascii_digit('n'));
    assert(ReleaseNotesVersion::Next.spec_text()[0] == 'n');
}

} // verus!
