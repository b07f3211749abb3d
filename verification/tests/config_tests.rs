use umbrella::config::{
    is_development, locale_directory, release_notes_version, ReleaseNotesVersion, APP_ID,
    G_LOG_DOMAIN,
};
use umbrella::version::Version;

fn version(text: &str) -> Version {
    Version::parse(text).unwrap()
}

#[test]
fn app_id_is_not_a_development_build() {
    assert_eq!(APP_ID, "de.swsnr.umbrella");
    assert_eq!(G_LOG_DOMAIN, "Umbrella");
    assert!(!is_development());
}

#[test]
fn release_notes_version_zeroes_patch_and_drops_pre_and_build() {
    let notes = release_notes_version(version("1.4.7-rc.1+abc.5"));
    match notes {
        ReleaseNotesVersion::Release(ref v) => {
            assert_eq!(v.major, 1);
            assert_eq!(v.minor, 4);
            assert_eq!(v.patch, 0);
            assert_eq!(v.pre, "");
            assert_eq!(v.build, "");
        }
        ReleaseNotesVersion::Next => panic!("release build expected"),
    }
    assert_eq!(notes.to_string(), "1.4.0");
}

#[test]
fn release_notes_version_ignores_patch_level() {
    let a = release_notes_version(version("2.13.0")).to_string();
    let b = release_notes_version(version("2.13.9")).to_string();
    let c = release_notes_version(version("2.13.2-beta.3")).to_string();
    assert_eq!(a, "2.13.0");
    assert_eq!(a, b);
    assert_eq!(a, c);
    assert_ne!(a, release_notes_version(version("2.14.1")).to_string());
}

#[test]
fn release_notes_version_is_idempotent() {
    let once = release_notes_version(version("0.9.12+build"));
    let text = once.to_string();
    let twice = match once {
        ReleaseNotesVersion::Release(v) => release_notes_version(v),
        ReleaseNotesVersion::Next => panic!("release build expected"),
    };
    assert_eq!(text, "0.9.0");
    assert_eq!(twice.to_string(), text);
}

#[test]
fn next_release_notes_text() {
    assert_eq!(ReleaseNotesVersion::Next.to_string(), "next");
}

#[test]
fn locale_directory_prefers_environment() {
    assert_eq!(
        locale_directory(Some("/opt/locale".to_string()), true),
        "/opt/locale"
    );
    assert_eq!(
        locale_directory(Some("/opt/locale".to_string()), false),
        "/opt/locale"
    );
}

#[test]
fn locale_directory_in_flatpak() {
    assert_eq!(locale_directory(None, true), "/app/share/locale");
}

#[test]
fn locale_directory_outside_flatpak() {
    assert_eq!(locale_directory(None, false), "/usr/share/locale");
}
