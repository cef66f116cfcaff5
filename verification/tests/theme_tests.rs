use zim_downloader::decimal::{format_u64, format_u64_padded5};
use zim_downloader::nav::{next_selection, previous_selection, Tab};
use zim_downloader::theme::{
    build_number_string, get_build_number, get_version_string, version_string_with_build, Theme,
    ThemeMode, ThemeName, COPYRIGHT, VERSION,
};

#[test]
fn decimal_rendering() {
    assert_eq!(format_u64(0), "0");
    assert_eq!(format_u64(7), "7");
    assert_eq!(format_u64(12345), "12345");
    assert_eq!(format_u64(u64::MAX), "18446744073709551615");
    assert_eq!(format_u64_padded5(7), "00007");
    assert_eq!(format_u64_padded5(99999), "99999");
}

#[test]
fn build_number_from_epoch_minutes() {
    // 119 seconds is one whole minute.
    assert_eq!(build_number_string(119), "00001");
    assert_eq!(build_number_string(0), "00000");
    // Wraps at one hundred thousand minutes.
    assert_eq!(build_number_string(100000 * 60), "00000");
    assert_eq!(get_build_number().len(), 5);
}

#[test]
fn version_string_carries_build() {
    assert_eq!(VERSION, "1.0.0");
    assert!(COPYRIGHT.starts_with("Copyright"));
    assert_eq!(
        version_string_with_build("00042"),
        "v1.0.0 (build 00042)"
    );
    let v = get_version_string();
    assert!(v.starts_with("v1.0.0 (build "));
    assert!(v.ends_with(')'));
}

#[test]
fn theme_mode_cycles() {
    assert_eq!(ThemeMode::default(), ThemeMode::Dark);
    assert_eq!(ThemeMode::Light.next(), ThemeMode::Dark);
    assert_eq!(ThemeMode::Dark.next(), ThemeMode::System);
    assert_eq!(ThemeMode::System.next(), ThemeMode::Light);
    assert_eq!(ThemeMode::System.as_str(), "System");
}

#[test]
fn theme_names_cycle_both_ways() {
    let all = ThemeName::all();
    assert_eq!(all.len(), 9);
    assert_eq!(all[0], ThemeName::Kinetic);
    for name in all.iter() {
        assert_eq!(name.next().prev(), *name);
    }
    assert_eq!(ThemeName::Nordic.next(), ThemeName::Kinetic);
    assert_eq!(ThemeName::Kinetic.prev(), ThemeName::Nordic);
    assert_eq!(ThemeName::Y2K.as_str(), "Y2K");
    assert_eq!(
        ThemeName::Retro.description(),
        "CRT terminal vibes with scanlines"
    );
}

#[test]
fn theme_palettes_follow_mode() {
    let t = Theme::new(ThemeName::Brutalist, ThemeMode::Dark);
    assert_eq!(t.name, ThemeName::Brutalist);
    assert_eq!(t.mode, ThemeMode::Dark);
    // System renders as dark in a terminal.
    let s = Theme::new(ThemeName::Minimal, ThemeMode::System);
    assert_eq!(s.mode, ThemeMode::Dark);
    let l = Theme::new(ThemeName::Nordic, ThemeMode::Light);
    assert_eq!(l.mode, ThemeMode::Light);
    let d = Theme::default();
    assert_eq!(d.name, ThemeName::Kinetic);
    assert_eq!(d.mode, ThemeMode::Dark);
}

#[test]
fn tabs_cycle_both_ways() {
    assert_eq!(Tab::Browse.next(), Tab::Downloads);
    assert_eq!(Tab::Settings.next(), Tab::Browse);
    assert_eq!(Tab::Browse.previous(), Tab::Settings);
    for t in [Tab::Browse, Tab::Downloads, Tab::History, Tab::Settings] {
        assert_eq!(t.next().previous(), t);
    }
}

#[test]
fn selection_wraps_around() {
    assert_eq!(next_selection(None, 5), 0);
    assert_eq!(next_selection(Some(2), 5), 3);
    assert_eq!(next_selection(Some(4), 5), 0);
    assert_eq!(previous_selection(None, 5), 0);
    assert_eq!(previous_selection(Some(0), 5), 4);
    assert_eq!(previous_selection(Some(3), 5), 2);
}
