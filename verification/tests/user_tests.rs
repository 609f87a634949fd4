use millennium_run::user::{
    centered_position, fits_monitor, select_resolution, Language, Resolution, ScreenMode,
    Settings, Volume,
};

const ALL: [Resolution; 6] = [
    Resolution::W800H600,
    Resolution::W1024H768,
    Resolution::W1152H864,
    Resolution::W1280H960,
    Resolution::W1400H1050,
    Resolution::W1600H1200,
];

fn physical(scale_num: u32, scale_den: u32) -> [(u32, u32); 6] {
    let mut out = [(0, 0); 6];
    for (i, r) in ALL.iter().enumerate() {
        let (w, h) = r.logical_size();
        out[i] = (w * scale_num / scale_den, h * scale_num / scale_den);
    }
    out
}

#[test]
fn downgrade_steps_down_one_resolution() {
    assert_eq!(Resolution::W800H600.downgrade(), None);
    assert_eq!(Resolution::W1024H768.downgrade(), Some(Resolution::W800H600));
    assert_eq!(Resolution::W1152H864.downgrade(), Some(Resolution::W1024H768));
    assert_eq!(Resolution::W1280H960.downgrade(), Some(Resolution::W1152H864));
    assert_eq!(Resolution::W1400H1050.downgrade(), Some(Resolution::W1280H960));
    assert_eq!(Resolution::W1600H1200.downgrade(), Some(Resolution::W1400H1050));
}

#[test]
fn downgrade_shrinks_the_window() {
    for r in ALL {
        if let Some(d) = r.downgrade() {
            let (w, h) = r.logical_size();
            let (dw, dh) = d.logical_size();
            assert!(dw < w && dh < h);
            assert_eq!(d.rank() + 1, r.rank());
        } else {
            assert_eq!(r.rank(), 0);
        }
    }
}

#[test]
fn logical_sizes() {
    assert_eq!(Resolution::W800H600.logical_size(), (800, 600));
    assert_eq!(Resolution::W1024H768.logical_size(), (1024, 768));
    assert_eq!(Resolution::W1152H864.logical_size(), (1152, 864));
    assert_eq!(Resolution::W1280H960.logical_size(), (1280, 960));
    assert_eq!(Resolution::W1400H1050.logical_size(), (1400, 1050));
    assert_eq!(Resolution::W1600H1200.logical_size(), (1600, 1200));
}

#[test]
fn defaults() {
    assert_eq!(Language::default(), Language::Unknown);
    assert_eq!(ScreenMode::default(), ScreenMode::Windowed);
    assert_eq!(Resolution::default(), Resolution::W800H600);
    let s = Settings::default();
    assert_eq!(s.language, Language::Unknown);
    assert_eq!(s.screen_mode, ScreenMode::Windowed);
    assert_eq!(s.resolution, Resolution::W800H600);
    assert_eq!(s.background_volume.level(), 80);
    assert_eq!(s.effect_volume.level(), 70);
    assert_eq!(s.voice_volume.level(), 70);
}

#[test]
fn volume_set_and_read() {
    let mut v = Volume::new(80);
    assert_eq!(v.level(), 80);
    v.set(12);
    assert_eq!(v.level(), 12);
}

#[test]
fn fits_monitor_bounds() {
    assert!(fits_monitor((800, 600), (800, 600)));
    assert!(!fits_monitor((801, 600), (800, 600)));
    assert!(!fits_monitor((800, 601), (800, 600)));
}

#[test]
fn requested_resolution_kept_when_it_fits() {
    let sizes = physical(1, 1);
    assert_eq!(select_resolution(Resolution::W1280H960, &sizes, (1920, 1080)), Some(Resolution::W1280H960));
}

#[test]
fn resolution_downgraded_until_it_fits() {
    let sizes = physical(1, 1);
    // 1600x1200 and 1400x1050 are too tall for 1920x1000.
    assert_eq!(select_resolution(Resolution::W1600H1200, &sizes, (1920, 1000)), Some(Resolution::W1280H960));
    // On a high-density monitor the physical size doubles.
    let sizes = physical(2, 1);
    assert_eq!(select_resolution(Resolution::W1600H1200, &sizes, (2560, 1600)), Some(Resolution::W1024H768));
}

#[test]
fn no_resolution_fits_a_tiny_monitor() {
    let sizes = physical(1, 1);
    assert_eq!(select_resolution(Resolution::W1600H1200, &sizes, (640, 480)), None);
    assert_eq!(select_resolution(Resolution::W800H600, &sizes, (799, 600)), None);
}

#[test]
fn window_centred_on_monitor() {
    assert_eq!(centered_position((0, 0), (1920, 1080), (800, 600)), (560, 240));
    assert_eq!(centered_position((-1920, 100), (1920, 1080), (1024, 768)), (-1920 + 960 - 512, 100 + 540 - 384));
}

#[test]
fn default_settings_bind_the_arrow_keys() {
    let s = Settings::default();
    assert_eq!(s.control, millennium_run::control::Control::default());
    assert_eq!(s.control.up, millennium_run::control::ControlKey::ArrowUp);
    assert_eq!(s.control.right, millennium_run::control::ControlKey::ArrowRight);
}
