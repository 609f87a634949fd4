use vstd::prelude::*;

use crate::control::{Control, ControlKey};

verus! {

/// The application languages.
#[derive(Debug, Clone, Copy, PartialEq, Eq, Structural, Hash)]
pub enum Language {
    Unknown,
    Korean,
}

/// The screen modes of the application window.
#[derive(Debug, Clone, Copy, PartialEq, Eq, Structural, Hash)]
pub enum ScreenMode {
    Windowed,
    FullScreen,
}

/// The resolutions of the application window, smallest first.
#[derive(Debug, Clone, Copy, PartialEq, Eq, Structural, Hash)]
pub enum Resolution {
    W800H600,
    W1024H768,
    W1152H864,
    W1280H960,
    W1400H1050,
    W1600H1200,
}

/// Width and height in logical pixels of a resolution.
pub open spec fn spec_logical_size(r: Resolution) -> (u32, u32) {
    match r {
        Resolution::W800H600 => (800, 600),
        Resolution::W1024H768 => (1024, 768),
        Resolution::W1152H864 => (1152, 864),
        Resolution::W1280H960 => (1280, 960),
        Resolution::W1400H1050 => (1400, 1050),
        Resolution::W1600H1200 => (1600, 1200),
    }
}

/// Position of a resolution in the list of resolutions, smallest first.
pub open spec fn spec_rank(r: Resolution) -> nat {
    match r {
        Resolution::W800H600 => 0,
        Resolution::W1024H768 => 1,
        Resolution::W1152H864 => 2,
        Resolution::W1280H960 => 3,
        Resolution::W1400H1050 => 4,
        Resolution::W1600H1200 => 5,
    }
}

/// The resolution one step smaller, if there is one.
pub open spec fn spec_downgrade(r: Resolution) -> Option<Resolution> {
    match r {
        Resolution::W800H600 => None,
        Resolution::W1024H768 => Some(Resolution::W800H600),
        Resolution::W1152H864 => Some(Resolution::W1024H768),
        Resolution::W1280H960 => Some(Resolution::W1152H864),
        Resolution::W1400H1050 => Some(Resolution::W1280H960),
        Resolution::W1600H1200 => Some(Resolution::W1400H1050),
    }
}

impl Resolution {
    /// The next smaller resolution, or `None` for the smallest one.
    pub fn downgrade(self) -> (res: Option<Self>)
        ensures
            res == spec_downgrade(self),
    {
        match self {
            Self::W800H600 => None,
            Self::W1024H768 => Some(Self::W800H600),
            Self::W1152H864 => Some(Self::W1024H768),
            Self::W1280H960 => Some(Self::W1152H864),
            Self::W1400H1050 => Some(Self::W1280H960),
            Self::W1600H1200 => Some(Self::W1400H1050),
        }
    }
}

impl Resolution {
    /// Width and height in logical pixels.
    pub fn logical_size(self) -> (res: (u32, u32))
        ensures
            res == spec_logical_size(self),
    {
        match self {
            Self::W800H600 => (800, 600),
            Self::W1024H768 => (1024, 768),
            Self::W1152H864 => (1152, 864),
            Self::W1280H960 => (1280, 960),
            Self::W1400H1050 => (1400, 1050),
            Self::W1600H1200 => (1600, 1200),
        }
    }

    /// Position in the list of resolutions, smallest first.
    pub fn rank(self) -> (res: usize)
        ensures
            res == spec_rank(self),
    {
        match self {
            Self::W800H600 => 0,
            Self::W1024H768 => 1,
            Self::W1152H864 => 2,
            Self::W1280H960 => 3,
            Self::W1400H1050 => 4,
            Self::W1600H1200 => 5,
        }
    }
}

/// Downgrading steps to the resolution just below, whose width and height are both smaller;
/// only the smallest resolution has none below it.
pub proof fn lemma_downgrade_shrinks(r: Resolution)
    ensures
        spec_downgrade(r) is None <==> spec_rank(r) == 0,
        spec_downgrade(r) matches Some(s) ==> {
            &&& spec_rank(s) + 1 == spec_rank(r)
            &&& spec_logical_size(s).0 < spec_logical_size(r).0
            &&& spec_logical_size(s).1 < spec_logical_size(r).1
        },
{
}

impl Default for Language {
    fn default() -> (res: Self)
        ensures
            res == Language::Unknown,
    {
        Language::Unknown
    }
}

impl Default for ScreenMode {
    fn default() -> (res: Self)
        ensures
            res == ScreenMode::Windowed,
    {
        ScreenMode::Windowed
    }
}

impl Default for Resolution {
    fn default() -> (res: Self)
        ensures
            res == Resolution::W800H600,
    {
        Resolution::W800H600
    }
}

/// A sound volume level.
#[derive(Debug, Clone, Copy, PartialEq, Eq, Structural, Hash)]
pub struct Volume {
    level: u8,
}

impl Volume {
    pub fn new(level: u8) -> (res: Self)
        ensures
            res.spec_level() == level,
    {
        Volume { level }
    }

    pub closed spec fn spec_level(&self) -> u8 {
        self.level
    }

    /// The volume level.
    pub fn level(&self) -> (res: u8)
        ensures
            res == self.spec_level(),
    {
        self.level
    }

    /// Sets the volume level.
    pub fn set(&mut self, level: u8)
        ensures
            final(self).spec_level() == level,
    {
        self.level = level;
    }
}

/// The application settings.
#[derive(Debug, Clone, Copy, PartialEq, Eq, Structural, Hash)]
pub struct Settings {
    pub control: Control,
    pub language: Language,
    pub screen_mode: ScreenMode,
    pub resolution: Resolution,
    pub background_volume: Volume,
    pub effect_volume: Volume,
    pub voice_volume: Volume,
}

impl Default for Settings {
    fn default() -> (res: Self)
        ensures
            res.control == (Control {
                up: ControlKey::ArrowUp,
                down: ControlKey::ArrowDown,
                left: ControlKey::ArrowLeft,
                right: ControlKey::ArrowRight,
            }),
            res.language == Language::Unknown,
            res.screen_mode == ScreenMode::Windowed,
            res.resolution == Resolution::W800H600,
            res.background_volume.spec_level() == 80,
            res.effect_volume.spec_level() == 70,
            res.voice_volume.spec_level() == 70,
    {
        Settings {
            control: Control::default(),
            language: Language::default(),
            screen_mode: ScreenMode::default(),
            resolution: Resolution::default(),
            background_volume: Volume::new(80),
            effect_volume: Volume::new(70),
            voice_volume: Volume::new(70),
        }
    }
}

/// The resolution at a position of the list of resolutions, smallest first.
pub open spec fn spec_from_rank(n: nat) -> Resolution {
    if n == 0 {
        Resolution::W800H600
    } else if n == 1 {
        Resolution::W1024H768
    } else if n == 2 {
        Resolution::W1152H864
    } else if n == 3 {
        Resolution::W1280H960
    } else if n == 4 {
        Resolution::W1400H1050
    } else {
        Resolution::W1600H1200
    }
}

/// Whether a window of `size` physical pixels fits on a monitor of `monitor` physical pixels.
pub open spec fn spec_fits(size: (u32, u32), monitor: (u32, u32)) -> bool {
    size.0 <= monitor.0 && size.1 <= monitor.1
}

/// Whether resolution `r` fits on the monitor, where `physical[i]` is the size in physical
/// pixels of the resolution of rank `i`.
pub open spec fn spec_resolution_fits(
    r: Resolution,
    physical: Seq<(u32, u32)>,
    monitor: (u32, u32),
) -> bool {
    spec_fits(physical[spec_rank(r) as int], monitor)
}

/// Whether a window of `size` physical pixels fits on a monitor of `monitor` physical pixels.
pub fn fits_monitor(size: (u32, u32), monitor: (u32, u32)) -> (res: bool)
    ensures
        res == spec_fits(size, monitor),
{
    size.0 <= monitor.0 && size.1 <= monitor.1
}

/// Picks the window resolution: `start` if it fits on the monitor, else the next smaller
/// resolution that fits, or `None` if none of `start` and the smaller ones fits.
/// `physical[i]` is the size in physical pixels of the resolution of rank `i`.
pub fn select_resolution(
    start: Resolution,
    physical: &[(u32, u32); 6],
    monitor: (u32, u32),
) -> (res: Option<Resolution>)
    ensures
        res matches Some(r) ==> {
            &&& spec_rank(r) <= spec_rank(start)
            &&& spec_resolution_fits(r, physical@, monitor)
            &&& forall|n: nat|
                spec_rank(r) < n <= spec_rank(start) ==> !spec_resolution_fits(
                    #[trigger] spec_from_rank(n),
                    physical@,
                    monitor,
                )
        },
        res is None ==> forall|n: nat|
            n <= spec_rank(start) ==> !spec_resolution_fits(
                #[trigger] spec_from_rank(n),
                physical@,
                monitor,
            ),
    decreases spec_rank(start),
{
    let size = physical[start.rank()];
    if fits_monitor(size, monitor) {
        Some(start)
    } else {
        match start.downgrade() {
            None => {
                assert(spec_from_rank(0) == start);
                None
            },
            Some(next) => {
                let res = select_resolution(next, physical, monitor);
                assert(spec_from_rank(spec_rank(start)) == start);
                res
            },
        }
    }
}

/// Position of the top-left corner of a window of `window` physical pixels centred on a
/// monitor whose top-left corner is at `monitor_position` and whose size is `monitor_size`.
pub fn centered_position(
    monitor_position: (i32, i32),
    monitor_size: (u32, u32),
    window: (u32, u32),
) -> (res: (i32, i32))
    requires
        i32::MIN <= monitor_position.0 + monitor_size.0 / 2 - window.0 / 2 <= i32::MAX,
        i32::MIN <= monitor_position.1 + monitor_size.1 / 2 - window.1 / 2 <= i32::MAX,
        i32::MIN <= monitor_position.0 + monitor_size.0 / 2 <= i32::MAX,
        i32::MIN <= monitor_position.1 + monitor_size.1 / 2 <= i32::MAX,
    ensures
        res.0 == monitor_position.0 + monitor_size.0 / 2 - window.0 / 2,
        res.1 == monitor_position.1 + monitor_size.1 / 2 - window.1 / 2,
{
    let half_mw = (monitor_size.0 / 2) as i32;
    let half_mh = (monitor_size.1 / 2) as i32;
    let half_ww = (window.0 / 2) as i32;
    let half_wh = (window.1 / 2) as i32;
    let center_x = monitor_position.0 + half_mw;
    let center_y = monitor_position.1 + half_mh;
    (center_x - half_ww, center_y - half_wh)
}

} // verus!
