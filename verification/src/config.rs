//! The applet's settings.

use vstd::prelude::*;

verus! {

/// The name under which the settings are kept.
pub const APP_ID: &'static str = "dev.skylar.cosmic-ext-applet-cpufreq";

/// The version of the layout of the settings.
pub const CONFIG_VERSION: u64 = 1;

/// Which frequency the panel shows.
#[derive(Clone, Copy, PartialEq, Eq, Structural, Debug)]
pub enum FreqDisplayMode {
    Average,
    Minimum,
    Maximum,
}

impl Default for FreqDisplayMode {
    fn default() -> (r: Self)
        ensures
            r == FreqDisplayMode::Average,
    {
        FreqDisplayMode::Average
    }
}

impl FreqDisplayMode {
    /// The place of the mode in the list that the settings page offers.
    pub open spec fn place(self) -> int {
        match self {
            FreqDisplayMode::Average => 0,
            FreqDisplayMode::Minimum => 1,
            FreqDisplayMode::Maximum => 2,
        }
    }

    /// The mode at place `idx` of that list; past its end, the first.
    pub open spec fn at_place(idx: int) -> FreqDisplayMode {
        if idx == 1 {
            FreqDisplayMode::Minimum
        } else if idx == 2 {
            FreqDisplayMode::Maximum
        } else {
            FreqDisplayMode::Average
        }
    }

    /// The name of the mode.
    pub open spec fn name_of(self) -> Seq<char> {
        match self {
            FreqDisplayMode::Average => "Average"@,
            FreqDisplayMode::Minimum => "Minimum"@,
            FreqDisplayMode::Maximum => "Maximum"@,
        }
    }

    /// Names the mode.
    pub fn name(self) -> (r: String)
        ensures
            r@ == self.name_of(),
    {
        match self {
            FreqDisplayMode::Average => "Average".to_owned(),
            FreqDisplayMode::Minimum => "Minimum".to_owned(),
            FreqDisplayMode::Maximum => "Maximum".to_owned(),
        }
    }

    /// Gives the place of the mode in the list that the settings page offers.
    pub fn index(self) -> (r: usize)
        ensures
            r == self.place(),
    {
        match self {
            FreqDisplayMode::Average => 0,
            FreqDisplayMode::Minimum => 1,
            FreqDisplayMode::Maximum => 2,
        }
    }

    /// Gives the mode at place `idx` of that list.
    pub fn from_index(idx: usize) -> (r: Self)
        ensures
            r == FreqDisplayMode::at_place(idx as int),
    {
        match idx {
            1 => FreqDisplayMode::Minimum,
            2 => FreqDisplayMode::Maximum,
            _ => FreqDisplayMode::Average,
        }
    }
}

/// To choose the mode that the list shows as chosen chooses the same mode, and the list shows
/// as chosen the place that was taken.
pub proof fn law_mode_keeps_its_place(mode: FreqDisplayMode, idx: int)
    ensures
        0 <= mode.place() < 3,
        FreqDisplayMode::at_place(mode.place()) == mode,
        0 <= idx < 3 ==> FreqDisplayMode::at_place(idx).place() == idx,
{
}

/// The settings.
#[derive(Clone, Copy, PartialEq, Eq, Structural, Debug)]
pub struct CpuFreqConfig {
    /// Whether turbo boost should be on.
    pub turbo_enabled: bool,
    /// How often the panel is updated, in milliseconds.
    pub update_interval_ms: u64,
    /// Which frequency the panel shows.
    pub freq_display_mode: FreqDisplayMode,
    /// Whether the usage of each core is shown.
    pub show_per_core_usage: bool,
    /// Whether the CPU usage bar is shown.
    pub show_cpu_usage: bool,
    /// Whether the memory usage bar is shown.
    pub show_memory_usage: bool,
    /// Whether the controls stand beside the readings, not below them.
    pub horizontal_layout: bool,
}

/// The settings of a new installation.
pub open spec fn default_config() -> CpuFreqConfig {
    CpuFreqConfig {
        turbo_enabled: false,
        update_interval_ms: 2000,
        freq_display_mode: FreqDisplayMode::Average,
        show_per_core_usage: true,
        show_cpu_usage: true,
        show_memory_usage: true,
        horizontal_layout: true,
    }
}

impl Default for CpuFreqConfig {
    fn default() -> (r: Self)
        ensures
            r == default_config(),
    {
        CpuFreqConfig {
            turbo_enabled: false,
            update_interval_ms: 2000,
            freq_display_mode: FreqDisplayMode::Average,
            show_per_core_usage: true,
            show_cpu_usage: true,
            show_memory_usage: true,
            horizontal_layout: true,
        }
    }
}

impl CpuFreqConfig {
    /// Chooses the settings to start with. `stored` is what the store of settings gave:
    /// `None` where it could not be opened, `Ok` with all settings, or `Err` with those
    /// that could be read and defaults for the others.
    pub fn config(stored: Option<Result<CpuFreqConfig, CpuFreqConfig>>) -> (r: CpuFreqConfig)
        ensures
            r == match stored {
                Some(Ok(config)) => config,
                Some(Err(partial)) => partial,
                None => default_config(),
            },
    {
        match stored {
            Some(Ok(config)) => config,
            Some(Err(partial)) => partial,
            None => CpuFreqConfig::default(),
        }
    }
}

/// A setting and the value that it is to have.
#[derive(Clone, Copy, PartialEq, Eq, Structural, Debug)]
pub enum Setting {
    TurboEnabled(bool),
    UpdateIntervalMs(u64),
    FreqDisplayMode(FreqDisplayMode),
    ShowPerCoreUsage(bool),
    ShowCpuUsage(bool),
    ShowMemoryUsage(bool),
    HorizontalLayout(bool),
}

/// The settings that the store gave are taken as they are, whether or not all could be read.
pub proof fn law_stored_settings_are_taken(
    stored: CpuFreqConfig,
    all: CpuFreqConfig,
    partial: CpuFreqConfig,
)
    requires
        call_ensures(CpuFreqConfig::config, (Some(Ok::<CpuFreqConfig, CpuFreqConfig>(stored)),), all),
        call_ensures(
            CpuFreqConfig::config,
            (Some(Err::<CpuFreqConfig, CpuFreqConfig>(stored)),),
            partial,
        ),
    ensures
        all == stored,
        partial == stored,
{
}

} // verus!
