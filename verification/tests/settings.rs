use cpufreq_applet::config::{CpuFreqConfig, FreqDisplayMode, APP_ID, CONFIG_VERSION};

#[test]
fn default_settings() {
    assert_eq!(
        CpuFreqConfig::default(),
        CpuFreqConfig {
            turbo_enabled: false,
            update_interval_ms: 2000,
            freq_display_mode: FreqDisplayMode::Average,
            show_per_core_usage: true,
            show_cpu_usage: true,
            show_memory_usage: true,
            horizontal_layout: true,
        }
    );
    assert_eq!(FreqDisplayMode::default(), FreqDisplayMode::Average);
}

#[test]
fn settings_to_start_with() {
    let stored = CpuFreqConfig { update_interval_ms: 500, ..CpuFreqConfig::default() };
    assert_eq!(CpuFreqConfig::config(Some(Ok(stored))), stored);
    assert_eq!(CpuFreqConfig::config(Some(Err(stored))), stored);
    assert_eq!(CpuFreqConfig::config(None), CpuFreqConfig::default());
}

#[test]
fn modes() {
    assert_eq!(FreqDisplayMode::Average.name(), "Average");
    assert_eq!(FreqDisplayMode::Minimum.name(), "Minimum");
    assert_eq!(FreqDisplayMode::Maximum.name(), "Maximum");
    let all = [FreqDisplayMode::Average, FreqDisplayMode::Minimum, FreqDisplayMode::Maximum];
    for (i, mode) in all.into_iter().enumerate() {
        assert_eq!(mode.index(), i);
        assert_eq!(FreqDisplayMode::from_index(i), mode);
    }
    assert_eq!(FreqDisplayMode::from_index(3), FreqDisplayMode::Average);
    assert_eq!(FreqDisplayMode::from_index(usize::MAX), FreqDisplayMode::Average);
}

#[test]
fn names_of_the_store() {
    assert_eq!(APP_ID, "dev.skylar.cosmic-ext-applet-cpufreq");
    assert_eq!(CONFIG_VERSION, 1);
}
