use cpufreq_applet::config::{CpuFreqConfig, FreqDisplayMode, Setting};
use cpufreq_applet::cpu::{FreqReading, FreqSummary};
use cpufreq_applet::state::{
    Action, Applet, FreqLimits, Message, PopupReading, Reply, StartReading, StatusReading,
};
use cpufreq_applet::usage::{CpuJiffies, CpuUsage, CpuUsageSnapshot};

fn names(list: &[&str]) -> Vec<String> {
    list.iter().map(|s| s.to_string()).collect()
}

fn hardware(hw_min: Option<f64>, turbo_max: Option<f64>) -> FreqReading<f64> {
    FreqReading { pstate: true, turbo: Some(true), hw_min, base: None, turbo_max }
}

fn reading() -> StartReading<f64> {
    StartReading {
        turbo_enabled: Some(false),
        current_governor: Some("powersave".to_string()),
        available_governors: names(&["performance", "powersave"]),
        current_epp: Some("power".to_string()),
        available_epp: names(&["default", "balance_power", "power"]),
        hardware: hardware(Some(800.0), Some(4200.0)),
        scaling_min_mhz: Some(800.0),
        scaling_max_mhz: Some(3000.0),
        summary: Some(FreqSummary { average: 1600.0, minimum: 800.0, maximum: 2400.0 }),
        cpu_model: Some("CPU".to_string()),
        machine_info: Some(("V".to_string(), "M".to_string())),
        os_name: None,
        kernel_version: Some("6.1".to_string()),
    }
}

fn applet() -> Applet<f64> {
    Applet::init(CpuFreqConfig::default(), true, reading()).0
}

fn status() -> StatusReading<f64> {
    StatusReading {
        governor: Some("performance".to_string()),
        epp: None,
        scaling_min: Some(900.0),
        scaling_max: Some(2900.0),
        snapshot: None,
        memory: None,
    }
}

fn snapshot(user: u64, idle: u64) -> CpuUsageSnapshot {
    let j = CpuJiffies::from_fields(&[user, 0, 0, idle, 0, 0, 0, 0]).unwrap();
    CpuUsageSnapshot { aggregate: j, per_core: vec![j] }
}

fn popup_data() -> PopupReading<f64> {
    PopupReading {
        governors: names(&["schedutil"]),
        epp: names(&[]),
        hardware: hardware(None, Some(4000.0)),
        cores: vec![(0, 1000.0), (1, 3000.0)],
        snapshot: Some(snapshot(10, 10)),
        memory: Some((3, 8)),
    }
}

fn polled(system_turbo: Option<bool>) -> Reply<f64> {
    Reply::Frequencies {
        cores: vec![(0, 1000.0), (1, 3000.0)],
        summary: Some(FreqSummary { average: 2000.0, minimum: 1000.0, maximum: 3000.0 }),
        system_turbo,
    }
}

#[test]
fn bounds_are_the_full_range() {
    for pstate in [false, true] {
        for turbo in [None, Some(false), Some(true)] {
            let hardware = FreqReading {
                pstate,
                turbo,
                hw_min: Some(800.0),
                base: Some(2400.0),
                turbo_max: Some(4800.0),
            };
            let full = Some((800.0, 4800.0));
            let config = CpuFreqConfig::default();
            let start = StartReading { hardware, ..reading() };
            assert_eq!(Applet::init(config, true, start).0.freq_bounds, full);
            let mut a = applet();
            let reading = PopupReading { hardware, ..popup_data() };
            a.resume(Reply::PopupData { id: 1, reading });
            assert_eq!(a.freq_bounds, full);
            let mut a = applet();
            let limits = Some(FreqLimits { hardware, scaling_min: None, scaling_max: None });
            a.resume(Reply::TurboWritten { enabled: true, limits });
            assert_eq!(a.freq_bounds, full);
            a.update(Message::Tick);
            a.resume(polled(turbo));
            a.resume(Reply::Status(status()));
            assert_eq!(a.freq_bounds, full);
        }
    }
}

#[test]
fn start_shows_the_chosen_frequency() {
    for (freq_display_mode, shown) in [
        (FreqDisplayMode::Average, 1600.0),
        (FreqDisplayMode::Minimum, 800.0),
        (FreqDisplayMode::Maximum, 2400.0),
    ] {
        let config = CpuFreqConfig { freq_display_mode, ..CpuFreqConfig::default() };
        let mut a = Applet::init(config, true, reading()).0;
        assert_eq!(a.current_freq_mhz, Some(shown));
        a.update(Message::Tick);
        a.resume(Reply::Frequencies {
            cores: vec![(0, 800.0), (1, 2400.0)],
            summary: reading().summary,
            system_turbo: None,
        });
        assert_eq!(a.current_freq_mhz, Some(shown));
        let without = StartReading { summary: None, ..reading() };
        assert_eq!(Applet::init(config, true, without).0.current_freq_mhz, None);
    }
}

#[test]
fn start() {
    let (a, action) = Applet::init(CpuFreqConfig::default(), true, reading());
    assert!(matches!(action, Action::Nothing));
    assert_eq!(a.popup, None);
    assert_eq!(a.freq_bounds, Some((800.0, 4200.0)));
    assert_eq!(a.update_interval_input, "2000");
    assert_eq!(a.governor_labels, names(&["Performance", "Powersave"]));
    assert_eq!(a.epp_labels, names(&["Default", "Balance Power", "Power"]));
    assert_eq!(a.machine_vendor, Some("V".to_string()));
    assert_eq!(a.machine_model, Some("M".to_string()));
    assert_eq!(a.panel_frequency(), Some(1600.0));
    assert!(a.per_core_freqs.is_empty());
    let bare = StartReading {
        machine_info: None,
        hardware: hardware(None, Some(4200.0)),
        ..reading()
    };
    let (b, _) = Applet::init(CpuFreqConfig::default(), true, bare);
    assert_eq!(b.machine_vendor, None);
    assert_eq!(b.freq_bounds, None);
}

#[test]
fn start_restores_turbo() {
    let on = StartReading { turbo_enabled: Some(true), ..reading() };
    let (mut a, action) = Applet::init(CpuFreqConfig::default(), true, on);
    assert!(matches!(action, Action::RestoreSavedTurbo(false)));
    assert!(matches!(a.resume(Reply::SavedTurboRestored { done: false }), Action::Nothing));
    assert_eq!(a.turbo_enabled, Some(true));
    a.resume(Reply::SavedTurboRestored { done: true });
    assert_eq!(a.turbo_enabled, Some(false));
    let unknown = StartReading { turbo_enabled: None, ..reading() };
    let (_, action) = Applet::init(CpuFreqConfig::default(), true, unknown);
    assert!(matches!(action, Action::Nothing));
}

#[test]
fn tick_reads_frequencies() {
    let mut a = applet();
    assert!(matches!(a.update(Message::Tick), Action::ReadFrequencies));
    let action = a.resume(polled(Some(false)));
    assert!(matches!(
        action,
        Action::ReadStatus { scaling_min: true, scaling_max: true, usage: false }
    ));
    assert_eq!(a.current_freq_mhz, Some(2000.0));
    assert_eq!(a.per_core_freqs, vec![(0, 1000.0), (1, 3000.0)]);
    a.config.freq_display_mode = FreqDisplayMode::Minimum;
    a.resume(polled(Some(false)));
    assert_eq!(a.current_freq_mhz, Some(1000.0));
    a.config.freq_display_mode = FreqDisplayMode::Maximum;
    a.resume(polled(Some(false)));
    assert_eq!(a.current_freq_mhz, Some(3000.0));
    a.resume(Reply::Frequencies { cores: vec![], summary: None, system_turbo: Some(false) });
    assert_eq!(a.current_freq_mhz, None);
}

#[test]
fn turbo_switched_elsewhere_is_restored() {
    let mut a = applet();
    let action = a.resume(polled(Some(true)));
    assert!(matches!(action, Action::RestoreTurbo { enabled: false, observed: Some(true) }));
    assert_eq!(a.turbo_enabled, Some(false));
    let action = a.resume(Reply::TurboRestored { observed: Some(true), done: true });
    assert!(matches!(action, Action::ReadStatus { .. }));
    assert_eq!(a.turbo_enabled, Some(false));
    assert!(matches!(a.resume(polled(None)), Action::RestoreTurbo { observed: None, .. }));
}

#[test]
fn failed_restore_is_not_repeated() {
    let mut a = applet();
    a.resume(polled(Some(true)));
    a.resume(Reply::TurboRestored { observed: Some(true), done: false });
    assert_eq!(a.turbo_enabled, Some(true));
    assert!(matches!(a.resume(polled(Some(true))), Action::ReadStatus { .. }));
    assert!(matches!(a.resume(polled(Some(false))), Action::ReadStatus { .. }));
    assert_eq!(a.turbo_enabled, Some(false));
}

#[test]
fn status_without_popup() {
    let mut a = applet();
    let r = StatusReading { snapshot: Some(snapshot(5, 5)), memory: Some((1, 2)), ..status() };
    assert!(matches!(a.resume(Reply::Status(r)), Action::Nothing));
    assert_eq!(a.current_governor, Some("performance".to_string()));
    assert_eq!(a.current_epp, None);
    assert_eq!(a.scaling_min_mhz, Some(900.0));
    assert_eq!(a.scaling_max_mhz, Some(2900.0));
    assert!(a.cpu_usage_prev.is_none());
    assert_eq!(a.memory_used_kb, None);
}

#[test]
fn dragged_sliders_keep_their_limits() {
    let mut a = applet();
    assert!(matches!(a.update(Message::PreviewScalingMin(1500.0)), Action::Nothing));
    let action = a.resume(polled(Some(false)));
    assert!(matches!(
        action,
        Action::ReadStatus { scaling_min: false, scaling_max: true, usage: false }
    ));
    a.resume(Reply::Status(status()));
    assert_eq!(a.scaling_min_mhz, Some(800.0));
    assert_eq!(a.scaling_max_mhz, Some(2900.0));
    assert_eq!(a.preview_min_mhz, Some(1500.0));
}

#[test]
fn letting_a_slider_go() {
    let mut a = applet();
    assert!(matches!(a.update(Message::CommitScalingMin), Action::Nothing));
    a.update(Message::PreviewScalingMin(1500.0));
    a.update(Message::PreviewScalingMax(2500.0));
    match a.update(Message::CommitScalingMin) {
        Action::WriteScalingMin(mhz) => assert_eq!(mhz, 1500.0),
        other => panic!("{other:?}"),
    }
    assert_eq!(a.preview_min_mhz, None);
    a.resume(Reply::ScalingMinWritten { mhz: 1500.0, done: false });
    assert_eq!(a.scaling_min_mhz, Some(800.0));
    a.resume(Reply::ScalingMinWritten { mhz: 1500.0, done: true });
    assert_eq!(a.scaling_min_mhz, Some(1500.0));
    match a.update(Message::CommitScalingMax) {
        Action::WriteScalingMax(mhz) => assert_eq!(mhz, 2500.0),
        other => panic!("{other:?}"),
    }
    a.resume(Reply::ScalingMaxWritten { mhz: 2500.0, done: true });
    assert_eq!(a.scaling_max_mhz, Some(2500.0));
    assert_eq!(a.preview_max_mhz, None);
}

#[test]
fn popup_opens_and_closes() {
    let mut a = applet();
    a.show_settings = true;
    assert!(matches!(a.update(Message::ToggleWindow), Action::ReadPopupData));
    let action = a.resume(Reply::PopupData { id: 7, reading: popup_data() });
    assert!(matches!(action, Action::OpenPopup { id: 7, width: 600 }));
    assert_eq!(a.popup, Some(7));
    assert!(!a.show_settings);
    assert_eq!(a.available_governors, names(&["schedutil"]));
    assert_eq!(a.governor_labels, names(&["Schedutil"]));
    assert!(a.epp_labels.is_empty());
    assert_eq!(a.freq_bounds, None);
    assert_eq!(a.memory_used_kb, Some(3));
    assert_eq!(a.memory_total_kb, Some(8));
    assert_eq!(a.cpu_usage, None);
    a.update(Message::PopupClosed(8));
    assert_eq!(a.popup, Some(7));
    assert!(matches!(a.update(Message::ToggleWindow), Action::ClosePopup(7)));
    assert_eq!(a.popup, None);
    a.config.horizontal_layout = false;
    let action = a.resume(Reply::PopupData { id: 9, reading: popup_data() });
    assert!(matches!(action, Action::OpenPopup { id: 9, width: 360 }));
    a.update(Message::PopupClosed(9));
    assert_eq!(a.popup, None);
}

#[test]
fn usage_needs_a_second_snapshot() {
    let mut a = applet();
    a.resume(Reply::PopupData { id: 1, reading: popup_data() });
    assert!(matches!(a.resume(polled(Some(false))), Action::ReadStatus { usage: true, .. }));
    let r = StatusReading { snapshot: Some(snapshot(13, 11)), memory: None, ..status() };
    a.resume(Reply::Status(r));
    assert_eq!(a.cpu_usage, Some(CpuUsage { busy: 3, idle: 1 }));
    assert_eq!(a.per_core_usage, vec![CpuUsage { busy: 3, idle: 1 }]);
    assert_eq!(a.memory_used_kb, Some(3));
    a.resume(Reply::Status(status()));
    assert_eq!(a.cpu_usage, Some(CpuUsage { busy: 3, idle: 1 }));
    let none = PopupReading { snapshot: None, ..popup_data() };
    a.resume(Reply::PopupData { id: 2, reading: none });
    let r = StatusReading { snapshot: Some(snapshot(1, 1)), ..status() };
    a.resume(Reply::Status(r));
    assert_eq!(a.cpu_usage, None);
}

#[test]
fn turbo_is_set() {
    let mut a = applet();
    assert!(matches!(a.update(Message::SetTurbo(true)), Action::WriteTurbo(true)));
    let failed = Reply::TurboWritten { enabled: true, limits: None };
    assert!(matches!(a.resume(failed), Action::Nothing));
    assert_eq!(a.turbo_enabled, Some(false));
    let limits = FreqLimits {
        hardware: hardware(Some(700.0), Some(5000.0)),
        scaling_min: Some(701.0),
        scaling_max: None,
    };
    let action = a.resume(Reply::TurboWritten { enabled: true, limits: Some(limits) });
    assert!(matches!(action, Action::Save(Setting::TurboEnabled(true))));
    assert_eq!(a.turbo_enabled, Some(true));
    assert_eq!(a.freq_bounds, Some((700.0, 5000.0)));
    assert_eq!(a.scaling_min_mhz, Some(701.0));
    assert_eq!(a.scaling_max_mhz, None);
    assert!(!a.config.turbo_enabled);
}

#[test]
fn governor_is_set() {
    let mut a = applet();
    assert!(matches!(a.update(Message::SetGovernor(2)), Action::Nothing));
    match a.update(Message::SetGovernor(0)) {
        Action::WriteGovernor(name) => assert_eq!(name, "performance"),
        other => panic!("{other:?}"),
    }
    let governor = "performance".to_string();
    a.resume(Reply::GovernorWritten { governor: governor.clone(), done: false });
    assert_eq!(a.current_governor, Some("powersave".to_string()));
    a.resume(Reply::GovernorWritten { governor: governor.clone(), done: true });
    assert_eq!(a.current_governor, Some(governor));
}

#[test]
fn preference_is_set() {
    let mut a = applet();
    assert!(matches!(a.update(Message::SetEpp(3)), Action::Nothing));
    match a.update(Message::SetEpp(1)) {
        Action::WriteEpp(name) => assert_eq!(name, "balance_power"),
        other => panic!("{other:?}"),
    }
    let epp = "balance_power".to_string();
    a.resume(Reply::EppWritten { epp: epp.clone(), done: false });
    assert_eq!(a.current_epp, Some("power".to_string()));
    a.resume(Reply::EppWritten { epp: epp.clone(), done: true });
    assert_eq!(a.current_epp, Some(epp));
}

#[test]
fn interval_is_typed() {
    let mut a = applet();
    for text in ["", "99", "abc", " 100", "-5", "18446744073709551616"] {
        let action = a.update(Message::UpdateIntervalChanged(text.to_string()));
        assert!(matches!(action, Action::Nothing), "{text}");
        assert_eq!(a.update_interval_input, text);
    }
    let action = a.update(Message::UpdateIntervalChanged("100".to_string()));
    assert!(matches!(action, Action::Save(Setting::UpdateIntervalMs(100))));
    a.config_handler = false;
    let action = a.update(Message::UpdateIntervalChanged("5000".to_string()));
    assert!(matches!(action, Action::Nothing));
    assert_eq!(a.update_interval_input, "5000");
}

#[test]
fn settings_are_saved() {
    let mut a = applet();
    for (idx, mode) in [
        (0, FreqDisplayMode::Average),
        (1, FreqDisplayMode::Minimum),
        (2, FreqDisplayMode::Maximum),
        (3, FreqDisplayMode::Average),
    ] {
        match a.update(Message::SetFreqDisplayMode(idx)) {
            Action::Save(setting) => assert_eq!(setting, Setting::FreqDisplayMode(mode)),
            other => panic!("{other:?}"),
        }
    }
    assert!(matches!(
        a.update(Message::SetShowPerCoreUsage(false)),
        Action::Save(Setting::ShowPerCoreUsage(false))
    ));
    assert!(matches!(
        a.update(Message::SetShowCpuUsage(false)),
        Action::Save(Setting::ShowCpuUsage(false))
    ));
    assert!(matches!(
        a.update(Message::SetShowMemoryUsage(true)),
        Action::Save(Setting::ShowMemoryUsage(true))
    ));
    assert!(matches!(
        a.update(Message::SetLayout(0)),
        Action::Save(Setting::HorizontalLayout(true))
    ));
    assert!(matches!(
        a.update(Message::SetLayout(1)),
        Action::Save(Setting::HorizontalLayout(false))
    ));
    assert_eq!(a.config, CpuFreqConfig::default());
    let saved = CpuFreqConfig { horizontal_layout: false, ..a.config };
    assert!(matches!(a.resume(Reply::Saved(saved)), Action::Nothing));
    assert_eq!(a.config, saved);
}

#[test]
fn nothing_is_saved_without_a_store() {
    let mut a = Applet::init(CpuFreqConfig::default(), false, reading()).0;
    assert!(matches!(a.update(Message::SetLayout(1)), Action::Nothing));
    assert!(matches!(a.update(Message::SetFreqDisplayMode(1)), Action::Nothing));
    let limits =
        FreqLimits { hardware: hardware(None, None), scaling_min: None, scaling_max: None };
    let written = Reply::TurboWritten { enabled: true, limits: Some(limits) };
    assert!(matches!(a.resume(written), Action::Nothing));
    assert_eq!(a.turbo_enabled, Some(true));
}

#[test]
fn settings_page_turns_back() {
    let mut a = applet();
    a.update(Message::ToggleSettings);
    assert!(a.show_settings);
    a.update(Message::ToggleSettings);
    assert!(!a.show_settings);
}
