use cpufreq_applet::config::{CpuFreqConfig, FreqDisplayMode, Setting};
use cpufreq_applet::cpu::FreqReading;
use cpufreq_applet::label::prettify_label;
use cpufreq_applet::page::{
    Body, Choice, ControlRow, CoreCell, CoreUsage, HeaderLine, InfoRow, Limit, LineStyle, Page,
    PopupLimits, Section, SettingsRow, Slider, Switch,
};
use cpufreq_applet::state::{Action, Applet, Message, Reply, StartReading};
use cpufreq_applet::usage::CpuUsage;

fn names(list: &[&str]) -> Vec<String> {
    list.iter().map(|s| s.to_string()).collect()
}

fn start_reading() -> StartReading<f64> {
    StartReading {
        turbo_enabled: Some(true),
        current_governor: Some("powersave".to_string()),
        available_governors: names(&["performance", "powersave", "powersave"]),
        current_epp: Some("unknown".to_string()),
        available_epp: names(&["default"]),
        hardware: FreqReading {
            pstate: true,
            turbo: Some(true),
            hw_min: Some(800.0),
            base: Some(2400.0),
            turbo_max: Some(4200.0),
        },
        scaling_min_mhz: Some(900.0),
        scaling_max_mhz: None,
        summary: None,
        cpu_model: Some("CPU".to_string()),
        machine_info: Some(("LENOVO".to_string(), "21CB".to_string())),
        os_name: Some("OS".to_string()),
        kernel_version: None,
    }
}

fn applet() -> Applet<f64> {
    let config = CpuFreqConfig { turbo_enabled: true, ..CpuFreqConfig::default() };
    Applet::init(config, true, start_reading()).0
}

fn line(style: LineStyle, text: &str) -> HeaderLine {
    HeaderLine { style, text: text.to_string() }
}

fn slider(limit: Limit, value: f64) -> ControlRow<'static, f64> {
    ControlRow::Slider { limit, slider: Slider { low: 800.0, high: 4200.0, value } }
}

#[test]
fn settings_page() {
    let mut a = applet();
    a.config.freq_display_mode = FreqDisplayMode::Maximum;
    a.config.horizontal_layout = false;
    a.config.show_cpu_usage = false;
    a.update(Message::ToggleSettings);
    a.update(Message::UpdateIntervalChanged("12".to_string()));
    let window = a.view_window("Kernel");
    assert_eq!(window.fixed_width, None);
    let rows = vec![
        SettingsRow::Title,
        SettingsRow::Divider,
        SettingsRow::List { choice: Choice::DisplayMode, selected: 2 },
        SettingsRow::Toggle { switch: Switch::PerCoreUsage, on: true },
        SettingsRow::Toggle { switch: Switch::CpuUsage, on: false },
        SettingsRow::Toggle { switch: Switch::MemoryUsage, on: true },
        SettingsRow::List { choice: Choice::Layout, selected: 1 },
        SettingsRow::Interval("12".to_string()),
    ];
    assert_eq!(window.page, Page::Settings(rows));
}

#[test]
fn main_page() {
    let mut a = applet();
    let window = a.view_window("Kernel");
    assert_eq!(window.fixed_width, Some(600));
    match window.page {
        Page::Main { body, .. } => assert_eq!(
            body,
            Body::SideBySide {
                left: Section::Info(a.build_info_section()),
                right: Section::Controls(a.build_controls_section()),
            }
        ),
        other => panic!("{other:?}"),
    }
    a.config.horizontal_layout = false;
    let window = a.view_window("Kernel");
    assert_eq!(window.fixed_width, None);
    match window.page {
        Page::Main { header, body } => {
            assert_eq!(header, a.build_header("Kernel"));
            assert_eq!(
                body,
                Body::Stacked(vec![
                    Section::Info(a.build_info_section()),
                    Section::Divider,
                    Section::Controls(a.build_controls_section()),
                ])
            );
        }
        other => panic!("{other:?}"),
    }
}

#[test]
fn header() {
    let mut a = applet();
    assert_eq!(
        a.build_header("Kernel"),
        vec![
            line(LineStyle::Body, "CPU"),
            line(LineStyle::Caption, "LENOVO 21CB"),
            line(LineStyle::Caption, "OS"),
        ]
    );
    a.machine_model = None;
    a.kernel_version = Some("6.1".to_string());
    assert_eq!(
        a.build_header("Kernel"),
        vec![
            line(LineStyle::Body, "CPU"),
            line(LineStyle::Caption, "OS"),
            line(LineStyle::Caption, "Kernel 6.1"),
        ]
    );
    a.cpu_model = None;
    a.os_name = None;
    a.kernel_version = None;
    assert_eq!(a.build_header("Kernel"), vec![]);
}

#[test]
fn limits_of_the_popup() {
    let mut a = applet();
    let limits = |width| PopupLimits {
        min_width: width,
        max_width: width,
        min_height: 1,
        max_height: 1080,
    };
    assert_eq!(a.popup_width(), 600);
    assert_eq!(a.popup_limits(), limits(600));
    a.show_settings = true;
    assert_eq!(a.popup_width(), 360);
    assert_eq!(a.view_window("Kernel").limits, limits(360));
    a.show_settings = false;
    a.config.horizontal_layout = false;
    assert_eq!(a.popup_limits(), limits(360));
}

#[test]
fn grid_of_cores() {
    let mut a = applet();
    a.per_core_freqs = (0..6).map(|i| (i + 10, 1000.0 + i as f64)).collect();
    a.per_core_usage = vec![CpuUsage { busy: 1, idle: 2 }; 5];
    let known = CoreUsage::Known(CpuUsage { busy: 1, idle: 2 });
    let cell = |id: u32, mhz, usage| Some(CoreCell { label: format!("CPU{id}"), mhz, usage });
    assert_eq!(
        a.build_info_section()[0],
        InfoRow::Cores(vec![
            vec![
                cell(10, 1000.0, known),
                cell(11, 1001.0, known),
                cell(12, 1002.0, known),
                cell(13, 1003.0, known),
            ],
            vec![
                cell(14, 1004.0, known),
                cell(15, 1005.0, CoreUsage::Unknown),
                None,
                None,
            ],
        ])
    );
    a.config.show_per_core_usage = false;
    a.per_core_freqs.truncate(4);
    match &a.build_info_section()[0] {
        InfoRow::Cores(grid) => {
            assert_eq!(grid.len(), 1);
            assert_eq!(grid[0][3], cell(13, 1003.0, CoreUsage::Hidden));
        }
        other => panic!("{other:?}"),
    }
}

#[test]
fn usage_bars() {
    let mut a = applet();
    let bars = |usage, memory| vec![InfoRow::CpuUsage(usage), InfoRow::Memory(memory)];
    assert_eq!(a.build_info_section(), bars(CpuUsage { busy: 0, idle: 0 }, None));
    a.cpu_usage = Some(CpuUsage { busy: 1, idle: 3 });
    a.memory_used_kb = Some(2);
    a.memory_total_kb = Some(8);
    assert_eq!(a.build_info_section(), bars(CpuUsage { busy: 1, idle: 3 }, Some((2, 8))));
    a.memory_total_kb = Some(0);
    assert_eq!(a.build_info_section(), bars(CpuUsage { busy: 1, idle: 3 }, None));
    a.config.show_cpu_usage = false;
    assert_eq!(a.build_info_section(), vec![InfoRow::Memory(None)]);
    a.config.show_memory_usage = false;
    assert_eq!(a.build_info_section(), vec![]);
}

#[test]
fn controls() {
    let mut a = applet();
    let governors = names(&["Performance", "Powersave", "Powersave"]);
    let preferences = names(&["Default"]);
    let turbo = |on| ControlRow::Toggle { switch: Switch::Turbo, on };
    let governor = |selected| ControlRow::List {
        choice: Choice::Governor,
        labels: &governors,
        selected,
    };
    let preference = ControlRow::List {
        choice: Choice::Preference,
        labels: &preferences,
        selected: None,
    };
    assert_eq!(
        a.build_controls_section(),
        vec![turbo(true), governor(Some(1)), preference, slider(Limit::Lower, 900.0)]
    );
    a.update(Message::PreviewScalingMin(1000.0));
    a.update(Message::PreviewScalingMax(2000.0));
    assert_eq!(
        a.build_controls_section()[3..],
        [slider(Limit::Lower, 1000.0), slider(Limit::Upper, 2000.0)]
    );
    a.freq_bounds = None;
    a.turbo_enabled = None;
    a.available_epp.clear();
    a.current_governor = None;
    assert_eq!(a.build_controls_section(), vec![turbo(false), governor(None)]);
}

#[test]
fn messages_of_the_controls() {
    let switched = |switch: Switch| switch.message::<f64>(true);
    assert_eq!(switched(Switch::Turbo), Message::SetTurbo(true));
    assert_eq!(switched(Switch::PerCoreUsage), Message::SetShowPerCoreUsage(true));
    assert_eq!(switched(Switch::CpuUsage), Message::SetShowCpuUsage(true));
    assert_eq!(switched(Switch::MemoryUsage), Message::SetShowMemoryUsage(true));
    let taken = |choice: Choice| choice.message::<f64>(2);
    assert_eq!(taken(Choice::Governor), Message::SetGovernor(2));
    assert_eq!(taken(Choice::Preference), Message::SetEpp(2));
    assert_eq!(taken(Choice::DisplayMode), Message::SetFreqDisplayMode(2));
    assert_eq!(taken(Choice::Layout), Message::SetLayout(2));
    assert_eq!(Limit::Lower.preview(1.5), Message::PreviewScalingMin(1.5));
    assert_eq!(Limit::Upper.preview(1.5), Message::PreviewScalingMax(1.5));
    assert_eq!(Limit::Lower.commit::<f64>(), Message::CommitScalingMin);
    assert_eq!(Limit::Upper.commit::<f64>(), Message::CommitScalingMax);
}

/// The row of a list, with what it offers and what is chosen.
fn list(a: &Applet<f64>, wanted: Choice) -> (Vec<String>, Option<usize>) {
    for row in a.build_controls_section() {
        if let ControlRow::List { choice, labels, selected } = row {
            if choice == wanted {
                return (labels.clone(), selected);
            }
        }
    }
    panic!("no list {wanted:?}");
}

#[test]
fn chosen_names_are_shown() {
    let reading = StartReading {
        available_governors: names(&["performance", "powersave", "schedutil"]),
        available_epp: names(&["default", "balance_power"]),
        ..start_reading()
    };
    let mut a = Applet::init(CpuFreqConfig::default(), true, reading).0;
    let governors = ["performance", "powersave", "schedutil"];
    for (idx, name) in governors.iter().enumerate() {
        let Action::WriteGovernor(governor) = a.update(Choice::Governor.message(idx)) else {
            panic!("no governor {idx}");
        };
        let (labels, _) = list(&a, Choice::Governor);
        assert_eq!(&governor, name);
        assert_eq!(labels[idx], prettify_label(name));
        a.resume(Reply::GovernorWritten { governor, done: true });
        assert_eq!(list(&a, Choice::Governor), (labels, Some(idx)));
    }
    let Action::WriteEpp(epp) = a.update(Choice::Preference.message(1)) else {
        panic!("no preference");
    };
    assert_eq!(epp, "balance_power");
    a.resume(Reply::EppWritten { epp, done: true });
    assert_eq!(
        list(&a, Choice::Preference),
        (names(&["Default", "Balance Power"]), Some(1))
    );
}

#[test]
fn shown_settings_are_those_chosen() {
    let mut a = applet();
    a.show_settings = true;
    for horizontal_layout in [false, true] {
        a.config.horizontal_layout = horizontal_layout;
        for row in a.build_settings() {
            let SettingsRow::List { choice, selected } = row else {
                continue;
            };
            let kept = match choice {
                Choice::DisplayMode => Setting::FreqDisplayMode(FreqDisplayMode::Average),
                _ => Setting::HorizontalLayout(horizontal_layout),
            };
            match a.update(choice.message(selected)) {
                Action::Save(setting) => assert_eq!(setting, kept),
                other => panic!("{other:?}"),
            }
        }
    }
}
