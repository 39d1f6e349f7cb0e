use cpufreq_applet::config::FreqDisplayMode;
use cpufreq_applet::cpu::{
    core_id, pick_frequency, read_base_frequency_mhz, read_cpu_model,
    read_effective_max_frequency_mhz, read_machine_info, read_names, read_os_name,
    read_per_core_frequencies_mhz, read_turbo_enabled, read_value, turbo_path, FreqSummary,
};

#[test]
fn turbo_state_by_driver() {
    assert_eq!(read_turbo_enabled(true, Some("0\n")), Some(true));
    assert_eq!(read_turbo_enabled(true, Some("1\n")), Some(false));
    assert_eq!(read_turbo_enabled(false, Some("1\n")), Some(true));
    assert_eq!(read_turbo_enabled(false, Some(" 0 ")), Some(false));
    assert_eq!(read_turbo_enabled(false, Some("")), Some(false));
    assert_eq!(read_turbo_enabled(true, Some("01")), Some(false));
    assert_eq!(read_turbo_enabled(true, None), None);
}

#[test]
fn turbo_file_by_driver() {
    assert_eq!(turbo_path(true), "/sys/devices/system/cpu/intel_pstate/no_turbo");
    assert_eq!(turbo_path(false), "/sys/devices/system/cpu/cpufreq/boost");
}

#[test]
fn single_values() {
    assert_eq!(read_value(Some("powersave\n")), Some("powersave".to_string()));
    assert_eq!(read_value(Some("\n")), Some(String::new()));
    assert_eq!(read_value(None), None);
}

#[test]
fn lists_of_names() {
    assert_eq!(
        read_names(Some("performance powersave \n")),
        vec!["performance".to_string(), "powersave".to_string()]
    );
    assert_eq!(read_names(Some("\n")), Vec::<String>::new());
    assert_eq!(read_names(None), Vec::<String>::new());
}

#[test]
fn listed_names_read_back() {
    for name in read_names(Some("default performance\tbalance_power \n")) {
        assert_eq!(read_value(Some(&format!("{name}\n"))), Some(name));
    }
}

#[test]
fn machine_needs_both_files() {
    assert_eq!(
        read_machine_info(Some("LENOVO\n"), Some("21CB \n")),
        Some(("LENOVO".to_string(), "21CB".to_string()))
    );
    assert_eq!(read_machine_info(None, Some("x")), None);
    assert_eq!(read_machine_info(Some("x"), None), None);
}

#[test]
fn cpu_model_from_cpuinfo() {
    let text = "processor\t: 0\nmodel\t\t: 1\nmodel name\t: AMD Ryzen 7 \nmodel name\t: other\n";
    assert_eq!(read_cpu_model(Some(text)), Some("AMD Ryzen 7".to_string()));
    assert_eq!(read_cpu_model(Some("processor\t: 0\n")), None);
    assert_eq!(read_cpu_model(None), None);
}

#[test]
fn os_name_from_os_release() {
    let text = "NAME=\"Pop!_OS\"\nPRETTY_NAME=\"Pop!_OS 24.04 LTS\"\nID=pop\n";
    assert_eq!(read_os_name(Some(text)), Some("Pop!_OS 24.04 LTS".to_string()));
    assert_eq!(read_os_name(Some("PRETTY_NAME=Arch\r\n")), Some("Arch".to_string()));
    assert_eq!(read_os_name(Some("ID=pop\n")), None);
    assert_eq!(read_os_name(None), None);
}

#[test]
fn frequency_by_mode() {
    let summary = || Some(FreqSummary { average: 2000.5, minimum: 800.0, maximum: 4200.0 });
    assert_eq!(pick_frequency(FreqDisplayMode::Average, summary()), Some(2000.5));
    assert_eq!(pick_frequency(FreqDisplayMode::Minimum, summary()), Some(800.0));
    assert_eq!(pick_frequency(FreqDisplayMode::Maximum, summary()), Some(4200.0));
    assert_eq!(pick_frequency::<f64>(FreqDisplayMode::Maximum, None), None);
}

#[test]
fn base_frequency_falls_back() {
    assert_eq!(read_base_frequency_mhz(Some(2400.0), Some(4700.0)), Some(2400.0));
    assert_eq!(read_base_frequency_mhz(None, Some(4700.0)), Some(4700.0));
    assert_eq!(read_base_frequency_mhz::<f64>(None, None), None);
}

#[test]
fn effective_maximum() {
    let max = |pstate, turbo, base| {
        read_effective_max_frequency_mhz(pstate, turbo, base, Some(4700.0))
    };
    assert_eq!(max(true, Some(false), Some(2400.0)), Some(2400.0));
    assert_eq!(max(true, Some(false), None), Some(4700.0));
    assert_eq!(max(true, Some(true), Some(2400.0)), Some(4700.0));
    assert_eq!(max(true, None, Some(2400.0)), Some(4700.0));
    assert_eq!(max(false, Some(false), Some(2400.0)), Some(4700.0));
}

#[test]
fn core_numbers() {
    assert_eq!(core_id("cpu0"), Some(0));
    assert_eq!(core_id("cpu17"), Some(17));
    assert_eq!(core_id("cpu+3"), Some(3));
    assert_eq!(core_id("cpu4294967295"), Some(u32::MAX));
    assert_eq!(core_id("cpu4294967296"), None);
    assert_eq!(core_id("cpu"), None);
    assert_eq!(core_id("cpufreq"), None);
    assert_eq!(core_id("intel_pstate"), None);
}

#[test]
fn cores_are_sorted_by_number() {
    let entries = vec![
        ("cpu10".to_string(), Some(1000.0)),
        ("cpufreq".to_string(), Some(1.0)),
        ("cpu2".to_string(), Some(2000.0)),
        ("cpu3".to_string(), None),
        ("cpu0".to_string(), Some(3000.0)),
        ("cpu02".to_string(), Some(2500.0)),
    ];
    assert_eq!(
        read_per_core_frequencies_mhz(&entries),
        vec![(0, 3000.0), (2, 2000.0), (2, 2500.0), (10, 1000.0)]
    );
    assert_eq!(read_per_core_frequencies_mhz::<f64>(&vec![]), vec![]);
}
