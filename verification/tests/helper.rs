use cpufreq_applet::cpu::{read_turbo_enabled, FreqReading};
use cpufreq_applet::helper::{
    clamp_frequency_khz, ensure_installed, find_local_paths, helper_command, helper_outcome,
    home_paths, run_helper, system_install_matches, write_epp, write_governor,
    write_scaling_max_khz, write_scaling_min_khz, write_turbo, BoundError, InstallCheck,
    InstallStep, LocalCopy,
};

#[test]
fn turbo_commands() {
    assert_eq!(write_turbo(true, true), vec!["turbo-set", "0"]);
    assert_eq!(write_turbo(true, false), vec!["turbo-set", "1"]);
    assert_eq!(write_turbo(false, true), vec!["turbo-set", "1"]);
    assert_eq!(write_turbo(false, false), vec!["turbo-set", "0"]);
}

#[test]
fn turbo_reads_back() {
    for pstate in [false, true] {
        for enabled in [false, true] {
            let value = write_turbo(pstate, enabled)[1].clone() + "\n";
            assert_eq!(read_turbo_enabled(pstate, Some(&value)), Some(enabled));
        }
    }
}

#[test]
fn name_commands() {
    assert_eq!(write_governor("powersave"), vec!["governor-set", "powersave"]);
    assert_eq!(write_epp("balance_power"), vec!["epp-set", "balance_power"]);
}

#[test]
fn clamping() {
    let clamp = |khz| clamp_frequency_khz(khz, Some(800_000), Some(4_200_000));
    assert_eq!(clamp(100), Ok(800_000));
    assert_eq!(clamp(800_000), Ok(800_000));
    assert_eq!(clamp(2_000_000), Ok(2_000_000));
    assert_eq!(clamp(u64::MAX), Ok(4_200_000));
    assert_eq!(clamp_frequency_khz(1, None, Some(2)), Err(BoundError::MissingMinimum));
    assert_eq!(clamp_frequency_khz(1, None, None), Err(BoundError::MissingMinimum));
    assert_eq!(clamp_frequency_khz(1, Some(0), None), Err(BoundError::MissingMaximum));
}

#[test]
fn bound_errors_say_what_is_missing() {
    assert_eq!(BoundError::MissingMinimum.message(), "missing minimum frequency bound");
    assert_eq!(BoundError::MissingMaximum.message(), "missing maximum frequency bound");
}

fn hardware(hw_min: Option<u64>, turbo_max: Option<u64>) -> FreqReading<u64> {
    FreqReading { pstate: true, turbo: Some(true), hw_min, base: None, turbo_max }
}

#[test]
fn limits_are_those_the_kernel_accepts() {
    let mut cpu = FreqReading {
        base: Some(2_400_000),
        ..hardware(Some(800_000), Some(4_800_000))
    };
    let set = |cpu| write_scaling_max_khz(4_000_000, cpu).unwrap()[1].clone();
    assert_eq!(set(cpu), "4000000");
    cpu.turbo = Some(false);
    assert_eq!(set(cpu), "2400000");
    assert_eq!(cpu.full_range(), Some((800_000, 4_800_000)));
    assert_eq!(cpu.accepted_max(), Some(2_400_000));
    cpu.pstate = false;
    assert_eq!(set(cpu), "4000000");
}

#[test]
fn limit_commands() {
    assert_eq!(
        write_scaling_min_khz(1_500_000, hardware(Some(800_000), Some(4_200_000))).unwrap(),
        vec!["freq-min-set", "1500000"]
    );
    assert_eq!(
        write_scaling_max_khz(9_000_000, hardware(Some(800_000), Some(4_200_000))).unwrap(),
        vec!["freq-max-set", "4200000"]
    );
    assert_eq!(
        write_scaling_min_khz(1, hardware(None, Some(2))),
        Err(BoundError::MissingMinimum)
    );
    assert_eq!(
        write_scaling_max_khz(1, hardware(Some(1), None)),
        Err(BoundError::MissingMaximum)
    );
}

#[test]
fn helper_command_line() {
    assert_eq!(
        helper_command(write_governor("performance")),
        vec!["/usr/bin/cosmic-cpufreqctl", "governor-set", "performance"]
    );
}

#[test]
fn helper_outcomes() {
    assert_eq!(helper_outcome(true, "noise".to_string()), Ok(()));
    assert_eq!(helper_outcome(false, "denied".to_string()), Err("denied".to_string()));
}

#[test]
fn installed_copies() {
    let a = vec![1u8, 2, 3];
    let b = vec![1u8, 2, 4];
    let c = vec![1u8, 2];
    assert!(system_install_matches(Some(&a), Some(&a.clone())));
    assert!(!system_install_matches(Some(&a), Some(&b)));
    assert!(!system_install_matches(Some(&a), Some(&c)));
    assert!(!system_install_matches(Some(&a), None));
    assert!(!system_install_matches(None, Some(&a)));
    assert!(!system_install_matches(None, None));
}

fn copy(place: &str, helper_exists: bool, policy_exists: bool) -> Option<LocalCopy> {
    Some(LocalCopy {
        helper: format!("{place}/h"),
        policy: format!("{place}/p"),
        helper_exists,
        policy_exists,
    })
}

#[test]
fn local_copies() {
    let exe = Some(("exe/h".to_string(), "exe/p".to_string()));
    let home = Some(("home/h".to_string(), "home/p".to_string()));
    assert_eq!(find_local_paths(copy("exe", true, true), copy("home", true, true)), exe);
    assert_eq!(find_local_paths(copy("exe", true, false), copy("home", true, true)), home);
    assert_eq!(find_local_paths(copy("exe", false, true), copy("home", true, true)), home);
    assert_eq!(find_local_paths(None, copy("home", true, true)), home);
    assert_eq!(find_local_paths(None, copy("home", true, false)), None);
    assert_eq!(find_local_paths(None, None), None);
}

#[test]
fn paths_below_home() {
    assert_eq!(
        home_paths("/home/u"),
        (
            "/home/u/.local/bin/cosmic-cpufreqctl".to_string(),
            "/home/u/.local/bin/dev.skylar.cosmic-ext-applet-cpufreq.policy".to_string(),
        )
    );
}

fn paths() -> Option<(String, String)> {
    Some(("/x/h".to_string(), "/x/p".to_string()))
}

#[test]
fn installing() {
    let step = |paths, helper, policy| {
        ensure_installed(&mut InstallCheck::default(), paths, helper, policy)
    };
    assert!(matches!(step(None, false, false), InstallStep::NotFound));
    assert!(matches!(step(paths(), true, true), InstallStep::UpToDate));
    for (helper, policy) in [(false, true), (true, false), (false, false)] {
        match step(paths(), helper, policy) {
            InstallStep::Install(args) => {
                assert_eq!(args, vec!["/x/h", "install", "/x/h", "/x/p"])
            }
            other => panic!("{other:?}"),
        }
    }
}

#[test]
fn installing_is_checked_once() {
    for first in [None, paths()] {
        let mut check = InstallCheck::default();
        assert!(check.due());
        ensure_installed(&mut check, first, false, false);
        assert!(!check.due());
        for later in [None, paths()] {
            let step = ensure_installed(&mut check, later, false, false);
            assert!(matches!(step, InstallStep::AlreadyChecked));
            assert!(!check.due());
        }
    }
}

#[test]
fn helper_runs_whatever_the_install_step() {
    let mut check = InstallCheck::default();
    let command = vec!["/usr/bin/cosmic-cpufreqctl", "epp-set", "power"];
    let first = run_helper(&mut check, paths(), false, true, write_epp("power"));
    assert!(matches!(first.install, InstallStep::Install(_)));
    assert_eq!(first.command, command);
    let second = run_helper(&mut check, paths(), false, true, write_epp("power"));
    assert!(matches!(second.install, InstallStep::AlreadyChecked));
    assert_eq!(second.command, command);
    let none = run_helper(&mut InstallCheck::default(), None, false, false, write_epp("power"));
    assert!(matches!(none.install, InstallStep::NotFound));
    assert_eq!(none.command, command);
}

#[test]
fn bounded_frequencies_stay() {
    for khz in [0, 1, 800_000, 1_000_000, u64::MAX] {
        let once = clamp_frequency_khz(khz, Some(800_000), Some(1_000_000)).unwrap();
        assert_eq!(clamp_frequency_khz(once, Some(800_000), Some(1_000_000)), Ok(once));
        let args = write_scaling_min_khz(khz, hardware(Some(800_000), Some(1_000_000))).unwrap();
        assert_eq!(args[1].parse::<u64>(), Ok(once));
    }
}
