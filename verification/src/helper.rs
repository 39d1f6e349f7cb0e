//! The privileged helper: what it is asked to do, and when it has to be installed.
//!
//! A command is the list of the arguments that the helper is run with.

use vstd::prelude::*;

use crate::cpu::FreqReading;
use crate::text::to_decimal;
#[allow(unused_imports)]
use crate::cpu::{law_turbo_reads_back, turbo_state, turbo_value};
#[allow(unused_imports)]
use crate::text::{
    begins_with, decimal, law_decimal_reads_back, law_prefixes, number, strings,
};

verus! {

/// The file name of the helper.
pub const HELPER_NAME: &'static str = "cosmic-cpufreqctl";

/// The file name of the policy that lets the helper run.
pub const POLICY_NAME: &'static str = "dev.skylar.cosmic-ext-applet-cpufreq.policy";

/// Where the helper is installed.
pub const SYSTEM_HELPER: &'static str = "/usr/bin/cosmic-cpufreqctl";

/// Where the policy is installed.
pub const SYSTEM_POLICY: &'static str = "/usr/share/polkit-1/actions/dev.skylar.cosmic-ext-applet-cpufreq.policy";

/// A command of one verb and one value.
fn command(verb: &str, value: String) -> (r: Vec<String>)
    ensures
        strings(r@) == seq![verb@, value@],
{
    let mut r: Vec<String> = Vec::new();
    r.push(verb.to_owned());
    r.push(value);
    assert(strings(r@) == seq![verb@, value@]);
    r
}

/// The command that switches turbo boost.
pub fn write_turbo(pstate: bool, enabled: bool) -> (r: Vec<String>)
    ensures
        strings(r@) == seq!["turbo-set"@, turbo_value(pstate, enabled)],
{
    let value = if pstate {
        if enabled {
            "0"
        } else {
            "1"
        }
    } else {
        if enabled {
            "1"
        } else {
            "0"
        }
    };
    command("turbo-set", value.to_owned())
}

/// The command that sets the governor of all CPUs.
pub fn write_governor(governor: &str) -> (r: Vec<String>)
    ensures
        strings(r@) == seq!["governor-set"@, governor@],
{
    command("governor-set", governor.to_owned())
}

/// The command that sets the energy performance preference of all CPUs.
pub fn write_epp(epp: &str) -> (r: Vec<String>)
    ensures
        strings(r@) == seq!["epp-set"@, epp@],
{
    command("epp-set", epp.to_owned())
}

/// Why a frequency could not be brought within its bounds.
#[derive(Clone, Copy, PartialEq, Eq, Structural, Debug)]
pub enum BoundError {
    MissingMinimum,
    MissingMaximum,
}

impl BoundError {
    /// What the error says.
    pub open spec fn message_of(self) -> Seq<char> {
        match self {
            BoundError::MissingMinimum => "missing minimum frequency bound"@,
            BoundError::MissingMaximum => "missing maximum frequency bound"@,
        }
    }

    /// Says what is wrong.
    pub fn message(self) -> (r: String)
        ensures
            r@ == self.message_of(),
    {
        match self {
            BoundError::MissingMinimum => "missing minimum frequency bound".to_owned(),
            BoundError::MissingMaximum => "missing maximum frequency bound".to_owned(),
        }
    }
}

/// `khz` brought within the bounds, both of which have to be known; the lower one is asked
/// for first.
pub open spec fn clamped(khz: u64, min: Option<u64>, max: Option<u64>) -> Result<u64, BoundError> {
    match (min, max) {
        (None, _) => Err(BoundError::MissingMinimum),
        (Some(_), None) => Err(BoundError::MissingMaximum),
        (Some(min), Some(max)) => Ok(
            if khz < min {
                min
            } else if khz > max {
                max
            } else {
                khz
            },
        ),
    }
}

/// Whether the bounds, where both are known, are in order.
pub open spec fn bounds_in_order(min: Option<u64>, max: Option<u64>) -> bool {
    min is Some && max is Some ==> min->0 <= max->0
}

/// Brings a frequency within the bounds of the hardware.
pub fn clamp_frequency_khz(khz: u64, min: Option<u64>, max: Option<u64>) -> (r: Result<
    u64,
    BoundError,
>)
    requires
        bounds_in_order(min, max),
    ensures
        r == clamped(khz, min, max),
        min is Some && max is Some && khz <= min->0 ==> r == Ok::<_, BoundError>(min->0),
        min is Some && max is Some && khz >= max->0 ==> r == Ok::<_, BoundError>(max->0),
        min is Some && max is Some && min->0 <= khz <= max->0 ==> r == Ok::<_, BoundError>(khz),
        r matches Ok(bounded) ==> min->0 <= bounded <= max->0,
{
    let min = match min {
        Some(min) => min,
        None => {
            return Err(BoundError::MissingMinimum);
        },
    };
    let max = match max {
        Some(max) => max,
        None => {
            return Err(BoundError::MissingMaximum);
        },
    };
    if khz < min {
        Ok(min)
    } else if khz > max {
        Ok(max)
    } else {
        Ok(khz)
    }
}

/// The command of `verb` with the bounded frequency, or the error where a bound is missing.
pub open spec fn limit_command(
    verb: Seq<char>,
    khz: u64,
    min: Option<u64>,
    max: Option<u64>,
) -> Result<Seq<Seq<char>>, BoundError> {
    match clamped(khz, min, max) {
        Ok(bounded) => Ok(seq![verb, decimal(bounded as nat)]),
        Err(e) => Err(e),
    }
}

/// The command that sets the lower limit of the frequency, in kHz, on all CPUs. The limit is
/// brought between the lowest frequency of the hardware and the highest that the kernel
/// accepts, which `hardware` gives in kHz.
pub fn write_scaling_min_khz(khz: u64, hardware: FreqReading<u64>) -> (r: Result<
    Vec<String>,
    BoundError,
>)
    requires
        bounds_in_order(hardware.hw_min, hardware.accepted()),
    ensures
        match r {
            Ok(args) => limit_command("freq-min-set"@, khz, hardware.hw_min, hardware.accepted())
                == Ok::<_, BoundError>(strings(args@)),
            Err(e) => limit_command("freq-min-set"@, khz, hardware.hw_min, hardware.accepted())
                == Err::<Seq<Seq<char>>, _>(e),
        },
{
    match clamp_frequency_khz(khz, hardware.hw_min, hardware.accepted_max()) {
        Ok(bounded) => Ok(command("freq-min-set", to_decimal(bounded))),
        Err(e) => Err(e),
    }
}

/// The command that sets the upper limit of the frequency, in kHz, on all CPUs, bounded as
/// the lower one is.
pub fn write_scaling_max_khz(khz: u64, hardware: FreqReading<u64>) -> (r: Result<
    Vec<String>,
    BoundError,
>)
    requires
        bounds_in_order(hardware.hw_min, hardware.accepted()),
    ensures
        match r {
            Ok(args) => limit_command("freq-max-set"@, khz, hardware.hw_min, hardware.accepted())
                == Ok::<_, BoundError>(strings(args@)),
            Err(e) => limit_command("freq-max-set"@, khz, hardware.hw_min, hardware.accepted())
                == Err::<Seq<Seq<char>>, _>(e),
        },
{
    match clamp_frequency_khz(khz, hardware.hw_min, hardware.accepted_max()) {
        Ok(bounded) => Ok(command("freq-max-set", to_decimal(bounded))),
        Err(e) => Err(e),
    }
}

/// A frequency that is within its bounds stays, so that a bounded one is not changed again.
pub proof fn law_clamp_settles(khz: u64, min: u64, max: u64)
    requires
        min <= max,
    ensures
        min <= khz <= max ==> clamped(khz, Some(min), Some(max)) == Ok::<_, BoundError>(khz),
        clamped(khz, Some(min), Some(max)) matches Ok(bounded) && clamped(
            bounded,
            Some(min),
            Some(max),
        ) == Ok::<_, BoundError>(bounded),
{
}

/// The frequency in a command reads as a number within the bounds, whatever was asked for.
pub proof fn law_command_stays_within_bounds(verb: Seq<char>, khz: u64, min: u64, max: u64)
    requires
        min <= max,
    ensures
        limit_command(verb, khz, Some(min), Some(max)) matches Ok(args) && args.len() == 2
            && args[0] == verb && (number(args[1], u64::MAX as nat) matches Some(n) && min <= n
            <= max),
{
    let bounded = clamped(khz, Some(min), Some(max))->Ok_0;
    law_decimal_reads_back(bounded as nat, u64::MAX as nat);
}

/// A limit that is set lies in the full range of the hardware, which the sliders show, also
/// where turbo is off and the kernel accepts less.
pub proof fn law_limits_stay_in_the_full_range(khz: u64, hardware: FreqReading<u64>)
    requires
        hardware.base is Some && hardware.turbo_max is Some ==> hardware.base->0
            <= hardware.turbo_max->0,
        bounds_in_order(hardware.hw_min, hardware.accepted()),
    ensures
        hardware.range() matches Some((low, high)) ==> (clamped(
            khz,
            hardware.hw_min,
            hardware.accepted(),
        ) matches Ok(bounded) && low <= bounded <= high),
{
}

/// The command line that runs the installed helper with `args`.
pub fn helper_command(args: Vec<String>) -> (r: Vec<String>)
    ensures
        strings(r@) == seq![SYSTEM_HELPER@] + strings(args@),
{
    let mut r: Vec<String> = Vec::new();
    r.push(SYSTEM_HELPER.to_owned());
    let mut rest = args;
    r.append(&mut rest);
    assert(strings(r@) == seq![SYSTEM_HELPER@] + strings(args@));
    r
}

/// What a run of the helper comes to: an error with what it printed, where it failed.
pub fn helper_outcome(success: bool, stderr: String) -> (r: Result<(), String>)
    ensures
        r == if success {
            Ok(())
        } else {
            Err(stderr)
        },
{
    if success {
        Ok(())
    } else {
        Err(stderr)
    }
}

/// Whether the installed copy of a file is the same as the local one; a file that could not
/// be read is `None` and the same as no other.
pub fn system_install_matches(local: Option<&Vec<u8>>, system: Option<&Vec<u8>>) -> (r: bool)
    ensures
        r == (local is Some && system is Some && local->0@ == system->0@),
{
    match (local, system) {
        (Some(a), Some(b)) => {
            if a.len() != b.len() {
                return false;
            }
            let mut i: usize = 0;
            while i < a.len()
                invariant
                    a@.len() == b@.len(),
                    i <= a@.len(),
                    forall|j: int| 0 <= j < i ==> a@[j] == b@[j],
                    local is Some && system is Some && local->0@ == a@ && system->0@ == b@,
                decreases a@.len() - i,
            {
                if a[i] != b[i] {
                    assert(a@[i as int] != b@[i as int]);
                    return false;
                }
                i += 1;
            }
            assert(a@ == b@);
            true
        },
        _ => false,
    }
}

/// A place where the helper and its policy may be found.
#[derive(Debug)]
pub struct LocalCopy {
    pub helper: String,
    pub policy: String,
    pub helper_exists: bool,
    pub policy_exists: bool,
}

impl LocalCopy {
    /// Whether both files are there.
    pub open spec fn complete(self) -> bool {
        self.helper_exists && self.policy_exists
    }
}

/// The paths of the helper and its policy below the home directory `home`.
pub fn home_paths(home: &str) -> (r: (String, String))
    ensures
        r.0@ == home@ + "/.local/bin/"@ + HELPER_NAME@,
        r.1@ == home@ + "/.local/bin/"@ + POLICY_NAME@,
{
    let helper = home.to_owned().concat("/.local/bin/").concat(HELPER_NAME);
    let policy = home.to_owned().concat("/.local/bin/").concat(POLICY_NAME);
    (helper, policy)
}

/// Chooses the local copy of the helper and its policy: the one beside the running program
/// where both files are there, else the one below the home directory.
pub fn find_local_paths(beside: Option<LocalCopy>, home: Option<LocalCopy>) -> (r: Option<
    (String, String),
>)
    ensures
        r == if beside is Some && beside->0.complete() {
            Some((beside->0.helper, beside->0.policy))
        } else if home is Some && home->0.complete() {
            Some((home->0.helper, home->0.policy))
        } else {
            None
        },
{
    if let Some(copy) = beside {
        if copy.helper_exists && copy.policy_exists {
            return Some((copy.helper, copy.policy));
        }
    }
    if let Some(copy) = home {
        if copy.helper_exists && copy.policy_exists {
            return Some((copy.helper, copy.policy));
        }
    }
    None
}

/// What is to be done to have the helper installed.
#[derive(Debug)]
pub enum InstallStep {
    /// The check was made before.
    AlreadyChecked,
    /// There is no local copy to install.
    NotFound,
    /// The installed copy is the same as the local one.
    UpToDate,
    /// The local helper has to be run, with privileges, by this command line.
    Install(Vec<String>),
}

/// What an `InstallStep` says.
#[verifier::ext_equal]
pub enum InstallStepView {
    AlreadyChecked,
    NotFound,
    UpToDate,
    Install(Seq<Seq<char>>),
}

impl View for InstallStep {
    type V = InstallStepView;

    open spec fn view(&self) -> InstallStepView {
        match *self {
            InstallStep::AlreadyChecked => InstallStepView::AlreadyChecked,
            InstallStep::NotFound => InstallStepView::NotFound,
            InstallStep::UpToDate => InstallStepView::UpToDate,
            InstallStep::Install(args) => InstallStepView::Install(strings(args@)),
        }
    }
}

/// Whether the program has checked yet that the helper is installed.
#[derive(Clone, Copy, PartialEq, Eq, Structural, Debug)]
pub struct InstallCheck {
    pub made: bool,
}

impl Default for InstallCheck {
    /// The check of a program that has just started.
    fn default() -> (r: Self)
        ensures
            !r.made,
    {
        InstallCheck { made: false }
    }
}

impl InstallCheck {
    /// Whether the check is still to be made.
    pub fn due(&self) -> (r: bool)
        ensures
            r == !self.made,
    {
        !self.made
    }
}

/// The check after a use of the helper.
pub open spec fn after_use(check: InstallCheck) -> InstallCheck {
    InstallCheck { made: true }
}

/// The paths of the local helper and policy, where there are any.
pub open spec fn path_texts(paths: Option<(String, String)>) -> Option<(Seq<char>, Seq<char>)> {
    match paths {
        Some((helper, policy)) => Some((helper@, policy@)),
        None => None,
    }
}

/// What the check comes to: it is made once; where there is a local copy and the installed
/// helper or policy is not the same, the local copy is installed.
pub open spec fn install_step(
    check: InstallCheck,
    paths: Option<(Seq<char>, Seq<char>)>,
    helper_matches: bool,
    policy_matches: bool,
) -> InstallStepView {
    if check.made {
        InstallStepView::AlreadyChecked
    } else {
        match paths {
            None => InstallStepView::NotFound,
            Some((helper, policy)) => if helper_matches && policy_matches {
                InstallStepView::UpToDate
            } else {
                InstallStepView::Install(seq![helper, "install"@, helper, policy])
            },
        }
    }
}

/// Decides whether the helper has to be installed. `paths` are those of the local helper
/// and policy; the arguments behind it tell whether the installed copies are the same. They
/// are looked at only where the check is due.
pub fn ensure_installed(
    check: &mut InstallCheck,
    paths: Option<(String, String)>,
    helper_matches: bool,
    policy_matches: bool,
) -> (r: InstallStep)
    ensures
        r@ == install_step(*old(check), path_texts(paths), helper_matches, policy_matches),
        *final(check) == after_use(*old(check)),
{
    if check.made {
        return InstallStep::AlreadyChecked;
    }
    check.made = true;
    match paths {
        None => InstallStep::NotFound,
        Some((helper, policy)) => {
            if !helper_matches || !policy_matches {
                let mut args: Vec<String> = Vec::new();
                args.push(helper.clone());
                args.push("install".to_owned());
                args.push(helper);
                args.push(policy);
                assert(strings(args@) == seq![helper@, "install"@, helper@, policy@]);
                InstallStep::Install(args)
            } else {
                InstallStep::UpToDate
            }
        },
    }
}

/// The check is made once: after one use, whatever came of it and whatever the files have
/// become, every later use runs nothing and leaves the check as it is.
pub proof fn law_install_check_is_made_once(
    check: InstallCheck,
    paths: Option<(Seq<char>, Seq<char>)>,
    helper_matches: bool,
    policy_matches: bool,
)
    ensures
        install_step(after_use(check), paths, helper_matches, policy_matches)
            == InstallStepView::AlreadyChecked,
        after_use(after_use(check)) == after_use(check),
{
}

/// The first check runs an install exactly where there is a local copy and one of the
/// installed files is not the same as its local one.
pub proof fn law_first_check_installs_what_differs(
    paths: Option<(Seq<char>, Seq<char>)>,
    helper_matches: bool,
    policy_matches: bool,
)
    ensures
        install_step(InstallCheck { made: false }, paths, helper_matches, policy_matches)
            is Install <==> paths is Some && !(helper_matches && policy_matches),
{
}

/// What running the helper takes: the step that sees to its installation, then the command
/// line, which is run whatever came of that step.
#[derive(Debug)]
pub struct HelperRun {
    pub install: InstallStep,
    pub command: Vec<String>,
}

/// Plans a run of the helper with `args`. What came of the installation is no part of what
/// the run comes to: that is `helper_outcome` of the command line alone.
pub fn run_helper(
    check: &mut InstallCheck,
    paths: Option<(String, String)>,
    helper_matches: bool,
    policy_matches: bool,
    args: Vec<String>,
) -> (r: HelperRun)
    ensures
        r.install@ == install_step(*old(check), path_texts(paths), helper_matches, policy_matches),
        strings(r.command@) == seq![SYSTEM_HELPER@] + strings(args@),
        *final(check) == after_use(*old(check)),
{
    let install = ensure_installed(check, paths, helper_matches, policy_matches);
    HelperRun { install, command: helper_command(args) }
}

/// How far two frequencies are apart.
pub open spec fn distance(a: u64, b: u64) -> int {
    if a <= b {
        b - a
    } else {
        a - b
    }
}

/// A frequency is brought to the nearest one within the bounds: to the lower bound from below,
/// to the upper bound from above, and a greater frequency never to a lesser one.
pub proof fn law_clamp_gives_the_nearest(
    khz: u64,
    greater: u64,
    within: u64,
    min: Option<u64>,
    max: Option<u64>,
)
    requires
        min is Some && max is Some ==> min->0 <= max->0,
    ensures
        min is None ==> clamped(khz, min, max) == Err::<u64, _>(BoundError::MissingMinimum),
        min is Some && max is None ==> clamped(khz, min, max) == Err::<u64, _>(
            BoundError::MissingMaximum,
        ),
        min is Some && max is Some ==> (clamped(khz, min, max) matches Ok(bounded) && {
            &&& khz <= min->0 ==> bounded == min->0
            &&& khz >= max->0 ==> bounded == max->0
            &&& min->0 <= khz <= max->0 ==> bounded == khz
            &&& min->0 <= within <= max->0 ==> distance(khz, bounded) <= distance(khz, within)
            &&& khz <= greater ==> (clamped(greater, min, max) matches Ok(above) && bounded
                <= above)
        }),
{
}

/// A command that sets a limit is its verb and the frequency that is nearest to the one asked
/// for, in base ten.
pub proof fn law_commands_carry_the_nearest(
    verb: Seq<char>,
    khz: u64,
    min: Option<u64>,
    max: Option<u64>,
)
    requires
        min is Some && max is Some ==> min->0 <= max->0,
    ensures
        limit_command(verb, khz, min, max) is Ok <==> min is Some && max is Some,
        limit_command(verb, khz, min, max) matches Err(e) ==> (e == if min is None {
            BoundError::MissingMinimum
        } else {
            BoundError::MissingMaximum
        }),
        limit_command(verb, khz, min, max) matches Ok(args) ==> {
            &&& args.len() == 2
            &&& args[0] == verb
            &&& khz <= min->0 ==> args[1] == decimal(min->0 as nat)
            &&& khz >= max->0 ==> args[1] == decimal(max->0 as nat)
            &&& min->0 <= khz <= max->0 ==> args[1] == decimal(khz as nat)
        },
{
}

/// The first check finds nothing without a local copy, has nothing to do where both files are
/// the same, and else runs the local helper to install itself and its policy.
pub proof fn law_first_check_decides(
    helper: Seq<char>,
    policy: Seq<char>,
    helper_matches: bool,
    policy_matches: bool,
)
    ensures
        ({
            let fresh = InstallCheck { made: false };
            let step = install_step(fresh, Some((helper, policy)), helper_matches, policy_matches);
            &&& install_step(fresh, None, helper_matches, policy_matches) is NotFound
            &&& helper_matches && policy_matches ==> step is UpToDate
            &&& !helper_matches || !policy_matches ==> (step matches InstallStepView::Install(args)
                && {
                &&& args.len() == 4
                &&& args[0] == helper
                &&& args[1] == seq!['i', 'n', 's', 't', 'a', 'l', 'l']
                &&& args[2] == helper
                &&& args[3] == policy
            })
        }),
{
    reveal_strlit("install");
    assert("install"@ =~= seq!['i', 'n', 's', 't', 'a', 'l', 'l']);
}

/// The check is marked as made by its first use, and the paths keep their texts.
pub proof fn law_use_marks_the_check(check: InstallCheck, helper: String, policy: String)
    ensures
        after_use(check).made,
        path_texts(Some((helper, policy))) == Some((helper@, policy@)),
        path_texts(None) is None,
        (LocalCopy { helper, policy, helper_exists: true, policy_exists: true }).complete(),
        !(LocalCopy { helper, policy, helper_exists: false, policy_exists: true }).complete(),
        !(LocalCopy { helper, policy, helper_exists: true, policy_exists: false }).complete(),
{
}

/// A run of the helper comes to an error exactly where it failed, with all that it printed.
pub proof fn law_failures_are_reported(success: bool, stderr: String, r: Result<(), String>)
    requires
        call_ensures(helper_outcome, (success, stderr), r),
    ensures
        r is Ok <==> success,
        r matches Err(e) ==> e == stderr,
{
}

/// The command that sets a governor or a preference is its verb and that name.
pub proof fn law_commands_carry_the_name(name: &str, governor: Vec<String>, epp: Vec<String>)
    requires
        call_ensures(write_governor, (name,), governor),
        call_ensures(write_epp, (name,), epp),
    ensures
        governor@.len() == 2 && governor@[0]@ == "governor-set"@ && governor@[1]@ == name@,
        epp@.len() == 2 && epp@[0]@ == "epp-set"@ && epp@[1]@ == name@,
{
    assert(strings(governor@).len() == 2);
    assert(strings(governor@)[0] == governor@[0]@ && strings(governor@)[1] == governor@[1]@);
    assert(strings(epp@).len() == 2);
    assert(strings(epp@)[0] == epp@[0]@ && strings(epp@)[1] == epp@[1]@);
}

/// The command that switches turbo writes the digit that reads back as the state asked for.
pub proof fn law_turbo_commands_read_back(pstate: bool, enabled: bool, args: Vec<String>)
    requires
        call_ensures(write_turbo, (pstate, enabled), args),
    ensures
        args@.len() == 2,
        args@[0]@ == "turbo-set"@,
        args@[1]@ == seq!['1'] || args@[1]@ == seq!['0'],
        turbo_state(pstate, args@[1]@) == enabled,
        (args@[1]@ == seq!['1']) == (pstate != enabled),
{
    reveal_strlit("0");
    reveal_strlit("1");
    assert("0"@ =~= seq!['0']);
    assert("1"@ =~= seq!['1']);
    assert(seq!['0'][0] != seq!['1'][0]);
    law_turbo_reads_back(pstate, enabled);
    assert(strings(args@).len() == 2);
    assert(strings(args@)[0] == args@[0]@ && strings(args@)[1] == args@[1]@);
}

/// The command line is the installed helper and then all arguments, in their order.
pub proof fn law_command_lines_keep_the_arguments(args: Vec<String>, r: Vec<String>, i: int)
    requires
        call_ensures(helper_command, (args,), r),
    ensures
        r@.len() == args@.len() + 1,
        r@[0]@ == SYSTEM_HELPER@,
        0 <= i < args@.len() ==> r@[i + 1]@ == args@[i]@,
{
    assert(strings(r@).len() == args@.len() + 1);
    assert(strings(r@)[0] == r@[0]@);
    if 0 <= i < args@.len() {
        assert(strings(r@)[i + 1] == r@[i + 1]@);
        assert(strings(args@)[i] == args@[i]@);
    }
}

/// An installed file is the same as the local one exactly where both could be read and hold
/// the same bytes.
pub proof fn law_same_files_hold_the_same_bytes(local: &Vec<u8>, system: &Vec<u8>, r: bool, n: bool)
    requires
        call_ensures(system_install_matches, (Some(local), Some(system)), r),
        call_ensures(system_install_matches, (Some(local), None::<&Vec<u8>>), n),
    ensures
        r <==> local@.len() == system@.len() && forall|i: int|
            0 <= i < local@.len() ==> local@[i] == system@[i],
        !n,
{
    if local@.len() == system@.len() && forall|i: int|
        0 <= i < local@.len() ==> local@[i] == system@[i] {
        assert(local@ =~= system@);
    }
}

/// The copy beside the program comes first and the one below the home directory second; a copy
/// of which a file is missing does not count, and the paths are those of one copy.
pub proof fn law_local_copies_are_complete(
    beside: Option<LocalCopy>,
    home: Option<LocalCopy>,
    r: Option<(String, String)>,
)
    requires
        call_ensures(find_local_paths, (beside, home), r),
    ensures
        ({
            let first = beside is Some && beside->0.helper_exists && beside->0.policy_exists;
            let second = home is Some && home->0.helper_exists && home->0.policy_exists;
            &&& r is Some <==> first || second
            &&& first ==> r == Some((beside->0.helper, beside->0.policy))
            &&& !first && second ==> r == Some((home->0.helper, home->0.policy))
        }),
{
}

/// The check is due until it was made.
pub proof fn law_check_is_due_until_made(check: InstallCheck, r: bool)
    requires
        call_ensures(InstallCheck::due, (&check,), r),
    ensures
        r == !check.made,
{
}

/// A step says what it holds.
pub proof fn law_steps_say_what_they_hold(step: InstallStep, i: int)
    ensures
        match (step, step@) {
            (InstallStep::AlreadyChecked, InstallStepView::AlreadyChecked) => true,
            (InstallStep::NotFound, InstallStepView::NotFound) => true,
            (InstallStep::UpToDate, InstallStepView::UpToDate) => true,
            (InstallStep::Install(args), InstallStepView::Install(v)) => v.len() == args@.len() && (
            0 <= i < args@.len() ==> v[i] == args@[i]@),
            _ => false,
        },
{
}

/// The paths below a home directory begin with it, and go on in the same way below any.
pub proof fn law_home_paths_stand_below_home(
    home: &str,
    other: &str,
    r: (String, String),
    o: (String, String),
)
    requires
        call_ensures(home_paths, (home,), r),
        call_ensures(home_paths, (other,), o),
    ensures
        r.0@ == home@ + "/.local/bin/"@ + HELPER_NAME@,
        r.1@ == home@ + "/.local/bin/"@ + POLICY_NAME@,
        begins_with(r.0@, home@) && begins_with(r.1@, home@),
        r.0@.skip(home@.len() as int) == o.0@.skip(other@.len() as int),
        r.1@.skip(home@.len() as int) == o.1@.skip(other@.len() as int),
{
    let helper = "/.local/bin/"@ + HELPER_NAME@;
    let policy = "/.local/bin/"@ + POLICY_NAME@;
    assert(r.0@ =~= home@ + helper);
    assert(r.1@ =~= home@ + policy);
    assert(o.0@ =~= other@ + helper);
    assert(o.1@ =~= other@ + policy);
    law_prefixes(home@, helper, r.0@);
    law_prefixes(home@, policy, r.1@);
    law_prefixes(other@, helper, o.0@);
    law_prefixes(other@, policy, o.1@);
}

} // verus!
