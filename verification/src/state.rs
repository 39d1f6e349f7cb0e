//! The applet's state, what happens to it and what it asks for.
//!
//! The applet does no input or output itself. A [`Message`] tells it what the user or the
//! clock did; an [`Action`] tells the program around it what to read, write or show; a
//! [`Reply`] brings back what came of that.

use vstd::prelude::*;

use crate::config::{CpuFreqConfig, Setting};
use crate::cpu::{FreqReading, FreqSummary};
use crate::label::prettified;
#[allow(unused_imports)]
use crate::text::strings;
use crate::usage::{CpuUsage, CpuUsageSnapshot, SnapshotView};

verus! {

/// The state of the applet. `F` is the type of a frequency.
#[derive(Debug)]
pub struct Applet<F> {
    /// The window of the popup, while it is open.
    pub popup: Option<u64>,
    pub config: CpuFreqConfig,
    /// Whether there is a store to save settings in.
    pub config_handler: bool,
    /// The frequency that the panel shows.
    pub current_freq_mhz: Option<F>,
    pub turbo_enabled: Option<bool>,
    pub current_governor: Option<String>,
    pub available_governors: Vec<String>,
    pub current_epp: Option<String>,
    pub available_epp: Vec<String>,
    /// The lowest frequency of the hardware and its highest with turbo, which the sliders
    /// range over.
    pub freq_bounds: Option<(F, F)>,
    pub scaling_min_mhz: Option<F>,
    pub scaling_max_mhz: Option<F>,
    /// The values of the sliders while they are dragged, not written yet.
    pub preview_min_mhz: Option<F>,
    pub preview_max_mhz: Option<F>,
    /// The text in the field for the update interval.
    pub update_interval_input: String,
    pub show_settings: bool,
    pub cpu_model: Option<String>,
    pub machine_vendor: Option<String>,
    pub machine_model: Option<String>,
    pub os_name: Option<String>,
    pub kernel_version: Option<String>,
    pub per_core_freqs: Vec<(u32, F)>,
    /// The counters of the last reading.
    pub cpu_usage_prev: Option<CpuUsageSnapshot>,
    pub cpu_usage: Option<CpuUsage>,
    pub per_core_usage: Vec<CpuUsage>,
    pub memory_used_kb: Option<u64>,
    pub memory_total_kb: Option<u64>,
    /// The labels of the governors and preferences on offer.
    pub governor_labels: Vec<String>,
    pub epp_labels: Vec<String>,
}

/// What an `Applet` holds.
#[verifier::ext_equal]
pub struct AppletView<F> {
    pub popup: Option<u64>,
    pub config: CpuFreqConfig,
    pub config_handler: bool,
    pub current_freq_mhz: Option<F>,
    pub turbo_enabled: Option<bool>,
    pub current_governor: Option<Seq<char>>,
    pub available_governors: Seq<Seq<char>>,
    pub current_epp: Option<Seq<char>>,
    pub available_epp: Seq<Seq<char>>,
    pub freq_bounds: Option<(F, F)>,
    pub scaling_min_mhz: Option<F>,
    pub scaling_max_mhz: Option<F>,
    pub preview_min_mhz: Option<F>,
    pub preview_max_mhz: Option<F>,
    pub update_interval_input: Seq<char>,
    pub show_settings: bool,
    pub cpu_model: Option<Seq<char>>,
    pub machine_vendor: Option<Seq<char>>,
    pub machine_model: Option<Seq<char>>,
    pub os_name: Option<Seq<char>>,
    pub kernel_version: Option<Seq<char>>,
    pub per_core_freqs: Seq<(u32, F)>,
    pub cpu_usage_prev: Option<SnapshotView>,
    pub cpu_usage: Option<CpuUsage>,
    pub per_core_usage: Seq<CpuUsage>,
    pub memory_used_kb: Option<u64>,
    pub memory_total_kb: Option<u64>,
    pub governor_labels: Seq<Seq<char>>,
    pub epp_labels: Seq<Seq<char>>,
}

/// The text of a string that may be missing.
pub open spec fn text_of(s: Option<String>) -> Option<Seq<char>> {
    match s {
        Some(s) => Some(s@),
        None => None,
    }
}

/// What a snapshot that may be missing holds.
pub open spec fn snapshot_of(s: Option<CpuUsageSnapshot>) -> Option<SnapshotView> {
    match s {
        Some(s) => Some(s@),
        None => None,
    }
}

impl<F> View for Applet<F> {
    type V = AppletView<F>;

    open spec fn view(&self) -> AppletView<F> {
        AppletView {
            popup: self.popup,
            config: self.config,
            config_handler: self.config_handler,
            current_freq_mhz: self.current_freq_mhz,
            turbo_enabled: self.turbo_enabled,
            current_governor: text_of(self.current_governor),
            available_governors: strings(self.available_governors@),
            current_epp: text_of(self.current_epp),
            available_epp: strings(self.available_epp@),
            freq_bounds: self.freq_bounds,
            scaling_min_mhz: self.scaling_min_mhz,
            scaling_max_mhz: self.scaling_max_mhz,
            preview_min_mhz: self.preview_min_mhz,
            preview_max_mhz: self.preview_max_mhz,
            update_interval_input: self.update_interval_input@,
            show_settings: self.show_settings,
            cpu_model: text_of(self.cpu_model),
            machine_vendor: text_of(self.machine_vendor),
            machine_model: text_of(self.machine_model),
            os_name: text_of(self.os_name),
            kernel_version: text_of(self.kernel_version),
            per_core_freqs: self.per_core_freqs@,
            cpu_usage_prev: snapshot_of(self.cpu_usage_prev),
            cpu_usage: self.cpu_usage,
            per_core_usage: self.per_core_usage@,
            memory_used_kb: self.memory_used_kb,
            memory_total_kb: self.memory_total_kb,
            governor_labels: strings(self.governor_labels@),
            epp_labels: strings(self.epp_labels@),
        }
    }
}

/// The labels of a list of names.
pub open spec fn labels_of(names: Seq<Seq<char>>) -> Seq<Seq<char>> {
    Seq::new(names.len(), |i: int| prettified(names[i]))
}

impl<F> AppletView<F> {
    /// Whether the labels are those of the names on offer, place by place.
    pub open spec fn labels_fit(self) -> bool {
        &&& self.governor_labels == labels_of(self.available_governors)
        &&& self.epp_labels == labels_of(self.available_epp)
    }
}

/// What is read when the applet starts.
#[derive(Debug)]
pub struct StartReading<F> {
    pub turbo_enabled: Option<bool>,
    pub current_governor: Option<String>,
    pub available_governors: Vec<String>,
    pub current_epp: Option<String>,
    pub available_epp: Vec<String>,
    pub hardware: FreqReading<F>,
    pub scaling_min_mhz: Option<F>,
    pub scaling_max_mhz: Option<F>,
    /// What sums up the frequencies of the cores, where there are any.
    pub summary: Option<FreqSummary<F>>,
    pub cpu_model: Option<String>,
    pub machine_info: Option<(String, String)>,
    pub os_name: Option<String>,
    pub kernel_version: Option<String>,
}

/// What the user or the clock did.
#[derive(Debug, Clone, PartialEq)]
pub enum Message<F> {
    /// The update interval has passed.
    Tick,
    ToggleWindow,
    PopupClosed(u64),
    SetTurbo(bool),
    SetGovernor(usize),
    SetEpp(usize),
    /// A slider is being dragged.
    PreviewScalingMin(F),
    PreviewScalingMax(F),
    /// A slider was let go.
    CommitScalingMin,
    CommitScalingMax,
    UpdateIntervalChanged(String),
    ToggleSettings,
    SetFreqDisplayMode(usize),
    SetShowPerCoreUsage(bool),
    SetShowCpuUsage(bool),
    SetShowMemoryUsage(bool),
    SetLayout(usize),
}

/// What the program around the applet is to do.
#[derive(Debug)]
pub enum Action<F> {
    /// Nothing.
    Nothing,
    /// Read the frequencies of the cores and the state of turbo: `Reply::Frequencies`.
    ReadFrequencies,
    /// Switch turbo back from the state that was observed: `Reply::TurboRestored`.
    RestoreTurbo { enabled: bool, observed: Option<bool> },
    /// Read the governor, the preference, and as told the limits and the usage:
    /// `Reply::Status`.
    ReadStatus { scaling_min: bool, scaling_max: bool, usage: bool },
    /// Close the popup's window.
    ClosePopup(u64),
    /// Read what a new popup shows and give it a window: `Reply::PopupData`.
    ReadPopupData,
    /// Open the popup's window.
    OpenPopup { id: u64, width: u32 },
    /// Switch turbo, then read the limits: `Reply::TurboWritten`.
    WriteTurbo(bool),
    /// Set the governor: `Reply::GovernorWritten`.
    WriteGovernor(String),
    /// Set the preference: `Reply::EppWritten`.
    WriteEpp(String),
    /// Set the lower limit: `Reply::ScalingMinWritten`.
    WriteScalingMin(F),
    /// Set the upper limit: `Reply::ScalingMaxWritten`.
    WriteScalingMax(F),
    /// Save a setting: `Reply::Saved`.
    Save(Setting),
    /// Switch turbo to the saved state at the start: `Reply::SavedTurboRestored`.
    RestoreSavedTurbo(bool),
}

/// What an `Action` says.
#[verifier::ext_equal]
pub enum ActionView<F> {
    Nothing,
    ReadFrequencies,
    RestoreTurbo { enabled: bool, observed: Option<bool> },
    ReadStatus { scaling_min: bool, scaling_max: bool, usage: bool },
    ClosePopup(u64),
    ReadPopupData,
    OpenPopup { id: u64, width: u32 },
    WriteTurbo(bool),
    WriteGovernor(Seq<char>),
    WriteEpp(Seq<char>),
    WriteScalingMin(F),
    WriteScalingMax(F),
    Save(Setting),
    RestoreSavedTurbo(bool),
}

impl<F> View for Action<F> {
    type V = ActionView<F>;

    open spec fn view(&self) -> ActionView<F> {
        match *self {
            Action::Nothing => ActionView::Nothing,
            Action::ReadFrequencies => ActionView::ReadFrequencies,
            Action::RestoreTurbo { enabled, observed } => ActionView::RestoreTurbo {
                enabled,
                observed,
            },
            Action::ReadStatus { scaling_min, scaling_max, usage } => ActionView::ReadStatus {
                scaling_min,
                scaling_max,
                usage,
            },
            Action::ClosePopup(id) => ActionView::ClosePopup(id),
            Action::ReadPopupData => ActionView::ReadPopupData,
            Action::OpenPopup { id, width } => ActionView::OpenPopup { id, width },
            Action::WriteTurbo(enabled) => ActionView::WriteTurbo(enabled),
            Action::WriteGovernor(name) => ActionView::WriteGovernor(name@),
            Action::WriteEpp(name) => ActionView::WriteEpp(name@),
            Action::WriteScalingMin(mhz) => ActionView::WriteScalingMin(mhz),
            Action::WriteScalingMax(mhz) => ActionView::WriteScalingMax(mhz),
            Action::Save(setting) => ActionView::Save(setting),
            Action::RestoreSavedTurbo(enabled) => ActionView::RestoreSavedTurbo(enabled),
        }
    }
}

/// What is read at every tick once turbo is settled. The limits and the usage are looked at
/// only where they were asked for.
#[derive(Debug)]
pub struct StatusReading<F> {
    pub governor: Option<String>,
    pub epp: Option<String>,
    pub scaling_min: Option<F>,
    pub scaling_max: Option<F>,
    pub snapshot: Option<CpuUsageSnapshot>,
    /// The used and the total memory, in kilobytes.
    pub memory: Option<(u64, u64)>,
}

/// What is read when the popup opens.
#[derive(Debug)]
pub struct PopupReading<F> {
    pub governors: Vec<String>,
    pub epp: Vec<String>,
    pub hardware: FreqReading<F>,
    pub cores: Vec<(u32, F)>,
    pub snapshot: Option<CpuUsageSnapshot>,
    /// The used and the total memory, in kilobytes.
    pub memory: Option<(u64, u64)>,
}

/// What is read of the hardware and the limits once turbo was switched.
#[derive(Debug)]
pub struct FreqLimits<F> {
    pub hardware: FreqReading<F>,
    pub scaling_min: Option<F>,
    pub scaling_max: Option<F>,
}

/// What came of an action.
#[derive(Debug)]
pub enum Reply<F> {
    /// `summary` sums up `cores`, where there are any.
    Frequencies {
        cores: Vec<(u32, F)>,
        summary: Option<FreqSummary<F>>,
        system_turbo: Option<bool>,
    },
    TurboRestored { observed: Option<bool>, done: bool },
    Status(StatusReading<F>),
    /// `id` is the new window.
    PopupData { id: u64, reading: PopupReading<F> },
    /// `limits` is `None` where turbo could not be switched.
    TurboWritten { enabled: bool, limits: Option<FreqLimits<F>> },
    GovernorWritten { governor: String, done: bool },
    EppWritten { epp: String, done: bool },
    ScalingMinWritten { mhz: F, done: bool },
    ScalingMaxWritten { mhz: F, done: bool },
    /// The settings after one was saved, or could not be.
    Saved(CpuFreqConfig),
    SavedTurboRestored { done: bool },
}

/// The state shows every field of the applet as it is, texts by their characters and lists
/// place by place.
pub proof fn law_state_shows_every_field<F>(a: Applet<F>, i: int)
    ensures
        a@.popup == a.popup,
        a@.config == a.config,
        a@.config_handler == a.config_handler,
        a@.current_freq_mhz == a.current_freq_mhz,
        a@.turbo_enabled == a.turbo_enabled,
        a@.freq_bounds == a.freq_bounds,
        a@.scaling_min_mhz == a.scaling_min_mhz,
        a@.scaling_max_mhz == a.scaling_max_mhz,
        a@.preview_min_mhz == a.preview_min_mhz,
        a@.preview_max_mhz == a.preview_max_mhz,
        a@.update_interval_input == a.update_interval_input@,
        a@.show_settings == a.show_settings,
        a@.per_core_freqs == a.per_core_freqs@,
        a@.cpu_usage == a.cpu_usage,
        a@.per_core_usage == a.per_core_usage@,
        a@.memory_used_kb == a.memory_used_kb,
        a@.memory_total_kb == a.memory_total_kb,
        a@.current_governor is Some <==> a.current_governor is Some,
        a.current_governor is Some ==> a@.current_governor->0 == a.current_governor->0@,
        a@.available_governors.len() == a.available_governors@.len(),
        0 <= i < a.available_governors@.len() ==> a@.available_governors[i] == a.available_governors@[i]@,
        a@.current_epp is Some <==> a.current_epp is Some,
        a.current_epp is Some ==> a@.current_epp->0 == a.current_epp->0@,
        a@.available_epp.len() == a.available_epp@.len(),
        0 <= i < a.available_epp@.len() ==> a@.available_epp[i] == a.available_epp@[i]@,
        a@.cpu_model is Some <==> a.cpu_model is Some,
        a.cpu_model is Some ==> a@.cpu_model->0 == a.cpu_model->0@,
        a@.machine_vendor is Some <==> a.machine_vendor is Some,
        a.machine_vendor is Some ==> a@.machine_vendor->0 == a.machine_vendor->0@,
        a@.machine_model is Some <==> a.machine_model is Some,
        a.machine_model is Some ==> a@.machine_model->0 == a.machine_model->0@,
        a@.os_name is Some <==> a.os_name is Some,
        a.os_name is Some ==> a@.os_name->0 == a.os_name->0@,
        a@.kernel_version is Some <==> a.kernel_version is Some,
        a.kernel_version is Some ==> a@.kernel_version->0 == a.kernel_version->0@,
        a@.cpu_usage_prev is Some <==> a.cpu_usage_prev is Some,
        a.cpu_usage_prev is Some ==> a@.cpu_usage_prev->0 == a.cpu_usage_prev->0@,
        a@.governor_labels.len() == a.governor_labels@.len(),
        0 <= i < a.governor_labels@.len() ==> a@.governor_labels[i] == a.governor_labels@[i]@,
        a@.epp_labels.len() == a.epp_labels@.len(),
        0 <= i < a.epp_labels@.len() ==> a@.epp_labels[i] == a.epp_labels@[i]@,
{
}

/// An action says what it holds.
pub proof fn law_actions_say_what_they_hold<F>(action: Action<F>)
    ensures
        match (action, action@) {
            (Action::Nothing, ActionView::Nothing) => true,
            (Action::ReadFrequencies, ActionView::ReadFrequencies) => true,
            (
                Action::RestoreTurbo { enabled, observed },
                ActionView::RestoreTurbo { enabled: e, observed: o },
            ) => e == enabled && o == observed,
            (
                Action::ReadStatus { scaling_min, scaling_max, usage },
                ActionView::ReadStatus { scaling_min: low, scaling_max: high, usage: u },
            ) => low == scaling_min && high == scaling_max && u == usage,
            (Action::ClosePopup(id), ActionView::ClosePopup(n)) => n == id,
            (Action::ReadPopupData, ActionView::ReadPopupData) => true,
            (
                Action::OpenPopup { id, width },
                ActionView::OpenPopup { id: n, width: w },
            ) => n == id && w == width,
            (Action::WriteTurbo(on), ActionView::WriteTurbo(o)) => o == on,
            (Action::WriteGovernor(name), ActionView::WriteGovernor(n)) => n == name@,
            (Action::WriteEpp(name), ActionView::WriteEpp(n)) => n == name@,
            (Action::WriteScalingMin(mhz), ActionView::WriteScalingMin(m)) => m == mhz,
            (Action::WriteScalingMax(mhz), ActionView::WriteScalingMax(m)) => m == mhz,
            (Action::Save(setting), ActionView::Save(v)) => v == setting,
            (Action::RestoreSavedTurbo(on), ActionView::RestoreSavedTurbo(o)) => o == on,
            _ => false,
        },
{
}

/// There is a label for every name, in the same place.
pub proof fn law_every_name_has_its_label(names: Seq<Seq<char>>, i: int)
    ensures
        labels_of(names).len() == names.len(),
        0 <= i < names.len() ==> labels_of(names)[i] == prettified(names[i]),
{
}

} // verus!
