//! How the applet's state changes.

use vstd::prelude::*;

use crate::config::{CpuFreqConfig, FreqDisplayMode, Setting};
use crate::cpu::{pick_frequency, FreqSummary};
use crate::label::prettify_label;
use crate::state::{
    Action, Applet, FreqLimits, Message, PopupReading, Reply, StartReading, StatusReading,
};
use crate::text::{chars_of, parse_number, to_decimal};
use crate::usage::CpuUsageSnapshot;
#[allow(unused_imports)]
use crate::cpu::shown_frequency;
#[allow(unused_imports)]
use crate::state::{labels_of, snapshot_of, text_of, ActionView, AppletView};
#[allow(unused_imports)]
use crate::text::{decimal, number, strings};
#[allow(unused_imports)]
use crate::usage::SnapshotView;

verus! {

/// The width of the popup with one column.
pub const DEFAULT_POPUP_WIDTH: u32 = 360;

/// The width of the popup with two columns.
pub const HORIZONTAL_POPUP_WIDTH: u32 = 600;

/// The shortest update interval that can be set, in milliseconds.
pub const SHORTEST_INTERVAL_MS: u64 = 100;

/// The action that saves a setting, where there is a store.
pub open spec fn save_if_stored<F>(config_handler: bool, setting: Setting) -> ActionView<F> {
    if config_handler {
        ActionView::Save(setting)
    } else {
        ActionView::Nothing
    }
}

/// The state after `message`, before any reply to the action that it leads to.
pub open spec fn after_message<F>(s: AppletView<F>, message: Message<F>) -> AppletView<F> {
    match message {
        Message::ToggleWindow => AppletView { popup: None, ..s },
        Message::PopupClosed(id) => if s.popup == Some(id) {
            AppletView { popup: None, ..s }
        } else {
            s
        },
        Message::PreviewScalingMin(mhz) => AppletView { preview_min_mhz: Some(mhz), ..s },
        Message::PreviewScalingMax(mhz) => AppletView { preview_max_mhz: Some(mhz), ..s },
        Message::CommitScalingMin => AppletView { preview_min_mhz: None, ..s },
        Message::CommitScalingMax => AppletView { preview_max_mhz: None, ..s },
        Message::UpdateIntervalChanged(value) => AppletView { update_interval_input: value@, ..s },
        Message::ToggleSettings => AppletView { show_settings: !s.show_settings, ..s },
        _ => s,
    }
}

/// The action that `message` leads to.
pub open spec fn action_for<F>(s: AppletView<F>, message: Message<F>) -> ActionView<F> {
    match message {
        Message::Tick => ActionView::ReadFrequencies,
        Message::ToggleWindow => match s.popup {
            Some(id) => ActionView::ClosePopup(id),
            None => ActionView::ReadPopupData,
        },
        Message::SetTurbo(enabled) => ActionView::WriteTurbo(enabled),
        Message::SetGovernor(idx) => if idx < s.available_governors.len() {
            ActionView::WriteGovernor(s.available_governors[idx as int])
        } else {
            ActionView::Nothing
        },
        Message::SetEpp(idx) => if idx < s.available_epp.len() {
            ActionView::WriteEpp(s.available_epp[idx as int])
        } else {
            ActionView::Nothing
        },
        Message::CommitScalingMin => match s.preview_min_mhz {
            Some(mhz) => ActionView::WriteScalingMin(mhz),
            None => ActionView::Nothing,
        },
        Message::CommitScalingMax => match s.preview_max_mhz {
            Some(mhz) => ActionView::WriteScalingMax(mhz),
            None => ActionView::Nothing,
        },
        Message::UpdateIntervalChanged(value) => match number(value@, u64::MAX as nat) {
            Some(ms) => if ms >= SHORTEST_INTERVAL_MS {
                save_if_stored(s.config_handler, Setting::UpdateIntervalMs(ms as u64))
            } else {
                ActionView::Nothing
            },
            None => ActionView::Nothing,
        },
        Message::SetFreqDisplayMode(idx) => save_if_stored(
            s.config_handler,
            Setting::FreqDisplayMode(FreqDisplayMode::at_place(idx as int)),
        ),
        Message::SetShowPerCoreUsage(enabled) => save_if_stored(
            s.config_handler,
            Setting::ShowPerCoreUsage(enabled),
        ),
        Message::SetShowCpuUsage(enabled) => save_if_stored(
            s.config_handler,
            Setting::ShowCpuUsage(enabled),
        ),
        Message::SetShowMemoryUsage(enabled) => save_if_stored(
            s.config_handler,
            Setting::ShowMemoryUsage(enabled),
        ),
        Message::SetLayout(idx) => save_if_stored(
            s.config_handler,
            Setting::HorizontalLayout(idx == 0),
        ),
        _ => ActionView::Nothing,
    }
}

/// Whether something else switched turbo away from the saved state: it was in that state
/// when last read and is not now.
pub open spec fn turbo_changed<F>(s: AppletView<F>, system_turbo: Option<bool>) -> bool {
    s.turbo_enabled == Some(s.config.turbo_enabled) && system_turbo != Some(s.config.turbo_enabled)
}

/// The reading that goes on from the state `s` at a tick. The limits are not read while
/// their slider is dragged, the usage only while the popup is open.
pub open spec fn status_wanted<F>(s: AppletView<F>) -> ActionView<F> {
    ActionView::ReadStatus {
        scaling_min: s.preview_min_mhz is None,
        scaling_max: s.preview_max_mhz is None,
        usage: s.popup is Some,
    }
}

/// `s` with the memory in use that was read, where it could be.
pub open spec fn with_memory<F>(s: AppletView<F>, memory: Option<(u64, u64)>) -> AppletView<F> {
    match memory {
        Some((used, total)) => AppletView {
            memory_used_kb: Some(used),
            memory_total_kb: Some(total),
            ..s
        },
        None => s,
    }
}

/// `s` with the usage that a snapshot shows against the one before it; a first snapshot
/// shows none yet.
pub open spec fn with_snapshot<F>(
    s: AppletView<F>,
    snapshot: Option<SnapshotView>,
) -> AppletView<F> {
    match (snapshot, s.cpu_usage_prev) {
        (None, _) => s,
        (Some(now), None) => AppletView { cpu_usage_prev: Some(now), ..s },
        (Some(now), Some(prev)) => AppletView {
            cpu_usage_prev: Some(now),
            cpu_usage: Some(now.aggregate.usage_since(prev.aggregate)),
            per_core_usage: now.per_core_usage_since(prev),
            ..s
        },
    }
}

/// The state after the status was read.
pub open spec fn after_status<F>(s: AppletView<F>, reading: StatusReading<F>) -> AppletView<F> {
    let settled = AppletView {
        current_governor: text_of(reading.governor),
        current_epp: text_of(reading.epp),
        scaling_min_mhz: if s.preview_min_mhz is None {
            reading.scaling_min
        } else {
            s.scaling_min_mhz
        },
        scaling_max_mhz: if s.preview_max_mhz is None {
            reading.scaling_max
        } else {
            s.scaling_max_mhz
        },
        ..s
    };
    if s.popup is Some {
        with_memory(with_snapshot(settled, snapshot_of(reading.snapshot)), reading.memory)
    } else {
        settled
    }
}

/// The state once the data of the popup with window `id` were read. It opens on its main
/// page, and shows no usage until there is a second snapshot.
pub open spec fn after_popup_data<F>(
    s: AppletView<F>,
    id: u64,
    reading: PopupReading<F>,
) -> AppletView<F> {
    with_memory(
        AppletView {
            popup: Some(id),
            show_settings: false,
            available_governors: strings(reading.governors@),
            available_epp: strings(reading.epp@),
            governor_labels: labels_of(strings(reading.governors@)),
            epp_labels: labels_of(strings(reading.epp@)),
            freq_bounds: reading.hardware.range(),
            per_core_freqs: reading.cores@,
            cpu_usage_prev: snapshot_of(reading.snapshot),
            cpu_usage: None,
            ..s
        },
        reading.memory,
    )
}

/// The state after `reply`.
pub open spec fn after_reply<F>(s: AppletView<F>, reply: Reply<F>) -> AppletView<F> {
    match reply {
        Reply::Frequencies { cores, summary, system_turbo } => AppletView {
            per_core_freqs: cores@,
            current_freq_mhz: if cores@.len() == 0 {
                None
            } else {
                shown_frequency(s.config.freq_display_mode, summary)
            },
            turbo_enabled: if turbo_changed(s, system_turbo) {
                s.turbo_enabled
            } else {
                system_turbo
            },
            ..s
        },
        Reply::TurboRestored { observed, done } => AppletView {
            turbo_enabled: if done {
                Some(s.config.turbo_enabled)
            } else {
                observed
            },
            ..s
        },
        Reply::Status(reading) => after_status(s, reading),
        Reply::PopupData { id, reading } => after_popup_data(s, id, reading),
        Reply::TurboWritten { enabled, limits } => match limits {
            Some(limits) => AppletView {
                turbo_enabled: Some(enabled),
                freq_bounds: limits.hardware.range(),
                scaling_min_mhz: limits.scaling_min,
                scaling_max_mhz: limits.scaling_max,
                ..s
            },
            None => s,
        },
        Reply::GovernorWritten { governor, done } => if done {
            AppletView { current_governor: Some(governor@), ..s }
        } else {
            s
        },
        Reply::EppWritten { epp, done } => if done {
            AppletView { current_epp: Some(epp@), ..s }
        } else {
            s
        },
        Reply::ScalingMinWritten { mhz, done } => if done {
            AppletView { scaling_min_mhz: Some(mhz), ..s }
        } else {
            s
        },
        Reply::ScalingMaxWritten { mhz, done } => if done {
            AppletView { scaling_max_mhz: Some(mhz), ..s }
        } else {
            s
        },
        Reply::Saved(config) => AppletView { config, ..s },
        Reply::SavedTurboRestored { done } => if done {
            AppletView { turbo_enabled: Some(s.config.turbo_enabled), ..s }
        } else {
            s
        },
    }
}

/// The action that `reply` leads to.
pub open spec fn action_after<F>(s: AppletView<F>, reply: Reply<F>) -> ActionView<F> {
    match reply {
        Reply::Frequencies { system_turbo, .. } => if turbo_changed(s, system_turbo) {
            ActionView::RestoreTurbo { enabled: s.config.turbo_enabled, observed: system_turbo }
        } else {
            status_wanted(s)
        },
        Reply::TurboRestored { .. } => status_wanted(s),
        Reply::PopupData { id, .. } => ActionView::OpenPopup {
            id,
            width: if s.config.horizontal_layout {
                HORIZONTAL_POPUP_WIDTH
            } else {
                DEFAULT_POPUP_WIDTH
            },
        },
        Reply::TurboWritten { enabled, limits } => if limits is Some {
            save_if_stored(s.config_handler, Setting::TurboEnabled(enabled))
        } else {
            ActionView::Nothing
        },
        _ => ActionView::Nothing,
    }
}

/// The state that the applet starts in.
pub open spec fn start_state<F>(
    config: CpuFreqConfig,
    config_handler: bool,
    reading: StartReading<F>,
) -> AppletView<F> {
    AppletView {
        popup: None,
        config,
        config_handler,
        current_freq_mhz: shown_frequency(config.freq_display_mode, reading.summary),
        turbo_enabled: reading.turbo_enabled,
        current_governor: text_of(reading.current_governor),
        available_governors: strings(reading.available_governors@),
        current_epp: text_of(reading.current_epp),
        available_epp: strings(reading.available_epp@),
        freq_bounds: reading.hardware.range(),
        scaling_min_mhz: reading.scaling_min_mhz,
        scaling_max_mhz: reading.scaling_max_mhz,
        preview_min_mhz: None,
        preview_max_mhz: None,
        update_interval_input: decimal(config.update_interval_ms as nat),
        show_settings: false,
        cpu_model: text_of(reading.cpu_model),
        machine_vendor: match reading.machine_info {
            Some((vendor, _)) => Some(vendor@),
            None => None,
        },
        machine_model: match reading.machine_info {
            Some((_, model)) => Some(model@),
            None => None,
        },
        os_name: text_of(reading.os_name),
        kernel_version: text_of(reading.kernel_version),
        per_core_freqs: Seq::empty(),
        cpu_usage_prev: None,
        cpu_usage: None,
        per_core_usage: Seq::empty(),
        memory_used_kb: None,
        memory_total_kb: None,
        governor_labels: labels_of(strings(reading.available_governors@)),
        epp_labels: labels_of(strings(reading.available_epp@)),
    }
}

/// The action at the start: where the state of turbo is known and is not the saved one, the
/// saved one is restored.
pub open spec fn start_action<F>(config: CpuFreqConfig, turbo: Option<bool>) -> ActionView<F> {
    if turbo == Some(!config.turbo_enabled) {
        ActionView::RestoreSavedTurbo(config.turbo_enabled)
    } else {
        ActionView::Nothing
    }
}

/// Makes the labels of `names`.
fn make_labels(names: &Vec<String>) -> (r: Vec<String>)
    ensures
        strings(r@) == labels_of(strings(names@)),
{
    let mut r: Vec<String> = Vec::new();
    let mut i: usize = 0;
    while i < names.len()
        invariant
            i <= names@.len(),
            strings(r@) == labels_of(strings(names@)).take(i as int),
        decreases names@.len() - i,
    {
        let ghost before = strings(r@);
        let label = prettify_label(names[i].as_str());
        assert(strings(names@)[i as int] == names@[i as int]@);
        r.push(label);
        assert(strings(r@) == before.push(label@));
        i += 1;
    }
    assert(labels_of(strings(names@)).take(i as int) == labels_of(strings(names@)));
    r
}

impl<F: Copy> Applet<F> {
    /// Starts the applet with the settings and with what was read.
    pub fn init(config: CpuFreqConfig, config_handler: bool, reading: StartReading<F>) -> (r: (
        Self,
        Action<F>,
    ))
        ensures
            r.0@ == start_state(config, config_handler, reading),
            r.0@.labels_fit(),
            r.1@ == start_action::<F>(config, reading.turbo_enabled),
    {
        let (machine_vendor, machine_model) = match reading.machine_info {
            Some((vendor, model)) => (Some(vendor), Some(model)),
            None => (None, None),
        };
        let mut applet = Applet {
            popup: None,
            config,
            config_handler,
            current_freq_mhz: pick_frequency(config.freq_display_mode, reading.summary),
            turbo_enabled: reading.turbo_enabled,
            current_governor: reading.current_governor,
            available_governors: reading.available_governors,
            current_epp: reading.current_epp,
            available_epp: reading.available_epp,
            freq_bounds: reading.hardware.full_range(),
            scaling_min_mhz: reading.scaling_min_mhz,
            scaling_max_mhz: reading.scaling_max_mhz,
            preview_min_mhz: None,
            preview_max_mhz: None,
            update_interval_input: to_decimal(config.update_interval_ms),
            show_settings: false,
            cpu_model: reading.cpu_model,
            machine_vendor,
            machine_model,
            os_name: reading.os_name,
            kernel_version: reading.kernel_version,
            per_core_freqs: Vec::new(),
            cpu_usage_prev: None,
            cpu_usage: None,
            per_core_usage: Vec::new(),
            memory_used_kb: None,
            memory_total_kb: None,
            governor_labels: Vec::new(),
            epp_labels: Vec::new(),
        };
        applet.rebuild_labels();
        let action = applet.restore_turbo_setting();
        (applet, action)
    }

    /// Decides whether the saved turbo setting has to be restored.
    pub fn restore_turbo_setting(&self) -> (r: Action<F>)
        ensures
            r@ == start_action::<F>(self@.config, self@.turbo_enabled),
    {
        if let Some(system_turbo) = self.turbo_enabled {
            if system_turbo != self.config.turbo_enabled {
                return Action::RestoreSavedTurbo(self.config.turbo_enabled);
            }
        }
        Action::Nothing
    }

    /// Makes the labels of the governors and preferences on offer anew.
    pub fn rebuild_labels(&mut self)
        ensures
            final(self)@ == (AppletView {
                governor_labels: labels_of(old(self)@.available_governors),
                epp_labels: labels_of(old(self)@.available_epp),
                ..old(self)@
            }),
    {
        self.governor_labels = make_labels(&self.available_governors);
        self.epp_labels = make_labels(&self.available_epp);
    }

    /// The width of the popup.
    pub fn popup_width(&self) -> (r: u32)
        ensures
            r == if !self@.show_settings && self@.config.horizontal_layout {
                HORIZONTAL_POPUP_WIDTH
            } else {
                DEFAULT_POPUP_WIDTH
            },
    {
        if !self.show_settings && self.config.horizontal_layout {
            HORIZONTAL_POPUP_WIDTH
        } else {
            DEFAULT_POPUP_WIDTH
        }
    }

    /// The action that saves a setting.
    fn save(&self, setting: Setting) -> (r: Action<F>)
        ensures
            r@ == save_if_stored::<F>(self@.config_handler, setting),
    {
        if self.config_handler {
            Action::Save(setting)
        } else {
            Action::Nothing
        }
    }

    /// Takes in a message and tells what is to be done.
    pub fn update(&mut self, message: Message<F>) -> (r: Action<F>)
        ensures
            final(self)@ == after_message(old(self)@, message),
            r@ == action_for(old(self)@, message),
            old(self)@.labels_fit() ==> final(self)@.labels_fit(),
    {
        match message {
            Message::Tick => Action::ReadFrequencies,
            Message::ToggleWindow => {
                match self.popup.take() {
                    Some(id) => Action::ClosePopup(id),
                    None => Action::ReadPopupData,
                }
            },
            Message::PopupClosed(id) => {
                if let Some(open) = self.popup {
                    if open == id {
                        self.popup = None;
                    }
                }
                Action::Nothing
            },
            Message::SetTurbo(enabled) => Action::WriteTurbo(enabled),
            Message::SetGovernor(idx) => {
                if idx < self.available_governors.len() {
                    Action::WriteGovernor(self.available_governors[idx].clone())
                } else {
                    Action::Nothing
                }
            },
            Message::SetEpp(idx) => {
                if idx < self.available_epp.len() {
                    Action::WriteEpp(self.available_epp[idx].clone())
                } else {
                    Action::Nothing
                }
            },
            Message::PreviewScalingMin(mhz) => {
                self.preview_min_mhz = Some(mhz);
                Action::Nothing
            },
            Message::PreviewScalingMax(mhz) => {
                self.preview_max_mhz = Some(mhz);
                Action::Nothing
            },
            Message::CommitScalingMin => {
                match self.preview_min_mhz.take() {
                    Some(mhz) => Action::WriteScalingMin(mhz),
                    None => Action::Nothing,
                }
            },
            Message::CommitScalingMax => {
                match self.preview_max_mhz.take() {
                    Some(mhz) => Action::WriteScalingMax(mhz),
                    None => Action::Nothing,
                }
            },
            Message::UpdateIntervalChanged(value) => {
                let text = chars_of(value.as_str());
                self.update_interval_input = value;
                match parse_number(text.as_slice(), u64::MAX) {
                    Some(ms) => {
                        if ms >= SHORTEST_INTERVAL_MS {
                            self.save(Setting::UpdateIntervalMs(ms))
                        } else {
                            Action::Nothing
                        }
                    },
                    None => Action::Nothing,
                }
            },
            Message::ToggleSettings => {
                self.show_settings = !self.show_settings;
                Action::Nothing
            },
            Message::SetFreqDisplayMode(idx) => self.save(
                Setting::FreqDisplayMode(FreqDisplayMode::from_index(idx)),
            ),
            Message::SetShowPerCoreUsage(enabled) => self.save(Setting::ShowPerCoreUsage(enabled)),
            Message::SetShowCpuUsage(enabled) => self.save(Setting::ShowCpuUsage(enabled)),
            Message::SetShowMemoryUsage(enabled) => self.save(Setting::ShowMemoryUsage(enabled)),
            Message::SetLayout(idx) => self.save(Setting::HorizontalLayout(idx == 0)),
        }
    }

    /// The reading that goes on from here at a tick.
    fn want_status(&self) -> (r: Action<F>)
        ensures
            r@ == status_wanted(self@),
    {
        Action::ReadStatus {
            scaling_min: self.preview_min_mhz.is_none(),
            scaling_max: self.preview_max_mhz.is_none(),
            usage: self.popup.is_some(),
        }
    }

    /// Takes in the frequencies and the state of turbo.
    fn take_frequencies(
        &mut self,
        cores: Vec<(u32, F)>,
        summary: Option<FreqSummary<F>>,
        system_turbo: Option<bool>,
    ) -> (r: Action<F>)
        ensures
            final(self)@ == after_reply(
                old(self)@,
                Reply::Frequencies { cores, summary, system_turbo },
            ),
            r@ == action_after(old(self)@, Reply::Frequencies { cores, summary, system_turbo }),
    {
        self.current_freq_mhz = if cores.len() == 0 {
            None
        } else {
            pick_frequency(self.config.freq_display_mode, summary)
        };
        self.per_core_freqs = cores;
        let saved = self.config.turbo_enabled;
        let was_saved = match self.turbo_enabled {
            Some(on) => on == saved,
            None => false,
        };
        let is_saved = match system_turbo {
            Some(on) => on == saved,
            None => false,
        };
        if was_saved && !is_saved {
            Action::RestoreTurbo { enabled: saved, observed: system_turbo }
        } else {
            self.turbo_enabled = system_turbo;
            self.want_status()
        }
    }

    /// Takes in the memory in use.
    fn take_memory(&mut self, memory: Option<(u64, u64)>)
        ensures
            final(self)@ == with_memory(old(self)@, memory),
    {
        if let Some((used, total)) = memory {
            self.memory_used_kb = Some(used);
            self.memory_total_kb = Some(total);
        }
    }

    /// Takes in a snapshot of the counters.
    fn take_snapshot(&mut self, snapshot: Option<CpuUsageSnapshot>)
        ensures
            final(self)@ == with_snapshot(old(self)@, snapshot_of(snapshot)),
    {
        if let Some(now) = snapshot {
            if let Some(prev) = &self.cpu_usage_prev {
                let usage = now.usage(prev);
                let per_core = now.per_core_usage(prev);
                self.cpu_usage = Some(usage);
                self.per_core_usage = per_core;
            }
            self.cpu_usage_prev = Some(now);
        }
    }

    /// Takes in the status.
    fn take_status(&mut self, reading: StatusReading<F>)
        ensures
            final(self)@ == after_status(old(self)@, reading),
    {
        self.current_governor = reading.governor;
        self.current_epp = reading.epp;
        if self.preview_min_mhz.is_none() {
            self.scaling_min_mhz = reading.scaling_min;
        }
        if self.preview_max_mhz.is_none() {
            self.scaling_max_mhz = reading.scaling_max;
        }
        if self.popup.is_some() {
            self.take_snapshot(reading.snapshot);
            self.take_memory(reading.memory);
        }
    }

    /// Takes in the data of a new popup.
    fn take_popup_data(&mut self, id: u64, reading: PopupReading<F>)
        ensures
            final(self)@ == after_popup_data(old(self)@, id, reading),
    {
        self.show_settings = false;
        self.available_governors = reading.governors;
        self.available_epp = reading.epp;
        self.rebuild_labels();
        self.freq_bounds = reading.hardware.full_range();
        self.per_core_freqs = reading.cores;
        self.cpu_usage_prev = reading.snapshot;
        self.cpu_usage = None;
        self.take_memory(reading.memory);
        self.popup = Some(id);
    }

    /// Takes in the limits that hold once turbo was switched.
    fn take_limits(&mut self, enabled: bool, limits: FreqLimits<F>)
        ensures
            final(self)@ == after_reply(
                old(self)@,
                Reply::TurboWritten { enabled, limits: Some(limits) },
            ),
    {
        self.turbo_enabled = Some(enabled);
        self.freq_bounds = limits.hardware.full_range();
        self.scaling_min_mhz = limits.scaling_min;
        self.scaling_max_mhz = limits.scaling_max;
    }

    /// Takes in what came of an action and tells what is to be done next.
    pub fn resume(&mut self, reply: Reply<F>) -> (r: Action<F>)
        ensures
            final(self)@ == after_reply(old(self)@, reply),
            r@ == action_after(old(self)@, reply),
            old(self)@.labels_fit() ==> final(self)@.labels_fit(),
    {
        match reply {
            Reply::Frequencies { cores, summary, system_turbo } => self.take_frequencies(
                cores,
                summary,
                system_turbo,
            ),
            Reply::TurboRestored { observed, done } => {
                self.turbo_enabled = if done {
                    Some(self.config.turbo_enabled)
                } else {
                    observed
                };
                self.want_status()
            },
            Reply::Status(reading) => {
                self.take_status(reading);
                Action::Nothing
            },
            Reply::PopupData { id, reading } => {
                self.take_popup_data(id, reading);
                Action::OpenPopup { id, width: self.popup_width() }
            },
            Reply::TurboWritten { enabled, limits } => {
                match limits {
                    Some(limits) => {
                        self.take_limits(enabled, limits);
                        self.save(Setting::TurboEnabled(enabled))
                    },
                    None => Action::Nothing,
                }
            },
            Reply::GovernorWritten { governor, done } => {
                if done {
                    self.current_governor = Some(governor);
                }
                Action::Nothing
            },
            Reply::EppWritten { epp, done } => {
                if done {
                    self.current_epp = Some(epp);
                }
                Action::Nothing
            },
            Reply::ScalingMinWritten { mhz, done } => {
                if done {
                    self.scaling_min_mhz = Some(mhz);
                }
                Action::Nothing
            },
            Reply::ScalingMaxWritten { mhz, done } => {
                if done {
                    self.scaling_max_mhz = Some(mhz);
                }
                Action::Nothing
            },
            Reply::Saved(config) => {
                self.config = config;
                Action::Nothing
            },
            Reply::SavedTurboRestored { done } => {
                if done {
                    self.turbo_enabled = Some(self.config.turbo_enabled);
                }
                Action::Nothing
            },
        }
    }
}

} // verus!
