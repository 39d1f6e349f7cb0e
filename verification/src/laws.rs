//! What holds of the applet over several steps.

use vstd::prelude::*;

#[allow(unused_imports)]
use crate::applet::{
    action_after, action_for, after_message, after_reply, after_status, start_action, start_state,
    status_wanted, turbo_changed, SHORTEST_INTERVAL_MS,
};
#[allow(unused_imports)]
use crate::config::{CpuFreqConfig, Setting};
#[allow(unused_imports)]
use crate::cpu::{bounds_of, FreqSummary};
#[allow(unused_imports)]
use crate::label::prettified;
#[allow(unused_imports)]
use crate::page::{Choice, ControlRowView, Limit, Switch};
#[allow(unused_imports)]
use crate::state::{
    ActionView, AppletView, FreqLimits, Message, PopupReading, Reply, StartReading, StatusReading,
};
#[allow(unused_imports)]
use crate::text::{law_decimal_reads_back, number};
#[allow(unused_imports)]
use crate::view::{core_at, core_grid, governor_part, preference_part, turbo_part, GRID_COLUMNS};

verus! {

/// The labels are those of the names on offer after every step, if they were before it.
pub proof fn law_labels_keep_fitting<F>(s: AppletView<F>, message: Message<F>, reply: Reply<F>)
    requires
        s.labels_fit(),
    ensures
        after_message(s, message).labels_fit(),
        after_reply(s, reply).labels_fit(),
{
}

/// The settings change only when one was saved.
pub proof fn law_settings_change_only_when_saved<F>(
    s: AppletView<F>,
    message: Message<F>,
    reply: Reply<F>,
)
    ensures
        after_message(s, message).config == s.config,
        reply is Saved || after_reply(s, reply).config == s.config,
{
}

/// Without a store no step asks to save a setting.
pub proof fn law_nothing_is_saved_without_a_store<F>(
    s: AppletView<F>,
    message: Message<F>,
    reply: Reply<F>,
)
    requires
        !s.config_handler,
    ensures
        !(action_for(s, message) is Save),
        !(action_after(s, reply) is Save),
{
}

/// While a slider is dragged, a tick neither asks for its limit nor changes it, nor moves
/// the slider.
pub proof fn law_ticks_leave_dragged_sliders<F>(s: AppletView<F>, reading: StatusReading<F>)
    ensures
        s.preview_min_mhz is Some ==> {
            &&& !status_wanted(s)->scaling_min
            &&& after_status(s, reading).scaling_min_mhz == s.scaling_min_mhz
        },
        s.preview_max_mhz is Some ==> {
            &&& !status_wanted(s)->scaling_max
            &&& after_status(s, reading).scaling_max_mhz == s.scaling_max_mhz
        },
        after_status(s, reading).preview_min_mhz == s.preview_min_mhz,
        after_status(s, reading).preview_max_mhz == s.preview_max_mhz,
{
}

/// Dragging alone writes nothing.
pub proof fn law_dragging_writes_nothing<F>(s: AppletView<F>, mhz: F)
    ensures
        action_for(s, Message::PreviewScalingMin(mhz)) is Nothing,
        action_for(s, Message::PreviewScalingMax(mhz)) is Nothing,
{
}

/// A slider that is dragged to `mhz` and let go has `mhz` written, once; the limit is then
/// `mhz` if it could be written, else what it was, and the slider is no longer dragged.
pub proof fn law_letting_go_writes_the_limit<F>(s: AppletView<F>, mhz: F, done: bool)
    ensures
        ({
            let dragged = after_message(s, Message::PreviewScalingMin(mhz));
            let released = after_message(dragged, Message::CommitScalingMin);
            let end = after_reply(released, Reply::ScalingMinWritten { mhz, done });
            &&& action_for(dragged, Message::CommitScalingMin) == ActionView::WriteScalingMin(mhz)
            &&& action_for(released, Message::CommitScalingMin) is Nothing
            &&& end.preview_min_mhz is None
            &&& end.scaling_min_mhz == if done {
                Some(mhz)
            } else {
                s.scaling_min_mhz
            }
        }),
        ({
            let dragged = after_message(s, Message::PreviewScalingMax(mhz));
            let released = after_message(dragged, Message::CommitScalingMax);
            let end = after_reply(released, Reply::ScalingMaxWritten { mhz, done });
            &&& action_for(dragged, Message::CommitScalingMax) == ActionView::WriteScalingMax(mhz)
            &&& action_for(released, Message::CommitScalingMax) is Nothing
            &&& end.preview_max_mhz is None
            &&& end.scaling_max_mhz == if done {
                Some(mhz)
            } else {
                s.scaling_max_mhz
            }
        }),
{
}

/// Where something else switched turbo away from the saved state, the saved state is asked
/// for; where that works, turbo is in it again.
pub proof fn law_turbo_is_restored<F>(
    s: AppletView<F>,
    cores: Vec<(u32, F)>,
    summary: Option<FreqSummary<F>>,
    system_turbo: Option<bool>,
)
    requires
        s.turbo_enabled == Some(s.config.turbo_enabled),
        system_turbo != s.turbo_enabled,
    ensures
        ({
            let polled = Reply::Frequencies { cores, summary, system_turbo };
            let mid = after_reply(s, polled);
            let restored: Reply<F> = Reply::TurboRestored { observed: system_turbo, done: true };
            &&& action_after(s, polled) == (ActionView::<F>::RestoreTurbo {
                enabled: s.config.turbo_enabled,
                observed: system_turbo,
            })
            &&& after_reply(mid, restored).turbo_enabled == Some(s.config.turbo_enabled)
        }),
{
}

/// A restore that failed is not tried again by itself: turbo counts as being where it was
/// observed, and the next reading asks for no restore, whatever it shows.
pub proof fn law_failed_restore_is_not_repeated<F>(
    s: AppletView<F>,
    observed: Option<bool>,
    later: Option<bool>,
)
    requires
        observed != Some(s.config.turbo_enabled),
    ensures
        ({
            let failed: Reply<F> = Reply::TurboRestored { observed, done: false };
            &&& after_reply(s, failed).turbo_enabled == observed
            &&& !turbo_changed(after_reply(s, failed), later)
        }),
{
}

/// Turbo that is in the saved state when it is read is left alone, and so is turbo that was
/// in another state before.
pub proof fn law_turbo_is_otherwise_left_alone<F>(s: AppletView<F>, system_turbo: Option<bool>)
    requires
        system_turbo == Some(s.config.turbo_enabled) || s.turbo_enabled != Some(
            s.config.turbo_enabled,
        ),
    ensures
        !turbo_changed(s, system_turbo),
{
}

/// At the start turbo is switched exactly where its state is known and is not the saved
/// one; where that works, turbo is in the saved state.
pub proof fn law_start_restores_saved_turbo<F>(
    config: CpuFreqConfig,
    config_handler: bool,
    reading: StartReading<F>,
)
    ensures
        ({
            let s = start_state(config, config_handler, reading);
            let action = start_action::<F>(config, reading.turbo_enabled);
            let restored: Reply<F> = Reply::SavedTurboRestored { done: true };
            &&& action is RestoreSavedTurbo <==> reading.turbo_enabled is Some
                && reading.turbo_enabled != Some(config.turbo_enabled)
            &&& action matches ActionView::RestoreSavedTurbo(enabled) ==> enabled
                == config.turbo_enabled
            &&& after_reply(s, restored).turbo_enabled == Some(config.turbo_enabled)
        }),
{
    if let Some(on) = reading.turbo_enabled {
        assert(on == config.turbo_enabled || on == !config.turbo_enabled);
    }
}

/// What could not be written changes nothing.
pub proof fn law_failed_writes_change_nothing<F>(
    s: AppletView<F>,
    name: String,
    mhz: F,
    enabled: bool,
)
    ensures
        after_reply(s, Reply::GovernorWritten { governor: name, done: false }) == s,
        after_reply(s, Reply::EppWritten { epp: name, done: false }) == s,
        after_reply(s, Reply::ScalingMinWritten { mhz, done: false }) == s,
        after_reply(s, Reply::ScalingMaxWritten { mhz, done: false }) == s,
        after_reply(s, Reply::TurboWritten { enabled, limits: None }) == s,
        after_reply(s, Reply::SavedTurboRestored { done: false }) == s,
{
}

/// To turn to the settings page and back changes nothing.
pub proof fn law_settings_page_turns_back<F>(s: AppletView<F>)
    ensures
        after_message(
            after_message(s, Message::ToggleSettings),
            Message::ToggleSettings,
        ) == s,
{
}

/// The window of an open popup is closed when it is toggled; the closing of any other
/// window changes nothing.
pub proof fn law_popup_closes<F>(s: AppletView<F>, id: u64, other: u64)
    requires
        s.popup == Some(id),
        other != id,
    ensures
        action_for(s, Message::ToggleWindow) == ActionView::<F>::ClosePopup(id),
        after_message(s, Message::ToggleWindow) == (AppletView { popup: None, ..s }),
        after_message(s, Message::PopupClosed(id)) == (AppletView { popup: None, ..s }),
        after_message(s, Message::PopupClosed(other)) == s,
{
}

/// A popup opens on its main page with the window it was given and shows no CPU usage; the
/// next snapshot shows the usage since the one that was taken then.
pub proof fn law_usage_needs_two_snapshots<F>(
    s: AppletView<F>,
    id: u64,
    opening: PopupReading<F>,
    tick: StatusReading<F>,
)
    requires
        opening.snapshot is Some,
        tick.snapshot is Some,
    ensures
        ({
            let open = after_reply(s, Reply::PopupData { id, reading: opening });
            let next = after_reply(open, Reply::Status(tick));
            &&& open.popup == Some(id)
            &&& !open.show_settings
            &&& open.cpu_usage is None
            &&& status_wanted(open)->usage
            &&& next.cpu_usage == Some(
                tick.snapshot->0@.aggregate.usage_since(opening.snapshot->0@.aggregate),
            )
            &&& next.per_core_usage == tick.snapshot->0@.per_core_usage_since(opening.snapshot->0@)
        }),
{
}

/// While the popup is closed a tick neither asks for the usage nor changes it.
pub proof fn law_closed_popup_has_no_usage_read<F>(s: AppletView<F>, reading: StatusReading<F>)
    requires
        s.popup is None,
    ensures
        !status_wanted(s)->usage,
        after_status(s, reading).cpu_usage_prev == s.cpu_usage_prev,
        after_status(s, reading).cpu_usage == s.cpu_usage,
        after_status(s, reading).per_core_usage == s.per_core_usage,
        after_status(s, reading).memory_used_kb == s.memory_used_kb,
        after_status(s, reading).memory_total_kb == s.memory_total_kb,
{
}

/// The field for the update interval keeps what was typed; an interval is saved only where
/// it is the number typed and is not too short.
pub proof fn law_short_intervals_are_not_saved<F>(s: AppletView<F>, value: String)
    ensures
        after_message(s, Message::UpdateIntervalChanged(value)).update_interval_input == value@,
        action_for(s, Message::UpdateIntervalChanged(value)) matches ActionView::Save(setting)
            ==> (setting matches Setting::UpdateIntervalMs(ms) && ms >= SHORTEST_INTERVAL_MS
            && number(value@, u64::MAX as nat) == Some(ms as nat)),
{
}

/// The interval that the field shows at the start is the one in the settings.
pub proof fn law_field_starts_with_the_interval<F>(
    config: CpuFreqConfig,
    config_handler: bool,
    reading: StartReading<F>,
)
    ensures
        number(
            start_state(config, config_handler, reading).update_interval_input,
            u64::MAX as nat,
        ) == Some(config.update_interval_ms as nat),
{
    law_decimal_reads_back(config.update_interval_ms as nat, u64::MAX as nat);
}

/// To choose the layout that the list shows as chosen saves the same layout.
pub proof fn law_layout_keeps_its_place<F>(s: AppletView<F>, place: usize)
    requires
        s.config_handler,
        place == if s.config.horizontal_layout {
            0int
        } else {
            1
        },
    ensures
        action_for(s, Message::SetLayout(place)) == ActionView::<F>::Save(
            Setting::HorizontalLayout(s.config.horizontal_layout),
        ),
{
}

/// The list of the governors offers, at every place, the label of the governor that taking
/// that place asks to set.
pub proof fn law_governor_labels_tell_what_is_set<F>(s: AppletView<F>, place: usize)
    requires
        s.labels_fit(),
        place < s.available_governors.len(),
    ensures
        governor_part(s).len() == 1,
        governor_part(s)[0] matches ControlRowView::List { choice, labels, .. } && {
            &&& labels.len() == s.available_governors.len()
            &&& labels[place as int] == prettified(s.available_governors[place as int])
            &&& action_for(s, choice.message_of::<F>(place)) == ActionView::<F>::WriteGovernor(
                s.available_governors[place as int],
            )
        },
{
}

/// The list of the preferences offers, at every place, the label of the preference that
/// taking that place asks to set.
pub proof fn law_preference_labels_tell_what_is_set<F>(s: AppletView<F>, place: usize)
    requires
        s.labels_fit(),
        place < s.available_epp.len(),
    ensures
        preference_part(s).len() == 1,
        preference_part(s)[0] matches ControlRowView::List { choice, labels, .. } && {
            &&& labels.len() == s.available_epp.len()
            &&& labels[place as int] == prettified(s.available_epp[place as int])
            &&& action_for(s, choice.message_of::<F>(place)) == ActionView::<F>::WriteEpp(
                s.available_epp[place as int],
            )
        },
{
}

/// A governor that was chosen by its place, and could be set, is the one in use, and where
/// no name is on offer twice the list shows that place as chosen.
pub proof fn law_chosen_governor_is_shown<F>(s: AppletView<F>, idx: usize, governor: String)
    requires
        idx < s.available_governors.len(),
        action_for(s, Message::SetGovernor(idx)) == ActionView::<F>::WriteGovernor(governor@),
        forall|i: int, j: int|
            0 <= i < j < s.available_governors.len() ==> s.available_governors[i]
                != s.available_governors[j],
    ensures
        governor@ == s.available_governors[idx as int],
        ({
            let end = after_reply(s, Reply::GovernorWritten { governor, done: true });
            governor_part(end) == seq![
                ControlRowView::<F>::List {
                    choice: Choice::Governor,
                    labels: s.governor_labels,
                    selected: Some(idx as int),
                },
            ]
        }),
{
    s.available_governors.index_of_first_ensures(governor@);
    assert(s.available_governors.contains(s.available_governors[idx as int]));
}

/// A preference that was chosen by its place, and could be set, is the one in use, and where
/// no name is on offer twice the list shows that place as chosen.
pub proof fn law_chosen_preference_is_shown<F>(s: AppletView<F>, idx: usize, epp: String)
    requires
        idx < s.available_epp.len(),
        action_for(s, Message::SetEpp(idx)) == ActionView::<F>::WriteEpp(epp@),
        forall|i: int, j: int|
            0 <= i < j < s.available_epp.len() ==> s.available_epp[i] != s.available_epp[j],
    ensures
        epp@ == s.available_epp[idx as int],
        ({
            let end = after_reply(s, Reply::EppWritten { epp, done: true });
            preference_part(end) == seq![
                ControlRowView::<F>::List {
                    choice: Choice::Preference,
                    labels: s.epp_labels,
                    selected: Some(idx as int),
                },
            ]
        }),
{
    s.available_epp.index_of_first_ensures(epp@);
    assert(s.available_epp.contains(s.available_epp[idx as int]));
}

/// The grid shows every core in its place.
pub proof fn law_grid_shows_every_core<F>(s: AppletView<F>, k: int)
    requires
        0 <= k < s.per_core_freqs.len(),
    ensures
        k / (GRID_COLUMNS as int) < core_grid(s).len(),
        core_grid(s)[k / (GRID_COLUMNS as int)].len() == GRID_COLUMNS,
        core_grid(s)[k / (GRID_COLUMNS as int)][k % (GRID_COLUMNS as int)] == core_at(s, k),
        core_at(s, k) is Some,
{
}

/// The bounds are the full range of the hardware, with turbo, after the start, after a popup
/// opened and after turbo was switched. They do not depend on whether turbo is on.
pub proof fn law_bounds_are_the_full_range<F>(
    config: CpuFreqConfig,
    config_handler: bool,
    start: StartReading<F>,
    s: AppletView<F>,
    id: u64,
    popup: PopupReading<F>,
    enabled: bool,
    limits: FreqLimits<F>,
)
    ensures
        start_state(config, config_handler, start).freq_bounds == bounds_of(
            start.hardware.hw_min,
            start.hardware.turbo_max,
        ),
        after_reply(s, Reply::PopupData { id, reading: popup }).freq_bounds == bounds_of(
            popup.hardware.hw_min,
            popup.hardware.turbo_max,
        ),
        after_reply(s, Reply::TurboWritten { enabled, limits: Some(limits) }).freq_bounds
            == bounds_of(limits.hardware.hw_min, limits.hardware.turbo_max),
{
}

/// The bounds change only when a popup opened or turbo was switched.
pub proof fn law_bounds_otherwise_stay<F>(s: AppletView<F>, message: Message<F>, reply: Reply<F>)
    ensures
        after_message(s, message).freq_bounds == s.freq_bounds,
        reply is PopupData || reply is TurboWritten || after_reply(s, reply).freq_bounds
            == s.freq_bounds,
{
}

/// The panel shows at the start what it shows after a tick that reads the same cores.
pub proof fn law_start_shows_what_a_tick_shows<F>(
    config: CpuFreqConfig,
    config_handler: bool,
    reading: StartReading<F>,
    cores: Vec<(u32, F)>,
    system_turbo: Option<bool>,
)
    requires
        reading.summary is Some <==> cores@.len() > 0,
    ensures
        ({
            let s = start_state(config, config_handler, reading);
            let tick = Reply::Frequencies { cores, summary: reading.summary, system_turbo };
            &&& after_reply(s, tick).current_freq_mhz == s.current_freq_mhz
            &&& s.current_freq_mhz is Some <==> cores@.len() > 0
        }),
{
}

/// The switch for turbo asks to write what it was turned to, from every state. Once that was
/// written turbo is in that state, the limits are those read then, that state is saved, and
/// nothing else changes; where it could not be written, nothing changes at all.
pub proof fn law_turbo_is_switched_as_asked<F>(s: AppletView<F>, on: bool, limits: FreqLimits<F>)
    ensures
        ({
            let message = Switch::Turbo.message_of::<F>(on);
            let written = Reply::TurboWritten { enabled: on, limits: Some(limits) };
            let failed: Reply<F> = Reply::TurboWritten { enabled: on, limits: None };
            let end = after_reply(s, written);
            &&& message == Message::<F>::SetTurbo(on)
            &&& action_for(s, message) == ActionView::<F>::WriteTurbo(on)
            &&& after_message(s, message) == s
            &&& end.turbo_enabled == Some(on)
            &&& end.scaling_min_mhz == limits.scaling_min
            &&& end.scaling_max_mhz == limits.scaling_max
            &&& end == (AppletView {
                turbo_enabled: end.turbo_enabled,
                freq_bounds: end.freq_bounds,
                scaling_min_mhz: end.scaling_min_mhz,
                scaling_max_mhz: end.scaling_max_mhz,
                ..s
            })
            &&& turbo_part(end).len() == 1
            &&& turbo_part(end)[0] == (ControlRowView::<F>::Toggle { switch: Switch::Turbo, on })
            &&& s.config_handler ==> action_after(s, written) == ActionView::<F>::Save(
                Setting::TurboEnabled(on),
            )
            &&& !s.config_handler ==> action_after(s, written) is Nothing
            &&& after_reply(s, failed) == s
            &&& action_after(s, failed) is Nothing
        }),
{
}

/// A switch of the settings page asks to save the setting it stands for, with what it was
/// turned to, where there is a store; the state changes only with what was saved.
pub proof fn law_switches_save_what_they_were_turned_to<F>(s: AppletView<F>, on: bool)
    ensures
        ({
            let cores = Switch::PerCoreUsage.message_of::<F>(on);
            let cpu = Switch::CpuUsage.message_of::<F>(on);
            let memory = Switch::MemoryUsage.message_of::<F>(on);
            &&& after_message(s, cores) == s
            &&& after_message(s, cpu) == s
            &&& after_message(s, memory) == s
            &&& s.config_handler ==> {
                &&& action_for(s, cores) == ActionView::<F>::Save(Setting::ShowPerCoreUsage(on))
                &&& action_for(s, cpu) == ActionView::<F>::Save(Setting::ShowCpuUsage(on))
                &&& action_for(s, memory) == ActionView::<F>::Save(Setting::ShowMemoryUsage(on))
            }
            &&& !s.config_handler ==> {
                &&& action_for(s, cores) is Nothing
                &&& action_for(s, cpu) is Nothing
                &&& action_for(s, memory) is Nothing
            }
        }),
{
}

/// A list of the settings page asks to save what stands at the place that was taken: average,
/// least and greatest frequency, or side by side and one below the other.
pub proof fn law_lists_save_what_was_taken<F>(s: AppletView<F>, place: usize)
    ensures
        ({
            let mode = Choice::DisplayMode.message_of::<F>(place);
            let layout = Choice::Layout.message_of::<F>(place);
            &&& after_message(s, mode) == s
            &&& after_message(s, layout) == s
            &&& !s.config_handler ==> action_for(s, mode) is Nothing && action_for(s, layout)
                is Nothing
            &&& s.config_handler ==> {
                &&& action_for(s, layout) == ActionView::<F>::Save(
                    Setting::HorizontalLayout(place == 0),
                )
                &&& action_for(s, mode) matches ActionView::Save(Setting::FreqDisplayMode(m)) && {
                    &&& place == 1 ==> m is Minimum
                    &&& place == 2 ==> m is Maximum
                    &&& place != 1 && place != 2 ==> m is Average
                }
            }
        }),
{
}

/// What was saved are the settings from then on, and nothing else changes with them.
pub proof fn law_saved_settings_are_taken_over<F>(s: AppletView<F>, config: CpuFreqConfig)
    ensures
        after_reply(s, Reply::Saved(config)) == (AppletView { config, ..s }),
        action_after(s, Reply::Saved(config)) is Nothing,
{
}

/// An interval that was typed as a number of at least 100 milliseconds is asked to be saved,
/// where there is a store; what is no number, or less, is not. Only the field changes.
pub proof fn law_long_enough_intervals_are_saved<F>(s: AppletView<F>, value: String, ms: u64)
    ensures
        ({
            let typed: Message<F> = Message::UpdateIntervalChanged(value);
            &&& after_message(s, typed) == (AppletView { update_interval_input: value@, ..s })
            &&& s.config_handler && ms >= 100 && number(value@, 0xffff_ffff_ffff_ffff) == Some(
                ms as nat,
            ) ==> action_for(s, typed) == ActionView::<F>::Save(Setting::UpdateIntervalMs(ms))
            &&& ms < 100 && number(value@, 0xffff_ffff_ffff_ffff) == Some(ms as nat) ==> action_for(
                s,
                typed,
            ) is Nothing
            &&& number(value@, 0xffff_ffff_ffff_ffff) is None ==> action_for(s, typed) is Nothing
            &&& !s.config_handler ==> action_for(s, typed) is Nothing
        }),
{
}

/// To take a governor or a preference from its list asks to set the one at that place, and
/// nothing where the list has no such place. What was set is in use, and nothing else changes.
pub proof fn law_names_are_set_as_taken<F>(s: AppletView<F>, place: usize, name: String)
    ensures
        ({
            let governor = Choice::Governor.message_of::<F>(place);
            let epp = Choice::Preference.message_of::<F>(place);
            &&& after_message(s, governor) == s
            &&& after_message(s, epp) == s
            &&& place < s.available_governors.len() ==> action_for(s, governor)
                == ActionView::<F>::WriteGovernor(s.available_governors[place as int])
            &&& place >= s.available_governors.len() ==> action_for(s, governor) is Nothing
            &&& place < s.available_epp.len() ==> action_for(s, epp) == ActionView::<F>::WriteEpp(
                s.available_epp[place as int],
            )
            &&& place >= s.available_epp.len() ==> action_for(s, epp) is Nothing
        }),
        ({
            let governor: Reply<F> = Reply::GovernorWritten { governor: name, done: true };
            let epp: Reply<F> = Reply::EppWritten { epp: name, done: true };
            &&& after_reply(s, governor) == (AppletView { current_governor: Some(name@), ..s })
            &&& after_reply(s, epp) == (AppletView { current_epp: Some(name@), ..s })
            &&& action_after(s, governor) is Nothing
            &&& action_after(s, epp) is Nothing
        }),
{
}

/// A slider moves its own limit alone: dragging it changes what it shows, letting it go ends
/// that, and what was written is the limit. The other slider and all else stay as they are.
pub proof fn law_sliders_move_their_own_limit<F>(s: AppletView<F>, mhz: F)
    ensures
        after_message(s, Limit::Lower.preview_of(mhz)) == (AppletView {
            preview_min_mhz: Some(mhz),
            ..s
        }),
        after_message(s, Limit::Upper.preview_of(mhz)) == (AppletView {
            preview_max_mhz: Some(mhz),
            ..s
        }),
        action_for(s, Limit::Lower.preview_of(mhz)) is Nothing,
        action_for(s, Limit::Upper.preview_of(mhz)) is Nothing,
        after_message(s, Limit::Lower.commit_of::<F>()) == (AppletView {
            preview_min_mhz: None,
            ..s
        }),
        after_message(s, Limit::Upper.commit_of::<F>()) == (AppletView {
            preview_max_mhz: None,
            ..s
        }),
        s.preview_min_mhz == Some(mhz) ==> action_for(s, Limit::Lower.commit_of::<F>())
            == ActionView::WriteScalingMin(mhz),
        s.preview_max_mhz == Some(mhz) ==> action_for(s, Limit::Upper.commit_of::<F>())
            == ActionView::WriteScalingMax(mhz),
        s.preview_min_mhz is None ==> action_for(s, Limit::Lower.commit_of::<F>()) is Nothing,
        s.preview_max_mhz is None ==> action_for(s, Limit::Upper.commit_of::<F>()) is Nothing,
        after_reply(s, Reply::ScalingMinWritten { mhz, done: true }) == (AppletView {
            scaling_min_mhz: Some(mhz),
            ..s
        }),
        after_reply(s, Reply::ScalingMaxWritten { mhz, done: true }) == (AppletView {
            scaling_max_mhz: Some(mhz),
            ..s
        }),
        action_after(s, Reply::ScalingMinWritten { mhz, done: true }) is Nothing,
        action_after(s, Reply::ScalingMaxWritten { mhz, done: true }) is Nothing,
{
}

/// To toggle the popup asks to close the window that is open, or where none is to read what a
/// new one shows; a window that was closed is gone, any other stays.
pub proof fn law_popup_is_toggled<F>(s: AppletView<F>, id: u64)
    ensures
        s.popup == Some(id) ==> action_for(s, Message::ToggleWindow)
            == ActionView::<F>::ClosePopup(id),
        s.popup is None ==> action_for(s, Message::ToggleWindow) is ReadPopupData,
        after_message(s, Message::ToggleWindow) == (AppletView { popup: None, ..s }),
        s.popup == Some(id) ==> after_message(s, Message::PopupClosed(id)).popup is None,
        s.popup != Some(id) ==> after_message(s, Message::PopupClosed(id)) == s,
        action_for(s, Message::PopupClosed(id)) is Nothing,
        action_for(s, Message::ToggleSettings) is Nothing,
        after_message(s, Message::ToggleSettings) == (AppletView {
            show_settings: !s.show_settings,
            ..s
        }),
{
}

/// A tick asks for the frequencies and changes nothing yet. What is read then is shown: the
/// cores as they are listed and, in the panel, the part of the summary that the mode names, or
/// nothing where there is no core. Turbo is where it was read to be, but where it left the
/// saved state: then it is asked to be restored first. Nothing else changes.
pub proof fn law_ticks_show_what_was_read<F>(
    s: AppletView<F>,
    cores: Vec<(u32, F)>,
    summary: FreqSummary<F>,
    turbo: Option<bool>,
)
    ensures
        action_for(s, Message::Tick) is ReadFrequencies,
        after_message(s, Message::Tick) == s,
        ({
            let polled = Reply::Frequencies { cores, summary: Some(summary), system_turbo: turbo };
            let end = after_reply(s, polled);
            let left = s.turbo_enabled == Some(s.config.turbo_enabled) && turbo != Some(
                s.config.turbo_enabled,
            );
            &&& end.per_core_freqs == cores@
            &&& cores@.len() == 0 ==> end.current_freq_mhz is None
            &&& cores@.len() > 0 && s.config.freq_display_mode is Average ==> end.current_freq_mhz
                == Some(summary.average)
            &&& cores@.len() > 0 && s.config.freq_display_mode is Minimum ==> end.current_freq_mhz
                == Some(summary.minimum)
            &&& cores@.len() > 0 && s.config.freq_display_mode is Maximum ==> end.current_freq_mhz
                == Some(summary.maximum)
            &&& left ==> end.turbo_enabled == s.turbo_enabled && action_after(s, polled) == (
            ActionView::<F>::RestoreTurbo { enabled: s.config.turbo_enabled, observed: turbo })
            &&& !left ==> end.turbo_enabled == turbo && action_after(s, polled) is ReadStatus
            &&& end == (AppletView {
                per_core_freqs: end.per_core_freqs,
                current_freq_mhz: end.current_freq_mhz,
                turbo_enabled: end.turbo_enabled,
                ..s
            })
        }),
{
}

/// Whether a restore worked or not, the reading goes on: with the limits whose sliders are not
/// dragged, and with the usage while the popup is open. Nothing but turbo changes.
pub proof fn law_reading_goes_on<F>(
    s: AppletView<F>,
    cores: Vec<(u32, F)>,
    observed: Option<bool>,
    done: bool,
)
    ensures
        ({
            let restored: Reply<F> = Reply::TurboRestored { observed, done };
            let polled = Reply::Frequencies { cores, summary: None, system_turbo: s.turbo_enabled };
            let next = action_after(s, restored);
            &&& next matches ActionView::ReadStatus { scaling_min, scaling_max, usage } && {
                &&& scaling_min == (s.preview_min_mhz is None)
                &&& scaling_max == (s.preview_max_mhz is None)
                &&& usage == (s.popup is Some)
            }
            &&& action_after(s, polled) == next
            &&& done ==> after_reply(s, restored) == (AppletView {
                turbo_enabled: Some(s.config.turbo_enabled),
                ..s
            })
            &&& !done ==> after_reply(s, restored) == (AppletView { turbo_enabled: observed, ..s })
        }),
        ({
            let saved: Reply<F> = Reply::SavedTurboRestored { done };
            &&& done ==> after_reply(s, saved) == (AppletView {
                turbo_enabled: Some(s.config.turbo_enabled),
                ..s
            })
            &&& !done ==> after_reply(s, saved) == s
            &&& action_after(s, saved) is Nothing
        }),
{
}

/// What a tick reads of the status is taken over: the governor and the preference, the limits
/// whose sliders are not dragged and, while the popup is open, the memory where it could be
/// read and the usage since the last snapshot where there are two. Nothing else changes.
pub proof fn law_status_is_taken_over<F>(s: AppletView<F>, reading: StatusReading<F>)
    ensures
        ({
            let end = after_reply(s, Reply::Status(reading));
            let open = s.popup is Some;
            &&& action_after(s, Reply::Status(reading)) is Nothing
            &&& end.current_governor is Some <==> reading.governor is Some
            &&& reading.governor is Some ==> end.current_governor->0 == reading.governor->0@
            &&& end.current_epp is Some <==> reading.epp is Some
            &&& reading.epp is Some ==> end.current_epp->0 == reading.epp->0@
            &&& s.preview_min_mhz is None ==> end.scaling_min_mhz == reading.scaling_min
            &&& s.preview_min_mhz is Some ==> end.scaling_min_mhz == s.scaling_min_mhz
            &&& s.preview_max_mhz is None ==> end.scaling_max_mhz == reading.scaling_max
            &&& s.preview_max_mhz is Some ==> end.scaling_max_mhz == s.scaling_max_mhz
            &&& open && reading.memory is Some ==> end.memory_used_kb == Some((reading.memory->0).0)
                && end.memory_total_kb == Some((reading.memory->0).1)
            &&& !open || reading.memory is None ==> end.memory_used_kb == s.memory_used_kb
                && end.memory_total_kb == s.memory_total_kb
            &&& !open || reading.snapshot is None ==> end.cpu_usage_prev == s.cpu_usage_prev
                && end.cpu_usage == s.cpu_usage && end.per_core_usage == s.per_core_usage
            &&& open && reading.snapshot is Some ==> end.cpu_usage_prev == Some(
                reading.snapshot->0@,
            )
            &&& open && reading.snapshot is Some && s.cpu_usage_prev is None ==> end.cpu_usage
                == s.cpu_usage && end.per_core_usage == s.per_core_usage
            &&& open && reading.snapshot is Some && s.cpu_usage_prev is Some ==> {
                let now = reading.snapshot->0;
                let then = s.cpu_usage_prev->0;
                &&& end.cpu_usage == Some(now.aggregate.usage_since(then.aggregate))
                &&& end.per_core_usage == now@.per_core_usage_since(then)
            }
            &&& end == (AppletView {
                current_governor: end.current_governor,
                current_epp: end.current_epp,
                scaling_min_mhz: end.scaling_min_mhz,
                scaling_max_mhz: end.scaling_max_mhz,
                memory_used_kb: end.memory_used_kb,
                memory_total_kb: end.memory_total_kb,
                cpu_usage_prev: end.cpu_usage_prev,
                cpu_usage: end.cpu_usage,
                per_core_usage: end.per_core_usage,
                ..s
            })
        }),
{
}

/// A popup opens in the window that it was given, on its main page, with what was read for it:
/// the names on offer with their labels, the cores, the first snapshot and the memory where it
/// could be read. Its window is 600 wide where the sections stand side by side, else 360.
pub proof fn law_popup_opens_with_what_was_read<F>(
    s: AppletView<F>,
    id: u64,
    reading: PopupReading<F>,
    i: int,
)
    ensures
        ({
            let data = Reply::PopupData { id, reading };
            let end = after_reply(s, data);
            &&& action_after(s, data) matches ActionView::OpenPopup { id: window, width } && {
                &&& window == id
                &&& s.config.horizontal_layout ==> width == 600
                &&& !s.config.horizontal_layout ==> width == 360
            }
            &&& end.popup == Some(id)
            &&& !end.show_settings
            &&& end.available_governors.len() == reading.governors@.len()
            &&& 0 <= i < reading.governors@.len() ==> end.available_governors[i]
                == reading.governors@[i]@
            &&& end.available_epp.len() == reading.epp@.len()
            &&& 0 <= i < reading.epp@.len() ==> end.available_epp[i] == reading.epp@[i]@
            &&& end.governor_labels.len() == reading.governors@.len()
            &&& 0 <= i < reading.governors@.len() ==> end.governor_labels[i] == prettified(
                reading.governors@[i]@,
            )
            &&& end.epp_labels.len() == reading.epp@.len()
            &&& 0 <= i < reading.epp@.len() ==> end.epp_labels[i] == prettified(reading.epp@[i]@)
            &&& end.per_core_freqs == reading.cores@
            &&& end.cpu_usage is None
            &&& end.cpu_usage_prev is Some <==> reading.snapshot is Some
            &&& reading.snapshot is Some ==> end.cpu_usage_prev->0 == reading.snapshot->0@
            &&& reading.memory is Some ==> end.memory_used_kb == Some((reading.memory->0).0)
                && end.memory_total_kb == Some((reading.memory->0).1)
            &&& reading.memory is None ==> end.memory_used_kb == s.memory_used_kb
                && end.memory_total_kb == s.memory_total_kb
            &&& end == (AppletView {
                popup: end.popup,
                show_settings: end.show_settings,
                available_governors: end.available_governors,
                available_epp: end.available_epp,
                governor_labels: end.governor_labels,
                epp_labels: end.epp_labels,
                freq_bounds: end.freq_bounds,
                per_core_freqs: end.per_core_freqs,
                cpu_usage_prev: end.cpu_usage_prev,
                cpu_usage: end.cpu_usage,
                memory_used_kb: end.memory_used_kb,
                memory_total_kb: end.memory_total_kb,
                ..s
            })
        }),
{
}

/// The applet starts with the settings it was given and with what was read: every name and
/// text as it is, no popup, no slider dragged and no usage yet.
pub proof fn law_start_takes_over_what_was_read<F>(
    config: CpuFreqConfig,
    config_handler: bool,
    reading: StartReading<F>,
    i: int,
)
    ensures
        ({
            let s = start_state(config, config_handler, reading);
            &&& s.config == config
            &&& s.config_handler == config_handler
            &&& s.turbo_enabled == reading.turbo_enabled
            &&& s.scaling_min_mhz == reading.scaling_min_mhz
            &&& s.scaling_max_mhz == reading.scaling_max_mhz
            &&& reading.summary is None ==> s.current_freq_mhz is None
            &&& reading.summary is Some && config.freq_display_mode is Average ==> s.current_freq_mhz
                == Some(reading.summary->0.average)
            &&& reading.summary is Some && config.freq_display_mode is Minimum ==> s.current_freq_mhz
                == Some(reading.summary->0.minimum)
            &&& reading.summary is Some && config.freq_display_mode is Maximum ==> s.current_freq_mhz
                == Some(reading.summary->0.maximum)
            &&& s.popup is None
            &&& !s.show_settings
            &&& s.preview_min_mhz is None
            &&& s.preview_max_mhz is None
            &&& s.cpu_usage_prev is None
            &&& s.cpu_usage is None
            &&& s.per_core_usage.len() == 0
            &&& s.per_core_freqs.len() == 0
            &&& s.memory_used_kb is None
            &&& s.memory_total_kb is None
        }),
        ({
            let s = start_state(config, config_handler, reading);
            &&& s.current_governor is Some <==> reading.current_governor is Some
            &&& reading.current_governor is Some ==> s.current_governor->0
                == reading.current_governor->0@
            &&& s.current_epp is Some <==> reading.current_epp is Some
            &&& reading.current_epp is Some ==> s.current_epp->0 == reading.current_epp->0@
            &&& s.cpu_model is Some <==> reading.cpu_model is Some
            &&& reading.cpu_model is Some ==> s.cpu_model->0 == reading.cpu_model->0@
            &&& s.os_name is Some <==> reading.os_name is Some
            &&& reading.os_name is Some ==> s.os_name->0 == reading.os_name->0@
            &&& s.kernel_version is Some <==> reading.kernel_version is Some
            &&& reading.kernel_version is Some ==> s.kernel_version->0
                == reading.kernel_version->0@
            &&& s.machine_vendor is Some <==> reading.machine_info is Some
            &&& s.machine_model is Some <==> reading.machine_info is Some
            &&& reading.machine_info is Some ==> s.machine_vendor->0
                == (reading.machine_info->0).0@ && s.machine_model->0
                == (reading.machine_info->0).1@
        }),
        ({
            let s = start_state(config, config_handler, reading);
            let governors = reading.available_governors@;
            let epp = reading.available_epp@;
            &&& s.available_governors.len() == governors.len()
            &&& s.governor_labels.len() == governors.len()
            &&& 0 <= i < governors.len() ==> s.available_governors[i] == governors[i]@
                && s.governor_labels[i] == prettified(governors[i]@)
            &&& s.available_epp.len() == epp.len()
            &&& s.epp_labels.len() == epp.len()
            &&& 0 <= i < epp.len() ==> s.available_epp[i] == epp[i]@ && s.epp_labels[i]
                == prettified(epp[i]@)
        }),
{
}

} // verus!
