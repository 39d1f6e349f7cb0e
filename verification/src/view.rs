//! What the panel and the popup show.

use vstd::prelude::*;

use crate::applet::{DEFAULT_POPUP_WIDTH, HORIZONTAL_POPUP_WIDTH};
#[allow(unused_imports)]
use crate::page::{
    cell_view, cell_views, control_views, grid_views, header_views, info_views, place_of,
    section_views, settings_views, BodyView, ControlRowView, CoreCellView, HeaderLineView,
    InfoRowView, PageView, SectionView, SettingsRowView, WindowView,
};
use crate::page::{
    Body, Choice, ControlRow, CoreCell, CoreUsage, HeaderLine, InfoRow, Limit, LineStyle, Page,
    PopupLimits, Section, SettingsRow, Slider, Switch, Window,
};
use crate::state::Applet;
#[allow(unused_imports)]
use crate::state::{text_of, AppletView};
#[allow(unused_imports)]
use crate::text::{decimal, strings};
use crate::text::push_decimal;
use crate::usage::CpuUsage;

verus! {

/// The number of cores in a row of the grid.
pub const GRID_COLUMNS: usize = 4;

/// The height that the popup may have at most.
pub const POPUP_MAX_HEIGHT: u32 = 1080;

/// The limits of the popup's size in the state `s`.
pub open spec fn limits_in<F>(s: AppletView<F>) -> PopupLimits {
    let width = if !s.show_settings && s.config.horizontal_layout {
        HORIZONTAL_POPUP_WIDTH
    } else {
        DEFAULT_POPUP_WIDTH
    };
    PopupLimits { min_width: width, max_width: width, min_height: 1, max_height: POPUP_MAX_HEIGHT }
}

/// The rows of the settings page.
pub open spec fn settings_rows<F>(s: AppletView<F>) -> Seq<SettingsRowView> {
    seq![
        SettingsRowView::Title,
        SettingsRowView::Divider,
        SettingsRowView::List {
            choice: Choice::DisplayMode,
            selected: s.config.freq_display_mode.place(),
        },
        SettingsRowView::Toggle {
            switch: Switch::PerCoreUsage,
            on: s.config.show_per_core_usage,
        },
        SettingsRowView::Toggle { switch: Switch::CpuUsage, on: s.config.show_cpu_usage },
        SettingsRowView::Toggle { switch: Switch::MemoryUsage, on: s.config.show_memory_usage },
        SettingsRowView::List {
            choice: Choice::Layout,
            selected: if s.config.horizontal_layout {
                0
            } else {
                1
            },
        },
        SettingsRowView::Interval(s.update_interval_input),
    ]
}

/// The line that names the machine, where its maker and its model are known.
pub open spec fn machine_line<F>(s: AppletView<F>) -> Option<Seq<char>> {
    match (s.machine_vendor, s.machine_model) {
        (Some(vendor), Some(model)) => Some(vendor + seq![' '] + model),
        _ => None,
    }
}

/// The line that names the kernel, where its version is known.
pub open spec fn kernel_line<F>(s: AppletView<F>, kernel_label: Seq<char>) -> Option<Seq<char>> {
    match s.kernel_version {
        Some(version) => Some(kernel_label + seq![' '] + version),
        None => None,
    }
}

/// A line of the header, or none where there is no text for it.
pub open spec fn line_of(style: LineStyle, text: Option<Seq<char>>) -> Seq<HeaderLineView> {
    match text {
        Some(text) => seq![HeaderLineView { style, text }],
        None => seq![],
    }
}

/// The lines of the header: the CPU, the machine, the system and the kernel, which
/// `kernel_label` stands before. What is not known is left out.
pub open spec fn header_lines<F>(s: AppletView<F>, kernel_label: Seq<char>) -> Seq<
    HeaderLineView,
> {
    line_of(LineStyle::Body, s.cpu_model) + line_of(LineStyle::Caption, machine_line(s)) + line_of(
        LineStyle::Caption,
        s.os_name,
    ) + line_of(LineStyle::Caption, kernel_line(s, kernel_label))
}

/// The usage that the grid shows for the core at place `k` of the list of cores.
pub open spec fn core_usage_at<F>(s: AppletView<F>, k: int) -> CoreUsage {
    if !s.config.show_per_core_usage {
        CoreUsage::Hidden
    } else if k < s.per_core_usage.len() {
        CoreUsage::Known(s.per_core_usage[k])
    } else {
        CoreUsage::Unknown
    }
}

/// What the grid shows at place `k`: the core at that place of the list of cores, or nothing
/// behind the last.
pub open spec fn core_at<F>(s: AppletView<F>, k: int) -> Option<CoreCellView<F>> {
    if k < s.per_core_freqs.len() {
        Some(
            CoreCellView {
                label: "CPU"@ + decimal(s.per_core_freqs[k].0 as nat),
                mhz: s.per_core_freqs[k].1,
                usage: core_usage_at(s, k),
            },
        )
    } else {
        None
    }
}

/// The row of the grid that starts with the core at place `start`.
pub open spec fn core_row<F>(s: AppletView<F>, start: int) -> Seq<Option<CoreCellView<F>>> {
    Seq::new(GRID_COLUMNS as nat, |c: int| core_at(s, start + c))
}

/// The grid: all cores, row by row, with no row without a core.
pub open spec fn core_grid<F>(s: AppletView<F>) -> Seq<Seq<Option<CoreCellView<F>>>> {
    Seq::new(
        ((s.per_core_freqs.len() + GRID_COLUMNS - 1) / GRID_COLUMNS as int) as nat,
        |r: int| core_row(s, r * GRID_COLUMNS),
    )
}

/// The grid, where there is a core.
pub open spec fn cores_part<F>(s: AppletView<F>) -> Seq<InfoRowView<F>> {
    if s.per_core_freqs.len() > 0 {
        seq![InfoRowView::Cores(core_grid(s))]
    } else {
        seq![]
    }
}

/// The CPU usage bar, where it is shown: no usage where none was measured.
pub open spec fn cpu_part<F>(s: AppletView<F>) -> Seq<InfoRowView<F>> {
    if !s.config.show_cpu_usage {
        seq![]
    } else {
        match s.cpu_usage {
            Some(usage) => seq![InfoRowView::CpuUsage(usage)],
            None => seq![InfoRowView::CpuUsage(CpuUsage { busy: 0, idle: 0 })],
        }
    }
}

/// The used and the total memory, where the share of the one in the other can be told.
pub open spec fn memory_share<F>(s: AppletView<F>) -> Option<(u64, u64)> {
    match (s.memory_used_kb, s.memory_total_kb) {
        (Some(used), Some(total)) => if total > 0 {
            Some((used, total))
        } else {
            None
        },
        _ => None,
    }
}

/// The memory usage bar, where it is shown.
pub open spec fn memory_part<F>(s: AppletView<F>) -> Seq<InfoRowView<F>> {
    if s.config.show_memory_usage {
        seq![InfoRowView::Memory(memory_share(s))]
    } else {
        seq![]
    }
}

/// The rows of the section with the readings.
pub open spec fn info_rows<F>(s: AppletView<F>) -> Seq<InfoRowView<F>> {
    cores_part(s) + cpu_part(s) + memory_part(s)
}

/// The first place of `names` that holds `current`.
pub open spec fn selected_in(names: Seq<Seq<char>>, current: Option<Seq<char>>) -> Option<int> {
    match current {
        Some(name) => names.index_of_first(name),
        None => None,
    }
}

/// A list that offers `labels` for `names`, with `current` chosen; there is none where there
/// is no name.
pub open spec fn list_part<F>(
    choice: Choice,
    labels: Seq<Seq<char>>,
    names: Seq<Seq<char>>,
    current: Option<Seq<char>>,
) -> Seq<ControlRowView<F>> {
    if names.len() == 0 {
        seq![]
    } else {
        seq![ControlRowView::List { choice, labels, selected: selected_in(names, current) }]
    }
}

/// The slider for a limit: it shows the value that is being dragged, else the one that was
/// read, and is left out where there is neither or where the bounds are not known.
pub open spec fn slider_part<F>(
    limit: Limit,
    bounds: Option<(F, F)>,
    preview: Option<F>,
    scaling: Option<F>,
) -> Seq<ControlRowView<F>> {
    match (bounds, preview, scaling) {
        (Some((low, high)), Some(value), _) => seq![
            ControlRowView::Slider { limit, slider: Slider { low, high, value } },
        ],
        (Some((low, high)), None, Some(value)) => seq![
            ControlRowView::Slider { limit, slider: Slider { low, high, value } },
        ],
        _ => seq![],
    }
}

/// The switch for turbo, which is off where its state is not known.
pub open spec fn turbo_part<F>(s: AppletView<F>) -> Seq<ControlRowView<F>> {
    seq![ControlRowView::Toggle { switch: Switch::Turbo, on: s.turbo_enabled == Some(true) }]
}

/// The list of the governors.
pub open spec fn governor_part<F>(s: AppletView<F>) -> Seq<ControlRowView<F>> {
    list_part(Choice::Governor, s.governor_labels, s.available_governors, s.current_governor)
}

/// The list of the preferences.
pub open spec fn preference_part<F>(s: AppletView<F>) -> Seq<ControlRowView<F>> {
    list_part(Choice::Preference, s.epp_labels, s.available_epp, s.current_epp)
}

/// The rows of the section with the controls.
pub open spec fn control_rows<F>(s: AppletView<F>) -> Seq<ControlRowView<F>> {
    turbo_part(s) + governor_part(s) + preference_part(s) + slider_part(
        Limit::Lower,
        s.freq_bounds,
        s.preview_min_mhz,
        s.scaling_min_mhz,
    ) + slider_part(Limit::Upper, s.freq_bounds, s.preview_max_mhz, s.scaling_max_mhz)
}

/// The sections below the header: side by side, the readings on the left, or one below the
/// other, the readings on top.
pub open spec fn body_in<F>(s: AppletView<F>) -> BodyView<F> {
    if s.config.horizontal_layout {
        BodyView::SideBySide {
            left: SectionView::Info(info_rows(s)),
            right: SectionView::Controls(control_rows(s)),
        }
    } else {
        BodyView::Stacked(
            seq![
                SectionView::Info(info_rows(s)),
                SectionView::Divider,
                SectionView::Controls(control_rows(s)),
            ],
        )
    }
}

/// The popup in the state `s`.
pub open spec fn window_in<F>(s: AppletView<F>, kernel_label: Seq<char>) -> WindowView<F> {
    if s.show_settings {
        WindowView {
            page: PageView::Settings(settings_rows(s)),
            fixed_width: None,
            limits: limits_in(s),
        }
    } else {
        WindowView {
            page: PageView::Main { header: header_lines(s, kernel_label), body: body_in(s) },
            fixed_width: if s.config.horizontal_layout {
                Some(HORIZONTAL_POPUP_WIDTH)
            } else {
                None
            },
            limits: limits_in(s),
        }
    }
}

/// Finds the first place of `names` that holds `current`.
fn find_selected(names: &Vec<String>, current: &Option<String>) -> (r: Option<usize>)
    ensures
        place_of(r) == selected_in(strings(names@), text_of(*current)),
{
    let name = match current {
        Some(name) => name,
        None => {
            return None;
        },
    };
    let ghost texts = strings(names@);
    proof {
        texts.index_of_first_ensures(name@);
    }
    let mut i: usize = 0;
    while i < names.len()
        invariant
            i <= names@.len(),
            *current == Some(*name),
            texts == strings(names@),
            match texts.index_of_first(name@) {
                Some(first) => 0 <= first < texts.len() && texts[first] == name@ && forall|j: int|
                    0 <= j < first < texts.len() ==> texts[j] != name@,
                None => forall|j: int| 0 <= j < texts.len() ==> texts[j] != name@,
            },
            forall|j: int| 0 <= j < i ==> texts[j] != name@,
        decreases names@.len() - i,
    {
        assert(texts[i as int] == names@[i as int]@);
        if names[i] == *name {
            return Some(i);
        }
        i += 1;
    }
    None
}

/// Adds a line to the header, where there is a text for it.
fn push_line(lines: &mut Vec<HeaderLine>, style: LineStyle, text: &Option<String>)
    ensures
        header_views(final(lines)@) == header_views(old(lines)@) + line_of(style, text_of(*text)),
{
    if let Some(text) = text {
        lines.push(HeaderLine { style, text: text.clone() });
    }
}

/// Adds the list that offers `labels` for `names`, where there is a name.
fn push_list<'a, F>(
    rows: &mut Vec<ControlRow<'a, F>>,
    choice: Choice,
    labels: &'a Vec<String>,
    names: &Vec<String>,
    current: &Option<String>,
)
    ensures
        control_views(final(rows)@) == control_views(old(rows)@) + list_part(
            choice,
            strings(labels@),
            strings(names@),
            text_of(*current),
        ),
{
    if names.len() > 0 {
        rows.push(ControlRow::List { choice, labels, selected: find_selected(names, current) });
    }
}

/// Adds the slider for a limit, where there is something to show.
fn push_slider<'a, F: Copy>(
    rows: &mut Vec<ControlRow<'a, F>>,
    limit: Limit,
    bounds: Option<(F, F)>,
    preview: Option<F>,
    scaling: Option<F>,
)
    ensures
        control_views(final(rows)@) == control_views(old(rows)@) + slider_part(
            limit,
            bounds,
            preview,
            scaling,
        ),
{
    let value = match preview {
        Some(value) => Some(value),
        None => scaling,
    };
    if let (Some((low, high)), Some(value)) = (bounds, value) {
        rows.push(ControlRow::Slider { limit, slider: Slider { low, high, value } });
    }
}

impl<F: Copy> Applet<F> {
    /// The frequency that the panel shows.
    pub fn panel_frequency(&self) -> (r: Option<F>)
        ensures
            r == self@.current_freq_mhz,
    {
        self.current_freq_mhz
    }

    /// The limits of the popup's size.
    pub fn popup_limits(&self) -> (r: PopupLimits)
        ensures
            r == limits_in(self@),
    {
        let width = self.popup_width();
        PopupLimits {
            min_width: width,
            max_width: width,
            min_height: 1,
            max_height: POPUP_MAX_HEIGHT,
        }
    }

    /// Makes the cell of the core at place `k`.
    fn make_cell(&self, k: usize) -> (r: CoreCell<F>)
        requires
            k < self@.per_core_freqs.len(),
        ensures
            Some(r@) == core_at(self@, k as int),
    {
        let (id, mhz) = self.per_core_freqs[k];
        let mut label = "CPU".to_owned();
        push_decimal(&mut label, id as u64);
        let usage = if !self.config.show_per_core_usage {
            CoreUsage::Hidden
        } else if k < self.per_core_usage.len() {
            CoreUsage::Known(self.per_core_usage[k])
        } else {
            CoreUsage::Unknown
        };
        CoreCell { label, mhz, usage }
    }

    /// Makes the row of the grid that starts with the core at place `start`.
    fn make_row(&self, start: usize) -> (r: Vec<Option<CoreCell<F>>>)
        requires
            start < self@.per_core_freqs.len(),
        ensures
            cell_views(r@) == core_row(self@, start as int),
    {
        let n = self.per_core_freqs.len();
        let mut r: Vec<Option<CoreCell<F>>> = Vec::new();
        let mut c: usize = 0;
        while c < GRID_COLUMNS
            invariant
                c <= GRID_COLUMNS,
                start < n,
                n == self@.per_core_freqs.len(),
                r@.len() == c,
                forall|j: int|
                    0 <= j < c ==> cell_view(#[trigger] r@[j]) == core_at(self@, start + j),
            decreases GRID_COLUMNS - c,
        {
            if c < n - start {
                r.push(Some(self.make_cell(start + c)));
            } else {
                r.push(None);
            }
            c += 1;
        }
        r
    }

    /// Makes the grid of the cores.
    fn make_grid(&self) -> (r: Vec<Vec<Option<CoreCell<F>>>>)
        ensures
            grid_views(r@) == core_grid(self@),
    {
        let n = self.per_core_freqs.len();
        let mut grid: Vec<Vec<Option<CoreCell<F>>>> = Vec::new();
        let mut start: usize = 0;
        let mut left: usize = n;
        while left > 0
            invariant
                n == self@.per_core_freqs.len(),
                left == if start < n {
                    n - start
                } else {
                    0
                },
                start == grid@.len() * GRID_COLUMNS || left == 0,
                left > 0 ==> start < n,
                left == 0 ==> grid@.len() == (n + GRID_COLUMNS - 1) / GRID_COLUMNS as int,
                forall|r: int|
                    0 <= r < grid@.len() ==> cell_views((#[trigger] grid@[r])@) == core_row(
                        self@,
                        r * GRID_COLUMNS,
                    ),
            decreases left,
        {
            grid.push(self.make_row(start));
            if left > GRID_COLUMNS {
                start += GRID_COLUMNS;
                left -= GRID_COLUMNS;
            } else {
                start = n;
                left = 0;
            }
        }
        grid
    }

    /// The section with the readings: the grid of the cores and the usage bars.
    pub fn build_info_section(&self) -> (r: Vec<InfoRow<F>>)
        ensures
            info_views(r@) == info_rows(self@),
    {
        let mut rows: Vec<InfoRow<F>> = Vec::new();
        if self.per_core_freqs.len() > 0 {
            rows.push(InfoRow::Cores(self.make_grid()));
        }
        assert(info_views(rows@) == cores_part(self@));
        if self.config.show_cpu_usage {
            let usage = match self.cpu_usage {
                Some(usage) => usage,
                None => CpuUsage { busy: 0, idle: 0 },
            };
            rows.push(InfoRow::CpuUsage(usage));
        }
        assert(info_views(rows@) == cores_part(self@) + cpu_part(self@));
        if self.config.show_memory_usage {
            let share = match (self.memory_used_kb, self.memory_total_kb) {
                (Some(used), Some(total)) => if total > 0 {
                    Some((used, total))
                } else {
                    None
                },
                _ => None,
            };
            rows.push(InfoRow::Memory(share));
        }
        rows
    }

    /// The section with the controls: turbo, governor, preference and limits.
    pub fn build_controls_section(&self) -> (r: Vec<ControlRow<'_, F>>)
        ensures
            control_views(r@) == control_rows(self@),
    {
        let mut rows: Vec<ControlRow<'_, F>> = Vec::new();
        let on = match self.turbo_enabled {
            Some(on) => on,
            None => false,
        };
        rows.push(ControlRow::Toggle { switch: Switch::Turbo, on });
        assert(control_views(rows@) == turbo_part(self@));
        push_list(
            &mut rows,
            Choice::Governor,
            &self.governor_labels,
            &self.available_governors,
            &self.current_governor,
        );
        push_list(
            &mut rows,
            Choice::Preference,
            &self.epp_labels,
            &self.available_epp,
            &self.current_epp,
        );
        push_slider(
            &mut rows,
            Limit::Lower,
            self.freq_bounds,
            self.preview_min_mhz,
            self.scaling_min_mhz,
        );
        push_slider(
            &mut rows,
            Limit::Upper,
            self.freq_bounds,
            self.preview_max_mhz,
            self.scaling_max_mhz,
        );
        rows
    }

    /// The lines of the header, from the top down.
    pub fn build_header(&self, kernel_label: &str) -> (r: Vec<HeaderLine>)
        ensures
            header_views(r@) == header_lines(self@, kernel_label@),
    {
        let machine = match (&self.machine_vendor, &self.machine_model) {
            (Some(vendor), Some(model)) => {
                let mut line = vendor.clone();
                line.push(' ');
                line.append(model.as_str());
                assert(line@ == vendor@ + seq![' '] + model@);
                Some(line)
            },
            _ => None,
        };
        let kernel = match &self.kernel_version {
            Some(version) => {
                let mut line = kernel_label.to_owned();
                line.push(' ');
                line.append(version.as_str());
                assert(line@ == kernel_label@ + seq![' '] + version@);
                Some(line)
            },
            None => None,
        };
        let mut lines: Vec<HeaderLine> = Vec::new();
        assert(header_views(lines@) == Seq::<HeaderLineView>::empty());
        push_line(&mut lines, LineStyle::Body, &self.cpu_model);
        assert(header_views(lines@) == line_of(LineStyle::Body, self@.cpu_model));
        push_line(&mut lines, LineStyle::Caption, &machine);
        push_line(&mut lines, LineStyle::Caption, &self.os_name);
        push_line(&mut lines, LineStyle::Caption, &kernel);
        lines
    }

    /// The rows of the settings page, from the top down.
    pub fn build_settings(&self) -> (r: Vec<SettingsRow>)
        ensures
            settings_views(r@) == settings_rows(self@),
    {
        let mut rows: Vec<SettingsRow> = Vec::new();
        rows.push(SettingsRow::Title);
        rows.push(SettingsRow::Divider);
        rows.push(
            SettingsRow::List {
                choice: Choice::DisplayMode,
                selected: self.config.freq_display_mode.index(),
            },
        );
        rows.push(
            SettingsRow::Toggle {
                switch: Switch::PerCoreUsage,
                on: self.config.show_per_core_usage,
            },
        );
        rows.push(
            SettingsRow::Toggle { switch: Switch::CpuUsage, on: self.config.show_cpu_usage },
        );
        rows.push(
            SettingsRow::Toggle { switch: Switch::MemoryUsage, on: self.config.show_memory_usage },
        );
        rows.push(
            SettingsRow::List {
                choice: Choice::Layout,
                selected: if self.config.horizontal_layout {
                    0
                } else {
                    1
                },
            },
        );
        rows.push(SettingsRow::Interval(self.update_interval_input.clone()));
        rows
    }

    /// The sections below the header.
    fn build_body(&self) -> (r: Body<'_, F>)
        ensures
            r@ == body_in(self@),
    {
        let info = Section::Info(self.build_info_section());
        let controls = Section::Controls(self.build_controls_section());
        if self.config.horizontal_layout {
            Body::SideBySide { left: info, right: controls }
        } else {
            let mut sections: Vec<Section<'_, F>> = Vec::new();
            sections.push(info);
            sections.push(Section::Divider);
            sections.push(controls);
            assert(section_views(sections@) == seq![
                SectionView::Info(info_rows(self@)),
                SectionView::Divider,
                SectionView::Controls(control_rows(self@)),
            ]);
            Body::Stacked(sections)
        }
    }

    /// The popup. `kernel_label` stands before the version of the kernel.
    pub fn view_window(&self, kernel_label: &str) -> (r: Window<'_, F>)
        ensures
            r@ == window_in(self@, kernel_label@),
    {
        let limits = self.popup_limits();
        if self.show_settings {
            Window { page: Page::Settings(self.build_settings()), fixed_width: None, limits }
        } else {
            let page = Page::Main {
                header: self.build_header(kernel_label),
                body: self.build_body(),
            };
            let fixed_width = if self.config.horizontal_layout {
                Some(HORIZONTAL_POPUP_WIDTH)
            } else {
                None
            };
            Window { page, fixed_width, limits }
        }
    }
}

/// One where `b` holds, else none.
pub open spec fn one_if(b: bool) -> int {
    if b {
        1
    } else {
        0
    }
}

/// The cell of the grid for the core at place `k` of the list of cores stands in row `k / 4`
/// and column `k % 4`. It carries the number and the frequency of that core and, where usage
/// is shown, the usage at the same place of the list of usages, where there is one. No row is
/// without a core, and the places behind the last core are empty.
pub proof fn law_cells_carry_their_core<F>(s: AppletView<F>, k: int)
    requires
        0 <= k,
    ensures
        core_grid(s).len() * 4 >= s.per_core_freqs.len(),
        s.per_core_freqs.len() > 0 ==> core_grid(s).len() * 4 < s.per_core_freqs.len() + 4,
        s.per_core_freqs.len() == 0 ==> core_grid(s).len() == 0,
        k < core_grid(s).len() * 4 ==> core_grid(s)[k / 4].len() == 4,
        s.per_core_freqs.len() <= k < core_grid(s).len() * 4 ==> core_grid(s)[k / 4][k % 4] is None,
        k < s.per_core_freqs.len() ==> (core_grid(s)[k / 4][k % 4] matches Some(cell) && {
            &&& cell.label == seq!['C', 'P', 'U'] + decimal(s.per_core_freqs[k].0 as nat)
            &&& cell.mhz == s.per_core_freqs[k].1
            &&& !s.config.show_per_core_usage ==> cell.usage is Hidden
            &&& s.config.show_per_core_usage && k < s.per_core_usage.len() ==> cell.usage
                == CoreUsage::Known(s.per_core_usage[k])
            &&& s.config.show_per_core_usage && k >= s.per_core_usage.len() ==> cell.usage
                is Unknown
        }),
{
    reveal_strlit("CPU");
    assert("CPU"@ =~= seq!['C', 'P', 'U']);
    if k < core_grid(s).len() * 4 {
        assert((k / 4) * GRID_COLUMNS + k % 4 == k);
        assert(core_grid(s)[k / 4][k % 4] == core_at(s, k));
    }
}

/// The section with the readings shows, in this order: the grid, where there is a core; the
/// CPU usage, where it is to be shown, as it was measured or as none; the memory usage, where
/// it is to be shown, with the used and the total memory where the total is not zero.
pub proof fn law_readings_stand_in_order<F>(s: AppletView<F>)
    ensures
        ({
            let rows = info_rows(s);
            let cores = one_if(s.per_core_freqs.len() > 0);
            let cpu = one_if(s.config.show_cpu_usage);
            let memory = one_if(s.config.show_memory_usage);
            &&& rows.len() == cores + cpu + memory
            &&& cores == 1 ==> rows[0] == InfoRowView::Cores(core_grid(s))
            &&& cpu == 1 && s.cpu_usage is Some ==> rows[cores] == InfoRowView::<F>::CpuUsage(
                s.cpu_usage->0,
            )
            &&& cpu == 1 && s.cpu_usage is None ==> (rows[cores] matches InfoRowView::CpuUsage(u)
                && u.busy == 0 && u.idle == 0)
            &&& memory == 1 ==> rows[cores + cpu] is Memory
            &&& memory == 1 ==> (rows[cores + cpu] matches InfoRowView::Memory(share) && (share
                is Some <==> s.memory_used_kb is Some && s.memory_total_kb is Some
                && s.memory_total_kb->0 > 0))
            &&& memory == 1 ==> (rows[cores + cpu] matches InfoRowView::Memory(Some((used, total)))
                ==> s.memory_used_kb == Some(used) && s.memory_total_kb == Some(total))
        }),
{
}

/// The section with the controls shows, in this order: the switch for turbo; the list of the
/// governors and that of the preferences, where there are any; the sliders of the lower and of
/// the upper limit, where the bounds and something to show are known.
pub proof fn law_controls_stand_in_order<F>(s: AppletView<F>)
    ensures
        ({
            let rows = control_rows(s);
            let g = one_if(s.available_governors.len() > 0);
            let e = one_if(s.available_epp.len() > 0);
            let low = one_if(
                s.freq_bounds is Some && (s.preview_min_mhz is Some || s.scaling_min_mhz is Some),
            );
            let high = one_if(
                s.freq_bounds is Some && (s.preview_max_mhz is Some || s.scaling_max_mhz is Some),
            );
            &&& rows.len() == 1 + g + e + low + high
            &&& rows[0] matches ControlRowView::Toggle { switch, on } && switch is Turbo && on == (
            s.turbo_enabled == Some(true))
            &&& g == 1 ==> (rows[1] matches ControlRowView::List { choice, labels, .. } && choice
                is Governor && labels == s.governor_labels)
            &&& e == 1 ==> (rows[1 + g] matches ControlRowView::List { choice, labels, .. }
                && choice is Preference && labels == s.epp_labels)
            &&& low == 1 ==> (rows[1 + g + e] matches ControlRowView::Slider { limit, slider } && {
                &&& limit is Lower
                &&& Some((slider.low, slider.high)) == s.freq_bounds
                &&& s.preview_min_mhz is Some ==> Some(slider.value) == s.preview_min_mhz
                &&& s.preview_min_mhz is None ==> Some(slider.value) == s.scaling_min_mhz
            })
            &&& high == 1 ==> (rows[1 + g + e + low] matches ControlRowView::Slider {
                limit,
                slider,
            } && {
                &&& limit is Upper
                &&& Some((slider.low, slider.high)) == s.freq_bounds
                &&& s.preview_max_mhz is Some ==> Some(slider.value) == s.preview_max_mhz
                &&& s.preview_max_mhz is None ==> Some(slider.value) == s.scaling_max_mhz
            })
        }),
{
}

/// A list shows as chosen the first place that holds what is in use, and none where no place
/// holds it or where it is not known what is in use.
pub proof fn law_lists_show_what_is_in_use<F>(s: AppletView<F>)
    ensures
        governor_part(s).len() == one_if(s.available_governors.len() > 0),
        preference_part(s).len() == one_if(s.available_epp.len() > 0),
        s.available_governors.len() > 0 ==> (governor_part(s)[0] matches ControlRowView::List {
            selected,
            ..
        } && marks(s.available_governors, s.current_governor, selected)),
        s.available_epp.len() > 0 ==> (preference_part(s)[0] matches ControlRowView::List {
            selected,
            ..
        } && marks(s.available_epp, s.current_epp, selected)),
{
    if let Some(name) = s.current_governor {
        s.available_governors.index_of_first_ensures(name);
    }
    if let Some(name) = s.current_epp {
        s.available_epp.index_of_first_ensures(name);
    }
}

/// Whether `selected` is the first place of `names` that holds `current`, or nothing where
/// there is none.
pub open spec fn marks(
    names: Seq<Seq<char>>,
    current: Option<Seq<char>>,
    selected: Option<int>,
) -> bool {
    match selected {
        Some(place) => {
            &&& 0 <= place < names.len()
            &&& current == Some(names[place])
            &&& forall|i: int| 0 <= i < place ==> Some(#[trigger] names[i]) != current
        },
        None => forall|i: int| 0 <= i < names.len() ==> Some(#[trigger] names[i]) != current,
    }
}

/// The header names the CPU, the machine by its maker and its model, the system and the kernel
/// behind its label, in this order; what is not known is left out and makes no gap.
pub proof fn law_header_names_what_is_known<F>(s: AppletView<F>, kernel_label: Seq<char>)
    ensures
        ({
            let lines = header_lines(s, kernel_label);
            let cpu = one_if(s.cpu_model is Some);
            let machine = one_if(s.machine_vendor is Some && s.machine_model is Some);
            let os = one_if(s.os_name is Some);
            let kernel = one_if(s.kernel_version is Some);
            &&& lines.len() == cpu + machine + os + kernel
            &&& cpu == 1 ==> lines[0].style is Body && lines[0].text == s.cpu_model->0
            &&& machine == 1 ==> lines[cpu].style is Caption && lines[cpu].text
                == s.machine_vendor->0 + seq![' '] + s.machine_model->0
            &&& os == 1 ==> lines[cpu + machine].style is Caption && lines[cpu + machine].text
                == s.os_name->0
            &&& kernel == 1 ==> lines[cpu + machine + os].style is Caption && lines[cpu + machine
                + os].text == kernel_label + seq![' '] + s.kernel_version->0
        }),
{
}

/// The settings page shows its title, a divider and every setting as it is, in a fixed order;
/// the lists show the place of what is set.
pub proof fn law_settings_are_shown_as_they_are<F>(s: AppletView<F>)
    ensures
        ({
            let rows = settings_rows(s);
            &&& rows.len() == 8
            &&& rows[0] is Title
            &&& rows[1] is Divider
            &&& rows[2] matches SettingsRowView::List { choice, selected } && choice is DisplayMode
                && {
                &&& s.config.freq_display_mode is Average ==> selected == 0
                &&& s.config.freq_display_mode is Minimum ==> selected == 1
                &&& s.config.freq_display_mode is Maximum ==> selected == 2
            }
            &&& rows[3] matches SettingsRowView::Toggle { switch, on } && switch is PerCoreUsage
                && on == s.config.show_per_core_usage
            &&& rows[4] matches SettingsRowView::Toggle { switch, on } && switch is CpuUsage && on
                == s.config.show_cpu_usage
            &&& rows[5] matches SettingsRowView::Toggle { switch, on } && switch is MemoryUsage
                && on == s.config.show_memory_usage
            &&& rows[6] matches SettingsRowView::List { choice, selected } && choice is Layout && {
                &&& s.config.horizontal_layout ==> selected == 0
                &&& !s.config.horizontal_layout ==> selected == 1
            }
            &&& rows[7] == SettingsRowView::Interval(s.update_interval_input)
        }),
{
}

/// The popup shows the settings page where it was turned to, else the header and the two
/// sections: the readings on the left and the controls on the right of a page 600 wide, or the
/// readings, a divider and the controls from the top down. Its width is fixed, its height is
/// at most 1080.
pub proof fn law_popup_shows_one_page<F>(s: AppletView<F>, kernel_label: Seq<char>)
    ensures
        ({
            let window = window_in(s, kernel_label);
            let wide = !s.show_settings && s.config.horizontal_layout;
            &&& window.limits.min_width == window.limits.max_width
            &&& wide ==> window.limits.max_width == 600 && window.fixed_width == Some(600u32)
            &&& !wide ==> window.limits.max_width == 360 && window.fixed_width is None
            &&& window.limits.min_height == 1
            &&& window.limits.max_height == 1080
            &&& window.limits == limits_in(s)
            &&& s.show_settings ==> window.page == PageView::<F>::Settings(settings_rows(s))
            &&& !s.show_settings ==> (window.page matches PageView::Main { header, .. } && header
                == header_lines(s, kernel_label))
            &&& wide ==> (window.page matches PageView::Main { body, .. } && (
            body matches BodyView::SideBySide { left, right } && {
                &&& left == SectionView::Info(info_rows(s))
                &&& right == SectionView::Controls(control_rows(s))
            }))
            &&& !s.show_settings && !s.config.horizontal_layout ==> (
            window.page matches PageView::Main { body, .. } && (body matches BodyView::Stacked(
                sections,
            ) && {
                &&& sections.len() == 3
                &&& sections[0] == SectionView::Info(info_rows(s))
                &&& sections[1] is Divider
                &&& sections[2] == SectionView::Controls(control_rows(s))
            }))
        }),
{
}

/// The panel shows the current frequency.
pub proof fn law_panel_shows_the_current_frequency<F: Copy>(a: Applet<F>, r: Option<F>)
    requires
        call_ensures(Applet::<F>::panel_frequency, (&a,), r),
    ensures
        r == a.current_freq_mhz,
{
}

/// The grid that the section with the readings is built with has, for every core, a cell with
/// the number, the frequency and the usage of that core in its row and column.
pub proof fn law_built_grid_carries_every_core<F: Copy>(a: Applet<F>, r: Vec<InfoRow<F>>, k: int)
    requires
        call_ensures(Applet::<F>::build_info_section, (&a,), r),
        0 <= k < a.per_core_freqs@.len(),
    ensures
        r@.len() > 0,
        r@[0] matches InfoRow::Cores(grid) && k / 4 < grid@.len() && grid@[k / 4]@.len() == 4 && (
        grid@[k / 4]@[k % 4] matches Some(cell) && {
            &&& cell.label@ == seq!['C', 'P', 'U'] + decimal(a.per_core_freqs@[k].0 as nat)
            &&& cell.mhz == a.per_core_freqs@[k].1
            &&& a.config.show_per_core_usage && k < a.per_core_usage@.len() ==> cell.usage
                == CoreUsage::Known(a.per_core_usage@[k])
            &&& a.config.show_per_core_usage && k >= a.per_core_usage@.len() ==> cell.usage
                is Unknown
            &&& !a.config.show_per_core_usage ==> cell.usage is Hidden
        }),
{
    law_cells_carry_their_core(a@, k);
    law_readings_stand_in_order(a@);
    assert(info_views(r@).len() == r@.len());
    assert(info_views(r@)[0] == r@[0]@);
    let grid = r@[0]->Cores_0;
    assert(grid_views(grid@) == core_grid(a@));
    assert(grid_views(grid@).len() == grid@.len());
    assert(grid_views(grid@)[k / 4] == cell_views(grid@[k / 4]@));
    assert(cell_views(grid@[k / 4]@).len() == grid@[k / 4]@.len());
    assert(cell_views(grid@[k / 4]@)[k % 4] == cell_view(grid@[k / 4]@[k % 4]));
}

} // verus!
