//! The parts that the popup is made of, without saying how they are drawn.

use vstd::prelude::*;

use crate::state::Message;
#[allow(unused_imports)]
use crate::text::strings;
use crate::usage::CpuUsage;

verus! {

/// The limits of the popup's size.
#[derive(Clone, Copy, PartialEq, Eq, Structural, Debug)]
pub struct PopupLimits {
    pub min_width: u32,
    pub max_width: u32,
    pub min_height: u32,
    pub max_height: u32,
}

/// Something that is on or off.
#[derive(Clone, Copy, PartialEq, Eq, Structural, Debug)]
pub enum Switch {
    Turbo,
    PerCoreUsage,
    CpuUsage,
    MemoryUsage,
}

/// A list to choose from.
#[derive(Clone, Copy, PartialEq, Eq, Structural, Debug)]
pub enum Choice {
    Governor,
    Preference,
    DisplayMode,
    Layout,
}

/// A limit of the frequency that a slider sets.
#[derive(Clone, Copy, PartialEq, Eq, Structural, Debug)]
pub enum Limit {
    Lower,
    Upper,
}

impl Switch {
    /// The message of turning this switch on or off.
    pub open spec fn message_of<F>(self, on: bool) -> Message<F> {
        match self {
            Switch::Turbo => Message::SetTurbo(on),
            Switch::PerCoreUsage => Message::SetShowPerCoreUsage(on),
            Switch::CpuUsage => Message::SetShowCpuUsage(on),
            Switch::MemoryUsage => Message::SetShowMemoryUsage(on),
        }
    }

    /// Tells that this switch was turned on or off.
    pub fn message<F>(self, on: bool) -> (r: Message<F>)
        ensures
            r == self.message_of::<F>(on),
    {
        match self {
            Switch::Turbo => Message::SetTurbo(on),
            Switch::PerCoreUsage => Message::SetShowPerCoreUsage(on),
            Switch::CpuUsage => Message::SetShowCpuUsage(on),
            Switch::MemoryUsage => Message::SetShowMemoryUsage(on),
        }
    }
}

impl Choice {
    /// The message of taking what stands at `place` of this list.
    pub open spec fn message_of<F>(self, place: usize) -> Message<F> {
        match self {
            Choice::Governor => Message::SetGovernor(place),
            Choice::Preference => Message::SetEpp(place),
            Choice::DisplayMode => Message::SetFreqDisplayMode(place),
            Choice::Layout => Message::SetLayout(place),
        }
    }

    /// Tells that what stands at `place` of this list was taken.
    pub fn message<F>(self, place: usize) -> (r: Message<F>)
        ensures
            r == self.message_of::<F>(place),
    {
        match self {
            Choice::Governor => Message::SetGovernor(place),
            Choice::Preference => Message::SetEpp(place),
            Choice::DisplayMode => Message::SetFreqDisplayMode(place),
            Choice::Layout => Message::SetLayout(place),
        }
    }
}

impl Limit {
    /// The message of dragging the slider of this limit to `mhz`.
    pub open spec fn preview_of<F>(self, mhz: F) -> Message<F> {
        match self {
            Limit::Lower => Message::PreviewScalingMin(mhz),
            Limit::Upper => Message::PreviewScalingMax(mhz),
        }
    }

    /// The message of letting the slider of this limit go.
    pub open spec fn commit_of<F>(self) -> Message<F> {
        match self {
            Limit::Lower => Message::CommitScalingMin,
            Limit::Upper => Message::CommitScalingMax,
        }
    }

    /// Tells that the slider of this limit was dragged to `mhz`.
    pub fn preview<F>(self, mhz: F) -> (r: Message<F>)
        ensures
            r == self.preview_of(mhz),
    {
        match self {
            Limit::Lower => Message::PreviewScalingMin(mhz),
            Limit::Upper => Message::PreviewScalingMax(mhz),
        }
    }

    /// Tells that the slider of this limit was let go.
    pub fn commit<F>(self) -> (r: Message<F>)
        ensures
            r == self.commit_of::<F>(),
    {
        match self {
            Limit::Lower => Message::CommitScalingMin,
            Limit::Upper => Message::CommitScalingMax,
        }
    }
}

/// How a line of the header is set.
#[derive(Clone, Copy, PartialEq, Eq, Structural, Debug)]
pub enum LineStyle {
    Body,
    Caption,
}

/// A line of the header.
#[derive(Debug, PartialEq)]
pub struct HeaderLine {
    pub style: LineStyle,
    pub text: String,
}

/// What a `HeaderLine` says.
#[verifier::ext_equal]
pub struct HeaderLineView {
    pub style: LineStyle,
    pub text: Seq<char>,
}

impl View for HeaderLine {
    type V = HeaderLineView;

    open spec fn view(&self) -> HeaderLineView {
        HeaderLineView { style: self.style, text: self.text@ }
    }
}

/// What the lines of a header say.
pub open spec fn header_views(lines: Seq<HeaderLine>) -> Seq<HeaderLineView> {
    Seq::new(lines.len(), |i: int| lines[i]@)
}

/// The usage of a core in the grid.
#[derive(Clone, Copy, PartialEq, Eq, Structural, Debug)]
pub enum CoreUsage {
    /// It is not shown.
    Hidden,
    /// It is shown but not known.
    Unknown,
    Known(CpuUsage),
}

/// A core in the grid.
#[derive(Debug, PartialEq)]
pub struct CoreCell<F> {
    pub label: String,
    pub mhz: F,
    pub usage: CoreUsage,
}

/// What a `CoreCell` shows.
#[verifier::ext_equal]
pub struct CoreCellView<F> {
    pub label: Seq<char>,
    pub mhz: F,
    pub usage: CoreUsage,
}

impl<F> View for CoreCell<F> {
    type V = CoreCellView<F>;

    open spec fn view(&self) -> CoreCellView<F> {
        CoreCellView { label: self.label@, mhz: self.mhz, usage: self.usage }
    }
}

/// What a place of the grid shows.
pub open spec fn cell_view<F>(cell: Option<CoreCell<F>>) -> Option<CoreCellView<F>> {
    match cell {
        Some(cell) => Some(cell@),
        None => None,
    }
}

/// What a row of the grid shows.
pub open spec fn cell_views<F>(row: Seq<Option<CoreCell<F>>>) -> Seq<Option<CoreCellView<F>>> {
    Seq::new(row.len(), |c: int| cell_view(row[c]))
}

/// What the grid shows.
pub open spec fn grid_views<F>(grid: Seq<Vec<Option<CoreCell<F>>>>) -> Seq<
    Seq<Option<CoreCellView<F>>>,
> {
    Seq::new(grid.len(), |r: int| cell_views(grid[r]@))
}

/// A row of the section with the readings.
#[derive(Debug, PartialEq)]
pub enum InfoRow<F> {
    /// The rows of the grid. A place behind the last core is `None`.
    Cores(Vec<Vec<Option<CoreCell<F>>>>),
    /// The bar of the CPU usage.
    CpuUsage(CpuUsage),
    /// The bar of the memory usage: the used and the total memory, where the share of the
    /// one in the other can be told.
    Memory(Option<(u64, u64)>),
}

/// What an `InfoRow` shows.
#[verifier::ext_equal]
pub enum InfoRowView<F> {
    Cores(Seq<Seq<Option<CoreCellView<F>>>>),
    CpuUsage(CpuUsage),
    Memory(Option<(u64, u64)>),
}

impl<F> View for InfoRow<F> {
    type V = InfoRowView<F>;

    open spec fn view(&self) -> InfoRowView<F> {
        match *self {
            InfoRow::Cores(grid) => InfoRowView::Cores(grid_views(grid@)),
            InfoRow::CpuUsage(usage) => InfoRowView::CpuUsage(usage),
            InfoRow::Memory(memory) => InfoRowView::Memory(memory),
        }
    }
}

/// What the section with the readings shows.
pub open spec fn info_views<F>(rows: Seq<InfoRow<F>>) -> Seq<InfoRowView<F>> {
    Seq::new(rows.len(), |i: int| rows[i]@)
}

/// The place of what is chosen, as a number without bounds.
pub open spec fn place_of(selected: Option<usize>) -> Option<int> {
    match selected {
        Some(place) => Some(place as int),
        None => None,
    }
}

/// A slider from `low` to `high`.
#[derive(Debug, PartialEq)]
pub struct Slider<F> {
    pub low: F,
    pub high: F,
    pub value: F,
}

/// A row of the section with the controls.
#[derive(Debug, PartialEq)]
pub enum ControlRow<'a, F> {
    Toggle { switch: Switch, on: bool },
    /// The list offers `labels`; `selected` is the place of what is chosen now, where it is
    /// in the list.
    List { choice: Choice, labels: &'a Vec<String>, selected: Option<usize> },
    Slider { limit: Limit, slider: Slider<F> },
}

/// What a `ControlRow` shows.
#[verifier::ext_equal]
pub enum ControlRowView<F> {
    Toggle { switch: Switch, on: bool },
    List { choice: Choice, labels: Seq<Seq<char>>, selected: Option<int> },
    Slider { limit: Limit, slider: Slider<F> },
}

impl<'a, F> View for ControlRow<'a, F> {
    type V = ControlRowView<F>;

    open spec fn view(&self) -> ControlRowView<F> {
        match *self {
            ControlRow::Toggle { switch, on } => ControlRowView::Toggle { switch, on },
            ControlRow::List { choice, labels, selected } => ControlRowView::List {
                choice,
                labels: strings(labels@),
                selected: place_of(selected),
            },
            ControlRow::Slider { limit, slider } => ControlRowView::Slider { limit, slider },
        }
    }
}

/// What the section with the controls shows.
pub open spec fn control_views<F>(rows: Seq<ControlRow<'_, F>>) -> Seq<ControlRowView<F>> {
    Seq::new(rows.len(), |i: int| rows[i]@)
}

/// A row of the settings page.
#[derive(Debug, PartialEq)]
pub enum SettingsRow {
    /// The title, with the way back to the main page.
    Title,
    Divider,
    Toggle { switch: Switch, on: bool },
    /// `selected` is the place of what is chosen now.
    List { choice: Choice, selected: usize },
    /// The field for the update interval, with the text in it.
    Interval(String),
}

/// What a `SettingsRow` shows.
#[verifier::ext_equal]
pub enum SettingsRowView {
    Title,
    Divider,
    Toggle { switch: Switch, on: bool },
    List { choice: Choice, selected: int },
    Interval(Seq<char>),
}

impl View for SettingsRow {
    type V = SettingsRowView;

    open spec fn view(&self) -> SettingsRowView {
        match *self {
            SettingsRow::Title => SettingsRowView::Title,
            SettingsRow::Divider => SettingsRowView::Divider,
            SettingsRow::Toggle { switch, on } => SettingsRowView::Toggle { switch, on },
            SettingsRow::List { choice, selected } => SettingsRowView::List {
                choice,
                selected: selected as int,
            },
            SettingsRow::Interval(text) => SettingsRowView::Interval(text@),
        }
    }
}

/// What the settings page shows.
pub open spec fn settings_views(rows: Seq<SettingsRow>) -> Seq<SettingsRowView> {
    Seq::new(rows.len(), |i: int| rows[i]@)
}

/// A section of the main page.
#[derive(Debug, PartialEq)]
pub enum Section<'a, F> {
    Info(Vec<InfoRow<F>>),
    Divider,
    Controls(Vec<ControlRow<'a, F>>),
}

/// What a `Section` shows.
#[verifier::ext_equal]
pub enum SectionView<F> {
    Info(Seq<InfoRowView<F>>),
    Divider,
    Controls(Seq<ControlRowView<F>>),
}

impl<'a, F> View for Section<'a, F> {
    type V = SectionView<F>;

    open spec fn view(&self) -> SectionView<F> {
        match *self {
            Section::Info(rows) => SectionView::Info(info_views(rows@)),
            Section::Divider => SectionView::Divider,
            Section::Controls(rows) => SectionView::Controls(control_views(rows@)),
        }
    }
}

/// What a list of sections shows.
pub open spec fn section_views<F>(sections: Seq<Section<'_, F>>) -> Seq<SectionView<F>> {
    Seq::new(sections.len(), |i: int| sections[i]@)
}

/// How the sections below the header stand.
#[derive(Debug, PartialEq)]
pub enum Body<'a, F> {
    SideBySide { left: Section<'a, F>, right: Section<'a, F> },
    /// One below the other, from the top down.
    Stacked(Vec<Section<'a, F>>),
}

/// What a `Body` shows.
#[verifier::ext_equal]
pub enum BodyView<F> {
    SideBySide { left: SectionView<F>, right: SectionView<F> },
    Stacked(Seq<SectionView<F>>),
}

impl<'a, F> View for Body<'a, F> {
    type V = BodyView<F>;

    open spec fn view(&self) -> BodyView<F> {
        match *self {
            Body::SideBySide { left, right } => BodyView::SideBySide { left: left@, right: right@ },
            Body::Stacked(sections) => BodyView::Stacked(section_views(sections@)),
        }
    }
}

/// A page of the popup. Its rows and lines stand from the top down.
#[derive(Debug, PartialEq)]
pub enum Page<'a, F> {
    Settings(Vec<SettingsRow>),
    Main { header: Vec<HeaderLine>, body: Body<'a, F> },
}

/// What a `Page` shows.
#[verifier::ext_equal]
pub enum PageView<F> {
    Settings(Seq<SettingsRowView>),
    Main { header: Seq<HeaderLineView>, body: BodyView<F> },
}

impl<'a, F> View for Page<'a, F> {
    type V = PageView<F>;

    open spec fn view(&self) -> PageView<F> {
        match *self {
            Page::Settings(rows) => PageView::Settings(settings_views(rows@)),
            Page::Main { header, body } => PageView::Main {
                header: header_views(header@),
                body: body@,
            },
        }
    }
}

/// The popup.
#[derive(Debug, PartialEq)]
pub struct Window<'a, F> {
    pub page: Page<'a, F>,
    /// The width of the page, where it does not follow from its content.
    pub fixed_width: Option<u32>,
    pub limits: PopupLimits,
}

/// What a `Window` shows.
#[verifier::ext_equal]
pub struct WindowView<F> {
    pub page: PageView<F>,
    pub fixed_width: Option<u32>,
    pub limits: PopupLimits,
}

impl<'a, F> View for Window<'a, F> {
    type V = WindowView<F>;

    open spec fn view(&self) -> WindowView<F> {
        WindowView { page: self.page@, fixed_width: self.fixed_width, limits: self.limits }
    }
}

/// Every control tells of itself: a switch of the state that it was turned to, a list of the
/// place that was taken, a slider of the frequency that it was dragged to.
pub proof fn law_controls_tell_of_themselves<F>(on: bool, place: usize, mhz: F)
    ensures
        Switch::Turbo.message_of::<F>(on) == Message::<F>::SetTurbo(on),
        Switch::PerCoreUsage.message_of::<F>(on) == Message::<F>::SetShowPerCoreUsage(on),
        Switch::CpuUsage.message_of::<F>(on) == Message::<F>::SetShowCpuUsage(on),
        Switch::MemoryUsage.message_of::<F>(on) == Message::<F>::SetShowMemoryUsage(on),
        Choice::Governor.message_of::<F>(place) == Message::<F>::SetGovernor(place),
        Choice::Preference.message_of::<F>(place) == Message::<F>::SetEpp(place),
        Choice::DisplayMode.message_of::<F>(place) == Message::<F>::SetFreqDisplayMode(place),
        Choice::Layout.message_of::<F>(place) == Message::<F>::SetLayout(place),
        Limit::Lower.preview_of(mhz) == Message::PreviewScalingMin(mhz),
        Limit::Upper.preview_of(mhz) == Message::PreviewScalingMax(mhz),
        Limit::Lower.commit_of::<F>() == Message::<F>::CommitScalingMin,
        Limit::Upper.commit_of::<F>() == Message::<F>::CommitScalingMax,
{
}

/// The lines and rows of the popup are shown in their order, each as it is.
pub proof fn law_rows_are_shown_in_order<'a, F>(
    header: Seq<HeaderLine>,
    info: Seq<InfoRow<F>>,
    controls: Seq<ControlRow<'a, F>>,
    settings: Seq<SettingsRow>,
    sections: Seq<Section<'a, F>>,
    i: int,
)
    ensures
        header_views(header).len() == header.len(),
        0 <= i < header.len() ==> header_views(header)[i].text == header[i].text@
            && header_views(header)[i].style == header[i].style,
        info_views(info).len() == info.len(),
        0 <= i < info.len() ==> match info[i] {
            InfoRow::Cores(grid) => info_views(info)[i] == InfoRowView::Cores(grid_views(grid@)),
            InfoRow::CpuUsage(usage) => info_views(info)[i] == InfoRowView::<F>::CpuUsage(usage),
            InfoRow::Memory(memory) => info_views(info)[i] == InfoRowView::<F>::Memory(memory),
        },
        control_views(controls).len() == controls.len(),
        0 <= i < controls.len() ==> match (controls[i], control_views(controls)[i]) {
            (
                ControlRow::Toggle { switch, on },
                ControlRowView::Toggle { switch: s, on: o },
            ) => s == switch && o == on,
            (
                ControlRow::List { choice, labels, selected },
                ControlRowView::List { choice: c, labels: l, selected: p },
            ) => {
                &&& c == choice
                &&& l.len() == labels@.len()
                &&& forall|k: int| 0 <= k < labels@.len() ==> #[trigger] l[k] == labels@[k]@
                &&& p is Some <==> selected is Some
                &&& selected is Some ==> p->0 == selected->0
            },
            (
                ControlRow::Slider { limit, slider },
                ControlRowView::Slider { limit: l, slider: v },
            ) => l == limit && v == slider,
            _ => false,
        },
        settings_views(settings).len() == settings.len(),
        0 <= i < settings.len() ==> match (settings[i], settings_views(settings)[i]) {
            (SettingsRow::Title, SettingsRowView::Title) => true,
            (SettingsRow::Divider, SettingsRowView::Divider) => true,
            (
                SettingsRow::Toggle { switch, on },
                SettingsRowView::Toggle { switch: s, on: o },
            ) => s == switch && o == on,
            (
                SettingsRow::List { choice, selected },
                SettingsRowView::List { choice: c, selected: p },
            ) => c == choice && p == selected,
            (SettingsRow::Interval(text), SettingsRowView::Interval(t)) => t == text@,
            _ => false,
        },
        section_views(sections).len() == sections.len(),
        0 <= i < sections.len() ==> match (sections[i], section_views(sections)[i]) {
            (Section::Info(rows), SectionView::Info(v)) => v == info_views(rows@),
            (Section::Divider, SectionView::Divider) => true,
            (Section::Controls(rows), SectionView::Controls(v)) => v == control_views(rows@),
            _ => false,
        },
{
}

/// The grid shows every cell in its row and column, with its label, frequency and usage.
pub proof fn law_cells_are_shown_in_place<F>(grid: Seq<Vec<Option<CoreCell<F>>>>, r: int, c: int)
    ensures
        grid_views(grid).len() == grid.len(),
        0 <= r < grid.len() ==> grid_views(grid)[r].len() == grid[r]@.len(),
        0 <= r < grid.len() && 0 <= c < grid[r]@.len() ==> match grid[r]@[c] {
            Some(cell) => grid_views(grid)[r][c] matches Some(v) && v.label == cell.label@ && v.mhz
                == cell.mhz && v.usage == cell.usage,
            None => grid_views(grid)[r][c] is None,
        },
{
}

/// A window shows its page, its width and its limits, and a page its parts, each in its place.
pub proof fn law_windows_show_their_parts<'a, F>(window: Window<'a, F>, body: Body<'a, F>)
    ensures
        window@.fixed_width == window.fixed_width,
        window@.limits == window.limits,
        match (window.page, window@.page) {
            (Page::Settings(rows), PageView::Settings(v)) => v == settings_views(rows@),
            (Page::Main { header, body: b }, PageView::Main { header: h, body: v }) => h
                == header_views(header@) && v == b@,
            _ => false,
        },
        match (body, body@) {
            (
                Body::SideBySide { left, right },
                BodyView::SideBySide { left: l, right: r },
            ) => l == left@ && r == right@,
            (Body::Stacked(sections), BodyView::Stacked(v)) => v == section_views(sections@),
            _ => false,
        },
{
}

} // verus!
