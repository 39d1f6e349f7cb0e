//! What the kernel's files tell of the CPU and of the machine.
//!
//! A frequency is a value of a type `F` that the caller chooses: nothing here computes on it.
//! The content of a file is `None` where the file could not be read.

use vstd::prelude::*;

use crate::config::FreqDisplayMode;
use crate::text::{
    chars_of, parse_number, same_text, split_lines, split_words, string_of, strip_prefix, trim,
    trim_start, CharClass,
};
#[allow(unused_imports)]
use crate::text::{
    begins_with, decimal, is_space, law_decimal_reads_back, law_prefixes,
    law_solid_text_is_a_word, law_trimmed_start_drops_the_class, law_trimming_finds_the_core,
    law_words_part_at_white_space, lemma_word_len, lines, number, strings, trimmed, trimmed_end, trimmed_start, views, word_len, words,
};

verus! {

/// The directory in which the kernel keeps the files of the CPUs.
pub const CPUROOT: &'static str = "/sys/devices/system/cpu";

/// The path of the file that controls turbo boost.
pub fn turbo_path(pstate: bool) -> (r: String)
    ensures
        r@ == CPUROOT@ + if pstate {
            "/intel_pstate/no_turbo"@
        } else {
            "/cpufreq/boost"@
        },
{
    CPUROOT.to_owned().concat(if pstate { "/intel_pstate/no_turbo" } else { "/cpufreq/boost" })
}

/// What stands for "turbo on" or "turbo off" in the file that controls turbo boost:
/// `intel_pstate` has a switch that turns it off, other drivers one that turns it on.
pub open spec fn turbo_value(pstate: bool, enabled: bool) -> Seq<char> {
    if pstate != enabled {
        "1"@
    } else {
        "0"@
    }
}

/// Whether the content of that file says that turbo boost is on.
pub open spec fn turbo_state(pstate: bool, val: Seq<char>) -> bool {
    trimmed(val, CharClass::Space) == turbo_value(pstate, true)
}

/// Reads the turbo boost state from the content of the file that controls it.
pub fn read_turbo_enabled(pstate: bool, val: Option<&str>) -> (r: Option<bool>)
    ensures
        r == match val {
            Some(val) => Some(turbo_state(pstate, val@)),
            None => None,
        },
{
    match val {
        Some(val) => {
            let text = chars_of(val);
            let on = chars_of(if pstate { "0" } else { "1" });
            Some(same_text(trim(text.as_slice(), CharClass::Space), on.as_slice()))
        },
        None => None,
    }
}

/// Reads a file that holds one value, such as the governor in use or the kernel's version.
pub fn read_value(content: Option<&str>) -> (r: Option<String>)
    ensures
        r is Some <==> content is Some,
        r matches Some(value) ==> value@ == trimmed(content->0@, CharClass::Space),
{
    match content {
        Some(content) => {
            let text = chars_of(content);
            Some(string_of(trim(text.as_slice(), CharClass::Space)))
        },
        None => None,
    }
}

/// Reads a file that lists names, such as the governors on offer; there are none where the
/// file could not be read.
pub fn read_names(content: Option<&str>) -> (r: Vec<String>)
    ensures
        strings(r@) == match content {
            Some(content) => words(content@),
            None => Seq::empty(),
        },
{
    let mut r: Vec<String> = Vec::new();
    let text = match content {
        Some(content) => chars_of(content),
        None => {
            return r;
        },
    };
    let ws = split_words(text.as_slice());
    let mut i: usize = 0;
    while i < ws.len()
        invariant
            i <= ws@.len(),
            views(ws@) == words(text@),
            strings(r@) == words(text@).take(i as int),
        decreases ws@.len() - i,
    {
        let ghost before = strings(r@);
        let name = string_of(ws[i]);
        assert(words(text@)[i as int] == name@);
        r.push(name);
        assert(strings(r@) == before.push(name@));
        i += 1;
    }
    assert(words(text@).take(i as int) == words(text@));
    r
}

/// Reads the maker and the model of the machine; both have to be there.
pub fn read_machine_info(vendor: Option<&str>, model: Option<&str>) -> (r: Option<(String, String)>)
    ensures
        r is Some <==> vendor is Some && model is Some,
        r matches Some((v, m)) ==> v@ == trimmed(vendor->0@, CharClass::Space) && m@ == trimmed(
            model->0@,
            CharClass::Space,
        ),
{
    match (read_value(vendor), read_value(model)) {
        (Some(vendor), Some(model)) => Some((vendor, model)),
        _ => None,
    }
}

/// What stands behind `key` on the first of the lines that begins with it.
pub open spec fn keyed(ls: Seq<Seq<char>>, key: Seq<char>) -> Option<Seq<char>>
    decreases ls.len(),
{
    if ls.len() == 0 {
        None
    } else if begins_with(ls[0], key) {
        Some(ls[0].skip(key.len() as int))
    } else {
        keyed(ls.drop_first(), key)
    }
}

/// Finds what stands behind `key` on the first line of `text` that begins with it.
pub fn find_keyed<'a>(text: &'a [char], key: &str) -> (r: Option<&'a [char]>)
    ensures
        r is Some <==> keyed(lines(text@), key@) is Some,
        r matches Some(value) ==> keyed(lines(text@), key@) == Some(value@),
{
    let ls = split_lines(text);
    let ghost all = lines(text@);
    let mut i: usize = 0;
    assert(all.skip(0) == all);
    while i < ls.len()
        invariant
            i <= ls@.len(),
            views(ls@) == all,
            all == lines(text@),
            keyed(all.skip(i as int), key@) == keyed(all, key@),
        decreases ls@.len() - i,
    {
        assert(all.skip(i as int)[0] == ls@[i as int]@);
        assert(all.skip(i as int).drop_first() == all.skip(i + 1));
        if let Some(value) = strip_prefix(ls[i], key) {
            return Some(value);
        }
        i += 1;
    }
    None
}

/// The model name that the text of `/proc/cpuinfo` gives.
pub open spec fn cpu_model_of(cpuinfo: Seq<char>) -> Option<Seq<char>> {
    match keyed(lines(cpuinfo), "model name"@) {
        Some(val) => Some(trimmed(trimmed_start(val, CharClass::Gap), CharClass::Space)),
        None => None,
    }
}

/// Reads the name of the CPU from the content of `/proc/cpuinfo`.
pub fn read_cpu_model(cpuinfo: Option<&str>) -> (r: Option<String>)
    ensures
        r is Some <==> cpuinfo is Some && cpu_model_of(cpuinfo->0@) is Some,
        r matches Some(model) ==> cpu_model_of(cpuinfo->0@) == Some(model@),
{
    let text = match cpuinfo {
        Some(text) => chars_of(text),
        None => {
            return None;
        },
    };
    match find_keyed(text.as_slice(), "model name") {
        Some(val) => Some(string_of(trim(trim_start(val, CharClass::Gap), CharClass::Space))),
        None => None,
    }
}

/// The system's name that the text of `/etc/os-release` gives.
pub open spec fn os_name_of(release: Seq<char>) -> Option<Seq<char>> {
    match keyed(lines(release), "PRETTY_NAME="@) {
        Some(val) => Some(trimmed(val, CharClass::Quote)),
        None => None,
    }
}

/// Reads the name of the operating system from the content of `/etc/os-release`.
pub fn read_os_name(release: Option<&str>) -> (r: Option<String>)
    ensures
        r is Some <==> release is Some && os_name_of(release->0@) is Some,
        r matches Some(name) ==> os_name_of(release->0@) == Some(name@),
{
    let text = match release {
        Some(text) => chars_of(text),
        None => {
            return None;
        },
    };
    match find_keyed(text.as_slice(), "PRETTY_NAME=") {
        Some(val) => Some(string_of(trim(val, CharClass::Quote))),
        None => None,
    }
}

/// The average, the least and the greatest of the frequencies of the cores.
#[derive(Debug)]
pub struct FreqSummary<F> {
    pub average: F,
    pub minimum: F,
    pub maximum: F,
}

/// The frequency that `mode` shows, where there are cores to sum up.
pub open spec fn shown_frequency<F>(mode: FreqDisplayMode, summary: Option<FreqSummary<F>>) -> Option<
    F,
> {
    match summary {
        Some(s) => Some(
            match mode {
                FreqDisplayMode::Average => s.average,
                FreqDisplayMode::Minimum => s.minimum,
                FreqDisplayMode::Maximum => s.maximum,
            },
        ),
        None => None,
    }
}

/// Picks the frequency that `mode` shows.
pub fn pick_frequency<F: Copy>(mode: FreqDisplayMode, summary: Option<FreqSummary<F>>) -> (r: Option<
    F,
>)
    ensures
        r == shown_frequency(mode, summary),
{
    match summary {
        Some(s) => Some(
            match mode {
                FreqDisplayMode::Average => s.average,
                FreqDisplayMode::Minimum => s.minimum,
                FreqDisplayMode::Maximum => s.maximum,
            },
        ),
        None => None,
    }
}

/// Chooses the highest frequency without turbo: the one that the driver gives, where it
/// gives one, else the highest of the CPU.
pub fn read_base_frequency_mhz<F>(base: Option<F>, cpuinfo_max: Option<F>) -> (r: Option<F>)
    ensures
        r == if base is Some {
            base
        } else {
            cpuinfo_max
        },
{
    match base {
        Some(mhz) => Some(mhz),
        None => cpuinfo_max,
    }
}

/// The highest frequency that the kernel accepts as a limit: without turbo where
/// `intel_pstate` has it off, else the highest of the CPU. Where the state of turbo is
/// not known it counts as on.
pub open spec fn effective_max<F>(
    pstate: bool,
    turbo: Option<bool>,
    base: Option<F>,
    cpuinfo_max: Option<F>,
) -> Option<F> {
    if pstate && turbo == Some(false) && base is Some {
        base
    } else {
        cpuinfo_max
    }
}

/// Chooses the highest frequency that the kernel accepts as a limit.
pub fn read_effective_max_frequency_mhz<F>(
    pstate: bool,
    turbo: Option<bool>,
    base: Option<F>,
    cpuinfo_max: Option<F>,
) -> (r: Option<F>)
    ensures
        r == effective_max(pstate, turbo, base, cpuinfo_max),
{
    let on = match turbo {
        Some(on) => on,
        None => true,
    };
    if pstate && !on {
        read_base_frequency_mhz(base, cpuinfo_max)
    } else {
        cpuinfo_max
    }
}

/// What the kernel's files tell of the frequencies that the CPU can have. A frequency is
/// `None` where its file gives none.
#[derive(Clone, Copy, Debug)]
pub struct FreqReading<F> {
    /// Whether the `intel_pstate` driver is in use.
    pub pstate: bool,
    /// Whether turbo is on, where that is known.
    pub turbo: Option<bool>,
    /// The lowest frequency of the hardware: `cpuinfo_min_freq`.
    pub hw_min: Option<F>,
    /// The highest frequency without turbo: `base_frequency`.
    pub base: Option<F>,
    /// The highest frequency of the hardware, with turbo: `cpuinfo_max_freq`.
    pub turbo_max: Option<F>,
}

/// A pair of bounds, where both are known.
pub open spec fn bounds_of<F>(min: Option<F>, max: Option<F>) -> Option<(F, F)> {
    match (min, max) {
        (Some(min), Some(max)) => Some((min, max)),
        _ => None,
    }
}

impl<F> FreqReading<F> {
    /// The full range of the hardware, with turbo, whether or not turbo is on.
    pub open spec fn range(self) -> Option<(F, F)> {
        bounds_of(self.hw_min, self.turbo_max)
    }

    /// The highest frequency that the kernel accepts as a limit.
    pub open spec fn accepted(self) -> Option<F> {
        effective_max(self.pstate, self.turbo, self.base, self.turbo_max)
    }

    /// Gives the full range of the hardware.
    pub fn full_range(self) -> (r: Option<(F, F)>)
        ensures
            r == self.range(),
    {
        match (self.hw_min, self.turbo_max) {
            (Some(min), Some(max)) => Some((min, max)),
            _ => None,
        }
    }

    /// Gives the highest frequency that the kernel accepts as a limit.
    pub fn accepted_max(self) -> (r: Option<F>)
        ensures
            r == self.accepted(),
    {
        read_effective_max_frequency_mhz(self.pstate, self.turbo, self.base, self.turbo_max)
    }
}

/// The number of the core that a directory of the name `name` belongs to.
pub open spec fn core_of(name: Seq<char>) -> Option<u32> {
    if !begins_with(name, "cpu"@) {
        None
    } else {
        match number(name.skip(3), u32::MAX as nat) {
            Some(id) => Some(id as u32),
            None => None,
        }
    }
}

/// Tells which core a directory of the name `name` belongs to, `None` where it is no core's.
pub fn core_id(name: &str) -> (r: Option<u32>)
    ensures
        r == core_of(name@),
{
    let text = chars_of(name);
    proof {
        reveal_strlit("cpu");
    }
    match strip_prefix(text.as_slice(), "cpu") {
        Some(digits) => match parse_number(digits, u32::MAX as u64) {
            Some(id) => Some(id as u32),
            None => None,
        },
        None => None,
    }
}

/// The cores among `entries` whose frequency is known, in the order of the entries.
pub open spec fn core_readings<F>(entries: Seq<(String, Option<F>)>) -> Seq<(u32, F)>
    decreases entries.len(),
{
    if entries.len() == 0 {
        Seq::empty()
    } else {
        let rest = core_readings(entries.drop_last());
        match (core_of(entries.last().0@), entries.last().1) {
            (Some(id), Some(mhz)) => rest.push((id, mhz)),
            _ => rest,
        }
    }
}

/// Whether a reading is of the core `id`.
pub open spec fn of_core<F>(id: u32) -> spec_fn((u32, F)) -> bool {
    |core: (u32, F)| core.0 == id
}

/// The readings of the core `id`, in order.
pub open spec fn readings_of<F>(cores: Seq<(u32, F)>, id: u32) -> Seq<(u32, F)> {
    cores.filter(of_core(id))
}

/// Whether `cores` is sorted by the number of the core.
pub open spec fn sorted_by_id<F>(cores: Seq<(u32, F)>) -> bool {
    forall|i: int, j: int| 0 <= i <= j < cores.len() ==> cores[i].0 <= cores[j].0
}

/// Where all of `b` have greater numbers than `core`, a reading put before them comes behind
/// all readings of its core.
proof fn lemma_insert_reading<F>(a: Seq<(u32, F)>, b: Seq<(u32, F)>, core: (u32, F), id: u32)
    requires
        forall|i: int| 0 <= i < b.len() ==> (#[trigger] b[i]).0 > core.0,
    ensures
        readings_of(a.push(core) + b, id) == if core.0 == id {
            readings_of(a + b, id).push(core)
        } else {
            readings_of(a + b, id)
        },
{
    let p = of_core::<F>(id);
    Seq::filter_distributes_over_add(a.push(core), b, p);
    Seq::filter_distributes_over_add(a, b, p);
    assert(a.push(core).drop_last() == a);
    reveal(Seq::filter);
    if core.0 == id {
        lemma_no_readings(b, id);
        assert(a.filter(p) + b.filter(p) == a.filter(p));
        assert(a.filter(p).push(core) + b.filter(p) == a.filter(p).push(core));
    }
}

/// A list without the core `id` holds no readings of it.
proof fn lemma_no_readings<F>(cores: Seq<(u32, F)>, id: u32)
    requires
        forall|i: int| 0 <= i < cores.len() ==> (#[trigger] cores[i]).0 != id,
    ensures
        readings_of(cores, id) == Seq::<(u32, F)>::empty(),
    decreases cores.len(),
{
    reveal(Seq::filter);
    if cores.len() > 0 {
        lemma_no_readings(cores.drop_last(), id);
    }
}

/// Puts a reading behind those of its core and of the cores with lesser numbers.
fn insert_reading<F: Copy>(cores: &mut Vec<(u32, F)>, core: (u32, F))
    requires
        sorted_by_id(old(cores)@),
    ensures
        sorted_by_id(final(cores)@),
        final(cores)@.to_multiset() == old(cores)@.to_multiset().insert(core),
        forall|id: u32|
            #[trigger] readings_of(final(cores)@, id) == if core.0 == id {
                readings_of(old(cores)@, id).push(core)
            } else {
                readings_of(old(cores)@, id)
            },
{
    let ghost before = cores@;
    let mut at: usize = cores.len();
    while at > 0 && cores[at - 1].0 > core.0
        invariant
            at <= cores@.len(),
            cores@ == before,
            forall|i: int| at <= i < before.len() ==> (#[trigger] before[i]).0 > core.0,
        decreases at,
    {
        at -= 1;
    }
    cores.insert(at, core);
    proof {
        let a = before.take(at as int);
        let b = before.skip(at as int);
        assert(a + b == before);
        assert(cores@ == a.push(core) + b);
        vstd::seq_lib::to_multiset_insert(before, at as int, core);
        assert forall|id: u32|
            #[trigger] readings_of(cores@, id) == if core.0 == id {
                readings_of(before, id).push(core)
            } else {
                readings_of(before, id)
            } by {
            lemma_insert_reading(a, b, core, id);
        }
    }
}

/// Lists the frequencies of the cores, sorted by the number of the core. An entry is the
/// name of a directory and the frequency that was read there, `None` where none could be
/// read. Readings with the same number stay in order.
pub fn read_per_core_frequencies_mhz<F: Copy>(entries: &Vec<(String, Option<F>)>) -> (r: Vec<(u32, F)>)
    ensures
        sorted_by_id(r@),
        forall|i: int, j: int| 0 <= i < j < r@.len() ==> r@[i].0 <= r@[j].0,
        r@.len() == telling_places(entries@).len(),
        forall|i: int|
            0 <= i < entries@.len() && core_of((#[trigger] entries@[i]).0@) is Some && entries@[i].1
                is Some ==> r@.contains((core_of(entries@[i].0@)->0, entries@[i].1->0)),
        r@.to_multiset() == core_readings(entries@).to_multiset(),
        forall|id: u32| #[trigger]
            readings_of(r@, id) == readings_of(core_readings(entries@), id),
{
    let mut r: Vec<(u32, F)> = Vec::new();
    let mut i: usize = 0;
    while i < entries.len()
        invariant
            i <= entries@.len(),
            sorted_by_id(r@),
            r@.to_multiset() == core_readings(entries@.take(i as int)).to_multiset(),
            forall|id: u32| #[trigger]
                readings_of(r@, id) == readings_of(core_readings(entries@.take(i as int)), id),
        decreases entries@.len() - i,
    {
        let ghost known = core_readings(entries@.take(i as int));
        assert(entries@.take(i + 1).drop_last() == entries@.take(i as int));
        if let Some(id) = core_id(entries[i].0.as_str()) {
            if let Some(mhz) = entries[i].1 {
                insert_reading(&mut r, (id, mhz));
                proof {
                    let core = (id, mhz);
                    known.to_multiset_ensures();
                    assert(core_readings(entries@.take(i + 1)) == known.push(core));
                    assert forall|n: u32| #[trigger]
                        readings_of(r@, n) == readings_of(known.push(core), n) by {
                        reveal(Seq::filter);
                        assert(known.push(core).drop_last() == known);
                    }
                }
            }
        }
        i += 1;
    }
    assert(entries@.take(i as int) == entries@);
    proof {
        let all = core_readings(entries@);
        law_every_core_is_read(entries@);
        all.to_multiset_ensures();
        r@.to_multiset_ensures();
        assert forall|i: int|
            0 <= i < entries@.len() && core_of((#[trigger] entries@[i]).0@) is Some && entries@[i].1
                is Some implies r@.contains((core_of(entries@[i].0@)->0, entries@[i].1->0)) by {
            let core = (core_of(entries@[i].0@)->0, entries@[i].1->0);
            assert(all.contains(core));
            assert(all.to_multiset().contains(core));
        }
    }
    r
}

/// Two lists of cores that are both sorted and hold the same readings of every core are the
/// same list.
pub proof fn law_core_order_is_unique<F>(a: Seq<(u32, F)>, b: Seq<(u32, F)>)
    requires
        sorted_by_id(a),
        sorted_by_id(b),
        forall|id: u32| #[trigger] readings_of(a, id) == readings_of(b, id),
    ensures
        a == b,
    decreases a.len(),
{
    reveal(Seq::filter);
    if a.len() == 0 {
        if b.len() > 0 {
            assert(readings_of(b, b.last().0).last() == b.last());
            assert(readings_of(a, b.last().0).len() == 0);
        }
    } else {
        let id = a.last().0;
        assert(readings_of(a, id).len() > 0);
        assert(readings_of(a, id).last() == a.last());
        if b.len() == 0 {
            assert(readings_of(b, id).len() == 0);
        } else if b.last().0 < id {
            lemma_no_readings(b, id);
        } else if b.last().0 > id {
            assert(readings_of(b, b.last().0).len() > 0);
            lemma_no_readings(a, b.last().0);
        } else {
            assert(readings_of(b, id).last() == b.last());
            let a2 = a.drop_last();
            let b2 = b.drop_last();
            assert forall|n: u32| #[trigger] readings_of(a2, n) == readings_of(b2, n) by {
                assert(readings_of(a, n) == readings_of(b, n));
                if n == id {
                    assert(readings_of(a, n).drop_last() == readings_of(a2, n));
                    assert(readings_of(b, n).drop_last() == readings_of(b2, n));
                }
            }
            law_core_order_is_unique(a2, b2);
            assert(a == a2.push(a.last()));
            assert(b == b2.push(b.last()));
        }
    }
}

/// A text that does not begin or end with white space is not trimmed.
pub proof fn lemma_trimmed_stays(s: Seq<char>)
    requires
        s.len() > 0,
        !is_space(s[0]),
        !is_space(s.last()),
    ensures
        trimmed(s, CharClass::Space) == s,
        trimmed(s.push('\n'), CharClass::Space) == s,
{
    let line = s.push('\n');
    assert(line[0] == s[0]);
    assert(line.drop_last() == s);
    assert(trimmed_start(line, CharClass::Space) == line);
    assert(trimmed_end(line, CharClass::Space) == trimmed_end(s, CharClass::Space));
}

/// What is written to switch turbo reads back as the state that was asked for, with and
/// without the line feed that the kernel adds.
pub proof fn law_turbo_reads_back(pstate: bool, enabled: bool)
    ensures
        turbo_state(pstate, turbo_value(pstate, enabled)) == enabled,
        turbo_state(pstate, turbo_value(pstate, enabled).push('\n')) == enabled,
{
    reveal_strlit("0");
    reveal_strlit("1");
    assert("0"@[0] != "1"@[0]);
    lemma_trimmed_stays(turbo_value(pstate, enabled));
}

/// The names in a list are not empty and hold no white space.
pub proof fn lemma_words_solid(s: Seq<char>, i: int)
    requires
        0 <= i < words(s).len(),
    ensures
        words(s)[i].len() > 0,
        forall|k: int| 0 <= k < words(s)[i].len() ==> !is_space(#[trigger] words(s)[i][k]),
    decreases s.len(),
{
    if is_space(s[0]) {
        lemma_words_solid(s.drop_first(), i);
    } else {
        lemma_word_len(s);
        if i > 0 {
            assert(words(s)[i] == words(s.skip(word_len(s) as int))[i - 1]);
            lemma_words_solid(s.skip(word_len(s) as int), i - 1);
        }
    }
}

/// A name from a list of names, written to the file that holds the name in use, reads back
/// from it as the same name, with and without the line feed that the kernel adds.
pub proof fn law_listed_name_reads_back(list: Seq<char>, i: int)
    requires
        0 <= i < words(list).len(),
    ensures
        trimmed(words(list)[i], CharClass::Space) == words(list)[i],
        trimmed(words(list)[i].push('\n'), CharClass::Space) == words(list)[i],
{
    lemma_words_solid(list, i);
    lemma_trimmed_stays(words(list)[i]);
}

/// The directory of a core is `cpu` and the number of the core; no other name is a core's.
pub proof fn law_core_directories(id: u32, rest: Seq<char>, name: Seq<char>)
    ensures
        core_of("cpu"@ + decimal(id as nat)) == Some(id),
        match number(rest, 0xffff_ffff) {
            Some(n) => core_of("cpu"@ + rest) is Some && core_of("cpu"@ + rest)->0 == n,
            None => core_of("cpu"@ + rest) is None,
        },
        !begins_with(name, "cpu"@) ==> core_of(name) is None,
{
    reveal_strlit("cpu");
    law_prefixes("cpu"@, decimal(id as nat), name);
    law_prefixes("cpu"@, rest, name);
    law_decimal_reads_back(id as nat, 0xffff_ffff);
}

/// Whether the entry tells the frequency of a core.
pub open spec fn tells_core<F>(entry: (String, Option<F>)) -> bool {
    core_of(entry.0@) is Some && entry.1 is Some
}

/// The places of the entries that tell the frequency of a core.
pub open spec fn telling_places<F>(entries: Seq<(String, Option<F>)>) -> Set<int> {
    Set::new(|i: int| 0 <= i < entries.len() && tells_core(entries[i]))
}

/// Every entry that tells the frequency of a core gives one reading, with the number of that
/// core and that frequency, and nothing else gives one.
pub proof fn law_every_core_is_read<F>(entries: Seq<(String, Option<F>)>)
    ensures
        forall|i: int|
            0 <= i < entries.len() && core_of((#[trigger] entries[i]).0@) is Some && entries[i].1
                is Some ==> core_readings(entries).contains(
                (core_of(entries[i].0@)->0, entries[i].1->0),
            ),
        forall|k: int|
            0 <= k < core_readings(entries).len() ==> exists|i: int|
                0 <= i < entries.len() && core_of((#[trigger] entries[i]).0@) == Some(
                    (#[trigger] core_readings(entries)[k]).0,
                ) && entries[i].1 == Some(core_readings(entries)[k].1),
        telling_places(entries).finite(),
        core_readings(entries).len() == telling_places(entries).len(),
    decreases entries.len(),
{
    let all = core_readings(entries);
    if entries.len() == 0 {
        assert(telling_places(entries) == Set::<int>::empty());
    } else {
        let before = entries.drop_last();
        let rest = core_readings(before);
        let n = before.len() as int;
        law_every_core_is_read(before);
        assert forall|i: int|
            0 <= i < entries.len() && core_of((#[trigger] entries[i]).0@) is Some && entries[i].1
                is Some implies all.contains((core_of(entries[i].0@)->0, entries[i].1->0)) by {
            let core = (core_of(entries[i].0@)->0, entries[i].1->0);
            if i < n {
                assert(before[i] == entries[i]);
                assert(rest.contains(core));
                let k = choose|k: int| 0 <= k < rest.len() && rest[k] == core;
                assert(all[k] == core);
            } else {
                assert(all[rest.len() as int] == core);
            }
        }
        assert forall|k: int| 0 <= k < all.len() implies exists|i: int|
            0 <= i < entries.len() && core_of((#[trigger] entries[i]).0@) == Some(
                (#[trigger] all[k]).0,
            ) && entries[i].1 == Some(all[k].1) by {
            if k < rest.len() {
                assert(all[k] == rest[k]);
                let i = choose|i: int|
                    0 <= i < before.len() && core_of((#[trigger] before[i]).0@) == Some(rest[k].0)
                        && before[i].1 == Some(rest[k].1);
                assert(before[i] == entries[i]);
            } else {
                assert(core_of(entries[n].0@) == Some(all[k].0));
            }
        }
        if tells_core(entries.last()) {
            assert(telling_places(entries) =~= telling_places(before).insert(n));
        } else {
            assert(telling_places(entries) =~= telling_places(before));
        }
    }
}

/// The readings of two lists of entries, one behind the other, are those of the one and then
/// those of the other; an entry alone gives its core and its frequency, or nothing.
pub proof fn law_cores_are_read_entry_by_entry<F>(
    a: Seq<(String, Option<F>)>,
    b: Seq<(String, Option<F>)>,
    entry: (String, Option<F>),
)
    ensures
        core_readings(a + b) == core_readings(a) + core_readings(b),
        match (core_of(entry.0@), entry.1) {
            (Some(id), Some(mhz)) => core_readings(seq![entry]) == seq![(id, mhz)],
            _ => core_readings(seq![entry]).len() == 0,
        },
    decreases b.len(),
{
    let none = Seq::<(String, Option<F>)>::empty();
    assert(seq![entry].drop_last() == none);
    assert(core_readings(none) == Seq::<(u32, F)>::empty());
    if b.len() == 0 {
        assert(a + b == a);
        assert(core_readings(a) + core_readings(b) == core_readings(a));
    } else {
        assert((a + b).drop_last() == a + b.drop_last());
        assert((a + b).last() == b.last());
        law_cores_are_read_entry_by_entry(a, b.drop_last(), entry);
        assert(core_readings(a + b) == core_readings(a) + core_readings(b));
    }
}

/// The file that turns turbo off holds the opposite of the one that turns it on, which holds
/// `1` for on and `0` for off; white space around the digit changes nothing, and any other
/// text reads as off.
pub proof fn law_turbo_files(
    enabled: bool,
    before: Seq<char>,
    text: Seq<char>,
    behind: Seq<char>,
)
    requires
        forall|i: int| 0 <= i < before.len() ==> is_space(#[trigger] before[i]),
        forall|i: int| 0 <= i < behind.len() ==> is_space(#[trigger] behind[i]),
        text.len() > 0 ==> !is_space(text[0]) && !is_space(text.last()),
    ensures
        turbo_value(true, enabled) == turbo_value(false, !enabled),
        turbo_value(false, true) == seq!['1'],
        turbo_value(false, false) == seq!['0'],
        turbo_state(false, before + text + behind) <==> text == seq!['1'],
        turbo_state(true, before + text + behind) <==> text == seq!['0'],
{
    reveal_strlit("0");
    reveal_strlit("1");
    assert("0"@ =~= seq!['0']);
    assert("1"@ =~= seq!['1']);
    law_trimming_finds_the_core(before, text, behind, CharClass::Space);
}

/// What stands behind a key is found on the first line that begins with it, whatever stands on
/// the other lines; where no line begins with it, nothing is found.
pub proof fn law_keys_are_found_on_the_first_line(ls: Seq<Seq<char>>, key: Seq<char>, at: int)
    requires
        0 <= at <= ls.len(),
        forall|i: int| 0 <= i < at ==> !begins_with(#[trigger] ls[i], key),
    ensures
        at == ls.len() ==> keyed(ls, key) is None,
        at < ls.len() && begins_with(ls[at], key) ==> (keyed(ls, key) matches Some(value) && key
            + value == ls[at]),
    decreases ls.len(),
{
    if ls.len() > 0 {
        law_prefixes(key, ls[0].skip(key.len() as int), ls[0]);
        if at > 0 {
            let rest = ls.drop_first();
            assert(!begins_with(ls[0], key));
            assert forall|i: int| 0 <= i < at - 1 implies !begins_with(#[trigger] rest[i], key) by {
                assert(rest[i] == ls[i + 1]);
            }
            law_keys_are_found_on_the_first_line(rest, key, at - 1);
        }
    }
}

/// The name of the CPU is what stands behind `model name` on the first line that begins so,
/// less the blanks, tabs and colons before it and the white space around it.
pub proof fn law_cpu_model_is_found(
    cpuinfo: Seq<char>,
    at: int,
    gap: Seq<char>,
    name: Seq<char>,
    behind: Seq<char>,
)
    requires
        forall|i: int| 0 <= i < lines(cpuinfo).len() && i < at ==> !begins_with(
            #[trigger] lines(cpuinfo)[i],
            "model name"@,
        ),
        0 <= at <= lines(cpuinfo).len(),
        at < lines(cpuinfo).len() ==> lines(cpuinfo)[at] == "model name"@ + (gap + name + behind),
        forall|i: int|
            0 <= i < gap.len() ==> #[trigger] gap[i] == ' ' || gap[i] == '\t' || gap[i] == ':',
        forall|i: int| 0 <= i < behind.len() ==> is_space(#[trigger] behind[i]),
        name.len() > 0,
        name[0] != ':',
        !is_space(name[0]),
        !is_space(name.last()),
    ensures
        cpu_model_of(cpuinfo) == if at < lines(cpuinfo).len() {
            Some(name)
        } else {
            None
        },
{
    let ls = lines(cpuinfo);
    let key = "model name"@;
    let value = gap + name + behind;
    law_keys_are_found_on_the_first_line(ls, key, at);
    if at < ls.len() {
        law_prefixes(key, value, ls[at]);
        let found = keyed(ls, key)->0;
        law_prefixes(key, found, ls[at]);
        assert(found == value);
        let t = trimmed_start(value, CharClass::Gap);
        law_trimmed_start_drops_the_class(value, CharClass::Gap);
        let n = value.len() - t.len();
        let m = gap.len() as int;
        assert(value[m] == name[0]);
        if n > m {
            assert(CharClass::Gap.has(value[m]));
        }
        if n < m {
            assert(t[0] == value[n]);
            assert(value[n] == gap[n]);
        }
        let none = Seq::<char>::empty();
        assert(t =~= none + name + behind);
        law_trimming_finds_the_core(none, name, behind, CharClass::Space);
    }
}

/// The name of the system is what stands behind `PRETTY_NAME=` on the first line that begins
/// so, less the double quotes around it.
pub proof fn law_os_name_is_found(
    release: Seq<char>,
    at: int,
    before: Seq<char>,
    name: Seq<char>,
    behind: Seq<char>,
)
    requires
        forall|i: int| 0 <= i < lines(release).len() && i < at ==> !begins_with(
            #[trigger] lines(release)[i],
            "PRETTY_NAME="@,
        ),
        0 <= at <= lines(release).len(),
        at < lines(release).len() ==> lines(release)[at] == "PRETTY_NAME="@ + (before + name
            + behind),
        forall|i: int| 0 <= i < before.len() ==> #[trigger] before[i] == '"',
        forall|i: int| 0 <= i < behind.len() ==> #[trigger] behind[i] == '"',
        name.len() > 0 ==> name[0] != '"' && name.last() != '"',
    ensures
        os_name_of(release) == if at < lines(release).len() {
            Some(name)
        } else {
            None
        },
{
    let ls = lines(release);
    let key = "PRETTY_NAME="@;
    let value = before + name + behind;
    law_keys_are_found_on_the_first_line(ls, key, at);
    if at < ls.len() {
        law_prefixes(key, value, ls[at]);
        let found = keyed(ls, key)->0;
        law_prefixes(key, found, ls[at]);
        assert(found == value);
        law_trimming_finds_the_core(before, name, behind, CharClass::Quote);
    }
}

/// Each mode shows its own part of the summary, and there is nothing to show without one.
pub proof fn law_modes_show_their_part<F>(mode: FreqDisplayMode, summary: FreqSummary<F>)
    ensures
        mode is Average ==> shown_frequency(mode, Some(summary)) == Some(summary.average),
        mode is Minimum ==> shown_frequency(mode, Some(summary)) == Some(summary.minimum),
        mode is Maximum ==> shown_frequency(mode, Some(summary)) == Some(summary.maximum),
        shown_frequency::<F>(mode, None) is None,
{
}

/// The frequency without turbo bounds a limit exactly where `intel_pstate` is in use, turbo is
/// off and that frequency is known; nothing else keeps the limit from the highest frequency of
/// the CPU.
pub proof fn law_only_turbo_off_lowers_the_limit<F>(reading: FreqReading<F>)
    ensures
        reading.pstate && reading.turbo == Some(false) && reading.base is Some ==> reading.accepted()
            == reading.base,
        !reading.pstate ==> reading.accepted() == reading.turbo_max,
        reading.turbo != Some(false) ==> reading.accepted() == reading.turbo_max,
        reading.base is None ==> reading.accepted() == reading.turbo_max,
        reading.accepted() == effective_max(
            reading.pstate,
            reading.turbo,
            reading.base,
            reading.turbo_max,
        ),
{
}

/// The range of the hardware is known where both its ends are, and goes from the lowest
/// frequency to the highest with turbo.
pub proof fn law_range_has_both_ends<F>(reading: FreqReading<F>)
    ensures
        reading.range() is Some <==> reading.hw_min is Some && reading.turbo_max is Some,
        reading.range() matches Some((low, high)) ==> Some(low) == reading.hw_min && Some(high)
            == reading.turbo_max,
{
}

/// The readings of a core in two lists, one behind the other, are those in the one and then
/// those in the other; a reading alone is of its own core and of no other.
pub proof fn law_readings_of_a_core_stay_in_order<F>(
    a: Seq<(u32, F)>,
    b: Seq<(u32, F)>,
    core: (u32, F),
    id: u32,
)
    ensures
        readings_of(a + b, id) == readings_of(a, id) + readings_of(b, id),
        readings_of(seq![core], id) == if core.0 == id {
            seq![core]
        } else {
            Seq::<(u32, F)>::empty()
        },
{
    Seq::filter_distributes_over_add(a, b, of_core::<F>(id));
    reveal(Seq::filter);
    assert(seq![core].drop_last() == Seq::<(u32, F)>::empty());
    assert(readings_of(Seq::<(u32, F)>::empty(), id) == Seq::<(u32, F)>::empty());
    assert(Seq::<(u32, F)>::empty().push(core) == seq![core]);
}

/// A file of one value gives that value, whatever white space stands around it, and a file that
/// could not be read gives none; the machine is told by two such files.
pub proof fn law_values_are_read_without_white_space(
    content: &str,
    before: Seq<char>,
    value: Seq<char>,
    behind: Seq<char>,
    r: Option<String>,
    none: Option<String>,
)
    requires
        content@ == before + value + behind,
        forall|i: int| 0 <= i < before.len() ==> is_space(#[trigger] before[i]),
        forall|i: int| 0 <= i < behind.len() ==> is_space(#[trigger] behind[i]),
        value.len() > 0 ==> !is_space(value[0]) && !is_space(value.last()),
        call_ensures(read_value, (Some(content),), r),
        call_ensures(read_value, (None::<&str>,), none),
    ensures
        r matches Some(v) && v@ == value,
        none is None,
{
    law_trimming_finds_the_core(before, value, behind, CharClass::Space);
}

/// The maker and the model of a machine are what their own files give, and are known only
/// together.
pub proof fn law_machines_need_both_files(
    vendor: Option<&str>,
    model: Option<&str>,
    r: Option<(String, String)>,
    v: Option<String>,
    m: Option<String>,
)
    requires
        call_ensures(read_machine_info, (vendor, model), r),
        call_ensures(read_value, (vendor,), v),
        call_ensures(read_value, (model,), m),
    ensures
        r is Some <==> v is Some && m is Some,
        r is Some ==> (r->0).0@ == v->0@ && (r->0).1@ == m->0@,
{
}

/// A list of names is read name by name: white space parts the names, and one alone is read as
/// it is. A file that could not be read lists none.
pub proof fn law_names_are_parted_by_white_space(
    a: &str,
    b: &str,
    both: &str,
    blank: char,
    ra: Vec<String>,
    rb: Vec<String>,
    r: Vec<String>,
    none: Vec<String>,
)
    requires
        is_space(blank),
        both@ == a@.push(blank) + b@,
        call_ensures(read_names, (Some(a),), ra),
        call_ensures(read_names, (Some(b),), rb),
        call_ensures(read_names, (Some(both),), r),
        call_ensures(read_names, (None::<&str>,), none),
    ensures
        strings(r@) == strings(ra@) + strings(rb@),
        none@.len() == 0,
        a@.len() > 0 && (forall|i: int| 0 <= i < a@.len() ==> !is_space(#[trigger] a@[i]))
            ==> ra@.len() == 1 && ra@[0]@ == a@,
{
    law_words_part_at_white_space(a@, blank, b@);
    assert(strings(none@).len() == none@.len());
    if a@.len() > 0 && (forall|i: int| 0 <= i < a@.len() ==> !is_space(#[trigger] a@[i])) {
        law_solid_text_is_a_word(a@);
        assert(strings(ra@).len() == ra@.len());
        assert(strings(ra@)[0] == ra@[0]@);
    }
}

/// The state of turbo is known where its file could be read, and is the one that its digit
/// stands for.
pub proof fn law_turbo_is_read_from_its_file(
    pstate: bool,
    val: &str,
    before: Seq<char>,
    text: Seq<char>,
    behind: Seq<char>,
    r: Option<bool>,
    none: Option<bool>,
)
    requires
        val@ == before + text + behind,
        forall|i: int| 0 <= i < before.len() ==> is_space(#[trigger] before[i]),
        forall|i: int| 0 <= i < behind.len() ==> is_space(#[trigger] behind[i]),
        text.len() > 0 ==> !is_space(text[0]) && !is_space(text.last()),
        call_ensures(read_turbo_enabled, (pstate, Some(val)), r),
        call_ensures(read_turbo_enabled, (pstate, None::<&str>), none),
    ensures
        none is None,
        r is Some,
        r->0 <==> (pstate && text == seq!['0']) || (!pstate && text == seq!['1']),
{
    law_turbo_files(true, before, text, behind);
}

/// The frequency without turbo is the one that the driver gives, else the highest of the CPU.
pub proof fn law_base_frequency_falls_back<F>(
    base: F,
    cpuinfo_max: Option<F>,
    r: Option<F>,
    other: Option<F>,
)
    requires
        call_ensures(read_base_frequency_mhz::<F>, (Some(base), cpuinfo_max), r),
        call_ensures(read_base_frequency_mhz::<F>, (None::<F>, cpuinfo_max), other),
    ensures
        r == Some(base),
        other == cpuinfo_max,
{
}

} // verus!
