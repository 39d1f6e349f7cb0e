//! CPU and memory usage, as `/proc/stat` and `/proc/meminfo` tell it.

use vstd::prelude::*;
use vstd::slice::slice_subrange;

use crate::text::{
    chars_of, index_of, parse_number, split_lines, split_words, strip_prefix, strip_suffix, trim,
    CharClass,
};
#[allow(unused_imports)]
use crate::text::{
    begins_with, decimal, find, finishes_with, is_space, law_decimal_reads_back,
    law_no_leading_zeros, law_prefixes, law_suffixes, law_trimming_finds_the_core,
    lemma_find_unique, lines, number, trimmed, views, words,
};

verus! {

/// The CPU time counters of one line of `/proc/stat`, in ticks since boot.
#[derive(Clone, Copy, PartialEq, Eq, Structural, Debug)]
pub struct CpuJiffies {
    pub user: u64,
    pub nice: u64,
    pub system: u64,
    pub idle: u64,
    pub iowait: u64,
    pub irq: u64,
    pub softirq: u64,
    pub steal: u64,
}

/// The time that a CPU spent busy and idle between two readings, in ticks.
///
/// The usage is the share of `busy` in `busy + idle`, and zero where both are zero.
#[derive(Clone, Copy, PartialEq, Eq, Structural, Debug)]
pub struct CpuUsage {
    pub busy: u64,
    pub idle: u64,
}

/// The number of values that a 64-bit counter can take.
pub open spec fn counter_range() -> nat {
    0x1_0000_0000_0000_0000
}

/// How far a 64-bit counter that starts over at zero ran on from `then` to `now`.
pub open spec fn elapsed(now: u64, then: u64) -> nat {
    if now >= then {
        (now - then) as nat
    } else {
        (now - then + counter_range()) as nat
    }
}

/// The counters that a list of values holds, where it holds them all.
pub open spec fn jiffies(vals: Seq<u64>) -> Option<CpuJiffies> {
    if vals.len() < 8 {
        None
    } else {
        Some(
            CpuJiffies {
                user: vals[0],
                nice: vals[1],
                system: vals[2],
                idle: vals[3],
                iowait: vals[4],
                irq: vals[5],
                softirq: vals[6],
                steal: vals[7],
            },
        )
    }
}

/// Adds to `acc`, which is `sum` modulo the range of the counters, how far a counter ran on
/// from `then` to `now`.
fn run_on(acc: u64, sum: Ghost<nat>, now: u64, then: u64) -> (r: (u64, Ghost<nat>))
    requires
        acc == sum@ % counter_range(),
    ensures
        r.1@ == sum@ + elapsed(now, then),
        r.0 == r.1@ % counter_range(),
{
    let step = now.wrapping_sub(then);
    (acc.wrapping_add(step), Ghost(sum@ + elapsed(now, then)))
}

impl CpuJiffies {
    /// The ticks spent on work since `prev`.
    pub open spec fn busy_since(self, prev: CpuJiffies) -> nat {
        elapsed(self.user, prev.user) + elapsed(self.nice, prev.nice) + elapsed(
            self.system,
            prev.system,
        ) + elapsed(self.irq, prev.irq) + elapsed(self.softirq, prev.softirq) + elapsed(
            self.steal,
            prev.steal,
        )
    }

    /// The ticks spent waiting since `prev`.
    pub open spec fn idle_since(self, prev: CpuJiffies) -> nat {
        elapsed(self.idle, prev.idle) + elapsed(self.iowait, prev.iowait)
    }

    /// The usage since `prev`, counted modulo the range of the counters.
    pub open spec fn usage_since(self, prev: CpuJiffies) -> CpuUsage {
        CpuUsage {
            busy: (self.busy_since(prev) % counter_range()) as u64,
            idle: (self.idle_since(prev) % counter_range()) as u64,
        }
    }

    /// Takes the counters from the values of a line; `None` where there are too few.
    /// Values past the eighth are ignored.
    pub fn from_fields(vals: &[u64]) -> (r: Option<Self>)
        ensures
            r == jiffies(vals@),
    {
        if vals.len() < 8 {
            return None;
        }
        Some(
            CpuJiffies {
                user: vals[0],
                nice: vals[1],
                system: vals[2],
                idle: vals[3],
                iowait: vals[4],
                irq: vals[5],
                softirq: vals[6],
                steal: vals[7],
            },
        )
    }

    /// Computes the CPU usage between two readings.
    pub fn usage(&self, prev: &Self) -> (r: CpuUsage)
        ensures
            r == self.usage_since(*prev),
    {
        let (busy, sum) = run_on(0, Ghost(0), self.user, prev.user);
        let (busy, sum) = run_on(busy, sum, self.nice, prev.nice);
        let (busy, sum) = run_on(busy, sum, self.system, prev.system);
        let (busy, sum) = run_on(busy, sum, self.irq, prev.irq);
        let (busy, sum) = run_on(busy, sum, self.softirq, prev.softirq);
        let (busy, sum) = run_on(busy, sum, self.steal, prev.steal);
        let (idle, sum) = run_on(0, Ghost(0), self.idle, prev.idle);
        let (idle, sum) = run_on(idle, sum, self.iowait, prev.iowait);
        CpuUsage { busy, idle }
    }
}

impl CpuUsage {
    /// Whether any time was counted at all.
    pub fn measured(&self) -> (r: bool)
        ensures
            r == (self.busy + self.idle > 0),
    {
        self.busy > 0 || self.idle > 0
    }
}

/// The counters of the whole machine and of each core.
#[derive(Clone, Debug)]
pub struct CpuUsageSnapshot {
    pub aggregate: CpuJiffies,
    pub per_core: Vec<CpuJiffies>,
}

/// What a `CpuUsageSnapshot` holds.
#[verifier::ext_equal]
pub struct SnapshotView {
    pub aggregate: CpuJiffies,
    pub per_core: Seq<CpuJiffies>,
}

impl View for CpuUsageSnapshot {
    type V = SnapshotView;

    open spec fn view(&self) -> SnapshotView {
        SnapshotView { aggregate: self.aggregate, per_core: self.per_core@ }
    }
}

impl SnapshotView {
    /// The usage of each core since `prev`, for the cores that both snapshots hold.
    pub open spec fn per_core_usage_since(self, prev: SnapshotView) -> Seq<CpuUsage> {
        let n = if self.per_core.len() <= prev.per_core.len() {
            self.per_core.len()
        } else {
            prev.per_core.len()
        };
        Seq::new(n, |i: int| self.per_core[i].usage_since(prev.per_core[i]))
    }
}

impl CpuUsageSnapshot {
    /// Computes the usage of the whole machine.
    pub fn usage(&self, prev: &Self) -> (r: CpuUsage)
        ensures
            r == self@.aggregate.usage_since(prev@.aggregate),
    {
        self.aggregate.usage(&prev.aggregate)
    }

    /// Computes the usage of each core, in the order of the cores.
    pub fn per_core_usage(&self, prev: &Self) -> (r: Vec<CpuUsage>)
        ensures
            r@ == self@.per_core_usage_since(prev@),
    {
        let mut r: Vec<CpuUsage> = Vec::new();
        let mut i: usize = 0;
        while i < self.per_core.len() && i < prev.per_core.len()
            invariant
                i <= self.per_core@.len(),
                i <= prev.per_core@.len(),
                r@.len() == i,
                forall|j: int|
                    0 <= j < i ==> #[trigger] r@[j] == self.per_core@[j].usage_since(
                        prev.per_core@[j],
                    ),
            decreases self.per_core@.len() - i,
        {
            r.push(self.per_core[i].usage(&prev.per_core[i]));
            i += 1;
        }
        r
    }
}

/// The numbers among `ws`, in order; what is no 64-bit number is left out.
pub open spec fn numbers(ws: Seq<Seq<char>>) -> Seq<u64>
    decreases ws.len(),
{
    if ws.len() == 0 {
        Seq::empty()
    } else {
        match number(ws.last(), u64::MAX as nat) {
            Some(n) => numbers(ws.drop_last()).push(n as u64),
            None => numbers(ws.drop_last()),
        }
    }
}

/// Reads the numbers among the words of `s`.
pub fn read_numbers(s: &[char]) -> (r: Vec<u64>)
    ensures
        r@ == numbers(words(s@)),
{
    let ws = split_words(s);
    let ghost all = words(s@);
    let mut r: Vec<u64> = Vec::new();
    let mut i: usize = 0;
    while i < ws.len()
        invariant
            i <= ws@.len(),
            views(ws@) == all,
            r@ == numbers(all.take(i as int)),
        decreases ws@.len() - i,
    {
        assert(all.take(i + 1).drop_last() == all.take(i as int));
        assert(all[i as int] == ws@[i as int]@);
        if let Some(n) = parse_number(ws[i], u64::MAX) {
            r.push(n);
        }
        i += 1;
    }
    assert(all.take(i as int) == all);
    r
}

/// The counters of the lines at the start of `ls` that begin with `cpu`. A line with too
/// few numbers is left out; where a line has no blank behind its name, there is no result.
pub open spec fn core_counters(ls: Seq<Seq<char>>) -> Option<Seq<CpuJiffies>>
    decreases ls.len(),
{
    if ls.len() == 0 || !begins_with(ls[0], "cpu"@) {
        Some(Seq::empty())
    } else if find(ls[0], ' ') >= ls[0].len() {
        None
    } else {
        match core_counters(ls.drop_first()) {
            None => None,
            Some(rest) => match jiffies(numbers(words(ls[0].skip(find(ls[0], ' ') as int + 1)))) {
                Some(j) => Some(seq![j] + rest),
                None => Some(rest),
            },
        }
    }
}

/// The snapshot that the text of `/proc/stat` holds: the counters of the whole machine on
/// the first line, which begins with `cpu ` and has enough numbers, then those of the cores.
pub open spec fn stat_snapshot(stat: Seq<char>) -> Option<SnapshotView> {
    let ls = lines(stat);
    if ls.len() == 0 || !begins_with(ls[0], "cpu "@) {
        None
    } else {
        match (jiffies(numbers(words(ls[0].skip(4)))), core_counters(ls.drop_first())) {
            (Some(aggregate), Some(per_core)) => Some(SnapshotView { aggregate, per_core }),
            _ => None,
        }
    }
}

/// Reads the snapshot from the content of `/proc/stat`, `None` where it could not be read.
pub fn read_cpu_usage_snapshot(stat: Option<&str>) -> (r: Option<CpuUsageSnapshot>)
    ensures
        r is Some <==> stat is Some && stat_snapshot(stat->0@) is Some,
        r matches Some(snapshot) ==> stat_snapshot(stat->0@) == Some(snapshot@),
{
    let text = match stat {
        Some(text) => chars_of(text),
        None => {
            return None;
        },
    };
    let ls = split_lines(text.as_slice());
    let ghost all = lines(text@);
    proof {
        reveal_strlit("cpu ");
    }
    if ls.len() == 0 {
        return None;
    }
    assert(all[0] == ls@[0]@);
    let aggregate = match strip_prefix(ls[0], "cpu ") {
        Some(rest) => match CpuJiffies::from_fields(read_numbers(rest).as_slice()) {
            Some(aggregate) => aggregate,
            None => {
                return None;
            },
        },
        None => {
            return None;
        },
    };
    let ghost cores = all.drop_first();
    let mut per_core: Vec<CpuJiffies> = Vec::new();
    let mut i: usize = 1;
    let mut scanning = true;
    assert(cores.skip(0) == cores);
    proof {
        if let Some(rest) = core_counters(cores) {
            assert(per_core@ + rest == rest);
        }
    }
    while scanning && i < ls.len()
        invariant
            1 <= i <= ls@.len(),
            views(ls@) == all,
            cores == all.drop_first(),
            stat is Some && text@ == stat->0@ && all == lines(text@),
            ls@.len() > 0 && begins_with(all[0], "cpu "@),
            jiffies(numbers(words(all[0].skip(4)))) == Some(aggregate),
            scanning ==> core_counters(cores) == match core_counters(cores.skip(i - 1)) {
                Some(rest) => Some(per_core@ + rest),
                None => None,
            },
            !scanning ==> core_counters(cores) == Some(per_core@),
        decreases ls@.len() - i + (if scanning { 1int } else { 0int }),
    {
        let line = ls[i];
        assert(cores.skip(i - 1)[0] == line@);
        assert(cores.skip(i - 1).drop_first() == cores.skip(i as int));
        if strip_prefix(line, "cpu").is_none() {
            assert(per_core@ + Seq::<CpuJiffies>::empty() == per_core@);
            scanning = false;
        } else {
            let n = index_of(line, ' ');
            if n == line.len() {
                return None;
            }
            let rest = slice_subrange(line, n + 1, line.len());
            assert(rest@ == line@.skip(n as int + 1));
            let ghost before = per_core@;
            if let Some(j) = CpuJiffies::from_fields(read_numbers(rest).as_slice()) {
                per_core.push(j);
                proof {
                    if let Some(tail) = core_counters(cores.skip(i as int)) {
                        assert(before + (seq![j] + tail) == per_core@ + tail);
                    }
                }
            }
            i += 1;
        }
    }
    if scanning {
        assert(cores.skip(i - 1).len() == 0);
        assert(per_core@ + Seq::<CpuJiffies>::empty() == per_core@);
    }
    Some(CpuUsageSnapshot { aggregate, per_core })
}

/// The amount that a field of `/proc/meminfo` gives in kilobytes, behind its key.
pub open spec fn kilobytes(s: Seq<char>) -> Option<u64> {
    let t = trimmed(s, CharClass::Space);
    if !finishes_with(t, "kB"@) {
        None
    } else {
        match number(trimmed(t.take(t.len() - 2), CharClass::Space), u64::MAX as nat) {
            Some(n) => Some(n as u64),
            None => None,
        }
    }
}

/// The total and the available memory that are known after `line`, where `known` was
/// known before it: a line that has the key of a field replaces what was known of it.
pub open spec fn memory_line(
    line: Seq<char>,
    known: (Option<u64>, Option<u64>),
) -> (Option<u64>, Option<u64>) {
    if begins_with(line, "MemTotal:"@) {
        (kilobytes(line.skip(9)), known.1)
    } else if begins_with(line, "MemAvailable:"@) {
        (known.0, kilobytes(line.skip(13)))
    } else {
        known
    }
}

/// The total and the available memory that are known after the lines `ls`. The lines behind
/// the one that makes both known are not looked at.
pub open spec fn memory_lines(
    ls: Seq<Seq<char>>,
    known: (Option<u64>, Option<u64>),
) -> (Option<u64>, Option<u64>)
    decreases ls.len(),
{
    if ls.len() == 0 {
        known
    } else {
        let next = memory_line(ls[0], known);
        if next.0 is Some && next.1 is Some {
            next
        } else {
            memory_lines(ls.drop_first(), next)
        }
    }
}

/// The total and the available memory that the text of `/proc/meminfo` gives.
pub open spec fn memory_fields_of(meminfo: Seq<char>) -> (Option<u64>, Option<u64>) {
    memory_lines(lines(meminfo), (None, None))
}

/// Reads the amount of a field, behind its key.
fn read_kilobytes(s: &[char]) -> (r: Option<u64>)
    ensures
        r == kilobytes(s@),
{
    proof {
        reveal_strlit("kB");
    }
    match strip_suffix(trim(s, CharClass::Space), "kB") {
        Some(amount) => parse_number(trim(amount, CharClass::Space), u64::MAX),
        None => None,
    }
}

/// Reads the total and the available memory, in kilobytes, from the content of
/// `/proc/meminfo`.
pub fn memory_fields(meminfo: &str) -> (r: (Option<u64>, Option<u64>))
    ensures
        r == memory_fields_of(meminfo@),
{
    let text = chars_of(meminfo);
    let ls = split_lines(text.as_slice());
    let ghost all = lines(text@);
    let mut total: Option<u64> = None;
    let mut available: Option<u64> = None;
    let mut i: usize = 0;
    proof {
        reveal_strlit("MemTotal:");
        reveal_strlit("MemAvailable:");
    }
    assert(all.skip(0) == all);
    while i < ls.len()
        invariant
            i <= ls@.len(),
            views(ls@) == all,
            all == lines(meminfo@),
            "MemTotal:"@.len() == 9,
            "MemAvailable:"@.len() == 13,
            memory_lines(all.skip(i as int), (total, available)) == memory_lines(all, (None, None)),
        decreases ls@.len() - i,
    {
        let line = ls[i];
        assert(all.skip(i as int)[0] == line@);
        assert(all.skip(i as int).drop_first() == all.skip(i + 1));
        if let Some(val) = strip_prefix(line, "MemTotal:") {
            total = read_kilobytes(val);
        } else if let Some(val) = strip_prefix(line, "MemAvailable:") {
            available = read_kilobytes(val);
        }
        if total.is_some() && available.is_some() {
            return (total, available);
        }
        i += 1;
    }
    (total, available)
}

/// Reads the used and the total memory, in kilobytes, from the content of `/proc/meminfo`;
/// `None` where it could not be read or does not give both fields.
pub fn read_memory_usage(meminfo: Option<&str>) -> (r: Option<(u64, u64)>)
    requires
        meminfo matches Some(text) ==> (memory_fields_of(text@) matches (
            Some(total),
            Some(available),
        ) ==> available <= total),
    ensures
        r matches Some((used, total)) ==> (memory_fields_of(meminfo->0@) matches (
            Some(all),
            Some(available),
        ) && used + available == all && total == all),
        match meminfo {
            Some(text) => match memory_fields_of(text@) {
                (Some(total), Some(available)) => r == Some(((total - available) as u64, total)),
                _ => r is None,
            },
            None => r is None,
        },
{
    match meminfo {
        Some(text) => match memory_fields(text) {
            (Some(total), Some(available)) => Some((total - available, total)),
            _ => None,
        },
        None => None,
    }
}

/// Whether every line of `ls` with the key `key` gives `amount`.
pub open spec fn all_give(ls: Seq<Seq<char>>, key: Seq<char>, amount: u64) -> bool {
    forall|i: int|
        0 <= i < ls.len() && begins_with(#[trigger] ls[i], key) ==> kilobytes(
            ls[i].skip(key.len() as int),
        ) == Some(amount)
}

/// Whether there is a line with the key `key` in `ls`.
pub open spec fn has_key(ls: Seq<Seq<char>>, key: Seq<char>) -> bool {
    exists|i: int| 0 <= i < ls.len() && begins_with(#[trigger] ls[i], key)
}

/// What is known after the lines `ls`, where all lines with a key agree.
proof fn lemma_memory_lines(
    ls: Seq<Seq<char>>,
    known: (Option<u64>, Option<u64>),
    total: u64,
    available: u64,
)
    requires
        all_give(ls, "MemTotal:"@, total),
        all_give(ls, "MemAvailable:"@, available),
        known.0 is None ==> has_key(ls, "MemTotal:"@),
        known.1 is None ==> has_key(ls, "MemAvailable:"@),
        known.0 is None || known.0 == Some(total),
        known.1 is None || known.1 == Some(available),
    ensures
        memory_lines(ls, known) == (Some(total), Some(available)),
    decreases ls.len(),
{
    reveal_strlit("MemTotal:");
    reveal_strlit("MemAvailable:");
    if ls.len() > 0 {
        let next = memory_line(ls[0], known);
        let rest = ls.drop_first();
        if begins_with(ls[0], "MemTotal:"@) && begins_with(ls[0], "MemAvailable:"@) {
            assert(ls[0].take(9)[3] == "MemTotal:"@[3]);
            assert(ls[0].take(13)[3] == "MemAvailable:"@[3]);
        }
        assert forall|i: int| 0 <= i < rest.len() implies rest[i] == #[trigger] ls[i + 1] by {}
        assert(all_give(rest, "MemTotal:"@, total));
        assert(all_give(rest, "MemAvailable:"@, available));
        if next.0 is None {
            let i = choose|i: int| 0 <= i < ls.len() && begins_with(#[trigger] ls[i], "MemTotal:"@);
            assert(rest[i - 1] == ls[i]);
        }
        if next.1 is None {
            let i = choose|i: int|
                0 <= i < ls.len() && begins_with(#[trigger] ls[i], "MemAvailable:"@);
            assert(rest[i - 1] == ls[i]);
        }
        if !(next.0 is Some && next.1 is Some) {
            lemma_memory_lines(rest, next, total, available);
        }
    }
}

/// Where both fields are there, and no line with the key of a field contradicts another,
/// both are read, in whatever order the lines stand and whatever else stands between them.
pub proof fn law_memory_fields_are_found(meminfo: Seq<char>, total: u64, available: u64)
    requires
        has_key(lines(meminfo), "MemTotal:"@),
        has_key(lines(meminfo), "MemAvailable:"@),
        all_give(lines(meminfo), "MemTotal:"@, total),
        all_give(lines(meminfo), "MemAvailable:"@, available),
    ensures
        memory_fields_of(meminfo) == (Some(total), Some(available)),
{
    lemma_memory_lines(lines(meminfo), (None, None), total, available);
}

/// A reading against itself shows no time at all.
pub proof fn law_no_time_between_equal_readings(j: CpuJiffies)
    ensures
        j.usage_since(j) == (CpuUsage { busy: 0, idle: 0 }),
{
}

/// The sum of all counters.
pub open spec fn all_ticks(j: CpuJiffies) -> nat {
    j.user as nat + j.nice as nat + j.system as nat + j.idle as nat + j.iowait as nat
        + j.irq as nat + j.softirq as nat + j.steal as nat
}

/// Where no counter went back and the sum of the counters fits in a counter, busy and idle
/// time together are the time that passed.
pub proof fn law_busy_and_idle_make_up_the_time(now: CpuJiffies, then: CpuJiffies)
    requires
        now.user >= then.user,
        now.nice >= then.nice,
        now.system >= then.system,
        now.idle >= then.idle,
        now.iowait >= then.iowait,
        now.irq >= then.irq,
        now.softirq >= then.softirq,
        now.steal >= then.steal,
        all_ticks(now) < counter_range(),
    ensures
        now.usage_since(then).busy + now.usage_since(then).idle == all_ticks(now) - all_ticks(then),
        now.usage_since(then).busy == now.busy_since(then),
        now.usage_since(then).idle == now.idle_since(then),
{
}

/// A counter that starts over at zero still shows how far it ran on.
pub proof fn law_counter_wraps(then: u64, steps: u64)
    ensures
        elapsed(((then + steps) % counter_range() as int) as u64, then) == steps,
{
}

/// Where no counter went back and the sums fit in a counter, the busy time is what user, nice,
/// system, interrupt and stolen time grew by together, and the idle time what idle and waiting
/// time grew by.
pub proof fn law_usage_is_the_growth_of_its_counters(now: CpuJiffies, then: CpuJiffies)
    requires
        now.user >= then.user,
        now.nice >= then.nice,
        now.system >= then.system,
        now.idle >= then.idle,
        now.iowait >= then.iowait,
        now.irq >= then.irq,
        now.softirq >= then.softirq,
        now.steal >= then.steal,
        now.user + now.nice + now.system + now.irq + now.softirq + now.steal
            <= 0xffff_ffff_ffff_ffff,
        now.idle + now.iowait <= 0xffff_ffff_ffff_ffff,
    ensures
        now.usage_since(then).busy == (now.user - then.user) + (now.nice - then.nice) + (now.system
            - then.system) + (now.irq - then.irq) + (now.softirq - then.softirq) + (now.steal
            - then.steal),
        now.usage_since(then).idle == (now.idle - then.idle) + (now.iowait - then.iowait),
{
}

/// A counter that runs on by `d` has run on by `d` more, or has gone round once.
proof fn lemma_advance(now: u64, then: u64, d: u64)
    ensures
        ({
            let after = elapsed(((now + d) % 0x1_0000_0000_0000_0000) as u64, then);
            after == elapsed(now, then) + d || after + 0x1_0000_0000_0000_0000 == elapsed(now, then)
                + d
        }),
{
}

/// Sums that differ by `d`, or by `d` less one round of the counters, differ by `d` modulo the
/// range of the counters.
proof fn lemma_moved_sum(before: nat, after: nat, d: u64)
    requires
        after == before + d || after + 0x1_0000_0000_0000_0000 == before + d,
    ensures
        (after % 0x1_0000_0000_0000_0000) as u64 == ((before % 0x1_0000_0000_0000_0000) as u64 + d)
            % 0x1_0000_0000_0000_0000,
{
}

/// Every counter counts once, and to the side it belongs to: where one of user, nice, system,
/// interrupt and stolen time runs on by `d`, the busy time grows by `d` and the idle time
/// stays; where idle or waiting time runs on by `d`, it is the other way round. All counters
/// start over at zero.
pub proof fn law_every_counter_counts_once(now: CpuJiffies, then: CpuJiffies, d: u64)
    ensures
        ({
            let later = CpuJiffies { user: ((now.user + d) % 0x1_0000_0000_0000_0000) as u64, ..now };
            let before = now.usage_since(then);
            let usage = later.usage_since(then);
            &&& usage.busy == (before.busy + d) % 0x1_0000_0000_0000_0000
            &&& usage.idle == before.idle
        }),
        ({
            let later = CpuJiffies { nice: ((now.nice + d) % 0x1_0000_0000_0000_0000) as u64, ..now };
            let before = now.usage_since(then);
            let usage = later.usage_since(then);
            &&& usage.busy == (before.busy + d) % 0x1_0000_0000_0000_0000
            &&& usage.idle == before.idle
        }),
        ({
            let later = CpuJiffies { system: ((now.system + d) % 0x1_0000_0000_0000_0000) as u64, ..now };
            let before = now.usage_since(then);
            let usage = later.usage_since(then);
            &&& usage.busy == (before.busy + d) % 0x1_0000_0000_0000_0000
            &&& usage.idle == before.idle
        }),
        ({
            let later = CpuJiffies { idle: ((now.idle + d) % 0x1_0000_0000_0000_0000) as u64, ..now };
            let before = now.usage_since(then);
            let usage = later.usage_since(then);
            &&& usage.busy == before.busy
            &&& usage.idle == (before.idle + d) % 0x1_0000_0000_0000_0000
        }),
        ({
            let later = CpuJiffies { iowait: ((now.iowait + d) % 0x1_0000_0000_0000_0000) as u64, ..now };
            let before = now.usage_since(then);
            let usage = later.usage_since(then);
            &&& usage.busy == before.busy
            &&& usage.idle == (before.idle + d) % 0x1_0000_0000_0000_0000
        }),
        ({
            let later = CpuJiffies { irq: ((now.irq + d) % 0x1_0000_0000_0000_0000) as u64, ..now };
            let before = now.usage_since(then);
            let usage = later.usage_since(then);
            &&& usage.busy == (before.busy + d) % 0x1_0000_0000_0000_0000
            &&& usage.idle == before.idle
        }),
        ({
            let later = CpuJiffies { softirq: ((now.softirq + d) % 0x1_0000_0000_0000_0000) as u64, ..now };
            let before = now.usage_since(then);
            let usage = later.usage_since(then);
            &&& usage.busy == (before.busy + d) % 0x1_0000_0000_0000_0000
            &&& usage.idle == before.idle
        }),
        ({
            let later = CpuJiffies { steal: ((now.steal + d) % 0x1_0000_0000_0000_0000) as u64, ..now };
            let before = now.usage_since(then);
            let usage = later.usage_since(then);
            &&& usage.busy == (before.busy + d) % 0x1_0000_0000_0000_0000
            &&& usage.idle == before.idle
        }),
{
    assert({
        let later = CpuJiffies { user: ((now.user + d) % 0x1_0000_0000_0000_0000) as u64, ..now };
        &&& later.usage_since(then).busy == (now.usage_since(then).busy + d) % 0x1_0000_0000_0000_0000
        &&& later.usage_since(then).idle == now.usage_since(then).idle
    }) by {
        let later = CpuJiffies { user: ((now.user + d) % 0x1_0000_0000_0000_0000) as u64, ..now };
        lemma_advance(now.user, then.user, d);
        lemma_moved_sum(now.busy_since(then), later.busy_since(then), d);
    }
    assert({
        let later = CpuJiffies { nice: ((now.nice + d) % 0x1_0000_0000_0000_0000) as u64, ..now };
        &&& later.usage_since(then).busy == (now.usage_since(then).busy + d) % 0x1_0000_0000_0000_0000
        &&& later.usage_since(then).idle == now.usage_since(then).idle
    }) by {
        let later = CpuJiffies { nice: ((now.nice + d) % 0x1_0000_0000_0000_0000) as u64, ..now };
        lemma_advance(now.nice, then.nice, d);
        lemma_moved_sum(now.busy_since(then), later.busy_since(then), d);
    }
    assert({
        let later = CpuJiffies { system: ((now.system + d) % 0x1_0000_0000_0000_0000) as u64, ..now };
        &&& later.usage_since(then).busy == (now.usage_since(then).busy + d) % 0x1_0000_0000_0000_0000
        &&& later.usage_since(then).idle == now.usage_since(then).idle
    }) by {
        let later = CpuJiffies { system: ((now.system + d) % 0x1_0000_0000_0000_0000) as u64, ..now };
        lemma_advance(now.system, then.system, d);
        lemma_moved_sum(now.busy_since(then), later.busy_since(then), d);
    }
    assert({
        let later = CpuJiffies { idle: ((now.idle + d) % 0x1_0000_0000_0000_0000) as u64, ..now };
        &&& later.usage_since(then).idle == (now.usage_since(then).idle + d) % 0x1_0000_0000_0000_0000
        &&& later.usage_since(then).busy == now.usage_since(then).busy
    }) by {
        let later = CpuJiffies { idle: ((now.idle + d) % 0x1_0000_0000_0000_0000) as u64, ..now };
        lemma_advance(now.idle, then.idle, d);
        lemma_moved_sum(now.idle_since(then), later.idle_since(then), d);
    }
    assert({
        let later = CpuJiffies { iowait: ((now.iowait + d) % 0x1_0000_0000_0000_0000) as u64, ..now };
        &&& later.usage_since(then).idle == (now.usage_since(then).idle + d) % 0x1_0000_0000_0000_0000
        &&& later.usage_since(then).busy == now.usage_since(then).busy
    }) by {
        let later = CpuJiffies { iowait: ((now.iowait + d) % 0x1_0000_0000_0000_0000) as u64, ..now };
        lemma_advance(now.iowait, then.iowait, d);
        lemma_moved_sum(now.idle_since(then), later.idle_since(then), d);
    }
    assert({
        let later = CpuJiffies { irq: ((now.irq + d) % 0x1_0000_0000_0000_0000) as u64, ..now };
        &&& later.usage_since(then).busy == (now.usage_since(then).busy + d) % 0x1_0000_0000_0000_0000
        &&& later.usage_since(then).idle == now.usage_since(then).idle
    }) by {
        let later = CpuJiffies { irq: ((now.irq + d) % 0x1_0000_0000_0000_0000) as u64, ..now };
        lemma_advance(now.irq, then.irq, d);
        lemma_moved_sum(now.busy_since(then), later.busy_since(then), d);
    }
    assert({
        let later = CpuJiffies { softirq: ((now.softirq + d) % 0x1_0000_0000_0000_0000) as u64, ..now };
        &&& later.usage_since(then).busy == (now.usage_since(then).busy + d) % 0x1_0000_0000_0000_0000
        &&& later.usage_since(then).idle == now.usage_since(then).idle
    }) by {
        let later = CpuJiffies { softirq: ((now.softirq + d) % 0x1_0000_0000_0000_0000) as u64, ..now };
        lemma_advance(now.softirq, then.softirq, d);
        lemma_moved_sum(now.busy_since(then), later.busy_since(then), d);
    }
    assert({
        let later = CpuJiffies { steal: ((now.steal + d) % 0x1_0000_0000_0000_0000) as u64, ..now };
        &&& later.usage_since(then).busy == (now.usage_since(then).busy + d) % 0x1_0000_0000_0000_0000
        &&& later.usage_since(then).idle == now.usage_since(then).idle
    }) by {
        let later = CpuJiffies { steal: ((now.steal + d) % 0x1_0000_0000_0000_0000) as u64, ..now };
        lemma_advance(now.steal, then.steal, d);
        lemma_moved_sum(now.busy_since(then), later.busy_since(then), d);
    }
}

/// Eight values are the counters in the order in which the kernel writes them: user, nice,
/// system, idle, waiting, interrupt, soft interrupt and stolen time. More values change
/// nothing, fewer are not enough.
pub proof fn law_counters_stand_in_order(vals: Seq<u64>, more: Seq<u64>)
    ensures
        jiffies(vals) is Some <==> vals.len() >= 8,
        jiffies(vals) matches Some(j) ==> {
            &&& seq![j.user, j.nice, j.system, j.idle, j.iowait, j.irq, j.softirq, j.steal]
                == vals.take(8)
            &&& jiffies(vals + more) == Some(j)
        },
{
    if vals.len() >= 8 {
        let j = jiffies(vals)->0;
        assert(seq![j.user, j.nice, j.system, j.idle, j.iowait, j.irq, j.softirq, j.steal]
            =~= vals.take(8));
        assert forall|i: int| 0 <= i < 8 implies (vals + more)[i] == #[trigger] vals[i] by {}
    }
}

/// The usage of the cores is listed in their order, for as many as both snapshots hold, and
/// the usage of a core depends on its own counters alone.
pub proof fn law_cores_have_their_own_usage(now: SnapshotView, then: SnapshotView, i: int)
    ensures
        ({
            let usage = now.per_core_usage_since(then);
            &&& usage.len() <= now.per_core.len()
            &&& usage.len() <= then.per_core.len()
            &&& usage.len() == now.per_core.len() || usage.len() == then.per_core.len()
            &&& 0 <= i < usage.len() ==> usage[i] == now.per_core[i].usage_since(then.per_core[i])
        }),
{
}

/// The numbers among words are found word by word, in order: a word that is a number gives it,
/// any other nothing.
pub proof fn law_numbers_are_found_word_by_word(a: Seq<Seq<char>>, b: Seq<Seq<char>>, w: Seq<char>)
    ensures
        numbers(a + b) == numbers(a) + numbers(b),
        match number(w, 0xffff_ffff_ffff_ffff) {
            Some(n) => numbers(seq![w]).len() == 1 && numbers(seq![w])[0] == n,
            None => numbers(seq![w]).len() == 0,
        },
    decreases b.len(),
{
    assert(seq![w].drop_last() == Seq::<Seq<char>>::empty());
    assert(numbers(Seq::<Seq<char>>::empty()) == Seq::<u64>::empty());
    if b.len() == 0 {
        assert(a + b == a);
        assert(numbers(a) + numbers(b) == numbers(a));
    } else {
        assert((a + b).drop_last() == a + b.drop_last());
        assert((a + b).last() == b.last());
        law_numbers_are_found_word_by_word(a, b.drop_last(), w);
        assert(numbers(a + b) == numbers(a) + numbers(b));
    }
}

/// The lines of the cores are read one by one. A line gives the counters of its first eight
/// numbers, where it has as many, else nothing; the first line that does not begin with `cpu`
/// ends the reading; a line without a blank spoils it.
pub proof fn law_core_lines_are_read_one_by_one(
    name: Seq<char>,
    fields: Seq<char>,
    rest: Seq<Seq<char>>,
    line: Seq<char>,
)
    requires
        forall|i: int| 0 <= i < name.len() ==> name[i] != ' ',
    ensures
        core_counters(Seq::<Seq<char>>::empty()) == Some(Seq::<CpuJiffies>::empty()),
        !begins_with(line, "cpu"@) ==> core_counters(seq![line] + rest) == Some(
            Seq::<CpuJiffies>::empty(),
        ),
        core_counters(seq!["cpu"@ + name] + rest) is None,
        ({
            let all = core_counters(seq!["cpu"@ + name + seq![' '] + fields] + rest);
            let vals = numbers(words(fields));
            match core_counters(rest) {
                None => all is None,
                Some(others) => if vals.len() < 8 {
                    all == Some(others)
                } else {
                    &&& all is Some
                    &&& all->0.len() == others.len() + 1
                    &&& all->0.drop_first() == others
                    &&& all->0[0].user == vals[0]
                    &&& all->0[0].nice == vals[1]
                    &&& all->0[0].system == vals[2]
                    &&& all->0[0].idle == vals[3]
                    &&& all->0[0].iowait == vals[4]
                    &&& all->0[0].irq == vals[5]
                    &&& all->0[0].softirq == vals[6]
                    &&& all->0[0].steal == vals[7]
                },
            }
        }),
{
    reveal_strlit("cpu");
    let odd = "cpu"@ + name;
    let full = "cpu"@ + name + seq![' '] + fields;
    let n = 3 + name.len() as int;
    assert(odd.take(3) == "cpu"@);
    assert(full.take(3) == "cpu"@);
    assert forall|i: int| 0 <= i < n implies odd[i] != ' ' && full[i] != ' ' by {
        if i < 3 {
            assert(odd[i] == "cpu"@[i]);
            assert(full[i] == "cpu"@[i]);
        } else {
            assert(odd[i] == name[i - 3]);
            assert(full[i] == name[i - 3]);
        }
    }
    lemma_find_unique(odd, ' ', n);
    assert(full[n] == ' ');
    lemma_find_unique(full, ' ', n);
    assert(full.skip(n + 1) == fields);
    assert((seq![full] + rest).drop_first() == rest);
    assert((seq![full] + rest)[0] == full);
    assert((seq![odd] + rest)[0] == odd);
    assert((seq![line] + rest)[0] == line);
    if let Some(others) = core_counters(rest) {
        if numbers(words(fields)).len() >= 8 {
            let j = jiffies(numbers(words(fields)))->0;
            assert((seq![j] + others).drop_first() == others);
        }
    }
}

/// The first line of `/proc/stat` holds the counters of the whole machine behind `cpu` and a
/// blank. Without it, or with fewer than eight numbers on it, there is no snapshot; the cores
/// are those of the lines behind it.
pub proof fn law_first_line_is_the_whole_machine(stat: Seq<char>, fields: Seq<char>)
    ensures
        lines(stat).len() == 0 ==> stat_snapshot(stat) is None,
        lines(stat).len() > 0 && !begins_with(lines(stat)[0], "cpu "@) ==> stat_snapshot(stat)
            is None,
        lines(stat).len() > 0 && lines(stat)[0] == "cpu "@ + fields ==> ({
            let vals = numbers(words(fields));
            &&& stat_snapshot(stat) is Some <==> vals.len() >= 8 && core_counters(
                lines(stat).skip(1),
            ) is Some
            &&& stat_snapshot(stat) matches Some(snapshot) ==> {
                &&& core_counters(lines(stat).skip(1)) == Some(snapshot.per_core)
                &&& snapshot.aggregate.user == vals[0]
                &&& snapshot.aggregate.nice == vals[1]
                &&& snapshot.aggregate.system == vals[2]
                &&& snapshot.aggregate.idle == vals[3]
                &&& snapshot.aggregate.iowait == vals[4]
                &&& snapshot.aggregate.irq == vals[5]
                &&& snapshot.aggregate.softirq == vals[6]
                &&& snapshot.aggregate.steal == vals[7]
            }
        }),
{
    reveal_strlit("cpu ");
    let ls = lines(stat);
    if ls.len() > 0 && ls[0] == "cpu "@ + fields {
        assert(ls[0].take(4) == "cpu "@);
        assert(ls[0].skip(4) == fields);
        assert(ls.skip(1) == ls.drop_first());
    }
}

/// An amount is a number before `kB`, with whatever white space before, between and behind
/// them; there is none without `kB`.
pub proof fn law_amounts_are_in_kilobytes(
    before: Seq<char>,
    n: u64,
    between: Seq<char>,
    behind: Seq<char>,
    s: Seq<char>,
)
    requires
        forall|i: int| 0 <= i < before.len() ==> is_space(#[trigger] before[i]),
        forall|i: int| 0 <= i < between.len() ==> is_space(#[trigger] between[i]),
        forall|i: int| 0 <= i < behind.len() ==> is_space(#[trigger] behind[i]),
    ensures
        kilobytes(before + (decimal(n as nat) + between + "kB"@) + behind) == Some(n),
        !finishes_with(trimmed(s, CharClass::Space), "kB"@) ==> kilobytes(s) is None,
{
    reveal_strlit("kB");
    let d = decimal(n as nat);
    let core = d + between + "kB"@;
    law_no_leading_zeros(n as nat);
    assert(core[0] == d[0]);
    assert('0' <= d[0] <= '9');
    assert(core.last() == "kB"@[1]);
    law_trimming_finds_the_core(before, core, behind, CharClass::Space);
    law_suffixes(d + between, "kB"@, core);
    assert(core.take(core.len() - 2) == d + between);
    assert('0' <= d.last() <= '9');
    let none = Seq::<char>::empty();
    law_trimming_finds_the_core(none, d, between, CharClass::Space);
    assert(none + d + between == d + between);
    law_decimal_reads_back(n as nat, u64::MAX as nat);
}

/// The lines of `/proc/meminfo` are taken in one by one. A line with the key of the total
/// changes the total alone, one with the key of the available memory that alone, any other
/// nothing; once both are known, no line is looked at any more.
pub proof fn law_memory_lines_are_taken_one_by_one(
    ls: Seq<Seq<char>>,
    line: Seq<char>,
    value: Seq<char>,
    known: (Option<u64>, Option<u64>),
)
    ensures
        memory_lines(Seq::<Seq<char>>::empty(), known) == known,
        ({
            let sofar = memory_lines(ls, known);
            let both = sofar.0 is Some && sofar.1 is Some && ls.len() > 0;
            let after = memory_lines(ls.push(line), known);
            &&& both ==> after == sofar
            &&& !both && line == "MemTotal:"@ + value ==> after == (kilobytes(value), sofar.1)
            &&& !both && line == "MemAvailable:"@ + value ==> after == (sofar.0, kilobytes(value))
            &&& !both && !begins_with(line, "MemTotal:"@) && !begins_with(line, "MemAvailable:"@)
                ==> after == sofar
        }),
    decreases ls.len(),
{
    reveal_strlit("MemTotal:");
    reveal_strlit("MemAvailable:");
    if ls.len() == 0 {
        assert(ls.push(line)[0] == line);
        assert(ls.push(line).drop_first() == ls);
        let next = memory_line(line, known);
        assert(memory_lines(ls.push(line), known) == next);
        law_prefixes("MemTotal:"@, value, line);
        law_prefixes("MemAvailable:"@, value, line);
        if line == "MemAvailable:"@ + value && begins_with(line, "MemTotal:"@) {
            assert(line.take(9)[3] == "MemTotal:"@[3]);
            assert(line.take(13)[3] == "MemAvailable:"@[3]);
        }
    } else {
        let next = memory_line(ls[0], known);
        let rest = ls.drop_first();
        assert(ls.push(line)[0] == ls[0]);
        assert(ls.push(line).drop_first() == rest.push(line));
        law_memory_lines_are_taken_one_by_one(rest, line, value, next);
    }
}

/// The memory is that of the lines of the text, of which nothing is known at first.
pub proof fn law_memory_is_told_by_the_lines(meminfo: Seq<char>)
    ensures
        memory_fields_of(meminfo) == memory_lines(lines(meminfo), (None, None)),
        !has_key(lines(meminfo), "MemTotal:"@) ==> (memory_fields_of(meminfo).0 is None),
        !has_key(lines(meminfo), "MemAvailable:"@) ==> (memory_fields_of(meminfo).1 is None),
{
    lemma_unkeyed(lines(meminfo), (None, None));
}

/// What has no line stays as it was known.
proof fn lemma_unkeyed(ls: Seq<Seq<char>>, known: (Option<u64>, Option<u64>))
    ensures
        !has_key(ls, "MemTotal:"@) ==> memory_lines(ls, known).0 == known.0,
        !has_key(ls, "MemAvailable:"@) ==> memory_lines(ls, known).1 == known.1,
    decreases ls.len(),
{
    if ls.len() > 0 {
        let rest = ls.drop_first();
        assert forall|i: int| 0 <= i < rest.len() implies rest[i] == #[trigger] ls[i + 1] by {}
        if has_key(rest, "MemTotal:"@) {
            let i = choose|i: int| 0 <= i < rest.len() && begins_with(#[trigger] rest[i], "MemTotal:"@);
            assert(begins_with(ls[i + 1], "MemTotal:"@));
        }
        if has_key(rest, "MemAvailable:"@) {
            let i = choose|i: int|
                0 <= i < rest.len() && begins_with(#[trigger] rest[i], "MemAvailable:"@);
            assert(begins_with(ls[i + 1], "MemAvailable:"@));
        }
        lemma_unkeyed(rest, memory_line(ls[0], known));
    }
}

/// A snapshot shows the counters that it holds.
pub proof fn law_snapshots_show_their_counters(snapshot: CpuUsageSnapshot)
    ensures
        snapshot@.aggregate == snapshot.aggregate,
        snapshot@.per_core == snapshot.per_core@,
{
}

/// The used and the available memory make up the total; without both fields there is nothing
/// to tell.
pub proof fn law_used_and_available_make_up_the_total(
    meminfo: &str,
    total: u64,
    available: u64,
    r: Option<(u64, u64)>,
    none: Option<(u64, u64)>,
)
    requires
        has_key(lines(meminfo@), "MemTotal:"@),
        has_key(lines(meminfo@), "MemAvailable:"@),
        all_give(lines(meminfo@), "MemTotal:"@, total),
        all_give(lines(meminfo@), "MemAvailable:"@, available),
        available <= total,
        call_ensures(read_memory_usage, (Some(meminfo),), r),
        call_ensures(read_memory_usage, (None::<&str>,), none),
    ensures
        none is None,
        r is Some,
        (r->0).0 + available == total,
        (r->0).1 == total,
{
    law_memory_fields_are_found(meminfo@, total, available);
}

/// A usage was measured where it counts any time.
pub proof fn law_measured_usage_counts_time(usage: CpuUsage, r: bool)
    requires
        call_ensures(CpuUsage::measured, (&usage,), r),
    ensures
        r <==> usage.busy > 0 || usage.idle > 0,
{
}

/// What stands before `kB` is the amount exactly where it is a number.
pub proof fn law_amounts_are_numbers(
    before: Seq<char>,
    text: Seq<char>,
    between: Seq<char>,
    behind: Seq<char>,
)
    requires
        forall|i: int| 0 <= i < before.len() ==> is_space(#[trigger] before[i]),
        forall|i: int| 0 <= i < between.len() ==> is_space(#[trigger] between[i]),
        forall|i: int| 0 <= i < behind.len() ==> is_space(#[trigger] behind[i]),
        text.len() > 0,
        !is_space(text[0]),
        !is_space(text.last()),
    ensures
        ({
            let amount = kilobytes(before + (text + between + "kB"@) + behind);
            match number(text, 0xffff_ffff_ffff_ffff) {
                Some(n) => amount is Some && amount->0 == n,
                None => amount is None,
            }
        }),
{
    reveal_strlit("kB");
    let core = text + between + "kB"@;
    assert(core[0] == text[0]);
    assert(core.last() == "kB"@[1]);
    law_trimming_finds_the_core(before, core, behind, CharClass::Space);
    law_suffixes(text + between, "kB"@, core);
    assert(core.take(core.len() - 2) == text + between);
    let none = Seq::<char>::empty();
    law_trimming_finds_the_core(none, text, between, CharClass::Space);
    assert(none + text + between == text + between);
}

/// The usage between two readings counts every kind of work as busy, and idle and waiting time
/// alone as idle.
pub proof fn law_usage_counts_all_work(now: CpuJiffies, then: CpuJiffies, r: CpuUsage)
    requires
        call_ensures(CpuJiffies::usage, (&now, &then), r),
        now.user >= then.user,
        now.nice >= then.nice,
        now.system >= then.system,
        now.idle >= then.idle,
        now.iowait >= then.iowait,
        now.irq >= then.irq,
        now.softirq >= then.softirq,
        now.steal >= then.steal,
        now.user + now.nice + now.system + now.irq + now.softirq + now.steal
            <= 0xffff_ffff_ffff_ffff,
        now.idle + now.iowait <= 0xffff_ffff_ffff_ffff,
    ensures
        r.busy + (then.user + then.nice + then.system + then.irq + then.softirq + then.steal)
            == now.user + now.nice + now.system + now.irq + now.softirq + now.steal,
        r.idle + (then.idle + then.iowait) == now.idle + now.iowait,
{
    law_usage_is_the_growth_of_its_counters(now, then);
}

/// The usage of a core in a snapshot is that of its counters, at its place in both snapshots,
/// and the usage of the machine that of its own counters.
pub proof fn law_snapshots_compare_place_by_place(
    now: CpuUsageSnapshot,
    then: CpuUsageSnapshot,
    cores: Vec<CpuUsage>,
    machine: CpuUsage,
    i: int,
    core: CpuUsage,
    whole: CpuUsage,
)
    requires
        call_ensures(CpuUsageSnapshot::per_core_usage, (&now, &then), cores),
        call_ensures(CpuUsageSnapshot::usage, (&now, &then), machine),
        call_ensures(CpuJiffies::usage, (&now.aggregate, &then.aggregate), whole),
        0 <= i < now.per_core@.len(),
        i < then.per_core@.len(),
        call_ensures(CpuJiffies::usage, (&now.per_core@[i], &then.per_core@[i]), core),
    ensures
        machine == whole,
        i < cores@.len(),
        cores@[i] == core,
{
}

} // verus!
