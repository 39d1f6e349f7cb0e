//! The counters that the kernel writes to `/proc/stat` are those that are read from it.

use vstd::prelude::*;

#[allow(unused_imports)]
use crate::text::{
    begins_with, decimal, find, is_digit, law_decimal_reads_back, lemma_decimal, lemma_find_unique,
    lemma_word_len, lines, word_len, words,
};
#[allow(unused_imports)]
use crate::usage::{core_counters, jiffies, numbers, stat_snapshot, CpuJiffies, SnapshotView};

verus! {

/// `vals` in base ten, each behind a blank.
pub open spec fn spaced(vals: Seq<u64>) -> Seq<char>
    decreases vals.len(),
{
    if vals.len() == 0 {
        Seq::empty()
    } else {
        seq![' '] + decimal(vals[0] as nat) + spaced(vals.drop_first())
    }
}

/// `vals` in base ten.
pub open spec fn decimals(vals: Seq<u64>) -> Seq<Seq<char>> {
    Seq::new(vals.len(), |i: int| decimal(vals[i] as nat))
}

/// The text with the lines `ls`, each ended by a line feed.
pub open spec fn joined(ls: Seq<Seq<char>>) -> Seq<char>
    decreases ls.len(),
{
    if ls.len() == 0 {
        Seq::empty()
    } else {
        ls[0] + seq!['\n'] + joined(ls.drop_first())
    }
}

/// Whether `line` can be a line of a text.
pub open spec fn is_line(line: Seq<char>) -> bool {
    &&& forall|i: int| 0 <= i < line.len() ==> line[i] != '\n'
    &&& line.len() > 0 ==> line.last() != '\r'
}

/// The line of the core `id`.
pub open spec fn core_row(id: nat, vals: Seq<u64>) -> Seq<char> {
    "cpu"@ + decimal(id) + spaced(vals)
}

/// The lines of the cores; a core is its number and its counters.
pub open spec fn core_rows(cores: Seq<(nat, Seq<u64>)>) -> Seq<Seq<char>> {
    Seq::new(cores.len(), |i: int| core_row(cores[i].0, cores[i].1))
}

/// The text of `/proc/stat` for the counters of the whole machine and of the cores, with
/// other lines behind them.
pub open spec fn stat_text(
    aggregate: Seq<u64>,
    cores: Seq<(nat, Seq<u64>)>,
    others: Seq<Seq<char>>,
) -> Seq<char> {
    joined(seq!["cpu "@ + spaced(aggregate)] + core_rows(cores) + others)
}

/// The lines of a text are those that it was joined from.
pub proof fn law_lines_of_joined(ls: Seq<Seq<char>>)
    requires
        forall|i: int| 0 <= i < ls.len() ==> is_line(#[trigger] ls[i]),
    ensures
        lines(joined(ls)) == ls,
    decreases ls.len(),
{
    if ls.len() > 0 {
        let s = joined(ls);
        let n = ls[0].len() as int;
        let rest = ls.drop_first();
        assert(is_line(ls[0]));
        assert forall|i: int| 0 <= i < n implies s[i] != '\n' by {
            assert(s[i] == ls[0][i]);
        }
        lemma_find_unique(s, '\n', n);
        assert(s.take(n) == ls[0]);
        assert(s.skip(n + 1) == joined(rest));
        assert forall|i: int| 0 <= i < rest.len() implies is_line(#[trigger] rest[i]) by {
            assert(rest[i] == ls[i + 1]);
        }
        law_lines_of_joined(rest);
        assert(ls == seq![ls[0]] + rest);
    }
}

/// The first word of a text that begins with a number in base ten is that number.
proof fn lemma_first_word(n: nat, t: Seq<char>)
    requires
        t.len() == 0 || t[0] == ' ',
    ensures
        words(decimal(n) + t) == seq![decimal(n)] + words(t),
{
    let d = decimal(n);
    let s = d + t;
    lemma_decimal(n);
    lemma_word_len(s);
    assert(is_digit(d[0]) && s[0] == d[0]);
    let w = word_len(s) as int;
    if w < d.len() {
        assert(is_digit(d[w]) && s[w] == d[w]);
    }
    if w > d.len() {
        assert(s[d.len() as int] == t[0]);
    }
    assert(s.take(w) == d);
    assert(s.skip(w) == t);
}

/// The words of spaced numbers are the numbers in base ten.
proof fn lemma_words_of_spaced(vals: Seq<u64>)
    ensures
        words(spaced(vals)) == decimals(vals),
    decreases vals.len(),
{
    if vals.len() > 0 {
        let rest = vals.drop_first();
        let s = spaced(vals);
        assert(s[0] == ' ');
        assert(s.drop_first() == decimal(vals[0] as nat) + spaced(rest));
        lemma_first_word(vals[0] as nat, spaced(rest));
        lemma_words_of_spaced(rest);
        assert(decimals(vals) == seq![decimal(vals[0] as nat)] + decimals(rest));
    } else {
        assert(decimals(vals) == Seq::<Seq<char>>::empty());
    }
}

/// Numbers in base ten are read as those numbers.
proof fn lemma_numbers_of_decimals(vals: Seq<u64>)
    ensures
        numbers(decimals(vals)) == vals,
    decreases vals.len(),
{
    if vals.len() > 0 {
        lemma_numbers_of_decimals(vals.drop_last());
        law_decimal_reads_back(vals.last() as nat, u64::MAX as nat);
        assert(decimals(vals).drop_last() == decimals(vals.drop_last()));
        assert(decimals(vals).last() == decimal(vals.last() as nat));
        assert(vals == vals.drop_last().push(vals.last()));
    } else {
        assert(decimals(vals) == Seq::<Seq<char>>::empty());
    }
}

/// Spaced numbers hold digits and blanks.
proof fn lemma_spaced_chars(vals: Seq<u64>)
    ensures
        forall|i: int|
            0 <= i < spaced(vals).len() ==> #[trigger] spaced(vals)[i] == ' ' || is_digit(
                spaced(vals)[i],
            ),
    decreases vals.len(),
{
    if vals.len() > 0 {
        let rest = spaced(vals.drop_first());
        let d = decimal(vals[0] as nat);
        lemma_decimal(vals[0] as nat);
        lemma_spaced_chars(vals.drop_first());
        assert forall|i: int| 0 <= i < spaced(vals).len() implies #[trigger] spaced(vals)[i] == ' '
            || is_digit(spaced(vals)[i]) by {
            if 0 < i <= d.len() {
                assert(spaced(vals)[i] == d[i - 1]);
            } else if i > d.len() {
                assert(spaced(vals)[i] == rest[i - 1 - d.len()]);
            }
        }
    }
}

/// The line of a core is a line, begins as it should, and its first blank stands before the
/// numbers.
proof fn lemma_core_row(id: nat, vals: Seq<u64>)
    requires
        vals.len() > 0,
    ensures
        is_line(core_row(id, vals)),
        begins_with(core_row(id, vals), "cpu"@),
        find(core_row(id, vals), ' ') < core_row(id, vals).len(),
        numbers(
            words(core_row(id, vals).skip(find(core_row(id, vals), ' ') as int + 1)),
        ) == vals,
{
    reveal_strlit("cpu");
    let row = core_row(id, vals);
    let d = decimal(id);
    let tail = spaced(vals);
    let n = 3 + d.len() as int;
    lemma_decimal(id);
    lemma_spaced_chars(vals);
    assert(row.take(3) == "cpu"@);
    assert forall|i: int| 0 <= i < row.len() implies row[i] != '\n' && row[i] != '\r' && (i < n
        ==> row[i] != ' ') by {
        if i < 3 {
            assert(row[i] == "cpu"@[i]);
        } else if i < n {
            assert(row[i] == d[i - 3]);
        } else {
            assert(row[i] == tail[i - n]);
        }
    }
    assert(row[n] == tail[0]);
    lemma_find_unique(row, ' ', n);
    let rest = vals.drop_first();
    assert(row.skip(n + 1) == decimal(vals[0] as nat) + spaced(rest));
    lemma_first_word(vals[0] as nat, spaced(rest));
    lemma_words_of_spaced(rest);
    assert(decimals(vals) == seq![decimal(vals[0] as nat)] + decimals(rest));
    lemma_numbers_of_decimals(vals);
}

/// The counters of the cores are read from their lines.
proof fn lemma_core_rows(cores: Seq<(nat, Seq<u64>)>, others: Seq<Seq<char>>)
    requires
        forall|i: int| 0 <= i < cores.len() ==> (#[trigger] cores[i]).1.len() >= 8,
        others.len() > 0 ==> !begins_with(others[0], "cpu"@),
    ensures
        core_counters(core_rows(cores) + others) == Some(
            Seq::new(cores.len(), |i: int| jiffies(cores[i].1)->0),
        ),
    decreases cores.len(),
{
    let ls = core_rows(cores) + others;
    let expected = Seq::new(cores.len(), |i: int| jiffies(cores[i].1)->0);
    if cores.len() == 0 {
        assert(ls == others);
        assert(expected == Seq::<CpuJiffies>::empty());
    } else {
        let rest = cores.drop_first();
        assert(cores[0].1.len() >= 8);
        lemma_core_row(cores[0].0, cores[0].1);
        assert(ls[0] == core_row(cores[0].0, cores[0].1));
        assert(core_rows(rest) == core_rows(cores).drop_first());
        assert(ls.drop_first() == core_rows(rest) + others);
        lemma_core_rows(rest, others);
        assert(expected == seq![jiffies(cores[0].1)->0] + Seq::new(
            rest.len(),
            |i: int| jiffies(rest[i].1)->0,
        ));
    }
}

/// Whatever counters the kernel writes to `/proc/stat`, for whatever cores and with whatever
/// lines behind them, they are the ones that are read.
pub proof fn law_stat_reads_back(
    aggregate: Seq<u64>,
    cores: Seq<(nat, Seq<u64>)>,
    others: Seq<Seq<char>>,
)
    requires
        aggregate.len() >= 8,
        forall|i: int| 0 <= i < cores.len() ==> (#[trigger] cores[i]).1.len() >= 8,
        forall|i: int| 0 <= i < others.len() ==> is_line(#[trigger] others[i]),
        others.len() > 0 ==> !begins_with(others[0], "cpu"@),
    ensures
        stat_snapshot(stat_text(aggregate, cores, others)) == Some(
            SnapshotView {
                aggregate: jiffies(aggregate)->0,
                per_core: Seq::new(cores.len(), |i: int| jiffies(cores[i].1)->0),
            },
        ),
{
    reveal_strlit("cpu ");
    let head = "cpu "@ + spaced(aggregate);
    let rows = core_rows(cores);
    let ls = seq![head] + rows + others;
    lemma_spaced_chars(aggregate);
    assert(is_line(head)) by {
        assert forall|i: int| 0 <= i < head.len() implies head[i] != '\n' && head[i] != '\r' by {
            if i < 4 {
                assert(head[i] == "cpu "@[i]);
            } else {
                assert(head[i] == spaced(aggregate)[i - 4]);
            }
        }
    }
    assert forall|i: int| 0 <= i < ls.len() implies is_line(#[trigger] ls[i]) by {
        if 0 < i <= rows.len() {
            assert(cores[i - 1].1.len() >= 8);
            lemma_core_row(cores[i - 1].0, cores[i - 1].1);
            assert(ls[i] == core_row(cores[i - 1].0, cores[i - 1].1));
        } else if i > rows.len() {
            assert(ls[i] == others[i - 1 - rows.len()]);
        }
    }
    law_lines_of_joined(ls);
    assert(ls[0] == head);
    assert(head.take(4) == "cpu "@);
    assert(head.skip(4) == spaced(aggregate));
    lemma_words_of_spaced(aggregate);
    lemma_numbers_of_decimals(aggregate);
    assert(ls.drop_first() == rows + others);
    lemma_core_rows(cores, others);
}

} // verus!
