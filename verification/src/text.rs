//! Text as sequences of characters: trimming, lines, words and decimal numbers.

use vstd::prelude::*;
use vstd::slice::slice_subrange;

verus! {

/// `String::push` appends the given character to the end of the string.
pub assume_specification[ String::push ](s: &mut String, ch: char)
    ensures
        final(s)@ == old(s)@.push(ch),
;

/// The sets of characters that are trimmed off a piece of text.
#[derive(Clone, Copy, PartialEq, Eq, Structural, Debug)]
pub enum CharClass {
    /// Unicode white space.
    Space,
    /// What stands between a key and its value in `/proc/cpuinfo`.
    Gap,
    /// The double quote.
    Quote,
}

/// The characters with the Unicode property `White_Space`.
pub open spec fn is_space(c: char) -> bool {
    let n = c as u32;
    ||| 0x9 <= n <= 0xd
    ||| n == 0x20
    ||| n == 0x85
    ||| n == 0xa0
    ||| n == 0x1680
    ||| 0x2000 <= n <= 0x200a
    ||| n == 0x2028
    ||| n == 0x2029
    ||| n == 0x202f
    ||| n == 0x205f
    ||| n == 0x3000
}

impl CharClass {
    /// Whether `c` belongs to the class.
    pub open spec fn has(self, c: char) -> bool {
        match self {
            CharClass::Space => is_space(c),
            CharClass::Gap => c == ' ' || c == '\t' || c == ':',
            CharClass::Quote => c == '"',
        }
    }

    /// Tests whether `c` belongs to the class.
    pub fn contains(self, c: char) -> (r: bool)
        ensures
            r == self.has(c),
    {
        match self {
            CharClass::Space => {
                let n: u32 = c as u32;
                (0x9 <= n && n <= 0xd) || n == 0x20 || n == 0x85 || n == 0xa0 || n == 0x1680 || (
                0x2000 <= n && n <= 0x200a) || n == 0x2028 || n == 0x2029 || n == 0x202f || n
                    == 0x205f || n == 0x3000
            },
            CharClass::Gap => c == ' ' || c == '\t' || c == ':',
            CharClass::Quote => c == '"',
        }
    }
}

/// The characters of `s`.
pub fn chars_of(s: &str) -> (r: Vec<char>)
    ensures
        r@ == s@,
{
    let mut r: Vec<char> = Vec::new();
    for c in it: s.chars()
        invariant
            r@ == it.seq().take(it.index() as int),
            it.seq() == s@,
    {
        r.push(c);
    }
    r
}

/// The string with the characters of `s`.
pub fn string_of(s: &[char]) -> (r: String)
    ensures
        r@ == s@,
{
    let mut r = String::new();
    let mut i: usize = 0;
    while i < s.len()
        invariant
            i <= s@.len(),
            r@ == s@.take(i as int),
        decreases s@.len() - i,
    {
        r.push(s[i]);
        i += 1;
    }
    assert(s@.take(i as int) == s@);
    r
}

/// The texts of a list of strings.
pub open spec fn strings(v: Seq<String>) -> Seq<Seq<char>> {
    Seq::new(v.len(), |i: int| v[i]@)
}

/// `s` without the leading characters that belong to `class`.
pub open spec fn trimmed_start(s: Seq<char>, class: CharClass) -> Seq<char>
    decreases s.len(),
{
    if s.len() > 0 && class.has(s[0]) {
        trimmed_start(s.drop_first(), class)
    } else {
        s
    }
}

/// `s` without the trailing characters that belong to `class`.
pub open spec fn trimmed_end(s: Seq<char>, class: CharClass) -> Seq<char>
    decreases s.len(),
{
    if s.len() > 0 && class.has(s.last()) {
        trimmed_end(s.drop_last(), class)
    } else {
        s
    }
}

/// `s` without the leading and trailing characters that belong to `class`.
pub open spec fn trimmed(s: Seq<char>, class: CharClass) -> Seq<char> {
    trimmed_end(trimmed_start(s, class), class)
}

/// Drops the leading characters that belong to `class`.
pub fn trim_start(s: &[char], class: CharClass) -> (r: &[char])
    ensures
        r@ == trimmed_start(s@, class),
{
    let mut i: usize = 0;
    assert(s@.skip(0) == s@);
    while i < s.len() && class.contains(s[i])
        invariant
            i <= s@.len(),
            trimmed_start(s@.skip(i as int), class) == trimmed_start(s@, class),
        decreases s@.len() - i,
    {
        assert(s@.skip(i as int).drop_first() == s@.skip(i + 1));
        i += 1;
    }
    assert(s@.subrange(i as int, s@.len() as int) == s@.skip(i as int));
    slice_subrange(s, i, s.len())
}

/// Drops the trailing characters that belong to `class`.
pub fn trim_end(s: &[char], class: CharClass) -> (r: &[char])
    ensures
        r@ == trimmed_end(s@, class),
{
    let mut n: usize = s.len();
    assert(s@.take(n as int) == s@);
    while n > 0 && class.contains(s[n - 1])
        invariant
            n <= s@.len(),
            trimmed_end(s@.take(n as int), class) == trimmed_end(s@, class),
        decreases n,
    {
        assert(s@.take(n as int).drop_last() == s@.take(n - 1));
        n -= 1;
    }
    assert(s@.subrange(0, n as int) == s@.take(n as int));
    slice_subrange(s, 0, n)
}

/// Drops the leading and trailing characters that belong to `class`.
pub fn trim(s: &[char], class: CharClass) -> (r: &[char])
    ensures
        r@ == trimmed(s@, class),
{
    trim_end(trim_start(s, class), class)
}

/// The position of the first `c` in `s`, or the length of `s` where there is none.
pub open spec fn find(s: Seq<char>, c: char) -> nat
    decreases s.len(),
{
    if s.len() == 0 || s[0] == c {
        0
    } else {
        1 + find(s.drop_first(), c)
    }
}

/// `find` gives the first position that holds `c`.
pub proof fn lemma_find(s: Seq<char>, c: char)
    ensures
        find(s, c) <= s.len(),
        find(s, c) < s.len() ==> s[find(s, c) as int] == c,
        forall|i: int| 0 <= i < find(s, c) ==> s[i] != c,
    decreases s.len(),
{
    if s.len() > 0 && s[0] != c {
        lemma_find(s.drop_first(), c);
        assert forall|i: int| 0 <= i < find(s, c) implies s[i] != c by {
            if i > 0 {
                assert(s[i] == s.drop_first()[i - 1]);
            }
        }
    }
}

/// The only position that holds `c` with no `c` before it is the one that `find` gives.
pub proof fn lemma_find_unique(s: Seq<char>, c: char, n: int)
    requires
        0 <= n <= s.len(),
        n < s.len() ==> s[n] == c,
        forall|i: int| 0 <= i < n ==> s[i] != c,
    ensures
        find(s, c) == n,
{
    lemma_find(s, c);
    if n < find(s, c) {
        assert(s[n] != c);
    }
    if find(s, c) < n {
        assert(s[find(s, c) as int] != c);
    }
}

/// Finds the first `c` in `s`; the length of `s` where there is none.
pub fn index_of(s: &[char], c: char) -> (r: usize)
    ensures
        r == find(s@, c),
        r <= s@.len(),
{
    let mut i: usize = 0;
    while i < s.len() && s[i] != c
        invariant
            i <= s@.len(),
            forall|j: int| 0 <= j < i ==> s@[j] != c,
        decreases s@.len() - i,
    {
        i += 1;
    }
    proof {
        lemma_find_unique(s@, c, i as int);
    }
    i
}

/// The texts that a list of slices shows.
pub open spec fn views(v: Seq<&[char]>) -> Seq<Seq<char>> {
    Seq::new(v.len(), |i: int| v[i]@)
}

/// `line` without a carriage return at its end.
pub open spec fn without_cr(line: Seq<char>) -> Seq<char> {
    if line.len() > 0 && line.last() == '\r' {
        line.drop_last()
    } else {
        line
    }
}

/// The lines of `s`. A line ends at a line feed, with a carriage return before it
/// counted as part of the line's end; the last line may do without.
pub open spec fn lines(s: Seq<char>) -> Seq<Seq<char>>
    decreases s.len(),
{
    let n = find(s, '\n');
    if s.len() == 0 {
        Seq::empty()
    } else if n >= s.len() {
        seq![s]
    } else {
        seq![without_cr(s.take(n as int))] + lines(s.skip(n as int + 1))
    }
}

/// Splits `s` into its lines.
pub fn split_lines(s: &[char]) -> (r: Vec<&[char]>)
    ensures
        views(r@) == lines(s@),
{
    let mut r: Vec<&[char]> = Vec::new();
    let mut i: usize = 0;
    assert(s@.skip(0) == s@);
    assert(views(r@) + lines(s@) == lines(s@));
    while i < s.len()
        invariant
            i <= s@.len(),
            views(r@) + lines(s@.skip(i as int)) == lines(s@),
        decreases s@.len() - i,
    {
        let rest = slice_subrange(s, i, s.len());
        assert(rest@ == s@.skip(i as int));
        let n = index_of(rest, '\n');
        let ghost before = views(r@);
        if n == rest.len() {
            r.push(rest);
            assert(views(r@) == before.push(rest@));
            assert(views(r@) == lines(s@));
            return r;
        }
        let mut m: usize = n;
        if n > 0 && rest[n - 1] == '\r' {
            m = n - 1;
        }
        let line = slice_subrange(rest, 0, m);
        assert(line@ == without_cr(rest@.take(n as int)));
        r.push(line);
        assert(views(r@) == before.push(line@));
        assert(rest@.skip(n as int + 1) == s@.skip(i + n + 1));
        assert(views(r@) + lines(s@.skip(i + n + 1)) == lines(s@));
        i += n + 1;
    }
    assert(lines(s@.skip(i as int)) == Seq::<Seq<char>>::empty());
    assert(views(r@) == lines(s@));
    r
}

/// The length of the run of characters at the start of `s` that are not white space.
pub open spec fn word_len(s: Seq<char>) -> nat
    decreases s.len(),
{
    if s.len() == 0 || is_space(s[0]) {
        0
    } else {
        1 + word_len(s.drop_first())
    }
}

/// The run that `word_len` measures holds no white space and cannot be made longer.
pub proof fn lemma_word_len(s: Seq<char>)
    ensures
        word_len(s) <= s.len(),
        word_len(s) < s.len() ==> is_space(s[word_len(s) as int]),
        forall|i: int| 0 <= i < word_len(s) ==> !is_space(s[i]),
    decreases s.len(),
{
    if s.len() > 0 && !is_space(s[0]) {
        lemma_word_len(s.drop_first());
        assert forall|i: int| 0 <= i < word_len(s) implies !is_space(s[i]) by {
            if i > 0 {
                assert(s[i] == s.drop_first()[i - 1]);
            }
        }
    }
}

/// The words of `s`: its longest runs of characters that are not white space.
pub open spec fn words(s: Seq<char>) -> Seq<Seq<char>>
    decreases s.len(),
{
    if s.len() == 0 {
        Seq::empty()
    } else if is_space(s[0]) {
        words(s.drop_first())
    } else {
        proof {
            lemma_word_len(s);
        }
        seq![s.take(word_len(s) as int)] + words(s.skip(word_len(s) as int))
    }
}

/// Measures the word at the start of `s`.
fn measure_word(s: &[char]) -> (r: usize)
    ensures
        r == word_len(s@),
        r <= s@.len(),
{
    let mut i: usize = 0;
    while i < s.len() && !CharClass::Space.contains(s[i])
        invariant
            i <= s@.len(),
            forall|j: int| 0 <= j < i ==> !is_space(s@[j]),
        decreases s@.len() - i,
    {
        i += 1;
    }
    proof {
        lemma_word_len(s@);
        if i < word_len(s@) {
            assert(!is_space(s@[i as int]));
        }
        if word_len(s@) < i {
            assert(!is_space(s@[word_len(s@) as int]));
        }
    }
    i
}

/// Splits `s` into its words.
pub fn split_words(s: &[char]) -> (r: Vec<&[char]>)
    ensures
        views(r@) == words(s@),
{
    let mut r: Vec<&[char]> = Vec::new();
    let mut i: usize = 0;
    assert(s@.skip(0) == s@);
    assert(views(r@) + words(s@) == words(s@));
    while i < s.len()
        invariant
            i <= s@.len(),
            views(r@) + words(s@.skip(i as int)) == words(s@),
        decreases s@.len() - i,
    {
        let rest = slice_subrange(s, i, s.len());
        assert(rest@ == s@.skip(i as int));
        if CharClass::Space.contains(rest[0]) {
            assert(rest@.drop_first() == s@.skip(i + 1));
            i += 1;
        } else {
            let ghost before = views(r@);
            let n = measure_word(rest);
            assert(n > 0);
            let word = slice_subrange(rest, 0, n);
            assert(word@ == rest@.take(n as int));
            r.push(word);
            assert(views(r@) == before.push(word@));
            assert(rest@.skip(n as int) == s@.skip(i + n));
            assert(views(r@) + words(s@.skip(i + n)) == words(s@));
            i += n;
        }
    }
    assert(words(s@.skip(i as int)) == Seq::<Seq<char>>::empty());
    assert(views(r@) == words(s@));
    r
}

/// Whether `s` begins with `prefix`.
pub open spec fn begins_with(s: Seq<char>, prefix: Seq<char>) -> bool {
    s.len() >= prefix.len() && s.take(prefix.len() as int) == prefix
}

/// Whether `s` ends with `suffix`.
pub open spec fn finishes_with(s: Seq<char>, suffix: Seq<char>) -> bool {
    s.len() >= suffix.len() && s.skip(s.len() - suffix.len()) == suffix
}

/// Compares two texts.
pub fn same_text(a: &[char], b: &[char]) -> (r: bool)
    ensures
        r == (a@ == b@),
{
    if a.len() != b.len() {
        return false;
    }
    let mut i: usize = 0;
    while i < a.len()
        invariant
            a@.len() == b@.len(),
            i <= a@.len(),
            a@.take(i as int) == b@.take(i as int),
        decreases a@.len() - i,
    {
        if a[i] != b[i] {
            assert(a@[i as int] != b@[i as int]);
            return false;
        }
        assert(a@.take(i + 1) == a@.take(i as int).push(a@[i as int]));
        assert(b@.take(i + 1) == b@.take(i as int).push(b@[i as int]));
        i += 1;
    }
    assert(a@.take(i as int) == a@);
    assert(b@.take(i as int) == b@);
    true
}

/// What stands behind `prefix` in `s`, where `s` begins with it.
pub fn strip_prefix<'a>(s: &'a [char], prefix: &str) -> (r: Option<&'a [char]>)
    ensures
        r is Some <==> begins_with(s@, prefix@),
        r matches Some(rest) ==> rest@ == s@.skip(prefix@.len() as int),
{
    let p = chars_of(prefix);
    let n = p.len();
    if s.len() < n {
        return None;
    }
    let head = slice_subrange(s, 0, n);
    assert(head@ == s@.take(n as int));
    if !same_text(head, p.as_slice()) {
        return None;
    }
    let rest = slice_subrange(s, n, s.len());
    assert(rest@ == s@.skip(n as int));
    Some(rest)
}

/// What stands before `suffix` in `s`, where `s` ends with it.
pub fn strip_suffix<'a>(s: &'a [char], suffix: &str) -> (r: Option<&'a [char]>)
    ensures
        r is Some <==> finishes_with(s@, suffix@),
        r matches Some(rest) ==> rest@ == s@.take(s@.len() - suffix@.len()),
{
    let p = chars_of(suffix);
    let n = p.len();
    if s.len() < n {
        return None;
    }
    let m: usize = s.len() - n;
    let tail = slice_subrange(s, m, s.len());
    assert(tail@ == s@.skip(m as int));
    if !same_text(tail, p.as_slice()) {
        return None;
    }
    let rest = slice_subrange(s, 0, m);
    assert(rest@ == s@.take(m as int));
    Some(rest)
}

/// Whether `c` is an ASCII digit.
pub open spec fn is_digit(c: char) -> bool {
    '0' <= c <= '9'
}

/// The value of an ASCII digit.
pub open spec fn digit_value(c: char) -> nat {
    (c as u32 - '0' as u32) as nat
}

/// The number that `s` writes in base ten, most significant digit first.
pub open spec fn digits_value(s: Seq<char>) -> nat
    decreases s.len(),
{
    if s.len() == 0 {
        0
    } else {
        digits_value(s.drop_last()) * 10 + digit_value(s.last())
    }
}

/// `s` without a plus sign at its start.
pub open spec fn without_plus(s: Seq<char>) -> Seq<char> {
    if s.len() > 0 && s[0] == '+' {
        s.drop_first()
    } else {
        s
    }
}

/// The number that `s` stands for: digits in base ten, one or more of them, behind an
/// optional plus sign, and no greater than `max`.
pub open spec fn number(s: Seq<char>, max: nat) -> Option<nat> {
    let d = without_plus(s);
    if d.len() > 0 && (forall|i: int| 0 <= i < d.len() ==> is_digit(#[trigger] d[i]))
        && digits_value(d) <= max {
        Some(digits_value(d))
    } else {
        None
    }
}

/// A number is at least as great as what its leading digits write.
proof fn lemma_digits_grow(s: Seq<char>, n: int)
    requires
        0 <= n <= s.len(),
        forall|i: int| 0 <= i < s.len() ==> is_digit(#[trigger] s[i]),
    ensures
        digits_value(s.take(n)) <= digits_value(s),
    decreases s.len(),
{
    if n == s.len() {
        assert(s.take(n) == s);
    } else {
        assert(s.drop_last().take(n) == s.take(n));
        lemma_digits_grow(s.drop_last(), n);
    }
}

/// Reads a number of at most `max`.
pub fn parse_number(s: &[char], max: u64) -> (r: Option<u64>)
    ensures
        r is Some <==> number(s@, max as nat) is Some,
        r matches Some(n) ==> number(s@, max as nat) == Some(n as nat) && n <= max,
{
    let mut d = s;
    if s.len() > 0 && s[0] == '+' {
        d = slice_subrange(s, 1, s.len());
        assert(d@ == s@.drop_first());
    }
    if d.len() == 0 {
        return None;
    }
    let mut value: u64 = 0;
    let mut i: usize = 0;
    while i < d.len()
        invariant
            i <= d@.len(),
            d@ == without_plus(s@),
            value <= max,
            value == digits_value(d@.take(i as int)),
            forall|j: int| 0 <= j < i ==> is_digit(#[trigger] d@[j]),
        decreases d@.len() - i,
    {
        let c = d[i];
        if c < '0' || c > '9' {
            assert(!is_digit(d@[i as int]));
            return None;
        }
        let digit: u64 = (c as u32 - '0' as u32) as u64;
        assert(d@.take(i + 1).drop_last() == d@.take(i as int));
        assert(digits_value(d@.take(i + 1)) == value * 10 + digit);
        if value > max / 10 || digit > max || value * 10 > max - digit {
            proof {
                if forall|j: int| 0 <= j < d@.len() ==> is_digit(#[trigger] d@[j]) {
                    lemma_digits_grow(d@, i + 1);
                }
            }
            return None;
        }
        value = value * 10 + digit;
        i += 1;
    }
    assert(d@.take(i as int) == d@);
    Some(value)
}

/// The digit of value `n`.
pub open spec fn digit_char(n: nat) -> char {
    (('0' as u32 + n) as u32) as char
}

/// `n` in base ten, without leading zeros.
pub open spec fn decimal(n: nat) -> Seq<char>
    decreases n,
{
    if n < 10 {
        seq![digit_char(n)]
    } else {
        decimal(n / 10).push(digit_char(n % 10))
    }
}

/// The digit of value `n`.
fn write_digit(n: u64) -> (r: char)
    requires
        n < 10,
    ensures
        r == digit_char(n as nat),
{
    let code: u8 = 48 + n as u8;
    code as char
}

/// Appends `n` in base ten.
pub fn push_decimal(out: &mut String, n: u64)
    ensures
        final(out)@ == old(out)@ + decimal(n as nat),
    decreases n,
{
    if n < 10 {
        out.push(write_digit(n));
    } else {
        push_decimal(out, n / 10);
        out.push(write_digit(n % 10));
    }
}

/// `n` in base ten.
pub fn to_decimal(n: u64) -> (r: String)
    ensures
        r@ == decimal(n as nat),
{
    let mut r = String::new();
    push_decimal(&mut r, n);
    r
}

/// What is written in base ten reads back as the same number.
pub proof fn law_decimal_reads_back(n: nat, max: nat)
    requires
        n <= max,
    ensures
        number(decimal(n), max) == Some(n),
{
    lemma_decimal(n);
}

/// `decimal` writes at least one digit, nothing but digits, and they write its argument.
pub proof fn lemma_decimal(n: nat)
    ensures
        decimal(n).len() > 0,
        forall|i: int| 0 <= i < decimal(n).len() ==> is_digit(#[trigger] decimal(n)[i]),
        digits_value(decimal(n)) == n,
    decreases n,
{
    if n < 10 {
        assert(decimal(n).drop_last() == Seq::<char>::empty());
        assert(digits_value(decimal(n).drop_last()) == 0);
    } else {
        lemma_decimal(n / 10);
        assert(decimal(n).drop_last() == decimal(n / 10));
    }
}

/// What is dropped from the start of a text belongs to the class, and what is left does not
/// begin with the class; nothing else is dropped.
pub proof fn law_trimmed_start_drops_the_class(s: Seq<char>, class: CharClass)
    ensures
        ({
            let t = trimmed_start(s, class);
            let n = s.len() - t.len();
            &&& 0 <= n
            &&& t == s.skip(n)
            &&& forall|i: int| 0 <= i < n ==> class.has(#[trigger] s[i])
            &&& t.len() > 0 ==> !class.has(t[0])
        }),
    decreases s.len(),
{
    if s.len() > 0 && class.has(s[0]) {
        let rest = s.drop_first();
        law_trimmed_start_drops_the_class(rest, class);
        let n = s.len() - trimmed_start(s, class).len();
        assert(rest.skip(n - 1) == s.skip(n));
        assert forall|i: int| 0 <= i < n implies class.has(#[trigger] s[i]) by {
            if i > 0 {
                assert(s[i] == rest[i - 1]);
            }
        }
    } else {
        assert(s.skip(0) == s);
    }
}

/// What is dropped from the end of a text belongs to the class, and what is left does not end
/// with the class; nothing else is dropped.
pub proof fn law_trimmed_end_drops_the_class(s: Seq<char>, class: CharClass)
    ensures
        ({
            let t = trimmed_end(s, class);
            &&& t.len() <= s.len()
            &&& t == s.take(t.len() as int)
            &&& forall|i: int| t.len() <= i < s.len() ==> class.has(#[trigger] s[i])
            &&& t.len() > 0 ==> !class.has(t.last())
        }),
    decreases s.len(),
{
    if s.len() > 0 && class.has(s.last()) {
        let rest = s.drop_last();
        law_trimmed_end_drops_the_class(rest, class);
        let t = trimmed_end(s, class);
        assert(rest.take(t.len() as int) == s.take(t.len() as int));
        assert forall|i: int| t.len() <= i < s.len() implies class.has(#[trigger] s[i]) by {
            if i < rest.len() {
                assert(s[i] == rest[i]);
            }
        }
    } else {
        assert(s.take(s.len() as int) == s);
    }
}

/// A text between characters of a class, which itself neither begins nor ends with one, is
/// what is left when the class is trimmed off.
pub proof fn law_trimming_finds_the_core(
    before: Seq<char>,
    core: Seq<char>,
    behind: Seq<char>,
    class: CharClass,
)
    requires
        forall|i: int| 0 <= i < before.len() ==> class.has(#[trigger] before[i]),
        forall|i: int| 0 <= i < behind.len() ==> class.has(#[trigger] behind[i]),
        core.len() > 0 ==> !class.has(core[0]) && !class.has(core.last()),
    ensures
        trimmed(before + core + behind, class) == core,
{
    let s = before + core + behind;
    let t = trimmed_start(s, class);
    law_trimmed_start_drops_the_class(s, class);
    let n = s.len() - t.len();
    assert forall|i: int| 0 <= i < s.len() && !(before.len() <= i < before.len() + core.len())
        implies class.has(#[trigger] s[i]) by {
        if i < before.len() {
            assert(s[i] == before[i]);
        } else {
            assert(s[i] == behind[i - before.len() - core.len()]);
        }
    }
    let u = trimmed_end(t, class);
    law_trimmed_end_drops_the_class(t, class);
    if core.len() > 0 {
        let m = before.len() as int;
        assert(s[m] == core[0]);
        assert(s[m + core.len() - 1] == core.last());
        if n > m {
            assert(class.has(s[m]));
        }
        if n < m {
            assert(t[0] == s[n]);
        }
        let k = u.len() as int;
        if k > core.len() {
            assert(u.last() == t[k - 1]);
            assert(t[k - 1] == s[m + k - 1]);
        }
        if k < core.len() {
            assert(t[core.len() - 1] == s[m + core.len() - 1]);
            assert(class.has(t[core.len() - 1]));
        }
        assert(u == core);
    } else {
        if t.len() > 0 {
            assert(t[0] == s[n]);
        }
        assert(u == core);
    }
}

/// A text that begins with `prefix` is `prefix` and what stands behind it, and the other way
/// round.
pub proof fn law_prefixes(prefix: Seq<char>, rest: Seq<char>, s: Seq<char>)
    ensures
        begins_with(prefix + rest, prefix),
        (prefix + rest).skip(prefix.len() as int) == rest,
        begins_with(s, prefix) ==> s == prefix + s.skip(prefix.len() as int),
{
    assert((prefix + rest).take(prefix.len() as int) == prefix);
    if begins_with(s, prefix) {
        assert(s == s.take(prefix.len() as int) + s.skip(prefix.len() as int));
    }
}

/// A text that ends with `suffix` is what stands before it and `suffix`, and the other way
/// round.
pub proof fn law_suffixes(rest: Seq<char>, suffix: Seq<char>, s: Seq<char>)
    ensures
        finishes_with(rest + suffix, suffix),
        (rest + suffix).take(rest.len() as int) == rest,
        finishes_with(s, suffix) ==> s == s.take(s.len() - suffix.len()) + suffix,
{
    assert((rest + suffix).skip(rest.len() as int) == suffix);
    assert((rest + suffix).take(rest.len() as int) == rest);
    if finishes_with(s, suffix) {
        assert(s == s.take(s.len() - suffix.len()) + s.skip(s.len() - suffix.len()));
    }
}

/// A text ends its first line at its first line feed. The line is what stands before it, less
/// one carriage return at its end; the other lines are those of what stands behind it.
pub proof fn law_lines_end_at_line_feeds(line: Seq<char>, rest: Seq<char>)
    requires
        forall|i: int| 0 <= i < line.len() ==> line[i] != '\n',
    ensures
        line.len() == 0 || line.last() != '\r' ==> lines(line.push('\n') + rest) == seq![line]
            + lines(rest),
        lines(line.push('\r').push('\n') + rest) == seq![line] + lines(rest),
        line.len() > 0 ==> lines(line) == seq![line],
        lines(Seq::<char>::empty()) == Seq::<Seq<char>>::empty(),
{
    let s = line.push('\n') + rest;
    let n = line.len() as int;
    assert forall|i: int| 0 <= i < n implies s[i] != '\n' by {
        assert(s[i] == line[i]);
    }
    assert(s[n] == '\n');
    lemma_find_unique(s, '\n', n);
    assert(s.take(n) == line);
    assert(s.skip(n + 1) == rest);
    let cr = line.push('\r');
    let t = cr.push('\n') + rest;
    assert forall|i: int| 0 <= i < n + 1 implies t[i] != '\n' by {
        if i < n {
            assert(t[i] == line[i]);
        } else {
            assert(t[i] == '\r');
        }
    }
    assert(t[n + 1] == '\n');
    lemma_find_unique(t, '\n', n + 1);
    assert(t.take(n + 1) == cr);
    assert(cr.drop_last() == line);
    assert(t.skip(n + 2) == rest);
    if n > 0 {
        lemma_find_unique(line, '\n', n);
    }
}

/// White space parts the words of a text, one character of it as well as several.
pub proof fn law_words_part_at_white_space(a: Seq<char>, blank: char, b: Seq<char>)
    requires
        is_space(blank),
    ensures
        words(a.push(blank) + b) == words(a) + words(b),
    decreases a.len(),
{
    let s = a.push(blank) + b;
    if a.len() == 0 {
        assert(s[0] == blank);
        assert(s.drop_first() == b);
        assert(words(a) + words(b) == words(b));
    } else if is_space(a[0]) {
        assert(s[0] == a[0]);
        assert(s.drop_first() == a.drop_first().push(blank) + b);
        law_words_part_at_white_space(a.drop_first(), blank, b);
    } else {
        lemma_word_len(a);
        lemma_word_len(s);
        let n = word_len(a) as int;
        let m = word_len(s) as int;
        assert(s[0] == a[0]);
        if n < a.len() {
            assert(s[n] == a[n]);
        } else {
            assert(s[n] == blank);
        }
        if m > n {
            assert(!is_space(s[n]));
        }
        if m < n {
            assert(s[m] == a[m]);
        }
        assert(s.take(n) == a.take(n));
        assert(s.skip(n) == a.skip(n).push(blank) + b);
        law_words_part_at_white_space(a.skip(n), blank, b);
        assert(words(s) == words(a) + words(b));
    }
}

/// A text without white space is one word, and an empty one holds none.
pub proof fn law_solid_text_is_a_word(s: Seq<char>)
    requires
        forall|i: int| 0 <= i < s.len() ==> !is_space(#[trigger] s[i]),
    ensures
        words(s) == if s.len() == 0 {
            Seq::<Seq<char>>::empty()
        } else {
            seq![s]
        },
{
    if s.len() > 0 {
        assert(!is_space(s[0]));
        lemma_word_len(s);
        let n = word_len(s) as int;
        if n < s.len() {
            assert(!is_space(s[n]));
        }
        assert(s.take(n) == s);
        assert(s.skip(n) == Seq::<char>::empty());
        assert(words(s.skip(n)) == Seq::<Seq<char>>::empty());
        assert(seq![s] + Seq::<Seq<char>>::empty() == seq![s]);
    }
}

/// A digit stands for its value, and one more digit behind a number makes it ten times as
/// great and adds the digit's value; a number that is too great is none.
pub proof fn law_numbers_grow_by_digits(s: Seq<char>, v: u32, max: nat)
    requires
        v < 10,
        max >= 9,
    ensures
        ({
            let digit = ((48 + v) as u32) as char;
            &&& number(seq![digit], max) == Some(v as nat)
            &&& number(s, max) matches Some(n) ==> number(s.push(digit), max) == if n * 10 + v
                <= max {
                Some((n * 10 + v) as nat)
            } else {
                None
            }
        }),
{
    let digit = ((48 + v) as u32) as char;
    let one = seq![digit];
    assert(one.drop_last() == Seq::<char>::empty());
    assert(digits_value(Seq::<char>::empty()) == 0);
    assert(digits_value(one) == v);
    assert(without_plus(one) == one);
    if number(s, max) is Some {
        let d = without_plus(s);
        let t = s.push(digit);
        assert(t[0] == s[0]);
        assert(without_plus(t) == d.push(digit));
        assert(d.push(digit).drop_last() == d);
        assert forall|i: int| 0 <= i < d.push(digit).len() implies is_digit(
            #[trigger] d.push(digit)[i],
        ) by {
            if i < d.len() {
                assert(is_digit(d[i]));
            }
        }
    }
}

/// What is no number: nothing at all, a plus sign alone, and every text with a character other
/// than a digit behind an optional plus sign. The plus sign itself changes nothing.
pub proof fn law_only_digits_are_numbers(s: Seq<char>, i: int, max: nat)
    ensures
        s.len() == 0 ==> number(s, max) is None,
        number(seq!['+'], max) is None,
        0 <= i < s.len() && !('0' <= s[i] <= '9') && !(i == 0 && s[0] == '+') ==> number(s, max)
            is None,
        s.len() > 0 && s[0] != '+' ==> number(seq!['+'] + s, max) == number(s, max),
        number(s, max) matches Some(n) ==> n <= max,
{
    assert(without_plus(seq!['+']) == Seq::<char>::empty());
    if 0 <= i < s.len() && !('0' <= s[i] <= '9') && !(i == 0 && s[0] == '+') {
        let d = without_plus(s);
        if s[0] == '+' {
            assert(d[i - 1] == s[i]);
            assert(!is_digit(d[i - 1]));
        } else {
            assert(!is_digit(d[i]));
        }
    }
    if s.len() > 0 && s[0] != '+' {
        assert((seq!['+'] + s).drop_first() == s);
    }
}

/// A number in base ten is written without leading zeros, but for zero itself.
pub proof fn law_no_leading_zeros(n: nat)
    ensures
        decimal(n).len() > 0,
        forall|i: int| 0 <= i < decimal(n).len() ==> '0' <= #[trigger] decimal(n)[i] <= '9',
        n > 0 ==> decimal(n)[0] != '0',
        n == 0 ==> decimal(n) == seq!['0'],
    decreases n,
{
    lemma_decimal(n);
    assert forall|i: int| 0 <= i < decimal(n).len() implies '0' <= #[trigger] decimal(n)[i]
        <= '9' by {
        assert(is_digit(decimal(n)[i]));
    }
    if n >= 10 {
        law_no_leading_zeros(n / 10);
        assert(decimal(n)[0] == decimal(n / 10)[0]);
    }
}

/// The texts of a list of strings, and of a list of slices, are those of its items, place by
/// place.
pub proof fn law_texts_keep_their_places(v: Seq<String>, w: Seq<&[char]>, i: int)
    ensures
        strings(v).len() == v.len(),
        views(w).len() == w.len(),
        0 <= i < v.len() ==> strings(v)[i] == v[i]@,
        0 <= i < w.len() ==> views(w)[i] == w[i]@,
{
}

} // verus!
