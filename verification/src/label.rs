//! Display labels for the names that the kernel uses.

use vstd::prelude::*;
use vstd::slice::slice_subrange;

use crate::text::{chars_of, index_of};
#[allow(unused_imports)]
use crate::text::{find, lemma_find, lemma_find_unique};

verus! {

/// The upper case of `c` by the Unicode case mappings: one character or more.
pub uninterp spec fn uppercase_of(c: char) -> Seq<char>;

/// The upper case of an ASCII character.
pub open spec fn ascii_uppercase(c: char) -> char {
    if 'a' <= c <= 'z' {
        ((c as u32 - 32) as u32) as char
    } else {
        c
    }
}

/// `char::to_uppercase` gives the characters of the upper case of `c`, which depends on `c`
/// alone. A lower case ASCII letter becomes its capital, any other ASCII character stays.
#[verifier::external_body]
fn to_uppercase(c: char) -> (r: String)
    ensures
        r@ == uppercase_of(c),
        (c as u32) < 128 ==> r@ == seq![ascii_uppercase(c)],
{
    c.to_uppercase().collect()
}

/// `word` with its first character in upper case.
pub open spec fn capitalized(word: Seq<char>) -> Seq<char> {
    if word.len() == 0 {
        word
    } else {
        uppercase_of(word[0]) + word.drop_first()
    }
}

/// `s` with a blank for each underscore and with its words capitalized.
pub open spec fn prettified(s: Seq<char>) -> Seq<char>
    decreases s.len(),
{
    let n = find(s, '_');
    if n >= s.len() {
        capitalized(s)
    } else {
        capitalized(s.take(n as int)) + seq![' '] + prettified(s.skip(n as int + 1))
    }
}

/// Whether a word of `s` begins at position `i`.
pub open spec fn word_begins(s: Seq<char>, i: int) -> bool {
    i == 0 || s[i - 1] == '_'
}

/// Whether every word of `s` begins with an ASCII character.
pub open spec fn ascii_initials(s: Seq<char>) -> bool {
    forall|i: int| 0 <= i < s.len() && #[trigger] word_begins(s, i) ==> (s[i] as u32) < 128
}

/// The label of `s`, character by character, where its words begin with ASCII characters.
pub open spec fn ascii_prettified(s: Seq<char>) -> Seq<char> {
    Seq::new(
        s.len(),
        |i: int|
            if s[i] == '_' {
                ' '
            } else if word_begins(s, i) {
                ascii_uppercase(s[i])
            } else {
                s[i]
            },
    )
}

/// Appends `word` to `out` with `initial` in place of its first character.
pub fn push_word(out: &mut String, initial: &str, word: &[char])
    requires
        word@.len() > 0,
    ensures
        final(out)@ == old(out)@ + initial@ + word@.drop_first(),
{
    out.append(initial);
    let ghost head = out@;
    let mut i: usize = 1;
    assert(word@.subrange(1, 1) == Seq::<char>::empty());
    assert(head + word@.subrange(1, 1) == head);
    while i < word.len()
        invariant
            1 <= i <= word@.len(),
            out@ == head + word@.subrange(1, i as int),
        decreases word@.len() - i,
    {
        out.push(word[i]);
        assert(word@.subrange(1, i + 1) == word@.subrange(1, i as int).push(word@[i as int]));
        assert(out@ == head + word@.subrange(1, i + 1));
        i += 1;
    }
    assert(word@.subrange(1, i as int) == word@.drop_first());
}

/// Converts a name like `balance_performance` to a label like `Balance Performance`.
pub fn prettify_label(s: &str) -> (r: String)
    ensures
        r@ == prettified(s@),
        ascii_initials(s@) ==> r@ == ascii_prettified(s@),
        (forall|i: int| 0 <= i < s@.len() ==> (#[trigger] s@[i] as u32) < 128) ==> r@.len()
            == s@.len() && forall|i: int|
            0 <= i < s@.len() ==> {
                &&& s@[i] == '_' ==> #[trigger] r@[i] == ' '
                &&& s@[i] != '_' && i > 0 && s@[i - 1] != '_' ==> r@[i] == s@[i]
                &&& (i == 0 || s@[i - 1] == '_') && 97 <= s@[i] as u32 <= 122 ==> r@[i] as u32
                    == s@[i] as u32 - 32
                &&& s@[i] != '_' && !(97 <= s@[i] as u32 <= 122) ==> r@[i] == s@[i]
            },
{
    let name = chars_of(s);
    let ghost full = name@;
    let mut r = String::new();
    let mut i: usize = 0;
    let mut more = true;
    assert(full.skip(0) == full);
    assert(r@ + prettified(full) == prettified(full));
    while more
        invariant
            i <= name@.len(),
            full == name@,
            more ==> word_begins(full, i as int),
            more ==> r@ + prettified(full.skip(i as int)) == prettified(full),
            more && ascii_initials(full) ==> r@ == ascii_prettified(full).take(i as int),
            !more ==> r@ == prettified(full),
            !more && ascii_initials(full) ==> r@ == ascii_prettified(full),
        decreases name@.len() - i + (if more { 1int } else { 0int }),
    {
        let rest = slice_subrange(name.as_slice(), i, name.len());
        assert(rest@ == full.skip(i as int));
        let n = index_of(rest, '_');
        proof {
            lemma_find(rest@, '_');
        }
        let word = slice_subrange(rest, 0, n);
        assert(word@ == rest@.take(n as int));
        let ghost before = r@;
        if n > 0 {
            let initial = to_uppercase(word[0]);
            assert(word@[0] == full[i as int]);
            push_word(&mut r, initial.as_str(), word);
            assert(r@ == before + capitalized(word@));
        } else {
            assert(r@ == before + capitalized(word@));
        }
        proof {
            if ascii_initials(full) {
                assert(r@ == ascii_prettified(full).take(i + n)) by {
                    assert forall|j: int| i <= j < i + n implies r@[j] == ascii_prettified(full)[j] by {
                        assert(rest@[j - i] == full[j]);
                        assert(rest@[j - i] != '_');
                        if j > i {
                            assert(rest@[j - 1 - i] == full[j - 1]);
                            assert(!word_begins(full, j));
                        }
                    }
                }
            }
        }
        if n == rest.len() {
            assert(word@ == rest@);
            assert(ascii_prettified(full).take(i + n) == ascii_prettified(full));
            more = false;
        } else {
            r.push(' ');
            assert(rest@[n as int] == full[i + n]);
            assert(rest@.skip(n as int + 1) == full.skip(i + n + 1));
            proof {
                let tail = prettified(full.skip(i + n + 1));
                assert(r@ + tail == before + (capitalized(word@) + seq![' '] + tail));
            }
            i += n + 1;
        }
    }
    r
}

/// The label of a name is made word by word: an underscore becomes a blank, and what stands
/// before and behind it has its label on its own.
pub proof fn law_labels_are_made_word_by_word(a: Seq<char>, b: Seq<char>)
    ensures
        prettified(a.push('_') + b) == prettified(a).push(' ') + prettified(b),
    decreases a.len(),
{
    let s = a.push('_') + b;
    let n = find(a, '_') as int;
    lemma_find(a, '_');
    assert forall|i: int| 0 <= i < n implies s[i] != '_' by {
        assert(s[i] == a[i]);
    }
    if n >= a.len() {
        assert(s[n] == '_');
        lemma_find_unique(s, '_', n);
        assert(s.take(n) == a);
        assert(s.skip(n + 1) == b);
        assert(prettified(s) == prettified(a).push(' ') + prettified(b));
    } else {
        assert(s[n] == a[n]);
        lemma_find_unique(s, '_', n);
        let rest = a.skip(n + 1);
        assert(s.take(n) == a.take(n));
        assert(s.skip(n + 1) == rest.push('_') + b);
        law_labels_are_made_word_by_word(rest, b);
        assert(prettified(s) == prettified(a).push(' ') + prettified(b));
    }
}

/// The label of a word is the word with its first character, and no other, in upper case.
pub proof fn law_words_are_capitalized(word: Seq<char>)
    requires
        forall|i: int| 0 <= i < word.len() ==> word[i] != '_',
    ensures
        word.len() == 0 ==> prettified(word) == word,
        word.len() > 0 ==> prettified(word) == uppercase_of(word[0]) + word.skip(1),
{
    lemma_find_unique(word, '_', word.len() as int);
    assert(word.len() > 0 ==> word.skip(1) == word.drop_first());
}

/// In a label with ASCII initials every character keeps its place. An underscore becomes a
/// blank, a lower case letter at the start of a word its capital, and nothing else changes.
pub proof fn law_labels_keep_their_characters(s: Seq<char>, i: int)
    requires
        0 <= i < s.len(),
    ensures
        ascii_prettified(s).len() == s.len(),
        s[i] == '_' ==> ascii_prettified(s)[i] == ' ',
        s[i] != '_' && i > 0 && s[i - 1] != '_' ==> ascii_prettified(s)[i] == s[i],
        (i == 0 || s[i - 1] == '_') && 97 <= s[i] as u32 <= 122 ==> ascii_prettified(s)[i] as u32
            == s[i] as u32 - 32,
        s[i] != '_' && !(97 <= s[i] as u32 <= 122) ==> ascii_prettified(s)[i] == s[i],
{
}

} // verus!
