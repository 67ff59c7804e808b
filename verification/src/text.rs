//! The lexical layer under the parsers: characters, white space, lines and words.
//!
//! Everything here is stated over `Seq<char>`; the executable functions work on
//! slices of `char` and hand out sub-slices, so that splitting a text copies nothing.

use vstd::prelude::*;

verus! {

/// `String::push` of std appends the character to the end of the string.
pub assume_specification[ String::push ](s: &mut String, c: char)
    ensures
        final(s)@ == old(s)@.push(c),
;

/// The characters with the Unicode property `White_Space`.
pub open spec fn is_space(c: char) -> bool {
    let n = c as u32;
    ||| 0x09 <= n <= 0x0D
    ||| n == 0x20
    ||| n == 0x85
    ||| n == 0xA0
    ||| n == 0x1680
    ||| 0x2000 <= n <= 0x200A
    ||| n == 0x2028
    ||| n == 0x2029
    ||| n == 0x202F
    ||| n == 0x205F
    ||| n == 0x3000
}

/// Index of the first occurrence of `c` in `s`, or `s.len()` where `s` holds none.
pub open spec fn index_of(s: Seq<char>, c: char) -> int
    decreases s.len(),
{
    if s.len() == 0 || s[0] == c {
        0
    } else {
        1 + index_of(s.skip(1), c)
    }
}

/// Length of the longest prefix of `s` that holds no white space.
pub open spec fn word_len(s: Seq<char>) -> int
    decreases s.len(),
{
    if s.len() == 0 || is_space(s[0]) {
        0
    } else {
        1 + word_len(s.skip(1))
    }
}

/// `line` without the carriage return at its end, if it has one.
pub open spec fn strip_carriage_return(line: Seq<char>) -> Seq<char> {
    if line.len() > 0 && line.last() == '\r' {
        line.drop_last()
    } else {
        line
    }
}

/// The first line of a text that is not empty: what stands before the first line
/// feed, less a carriage return just before it; the whole text where it holds no
/// line feed.
pub open spec fn first_line(text: Seq<char>) -> Seq<char> {
    let k = index_of(text, '\n');
    if k < text.len() {
        strip_carriage_return(text.take(k))
    } else {
        text
    }
}

/// What follows the first line feed of a text; nothing where it holds none.
pub open spec fn after_first_line(text: Seq<char>) -> Seq<char> {
    let k = index_of(text, '\n');
    if k < text.len() {
        text.skip(k + 1)
    } else {
        Seq::empty()
    }
}

/// The lines of a text. A line ends at a line feed, or at a carriage return
/// followed by one; neither belongs to the line. The last line needs no line
/// feed, a text that ends in one has no empty line after it, and the empty text
/// has no line at all.
pub open spec fn lines(text: Seq<char>) -> Seq<Seq<char>>
    decreases text.len(),
{
    if text.len() == 0 {
        Seq::empty()
    } else {
        proof {
            lemma_index_of_bounds(text, '\n');
        }
        seq![first_line(text)] + lines(after_first_line(text))
    }
}

/// The words of a line: its maximal runs of characters that are not white space,
/// from left to right.
pub open spec fn words(line: Seq<char>) -> Seq<Seq<char>>
    decreases line.len(),
{
    if line.len() == 0 {
        Seq::empty()
    } else if is_space(line[0]) {
        words(line.skip(1))
    } else {
        proof {
            lemma_word_len_bounds(line);
        }
        seq![line.take(word_len(line))] + words(line.skip(word_len(line)))
    }
}

/// `pattern` stands in `text` at index `i`.
pub open spec fn occurs_at(text: Seq<char>, pattern: Seq<char>, i: int) -> bool {
    &&& 0 <= i
    &&& i + pattern.len() <= text.len()
    &&& text.subrange(i, i + pattern.len()) == pattern
}

/// `pattern` stands somewhere in `text`.
pub open spec fn contains(text: Seq<char>, pattern: Seq<char>) -> bool {
    exists|i: int| occurs_at(text, pattern, i)
}

/// `s` without the occurrences of `c` at its end.
pub open spec fn trim_end(s: Seq<char>, c: char) -> Seq<char>
    decreases s.len(),
{
    if s.len() > 0 && s.last() == c {
        trim_end(s.drop_last(), c)
    } else {
        s
    }
}

/// The views of a vector of slices.
pub open spec fn slice_views(parts: Seq<&[char]>) -> Seq<Seq<char>> {
    parts.map_values(|part: &[char]| part@)
}

/// `index_of` is the one index that has no `c` before it and `c` at it, or is the end.
pub proof fn lemma_index_of(s: Seq<char>, c: char, k: int)
    requires
        0 <= k <= s.len(),
        forall|i: int| 0 <= i < k ==> s[i] != c,
        k < s.len() ==> s[k] == c,
    ensures
        index_of(s, c) == k,
    decreases k,
{
    if k > 0 {
        let t = s.skip(1);
        assert forall|i: int| 0 <= i < k - 1 implies t[i] != c by {
            assert(t[i] == s[i + 1]);
        }
        lemma_index_of(t, c, k - 1);
    }
}

/// `word_len` is the one index that has no white space before it and white space
/// at it, or is the end.
pub proof fn lemma_word_len(s: Seq<char>, k: int)
    requires
        0 <= k <= s.len(),
        forall|i: int| 0 <= i < k ==> !is_space(s[i]),
        k < s.len() ==> is_space(s[k]),
    ensures
        word_len(s) == k,
    decreases k,
{
    if k > 0 {
        let t = s.skip(1);
        assert forall|i: int| 0 <= i < k - 1 implies !is_space(t[i]) by {
            assert(t[i] == s[i + 1]);
        }
        lemma_word_len(t, k - 1);
    }
}

/// A word is not empty and holds no white space.
pub open spec fn is_word(w: Seq<char>) -> bool {
    &&& w.len() > 0
    &&& forall|i: int| 0 <= i < w.len() ==> !is_space(#[trigger] w[i])
}

/// Every word of a line is a word: not empty, and free of white space.
pub proof fn lemma_words_are_words(line: Seq<char>)
    ensures
        forall|j: int| 0 <= j < words(line).len() ==> is_word(#[trigger] words(line)[j]),
    decreases line.len(),
{
    if line.len() == 0 {
    } else if is_space(line[0]) {
        lemma_words_are_words(line.skip(1));
        assert(words(line) == words(line.skip(1)));
    } else {
        let k = word_len(line);
        lemma_word_len_bounds(line);
        lemma_words_are_words(line.skip(k));
        let head = line.take(k);
        assert(is_word(head));
        assert(words(line) == seq![head] + words(line.skip(k)));
        assert forall|j: int| 0 <= j < words(line).len() implies is_word(
            #[trigger] words(line)[j],
        ) by {
            if j > 0 {
                assert(words(line)[j] == words(line.skip(k))[j - 1]);
            } else {
                assert(words(line)[0] == head);
            }
        }
    }
}

/// `word_len` lies within the sequence, is zero only where the sequence is
/// empty or begins with white space, has no white space before it, and is
/// followed by white space or by the end.
pub proof fn lemma_word_len_bounds(s: Seq<char>)
    ensures
        0 <= word_len(s) <= s.len(),
        s.len() > 0 && !is_space(s[0]) ==> word_len(s) > 0,
        forall|i: int| 0 <= i < word_len(s) ==> !is_space(#[trigger] s[i]),
        word_len(s) < s.len() ==> is_space(s[word_len(s)]),
    decreases s.len(),
{
    if s.len() == 0 || is_space(s[0]) {
    } else {
        let t = s.skip(1);
        lemma_word_len_bounds(t);
        assert forall|i: int| 0 <= i < word_len(s) implies !is_space(#[trigger] s[i]) by {
            if i > 0 {
                assert(s[i] == t[i - 1]);
            }
        }
        if word_len(s) < s.len() {
            assert(s[word_len(s)] == t[word_len(t)]);
        }
    }
}

/// `index_of` lies within the sequence.
pub proof fn lemma_index_of_bounds(s: Seq<char>, c: char)
    ensures
        0 <= index_of(s, c) <= s.len(),
    decreases s.len(),
{
    if s.len() > 0 && s[0] != c {
        lemma_index_of_bounds(s.skip(1), c);
    }
}

/// The characters of a string slice, in a vector.
pub fn characters(text: &str) -> (out: Vec<char>)
    ensures
        out@ == text@,
{
    let mut out: Vec<char> = Vec::new();
    for c in it: text.chars()
        invariant
            out@ == text@.take(it.index() as int),
            it.seq() == text@,
    {
        out.push(c);
    }
    out
}

/// The string made of the given characters.
pub fn text_of(chars: &[char]) -> (out: String)
    ensures
        out@ == chars@,
{
    let mut out = String::new();
    let mut i: usize = 0;
    while i < chars.len()
        invariant
            i <= chars.len(),
            out@ == chars@.take(i as int),
        decreases chars.len() - i,
    {
        out.push(chars[i]);
        i += 1;
    }
    out
}

/// Whether `c` is white space.
pub fn is_whitespace(c: char) -> (b: bool)
    ensures
        b == is_space(c),
{
    let n: u32 = c as u32;
    (0x09 <= n && n <= 0x0D) || n == 0x20 || n == 0x85 || n == 0xA0 || n == 0x1680 || (0x2000 <= n
        && n <= 0x200A) || n == 0x2028 || n == 0x2029 || n == 0x202F || n == 0x205F || n == 0x3000
}

/// Index of the first `c` in `s` at or after `from`, or `s.len()` where there
/// is none, as there is where `from` lies beyond the end.
pub fn find_from(s: &[char], from: usize, c: char) -> (k: usize)
    ensures
        k <= s.len(),
        from <= s.len() ==> from <= k && k == from + index_of(s@.skip(from as int), c),
        from > s.len() ==> k == s.len(),
{
    if from > s.len() {
        return s.len();
    }
    let mut k: usize = from;
    while k < s.len() && s[k] != c
        invariant
            from <= k <= s.len(),
            forall|i: int| from <= i < k ==> s@[i] != c,
        decreases s.len() - k,
    {
        k += 1;
    }
    proof {
        let t = s@.skip(from as int);
        assert forall|i: int| 0 <= i < k - from implies t[i] != c by {
            assert(t[i] == s@[from + i]);
        }
        lemma_index_of(t, c, k - from);
    }
    k
}

/// The lines of a text, each a sub-slice of it.
pub fn split_lines<'a>(text: &'a [char]) -> (out: Vec<&'a [char]>)
    ensures
        slice_views(out@) == lines(text@),
{
    let mut out: Vec<&'a [char]> = Vec::new();
    let mut start: usize = 0;
    proof {
        assert(text@.skip(0) == text@);
        assert(slice_views(out@) + lines(text@) == lines(text@));
    }
    while start < text.len()
        invariant
            start <= text.len(),
            lines(text@) == slice_views(out@) + lines(text@.skip(start as int)),
        decreases text.len() - start,
    {
        let ghost rest = text@.skip(start as int);
        let feed: usize = find_from(text, start, '\n');
        let mut end: usize = feed;
        if feed < text.len() && feed > start && text[feed - 1] == '\r' {
            end = feed - 1;
        }
        let line: &'a [char] = &text[start..end];
        let next: usize = if feed < text.len() {
            feed + 1
        } else {
            feed
        };
        proof {
            let k = feed - start;
            assert(index_of(rest, '\n') == k);
            if feed < text.len() {
                let head = rest.take(k);
                assert(head == text@.subrange(start as int, feed as int));
                if k > 0 {
                    assert(head.last() == text@[feed - 1]);
                }
                assert(line@ == strip_carriage_return(head));
                assert(rest.skip(k + 1) == text@.skip(next as int));
            } else {
                assert(line@ == rest);
                assert(text@.skip(next as int) == Seq::<char>::empty());
            }
            assert(line@ == first_line(rest));
            assert(text@.skip(next as int) == after_first_line(rest));
            assert(slice_views(out@.push(line)) == slice_views(out@) + seq![line@]);
        }
        out.push(line);
        start = next;
    }
    proof {
        assert(text@.skip(start as int).len() == 0);
        assert(slice_views(out@) + Seq::<Seq<char>>::empty() == slice_views(out@));
    }
    out
}

/// The words of a line, each a sub-slice of it.
pub fn split_whitespace<'a>(line: &'a [char]) -> (out: Vec<&'a [char]>)
    ensures
        slice_views(out@) == words(line@),
{
    let mut out: Vec<&'a [char]> = Vec::new();
    let mut i: usize = 0;
    proof {
        assert(line@.skip(0) == line@);
        assert(slice_views(out@) + words(line@) == words(line@));
    }
    while i < line.len()
        invariant
            i <= line.len(),
            words(line@) == slice_views(out@) + words(line@.skip(i as int)),
        decreases line.len() - i,
    {
        let ghost rest = line@.skip(i as int);
        if is_whitespace(line[i]) {
            proof {
                assert(rest[0] == line@[i as int]);
                assert(rest.skip(1) == line@.skip(i + 1));
            }
            i += 1;
        } else {
            let mut j: usize = i + 1;
            while j < line.len() && !is_whitespace(line[j])
                invariant
                    i < j <= line.len(),
                    forall|m: int| i <= m < j ==> !is_space(line@[m]),
                decreases line.len() - j,
            {
                j += 1;
            }
            let word: &'a [char] = &line[i..j];
            proof {
                assert forall|m: int| 0 <= m < j - i implies !is_space(rest[m]) by {
                    assert(rest[m] == line@[i + m]);
                }
                if j < line.len() {
                    assert(rest[j - i] == line@[j as int]);
                }
                lemma_word_len(rest, j - i);
                assert(rest[0] == line@[i as int]);
                assert(rest.take(j - i) == word@);
                assert(rest.skip(j - i) == line@.skip(j as int));
                assert(words(rest) == seq![word@] + words(line@.skip(j as int)));
                assert(slice_views(out@.push(word)) == slice_views(out@) + seq![word@]);
            }
            out.push(word);
            i = j;
        }
    }
    proof {
        assert(line@.skip(i as int).len() == 0);
        assert(slice_views(out@) + Seq::<Seq<char>>::empty() == slice_views(out@));
    }
    out
}

/// Whether `pattern` stands somewhere in `text`.
pub fn contains_pattern(text: &[char], pattern: &[char]) -> (found: bool)
    ensures
        found == contains(text@, pattern@),
{
    if pattern.len() > text.len() {
        assert(forall|i: int| !occurs_at(text@, pattern@, i));
        return false;
    }
    let last: usize = text.len() - pattern.len();
    let mut i: usize = 0;
    while i <= last
        invariant
            last == text.len() - pattern.len(),
            i <= last + 1,
            forall|m: int| 0 <= m < i ==> !occurs_at(text@, pattern@, m),
        decreases last + 1 - i,
    {
        let mut j: usize = 0;
        while j < pattern.len() && text[i + j] == pattern[j]
            invariant
                last == text.len() - pattern.len(),
                i <= last,
                j <= pattern.len(),
                forall|m: int| 0 <= m < j ==> text@[i + m] == pattern@[m],
            decreases pattern.len() - j,
        {
            j += 1;
        }
        let ghost window = text@.subrange(i as int, i + pattern.len());
        if j == pattern.len() {
            proof {
                assert(window =~= pattern@) by {
                    assert forall|m: int| 0 <= m < pattern.len() implies window[m]
                        == pattern@[m] by {
                        assert(window[m] == text@[i + m]);
                    }
                }
                assert(occurs_at(text@, pattern@, i as int));
            }
            return true;
        }
        proof {
            assert(window[j as int] == text@[i + j]);
            assert(!occurs_at(text@, pattern@, i as int));
        }
        i += 1;
    }
    assert(forall|m: int| !occurs_at(text@, pattern@, m));
    false
}

/// `s` without the occurrences of `c` at its end, as a sub-slice of `s`.
pub fn trim_end_matches<'a>(s: &'a [char], c: char) -> (out: &'a [char])
    ensures
        out@ == trim_end(s@, c),
{
    let mut end: usize = s.len();
    assert(s@.take(end as int) == s@);
    while end > 0 && s[end - 1] == c
        invariant
            end <= s.len(),
            trim_end(s@, c) == trim_end(s@.take(end as int), c),
        decreases end,
    {
        proof {
            let t = s@.take(end as int);
            assert(t.last() == s@[end - 1]);
            assert(t.drop_last() == s@.take(end - 1));
        }
        end -= 1;
    }
    proof {
        let t = s@.take(end as int);
        if end > 0 {
            assert(t.last() == s@[end - 1]);
        }
        assert(s@.subrange(0, end as int) == t);
    }
    &s[0..end]
}

/// Whether two slices hold the same characters.
pub fn same_text(a: &[char], b: &[char]) -> (same: bool)
    ensures
        same == (a@ == b@),
{
    if a.len() != b.len() {
        return false;
    }
    let mut i: usize = 0;
    while i < a.len()
        invariant
            a.len() == b.len(),
            i <= a.len(),
            forall|m: int| 0 <= m < i ==> a@[m] == b@[m],
        decreases a.len() - i,
    {
        if a[i] != b[i] {
            return false;
        }
        i += 1;
    }
    assert(a@ =~= b@);
    true
}

} // verus!
