use vstd::prelude::*;

verus! {

/// `needle` occurs in `hay` as a contiguous run of characters.
pub open spec fn contains_text(hay: Seq<char>, needle: Seq<char>) -> bool {
    exists|i: int|
        0 <= i && i + needle.len() <= hay.len() && #[trigger] hay.subrange(i, i + needle.len())
            == needle
}

/// `hay` ends with `suffix`.
pub open spec fn ends_with_text(hay: Seq<char>, suffix: Seq<char>) -> bool {
    suffix.len() <= hay.len() && hay.subrange(hay.len() - suffix.len(), hay.len() as int)
        == suffix
}

/// Whether `needle` matches `hay` starting at position `start`.
fn matches_at(hay: &str, hay_len: usize, needle: &str, needle_len: usize, start: usize) -> (r:
    bool)
    requires
        hay_len == hay@.len(),
        needle_len == needle@.len(),
        start + needle_len <= hay_len,
    ensures
        r == (hay@.subrange(start as int, start + needle_len) == needle@),
{
    let mut j: usize = 0;
    while j < needle_len
        invariant
            hay_len == hay@.len(),
            needle_len == needle@.len(),
            start + needle_len <= hay_len,
            j <= needle_len,
            forall|k: int| 0 <= k < j ==> hay@[start + k] == needle@[k],
        decreases needle_len - j,
    {
        if hay.get_char(start + j) != needle.get_char(j) {
            assert(hay@.subrange(start as int, start + needle_len)[j as int] != needle@[j as int]);
            return false;
        }
        j = j + 1;
    }
    assert(hay@.subrange(start as int, start + needle_len) =~= needle@);
    true
}

/// Tells whether `needle` occurs in `hay`; the empty needle occurs everywhere.
pub fn contains_str(hay: &str, needle: &str) -> (r: bool)
    ensures
        r == contains_text(hay@, needle@),
{
    let hay_len = hay.unicode_len();
    let needle_len = needle.unicode_len();
    if needle_len > hay_len {
        return false;
    }
    let last = hay_len - needle_len;
    let mut i: usize = 0;
    while i < last
        invariant
            hay_len == hay@.len(),
            needle_len == needle@.len(),
            last == hay_len - needle_len,
            i <= last,
            forall|k: int|
                0 <= k < i ==> #[trigger] hay@.subrange(k, k + needle_len) != needle@,
        decreases last - i,
    {
        if matches_at(hay, hay_len, needle, needle_len, i) {
            return true;
        }
        i = i + 1;
    }
    if matches_at(hay, hay_len, needle, needle_len, last) {
        return true;
    }
    proof {
        assert forall|k: int|
            0 <= k && k + needle@.len() <= hay@.len() implies #[trigger] hay@.subrange(
            k,
            k + needle@.len(),
        ) != needle@ by {
            assert(0 <= k <= last);
        }
    }
    false
}

/// Tells whether `hay` ends with `suffix`.
pub fn ends_with_str(hay: &str, suffix: &str) -> (r: bool)
    ensures
        r == ends_with_text(hay@, suffix@),
{
    let hay_len = hay.unicode_len();
    let suffix_len = suffix.unicode_len();
    if suffix_len > hay_len {
        return false;
    }
    matches_at(hay, hay_len, suffix, suffix_len, hay_len - suffix_len)
}

} // verus!

verus! {

/// Tells whether two texts are the same.
pub fn same_str(a: &str, b: &str) -> (r: bool)
    ensures
        r == (a@ == b@),
{
    let a_len = a.unicode_len();
    let b_len = b.unicode_len();
    if a_len != b_len {
        return false;
    }
    let r = matches_at(a, a_len, b, b_len, 0);
    assert(a@.subrange(0, a_len as int) =~= a@);
    r
}

/// The character is whitespace in Unicode's sense (the `White_Space`
/// property, which `char::is_whitespace` follows).
pub open spec fn is_space(c: char) -> bool {
    let u = c as u32;
    (0x9 <= u && u <= 0xD) || u == 0x20 || u == 0x85 || u == 0xA0 || u == 0x1680 || (0x2000 <= u
        && u <= 0x200A) || u == 0x2028 || u == 0x2029 || u == 0x202F || u == 0x205F || u == 0x3000
}

/// `[w]` where `w` is not empty, else nothing.
pub open spec fn word_if_any(w: Seq<char>) -> Seq<Seq<char>> {
    if w.len() > 0 {
        seq![w]
    } else {
        Seq::empty()
    }
}

/// The words of `s`, the word in progress being `cur`: the maximal runs of
/// characters that are not whitespace, in order.
pub open spec fn words_from(s: Seq<char>, cur: Seq<char>) -> Seq<Seq<char>>
    decreases s.len(),
{
    if s.len() == 0 {
        word_if_any(cur)
    } else if is_space(s[0]) {
        word_if_any(cur) + words_from(s.drop_first(), Seq::empty())
    } else {
        words_from(s.drop_first(), cur.push(s[0]))
    }
}

/// The whitespace-separated words of a text.
pub open spec fn words_of(s: Seq<char>) -> Seq<Seq<char>> {
    words_from(s, Seq::empty())
}

/// Tells whether `c` is whitespace.
pub fn is_space_char(c: char) -> (r: bool)
    ensures
        r == is_space(c),
{
    let u = c as u32;
    (0x9 <= u && u <= 0xD) || u == 0x20 || u == 0x85 || u == 0xA0 || u == 0x1680 || (0x2000 <= u
        && u <= 0x200A) || u == 0x2028 || u == 0x2029 || u == 0x202F || u == 0x205F || u == 0x3000
}

/// The texts of a sequence of strings.
pub open spec fn texts(s: Seq<String>) -> Seq<Seq<char>> {
    s.map_values(|x: String| x@)
}

/// Splits a text into its whitespace-separated words, in order.
pub fn split_words(s: &str) -> (r: Vec<String>)
    ensures
        texts(r@) == words_of(s@),
{
    let n = s.unicode_len();
    let mut words: Vec<String> = Vec::new();
    let mut cur = String::new();
    let mut i: usize = 0;
    assert(texts(words@) =~= Seq::<Seq<char>>::empty());
    assert(s@.subrange(0, n as int) =~= s@);
    assert(cur@ =~= Seq::<char>::empty());
    while i < n
        invariant
            n == s@.len(),
            i <= n,
            texts(words@) + words_from(s@.subrange(i as int, n as int), cur@) == words_of(s@),
        decreases n - i,
    {
        let ghost rest = s@.subrange(i as int, n as int);
        assert(rest.drop_first() =~= s@.subrange(i + 1, n as int));
        let ghost before = words@;
        let ghost cur_before = cur@;
        let c = s.get_char(i);
        if is_space_char(c) {
            if cur.unicode_len() > 0 {
                words.push(cur);
                assert(texts(words@) =~= texts(before) + word_if_any(cur_before));
            } else {
                assert(texts(words@) =~= texts(before) + word_if_any(cur_before));
            }
            cur = String::new();
            assert(texts(before) + (word_if_any(cur_before) + words_from(s@.subrange(i + 1, n as int), Seq::empty()))
                =~= texts(words@) + words_from(s@.subrange(i + 1, n as int), cur@));
        } else {
            cur.append(s.substring_char(i, i + 1));
            assert(cur@ =~= cur_before.push(rest[0]));
        }
        i = i + 1;
    }
    let ghost before = words@;
    let ghost cur_before = cur@;
    if cur.unicode_len() > 0 {
        words.push(cur);
    }
    assert(texts(words@) =~= texts(before) + word_if_any(cur_before));
    assert(s@.subrange(n as int, n as int) =~= Seq::<char>::empty());
    assert(texts(words@) =~= texts(before) + words_from(Seq::<char>::empty(), cur_before));
    words
}

/// The code of a character with ASCII case folded: `A`..`Z` become `a`..`z`.
pub open spec fn fold_code(c: char) -> u32 {
    let u = c as u32;
    if 65 <= u && u <= 90 {
        (u + 32) as u32
    } else {
        u
    }
}

/// The codes of a text with ASCII case folded.
pub open spec fn fold_codes(s: Seq<char>) -> Seq<u32> {
    s.map_values(|c: char| fold_code(c))
}

/// `needle` occurs in `hay` as a contiguous run, ASCII letters compared
/// without regard to case.
pub open spec fn contains_folded(hay: Seq<char>, needle: Seq<char>) -> bool {
    exists|i: int|
        0 <= i && i + needle.len() <= hay.len() && #[trigger] fold_codes(hay).subrange(
            i,
            i + needle.len(),
        ) == fold_codes(needle)
}

fn fold_char_code(c: char) -> (r: u32)
    ensures
        r == fold_code(c),
{
    let u = c as u32;
    if 65 <= u && u <= 90 {
        u + 32
    } else {
        u
    }
}

/// Whether `needle` matches `hay` at `start`, ASCII case folded.
fn matches_folded_at(hay: &str, hay_len: usize, needle: &str, needle_len: usize, start: usize) -> (r:
    bool)
    requires
        hay_len == hay@.len(),
        needle_len == needle@.len(),
        start + needle_len <= hay_len,
    ensures
        r == (fold_codes(hay@).subrange(start as int, start + needle_len) == fold_codes(needle@)),
{
    let mut j: usize = 0;
    while j < needle_len
        invariant
            hay_len == hay@.len(),
            needle_len == needle@.len(),
            start + needle_len <= hay_len,
            j <= needle_len,
            forall|k: int| 0 <= k < j ==> fold_code(hay@[start + k]) == fold_code(needle@[k]),
        decreases needle_len - j,
    {
        if fold_char_code(hay.get_char(start + j)) != fold_char_code(needle.get_char(j)) {
            assert(fold_codes(hay@).subrange(start as int, start + needle_len)[j as int]
                != fold_codes(needle@)[j as int]);
            return false;
        }
        j = j + 1;
    }
    assert(fold_codes(hay@).subrange(start as int, start + needle_len) =~= fold_codes(needle@));
    true
}

/// Tells whether `needle` occurs in `hay`, ASCII letters compared without
/// regard to case; the empty needle occurs everywhere.
pub fn contains_folded_str(hay: &str, needle: &str) -> (r: bool)
    ensures
        r == contains_folded(hay@, needle@),
{
    let hay_len = hay.unicode_len();
    let needle_len = needle.unicode_len();
    if needle_len > hay_len {
        return false;
    }
    let last = hay_len - needle_len;
    let mut i: usize = 0;
    while i < last
        invariant
            hay_len == hay@.len(),
            needle_len == needle@.len(),
            last == hay_len - needle_len,
            i <= last,
            forall|k: int|
                0 <= k < i ==> #[trigger] fold_codes(hay@).subrange(k, k + needle_len)
                    != fold_codes(needle@),
        decreases last - i,
    {
        if matches_folded_at(hay, hay_len, needle, needle_len, i) {
            return true;
        }
        i = i + 1;
    }
    if matches_folded_at(hay, hay_len, needle, needle_len, last) {
        return true;
    }
    proof {
        assert forall|k: int|
            0 <= k && k + needle@.len() <= hay@.len() implies #[trigger] fold_codes(hay@).subrange(
            k,
            k + needle@.len(),
        ) != fold_codes(needle@) by {
            assert(0 <= k <= last);
        }
    }
    false
}

} // verus!
