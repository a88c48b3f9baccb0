use vstd::prelude::*;
use vstd::string::StrSliceExecFns;
use vstd::string::StringExecFns;

verus! {

/// Whether a character is white space: one of the 25 characters that
/// Unicode marks as `White_Space`.
pub open spec fn is_space(c: char) -> bool {
    let u = c as u32;
    ||| 0x09 <= u <= 0x0D
    ||| u == 0x20
    ||| u == 0x85
    ||| u == 0xA0
    ||| u == 0x1680
    ||| 0x2000 <= u <= 0x200A
    ||| u == 0x2028
    ||| u == 0x2029
    ||| u == 0x202F
    ||| u == 0x205F
    ||| u == 0x3000
}

/// Tells whether a character is white space.
pub fn is_whitespace(c: char) -> (r: bool)
    ensures
        r == is_space(c),
{
    let u: u32 = c as u32;
    (0x09 <= u && u <= 0x0D) || u == 0x20 || u == 0x85 || u == 0xA0 || u == 0x1680 || (0x2000 <= u
        && u <= 0x200A) || u == 0x2028 || u == 0x2029 || u == 0x202F || u == 0x205F || u == 0x3000
}

/// Whether two texts hold the same characters.
pub fn str_eq(a: &str, b: &str) -> (r: bool)
    ensures
        r == (a@ == b@),
{
    let n = a.unicode_len();
    if n != b.unicode_len() {
        return false;
    }
    let mut i: usize = 0;
    while i < n
        invariant
            i <= n,
            n == a@.len(),
            n == b@.len(),
            a@.take(i as int) == b@.take(i as int),
        decreases n - i,
    {
        if a.get_char(i) != b.get_char(i) {
            return false;
        }
        assert(a@.take(i + 1) == a@.take(i as int).push(a@[i as int]));
        assert(b@.take(i + 1) == b@.take(i as int).push(b@[i as int]));
        i += 1;
    }
    assert(a@ == a@.take(n as int));
    assert(b@ == b@.take(n as int));
    true
}

/// The texts of a sequence of strings.
pub open spec fn texts(strings: Seq<String>) -> Seq<Seq<char>> {
    Seq::new(strings.len(), |i: int| strings[i]@)
}

/// Where the word that starts at `start` ends: the first place from `start`
/// on that holds white space, or the end of the text.
pub open spec fn word_end(s: Seq<char>, start: int) -> int
    decreases s.len() - start,
{
    if start < 0 || start >= s.len() || is_space(s[start]) {
        start
    } else {
        word_end(s, start + 1)
    }
}

/// A word ends at or behind the place where it starts, holds no white
/// space, and is followed by white space or by the end of the text.
pub proof fn lemma_word_end(s: Seq<char>, start: int)
    requires
        0 <= start <= s.len(),
    ensures
        start <= word_end(s, start) <= s.len(),
        start < s.len() && !is_space(s[start]) ==> start < word_end(s, start),
        forall|k: int| start <= k < word_end(s, start) ==> !is_space(#[trigger] s[k]),
        word_end(s, start) < s.len() ==> is_space(s[word_end(s, start)]),
    decreases s.len() - start,
{
    if start < s.len() && !is_space(s[start]) {
        lemma_word_end(s, start + 1);
    }
}

/// The words of a text from `start` on: its longest runs of characters that
/// are not white space, in their order.
pub open spec fn tokens_from(s: Seq<char>, start: int) -> Seq<Seq<char>>
    decreases s.len() - start,
{
    if start < 0 || start >= s.len() {
        Seq::empty()
    } else if is_space(s[start]) {
        tokens_from(s, start + 1)
    } else {
        proof {
            lemma_word_end(s, start);
        }
        seq![s.subrange(start, word_end(s, start))] + tokens_from(s, word_end(s, start))
    }
}

/// The words of a text.
pub open spec fn tokens(s: Seq<char>) -> Seq<Seq<char>> {
    tokens_from(s, 0)
}

/// Whether a text is one word: it holds a character at least, and no white
/// space.
pub open spec fn is_one_word(word: Seq<char>) -> bool {
    word.len() > 0 && forall|k: int| 0 <= k < word.len() ==> !is_space(#[trigger] word[k])
}

/// Every word of a text is one word.
pub proof fn lemma_tokens_are_words(s: Seq<char>, start: int)
    requires
        0 <= start <= s.len(),
    ensures
        forall|i: int|
            0 <= i < tokens_from(s, start).len() ==> is_one_word(
                #[trigger] tokens_from(s, start)[i],
            ),
    decreases s.len() - start,
{
    if start < s.len() {
        if is_space(s[start]) {
            lemma_tokens_are_words(s, start + 1);
            assert(tokens_from(s, start) == tokens_from(s, start + 1));
        } else {
            lemma_word_end(s, start);
            let end = word_end(s, start);
            lemma_tokens_are_words(s, end);
            assert(tokens_from(s, start) == seq![s.subrange(start, end)] + tokens_from(s, end));
            let first = s.subrange(start, end);
            let rest = tokens_from(s, end);
            assert forall|i: int| 0 <= i < tokens_from(s, start).len() implies is_one_word(
                #[trigger] tokens_from(s, start)[i],
            ) by {
                if i == 0 {
                    assert(tokens_from(s, start)[0] == first);
                    assert forall|k: int| 0 <= k < first.len() implies !is_space(
                        #[trigger] first[k],
                    ) by {
                        assert(first[k] == s[start + k]);
                    }
                } else {
                    assert(tokens_from(s, start)[i] == rest[i - 1]);
                }
            }
        }
    } else {
        assert(tokens_from(s, start).len() == 0);
    }
}

/// A text has no word exactly where it holds nothing but white space. Its
/// first word, where it has one, starts behind the white space at the start
/// of the text.
pub proof fn lemma_first_word(s: Seq<char>)
    ensures
        tokens(s).len() == 0 <==> spaces_end(s, 0) == s.len(),
        tokens(s).len() > 0 ==> tokens(s)[0] == s.subrange(
            spaces_end(s, 0),
            word_end(s, spaces_end(s, 0)),
        ),
{
    lemma_tokens_skip_spaces(s, 0);
    lemma_spaces_end(s, 0);
    let start = spaces_end(s, 0);
    if start < s.len() {
        lemma_word_end(s, start);
    }
}

/// The words from a place on are the words from the end of the white space
/// that starts there.
proof fn lemma_tokens_skip_spaces(s: Seq<char>, start: int)
    requires
        0 <= start <= s.len(),
    ensures
        tokens_from(s, start) == tokens_from(s, spaces_end(s, start)),
    decreases s.len() - start,
{
    if start < s.len() && is_space(s[start]) {
        lemma_tokens_skip_spaces(s, start + 1);
    }
}

/// Splits a text into its words.
pub fn split_whitespace(s: &str) -> (r: Vec<String>)
    ensures
        texts(r@) == tokens(s@),
{
    let n = s.unicode_len();
    let mut out: Vec<String> = Vec::new();
    let mut i: usize = 0;
    assert(texts(out@) =~= Seq::empty());
    while i < n
        invariant
            i <= n,
            n == s@.len(),
            texts(out@) + tokens_from(s@, i as int) == tokens(s@),
        decreases n - i,
    {
        if is_whitespace(s.get_char(i)) {
            i += 1;
        } else {
            let end = find_word_end(s, i, n);
            let word = String::from_str(s.substring_char(i, end));
            proof {
                lemma_word_end(s@, i as int);
                let before = texts(out@);
                let after = texts(out@.push(word));
                assert(after =~= before.push(word@));
                assert(before.push(word@) + tokens_from(s@, end as int) =~= before + (seq![word@]
                    + tokens_from(s@, end as int)));
            }
            out.push(word);
            i = end;
        }
    }
    assert(texts(out@) + Seq::<Seq<char>>::empty() =~= texts(out@));
    out
}

fn find_word_end(s: &str, start: usize, n: usize) -> (r: usize)
    requires
        start < n,
        n == s@.len(),
        !is_space(s@[start as int]),
    ensures
        r == word_end(s@, start as int),
        start < r <= n,
{
    let mut j: usize = start + 1;
    while j < n && !is_whitespace(s.get_char(j))
        invariant
            start < j <= n,
            n == s@.len(),
            word_end(s@, start as int) == word_end(s@, j as int),
        decreases n - j,
    {
        j += 1;
    }
    j
}

/// Where the white space that starts at `start` ends: the first place from
/// `start` on that holds no white space, or the end of the text.
pub open spec fn spaces_end(s: Seq<char>, start: int) -> int
    decreases s.len() - start,
{
    if start < 0 || start >= s.len() || !is_space(s[start]) {
        start
    } else {
        spaces_end(s, start + 1)
    }
}

/// Where the text before `end` ends once the white space at its end is left
/// out.
pub open spec fn content_end(s: Seq<char>, end: int) -> int
    decreases end,
{
    if end <= 0 || end > s.len() || !is_space(s[end - 1]) {
        end
    } else {
        content_end(s, end - 1)
    }
}

/// A text without the white space at its two ends.
pub open spec fn trimmed(s: Seq<char>) -> Seq<char> {
    let from = spaces_end(s, 0);
    let to = content_end(s, s.len() as int);
    if from < to {
        s.subrange(from, to)
    } else {
        Seq::empty()
    }
}

/// A run of white space ends at or behind the place where it starts, holds
/// nothing but white space, and is followed by another character or by the
/// end of the text.
pub proof fn lemma_spaces_end(s: Seq<char>, start: int)
    requires
        0 <= start <= s.len(),
    ensures
        start <= spaces_end(s, start) <= s.len(),
        forall|k: int| start <= k < spaces_end(s, start) ==> is_space(#[trigger] s[k]),
        spaces_end(s, start) < s.len() ==> !is_space(s[spaces_end(s, start)]),
    decreases s.len() - start,
{
    if start < s.len() && is_space(s[start]) {
        lemma_spaces_end(s, start + 1);
    }
}

fn find_spaces_end(s: &str, start: usize, n: usize) -> (r: usize)
    requires
        start <= n,
        n == s@.len(),
    ensures
        r == spaces_end(s@, start as int),
        start <= r <= n,
{
    let mut j: usize = start;
    while j < n && is_whitespace(s.get_char(j))
        invariant
            start <= j <= n,
            n == s@.len(),
            spaces_end(s@, start as int) == spaces_end(s@, j as int),
        decreases n - j,
    {
        j += 1;
    }
    j
}

fn find_content_end(s: &str, n: usize) -> (r: usize)
    requires
        n == s@.len(),
    ensures
        r == content_end(s@, n as int),
        r <= n,
{
    let mut j: usize = n;
    while j > 0 && is_whitespace(s.get_char(j - 1))
        invariant
            j <= n,
            n == s@.len(),
            content_end(s@, n as int) == content_end(s@, j as int),
        decreases j,
    {
        j -= 1;
    }
    j
}

/// Removes the white space at the two ends of a text.
pub fn trim(s: &str) -> (r: String)
    ensures
        r@ == trimmed(s@),
{
    let n = s.unicode_len();
    let from = find_spaces_end(s, 0, n);
    let to = find_content_end(s, n);
    if from < to {
        String::from_str(s.substring_char(from, to))
    } else {
        String::new()
    }
}

/// What follows the first word of a text, without the white space at its
/// two ends.
pub open spec fn after_first_word(s: Seq<char>) -> Seq<char> {
    trimmed(s.subrange(word_end(s, spaces_end(s, 0)), s.len() as int))
}

/// Gives what follows the first word of a text, trimmed.
pub fn rest_of_line(s: &str) -> (r: String)
    ensures
        r@ == after_first_word(s@),
{
    let n = s.unicode_len();
    let start = find_spaces_end(s, 0, n);
    let end = if start < n {
        proof {
            lemma_spaces_end(s@, 0);
        }
        find_word_end(s, start, n)
    } else {
        start
    };
    trim(s.substring_char(end, n))
}

} // verus!
