use vstd::prelude::*;
use vstd::string::*;

verus! {

/// Whether a character has the Unicode property White_Space: the controls
/// from tab to carriage return, the space, next line, the no-break space, the
/// ogham space mark, the spaces from en quad to hair space, the line and
/// paragraph separators, the narrow no-break space, the medium mathematical
/// space and the ideographic space.
pub open spec fn white_space(c: char) -> bool {
    let code = c as u32;
    ||| 0x09 <= code <= 0x0d
    ||| code == 0x20
    ||| code == 0x85
    ||| code == 0xa0
    ||| code == 0x1680
    ||| 0x2000 <= code <= 0x200a
    ||| code == 0x2028
    ||| code == 0x2029
    ||| code == 0x202f
    ||| code == 0x205f
    ||| code == 0x3000
}

/// `char::is_whitespace`: tells whether the character has the Unicode
/// property White_Space, which `white_space` lists. Nothing is proved of it.
#[verifier::external_body]
fn is_whitespace(c: char) -> (b: bool)
    ensures
        b == white_space(c),
{
    c.is_whitespace()
}

/// `String::push`: appends one character at the end of the text.
#[verifier::external_body]
pub(crate) fn push_char(text: &mut String, c: char)
    ensures
        final(text)@ == old(text)@.push(c),
{
    text.push(c)
}

/// `String::pop`: removes the last character and returns it; an empty text
/// stays empty and nothing is returned.
#[verifier::external_body]
pub(crate) fn pop_char(text: &mut String) -> (c: Option<char>)
    ensures
        old(text)@.len() == 0 ==> c is None && final(text)@ == old(text)@,
        old(text)@.len() > 0 ==> c == Some(old(text)@.last()) && final(text)@ == old(text)@.drop_last(),
{
    text.pop()
}

/// The text without its leading white space.
pub open spec fn trimmed_start(text: Seq<char>) -> Seq<char>
    decreases text.len(),
{
    if text.len() > 0 && white_space(text[0]) {
        trimmed_start(text.drop_first())
    } else {
        text
    }
}

/// The text without its trailing white space.
pub open spec fn trimmed_end(text: Seq<char>) -> Seq<char>
    decreases text.len(),
{
    if text.len() > 0 && white_space(text.last()) {
        trimmed_end(text.drop_last())
    } else {
        text
    }
}

/// The text without leading and trailing white space.
pub open spec fn trimmed(text: Seq<char>) -> Seq<char> {
    trimmed_end(trimmed_start(text))
}

proof fn lemma_trimmed_start_skip(text: Seq<char>, i: int)
    requires
        0 <= i <= text.len(),
        forall|k: int| 0 <= k < i ==> white_space(#[trigger] text[k]),
    ensures
        trimmed_start(text) == trimmed_start(text.subrange(i, text.len() as int)),
    decreases i,
{
    if i == 0 {
        assert(text.subrange(0, text.len() as int) =~= text);
    } else {
        let rest = text.drop_first();
        assert forall|k: int| 0 <= k < i - 1 implies white_space(#[trigger] rest[k]) by {
            assert(rest[k] == text[k + 1]);
        }
        lemma_trimmed_start_skip(rest, i - 1);
        assert(rest.subrange(i - 1, rest.len() as int) =~= text.subrange(i, text.len() as int));
    }
}

proof fn lemma_trimmed_end_skip(text: Seq<char>, j: int)
    requires
        0 <= j <= text.len(),
        forall|k: int| j <= k < text.len() ==> white_space(#[trigger] text[k]),
    ensures
        trimmed_end(text) == trimmed_end(text.subrange(0, j)),
    decreases text.len() - j,
{
    if j == text.len() {
        assert(text.subrange(0, j) =~= text);
    } else {
        let rest = text.drop_last();
        lemma_trimmed_end_skip(rest, j);
        assert(rest.subrange(0, j) =~= text.subrange(0, j));
    }
}

/// Removes leading and trailing white space.
pub fn trim(text: &str) -> (out: String)
    ensures
        out@ == trimmed(text@),
{
    let n = text.unicode_len();
    let mut start: usize = 0;
    while start < n && is_whitespace(text.get_char(start))
        invariant
            start <= n,
            n == text@.len(),
            forall|k: int| 0 <= k < start ==> white_space(#[trigger] text@[k]),
        decreases n - start,
    {
        start = start + 1;
    }
    let ghost middle = text@.subrange(start as int, n as int);
    proof {
        lemma_trimmed_start_skip(text@, start as int);
        assert(trimmed_start(middle) == middle) by {
            if middle.len() > 0 {
                assert(middle[0] == text@[start as int]);
            }
        }
    }
    let mut end: usize = n;
    while end > start && is_whitespace(text.get_char(end - 1))
        invariant
            start <= end <= n,
            n == text@.len(),
            forall|k: int| end <= k < n ==> white_space(#[trigger] text@[k]),
        decreases end,
    {
        end = end - 1;
    }
    proof {
        assert forall|k: int| end - start <= k < middle.len() implies white_space(
            #[trigger] middle[k],
        ) by {
            assert(middle[k] == text@[k + start]);
        }
        lemma_trimmed_end_skip(middle, end - start);
        let kept = middle.subrange(0, end - start);
        assert(kept =~= text@.subrange(start as int, end as int));
        assert(trimmed_end(kept) == kept) by {
            if kept.len() > 0 {
                assert(kept.last() == text@[end - 1]);
            }
        }
    }
    text.substring_char(start, end).to_owned()
}

/// The parts written one after another.
pub open spec fn concatenated(parts: Seq<Seq<char>>) -> Seq<char>
    decreases parts.len(),
{
    if parts.len() == 0 {
        Seq::empty()
    } else {
        concatenated(parts.drop_last()) + parts.last()
    }
}

/// Writes the parts one after another into one text.
pub fn concat_texts(parts: &Vec<String>) -> (out: String)
    ensures
        out@ == concatenated(parts.deep_view()),
{
    let mut out = String::new();
    let mut i: usize = 0;
    while i < parts.len()
        invariant
            i <= parts.len(),
            out@ == concatenated(parts.deep_view().take(i as int)),
        decreases parts.len() - i,
    {
        out.append(parts[i].as_str());
        proof {
            let all = parts.deep_view();
            assert(all.take(i + 1).drop_last() =~= all.take(i as int));
            assert(all.take(i + 1).last() == parts[i as int]@);
        }
        i = i + 1;
    }
    proof {
        assert(parts.deep_view().take(i as int) =~= parts.deep_view());
    }
    out
}

/// Where the first word of the text ends: the place of its first space, or
/// its length where it holds none.
pub open spec fn word_end(text: Seq<char>) -> int
    decreases text.len(),
{
    if text.len() == 0 || text[0] == ' ' {
        0
    } else {
        1 + word_end(text.drop_first())
    }
}

/// The text up to its first space.
pub open spec fn first_word(text: Seq<char>) -> Seq<char> {
    text.subrange(0, word_end(text))
}

/// The text behind its first space; nothing where it holds no space.
pub open spec fn after_first_word(text: Seq<char>) -> Seq<char> {
    if word_end(text) < text.len() {
        text.subrange(word_end(text) + 1, text.len() as int)
    } else {
        Seq::empty()
    }
}

/// The text with every space taken out.
pub open spec fn without_spaces(text: Seq<char>) -> Seq<char>
    decreases text.len(),
{
    if text.len() == 0 {
        Seq::empty()
    } else if text.last() == ' ' {
        without_spaces(text.drop_last())
    } else {
        without_spaces(text.drop_last()).push(text.last())
    }
}

/// `word_end` is the least place that holds a space, or the length.
pub proof fn lemma_word_end(text: Seq<char>, i: int)
    requires
        0 <= i <= text.len(),
        forall|k: int| 0 <= k < i ==> #[trigger] text[k] != ' ',
        i == text.len() || text[i] == ' ',
    ensures
        word_end(text) == i,
    decreases i,
{
    if i > 0 {
        let rest = text.drop_first();
        assert forall|k: int| 0 <= k < i - 1 implies #[trigger] rest[k] != ' ' by {
            assert(rest[k] == text[k + 1]);
        }
        if i < text.len() {
            assert(rest[i - 1] == text[i]);
        }
        lemma_word_end(rest, i - 1);
    }
}

/// The number of characters before the first space.
fn find_word_end(text: &str) -> (end: usize)
    ensures
        end == word_end(text@),
        end <= text@.len(),
{
    let n = text.unicode_len();
    let mut end: usize = 0;
    while end < n && text.get_char(end) != ' '
        invariant
            end <= n,
            n == text@.len(),
            forall|k: int| 0 <= k < end ==> #[trigger] text@[k] != ' ',
        decreases n - end,
    {
        end = end + 1;
    }
    proof {
        lemma_word_end(text@, end as int);
    }
    end
}

/// The first word of the text: what stands before its first space.
pub fn leading_word(text: &str) -> (out: String)
    ensures
        out@ == first_word(text@),
{
    let end = find_word_end(text);
    text.substring_char(0, end).to_owned()
}

/// What follows the first space of the text.
pub fn rest_after_word(text: &str) -> (out: String)
    ensures
        out@ == after_first_word(text@),
{
    let n = text.unicode_len();
    let end = find_word_end(text);
    if end < n {
        text.substring_char(end + 1, n).to_owned()
    } else {
        String::new()
    }
}

/// The text with its spaces removed.
pub fn remove_spaces(text: &str) -> (out: String)
    ensures
        out@ == without_spaces(text@),
{
    let n = text.unicode_len();
    let mut out = String::new();
    let mut i: usize = 0;
    while i < n
        invariant
            i <= n,
            n == text@.len(),
            out@ == without_spaces(text@.take(i as int)),
        decreases n - i,
    {
        let c = text.get_char(i);
        proof {
            assert(text@.take(i + 1).drop_last() =~= text@.take(i as int));
            assert(text@.take(i + 1).last() == c);
        }
        if c != ' ' {
            push_char(&mut out, c);
        }
        i = i + 1;
    }
    proof {
        assert(text@.take(i as int) =~= text@);
    }
    out
}

/// A copy of a list of texts.
pub fn copy_texts(texts: &Vec<String>) -> (out: Vec<String>)
    ensures
        out.deep_view() == texts.deep_view(),
{
    let mut out: Vec<String> = Vec::new();
    let mut i: usize = 0;
    while i < texts.len()
        invariant
            i <= texts.len(),
            out.len() == i,
            forall|k: int| 0 <= k < i ==> out[k]@ == texts[k]@,
        decreases texts.len() - i,
    {
        out.push(texts[i].clone());
        i = i + 1;
    }
    assert(out.deep_view() =~= texts.deep_view());
    out
}

/// A copy of a table of texts.
pub fn copy_rows(rows: &Vec<Vec<String>>) -> (out: Vec<Vec<String>>)
    ensures
        out.deep_view() == rows.deep_view(),
{
    let mut out: Vec<Vec<String>> = Vec::new();
    let mut i: usize = 0;
    while i < rows.len()
        invariant
            i <= rows.len(),
            out.len() == i,
            forall|k: int| 0 <= k < i ==> out[k].deep_view() == rows[k].deep_view(),
        decreases rows.len() - i,
    {
        out.push(copy_texts(&rows[i]));
        i = i + 1;
    }
    assert(out.deep_view() =~= rows.deep_view());
    out
}

/// A word without spaces, a space and a body: the first word of the whole is
/// the word, and what follows it is the body. A word alone is followed by
/// nothing.
pub proof fn lemma_word_and_body(word: Seq<char>, body: Seq<char>)
    requires
        forall|k: int| 0 <= k < word.len() ==> #[trigger] word[k] != ' ',
    ensures
        first_word(word + seq![' '] + body) == word,
        after_first_word(word + seq![' '] + body) == body,
        first_word(word) == word,
        after_first_word(word) == Seq::<char>::empty(),
{
    let whole = word + seq![' '] + body;
    assert forall|k: int| 0 <= k < word.len() implies #[trigger] whole[k] != ' ' by {
        assert(whole[k] == word[k]);
    }
    assert(whole[word.len() as int] == ' ');
    lemma_word_end(whole, word.len() as int);
    lemma_word_end(word, word.len() as int);
    assert(whole.subrange(0, word.len() as int) =~= word);
    assert(whole.subrange(word.len() as int + 1, whole.len() as int) =~= body);
    assert(word.subrange(0, word.len() as int) =~= word);
}

/// Taking the spaces out of a text that holds none changes nothing.
pub proof fn lemma_no_spaces_to_remove(text: Seq<char>)
    requires
        forall|k: int| 0 <= k < text.len() ==> #[trigger] text[k] != ' ',
    ensures
        without_spaces(text) == text,
    decreases text.len(),
{
    if text.len() > 0 {
        let head = text.drop_last();
        assert forall|k: int| 0 <= k < head.len() implies #[trigger] head[k] != ' ' by {
            assert(head[k] == text[k]);
        }
        lemma_no_spaces_to_remove(head);
        assert(head.push(text.last()) =~= text);
    }
}

} // verus!
