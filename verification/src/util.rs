use vstd::prelude::*;
use vstd::string::StrSliceExecFns;

verus! {

/// The characters that separate the words of a nickname: those that Unicode
/// lists as White_Space.
pub open spec fn is_whitespace(c: char) -> bool {
    let u = c as u32;
    ||| 0x09 <= u <= 0x0D
    ||| u == 0x20
    ||| u == 0x85
    ||| u == 0xA0
    ||| u == 0x1680
    ||| 0x2000 <= u <= 0x200A
    ||| u == 0x2028
    ||| u == 0x2029
    ||| u == 0x202F
    ||| u == 0x205F
    ||| u == 0x3000
}

/// An ASCII capital letter.
pub open spec fn is_upper(c: char) -> bool {
    'A' <= c <= 'Z'
}

/// An ASCII digit.
pub open spec fn is_digit(c: char) -> bool {
    '0' <= c <= '9'
}

/// A word that can be a callsign: more than two characters, each an ASCII
/// capital letter or digit, the last one a letter.
pub open spec fn is_callsign(word: Seq<char>) -> bool {
    &&& word.len() > 2
    &&& forall|i: int| 0 <= i < word.len() ==> is_upper(#[trigger] word[i]) || is_digit(word[i])
    &&& is_upper(word.last())
}

/// `text[start..end]` is a word: a longest run of characters that are not
/// whitespace.
pub open spec fn is_word(text: Seq<char>, start: int, end: int) -> bool {
    &&& 0 <= start < end <= text.len()
    &&& forall|i: int| start <= i < end ==> !is_whitespace(#[trigger] text[i])
    &&& (start == 0 || is_whitespace(text[start - 1]))
    &&& (end == text.len() || is_whitespace(text[end]))
}

/// `text[start..end]` is a word that can be a callsign.
pub open spec fn is_callsign_at(text: Seq<char>, start: int, end: int) -> bool {
    is_word(text, start, end) && is_callsign(text.subrange(start, end))
}

/// `text[start..end]` is the first word of `text` that can be a callsign.
pub open spec fn is_first_callsign_at(text: Seq<char>, start: int, end: int) -> bool {
    &&& is_callsign_at(text, start, end)
    &&& forall|s: int, e: int| #[trigger] is_callsign_at(text, s, e) ==> start <= s
}

/// The first word of `text` that can be a callsign, if it has one.
pub open spec fn first_callsign(text: Seq<char>) -> Option<Seq<char>> {
    if exists|start: int, end: int| is_first_callsign_at(text, start, end) {
        let (start, end) = choose|start: int, end: int| is_first_callsign_at(text, start, end);
        Some(text.subrange(start, end))
    } else {
        None
    }
}

/// A text has at most one first callsign.
pub proof fn lemma_first_callsign_unique(text: Seq<char>, s1: int, e1: int, s2: int, e2: int)
    requires
        is_first_callsign_at(text, s1, e1),
        is_first_callsign_at(text, s2, e2),
    ensures
        s1 == s2,
        e1 == e2,
{
    assert(is_callsign_at(text, s1, e1));
    assert(is_callsign_at(text, s2, e2));
    if e1 < e2 {
        assert(!is_whitespace(text[e1]));
    } else if e2 < e1 {
        assert(!is_whitespace(text[e2]));
    }
}

/// Where the first callsign of a text lies, there `first_callsign` finds it.
pub proof fn lemma_first_callsign_found(text: Seq<char>, start: int, end: int)
    requires
        is_first_callsign_at(text, start, end),
    ensures
        first_callsign(text) == Some(text.subrange(start, end)),
{
    let (s, e) = choose|s: int, e: int| is_first_callsign_at(text, s, e);
    lemma_first_callsign_unique(text, start, end, s, e);
}

/// A text without a word that can be a callsign has no first callsign.
pub proof fn lemma_first_callsign_absent(text: Seq<char>)
    requires
        forall|start: int, end: int| !#[trigger] is_callsign_at(text, start, end),
    ensures
        first_callsign(text) is None,
{
}

/// Whether a character separates words.
pub fn whitespace(c: char) -> (b: bool)
    ensures
        b == is_whitespace(c),
{
    let u = c as u32;
    (0x09 <= u && u <= 0x0D) || u == 0x20 || u == 0x85 || u == 0xA0 || u == 0x1680 || (0x2000 <= u
        && u <= 0x200A) || u == 0x2028 || u == 0x2029 || u == 0x202F || u == 0x205F || u == 0x3000
}

/// Where the word that starts at `start` ends.
fn word_end(text: &str, len: usize, start: usize) -> (end: usize)
    requires
        len == text@.len(),
        start < len,
        !is_whitespace(text@[start as int]),
    ensures
        start < end <= len,
        forall|i: int| start <= i < end ==> !is_whitespace(#[trigger] text@[i]),
        end == len || is_whitespace(text@[end as int]),
{
    let mut end = start + 1;
    while end < len && !whitespace(text.get_char(end))
        invariant
            len == text@.len(),
            start < end <= len,
            forall|i: int| start <= i < end ==> !is_whitespace(#[trigger] text@[i]),
        decreases len - end,
    {
        end = end + 1;
    }
    end
}

/// Whether the characters from `start` up to `end` can be a callsign.
fn callsign_between(text: &str, start: usize, end: usize) -> (fits: bool)
    requires
        start < end <= text@.len(),
    ensures
        fits == is_callsign(text@.subrange(start as int, end as int)),
{
    let ghost word = text@.subrange(start as int, end as int);
    if end - start <= 2 {
        return false;
    }
    let mut at = start;
    while at < end
        invariant
            start <= at <= end <= text@.len(),
            word == text@.subrange(start as int, end as int),
            forall|i: int| 0 <= i < at - start ==> is_upper(#[trigger] word[i]) || is_digit(word[i]),
        decreases end - at,
    {
        let c = text.get_char(at);
        assert(c == word[at - start]);
        if !(('A' <= c && c <= 'Z') || ('0' <= c && c <= '9')) {
            return false;
        }
        at = at + 1;
    }
    let last = text.get_char(end - 1);
    assert(last == word.last());
    'A' <= last && last <= 'Z'
}

/// A word that starts inside another word of the same text is that word.
proof fn lemma_one_word_at_a_time(text: Seq<char>, start: int, end: int, s: int, e: int)
    requires
        is_word(text, start, end),
        is_word(text, s, e),
        start <= s < end,
    ensures
        s == start,
        e == end,
{
    if start < s {
        assert(!is_whitespace(text[s - 1]));
    }
    if e < end {
        assert(!is_whitespace(text[e]));
    } else if end < e {
        assert(!is_whitespace(text[end]));
    }
}

/// The first word of a nickname that can be a callsign, if it has one.
pub fn extract_callsign(nick: &String) -> (callsign: Option<String>)
    ensures
        match callsign {
            Some(word) => first_callsign(nick@) == Some(word@),
            None => first_callsign(nick@) is None,
        },
        callsign is None <==> forall|start: int, end: int|
            !#[trigger] is_callsign_at(nick@, start, end),
{
    let text = nick.as_str();
    let len = text.unicode_len();
    let mut at: usize = 0;
    while at < len
        invariant
            text@ == nick@,
            len == text@.len(),
            at <= len,
            at == 0 || at == len || is_whitespace(text@[at - 1]) || is_whitespace(text@[at as int]),
            forall|s: int, e: int| #[trigger] is_callsign_at(text@, s, e) ==> s >= at,
        decreases len - at,
    {
        if whitespace(text.get_char(at)) {
            at = at + 1;
        } else {
            let end = word_end(text, len, at);
            assert(is_word(text@, at as int, end as int));
            if callsign_between(text, at, end) {
                assert(is_first_callsign_at(text@, at as int, end as int));
                proof {
                    lemma_first_callsign_found(text@, at as int, end as int);
                }
                return Some(text.substring_char(at, end).to_owned());
            }
            assert forall|s: int, e: int| #[trigger] is_callsign_at(text@, s, e) implies s
                >= end by {
                if s < end {
                    lemma_one_word_at_a_time(text@, at as int, end as int, s, e);
                }
            }
            at = end;
        }
    }
    None
}

} // verus!
