//! Small text utilities, specified over sequences of characters.
//!
//! Whitespace means the four ASCII whitespace characters, and case mapping
//! is ASCII case mapping: characters outside the ASCII letters pass through
//! case conversions unchanged.

use vstd::prelude::*;

verus! {

/// Whether `c` is ASCII whitespace.
pub open spec fn is_space(c: char) -> bool {
    c == ' ' || c == '\t' || c == '\n' || c == '\r'
}

/// Whether `c` is an ASCII letter.
pub open spec fn is_letter(c: char) -> bool {
    (97 <= c as u32 && c as u32 <= 122) || (65 <= c as u32 && c as u32 <= 90)
}

/// `c` with an ASCII lowercase letter mapped to its uppercase form.
pub open spec fn upper_char(c: char) -> char {
    if 97 <= c as u32 && c as u32 <= 122 {
        (c as u32 - 32) as char
    } else {
        c
    }
}

/// `c` with an ASCII uppercase letter mapped to its lowercase form.
pub open spec fn lower_char(c: char) -> char {
    if 65 <= c as u32 && c as u32 <= 90 {
        (c as u32 + 32) as char
    } else {
        c
    }
}

/// Append one character to a string.
///
/// Relies on `String::push`: it appends exactly the given character.
#[verifier::external_body]
fn push_char(s: &mut String, c: char)
    ensures
        final(s)@ == old(s)@.push(c),
{
    s.push(c);
}

/// The string's characters in reverse order.
pub fn reverse_string(s: &str) -> (r: String)
    ensures
        r@ == s@.reverse(),
{
    let n = s.unicode_len();
    let mut r = String::new();
    let mut i: usize = 0;
    while i < n
        invariant
            i <= n,
            n == s@.len(),
            r@.len() == i,
            forall|k: int| 0 <= k < i ==> #[trigger] r@[k] == s@[n - 1 - k],
        decreases n - i,
    {
        let c = s.get_char(n - 1 - i);
        push_char(&mut r, c);
        i = i + 1;
    }
    proof {
        assert(r@ =~= s@.reverse());
    }
    r
}

/// Whether position `i` starts a word: a non-space character at the start
/// of the text or right after a space.
pub open spec fn is_word_start(s: Seq<char>, i: int) -> bool {
    !is_space(s[i]) && (i == 0 || is_space(s[i - 1]))
}

/// How many word starts lie below position `n`.
pub open spec fn word_starts_below(s: Seq<char>, n: int) -> int
    decreases n,
{
    if n <= 0 {
        0
    } else {
        word_starts_below(s, n - 1) + if is_word_start(s, n - 1) {
            1int
        } else {
            0int
        }
    }
}

/// The number of whitespace-separated words in the text.
pub fn count_words(s: &str) -> (r: usize)
    ensures
        r == word_starts_below(s@, s@.len() as int),
{
    let n = s.unicode_len();
    let mut count: usize = 0;
    let mut prev_space = true;
    let mut i: usize = 0;
    while i < n
        invariant
            i <= n,
            n == s@.len(),
            count == word_starts_below(s@, i as int),
            count <= i,
            prev_space == (i == 0 || is_space(s@[i - 1])),
        decreases n - i,
    {
        let c = s.get_char(i);
        let space = c == ' ' || c == '\t' || c == '\n' || c == '\r';
        if !space && prev_space {
            count = count + 1;
        }
        prev_space = space;
        i = i + 1;
    }
    count
}

/// How many of the characters below position `n` equal `c`.
pub open spec fn count_char_below(s: Seq<char>, c: char, n: int) -> int
    decreases n,
{
    if n <= 0 {
        0
    } else {
        count_char_below(s, c, n - 1) + if s[n - 1] == c {
            1int
        } else {
            0int
        }
    }
}

/// No prefix holds more copies of a character than it has positions.
proof fn lemma_count_char_le(s: Seq<char>, c: char, n: int)
    requires
        n >= 0,
    ensures
        count_char_below(s, c, n) <= n,
    decreases n,
{
    if n > 0 {
        lemma_count_char_le(s, c, n - 1);
    }
}

/// The number of lines in the text: zero for the empty text, otherwise one
/// more than the number of line breaks, except that a trailing line break
/// ends the last line rather than starting a new one.
pub fn count_lines(s: &str) -> (r: usize)
    ensures
        s@.len() == 0 ==> r == 0,
        s@.len() > 0 ==> r == count_char_below(s@, '\n', s@.len() as int) + if s@.last() == '\n' {
            0int
        } else {
            1int
        },
{
    let n = s.unicode_len();
    if n == 0 {
        return 0;
    }
    let mut breaks: usize = 0;
    let mut i: usize = 0;
    while i < n
        invariant
            i <= n,
            n == s@.len(),
            breaks == count_char_below(s@, '\n', i as int),
            breaks <= i,
        decreases n - i,
    {
        if s.get_char(i) == '\n' {
            breaks = breaks + 1;
        }
        i = i + 1;
    }
    if s.get_char(n - 1) == '\n' {
        breaks
    } else {
        proof {
            lemma_count_char_le(s@, '\n', n - 1);
        }
        breaks + 1
    }
}

/// Whether `c` ends a sentence.
pub open spec fn ends_sentence(c: char) -> bool {
    c == '.' || c == '!' || c == '?'
}

/// How many sentence-ending characters lie below position `n`.
pub open spec fn sentence_ends_below(s: Seq<char>, n: int) -> int
    decreases n,
{
    if n <= 0 {
        0
    } else {
        sentence_ends_below(s, n - 1) + if ends_sentence(s[n - 1]) {
            1int
        } else {
            0int
        }
    }
}

/// The number of sentence-ending characters in the text.
pub fn count_sentences(s: &str) -> (r: usize)
    ensures
        r == sentence_ends_below(s@, s@.len() as int),
{
    let n = s.unicode_len();
    let mut count: usize = 0;
    let mut i: usize = 0;
    while i < n
        invariant
            i <= n,
            n == s@.len(),
            count == sentence_ends_below(s@, i as int),
            count <= i,
        decreases n - i,
    {
        let c = s.get_char(i);
        if c == '.' || c == '!' || c == '?' {
            count = count + 1;
        }
        i = i + 1;
    }
    count
}

/// The number of characters in the text.
pub fn count_characters(s: &str) -> (r: usize)
    ensures
        r == s@.len(),
{
    s.unicode_len()
}

/// `c` uppercased (ASCII).
pub fn upper_char_exec(c: char) -> (r: char)
    ensures
        r == upper_char(c),
{
    let u = c as u32;
    if 97 <= u && u <= 122 {
        ((u - 32) as u8) as char
    } else {
        c
    }
}

/// `c` lowercased (ASCII).
pub fn lower_char_exec(c: char) -> (r: char)
    ensures
        r == lower_char(c),
{
    let u = c as u32;
    if 65 <= u && u <= 90 {
        ((u + 32) as u8) as char
    } else {
        c
    }
}

/// The title-cased text from position `i` on, given whether the previous
/// character belonged to a word and whether any word has been emitted yet:
/// words are separated by single spaces, each word starts with an uppercase
/// letter and continues in lowercase.
pub open spec fn title_from(s: Seq<char>, i: int, in_word: bool, emitted: bool) -> Seq<char>
    decreases s.len() - i,
{
    if i < 0 || i >= s.len() {
        Seq::empty()
    } else if is_space(s[i]) {
        title_from(s, i + 1, false, emitted)
    } else if !in_word {
        (if emitted {
            seq![' ']
        } else {
            Seq::empty()
        }) + seq![upper_char(s[i])] + title_from(s, i + 1, true, true)
    } else {
        seq![lower_char(s[i])] + title_from(s, i + 1, true, emitted)
    }
}

/// The whole text in title case: one capitalised, lowercased word per input
/// word, joined by single spaces.
pub open spec fn title_of(s: Seq<char>) -> Seq<char> {
    title_from(s, 0, false, false)
}

/// The text in title case.
pub fn to_title_case(s: &str) -> (r: String)
    ensures
        r@ == title_of(s@),
{
    let n = s.unicode_len();
    let mut r = String::new();
    let mut in_word = false;
    let mut emitted = false;
    let mut i: usize = 0;
    proof {
        assert(title_of(s@) =~= r@ + title_from(s@, 0, false, false));
    }
    while i < n
        invariant
            i <= n,
            n == s@.len(),
            title_of(s@) == r@ + title_from(s@, i as int, in_word, emitted),
        decreases n - i,
    {
        let ghost r0 = r@;
        let ghost i0 = i as int;
        let ghost in0 = in_word;
        let ghost em0 = emitted;
        let c = s.get_char(i);
        if c == ' ' || c == '\t' || c == '\n' || c == '\r' {
            in_word = false;
        } else if !in_word {
            let ghost head: Seq<char> = (if em0 {
                seq![' ']
            } else {
                Seq::<char>::empty()
            }) + seq![upper_char(c)];
            if emitted {
                push_char(&mut r, ' ');
            }
            push_char(&mut r, upper_char_exec(c));
            in_word = true;
            emitted = true;
            proof {
                assert(r@ =~= r0 + head);
                assert(r0 + head + title_from(s@, i0 + 1, true, true) =~= r0 + (head + title_from(
                    s@,
                    i0 + 1,
                    true,
                    true,
                )));
            }
        } else {
            push_char(&mut r, lower_char_exec(c));
            proof {
                let head = seq![lower_char(s@[i0])];
                assert(r@ =~= r0 + head);
                assert(r0 + head + title_from(s@, i0 + 1, true, em0) =~= r0 + (head + title_from(
                    s@,
                    i0 + 1,
                    true,
                    em0,
                )));
            }
        }
        i = i + 1;
    }
    proof {
        assert(title_of(s@) =~= r@);
    }
    r
}

/// The cleaned form of a word: only its ASCII letters, lowercased.
pub open spec fn clean_of(s: Seq<char>) -> Seq<char>
    decreases s.len(),
{
    if s.len() == 0 {
        Seq::empty()
    } else {
        clean_of(s.drop_last()) + if is_letter(s.last()) {
            seq![lower_char(s.last())]
        } else {
            Seq::empty()
        }
    }
}

/// Strip a word down to its letters, lowercased.
pub fn clean_word(word: &str) -> (r: String)
    ensures
        r@ == clean_of(word@),
{
    let n = word.unicode_len();
    let mut r = String::new();
    let mut i: usize = 0;
    proof {
        assert(r@ =~= clean_of(word@.take(0)));
    }
    while i < n
        invariant
            i <= n,
            n == word@.len(),
            r@ == clean_of(word@.take(i as int)),
        decreases n - i,
    {
        let ghost r0 = r@;
        let ghost i0 = i as int;
        let c = word.get_char(i);
        let u = c as u32;
        if (97 <= u && u <= 122) || (65 <= u && u <= 90) {
            push_char(&mut r, lower_char_exec(c));
        }
        proof {
            let pre = word@.take(i0 + 1);
            assert(pre.drop_last() =~= word@.take(i0));
            assert(pre.last() == word@[i0]);
            if is_letter(word@[i0]) {
                assert(r@ =~= clean_of(word@.take(i0)) + seq![lower_char(word@[i0])]);
            } else {
                assert(r@ =~= clean_of(word@.take(i0)) + Seq::<char>::empty());
            }
        }
        i = i + 1;
    }
    proof {
        assert(word@.take(n as int) =~= word@);
    }
    r
}

/// The position of the first space at or after position `i`, or the length
/// of the text if there is none.
pub open spec fn first_space_at(s: Seq<char>, i: int) -> int
    decreases s.len() - i,
{
    if i < 0 || i >= s.len() {
        s.len() as int
    } else if s[i] == ' ' {
        i
    } else {
        first_space_at(s, i + 1)
    }
}

/// The text up to (not including) its first space.
pub fn first_word<'a>(s: &'a str) -> (r: &'a str)
    ensures
        r@ == s@.take(first_space_at(s@, 0)),
{
    let n = s.unicode_len();
    let mut i: usize = 0;
    while i < n
        invariant
            i <= n,
            n == s@.len(),
            first_space_at(s@, 0) == first_space_at(s@, i as int),
        decreases n - i,
    {
        if s.get_char(i) == ' ' {
            return s.substring_char(0, i);
        }
        i = i + 1;
    }
    proof {
        assert(s@.take(n as int) =~= s@);
    }
    s
}

/// The text with a processing mark appended.
pub fn process_text_owned(text: String) -> (r: String)
    ensures
        r@ == text@ + " [processed]"@,
{
    let mut text = text;
    text.append(" [processed]");
    text
}

/// Append a modification mark to the text in place.
pub fn modify_text(text: &mut String)
    ensures
        final(text)@ == old(text)@ + " [modified]"@,
{
    text.append(" [modified]");
}

/// The string with `" world"` appended.
pub fn append_world(s: String) -> (r: String)
    ensures
        r@ == s@ + " world"@,
{
    let mut s = s;
    s.append(" world");
    s
}

/// A freshly created string.
pub fn create_string() -> (r: String)
    ensures
        r@ == "created"@,
{
    String::from_str("created")
}

/// A newly allocated greeting, handing ownership to the caller.
pub fn gives_ownership() -> (r: String)
    ensures
        r@ == "hello"@,
{
    String::from_str("hello")
}

/// Take ownership of a string and hand it straight back.
pub fn takes_and_gives_back(a_string: String) -> (r: String)
    ensures
        r@ == a_string@,
{
    a_string
}

/// The length of the string, in characters, through a borrow.
pub fn calculate_length(s: &String) -> (r: usize)
    ensures
        r == s@.len(),
{
    s.as_str().unicode_len()
}

/// The length of the string, in characters, through a borrow.
pub fn length_borrowing(s: &String) -> (r: usize)
    ensures
        r == s@.len(),
{
    s.as_str().unicode_len()
}

/// The coarse class of a character.
#[derive(PartialEq, Eq, Structural, Clone, Copy, Debug, Hash)]
pub enum CharCategory {
    Lowercase,
    Uppercase,
    Digit,
    Whitespace,
    Punctuation,
    Other,
}

/// The class a character falls in.
pub open spec fn categorize_spec(c: char) -> CharCategory {
    if 97 <= c as u32 && c as u32 <= 122 {
        CharCategory::Lowercase
    } else if 65 <= c as u32 && c as u32 <= 90 {
        CharCategory::Uppercase
    } else if 48 <= c as u32 && c as u32 <= 57 {
        CharCategory::Digit
    } else if is_space(c) {
        CharCategory::Whitespace
    } else if c == '.' || c == ',' || c == '!' || c == '?' || c == ';' || c == ':' || c == '"'
        || c == '\'' {
        CharCategory::Punctuation
    } else {
        CharCategory::Other
    }
}

/// Classify a character.
pub fn categorize_character(ch: char) -> (r: CharCategory)
    ensures
        r == categorize_spec(ch),
{
    let u = ch as u32;
    if 97 <= u && u <= 122 {
        CharCategory::Lowercase
    } else if 65 <= u && u <= 90 {
        CharCategory::Uppercase
    } else if 48 <= u && u <= 57 {
        CharCategory::Digit
    } else if ch == ' ' || ch == '\t' || ch == '\n' || ch == '\r' {
        CharCategory::Whitespace
    } else if ch == '.' || ch == ',' || ch == '!' || ch == '?' || ch == ';' || ch == ':'
        || ch == '"' || ch == '\'' {
        CharCategory::Punctuation
    } else {
        CharCategory::Other
    }
}

/// The longer of two strings, measured in characters; ties go to the
/// second.
pub fn longest<'a>(x: &'a str, y: &'a str) -> (r: &'a str)
    ensures
        x@.len() > y@.len() ==> r@ == x@,
        x@.len() <= y@.len() ==> r@ == y@,
{
    if x.unicode_len() > y.unicode_len() {
        x
    } else {
        y
    }
}

/// The length of the string, in characters, consuming it.
pub fn length_taking_ownership(s: String) -> (r: usize)
    ensures
        r == s@.len(),
{
    s.as_str().unicode_len()
}

} // verus!
