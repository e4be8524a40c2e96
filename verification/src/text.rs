//! Text as the rules see it: sequences of characters.
//!
//! Names are ordered as `str` orders them, character by character. Paths are
//! plain text with `/` between their parts; nothing here touches a
//! filesystem.

use vstd::prelude::*;
use vstd::string::StringExecFns;

verus! {

/// The character that parts a path.
pub const SEPARATOR: char = '/';

/// The characters of `text`, in order.
pub fn chars_of(text: &str) -> (chars: Vec<char>)
    ensures
        chars@ == text@,
{
    let mut chars: Vec<char> = Vec::new();
    for c in it: text.chars()
        invariant
            it.seq() == text@,
            chars@ == text@.take(it.index() as int),
    {
        chars.push(c);
        assert(text@.take(it.index() + 1) =~= text@.take(it.index() as int).push(c));
    }
    assert(text@.take(text@.len() as int) =~= text@);
    chars
}

/// Whether `a` comes before `b`, or is `b`, in the order of a dictionary
/// whose alphabet is the code points.
pub open spec fn lex_le(a: Seq<char>, b: Seq<char>) -> bool
    decreases a.len(),
{
    if a.len() == 0 {
        true
    } else if b.len() == 0 {
        false
    } else if a[0] != b[0] {
        (a[0] as u32) < (b[0] as u32)
    } else {
        lex_le(a.drop_first(), b.drop_first())
    }
}

/// A text comes no later than itself.
pub proof fn lemma_lex_le_reflexive(a: Seq<char>)
    ensures
        lex_le(a, a),
    decreases a.len(),
{
    if a.len() > 0 {
        lemma_lex_le_reflexive(a.drop_first());
    }
}

/// Of two texts, one comes first.
pub proof fn lemma_lex_le_total(a: Seq<char>, b: Seq<char>)
    ensures
        lex_le(a, b) || lex_le(b, a),
    decreases a.len(),
{
    if a.len() > 0 && b.len() > 0 {
        if a[0] == b[0] {
            lemma_lex_le_total(a.drop_first(), b.drop_first());
        } else {
            vstd::utf8::char_u32_cast(a[0], a[0] as u32);
            vstd::utf8::char_u32_cast(b[0], b[0] as u32);
        }
    }
}

/// What comes no later than a text that comes no later than a third comes
/// no later than the third.
pub proof fn lemma_lex_le_transitive(a: Seq<char>, b: Seq<char>, c: Seq<char>)
    requires
        lex_le(a, b),
        lex_le(b, c),
    ensures
        lex_le(a, c),
    decreases a.len(),
{
    if a.len() > 0 && b.len() > 0 && c.len() > 0 && a[0] == b[0] && b[0] == c[0] {
        lemma_lex_le_transitive(a.drop_first(), b.drop_first(), c.drop_first());
    }
}

/// Two texts that each come no later than the other are one text.
pub proof fn lemma_lex_le_antisymmetric(a: Seq<char>, b: Seq<char>)
    requires
        lex_le(a, b),
        lex_le(b, a),
    ensures
        a == b,
    decreases a.len(),
{
    if a.len() > 0 && b.len() > 0 {
        lemma_lex_le_antisymmetric(a.drop_first(), b.drop_first());
        assert(a =~= seq![a[0]] + a.drop_first());
        assert(b =~= seq![b[0]] + b.drop_first());
    } else {
        assert(a =~= b);
    }
}

/// Compares two texts given by their characters.
pub fn chars_le(a: &Vec<char>, b: &Vec<char>) -> (le: bool)
    ensures
        le == lex_le(a@, b@),
{
    let mut i: usize = 0;
    assert(a@.skip(0) =~= a@ && b@.skip(0) =~= b@);
    while i < a.len() && i < b.len()
        invariant
            i <= a@.len(),
            i <= b@.len(),
            lex_le(a@, b@) == lex_le(a@.skip(i as int), b@.skip(i as int)),
        decreases a@.len() - i,
    {
        proof {
            assert(a@.skip(i as int).drop_first() =~= a@.skip(i + 1));
            assert(b@.skip(i as int).drop_first() =~= b@.skip(i + 1));
        }
        if a[i] != b[i] {
            return (a[i] as u32) < (b[i] as u32);
        }
        i += 1;
    }
    i == a.len()
}

/// Whether `a` sorts before `b` or is equal to it.
pub fn text_le(a: &str, b: &str) -> (le: bool)
    ensures
        le == lex_le(a@, b@),
{
    let a_chars = chars_of(a);
    let b_chars = chars_of(b);
    chars_le(&a_chars, &b_chars)
}

/// Whether two texts are the same text.
pub fn same_text(a: &str, b: &str) -> (same: bool)
    ensures
        same == (a@ == b@),
{
    let a_chars = chars_of(a);
    let b_chars = chars_of(b);
    if a_chars.len() != b_chars.len() {
        return false;
    }
    let mut i: usize = 0;
    while i < a_chars.len()
        invariant
            i <= a_chars@.len() == b_chars@.len(),
            a_chars@ == a@,
            b_chars@ == b@,
            forall|k: int| 0 <= k < i ==> a_chars@[k] == b_chars@[k],
        decreases a_chars@.len() - i,
    {
        if a_chars[i] != b_chars[i] {
            return false;
        }
        i += 1;
    }
    assert(a_chars@ =~= b_chars@);
    true
}

/// Whether `word` stands in `text` from the place `at` on.
pub open spec fn occurs_at(text: Seq<char>, word: Seq<char>, at: int) -> bool {
    &&& 0 <= at
    &&& at + word.len() <= text.len()
    &&& text.subrange(at, at + word.len()) == word
}

/// Whether `word` stands somewhere in `text`. The empty word stands in every
/// text.
pub open spec fn occurs_in(text: Seq<char>, word: Seq<char>) -> bool {
    exists|at: int| occurs_at(text, word, at)
}

/// Whether `word` stands somewhere in `text`.
pub fn text_contains(text: &str, word: &str) -> (found: bool)
    ensures
        found == occurs_in(text@, word@),
{
    let text_chars = chars_of(text);
    let word_chars = chars_of(word);
    let n = text_chars.len();
    let m = word_chars.len();
    if m > n {
        return false;
    }
    let mut at: usize = 0;
    while at <= n - m
        invariant
            m <= n,
            at <= n - m + 1,
            n == text_chars@.len(),
            m == word_chars@.len(),
            text_chars@ == text@,
            word_chars@ == word@,
            forall|a: int| 0 <= a < at ==> !occurs_at(text@, word@, a),
        decreases n - m + 1 - at,
    {
        let mut k: usize = 0;
        while k < m && text_chars[at + k] == word_chars[k]
            invariant
                k <= m,
                at + m <= n,
                n == text_chars@.len(),
                m == word_chars@.len(),
                forall|j: int| 0 <= j < k ==> text_chars@[at + j] == word_chars@[j],
            decreases m - k,
        {
            k += 1;
        }
        if k == m {
            assert(text@.subrange(at as int, at + m) =~= word@);
            assert(occurs_at(text@, word@, at as int));
            return true;
        }
        assert(text@.subrange(at as int, at + m)[k as int] != word@[k as int]);
        at += 1;
    }
    false
}

/// Whether `path` is `dir` itself or lies below it. An empty `dir` holds
/// nothing.
pub open spec fn path_within(path: Seq<char>, dir: Seq<char>) -> bool {
    &&& 0 < dir.len() <= path.len()
    &&& path.take(dir.len() as int) == dir
    &&& (path.len() == dir.len() || dir.last() == SEPARATOR || path[dir.len() as int] == SEPARATOR)
}

/// Whether `path` is `dir` itself or lies below it.
pub fn is_within(path: &str, dir: &str) -> (within: bool)
    ensures
        within == path_within(path@, dir@),
{
    let path_chars = chars_of(path);
    let dir_chars = chars_of(dir);
    let n = dir_chars.len();
    if n == 0 || n > path_chars.len() {
        return false;
    }
    let mut i: usize = 0;
    while i < n
        invariant
            i <= n == dir_chars@.len() <= path_chars@.len(),
            path_chars@ == path@,
            dir_chars@ == dir@,
            forall|k: int| 0 <= k < i ==> path_chars@[k] == dir_chars@[k],
        decreases n - i,
    {
        if path_chars[i] != dir_chars[i] {
            assert(path_chars@.take(n as int)[i as int] != dir_chars@[i as int]);
            return false;
        }
        i += 1;
    }
    assert(path_chars@.take(n as int) =~= dir_chars@);
    path_chars.len() == n || dir_chars[n - 1] == SEPARATOR || path_chars[n] == SEPARATOR
}

/// The path of `name` as seen from `base`: `name` itself where it starts at
/// the root, else `base` and `name` with one separator between them, which
/// is left out where `base` is empty or already ends in one.
pub open spec fn joined_path(base: Seq<char>, name: Seq<char>) -> Seq<char> {
    if name.len() > 0 && name[0] == SEPARATOR {
        name
    } else if base.len() == 0 || base.last() == SEPARATOR {
        base + name
    } else {
        base + seq![SEPARATOR] + name
    }
}

/// Joins `name` to `base` as a path.
pub fn join_path(base: &str, name: &str) -> (path: String)
    ensures
        path@ == joined_path(base@, name@),
{
    let name_chars = chars_of(name);
    if name_chars.len() > 0 && name_chars[0] == SEPARATOR {
        return String::from_str(name);
    }
    let base_chars = chars_of(base);
    let path = String::from_str(base);
    if base_chars.len() == 0 || base_chars[base_chars.len() - 1] == SEPARATOR {
        path.concat(name)
    } else {
        proof {
            reveal_strlit("/");
            assert("/"@ =~= seq![SEPARATOR]);
        }
        path.concat("/").concat(name)
    }
}

/// The parts written one after the other with `sep` between each two.
pub open spec fn joined(parts: Seq<Seq<char>>, sep: Seq<char>) -> Seq<char>
    decreases parts.len(),
{
    if parts.len() == 0 {
        Seq::empty()
    } else if parts.len() == 1 {
        parts[0]
    } else {
        joined(parts.drop_last(), sep) + sep + parts.last()
    }
}

/// Writes the parts one after the other with `sep` between each two.
pub fn join(parts: &Vec<String>, sep: &str) -> (line: String)
    ensures
        line@ == joined(parts.deep_view(), sep@),
{
    let mut line = String::new();
    let mut i: usize = 0;
    while i < parts.len()
        invariant
            i <= parts@.len(),
            line@ == joined(parts.deep_view().take(i as int), sep@),
        decreases parts@.len() - i,
    {
        proof {
            let seen = parts.deep_view().take(i as int);
            let next = parts.deep_view().take(i + 1);
            assert(next.drop_last() =~= seen);
            assert(next.last() == parts@[i as int]@);
        }
        if i > 0 {
            line.append(sep);
        }
        line.append(parts[i].as_str());
        i += 1;
    }
    assert(parts.deep_view().take(parts@.len() as int) =~= parts.deep_view());
    line
}

/// The characters of a text that may be absent.
pub open spec fn text_of(text: Option<String>) -> Option<Seq<char>> {
    match text {
        Some(t) => Some(t@),
        None => None,
    }
}

/// A copy of some texts, in their order.
pub fn copy_texts(texts: &Vec<String>) -> (copy: Vec<String>)
    ensures
        copy.deep_view() == texts.deep_view(),
{
    let mut copy: Vec<String> = Vec::new();
    let mut i: usize = 0;
    while i < texts.len()
        invariant
            i <= texts@.len(),
            copy.deep_view() == texts.deep_view().take(i as int),
        decreases texts@.len() - i,
    {
        let ghost before = copy.deep_view();
        copy.push(texts[i].clone());
        assert(copy.deep_view() =~= before.push(texts@[i as int]@));
        assert(texts.deep_view().take(i + 1) =~= before.push(texts@[i as int]@));
        i += 1;
    }
    assert(texts.deep_view().take(texts@.len() as int) =~= texts.deep_view());
    copy
}

/// The text that `String::from_utf8_lossy` makes of bytes: what they spell
/// in UTF-8, with a replacement character for each run that spells nothing.
pub uninterp spec fn utf8_lossy(bytes: Seq<u8>) -> Seq<char>;

/// Reads bytes as UTF-8 text through `String::from_utf8_lossy` of the
/// standard library, and owns the result. The text is a function of the
/// bytes alone; which text it is, is left to the standard library.
#[verifier::external_body]
pub(crate) fn lossy_text(bytes: &[u8]) -> (text: String)
    ensures
        text@ == utf8_lossy(bytes@),
{
    String::from_utf8_lossy(bytes).into_owned()
}

} // verus!
