//! Short hashes made of two dictionary words, and the test that tells a
//! link worth shortening from other text.

use vstd::prelude::*;
use vstd::string::*;
use vstd::pervasive::unreached;
use crate::text::chars_of;

verus! {

/// The body of a request for a new shortcut.
#[derive(Debug, Clone, PartialEq, Eq)]
pub struct CreateLink {
    pub link: String,
}

/// What the welcome page is rendered from.
#[derive(Debug, Clone, PartialEq, Eq)]
pub struct IndexTemplate {
    pub url: String,
}

/// The fewest letters in a word of a hash.
pub const MIN_WORD_LEN: usize = 5;

/// The most letters in a word of a hash.
pub const MAX_WORD_LEN: usize = 7;

/// The pattern that a link has to match from its first character to its
/// last: `http://` or `https://`, a host that is not empty, and then nothing
/// or a path, query or fragment that starts with `/`, `?` or `#`. Nowhere is
/// there white space.
pub const LINK_PATTERN: &'static str = r"^https?://[^\s/?#]+([/?#]\S*)?$";

/// A word of a hash: five to seven lower-case letters.
pub open spec fn is_word(s: Seq<char>) -> bool {
    &&& MIN_WORD_LEN <= s.len() <= MAX_WORD_LEN
    &&& forall|i: int| 0 <= i < s.len() ==> 'a' <= #[trigger] s[i] <= 'z'
}

/// Two words with a hyphen between them.
pub open spec fn join_words(first: Seq<char>, second: Seq<char>) -> Seq<char> {
    first + seq!['-'] + second
}

/// The text splits at `at` into a word, a hyphen and a word.
pub open spec fn splits_at(s: Seq<char>, at: int) -> bool {
    &&& 0 <= at < s.len()
    &&& s[at] == '-'
    &&& is_word(s.subrange(0, at))
    &&& is_word(s.subrange(at + 1, s.len() as int))
}

/// A hash: two words joined by a hyphen.
pub open spec fn is_hash(s: Seq<char>) -> bool {
    exists|at: int| splits_at(s, at)
}

/// Two words joined by a hyphen make a hash.
pub proof fn lemma_join_is_hash(first: Seq<char>, second: Seq<char>)
    requires
        is_word(first),
        is_word(second),
    ensures
        is_hash(join_words(first, second)),
        join_words(first, second).len() == first.len() + 1 + second.len(),
{
    let s = join_words(first, second);
    let at = first.len() as int;
    assert(s.subrange(0, at) =~= first);
    assert(s.subrange(at + 1, s.len() as int) =~= second);
    assert(splits_at(s, at));
}

/// The hash that two candidate words make: both have to be there, and both
/// have to be words.
pub open spec fn hash_of_words(first: Option<Seq<char>>, second: Option<Seq<char>>) -> Option<
    Seq<char>,
> {
    match (first, second) {
        (Some(a), Some(b)) => if is_word(a) && is_word(b) {
            Some(join_words(a, b))
        } else {
            None
        },
        _ => None,
    }
}

/// A candidate word, where there is one, as characters.
pub open spec fn word_view(word: Option<String>) -> Option<Seq<char>> {
    match word {
        Some(w) => Some(w@),
        None => None,
    }
}

/// Tells whether a text is five to seven lower-case letters.
pub fn check_word(s: &str) -> (r: bool)
    ensures
        r == is_word(s@),
{
    let letters = chars_of(s);
    if letters.len() < MIN_WORD_LEN || letters.len() > MAX_WORD_LEN {
        return false;
    }
    let mut i: usize = 0;
    while i < letters.len()
        invariant
            i <= letters.len(),
            letters@ == s@,
            forall|j: int| 0 <= j < i ==> 'a' <= #[trigger] s@[j] <= 'z',
        decreases letters.len() - i,
    {
        let c = letters[i];
        if c < 'a' || c > 'z' {
            return false;
        }
        i += 1;
    }
    true
}

/// Joins two candidate words into a hash, or gives none where either is
/// missing or is not a word.
pub fn hash_from_words(first: Option<String>, second: Option<String>) -> (r: Option<String>)
    ensures
        word_view(r) == hash_of_words(word_view(first), word_view(second)),
        r matches Some(hash) ==> is_hash(hash@),
{
    match (first, second) {
        (Some(a), Some(b)) => {
            if check_word(a.as_str()) && check_word(b.as_str()) {
                proof {
                    reveal_strlit("-");
                    lemma_join_is_hash(a@, b@);
                }
                let mut hash = a;
                hash.append("-");
                hash.append(b.as_str());
                assert(hash@ =~= join_words(a@, b@));
                Some(hash)
            } else {
                None
            }
        },
        _ => None,
    }
}

/// Draws a number with `rand::thread_rng().gen_range(low..=high)`. Believed
/// of it, not proved: the number lies in the range, both ends included. The
/// call panics on an empty range, which `requires` rules out; it also panics
/// where the system cannot seed the generator, which nothing here can rule
/// out.
#[verifier::external_body]
fn draw_length(low: usize, high: usize) -> (r: usize)
    requires
        low <= high,
    ensures
        low <= r <= high,
{
    rand::Rng::gen_range(&mut rand::thread_rng(), low..=high)
}

/// Draws a word with `random_word::gen_len`. Believed of it, not proved:
/// for a length from 2 to 15 there is a word, and it is made of exactly that
/// many lower-case letters `a` to `z`, as is every word of the list that the
/// crate draws from. For any other length the call panics, which `requires`
/// rules out. Which word it is is left to chance, and to the generator that
/// `draw_length` draws with.
#[verifier::external_body]
fn draw_word(length: usize) -> (r: Option<String>)
    requires
        2 <= length <= 15,
    ensures
        r matches Some(word) && word@.len() == length && forall|i: int|
            0 <= i < word@.len() ==> 'a' <= #[trigger] word@[i] <= 'z',
{
    match random_word::gen_len(length) {
        Some(word) => Some(word.to_string()),
        None => None,
    }
}

/// Generates a hash for a link: two random dictionary words of five to
/// seven letters each, joined by a hyphen. Which words are drawn is left to
/// chance.
pub fn gen_hash() -> (r: String)
    ensures
        is_hash(r@),
{
    let first_len = draw_length(MIN_WORD_LEN, MAX_WORD_LEN);
    let second_len = draw_length(MIN_WORD_LEN, MAX_WORD_LEN);
    let first = draw_word(first_len);
    let second = draw_word(second_len);
    match hash_from_words(first, second) {
        Some(hash) => hash,
        None => unreached(),
    }
}

/// What `regex::Regex::new` and `regex::Regex::is_match` make of a pattern
/// and a text: `None` where the pattern does not compile, else whether it
/// matches somewhere in the text. Nothing more is said of it here.
pub uninterp spec fn regex_search(pattern: Seq<char>, haystack: Seq<char>) -> Option<bool>;

/// Compiles a pattern with `regex::Regex::new` and searches a text with
/// `regex::Regex::is_match`. Believed of it, not proved: the outcome depends
/// on the pattern and the text alone, so that it is `regex_search` of the
/// two.
#[verifier::external_body]
fn search(pattern: &str, haystack: &str) -> (r: Option<bool>)
    ensures
        r == regex_search(pattern@, haystack@),
{
    match regex::Regex::new(pattern) {
        Ok(compiled) => Some(compiled.is_match(haystack)),
        Err(_) => None,
    }
}

/// A link that the service accepts: the pattern matches it as a whole.
pub open spec fn is_link(url: Seq<char>) -> bool {
    regex_search(LINK_PATTERN@, url) == Some(true)
}

/// Reads the outcome of a search: only a found match counts.
pub fn matched(outcome: Option<bool>) -> (r: bool)
    ensures
        r == (outcome == Some(true)),
{
    match outcome {
        Some(hit) => hit,
        None => false,
    }
}

/// Tells whether a text is a link that the service accepts.
pub fn is_url(url: &str) -> (r: bool)
    ensures
        r == is_link(url@),
{
    matched(search(LINK_PATTERN, url))
}

} // verus!
