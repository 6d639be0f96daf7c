use vstd::prelude::*;
use rand::seq::SliceRandom;
use crate::dict::{adjective_words, adjectives, dictionary_word, lemma_words_are_dictionary_words, noun_words, nouns};
use crate::error::PasteError;
use crate::paths;
use crate::text::utf8_decode;
use vstd::utf8::{decode_utf8, encode_utf8, valid_utf8};

verus! {

/// A lower-case ASCII letter.
pub open spec fn is_lower(c: char) -> bool {
    'a' <= c && c <= 'z'
}

/// An identifier made of at most 128 lower-case letters.
pub open spec fn valid_id(id: Seq<char>) -> bool {
    &&& forall|i: int| 0 <= i < id.len() ==> is_lower(#[trigger] id[i])
    &&& id.len() <= 128
}

/// Index of the first `c` in `s` at or after `from`, or `s.len()` when
/// there is none.
pub open spec fn char_from(s: Seq<char>, c: char, from: int) -> int
    decreases s.len() - from,
{
    if from < 0 || from >= s.len() {
        s.len() as int
    } else if s[from] == c {
        from
    } else {
        char_from(s, c, from + 1)
    }
}

pub proof fn lemma_char_from_bounds(s: Seq<char>, c: char, from: int)
    requires
        0 <= from <= s.len(),
    ensures
        from <= char_from(s, c, from) <= s.len(),
        char_from(s, c, from) < s.len() ==> s[char_from(s, c, from)] == c,
    decreases s.len() - from,
{
    if from < s.len() && s[from] != c {
        lemma_char_from_bounds(s, c, from + 1);
    }
}

/// Index of the first `.` in `s` at or after `from`, or `s.len()`.
pub open spec fn dot_from(s: Seq<char>, from: int) -> int {
    char_from(s, '.', from)
}

/// The abstract value of a paste id: its word part and its extension.
pub struct PasteIdView {
    pub id: Seq<char>,
    pub ext: Option<Seq<char>>,
}

/// How a name such as `word.ext` is read: without a `.` the whole name is the
/// word; otherwise the word is what precedes the first `.` and the extension
/// is what lies between the first and the second `.` (or the end).
pub open spec fn parse_name(s: Seq<char>) -> PasteIdView {
    let d = dot_from(s, 0);
    if d >= s.len() {
        PasteIdView { id: s, ext: None }
    } else {
        PasteIdView {
            id: s.subrange(0, d),
            ext: Some(s.subrange(d + 1, dot_from(s, d + 1))),
        }
    }
}

/// How an id is written: the word, then `.` and the extension if there is one.
pub open spec fn display_id(v: PasteIdView) -> Seq<char> {
    match v.ext {
        Some(e) => v.id + seq!['.'] + e,
        None => v.id,
    }
}

/// The name of a stored paste: a word part and an optional extension.
#[derive(Clone, Debug, PartialEq)]
pub struct PasteId {
    pub id: String,
    pub ext: Option<String>,
}

/// The extension of an id as text, empty when there is none.
pub open spec fn ext_text(ext: Option<String>) -> Seq<char> {
    match ext {
        Some(e) => e@,
        None => Seq::empty(),
    }
}

impl View for PasteId {
    type V = PasteIdView;

    open spec fn view(&self) -> PasteIdView {
        PasteIdView {
            id: self.id@,
            ext: match self.ext {
                Some(e) => Some(e@),
                None => None,
            },
        }
    }
}

/// Index of the first `c` in `s` at or after `from`.
pub fn find_char(s: &str, c: char, from: usize) -> (r: usize)
    requires
        from <= s@.len(),
    ensures
        r == char_from(s@, c, from as int),
{
    let n = s.unicode_len();
    let mut i = from;
    while i < n
        invariant
            n == s@.len(),
            from <= i <= n,
            char_from(s@, c, i as int) == char_from(s@, c, from as int),
        decreases n - i,
    {
        if s.get_char(i) == c {
            return i;
        }
        i = i + 1;
    }
    i
}

/// `rand::seq::SliceRandom::choose` on `words` with the thread's random
/// generator (`rand::thread_rng`). Claimed: the result is one of the words.
#[verifier::external_body]
fn choose_word(words: &Vec<&'static str>) -> (r: &'static str)
    requires
        words@.len() > 0,
    ensures
        words@.contains(r),
{
    *words.choose(&mut rand::thread_rng()).unwrap()
}

impl PasteId {
    /// A fresh random id: a dictionary adjective followed by a dictionary
    /// noun, without extension. Such an id is always valid.
    pub fn new() -> (r: PasteId)
        ensures
            r.ext is None,
            r.id@.len() > 0,
            valid_id(r.id@),
            exists|i: int, j: int|
                0 <= i < adjective_words().len() && 0 <= j < noun_words().len() && r.id@
                    == #[trigger] adjective_words()[i] + #[trigger] noun_words()[j],
    {
        let adjs = adjectives();
        let ns = nouns();
        let adj = choose_word(&adjs);
        let noun = choose_word(&ns);
        let mut id = adj.to_owned();
        id.append(noun);
        proof {
            lemma_words_are_dictionary_words();
            let i = choose|i: int| 0 <= i < adjs@.len() && adjs@[i] == adj;
            let j = choose|j: int| 0 <= j < ns@.len() && ns@[j] == noun;
            assert(dictionary_word(adjective_words()[i]));
            assert(dictionary_word(noun_words()[j]));
            let w = id@;
            assert(w == adjective_words()[i] + noun_words()[j]);
            assert forall|k: int| 0 <= k < w.len() implies is_lower(#[trigger] w[k]) by {
                if k < adj@.len() {
                    assert(w[k] == adj@[k]);
                } else {
                    assert(w[k] == noun@[k - adj@.len()]);
                }
            }
        }
        PasteId { id, ext: None }
    }

    /// Reads an id from a name such as `word.ext` (see `parse_name`).
    pub fn from(input: &str) -> (r: PasteId)
        ensures
            r@ == parse_name(input@),
    {
        let n = input.unicode_len();
        let d = find_char(input, '.', 0);
        if d >= n {
            PasteId { id: input.to_owned(), ext: None }
        } else {
            let e = find_char(input, '.', d + 1);
            proof {
                lemma_char_from_bounds(input@, '.', d + 1);
            }
            let id = input.substring_char(0, d).to_owned();
            let ext = input.substring_char(d + 1, e).to_owned();
            PasteId { id, ext: Some(ext) }
        }
    }

    /// The id as it appears in a URL: `word` or `word.ext`.
    pub fn to_string(&self) -> (r: String)
        ensures
            r@ == display_id(self@),
    {
        let mut r = self.id.clone();
        match &self.ext {
            Some(e) => {
                let dot = ".";
                proof {
                    reveal_strlit(".");
                }
                r.append(dot);
                r.append(e.as_str());
            },
            None => {},
        }
        r
    }

    /// Where the paste lives below the directory `root`: the word part of
    /// the id joined to `root` (the extension is not part of the file name).
    pub fn path(&self, root: &[u8]) -> (r: Vec<u8>)
        ensures
            r@ == paths::join_path(root@, vstd::utf8::encode_utf8(self.id@)),
    {
        paths::join(root, self.id.as_str().as_bytes())
    }

    /// Reads an id from the last component of `path` (see
    /// `paths::file_name_of` and `parse_name`); `PasteIdFromPath` when the
    /// path has no such component or it is not UTF-8.
    pub fn try_from_path(path: &[u8]) -> (r: Result<PasteId, PasteError>)
        ensures
            match paths::file_name_of(path@) {
                Some(n) if valid_utf8(n) => r matches Ok(id) && id@ == parse_name(decode_utf8(n)),
                _ => r matches Err(PasteError::PasteIdFromPath(p)) && p@ == path@,
            },
    {
        match paths::file_name(path) {
            Some(name) => match utf8_decode(name.as_slice()) {
                Ok(s) => Ok(PasteId::from(s.as_str())),
                Err(_) => Err(PasteError::PasteIdFromPath(paths::copy_range(path, 0, path.len()))),
            },
            None => Err(PasteError::PasteIdFromPath(paths::copy_range(path, 0, path.len()))),
        }
    }

    /// The extension, or the empty string when the id has none.
    pub fn ext(&self) -> (r: &str)
        ensures
            r@ == ext_text(self.ext),
    {
        match &self.ext {
            Some(s) => s.as_str(),
            None => {
                let e = "";
                proof {
                    reveal_strlit("");
                }
                e
            },
        }
    }

    /// Whether the word part consists of at most 128 lower-case letters.
    pub fn is_valid(&self) -> (b: bool)
        ensures
            b == valid_id(self.id@),
    {
        let s = self.id.as_str();
        let n = s.unicode_len();
        let mut i: usize = 0;
        while i < n
            invariant
                n == s@.len(),
                s@ == self.id@,
                i <= n,
                forall|j: int| 0 <= j < i ==> is_lower(#[trigger] s@[j]),
            decreases n - i,
        {
            let c = s.get_char(i);
            if !(c >= 'a' && c <= 'z') {
                return false;
            }
            i = i + 1;
        }
        proof {
            assert(vstd::utf8::is_ascii_chars(s@));
            vstd::utf8::is_ascii_chars_encode_utf8(s@);
        }
        s.len() <= 128
    }
}

} // verus!

verus! {

proof fn lemma_no_char(s: Seq<char>, c: char, from: int)
    requires
        0 <= from <= s.len(),
        forall|i: int| from <= i < s.len() ==> s[i] != c,
    ensures
        char_from(s, c, from) == s.len(),
    decreases s.len() - from,
{
    if from < s.len() {
        lemma_no_char(s, c, from + 1);
    }
}

/// A paste is found again from the path of its file: below any directory,
/// the last component of the path of an id whose word is valid and
/// non-empty is the word's bytes, and those read back as the word without
/// an extension.
pub proof fn law_id_from_own_path(word: Seq<char>, root: Seq<u8>)
    requires
        valid_id(word),
        word.len() > 0,
    ensures
        paths::file_name_of(paths::join_path(root, encode_utf8(word))) == Some(encode_utf8(word)),
        valid_utf8(encode_utf8(word)),
        parse_name(decode_utf8(encode_utf8(word))) == (PasteIdView { id: word, ext: None }),
{
    let b = encode_utf8(word);
    assert(vstd::utf8::is_ascii_chars(word));
    vstd::utf8::is_ascii_chars_encode_utf8(word);
    assert forall|k: int| 0 <= k < b.len() implies b[k] != paths::sep() && b[k] != 46u8 by {
        let c = word[k];
        assert(is_lower(c));
        assert(b[k] == c as u8);
        let u = c as u32;
        assert(97 <= u <= 122);
        assert(c as u8 == u as u8);
    }
    assert(b != seq![46u8]) by {
        if b == seq![46u8] {
            assert(b[0] == 46u8);
        }
    }
    assert(b != seq![46u8, 46u8]) by {
        if b == seq![46u8, 46u8] {
            assert(b[0] == 46u8);
        }
    }
    paths::lemma_file_name_of_join(root, b);
    vstd::utf8::encode_utf8_valid_utf8(word);
    vstd::utf8::encode_utf8_decode_utf8(word);
    assert forall|i: int| 0 <= i < word.len() implies word[i] != '.' by {
        assert(is_lower(word[i]));
    }
    lemma_no_char(word, '.', 0);
}

} // verus!

verus! {

proof fn lemma_first_char(s: Seq<char>, c: char, from: int, at: int)
    requires
        0 <= from <= at < s.len(),
        s[at] == c,
        forall|i: int| from <= i < at ==> s[i] != c,
    ensures
        char_from(s, c, from) == at,
    decreases at - from,
{
    if from < at {
        lemma_first_char(s, c, from + 1, at);
    }
}

/// The link given for an upload leads back to its id: writing an id as text
/// and reading that text again gives the same id, as long as neither the
/// word nor the extension contains a `.`.
pub proof fn law_display_then_parse(v: PasteIdView)
    requires
        forall|i: int| 0 <= i < v.id.len() ==> v.id[i] != '.',
        v.ext matches Some(e) ==> forall|i: int| 0 <= i < e.len() ==> e[i] != '.',
    ensures
        parse_name(display_id(v)) == v,
{
    match v.ext {
        None => {
            lemma_no_char(v.id, '.', 0);
        },
        Some(e) => {
            let s = v.id + seq!['.'] + e;
            let n = v.id.len() as int;
            assert(s[n] == '.');
            assert forall|i: int| 0 <= i < n implies s[i] != '.' by {
                assert(s[i] == v.id[i]);
            }
            lemma_first_char(s, '.', 0, n);
            assert forall|i: int| n + 1 <= i < s.len() implies s[i] != '.' by {
                assert(s[i] == e[i - n - 1]);
            }
            lemma_no_char(s, '.', n + 1);
            assert(s.subrange(0, n) == v.id);
            assert(s.subrange(n + 1, s.len() as int) == e);
        },
    }
}

} // verus!
