//! Identifier generation and validation.
//!
//! An identifier is a string over the 62-symbol alphabet `0-9`, `A-Z`, `a-z`.
//! Generation draws each symbol uniformly at random from that alphabet;
//! validation accepts exactly the strings whose every character is an ASCII
//! letter or digit, which keeps path separators, dots and control characters
//! out of the storage keys.

use rand::Rng;
use vstd::prelude::*;
use vstd::string::StrSliceExecFns;
use vstd::string::StringExecFns;

verus! {

/// The character at position `i` of the generation alphabet: the digits
/// `0`-`9`, then the uppercase letters `A`-`Z`, then the lowercase letters
/// `a`-`z`, in that order.
pub open spec fn base62_char_at(i: int) -> char {
    if i < 10 {
        (48 + i) as char
    } else if i < 36 {
        (65 + (i - 10)) as char
    } else {
        (97 + (i - 36)) as char
    }
}

/// The full 62-symbol generation alphabet, in order.
pub open spec fn base62_alphabet() -> Seq<char> {
    Seq::new(62, |i: int| base62_char_at(i))
}

/// Whether `c` is an ASCII letter or digit.
pub open spec fn is_id_char(c: char) -> bool {
    ||| 48 <= c as int <= 57
    ||| 65 <= c as int <= 90
    ||| 97 <= c as int <= 122
}

/// Whether every character of `s` is an ASCII letter or digit. The empty
/// string is valid: zero characters satisfy the condition vacuously.
pub open spec fn is_valid_id(s: Seq<char>) -> bool {
    forall|i: int| 0 <= i < s.len() ==> is_id_char(s[i])
}

/// A _probably_ unique paste ID: a string whose every character is an ASCII
/// letter or digit. Freshly generated IDs use only the 62-symbol alphabet;
/// IDs accepted from clients may be any alphanumeric string of any length.
/// Uniqueness is never checked: a collision at the storage layer silently
/// overwrites, by design.
pub struct PasteID {
    id: String,
}

impl View for PasteID {
    type V = Seq<char>;

    closed spec fn view(&self) -> Seq<char> {
        self.id@
    }
}

impl PasteID {
    /// Every character of the identifier is an ASCII letter or digit.
    pub open spec fn wf(&self) -> bool {
        is_valid_id(self@)
    }
}

/// Relies on rand::thread_rng and rand::Rng::gen::<usize>: one independent
/// uniform draw from the process-wide random source. Nothing can be promised
/// of the value drawn.
#[verifier::external_body]
fn random_usize() -> usize {
    rand::thread_rng().gen::<usize>()
}

/// Relies on String::push: appends the given character to the end of the
/// string.
#[verifier::external_body]
fn push_char(s: &mut String, c: char)
    ensures
        final(s)@ == old(s)@ + seq![c],
{
    s.push(c);
}

/// The character at position `i` of the generation alphabet.
fn base62_symbol(i: usize) -> (c: char)
    requires
        i < 62,
    ensures
        c == base62_char_at(i as int),
        is_id_char(c),
{
    let b: u8 = if i < 10 {
        48 + (i as u8)
    } else if i < 36 {
        65 + ((i - 10) as u8)
    } else {
        97 + ((i - 36) as u8)
    };
    b as char
}

impl PasteID {
    /// Generate a _probably_ unique ID with `size` characters, each drawn
    /// independently and uniformly at random from the 62-symbol alphabet.
    /// No uniqueness check against existing identifiers is performed.
    pub fn new(size: usize) -> (r: PasteID)
        ensures
            r.wf(),
            r@.len() == size,
            forall|i: int| 0 <= i < size ==> base62_alphabet().contains(#[trigger] r@[i]),
    {
        let mut id = String::new();
        let mut k: usize = 0;
        while k < size
            invariant
                k <= size,
                id@.len() == k,
                forall|i: int| 0 <= i < k ==> base62_alphabet().contains(#[trigger] id@[i]),
                forall|i: int| 0 <= i < k ==> is_id_char(#[trigger] id@[i]),
            decreases size - k,
        {
            let draw = random_usize();
            let j = draw % 62;
            let c = base62_symbol(j);
            push_char(&mut id, c);
            proof {
                assert(base62_alphabet()[j as int] == c);
                assert(base62_alphabet().contains(c));
            }
            k = k + 1;
        }
        PasteID { id }
    }

    /// Return a `PasteID` if every character of the path segment is an ASCII
    /// letter or digit (the empty string qualifies vacuously). Otherwise
    /// return the invalid segment itself as the `Err` value, so the caller
    /// can report what was rejected.
    pub fn from_param<'a>(param: &'a str) -> (r: Result<PasteID, &'a str>)
        ensures
            r is Ok <==> is_valid_id(param@),
            r is Ok ==> r->Ok_0.wf() && r->Ok_0@ == param@,
            r is Err ==> r->Err_0@ == param@,
    {
        let n = param.unicode_len();
        let mut i: usize = 0;
        while i < n
            invariant
                n == param@.len(),
                i <= n,
                forall|k: int| 0 <= k < i ==> is_id_char(#[trigger] param@[k]),
            decreases n - i,
        {
            let c = param.get_char(i);
            if !is_id_char_exec(c) {
                return Err(param);
            }
            i = i + 1;
        }
        Ok(PasteID { id: param.to_owned() })
    }

    /// The filesystem location of this identifier's content: the fixed
    /// storage-root directory joined with the identifier as a single path
    /// component.
    pub fn file_path(&self) -> (r: String)
        ensures
            r@ == "upload/"@ + self@,
    {
        let mut r = String::from_str("upload/");
        r.append(self.id.as_str());
        r
    }

    /// The identifier's characters.
    pub fn as_str(&self) -> (r: &str)
        ensures
            r@ == self@,
    {
        self.id.as_str()
    }
}

/// Re-validating an already-accepted identifier always accepts again:
/// validation is a pure function of the string's characters, so any string
/// held by a well-formed `PasteID` — freshly generated or previously
/// accepted — passes `from_param` anew.
pub proof fn lemma_revalidation_accepts(id: PasteID)
    requires
        id.wf(),
    ensures
        is_valid_id(id@),
{
}

/// The generation alphabet and the validator agree exactly: a character is
/// one of the 62 generation symbols if and only if the validator accepts it.
/// In particular every freshly generated identifier re-validates.
pub proof fn lemma_alphabet_is_exactly_id_chars(c: char)
    ensures
        base62_alphabet().contains(c) <==> is_id_char(c),
{
    if is_id_char(c) {
        let j: int = if 48 <= c as int <= 57 {
            c as int - 48
        } else if 65 <= c as int <= 90 {
            c as int - 65 + 10
        } else {
            c as int - 97 + 36
        };
        assert(base62_alphabet()[j] == c);
    }
}

/// An accepted identifier is safe as a single filesystem path segment: it
/// contains no path separator, no dot, and no NUL byte, so it can neither
/// traverse directories nor escape the storage root.
pub proof fn lemma_valid_id_is_path_safe(s: Seq<char>)
    requires
        is_valid_id(s),
    ensures
        forall|i: int| 0 <= i < s.len() ==> s[i] != '/',
        forall|i: int| 0 <= i < s.len() ==> s[i] != '\\',
        forall|i: int| 0 <= i < s.len() ==> s[i] != '.',
        forall|i: int| 0 <= i < s.len() ==> s[i] != '\u{0}',
{
}

/// Whether `c` is an ASCII letter or digit.
fn is_id_char_exec(c: char) -> (b: bool)
    ensures
        b == is_id_char(c),
{
    let u = c as u32;
    (48 <= u && u <= 57) || (65 <= u && u <= 90) || (97 <= u && u <= 122)
}

} // verus!
