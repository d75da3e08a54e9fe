//! Text helpers of the script mode, each under several names, as the
//! script-mode `ScriptStrExt` trait defines them on string slices.
use vstd::prelude::*;
use vstd::string::StringSliceAdditionalSpecFns;
use crate::text::{chars_of, string_of};

verus! {

/// The Unicode uppercase of `s`, as `str::to_uppercase` gives it.
pub uninterp spec fn uppercase_of(s: Seq<char>) -> Seq<char>;

/// The Unicode lowercase of `s`, as `str::to_lowercase` gives it.
pub uninterp spec fn lowercase_of(s: Seq<char>) -> Seq<char>;

/// `p` occurs in `s` as a contiguous run of characters starting at position `i`.
pub open spec fn occurs_at(s: Seq<char>, p: Seq<char>, i: int) -> bool {
    0 <= i && i + p.len() <= s.len() && s.subrange(i, i + p.len()) == p
}

/// `p` occurs in `s` as a contiguous run of characters.
pub open spec fn contains_text(s: Seq<char>, p: Seq<char>) -> bool {
    exists|i: int| #[trigger] occurs_at(s, p, i)
}

/// The number of bytes of `c` in UTF-8.
pub open spec fn utf8_width(c: char) -> nat {
    if (c as u32) < 0x80 {
        1
    } else if (c as u32) < 0x800 {
        2
    } else if (c as u32) < 0x10000 {
        3
    } else {
        4
    }
}

/// The number of bytes of `s` in UTF-8.
pub open spec fn utf8_len(s: Seq<char>) -> nat
    decreases s.len(),
{
    if s.len() == 0 {
        0
    } else {
        utf8_len(s.drop_last()) + utf8_width(s.last())
    }
}

/// `r` is what `str::find` gives for pattern `p` in `s`: the byte position
/// of the first occurrence of `p`, or `None` where `p` does not occur.
pub open spec fn found_at(s: Seq<char>, p: Seq<char>, r: Option<usize>) -> bool {
    match r {
        Some(k) => exists|i: int|
            #[trigger] occurs_at(s, p, i) && (forall|j: int| 0 <= j < i ==> !occurs_at(s, p, j))
                && k == utf8_len(s.take(i)),
        None => !contains_text(s, p),
    }
}

/// `s` with every occurrence of `from` replaced by `to`, the occurrences taken
/// from the left without overlap; an empty `from` occurs before every
/// character and at the end.
pub open spec fn replaced(s: Seq<char>, from: Seq<char>, to: Seq<char>) -> Seq<char>
    decreases s.len(),
{
    if s.len() == 0 {
        if from.len() == 0 {
            to
        } else {
            Seq::empty()
        }
    } else if from.len() == 0 {
        to + seq![s[0]] + replaced(s.skip(1), from, to)
    } else if occurs_at(s, from, 0) {
        to + replaced(s.skip(from.len() as int), from, to)
    } else {
        seq![s[0]] + replaced(s.skip(1), from, to)
    }
}

/// Trusted: calls `str::to_uppercase`, which returns the uppercase of the
/// text by Unicode's rules; named `uppercase_of`.
#[verifier::external_body]
fn str_to_uppercase(s: &str) -> (r: String)
    ensures
        r@ == uppercase_of(s@),
{
    s.to_uppercase()
}

/// Trusted: calls `str::to_lowercase`, which returns the lowercase of the
/// text by Unicode's rules; named `lowercase_of`.
#[verifier::external_body]
fn str_to_lowercase(s: &str) -> (r: String)
    ensures
        r@ == lowercase_of(s@),
{
    s.to_lowercase()
}

/// Trusted: calls `str::contains` with a `&str` pattern, which the standard
/// library documents as true exactly when the pattern matches a sub-slice.
#[verifier::external_body]
fn str_contains(s: &str, p: &str) -> (r: bool)
    ensures
        r == contains_text(s@, p@),
{
    s.contains(p)
}

/// Trusted: calls `str::find` with a `&str` pattern, which the standard
/// library documents as the byte index of the first match, or `None` when
/// the pattern does not match.
#[verifier::external_body]
fn str_find(s: &str, p: &str) -> (r: Option<usize>)
    ensures
        found_at(s@, p@, r),
{
    s.find(p)
}

/// Trusted: calls `str::replace`, which replaces every match of `from` by
/// `to`, the matches found from the left without overlap.
#[verifier::external_body]
fn str_replace(s: &str, from: &str, to: &str) -> (r: String)
    ensures
        r@ == replaced(s@, from@, to@),
{
    s.replace(from, to)
}

/// The first character of `s` as text, or empty text.
pub open spec fn first_text(s: Seq<char>) -> Seq<char> {
    if s.len() > 0 {
        seq![s[0]]
    } else {
        Seq::empty()
    }
}

/// The last character of `s` as text, or empty text.
pub open spec fn last_text(s: Seq<char>) -> Seq<char> {
    if s.len() > 0 {
        seq![s.last()]
    } else {
        Seq::empty()
    }
}

/// The first character of `s` as a `String`.
fn first_of(s: &str) -> (r: String)
    ensures
        r@ == first_text(s@),
{
    let cs = chars_of(s);
    if cs.len() == 0 {
        String::new()
    } else {
        let one: Vec<char> = vec![cs[0]];
        string_of(&one)
    }
}

/// The last character of `s` as a `String`.
fn last_of(s: &str) -> (r: String)
    ensures
        r@ == last_text(s@),
{
    let cs = chars_of(s);
    if cs.len() == 0 {
        String::new()
    } else {
        let one: Vec<char> = vec![cs[cs.len() - 1]];
        string_of(&one)
    }
}

/// The characters of `s` in reverse order.
fn reverse_of(s: &str) -> (r: String)
    ensures
        r@ == s@.reverse(),
{
    let cs = chars_of(s);
    let mut rev: Vec<char> = Vec::new();
    let mut i: usize = cs.len();
    while i > 0
        invariant
            i <= cs@.len(),
            rev@ == cs@.skip(i as int).reverse(),
        decreases i,
    {
        i = i - 1;
        rev.push(cs[i]);
        assert(rev@ =~= cs@.skip(i as int).reverse());
    }
    assert(cs@.skip(0) =~= cs@);
    string_of(&rev)
}

/// Text helpers on string slices.
pub trait ScriptStrExt {
    /// The characters of the text.
    spec fn text(&self) -> Seq<char>;

    /// The UTF-8 bytes of the text.
    spec fn text_bytes(&self) -> Seq<u8>;

    /// The first character as text, or empty text.
    fn first(&self) -> (r: String)
        ensures
            r@ == first_text(self.text()),
    ;

    /// The same as `first`.
    fn head(&self) -> (r: String)
        ensures
            r@ == first_text(self.text()),
    ;

    /// The same as `first`.
    fn start(&self) -> (r: String)
        ensures
            r@ == first_text(self.text()),
    ;

    /// The same as `first`.
    fn begin(&self) -> (r: String)
        ensures
            r@ == first_text(self.text()),
    ;

    /// The last character as text, or empty text.
    fn last(&self) -> (r: String)
        ensures
            r@ == last_text(self.text()),
    ;

    /// The same as `last`.
    fn tail(&self) -> (r: String)
        ensures
            r@ == last_text(self.text()),
    ;

    /// The same as `last`.
    fn end(&self) -> (r: String)
        ensures
            r@ == last_text(self.text()),
    ;

    /// The characters in reverse order.
    fn reverse(&self) -> (r: String)
        ensures
            r@ == self.text().reverse(),
    ;

    /// The length in UTF-8 bytes.
    fn size(&self) -> (r: usize)
        ensures
            r == self.text_bytes().len() as usize,
    ;

    /// The same as `size`.
    fn length(&self) -> (r: usize)
        ensures
            r == self.text_bytes().len() as usize,
    ;

    /// The uppercase of the text.
    fn upper(&self) -> (r: String)
        ensures
            r@ == uppercase_of(self.text()),
    ;

    /// The same as `upper`.
    fn to_upper(&self) -> (r: String)
        ensures
            r@ == uppercase_of(self.text()),
    ;

    /// The same as `upper`.
    #[allow(non_snake_case)]
    fn toUpper(&self) -> (r: String)
        ensures
            r@ == uppercase_of(self.text()),
    ;

    /// The same as `upper`.
    fn uppercase(&self) -> (r: String)
        ensures
            r@ == uppercase_of(self.text()),
    ;

    /// The lowercase of the text.
    fn lower(&self) -> (r: String)
        ensures
            r@ == lowercase_of(self.text()),
    ;

    /// The same as `lower`.
    fn to_lower(&self) -> (r: String)
        ensures
            r@ == lowercase_of(self.text()),
    ;

    /// The same as `lower`.
    #[allow(non_snake_case)]
    fn toLower(&self) -> (r: String)
        ensures
            r@ == lowercase_of(self.text()),
    ;

    /// The same as `lower`.
    fn lowercase(&self) -> (r: String)
        ensures
            r@ == lowercase_of(self.text()),
    ;

    /// Whether `pat` occurs in the text.
    fn includes(&self, pat: &str) -> (r: bool)
        ensures
            r == contains_text(self.text(), pat@),
    ;

    /// The same as `includes`.
    fn has(&self, pat: &str) -> (r: bool)
        ensures
            r == contains_text(self.text(), pat@),
    ;

    /// The same as `includes`.
    fn holds(&self, pat: &str) -> (r: bool)
        ensures
            r == contains_text(self.text(), pat@),
    ;

    /// The byte position of the first occurrence of `pat`, or `None`.
    fn search(&self, pat: &str) -> (r: Option<usize>)
        ensures
            found_at(self.text(), pat@, r),
            r is None <==> !contains_text(self.text(), pat@),
    ;

    /// The same as `search`.
    fn locate(&self, pat: &str) -> (r: Option<usize>)
        ensures
            found_at(self.text(), pat@, r),
            r is None <==> !contains_text(self.text(), pat@),
    ;

    /// The text with every occurrence of `from` replaced by `to`.
    fn substitute(&self, from: &str, to: &str) -> (r: String)
        ensures
            r@ == replaced(self.text(), from@, to@),
    ;

    /// The same as `substitute`.
    fn swap(&self, from: &str, to: &str) -> (r: String)
        ensures
            r@ == replaced(self.text(), from@, to@),
    ;
}

impl ScriptStrExt for str {
    open spec fn text(&self) -> Seq<char> {
        self@
    }

    open spec fn text_bytes(&self) -> Seq<u8> {
        self.spec_bytes()
    }

    fn first(&self) -> (r: String) {
        first_of(self)
    }

    fn head(&self) -> (r: String) {
        first_of(self)
    }

    fn start(&self) -> (r: String) {
        first_of(self)
    }

    fn begin(&self) -> (r: String) {
        first_of(self)
    }

    fn last(&self) -> (r: String) {
        last_of(self)
    }

    fn tail(&self) -> (r: String) {
        last_of(self)
    }

    fn end(&self) -> (r: String) {
        last_of(self)
    }

    fn reverse(&self) -> (r: String) {
        reverse_of(self)
    }

    fn size(&self) -> (r: usize) {
        self.len()
    }

    fn length(&self) -> (r: usize) {
        self.len()
    }

    fn upper(&self) -> (r: String) {
        str_to_uppercase(self)
    }

    fn to_upper(&self) -> (r: String) {
        str_to_uppercase(self)
    }

    #[allow(non_snake_case)]
    fn toUpper(&self) -> (r: String) {
        str_to_uppercase(self)
    }

    fn uppercase(&self) -> (r: String) {
        str_to_uppercase(self)
    }

    fn lower(&self) -> (r: String) {
        str_to_lowercase(self)
    }

    fn to_lower(&self) -> (r: String) {
        str_to_lowercase(self)
    }

    #[allow(non_snake_case)]
    fn toLower(&self) -> (r: String) {
        str_to_lowercase(self)
    }

    fn lowercase(&self) -> (r: String) {
        str_to_lowercase(self)
    }

    fn includes(&self, pat: &str) -> (r: bool) {
        str_contains(self, pat)
    }

    fn has(&self, pat: &str) -> (r: bool) {
        str_contains(self, pat)
    }

    fn holds(&self, pat: &str) -> (r: bool) {
        str_contains(self, pat)
    }

    fn search(&self, pat: &str) -> (r: Option<usize>) {
        str_find(self, pat)
    }

    fn locate(&self, pat: &str) -> (r: Option<usize>) {
        str_find(self, pat)
    }

    fn substitute(&self, from: &str, to: &str) -> (r: String) {
        str_replace(self, from, to)
    }

    fn swap(&self, from: &str, to: &str) -> (r: String) {
        str_replace(self, from, to)
    }
}

} // verus!
