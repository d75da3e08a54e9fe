//! The tokens of a helper macro's rules.
//!
//! The rules of each injected macro are kept as `macro_rules!` source text.
//! This module splits that text into tokens and decides, for each token,
//! where it resolves: an identifier by its name (see `inject::site_of_name`);
//! a `::` or `.` that joins a name to a call-site name at the call site, as
//! that name; every other literal, punctuation mark and delimiter at the
//! macro's definition.
use vstd::prelude::*;
use crate::inject::{Site, site_of_name, ident_site_of_chars};
use crate::text::{chars_of, same_chars, string_of};

verus! {

/// What a token of macro rules is.
#[derive(PartialEq, Eq, Structural, Clone, Copy, Debug)]
pub enum TokKind {
    /// A name or keyword.
    Ident,
    /// A string or integer literal.
    Literal,
    /// A punctuation mark: one character, or `=>` or `::`.
    Punct,
    /// An opening `(`, `[` or `{`.
    Open,
    /// A closing `)`, `]` or `}`.
    Close,
}

/// A token of macro rules: its kind, its text, and where it resolves.
#[derive(Clone, Debug)]
pub struct Tok {
    pub kind: TokKind,
    pub text: String,
    pub site: Site,
}

/// A token as plain values.
pub open spec fn tok_view(t: Tok) -> (TokKind, Seq<char>, Site) {
    (t.kind, t.text@, t.site)
}

/// Tokens as plain values.
pub open spec fn tok_views(ts: Seq<Tok>) -> Seq<(TokKind, Seq<char>, Site)> {
    ts.map_values(|t: Tok| tok_view(t))
}

/// The characters that separate tokens and belong to none.
pub open spec fn is_space(c: char) -> bool {
    c == ' ' || c == '\n' || c == '\t' || c == '\r'
}

/// The characters that begin a name: ASCII letters and `_`.
pub open spec fn is_word_start(c: char) -> bool {
    (97 <= c as u32 && c as u32 <= 122) || (65 <= c as u32 && c as u32 <= 90) || c == '_'
}

/// The ASCII digits.
pub open spec fn is_digit(c: char) -> bool {
    48 <= c as u32 && c as u32 <= 57
}

/// The classes of characters that make up the runs inside a token.
#[derive(PartialEq, Eq, Structural, Clone, Copy, Debug)]
pub enum CharClass {
    /// The characters of a name.
    Word,
    /// The digits of an integer.
    Digit,
    /// The characters inside a string literal.
    Unquoted,
}

/// Whether `c` belongs to class `k`.
pub open spec fn in_class(k: CharClass, c: char) -> bool {
    match k {
        CharClass::Word => is_word_start(c) || is_digit(c),
        CharClass::Digit => is_digit(c),
        CharClass::Unquoted => c != '"',
    }
}

/// The length of the longest prefix of `s` whose characters are all in class `k`.
pub open spec fn run_len(k: CharClass, s: Seq<char>) -> nat
    decreases s.len(),
{
    if s.len() > 0 && in_class(k, s[0]) {
        1 + run_len(k, s.skip(1))
    } else {
        0
    }
}

/// The length of the token that begins `s`: a whole name or integer; a string
/// literal up to and with its closing quote, or to the end where none closes it;
/// `=>` and `::` as one mark; any other character alone.
pub open spec fn token_len(s: Seq<char>) -> nat {
    if s.len() == 0 {
        0
    } else if is_word_start(s[0]) {
        run_len(CharClass::Word, s)
    } else if is_digit(s[0]) {
        run_len(CharClass::Digit, s)
    } else if s[0] == '"' {
        let m = run_len(CharClass::Unquoted, s.skip(1));
        if m + 1 < s.len() {
            m + 2
        } else {
            s.len()
        }
    } else if s.len() >= 2 && ((s[0] == '=' && s[1] == '>') || (s[0] == ':' && s[1] == ':')) {
        2
    } else {
        1
    }
}

/// The kind of the token that begins with `c`.
pub open spec fn kind_of(c: char) -> TokKind {
    if is_word_start(c) {
        TokKind::Ident
    } else if is_digit(c) || c == '"' {
        TokKind::Literal
    } else if c == '(' || c == '[' || c == '{' {
        TokKind::Open
    } else if c == ')' || c == ']' || c == '}' {
        TokKind::Close
    } else {
        TokKind::Punct
    }
}

/// Where a token of kind `k` with text `text` resolves.
pub open spec fn token_site(k: TokKind, text: Seq<char>) -> Site {
    if k == TokKind::Ident {
        site_of_name(text)
    } else {
        Site::Def
    }
}

/// Whether the token at `i` of `ts` is a path separator `::` or a method
/// dot that joins a name to a name resolving at the call site.
pub open spec fn joins_call_path(ts: Seq<(TokKind, Seq<char>, Site)>, i: int) -> bool {
    &&& 0 < i < ts.len() - 1
    &&& ts[i].0 == TokKind::Punct
    &&& (ts[i].1 == "::"@ || ts[i].1 == "."@)
    &&& ts[i - 1].0 == TokKind::Ident
    &&& ts[i + 1].0 == TokKind::Ident
    &&& ts[i + 1].2 == Site::Call
}

/// `ts` with every token that joins a name to a call-site name moved to the
/// call site, as the path `std::any::..` and the call `.into()` in the
/// helper macros need.
pub open spec fn resited(ts: Seq<(TokKind, Seq<char>, Site)>) -> Seq<(TokKind, Seq<char>, Site)> {
    Seq::new(
        ts.len(),
        |i: int|
            if joins_call_path(ts, i) {
                (ts[i].0, ts[i].1, Site::Call)
            } else {
                ts[i]
            },
    )
}

/// A run is never longer than the text it is taken from.
pub proof fn lemma_run_len_bound(k: CharClass, s: Seq<char>)
    ensures
        run_len(k, s) <= s.len(),
    decreases s.len(),
{
    if s.len() > 0 && in_class(k, s[0]) {
        lemma_run_len_bound(k, s.skip(1));
    }
}

/// The token that begins a non-empty text has at least one character and
/// lies within the text.
pub proof fn lemma_token_len_bounds(s: Seq<char>)
    requires
        s.len() > 0,
    ensures
        1 <= token_len(s) <= s.len(),
{
    lemma_run_len_bound(CharClass::Word, s);
    lemma_run_len_bound(CharClass::Digit, s);
    lemma_run_len_bound(CharClass::Unquoted, s.skip(1));
}

/// The tokens of `s`, in order, as plain values: whitespace between tokens
/// is dropped, and each token is the longest that `token_len` allows.
pub open spec fn lexed(s: Seq<char>) -> Seq<(TokKind, Seq<char>, Site)>
    decreases s.len(),
{
    if s.len() == 0 {
        Seq::empty()
    } else if is_space(s[0]) {
        lexed(s.skip(1))
    } else {
        proof {
            lemma_token_len_bounds(s);
        }
        let n = token_len(s);
        let text = s.take(n as int);
        seq![(kind_of(s[0]), text, token_site(kind_of(s[0]), text))] + lexed(s.skip(n as int))
    }
}

fn space(c: char) -> (r: bool)
    ensures
        r == is_space(c),
{
    c == ' ' || c == '\n' || c == '\t' || c == '\r'
}

fn word_start(c: char) -> (r: bool)
    ensures
        r == is_word_start(c),
{
    let u: u32 = c as u32;
    (97 <= u && u <= 122) || (65 <= u && u <= 90) || c == '_'
}

fn digit(c: char) -> (r: bool)
    ensures
        r == is_digit(c),
{
    let u: u32 = c as u32;
    48 <= u && u <= 57
}

fn in_class_exec(k: CharClass, c: char) -> (r: bool)
    ensures
        r == in_class(k, c),
{
    match k {
        CharClass::Word => word_start(c) || digit(c),
        CharClass::Digit => digit(c),
        CharClass::Unquoted => c != '"',
    }
}

/// The end of the run of class `k` that starts at `i`.
fn scan(k: CharClass, cs: &Vec<char>, i: usize) -> (j: usize)
    requires
        i <= cs.len(),
    ensures
        i <= j <= cs.len(),
        j - i == run_len(k, cs@.skip(i as int)),
{
    let mut j: usize = i;
    while j < cs.len() && in_class_exec(k, cs[j])
        invariant
            i <= j <= cs.len(),
            run_len(k, cs@.skip(i as int)) == (j - i) + run_len(k, cs@.skip(j as int)),
        decreases cs.len() - j,
    {
        assert(cs@.skip(j as int)[0] == cs@[j as int]);
        assert(cs@.skip(j as int).skip(1) =~= cs@.skip(j as int + 1));
        j = j + 1;
    }
    if j < cs.len() {
        assert(cs@.skip(j as int)[0] == cs@[j as int]);
    } else {
        assert(cs@.skip(j as int).len() == 0);
    }
    j
}

/// The length of the token that starts at `i`.
fn token_len_at(cs: &Vec<char>, i: usize) -> (n: usize)
    requires
        i < cs.len(),
    ensures
        n == token_len(cs@.skip(i as int)),
{
    let ghost s = cs@.skip(i as int);
    assert(s[0] == cs@[i as int]);
    let c = cs[i];
    if word_start(c) {
        scan(CharClass::Word, cs, i) - i
    } else if digit(c) {
        scan(CharClass::Digit, cs, i) - i
    } else if c == '"' {
        let j = scan(CharClass::Unquoted, cs, i + 1);
        assert(s.skip(1) =~= cs@.skip(i + 1));
        if j < cs.len() {
            j + 1 - i
        } else {
            cs.len() - i
        }
    } else if i + 1 < cs.len() && ((c == '=' && cs[i + 1] == '>') || (c == ':' && cs[i + 1]
        == ':')) {
        assert(s[1] == cs@[i + 1]);
        2
    } else {
        proof {
            if s.len() >= 2 {
                assert(s[1] == cs@[i + 1]);
            }
        }
        1
    }
}

fn kind_of_char(c: char) -> (k: TokKind)
    ensures
        k == kind_of(c),
{
    if word_start(c) {
        TokKind::Ident
    } else if digit(c) || c == '"' {
        TokKind::Literal
    } else if c == '(' || c == '[' || c == '{' {
        TokKind::Open
    } else if c == ')' || c == ']' || c == '}' {
        TokKind::Close
    } else {
        TokKind::Punct
    }
}

/// The characters of `cs` from `from` up to `to`.
fn chars_range(cs: &Vec<char>, from: usize, to: usize) -> (v: Vec<char>)
    requires
        from <= to <= cs.len(),
    ensures
        v@ == cs@.subrange(from as int, to as int),
{
    let mut v: Vec<char> = Vec::new();
    let mut k: usize = from;
    while k < to
        invariant
            from <= k <= to <= cs.len(),
            v@ == cs@.subrange(from as int, k as int),
        decreases to - k,
    {
        v.push(cs[k]);
        assert(v@ =~= cs@.subrange(from as int, k + 1));
        k = k + 1;
    }
    v
}

/// The tokens of the macro rules `rules`, in order, each at the site its
/// kind and text give it.
fn raw_tokens(rules: &str) -> (r: Vec<Tok>)
    ensures
        tok_views(r@) == lexed(rules@),
{
    let cs = chars_of(rules);
    let mut out: Vec<Tok> = Vec::new();
    let mut i: usize = 0;
    assert(cs@.skip(0) =~= cs@);
    while i < cs.len()
        invariant
            i <= cs@.len(),
            cs@ == rules@,
            tok_views(out@) + lexed(cs@.skip(i as int)) == lexed(cs@),
        decreases cs.len() - i,
    {
        let ghost s = cs@.skip(i as int);
        assert(s[0] == cs@[i as int]);
        let c = cs[i];
        if space(c) {
            assert(s.skip(1) =~= cs@.skip(i + 1));
            i = i + 1;
        } else {
            let n = token_len_at(&cs, i);
            proof {
                lemma_token_len_bounds(s);
            }
            let piece = chars_range(&cs, i, i + n);
            assert(piece@ =~= s.take(n as int));
            let kind = kind_of_char(c);
            let site = if kind == TokKind::Ident {
                ident_site_of_chars(&piece)
            } else {
                Site::Def
            };
            let tok = Tok { kind, text: string_of(&piece), site };
            let ghost before = tok_views(out@);
            out.push(tok);
            assert(tok_views(out@) =~= before.push(tok_view(tok)));
            assert(s.skip(n as int) =~= cs@.skip(i + n));
            assert(lexed(s) == seq![tok_view(tok)] + lexed(s.skip(n as int)));
            assert(before.push(tok_view(tok)) + lexed(s.skip(n as int)) =~= before + (seq![
                tok_view(tok),
            ] + lexed(s.skip(n as int))));
            i = i + n;
        }
    }
    assert(cs@.skip(i as int) =~= Seq::<char>::empty());
    assert(tok_views(out@) + Seq::empty() =~= tok_views(out@));
    out
}

/// Whether `t` is the punctuation mark `::` or `.`.
fn is_joiner(t: &Tok) -> (r: bool)
    ensures
        r == (t.kind == TokKind::Punct && (t.text@ == "::"@ || t.text@ == "."@)),
{
    if t.kind != TokKind::Punct {
        return false;
    }
    let cs = chars_of(t.text.as_str());
    let sep = chars_of("::");
    let dot = chars_of(".");
    same_chars(&cs, &sep) || same_chars(&cs, &dot)
}

/// The tokens of the macro rules `rules`, in order, each with the site it
/// resolves at.
pub fn macro_tokens(rules: &str) -> (r: Vec<Tok>)
    ensures
        tok_views(r@) == resited(lexed(rules@)),
{
    let raw = raw_tokens(rules);
    let ghost ts = tok_views(raw@);
    let n = raw.len();
    let mut out: Vec<Tok> = Vec::new();
    let mut i: usize = 0;
    while i < n
        invariant
            i <= n,
            n == raw@.len(),
            ts == tok_views(raw@),
            ts.len() == n,
            tok_views(out@) == resited(ts).take(i as int),
        decreases n - i,
    {
        let t = &raw[i];
        assert(ts[i as int] == tok_view(raw@[i as int]));
        let mut site = t.site;
        if 0 < i && i + 1 < n && is_joiner(t) && raw[i - 1].kind == TokKind::Ident && raw[i
            + 1].kind == TokKind::Ident && raw[i + 1].site == Site::Call {
            assert(ts[i - 1] == tok_view(raw@[i - 1]));
            assert(ts[i + 1] == tok_view(raw@[i + 1]));
            site = Site::Call;
        } else {
            proof {
                if 0 < i && i + 1 < n {
                    assert(ts[i - 1] == tok_view(raw@[i - 1]));
                    assert(ts[i + 1] == tok_view(raw@[i + 1]));
                }
            }
        }
        let tok = Tok { kind: t.kind, text: t.text.clone(), site };
        let ghost before = tok_views(out@);
        out.push(tok);
        assert(tok_views(out@) =~= before.push(tok_view(tok)));
        assert(resited(ts)[i as int] == tok_view(tok));
        assert(tok_views(out@) =~= resited(ts).take(i + 1));
        i = i + 1;
    }
    assert(resited(ts).take(n as int) =~= resited(ts));
    out
}


/// A character that may appear in a name: an ASCII letter or digit, or `_`.
pub open spec fn name_char(c: char) -> bool {
    (97 <= c as u32 <= 122) || (65 <= c as u32 <= 90) || (48 <= c as u32 <= 57) || c == '_'
}

/// A run of characters of class `k` that ends where `rest` starts is the
/// whole run.
proof fn lemma_run_len_of_run(k: CharClass, run: Seq<char>, rest: Seq<char>)
    requires
        forall|i: int| 0 <= i < run.len() ==> in_class(k, #[trigger] run[i]),
        rest.len() == 0 || !in_class(k, rest[0]),
    ensures
        run_len(k, run + rest) == run.len(),
    decreases run.len(),
{
    let s = run + rest;
    if run.len() == 0 {
        assert(s =~= rest);
    } else {
        assert(s[0] == run[0]);
        assert(s.skip(1) =~= run.skip(1) + rest);
        lemma_run_len_of_run(k, run.skip(1), rest);
    }
}

/// A name, made of ASCII letters, digits and `_` and starting with a letter
/// or `_`, is one identifier token when no name character follows it; it
/// resolves where its name says.
pub proof fn lemma_name_is_one_token(n: Seq<char>, rest: Seq<char>)
    requires
        n.len() > 0,
        (97 <= n[0] as u32 <= 122) || (65 <= n[0] as u32 <= 90) || n[0] == '_',
        forall|i: int| 0 <= i < n.len() ==> name_char(#[trigger] n[i]),
        rest.len() == 0 || !name_char(rest[0]),
    ensures
        lexed(n + rest) == seq![(TokKind::Ident, n, site_of_name(n))] + lexed(rest),
{
    let s = n + rest;
    assert(s[0] == n[0]);
    lemma_run_len_of_run(CharClass::Word, n, rest);
    assert(s.take(n.len() as int) =~= n);
    assert(s.skip(n.len() as int) =~= rest);
}

/// A run of ASCII digits is one literal token when no digit follows it.
pub proof fn lemma_number_is_one_token(d: Seq<char>, rest: Seq<char>)
    requires
        d.len() > 0,
        forall|i: int| 0 <= i < d.len() ==> 48 <= (#[trigger] d[i]) as u32 <= 57,
        rest.len() == 0 || !(48 <= rest[0] as u32 <= 57),
    ensures
        lexed(d + rest) == seq![(TokKind::Literal, d, Site::Def)] + lexed(rest),
{
    let s = d + rest;
    assert(s[0] == d[0]);
    lemma_run_len_of_run(CharClass::Digit, d, rest);
    assert(s.take(d.len() as int) =~= d);
    assert(s.skip(d.len() as int) =~= rest);
}

/// A string literal, from its opening quote up to and with its closing quote,
/// is one literal token, resolving at the definition site.
pub proof fn lemma_string_is_one_token(body: Seq<char>, rest: Seq<char>)
    requires
        forall|i: int| 0 <= i < body.len() ==> #[trigger] body[i] != '"',
    ensures
        lexed(seq!['"'] + body + seq!['"'] + rest) == seq![
            (TokKind::Literal, seq!['"'] + body + seq!['"'], Site::Def),
        ] + lexed(rest),
{
    let lit = seq!['"'] + body + seq!['"'];
    let s = lit + rest;
    assert(s[0] == '"');
    assert(s.skip(1) =~= body + (seq!['"'] + rest));
    lemma_run_len_of_run(CharClass::Unquoted, body, seq!['"'] + rest);
    assert(s.take(lit.len() as int) =~= lit);
    assert(s.skip(lit.len() as int) =~= rest);
}

/// `=>` and `::` are each one punctuation token, at the definition site.
pub proof fn lemma_two_char_marks(rest: Seq<char>)
    ensures
        lexed(seq!['=', '>'] + rest) == seq![(TokKind::Punct, seq!['=', '>'], Site::Def)] + lexed(rest),
        lexed(seq![':', ':'] + rest) == seq![(TokKind::Punct, seq![':', ':'], Site::Def)] + lexed(rest),
{
    let a = seq!['=', '>'] + rest;
    let b = seq![':', ':'] + rest;
    assert(a[0] == '=' && a[1] == '>');
    assert(b[0] == ':' && b[1] == ':');
    assert(a.take(2) =~= seq!['=', '>']);
    assert(b.take(2) =~= seq![':', ':']);
    assert(a.skip(2) =~= rest);
    assert(b.skip(2) =~= rest);
}

/// Each delimiter is a token of its own: `(`, `[`, `{` open a group and `)`,
/// `]`, `}` close one, at the definition site.
pub proof fn lemma_delimiters(c: char, rest: Seq<char>)
    requires
        c == '(' || c == '[' || c == '{' || c == ')' || c == ']' || c == '}',
    ensures
        lexed(seq![c] + rest) == seq![
            (if c == '(' || c == '[' || c == '{' {
                TokKind::Open
            } else {
                TokKind::Close
            }, seq![c], Site::Def),
        ] + lexed(rest),
{
    let s = seq![c] + rest;
    assert(s[0] == c);
    assert(s.take(1) =~= seq![c]);
    assert(s.skip(1) =~= rest);
}

/// Spaces, tabs and line breaks between tokens make no token.
pub proof fn lemma_whitespace_makes_no_token(c: char, rest: Seq<char>)
    requires
        c == ' ' || c == '\n' || c == '\t' || c == '\r',
    ensures
        lexed(seq![c] + rest) == lexed(rest),
{
    let s = seq![c] + rest;
    assert(s[0] == c);
    assert(s.skip(1) =~= rest);
}

/// Moving joining marks to the call site keeps every token's kind and text,
/// changes only a `::` or `.` between two names whose second resolves at the
/// call site, and moves exactly those.
pub proof fn lemma_resited_moves_only_joining_marks(ts: Seq<(TokKind, Seq<char>, Site)>, i: int)
    requires
        0 <= i < ts.len(),
    ensures
        resited(ts).len() == ts.len(),
        resited(ts)[i].0 == ts[i].0,
        resited(ts)[i].1 == ts[i].1,
        (0 < i < ts.len() - 1 && ts[i].0 == TokKind::Punct && (ts[i].1 == seq![':', ':']
            || ts[i].1 == seq!['.']) && ts[i - 1].0 == TokKind::Ident && ts[i + 1].0
            == TokKind::Ident && ts[i + 1].2 == Site::Call) ==> resited(ts)[i].2 == Site::Call,
        !(0 < i < ts.len() - 1 && ts[i].0 == TokKind::Punct && (ts[i].1 == seq![':', ':']
            || ts[i].1 == seq!['.']) && ts[i - 1].0 == TokKind::Ident && ts[i + 1].0
            == TokKind::Ident && ts[i + 1].2 == Site::Call) ==> resited(ts)[i] == ts[i],
{
    reveal_strlit("::");
    reveal_strlit(".");
    assert("::"@ =~= seq![':', ':']);
    assert("."@ =~= seq!['.']);
}

} // verus!
