//! The Rust source of the items that script mode injects.
//!
//! Each function here writes out, from the plan in `inject`, the source text
//! of one group of injected items: trait declarations with one method per
//! row of a table, the impls with the body that each row's operation calls
//! for, and the free functions and constants beside them. The compiler's
//! parser reads the text back outside the library.
use vstd::prelude::*;
use crate::inject::{
    ListMethod, ListOp, MathConst, StrMethod, StrOp, TruthTest, TruthyImpl, ValConversion,
    ValFormat, ValFrom, ValVariant, approx_eq_epsilon, approx_eq_epsilon_text, math_const_table,
    math_consts, slice_ext_method_table, slice_ext_methods, slice_filter_method_table,
    slice_filter_methods, str_ext_method_table, str_ext_methods, truthy_impl_table, truthy_impls,
    val_from_impls, val_from_table, val_variant_table, val_variants, vec_ext_method_table,
    vec_ext_methods,
};
use crate::strings::{contains_text, occurs_at};
use crate::text::{chars_of, string_of};

verus! {

/// The texts `f(x)` of the items `xs`, one after another.
pub open spec fn joined<A>(xs: Seq<A>, f: spec_fn(A) -> Seq<char>) -> Seq<char>
    decreases xs.len(),
{
    if xs.len() == 0 {
        Seq::empty()
    } else {
        joined(xs.drop_last(), f) + f(xs.last())
    }
}

/// One more item adds its text at the end.
pub proof fn lemma_joined_step<A>(xs: Seq<A>, f: spec_fn(A) -> Seq<char>, i: int)
    requires
        0 <= i < xs.len(),
    ensures
        joined(xs.take(i + 1), f) == joined(xs.take(i), f) + f(xs[i]),
{
    assert(xs.take(i + 1).drop_last() =~= xs.take(i));
}

/// Appends the characters of `piece` to `out`.
fn push_text(out: &mut Vec<char>, piece: &str)
    ensures
        final(out)@ == old(out)@ + piece@,
{
    let cs = chars_of(piece);
    let ghost start = out@;
    let mut i: usize = 0;
    while i < cs.len()
        invariant
            i <= cs@.len(),
            cs@ == piece@,
            out@ == start + cs@.take(i as int),
        decreases cs@.len() - i,
    {
        out.push(cs[i]);
        i = i + 1;
        assert(out@ =~= start + cs@.take(i as int));
    }
    assert(cs@.take(cs@.len() as int) =~= cs@);
}

/// The signature of a `ScriptStrExt` method after its name.
pub open spec fn str_sig(op: StrOp) -> &'static str {
    match op {
        StrOp::First | StrOp::Last | StrOp::Reverse | StrOp::Upper | StrOp::Lower => "(&self) -> String",
        StrOp::Size => "(&self) -> usize",
        StrOp::Contains => "(&self, pat: &str) -> bool",
        StrOp::Find => "(&self, pat: &str) -> Option<usize>",
        StrOp::Replace => "(&self, from: &str, to: &str) -> String",
    }
}

/// The body of a `ScriptStrExt` method.
pub open spec fn str_body(op: StrOp) -> &'static str {
    match op {
        StrOp::First => "{ self.chars().next().map(|c| c.to_string()).unwrap_or_default() }",
        StrOp::Last => "{ self.chars().last().map(|c| c.to_string()).unwrap_or_default() }",
        StrOp::Reverse => "{ self.chars().rev().collect() }",
        StrOp::Size => "{ self.len() }",
        StrOp::Upper => "{ self.to_uppercase() }",
        StrOp::Lower => "{ self.to_lowercase() }",
        StrOp::Contains => "{ self.contains(pat) }",
        StrOp::Find => "{ self.find(pat) }",
        StrOp::Replace => "{ self.replace(from, to) }",
    }
}

fn str_sig_of(op: StrOp) -> (r: &'static str)
    ensures
        r == str_sig(op),
{
    match op {
        StrOp::First | StrOp::Last | StrOp::Reverse | StrOp::Upper | StrOp::Lower => "(&self) -> String",
        StrOp::Size => "(&self) -> usize",
        StrOp::Contains => "(&self, pat: &str) -> bool",
        StrOp::Find => "(&self, pat: &str) -> Option<usize>",
        StrOp::Replace => "(&self, from: &str, to: &str) -> String",
    }
}

fn str_body_of(op: StrOp) -> (r: &'static str)
    ensures
        r == str_body(op),
{
    match op {
        StrOp::First => "{ self.chars().next().map(|c| c.to_string()).unwrap_or_default() }",
        StrOp::Last => "{ self.chars().last().map(|c| c.to_string()).unwrap_or_default() }",
        StrOp::Reverse => "{ self.chars().rev().collect() }",
        StrOp::Size => "{ self.len() }",
        StrOp::Upper => "{ self.to_uppercase() }",
        StrOp::Lower => "{ self.to_lowercase() }",
        StrOp::Contains => "{ self.contains(pat) }",
        StrOp::Find => "{ self.find(pat) }",
        StrOp::Replace => "{ self.replace(from, to) }",
    }
}

/// The declaration of a `ScriptStrExt` method in the trait.
pub open spec fn str_decl_text(m: StrMethod) -> Seq<char> {
    "fn "@ + m.name@ + str_sig(m.op)@ + ";\n"@
}

/// The definition of a `ScriptStrExt` method in the impl for `&str`.
pub open spec fn str_impl_text(m: StrMethod) -> Seq<char> {
    "fn "@ + m.name@ + str_sig(m.op)@ + " "@ + str_body(m.op)@ + "\n"@
}

pub open spec fn str_decl_fn() -> spec_fn(StrMethod) -> Seq<char> {
    |m: StrMethod| str_decl_text(m)
}

pub open spec fn str_impl_fn() -> spec_fn(StrMethod) -> Seq<char> {
    |m: StrMethod| str_impl_text(m)
}

/// The injected `__debug_string` helper.
pub open spec fn debug_string_fn_text() -> &'static str {
    "#[allow(dead_code)] fn __debug_string<T: ::std::fmt::Debug>(x: &T) -> String { format!(\"{:?}\", x) }\n"
}

/// The `ScriptStrExt` trait and its impl for `&str`.
pub open spec fn string_helpers_text() -> Seq<char> {
    "#[allow(dead_code)] trait ScriptStrExt { "@ + joined(str_ext_method_table(), str_decl_fn())
        + " }\nimpl ScriptStrExt for &str { "@ + joined(str_ext_method_table(), str_impl_fn())
        + " }\n"@
}

/// The source of the `__debug_string` helper, which formats a value with `Debug`.
pub fn debug_string_helper_source() -> (r: String)
    ensures
        r@ == debug_string_fn_text()@,
{
    let mut out: Vec<char> = Vec::new();
    push_text(
        &mut out,
        "#[allow(dead_code)] fn __debug_string<T: ::std::fmt::Debug>(x: &T) -> String { format!(\"{:?}\", x) }\n",
    );
    string_of(&out)
}

/// Appends the text `f(m)` of each method `m` of `ms` with `f` the declaration
/// (`decl`) or the definition (`!decl`).
fn push_str_methods(out: &mut Vec<char>, ms: &Vec<StrMethod>, decl: bool)
    ensures
        final(out)@ == old(out)@ + joined(
            ms@,
            if decl {
                str_decl_fn()
            } else {
                str_impl_fn()
            },
        ),
{
    let ghost f = if decl {
        str_decl_fn()
    } else {
        str_impl_fn()
    };
    let ghost start = out@;
    let mut i: usize = 0;
    assert(ms@.take(0) =~= Seq::<StrMethod>::empty());
    while i < ms.len()
        invariant
            i <= ms@.len(),
            f == (if decl {
                str_decl_fn()
            } else {
                str_impl_fn()
            }),
            out@ == start + joined(ms@.take(i as int), f),
        decreases ms@.len() - i,
    {
        proof {
            lemma_joined_step(ms@, f, i as int);
        }
        let m = ms[i];
        let ghost before = out@;
        push_text(out, "fn ");
        push_text(out, m.name);
        push_text(out, str_sig_of(m.op));
        if decl {
            push_text(out, ";\n");
            assert(out@ =~= before + str_decl_text(m));
        } else {
            push_text(out, " ");
            push_text(out, str_body_of(m.op));
            push_text(out, "\n");
            assert(out@ =~= before + str_impl_text(m));
        }
        i = i + 1;
        assert(out@ =~= start + joined(ms@.take(i as int), f));
    }
    assert(ms@.take(ms@.len() as int) =~= ms@);
}

/// The source of the `ScriptStrExt` trait and its impl for `&str`.
pub fn string_helpers_source() -> (r: String)
    ensures
        r@ == string_helpers_text(),
{
    let ms = str_ext_methods();
    let mut out: Vec<char> = Vec::new();
    push_text(&mut out, "#[allow(dead_code)] trait ScriptStrExt { ");
    push_str_methods(&mut out, &ms, true);
    push_text(&mut out, " }\nimpl ScriptStrExt for &str { ");
    push_str_methods(&mut out, &ms, false);
    push_text(&mut out, " }\n");
    assert(out@ =~= string_helpers_text());
    string_of(&out)
}

/// The test of a `Truthy` impl on `self`.
pub open spec fn truth_body(t: TruthTest) -> &'static str {
    match t {
        TruthTest::Never => "false",
        TruthTest::Itself => "*self",
        TruthTest::NonZero => "*self != 0",
        TruthTest::NonZeroFloat => "*self != 0.0",
        TruthTest::NotEmpty => "!self.is_empty()",
        TruthTest::IsSome => "self.is_some()",
    }
}

fn truth_body_of(t: TruthTest) -> (r: &'static str)
    ensures
        r == truth_body(t),
{
    match t {
        TruthTest::Never => "false",
        TruthTest::Itself => "*self",
        TruthTest::NonZero => "*self != 0",
        TruthTest::NonZeroFloat => "*self != 0.0",
        TruthTest::NotEmpty => "!self.is_empty()",
        TruthTest::IsSome => "self.is_some()",
    }
}

/// An injected `impl Truthy`.
pub open spec fn truthy_impl_text(t: TruthyImpl) -> Seq<char> {
    (if t.generic {
        "impl<T> Truthy for "@ + t.ty@ + "<T>"@
    } else {
        "impl Truthy for "@ + t.ty@
    }) + " { fn is_truthy(&self) -> bool { "@ + truth_body(t.test)@ + " } }\n"@
}

pub open spec fn truthy_impl_fn() -> spec_fn(TruthyImpl) -> Seq<char> {
    |t: TruthyImpl| truthy_impl_text(t)
}

/// The `Truthy` trait and its impls.
pub open spec fn truthy_helpers_text() -> Seq<char> {
    "#[allow(dead_code)] trait Truthy { fn is_truthy(&self) -> bool; }\n"@ + joined(
        truthy_impl_table(),
        truthy_impl_fn(),
    )
}

/// The source of the `Truthy` trait and its impls.
pub fn truthy_helpers_source() -> (r: String)
    ensures
        r@ == truthy_helpers_text(),
{
    let ts = truthy_impls();
    let mut out: Vec<char> = Vec::new();
    push_text(&mut out, "#[allow(dead_code)] trait Truthy { fn is_truthy(&self) -> bool; }\n");
    let ghost start = out@;
    let ghost f = truthy_impl_fn();
    let mut i: usize = 0;
    assert(ts@.take(0) =~= Seq::<TruthyImpl>::empty());
    while i < ts.len()
        invariant
            i <= ts@.len(),
            f == truthy_impl_fn(),
            out@ == start + joined(ts@.take(i as int), f),
        decreases ts@.len() - i,
    {
        proof {
            lemma_joined_step(ts@, f, i as int);
        }
        let t = ts[i];
        let ghost before = out@;
        if t.generic {
            push_text(&mut out, "impl<T> Truthy for ");
            push_text(&mut out, t.ty);
            push_text(&mut out, "<T>");
        } else {
            push_text(&mut out, "impl Truthy for ");
            push_text(&mut out, t.ty);
        }
        push_text(&mut out, " { fn is_truthy(&self) -> bool { ");
        push_text(&mut out, truth_body_of(t.test));
        push_text(&mut out, " } }\n");
        assert(out@ =~= before + truthy_impl_text(t));
        i = i + 1;
        assert(out@ =~= start + joined(ts@.take(i as int), f));
    }
    assert(ts@.take(ts@.len() as int) =~= ts@);
    string_of(&out)
}

/// Which text of a list method: its declaration in the trait, its definition
/// for anything that is `AsRef<[T]>` (or `Vec<T>`), or its definition for `[T]`.
#[derive(PartialEq, Eq, Structural, Clone, Copy, Debug)]
pub enum ListText {
    Decl,
    AsRefImpl,
    SliceImpl,
}

/// The rest of a list method's signature, after its name.
pub open spec fn list_sig_tail(op: ListOp) -> &'static str {
    match op {
        ListOp::MapEach => "<U, F: Fn(T) -> U>(&self, f: F) -> Vec<U>",
        ListOp::Filter => "<F: Fn(&T) -> bool>(&self, f: F) -> Vec<T>",
        ListOp::FirstCloned => "(&self) -> Option<T>",
        ListOp::Pairs => "(&self) -> Vec<(usize, T)>",
        ListOp::Shift => "(&mut self) -> Option<T>",
        ListOp::SortDesc => "(&self) -> Vec<T> where T: Ord + Clone",
    }
}

/// The body of a list method; `on_slice` when `self` is the slice itself.
pub open spec fn list_body(op: ListOp, on_slice: bool) -> &'static str {
    match op {
        ListOp::MapEach => if on_slice {
            "{ self.iter().cloned().map(f).collect() }"
        } else {
            "{ self.as_ref().iter().cloned().map(f).collect() }"
        },
        ListOp::Filter => if on_slice {
            "{ self.iter().filter(|x| f(x)).cloned().collect() }"
        } else {
            "{ self.as_ref().iter().filter(|x| f(x)).cloned().collect() }"
        },
        ListOp::FirstCloned => if on_slice {
            "{ self.first().cloned() }"
        } else {
            "{ self.as_ref().first().cloned() }"
        },
        ListOp::Pairs => if on_slice {
            "{ self.iter().enumerate().map(|(i, v)| (i, v.clone())).collect() }"
        } else {
            "{ self.as_ref().iter().enumerate().map(|(i, v)| (i, v.clone())).collect() }"
        },
        ListOp::Shift => "{ if self.is_empty() { None } else { Some(self.remove(0)) } }",
        ListOp::SortDesc => "{ let mut v = self.clone(); v.sort_by(|a, b| b.cmp(a)); v }",
    }
}

fn list_sig_tail_of(op: ListOp) -> (r: &'static str)
    ensures
        r == list_sig_tail(op),
{
    match op {
        ListOp::MapEach => "<U, F: Fn(T) -> U>(&self, f: F) -> Vec<U>",
        ListOp::Filter => "<F: Fn(&T) -> bool>(&self, f: F) -> Vec<T>",
        ListOp::FirstCloned => "(&self) -> Option<T>",
        ListOp::Pairs => "(&self) -> Vec<(usize, T)>",
        ListOp::Shift => "(&mut self) -> Option<T>",
        ListOp::SortDesc => "(&self) -> Vec<T> where T: Ord + Clone",
    }
}

fn list_body_of(op: ListOp, on_slice: bool) -> (r: &'static str)
    ensures
        r == list_body(op, on_slice),
{
    match op {
        ListOp::MapEach => if on_slice {
            "{ self.iter().cloned().map(f).collect() }"
        } else {
            "{ self.as_ref().iter().cloned().map(f).collect() }"
        },
        ListOp::Filter => if on_slice {
            "{ self.iter().filter(|x| f(x)).cloned().collect() }"
        } else {
            "{ self.as_ref().iter().filter(|x| f(x)).cloned().collect() }"
        },
        ListOp::FirstCloned => if on_slice {
            "{ self.first().cloned() }"
        } else {
            "{ self.as_ref().first().cloned() }"
        },
        ListOp::Pairs => if on_slice {
            "{ self.iter().enumerate().map(|(i, v)| (i, v.clone())).collect() }"
        } else {
            "{ self.as_ref().iter().enumerate().map(|(i, v)| (i, v.clone())).collect() }"
        },
        ListOp::Shift => "{ if self.is_empty() { None } else { Some(self.remove(0)) } }",
        ListOp::SortDesc => "{ let mut v = self.clone(); v.sort_by(|a, b| b.cmp(a)); v }",
    }
}

/// The text of a list method.
pub open spec fn list_method_text(which: ListText, m: ListMethod) -> Seq<char> {
    let sig = "fn "@ + m.name@ + list_sig_tail(m.op)@;
    match which {
        ListText::Decl => sig + ";\n"@,
        ListText::AsRefImpl => sig + " "@ + list_body(m.op, false)@ + "\n"@,
        ListText::SliceImpl => sig + " "@ + list_body(m.op, true)@ + "\n"@,
    }
}

pub open spec fn list_method_fn(which: ListText) -> spec_fn(ListMethod) -> Seq<char> {
    |m: ListMethod| list_method_text(which, m)
}

/// Appends the texts of the list methods `ms`.
fn push_list_methods(out: &mut Vec<char>, ms: &Vec<ListMethod>, which: ListText)
    ensures
        final(out)@ == old(out)@ + joined(ms@, list_method_fn(which)),
{
    let ghost f = list_method_fn(which);
    let ghost start = out@;
    let mut i: usize = 0;
    assert(ms@.take(0) =~= Seq::<ListMethod>::empty());
    while i < ms.len()
        invariant
            i <= ms@.len(),
            f == list_method_fn(which),
            out@ == start + joined(ms@.take(i as int), f),
        decreases ms@.len() - i,
    {
        proof {
            lemma_joined_step(ms@, f, i as int);
        }
        let m = ms[i];
        let ghost before = out@;
        push_text(out, "fn ");
        push_text(out, m.name);
        push_text(out, list_sig_tail_of(m.op));
        match which {
            ListText::Decl => {
                push_text(out, ";\n");
            },
            ListText::AsRefImpl => {
                push_text(out, " ");
                push_text(out, list_body_of(m.op, false));
                push_text(out, "\n");
            },
            ListText::SliceImpl => {
                push_text(out, " ");
                push_text(out, list_body_of(m.op, true));
                push_text(out, "\n");
            },
        }
        assert(out@ =~= before + list_method_text(which, m));
        i = i + 1;
        assert(out@ =~= start + joined(ms@.take(i as int), f));
    }
    assert(ms@.take(ms@.len() as int) =~= ms@);
}

/// The injected `slice_eq` helper.
pub open spec fn slice_eq_fn_text() -> &'static str {
    "#[allow(dead_code)] fn slice_eq<T: PartialEq, A: AsRef<[T]>, B: AsRef<[T]>>(a: &A, b: &B) -> bool { a.as_ref() == b.as_ref() }\n"
}

/// The `ScriptSliceExt` trait and its impl for anything `AsRef<[T]>`.
pub open spec fn slice_helpers_text() -> Seq<char> {
    "#[allow(dead_code)] trait ScriptSliceExt<T: Clone> { "@ + joined(
        slice_ext_method_table(),
        list_method_fn(ListText::Decl),
    ) + " }\nimpl<T: Clone, S: AsRef<[T]>> ScriptSliceExt<T> for S { "@ + joined(
        slice_ext_method_table(),
        list_method_fn(ListText::AsRefImpl),
    ) + " }\n"@
}

/// The source of the `slice_eq` helper, which compares two lists element by element.
pub fn slice_eq_function_source() -> (r: String)
    ensures
        r@ == slice_eq_fn_text()@,
{
    let mut out: Vec<char> = Vec::new();
    push_text(
        &mut out,
        "#[allow(dead_code)] fn slice_eq<T: PartialEq, A: AsRef<[T]>, B: AsRef<[T]>>(a: &A, b: &B) -> bool { a.as_ref() == b.as_ref() }\n",
    );
    string_of(&out)
}

/// The source of the `ScriptSliceExt` trait and its impl.
pub fn slice_helpers_source() -> (r: String)
    ensures
        r@ == slice_helpers_text(),
{
    let ms = slice_ext_methods();
    let mut out: Vec<char> = Vec::new();
    push_text(&mut out, "#[allow(dead_code)] trait ScriptSliceExt<T: Clone> { ");
    push_list_methods(&mut out, &ms, ListText::Decl);
    push_text(&mut out, " }\nimpl<T: Clone, S: AsRef<[T]>> ScriptSliceExt<T> for S { ");
    push_list_methods(&mut out, &ms, ListText::AsRefImpl);
    push_text(&mut out, " }\n");
    assert(out@ =~= slice_helpers_text());
    string_of(&out)
}

/// The filter-only `ScriptSliceExt` trait and its impl for `[T]`.
pub open spec fn slice_filter_helpers_text() -> Seq<char> {
    "#[allow(dead_code)] trait ScriptSliceExt<T: Clone> { "@ + joined(
        slice_filter_method_table(),
        list_method_fn(ListText::Decl),
    ) + " }\nimpl<T: Clone> ScriptSliceExt<T> for [T] { "@ + joined(
        slice_filter_method_table(),
        list_method_fn(ListText::SliceImpl),
    ) + " }\n"@
}

/// The source of the filter-only `ScriptSliceExt` trait and its impl for `[T]`.
pub fn slice_filter_helpers_source() -> (r: String)
    ensures
        r@ == slice_filter_helpers_text(),
{
    let ms = slice_filter_methods();
    let mut out: Vec<char> = Vec::new();
    push_text(&mut out, "#[allow(dead_code)] trait ScriptSliceExt<T: Clone> { ");
    push_list_methods(&mut out, &ms, ListText::Decl);
    push_text(&mut out, " }\nimpl<T: Clone> ScriptSliceExt<T> for [T] { ");
    push_list_methods(&mut out, &ms, ListText::SliceImpl);
    push_text(&mut out, " }\n");
    assert(out@ =~= slice_filter_helpers_text());
    string_of(&out)
}

/// The `ScriptVecExt` trait and its impl for `Vec<T>`.
pub open spec fn vec_helpers_text() -> Seq<char> {
    "#[allow(dead_code)] trait ScriptVecExt<T> { "@ + joined(
        vec_ext_method_table(),
        list_method_fn(ListText::Decl),
    ) + " }\nimpl<T: Clone + Ord> ScriptVecExt<T> for Vec<T> { "@ + joined(
        vec_ext_method_table(),
        list_method_fn(ListText::AsRefImpl),
    ) + " }\n"@
}

/// The source of the `ScriptVecExt` trait and its impl for `Vec<T>`.
pub fn vec_helpers_source() -> (r: String)
    ensures
        r@ == vec_helpers_text(),
{
    let ms = vec_ext_methods();
    let mut out: Vec<char> = Vec::new();
    push_text(&mut out, "#[allow(dead_code)] trait ScriptVecExt<T> { ");
    push_list_methods(&mut out, &ms, ListText::Decl);
    push_text(&mut out, " }\nimpl<T: Clone + Ord> ScriptVecExt<T> for Vec<T> { ");
    push_list_methods(&mut out, &ms, ListText::AsRefImpl);
    push_text(&mut out, " }\n");
    assert(out@ =~= vec_helpers_text());
    string_of(&out)
}

/// Which text of a `Val` variant: its declaration, its `Display` arm, its
/// `PartialEq<char>` arm (empty where it cannot equal a `char`), or its
/// `Truthy` arm.
#[derive(PartialEq, Eq, Structural, Clone, Copy, Debug)]
pub enum ValText {
    Decl,
    Display,
    EqChar,
    Truth,
}

/// The test of a `Val` payload `x` in the `Truthy` impl of `Val`.
pub open spec fn val_truth_body(t: TruthTest) -> &'static str {
    match t {
        TruthTest::Never => "false",
        TruthTest::Itself => "*x",
        TruthTest::NonZero => "*x != 0",
        TruthTest::NonZeroFloat => "*x != 0.0",
        TruthTest::NotEmpty => "!x.is_empty()",
        TruthTest::IsSome => "x.is_some()",
    }
}

fn val_truth_body_of(t: TruthTest) -> (r: &'static str)
    ensures
        r == val_truth_body(t),
{
    match t {
        TruthTest::Never => "false",
        TruthTest::Itself => "*x",
        TruthTest::NonZero => "*x != 0",
        TruthTest::NonZeroFloat => "*x != 0.0",
        TruthTest::NotEmpty => "!x.is_empty()",
        TruthTest::IsSome => "x.is_some()",
    }
}

/// The text of a `Val` variant.
pub open spec fn val_variant_text(which: ValText, v: ValVariant) -> Seq<char> {
    let unit = v.payload@.len() == 0;
    match which {
        ValText::Decl => if unit {
            v.name@ + ", "@
        } else {
            v.name@ + "("@ + v.payload@ + "), "@
        },
        ValText::Display => match v.format {
            ValFormat::Plain => "Val::"@ + v.name@ + "(x) => write!(f, \"{}\", x), "@,
            ValFormat::Debug => "Val::"@ + v.name@ + "(x) => write!(f, \"{:?}\", x), "@,
            ValFormat::Nil => "Val::"@ + v.name@ + " => write!(f, \"nil\"), "@,
        },
        ValText::EqChar => if v.eq_char {
            "Val::"@ + v.name@ + "(s) => s == &other.to_string(), "@
        } else {
            Seq::empty()
        },
        ValText::Truth => (if unit {
            "Val::"@ + v.name@
        } else {
            "Val::"@ + v.name@ + "(x)"@
        }) + " => "@ + val_truth_body(v.truth)@ + ", "@,
    }
}

pub open spec fn val_variant_fn(which: ValText) -> spec_fn(ValVariant) -> Seq<char> {
    |v: ValVariant| val_variant_text(which, v)
}

/// Appends the texts of the variants `vs`.
fn push_val_variants(out: &mut Vec<char>, vs: &Vec<ValVariant>, which: ValText)
    ensures
        final(out)@ == old(out)@ + joined(vs@, val_variant_fn(which)),
{
    let ghost f = val_variant_fn(which);
    let ghost start = out@;
    let mut i: usize = 0;
    assert(vs@.take(0) =~= Seq::<ValVariant>::empty());
    while i < vs.len()
        invariant
            i <= vs@.len(),
            f == val_variant_fn(which),
            out@ == start + joined(vs@.take(i as int), f),
        decreases vs@.len() - i,
    {
        proof {
            lemma_joined_step(vs@, f, i as int);
        }
        let v = vs[i];
        let ghost before = out@;
        let unit = v.payload.is_empty();
        match which {
            ValText::Decl => {
                push_text(out, v.name);
                if unit {
                    push_text(out, ", ");
                } else {
                    push_text(out, "(");
                    push_text(out, v.payload);
                    push_text(out, "), ");
                }
            },
            ValText::Display => {
                push_text(out, "Val::");
                push_text(out, v.name);
                match v.format {
                    ValFormat::Plain => push_text(out, "(x) => write!(f, \"{}\", x), "),
                    ValFormat::Debug => push_text(out, "(x) => write!(f, \"{:?}\", x), "),
                    ValFormat::Nil => push_text(out, " => write!(f, \"nil\"), "),
                }
            },
            ValText::EqChar => {
                if v.eq_char {
                    push_text(out, "Val::");
                    push_text(out, v.name);
                    push_text(out, "(s) => s == &other.to_string(), ");
                }
            },
            ValText::Truth => {
                push_text(out, "Val::");
                push_text(out, v.name);
                if !unit {
                    push_text(out, "(x)");
                }
                push_text(out, " => ");
                push_text(out, val_truth_body_of(v.truth));
                push_text(out, ", ");
            },
        }
        assert(out@ =~= before + val_variant_text(which, v));
        i = i + 1;
        assert(out@ =~= start + joined(vs@.take(i as int), f));
    }
    assert(vs@.take(vs@.len() as int) =~= vs@);
}

/// The argument that an injected `From` impl wraps, made from its parameter `x`.
pub open spec fn conversion_text(fr: ValFrom) -> Seq<char> {
    match fr.conversion {
        ValConversion::Same => "x"@,
        ValConversion::Into => "x.into()"@,
        ValConversion::ToText => "x.to_string()"@,
        ValConversion::Widen => "x as "@ + fr.target@,
    }
}

/// An injected `impl From<..> for Val`.
pub open spec fn val_from_text(fr: ValFrom) -> Seq<char> {
    "impl From<"@ + fr.source@ + "> for Val { fn from(x: "@ + fr.source@ + ") -> Self { Val::"@
        + fr.variant@ + "("@ + conversion_text(fr) + ") } }\n"@
}

pub open spec fn val_from_fn() -> spec_fn(ValFrom) -> Seq<char> {
    |fr: ValFrom| val_from_text(fr)
}

/// Appends the `From` impls `fs`.
fn push_val_froms(out: &mut Vec<char>, fs: &Vec<ValFrom>)
    ensures
        final(out)@ == old(out)@ + joined(fs@, val_from_fn()),
{
    let ghost f = val_from_fn();
    let ghost start = out@;
    let mut i: usize = 0;
    assert(fs@.take(0) =~= Seq::<ValFrom>::empty());
    while i < fs.len()
        invariant
            i <= fs@.len(),
            f == val_from_fn(),
            out@ == start + joined(fs@.take(i as int), f),
        decreases fs@.len() - i,
    {
        proof {
            lemma_joined_step(fs@, f, i as int);
        }
        let fr = fs[i];
        let ghost before = out@;
        push_text(out, "impl From<");
        push_text(out, fr.source);
        push_text(out, "> for Val { fn from(x: ");
        push_text(out, fr.source);
        push_text(out, ") -> Self { Val::");
        push_text(out, fr.variant);
        push_text(out, "(");
        match fr.conversion {
            ValConversion::Same => push_text(out, "x"),
            ValConversion::Into => push_text(out, "x.into()"),
            ValConversion::ToText => push_text(out, "x.to_string()"),
            ValConversion::Widen => {
                push_text(out, "x as ");
                push_text(out, fr.target);
            },
        }
        push_text(out, ") } }\n");
        assert(out@ =~= before + val_from_text(fr));
        i = i + 1;
        assert(out@ =~= start + joined(fs@.take(i as int), f));
    }
    assert(fs@.take(fs@.len() as int) =~= fs@);
}

/// The `Val` enum with its `Display`, `From`, `PartialEq<char>` and `Truthy` impls.
pub open spec fn val_helpers_text() -> Seq<char> {
    let vs = val_variant_table();
    "#[allow(dead_code)] #[derive(Clone, Debug, PartialEq)] enum Val { "@ + joined(
        vs,
        val_variant_fn(ValText::Decl),
    )
        + "}\nimpl std::fmt::Display for Val { fn fmt(&self, f: &mut std::fmt::Formatter<'_>) -> std::fmt::Result { match self { "@
        + joined(vs, val_variant_fn(ValText::Display)) + "} } }\n"@ + joined(
        val_from_table(),
        val_from_fn(),
    ) + "impl PartialEq<char> for Val { fn eq(&self, other: &char) -> bool { match self { "@
        + joined(vs, val_variant_fn(ValText::EqChar))
        + "_ => false } } }\nimpl Truthy for Val { fn is_truthy(&self) -> bool { match self { "@
        + joined(vs, val_variant_fn(ValText::Truth)) + "} } }\n"@
}

/// The source of the `Val` enum and its impls.
pub fn val_helpers_source() -> (r: String)
    ensures
        r@ == val_helpers_text(),
{
    let vs = val_variants();
    let fs = val_from_impls();
    let mut out: Vec<char> = Vec::new();
    push_text(&mut out, "#[allow(dead_code)] #[derive(Clone, Debug, PartialEq)] enum Val { ");
    push_val_variants(&mut out, &vs, ValText::Decl);
    push_text(
        &mut out,
        "}\nimpl std::fmt::Display for Val { fn fmt(&self, f: &mut std::fmt::Formatter<'_>) -> std::fmt::Result { match self { ",
    );
    push_val_variants(&mut out, &vs, ValText::Display);
    push_text(&mut out, "} } }\n");
    push_val_froms(&mut out, &fs);
    push_text(&mut out, "impl PartialEq<char> for Val { fn eq(&self, other: &char) -> bool { match self { ");
    push_val_variants(&mut out, &vs, ValText::EqChar);
    push_text(&mut out, "_ => false } } }\nimpl Truthy for Val { fn is_truthy(&self) -> bool { match self { ");
    push_val_variants(&mut out, &vs, ValText::Truth);
    push_text(&mut out, "} } }\n");
    assert(out@ =~= val_helpers_text());
    string_of(&out)
}

/// An injected math constant.
pub open spec fn math_const_text(c: MathConst) -> Seq<char> {
    "#[allow(dead_code)] const "@ + c.name@ + ": f64 = std::f64::consts::"@ + c.std_name@ + ";\n"@
}

pub open spec fn math_const_fn() -> spec_fn(MathConst) -> Seq<char> {
    |c: MathConst| math_const_text(c)
}

/// The `approx_eq` helper, which compares with a tolerance scaled by the
/// magnitudes of its arguments.
pub open spec fn approx_eq_function_text() -> Seq<char> {
    let e = approx_eq_epsilon_text()@;
    "#[allow(dead_code)] fn approx_eq(a: f64, b: f64) -> bool { (a - b).abs() < "@ + e
        + "_f64.max(a.abs() * "@ + e + ").max(b.abs() * "@ + e + ") }\n"@
}

/// The source of the `approx_eq` helper.
pub fn approx_eq_function_source() -> (r: String)
    ensures
        r@ == approx_eq_function_text(),
{
    let e = approx_eq_epsilon();
    let mut out: Vec<char> = Vec::new();
    push_text(&mut out, "#[allow(dead_code)] fn approx_eq(a: f64, b: f64) -> bool { (a - b).abs() < ");
    push_text(&mut out, e);
    push_text(&mut out, "_f64.max(a.abs() * ");
    push_text(&mut out, e);
    push_text(&mut out, ").max(b.abs() * ");
    push_text(&mut out, e);
    push_text(&mut out, ") }\n");
    assert(out@ =~= approx_eq_function_text());
    string_of(&out)
}

/// The math constants.
pub open spec fn math_constants_text() -> Seq<char> {
    joined(math_const_table(), math_const_fn())
}

/// The source of the math constants.
pub fn math_constants_source() -> (r: String)
    ensures
        r@ == math_constants_text(),
{
    let cs = math_consts();
    let mut out: Vec<char> = Vec::new();
    let ghost f = math_const_fn();
    let mut i: usize = 0;
    assert(cs@.take(0) =~= Seq::<MathConst>::empty());
    while i < cs.len()
        invariant
            i <= cs@.len(),
            f == math_const_fn(),
            out@ == joined(cs@.take(i as int), f),
        decreases cs@.len() - i,
    {
        proof {
            lemma_joined_step(cs@, f, i as int);
        }
        let c = cs[i];
        let ghost before = out@;
        push_text(&mut out, "#[allow(dead_code)] const ");
        push_text(&mut out, c.name);
        push_text(&mut out, ": f64 = std::f64::consts::");
        push_text(&mut out, c.std_name);
        push_text(&mut out, ";\n");
        assert(out@ =~= before + math_const_text(c));
        i = i + 1;
    }
    assert(cs@.take(cs@.len() as int) =~= cs@);
    string_of(&out)
}


/// What each `ScriptStrExt` method is, by its operation, for any name: the
/// first and last character through `chars()`, `reverse` through
/// `chars().rev()`, the size through `len()`, case conversion through
/// `to_uppercase()` and `to_lowercase()`, containment through `contains`,
/// search through `find`, substitution through `replace`.
pub proof fn lemma_str_method_text(m: StrMethod)
    ensures
        m.op == StrOp::First ==> str_impl_text(m) == "fn "@ + m.name@ + "(&self) -> String { self.chars().next().map(|c| c.to_string()).unwrap_or_default() }\n"@
            && str_decl_text(m) == "fn "@ + m.name@ + "(&self) -> String;\n"@,
        m.op == StrOp::Last ==> str_impl_text(m) == "fn "@ + m.name@ + "(&self) -> String { self.chars().last().map(|c| c.to_string()).unwrap_or_default() }\n"@
            && str_decl_text(m) == "fn "@ + m.name@ + "(&self) -> String;\n"@,
        m.op == StrOp::Reverse ==> str_impl_text(m) == "fn "@ + m.name@ + "(&self) -> String { self.chars().rev().collect() }\n"@
            && str_decl_text(m) == "fn "@ + m.name@ + "(&self) -> String;\n"@,
        m.op == StrOp::Size ==> str_impl_text(m) == "fn "@ + m.name@ + "(&self) -> usize { self.len() }\n"@
            && str_decl_text(m) == "fn "@ + m.name@ + "(&self) -> usize;\n"@,
        m.op == StrOp::Upper ==> str_impl_text(m) == "fn "@ + m.name@ + "(&self) -> String { self.to_uppercase() }\n"@
            && str_decl_text(m) == "fn "@ + m.name@ + "(&self) -> String;\n"@,
        m.op == StrOp::Lower ==> str_impl_text(m) == "fn "@ + m.name@ + "(&self) -> String { self.to_lowercase() }\n"@
            && str_decl_text(m) == "fn "@ + m.name@ + "(&self) -> String;\n"@,
        m.op == StrOp::Contains ==> str_impl_text(m) == "fn "@ + m.name@ + "(&self, pat: &str) -> bool { self.contains(pat) }\n"@
            && str_decl_text(m) == "fn "@ + m.name@ + "(&self, pat: &str) -> bool;\n"@,
        m.op == StrOp::Find ==> str_impl_text(m) == "fn "@ + m.name@ + "(&self, pat: &str) -> Option<usize> { self.find(pat) }\n"@
            && str_decl_text(m) == "fn "@ + m.name@ + "(&self, pat: &str) -> Option<usize>;\n"@,
        m.op == StrOp::Replace ==> str_impl_text(m) == "fn "@ + m.name@ + "(&self, from: &str, to: &str) -> String { self.replace(from, to) }\n"@
            && str_decl_text(m) == "fn "@ + m.name@ + "(&self, from: &str, to: &str) -> String;\n"@,
{
    match m.op {
        StrOp::First => {
            reveal_strlit("(&self) -> String");
            reveal_strlit(" ");
            reveal_strlit("{ self.chars().next().map(|c| c.to_string()).unwrap_or_default() }");
            reveal_strlit("\n");
            reveal_strlit(";\n");
            reveal_strlit("(&self) -> String { self.chars().next().map(|c| c.to_string()).unwrap_or_default() }\n");
            reveal_strlit("(&self) -> String;\n");
            assert(str_impl_text(m) =~= "fn "@ + m.name@ + "(&self) -> String { self.chars().next().map(|c| c.to_string()).unwrap_or_default() }\n"@);
            assert(str_decl_text(m) =~= "fn "@ + m.name@ + "(&self) -> String;\n"@);
        },
        StrOp::Last => {
            reveal_strlit("(&self) -> String");
            reveal_strlit(" ");
            reveal_strlit("{ self.chars().last().map(|c| c.to_string()).unwrap_or_default() }");
            reveal_strlit("\n");
            reveal_strlit(";\n");
            reveal_strlit("(&self) -> String { self.chars().last().map(|c| c.to_string()).unwrap_or_default() }\n");
            reveal_strlit("(&self) -> String;\n");
            assert(str_impl_text(m) =~= "fn "@ + m.name@ + "(&self) -> String { self.chars().last().map(|c| c.to_string()).unwrap_or_default() }\n"@);
            assert(str_decl_text(m) =~= "fn "@ + m.name@ + "(&self) -> String;\n"@);
        },
        StrOp::Reverse => {
            reveal_strlit("(&self) -> String");
            reveal_strlit(" ");
            reveal_strlit("{ self.chars().rev().collect() }");
            reveal_strlit("\n");
            reveal_strlit(";\n");
            reveal_strlit("(&self) -> String { self.chars().rev().collect() }\n");
            reveal_strlit("(&self) -> String;\n");
            assert(str_impl_text(m) =~= "fn "@ + m.name@ + "(&self) -> String { self.chars().rev().collect() }\n"@);
            assert(str_decl_text(m) =~= "fn "@ + m.name@ + "(&self) -> String;\n"@);
        },
        StrOp::Size => {
            reveal_strlit("(&self) -> usize");
            reveal_strlit(" ");
            reveal_strlit("{ self.len() }");
            reveal_strlit("\n");
            reveal_strlit(";\n");
            reveal_strlit("(&self) -> usize { self.len() }\n");
            reveal_strlit("(&self) -> usize;\n");
            assert(str_impl_text(m) =~= "fn "@ + m.name@ + "(&self) -> usize { self.len() }\n"@);
            assert(str_decl_text(m) =~= "fn "@ + m.name@ + "(&self) -> usize;\n"@);
        },
        StrOp::Upper => {
            reveal_strlit("(&self) -> String");
            reveal_strlit(" ");
            reveal_strlit("{ self.to_uppercase() }");
            reveal_strlit("\n");
            reveal_strlit(";\n");
            reveal_strlit("(&self) -> String { self.to_uppercase() }\n");
            reveal_strlit("(&self) -> String;\n");
            assert(str_impl_text(m) =~= "fn "@ + m.name@ + "(&self) -> String { self.to_uppercase() }\n"@);
            assert(str_decl_text(m) =~= "fn "@ + m.name@ + "(&self) -> String;\n"@);
        },
        StrOp::Lower => {
            reveal_strlit("(&self) -> String");
            reveal_strlit(" ");
            reveal_strlit("{ self.to_lowercase() }");
            reveal_strlit("\n");
            reveal_strlit(";\n");
            reveal_strlit("(&self) -> String { self.to_lowercase() }\n");
            reveal_strlit("(&self) -> String;\n");
            assert(str_impl_text(m) =~= "fn "@ + m.name@ + "(&self) -> String { self.to_lowercase() }\n"@);
            assert(str_decl_text(m) =~= "fn "@ + m.name@ + "(&self) -> String;\n"@);
        },
        StrOp::Contains => {
            reveal_strlit("(&self, pat: &str) -> bool");
            reveal_strlit(" ");
            reveal_strlit("{ self.contains(pat) }");
            reveal_strlit("\n");
            reveal_strlit(";\n");
            reveal_strlit("(&self, pat: &str) -> bool { self.contains(pat) }\n");
            reveal_strlit("(&self, pat: &str) -> bool;\n");
            assert(str_impl_text(m) =~= "fn "@ + m.name@ + "(&self, pat: &str) -> bool { self.contains(pat) }\n"@);
            assert(str_decl_text(m) =~= "fn "@ + m.name@ + "(&self, pat: &str) -> bool;\n"@);
        },
        StrOp::Find => {
            reveal_strlit("(&self, pat: &str) -> Option<usize>");
            reveal_strlit(" ");
            reveal_strlit("{ self.find(pat) }");
            reveal_strlit("\n");
            reveal_strlit(";\n");
            reveal_strlit("(&self, pat: &str) -> Option<usize> { self.find(pat) }\n");
            reveal_strlit("(&self, pat: &str) -> Option<usize>;\n");
            assert(str_impl_text(m) =~= "fn "@ + m.name@ + "(&self, pat: &str) -> Option<usize> { self.find(pat) }\n"@);
            assert(str_decl_text(m) =~= "fn "@ + m.name@ + "(&self, pat: &str) -> Option<usize>;\n"@);
        },
        StrOp::Replace => {
            reveal_strlit("(&self, from: &str, to: &str) -> String");
            reveal_strlit(" ");
            reveal_strlit("{ self.replace(from, to) }");
            reveal_strlit("\n");
            reveal_strlit(";\n");
            reveal_strlit("(&self, from: &str, to: &str) -> String { self.replace(from, to) }\n");
            reveal_strlit("(&self, from: &str, to: &str) -> String;\n");
            assert(str_impl_text(m) =~= "fn "@ + m.name@ + "(&self, from: &str, to: &str) -> String { self.replace(from, to) }\n"@);
            assert(str_decl_text(m) =~= "fn "@ + m.name@ + "(&self, from: &str, to: &str) -> String;\n"@);
        },
    }
}

/// What each injected `Truthy` impl tests, for any type: `false` for never,
/// the value itself for a `bool`, `!= 0` for an integer, `!= 0.0` for a
/// float, `!is_empty()` for text and lists, `is_some()` for an option.
pub proof fn lemma_truthy_impl_text(t: TruthyImpl)
    ensures
        t.test == TruthTest::Never && !t.generic ==> truthy_impl_text(t) == "impl Truthy for "@ + t.ty@ + " { fn is_truthy(&self) -> bool { false } }\n"@,
        t.test == TruthTest::Never && t.generic ==> truthy_impl_text(t) == "impl<T> Truthy for "@ + t.ty@ + "<T> { fn is_truthy(&self) -> bool { false } }\n"@,
        t.test == TruthTest::Itself && !t.generic ==> truthy_impl_text(t) == "impl Truthy for "@ + t.ty@ + " { fn is_truthy(&self) -> bool { *self } }\n"@,
        t.test == TruthTest::Itself && t.generic ==> truthy_impl_text(t) == "impl<T> Truthy for "@ + t.ty@ + "<T> { fn is_truthy(&self) -> bool { *self } }\n"@,
        t.test == TruthTest::NonZero && !t.generic ==> truthy_impl_text(t) == "impl Truthy for "@ + t.ty@ + " { fn is_truthy(&self) -> bool { *self != 0 } }\n"@,
        t.test == TruthTest::NonZero && t.generic ==> truthy_impl_text(t) == "impl<T> Truthy for "@ + t.ty@ + "<T> { fn is_truthy(&self) -> bool { *self != 0 } }\n"@,
        t.test == TruthTest::NonZeroFloat && !t.generic ==> truthy_impl_text(t) == "impl Truthy for "@ + t.ty@ + " { fn is_truthy(&self) -> bool { *self != 0.0 } }\n"@,
        t.test == TruthTest::NonZeroFloat && t.generic ==> truthy_impl_text(t) == "impl<T> Truthy for "@ + t.ty@ + "<T> { fn is_truthy(&self) -> bool { *self != 0.0 } }\n"@,
        t.test == TruthTest::NotEmpty && !t.generic ==> truthy_impl_text(t) == "impl Truthy for "@ + t.ty@ + " { fn is_truthy(&self) -> bool { !self.is_empty() } }\n"@,
        t.test == TruthTest::NotEmpty && t.generic ==> truthy_impl_text(t) == "impl<T> Truthy for "@ + t.ty@ + "<T> { fn is_truthy(&self) -> bool { !self.is_empty() } }\n"@,
        t.test == TruthTest::IsSome && !t.generic ==> truthy_impl_text(t) == "impl Truthy for "@ + t.ty@ + " { fn is_truthy(&self) -> bool { self.is_some() } }\n"@,
        t.test == TruthTest::IsSome && t.generic ==> truthy_impl_text(t) == "impl<T> Truthy for "@ + t.ty@ + "<T> { fn is_truthy(&self) -> bool { self.is_some() } }\n"@,
{
    match t.test {
        TruthTest::Never => {
            reveal_strlit("<T>");
            reveal_strlit(" { fn is_truthy(&self) -> bool { ");
            reveal_strlit("false");
            reveal_strlit(" } }\n");
            reveal_strlit(" { fn is_truthy(&self) -> bool { false } }\n");
            reveal_strlit("<T> { fn is_truthy(&self) -> bool { false } }\n");
            if t.generic {
                assert(truthy_impl_text(t) =~= "impl<T> Truthy for "@ + t.ty@ + "<T> { fn is_truthy(&self) -> bool { false } }\n"@);
            } else {
                assert(truthy_impl_text(t) =~= "impl Truthy for "@ + t.ty@ + " { fn is_truthy(&self) -> bool { false } }\n"@);
            }
        },
        TruthTest::Itself => {
            reveal_strlit("<T>");
            reveal_strlit(" { fn is_truthy(&self) -> bool { ");
            reveal_strlit("*self");
            reveal_strlit(" } }\n");
            reveal_strlit(" { fn is_truthy(&self) -> bool { *self } }\n");
            reveal_strlit("<T> { fn is_truthy(&self) -> bool { *self } }\n");
            if t.generic {
                assert(truthy_impl_text(t) =~= "impl<T> Truthy for "@ + t.ty@ + "<T> { fn is_truthy(&self) -> bool { *self } }\n"@);
            } else {
                assert(truthy_impl_text(t) =~= "impl Truthy for "@ + t.ty@ + " { fn is_truthy(&self) -> bool { *self } }\n"@);
            }
        },
        TruthTest::NonZero => {
            reveal_strlit("<T>");
            reveal_strlit(" { fn is_truthy(&self) -> bool { ");
            reveal_strlit("*self != 0");
            reveal_strlit(" } }\n");
            reveal_strlit(" { fn is_truthy(&self) -> bool { *self != 0 } }\n");
            reveal_strlit("<T> { fn is_truthy(&self) -> bool { *self != 0 } }\n");
            if t.generic {
                assert(truthy_impl_text(t) =~= "impl<T> Truthy for "@ + t.ty@ + "<T> { fn is_truthy(&self) -> bool { *self != 0 } }\n"@);
            } else {
                assert(truthy_impl_text(t) =~= "impl Truthy for "@ + t.ty@ + " { fn is_truthy(&self) -> bool { *self != 0 } }\n"@);
            }
        },
        TruthTest::NonZeroFloat => {
            reveal_strlit("<T>");
            reveal_strlit(" { fn is_truthy(&self) -> bool { ");
            reveal_strlit("*self != 0.0");
            reveal_strlit(" } }\n");
            reveal_strlit(" { fn is_truthy(&self) -> bool { *self != 0.0 } }\n");
            reveal_strlit("<T> { fn is_truthy(&self) -> bool { *self != 0.0 } }\n");
            if t.generic {
                assert(truthy_impl_text(t) =~= "impl<T> Truthy for "@ + t.ty@ + "<T> { fn is_truthy(&self) -> bool { *self != 0.0 } }\n"@);
            } else {
                assert(truthy_impl_text(t) =~= "impl Truthy for "@ + t.ty@ + " { fn is_truthy(&self) -> bool { *self != 0.0 } }\n"@);
            }
        },
        TruthTest::NotEmpty => {
            reveal_strlit("<T>");
            reveal_strlit(" { fn is_truthy(&self) -> bool { ");
            reveal_strlit("!self.is_empty()");
            reveal_strlit(" } }\n");
            reveal_strlit(" { fn is_truthy(&self) -> bool { !self.is_empty() } }\n");
            reveal_strlit("<T> { fn is_truthy(&self) -> bool { !self.is_empty() } }\n");
            if t.generic {
                assert(truthy_impl_text(t) =~= "impl<T> Truthy for "@ + t.ty@ + "<T> { fn is_truthy(&self) -> bool { !self.is_empty() } }\n"@);
            } else {
                assert(truthy_impl_text(t) =~= "impl Truthy for "@ + t.ty@ + " { fn is_truthy(&self) -> bool { !self.is_empty() } }\n"@);
            }
        },
        TruthTest::IsSome => {
            reveal_strlit("<T>");
            reveal_strlit(" { fn is_truthy(&self) -> bool { ");
            reveal_strlit("self.is_some()");
            reveal_strlit(" } }\n");
            reveal_strlit(" { fn is_truthy(&self) -> bool { self.is_some() } }\n");
            reveal_strlit("<T> { fn is_truthy(&self) -> bool { self.is_some() } }\n");
            if t.generic {
                assert(truthy_impl_text(t) =~= "impl<T> Truthy for "@ + t.ty@ + "<T> { fn is_truthy(&self) -> bool { self.is_some() } }\n"@);
            } else {
                assert(truthy_impl_text(t) =~= "impl Truthy for "@ + t.ty@ + " { fn is_truthy(&self) -> bool { self.is_some() } }\n"@);
            }
        },
    }
}

/// What each list method is, by its operation, for any name: mapping
/// applies `f` to clones of the elements in order, filtering keeps clones of
/// the elements on which `f` answers `true`, `first_cloned` clones the first
/// element, `pairs` pairs each position with a clone of its element, `shift`
/// removes and returns the first element of a `Vec`, `sortDesc` sorts a clone
/// from greatest to least.
pub proof fn lemma_list_method_text(m: ListMethod)
    ensures
        m.op == ListOp::MapEach ==> list_method_text(ListText::Decl, m) == "fn "@ + m.name@ + "<U, F: Fn(T) -> U>(&self, f: F) -> Vec<U>;\n"@
            && list_method_text(ListText::AsRefImpl, m) == "fn "@ + m.name@ + "<U, F: Fn(T) -> U>(&self, f: F) -> Vec<U> { self.as_ref().iter().cloned().map(f).collect() }\n"@
            && list_method_text(ListText::SliceImpl, m) == "fn "@ + m.name@ + "<U, F: Fn(T) -> U>(&self, f: F) -> Vec<U> { self.iter().cloned().map(f).collect() }\n"@,
        m.op == ListOp::Filter ==> list_method_text(ListText::Decl, m) == "fn "@ + m.name@ + "<F: Fn(&T) -> bool>(&self, f: F) -> Vec<T>;\n"@
            && list_method_text(ListText::AsRefImpl, m) == "fn "@ + m.name@ + "<F: Fn(&T) -> bool>(&self, f: F) -> Vec<T> { self.as_ref().iter().filter(|x| f(x)).cloned().collect() }\n"@
            && list_method_text(ListText::SliceImpl, m) == "fn "@ + m.name@ + "<F: Fn(&T) -> bool>(&self, f: F) -> Vec<T> { self.iter().filter(|x| f(x)).cloned().collect() }\n"@,
        m.op == ListOp::FirstCloned ==> list_method_text(ListText::Decl, m) == "fn "@ + m.name@ + "(&self) -> Option<T>;\n"@
            && list_method_text(ListText::AsRefImpl, m) == "fn "@ + m.name@ + "(&self) -> Option<T> { self.as_ref().first().cloned() }\n"@
            && list_method_text(ListText::SliceImpl, m) == "fn "@ + m.name@ + "(&self) -> Option<T> { self.first().cloned() }\n"@,
        m.op == ListOp::Pairs ==> list_method_text(ListText::Decl, m) == "fn "@ + m.name@ + "(&self) -> Vec<(usize, T)>;\n"@
            && list_method_text(ListText::AsRefImpl, m) == "fn "@ + m.name@ + "(&self) -> Vec<(usize, T)> { self.as_ref().iter().enumerate().map(|(i, v)| (i, v.clone())).collect() }\n"@
            && list_method_text(ListText::SliceImpl, m) == "fn "@ + m.name@ + "(&self) -> Vec<(usize, T)> { self.iter().enumerate().map(|(i, v)| (i, v.clone())).collect() }\n"@,
        m.op == ListOp::Shift ==> list_method_text(ListText::Decl, m) == "fn "@ + m.name@ + "(&mut self) -> Option<T>;\n"@
            && list_method_text(ListText::AsRefImpl, m) == "fn "@ + m.name@ + "(&mut self) -> Option<T> { if self.is_empty() { None } else { Some(self.remove(0)) } }\n"@
            && list_method_text(ListText::SliceImpl, m) == "fn "@ + m.name@ + "(&mut self) -> Option<T> { if self.is_empty() { None } else { Some(self.remove(0)) } }\n"@,
        m.op == ListOp::SortDesc ==> list_method_text(ListText::Decl, m) == "fn "@ + m.name@ + "(&self) -> Vec<T> where T: Ord + Clone;\n"@
            && list_method_text(ListText::AsRefImpl, m) == "fn "@ + m.name@ + "(&self) -> Vec<T> where T: Ord + Clone { let mut v = self.clone(); v.sort_by(|a, b| b.cmp(a)); v }\n"@
            && list_method_text(ListText::SliceImpl, m) == "fn "@ + m.name@ + "(&self) -> Vec<T> where T: Ord + Clone { let mut v = self.clone(); v.sort_by(|a, b| b.cmp(a)); v }\n"@,
{
    match m.op {
        ListOp::MapEach => {
            reveal_strlit("<U, F: Fn(T) -> U>(&self, f: F) -> Vec<U>");
            reveal_strlit(";\n");
            reveal_strlit(" ");
            reveal_strlit("{ self.as_ref().iter().cloned().map(f).collect() }");
            reveal_strlit("{ self.iter().cloned().map(f).collect() }");
            reveal_strlit("\n");
            reveal_strlit("<U, F: Fn(T) -> U>(&self, f: F) -> Vec<U>;\n");
            reveal_strlit("<U, F: Fn(T) -> U>(&self, f: F) -> Vec<U> { self.as_ref().iter().cloned().map(f).collect() }\n");
            reveal_strlit("<U, F: Fn(T) -> U>(&self, f: F) -> Vec<U> { self.iter().cloned().map(f).collect() }\n");
            assert(list_method_text(ListText::Decl, m) =~= "fn "@ + m.name@ + "<U, F: Fn(T) -> U>(&self, f: F) -> Vec<U>;\n"@);
            assert(list_method_text(ListText::AsRefImpl, m) =~= "fn "@ + m.name@ + "<U, F: Fn(T) -> U>(&self, f: F) -> Vec<U> { self.as_ref().iter().cloned().map(f).collect() }\n"@);
            assert(list_method_text(ListText::SliceImpl, m) =~= "fn "@ + m.name@ + "<U, F: Fn(T) -> U>(&self, f: F) -> Vec<U> { self.iter().cloned().map(f).collect() }\n"@);
        },
        ListOp::Filter => {
            reveal_strlit("<F: Fn(&T) -> bool>(&self, f: F) -> Vec<T>");
            reveal_strlit(";\n");
            reveal_strlit(" ");
            reveal_strlit("{ self.as_ref().iter().filter(|x| f(x)).cloned().collect() }");
            reveal_strlit("{ self.iter().filter(|x| f(x)).cloned().collect() }");
            reveal_strlit("\n");
            reveal_strlit("<F: Fn(&T) -> bool>(&self, f: F) -> Vec<T>;\n");
            reveal_strlit("<F: Fn(&T) -> bool>(&self, f: F) -> Vec<T> { self.as_ref().iter().filter(|x| f(x)).cloned().collect() }\n");
            reveal_strlit("<F: Fn(&T) -> bool>(&self, f: F) -> Vec<T> { self.iter().filter(|x| f(x)).cloned().collect() }\n");
            assert(list_method_text(ListText::Decl, m) =~= "fn "@ + m.name@ + "<F: Fn(&T) -> bool>(&self, f: F) -> Vec<T>;\n"@);
            assert(list_method_text(ListText::AsRefImpl, m) =~= "fn "@ + m.name@ + "<F: Fn(&T) -> bool>(&self, f: F) -> Vec<T> { self.as_ref().iter().filter(|x| f(x)).cloned().collect() }\n"@);
            assert(list_method_text(ListText::SliceImpl, m) =~= "fn "@ + m.name@ + "<F: Fn(&T) -> bool>(&self, f: F) -> Vec<T> { self.iter().filter(|x| f(x)).cloned().collect() }\n"@);
        },
        ListOp::FirstCloned => {
            reveal_strlit("(&self) -> Option<T>");
            reveal_strlit(";\n");
            reveal_strlit(" ");
            reveal_strlit("{ self.as_ref().first().cloned() }");
            reveal_strlit("{ self.first().cloned() }");
            reveal_strlit("\n");
            reveal_strlit("(&self) -> Option<T>;\n");
            reveal_strlit("(&self) -> Option<T> { self.as_ref().first().cloned() }\n");
            reveal_strlit("(&self) -> Option<T> { self.first().cloned() }\n");
            assert(list_method_text(ListText::Decl, m) =~= "fn "@ + m.name@ + "(&self) -> Option<T>;\n"@);
            assert(list_method_text(ListText::AsRefImpl, m) =~= "fn "@ + m.name@ + "(&self) -> Option<T> { self.as_ref().first().cloned() }\n"@);
            assert(list_method_text(ListText::SliceImpl, m) =~= "fn "@ + m.name@ + "(&self) -> Option<T> { self.first().cloned() }\n"@);
        },
        ListOp::Pairs => {
            reveal_strlit("(&self) -> Vec<(usize, T)>");
            reveal_strlit(";\n");
            reveal_strlit(" ");
            reveal_strlit("{ self.as_ref().iter().enumerate().map(|(i, v)| (i, v.clone())).collect() }");
            reveal_strlit("{ self.iter().enumerate().map(|(i, v)| (i, v.clone())).collect() }");
            reveal_strlit("\n");
            reveal_strlit("(&self) -> Vec<(usize, T)>;\n");
            reveal_strlit("(&self) -> Vec<(usize, T)> { self.as_ref().iter().enumerate().map(|(i, v)| (i, v.clone())).collect() }\n");
            reveal_strlit("(&self) -> Vec<(usize, T)> { self.iter().enumerate().map(|(i, v)| (i, v.clone())).collect() }\n");
            assert(list_method_text(ListText::Decl, m) =~= "fn "@ + m.name@ + "(&self) -> Vec<(usize, T)>;\n"@);
            assert(list_method_text(ListText::AsRefImpl, m) =~= "fn "@ + m.name@ + "(&self) -> Vec<(usize, T)> { self.as_ref().iter().enumerate().map(|(i, v)| (i, v.clone())).collect() }\n"@);
            assert(list_method_text(ListText::SliceImpl, m) =~= "fn "@ + m.name@ + "(&self) -> Vec<(usize, T)> { self.iter().enumerate().map(|(i, v)| (i, v.clone())).collect() }\n"@);
        },
        ListOp::Shift => {
            reveal_strlit("(&mut self) -> Option<T>");
            reveal_strlit(";\n");
            reveal_strlit(" ");
            reveal_strlit("{ if self.is_empty() { None } else { Some(self.remove(0)) } }");
            reveal_strlit("\n");
            reveal_strlit("(&mut self) -> Option<T>;\n");
            reveal_strlit("(&mut self) -> Option<T> { if self.is_empty() { None } else { Some(self.remove(0)) } }\n");
            assert(list_method_text(ListText::Decl, m) =~= "fn "@ + m.name@ + "(&mut self) -> Option<T>;\n"@);
            assert(list_method_text(ListText::AsRefImpl, m) =~= "fn "@ + m.name@ + "(&mut self) -> Option<T> { if self.is_empty() { None } else { Some(self.remove(0)) } }\n"@);
            assert(list_method_text(ListText::SliceImpl, m) =~= "fn "@ + m.name@ + "(&mut self) -> Option<T> { if self.is_empty() { None } else { Some(self.remove(0)) } }\n"@);
        },
        ListOp::SortDesc => {
            reveal_strlit("(&self) -> Vec<T> where T: Ord + Clone");
            reveal_strlit(";\n");
            reveal_strlit(" ");
            reveal_strlit("{ let mut v = self.clone(); v.sort_by(|a, b| b.cmp(a)); v }");
            reveal_strlit("\n");
            reveal_strlit("(&self) -> Vec<T> where T: Ord + Clone;\n");
            reveal_strlit("(&self) -> Vec<T> where T: Ord + Clone { let mut v = self.clone(); v.sort_by(|a, b| b.cmp(a)); v }\n");
            assert(list_method_text(ListText::Decl, m) =~= "fn "@ + m.name@ + "(&self) -> Vec<T> where T: Ord + Clone;\n"@);
            assert(list_method_text(ListText::AsRefImpl, m) =~= "fn "@ + m.name@ + "(&self) -> Vec<T> where T: Ord + Clone { let mut v = self.clone(); v.sort_by(|a, b| b.cmp(a)); v }\n"@);
            assert(list_method_text(ListText::SliceImpl, m) =~= "fn "@ + m.name@ + "(&self) -> Vec<T> where T: Ord + Clone { let mut v = self.clone(); v.sort_by(|a, b| b.cmp(a)); v }\n"@);
        },
    }
}

/// What the `Truthy` arm of each `Val` variant tests, for any variant: a
/// payload `x` that is an integer is truthy when `*x != 0`, a float when
/// `*x != 0.0`, a `bool` when `*x`, text or a list when `!x.is_empty()`; a
/// variant that never is truthy gives `false`.
pub proof fn lemma_val_truth_arm(v: ValVariant)
    ensures
        v.truth == TruthTest::Never && v.payload@.len() > 0 ==> val_variant_text(ValText::Truth, v) == "Val::"@ + v.name@ + "(x) => false, "@,
        v.truth == TruthTest::Never && v.payload@.len() == 0 ==> val_variant_text(ValText::Truth, v) == "Val::"@ + v.name@ + " => false, "@,
        v.truth == TruthTest::Itself && v.payload@.len() > 0 ==> val_variant_text(ValText::Truth, v) == "Val::"@ + v.name@ + "(x) => *x, "@,
        v.truth == TruthTest::Itself && v.payload@.len() == 0 ==> val_variant_text(ValText::Truth, v) == "Val::"@ + v.name@ + " => *x, "@,
        v.truth == TruthTest::NonZero && v.payload@.len() > 0 ==> val_variant_text(ValText::Truth, v) == "Val::"@ + v.name@ + "(x) => *x != 0, "@,
        v.truth == TruthTest::NonZero && v.payload@.len() == 0 ==> val_variant_text(ValText::Truth, v) == "Val::"@ + v.name@ + " => *x != 0, "@,
        v.truth == TruthTest::NonZeroFloat && v.payload@.len() > 0 ==> val_variant_text(ValText::Truth, v) == "Val::"@ + v.name@ + "(x) => *x != 0.0, "@,
        v.truth == TruthTest::NonZeroFloat && v.payload@.len() == 0 ==> val_variant_text(ValText::Truth, v) == "Val::"@ + v.name@ + " => *x != 0.0, "@,
        v.truth == TruthTest::NotEmpty && v.payload@.len() > 0 ==> val_variant_text(ValText::Truth, v) == "Val::"@ + v.name@ + "(x) => !x.is_empty(), "@,
        v.truth == TruthTest::NotEmpty && v.payload@.len() == 0 ==> val_variant_text(ValText::Truth, v) == "Val::"@ + v.name@ + " => !x.is_empty(), "@,
        v.truth == TruthTest::IsSome && v.payload@.len() > 0 ==> val_variant_text(ValText::Truth, v) == "Val::"@ + v.name@ + "(x) => x.is_some(), "@,
        v.truth == TruthTest::IsSome && v.payload@.len() == 0 ==> val_variant_text(ValText::Truth, v) == "Val::"@ + v.name@ + " => x.is_some(), "@,
{
    match v.truth {
        TruthTest::Never => {
            reveal_strlit("(x)");
            reveal_strlit(" => ");
            reveal_strlit("false");
            reveal_strlit(", ");
            reveal_strlit("(x) => false, ");
            reveal_strlit(" => false, ");
            if v.payload@.len() > 0 {
                assert(val_variant_text(ValText::Truth, v) =~= "Val::"@ + v.name@ + "(x) => false, "@);
            } else {
                assert(val_variant_text(ValText::Truth, v) =~= "Val::"@ + v.name@ + " => false, "@);
            }
        },
        TruthTest::Itself => {
            reveal_strlit("(x)");
            reveal_strlit(" => ");
            reveal_strlit("*x");
            reveal_strlit(", ");
            reveal_strlit("(x) => *x, ");
            reveal_strlit(" => *x, ");
            if v.payload@.len() > 0 {
                assert(val_variant_text(ValText::Truth, v) =~= "Val::"@ + v.name@ + "(x) => *x, "@);
            } else {
                assert(val_variant_text(ValText::Truth, v) =~= "Val::"@ + v.name@ + " => *x, "@);
            }
        },
        TruthTest::NonZero => {
            reveal_strlit("(x)");
            reveal_strlit(" => ");
            reveal_strlit("*x != 0");
            reveal_strlit(", ");
            reveal_strlit("(x) => *x != 0, ");
            reveal_strlit(" => *x != 0, ");
            if v.payload@.len() > 0 {
                assert(val_variant_text(ValText::Truth, v) =~= "Val::"@ + v.name@ + "(x) => *x != 0, "@);
            } else {
                assert(val_variant_text(ValText::Truth, v) =~= "Val::"@ + v.name@ + " => *x != 0, "@);
            }
        },
        TruthTest::NonZeroFloat => {
            reveal_strlit("(x)");
            reveal_strlit(" => ");
            reveal_strlit("*x != 0.0");
            reveal_strlit(", ");
            reveal_strlit("(x) => *x != 0.0, ");
            reveal_strlit(" => *x != 0.0, ");
            if v.payload@.len() > 0 {
                assert(val_variant_text(ValText::Truth, v) =~= "Val::"@ + v.name@ + "(x) => *x != 0.0, "@);
            } else {
                assert(val_variant_text(ValText::Truth, v) =~= "Val::"@ + v.name@ + " => *x != 0.0, "@);
            }
        },
        TruthTest::NotEmpty => {
            reveal_strlit("(x)");
            reveal_strlit(" => ");
            reveal_strlit("!x.is_empty()");
            reveal_strlit(", ");
            reveal_strlit("(x) => !x.is_empty(), ");
            reveal_strlit(" => !x.is_empty(), ");
            if v.payload@.len() > 0 {
                assert(val_variant_text(ValText::Truth, v) =~= "Val::"@ + v.name@ + "(x) => !x.is_empty(), "@);
            } else {
                assert(val_variant_text(ValText::Truth, v) =~= "Val::"@ + v.name@ + " => !x.is_empty(), "@);
            }
        },
        TruthTest::IsSome => {
            reveal_strlit("(x)");
            reveal_strlit(" => ");
            reveal_strlit("x.is_some()");
            reveal_strlit(", ");
            reveal_strlit("(x) => x.is_some(), ");
            reveal_strlit(" => x.is_some(), ");
            if v.payload@.len() > 0 {
                assert(val_variant_text(ValText::Truth, v) =~= "Val::"@ + v.name@ + "(x) => x.is_some(), "@);
            } else {
                assert(val_variant_text(ValText::Truth, v) =~= "Val::"@ + v.name@ + " => x.is_some(), "@);
            }
        },
    }
}

/// What each `From` impl of `Val` wraps, for any source type: the argument
/// `x` itself, `x.into()`, `x.to_string()`, or `x` widened with `as` to the
/// payload type.
pub proof fn lemma_val_from_text(fr: ValFrom)
    ensures
        fr.conversion == ValConversion::Same ==> val_from_text(fr) == "impl From<"@ + fr.source@ + "> for Val { fn from(x: "@ + fr.source@
            + ") -> Self { Val::"@ + fr.variant@ + "(x) } }\n"@,
        fr.conversion == ValConversion::Into ==> val_from_text(fr) == "impl From<"@ + fr.source@ + "> for Val { fn from(x: "@ + fr.source@
            + ") -> Self { Val::"@ + fr.variant@ + "(x.into()) } }\n"@,
        fr.conversion == ValConversion::ToText ==> val_from_text(fr) == "impl From<"@ + fr.source@ + "> for Val { fn from(x: "@ + fr.source@
            + ") -> Self { Val::"@ + fr.variant@ + "(x.to_string()) } }\n"@,
        fr.conversion == ValConversion::Widen ==> val_from_text(fr) == "impl From<"@ + fr.source@ + "> for Val { fn from(x: "@ + fr.source@
            + ") -> Self { Val::"@ + fr.variant@ + "(x as "@ + fr.target@ + ") } }\n"@,
{
    match fr.conversion {
        ValConversion::Same => {
            reveal_strlit("(");
            reveal_strlit("x");
            reveal_strlit(") } }\n");
            reveal_strlit("(x) } }\n");
            assert(val_from_text(fr) =~= "impl From<"@ + fr.source@ + "> for Val { fn from(x: "@ + fr.source@
                + ") -> Self { Val::"@ + fr.variant@ + "(x) } }\n"@);
        },
        ValConversion::Into => {
            reveal_strlit("(");
            reveal_strlit("x.into()");
            reveal_strlit(") } }\n");
            reveal_strlit("(x.into()) } }\n");
            assert(val_from_text(fr) =~= "impl From<"@ + fr.source@ + "> for Val { fn from(x: "@ + fr.source@
                + ") -> Self { Val::"@ + fr.variant@ + "(x.into()) } }\n"@);
        },
        ValConversion::ToText => {
            reveal_strlit("(");
            reveal_strlit("x.to_string()");
            reveal_strlit(") } }\n");
            reveal_strlit("(x.to_string()) } }\n");
            assert(val_from_text(fr) =~= "impl From<"@ + fr.source@ + "> for Val { fn from(x: "@ + fr.source@
                + ") -> Self { Val::"@ + fr.variant@ + "(x.to_string()) } }\n"@);
        },
        ValConversion::Widen => {
            reveal_strlit("(");
            reveal_strlit("x as ");
            reveal_strlit(") } }\n");
            reveal_strlit("(x as ");
            assert(val_from_text(fr) =~= "impl From<"@ + fr.source@ + "> for Val { fn from(x: "@ + fr.source@
                + ") -> Self { Val::"@ + fr.variant@ + "(x as "@ + fr.target@ + ") } }\n"@);
        },
    }
}


/// Text that holds `p` still holds it with more text on either side.
pub proof fn lemma_contains_in(pre: Seq<char>, x: Seq<char>, post: Seq<char>, p: Seq<char>)
    requires
        contains_text(x, p),
    ensures
        contains_text(pre + x + post, p),
{
    let k = choose|k: int| occurs_at(x, p, k);
    let t = pre + x + post;
    assert(t.subrange(pre.len() + k, pre.len() + k + p.len()) =~= x.subrange(k, k + p.len()));
    assert(occurs_at(t, p, pre.len() + k));
}

/// The texts of a list of items, one after another, hold the text of each item.
pub proof fn lemma_joined_holds<A>(xs: Seq<A>, f: spec_fn(A) -> Seq<char>, i: int)
    requires
        0 <= i < xs.len(),
    ensures
        contains_text(joined(xs, f), f(xs[i])),
    decreases xs.len(),
{
    let d = joined(xs.drop_last(), f);
    if i == xs.len() - 1 {
        let j = joined(xs, f);
        assert(j.subrange(d.len() as int, (d.len() + f(xs[i]).len()) as int) =~= f(xs[i]));
        assert(occurs_at(j, f(xs[i]), d.len() as int));
    } else {
        lemma_joined_holds(xs.drop_last(), f, i);
        assert(xs.drop_last()[i] == xs[i]);
        lemma_contains_in(Seq::empty(), d, f(xs.last()), f(xs[i]));
        assert(Seq::<char>::empty() + d + f(xs.last()) =~= joined(xs, f));
    }
}

/// The source of the `ScriptStrExt` helpers declares every method of the
/// table in the trait and defines it in the impl for `&str`.
pub proof fn lemma_string_helpers_hold_every_method(i: int)
    requires
        0 <= i < str_ext_method_table().len(),
    ensures
        contains_text(string_helpers_text(), str_decl_text(str_ext_method_table()[i])),
        contains_text(string_helpers_text(), str_impl_text(str_ext_method_table()[i])),
{
    let t = str_ext_method_table();
    let a = "#[allow(dead_code)] trait ScriptStrExt { "@;
    let j1 = joined(t, str_decl_fn());
    let b = " }\nimpl ScriptStrExt for &str { "@;
    let j2 = joined(t, str_impl_fn());
    let c = " }\n"@;
    lemma_joined_holds(t, str_decl_fn(), i);
    lemma_joined_holds(t, str_impl_fn(), i);
    lemma_contains_in(a, j1, b + j2 + c, str_decl_text(t[i]));
    assert(a + j1 + (b + j2 + c) =~= string_helpers_text());
    lemma_contains_in(a + j1 + b, j2, c, str_impl_text(t[i]));
}

/// Every method of the table whose operation is uppercase conversion is
/// defined in the source of the `ScriptStrExt` helpers by a call of
/// `to_uppercase`, and every lowercase one by a call of `to_lowercase`.
pub proof fn lemma_case_methods_convert_case(i: int)
    requires
        0 <= i < str_ext_method_table().len(),
    ensures
        str_ext_method_table()[i].op == StrOp::Upper ==> contains_text(
            string_helpers_text(),
            "fn "@ + str_ext_method_table()[i].name@ + "(&self) -> String { self.to_uppercase() }\n"@,
        ),
        str_ext_method_table()[i].op == StrOp::Lower ==> contains_text(
            string_helpers_text(),
            "fn "@ + str_ext_method_table()[i].name@ + "(&self) -> String { self.to_lowercase() }\n"@,
        ),
{
    lemma_string_helpers_hold_every_method(i);
    lemma_str_method_text(str_ext_method_table()[i]);
}

/// The source of the `Truthy` helpers holds the impl of every row of the table.
pub proof fn lemma_truthy_helpers_hold_every_impl(i: int)
    requires
        0 <= i < truthy_impl_table().len(),
    ensures
        contains_text(truthy_helpers_text(), truthy_impl_text(truthy_impl_table()[i])),
{
    let t = truthy_impl_table();
    lemma_joined_holds(t, truthy_impl_fn(), i);
    let a = "#[allow(dead_code)] trait Truthy { fn is_truthy(&self) -> bool; }\n"@;
    lemma_contains_in(a, joined(t, truthy_impl_fn()), Seq::empty(), truthy_impl_text(t[i]));
    assert(a + joined(t, truthy_impl_fn()) + Seq::<char>::empty() =~= truthy_helpers_text());
}

/// The source of the `ScriptSliceExt` helpers declares every method of the
/// table and defines it for anything `AsRef<[T]>`.
pub proof fn lemma_slice_helpers_hold_every_method(i: int)
    requires
        0 <= i < slice_ext_method_table().len(),
    ensures
        contains_text(slice_helpers_text(), list_method_text(ListText::Decl, slice_ext_method_table()[i])),
        contains_text(slice_helpers_text(), list_method_text(ListText::AsRefImpl, slice_ext_method_table()[i])),
{
    let t = slice_ext_method_table();
    let a = "#[allow(dead_code)] trait ScriptSliceExt<T: Clone> { "@;
    let j1 = joined(t, list_method_fn(ListText::Decl));
    let b = " }\nimpl<T: Clone, S: AsRef<[T]>> ScriptSliceExt<T> for S { "@;
    let j2 = joined(t, list_method_fn(ListText::AsRefImpl));
    let c = " }\n"@;
    lemma_joined_holds(t, list_method_fn(ListText::Decl), i);
    lemma_joined_holds(t, list_method_fn(ListText::AsRefImpl), i);
    lemma_contains_in(a, j1, b + j2 + c, list_method_text(ListText::Decl, t[i]));
    assert(a + j1 + (b + j2 + c) =~= slice_helpers_text());
    lemma_contains_in(a + j1 + b, j2, c, list_method_text(ListText::AsRefImpl, t[i]));
}

/// Every mapping method of the `ScriptSliceExt` table is defined by applying
/// `f` to clones of the elements in their order and collecting the results.
pub proof fn lemma_mapping_methods_map_in_order(i: int)
    requires
        0 <= i < slice_ext_method_table().len(),
        slice_ext_method_table()[i].op == ListOp::MapEach,
    ensures
        contains_text(
            slice_helpers_text(),
            "fn "@ + slice_ext_method_table()[i].name@
                + "<U, F: Fn(T) -> U>(&self, f: F) -> Vec<U> { self.as_ref().iter().cloned().map(f).collect() }\n"@,
        ),
{
    lemma_slice_helpers_hold_every_method(i);
    lemma_list_method_text(slice_ext_method_table()[i]);
}

/// The source of the filter-only `ScriptSliceExt` helpers declares every
/// method of its table and defines it on `[T]`.
pub proof fn lemma_slice_filter_helpers_hold_every_method(i: int)
    requires
        0 <= i < slice_filter_method_table().len(),
    ensures
        contains_text(slice_filter_helpers_text(), list_method_text(ListText::Decl, slice_filter_method_table()[i])),
        contains_text(slice_filter_helpers_text(), list_method_text(ListText::SliceImpl, slice_filter_method_table()[i])),
{
    let t = slice_filter_method_table();
    let a = "#[allow(dead_code)] trait ScriptSliceExt<T: Clone> { "@;
    let j1 = joined(t, list_method_fn(ListText::Decl));
    let b = " }\nimpl<T: Clone> ScriptSliceExt<T> for [T] { "@;
    let j2 = joined(t, list_method_fn(ListText::SliceImpl));
    let c = " }\n"@;
    lemma_joined_holds(t, list_method_fn(ListText::Decl), i);
    lemma_joined_holds(t, list_method_fn(ListText::SliceImpl), i);
    lemma_contains_in(a, j1, b + j2 + c, list_method_text(ListText::Decl, t[i]));
    assert(a + j1 + (b + j2 + c) =~= slice_filter_helpers_text());
    lemma_contains_in(a + j1 + b, j2, c, list_method_text(ListText::SliceImpl, t[i]));
}

/// The source of the `ScriptVecExt` helpers declares every method of the
/// table and defines it for `Vec<T>`.
pub proof fn lemma_vec_helpers_hold_every_method(i: int)
    requires
        0 <= i < vec_ext_method_table().len(),
    ensures
        contains_text(vec_helpers_text(), list_method_text(ListText::Decl, vec_ext_method_table()[i])),
        contains_text(vec_helpers_text(), list_method_text(ListText::AsRefImpl, vec_ext_method_table()[i])),
{
    let t = vec_ext_method_table();
    let a = "#[allow(dead_code)] trait ScriptVecExt<T> { "@;
    let j1 = joined(t, list_method_fn(ListText::Decl));
    let b = " }\nimpl<T: Clone + Ord> ScriptVecExt<T> for Vec<T> { "@;
    let j2 = joined(t, list_method_fn(ListText::AsRefImpl));
    let c = " }\n"@;
    lemma_joined_holds(t, list_method_fn(ListText::Decl), i);
    lemma_joined_holds(t, list_method_fn(ListText::AsRefImpl), i);
    lemma_contains_in(a, j1, b + j2 + c, list_method_text(ListText::Decl, t[i]));
    assert(a + j1 + (b + j2 + c) =~= vec_helpers_text());
    lemma_contains_in(a + j1 + b, j2, c, list_method_text(ListText::AsRefImpl, t[i]));
}

/// The source of the `Val` helpers declares every variant of the table and
/// gives it its `Display`, `PartialEq<char>` and `Truthy` arms, and holds
/// every `From` impl of the table.
pub proof fn lemma_val_helpers_hold_every_row(i: int, k: int)
    requires
        0 <= i < val_variant_table().len(),
        0 <= k < val_from_table().len(),
    ensures
        contains_text(val_helpers_text(), val_variant_text(ValText::Decl, val_variant_table()[i])),
        contains_text(val_helpers_text(), val_variant_text(ValText::Display, val_variant_table()[i])),
        contains_text(val_helpers_text(), val_variant_text(ValText::EqChar, val_variant_table()[i])),
        contains_text(val_helpers_text(), val_variant_text(ValText::Truth, val_variant_table()[i])),
        contains_text(val_helpers_text(), val_from_text(val_from_table()[k])),
{
    let vs = val_variant_table();
    let a = "#[allow(dead_code)] #[derive(Clone, Debug, PartialEq)] enum Val { "@;
    let j1 = joined(vs, val_variant_fn(ValText::Decl));
    let b = "}\nimpl std::fmt::Display for Val { fn fmt(&self, f: &mut std::fmt::Formatter<'_>) -> std::fmt::Result { match self { "@;
    let j2 = joined(vs, val_variant_fn(ValText::Display));
    let c = "} } }\n"@;
    let j3 = joined(val_from_table(), val_from_fn());
    let d = "impl PartialEq<char> for Val { fn eq(&self, other: &char) -> bool { match self { "@;
    let j4 = joined(vs, val_variant_fn(ValText::EqChar));
    let e = "_ => false } } }\nimpl Truthy for Val { fn is_truthy(&self) -> bool { match self { "@;
    let j5 = joined(vs, val_variant_fn(ValText::Truth));
    let g = "} } }\n"@;
    let whole = val_helpers_text();
    assert(whole =~= a + j1 + (b + j2 + c + j3 + d + j4 + e + j5 + g));
    assert(whole =~= a + j1 + b + j2 + (c + j3 + d + j4 + e + j5 + g));
    assert(whole =~= a + j1 + b + j2 + c + j3 + (d + j4 + e + j5 + g));
    assert(whole =~= a + j1 + b + j2 + c + j3 + d + j4 + (e + j5 + g));
    assert(whole =~= a + j1 + b + j2 + c + j3 + d + j4 + e + j5 + g);
    lemma_joined_holds(vs, val_variant_fn(ValText::Decl), i);
    lemma_joined_holds(vs, val_variant_fn(ValText::Display), i);
    lemma_joined_holds(vs, val_variant_fn(ValText::EqChar), i);
    lemma_joined_holds(vs, val_variant_fn(ValText::Truth), i);
    lemma_joined_holds(val_from_table(), val_from_fn(), k);
    lemma_contains_in(a, j1, b + j2 + c + j3 + d + j4 + e + j5 + g, val_variant_text(ValText::Decl, vs[i]));
    lemma_contains_in(a + j1 + b, j2, c + j3 + d + j4 + e + j5 + g, val_variant_text(ValText::Display, vs[i]));
    lemma_contains_in(a + j1 + b + j2 + c, j3, d + j4 + e + j5 + g, val_from_text(val_from_table()[k]));
    lemma_contains_in(a + j1 + b + j2 + c + j3 + d, j4, e + j5 + g, val_variant_text(ValText::EqChar, vs[i]));
    lemma_contains_in(a + j1 + b + j2 + c + j3 + d + j4 + e, j5, g, val_variant_text(ValText::Truth, vs[i]));
}

/// In the `Truthy` impl of `Val`, an `Int` is truthy exactly when it is not zero.
pub proof fn lemma_int_val_truthy_when_nonzero()
    ensures
        contains_text(val_helpers_text(), "Val::Int(x) => *x != 0, "@),
{
    let v = val_variant_table()[1];
    lemma_val_helpers_hold_every_row(1, 0);
    lemma_val_truth_arm(v);
    reveal_strlit("Val::");
    reveal_strlit("Int");
    reveal_strlit("i64");
    reveal_strlit("(x) => *x != 0, ");
    reveal_strlit("Val::Int(x) => *x != 0, ");
    assert(v.payload@.len() > 0);
    assert("Val::"@ + v.name@ + "(x) => *x != 0, "@ =~= "Val::Int(x) => *x != 0, "@);
}

/// The source of the math constants defines every constant of the table.
pub proof fn lemma_math_constants_hold_every_const(i: int)
    requires
        0 <= i < math_const_table().len(),
    ensures
        contains_text(math_constants_text(), math_const_text(math_const_table()[i])),
{
    lemma_joined_holds(math_const_table(), math_const_fn(), i);
}


/// The fixed helpers: `approx_eq` holds when `|a - b|` is below 1e-9 times
/// the larger of 1, `|a|` and `|b|`; `slice_eq` compares two lists as
/// slices; `__debug_string` formats a value with `{:?}`.
pub proof fn lemma_fixed_helper_texts()
    ensures
        approx_eq_function_text()
            == "#[allow(dead_code)] fn approx_eq(a: f64, b: f64) -> bool { (a - b).abs() < 1e-9_f64.max(a.abs() * 1e-9).max(b.abs() * 1e-9) }\n"@,
        slice_eq_fn_text()@
            == "#[allow(dead_code)] fn slice_eq<T: PartialEq, A: AsRef<[T]>, B: AsRef<[T]>>(a: &A, b: &B) -> bool { a.as_ref() == b.as_ref() }\n"@,
        debug_string_fn_text()@
            == "#[allow(dead_code)] fn __debug_string<T: ::std::fmt::Debug>(x: &T) -> String { format!(\"{:?}\", x) }\n"@,
{
    reveal_strlit("1e-9");
    reveal_strlit("#[allow(dead_code)] fn approx_eq(a: f64, b: f64) -> bool { (a - b).abs() < ");
    reveal_strlit("_f64.max(a.abs() * ");
    reveal_strlit(").max(b.abs() * ");
    reveal_strlit(") }\n");
    reveal_strlit(
        "#[allow(dead_code)] fn approx_eq(a: f64, b: f64) -> bool { (a - b).abs() < 1e-9_f64.max(a.abs() * 1e-9).max(b.abs() * 1e-9) }\n",
    );
    assert(approx_eq_function_text()
        =~= "#[allow(dead_code)] fn approx_eq(a: f64, b: f64) -> bool { (a - b).abs() < 1e-9_f64.max(a.abs() * 1e-9).max(b.abs() * 1e-9) }\n"@);
}

/// What the other arms of each `Val` variant are, for any variant: its
/// declaration with its payload in brackets (none for a unit variant); its
/// `Display` arm writing the payload with `{}` or `{:?}`, or `nil`; and its
/// `PartialEq<char>` arm comparing its text with the character's text, or
/// nothing where it cannot equal a `char`.
pub proof fn lemma_val_variant_texts(v: ValVariant)
    ensures
        v.payload@.len() == 0 ==> val_variant_text(ValText::Decl, v) == v.name@ + ", "@,
        v.payload@.len() > 0 ==> val_variant_text(ValText::Decl, v) == v.name@ + "("@ + v.payload@
            + "), "@,
        v.format == ValFormat::Plain ==> val_variant_text(ValText::Display, v) == "Val::"@ + v.name@
            + "(x) => write!(f, \"{}\", x), "@,
        v.format == ValFormat::Debug ==> val_variant_text(ValText::Display, v) == "Val::"@ + v.name@
            + "(x) => write!(f, \"{:?}\", x), "@,
        v.format == ValFormat::Nil ==> val_variant_text(ValText::Display, v) == "Val::"@ + v.name@
            + " => write!(f, \"nil\"), "@,
        v.eq_char ==> val_variant_text(ValText::EqChar, v) == "Val::"@ + v.name@
            + "(s) => s == &other.to_string(), "@,
        !v.eq_char ==> val_variant_text(ValText::EqChar, v) == Seq::<char>::empty(),
{
}

/// Each math constant is the `f64` constant of `std::f64::consts` it names.
pub proof fn lemma_math_const_text(c: MathConst)
    ensures
        math_const_text(c) == "#[allow(dead_code)] const "@ + c.name@ + ": f64 = std::f64::consts::"@
            + c.std_name@ + ";\n"@,
{
}

} // verus!
