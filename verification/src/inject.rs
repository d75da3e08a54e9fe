//! The items that script mode injects into a script, as plain data.
//!
//! Script mode adds helper macros, traits, impls, functions and constants
//! to every script. This module decides what they are: their names, which
//! body each one gets, and, for tokens of the helper macros, whether an
//! identifier resolves where the macro is defined or where it is called.
//! Turning these plans into compiler syntax is done outside the library.
use vstd::prelude::*;
use crate::text::{chars_of, same_chars};

verus! {

/// Where an identifier of an injected macro resolves: at the definition of
/// the macro, hidden from the script, or at its call, in the script's scope.
#[derive(PartialEq, Eq, Structural, Clone, Copy, Debug)]
pub enum Site {
    Def,
    Call,
}

/// The identifiers in injected macros that must resolve in the script's
/// scope: the standard macros and items that the expansions call, and the
/// helpers that script mode itself injects.
pub open spec fn call_site_names() -> Seq<Seq<char>> {
    seq![
        "println"@, "print"@, "format"@, "assert"@, "assert_eq"@, "slice_eq"@, "std"@, "any"@,
        "type_name_of_val"@, "exit"@, "is_truthy"@, "String"@, "into"@,
    ]
}

/// The names of `call_site_names`, as text.
fn call_site_list() -> (v: Vec<&'static str>)
    ensures
        v@.len() == call_site_names().len(),
        forall|i: int| 0 <= i < v@.len() ==> #[trigger] v@[i]@ == call_site_names()[i],
{
    vec![
        "println", "print", "format", "assert", "assert_eq", "slice_eq", "std", "any",
        "type_name_of_val", "exit", "is_truthy", "String", "into",
    ]
}

/// Where the identifier `name` in an injected macro resolves.
pub fn ident_site(name: &str) -> (s: Site)
    ensures
        s == site_of_name(name@),
{
    let n = chars_of(name);
    ident_site_of_chars(&n)
}

/// Where an identifier with the characters `name` resolves.
pub open spec fn site_of_name(name: Seq<char>) -> Site {
    if call_site_names().contains(name) {
        Site::Call
    } else {
        Site::Def
    }
}

/// Where the identifier with the characters `n` resolves.
pub fn ident_site_of_chars(n: &[char]) -> (s: Site)
    ensures
        s == site_of_name(n@),
{
    let list = call_site_list();
    let mut i: usize = 0;
    while i < list.len()
        invariant
            i <= list@.len(),
            list@.len() == call_site_names().len(),
            forall|k: int| 0 <= k < list@.len() ==> #[trigger] list@[k]@ == call_site_names()[k],
            forall|k: int| 0 <= k < i ==> call_site_names()[k] != n@,
        decreases list@.len() - i,
    {
        let known = chars_of(list[i]);
        if same_chars(&known, n) {
            assert(call_site_names()[i as int] == n@);
            return Site::Call;
        }
        i = i + 1;
    }
    Site::Def
}

/// Where the name of each injected helper macro resolves: at the call, so
/// that scripts can invoke it.
pub fn macro_name_site() -> (s: Site)
    ensures
        s == Site::Call,
{
    Site::Call
}

/// Where each injected helper macro item itself, with its attributes, is placed:
/// at the definition.
pub fn macro_item_site() -> (s: Site)
    ensures
        s == Site::Def,
{
    Site::Def
}

/// A helper macro: its name and its rules, as `macro_rules!` source.
#[derive(Clone, Copy, Debug)]
pub struct ScriptMacro {
    pub name: &'static str,
    pub rules: &'static str,
}

/// The helper macros that script mode injects.
pub open spec fn script_macro_table() -> Seq<ScriptMacro> {
    seq![
        ScriptMacro {
            name: "put",
            rules: "() => { println!() }; ($e:expr $(,)?) => { println!(\"{:?}\", $e) }; ($first:expr, $($rest:expr),+ $(,)?) => { print!(\"{:?}\", $first); $(print!(\" {:?}\", $rest);)+ println!(); };",
        },
        ScriptMacro { name: "printf", rules: "($($arg:tt)*) => { println!($($arg)*) };" },
        ScriptMacro { name: "eq", rules: "($left:expr, $right:expr) => { assert_eq!($left, $right) };" },
        ScriptMacro {
            name: "eqs",
            rules: "($left:expr, $right:expr) => { assert_eq!(format!(\"{:?}\", $left), $right) };",
        },
        ScriptMacro {
            name: "seq",
            rules: "($left:expr, $right:expr) => { assert!(slice_eq(&$left, &$right)) };",
        },
        ScriptMacro { name: "s", rules: "($e:expr) => { { let __s: String = $e.into(); __s } };" },
        ScriptMacro { name: "typeid", rules: "($e:expr) => { std::any::type_name_of_val(&$e) };" },
        ScriptMacro { name: "exit", rules: "() => { exit(0) }; ($code:expr) => { exit($code) };" },
        ScriptMacro {
            name: "__if",
            rules: "($cond:expr ; $($rest:tt)*) => { if (&$cond).is_truthy() $($rest)* };",
        },
        ScriptMacro { name: "__stmt", rules: "($($t:tt)*) => { $($t)*; };" },
    ]
}

/// The helper macros that script mode injects, in order.
pub fn script_macros() -> (r: Vec<ScriptMacro>)
    ensures
        r@ == script_macro_table(),
{
    vec![
        ScriptMacro {
            name: "put",
            rules: "() => { println!() }; ($e:expr $(,)?) => { println!(\"{:?}\", $e) }; ($first:expr, $($rest:expr),+ $(,)?) => { print!(\"{:?}\", $first); $(print!(\" {:?}\", $rest);)+ println!(); };",
        },
        ScriptMacro { name: "printf", rules: "($($arg:tt)*) => { println!($($arg)*) };" },
        ScriptMacro { name: "eq", rules: "($left:expr, $right:expr) => { assert_eq!($left, $right) };" },
        ScriptMacro {
            name: "eqs",
            rules: "($left:expr, $right:expr) => { assert_eq!(format!(\"{:?}\", $left), $right) };",
        },
        ScriptMacro {
            name: "seq",
            rules: "($left:expr, $right:expr) => { assert!(slice_eq(&$left, &$right)) };",
        },
        ScriptMacro { name: "s", rules: "($e:expr) => { { let __s: String = $e.into(); __s } };" },
        ScriptMacro { name: "typeid", rules: "($e:expr) => { std::any::type_name_of_val(&$e) };" },
        ScriptMacro { name: "exit", rules: "() => { exit(0) }; ($code:expr) => { exit($code) };" },
        ScriptMacro {
            name: "__if",
            rules: "($cond:expr ; $($rest:tt)*) => { if (&$cond).is_truthy() $($rest)* };",
        },
        ScriptMacro { name: "__stmt", rules: "($($t:tt)*) => { $($t)*; };" },
    ]
}

/// What the body of a `ScriptStrExt` method does with the text.
#[derive(PartialEq, Eq, Structural, Clone, Copy, Debug)]
pub enum StrOp {
    /// The first character as a `String`, or an empty one.
    First,
    /// The last character as a `String`, or an empty one.
    Last,
    /// The characters in reverse order.
    Reverse,
    /// The length in bytes.
    Size,
    /// `to_uppercase`.
    Upper,
    /// `to_lowercase`.
    Lower,
    /// `contains(pat)`.
    Contains,
    /// `find(pat)`.
    Find,
    /// `replace(from, to)`.
    Replace,
}

/// A method of the injected `ScriptStrExt` trait on `&str`.
#[derive(Clone, Copy, Debug)]
pub struct StrMethod {
    pub name: &'static str,
    pub op: StrOp,
}

/// The methods of the injected `ScriptStrExt` trait, in order.
pub open spec fn str_ext_method_table() -> Seq<StrMethod> {
    seq![
        StrMethod { name: "first", op: StrOp::First },
        StrMethod { name: "head", op: StrOp::First },
        StrMethod { name: "start", op: StrOp::First },
        StrMethod { name: "begin", op: StrOp::First },
        StrMethod { name: "last", op: StrOp::Last },
        StrMethod { name: "tail", op: StrOp::Last },
        StrMethod { name: "end", op: StrOp::Last },
        StrMethod { name: "reverse", op: StrOp::Reverse },
        StrMethod { name: "size", op: StrOp::Size },
        StrMethod { name: "length", op: StrOp::Size },
        StrMethod { name: "upper", op: StrOp::Upper },
        StrMethod { name: "to_upper", op: StrOp::Upper },
        StrMethod { name: "toUpper", op: StrOp::Upper },
        StrMethod { name: "uppercase", op: StrOp::Upper },
        StrMethod { name: "lower", op: StrOp::Lower },
        StrMethod { name: "to_lower", op: StrOp::Lower },
        StrMethod { name: "toLower", op: StrOp::Lower },
        StrMethod { name: "lowercase", op: StrOp::Lower },
        StrMethod { name: "includes", op: StrOp::Contains },
        StrMethod { name: "has", op: StrOp::Contains },
        StrMethod { name: "holds", op: StrOp::Contains },
        StrMethod { name: "search", op: StrOp::Find },
        StrMethod { name: "locate", op: StrOp::Find },
        StrMethod { name: "substitute", op: StrOp::Replace },
        StrMethod { name: "swap", op: StrOp::Replace },
    ]
}

/// The methods of the injected `ScriptStrExt` trait, in order.
pub fn str_ext_methods() -> (r: Vec<StrMethod>)
    ensures
        r@ == str_ext_method_table(),
{
    vec![
        StrMethod { name: "first", op: StrOp::First },
        StrMethod { name: "head", op: StrOp::First },
        StrMethod { name: "start", op: StrOp::First },
        StrMethod { name: "begin", op: StrOp::First },
        StrMethod { name: "last", op: StrOp::Last },
        StrMethod { name: "tail", op: StrOp::Last },
        StrMethod { name: "end", op: StrOp::Last },
        StrMethod { name: "reverse", op: StrOp::Reverse },
        StrMethod { name: "size", op: StrOp::Size },
        StrMethod { name: "length", op: StrOp::Size },
        StrMethod { name: "upper", op: StrOp::Upper },
        StrMethod { name: "to_upper", op: StrOp::Upper },
        StrMethod { name: "toUpper", op: StrOp::Upper },
        StrMethod { name: "uppercase", op: StrOp::Upper },
        StrMethod { name: "lower", op: StrOp::Lower },
        StrMethod { name: "to_lower", op: StrOp::Lower },
        StrMethod { name: "toLower", op: StrOp::Lower },
        StrMethod { name: "lowercase", op: StrOp::Lower },
        StrMethod { name: "includes", op: StrOp::Contains },
        StrMethod { name: "has", op: StrOp::Contains },
        StrMethod { name: "holds", op: StrOp::Contains },
        StrMethod { name: "search", op: StrOp::Find },
        StrMethod { name: "locate", op: StrOp::Find },
        StrMethod { name: "substitute", op: StrOp::Replace },
        StrMethod { name: "swap", op: StrOp::Replace },
    ]
}

/// When an injected `Truthy` impl counts a value as true.
#[derive(PartialEq, Eq, Structural, Clone, Copy, Debug)]
pub enum TruthTest {
    /// Never.
    Never,
    /// When the `bool` is itself true.
    Itself,
    /// When the integer is not zero.
    NonZero,
    /// When the float is not zero.
    NonZeroFloat,
    /// When the text or list is not empty.
    NotEmpty,
    /// When the option holds a value.
    IsSome,
}

/// An injected `impl Truthy for <ty>`; `generic` marks `impl<T>` over `<ty><T>`.
#[derive(Clone, Copy, Debug)]
pub struct TruthyImpl {
    pub ty: &'static str,
    pub generic: bool,
    pub test: TruthTest,
}

/// The impls of the injected `Truthy` trait, in order.
pub open spec fn truthy_impl_table() -> Seq<TruthyImpl> {
    seq![
        TruthyImpl { ty: "bool", generic: false, test: TruthTest::Itself },
        TruthyImpl { ty: "i8", generic: false, test: TruthTest::NonZero },
        TruthyImpl { ty: "i16", generic: false, test: TruthTest::NonZero },
        TruthyImpl { ty: "i32", generic: false, test: TruthTest::NonZero },
        TruthyImpl { ty: "i64", generic: false, test: TruthTest::NonZero },
        TruthyImpl { ty: "i128", generic: false, test: TruthTest::NonZero },
        TruthyImpl { ty: "isize", generic: false, test: TruthTest::NonZero },
        TruthyImpl { ty: "u8", generic: false, test: TruthTest::NonZero },
        TruthyImpl { ty: "u16", generic: false, test: TruthTest::NonZero },
        TruthyImpl { ty: "u32", generic: false, test: TruthTest::NonZero },
        TruthyImpl { ty: "u64", generic: false, test: TruthTest::NonZero },
        TruthyImpl { ty: "u128", generic: false, test: TruthTest::NonZero },
        TruthyImpl { ty: "usize", generic: false, test: TruthTest::NonZero },
        TruthyImpl { ty: "f32", generic: false, test: TruthTest::NonZeroFloat },
        TruthyImpl { ty: "f64", generic: false, test: TruthTest::NonZeroFloat },
        TruthyImpl { ty: "&str", generic: false, test: TruthTest::NotEmpty },
        TruthyImpl { ty: "String", generic: false, test: TruthTest::NotEmpty },
        TruthyImpl { ty: "Vec", generic: true, test: TruthTest::NotEmpty },
        TruthyImpl { ty: "Option", generic: true, test: TruthTest::IsSome },
    ]
}

/// The impls of the injected `Truthy` trait, in order.
pub fn truthy_impls() -> (r: Vec<TruthyImpl>)
    ensures
        r@ == truthy_impl_table(),
{
    vec![
        TruthyImpl { ty: "bool", generic: false, test: TruthTest::Itself },
        TruthyImpl { ty: "i8", generic: false, test: TruthTest::NonZero },
        TruthyImpl { ty: "i16", generic: false, test: TruthTest::NonZero },
        TruthyImpl { ty: "i32", generic: false, test: TruthTest::NonZero },
        TruthyImpl { ty: "i64", generic: false, test: TruthTest::NonZero },
        TruthyImpl { ty: "i128", generic: false, test: TruthTest::NonZero },
        TruthyImpl { ty: "isize", generic: false, test: TruthTest::NonZero },
        TruthyImpl { ty: "u8", generic: false, test: TruthTest::NonZero },
        TruthyImpl { ty: "u16", generic: false, test: TruthTest::NonZero },
        TruthyImpl { ty: "u32", generic: false, test: TruthTest::NonZero },
        TruthyImpl { ty: "u64", generic: false, test: TruthTest::NonZero },
        TruthyImpl { ty: "u128", generic: false, test: TruthTest::NonZero },
        TruthyImpl { ty: "usize", generic: false, test: TruthTest::NonZero },
        TruthyImpl { ty: "f32", generic: false, test: TruthTest::NonZeroFloat },
        TruthyImpl { ty: "f64", generic: false, test: TruthTest::NonZeroFloat },
        TruthyImpl { ty: "&str", generic: false, test: TruthTest::NotEmpty },
        TruthyImpl { ty: "String", generic: false, test: TruthTest::NotEmpty },
        TruthyImpl { ty: "Vec", generic: true, test: TruthTest::NotEmpty },
        TruthyImpl { ty: "Option", generic: true, test: TruthTest::IsSome },
    ]
}

/// What the body of an injected slice or `Vec` method does.
#[derive(PartialEq, Eq, Structural, Clone, Copy, Debug)]
pub enum ListOp {
    /// `f` applied to a clone of each element, collected.
    MapEach,
    /// Clones of the elements on which `f` answers `true`, collected.
    Filter,
    /// A clone of the first element, if any.
    FirstCloned,
    /// Each position paired with a clone of its element.
    Pairs,
    /// Removes and returns the first element of a `Vec`, if any.
    Shift,
    /// A clone of the `Vec` sorted from greatest to least.
    SortDesc,
}

/// A method of an injected list trait.
#[derive(Clone, Copy, Debug)]
pub struct ListMethod {
    pub name: &'static str,
    pub op: ListOp,
}

/// The methods of the injected `ScriptSliceExt` trait on anything that is `AsRef<[T]>`, in order.
pub open spec fn slice_ext_method_table() -> Seq<ListMethod> {
    seq![
        ListMethod { name: "mapped", op: ListOp::MapEach },
        ListMethod { name: "apply", op: ListOp::MapEach },
        ListMethod { name: "transform", op: ListOp::MapEach },
        ListMethod { name: "convert", op: ListOp::MapEach },
        ListMethod { name: "filtered", op: ListOp::Filter },
        ListMethod { name: "select", op: ListOp::Filter },
        ListMethod { name: "chose", op: ListOp::Filter },
        ListMethod { name: "that", op: ListOp::Filter },
        ListMethod { name: "which", op: ListOp::Filter },
        ListMethod { name: "first_cloned", op: ListOp::FirstCloned },
        ListMethod { name: "shift", op: ListOp::FirstCloned },
        ListMethod { name: "pairs", op: ListOp::Pairs },
    ]
}

/// The methods of the injected `ScriptSliceExt` trait, in order.
pub fn slice_ext_methods() -> (r: Vec<ListMethod>)
    ensures
        r@ == slice_ext_method_table(),
{
    vec![
        ListMethod { name: "mapped", op: ListOp::MapEach },
        ListMethod { name: "apply", op: ListOp::MapEach },
        ListMethod { name: "transform", op: ListOp::MapEach },
        ListMethod { name: "convert", op: ListOp::MapEach },
        ListMethod { name: "filtered", op: ListOp::Filter },
        ListMethod { name: "select", op: ListOp::Filter },
        ListMethod { name: "chose", op: ListOp::Filter },
        ListMethod { name: "that", op: ListOp::Filter },
        ListMethod { name: "which", op: ListOp::Filter },
        ListMethod { name: "first_cloned", op: ListOp::FirstCloned },
        ListMethod { name: "shift", op: ListOp::FirstCloned },
        ListMethod { name: "pairs", op: ListOp::Pairs },
    ]
}

/// The methods of the filter-only `ScriptSliceExt` trait on `[T]`.
pub open spec fn slice_filter_method_table() -> Seq<ListMethod> {
    seq![
        ListMethod { name: "filter", op: ListOp::Filter },
    ]
}

/// The methods of the filter-only `ScriptSliceExt` trait on `[T]`.
pub fn slice_filter_methods() -> (r: Vec<ListMethod>)
    ensures
        r@ == slice_filter_method_table(),
{
    vec![
        ListMethod { name: "filter", op: ListOp::Filter },
    ]
}

/// The methods of the injected `ScriptVecExt` trait on `Vec<T>`, in order.
pub open spec fn vec_ext_method_table() -> Seq<ListMethod> {
    seq![
        ListMethod { name: "shift", op: ListOp::Shift },
        ListMethod { name: "sortDesc", op: ListOp::SortDesc },
    ]
}

/// The methods of the injected `ScriptVecExt` trait on `Vec<T>`, in order.
pub fn vec_ext_methods() -> (r: Vec<ListMethod>)
    ensures
        r@ == vec_ext_method_table(),
{
    vec![
        ListMethod { name: "shift", op: ListOp::Shift },
        ListMethod { name: "sortDesc", op: ListOp::SortDesc },
    ]
}

/// How `Display` writes a variant of the injected `Val` enum.
#[derive(PartialEq, Eq, Structural, Clone, Copy, Debug)]
pub enum ValFormat {
    /// The payload with `{}`.
    Plain,
    /// The payload with `{:?}`.
    Debug,
    /// The text `nil`.
    Nil,
}

/// A variant of the injected `Val` enum: its name, the type of its payload
/// (empty for a unit variant), how it is displayed, when it is truthy, and
/// whether it can equal a `char` (as the text of that one character).
#[derive(Clone, Copy, Debug)]
pub struct ValVariant {
    pub name: &'static str,
    pub payload: &'static str,
    pub format: ValFormat,
    pub truth: TruthTest,
    pub eq_char: bool,
}

/// The variants of the injected `Val` enum, in order.
pub open spec fn val_variant_table() -> Seq<ValVariant> {
    seq![
        ValVariant { name: "Str", payload: "String", format: ValFormat::Plain, truth: TruthTest::NotEmpty, eq_char: true },
        ValVariant { name: "Int", payload: "i64", format: ValFormat::Plain, truth: TruthTest::NonZero, eq_char: false },
        ValVariant { name: "Float", payload: "f64", format: ValFormat::Plain, truth: TruthTest::NonZeroFloat, eq_char: false },
        ValVariant { name: "Bool", payload: "bool", format: ValFormat::Plain, truth: TruthTest::Itself, eq_char: false },
        ValVariant { name: "List", payload: "Vec<Val>", format: ValFormat::Debug, truth: TruthTest::NotEmpty, eq_char: false },
        ValVariant { name: "Nil", payload: "", format: ValFormat::Nil, truth: TruthTest::Never, eq_char: false },
    ]
}

/// The variants of the injected `Val` enum, in order.
pub fn val_variants() -> (r: Vec<ValVariant>)
    ensures
        r@ == val_variant_table(),
{
    vec![
        ValVariant { name: "Str", payload: "String", format: ValFormat::Plain, truth: TruthTest::NotEmpty, eq_char: true },
        ValVariant { name: "Int", payload: "i64", format: ValFormat::Plain, truth: TruthTest::NonZero, eq_char: false },
        ValVariant { name: "Float", payload: "f64", format: ValFormat::Plain, truth: TruthTest::NonZeroFloat, eq_char: false },
        ValVariant { name: "Bool", payload: "bool", format: ValFormat::Plain, truth: TruthTest::Itself, eq_char: false },
        ValVariant { name: "List", payload: "Vec<Val>", format: ValFormat::Debug, truth: TruthTest::NotEmpty, eq_char: false },
        ValVariant { name: "Nil", payload: "", format: ValFormat::Nil, truth: TruthTest::Never, eq_char: false },
    ]
}

/// How an injected `From` impl turns its argument into a `Val` payload.
#[derive(PartialEq, Eq, Structural, Clone, Copy, Debug)]
pub enum ValConversion {
    /// The argument itself.
    Same,
    /// `.into()`.
    Into,
    /// `as` the payload type.
    Widen,
    /// `.to_string()`.
    ToText,
}

/// An injected `impl From<source> for Val`, wrapping into `variant`, whose
/// payload has type `target`.
#[derive(Clone, Copy, Debug)]
pub struct ValFrom {
    pub source: &'static str,
    pub variant: &'static str,
    pub target: &'static str,
    pub conversion: ValConversion,
}

/// The `From` impls of the injected `Val` enum, in order.
pub open spec fn val_from_table() -> Seq<ValFrom> {
    seq![
        ValFrom { source: "&str", variant: "Str", target: "String", conversion: ValConversion::Into },
        ValFrom { source: "String", variant: "Str", target: "String", conversion: ValConversion::Same },
        ValFrom { source: "i64", variant: "Int", target: "i64", conversion: ValConversion::Same },
        ValFrom { source: "i32", variant: "Int", target: "i64", conversion: ValConversion::Widen },
        ValFrom { source: "f64", variant: "Float", target: "f64", conversion: ValConversion::Same },
        ValFrom { source: "f32", variant: "Float", target: "f64", conversion: ValConversion::Widen },
        ValFrom { source: "bool", variant: "Bool", target: "bool", conversion: ValConversion::Same },
        ValFrom { source: "char", variant: "Str", target: "String", conversion: ValConversion::ToText },
    ]
}

/// The `From` impls of the injected `Val` enum, in order.
pub fn val_from_impls() -> (r: Vec<ValFrom>)
    ensures
        r@ == val_from_table(),
{
    vec![
        ValFrom { source: "&str", variant: "Str", target: "String", conversion: ValConversion::Into },
        ValFrom { source: "String", variant: "Str", target: "String", conversion: ValConversion::Same },
        ValFrom { source: "i64", variant: "Int", target: "i64", conversion: ValConversion::Same },
        ValFrom { source: "i32", variant: "Int", target: "i64", conversion: ValConversion::Widen },
        ValFrom { source: "f64", variant: "Float", target: "f64", conversion: ValConversion::Same },
        ValFrom { source: "f32", variant: "Float", target: "f64", conversion: ValConversion::Widen },
        ValFrom { source: "bool", variant: "Bool", target: "bool", conversion: ValConversion::Same },
        ValFrom { source: "char", variant: "Str", target: "String", conversion: ValConversion::ToText },
    ]
}

/// An injected `f64` constant, equal to the constant `std_name` of `std::f64::consts`.
#[derive(Clone, Copy, Debug)]
pub struct MathConst {
    pub name: &'static str,
    pub std_name: &'static str,
}

/// The injected math constants, in order.
pub open spec fn math_const_table() -> Seq<MathConst> {
    seq![
        MathConst { name: "tau", std_name: "TAU" },
        MathConst { name: "pi", std_name: "PI" },
        MathConst { name: "τ", std_name: "TAU" },
        MathConst { name: "π", std_name: "PI" },
    ]
}

/// The injected math constants, in order.
pub fn math_consts() -> (r: Vec<MathConst>)
    ensures
        r@ == math_const_table(),
{
    vec![
        MathConst { name: "tau", std_name: "TAU" },
        MathConst { name: "pi", std_name: "PI" },
        MathConst { name: "τ", std_name: "TAU" },
        MathConst { name: "π", std_name: "PI" },
    ]
}

/// The tolerance that the injected `approx_eq` scales by the magnitudes of
/// its arguments, as the text of an `f64` literal.
pub open spec fn approx_eq_epsilon_text() -> &'static str {
    "1e-9"
}

/// The tolerance of the injected `approx_eq`, as literal text.
pub fn approx_eq_epsilon() -> (r: &'static str)
    ensures
        r == approx_eq_epsilon_text(),
{
    "1e-9"
}


/// The helper macros, in order, each with the rules it is defined by:
/// `put!` prints its arguments with `{:?}`, separated by spaces; `printf!`
/// passes its tokens to `println!`; `eq!` asserts with `assert_eq!` that its
/// first argument equals its second; `eqs!` that the `{:?}` text of its first
/// argument equals its second; `seq!` that two lists are equal element by
/// element; `s!` makes a `String`; `typeid!` gives the type name of its
/// argument; `exit!` exits with code 0 or the given one; `__if!` tests its
/// condition by truthiness; `__stmt!` makes its tokens a statement.
pub proof fn lemma_helper_macro_rules()
    ensures
        script_macro_table().len() == 10,
        script_macro_table()[0].name == "put",
        script_macro_table()[0].rules ==
            "() => { println!() }; ($e:expr $(,)?) => { println!(\"{:?}\", $e) }; ($first:expr, $($rest:expr),+ $(,)?) => { print!(\"{:?}\", $first); $(print!(\" {:?}\", $rest);)+ println!(); };",
        script_macro_table()[1].name == "printf",
        script_macro_table()[1].rules ==
            "($($arg:tt)*) => { println!($($arg)*) };",
        script_macro_table()[2].name == "eq",
        script_macro_table()[2].rules ==
            "($left:expr, $right:expr) => { assert_eq!($left, $right) };",
        script_macro_table()[3].name == "eqs",
        script_macro_table()[3].rules ==
            "($left:expr, $right:expr) => { assert_eq!(format!(\"{:?}\", $left), $right) };",
        script_macro_table()[4].name == "seq",
        script_macro_table()[4].rules ==
            "($left:expr, $right:expr) => { assert!(slice_eq(&$left, &$right)) };",
        script_macro_table()[5].name == "s",
        script_macro_table()[5].rules ==
            "($e:expr) => { { let __s: String = $e.into(); __s } };",
        script_macro_table()[6].name == "typeid",
        script_macro_table()[6].rules ==
            "($e:expr) => { std::any::type_name_of_val(&$e) };",
        script_macro_table()[7].name == "exit",
        script_macro_table()[7].rules ==
            "() => { exit(0) }; ($code:expr) => { exit($code) };",
        script_macro_table()[8].name == "__if",
        script_macro_table()[8].rules ==
            "($cond:expr ; $($rest:tt)*) => { if (&$cond).is_truthy() $($rest)* };",
        script_macro_table()[9].name == "__stmt",
        script_macro_table()[9].rules ==
            "($($t:tt)*) => { $($t)*; };",
{
}

/// `eq!` compares both of its arguments: its rules match two expressions and
/// pass `$left` and then `$right` to `assert_eq!`.
pub proof fn lemma_eq_macro_compares_both()
    ensures
        exists|i: int|
            0 <= i < script_macro_table().len() && #[trigger] script_macro_table()[i].name == "eq"
                && script_macro_table()[i].rules
                == "($left:expr, $right:expr) => { assert_eq!($left, $right) };",
{
    assert(script_macro_table()[2].name == "eq");
}


/// The methods of the injected `ScriptStrExt` trait and what each does:
/// `first`, `head`, `start`, `begin` give the first character; `last`,
/// `tail`, `end` the last; `reverse` reverses; `size` and `length` give the
/// byte length; `upper`, `to_upper`, `toUpper`, `uppercase` convert to
/// uppercase and `lower`, `to_lower`, `toLower`, `lowercase` to lowercase;
/// `includes`, `has`, `holds` test containment; `search`, `locate` find;
/// `substitute`, `swap` replace.
pub proof fn lemma_str_method_table()
    ensures
        str_ext_method_table().len() == 25,
        str_ext_method_table()[0].name == "first",
        str_ext_method_table()[0].op == StrOp::First,
        str_ext_method_table()[1].name == "head",
        str_ext_method_table()[1].op == StrOp::First,
        str_ext_method_table()[2].name == "start",
        str_ext_method_table()[2].op == StrOp::First,
        str_ext_method_table()[3].name == "begin",
        str_ext_method_table()[3].op == StrOp::First,
        str_ext_method_table()[4].name == "last",
        str_ext_method_table()[4].op == StrOp::Last,
        str_ext_method_table()[5].name == "tail",
        str_ext_method_table()[5].op == StrOp::Last,
        str_ext_method_table()[6].name == "end",
        str_ext_method_table()[6].op == StrOp::Last,
        str_ext_method_table()[7].name == "reverse",
        str_ext_method_table()[7].op == StrOp::Reverse,
        str_ext_method_table()[8].name == "size",
        str_ext_method_table()[8].op == StrOp::Size,
        str_ext_method_table()[9].name == "length",
        str_ext_method_table()[9].op == StrOp::Size,
        str_ext_method_table()[10].name == "upper",
        str_ext_method_table()[10].op == StrOp::Upper,
        str_ext_method_table()[11].name == "to_upper",
        str_ext_method_table()[11].op == StrOp::Upper,
        str_ext_method_table()[12].name == "toUpper",
        str_ext_method_table()[12].op == StrOp::Upper,
        str_ext_method_table()[13].name == "uppercase",
        str_ext_method_table()[13].op == StrOp::Upper,
        str_ext_method_table()[14].name == "lower",
        str_ext_method_table()[14].op == StrOp::Lower,
        str_ext_method_table()[15].name == "to_lower",
        str_ext_method_table()[15].op == StrOp::Lower,
        str_ext_method_table()[16].name == "toLower",
        str_ext_method_table()[16].op == StrOp::Lower,
        str_ext_method_table()[17].name == "lowercase",
        str_ext_method_table()[17].op == StrOp::Lower,
        str_ext_method_table()[18].name == "includes",
        str_ext_method_table()[18].op == StrOp::Contains,
        str_ext_method_table()[19].name == "has",
        str_ext_method_table()[19].op == StrOp::Contains,
        str_ext_method_table()[20].name == "holds",
        str_ext_method_table()[20].op == StrOp::Contains,
        str_ext_method_table()[21].name == "search",
        str_ext_method_table()[21].op == StrOp::Find,
        str_ext_method_table()[22].name == "locate",
        str_ext_method_table()[22].op == StrOp::Find,
        str_ext_method_table()[23].name == "substitute",
        str_ext_method_table()[23].op == StrOp::Replace,
        str_ext_method_table()[24].name == "swap",
        str_ext_method_table()[24].op == StrOp::Replace,
{
}

/// The injected `Truthy` impls: a `bool` is itself; every integer type is
/// truthy when non-zero, `f32` and `f64` when non-zero; `&str`, `String` and
/// `Vec<T>` when not empty; `Option<T>` when it holds a value.
pub proof fn lemma_truthy_impl_table()
    ensures
        truthy_impl_table().len() == 19,
        truthy_impl_table()[0].ty == "bool",
        truthy_impl_table()[0].generic == false,
        truthy_impl_table()[0].test == TruthTest::Itself,
        truthy_impl_table()[1].ty == "i8",
        truthy_impl_table()[1].generic == false,
        truthy_impl_table()[1].test == TruthTest::NonZero,
        truthy_impl_table()[2].ty == "i16",
        truthy_impl_table()[2].generic == false,
        truthy_impl_table()[2].test == TruthTest::NonZero,
        truthy_impl_table()[3].ty == "i32",
        truthy_impl_table()[3].generic == false,
        truthy_impl_table()[3].test == TruthTest::NonZero,
        truthy_impl_table()[4].ty == "i64",
        truthy_impl_table()[4].generic == false,
        truthy_impl_table()[4].test == TruthTest::NonZero,
        truthy_impl_table()[5].ty == "i128",
        truthy_impl_table()[5].generic == false,
        truthy_impl_table()[5].test == TruthTest::NonZero,
        truthy_impl_table()[6].ty == "isize",
        truthy_impl_table()[6].generic == false,
        truthy_impl_table()[6].test == TruthTest::NonZero,
        truthy_impl_table()[7].ty == "u8",
        truthy_impl_table()[7].generic == false,
        truthy_impl_table()[7].test == TruthTest::NonZero,
        truthy_impl_table()[8].ty == "u16",
        truthy_impl_table()[8].generic == false,
        truthy_impl_table()[8].test == TruthTest::NonZero,
        truthy_impl_table()[9].ty == "u32",
        truthy_impl_table()[9].generic == false,
        truthy_impl_table()[9].test == TruthTest::NonZero,
        truthy_impl_table()[10].ty == "u64",
        truthy_impl_table()[10].generic == false,
        truthy_impl_table()[10].test == TruthTest::NonZero,
        truthy_impl_table()[11].ty == "u128",
        truthy_impl_table()[11].generic == false,
        truthy_impl_table()[11].test == TruthTest::NonZero,
        truthy_impl_table()[12].ty == "usize",
        truthy_impl_table()[12].generic == false,
        truthy_impl_table()[12].test == TruthTest::NonZero,
        truthy_impl_table()[13].ty == "f32",
        truthy_impl_table()[13].generic == false,
        truthy_impl_table()[13].test == TruthTest::NonZeroFloat,
        truthy_impl_table()[14].ty == "f64",
        truthy_impl_table()[14].generic == false,
        truthy_impl_table()[14].test == TruthTest::NonZeroFloat,
        truthy_impl_table()[15].ty == "&str",
        truthy_impl_table()[15].generic == false,
        truthy_impl_table()[15].test == TruthTest::NotEmpty,
        truthy_impl_table()[16].ty == "String",
        truthy_impl_table()[16].generic == false,
        truthy_impl_table()[16].test == TruthTest::NotEmpty,
        truthy_impl_table()[17].ty == "Vec",
        truthy_impl_table()[17].generic == true,
        truthy_impl_table()[17].test == TruthTest::NotEmpty,
        truthy_impl_table()[18].ty == "Option",
        truthy_impl_table()[18].generic == true,
        truthy_impl_table()[18].test == TruthTest::IsSome,
{
}

/// The methods of the injected `ScriptSliceExt` trait: `mapped`, `apply`,
/// `transform`, `convert` map each element; `filtered`, `select`, `chose`,
/// `that`, `which` filter; `first_cloned` and `shift` clone the first
/// element; `pairs` pairs each position with its element.
pub proof fn lemma_slice_method_table()
    ensures
        slice_ext_method_table().len() == 12,
        slice_ext_method_table()[0].name == "mapped",
        slice_ext_method_table()[0].op == ListOp::MapEach,
        slice_ext_method_table()[1].name == "apply",
        slice_ext_method_table()[1].op == ListOp::MapEach,
        slice_ext_method_table()[2].name == "transform",
        slice_ext_method_table()[2].op == ListOp::MapEach,
        slice_ext_method_table()[3].name == "convert",
        slice_ext_method_table()[3].op == ListOp::MapEach,
        slice_ext_method_table()[4].name == "filtered",
        slice_ext_method_table()[4].op == ListOp::Filter,
        slice_ext_method_table()[5].name == "select",
        slice_ext_method_table()[5].op == ListOp::Filter,
        slice_ext_method_table()[6].name == "chose",
        slice_ext_method_table()[6].op == ListOp::Filter,
        slice_ext_method_table()[7].name == "that",
        slice_ext_method_table()[7].op == ListOp::Filter,
        slice_ext_method_table()[8].name == "which",
        slice_ext_method_table()[8].op == ListOp::Filter,
        slice_ext_method_table()[9].name == "first_cloned",
        slice_ext_method_table()[9].op == ListOp::FirstCloned,
        slice_ext_method_table()[10].name == "shift",
        slice_ext_method_table()[10].op == ListOp::FirstCloned,
        slice_ext_method_table()[11].name == "pairs",
        slice_ext_method_table()[11].op == ListOp::Pairs,
{
}

/// The filter-only `ScriptSliceExt` trait has the one method `filter`.
pub proof fn lemma_slice_filter_method_table()
    ensures
        slice_filter_method_table().len() == 1,
        slice_filter_method_table()[0].name == "filter",
        slice_filter_method_table()[0].op == ListOp::Filter,
{
}

/// The methods of the injected `ScriptVecExt` trait: `shift` removes the
/// first element, `sortDesc` sorts from greatest to least.
pub proof fn lemma_vec_method_table()
    ensures
        vec_ext_method_table().len() == 2,
        vec_ext_method_table()[0].name == "shift",
        vec_ext_method_table()[0].op == ListOp::Shift,
        vec_ext_method_table()[1].name == "sortDesc",
        vec_ext_method_table()[1].op == ListOp::SortDesc,
{
}

/// The variants of the injected `Val` enum: `Str(String)`, `Int(i64)`,
/// `Float(f64)`, `Bool(bool)` displayed with `{}`, `List(Vec<Val>)` with
/// `{:?}`, and `Nil` displayed as `nil`; a `Str` is truthy when not empty,
/// an `Int` or `Float` when non-zero, a `Bool` when true, a `List` when not
/// empty, `Nil` never; only a `Str` can equal a `char`.
pub proof fn lemma_val_variant_table()
    ensures
        val_variant_table().len() == 6,
        val_variant_table()[0].name == "Str",
        val_variant_table()[0].payload == "String",
        val_variant_table()[0].format == ValFormat::Plain,
        val_variant_table()[0].truth == TruthTest::NotEmpty,
        val_variant_table()[0].eq_char == true,
        val_variant_table()[1].name == "Int",
        val_variant_table()[1].payload == "i64",
        val_variant_table()[1].format == ValFormat::Plain,
        val_variant_table()[1].truth == TruthTest::NonZero,
        val_variant_table()[1].eq_char == false,
        val_variant_table()[2].name == "Float",
        val_variant_table()[2].payload == "f64",
        val_variant_table()[2].format == ValFormat::Plain,
        val_variant_table()[2].truth == TruthTest::NonZeroFloat,
        val_variant_table()[2].eq_char == false,
        val_variant_table()[3].name == "Bool",
        val_variant_table()[3].payload == "bool",
        val_variant_table()[3].format == ValFormat::Plain,
        val_variant_table()[3].truth == TruthTest::Itself,
        val_variant_table()[3].eq_char == false,
        val_variant_table()[4].name == "List",
        val_variant_table()[4].payload == "Vec<Val>",
        val_variant_table()[4].format == ValFormat::Debug,
        val_variant_table()[4].truth == TruthTest::NotEmpty,
        val_variant_table()[4].eq_char == false,
        val_variant_table()[5].name == "Nil",
        val_variant_table()[5].payload == "",
        val_variant_table()[5].format == ValFormat::Nil,
        val_variant_table()[5].truth == TruthTest::Never,
        val_variant_table()[5].eq_char == false,
{
}

/// The `From` impls of `Val`: `&str` into `Str` with `.into()`, `String`
/// into `Str` as it is, `i64` into `Int`, `i32` widened to `i64`, `f64` into
/// `Float`, `f32` widened to `f64`, `bool` into `Bool`, and `char` into `Str`
/// as its text.
pub proof fn lemma_val_from_table()
    ensures
        val_from_table().len() == 8,
        val_from_table()[0].source == "&str",
        val_from_table()[0].variant == "Str",
        val_from_table()[0].target == "String",
        val_from_table()[0].conversion == ValConversion::Into,
        val_from_table()[1].source == "String",
        val_from_table()[1].variant == "Str",
        val_from_table()[1].target == "String",
        val_from_table()[1].conversion == ValConversion::Same,
        val_from_table()[2].source == "i64",
        val_from_table()[2].variant == "Int",
        val_from_table()[2].target == "i64",
        val_from_table()[2].conversion == ValConversion::Same,
        val_from_table()[3].source == "i32",
        val_from_table()[3].variant == "Int",
        val_from_table()[3].target == "i64",
        val_from_table()[3].conversion == ValConversion::Widen,
        val_from_table()[4].source == "f64",
        val_from_table()[4].variant == "Float",
        val_from_table()[4].target == "f64",
        val_from_table()[4].conversion == ValConversion::Same,
        val_from_table()[5].source == "f32",
        val_from_table()[5].variant == "Float",
        val_from_table()[5].target == "f64",
        val_from_table()[5].conversion == ValConversion::Widen,
        val_from_table()[6].source == "bool",
        val_from_table()[6].variant == "Bool",
        val_from_table()[6].target == "bool",
        val_from_table()[6].conversion == ValConversion::Same,
        val_from_table()[7].source == "char",
        val_from_table()[7].variant == "Str",
        val_from_table()[7].target == "String",
        val_from_table()[7].conversion == ValConversion::ToText,
{
}

/// The injected math constants: `tau` and `τ` are `TAU`, `pi` and `π` are `PI`.
pub proof fn lemma_math_const_table()
    ensures
        math_const_table().len() == 4,
        math_const_table()[0].name == "tau",
        math_const_table()[0].std_name == "TAU",
        math_const_table()[1].name == "pi",
        math_const_table()[1].std_name == "PI",
        math_const_table()[2].name == "τ",
        math_const_table()[2].std_name == "TAU",
        math_const_table()[3].name == "π",
        math_const_table()[3].std_name == "PI",
{
}

/// The names that resolve in the script's scope inside the helper macros:
/// the standard macros `println`, `print`, `format`, `assert`, `assert_eq`;
/// the path `std::any::type_name_of_val`; the injected `slice_eq`, `exit` and
/// `is_truthy`; and `String` and `into`.
pub proof fn lemma_call_site_names()
    ensures
        call_site_names().len() == 13,
        call_site_names()[0] == "println"@,
        call_site_names()[1] == "print"@,
        call_site_names()[2] == "format"@,
        call_site_names()[3] == "assert"@,
        call_site_names()[4] == "assert_eq"@,
        call_site_names()[5] == "slice_eq"@,
        call_site_names()[6] == "std"@,
        call_site_names()[7] == "any"@,
        call_site_names()[8] == "type_name_of_val"@,
        call_site_names()[9] == "exit"@,
        call_site_names()[10] == "is_truthy"@,
        call_site_names()[11] == "String"@,
        call_site_names()[12] == "into"@,
{
}

} // verus!
