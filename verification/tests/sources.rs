use lib::sources::{
    approx_eq_function_source, debug_string_helper_source, math_constants_source, slice_eq_function_source, slice_filter_helpers_source, slice_helpers_source,
    string_helpers_source, truthy_helpers_source, val_helpers_source, vec_helpers_source,
};

#[test]
fn filter_only_trait_source() {
    assert_eq!(
        slice_filter_helpers_source(),
        "#[allow(dead_code)] trait ScriptSliceExt<T: Clone> { \
         fn filter<F: Fn(&T) -> bool>(&self, f: F) -> Vec<T>;\n }\n\
         impl<T: Clone> ScriptSliceExt<T> for [T] { \
         fn filter<F: Fn(&T) -> bool>(&self, f: F) -> Vec<T> { self.iter().filter(|x| f(x)).cloned().collect() }\n }\n"
    );
}

#[test]
fn vec_trait_source() {
    assert_eq!(
        vec_helpers_source(),
        "#[allow(dead_code)] trait ScriptVecExt<T> { \
         fn shift(&mut self) -> Option<T>;\n\
         fn sortDesc(&self) -> Vec<T> where T: Ord + Clone;\n }\n\
         impl<T: Clone + Ord> ScriptVecExt<T> for Vec<T> { \
         fn shift(&mut self) -> Option<T> { if self.is_empty() { None } else { Some(self.remove(0)) } }\n\
         fn sortDesc(&self) -> Vec<T> where T: Ord + Clone { let mut v = self.clone(); v.sort_by(|a, b| b.cmp(a)); v }\n }\n"
    );
}

#[test]
fn slice_trait_source() {
    let src = slice_helpers_source();
    assert!(src.starts_with("#[allow(dead_code)] trait ScriptSliceExt<T: Clone> { fn mapped<U, F: Fn(T) -> U>(&self, f: F) -> Vec<U>;\n"));
    assert!(src.contains("fn which<F: Fn(&T) -> bool>(&self, f: F) -> Vec<T> { self.as_ref().iter().filter(|x| f(x)).cloned().collect() }\n"));
    assert!(src.contains("fn shift(&self) -> Option<T> { self.as_ref().first().cloned() }\n"));
    assert!(src.contains("impl<T: Clone, S: AsRef<[T]>> ScriptSliceExt<T> for S { "));
    assert!(src.ends_with("(i, v.clone())).collect() }\n }\n"));
    assert_eq!(src.matches("fn ").count(), 12 * 2);
    assert_eq!(
        slice_eq_function_source(),
        "#[allow(dead_code)] fn slice_eq<T: PartialEq, A: AsRef<[T]>, B: AsRef<[T]>>(a: &A, b: &B) -> bool { a.as_ref() == b.as_ref() }\n"
    );
}

#[test]
fn truthy_source() {
    let src = truthy_helpers_source();
    assert!(src.starts_with("#[allow(dead_code)] trait Truthy { fn is_truthy(&self) -> bool; }\nimpl Truthy for bool { fn is_truthy(&self) -> bool { *self } }\n"));
    assert!(src.contains("impl Truthy for i32 { fn is_truthy(&self) -> bool { *self != 0 } }\n"));
    assert!(src.contains("impl Truthy for f64 { fn is_truthy(&self) -> bool { *self != 0.0 } }\n"));
    assert!(src.contains("impl Truthy for &str { fn is_truthy(&self) -> bool { !self.is_empty() } }\n"));
    assert!(src.ends_with("impl<T> Truthy for Option<T> { fn is_truthy(&self) -> bool { self.is_some() } }\n"));
    assert_eq!(src.matches("impl").count(), 19);
}

#[test]
fn string_trait_source() {
    let src = string_helpers_source();
    assert!(src.starts_with("#[allow(dead_code)] trait ScriptStrExt { fn first(&self) -> String;\n"));
    assert!(src.contains("fn toUpper(&self) -> String;\n"));
    assert!(src.contains("fn search(&self, pat: &str) -> Option<usize> { self.find(pat) }\n"));
    assert!(src.contains("fn swap(&self, from: &str, to: &str) -> String { self.replace(from, to) }\n"));
    assert!(src.contains(" }\nimpl ScriptStrExt for &str { "));
    assert!(src.ends_with("{ self.replace(from, to) }\n }\n"));
    assert_eq!(
        debug_string_helper_source(),
        "#[allow(dead_code)] fn __debug_string<T: ::std::fmt::Debug>(x: &T) -> String { format!(\"{:?}\", x) }\n"
    );
}

#[test]
fn val_source() {
    let src = val_helpers_source();
    assert!(src.starts_with(
        "#[allow(dead_code)] #[derive(Clone, Debug, PartialEq)] enum Val { Str(String), Int(i64), Float(f64), Bool(bool), List(Vec<Val>), Nil, }\n"
    ));
    assert!(src.contains("Val::List(x) => write!(f, \"{:?}\", x), Val::Nil => write!(f, \"nil\"), } } }\n"));
    assert!(src.contains("impl From<i32> for Val { fn from(x: i32) -> Self { Val::Int(x as i64) } }\n"));
    assert!(src.contains("impl From<char> for Val { fn from(x: char) -> Self { Val::Str(x.to_string()) } }\n"));
    assert!(src.contains("match self { Val::Str(s) => s == &other.to_string(), _ => false } } }\n"));
    assert!(src.ends_with("Val::Float(x) => *x != 0.0, Val::Bool(x) => *x, Val::List(x) => !x.is_empty(), Val::Nil => false, } } }\n"));
}

#[test]
fn numeric_sources() {
    assert_eq!(
        approx_eq_function_source(),
        "#[allow(dead_code)] fn approx_eq(a: f64, b: f64) -> bool { (a - b).abs() < 1e-9_f64.max(a.abs() * 1e-9).max(b.abs() * 1e-9) }\n"
    );
    let src = math_constants_source();
    assert!(src.starts_with("#[allow(dead_code)] const tau: f64 = std::f64::consts::TAU;\n"));
    assert!(src.ends_with("#[allow(dead_code)] const π: f64 = std::f64::consts::PI;\n"));
    assert_eq!(src.matches("const ").count(), 4);
}
