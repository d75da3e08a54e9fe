use lib::crates::{is_stdlib_crate, plan_external_crates, rlib_crate_name_of};
use lib::text::chars_of;

fn strings(v: &[&str]) -> Vec<String> {
    v.iter().map(|s| s.to_string()).collect()
}

#[test]
fn crate_name_of_rlib_files() {
    assert_eq!(rlib_crate_name_of(&chars_of("libserde-1a2b3c.rlib")), Some(chars_of("serde")));
    assert_eq!(rlib_crate_name_of(&chars_of("libfoo.rlib")), None);
    assert_eq!(rlib_crate_name_of(&chars_of("lib-x.rlib")), Some(Vec::new()));
    assert_eq!(rlib_crate_name_of(&chars_of("libserde-1a2b3c.so")), None);
    assert_eq!(rlib_crate_name_of(&chars_of("serde-1a2b3c.rlib")), None);
}

#[test]
fn standard_library_crates() {
    assert!(is_stdlib_crate(&chars_of("std")));
    assert!(is_stdlib_crate(&chars_of("hashbrown")));
    assert!(is_stdlib_crate(&chars_of("sysroot")));
    assert!(!is_stdlib_crate(&chars_of("serde")));
    assert!(!is_stdlib_crate(&chars_of("st")));
}

#[test]
fn plan_groups_sorts_and_skips() {
    let files = strings(&[
        "libserde-aaa.rlib",
        "libstd-123.rlib",
        "README",
        "librand-bbb.rlib",
        "libserde-ccc.rlib",
        "libanyhow-ddd.rlib",
        "librand-eee.so",
    ]);
    let plan = plan_external_crates(&files, &Vec::new());
    assert!(plan.add_search_path);
    let names: Vec<&str> = plan.crates.iter().map(|c| c.name.as_str()).collect();
    assert_eq!(names, vec!["anyhow", "rand", "serde"]);
    assert_eq!(plan.crates[0].files, vec![5]);
    assert_eq!(plan.crates[1].files, vec![3]);
    assert_eq!(plan.crates[2].files, vec![0, 4]);
}

#[test]
fn plan_skips_provided_crates_but_keeps_search_path() {
    let files = strings(&["libserde-aaa.rlib", "librand-bbb.rlib"]);
    let plan = plan_external_crates(&files, &strings(&["serde", "rand"]));
    assert!(plan.add_search_path);
    assert!(plan.crates.is_empty());
    let plan = plan_external_crates(&files, &strings(&["serde"]));
    assert_eq!(plan.crates.len(), 1);
    assert_eq!(plan.crates[0].name, "rand");
}

#[test]
fn plan_without_candidates() {
    let files = strings(&["libstd-1.rlib", "libcore-2.rlib", "notes.txt"]);
    let plan = plan_external_crates(&files, &Vec::new());
    assert!(!plan.add_search_path);
    assert!(plan.crates.is_empty());
    let plan = plan_external_crates(&Vec::new(), &Vec::new());
    assert!(!plan.add_search_path);
}
