use lib::signature_hash::compute_fn_type_hash;
use std::collections::hash_map::DefaultHasher;
use std::hash::{Hash, Hasher};

fn expected(parts: &[&str]) -> u64 {
    let mut h = DefaultHasher::new();
    for p in parts {
        p.to_string().hash(&mut h);
    }
    h.finish()
}

#[test]
fn hash_matches_hashing_the_renderings_in_order() {
    let inputs = vec!["i32".to_string(), "&str".to_string()];
    let r = compute_fn_type_hash(&inputs, "bool", "Rust");
    assert_eq!(r, expected(&["i32", "&str", "bool", "Rust"]));
}

#[test]
fn hash_depends_on_every_part() {
    let inputs = vec!["i32".to_string()];
    let base = compute_fn_type_hash(&inputs, "()", "Rust");
    assert_eq!(base, compute_fn_type_hash(&inputs, "()", "Rust"));
    assert_ne!(base, compute_fn_type_hash(&inputs, "()", "C"));
    assert_ne!(base, compute_fn_type_hash(&inputs, "i32", "Rust"));
    assert_ne!(base, compute_fn_type_hash(&Vec::new(), "()", "Rust"));
    assert_ne!(base, expected(&[]));
}

#[test]
fn hash_of_no_inputs() {
    let r = compute_fn_type_hash(&Vec::new(), "()", "Rust");
    assert_eq!(r, expected(&["()", "Rust"]));
}
