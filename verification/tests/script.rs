use lib::script::has_shebang;

#[test]
fn shebang_is_detected() {
    assert!(has_shebang("#!/usr/bin/env rustc +script\nfn main() {}"));
    assert!(has_shebang("#!"));
    assert!(has_shebang("#! x"));
}

#[test]
fn inner_attribute_is_no_shebang() {
    assert!(!has_shebang("#![allow(unused)]\nfn main() {}"));
    assert!(!has_shebang("#!["));
}

#[test]
fn other_starts_are_no_shebang() {
    assert!(!has_shebang(""));
    assert!(!has_shebang("#"));
    assert!(!has_shebang("fn main() {}"));
    assert!(!has_shebang(" #!/bin/sh"));
    assert!(!has_shebang("!#"));
}
