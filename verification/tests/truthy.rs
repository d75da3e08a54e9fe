use lib::truthy::Truthy;

#[test]
fn booleans_are_themselves() {
    assert!(true.is_truthy());
    assert!(!false.is_truthy());
}

#[test]
fn numbers_are_truthy_when_not_zero() {
    assert!(!0i8.is_truthy());
    assert!((-1i8).is_truthy());
    assert!(!0i16.is_truthy());
    assert!(7i16.is_truthy());
    assert!(!0i32.is_truthy());
    assert!((-42i32).is_truthy());
    assert!(!0i64.is_truthy());
    assert!(i64::MIN.is_truthy());
    assert!(!0i128.is_truthy());
    assert!(1i128.is_truthy());
    assert!(!0isize.is_truthy());
    assert!(3isize.is_truthy());
    assert!(!0u8.is_truthy());
    assert!(255u8.is_truthy());
    assert!(!0u16.is_truthy());
    assert!(1u16.is_truthy());
    assert!(!0u32.is_truthy());
    assert!(9u32.is_truthy());
    assert!(!0u64.is_truthy());
    assert!(u64::MAX.is_truthy());
    assert!(!0u128.is_truthy());
    assert!(2u128.is_truthy());
    assert!(!0usize.is_truthy());
    assert!(5usize.is_truthy());
}

#[test]
fn text_is_truthy_when_not_empty() {
    assert!(!"".is_truthy());
    assert!("a".is_truthy());
    assert!(" ".is_truthy());
    assert!(!String::new().is_truthy());
    assert!(String::from("no").is_truthy());
}

#[test]
fn lists_are_truthy_when_not_empty() {
    assert!(!Vec::<i32>::new().is_truthy());
    assert!(vec![0].is_truthy());
    assert!(vec![false, false].is_truthy());
}

#[test]
fn options_are_truthy_when_some() {
    assert!(!None::<i32>.is_truthy());
    assert!(Some(0).is_truthy());
    assert!(Some(false).is_truthy());
}
