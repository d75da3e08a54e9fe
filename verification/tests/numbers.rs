use lib::numbers::{rand_index, randint, ScriptRng};

#[test]
fn generator_sequence_from_the_seed() {
    let mut rng = ScriptRng::new();
    assert_eq!(rng.next_output(), 2379946563);
    assert_eq!(rng.next_output(), 1498474691);
    assert_eq!(rng.next_output(), 1916748052);
    assert_eq!(rng.next_output(), 2172511536);
}

#[test]
fn rand_index_is_output_modulo_bound() {
    let mut rng = ScriptRng::new();
    assert_eq!(rand_index(&mut rng, 10), 3);
    assert_eq!(rand_index(&mut rng, 10), 1);
    assert_eq!(rand_index(&mut rng, 1), 0);
}

#[test]
fn randint_stays_in_range() {
    let mut rng = ScriptRng::new();
    assert_eq!(randint(&mut rng, 5, 11), 8);
    assert_eq!(randint(&mut rng, 5, 11), 10);
    for _ in 0..1000 {
        let r = randint(&mut rng, 3, 7);
        assert!(3 <= r && r < 7);
    }
}

#[test]
fn generators_are_independent() {
    let mut a = ScriptRng::new();
    let mut b = ScriptRng::new();
    let _ = a.next_output();
    assert_eq!(b.next_output(), 2379946563);
}
