use lib::lists::{len, slice_eq, ArrayExtensions, ListExtensions, SliceSizeExt, VecMutExtensions};
use lib::numbers::ScriptRng;

#[test]
fn head_and_tail_of_vec_and_slice() {
    let v = vec![3, 1, 2];
    assert_eq!(v.head(), Some(3));
    assert_eq!(v.start(), Some(3));
    assert_eq!(v.begin(), Some(3));
    assert_eq!(v.tail(), Some(2));
    assert_eq!(v.end(), Some(2));
    let s: &[i32] = &v[1..];
    assert_eq!(s.head(), Some(1));
    assert_eq!(s.tail(), Some(2));
}

#[test]
fn head_and_tail_of_empty() {
    let v: Vec<i32> = Vec::new();
    assert_eq!(v.head(), None);
    assert_eq!(v.tail(), None);
    assert_eq!(v.first_cloned(), None);
}

#[test]
fn mapped_and_synonyms() {
    let v = vec![1, 2, 3];
    assert_eq!(v.mapped(|x| x * 10), vec![10, 20, 30]);
    assert_eq!(v.apply(|x| x + 1), vec![2, 3, 4]);
    assert_eq!(v.transform(|x| x.to_string()), vec!["1".to_string(), "2".to_string(), "3".to_string()]);
    assert_eq!(v.convert(|x| x % 2 == 0), vec![false, true, false]);
    let empty: Vec<i32> = Vec::new();
    assert_eq!(empty.mapped(|x| x * 2), Vec::<i32>::new());
}

#[test]
fn filtered_and_synonyms() {
    let v = vec![1, 2, 3, 4, 5, 6];
    assert_eq!(v.filtered(|x| x % 2 == 0), vec![2, 4, 6]);
    assert_eq!(v.select(|x| *x > 4), vec![5, 6]);
    assert_eq!(v.chose(|x| *x < 2), vec![1]);
    assert_eq!(v.that(|_| false), Vec::<i32>::new());
    assert_eq!(v.which(|_| true), v);
}

#[test]
fn filtered_and_except_split_the_collection() {
    let v = vec![5, 8, 1, 9, 2, 7];
    let big = v.filtered(|x| *x > 4);
    let small = v.except(|x| *x > 4);
    assert_eq!(big, vec![5, 8, 9, 7]);
    assert_eq!(small, vec![1, 2]);
    assert_eq!(big.len() + small.len(), v.len());
}

#[test]
fn without_removes_every_equal_element() {
    let v = vec![1, 2, 1, 3, 1];
    assert_eq!(v.without(&1), vec![2, 3]);
    assert_eq!(v.without(&4), v);
    let words = vec!["a".to_string(), "b".to_string(), "a".to_string()];
    assert_eq!(words.without(&"a".to_string()), vec!["b".to_string()]);
}

#[test]
fn pairs_enumerates_positions() {
    let v = vec!['x', 'y', 'z'];
    assert_eq!(v.pairs(), vec![(0, 'x'), (1, 'y'), (2, 'z')]);
}

#[test]
fn slice_and_copy() {
    let v = vec![10, 20, 30, 40];
    assert_eq!(v.slice(1, 3), vec![20, 30]);
    assert_eq!(v.slice(2, 2), Vec::<i32>::new());
    assert_eq!(v.slice(0, 4), v);
    assert_eq!(v.copy(), v);
}

#[test]
fn append_prepend_insert_leave_the_original() {
    let v = vec![1, 2, 3];
    assert_eq!(v.append(4), vec![1, 2, 3, 4]);
    assert_eq!(v.prepend(0), vec![0, 1, 2, 3]);
    assert_eq!(v.insert(1, 9), vec![1, 9, 2, 3]);
    assert_eq!(v.insert(0, 9), vec![9, 1, 2, 3]);
    assert_eq!(v.insert(3, 9), vec![1, 2, 3, 9]);
    assert_eq!(v, vec![1, 2, 3]);
}

#[test]
fn reversed_twice_is_the_original() {
    let v = vec![1, 2, 3, 4];
    assert_eq!(v.reversed(), vec![4, 3, 2, 1]);
    assert_eq!(v.reversed().reversed(), v);
}

#[test]
fn index_of_finds_the_first_equal_element() {
    let v = vec![5, 7, 5, 9];
    assert_eq!(v.index_of(&5), 0);
    assert_eq!(v.indexOf(&9), 3);
    assert_eq!(v.index_of(&4), -1);
    let empty: Vec<i32> = Vec::new();
    assert_eq!(empty.index_of(&1), -1);
}

#[test]
fn sorted_and_sort_desc() {
    let v = vec![3, 1, 4, 1, 5, 9, 2, 6];
    assert_eq!(v.sorted(), vec![1, 1, 2, 3, 4, 5, 6, 9]);
    assert_eq!(v.sortDesc(), vec![9, 6, 5, 4, 3, 2, 1, 1]);
    assert_eq!(v.sort_desc(), vec![9, 6, 5, 4, 3, 2, 1, 1]);
    let words = vec!["pear".to_string(), "apple".to_string(), "fig".to_string()];
    assert_eq!(words.sorted(), vec!["apple".to_string(), "fig".to_string(), "pear".to_string()]);
}

#[test]
fn sorted_orders_tuples_and_keeps_the_original() {
    let v = vec![(2, 'a'), (1, 'b'), (2, 'c'), (1, 'd')];
    assert_eq!(v.sorted(), vec![(1, 'b'), (1, 'd'), (2, 'a'), (2, 'c')]);
    assert_eq!(v, vec![(2, 'a'), (1, 'b'), (2, 'c'), (1, 'd')]);
    let empty: Vec<i32> = Vec::new();
    assert_eq!(empty.sorted(), Vec::<i32>::new());
}

#[test]
fn random_of_empty_is_none() {
    let mut rng = ScriptRng::new();
    let empty: Vec<i32> = Vec::new();
    assert_eq!(empty.random(&mut rng), None);
    assert_eq!(rng.next_output(), 2379946563);
}

#[test]
fn random_reads_the_next_output_modulo_the_length() {
    let mut rng = ScriptRng::new();
    let v = vec![1, 2, 3];
    assert_eq!(v.random(&mut rng), Some(1));
    assert_eq!(v.random(&mut rng), Some(3));
    assert_eq!(rng.next_output(), 1916748052);
}

#[test]
fn random_of_non_empty_is_an_element() {
    let mut rng = ScriptRng::new();
    let v = vec![4, 5, 6, 7, 8];
    for _ in 0..100 {
        let r = v.random(&mut rng);
        assert!(v.contains(&r.unwrap()));
    }
}

#[test]
fn shuffle_is_fisher_yates_from_the_generator() {
    let mut rng = ScriptRng::new();
    assert_eq!(vec![1, 2, 3].shuffle(&mut rng), vec![3, 2, 1]);
    let mut rng = ScriptRng::new();
    assert_eq!(vec![10, 20, 30, 40, 50].shuffle(&mut rng), vec![30, 10, 20, 50, 40]);
    let _ = rng.next_output();
}

#[test]
fn shuffle_is_a_permutation() {
    let mut rng = ScriptRng::new();
    let v = vec![7, 7, 7];
    assert_eq!(v.shuffle(&mut rng), vec![7, 7, 7]);
    let w = vec![5, 1, 4, 2, 3, 9, 8];
    let mut s = w.shuffle(&mut rng);
    s.sort();
    assert_eq!(s, vec![1, 2, 3, 4, 5, 8, 9]);
    assert_eq!(vec![5].shuffle(&mut rng), vec![5]);
    assert_eq!(Vec::<i32>::new().shuffle(&mut rng), Vec::<i32>::new());
}

#[test]
fn len_size_length_agree() {
    let v = vec![1, 2, 3];
    assert_eq!(len(&v), 3);
    assert_eq!(v.size(), 3);
    assert_eq!(v.length(), 3);
    assert_eq!(v.as_slice().size(), 3);
    assert_eq!(len::<i32>(&[]), 0);
}

#[test]
fn slice_eq_compares_elements() {
    assert!(slice_eq(&[1, 2, 3], &[1, 2, 3]));
    assert!(!slice_eq(&[1, 2, 3], &[1, 2, 4]));
    assert!(!slice_eq(&[1, 2], &[1, 2, 3]));
    assert!(slice_eq::<i32>(&[], &[]));
}

#[test]
fn shift_and_pops() {
    let mut v = vec![1, 2, 3];
    assert_eq!(v.shift(), Some(1));
    assert_eq!(v, vec![2, 3]);
    assert_eq!(v.pop_first(), Some(2));
    assert_eq!(v.pop_last(), Some(3));
    assert_eq!(v.shift(), None);
    assert_eq!(v.pop_last(), None);
    assert_eq!(v.pop_first(), None);
}

#[test]
fn delete_at_and_out_of_range() {
    let mut v = vec![1, 2, 3];
    assert_eq!(v.delete_at(1), Some(2));
    assert_eq!(v, vec![1, 3]);
    assert_eq!(v.delete_at(5), None);
    assert_eq!(v, vec![1, 3]);
}

#[test]
fn delete_range_cuts_end_to_length() {
    let mut v = vec![0, 1, 2, 3, 4, 5];
    assert_eq!(v.delete_range(1, 3), vec![1, 2]);
    assert_eq!(v, vec![0, 3, 4, 5]);
    assert_eq!(v.delete_range(2, 100), vec![4, 5]);
    assert_eq!(v, vec![0, 3]);
    assert_eq!(v.delete_range(5, 7), Vec::<i32>::new());
    assert_eq!(v.delete_range(1, 1), Vec::<i32>::new());
    assert_eq!(v.delete_range(1, 0), Vec::<i32>::new());
    assert_eq!(v, vec![0, 3]);
}

#[test]
fn delete_range_reassembles() {
    let orig = vec![9, 8, 7, 6, 5];
    let mut v = orig.clone();
    let removed = v.delete_range(1, 4);
    let mut back = vec![v[0]];
    back.extend(removed);
    back.extend(&v[1..]);
    assert_eq!(back, orig);
}

#[test]
fn replace_at_and_swap_remove_at() {
    let mut v = vec![1, 2, 3, 4];
    assert_eq!(v.replace_at(1, 20), Some(2));
    assert_eq!(v, vec![1, 20, 3, 4]);
    assert_eq!(v.replace_at(9, 0), None);
    assert_eq!(v.swap_remove_at(0), Some(1));
    assert_eq!(v, vec![4, 20, 3]);
    assert_eq!(v.swap_remove_at(3), None);
    assert_eq!(v, vec![4, 20, 3]);
}

#[test]
fn sort_desc_is_sorted_reversed() {
    let v = vec![4, 8, 1, 8, 0];
    let mut up = v.sorted();
    up.reverse();
    assert_eq!(v.sortDesc(), up);
}

#[test]
fn equality_helpers_on_text_elements() {
    let words: Vec<String> = vec!["a".to_string(), "b".to_string(), "a".to_string(), "c".to_string()];
    assert_eq!(words.without(&"a".to_string()), vec!["b".to_string(), "c".to_string()]);
    assert_eq!(words.indexOf(&"a".to_string()), 0);
    assert_eq!(words.index_of(&"c".to_string()), 3);
    assert_eq!(words.indexOf(&"z".to_string()), -1);
    let same: Vec<String> = words.clone();
    assert!(slice_eq(&words, &same));
    assert!(!slice_eq(&words[..3], &same[1..]));
    assert!(!slice_eq(&words[..2], &same));
}
