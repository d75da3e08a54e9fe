//! Which external crates script mode provides by itself.
//!
//! Script mode looks at the file names in the target's library directory of
//! the sysroot. A file `lib<name>-<hash>.rlib` belongs to the crate `<name>`
//! (the part between `lib` and the first `-`). Crates of the standard
//! library are left out, since they are available anyway. The remaining
//! crates are provided in increasing order of name, each with all of its
//! files, except those that the command line already names.
use vstd::prelude::*;
use crate::text::{
    chars_less, chars_of, ends_with, has_prefix, has_suffix, lemma_chars_less_irreflexive,
    lemma_chars_less_total, lemma_chars_less_transitive, less_chars, same_chars, starts_with, string_of,
};

verus! {

/// The crates of the standard library and of its build, which script mode
/// never provides by itself.
pub open spec fn stdlib_crate_names() -> Seq<Seq<char>> {
    seq![
        "std"@, "core"@, "alloc"@, "proc_macro"@, "test"@, "panic_abort"@, "panic_unwind"@,
        "unwind"@, "rustc_std_workspace_core"@, "rustc_std_workspace_alloc"@,
        "rustc_std_workspace_std"@, "std_detect"@, "addr2line"@, "cfg_if"@, "compiler_builtins"@,
        "getopts"@, "gimli"@, "hashbrown"@, "libc"@, "memchr"@, "miniz_oxide"@, "object"@,
        "rustc_demangle"@, "sysroot"@,
    ]
}

/// The names of `stdlib_crate_names`, as text.
fn stdlib_crate_list() -> (v: Vec<&'static str>)
    ensures
        v@.len() == stdlib_crate_names().len(),
        forall|i: int| 0 <= i < v@.len() ==> #[trigger] v@[i]@ == stdlib_crate_names()[i],
{
    let v = vec![
        "std", "core", "alloc", "proc_macro", "test", "panic_abort", "panic_unwind",
        "unwind", "rustc_std_workspace_core", "rustc_std_workspace_alloc",
        "rustc_std_workspace_std", "std_detect", "addr2line", "cfg_if", "compiler_builtins",
        "getopts", "gimli", "hashbrown", "libc", "memchr", "miniz_oxide", "object",
        "rustc_demangle", "sysroot",
    ];
    v
}

/// Whether `name` is one of `stdlib_crate_names`.
pub fn is_stdlib_crate(name: &[char]) -> (r: bool)
    ensures
        r == stdlib_crate_names().contains(name@),
{
    let list = stdlib_crate_list();
    let mut i: usize = 0;
    while i < list.len()
        invariant
            i <= list@.len(),
            list@.len() == stdlib_crate_names().len(),
            forall|k: int| 0 <= k < list@.len() ==> #[trigger] list@[k]@ == stdlib_crate_names()[k],
            forall|k: int| 0 <= k < i ==> stdlib_crate_names()[k] != name@,
        decreases list@.len() - i,
    {
        let known = chars_of(list[i]);
        if same_chars(&known, name) {
            assert(stdlib_crate_names()[i as int] == name@);
            return true;
        }
        i = i + 1;
    }
    false
}

/// The characters of `s` before its first `-`, or all of them when it has none.
pub open spec fn before_dash(s: Seq<char>) -> Seq<char>
    decreases s.len(),
{
    if s.len() == 0 {
        s
    } else if s[0] == '-' {
        Seq::empty()
    } else {
        seq![s[0]] + before_dash(s.drop_first())
    }
}

/// When `j` is the position of the first `-` (or the length), the part
/// before the first dash is the first `j` characters.
proof fn lemma_before_dash(s: Seq<char>, j: int)
    requires
        0 <= j <= s.len(),
        forall|k: int| 0 <= k < j ==> s[k] != '-',
        j == s.len() || s[j] == '-',
    ensures
        before_dash(s) == s.take(j),
    decreases s.len(),
{
    if s.len() > 0 && j > 0 {
        lemma_before_dash(s.drop_first(), j - 1);
        assert(s.take(j) =~= seq![s[0]] + s.drop_first().take(j - 1));
    } else if s.len() == 0 {
        assert(s.take(j) =~= s);
    } else {
        assert(s.take(j) =~= Seq::<char>::empty());
    }
}

/// The characters of `s` before its first `-`.
fn part_before_dash(s: &[char]) -> (r: Vec<char>)
    ensures
        r@ == before_dash(s@),
        r@.len() <= s@.len(),
        r@.len() < s@.len() <==> s@.contains('-'),
{
    let mut r: Vec<char> = Vec::new();
    let mut j: usize = 0;
    while j < s.len()
        invariant
            j <= s@.len(),
            r@ == s@.take(j as int),
            forall|k: int| 0 <= k < j ==> s@[k] != '-',
        ensures
            j <= s@.len(),
            r@ == s@.take(j as int),
            forall|k: int| 0 <= k < j ==> s@[k] != '-',
            j == s@.len() || s@[j as int] == '-',
        decreases s@.len() - j,
    {
        if s[j] == '-' {
            break;
        }
        r.push(s[j]);
        j = j + 1;
        assert(r@ =~= s@.take(j as int));
    }
    proof {
        lemma_before_dash(s@, j as int);
        if j < s@.len() {
            assert(s@[j as int] == '-');
        } else {
            assert(!s@.contains('-'));
        }
    }
    r
}

/// The crate that a file of the library directory belongs to: for a name
/// of the form `lib<crate>-<hash>.rlib`, the characters after `lib` up to
/// the first `-`; `None` for any other name.
pub open spec fn rlib_crate_name(file_name: Seq<char>) -> Option<Seq<char>> {
    if starts_with(file_name, "lib"@) && ends_with(file_name, ".rlib"@) && file_name.skip(3).contains('-') {
        Some(before_dash(file_name.skip(3)))
    } else {
        None
    }
}

/// The crate that the file `file_name` belongs to, if it is an rlib.
pub fn rlib_crate_name_of(file_name: &[char]) -> (r: Option<Vec<char>>)
    ensures
        match r {
            Some(c) => rlib_crate_name(file_name@) == Some(c@),
            None => rlib_crate_name(file_name@) is None,
        },
{
    let lib = chars_of("lib");
    let rlib = chars_of(".rlib");
    if !has_prefix(file_name, &lib) || !has_suffix(file_name, &rlib) {
        return None;
    }
    proof {
        broadcast use vstd::string::group_string_axioms;
        reveal_strlit("lib");
    }
    assert(lib@.len() == 3);
    let mut rest: Vec<char> = Vec::new();
    let mut i: usize = 3;
    while i < file_name.len()
        invariant
            3 <= i <= file_name@.len(),
            rest@ == file_name@.subrange(3, i as int),
        decreases file_name@.len() - i,
    {
        rest.push(file_name[i]);
        i = i + 1;
        assert(rest@ =~= file_name@.subrange(3, i as int));
    }
    assert(rest@ =~= file_name@.skip(3));
    let name = part_before_dash(&rest);
    if name.len() == rest.len() {
        return None;
    }
    assert(file_name@.skip(3).contains('-'));
    Some(name)
}

/// The crate that script mode considers providing for a file: the crate of
/// an rlib, unless it belongs to the standard library.
pub open spec fn candidate_crate(file_name: Seq<char>) -> Option<Seq<char>> {
    match rlib_crate_name(file_name) {
        Some(c) => if stdlib_crate_names().contains(c) {
            None
        } else {
            Some(c)
        },
        None => None,
    }
}

/// Positions of the files that belong to the candidate crate `c`, in
/// increasing order.
pub open spec fn files_of_crate(files: Seq<Seq<char>>, c: Seq<char>) -> Seq<usize>
    decreases files.len(),
{
    if files.len() == 0 {
        Seq::empty()
    } else if candidate_crate(files.last()) == Some(c) {
        files_of_crate(files.drop_last(), c).push((files.len() - 1) as usize)
    } else {
        files_of_crate(files.drop_last(), c)
    }
}

/// The texts of a sequence of strings.
pub open spec fn texts(v: Seq<String>) -> Seq<Seq<char>> {
    v.map_values(|s: String| s@)
}

/// A crate to provide, with the positions of its files.
pub struct ExternCrate {
    pub name: String,
    pub files: Vec<usize>,
}

/// What script mode does with the files of the library directory: whether
/// it adds the directory to the search paths (when any file belongs to a
/// candidate crate), and which crates it provides, in increasing order of name.
pub struct ExternPlan {
    pub add_search_path: bool,
    pub crates: Vec<ExternCrate>,
}

/// No file belongs to `c`: then `c` has no files.
proof fn lemma_files_of_crate_none(files: Seq<Seq<char>>, c: Seq<char>)
    requires
        forall|f: int| 0 <= f < files.len() ==> candidate_crate(#[trigger] files[f]) != Some(c),
    ensures
        files_of_crate(files, c) == Seq::<usize>::empty(),
    decreases files.len(),
{
    if files.len() > 0 {
        lemma_files_of_crate_none(files.drop_last(), c);
    }
}

/// A crate with files has a file that belongs to it.
proof fn lemma_files_of_crate_some(files: Seq<Seq<char>>, c: Seq<char>)
    requires
        files_of_crate(files, c).len() > 0,
    ensures
        exists|f: int| 0 <= f < files.len() && candidate_crate(#[trigger] files[f]) == Some(c),
{
    if forall|f: int| 0 <= f < files.len() ==> candidate_crate(#[trigger] files[f]) != Some(c) {
        lemma_files_of_crate_none(files, c);
    }
}

/// The candidate crate of `name`, if any.
fn candidate_of(name: &str) -> (r: Option<Vec<char>>)
    ensures
        match r {
            Some(c) => candidate_crate(name@) == Some(c@),
            None => candidate_crate(name@) is None,
        },
{
    let chars = chars_of(name);
    match rlib_crate_name_of(&chars) {
        Some(c) => if is_stdlib_crate(&c) {
            None
        } else {
            Some(c)
        },
        None => None,
    }
}

/// Whether one of `names` has the text `c`.
fn is_named(names: &Vec<String>, c: &[char]) -> (r: bool)
    ensures
        r == texts(names@).contains(c@),
{
    let mut i: usize = 0;
    while i < names.len()
        invariant
            i <= names@.len(),
            forall|k: int| 0 <= k < i ==> names@[k]@ != c@,
        decreases names@.len() - i,
    {
        let n = chars_of(names[i].as_str());
        if same_chars(&n, c) {
            assert(texts(names@)[i as int] == c@);
            return true;
        }
        i = i + 1;
    }
    assert(forall|k: int| 0 <= k < names@.len() ==> texts(names@)[k] != c@);
    false
}

/// Names in strictly increasing order.
pub open spec fn strictly_increasing(names: Seq<Seq<char>>) -> bool {
    forall|a: int, b: int| 0 <= a < b < names.len() ==> chars_less(#[trigger] names[a], #[trigger] names[b])
}

/// The texts of a sequence of character vectors.
pub open spec fn char_texts(v: Seq<Vec<char>>) -> Seq<Seq<char>> {
    v.map_values(|c: Vec<char>| c@)
}

/// The candidate crates of `files` in increasing order of name, each with
/// the positions of its files, and whether any file has a candidate crate.
fn group_by_crate(files: &Vec<String>) -> (r: (Vec<Vec<char>>, Vec<Vec<usize>>, bool))
    ensures
        r.0@.len() == r.1@.len(),
        strictly_increasing(char_texts(r.0@)),
        forall|k: int|
            0 <= k < r.0@.len() ==> (#[trigger] r.1@[k])@ == files_of_crate(texts(files@), r.0@[k]@)
                && r.1@[k]@.len() > 0,
        forall|f: int|
            0 <= f < files@.len() && (#[trigger] candidate_crate(files@[f]@)) is Some ==> exists|k: int|
                0 <= k < r.0@.len() && (#[trigger] r.0@[k])@ == candidate_crate(files@[f]@)->0,
        r.2 == exists|f: int| 0 <= f < files@.len() && (#[trigger] candidate_crate(files@[f]@)) is Some,
{
    let ghost fs = texts(files@);
    let mut names: Vec<Vec<char>> = Vec::new();
    let mut groups: Vec<Vec<usize>> = Vec::new();
    let mut any = false;
    let mut i: usize = 0;
    while i < files.len()
        invariant
            i <= files@.len(),
            fs == texts(files@),
            names@.len() == groups@.len(),
            forall|a: int, b: int|
                0 <= a < b < names@.len() ==> chars_less(#[trigger] names@[a]@, #[trigger] names@[b]@),
            forall|k: int|
                0 <= k < names@.len() ==> (#[trigger] groups@[k])@ == files_of_crate(
                    fs.take(i as int),
                    names@[k]@,
                ) && groups@[k]@.len() > 0,
            forall|f: int|
                0 <= f < i && (#[trigger] candidate_crate(fs[f])) is Some ==> exists|k: int|
                    0 <= k < names@.len() && (#[trigger] names@[k])@ == candidate_crate(fs[f])->0,
            any == exists|f: int| 0 <= f < i && (#[trigger] candidate_crate(fs[f])) is Some,
        decreases files@.len() - i,
    {
        let ghost prev = fs.take(i as int);
        let ghost next = fs.take(i + 1);
        assert(next.drop_last() =~= prev);
        assert(next.last() == fs[i as int]);
        assert(fs[i as int] == files@[i as int]@);
        match candidate_of(files[i].as_str()) {
            None => {
                assert forall|k: int| 0 <= k < names@.len() implies (#[trigger] groups@[k])@
                    == files_of_crate(next, names@[k]@) by {}
                assert forall|f: int|
                    0 <= f < i + 1 && (#[trigger] candidate_crate(fs[f])) is Some implies exists|k: int|
                    0 <= k < names@.len() && (#[trigger] names@[k])@ == candidate_crate(fs[f])->0 by {}
            },
            Some(c) => {
                any = true;
                let mut j: usize = 0;
                while j < names.len()
                    invariant
                        j <= names@.len(),
                        forall|k: int| 0 <= k < j ==> chars_less(#[trigger] names@[k]@, c@),
                    ensures
                        j <= names@.len(),
                        forall|k: int| 0 <= k < j ==> chars_less(#[trigger] names@[k]@, c@),
                        j < names@.len() ==> !chars_less(names@[j as int]@, c@),
                    decreases names@.len() - j,
                {
                    if !less_chars(&names[j], &c) {
                        break;
                    }
                    j = j + 1;
                }
                if j < names.len() && same_chars(&names[j], &c) {
                    let mut g: Vec<usize> = Vec::new();
                    let ghost old_groups = groups@;
                    groups.set_and_swap(j, &mut g);
                    g.push(i);
                    groups.set(j, g);
                    proof {
                        assert forall|k: int| 0 <= k < names@.len() implies (#[trigger] groups@[k])@
                            == files_of_crate(next, names@[k]@) && groups@[k]@.len() > 0 by {
                            if k != j {
                                assert(groups@[k] == old_groups[k]);
                                if names@[k]@ == c@ {
                                    if k < j {
                                        lemma_chars_less_irreflexive(c@);
                                    } else {
                                        assert(chars_less(names@[j as int]@, names@[k]@));
                                        lemma_chars_less_irreflexive(c@);
                                    }
                                }
                            }
                        }
                    }
                } else {
                    proof {
                        if j < names@.len() {
                            lemma_chars_less_total(names@[j as int]@, c@);
                        }
                        assert forall|k: int| 0 <= k < names@.len() implies names@[k]@ != c@ by {
                            lemma_chars_less_irreflexive(c@);
                            if k > j {
                                assert(chars_less(names@[j as int]@, names@[k]@));
                                lemma_chars_less_transitive(c@, names@[j as int]@, names@[k]@);
                            }
                        }
                        assert forall|f: int| 0 <= f < prev.len() implies candidate_crate(
                            #[trigger] prev[f],
                        ) != Some(c@) by {
                            assert(prev[f] == fs[f]);
                        }
                        lemma_files_of_crate_none(prev, c@);
                    }
                    let ghost old_names = names@;
                    let ghost old_groups = groups@;
                    let mut g: Vec<usize> = Vec::new();
                    g.push(i);
                    Vec::insert(&mut names, j, c);
                    Vec::insert(&mut groups, j, g);
                    proof {
                        assert forall|a: int, b: int|
                            0 <= a < b < names@.len() implies chars_less(
                            #[trigger] names@[a]@,
                            #[trigger] names@[b]@,
                        ) by {
                            if b < j {
                                assert(names@[a] == old_names[a] && names@[b] == old_names[b]);
                            } else if b == j {
                                assert(names@[a] == old_names[a]);
                            } else if a == j {
                                assert(names@[b] == old_names[b - 1]);
                                assert(chars_less(c@, old_names[j as int]@));
                                if b - 1 > j {
                                    assert(chars_less(old_names[j as int]@, old_names[b - 1]@));
                                    lemma_chars_less_transitive(c@, old_names[j as int]@, old_names[b - 1]@);
                                }
                            } else if a < j {
                                assert(names@[a] == old_names[a] && names@[b] == old_names[b - 1]);
                                assert(chars_less(old_names[a]@, c@));
                                assert(chars_less(c@, old_names[j as int]@));
                                lemma_chars_less_transitive(old_names[a]@, c@, old_names[j as int]@);
                                if b - 1 > j {
                                    lemma_chars_less_transitive(old_names[a]@, old_names[j as int]@, old_names[b - 1]@);
                                }
                            } else {
                                assert(names@[a] == old_names[a - 1] && names@[b] == old_names[b - 1]);
                            }
                        }
                        assert forall|k: int| 0 <= k < names@.len() implies (#[trigger] groups@[k])@
                            == files_of_crate(next, names@[k]@) && groups@[k]@.len() > 0 by {
                            if k < j {
                                assert(names@[k] == old_names[k] && groups@[k] == old_groups[k]);
                            } else if k > j {
                                assert(names@[k] == old_names[k - 1] && groups@[k] == old_groups[k - 1]);
                            } else {
                                assert(groups@[k]@ =~= Seq::<usize>::empty().push(i));
                            }
                        }
                        assert forall|f: int|
                            0 <= f < i + 1 && (#[trigger] candidate_crate(fs[f])) is Some implies exists|k: int|
                            0 <= k < names@.len() && (#[trigger] names@[k])@ == candidate_crate(fs[f])->0 by {
                            if f == i {
                                assert(names@[j as int]@ == c@);
                            } else {
                                let k0 = choose|k: int|
                                    0 <= k < old_names.len() && (#[trigger] old_names[k])@ == candidate_crate(fs[f])->0;
                                if k0 < j {
                                    assert(names@[k0] == old_names[k0]);
                                } else {
                                    assert(names@[k0 + 1] == old_names[k0]);
                                }
                            }
                        }
                    }
                }
            },
        }
        i = i + 1;
    }
    assert(fs.take(files@.len() as int) =~= fs);
    proof {
        assert forall|f: int| #![trigger files@[f]] 0 <= f < files@.len() implies fs[f] == files@[f]@ by {}
        assert forall|a: int, b: int|
            0 <= a < b < names@.len() implies chars_less(
            #[trigger] char_texts(names@)[a],
            #[trigger] char_texts(names@)[b],
        ) by {
            assert(chars_less(names@[a]@, names@[b]@));
        }
        assert forall|f: int|
            0 <= f < files@.len() && (#[trigger] candidate_crate(files@[f]@)) is Some implies exists|k: int|
            0 <= k < names@.len() && (#[trigger] names@[k])@ == candidate_crate(files@[f]@)->0 by {
            assert(fs[f] == files@[f]@);
        }
        if any {
            let f = choose|f: int| 0 <= f < fs.len() && (#[trigger] candidate_crate(fs[f])) is Some;
            assert(fs[f] == files@[f]@);
        }
    }
    let ghost final_names = names@;
    let r = (names, groups, any);
    assert(r.0@ == final_names);
    r
}

/// A copy of `v`.
fn copy_positions(v: &Vec<usize>) -> (r: Vec<usize>)
    ensures
        r@ == v@,
{
    let mut r: Vec<usize> = Vec::new();
    let mut i: usize = 0;
    while i < v.len()
        invariant
            i <= v@.len(),
            r@ == v@.take(i as int),
        decreases v@.len() - i,
    {
        r.push(v[i]);
        i = i + 1;
        assert(r@ =~= v@.take(i as int));
    }
    assert(v@.take(v@.len() as int) =~= v@);
    r
}

/// The crates of `names` (with their files in `groups`) that `provided`
/// does not name, in the order of `names`; `origin` gives, for each crate
/// kept, its position in `names`.
fn drop_provided(names: &Vec<Vec<char>>, groups: &Vec<Vec<usize>>, provided: &Vec<String>) -> (r: (
    Vec<ExternCrate>,
    Ghost<Seq<int>>,
))
    requires
        names@.len() == groups@.len(),
    ensures
        r.1@.len() == r.0@.len(),
        forall|k: int|
            0 <= k < r.0@.len() ==> 0 <= #[trigger] r.1@[k] < names@.len() && r.0@[k].name@ == names@[r.1@[k]]@
                && r.0@[k].files@ == groups@[r.1@[k]]@,
        forall|a: int, b: int| 0 <= a < b < r.0@.len() ==> #[trigger] r.1@[a] < #[trigger] r.1@[b],
        forall|k: int| 0 <= k < r.0@.len() ==> !texts(provided@).contains((#[trigger] r.0@[k]).name@),
        forall|m: int|
            0 <= m < names@.len() && !texts(provided@).contains(#[trigger] names@[m]@) ==> exists|k: int|
                0 <= k < r.0@.len() && #[trigger] r.1@[k] == m,
{
    let mut crates: Vec<ExternCrate> = Vec::new();
    let ghost mut origin: Seq<int> = Seq::empty();
    let mut i: usize = 0;
    while i < names.len()
        invariant
            i <= names@.len(),
            names@.len() == groups@.len(),
            origin.len() == crates@.len(),
            forall|k: int|
                0 <= k < crates@.len() ==> 0 <= #[trigger] origin[k] < i && crates@[k].name@ == names@[origin[k]]@
                    && crates@[k].files@ == groups@[origin[k]]@,
            forall|a: int, b: int| 0 <= a < b < crates@.len() ==> #[trigger] origin[a] < #[trigger] origin[b],
            forall|k: int| 0 <= k < crates@.len() ==> !texts(provided@).contains((#[trigger] crates@[k]).name@),
            forall|m: int|
                0 <= m < i && !texts(provided@).contains(#[trigger] names@[m]@) ==> exists|k: int|
                    0 <= k < crates@.len() && #[trigger] origin[k] == m,
        decreases names@.len() - i,
    {
        if !is_named(provided, &names[i]) {
            let name = string_of(&names[i]);
            let files = copy_positions(&groups[i]);
            crates.push(ExternCrate { name, files });
            proof {
                let old_origin = origin;
                origin = origin.push(i as int);
                assert forall|m: int|
                    0 <= m < i + 1 && !texts(provided@).contains(#[trigger] names@[m]@) implies exists|k: int|
                    0 <= k < crates@.len() && #[trigger] origin[k] == m by {
                    if m == i {
                        assert(origin[origin.len() - 1] == m);
                    } else {
                        let k0 = choose|k: int| 0 <= k < old_origin.len() && #[trigger] old_origin[k] == m;
                        assert(origin[k0] == m);
                    }
                }
            }
        }
        i = i + 1;
    }
    (crates, Ghost(origin))
}

/// Groups the files of the library directory by crate and decides which
/// crates script mode provides.
///
/// `files` are the file names of the directory and `provided` the crates
/// that the command line already names. Each file whose name has the form
/// `lib<crate>-<hash>.rlib`, with `<crate>` not a crate of the standard
/// library, belongs to `<crate>`. The plan adds the directory to the search
/// paths when any file belongs to a crate, and provides each such crate
/// that is not already provided, in increasing order of name, with the
/// positions of all of its files in increasing order.
pub fn plan_external_crates(files: &Vec<String>, provided: &Vec<String>) -> (r: ExternPlan)
    ensures
        r.add_search_path == exists|f: int|
            0 <= f < files@.len() && (#[trigger] candidate_crate(files@[f]@)) is Some,
        forall|a: int, b: int|
            0 <= a < b < r.crates@.len() ==> chars_less(
                #[trigger] r.crates@[a].name@,
                #[trigger] r.crates@[b].name@,
            ),
        forall|k: int|
            0 <= k < r.crates@.len() ==> {
                &&& !texts(provided@).contains((#[trigger] r.crates@[k]).name@)
                &&& r.crates@[k].files@ == files_of_crate(texts(files@), r.crates@[k].name@)
                &&& r.crates@[k].files@.len() > 0
            },
        forall|f: int|
            0 <= f < files@.len() && (#[trigger] candidate_crate(files@[f]@)) is Some
                && !texts(provided@).contains(candidate_crate(files@[f]@)->0) ==> exists|k: int|
                0 <= k < r.crates@.len() && (#[trigger] r.crates@[k]).name@ == candidate_crate(
                    files@[f]@,
                )->0,
{
    let (names, groups, any) = group_by_crate(files);
    let (crates, Ghost(origin)) = drop_provided(&names, &groups, provided);
    proof {
        assert forall|a: int, b: int|
            0 <= a < b < crates@.len() implies chars_less(
            #[trigger] crates@[a].name@,
            #[trigger] crates@[b].name@,
        ) by {
            assert(origin[a] < origin[b]);
            assert(chars_less(char_texts(names@)[origin[a]], char_texts(names@)[origin[b]]));
        }
        assert forall|f: int|
            0 <= f < files@.len() && (#[trigger] candidate_crate(files@[f]@)) is Some
                && !texts(provided@).contains(candidate_crate(files@[f]@)->0) implies exists|k: int|
            0 <= k < crates@.len() && (#[trigger] crates@[k]).name@ == candidate_crate(files@[f]@)->0 by {
            let m = choose|m: int| 0 <= m < names@.len() && (#[trigger] names@[m])@ == candidate_crate(files@[f]@)->0;
            let k = choose|k: int| 0 <= k < crates@.len() && #[trigger] origin[k] == m;
            assert(crates@[k].name@ == names@[m]@);
        }
        assert forall|k: int| 0 <= k < crates@.len() implies {
            &&& !texts(provided@).contains((#[trigger] crates@[k]).name@)
            &&& crates@[k].files@ == files_of_crate(texts(files@), crates@[k].name@)
            &&& crates@[k].files@.len() > 0
        } by {
            let m: int = origin[k];
            assert(groups@[m]@ == files_of_crate(texts(files@), names@[m]@));
        }
    }
    let ghost kept = crates@;
    let r = ExternPlan { add_search_path: any, crates };
    assert(r.crates@ == kept);
    r
}

/// A file named `lib<name>-<hash>.rlib`, where `<name>` holds no `-`,
/// belongs to the crate `<name>`.
pub proof fn lemma_rlib_file_name(name: Seq<char>, hash: Seq<char>)
    requires
        !name.contains('-'),
    ensures
        rlib_crate_name("lib"@ + name + seq!['-'] + hash + ".rlib"@) == Some(name),
{
    reveal_strlit("lib");
    reveal_strlit(".rlib");
    let f = "lib"@ + name + seq!['-'] + hash + ".rlib"@;
    assert(f.take(3) =~= "lib"@);
    assert(f.skip(f.len() - 5) =~= ".rlib"@);
    let rest = f.skip(3);
    assert forall|k: int| 0 <= k < name.len() implies rest[k] != '-' by {
        assert(rest[k] == name[k]);
        if rest[k] == '-' {
            assert(name.contains('-'));
        }
    }
    assert(rest[name.len() as int] == '-');
    lemma_before_dash(rest, name.len() as int);
    assert(rest.take(name.len() as int) =~= name);
}

/// A crate that the plan provides is never a crate of the standard
/// library, and some file of the directory is an rlib of it.
pub proof fn lemma_provided_crate_is_rlib(files: Seq<Seq<char>>, c: Seq<char>)
    requires
        files_of_crate(files, c).len() > 0,
    ensures
        !stdlib_crate_names().contains(c),
        exists|f: int| 0 <= f < files.len() && rlib_crate_name(#[trigger] files[f]) == Some(c),
{
    lemma_files_of_crate_some(files, c);
    let f = choose|f: int| 0 <= f < files.len() && candidate_crate(#[trigger] files[f]) == Some(c);
    assert(rlib_crate_name(files[f]) == Some(c));
}


/// The crates of the standard library are never provided: no file belongs
/// to a candidate crate named after one of them, whatever its name and hash
/// (so `liblibc-<hash>.rlib` gives none), and so no plan lists them. They are
/// std, core, alloc, proc_macro, test, panic_abort, panic_unwind, unwind, the
/// three rustc_std_workspace crates, std_detect, addr2line, cfg_if,
/// compiler_builtins, getopts, gimli, hashbrown, libc, memchr, miniz_oxide,
/// object, rustc_demangle and sysroot.
pub proof fn lemma_stdlib_crates_never_provided(files: Seq<Seq<char>>, n: Seq<char>)
    requires
        n == "std"@ || n == "core"@ || n == "alloc"@ || n == "proc_macro"@ || n == "test"@ ||
        n == "panic_abort"@ || n == "panic_unwind"@ || n == "unwind"@ ||
        n == "rustc_std_workspace_core"@ || n == "rustc_std_workspace_alloc"@ ||
        n == "rustc_std_workspace_std"@ || n == "std_detect"@ || n == "addr2line"@ ||
        n == "cfg_if"@ || n == "compiler_builtins"@ || n == "getopts"@ || n == "gimli"@ ||
        n == "hashbrown"@ || n == "libc"@ || n == "memchr"@ || n == "miniz_oxide"@ ||
        n == "object"@ || n == "rustc_demangle"@ || n == "sysroot"@,
    ensures
        forall|f: int| 0 <= f < files.len() ==> candidate_crate(#[trigger] files[f]) != Some(n),
        files_of_crate(files, n) == Seq::<usize>::empty(),
{
    let s = stdlib_crate_names();
    if n == "std"@ {
        assert(s[0] == n);
    } else if n == "core"@ {
        assert(s[1] == n);
    } else if n == "alloc"@ {
        assert(s[2] == n);
    } else if n == "proc_macro"@ {
        assert(s[3] == n);
    } else if n == "test"@ {
        assert(s[4] == n);
    } else if n == "panic_abort"@ {
        assert(s[5] == n);
    } else if n == "panic_unwind"@ {
        assert(s[6] == n);
    } else if n == "unwind"@ {
        assert(s[7] == n);
    } else if n == "rustc_std_workspace_core"@ {
        assert(s[8] == n);
    } else if n == "rustc_std_workspace_alloc"@ {
        assert(s[9] == n);
    } else if n == "rustc_std_workspace_std"@ {
        assert(s[10] == n);
    } else if n == "std_detect"@ {
        assert(s[11] == n);
    } else if n == "addr2line"@ {
        assert(s[12] == n);
    } else if n == "cfg_if"@ {
        assert(s[13] == n);
    } else if n == "compiler_builtins"@ {
        assert(s[14] == n);
    } else if n == "getopts"@ {
        assert(s[15] == n);
    } else if n == "gimli"@ {
        assert(s[16] == n);
    } else if n == "hashbrown"@ {
        assert(s[17] == n);
    } else if n == "libc"@ {
        assert(s[18] == n);
    } else if n == "memchr"@ {
        assert(s[19] == n);
    } else if n == "miniz_oxide"@ {
        assert(s[20] == n);
    } else if n == "object"@ {
        assert(s[21] == n);
    } else if n == "rustc_demangle"@ {
        assert(s[22] == n);
    } else if n == "sysroot"@ {
        assert(s[23] == n);
        }
    assert(s.contains(n));
    lemma_files_of_crate_none(files, n);
}

/// Every other crate name, holding no `-`, is a candidate: a file
/// `lib<name>-<hash>.rlib` belongs to the crate `<name>` unless `<name>` is
/// one of the crates of the standard library listed above.
pub proof fn lemma_other_crates_are_candidates(n: Seq<char>, hash: Seq<char>)
    requires
        !n.contains('-'),
        n != "std"@, n != "core"@, n != "alloc"@, n != "proc_macro"@, n != "test"@,
        n != "panic_abort"@, n != "panic_unwind"@, n != "unwind"@,
        n != "rustc_std_workspace_core"@, n != "rustc_std_workspace_alloc"@,
        n != "rustc_std_workspace_std"@, n != "std_detect"@, n != "addr2line"@, n != "cfg_if"@,
        n != "compiler_builtins"@, n != "getopts"@, n != "gimli"@, n != "hashbrown"@, n != "libc"@,
        n != "memchr"@, n != "miniz_oxide"@, n != "object"@, n != "rustc_demangle"@,
        n != "sysroot"@,
    ensures
        candidate_crate("lib"@ + n + seq!['-'] + hash + ".rlib"@) == Some(n),
{
    lemma_rlib_file_name(n, hash);
    let s = stdlib_crate_names();
    assert forall|k: int| 0 <= k < s.len() implies s[k] != n by {
            if k == 0 {
            } else if k == 1 {
            } else if k == 2 {
            } else if k == 3 {
            } else if k == 4 {
            } else if k == 5 {
            } else if k == 6 {
            } else if k == 7 {
            } else if k == 8 {
            } else if k == 9 {
            } else if k == 10 {
            } else if k == 11 {
            } else if k == 12 {
            } else if k == 13 {
            } else if k == 14 {
            } else if k == 15 {
            } else if k == 16 {
            } else if k == 17 {
            } else if k == 18 {
            } else if k == 19 {
            } else if k == 20 {
            } else if k == 21 {
            } else if k == 22 {
            } else if k == 23 {
            }
    }
}

} // verus!
