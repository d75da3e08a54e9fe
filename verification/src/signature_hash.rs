//! The type hash of a function signature, used to check at load time that
//! an exported function still has the signature its caller expects.
//!
//! The hash feeds the `Debug` rendering of each input type, then that of the
//! output type, then that of the ABI, each as a `str`, into a
//! `DefaultHasher` created with `DefaultHasher::new`.
use vstd::prelude::*;
use vstd::std_specs::hash::DefaultHasherAdditionalSpecFns;
use std::collections::hash_map::DefaultHasher;
use std::hash::Hash;
use std::hash::Hasher;
use crate::crates::texts;

verus! {

/// The writes that hashing the `str` with text `s` makes to a hasher.
pub uninterp spec fn str_hash_writes(s: Seq<char>) -> Seq<Seq<u8>>;

/// Feeds `s` into `h` the way `Hash` for `str` does.
///
/// Trusted: calls `<str as Hash>::hash`. What it writes to the hasher is a
/// function of the text alone, named `str_hash_writes`; its bytes (those of
/// the text and a terminator) are not stated here.
#[verifier::external_body]
fn hash_str(h: &mut DefaultHasher, s: &str)
    ensures
        final(h)@ == old(h)@ + str_hash_writes(s@),
{
    s.hash(h)
}

/// The writes that hashing the texts `parts`, in order, makes to a hasher.
pub open spec fn hash_writes(parts: Seq<Seq<char>>) -> Seq<Seq<u8>>
    decreases parts.len(),
{
    if parts.len() == 0 {
        Seq::empty()
    } else {
        hash_writes(parts.drop_last()) + str_hash_writes(parts.last())
    }
}

/// The texts that the type hash of a signature is computed from: the
/// renderings of the input types, then of the output type, then of the ABI.
pub open spec fn signature_parts(inputs: Seq<Seq<char>>, output: Seq<char>, abi: Seq<char>) -> Seq<Seq<char>> {
    inputs.push(output).push(abi)
}

/// The type hash of a function signature, from the `Debug` renderings of
/// its input types, its output type and its ABI.
pub fn compute_fn_type_hash(inputs: &Vec<String>, output: &str, abi: &str) -> (r: u64)
    ensures
        r == DefaultHasher::spec_finish(hash_writes(signature_parts(texts(inputs@), output@, abi@))),
{
    let mut hasher = DefaultHasher::new();
    let mut i: usize = 0;
    while i < inputs.len()
        invariant
            i <= inputs@.len(),
            hasher@ == hash_writes(texts(inputs@).take(i as int)),
        decreases inputs@.len() - i,
    {
        hash_str(&mut hasher, inputs[i].as_str());
        proof {
            let t = texts(inputs@).take(i + 1);
            assert(t.drop_last() =~= texts(inputs@).take(i as int));
            assert(t.last() == inputs@[i as int]@);
        }
        i = i + 1;
    }
    assert(texts(inputs@).take(inputs@.len() as int) =~= texts(inputs@));
    hash_str(&mut hasher, output);
    hash_str(&mut hasher, abi);
    let ghost parts = signature_parts(texts(inputs@), output@, abi@);
    assert(parts.drop_last().drop_last() =~= texts(inputs@));
    assert(parts.drop_last() =~= texts(inputs@).push(output@));
    assert(hash_writes(parts.drop_last()) == hash_writes(texts(inputs@)) + str_hash_writes(output@));
    assert(hasher@ =~= hash_writes(parts));
    hasher.finish()
}


/// The type hash feeds the hasher the input types in order, then the output
/// type, then the ABI: what it writes is the writes of the inputs followed by
/// those of the output and then those of the ABI.
pub proof fn lemma_signature_hash_order(inputs: Seq<Seq<char>>, output: Seq<char>, abi: Seq<char>)
    ensures
        hash_writes(signature_parts(inputs, output, abi)) == hash_writes(inputs) + str_hash_writes(output)
            + str_hash_writes(abi),
        hash_writes(seq![output]) == str_hash_writes(output),
{
    let p = signature_parts(inputs, output, abi);
    let q = inputs.push(output);
    assert(p.drop_last() =~= q);
    assert(p.last() == abi);
    assert(q.drop_last() =~= inputs);
    assert(q.last() == output);
    assert(hash_writes(q) == hash_writes(inputs) + str_hash_writes(output));
    assert(hash_writes(p) == hash_writes(q) + str_hash_writes(abi));
    let o = seq![output];
    assert(o.drop_last() =~= Seq::<Seq<char>>::empty());
    assert(hash_writes(o.drop_last()) == Seq::<Seq<u8>>::empty());
    assert(hash_writes(o) =~= str_hash_writes(output));
}

} // verus!
