//! Small building blocks for assembling text.

use vstd::prelude::*;
use vstd::string::StringExecFns;

verus! {

/// Each argument preceded by one space, in order.
pub open spec fn spaced(parts: Seq<Seq<char>>) -> Seq<char>
    decreases parts.len(),
{
    if parts.len() == 0 {
        Seq::<char>::empty()
    } else {
        spaced(parts.drop_last()) + seq![' '] + parts.last()
    }
}

/// The element-wise text of a list of strings.
pub open spec fn texts(parts: Seq<String>) -> Seq<Seq<char>> {
    Seq::new(parts.len(), |i: int| parts[i]@)
}

/// `spaced` grows by one space and one part when a part is pushed.
pub proof fn lemma_spaced_push(parts: Seq<Seq<char>>, next: Seq<char>)
    ensures
        spaced(parts.push(next)) == spaced(parts) + seq![' '] + next,
{
    assert(parts.push(next).drop_last() =~= parts);
}

/// Appends every part of `parts` to `out`, each after a single space.
pub fn append_spaced(out: &mut String, parts: &Vec<String>)
    ensures
        final(out)@ == old(out)@ + spaced(texts(parts@)),
{
    let ghost start = out@;
    let mut i: usize = 0;
    while i < parts.len()
        invariant
            i <= parts.len(),
            out@ == start + spaced(texts(parts@).take(i as int)),
        decreases parts.len() - i,
    {
        proof {
            let done = texts(parts@).take(i as int);
            lemma_spaced_push(done, parts@[i as int]@);
            assert(texts(parts@).take(i + 1) =~= done.push(parts@[i as int]@));
        }
        out.append(" ");
        out.append(parts[i].as_str());
        proof {
            reveal_strlit(" ");
            assert(" "@ =~= seq![' ']);
            assert(out@ =~= start + (spaced(texts(parts@).take(i as int)) + seq![' '] + parts@[i as int]@));
        }
        i = i + 1;
    }
    proof {
        assert(texts(parts@).take(parts@.len() as int) =~= texts(parts@));
    }
}

} // verus!
