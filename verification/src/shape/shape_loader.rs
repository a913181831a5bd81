use vstd::prelude::*;

verus! {

/// How two faces of a solid meet.
#[derive(Debug, Clone, Copy, PartialEq, Eq, Structural)]
pub enum BorderType {
    /// The two faces are the same face.
    SameFace,
    /// The two faces share an edge.
    Connected,
}

/// The number of distinct vertex indices that two faces have in common.
pub open spec fn shared_vertex_count(a: Seq<usize>, b: Seq<usize>) -> nat {
    a.to_set().intersect(b.to_set()).len()
}

/// Faces that share no vertex or a single corner have no border; two shared
/// vertices make an edge; three or more shared vertices mean the same face.
pub open spec fn border_type_from_shared(count: nat) -> Option<BorderType> {
    if count <= 1 {
        None
    } else if count == 2 {
        Some(BorderType::Connected)
    } else {
        Some(BorderType::SameFace)
    }
}

pub(crate) fn contains_index(s: &[usize], end: usize, x: usize) -> (r: bool)
    requires
        end <= s@.len(),
    ensures
        r == s@.subrange(0, end as int).contains(x),
{
    let mut i: usize = 0;
    while i < end
        invariant
            i <= end <= s@.len(),
            !s@.subrange(0, i as int).contains(x),
        decreases end - i,
    {
        if s[i] == x {
            assert(s@.subrange(0, end as int)[i as int] == x);
            return true;
        }
        assert(s@.subrange(0, i as int + 1) =~= s@.subrange(0, i as int).push(s@[i as int]));
        i = i + 1;
    }
    false
}

/// Counts the distinct vertex indices that the two faces have in common.
pub fn count_shared_vertices(a: &[usize], b: &[usize]) -> (r: usize)
    ensures
        r == shared_vertex_count(a@, b@),
{
    let mut count: usize = 0;
    let mut i: usize = 0;
    proof {
        assert(a@.subrange(0, 0).to_set() =~= Set::<usize>::empty());
        assert(Set::<usize>::empty().intersect(b@.to_set()) =~= Set::<usize>::empty());
    }
    while i < a.len()
        invariant
            i <= a@.len(),
            count == a@.subrange(0, i as int).to_set().intersect(b@.to_set()).len(),
            count <= i,
        decreases a@.len() - i,
    {
        let ghost prefix = a@.subrange(0, i as int);
        let x = a[i];
        let in_b = contains_index(b, b.len(), x);
        let seen = contains_index(a, i, x);
        proof {
            assert(b@.subrange(0, b@.len() as int) =~= b@);
            let next = a@.subrange(0, i as int + 1);
            assert(next =~= prefix.push(x));
            lemma_push_to_set(prefix, x);
            vstd::seq_lib::seq_to_set_is_finite(prefix);
            assert(prefix.to_set().intersect(b@.to_set()).finite());
            let old_set = prefix.to_set().intersect(b@.to_set());
            if in_b && !seen {
                assert(next.to_set().intersect(b@.to_set()) =~= old_set.insert(x));
                assert(!old_set.contains(x));
            } else {
                assert(next.to_set().intersect(b@.to_set()) =~= old_set);
            }
        }
        if in_b && !seen {
            count = count + 1;
        }
        i = i + 1;
    }
    assert(a@.subrange(0, a@.len() as int) =~= a@);
    count
}

/// Pushing an element onto a sequence adds it to the sequence's set.
pub proof fn lemma_push_to_set<A>(s: Seq<A>, x: A)
    ensures
        s.push(x).to_set() =~= s.to_set().insert(x),
{
    assert forall|y: A| s.push(x).to_set().contains(y) <==> s.to_set().insert(x).contains(y) by {
        if s.push(x).to_set().contains(y) {
            let k = choose|k: int| 0 <= k < s.push(x).len() && s.push(x)[k] == y;
            if k < s.len() {
                assert(s[k] == y);
            }
        }
        if s.to_set().contains(y) {
            let k = choose|k: int| 0 <= k < s.len() && s[k] == y;
            assert(s.push(x)[k] == y);
        }
        if y == x {
            assert(s.push(x)[s.len() as int] == x);
        }
    }
}

} // verus!
