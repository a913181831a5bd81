use vstd::prelude::*;

use crate::seeded::levels::{face_count, face_vertex_indices, Shape};
use crate::shape::shape_loader::{border_type_from_shared, shared_vertex_count};

verus! {

/// The palette colour of each tetrahedron face.
pub const TETRAHEDRON_FACE_COLORS: [usize; 4] = [0, 1, 2, 3];

/// The palette colour of each cube face.
pub const CUBE_FACE_COLORS: [usize; 6] = [0, 1, 1, 2, 2, 0];

/// The palette colour of each octahedron face.
pub const OCTAHEDRON_FACE_COLORS: [usize; 8] = [0, 1, 2, 3, 2, 3, 0, 1];

/// The palette colour of each dodecahedron face.
pub const DODECAHEDRON_FACE_COLORS: [usize; 12] = [1, 3, 0, 1, 2, 3, 0, 3, 1, 2, 2, 0];

/// The palette colour of each icosahedron face.
pub const ICOSAHEDRON_FACE_COLORS: [usize; 20] = [0, 1, 2, 3, 4, 1, 3, 4, 0, 1, 2, 2, 4, 0, 3, 1, 0, 2, 4, 3];

/// The palette colour of each face of the solid.
pub open spec fn face_colors(shape: Shape) -> Seq<usize> {
    match shape {
        Shape::Tetrahedron => TETRAHEDRON_FACE_COLORS@,
        Shape::Cube => CUBE_FACE_COLORS@,
        Shape::Octahedron => OCTAHEDRON_FACE_COLORS@,
        Shape::Dodecahedron => DODECAHEDRON_FACE_COLORS@,
        Shape::Icosahedron => ICOSAHEDRON_FACE_COLORS@,
    }
}

/// The palette colour of each face of the solid, face by face: the face
/// materials are drawn from a palette of six colours.
pub fn face_color_indices(shape: Shape) -> (r: Vec<usize>)
    ensures
        r@ == face_colors(shape),
        r@.len() == face_count(shape),
{
    let colors: &[usize] = match shape {
        Shape::Tetrahedron => &TETRAHEDRON_FACE_COLORS,
        Shape::Cube => &CUBE_FACE_COLORS,
        Shape::Octahedron => &OCTAHEDRON_FACE_COLORS,
        Shape::Dodecahedron => &DODECAHEDRON_FACE_COLORS,
        Shape::Icosahedron => &ICOSAHEDRON_FACE_COLORS,
    };
    let mut r: Vec<usize> = Vec::new();
    let mut i: usize = 0;
    while i < colors.len()
        invariant
            i <= colors@.len(),
            r@ == colors@.subrange(0, i as int),
        decreases colors@.len() - i,
    {
        r.push(colors[i]);
        assert(colors@.subrange(0, i as int + 1) =~= colors@.subrange(0, i as int).push(colors@[i as int]));
        i = i + 1;
    }
    assert(colors@.subrange(0, colors@.len() as int) =~= colors@);
    r
}

/// Two faces with at most one vertex in common share no edge.
proof fn lemma_at_most_one_common_vertex(a: Seq<usize>, b: Seq<usize>)
    requires
        forall|i: int, j: int, k: int, l: int|
            0 <= i < a.len() && 0 <= j < b.len() && 0 <= k < a.len() && 0 <= l < b.len() && a[i] == b[j]
                && a[k] == b[l] ==> a[i] == a[k],
    ensures
        shared_vertex_count(a, b) <= 1,
{
    let s = a.to_set().intersect(b.to_set());
    if s.len() > 1 {
        vstd::seq_lib::seq_to_set_is_finite(a);
        let x = s.choose();
        assert(s.contains(x));
        let rest = s.remove(x);
        assert(rest.len() > 0);
        let y = rest.choose();
        assert(rest.contains(y));
        let i = choose|i: int| 0 <= i < a.len() && a[i] == x;
        let j = choose|j: int| 0 <= j < b.len() && b[j] == x;
        let k = choose|k: int| 0 <= k < a.len() && a[k] == y;
        let l = choose|l: int| 0 <= l < b.len() && b[l] == y;
        assert(a[i] == a[k]);
    }
}

proof fn lemma_tetrahedron_colouring(a: int, b: int)
    requires
        0 <= a < 4,
        0 <= b < 4,
        a != b,
        face_colors(Shape::Tetrahedron)[a] == face_colors(Shape::Tetrahedron)[b],
    ensures
        shared_vertex_count(face_vertex_indices(Shape::Tetrahedron, a), face_vertex_indices(Shape::Tetrahedron, b)) <= 1,
{
}

proof fn lemma_cube_colouring(a: int, b: int)
    requires
        0 <= a < 6,
        0 <= b < 6,
        a != b,
        face_colors(Shape::Cube)[a] == face_colors(Shape::Cube)[b],
    ensures
        shared_vertex_count(face_vertex_indices(Shape::Cube, a), face_vertex_indices(Shape::Cube, b)) <= 1,
{
    if a == 0 && b == 5 {
        lemma_at_most_one_common_vertex(face_vertex_indices(Shape::Cube, a), face_vertex_indices(Shape::Cube, b));
    } else if a == 1 && b == 2 {
        lemma_at_most_one_common_vertex(face_vertex_indices(Shape::Cube, a), face_vertex_indices(Shape::Cube, b));
    } else if a == 2 && b == 1 {
        lemma_at_most_one_common_vertex(face_vertex_indices(Shape::Cube, a), face_vertex_indices(Shape::Cube, b));
    } else if a == 3 && b == 4 {
        lemma_at_most_one_common_vertex(face_vertex_indices(Shape::Cube, a), face_vertex_indices(Shape::Cube, b));
    } else if a == 4 && b == 3 {
        lemma_at_most_one_common_vertex(face_vertex_indices(Shape::Cube, a), face_vertex_indices(Shape::Cube, b));
    } else if a == 5 && b == 0 {
        lemma_at_most_one_common_vertex(face_vertex_indices(Shape::Cube, a), face_vertex_indices(Shape::Cube, b));
    }
}

proof fn lemma_octahedron_colouring(a: int, b: int)
    requires
        0 <= a < 8,
        0 <= b < 8,
        a != b,
        face_colors(Shape::Octahedron)[a] == face_colors(Shape::Octahedron)[b],
    ensures
        shared_vertex_count(face_vertex_indices(Shape::Octahedron, a), face_vertex_indices(Shape::Octahedron, b)) <= 1,
{
    if a == 0 && b == 6 {
        lemma_at_most_one_common_vertex(face_vertex_indices(Shape::Octahedron, a), face_vertex_indices(Shape::Octahedron, b));
    } else if a == 1 && b == 7 {
        lemma_at_most_one_common_vertex(face_vertex_indices(Shape::Octahedron, a), face_vertex_indices(Shape::Octahedron, b));
    } else if a == 2 && b == 4 {
        lemma_at_most_one_common_vertex(face_vertex_indices(Shape::Octahedron, a), face_vertex_indices(Shape::Octahedron, b));
    } else if a == 3 && b == 5 {
        lemma_at_most_one_common_vertex(face_vertex_indices(Shape::Octahedron, a), face_vertex_indices(Shape::Octahedron, b));
    } else if a == 4 && b == 2 {
        lemma_at_most_one_common_vertex(face_vertex_indices(Shape::Octahedron, a), face_vertex_indices(Shape::Octahedron, b));
    } else if a == 5 && b == 3 {
        lemma_at_most_one_common_vertex(face_vertex_indices(Shape::Octahedron, a), face_vertex_indices(Shape::Octahedron, b));
    } else if a == 6 && b == 0 {
        lemma_at_most_one_common_vertex(face_vertex_indices(Shape::Octahedron, a), face_vertex_indices(Shape::Octahedron, b));
    } else if a == 7 && b == 1 {
        lemma_at_most_one_common_vertex(face_vertex_indices(Shape::Octahedron, a), face_vertex_indices(Shape::Octahedron, b));
    }
}

proof fn lemma_dodecahedron_colouring(a: int, b: int)
    requires
        0 <= a < 12,
        0 <= b < 12,
        a != b,
        face_colors(Shape::Dodecahedron)[a] == face_colors(Shape::Dodecahedron)[b],
    ensures
        shared_vertex_count(face_vertex_indices(Shape::Dodecahedron, a), face_vertex_indices(Shape::Dodecahedron, b)) <= 1,
{
    if a == 0 && b == 3 {
        lemma_at_most_one_common_vertex(face_vertex_indices(Shape::Dodecahedron, a), face_vertex_indices(Shape::Dodecahedron, b));
    } else if a == 0 && b == 8 {
        lemma_at_most_one_common_vertex(face_vertex_indices(Shape::Dodecahedron, a), face_vertex_indices(Shape::Dodecahedron, b));
    } else if a == 1 && b == 5 {
        lemma_at_most_one_common_vertex(face_vertex_indices(Shape::Dodecahedron, a), face_vertex_indices(Shape::Dodecahedron, b));
    } else if a == 1 && b == 7 {
        lemma_at_most_one_common_vertex(face_vertex_indices(Shape::Dodecahedron, a), face_vertex_indices(Shape::Dodecahedron, b));
    } else if a == 2 && b == 6 {
        lemma_at_most_one_common_vertex(face_vertex_indices(Shape::Dodecahedron, a), face_vertex_indices(Shape::Dodecahedron, b));
    } else if a == 2 && b == 11 {
        lemma_at_most_one_common_vertex(face_vertex_indices(Shape::Dodecahedron, a), face_vertex_indices(Shape::Dodecahedron, b));
    } else if a == 3 && b == 0 {
        lemma_at_most_one_common_vertex(face_vertex_indices(Shape::Dodecahedron, a), face_vertex_indices(Shape::Dodecahedron, b));
    } else if a == 3 && b == 8 {
        lemma_at_most_one_common_vertex(face_vertex_indices(Shape::Dodecahedron, a), face_vertex_indices(Shape::Dodecahedron, b));
    } else if a == 4 && b == 9 {
        lemma_at_most_one_common_vertex(face_vertex_indices(Shape::Dodecahedron, a), face_vertex_indices(Shape::Dodecahedron, b));
    } else if a == 4 && b == 10 {
        lemma_at_most_one_common_vertex(face_vertex_indices(Shape::Dodecahedron, a), face_vertex_indices(Shape::Dodecahedron, b));
    } else if a == 5 && b == 1 {
        lemma_at_most_one_common_vertex(face_vertex_indices(Shape::Dodecahedron, a), face_vertex_indices(Shape::Dodecahedron, b));
    } else if a == 5 && b == 7 {
        lemma_at_most_one_common_vertex(face_vertex_indices(Shape::Dodecahedron, a), face_vertex_indices(Shape::Dodecahedron, b));
    } else if a == 6 && b == 2 {
        lemma_at_most_one_common_vertex(face_vertex_indices(Shape::Dodecahedron, a), face_vertex_indices(Shape::Dodecahedron, b));
    } else if a == 6 && b == 11 {
        lemma_at_most_one_common_vertex(face_vertex_indices(Shape::Dodecahedron, a), face_vertex_indices(Shape::Dodecahedron, b));
    } else if a == 7 && b == 1 {
        lemma_at_most_one_common_vertex(face_vertex_indices(Shape::Dodecahedron, a), face_vertex_indices(Shape::Dodecahedron, b));
    } else if a == 7 && b == 5 {
        lemma_at_most_one_common_vertex(face_vertex_indices(Shape::Dodecahedron, a), face_vertex_indices(Shape::Dodecahedron, b));
    } else if a == 8 && b == 0 {
        lemma_at_most_one_common_vertex(face_vertex_indices(Shape::Dodecahedron, a), face_vertex_indices(Shape::Dodecahedron, b));
    } else if a == 8 && b == 3 {
        lemma_at_most_one_common_vertex(face_vertex_indices(Shape::Dodecahedron, a), face_vertex_indices(Shape::Dodecahedron, b));
    } else if a == 9 && b == 4 {
        lemma_at_most_one_common_vertex(face_vertex_indices(Shape::Dodecahedron, a), face_vertex_indices(Shape::Dodecahedron, b));
    } else if a == 9 && b == 10 {
        lemma_at_most_one_common_vertex(face_vertex_indices(Shape::Dodecahedron, a), face_vertex_indices(Shape::Dodecahedron, b));
    } else if a == 10 && b == 4 {
        lemma_at_most_one_common_vertex(face_vertex_indices(Shape::Dodecahedron, a), face_vertex_indices(Shape::Dodecahedron, b));
    } else if a == 10 && b == 9 {
        lemma_at_most_one_common_vertex(face_vertex_indices(Shape::Dodecahedron, a), face_vertex_indices(Shape::Dodecahedron, b));
    } else if a == 11 && b == 2 {
        lemma_at_most_one_common_vertex(face_vertex_indices(Shape::Dodecahedron, a), face_vertex_indices(Shape::Dodecahedron, b));
    } else if a == 11 && b == 6 {
        lemma_at_most_one_common_vertex(face_vertex_indices(Shape::Dodecahedron, a), face_vertex_indices(Shape::Dodecahedron, b));
    }
}

proof fn lemma_icosahedron_colouring(a: int, b: int)
    requires
        0 <= a < 20,
        0 <= b < 20,
        a != b,
        face_colors(Shape::Icosahedron)[a] == face_colors(Shape::Icosahedron)[b],
    ensures
        shared_vertex_count(face_vertex_indices(Shape::Icosahedron, a), face_vertex_indices(Shape::Icosahedron, b)) <= 1,
{
    if a == 0 && b == 8 {
        lemma_at_most_one_common_vertex(face_vertex_indices(Shape::Icosahedron, a), face_vertex_indices(Shape::Icosahedron, b));
    } else if a == 0 && b == 13 {
        lemma_at_most_one_common_vertex(face_vertex_indices(Shape::Icosahedron, a), face_vertex_indices(Shape::Icosahedron, b));
    } else if a == 0 && b == 16 {
        lemma_at_most_one_common_vertex(face_vertex_indices(Shape::Icosahedron, a), face_vertex_indices(Shape::Icosahedron, b));
    } else if a == 1 && b == 5 {
        lemma_at_most_one_common_vertex(face_vertex_indices(Shape::Icosahedron, a), face_vertex_indices(Shape::Icosahedron, b));
    } else if a == 1 && b == 9 {
        lemma_at_most_one_common_vertex(face_vertex_indices(Shape::Icosahedron, a), face_vertex_indices(Shape::Icosahedron, b));
    } else if a == 1 && b == 15 {
        lemma_at_most_one_common_vertex(face_vertex_indices(Shape::Icosahedron, a), face_vertex_indices(Shape::Icosahedron, b));
    } else if a == 2 && b == 10 {
        lemma_at_most_one_common_vertex(face_vertex_indices(Shape::Icosahedron, a), face_vertex_indices(Shape::Icosahedron, b));
    } else if a == 2 && b == 11 {
        lemma_at_most_one_common_vertex(face_vertex_indices(Shape::Icosahedron, a), face_vertex_indices(Shape::Icosahedron, b));
    } else if a == 2 && b == 17 {
        lemma_at_most_one_common_vertex(face_vertex_indices(Shape::Icosahedron, a), face_vertex_indices(Shape::Icosahedron, b));
    } else if a == 3 && b == 6 {
        lemma_at_most_one_common_vertex(face_vertex_indices(Shape::Icosahedron, a), face_vertex_indices(Shape::Icosahedron, b));
    } else if a == 3 && b == 14 {
        lemma_at_most_one_common_vertex(face_vertex_indices(Shape::Icosahedron, a), face_vertex_indices(Shape::Icosahedron, b));
    } else if a == 3 && b == 19 {
        lemma_at_most_one_common_vertex(face_vertex_indices(Shape::Icosahedron, a), face_vertex_indices(Shape::Icosahedron, b));
    } else if a == 4 && b == 7 {
        lemma_at_most_one_common_vertex(face_vertex_indices(Shape::Icosahedron, a), face_vertex_indices(Shape::Icosahedron, b));
    } else if a == 4 && b == 12 {
        lemma_at_most_one_common_vertex(face_vertex_indices(Shape::Icosahedron, a), face_vertex_indices(Shape::Icosahedron, b));
    } else if a == 4 && b == 18 {
        lemma_at_most_one_common_vertex(face_vertex_indices(Shape::Icosahedron, a), face_vertex_indices(Shape::Icosahedron, b));
    } else if a == 5 && b == 1 {
        lemma_at_most_one_common_vertex(face_vertex_indices(Shape::Icosahedron, a), face_vertex_indices(Shape::Icosahedron, b));
    } else if a == 5 && b == 9 {
        lemma_at_most_one_common_vertex(face_vertex_indices(Shape::Icosahedron, a), face_vertex_indices(Shape::Icosahedron, b));
    } else if a == 5 && b == 15 {
        lemma_at_most_one_common_vertex(face_vertex_indices(Shape::Icosahedron, a), face_vertex_indices(Shape::Icosahedron, b));
    } else if a == 6 && b == 3 {
        lemma_at_most_one_common_vertex(face_vertex_indices(Shape::Icosahedron, a), face_vertex_indices(Shape::Icosahedron, b));
    } else if a == 6 && b == 14 {
        lemma_at_most_one_common_vertex(face_vertex_indices(Shape::Icosahedron, a), face_vertex_indices(Shape::Icosahedron, b));
    } else if a == 6 && b == 19 {
        lemma_at_most_one_common_vertex(face_vertex_indices(Shape::Icosahedron, a), face_vertex_indices(Shape::Icosahedron, b));
    } else if a == 7 && b == 4 {
        lemma_at_most_one_common_vertex(face_vertex_indices(Shape::Icosahedron, a), face_vertex_indices(Shape::Icosahedron, b));
    } else if a == 7 && b == 12 {
        lemma_at_most_one_common_vertex(face_vertex_indices(Shape::Icosahedron, a), face_vertex_indices(Shape::Icosahedron, b));
    } else if a == 7 && b == 18 {
        lemma_at_most_one_common_vertex(face_vertex_indices(Shape::Icosahedron, a), face_vertex_indices(Shape::Icosahedron, b));
    } else if a == 8 && b == 0 {
        lemma_at_most_one_common_vertex(face_vertex_indices(Shape::Icosahedron, a), face_vertex_indices(Shape::Icosahedron, b));
    } else if a == 8 && b == 13 {
        lemma_at_most_one_common_vertex(face_vertex_indices(Shape::Icosahedron, a), face_vertex_indices(Shape::Icosahedron, b));
    } else if a == 8 && b == 16 {
        lemma_at_most_one_common_vertex(face_vertex_indices(Shape::Icosahedron, a), face_vertex_indices(Shape::Icosahedron, b));
    } else if a == 9 && b == 1 {
        lemma_at_most_one_common_vertex(face_vertex_indices(Shape::Icosahedron, a), face_vertex_indices(Shape::Icosahedron, b));
    } else if a == 9 && b == 5 {
        lemma_at_most_one_common_vertex(face_vertex_indices(Shape::Icosahedron, a), face_vertex_indices(Shape::Icosahedron, b));
    } else if a == 9 && b == 15 {
        lemma_at_most_one_common_vertex(face_vertex_indices(Shape::Icosahedron, a), face_vertex_indices(Shape::Icosahedron, b));
    } else if a == 10 && b == 2 {
        lemma_at_most_one_common_vertex(face_vertex_indices(Shape::Icosahedron, a), face_vertex_indices(Shape::Icosahedron, b));
    } else if a == 10 && b == 11 {
        lemma_at_most_one_common_vertex(face_vertex_indices(Shape::Icosahedron, a), face_vertex_indices(Shape::Icosahedron, b));
    } else if a == 10 && b == 17 {
        lemma_at_most_one_common_vertex(face_vertex_indices(Shape::Icosahedron, a), face_vertex_indices(Shape::Icosahedron, b));
    } else if a == 11 && b == 2 {
        lemma_at_most_one_common_vertex(face_vertex_indices(Shape::Icosahedron, a), face_vertex_indices(Shape::Icosahedron, b));
    } else if a == 11 && b == 10 {
        lemma_at_most_one_common_vertex(face_vertex_indices(Shape::Icosahedron, a), face_vertex_indices(Shape::Icosahedron, b));
    } else if a == 11 && b == 17 {
        lemma_at_most_one_common_vertex(face_vertex_indices(Shape::Icosahedron, a), face_vertex_indices(Shape::Icosahedron, b));
    } else if a == 12 && b == 4 {
        lemma_at_most_one_common_vertex(face_vertex_indices(Shape::Icosahedron, a), face_vertex_indices(Shape::Icosahedron, b));
    } else if a == 12 && b == 7 {
        lemma_at_most_one_common_vertex(face_vertex_indices(Shape::Icosahedron, a), face_vertex_indices(Shape::Icosahedron, b));
    } else if a == 12 && b == 18 {
        lemma_at_most_one_common_vertex(face_vertex_indices(Shape::Icosahedron, a), face_vertex_indices(Shape::Icosahedron, b));
    } else if a == 13 && b == 0 {
        lemma_at_most_one_common_vertex(face_vertex_indices(Shape::Icosahedron, a), face_vertex_indices(Shape::Icosahedron, b));
    } else if a == 13 && b == 8 {
        lemma_at_most_one_common_vertex(face_vertex_indices(Shape::Icosahedron, a), face_vertex_indices(Shape::Icosahedron, b));
    } else if a == 13 && b == 16 {
        lemma_at_most_one_common_vertex(face_vertex_indices(Shape::Icosahedron, a), face_vertex_indices(Shape::Icosahedron, b));
    } else if a == 14 && b == 3 {
        lemma_at_most_one_common_vertex(face_vertex_indices(Shape::Icosahedron, a), face_vertex_indices(Shape::Icosahedron, b));
    } else if a == 14 && b == 6 {
        lemma_at_most_one_common_vertex(face_vertex_indices(Shape::Icosahedron, a), face_vertex_indices(Shape::Icosahedron, b));
    } else if a == 14 && b == 19 {
        lemma_at_most_one_common_vertex(face_vertex_indices(Shape::Icosahedron, a), face_vertex_indices(Shape::Icosahedron, b));
    } else if a == 15 && b == 1 {
        lemma_at_most_one_common_vertex(face_vertex_indices(Shape::Icosahedron, a), face_vertex_indices(Shape::Icosahedron, b));
    } else if a == 15 && b == 5 {
        lemma_at_most_one_common_vertex(face_vertex_indices(Shape::Icosahedron, a), face_vertex_indices(Shape::Icosahedron, b));
    } else if a == 15 && b == 9 {
        lemma_at_most_one_common_vertex(face_vertex_indices(Shape::Icosahedron, a), face_vertex_indices(Shape::Icosahedron, b));
    } else if a == 16 && b == 0 {
        lemma_at_most_one_common_vertex(face_vertex_indices(Shape::Icosahedron, a), face_vertex_indices(Shape::Icosahedron, b));
    } else if a == 16 && b == 8 {
        lemma_at_most_one_common_vertex(face_vertex_indices(Shape::Icosahedron, a), face_vertex_indices(Shape::Icosahedron, b));
    } else if a == 16 && b == 13 {
        lemma_at_most_one_common_vertex(face_vertex_indices(Shape::Icosahedron, a), face_vertex_indices(Shape::Icosahedron, b));
    } else if a == 17 && b == 2 {
        lemma_at_most_one_common_vertex(face_vertex_indices(Shape::Icosahedron, a), face_vertex_indices(Shape::Icosahedron, b));
    } else if a == 17 && b == 10 {
        lemma_at_most_one_common_vertex(face_vertex_indices(Shape::Icosahedron, a), face_vertex_indices(Shape::Icosahedron, b));
    } else if a == 17 && b == 11 {
        lemma_at_most_one_common_vertex(face_vertex_indices(Shape::Icosahedron, a), face_vertex_indices(Shape::Icosahedron, b));
    } else if a == 18 && b == 4 {
        lemma_at_most_one_common_vertex(face_vertex_indices(Shape::Icosahedron, a), face_vertex_indices(Shape::Icosahedron, b));
    } else if a == 18 && b == 7 {
        lemma_at_most_one_common_vertex(face_vertex_indices(Shape::Icosahedron, a), face_vertex_indices(Shape::Icosahedron, b));
    } else if a == 18 && b == 12 {
        lemma_at_most_one_common_vertex(face_vertex_indices(Shape::Icosahedron, a), face_vertex_indices(Shape::Icosahedron, b));
    } else if a == 19 && b == 3 {
        lemma_at_most_one_common_vertex(face_vertex_indices(Shape::Icosahedron, a), face_vertex_indices(Shape::Icosahedron, b));
    } else if a == 19 && b == 6 {
        lemma_at_most_one_common_vertex(face_vertex_indices(Shape::Icosahedron, a), face_vertex_indices(Shape::Icosahedron, b));
    } else if a == 19 && b == 14 {
        lemma_at_most_one_common_vertex(face_vertex_indices(Shape::Icosahedron, a), face_vertex_indices(Shape::Icosahedron, b));
    }
}

/// Faces of the same colour never share an edge: on every solid, two
/// different faces drawn in the same palette colour have no border.
pub proof fn lemma_same_colour_faces_do_not_border(shape: Shape, a: int, b: int)
    requires
        0 <= a < face_count(shape),
        0 <= b < face_count(shape),
        a != b,
        face_colors(shape)[a] == face_colors(shape)[b],
    ensures
        border_type_from_shared(
            shared_vertex_count(face_vertex_indices(shape, a), face_vertex_indices(shape, b)),
        ) is None,
{
    match shape {
        Shape::Tetrahedron => lemma_tetrahedron_colouring(a, b),
        Shape::Cube => lemma_cube_colouring(a, b),
        Shape::Octahedron => lemma_octahedron_colouring(a, b),
        Shape::Dodecahedron => lemma_dodecahedron_colouring(a, b),
        Shape::Icosahedron => lemma_icosahedron_colouring(a, b),
    }
}

} // verus!
