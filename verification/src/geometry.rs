//! The quad's fixed geometry: vertex data, triangulation indices, and the
//! facts that make them fit together.
//!
//! Four vertices span the unit quad in clip space, corners at `(±1, ±1, 0)`.
//! Each vertex carries five components: a three-component position followed
//! by a two-component texture coordinate, packed as the layout of
//! [`quad_vertex_layout`] declares. Six indices triangulate the quad as
//! `(0, 1, 3)` and `(1, 2, 3)`.

use vstd::prelude::*;
use crate::layout::{stride_of, VertexAttr, VertexFormat, VertexLayout};
use crate::scalar::{fx, Fixed};

verus! {

/// How many vertices the quad has.
pub const QUAD_VERTEX_COUNT: usize = 4;

/// How many 32-bit components one quad vertex occupies: three of position
/// plus two of texture coordinate.
pub const QUAD_VERTEX_COMPONENTS: usize = 5;

/// How many indices the quad's triangulation uses: two triangles.
pub const QUAD_INDEX_COUNT: usize = 6;

/// The attributes of a quad vertex: position at location 0, texture
/// coordinate at location 1.
pub open spec fn spec_quad_attrs() -> Seq<VertexAttr> {
    seq![
        VertexAttr { location: 0, format: VertexFormat::Float32x3 },
        VertexAttr { location: 1, format: VertexFormat::Float32x2 },
    ]
}

/// The quad's vertex data: for each of the four corners, the position
/// `(x, y, 0)` followed by the texture coordinate, which maps the corner
/// `(±1, ±1)` to `(0|1, 0|1)`.
pub open spec fn spec_quad_vertices() -> Seq<Fixed> {
    seq![
        // (1, 1, 0) with texcoord (1, 1)
        fx(1000), fx(1000), fx(0), fx(1000), fx(1000),
        // (1, -1, 0) with texcoord (1, 0)
        fx(1000), fx(-1000i32), fx(0), fx(1000), fx(0),
        // (-1, -1, 0) with texcoord (0, 0)
        fx(-1000i32), fx(-1000i32), fx(0), fx(0), fx(0),
        // (-1, 1, 0) with texcoord (0, 1)
        fx(-1000i32), fx(1000), fx(0), fx(0), fx(1000),
    ]
}

/// The quad's triangulation: triangles `(0, 1, 3)` and `(1, 2, 3)`.
pub open spec fn spec_quad_indices() -> Seq<u32> {
    seq![0u32, 1u32, 3u32, 1u32, 2u32, 3u32]
}

/// Every index of `indices` names a vertex below `vertex_count`.
pub open spec fn indices_in_range(indices: Seq<u32>, vertex_count: nat) -> bool {
    forall|i: int| 0 <= i < indices.len() ==> (#[trigger] indices[i]) < vertex_count
}

/// Checks that every index of `indices` names a vertex below `vertex_count`.
pub fn check_indices_in_range(indices: &Vec<u32>, vertex_count: usize) -> (r: bool)
    ensures
        r == indices_in_range(indices@, vertex_count as nat),
{
    let mut i: usize = 0;
    while i < indices.len()
        invariant
            i <= indices@.len(),
            forall|j: int| 0 <= j < i ==> (#[trigger] indices@[j]) < vertex_count,
        decreases indices@.len() - i,
    {
        if !((indices[i] as usize) < vertex_count) {
            return false;
        }
        i = i + 1;
    }
    true
}

/// The layout of a quad vertex: position, then texture coordinate, packed.
pub fn quad_vertex_layout() -> (l: VertexLayout)
    ensures
        l.attrs@ =~= spec_quad_attrs(),
        l.wf(),
{
    VertexLayout::new()
        .attr(0, VertexFormat::Float32x3)
        .attr(1, VertexFormat::Float32x2)
}

/// The quad's vertex data as a flat component array.
pub fn quad_vertices() -> (v: Vec<Fixed>)
    ensures
        v@ =~= spec_quad_vertices(),
{
    let mut v: Vec<Fixed> = Vec::new();
    v.push(Fixed::new(1000));
    v.push(Fixed::new(1000));
    v.push(Fixed::new(0));
    v.push(Fixed::new(1000));
    v.push(Fixed::new(1000));
    v.push(Fixed::new(1000));
    v.push(Fixed::new(-1000));
    v.push(Fixed::new(0));
    v.push(Fixed::new(1000));
    v.push(Fixed::new(0));
    v.push(Fixed::new(-1000));
    v.push(Fixed::new(-1000));
    v.push(Fixed::new(0));
    v.push(Fixed::new(0));
    v.push(Fixed::new(0));
    v.push(Fixed::new(-1000));
    v.push(Fixed::new(1000));
    v.push(Fixed::new(0));
    v.push(Fixed::new(0));
    v.push(Fixed::new(1000));
    v
}

/// The quad's index data.
pub fn quad_indices() -> (v: Vec<u32>)
    ensures
        v@ =~= spec_quad_indices(),
{
    let mut v: Vec<u32> = Vec::new();
    v.push(0);
    v.push(1);
    v.push(3);
    v.push(1);
    v.push(2);
    v.push(3);
    v
}

/// The vertex data has the shape the layout declares: five components per
/// vertex (three of position, two of texture coordinate), four vertices,
/// twenty components in all.
pub proof fn lemma_quad_vertex_data_shape()
    ensures
        stride_of(spec_quad_attrs()) == QUAD_VERTEX_COMPONENTS,
        spec_quad_vertices().len() == QUAD_VERTEX_COUNT * QUAD_VERTEX_COMPONENTS,
        spec_quad_vertices().len() as int % stride_of(spec_quad_attrs()) as int == 0,
{
    assert(spec_quad_attrs().take(1).take(0) =~= Seq::<VertexAttr>::empty());
    assert(spec_quad_attrs().take(2).take(1) =~= spec_quad_attrs().take(1));
    assert(spec_quad_attrs().take(2) =~= spec_quad_attrs());
    assert(stride_of(spec_quad_attrs()) == 5) by {
        reveal_with_fuel(stride_of, 4);
    }
}

/// The quad's index data is exactly the two triangles `(0, 1, 3)` and
/// `(1, 2, 3)`; every index is in range for the four vertices; every vertex
/// is referenced; and the two triangles share exactly the edge `{1, 3}`.
pub proof fn lemma_quad_indices_valid()
    ensures
        spec_quad_indices().len() == QUAD_INDEX_COUNT,
        indices_in_range(spec_quad_indices(), QUAD_VERTEX_COUNT as nat),
        spec_quad_indices().take(3) =~= seq![0u32, 1u32, 3u32],
        spec_quad_indices().skip(3) =~= seq![1u32, 2u32, 3u32],
        forall|v: u32| v < 4 ==> #[trigger] spec_quad_indices().contains(v),
        spec_quad_indices().take(3).to_set().intersect(spec_quad_indices().skip(3).to_set())
            =~= set![1u32, 3u32],
{
    let ind = spec_quad_indices();
    assert forall|i: int| 0 <= i < ind.len() implies (#[trigger] ind[i]) < 4 by {
        assert(ind[0] == 0 && ind[1] == 1 && ind[2] == 3 && ind[3] == 1 && ind[4] == 2
            && ind[5] == 3);
    }
    assert forall|v: u32| v < 4 implies #[trigger] ind.contains(v) by {
        if v == 0 {
            assert(ind[0] == v);
        } else if v == 1 {
            assert(ind[1] == v);
        } else if v == 2 {
            assert(ind[4] == v);
        } else {
            assert(ind[2] == v);
        }
    }
    let first = ind.take(3);
    let second = ind.skip(3);
    assert(first =~= seq![0u32, 1u32, 3u32]);
    assert(second =~= seq![1u32, 2u32, 3u32]);
    assert forall|v: u32| first.to_set().intersect(second.to_set()).contains(v) implies
        set![1u32, 3u32].contains(v) by {
        let i = choose|i: int| 0 <= i < first.len() && first[i] == v;
        assert(v == 0 || v == 1 || v == 3);
        if v == 0 {
            assert(forall|j: int| 0 <= j < second.len() ==> (#[trigger] second[j]) != 0u32);
        }
    }
    assert forall|v: u32| set![1u32, 3u32].contains(v) implies
        first.to_set().intersect(second.to_set()).contains(v) by {
        if v == 1 {
            assert(first[1] == v && second[0] == v);
        } else {
            assert(first[2] == v && second[2] == v);
        }
        assert(first.contains(v) && second.contains(v));
    }
}

} // verus!
