//! Vertex attribute layouts.
//!
//! A layout lists, in location order, the scalar format of each per-vertex
//! attribute. Attributes are packed: the offset of an attribute is the sum
//! of the component counts of the attributes before it, and the stride of a
//! vertex is the sum over all of them. Offsets and strides are measured in
//! 32-bit components; a component is four bytes.

use vstd::prelude::*;

verus! {

/// The most attributes a layout may declare; graphics backends cap the
/// number of vertex attribute slots well below this.
pub const MAX_ATTRIBUTES: usize = 16;

/// Number of bytes in one 32-bit component.
pub const BYTES_PER_COMPONENT: usize = 4;

/// The scalar format of one vertex attribute.
#[derive(Clone, Copy, Debug, PartialEq, Eq, Structural)]
pub enum VertexFormat {
    /// Three 32-bit floats, e.g. a position.
    Float32x3,
    /// Two 32-bit floats, e.g. a texture coordinate.
    Float32x2,
}

/// How many 32-bit components a format occupies.
pub open spec fn format_components(f: VertexFormat) -> nat {
    match f {
        VertexFormat::Float32x3 => 3,
        VertexFormat::Float32x2 => 2,
    }
}

impl VertexFormat {
    /// How many 32-bit components this format occupies.
    pub fn components(self) -> (n: usize)
        ensures
            n == format_components(self),
    {
        match self {
            VertexFormat::Float32x3 => 3,
            VertexFormat::Float32x2 => 2,
        }
    }
}

/// One declared vertex attribute: its shader location and scalar format.
#[derive(Clone, Copy, Debug, PartialEq, Eq, Structural)]
pub struct VertexAttr {
    /// The shader input location the attribute binds to.
    pub location: u32,
    /// The scalar format of the attribute.
    pub format: VertexFormat,
}

/// Total component count of the attributes in `attrs`.
pub open spec fn stride_of(attrs: Seq<VertexAttr>) -> nat
    decreases attrs.len(),
{
    if attrs.len() == 0 {
        0
    } else {
        stride_of(attrs.take(attrs.len() - 1)) + format_components(attrs.last().format)
    }
}

/// The stride never exceeds the widest format times the attribute count.
pub proof fn lemma_stride_bound(attrs: Seq<VertexAttr>)
    ensures
        stride_of(attrs) <= 3 * attrs.len(),
    decreases attrs.len(),
{
    if attrs.len() > 0 {
        lemma_stride_bound(attrs.take(attrs.len() - 1));
    }
}

/// The scalar formats of `attrs`, in order.
pub open spec fn formats_of(attrs: Seq<VertexAttr>) -> Seq<VertexFormat> {
    attrs.map_values(|a: VertexAttr| a.format)
}

/// A packed vertex attribute layout: attributes in location order.
#[derive(Clone, Debug, PartialEq, Eq)]
pub struct VertexLayout {
    /// The declared attributes, in order of insertion.
    pub attrs: Vec<VertexAttr>,
}

impl VertexLayout {
    /// A layout is well formed when it stays under the backend's
    /// attribute-slot cap.
    pub open spec fn wf(self) -> bool {
        self.attrs@.len() <= MAX_ATTRIBUTES
    }

    /// An empty layout, to be extended with [`VertexLayout::attr`].
    pub fn new() -> (l: VertexLayout)
        ensures
            l.attrs@ =~= Seq::<VertexAttr>::empty(),
            l.wf(),
    {
        VertexLayout { attrs: Vec::new() }
    }

    /// Declares the next attribute: `location` holds values of format
    /// `format`, packed right after the attributes declared so far.
    pub fn attr(self, location: u32, format: VertexFormat) -> (l: VertexLayout)
        requires
            self.attrs@.len() < MAX_ATTRIBUTES,
        ensures
            l.attrs@ == self.attrs@.push(VertexAttr { location, format }),
            l.wf(),
    {
        let mut attrs = self.attrs;
        attrs.push(VertexAttr { location, format });
        VertexLayout { attrs }
    }

    /// The number of 32-bit components one vertex occupies.
    pub fn stride_components(&self) -> (n: usize)
        requires
            self.wf(),
        ensures
            n == stride_of(self.attrs@),
    {
        proof {
            lemma_stride_bound(self.attrs@);
        }
        let mut n: usize = 0;
        let mut i: usize = 0;
        while i < self.attrs.len()
            invariant
                i <= self.attrs@.len(),
                self.attrs@.len() <= MAX_ATTRIBUTES,
                n == stride_of(self.attrs@.take(i as int)),
                n <= 3 * i,
            decreases self.attrs@.len() - i,
        {
            proof {
                lemma_stride_bound(self.attrs@.take(i as int));
                assert(self.attrs@.take(i + 1).take(i as int) =~= self.attrs@.take(i as int));
                assert(self.attrs@.take(i + 1).last() == self.attrs@[i as int]);
            }
            n = n + self.attrs[i].format.components();
            i = i + 1;
        }
        proof {
            assert(self.attrs@.take(self.attrs@.len() as int) =~= self.attrs@);
        }
        n
    }

    /// The number of bytes one vertex occupies.
    pub fn stride_bytes(&self) -> (n: usize)
        requires
            self.wf(),
        ensures
            n == stride_of(self.attrs@) * BYTES_PER_COMPONENT,
    {
        proof {
            lemma_stride_bound(self.attrs@);
        }
        self.stride_components() * BYTES_PER_COMPONENT
    }

    /// The component offset of attribute `i`: the total width of the
    /// attributes packed before it.
    pub fn offset_components(&self, i: usize) -> (n: usize)
        requires
            self.wf(),
            i < self.attrs@.len(),
        ensures
            n == stride_of(self.attrs@.take(i as int)),
    {
        proof {
            lemma_stride_bound(self.attrs@);
        }
        let mut n: usize = 0;
        let mut j: usize = 0;
        while j < i
            invariant
                j <= i,
                i < self.attrs@.len(),
                self.attrs@.len() <= MAX_ATTRIBUTES,
                n == stride_of(self.attrs@.take(j as int)),
                n <= 3 * j,
            decreases i - j,
        {
            proof {
                lemma_stride_bound(self.attrs@.take(j as int));
                assert(self.attrs@.take(j + 1).take(j as int) =~= self.attrs@.take(j as int));
                assert(self.attrs@.take(j + 1).last() == self.attrs@[j as int]);
            }
            n = n + self.attrs[j].format.components();
            j = j + 1;
        }
        n
    }
}

} // verus!
