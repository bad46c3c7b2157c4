use vstd::arithmetic::div_mod::{lemma_fundamental_div_mod, lemma_mod_multiples_basic};
use vstd::prelude::*;

use crate::batch::{flat_items, lemma_flat_items_prefix_len, lemma_flat_items_step, Color, Group, Item};

verus! {

/// One corner of a sprite's quad, before its transform is applied.
#[derive(Clone, Copy, Debug)]
pub struct QuadVertex<T> {
    /// Horizontal position of the corner in the sprite's own space: `0` or the source width.
    pub local_x: u32,
    /// Vertical position of the corner in the sprite's own space: `0` or the source height.
    pub local_y: u32,
    /// Horizontal texel coordinate of the corner.
    pub tex_x: i64,
    /// Vertical texel coordinate of the corner.
    pub tex_y: i64,
    /// Texture array layer.
    pub layer: u32,
    /// Tint.
    pub tint: Color,
    /// Transform from the sprite's own space to target space.
    pub transform: T,
}

/// Where one group's draw call and texture uniform lie.
#[derive(Clone, Copy, Debug, PartialEq, Eq, Structural)]
pub struct GroupRange {
    /// Identity of the group's texture.
    pub texture: u64,
    /// Byte offset of the group's record in the texture uniform block.
    pub uniform_offset: u64,
    /// First index of the group's draw call.
    pub index_start: u32,
    /// One past the last index of the group's draw call.
    pub index_end: u32,
}

/// Everything the GPU buffers of one frame are filled from.
#[derive(Clone, Debug)]
pub struct FrameLayout<T> {
    /// One entry per group, in draw order.
    pub groups: Vec<GroupRange>,
    /// Four corners per item, in draw order.
    pub vertices: Vec<QuadVertex<T>>,
    /// Six indices per item: two triangles over its four corners.
    pub indices: Vec<u32>,
}

/// Smallest multiple of `alignment` that is at least `record_size`.
pub open spec fn aligned_stride_spec(record_size: nat, alignment: nat) -> nat
    recommends
        alignment > 0,
{
    ((record_size + alignment - 1) as nat / alignment) * alignment
}

/// Corner `c` (0 to 3) of an item: top-left, bottom-left, top-right, bottom-right.
pub open spec fn quad_vertex<T>(item: Item<T>, c: int) -> QuadVertex<T> {
    let right = c == 2 || c == 3;
    let bottom = c == 1 || c == 3;
    let local_x: u32 = if right { item.src_size.x } else { 0 };
    let local_y: u32 = if bottom { item.src_size.y } else { 0 };
    QuadVertex {
        local_x,
        local_y,
        tex_x: (item.src_offset.x + local_x) as i64,
        tex_y: (item.src_offset.y + local_y) as i64,
        layer: item.src_layer,
        tint: item.tint,
        transform: item.transform,
    }
}

/// Index at position `p` of the index list: item `p / 6` draws the triangles
/// (0, 1, 2) and (1, 2, 3) over its own four corners.
pub open spec fn quad_index(p: int) -> int {
    let corner: int = if p % 6 == 0 {
        0
    } else if p % 6 == 1 || p % 6 == 3 {
        1
    } else if p % 6 == 2 || p % 6 == 4 {
        2
    } else {
        3
    };
    4 * (p / 6) + corner
}

/// `vertices` holds the four corners of each of `items`, in order.
pub open spec fn vertices_of<T>(items: Seq<Item<T>>, vertices: Seq<QuadVertex<T>>) -> bool {
    &&& vertices.len() == 4 * items.len()
    &&& forall|v: int|
        0 <= v < vertices.len() ==> #[trigger] vertices[v] == quad_vertex(items[v / 4], v % 4)
}

/// `indices` holds the six indices of each of `count` items, in order.
pub open spec fn indices_for(count: nat, indices: Seq<u32>) -> bool {
    &&& indices.len() == 6 * count
    &&& forall|p: int| 0 <= p < indices.len() ==> #[trigger] indices[p] as int == quad_index(p)
}

/// Number of items in the groups before group `i`.
pub open spec fn items_before<T>(groups: Seq<Group<T>>, i: int) -> nat {
    flat_items(groups.take(i)).len()
}

/// Computes the distance between consecutive records of the texture uniform block.
pub fn aligned_stride(record_size: u32, alignment: u32) -> (stride: u64)
    requires
        alignment > 0,
    ensures
        stride == aligned_stride_spec(record_size as nat, alignment as nat),
{
    let a = alignment as u64;
    let q = (record_size as u64 + a - 1) / a;
    proof {
        let n = record_size + a - 1;
        assert((n / a as int) * a <= n) by (nonlinear_arith)
            requires
                a >= 1,
                n >= 0,
        ;
    }
    q * a
}

/// For any alignment and any number of groups, each group's uniform offset `i * stride` is
/// a multiple of the alignment, and consecutive offsets lie at least one record apart.
pub proof fn lemma_uniform_offsets_aligned(record_size: nat, alignment: nat, count: nat)
    requires
        alignment > 0,
    ensures
        forall|i: int|
            0 <= i < count ==> #[trigger] (i * aligned_stride_spec(record_size, alignment))
                % alignment as int == 0,
        forall|i: int|
            0 <= i < count - 1 ==> (i + 1) * aligned_stride_spec(record_size, alignment) - #[trigger] (
            i * aligned_stride_spec(record_size, alignment)) >= record_size,
{
    let a = alignment as int;
    let n = record_size + a - 1;
    let q = n / a;
    let stride = aligned_stride_spec(record_size, alignment);
    lemma_fundamental_div_mod(n, a);
    assert(stride == q * a);
    assert(stride >= record_size);
    assert forall|i: int| 0 <= i < count implies #[trigger] (i * stride) % a == 0 by {
        assert(i * stride == (i * q) * a) by (nonlinear_arith)
            requires
                stride == q * a,
        ;
        lemma_mod_multiples_basic(i * q, a);
    }
    assert forall|i: int| 0 <= i < count - 1 implies (i + 1) * stride - #[trigger] (i * stride)
        >= record_size by {
        assert((i + 1) * stride - i * stride == stride) by (nonlinear_arith);
    }
}

/// Appends the four corners and six indices of `item` after those of `items`.
fn push_quad<T: Copy>(
    vertices: &mut Vec<QuadVertex<T>>,
    indices: &mut Vec<u32>,
    item: &Item<T>,
    Ghost(items): Ghost<Seq<Item<T>>>,
)
    requires
        vertices_of(items, old(vertices)@),
        indices_for(items.len(), old(indices)@),
        4 * items.len() + 3 <= u32::MAX,
    ensures
        vertices_of(items.push(*item), final(vertices)@),
        indices_for(items.len() + 1, final(indices)@),
{
    let base = vertices.len() as u32;
    let left = item.src_offset.x as i64;
    let top = item.src_offset.y as i64;
    let right = left + item.src_size.x as i64;
    let bottom = top + item.src_size.y as i64;
    let w = item.src_size.x;
    let h = item.src_size.y;
    let layer = item.src_layer;
    let tint = item.tint;
    let transform = item.transform;
    vertices.push(QuadVertex { local_x: 0, local_y: 0, tex_x: left, tex_y: top, layer, tint, transform });
    vertices.push(QuadVertex { local_x: 0, local_y: h, tex_x: left, tex_y: bottom, layer, tint, transform });
    vertices.push(QuadVertex { local_x: w, local_y: 0, tex_x: right, tex_y: top, layer, tint, transform });
    vertices.push(QuadVertex { local_x: w, local_y: h, tex_x: right, tex_y: bottom, layer, tint, transform });
    indices.push(base);
    indices.push(base + 1);
    indices.push(base + 2);
    indices.push(base + 1);
    indices.push(base + 2);
    indices.push(base + 3);
    proof {
        let m = items.len() as int;
        let all = items.push(*item);
        assert forall|v: int| 0 <= v < 4 * (m + 1) implies #[trigger] vertices@[v]
            == quad_vertex(all[v / 4], v % 4) by {
            if v < 4 * m {
                assert(old(vertices)@[v] == quad_vertex(items[v / 4], v % 4));
                assert(all[v / 4] == items[v / 4]);
            } else {
                assert(v / 4 == m);
            }
        }
        assert forall|p: int| 0 <= p < 6 * (m + 1) implies #[trigger] indices@[p] as int
            == quad_index(p) by {
            if p < 6 * m {
                assert(old(indices)@[p] as int == quad_index(p));
            } else {
                assert(p / 6 == m);
            }
        }
    }
}

/// Lays out the vertices, indices and per-group ranges of a frame: four corners and six
/// indices per item, in draw order, and for group `i` the index range of its items and the
/// offset `i * stride` of its record in the texture uniform block.
pub fn layout_frame<T: Copy>(groups: &[Group<T>], record_size: u32, alignment: u32) -> (frame:
    FrameLayout<T>)
    requires
        alignment > 0,
        6 * flat_items(groups@).len() <= u32::MAX,
        groups@.len() * aligned_stride_spec(record_size as nat, alignment as nat) <= u64::MAX,
    ensures
        frame.vertices@.len() == 4 * flat_items(groups@).len(),
        frame.indices@.len() == 6 * flat_items(groups@).len(),
        vertices_of(flat_items(groups@), frame.vertices@),
        indices_for(flat_items(groups@).len(), frame.indices@),
        frame.groups@.len() == groups@.len(),
        forall|i: int|
            0 <= i < groups@.len() ==> {
                &&& (#[trigger] frame.groups@[i]).texture == groups@[i].texture
                &&& frame.groups@[i].uniform_offset == i * aligned_stride_spec(
                    record_size as nat,
                    alignment as nat,
                )
                &&& frame.groups@[i].index_start == 6 * items_before(groups@, i)
                &&& frame.groups@[i].index_end == 6 * items_before(groups@, i + 1)
                &&& frame.groups@[i].index_end - frame.groups@[i].index_start == 6
                    * groups@[i].items@.len()
            },
{
    let stride = aligned_stride(record_size, alignment);
    let ghost n = flat_items(groups@).len();
    let mut ranges: Vec<GroupRange> = Vec::new();
    let mut vertices: Vec<QuadVertex<T>> = Vec::new();
    let mut indices: Vec<u32> = Vec::new();
    let mut i: usize = 0;
    proof {
        assert(groups@.take(0) =~= Seq::<Group<T>>::empty());
    }
    while i < groups.len()
        invariant
            i <= groups@.len(),
            n == flat_items(groups@).len(),
            6 * n <= u32::MAX,
            stride == aligned_stride_spec(record_size as nat, alignment as nat),
            groups@.len() * stride <= u64::MAX,
            vertices_of(flat_items(groups@.take(i as int)), vertices@),
            indices_for(items_before(groups@, i as int), indices@),
            ranges@.len() == i,
            forall|k: int|
                0 <= k < i ==> {
                    &&& (#[trigger] ranges@[k]).texture == groups@[k].texture
                    &&& ranges@[k].uniform_offset == k * stride
                    &&& ranges@[k].index_start == 6 * items_before(groups@, k)
                    &&& ranges@[k].index_end == 6 * items_before(groups@, k + 1)
                    &&& ranges@[k].index_end - ranges@[k].index_start == 6
                        * groups@[k].items@.len()
                },
        decreases groups@.len() - i,
    {
        let group = &groups[i];
        let ghost prefix = flat_items(groups@.take(i as int));
        proof {
            lemma_flat_items_step(groups@, i as int);
            lemma_flat_items_prefix_len(groups@, i + 1);
        }
        let start = indices.len() as u32;
        let mut j: usize = 0;
        while j < group.items.len()
            invariant
                j <= group.items@.len(),
                prefix.len() + group.items@.len() <= n,
                6 * n <= u32::MAX,
                vertices_of(prefix + group.items@.take(j as int), vertices@),
                indices_for((prefix.len() + j) as nat, indices@),
            decreases group.items@.len() - j,
        {
            proof {
                assert((prefix + group.items@.take(j as int)).push(group.items@[j as int])
                    =~= prefix + group.items@.take(j + 1));
            }
            push_quad(
                &mut vertices,
                &mut indices,
                &group.items[j],
                Ghost(prefix + group.items@.take(j as int)),
            );
            j += 1;
        }
        proof {
            assert(group.items@.take(j as int) =~= group.items@);
        }
        let end = indices.len() as u32;
        proof {
            assert(i * stride <= groups@.len() * stride) by (nonlinear_arith)
                requires
                    i < groups@.len(),
            ;
        }
        let offset = i as u64 * stride;
        ranges.push(GroupRange { texture: group.texture, uniform_offset: offset, index_start: start, index_end: end });
        i += 1;
    }
    proof {
        assert(groups@.take(i as int) =~= groups@);
    }
    FrameLayout { groups: ranges, vertices, indices }
}

} // verus!
