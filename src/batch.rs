use itertools::Itertools as _;
use vstd::prelude::*;

verus! {

/// An integer offset into a texture, in texels.
#[derive(Clone, Copy, Debug, PartialEq, Eq, Structural)]
pub struct Offset {
    pub x: i32,
    pub y: i32,
}

/// An unsigned extent, in texels.
#[derive(Clone, Copy, Debug, PartialEq, Eq, Structural)]
pub struct Size {
    pub x: u32,
    pub y: u32,
}

/// An 8-bit-per-channel RGBA tint.
#[derive(Clone, Copy, Debug, PartialEq, Eq, Structural)]
pub struct Color {
    pub r: u8,
    pub g: u8,
    pub b: u8,
    pub a: u8,
}

/// A single sprite. `T` is the target transform, which this crate only carries.
#[derive(Clone, Copy, Debug)]
pub struct Sprite<T> {
    /// Identity of the texture to draw with: equal values name the same texture object.
    pub texture: u64,
    /// Source offset from the texture.
    pub src_offset: Offset,
    /// Source size.
    pub src_size: Size,
    /// Source layer.
    pub src_layer: u32,
    /// Target transform.
    pub transform: T,
    /// Tint.
    pub tint: Color,
}

/// A sprite to draw, once its texture is known from the group it sits in.
#[derive(Clone, Copy, Debug)]
pub struct Item<T> {
    /// Source offset from the texture.
    pub src_offset: Offset,
    /// Source size.
    pub src_size: Size,
    /// Source layer.
    pub src_layer: u32,
    /// Target transform.
    pub transform: T,
    /// Tint.
    pub tint: Color,
}

/// A run of sprites drawn from the same texture.
#[derive(Clone, Debug)]
pub struct Group<T> {
    /// Identity of the texture to draw with.
    pub texture: u64,
    /// Items in the group, in draw order.
    pub items: Vec<Item<T>>,
}

/// The item that a sprite becomes inside its group.
pub open spec fn item_of<T>(s: Sprite<T>) -> Item<T> {
    Item {
        src_offset: s.src_offset,
        src_size: s.src_size,
        src_layer: s.src_layer,
        transform: s.transform,
        tint: s.tint,
    }
}

/// The items of all groups, one group after the other.
pub open spec fn flat_items<T>(groups: Seq<Group<T>>) -> Seq<Item<T>>
    decreases groups.len(),
{
    if groups.len() == 0 {
        Seq::empty()
    } else {
        flat_items(groups.drop_last()) + groups.last().items@
    }
}

/// The texture of each item of all groups, one group after the other.
pub open spec fn flat_textures<T>(groups: Seq<Group<T>>) -> Seq<u64>
    decreases groups.len(),
{
    if groups.len() == 0 {
        Seq::empty()
    } else {
        flat_textures(groups.drop_last()) + Seq::new(
            groups.last().items@.len(),
            |_j: int| groups.last().texture,
        )
    }
}

/// The sprite that an item of a group drawn from `texture` stands for.
pub open spec fn sprite_of<T>(texture: u64, item: Item<T>) -> Sprite<T> {
    Sprite {
        texture,
        src_offset: item.src_offset,
        src_size: item.src_size,
        src_layer: item.src_layer,
        transform: item.transform,
        tint: item.tint,
    }
}

/// The sprites of all groups, one group after the other.
pub open spec fn flat_sprites<T>(groups: Seq<Group<T>>) -> Seq<Sprite<T>>
    decreases groups.len(),
{
    if groups.len() == 0 {
        Seq::empty()
    } else {
        flat_sprites(groups.drop_last()) + groups.last().items@.map_values(
            |it: Item<T>| sprite_of(groups.last().texture, it),
        )
    }
}

/// The keys of all runs, one run after the other.
pub open spec fn flat_runs(runs: Seq<Vec<u64>>) -> Seq<u64>
    decreases runs.len(),
{
    if runs.len() == 0 {
        Seq::empty()
    } else {
        flat_runs(runs.drop_last()) + runs.last()@
    }
}

/// `groups` is the partition of `sprites` into maximal runs of one texture.
pub open spec fn is_batching<T>(sprites: Seq<Sprite<T>>, groups: Seq<Group<T>>) -> bool {
    &&& flat_items(groups) == sprites.map_values(|s: Sprite<T>| item_of(s))
    &&& flat_textures(groups) == sprites.map_values(|s: Sprite<T>| s.texture)
    &&& forall|i: int| 0 <= i < groups.len() ==> #[trigger] groups[i].items@.len() > 0
    &&& forall|i: int|
        0 <= i < groups.len() - 1 ==> #[trigger] groups[i].texture != groups[i + 1].texture
}

/// Relies on itertools::Itertools::chunk_by: consecutive keys that compare equal form one
/// chunk, and the chunks come out in the order of the input.
#[verifier::external_body]
fn chunk_runs(keys: &Vec<u64>) -> (runs: Vec<Vec<u64>>)
    ensures
        flat_runs(runs@) == keys@,
        forall|i: int| 0 <= i < runs.len() ==> #[trigger] runs@[i]@.len() > 0,
        forall|i: int, j: int|
            0 <= i < runs.len() && 0 <= j < runs@[i]@.len() ==> #[trigger] runs@[i]@[j]
                == runs@[i]@[0],
        forall|i: int| 0 <= i < runs.len() - 1 ==> #[trigger] runs@[i]@[0] != runs@[i + 1]@[0],
{
    keys.iter().chunk_by(|k| **k).into_iter().map(|(_, run)| run.copied().collect()).collect()
}

/// Adding a run at the end adds its keys at the end.
proof fn lemma_flat_runs_push(runs: Seq<Vec<u64>>, run: Vec<u64>)
    ensures
        flat_runs(runs.push(run)) == flat_runs(runs) + run@,
{
    assert(runs.push(run).drop_last() =~= runs);
}

/// The keys of the first `r` runs are a prefix of the keys of all runs.
proof fn lemma_flat_runs_prefix(runs: Seq<Vec<u64>>, r: int)
    requires
        0 <= r <= runs.len(),
    ensures
        flat_runs(runs.take(r)).len() <= flat_runs(runs).len(),
        flat_runs(runs.take(r)) == flat_runs(runs).take(flat_runs(runs.take(r)).len() as int),
    decreases runs.len() - r,
{
    if r == runs.len() {
        assert(runs.take(r) =~= runs);
        assert(flat_runs(runs).take(flat_runs(runs).len() as int) =~= flat_runs(runs));
    } else {
        lemma_flat_runs_prefix(runs, r + 1);
        assert(runs.take(r + 1) =~= runs.take(r).push(runs[r]));
        lemma_flat_runs_push(runs.take(r), runs[r]);
        let a = flat_runs(runs.take(r));
        let b = flat_runs(runs.take(r + 1));
        assert(b.take(a.len() as int) =~= a);
        assert(flat_runs(runs).take(a.len() as int) =~= b.take(a.len() as int));
    }
}

/// Adding a group at the end adds its items at the end.
proof fn lemma_flat_push<T>(groups: Seq<Group<T>>, g: Group<T>)
    ensures
        flat_items(groups.push(g)) == flat_items(groups) + g.items@,
        flat_textures(groups.push(g)) == flat_textures(groups) + Seq::new(
            g.items@.len(),
            |_j: int| g.texture,
        ),
{
    assert(groups.push(g).drop_last() =~= groups);
}

/// The items of the first `i + 1` groups are those of the first `i`, then those of group `i`.
pub proof fn lemma_flat_items_step<T>(groups: Seq<Group<T>>, i: int)
    requires
        0 <= i < groups.len(),
    ensures
        flat_items(groups.take(i + 1)) == flat_items(groups.take(i)) + groups[i].items@,
{
    assert(groups.take(i + 1).drop_last() =~= groups.take(i));
}

/// The first `i` groups hold no more items than all groups.
pub proof fn lemma_flat_items_prefix_len<T>(groups: Seq<Group<T>>, i: int)
    requires
        0 <= i <= groups.len(),
    ensures
        flat_items(groups.take(i)).len() <= flat_items(groups).len(),
    decreases groups.len() - i,
{
    if i == groups.len() {
        assert(groups.take(i) =~= groups);
    } else {
        lemma_flat_items_step(groups, i);
        lemma_flat_items_prefix_len(groups, i + 1);
    }
}

/// Each sprite of the groups is made of the texture and the item at the same place.
proof fn lemma_flat_sprites_pointwise<T>(groups: Seq<Group<T>>)
    ensures
        flat_sprites(groups).len() == flat_items(groups).len(),
        flat_textures(groups).len() == flat_items(groups).len(),
        forall|k: int|
            0 <= k < flat_items(groups).len() ==> #[trigger] flat_sprites(groups)[k] == sprite_of(
                flat_textures(groups)[k],
                flat_items(groups)[k],
            ),
    decreases groups.len(),
{
    if groups.len() > 0 {
        lemma_flat_sprites_pointwise(groups.drop_last());
    }
}

/// Grouping keeps order: the sprites of the groups, one group after the other, are the
/// sprites that were batched, in the same order.
pub proof fn lemma_batch_keeps_order<T>(sprites: Seq<Sprite<T>>, groups: Seq<Group<T>>)
    requires
        is_batching(sprites, groups),
    ensures
        flat_sprites(groups) == sprites,
{
    lemma_flat_sprites_pointwise(groups);
    assert(flat_sprites(groups) =~= sprites);
}

/// Batches a flat list of [`Sprite`]s into groups with textures: each group is a maximal
/// run of consecutive sprites with the same texture, and the groups keep the sprites' order.
pub fn batch<T: Copy>(sprites: &[Sprite<T>]) -> (groups: Vec<Group<T>>)
    ensures
        is_batching(sprites@, groups@),
{
    let n: usize = sprites.len();
    let mut keys: Vec<u64> = Vec::new();
    let mut i: usize = 0;
    while i < sprites.len()
        invariant
            i <= sprites@.len(),
            keys@ =~= sprites@.take(i as int).map_values(|s: Sprite<T>| s.texture),
        decreases sprites@.len() - i,
    {
        keys.push(sprites[i].texture);
        i += 1;
    }
    assert(sprites@.take(sprites@.len() as int) =~= sprites@);
    let runs = chunk_runs(&keys);
    let ghost all = flat_runs(runs@);
    let mut groups: Vec<Group<T>> = Vec::new();
    let mut pos: usize = 0;
    let mut r: usize = 0;
    while r < runs.len()
        invariant
            all == flat_runs(runs@),
            all == keys@,
            keys@ == sprites@.map_values(|s: Sprite<T>| s.texture),
            r <= runs@.len(),
            pos == flat_runs(runs@.take(r as int)).len(),
            pos <= sprites@.len(),
            groups@.len() == r,
            flat_items(groups@) =~= sprites@.take(pos as int).map_values(
                |s: Sprite<T>| item_of(s),
            ),
            flat_textures(groups@) =~= keys@.take(pos as int),
            forall|k: int|
                0 <= k < r ==> (#[trigger] groups@[k]).texture == runs@[k]@[0]
                    && groups@[k].items@.len() > 0,
            forall|k: int| 0 <= k < runs.len() ==> #[trigger] runs@[k]@.len() > 0,
            forall|k: int|
                0 <= k < runs.len() - 1 ==> #[trigger] runs@[k]@[0] != runs@[k + 1]@[0],
            n == sprites@.len(),
            forall|k: int, j: int|
                0 <= k < runs.len() && 0 <= j < runs@[k]@.len() ==> #[trigger] runs@[k]@[j]
                    == runs@[k]@[0],
        decreases runs@.len() - r,
    {
        let run = &runs[r];
        proof {
            assert(runs@.take(r + 1) =~= runs@.take(r as int).push(runs@[r as int]));
            lemma_flat_runs_push(runs@.take(r as int), runs@[r as int]);
            lemma_flat_runs_prefix(runs@, r + 1);
            lemma_flat_runs_prefix(runs@, r as int);
            assert forall|j: int| 0 <= j < run@.len() implies keys@[pos + j] == run@[j] by {
                let b = flat_runs(runs@.take(r + 1));
                assert(b[pos + j] == run@[j]);
                assert(keys@.take(b.len() as int)[pos + j] == b[pos + j]);
            }
        }
        assert(pos + run@.len() <= n);
        let texture = run[0];
        let mut items: Vec<Item<T>> = Vec::new();
        let mut j: usize = 0;
        while j < run.len()
            invariant
                j <= run@.len(),
                pos + run@.len() <= n,
                n == sprites@.len(),
                items@ =~= sprites@.subrange(pos as int, pos + j).map_values(
                    |s: Sprite<T>| item_of(s),
                ),
            decreases run@.len() - j,
        {
            let s = &sprites[pos + j];
            items.push(
                Item {
                    src_offset: s.src_offset,
                    src_size: s.src_size,
                    src_layer: s.src_layer,
                    transform: s.transform,
                    tint: s.tint,
                },
            );
            j += 1;
        }
        let g = Group { texture, items };
        proof {
            lemma_flat_push(groups@, g);
            assert(sprites@.take(pos + run@.len()).map_values(|s: Sprite<T>| item_of(s))
                =~= sprites@.take(pos as int).map_values(|s: Sprite<T>| item_of(s))
                + sprites@.subrange(pos as int, pos + run@.len()).map_values(
                |s: Sprite<T>| item_of(s),
            ));
            assert(keys@.take(pos + run@.len()) =~= keys@.take(pos as int) + Seq::new(
                run@.len(),
                |_j: int| texture,
            ));
        }
        groups.push(g);
        pos += run.len();
        r += 1;
    }
    proof {
        assert(runs@.take(r as int) =~= runs@);
        assert(pos == n);
        assert(sprites@.take(pos as int) =~= sprites@);
        assert(keys@.take(pos as int) =~= keys@);
        assert forall|k: int| 0 <= k < groups@.len() - 1 implies #[trigger] groups@[k].texture
            != groups@[k + 1].texture by {
            assert(groups@[k].texture == runs@[k]@[0]);
            assert(groups@[k + 1].texture == runs@[k + 1]@[0]);
        }
    }
    groups
}

} // verus!
