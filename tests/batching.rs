use spright::batch::{batch, Color, Group, Offset, Size, Sprite};

fn sprite(texture: u64, transform: u32) -> Sprite<u32> {
    Sprite {
        texture,
        src_offset: Offset { x: 3, y: -4 },
        src_size: Size { x: 16, y: 8 },
        src_layer: 2,
        transform,
        tint: Color { r: 1, g: 2, b: 3, a: 4 },
    }
}

fn sizes(groups: &[Group<u32>]) -> Vec<usize> {
    groups.iter().map(|g| g.items.len()).collect()
}

#[test]
fn non_contiguous_texture_gets_two_groups() {
    let sprites = vec![sprite(1, 10), sprite(1, 11), sprite(2, 12), sprite(1, 13)];
    let groups = batch(&sprites);
    assert_eq!(sizes(&groups), vec![2, 1, 1]);
    let textures: Vec<u64> = groups.iter().map(|g| g.texture).collect();
    assert_eq!(textures, vec![1, 2, 1]);
}

#[test]
fn empty_sprite_list_gives_no_groups() {
    let sprites: Vec<Sprite<u32>> = vec![];
    assert!(batch(&sprites).is_empty());
}

#[test]
fn single_sprite_gives_one_group() {
    let groups = batch(&[sprite(7, 0)]);
    assert_eq!(groups.len(), 1);
    assert_eq!(groups[0].texture, 7);
    assert_eq!(groups[0].items.len(), 1);
}

#[test]
fn same_texture_throughout_gives_one_group() {
    let sprites: Vec<Sprite<u32>> = (0..5).map(|t| sprite(3, t)).collect();
    let groups = batch(&sprites);
    assert_eq!(sizes(&groups), vec![5]);
}

#[test]
fn interleaved_textures_are_not_merged() {
    let sprites = vec![sprite(1, 0), sprite(2, 1), sprite(1, 2), sprite(2, 3)];
    let groups = batch(&sprites);
    assert_eq!(sizes(&groups), vec![1, 1, 1, 1]);
    for pair in groups.windows(2) {
        assert_ne!(pair[0].texture, pair[1].texture);
    }
}

#[test]
fn concatenated_groups_reproduce_the_sprites() {
    let textures = [4u64, 4, 9, 9, 9, 4, 5, 5];
    let sprites: Vec<Sprite<u32>> =
        textures.iter().enumerate().map(|(i, &t)| sprite(t, i as u32)).collect();
    let groups = batch(&sprites);
    let mut flat = vec![];
    for g in &groups {
        for item in &g.items {
            flat.push((g.texture, item.transform, item.src_offset, item.src_size, item.src_layer, item.tint));
        }
    }
    let expected: Vec<_> = sprites
        .iter()
        .map(|s| (s.texture, s.transform, s.src_offset, s.src_size, s.src_layer, s.tint))
        .collect();
    assert_eq!(flat, expected);
    assert_eq!(sizes(&groups), vec![2, 3, 1, 2]);
}
