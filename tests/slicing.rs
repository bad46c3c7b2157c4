use spright::batch::{Color, Offset, Size, Sprite};
use spright::slice::{TextureInfo, TextureRegion, TextureSlice};

const TEX: TextureInfo = TextureInfo { id: 9, width: 100, height: 50, layers: 2 };

#[test]
fn full_texture_covers_the_layer() {
    let s = TextureSlice::from_full_texture(&TEX, 1).unwrap();
    assert_eq!(
        s.region(),
        TextureRegion { texture: 9, layer: 1, x: 0, y: 0, width: 100, height: 50 }
    );
}

#[test]
fn layer_out_of_range_has_no_slice() {
    assert!(TextureSlice::from_full_texture(&TEX, 2).is_none());
    assert!(TextureSlice::from_full_texture(&TEX, u32::MAX).is_none());
}

#[test]
fn slicing_is_relative_to_the_current_slice() {
    let full = TextureSlice::from_full_texture(&TEX, 0).unwrap();
    let a = full.slice(Offset { x: 10, y: 5 }, Size { x: 50, y: 40 }).unwrap();
    let b = a.slice(Offset { x: 20, y: 30 }, Size { x: 30, y: 10 }).unwrap();
    assert_eq!(
        b.region(),
        TextureRegion { texture: 9, layer: 0, x: 30, y: 35, width: 30, height: 10 }
    );
}

#[test]
fn slicing_outside_fails_without_clamping() {
    let full = TextureSlice::from_full_texture(&TEX, 0).unwrap();
    let a = full.slice(Offset { x: 10, y: 5 }, Size { x: 50, y: 40 }).unwrap();
    assert!(a.slice(Offset { x: -1, y: 0 }, Size { x: 1, y: 1 }).is_none());
    assert!(a.slice(Offset { x: 0, y: -1 }, Size { x: 1, y: 1 }).is_none());
    assert!(a.slice(Offset { x: 21, y: 0 }, Size { x: 30, y: 1 }).is_none());
    assert!(a.slice(Offset { x: 0, y: 1 }, Size { x: 1, y: 40 }).is_none());
    assert!(a.slice(Offset { x: 0, y: 0 }, Size { x: u32::MAX, y: 1 }).is_none());
    assert!(a.slice(Offset { x: 50, y: 40 }, Size { x: 0, y: 0 }).is_some());
}

#[test]
fn sprite_from_slice_takes_its_rectangle() {
    let full = TextureSlice::from_full_texture(&TEX, 1).unwrap();
    let part = full.slice(Offset { x: 4, y: 8 }, Size { x: 16, y: 32 }).unwrap();
    let tint = Color { r: 9, g: 8, b: 7, a: 6 };
    let s: Sprite<u8> = Sprite::from_slice(&part, 42, tint).unwrap();
    assert_eq!(s.texture, 9);
    assert_eq!(s.src_offset, Offset { x: 4, y: 8 });
    assert_eq!(s.src_size, Size { x: 16, y: 32 });
    assert_eq!(s.src_layer, 1);
    assert_eq!(s.transform, 42);
    assert_eq!(s.tint, tint);
}

#[test]
fn sprite_from_slice_beyond_signed_offsets_fails() {
    let wide = TextureInfo { id: 1, width: u32::MAX, height: 1, layers: 1 };
    let full = TextureSlice::from_full_texture(&wide, 0).unwrap();
    let far = full.slice(Offset { x: i32::MAX, y: 0 }, Size { x: 1, y: 1 }).unwrap();
    let tail = far.slice(Offset { x: 1, y: 0 }, Size { x: 0, y: 1 }).unwrap();
    assert_eq!(tail.region().x, 1u32 << 31);
    assert!(Sprite::from_slice(&tail, (), Color { r: 0, g: 0, b: 0, a: 0 }).is_none());
    assert!(Sprite::from_slice(&far, (), Color { r: 0, g: 0, b: 0, a: 0 }).is_some());
}
