use spright::buffer::{BufferWrite, DynamicBuffer};

#[test]
fn write_that_fits_is_in_place() {
    let mut b = DynamicBuffer::new(1024);
    assert_eq!(b.write(1024), BufferWrite::InPlace);
    assert_eq!(b.write(0), BufferWrite::InPlace);
    assert_eq!(b.capacity(), 1024);
}

#[test]
fn write_that_does_not_fit_reallocates_exactly() {
    let mut b = DynamicBuffer::new(16);
    assert_eq!(b.write(17), BufferWrite::Reallocate { size: 17 });
    assert_eq!(b.capacity(), 17);
}

#[test]
fn capacity_never_decreases_and_covers_every_write() {
    let mut b = DynamicBuffer::new(8);
    let sizes = [4u64, 40, 12, 40, 41, 0, 100, 99];
    let mut last = b.capacity();
    for &s in &sizes {
        let action = b.write(s);
        if s > last {
            assert_eq!(action, BufferWrite::Reallocate { size: s });
        } else {
            assert_eq!(action, BufferWrite::InPlace);
        }
        assert!(b.capacity() >= last);
        assert!(b.capacity() >= s);
        last = b.capacity();
    }
    assert_eq!(b.capacity(), 100);
}
