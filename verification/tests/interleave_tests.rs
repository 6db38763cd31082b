use combiner::interleave::{alternate_pixels, set_rgba};

#[test]
fn set_rgba_copies_the_inclusive_range() {
    let v: Vec<u8> = vec![10, 11, 12, 13, 14, 15, 16, 17];
    assert_eq!(set_rgba(&v, 2, 5), vec![12, 13, 14, 15]);
    assert_eq!(set_rgba(&v, 0, 0), vec![10]);
    assert_eq!(set_rgba(&v, 4, 7), vec![14, 15, 16, 17]);
}

#[test]
fn alternate_pixels_takes_groups_alternately() {
    let a: Vec<u8> = vec![1, 2, 3, 4, 5, 6, 7, 8, 9, 10, 11, 12, 13, 14, 15, 16];
    let b: Vec<u8> = vec![101, 102, 103, 104, 105, 106, 107, 108, 109, 110, 111, 112, 113, 114, 115, 116];
    let combined = alternate_pixels(a.clone(), b.clone());
    assert_eq!(combined.len(), a.len());
    // Pixel groups 0 and 2 from the first buffer, 1 and 3 from the second.
    assert_eq!(
        combined,
        vec![1, 2, 3, 4, 105, 106, 107, 108, 9, 10, 11, 12, 113, 114, 115, 116]
    );
}

#[test]
fn alternate_pixels_on_empty_buffers() {
    let combined = alternate_pixels(Vec::new(), Vec::new());
    assert!(combined.is_empty());
}

#[test]
fn alternate_pixels_single_pixel_comes_from_first() {
    let a: Vec<u8> = vec![1, 2, 3, 4];
    let b: Vec<u8> = vec![9, 9, 9, 9];
    assert_eq!(alternate_pixels(a.clone(), b), a);
}

#[test]
fn alternate_pixels_is_not_commutative() {
    let a: Vec<u8> = vec![1, 2, 3, 4, 5, 6, 7, 8];
    let b: Vec<u8> = vec![1, 2, 3, 4, 50, 60, 70, 80];
    let ab = alternate_pixels(a.clone(), b.clone());
    let ba = alternate_pixels(b, a);
    assert_ne!(ab, ba);
    assert_eq!(ab, vec![1, 2, 3, 4, 50, 60, 70, 80]);
    assert_eq!(ba, vec![1, 2, 3, 4, 5, 6, 7, 8]);
}
