use space_shooter::image::{rotate_image_90_ccw, RgbaImage};

fn numbered(width: usize, height: usize) -> RgbaImage {
    let data: Vec<u8> = (0..width * height * 4).map(|i| (i * 7 % 251) as u8).collect();
    RgbaImage::new(width, height, data).unwrap()
}

fn pixel(img: &RgbaImage, x: usize, y: usize) -> Vec<u8> {
    let at = (y * img.width + x) * 4;
    img.data[at..at + 4].to_vec()
}

#[test]
fn rotating_two_by_three_moves_each_pixel() {
    let img = numbered(2, 3);
    let r = rotate_image_90_ccw(&img);
    assert_eq!(r.width, 3);
    assert_eq!(r.height, 2);
    assert_eq!(r.data.len(), 24);
    for y in 0..3 {
        for x in 0..2 {
            assert_eq!(pixel(&img, x, y), pixel(&r, y, 2 - x - 1));
        }
    }
}

#[test]
fn rotating_two_by_one_exact_bytes() {
    let img = RgbaImage::new(2, 1, vec![1, 2, 3, 4, 5, 6, 7, 8]).unwrap();
    let r = rotate_image_90_ccw(&img);
    assert_eq!((r.width, r.height), (1, 2));
    assert_eq!(r.data, vec![5, 6, 7, 8, 1, 2, 3, 4]);
}

#[test]
fn four_rotations_give_back_the_image() {
    for (w, h) in [(1, 1), (2, 3), (5, 4), (7, 1)] {
        let img = numbered(w, h);
        let r = rotate_image_90_ccw(&rotate_image_90_ccw(&rotate_image_90_ccw(
            &rotate_image_90_ccw(&img),
        )));
        assert_eq!((r.width, r.height), (w, h));
        assert_eq!(r.data, img.data);
    }
}

#[test]
fn one_rotation_changes_a_non_square_image() {
    let img = numbered(3, 2);
    let r = rotate_image_90_ccw(&img);
    assert_ne!((r.width, r.height), (img.width, img.height));
    assert_ne!(r.data, img.data);
}

#[test]
fn empty_image_rotates_to_empty() {
    let img = RgbaImage::new(0, 5, vec![]).unwrap();
    let r = rotate_image_90_ccw(&img);
    assert_eq!((r.width, r.height), (5, 0));
    assert!(r.data.is_empty());
}

#[test]
fn buffer_of_wrong_length_is_refused() {
    assert!(RgbaImage::new(2, 2, vec![0; 15]).is_none());
    assert!(RgbaImage::new(2, 2, vec![0; 17]).is_none());
    assert!(RgbaImage::new(usize::MAX, 2, vec![]).is_none());
    assert!(RgbaImage::new(2, 2, vec![0; 16]).is_some());
}
