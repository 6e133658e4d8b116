use bl_wgpu_util::image::{extension_of, Image, ImageLoadError};

fn numbered(width: u32, height: u32) -> Image {
    let data: Vec<u8> = (0..(width * height * 4)).map(|i| i as u8).collect();
    Image { width, height, data }
}

fn png_bytes(width: u32, height: u32, pixels: Vec<u8>) -> Vec<u8> {
    let img = image::RgbaImage::from_raw(width, height, pixels).unwrap();
    let mut out = std::io::Cursor::new(Vec::new());
    image::DynamicImage::ImageRgba8(img).write_to(&mut out, image::ImageFormat::Png).unwrap();
    out.into_inner()
}

#[test]
fn new_image_is_zeroed() {
    let img = Image::new(2, 3);
    assert_eq!(img.width, 2);
    assert_eq!(img.height, 3);
    assert_eq!(img.data, vec![0u8; 24]);
}

#[test]
fn new_empty_image() {
    let img = Image::new(0, 5);
    assert_eq!(img.width, 0);
    assert_eq!(img.height, 5);
    assert!(img.data.is_empty());
}

#[test]
fn extract_sub_image_copies_rectangle() {
    let img = numbered(3, 2);
    let sub = img.extract_sub_image(1, 0, 2, 2);
    assert_eq!(sub.width, 2);
    assert_eq!(sub.height, 2);
    let expected: Vec<u8> = (4..12).chain(16..24).collect();
    assert_eq!(sub.data, expected);
}

#[test]
fn extract_whole_image_is_a_copy() {
    let img = numbered(3, 2);
    let sub = img.extract_sub_image(0, 0, 3, 2);
    assert_eq!(sub.data, img.data);
}

#[test]
fn extract_empty_sub_image() {
    let img = numbered(3, 2);
    let sub = img.extract_sub_image(3, 2, 0, 0);
    assert_eq!(sub.width, 0);
    assert!(sub.data.is_empty());
}

#[test]
fn blit_places_image_and_keeps_the_rest() {
    let src = Image { width: 1, height: 1, data: vec![1, 2, 3, 4] };
    let mut target = Image::new(2, 2);
    src.blit(&mut target, 1, 1);
    let mut expected = vec![0u8; 16];
    expected[12..16].copy_from_slice(&[1, 2, 3, 4]);
    assert_eq!(target.data, expected);
    assert_eq!(target.width, 2);
    assert_eq!(target.height, 2);
}

#[test]
fn blit_sub_image_copies_rows() {
    let src = numbered(3, 2);
    let mut target = Image::new(4, 3);
    src.blit_sub_image(1, 0, 2, 2, &mut target, 2, 1);
    let mut expected = vec![0u8; 48];
    expected[24..32].copy_from_slice(&[4, 5, 6, 7, 8, 9, 10, 11]);
    expected[40..48].copy_from_slice(&[16, 17, 18, 19, 20, 21, 22, 23]);
    assert_eq!(target.data, expected);
}

#[test]
fn extract_then_blit_back_restores() {
    let img = numbered(3, 3);
    let sub = img.extract_sub_image(1, 1, 2, 2);
    let mut copy = img.clone();
    for b in copy.data.iter_mut() {
        *b = 0;
    }
    let mut restored = img.clone();
    sub.blit(&mut restored, 1, 1);
    assert_eq!(restored.data, img.data);
    sub.blit(&mut copy, 1, 1);
    assert_eq!(copy.extract_sub_image(1, 1, 2, 2).data, sub.data);
}

#[test]
fn load_from_bytes_decodes_png() {
    let pixels = vec![255, 0, 0, 255, 0, 255, 0, 128];
    let bytes = png_bytes(2, 1, pixels.clone());
    let img = match Image::load_from_bytes(&bytes) {
        Ok(img) => img,
        Err(_) => panic!("the PNG should decode"),
    };
    assert_eq!(img.width, 2);
    assert_eq!(img.height, 1);
    assert_eq!(img.data, pixels);
    assert_eq!(img.data.len(), 8);
}

#[test]
fn load_from_bytes_rejects_garbage() {
    let r = Image::load_from_bytes(&[1, 2, 3, 4, 5]);
    assert!(matches!(r, Err(ImageLoadError::Decode(_))));
}

#[test]
fn from_decoded_keeps_the_pixels() {
    let r = Image::from_decoded(Ok((1, 2, vec![9, 8, 7, 6, 5, 4, 3, 2])));
    let img = match r {
        Ok(img) => img,
        Err(_) => panic!("an Ok result gives an image"),
    };
    assert_eq!((img.width, img.height), (1, 2));
    assert_eq!(img.data, vec![9, 8, 7, 6, 5, 4, 3, 2]);
}

#[test]
fn extract_of_extract_is_one_extract() {
    let img = numbered(4, 4);
    let outer = img.extract_sub_image(1, 1, 3, 3);
    let inner = outer.extract_sub_image(1, 0, 2, 2);
    let direct = img.extract_sub_image(2, 1, 2, 2);
    assert_eq!(inner.data, direct.data);
}

#[test]
fn blit_sub_image_equals_extract_then_blit() {
    let src = numbered(3, 3);
    let mut a = Image::new(4, 4);
    let mut b = Image::new(4, 4);
    src.blit_sub_image(1, 1, 2, 2, &mut a, 0, 2);
    src.extract_sub_image(1, 1, 2, 2).blit(&mut b, 0, 2);
    assert_eq!(a.data, b.data);
}

#[test]
fn blit_to_self_copies_the_whole_rectangle_with_overlap() {
    let mut img = Image { width: 3, height: 1, data: vec![1, 1, 1, 1, 2, 2, 2, 2, 3, 3, 3, 3] };
    img.blit_to_self(0, 0, 2, 1, 1, 0);
    assert_eq!(img.data, vec![1, 1, 1, 1, 1, 1, 1, 1, 2, 2, 2, 2]);
    assert_eq!((img.width, img.height), (3, 1));
}

#[test]
fn blit_to_self_overlapping_leftwards() {
    let mut img = Image { width: 3, height: 1, data: vec![1, 1, 1, 1, 2, 2, 2, 2, 3, 3, 3, 3] };
    img.blit_to_self(1, 0, 2, 1, 0, 0);
    assert_eq!(img.data, vec![2, 2, 2, 2, 3, 3, 3, 3, 3, 3, 3, 3]);
}

#[test]
fn blit_to_self_equals_copy_from_a_snapshot() {
    for (sx, sy, dx, dy) in [(0u32, 0u32, 1u32, 1u32), (1, 1, 0, 0), (0, 1, 2, 1), (2, 2, 0, 1), (1, 0, 1, 2)] {
        let mut img = numbered(4, 4);
        let snapshot = img.clone();
        img.blit_to_self(sx, sy, 2, 2, dx, dy);
        let mut expected = snapshot.clone();
        snapshot.blit_sub_image(sx, sy, 2, 2, &mut expected, dx, dy);
        assert_eq!(img.data, expected.data);
    }
}

#[test]
fn blit_to_self_empty_rectangle_changes_nothing() {
    let mut img = numbered(3, 2);
    let before = img.data.clone();
    img.blit_to_self(3, 0, 0, 2, 0, 0);
    img.blit_to_self(0, 0, 2, 0, 1, 2);
    assert_eq!(img.data, before);
}

#[test]
fn extract_after_blit_gives_the_source_back() {
    let src = numbered(2, 3);
    let mut target = Image { width: 5, height: 4, data: vec![200u8; 80] };
    src.blit(&mut target, 3, 1);
    assert_eq!(target.extract_sub_image(3, 1, 2, 3).data, src.data);
    for y in 0..4u32 {
        for x in 0..5u32 {
            if !(3..5).contains(&x) || !(1..4).contains(&y) {
                let p = ((y * 5 + x) * 4) as usize;
                assert_eq!(&target.data[p..p + 4], &[200u8; 4]);
            }
        }
    }
}

#[test]
fn load_from_encoded_uses_the_extension() {
    let pixels = vec![1, 2, 3, 255, 4, 5, 6, 255, 7, 8, 9, 255, 10, 11, 12, 13];
    let bytes = png_bytes(2, 2, pixels.clone());
    let img = match Image::load_from_encoded(&bytes, "assets/sprite.PNG") {
        Ok(img) => img,
        Err(_) => panic!("a PNG named .png should decode"),
    };
    assert_eq!((img.width, img.height), (2, 2));
    assert_eq!(img.data, pixels);
    assert_eq!(img.data.len(), (img.width * img.height * 4) as usize);
    assert!(matches!(Image::load_from_encoded(&bytes, "sprite"), Err(ImageLoadError::UnknownExtension)));
    assert!(matches!(Image::load_from_encoded(&bytes, "sprite.xyz"), Err(ImageLoadError::UnknownExtension)));
    assert!(matches!(Image::load_from_encoded(&bytes, "sprite.bmp"), Err(ImageLoadError::Decode(_))));
}

#[test]
fn extensions_of_file_names() {
    assert_eq!(extension_of("assets/sprite.PNG"), Some("PNG"));
    assert_eq!(extension_of("archive.tar.gz"), Some("gz"));
    assert_eq!(extension_of("..foo"), Some("foo"));
    assert_eq!(extension_of(".bashrc"), None);
    assert_eq!(extension_of("name."), None);
    assert_eq!(extension_of("dir.d/file"), None);
    assert_eq!(extension_of("dir\\.png"), None);
    assert_eq!(extension_of("c:\\images\\photo.jpg"), Some("jpg"));
    assert_eq!(extension_of(""), None);
}

#[test]
fn extension_case_does_not_change_the_decoded_image() {
    let pixels = vec![9, 8, 7, 6, 5, 4, 3, 2];
    let bytes = png_bytes(1, 2, pixels.clone());
    for name in ["a.png", "b/A.PNG", "c.Png"] {
        match Image::load_from_encoded(&bytes, name) {
            Ok(img) => {
                assert_eq!((img.width, img.height), (1, 2));
                assert_eq!(img.data, pixels);
            }
            Err(_) => panic!("a PNG named {} should decode", name),
        }
    }
    assert!(matches!(Image::load_from_encoded(&bytes[..8], "a.png"), Err(ImageLoadError::Decode(_))));
}
