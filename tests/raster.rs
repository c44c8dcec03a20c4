use raytrace::{pack_rgb16, pack_rgb8, scan_order, split_channel16};

#[test]
fn split_channel16_is_big_endian() {
    assert_eq!(split_channel16(0x1234), (0x12, 0x34));
    assert_eq!(split_channel16(0), (0, 0));
    assert_eq!(split_channel16(0xffff), (0xff, 0xff));
    assert_eq!(split_channel16(0x00ff), (0x00, 0xff));
    assert_eq!(split_channel16(0xff00), (0xff, 0x00));
}

#[test]
fn pack_rgb16_lays_out_six_bytes_per_pixel() {
    let pixels = vec![(0x0102u16, 0x0304u16, 0x0506u16), (0xfffeu16, 0x0080u16, 0x8000u16)];
    let bytes = pack_rgb16(&pixels);
    assert_eq!(
        bytes,
        vec![0x01, 0x02, 0x03, 0x04, 0x05, 0x06, 0xff, 0xfe, 0x00, 0x80, 0x80, 0x00]
    );
}

#[test]
fn pack_rgb16_low_byte_is_not_saturated() {
    let bytes = pack_rgb16(&vec![(0x1200u16, 0x3400u16, 0x5600u16)]);
    assert_eq!(bytes, vec![0x12, 0x00, 0x34, 0x00, 0x56, 0x00]);
}

#[test]
fn pack_rgb16_empty() {
    assert!(pack_rgb16(&Vec::new()).is_empty());
}

#[test]
fn pack_rgb8_lays_out_three_bytes_per_pixel() {
    let pixels = vec![(1u8, 2u8, 3u8), (255u8, 0u8, 128u8)];
    assert_eq!(pack_rgb8(&pixels), vec![1, 2, 3, 255, 0, 128]);
    assert!(pack_rgb8(&Vec::new()).is_empty());
}

#[test]
fn scan_order_emits_top_row_first() {
    let order = scan_order(3, 2);
    assert_eq!(order, vec![(0, 1), (1, 1), (2, 1), (0, 0), (1, 0), (2, 0)]);
}

#[test]
fn scan_order_two_by_one() {
    assert_eq!(scan_order(2, 1), vec![(0, 0), (1, 0)]);
}

#[test]
fn scan_order_empty_image() {
    assert!(scan_order(0, 5).is_empty());
    assert!(scan_order(5, 0).is_empty());
}

#[test]
fn scan_order_single_column() {
    assert_eq!(scan_order(1, 4), vec![(0, 3), (0, 2), (0, 1), (0, 0)]);
}

#[test]
fn scan_order_places_each_pixel_once() {
    let (w, h) = (4u32, 3u32);
    let order = scan_order(w, h);
    assert_eq!(order.len(), 12);
    for y in 0..h {
        for x in 0..w {
            let k = ((h - 1 - y) * w + x) as usize;
            assert_eq!(order[k], (x, y));
            assert_eq!(order.iter().filter(|&&p| p == (x, y)).count(), 1);
        }
    }
}
