use astrocam::framedata::FrameData;
use astrocam::framedata::MonoFrameData;

#[test]
fn test_zeros() {
    let frame = MonoFrameData::<u16>::zeros(3, 3);
    assert_eq!(frame.width, 3);
    assert_eq!(frame.height, 3);
}

#[test]
fn test_ones() {
    let frame = MonoFrameData::<u16>::ones(3, 3);
    assert_eq!(frame.width, 3);
    assert_eq!(frame.height, 3);
}

#[test]
fn test_add() {
    let frame1 = MonoFrameData::<u16>::ones(3, 3);
    let frame2 = MonoFrameData::<u16>::ones(3, 3);
    let frame3 = frame1.add_frame(&frame2);
    assert_eq!(frame3.width, 3);
    assert_eq!(frame3.height, 3);
}

#[test]
fn test_add_types() {
    let frame1 = MonoFrameData::<u16>::ones(3, 3);
    let frame2 = MonoFrameData::<u8>::ones(3, 3);
    let frame3 = frame1.add_frame(&frame2);
    assert_eq!(frame3.width, 3);
    assert_eq!(frame3.height, 3);
}

#[test]
fn zeros_and_ones_fill_every_element() {
    let z = FrameData::<u8>::zeros(4, 5);
    assert_eq!(z.data.len(), 20);
    assert!(z.data.iter().all(|&x| x == 0));

    let o = FrameData::<u16>::ones(5, 4);
    assert_eq!(o.data.len(), 20);
    assert!(o.data.iter().all(|&x| x == 1));
}

#[test]
fn add_narrower_into_wider() {
    let wide = FrameData::<u16>::ones(2, 2);
    let narrow = FrameData::<u8>::filled(2, 2, 200);
    let sum = wide.add_frame(&narrow);
    assert!(sum.data.iter().all(|&x| x == 201));
}

#[test]
fn add_truncates_wider_values_modulo_element_width() {
    // Adding 300 into an 8-bit buffer yields 300 mod 256 == 44.
    let acc = FrameData::<u8>::zeros(3, 3);
    let wide = FrameData::<u16>::filled(3, 3, 300);
    let sum = acc.add_frame(&wide);
    assert!(sum.data.iter().all(|&x| x == 44));
}

#[test]
fn add_assign_matches_add() {
    let mut acc = FrameData::<u8>::filled(2, 3, 7);
    let inc = FrameData::<u16>::filled(2, 3, 300);
    let expected = acc.add_frame(&inc);
    acc.add_assign_frame(&inc);
    assert_eq!(acc.data, expected.data);
}

#[test]
fn sub_wraps_below_zero() {
    let low = FrameData::<u8>::filled(2, 2, 5);
    let high = FrameData::<u8>::filled(2, 2, 9);
    let diff = low.sub_frame(&high);
    // 5 - 9 wraps modulo 256 to 252.
    assert!(diff.data.iter().all(|&x| x == 252));
}

#[test]
fn sub_assign_matches_sub() {
    let mut acc = FrameData::<u16>::filled(2, 2, 1000);
    let dec = FrameData::<u8>::filled(2, 2, 3);
    let expected = acc.sub_frame(&dec);
    acc.sub_assign_frame(&dec);
    assert_eq!(acc.data, expected.data);
}

#[test]
fn scalar_multiply_and_divide() {
    let frame = FrameData::<u16>::filled(2, 2, 21);
    let tripled = frame.mul_scalar(3u8);
    assert!(tripled.data.iter().all(|&x| x == 63));
    let back = tripled.div_scalar(3);
    assert!(back.data.iter().all(|&x| x == 21));
}

#[test]
fn scalar_multiply_wraps() {
    let frame = FrameData::<u8>::filled(1, 3, 100);
    let scaled = frame.mul_scalar(3u8);
    // 300 mod 256 == 44.
    assert!(scaled.data.iter().all(|&x| x == 44));
}

#[test]
fn elementwise_multiply() {
    let a = FrameData::<u16>::filled(2, 2, 12);
    let b = FrameData::<u16>::filled(2, 2, 11);
    let prod = a.mul_frame(&b);
    assert!(prod.data.iter().all(|&x| x == 132));
}

#[test]
fn shift_round_trip_recovers_when_no_bits_lost() {
    let frame = FrameData::<u16>::filled(3, 2, 513);
    let up = frame.shl_frame(4);
    assert!(up.data.iter().all(|&x| x == 513 << 4));
    let back = up.shr_frame(4);
    assert_eq!(back.data, frame.data);
}

#[test]
fn shift_round_trip_truncates_deterministically() {
    // 0xABCD << 4 drops the top nibble; shifting back yields 0x0BCD.
    let frame = FrameData::<u16>::filled(1, 1, 0xABCD);
    let up = frame.shl_frame(4);
    let back = up.shr_frame(4);
    assert_eq!(back.data[0], 0x0BCD);
    // The same inputs truncate to the same outputs again.
    let again = frame.shl_frame(4).shr_frame(4);
    assert_eq!(again.data, back.data);
}

#[test]
fn shift_assign_matches_shift() {
    let frame = FrameData::<u8>::filled(2, 2, 0b1011);
    let mut up = FrameData::<u8>::filled(2, 2, 0b1011);
    up.shl_assign_frame(2);
    assert_eq!(up.data, frame.shl_frame(2).data);
    let mut down = up.clone();
    down.shr_assign_frame(2);
    assert_eq!(down.data, up.shr_frame(2).data);
}

#[test]
fn convert_truncates_to_narrow_type() {
    let wide = FrameData::<u16>::filled(2, 2, 0x1234);
    let narrow = FrameData::<u8>::convert_from(&wide);
    assert!(narrow.data.iter().all(|&x| x == 0x34));
    let widened = FrameData::<u16>::convert_from(&narrow);
    assert!(widened.data.iter().all(|&x| x == 0x34));
}
