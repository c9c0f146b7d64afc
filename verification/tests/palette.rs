use jy::error::DecodeError;
use jy::palette::{load_color, rbg2rgba, Palette};

#[test]
fn load_colors() {
    let data = vec![0u8, 0, 0, 62, 60, 51, 63, 63, 63, 1, 2, 3];
    let out = load_color(&data);
    assert_eq!(out.0.len(), 4);
    assert_eq!(out.0[0], 0xFF00_0000);
    assert_eq!(out.0[1], 0xFFCC_F0F8);
    assert_eq!(out.0[2], 0xFFFC_FCFC);
    assert_eq!(out.0[3], 0xFF0C_0804);
}

#[test]
fn black_is_opaque_black() {
    let p = load_color(&[0, 0, 0]);
    assert_eq!(p.color(0), Ok(0xFF00_0000));
}

#[test]
fn fixture_triple_widens_to_f8f0cc() {
    let (c1, c2, c3) = (62u32, 60u32, 51u32);
    let rgb = (c1 << 18) + (c2 << 10) + (c3 << 2);
    assert_eq!(rgb, 0xf8f0cc);
    assert_eq!(rbg2rgba(rgb), 0xFFCC_F0F8);
    let p = load_color(&[9, 9, 9, 62, 60, 51]);
    assert_eq!(p.color(1), Ok(rbg2rgba(0xf8f0cc)));
}

#[test]
fn color_is_the_two_step_transform() {
    for (c1, c2, c3) in [(0u8, 0u8, 0u8), (1, 2, 3), (63, 0, 0), (0, 63, 0), (0, 0, 63), (64, 128, 255), (255, 255, 255)] {
        let rgb = ((c1 as u32) << 18) + ((c2 as u32) << 10) + ((c3 as u32) << 2);
        let want = ((rgb & 0xFF) << 16) + (rgb & 0xFF00) + ((rgb & 0xFF0000) >> 16) + 0xFF00_0000;
        assert_eq!(load_color(&[c1, c2, c3]).color(0), Ok(want));
    }
    assert_eq!(load_color(&[255, 255, 255]).color(0), Ok(0xFFFC_FFFF));
}

#[test]
fn rbg2rgba_swaps_the_outer_bytes() {
    assert_eq!(rbg2rgba(0), 0xFF00_0000);
    assert_eq!(rbg2rgba(0x0012_3456), 0xFF56_3412);
    assert_eq!(rbg2rgba(0xAB12_3456), 0xFF56_3412);
    assert_eq!(rbg2rgba(0xFFFF_FFFF), 0xFFFF_FFFF);
}

#[test]
fn leftover_bytes_are_ignored() {
    assert_eq!(load_color(&[]).0.len(), 0);
    assert_eq!(load_color(&[1]).0.len(), 0);
    assert_eq!(load_color(&[1, 2]).0.len(), 0);
    assert_eq!(load_color(&[1, 2, 3, 4]).0, vec![0xFF0C_0804]);
    assert_eq!(load_color(&[1, 2, 3, 4, 5]).0, vec![0xFF0C_0804]);
}

#[test]
fn color_beyond_the_table_is_an_error() {
    let p = Palette(vec![10, 20]);
    assert_eq!(p.color(0), Ok(10));
    assert_eq!(p.color(1), Ok(20));
    assert_eq!(p.color(2), Err(DecodeError::PaletteIndexOutOfRange));
    assert_eq!(p.color(usize::MAX), Err(DecodeError::PaletteIndexOutOfRange));
    assert_eq!(Palette(vec![]).color(0), Err(DecodeError::PaletteIndexOutOfRange));
}

#[test]
fn error_messages() {
    assert_eq!(DecodeError::TruncatedRecord.message(), "truncated record");
    assert_eq!(DecodeError::PaletteIndexOutOfRange.message(), "palette index out of range");
}
