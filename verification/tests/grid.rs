use jy::assets::{load_grp, GrpAsset};
use jy::grid::{DData, SData, DNUM, FIELDS_PER_EVENT, LAYER_NUM, SCENE_HEIGHT, SCENE_WIDTH};

fn table(bytes: Vec<u8>) -> GrpAsset {
    load_grp(None, &bytes)
}

fn cells(values: &[i16]) -> Vec<u8> {
    let mut out = Vec::new();
    for v in values {
        out.extend_from_slice(&v.to_le_bytes());
    }
    out
}

#[test]
fn constants_are_the_formats() {
    assert_eq!(SCENE_WIDTH, 64);
    assert_eq!(SCENE_HEIGHT, 64);
    assert_eq!(LAYER_NUM, 6);
    assert_eq!(DNUM, 200);
    assert_eq!(FIELDS_PER_EVENT, 11);
}

#[test]
fn tile_lookup_uses_the_index_formula() {
    // scene 1, layer 2, row 3, column 5
    let index = (1 * 6 + 2) * 64 * 64 + 3 * 64 + 5;
    let mut bytes = vec![0u8; (index + 1) * 2];
    bytes[index * 2] = 0x34;
    bytes[index * 2 + 1] = 0x12;
    let s = SData::new(table(bytes));
    assert_eq!(s.get_texture(1, 5, 3, 2), Some(0x1234));
    assert_eq!(s.get_texture(1, 4, 3, 2), Some(0));
    assert_eq!(s.get_texture(1, 6, 3, 2), None);
    assert_eq!(s.get_texture(0, 0, 0, 0), Some(0));
}

#[test]
fn tile_lookup_end_to_end() {
    let first = (70 * 6) * 64 * 64;
    let second = (70 * 6) * 64 * 64 + 1 * 64 + 4;
    let mut values = vec![0i16; second + 1];
    values[first] = 4;
    values[second] = 140;
    let data = cells(&values);
    let mut blob = vec![0xEEu8; 6];
    blob.extend_from_slice(&data);
    let mut index = Vec::new();
    index.extend_from_slice(&6u32.to_le_bytes());
    index.extend_from_slice(&((6 + data.len()) as u32).to_le_bytes());
    let archive = load_grp(Some(&index), &blob);
    let record = archive.idx(1).unwrap().to_vec();
    let s = SData::new(table(record));
    assert_eq!(s.get_texture(70, 0, 0, 0), Some(4));
    assert_eq!(s.get_texture(70, 4, 1, 0), Some(140));
}

#[test]
fn lookup_reads_negative_values() {
    let s = SData::new(table(cells(&[-1, i16::MIN, i16::MAX, -2])));
    assert_eq!(s.get_texture(0, 0, 0, 0), Some(-1));
    assert_eq!(s.get_texture(0, 1, 0, 0), Some(i16::MIN));
    assert_eq!(s.get_texture(0, 2, 0, 0), Some(i16::MAX));
    assert_eq!(s.get_texture(0, 3, 0, 0), Some(-2));
    assert_eq!(s.get_texture(0, 4, 0, 0), None);
}

#[test]
fn lookup_beyond_the_table_is_none() {
    let s = SData::new(table(vec![1, 0, 2]));
    assert_eq!(s.get_texture(0, 0, 0, 0), Some(1));
    assert_eq!(s.get_texture(0, 1, 0, 0), None);
    assert_eq!(s.get_texture(usize::MAX, usize::MAX, usize::MAX, usize::MAX), None);
    let d = DData::new(table(vec![1, 0, 2]));
    assert_eq!(d.get_d(0, 0, 0), Some(1));
    assert_eq!(d.get_d(0, 0, 1), None);
    assert_eq!(d.get_d(usize::MAX, usize::MAX, usize::MAX), None);
    let empty = DData::new(table(vec![]));
    assert_eq!(empty.get_d(0, 0, 0), None);
}

#[test]
fn event_lookup_uses_the_index_formula() {
    // scene 2, event 3, field 7
    let index = (2 * 200 + 3) * 11 + 7;
    let mut values = vec![0i16; index + 1];
    values[index] = -321;
    let d = DData::new(table(cells(&values)));
    assert_eq!(d.get_d(2, 3, 7), Some(-321));
    assert_eq!(d.get_d(2, 3, 6), Some(0));
    assert_eq!(d.get_d(2, 3, 8), None);
}

#[test]
fn set_then_get_returns_the_value() {
    let mut d = DData::new(table(vec![0u8; 3 * 200 * 11 * 2]));
    for v in [0i16, 1, -1, 255, 256, -256, 12345, -12345, i16::MIN, i16::MAX] {
        for (s, e, f) in [(0usize, 0usize, 0usize), (1, 199, 10), (2, 57, 3), (2, 199, 10)] {
            assert!(d.set(s, e, f, v));
            assert_eq!(d.get_d(s, e, f), Some(v));
        }
    }
}

#[test]
fn every_value_survives_set_and_get() {
    let mut d = DData::new(table(vec![0u8; 8]));
    for v in i16::MIN..=i16::MAX {
        assert!(d.set(0, 0, 2, v));
        assert_eq!(d.get_d(0, 0, 2), Some(v));
    }
    assert_eq!(d.get_d(0, 0, 1), Some(0));
    assert_eq!(d.get_d(0, 0, 3), Some(0));
}

#[test]
fn set_is_seen_by_a_reader_of_the_same_bytes() {
    // 0x1234 written into cell 1 reads as 0x3400 and 0x0012 one byte off
    let mut d = DData::new(table(vec![0u8; 6]));
    assert!(d.set(0, 0, 1, 0x1234));
    assert_eq!(d.get_d(0, 0, 0), Some(0));
    assert_eq!(d.get_d(0, 0, 1), Some(0x1234));
    assert_eq!(d.get_d(0, 0, 2), Some(0));
    assert!(d.set(0, 0, 0, -2));
    assert!(d.set(0, 0, 2, i16::MIN));
    assert_eq!(d.get_d(0, 0, 0), Some(-2));
    assert_eq!(d.get_d(0, 0, 1), Some(0x1234));
    assert_eq!(d.get_d(0, 0, 2), Some(i16::MIN));
}

#[test]
fn set_writes_two_bytes_low_byte_first() {
    let mut d = DData::new(table(cells(&[0x0101, 0x0202, 0x0303])));
    assert!(d.set(0, 0, 1, 0x1234));
    assert_eq!(d.get_d(0, 0, 0), Some(0x0101));
    assert_eq!(d.get_d(0, 0, 1), Some(0x1234));
    assert_eq!(d.get_d(0, 0, 2), Some(0x0303));
    let mut e = DData::new(table(vec![0, 0, 0, 0]));
    assert!(e.set(0, 0, 0, 0x0102));
    assert_eq!(e.get_d(0, 0, 0), Some(0x0102));
    assert_eq!(e.get_d(0, 0, 1), Some(0));
}

#[test]
fn set_beyond_the_table_changes_nothing() {
    let mut d = DData::new(table(cells(&[7, 8, 9])));
    assert!(!d.set(0, 0, 3, 1));
    assert!(!d.set(1, 0, 0, 1));
    assert!(!d.set(usize::MAX, usize::MAX, usize::MAX, 1));
    assert_eq!(d.get_d(0, 0, 0), Some(7));
    assert_eq!(d.get_d(0, 0, 1), Some(8));
    assert_eq!(d.get_d(0, 0, 2), Some(9));
    let mut odd = DData::new(table(vec![1, 0, 2]));
    assert!(!odd.set(0, 0, 1, 5));
    assert_eq!(odd.get_d(0, 0, 0), Some(1));
}

#[test]
fn distinct_fields_do_not_alias() {
    let scenes = 2;
    let mut d = DData::new(table(vec![0u8; scenes * 200 * 11 * 2]));
    let mut n: i16 = 0;
    for s in 0..scenes {
        for e in 0..200 {
            for f in 0..11 {
                assert!(d.set(s, e, f, n));
                n += 1;
            }
        }
    }
    let mut n: i16 = 0;
    for s in 0..scenes {
        for e in 0..200 {
            for f in 0..11 {
                assert_eq!(d.get_d(s, e, f), Some(n));
                n += 1;
            }
        }
    }
}

#[test]
fn distinct_tiles_do_not_alias() {
    let count = 6 * 64 * 64;
    let values: Vec<i16> = (0..count).map(|i| (i % 30000) as i16).collect();
    let s = SData::new(table(cells(&values)));
    let mut seen = vec![false; count];
    for layer in 0..6 {
        for row in 0..64 {
            for col in 0..64 {
                let index = layer * 64 * 64 + row * 64 + col;
                assert!(!seen[index]);
                seen[index] = true;
                assert_eq!(s.get_texture(0, col, row, layer), Some((index % 30000) as i16));
            }
        }
    }
    assert!(seen.iter().all(|b| *b));
}
