use jy::assets::{load_data, load_grp, read_index, DataAssetLoader, GrpAsset, GrpLoader};

fn index_bytes(ends: &[u32]) -> Vec<u8> {
    let mut out = Vec::new();
    for end in ends {
        out.extend_from_slice(&end.to_le_bytes());
    }
    out
}

#[test]
fn test_asset() {
    let data: Vec<u8> = (0u8..20).collect();
    let index = index_bytes(&[4, 4, 10, 20]);
    let gs = load_grp(Some(&index), &data);
    assert_eq!(gs.idx, vec![0, 4, 4, 10, 20]);
    assert_eq!(gs.data, data);
    assert_eq!(gs.idx(0), Some(&data[0..4]));
    assert_eq!(gs.idx(1), None);
    assert_eq!(gs.idx(2), Some(&data[4..10]));
    assert_eq!(gs.idx(3), Some(&data[10..20]));
    assert_eq!(gs.idx(4), None);
    assert_eq!(gs.idx(5), None);
}

#[test]
fn index_is_read_little_endian() {
    let index = [0x01u8, 0x02, 0x00, 0x00, 0x78, 0x56, 0x34, 0x12];
    assert_eq!(read_index(&index), vec![0usize, 0x0201, 0x1234_5678]);
}

#[test]
fn index_leftover_bytes_do_not_count() {
    let mut index = index_bytes(&[3]);
    index.extend_from_slice(&[9, 9, 9]);
    assert_eq!(read_index(&index), vec![0usize, 3]);
    assert_eq!(read_index(&[1, 2, 3]), vec![0usize]);
    assert_eq!(read_index(&[]), vec![0usize]);
}

#[test]
fn missing_index_gives_no_records() {
    let data = vec![1u8, 2, 3, 4, 5];
    let gs = load_grp(None, &data);
    assert_eq!(gs.idx, vec![0usize]);
    assert_eq!(gs.data, data);
    for i in 0..10 {
        assert_eq!(gs.idx(i), None);
    }
    assert_eq!(gs.idx(usize::MAX), None);
}

#[test]
fn empty_index_gives_no_records() {
    let data = vec![1u8, 2, 3, 4, 5];
    let gs = load_grp(Some(&[]), &data);
    assert_eq!(gs.idx, vec![0usize]);
    for i in 0..10 {
        assert_eq!(gs.idx(i), None);
    }
}

#[test]
fn decreasing_boundaries_give_no_record() {
    let gs = GrpAsset { idx: vec![0, 8, 2, 6], data: vec![7u8; 10] };
    assert_eq!(gs.idx(0), Some(&[7u8; 8][..]));
    assert_eq!(gs.idx(1), None);
    assert_eq!(gs.idx(2), Some(&[7u8; 4][..]));
    assert_eq!(gs.idx(3), None);
}

#[test]
fn boundary_beyond_data_gives_no_record() {
    let gs = GrpAsset { idx: vec![0, 4, 11], data: vec![7u8; 10] };
    assert_eq!(gs.idx(0), Some(&[7u8; 4][..]));
    assert_eq!(gs.idx(1), None);
    let whole = GrpAsset { idx: vec![0, 10], data: vec![7u8; 10] };
    assert_eq!(whole.idx(0), Some(&[7u8; 10][..]));
}

#[test]
fn last_boundary_has_no_record_after_it() {
    let gs = GrpAsset { idx: vec![0, 4], data: vec![7u8; 10] };
    assert_eq!(gs.idx(1), None);
    assert_eq!(gs.idx(usize::MAX - 1), None);
    assert_eq!(gs.idx(usize::MAX), None);
}

#[test]
fn loaders_wrap_the_bytes() {
    let data = vec![5u8, 6, 7];
    let index = index_bytes(&[2, 3]);
    let gs = GrpLoader.load(&data, Some(&index));
    assert_eq!(gs.idx, vec![0usize, 2, 3]);
    assert_eq!(gs.idx(1), Some(&data[2..3]));
    assert_eq!(GrpLoader.load(&data, None).idx, vec![0usize]);
    assert_eq!(GrpLoader.extension(), "grp");
    assert_eq!(DataAssetLoader.load(&data).data, data);
    assert_eq!(load_data(&data).data, data);
    assert_eq!(DataAssetLoader.extension(), "col");
}
