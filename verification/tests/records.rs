use jy::assets::load_grp;
use jy::error::DecodeError;
use jy::records::{
    Backpack, Base, Person, Scene, Thing, BASE_SIZE, PERSON_SIZE, SCENE_SIZE, THING_SIZE,
};

fn put(bytes: &mut [u8], at: usize, v: i16) {
    bytes[at..at + 2].copy_from_slice(&v.to_le_bytes());
}

fn text(bytes: &mut [u8], at: usize, s: &[u8]) {
    bytes[at..at + s.len()].copy_from_slice(s);
}

/// A record in which the 16-bit word at offset `2 * k` holds `k + 1`.
fn counting(size: usize) -> Vec<u8> {
    let mut bytes = vec![0u8; size];
    for k in 0..size / 2 {
        put(&mut bytes, 2 * k, (k + 1) as i16);
    }
    bytes
}

fn word(at: usize) -> i16 {
    (at / 2 + 1) as i16
}

#[test]
fn test_structs() {
    assert_eq!(std::mem::size_of::<Person>(), 202);
    assert_eq!(PERSON_SIZE, 202);
}

#[test]
fn layout_sizes() {
    assert_eq!(SCENE_SIZE, 62);
    assert_eq!(BASE_SIZE, 836);
    assert_eq!(THING_SIZE, 260);
}

#[test]
fn person_fields_come_from_their_offsets() {
    let bytes = counting(202);
    let p = Person::new(&bytes).unwrap();
    assert_eq!(p.code, word(0));
    assert_eq!(p.avatar, word(2));
    assert_eq!(p.life_gain, word(4));
    assert_eq!(p.useless, word(6));
    assert_eq!(&p.name[..], &bytes[8..28]);
    assert_eq!(&p.alias[..], &bytes[28..48]);
    assert_eq!(p.male, word(48));
    assert_eq!(p.level, word(50));
    assert_eq!(p.exp, word(52) as u16);
    assert_eq!(p.life, word(54));
    assert_eq!(p.life_max, word(56));
    assert_eq!(p.injure, word(58));
    assert_eq!(p.tox, word(60));
    assert_eq!(p.vatity, word(62));
    assert_eq!(p.item_familiar, word(64));
    assert_eq!(p.weapon, word(66));
    assert_eq!(p.armor, word(68));
    assert_eq!(p.action_frames, [word(70), word(72), word(74), word(76), word(78)]);
    assert_eq!(p.action_delays, [word(80), word(82), word(84), word(86), word(88)]);
    assert_eq!(p.action_audio_delays, [word(90), word(92), word(94), word(96), word(98)]);
    assert_eq!(p.neili_status, word(100));
    assert_eq!(p.neili, word(102));
    assert_eq!(p.neili_max, word(104));
    assert_eq!(p.attack, word(106));
    assert_eq!(p.agile, word(108));
    assert_eq!(p.defence, word(110));
    assert_eq!(p.cure, word(112));
    assert_eq!(p.poison, word(114));
    assert_eq!(p.depoison, word(116));
    assert_eq!(p.poison_def, word(118));
    assert_eq!(p.fist, word(120));
    assert_eq!(p.sword, word(122));
    assert_eq!(p.knife, word(124));
    assert_eq!(p.other_weapon, word(126));
    assert_eq!(p.fly_weapon, word(128));
    assert_eq!(p.wknowlege, word(130));
    assert_eq!(p.sanity, word(132));
    assert_eq!(p.with_poison, word(134));
    assert_eq!(p.double_att, word(136));
    assert_eq!(p.reputation, word(138));
    assert_eq!(p.talent, word(140));
    assert_eq!(p.item_train, word(142));
    assert_eq!(p.item_point, word(144));
    for k in 0..10 {
        assert_eq!(p.skills[k], word(146 + 2 * k));
        assert_eq!(p.skill_levels[k], word(166 + 2 * k));
    }
    for k in 0..4 {
        assert_eq!(p.items[k], word(186 + 2 * k));
        assert_eq!(p.item_nums[k], word(194 + 2 * k));
    }
}

#[test]
fn person_integers_are_little_endian_and_signed() {
    let mut bytes = vec![0u8; 202];
    bytes[0] = 0x34;
    bytes[1] = 0x12;
    put(&mut bytes, 2, -1);
    put(&mut bytes, 4, i16::MIN);
    put(&mut bytes, 6, i16::MAX);
    bytes[52] = 0xFE;
    bytes[53] = 0xFF;
    bytes[54] = 0xFE;
    bytes[55] = 0xFF;
    bytes[200] = 0x00;
    bytes[201] = 0x80;
    let p = Person::new(&bytes).unwrap();
    assert_eq!(p.code, 0x1234);
    assert_eq!(p.avatar, -1);
    assert_eq!(p.life_gain, i16::MIN);
    assert_eq!(p.useless, i16::MAX);
    assert_eq!(p.exp, 65534);
    assert_eq!(p.life, -2);
    assert_eq!(p.item_nums[3], i16::MIN);
}

#[test]
fn person_names_end_at_the_first_zero() {
    let mut bytes = vec![0u8; 202];
    text(&mut bytes, 8, b"Hero\0junk");
    text(&mut bytes, 28, "\u{5c0f}\u{867e}\u{7c73}".as_bytes());
    let p = Person::new(&bytes).unwrap();
    assert_eq!(p.name(), Some(String::from("Hero")));
    assert_eq!(p.alias(), Some(String::from("\u{5c0f}\u{867e}\u{7c73}")));
}

#[test]
fn person_from_an_archive_record() {
    let mut record = counting(202);
    text(&mut record, 8, b"Xu Zhu\0\0\0\0\0\0\0\0\0\0\0\0\0\0");
    text(&mut record, 28, b"monk\0\0\0\0\0\0\0\0\0\0\0\0\0\0\0\0");
    let mut blob = record.clone();
    blob.extend_from_slice(&[0xAA; 30]);
    let mut index = Vec::new();
    index.extend_from_slice(&202u32.to_le_bytes());
    index.extend_from_slice(&232u32.to_le_bytes());
    let archive = load_grp(Some(&index), &blob);
    let slice = archive.idx(0).unwrap();
    assert_eq!(slice.len(), 202);
    let p = Person::new(slice).unwrap();
    assert_eq!(p.name(), Some(String::from("Xu Zhu")));
    assert_eq!(p.alias(), Some(String::from("monk")));
    assert_eq!(p.talent, word(140));
    assert_eq!(Person::new(archive.idx(1).unwrap()).err(), Some(DecodeError::TruncatedRecord));
}

#[test]
fn name_that_fills_the_field() {
    let mut bytes = vec![0u8; 202];
    text(&mut bytes, 8, b"ABCDEFGHIJKLMNOPQRST");
    text(&mut bytes, 28, b"\0BCDEFGHIJKLMNOPQRST");
    let p = Person::new(&bytes).unwrap();
    assert_eq!(p.name(), Some(String::from("ABCDEFGHIJKLMNOPQRST")));
    assert_eq!(p.alias(), Some(String::new()));
}

#[test]
fn name_that_is_not_utf8() {
    let mut bytes = vec![0u8; 202];
    text(&mut bytes, 8, &[0xA4, 0x70, 0xBD, 0xBC, 0]);
    let p = Person::new(&bytes).unwrap();
    assert_eq!(p.name(), None);
    assert_eq!(p.alias(), Some(String::new()));
}

#[test]
fn person_truncated() {
    for len in [0usize, 1, 8, 100, 200, 201] {
        let bytes = counting(202);
        let r = Person::new(&bytes[..len]);
        assert_eq!(r.err(), Some(DecodeError::TruncatedRecord));
    }
}

#[test]
fn person_ignores_what_follows_the_layout() {
    let mut bytes = counting(202);
    let short = Person::new(&bytes).unwrap();
    bytes.extend_from_slice(&[0xFF; 50]);
    let long = Person::new(&bytes).unwrap();
    assert_eq!(short.code, long.code);
    assert_eq!(short.item_nums, long.item_nums);
    assert_eq!(long.item_nums[3], word(200));
}

#[test]
fn scene_fields_come_from_their_offsets() {
    let mut bytes = counting(62);
    text(&mut bytes, 2, b"Inn\0");
    let s = Scene::new(&bytes).unwrap();
    assert_eq!(s.code, word(0));
    assert_eq!(&s.name[..], &bytes[2..22]);
    assert_eq!(s.name(), Some(String::from("Inn")));
    assert_eq!(s.leave_music, word(22));
    assert_eq!(s.enter_music, word(24));
    assert_eq!(s.jump, word(26));
    assert_eq!(s.enter_pre, word(28));
    assert_eq!(s.out_entry_x1, word(30));
    assert_eq!(s.out_entry_y1, word(32));
    assert_eq!(s.out_entry_x2, word(34));
    assert_eq!(s.out_entry_y2, word(36));
    assert_eq!(s.entry_x, word(38));
    assert_eq!(s.entry_y, word(40));
    assert_eq!(s.exit_x1, word(42));
    assert_eq!(s.exit_x2, word(44));
    assert_eq!(s.exit_x3, word(46));
    assert_eq!(s.exit_y1, word(48));
    assert_eq!(s.exit_y2, word(50));
    assert_eq!(s.exit_y3, word(52));
    assert_eq!(s.jump_x1, word(54));
    assert_eq!(s.jump_y1, word(56));
    assert_eq!(s.jump_x2, word(58));
    assert_eq!(s.jump_y2, word(60));
}

#[test]
fn scene_truncated() {
    let bytes = counting(62);
    assert_eq!(Scene::new(&bytes[..61]).err(), Some(DecodeError::TruncatedRecord));
    assert_eq!(Scene::new(&[]).err(), Some(DecodeError::TruncatedRecord));
    assert!(Scene::new(&bytes).is_ok());
}

#[test]
fn base_fields_come_from_their_offsets() {
    let bytes = counting(836);
    let b = Base::new(&bytes).unwrap();
    assert_eq!(b.boat, word(0));
    assert_eq!(b.useless, word(2));
    assert_eq!(b.person_x, word(4));
    assert_eq!(b.person_y, word(6));
    assert_eq!(b.person_x_scene, word(8));
    assert_eq!(b.person_y_scene, word(10));
    assert_eq!(b.person_dir, word(12));
    assert_eq!(b.boat_x, word(14));
    assert_eq!(b.boat_y, word(16));
    assert_eq!(b.boat_x1, word(18));
    assert_eq!(b.boat_y1, word(20));
    assert_eq!(b.boat_dir, word(22));
    for k in 0..6 {
        assert_eq!(b.teams[k], word(24 + 2 * k));
    }
    for k in 0..200 {
        assert_eq!(b.items[k], (word(36 + 4 * k), word(38 + 4 * k)));
    }
}

#[test]
fn base_truncated() {
    let bytes = counting(836);
    assert_eq!(Base::new(&bytes[..835]).err(), Some(DecodeError::TruncatedRecord));
    assert_eq!(Base::new(&bytes[..36]).err(), Some(DecodeError::TruncatedRecord));
    assert!(Base::new(&bytes).is_ok());
}

#[test]
fn thing_fields_come_from_their_offsets() {
    let mut bytes = counting(260);
    text(&mut bytes, 2, b"Sword\0");
    text(&mut bytes, 42, b"Blade\0");
    text(&mut bytes, 82, b"A sharp one.\0");
    let t = Thing::new(&bytes).unwrap();
    assert_eq!(t.code, word(0));
    assert_eq!(&t.name[..], &bytes[2..42]);
    assert_eq!(&t.name2[..], &bytes[42..82]);
    assert_eq!(&t.desp[..], &bytes[82..142]);
    assert_eq!(t.name(), Some(String::from("Sword")));
    assert_eq!(t.name2(), Some(String::from("Blade")));
    assert_eq!(t.desp(), Some(String::from("A sharp one.")));
    assert_eq!(t.wugong, word(142));
    assert_eq!(t.animate_code, word(144));
    assert_eq!(t.user, word(146));
    assert_eq!(t.equip_type, word(148));
    assert_eq!(t.show, word(150));
    assert_eq!(t.typ, word(152));
    assert_eq!(t.unknown5, word(154));
    assert_eq!(t.unknown6, word(156));
    assert_eq!(t.unknown7, word(158));
    assert_eq!(t.add_life, word(160));
    assert_eq!(t.add_max_life, word(162));
    assert_eq!(t.add_detox, word(164));
    assert_eq!(t.add_vat, word(166));
    assert_eq!(t.change_mag, word(168));
    assert_eq!(t.add_mag, word(170));
    assert_eq!(t.add_max_mag, word(172));
    assert_eq!(t.add_attack, word(174));
    assert_eq!(t.add_agile, word(176));
    assert_eq!(t.add_def, word(178));
    assert_eq!(t.add_heal, word(180));
    assert_eq!(t.add_poison, word(182));
    assert_eq!(t.add_depoison, word(184));
    assert_eq!(t.add_anti_poi, word(186));
    assert_eq!(t.add_fist, word(188));
    assert_eq!(t.add_sword, word(190));
    assert_eq!(t.add_knife, word(192));
    assert_eq!(t.add_special_weapon, word(194));
    assert_eq!(t.add_arrow, word(196));
    assert_eq!(t.add_know, word(198));
    assert_eq!(t.add_rep, word(200));
    assert_eq!(t.add_attack_time, word(202));
    assert_eq!(t.add_attack_poi, word(204));
    assert_eq!(t.use_only, word(206));
    assert_eq!(t.magic_type, word(208));
    assert_eq!(t.magic_req, word(210));
    assert_eq!(t.att_req, word(212));
    assert_eq!(t.agile_req, word(214));
    assert_eq!(t.poi_req, word(216));
    assert_eq!(t.heal_req, word(218));
    assert_eq!(t.depoi_req, word(220));
    assert_eq!(t.fist_req, word(222));
    assert_eq!(t.sword_req, word(224));
    assert_eq!(t.knife_req, word(226));
    assert_eq!(t.sp_weapon_req, word(228));
    assert_eq!(t.arrow_req, word(230));
    assert_eq!(t.ability_req, word(232));
    assert_eq!(t.exp_req, word(234));
    assert_eq!(t.item_exp, word(236));
    assert_eq!(t.meterial_req, word(238));
    for k in 0..5 {
        assert_eq!(t.items[k], word(240 + 4 * k));
        assert_eq!(t.item_reqs[k], word(242 + 4 * k));
    }
}

#[test]
fn thing_truncated() {
    let bytes = counting(260);
    assert_eq!(Thing::new(&bytes[..259]).err(), Some(DecodeError::TruncatedRecord));
    assert_eq!(Thing::new(&bytes[..142]).err(), Some(DecodeError::TruncatedRecord));
    assert!(Thing::new(&bytes).is_ok());
}

#[test]
fn decoding_twice_gives_the_same_record() {
    let bytes = counting(202);
    let a = Person::new(&bytes).unwrap();
    let b = Person::new(&bytes).unwrap();
    assert_eq!(format!("{:?}", a), format!("{:?}", b));
}

#[test]
fn backpack_starts_empty() {
    let b = Backpack::default();
    assert!(b.items.is_empty());
}
