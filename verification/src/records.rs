//! The fixed-layout records: characters, scenes, items and the saved-game
//! base state.
//!
//! A record has no header and no length prefix.  Its fields stand one after
//! another from byte 0, integers little-endian, and a decoder reads exactly
//! the bytes of its layout.  Bytes after the layout are not looked at.

use crate::error::DecodeError;
use crate::le::{
    get_bytes, get_i16, get_i16_pairs, get_i16s, get_u16, i16_at, i16_pairs_at, i16s_at, u16_at,
};
use crate::text::{str_of, to_str};
use vstd::prelude::*;

verus! {

/// The number of bytes that a `Person` record takes.
pub const PERSON_SIZE: usize = 202;

/// The number of bytes that a `Scene` record takes.
pub const SCENE_SIZE: usize = 62;

/// The number of bytes that a `Base` record takes.
pub const BASE_SIZE: usize = 836;

/// The number of bytes that a `Thing` record takes.
pub const THING_SIZE: usize = 260;

/// The state of a saved game: where the party and its boat stand, who is
/// in the party, and what it owns.
#[derive(Debug)]
pub struct Base {
    /// Bytes 0..2: whether the party is aboard the boat.
    pub boat: i16,
    /// Bytes 2..4: unused.
    pub useless: i16,
    /// Bytes 4..6: x of the party on the main map.
    pub person_x: i16,
    /// Bytes 6..8: y of the party on the main map.
    pub person_y: i16,
    /// Bytes 8..10: x of the party inside a scene.
    pub person_x_scene: i16,
    /// Bytes 10..12: y of the party inside a scene.
    pub person_y_scene: i16,
    /// Bytes 12..14: the way the party faces.
    pub person_dir: i16,
    /// Bytes 14..16: x of the boat.
    pub boat_x: i16,
    /// Bytes 16..18: y of the boat.
    pub boat_y: i16,
    /// Bytes 18..20: second x of the boat.
    pub boat_x1: i16,
    /// Bytes 20..22: second y of the boat.
    pub boat_y1: i16,
    /// Bytes 22..24: the way the boat faces.
    pub boat_dir: i16,
    /// Bytes 24..36: the members of the party.
    pub teams: [i16; 6],
    /// Bytes 36..836: what the party owns, in pairs of an item and how many of it.
    pub items: [(i16, i16); 200],
}

/// What the party carries: pairs of an item and how many of it.
#[derive(Debug, Default)]
pub struct Backpack {
    pub items: Vec<(i32, i32)>,
}

/// A scene: its name, its music and where its doors lead.
#[derive(Debug)]
pub struct Scene {
    /// Bytes 0..2: the scene's number.
    pub code: i16,
    /// Bytes 2..22: the name, as zero-padded text.
    pub name: [u8; 20],
    /// Bytes 22..24: the music on leaving.
    pub leave_music: i16,
    /// Bytes 24..26: the music on entering.
    pub enter_music: i16,
    /// Bytes 26..28: the scene that the jump gate leads to.
    pub jump: i16,
    /// Bytes 28..30: the condition of entry.
    pub enter_pre: i16,
    /// Bytes 30..32: x of the first entrance on the main map.
    pub out_entry_x1: i16,
    /// Bytes 32..34: y of the first entrance on the main map.
    pub out_entry_y1: i16,
    /// Bytes 34..36: x of the second entrance on the main map.
    pub out_entry_x2: i16,
    /// Bytes 36..38: y of the second entrance on the main map.
    pub out_entry_y2: i16,
    /// Bytes 38..40: x of where one enters the scene.
    pub entry_x: i16,
    /// Bytes 40..42: y of where one enters the scene.
    pub entry_y: i16,
    /// Bytes 42..44: x of the first exit.
    pub exit_x1: i16,
    /// Bytes 44..46: x of the second exit.
    pub exit_x2: i16,
    /// Bytes 46..48: x of the third exit.
    pub exit_x3: i16,
    /// Bytes 48..50: y of the first exit.
    pub exit_y1: i16,
    /// Bytes 50..52: y of the second exit.
    pub exit_y2: i16,
    /// Bytes 52..54: y of the third exit.
    pub exit_y3: i16,
    /// Bytes 54..56: x of the first jump gate.
    pub jump_x1: i16,
    /// Bytes 56..58: y of the first jump gate.
    pub jump_y1: i16,
    /// Bytes 58..60: x of the second jump gate.
    pub jump_x2: i16,
    /// Bytes 60..62: y of the second jump gate.
    pub jump_y2: i16,
}

/// A character: identity, vital statistics, combat skills and what the
/// character carries.
#[derive(Debug)]
pub struct Person {
    /// Bytes 0..2: the character's number.
    pub code: i16,
    /// Bytes 2..4: the number of the portrait.
    pub avatar: i16,
    /// Bytes 4..6: life gained with each level.
    pub life_gain: i16,
    /// Bytes 6..8: unused.
    pub useless: i16,
    /// Bytes 8..28: the name, as zero-padded text.
    pub name: [u8; 20],
    /// Bytes 28..48: the nickname, as zero-padded text.
    pub alias: [u8; 20],
    /// Bytes 48..50: the sex.
    pub male: i16,
    /// Bytes 50..52: the level.
    pub level: i16,
    /// Bytes 52..54: experience, unsigned.
    pub exp: u16,
    /// Bytes 54..56: life.
    pub life: i16,
    /// Bytes 56..58: the most life.
    pub life_max: i16,
    /// Bytes 58..60: how badly hurt.
    pub injure: i16,
    /// Bytes 60..62: how badly poisoned.
    pub tox: i16,
    /// Bytes 62..64: stamina.
    pub vatity: i16,
    /// Bytes 64..66: practice points with the item in training.
    pub item_familiar: i16,
    /// Bytes 66..68: the weapon in hand.
    pub weapon: i16,
    /// Bytes 68..70: the armour worn.
    pub armor: i16,
    /// Bytes 70..80: the frames of each attack animation.
    pub action_frames: [i16; 5],
    /// Bytes 80..90: the delay of each attack animation.
    pub action_delays: [i16; 5],
    /// Bytes 90..100: the delay of each attack sound.
    pub action_audio_delays: [i16; 5],
    /// Bytes 100..102: the kind of inner force.
    pub neili_status: i16,
    /// Bytes 102..104: inner force.
    pub neili: i16,
    /// Bytes 104..106: the most inner force.
    pub neili_max: i16,
    /// Bytes 106..108: attack.
    pub attack: i16,
    /// Bytes 108..110: agility.
    pub agile: i16,
    /// Bytes 110..112: defence.
    pub defence: i16,
    /// Bytes 112..114: healing.
    pub cure: i16,
    /// Bytes 114..116: use of poison.
    pub poison: i16,
    /// Bytes 116..118: curing of poison.
    pub depoison: i16,
    /// Bytes 118..120: resistance to poison.
    pub poison_def: i16,
    /// Bytes 120..122: fist skill.
    pub fist: i16,
    /// Bytes 122..124: sword skill.
    pub sword: i16,
    /// Bytes 124..126: sabre skill.
    pub knife: i16,
    /// Bytes 126..128: skill with special weapons.
    pub other_weapon: i16,
    /// Bytes 128..130: skill with hidden weapons.
    pub fly_weapon: i16,
    /// Bytes 130..132: knowledge of the martial arts.
    pub wknowlege: i16,
    /// Bytes 132..134: morality.
    pub sanity: i16,
    /// Bytes 134..136: poison carried by attacks.
    pub with_poison: i16,
    /// Bytes 136..138: whether both hands fight at once.
    pub double_att: i16,
    /// Bytes 138..140: reputation.
    pub reputation: i16,
    /// Bytes 140..142: aptitude.
    pub talent: i16,
    /// Bytes 142..144: the item in training.
    pub item_train: i16,
    /// Bytes 144..146: training points.
    pub item_point: i16,
    /// Bytes 146..166: the skills known.
    pub skills: [i16; 10],
    /// Bytes 166..186: the level of each skill.
    pub skill_levels: [i16; 10],
    /// Bytes 186..194: the items carried.
    pub items: [i16; 4],
    /// Bytes 194..202: how many of each item carried.
    pub item_nums: [i16; 4],
}

/// An item: its names and description, what it changes in its user and what
/// it asks of them.
#[derive(Debug)]
pub struct Thing {
    /// Bytes 0..2: the item's number.
    pub code: i16,
    /// Bytes 2..42: the name, as zero-padded text.
    pub name: [u8; 40],
    /// Bytes 42..82: the second name, as zero-padded text.
    pub name2: [u8; 40],
    /// Bytes 82..142: the description, as zero-padded text.
    pub desp: [u8; 60],
    /// Bytes 142..144: the skill learned from it.
    pub wugong: i16,
    /// Bytes 144..146: the animation when thrown.
    pub animate_code: i16,
    /// Bytes 146..148: who uses it.
    pub user: i16,
    /// Bytes 148..150: the kind of equipment.
    pub equip_type: i16,
    /// Bytes 150..152: whether the description is shown.
    pub show: i16,
    /// Bytes 152..154: the kind of item.
    pub typ: i16,
    /// Bytes 154..156: not known.
    pub unknown5: i16,
    /// Bytes 156..158: not known.
    pub unknown6: i16,
    /// Bytes 158..160: not known.
    pub unknown7: i16,
    /// Bytes 160..162: life added.
    pub add_life: i16,
    /// Bytes 162..164: added to the most life.
    pub add_max_life: i16,
    /// Bytes 164..166: poisoning added or cured.
    pub add_detox: i16,
    /// Bytes 166..168: stamina added.
    pub add_vat: i16,
    /// Bytes 168..170: the kind of inner force it changes to.
    pub change_mag: i16,
    /// Bytes 170..172: inner force added.
    pub add_mag: i16,
    /// Bytes 172..174: added to the most inner force.
    pub add_max_mag: i16,
    /// Bytes 174..176: attack added.
    pub add_attack: i16,
    /// Bytes 176..178: agility added.
    pub add_agile: i16,
    /// Bytes 178..180: defence added.
    pub add_def: i16,
    /// Bytes 180..182: healing added.
    pub add_heal: i16,
    /// Bytes 182..184: use of poison added.
    pub add_poison: i16,
    /// Bytes 184..186: curing of poison added.
    pub add_depoison: i16,
    /// Bytes 186..188: resistance to poison added.
    pub add_anti_poi: i16,
    /// Bytes 188..190: fist skill added.
    pub add_fist: i16,
    /// Bytes 190..192: sword skill added.
    pub add_sword: i16,
    /// Bytes 192..194: sabre skill added.
    pub add_knife: i16,
    /// Bytes 194..196: skill with special weapons added.
    pub add_special_weapon: i16,
    /// Bytes 196..198: skill with hidden weapons added.
    pub add_arrow: i16,
    /// Bytes 198..200: knowledge of the martial arts added.
    pub add_know: i16,
    /// Bytes 200..202: morality added.
    pub add_rep: i16,
    /// Bytes 202..204: attacks per turn added.
    pub add_attack_time: i16,
    /// Bytes 204..206: poison carried by attacks added.
    pub add_attack_poi: i16,
    /// Bytes 206..208: the one character who may train with it.
    pub use_only: i16,
    /// Bytes 208..210: the kind of inner force needed.
    pub magic_type: i16,
    /// Bytes 210..212: inner force needed.
    pub magic_req: i16,
    /// Bytes 212..214: attack needed.
    pub att_req: i16,
    /// Bytes 214..216: agility needed.
    pub agile_req: i16,
    /// Bytes 216..218: use of poison needed.
    pub poi_req: i16,
    /// Bytes 218..220: healing needed.
    pub heal_req: i16,
    /// Bytes 220..222: curing of poison needed.
    pub depoi_req: i16,
    /// Bytes 222..224: fist skill needed.
    pub fist_req: i16,
    /// Bytes 224..226: sword skill needed.
    pub sword_req: i16,
    /// Bytes 226..228: sabre skill needed.
    pub knife_req: i16,
    /// Bytes 228..230: skill with special weapons needed.
    pub sp_weapon_req: i16,
    /// Bytes 230..232: skill with hidden weapons needed.
    pub arrow_req: i16,
    /// Bytes 232..234: aptitude needed.
    pub ability_req: i16,
    /// Bytes 234..236: experience needed.
    pub exp_req: i16,
    /// Bytes 236..238: experience needed to make an item.
    pub item_exp: i16,
    /// Bytes 238..240: the material needed.
    pub meterial_req: i16,
    /// One value every 4 bytes from byte 240: the items that can be made.
    pub items: [i16; 5],
    /// One value every 4 bytes from byte 242: how much material each of them takes.
    pub item_reqs: [i16; 5],
}

impl Person {
    /// Every field holds what `data` stores at the field's place in the
    /// layout.
    pub open spec fn decoded_from(&self, data: Seq<u8>) -> bool {
        &&& self.code == i16_at(data, 0)
        &&& self.avatar == i16_at(data, 2)
        &&& self.life_gain == i16_at(data, 4)
        &&& self.useless == i16_at(data, 6)
        &&& self.name@ == data.subrange(8, 28)
        &&& self.alias@ == data.subrange(28, 48)
        &&& self.male == i16_at(data, 48)
        &&& self.level == i16_at(data, 50)
        &&& self.exp == u16_at(data, 52)
        &&& self.life == i16_at(data, 54)
        &&& self.life_max == i16_at(data, 56)
        &&& self.injure == i16_at(data, 58)
        &&& self.tox == i16_at(data, 60)
        &&& self.vatity == i16_at(data, 62)
        &&& self.item_familiar == i16_at(data, 64)
        &&& self.weapon == i16_at(data, 66)
        &&& self.armor == i16_at(data, 68)
        &&& self.action_frames@ == i16s_at(data, 70, 2, 5)
        &&& self.action_delays@ == i16s_at(data, 80, 2, 5)
        &&& self.action_audio_delays@ == i16s_at(data, 90, 2, 5)
        &&& self.neili_status == i16_at(data, 100)
        &&& self.neili == i16_at(data, 102)
        &&& self.neili_max == i16_at(data, 104)
        &&& self.attack == i16_at(data, 106)
        &&& self.agile == i16_at(data, 108)
        &&& self.defence == i16_at(data, 110)
        &&& self.cure == i16_at(data, 112)
        &&& self.poison == i16_at(data, 114)
        &&& self.depoison == i16_at(data, 116)
        &&& self.poison_def == i16_at(data, 118)
        &&& self.fist == i16_at(data, 120)
        &&& self.sword == i16_at(data, 122)
        &&& self.knife == i16_at(data, 124)
        &&& self.other_weapon == i16_at(data, 126)
        &&& self.fly_weapon == i16_at(data, 128)
        &&& self.wknowlege == i16_at(data, 130)
        &&& self.sanity == i16_at(data, 132)
        &&& self.with_poison == i16_at(data, 134)
        &&& self.double_att == i16_at(data, 136)
        &&& self.reputation == i16_at(data, 138)
        &&& self.talent == i16_at(data, 140)
        &&& self.item_train == i16_at(data, 142)
        &&& self.item_point == i16_at(data, 144)
        &&& self.skills@ == i16s_at(data, 146, 2, 10)
        &&& self.skill_levels@ == i16s_at(data, 166, 2, 10)
        &&& self.items@ == i16s_at(data, 186, 2, 4)
        &&& self.item_nums@ == i16s_at(data, 194, 2, 4)
    }

    /// Decoding is a function of the bytes: two records that were decoded
    /// from the same bytes are equal, field for field.
    pub proof fn lemma_decoded_once(a: Person, b: Person, data: Seq<u8>)
        requires
            a.decoded_from(data),
            b.decoded_from(data),
        ensures
            a == b,
    {
        assert(a.name =~= b.name);
        assert(a.alias =~= b.alias);
        assert(a.action_frames =~= b.action_frames);
        assert(a.action_delays =~= b.action_delays);
        assert(a.action_audio_delays =~= b.action_audio_delays);
        assert(a.skills =~= b.skills);
        assert(a.skill_levels =~= b.skill_levels);
        assert(a.items =~= b.items);
        assert(a.item_nums =~= b.item_nums);
    }

    /// Only the bytes of the layout count: what was decoded from `data` is
    /// also what any bytes that start the same way decode to.
    pub proof fn lemma_reads_layout_only(self, data: Seq<u8>, other: Seq<u8>)
        requires
            data.len() >= PERSON_SIZE,
            other.len() >= PERSON_SIZE,
            data.subrange(0, PERSON_SIZE as int) == other.subrange(0, PERSON_SIZE as int),
            self.decoded_from(data),
        ensures
            self.decoded_from(other),
    {
        assert forall|k: int| 0 <= k < PERSON_SIZE implies data[k] == other[k] by {
            assert(data.subrange(0, PERSON_SIZE as int)[k] == data[k]);
            assert(other.subrange(0, PERSON_SIZE as int)[k] == other[k]);
        }
        assert(data.subrange(8, 28) =~= other.subrange(8, 28));
        assert(data.subrange(28, 48) =~= other.subrange(28, 48));
        assert(i16s_at(data, 70, 2, 5) =~= i16s_at(other, 70, 2, 5));
        assert(i16s_at(data, 80, 2, 5) =~= i16s_at(other, 80, 2, 5));
        assert(i16s_at(data, 90, 2, 5) =~= i16s_at(other, 90, 2, 5));
        assert(i16s_at(data, 146, 2, 10) =~= i16s_at(other, 146, 2, 10));
        assert(i16s_at(data, 166, 2, 10) =~= i16s_at(other, 166, 2, 10));
        assert(i16s_at(data, 186, 2, 4) =~= i16s_at(other, 186, 2, 4));
        assert(i16s_at(data, 194, 2, 4) =~= i16s_at(other, 194, 2, 4));
    }

    /// Decodes the record at the front of `data`.  It fails, with
    /// `TruncatedRecord`, exactly when `data` is shorter than the layout.
    pub fn new(data: &[u8]) -> (r: Result<Person, DecodeError>)
        ensures
            match r {
                Ok(v) => data@.len() >= PERSON_SIZE && v.decoded_from(data@),
                Err(e) => data@.len() < PERSON_SIZE && e == DecodeError::TruncatedRecord,
            },
    {
        if data.len() < PERSON_SIZE {
            return Err(DecodeError::TruncatedRecord);
        }
        Ok(
            Person {
                code: get_i16(data, 0),
                avatar: get_i16(data, 2),
                life_gain: get_i16(data, 4),
                useless: get_i16(data, 6),
                name: get_bytes(data, 8),
                alias: get_bytes(data, 28),
                male: get_i16(data, 48),
                level: get_i16(data, 50),
                exp: get_u16(data, 52),
                life: get_i16(data, 54),
                life_max: get_i16(data, 56),
                injure: get_i16(data, 58),
                tox: get_i16(data, 60),
                vatity: get_i16(data, 62),
                item_familiar: get_i16(data, 64),
                weapon: get_i16(data, 66),
                armor: get_i16(data, 68),
                action_frames: get_i16s(data, 70, 2),
                action_delays: get_i16s(data, 80, 2),
                action_audio_delays: get_i16s(data, 90, 2),
                neili_status: get_i16(data, 100),
                neili: get_i16(data, 102),
                neili_max: get_i16(data, 104),
                attack: get_i16(data, 106),
                agile: get_i16(data, 108),
                defence: get_i16(data, 110),
                cure: get_i16(data, 112),
                poison: get_i16(data, 114),
                depoison: get_i16(data, 116),
                poison_def: get_i16(data, 118),
                fist: get_i16(data, 120),
                sword: get_i16(data, 122),
                knife: get_i16(data, 124),
                other_weapon: get_i16(data, 126),
                fly_weapon: get_i16(data, 128),
                wknowlege: get_i16(data, 130),
                sanity: get_i16(data, 132),
                with_poison: get_i16(data, 134),
                double_att: get_i16(data, 136),
                reputation: get_i16(data, 138),
                talent: get_i16(data, 140),
                item_train: get_i16(data, 142),
                item_point: get_i16(data, 144),
                skills: get_i16s(data, 146, 2),
                skill_levels: get_i16s(data, 166, 2),
                items: get_i16s(data, 186, 2),
                item_nums: get_i16s(data, 194, 2),
            },
        )
    }

    /// The name as text; `None` where its bytes are not UTF-8.
    pub fn name(&self) -> (r: Option<String>)
        ensures
            match r {
                Some(s) => str_of(self.name@) == Some(s@),
                None => str_of(self.name@).is_none(),
            },
    {
        to_str(self.name.as_slice())
    }

    /// The nickname as text; `None` where its bytes are not UTF-8.
    pub fn alias(&self) -> (r: Option<String>)
        ensures
            match r {
                Some(s) => str_of(self.alias@) == Some(s@),
                None => str_of(self.alias@).is_none(),
            },
    {
        to_str(self.alias.as_slice())
    }
}

impl Base {
    /// Every field holds what `data` stores at the field's place in the
    /// layout.
    pub open spec fn decoded_from(&self, data: Seq<u8>) -> bool {
        &&& self.boat == i16_at(data, 0)
        &&& self.useless == i16_at(data, 2)
        &&& self.person_x == i16_at(data, 4)
        &&& self.person_y == i16_at(data, 6)
        &&& self.person_x_scene == i16_at(data, 8)
        &&& self.person_y_scene == i16_at(data, 10)
        &&& self.person_dir == i16_at(data, 12)
        &&& self.boat_x == i16_at(data, 14)
        &&& self.boat_y == i16_at(data, 16)
        &&& self.boat_x1 == i16_at(data, 18)
        &&& self.boat_y1 == i16_at(data, 20)
        &&& self.boat_dir == i16_at(data, 22)
        &&& self.teams@ == i16s_at(data, 24, 2, 6)
        &&& self.items@ == i16_pairs_at(data, 36, 200)
    }

    /// Decoding is a function of the bytes: two records that were decoded
    /// from the same bytes are equal, field for field.
    pub proof fn lemma_decoded_once(a: Base, b: Base, data: Seq<u8>)
        requires
            a.decoded_from(data),
            b.decoded_from(data),
        ensures
            a == b,
    {
        assert(a.teams =~= b.teams);
        assert(a.items =~= b.items);
    }

    /// Only the bytes of the layout count: what was decoded from `data` is
    /// also what any bytes that start the same way decode to.
    pub proof fn lemma_reads_layout_only(self, data: Seq<u8>, other: Seq<u8>)
        requires
            data.len() >= BASE_SIZE,
            other.len() >= BASE_SIZE,
            data.subrange(0, BASE_SIZE as int) == other.subrange(0, BASE_SIZE as int),
            self.decoded_from(data),
        ensures
            self.decoded_from(other),
    {
        assert forall|k: int| 0 <= k < BASE_SIZE implies data[k] == other[k] by {
            assert(data.subrange(0, BASE_SIZE as int)[k] == data[k]);
            assert(other.subrange(0, BASE_SIZE as int)[k] == other[k]);
        }
        assert(i16s_at(data, 24, 2, 6) =~= i16s_at(other, 24, 2, 6));
        assert(i16_pairs_at(data, 36, 200) =~= i16_pairs_at(other, 36, 200));
    }

    /// Decodes the record at the front of `data`.  It fails, with
    /// `TruncatedRecord`, exactly when `data` is shorter than the layout.
    pub fn new(data: &[u8]) -> (r: Result<Base, DecodeError>)
        ensures
            match r {
                Ok(v) => data@.len() >= BASE_SIZE && v.decoded_from(data@),
                Err(e) => data@.len() < BASE_SIZE && e == DecodeError::TruncatedRecord,
            },
    {
        if data.len() < BASE_SIZE {
            return Err(DecodeError::TruncatedRecord);
        }
        Ok(
            Base {
                boat: get_i16(data, 0),
                useless: get_i16(data, 2),
                person_x: get_i16(data, 4),
                person_y: get_i16(data, 6),
                person_x_scene: get_i16(data, 8),
                person_y_scene: get_i16(data, 10),
                person_dir: get_i16(data, 12),
                boat_x: get_i16(data, 14),
                boat_y: get_i16(data, 16),
                boat_x1: get_i16(data, 18),
                boat_y1: get_i16(data, 20),
                boat_dir: get_i16(data, 22),
                teams: get_i16s(data, 24, 2),
                items: get_i16_pairs(data, 36),
            },
        )
    }
}

impl Scene {
    /// Every field holds what `data` stores at the field's place in the
    /// layout.
    pub open spec fn decoded_from(&self, data: Seq<u8>) -> bool {
        &&& self.code == i16_at(data, 0)
        &&& self.name@ == data.subrange(2, 22)
        &&& self.leave_music == i16_at(data, 22)
        &&& self.enter_music == i16_at(data, 24)
        &&& self.jump == i16_at(data, 26)
        &&& self.enter_pre == i16_at(data, 28)
        &&& self.out_entry_x1 == i16_at(data, 30)
        &&& self.out_entry_y1 == i16_at(data, 32)
        &&& self.out_entry_x2 == i16_at(data, 34)
        &&& self.out_entry_y2 == i16_at(data, 36)
        &&& self.entry_x == i16_at(data, 38)
        &&& self.entry_y == i16_at(data, 40)
        &&& self.exit_x1 == i16_at(data, 42)
        &&& self.exit_x2 == i16_at(data, 44)
        &&& self.exit_x3 == i16_at(data, 46)
        &&& self.exit_y1 == i16_at(data, 48)
        &&& self.exit_y2 == i16_at(data, 50)
        &&& self.exit_y3 == i16_at(data, 52)
        &&& self.jump_x1 == i16_at(data, 54)
        &&& self.jump_y1 == i16_at(data, 56)
        &&& self.jump_x2 == i16_at(data, 58)
        &&& self.jump_y2 == i16_at(data, 60)
    }

    /// Decoding is a function of the bytes: two records that were decoded
    /// from the same bytes are equal, field for field.
    pub proof fn lemma_decoded_once(a: Scene, b: Scene, data: Seq<u8>)
        requires
            a.decoded_from(data),
            b.decoded_from(data),
        ensures
            a == b,
    {
        assert(a.name =~= b.name);
    }

    /// Only the bytes of the layout count: what was decoded from `data` is
    /// also what any bytes that start the same way decode to.
    pub proof fn lemma_reads_layout_only(self, data: Seq<u8>, other: Seq<u8>)
        requires
            data.len() >= SCENE_SIZE,
            other.len() >= SCENE_SIZE,
            data.subrange(0, SCENE_SIZE as int) == other.subrange(0, SCENE_SIZE as int),
            self.decoded_from(data),
        ensures
            self.decoded_from(other),
    {
        assert forall|k: int| 0 <= k < SCENE_SIZE implies data[k] == other[k] by {
            assert(data.subrange(0, SCENE_SIZE as int)[k] == data[k]);
            assert(other.subrange(0, SCENE_SIZE as int)[k] == other[k]);
        }
        assert(data.subrange(2, 22) =~= other.subrange(2, 22));
    }

    /// Decodes the record at the front of `data`.  It fails, with
    /// `TruncatedRecord`, exactly when `data` is shorter than the layout.
    pub fn new(data: &[u8]) -> (r: Result<Scene, DecodeError>)
        ensures
            match r {
                Ok(v) => data@.len() >= SCENE_SIZE && v.decoded_from(data@),
                Err(e) => data@.len() < SCENE_SIZE && e == DecodeError::TruncatedRecord,
            },
    {
        if data.len() < SCENE_SIZE {
            return Err(DecodeError::TruncatedRecord);
        }
        Ok(
            Scene {
                code: get_i16(data, 0),
                name: get_bytes(data, 2),
                leave_music: get_i16(data, 22),
                enter_music: get_i16(data, 24),
                jump: get_i16(data, 26),
                enter_pre: get_i16(data, 28),
                out_entry_x1: get_i16(data, 30),
                out_entry_y1: get_i16(data, 32),
                out_entry_x2: get_i16(data, 34),
                out_entry_y2: get_i16(data, 36),
                entry_x: get_i16(data, 38),
                entry_y: get_i16(data, 40),
                exit_x1: get_i16(data, 42),
                exit_x2: get_i16(data, 44),
                exit_x3: get_i16(data, 46),
                exit_y1: get_i16(data, 48),
                exit_y2: get_i16(data, 50),
                exit_y3: get_i16(data, 52),
                jump_x1: get_i16(data, 54),
                jump_y1: get_i16(data, 56),
                jump_x2: get_i16(data, 58),
                jump_y2: get_i16(data, 60),
            },
        )
    }

    /// The name as text; `None` where its bytes are not UTF-8.
    pub fn name(&self) -> (r: Option<String>)
        ensures
            match r {
                Some(s) => str_of(self.name@) == Some(s@),
                None => str_of(self.name@).is_none(),
            },
    {
        to_str(self.name.as_slice())
    }
}

impl Thing {
    /// Every field holds what `data` stores at the field's place in the
    /// layout.
    pub open spec fn decoded_from(&self, data: Seq<u8>) -> bool {
        &&& self.code == i16_at(data, 0)
        &&& self.name@ == data.subrange(2, 42)
        &&& self.name2@ == data.subrange(42, 82)
        &&& self.desp@ == data.subrange(82, 142)
        &&& self.wugong == i16_at(data, 142)
        &&& self.animate_code == i16_at(data, 144)
        &&& self.user == i16_at(data, 146)
        &&& self.equip_type == i16_at(data, 148)
        &&& self.show == i16_at(data, 150)
        &&& self.typ == i16_at(data, 152)
        &&& self.unknown5 == i16_at(data, 154)
        &&& self.unknown6 == i16_at(data, 156)
        &&& self.unknown7 == i16_at(data, 158)
        &&& self.add_life == i16_at(data, 160)
        &&& self.add_max_life == i16_at(data, 162)
        &&& self.add_detox == i16_at(data, 164)
        &&& self.add_vat == i16_at(data, 166)
        &&& self.change_mag == i16_at(data, 168)
        &&& self.add_mag == i16_at(data, 170)
        &&& self.add_max_mag == i16_at(data, 172)
        &&& self.add_attack == i16_at(data, 174)
        &&& self.add_agile == i16_at(data, 176)
        &&& self.add_def == i16_at(data, 178)
        &&& self.add_heal == i16_at(data, 180)
        &&& self.add_poison == i16_at(data, 182)
        &&& self.add_depoison == i16_at(data, 184)
        &&& self.add_anti_poi == i16_at(data, 186)
        &&& self.add_fist == i16_at(data, 188)
        &&& self.add_sword == i16_at(data, 190)
        &&& self.add_knife == i16_at(data, 192)
        &&& self.add_special_weapon == i16_at(data, 194)
        &&& self.add_arrow == i16_at(data, 196)
        &&& self.add_know == i16_at(data, 198)
        &&& self.add_rep == i16_at(data, 200)
        &&& self.add_attack_time == i16_at(data, 202)
        &&& self.add_attack_poi == i16_at(data, 204)
        &&& self.use_only == i16_at(data, 206)
        &&& self.magic_type == i16_at(data, 208)
        &&& self.magic_req == i16_at(data, 210)
        &&& self.att_req == i16_at(data, 212)
        &&& self.agile_req == i16_at(data, 214)
        &&& self.poi_req == i16_at(data, 216)
        &&& self.heal_req == i16_at(data, 218)
        &&& self.depoi_req == i16_at(data, 220)
        &&& self.fist_req == i16_at(data, 222)
        &&& self.sword_req == i16_at(data, 224)
        &&& self.knife_req == i16_at(data, 226)
        &&& self.sp_weapon_req == i16_at(data, 228)
        &&& self.arrow_req == i16_at(data, 230)
        &&& self.ability_req == i16_at(data, 232)
        &&& self.exp_req == i16_at(data, 234)
        &&& self.item_exp == i16_at(data, 236)
        &&& self.meterial_req == i16_at(data, 238)
        &&& self.items@ == i16s_at(data, 240, 4, 5)
        &&& self.item_reqs@ == i16s_at(data, 242, 4, 5)
    }

    /// Decoding is a function of the bytes: two records that were decoded
    /// from the same bytes are equal, field for field.
    pub proof fn lemma_decoded_once(a: Thing, b: Thing, data: Seq<u8>)
        requires
            a.decoded_from(data),
            b.decoded_from(data),
        ensures
            a == b,
    {
        assert(a.name =~= b.name);
        assert(a.name2 =~= b.name2);
        assert(a.desp =~= b.desp);
        assert(a.items =~= b.items);
        assert(a.item_reqs =~= b.item_reqs);
    }

    /// Only the bytes of the layout count: what was decoded from `data` is
    /// also what any bytes that start the same way decode to.
    pub proof fn lemma_reads_layout_only(self, data: Seq<u8>, other: Seq<u8>)
        requires
            data.len() >= THING_SIZE,
            other.len() >= THING_SIZE,
            data.subrange(0, THING_SIZE as int) == other.subrange(0, THING_SIZE as int),
            self.decoded_from(data),
        ensures
            self.decoded_from(other),
    {
        assert forall|k: int| 0 <= k < THING_SIZE implies data[k] == other[k] by {
            assert(data.subrange(0, THING_SIZE as int)[k] == data[k]);
            assert(other.subrange(0, THING_SIZE as int)[k] == other[k]);
        }
        assert(data.subrange(2, 42) =~= other.subrange(2, 42));
        assert(data.subrange(42, 82) =~= other.subrange(42, 82));
        assert(data.subrange(82, 142) =~= other.subrange(82, 142));
        assert(i16s_at(data, 240, 4, 5) =~= i16s_at(other, 240, 4, 5));
        assert(i16s_at(data, 242, 4, 5) =~= i16s_at(other, 242, 4, 5));
    }

    /// Decodes the record at the front of `data`.  It fails, with
    /// `TruncatedRecord`, exactly when `data` is shorter than the layout.
    pub fn new(data: &[u8]) -> (r: Result<Thing, DecodeError>)
        ensures
            match r {
                Ok(v) => data@.len() >= THING_SIZE && v.decoded_from(data@),
                Err(e) => data@.len() < THING_SIZE && e == DecodeError::TruncatedRecord,
            },
    {
        if data.len() < THING_SIZE {
            return Err(DecodeError::TruncatedRecord);
        }
        Ok(
            Thing {
                code: get_i16(data, 0),
                name: get_bytes(data, 2),
                name2: get_bytes(data, 42),
                desp: get_bytes(data, 82),
                wugong: get_i16(data, 142),
                animate_code: get_i16(data, 144),
                user: get_i16(data, 146),
                equip_type: get_i16(data, 148),
                show: get_i16(data, 150),
                typ: get_i16(data, 152),
                unknown5: get_i16(data, 154),
                unknown6: get_i16(data, 156),
                unknown7: get_i16(data, 158),
                add_life: get_i16(data, 160),
                add_max_life: get_i16(data, 162),
                add_detox: get_i16(data, 164),
                add_vat: get_i16(data, 166),
                change_mag: get_i16(data, 168),
                add_mag: get_i16(data, 170),
                add_max_mag: get_i16(data, 172),
                add_attack: get_i16(data, 174),
                add_agile: get_i16(data, 176),
                add_def: get_i16(data, 178),
                add_heal: get_i16(data, 180),
                add_poison: get_i16(data, 182),
                add_depoison: get_i16(data, 184),
                add_anti_poi: get_i16(data, 186),
                add_fist: get_i16(data, 188),
                add_sword: get_i16(data, 190),
                add_knife: get_i16(data, 192),
                add_special_weapon: get_i16(data, 194),
                add_arrow: get_i16(data, 196),
                add_know: get_i16(data, 198),
                add_rep: get_i16(data, 200),
                add_attack_time: get_i16(data, 202),
                add_attack_poi: get_i16(data, 204),
                use_only: get_i16(data, 206),
                magic_type: get_i16(data, 208),
                magic_req: get_i16(data, 210),
                att_req: get_i16(data, 212),
                agile_req: get_i16(data, 214),
                poi_req: get_i16(data, 216),
                heal_req: get_i16(data, 218),
                depoi_req: get_i16(data, 220),
                fist_req: get_i16(data, 222),
                sword_req: get_i16(data, 224),
                knife_req: get_i16(data, 226),
                sp_weapon_req: get_i16(data, 228),
                arrow_req: get_i16(data, 230),
                ability_req: get_i16(data, 232),
                exp_req: get_i16(data, 234),
                item_exp: get_i16(data, 236),
                meterial_req: get_i16(data, 238),
                items: get_i16s(data, 240, 4),
                item_reqs: get_i16s(data, 242, 4),
            },
        )
    }

    /// The name as text; `None` where its bytes are not UTF-8.
    pub fn name(&self) -> (r: Option<String>)
        ensures
            match r {
                Some(s) => str_of(self.name@) == Some(s@),
                None => str_of(self.name@).is_none(),
            },
    {
        to_str(self.name.as_slice())
    }

    /// The second name as text; `None` where its bytes are not UTF-8.
    pub fn name2(&self) -> (r: Option<String>)
        ensures
            match r {
                Some(s) => str_of(self.name2@) == Some(s@),
                None => str_of(self.name2@).is_none(),
            },
    {
        to_str(self.name2.as_slice())
    }

    /// The description as text; `None` where its bytes are not UTF-8.
    pub fn desp(&self) -> (r: Option<String>)
        ensures
            match r {
                Some(s) => str_of(self.desp@) == Some(s@),
                None => str_of(self.desp@).is_none(),
            },
    {
        to_str(self.desp.as_slice())
    }
}

/// The index of the first entry at or after `from` that holds `thing`, or
/// the list's length where there is none.
pub open spec fn entry_of(items: Seq<(i32, i32)>, thing: i32, from: int) -> int
    decreases items.len() - from,
{
    if from >= items.len() || items[from].0 == thing {
        from
    } else {
        entry_of(items, thing, from + 1)
    }
}

/// The count that the backpack would hold of `thing` fits the entry.  A
/// backpack without `thing` takes any count.
pub open spec fn backpack_takes(items: Seq<(i32, i32)>, thing: i32, size: i32) -> bool {
    let k = entry_of(items, thing, 0);
    k < items.len() ==> i32::MIN <= items[k].1 + size <= i32::MAX
}

/// The backpack after `size` of `thing` came in, or went out where `size` is
/// negative.  A new item is put at the end; a known one has its count
/// changed, and leaves the backpack when the count reaches 0.
pub open spec fn backpack_with(items: Seq<(i32, i32)>, thing: i32, size: i32) -> Seq<(i32, i32)> {
    let k = entry_of(items, thing, 0);
    if k >= items.len() {
        items.push((thing, size))
    } else if items[k].1 + size == 0 {
        items.remove(k)
    } else {
        items.update(k, (thing, (items[k].1 + size) as i32))
    }
}

/// Adds `size` of `thing` to the backpack.
pub fn add_to_backpack(backpack: &mut Backpack, thing: i16, size: i16)
    requires
        backpack_takes(old(backpack).items@, thing as i32, size as i32),
    ensures
        final(backpack).items@ == backpack_with(old(backpack).items@, thing as i32, size as i32),
{
    let n: usize = backpack.items.len();
    let mut k: usize = 0;
    while k < n && backpack.items[k].0 != thing as i32
        invariant
            k <= n,
            n == backpack.items@.len(),
            backpack.items@ == old(backpack).items@,
            entry_of(backpack.items@, thing as i32, 0) == entry_of(
                backpack.items@,
                thing as i32,
                k as int,
            ),
        decreases n - k,
    {
        k += 1;
    }
    if k == n {
        backpack.items.push((thing as i32, size as i32));
    } else {
        let count: i32 = backpack.items[k].1 + size as i32;
        if count == 0 {
            backpack.items.remove(k);
        } else {
            backpack.items.set(k, (thing as i32, count));
        }
    }
}

/// The raw bytes of a martial-art record.
pub struct Wugong(pub [u8; 146]);

/// The raw bytes of a shop record.
pub struct Shop(pub [u8; 30]);

} // verus!
