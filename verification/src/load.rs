//! The game's tables: the records of the main archive, decoded once.
//!
//! Record 0 of that archive holds the base state, record 1 the characters,
//! record 2 the items and record 3 the scenes, each as records of one layout
//! that stand one after another.

use crate::assets::GrpAsset;
use crate::error::DecodeError;
use crate::records::{
    Base, Person, Scene, Shop, Thing, Wugong, BASE_SIZE, PERSON_SIZE, SCENE_SIZE, THING_SIZE,
};
use vstd::prelude::*;
use vstd::slice::slice_subrange;

verus! {

/// Piece `k` of a record that is cut into pieces of `size` bytes.
pub open spec fn chunk(record: Seq<u8>, size: int, k: int) -> Seq<u8> {
    record.subrange(k * size, k * size + size)
}

/// The number of whole pieces of `size` bytes in a record.
pub open spec fn chunks(record: Seq<u8>, size: int) -> int {
    record.len() as int / size
}

/// The record is made of whole pieces of `size` bytes, with nothing left
/// over.
pub open spec fn in_chunks(record: Seq<u8>, size: int) -> bool {
    record.len() as int % size == 0
}

/// The record is there and is made of whole pieces of `size` bytes.
pub open spec fn whole_chunks(record: Option<Seq<u8>>, size: int) -> bool {
    record matches Some(bytes) && in_chunks(bytes, size)
}

/// The archive holds what the tables are made from: a base state, and whole
/// characters, items and scenes.
pub open spec fn loadable(asset: GrpAsset) -> bool {
    &&& asset.record(0) matches Some(bytes) && bytes.len() >= BASE_SIZE
    &&& whole_chunks(asset.record(1), PERSON_SIZE as int)
    &&& whole_chunks(asset.record(2), THING_SIZE as int)
    &&& whole_chunks(asset.record(3), SCENE_SIZE as int)
}

/// The tables of a game.
pub struct GameData {
    pub base: Base,
    pub people: Vec<Person>,
    pub things: Vec<Thing>,
    pub scenes: Vec<Scene>,
    pub wukongs: Vec<Wugong>,
    pub shops: Vec<Shop>,
}

/// Decodes the characters that stand one after another in `record`.  It
/// fails, with `TruncatedRecord`, exactly when the last of them is cut short.
pub fn decode_people(record: &[u8]) -> (r: Result<Vec<Person>, DecodeError>)
    ensures
        match r {
            Ok(people) => {
                &&& in_chunks(record@, PERSON_SIZE as int)
                &&& people@.len() == chunks(record@, PERSON_SIZE as int)
                &&& forall|k: int|
                    0 <= k < people@.len() ==> (#[trigger] people@[k]).decoded_from(
                        chunk(record@, PERSON_SIZE as int, k),
                    )
            },
            Err(e) => !in_chunks(record@, PERSON_SIZE as int) && e == DecodeError::TruncatedRecord,
        },
{
    let len: usize = record.len();
    if len % PERSON_SIZE != 0 {
        return Err(DecodeError::TruncatedRecord);
    }
    let n: usize = len / PERSON_SIZE;
    let mut out: Vec<Person> = Vec::new();
    let mut k: usize = 0;
    while k < n
        invariant
            k <= n,
            len == record@.len(),
            len == n * PERSON_SIZE,
            out@.len() == k,
            forall|j: int|
                0 <= j < k ==> (#[trigger] out@[j]).decoded_from(
                    chunk(record@, PERSON_SIZE as int, j),
                ),
        decreases n - k,
    {
        let piece = slice_subrange(record, k * PERSON_SIZE, k * PERSON_SIZE + PERSON_SIZE);
        match Person::new(piece) {
            Ok(person) => out.push(person),
            Err(e) => {
                return Err(e);
            },
        }
        k += 1;
    }
    Ok(out)
}

/// Decodes the items that stand one after another in `record`.  It fails,
/// with `TruncatedRecord`, exactly when the last of them is cut short.
pub fn decode_things(record: &[u8]) -> (r: Result<Vec<Thing>, DecodeError>)
    ensures
        match r {
            Ok(things) => {
                &&& in_chunks(record@, THING_SIZE as int)
                &&& things@.len() == chunks(record@, THING_SIZE as int)
                &&& forall|k: int|
                    0 <= k < things@.len() ==> (#[trigger] things@[k]).decoded_from(
                        chunk(record@, THING_SIZE as int, k),
                    )
            },
            Err(e) => !in_chunks(record@, THING_SIZE as int) && e == DecodeError::TruncatedRecord,
        },
{
    let len: usize = record.len();
    if len % THING_SIZE != 0 {
        return Err(DecodeError::TruncatedRecord);
    }
    let n: usize = len / THING_SIZE;
    let mut out: Vec<Thing> = Vec::new();
    let mut k: usize = 0;
    while k < n
        invariant
            k <= n,
            len == record@.len(),
            len == n * THING_SIZE,
            out@.len() == k,
            forall|j: int|
                0 <= j < k ==> (#[trigger] out@[j]).decoded_from(
                    chunk(record@, THING_SIZE as int, j),
                ),
        decreases n - k,
    {
        let piece = slice_subrange(record, k * THING_SIZE, k * THING_SIZE + THING_SIZE);
        match Thing::new(piece) {
            Ok(thing) => out.push(thing),
            Err(e) => {
                return Err(e);
            },
        }
        k += 1;
    }
    Ok(out)
}

/// Decodes the scenes that stand one after another in `record`.  It fails,
/// with `TruncatedRecord`, exactly when the last of them is cut short.
pub fn decode_scenes(record: &[u8]) -> (r: Result<Vec<Scene>, DecodeError>)
    ensures
        match r {
            Ok(scenes) => {
                &&& in_chunks(record@, SCENE_SIZE as int)
                &&& scenes@.len() == chunks(record@, SCENE_SIZE as int)
                &&& forall|k: int|
                    0 <= k < scenes@.len() ==> (#[trigger] scenes@[k]).decoded_from(
                        chunk(record@, SCENE_SIZE as int, k),
                    )
            },
            Err(e) => !in_chunks(record@, SCENE_SIZE as int) && e == DecodeError::TruncatedRecord,
        },
{
    let len: usize = record.len();
    if len % SCENE_SIZE != 0 {
        return Err(DecodeError::TruncatedRecord);
    }
    let n: usize = len / SCENE_SIZE;
    let mut out: Vec<Scene> = Vec::new();
    let mut k: usize = 0;
    while k < n
        invariant
            k <= n,
            len == record@.len(),
            len == n * SCENE_SIZE,
            out@.len() == k,
            forall|j: int|
                0 <= j < k ==> (#[trigger] out@[j]).decoded_from(
                    chunk(record@, SCENE_SIZE as int, j),
                ),
        decreases n - k,
    {
        let piece = slice_subrange(record, k * SCENE_SIZE, k * SCENE_SIZE + SCENE_SIZE);
        match Scene::new(piece) {
            Ok(scene) => out.push(scene),
            Err(e) => {
                return Err(e);
            },
        }
        k += 1;
    }
    Ok(out)
}

impl GameData {
    /// The tables hold what the archive's first four records encode.  The
    /// martial arts and the shops are not read from it and stay empty.
    pub open spec fn loaded_from(&self, asset: GrpAsset) -> bool {
        &&& self.base.decoded_from(asset.record(0).unwrap())
        &&& self.people@.len() == chunks(asset.record(1).unwrap(), PERSON_SIZE as int)
        &&& forall|k: int|
            0 <= k < self.people@.len() ==> (#[trigger] self.people@[k]).decoded_from(
                chunk(asset.record(1).unwrap(), PERSON_SIZE as int, k),
            )
        &&& self.things@.len() == chunks(asset.record(2).unwrap(), THING_SIZE as int)
        &&& forall|k: int|
            0 <= k < self.things@.len() ==> (#[trigger] self.things@[k]).decoded_from(
                chunk(asset.record(2).unwrap(), THING_SIZE as int, k),
            )
        &&& self.scenes@.len() == chunks(asset.record(3).unwrap(), SCENE_SIZE as int)
        &&& forall|k: int|
            0 <= k < self.scenes@.len() ==> (#[trigger] self.scenes@[k]).decoded_from(
                chunk(asset.record(3).unwrap(), SCENE_SIZE as int, k),
            )
        &&& self.wukongs@.len() == 0
        &&& self.shops@.len() == 0
    }

    /// Decodes the tables.  It fails, with `TruncatedRecord`, exactly when
    /// the archive is not `loadable`: when one of the four records is
    /// missing, the base state is cut short, or a table ends inside a record.
    pub fn new(asset: GrpAsset) -> (r: Result<GameData, DecodeError>)
        ensures
            match r {
                Ok(data) => loadable(asset) && data.loaded_from(asset),
                Err(e) => !loadable(asset) && e == DecodeError::TruncatedRecord,
            },
    {
        let base = match asset.idx(0) {
            Some(bytes) => match Base::new(bytes) {
                Ok(base) => base,
                Err(e) => {
                    return Err(e);
                },
            },
            None => {
                return Err(DecodeError::TruncatedRecord);
            },
        };
        let people = match asset.idx(1) {
            Some(bytes) => match decode_people(bytes) {
                Ok(people) => people,
                Err(e) => {
                    return Err(e);
                },
            },
            None => {
                return Err(DecodeError::TruncatedRecord);
            },
        };
        let things = match asset.idx(2) {
            Some(bytes) => match decode_things(bytes) {
                Ok(things) => things,
                Err(e) => {
                    return Err(e);
                },
            },
            None => {
                return Err(DecodeError::TruncatedRecord);
            },
        };
        let scenes = match asset.idx(3) {
            Some(bytes) => match decode_scenes(bytes) {
                Ok(scenes) => scenes,
                Err(e) => {
                    return Err(e);
                },
            },
            None => {
                return Err(DecodeError::TruncatedRecord);
            },
        };
        Ok(GameData { base, people, things, scenes, wukongs: Vec::new(), shops: Vec::new() })
    }
}

} // verus!
