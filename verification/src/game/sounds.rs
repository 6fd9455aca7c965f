//! Which sounds blocks and events make, and when mood sounds play.

use vstd::prelude::*;
use super::dispatch::EntityKind;
use crate::text::{copy_text, joined};
use super::rules::BlockState;

verus! {

/// The material that names a block's sounds.
#[derive(Debug, Clone, Copy, PartialEq, Eq, Structural)]
pub enum Material {
    Wood,
    Gravel,
    Sand,
    Grass,
    Glass,
    Cloth,
    Stone,
}

/// Blocks that sound of wood.
pub open spec fn wooden(id: int) -> bool {
    ||| id == 5
    ||| id == 17
    ||| id == 47
    ||| id == 53
    ||| id == 54
    ||| id == 58
    ||| 63 <= id <= 65
    ||| id == 85
    ||| id == 96
    ||| id == 107
    ||| 134 <= id <= 136
    ||| id == 146
    ||| 162 <= id <= 164
    ||| 183 <= id <= 187
}

/// What a block sounds of: stone unless known otherwise.
pub open spec fn spec_material(id: int) -> Material {
    if wooden(id) {
        Material::Wood
    } else if id == 13 {
        Material::Gravel
    } else if id == 12 || id == 24 {
        Material::Sand
    } else if id == 2 || id == 3 || id == 18 || id == 31 || id == 60 || id == 110 || id == 161 {
        Material::Grass
    } else if id == 20 || id == 79 || id == 89 || id == 95 || id == 102 {
        Material::Glass
    } else if id == 35 || id == 171 {
        Material::Cloth
    } else {
        Material::Stone
    }
}

/// What a block sounds of.
pub fn block_material(id: u16) -> (m: Material)
    ensures
        m == spec_material(id as int),
{
    match id {
        5 | 17 | 47 | 53 | 54 | 58 | 63..=65 | 85 | 96 | 107 | 134..=136 | 146 | 162..=164
        | 183..=187 => Material::Wood,
        13 => Material::Gravel,
        12 | 24 => Material::Sand,
        2 | 3 | 18 | 31 | 60 | 110 | 161 => Material::Grass,
        20 | 79 | 89 | 95 | 102 => Material::Glass,
        35 | 171 => Material::Cloth,
        _ => Material::Stone,
    }
}

impl Material {
    pub open spec fn spec_name(self) -> Seq<char> {
        match self {
            Material::Wood => "wood"@,
            Material::Gravel => "gravel"@,
            Material::Sand => "sand"@,
            Material::Grass => "grass"@,
            Material::Glass => "glass"@,
            Material::Cloth => "cloth"@,
            Material::Stone => "stone"@,
        }
    }

    /// The name in sound events.
    pub fn name(self) -> (name: &'static str)
        ensures
            name@ == self.spec_name(),
    {
        match self {
            Material::Wood => "wood",
            Material::Gravel => "gravel",
            Material::Sand => "sand",
            Material::Grass => "grass",
            Material::Glass => "glass",
            Material::Cloth => "cloth",
            Material::Stone => "stone",
        }
    }
}

/// The sound of digging a block.
pub open spec fn spec_dig_sound(id: int) -> Seq<char> {
    "dig."@ + spec_material(id).spec_name()
}

/// The sound of digging a block.
pub fn dig_sound_for_block(id: u16) -> (event: String)
    ensures
        event@ == spec_dig_sound(id as int),
{
    joined("dig.", block_material(id).name())
}

/// The sound of a step on a block.
pub open spec fn spec_step_sound(id: int) -> Seq<char> {
    "step."@ + spec_material(id).spec_name()
}

/// The sound of a step on a block.
pub fn step_sound_for_block(id: u16) -> (event: String)
    ensures
        event@ == spec_step_sound(id as int),
{
    joined("step.", block_material(id).name())
}

/// The sound of a world effect; nothing for effects without one. A broken block
/// sounds by its number, the low byte of `data`.
pub open spec fn spec_effect_event(effect: int, data: i32) -> Option<Seq<char>> {
    if effect == 1000 || effect == 1001 {
        Some("random.click"@)
    } else if effect == 1002 {
        Some("random.bow"@)
    } else if effect == 1003 || effect == 1006 {
        Some("random.door_open"@)
    } else if effect == 1004 || effect == 1009 {
        Some("random.fizz"@)
    } else if effect == 2001 {
        Some(spec_dig_sound(data as int % 256))
    } else {
        None
    }
}

/// The sound of a world effect.
pub fn effect_event(effect_id: i32, data: i32) -> (event: Option<String>)
    ensures
        match (event, spec_effect_event(effect_id as int, data)) {
            (Some(e), Some(w)) => e@ == w,
            (None, None) => true,
            _ => false,
        },
{
    match effect_id {
        1000 | 1001 => Some(copy_text("random.click")),
        1002 => Some(copy_text("random.bow")),
        1003 | 1006 => Some(copy_text("random.door_open")),
        1004 | 1009 => Some(copy_text("random.fizz")),
        2001 => {
            // A multiple of 256 keeps the number positive.
            let shifted: i64 = data as i64 + 0x8000_0000;
            assert(shifted % 256 == data as int % 256);
            Some(dig_sound_for_block((shifted % 256) as u16))
        },
        _ => None,
    }
}

/// The sound of a note block by its instrument.
pub open spec fn spec_note_event(instrument: int) -> Seq<char> {
    if instrument == 1 {
        "note.bd"@
    } else if instrument == 2 {
        "note.snare"@
    } else if instrument == 3 {
        "note.hat"@
    } else if instrument == 4 {
        "note.bassattack"@
    } else {
        "note.harp"@
    }
}

/// The sound of a note block by its instrument.
pub fn note_event(instrument: u8) -> (event: &'static str)
    ensures
        event@ == spec_note_event(instrument as int),
{
    match instrument {
        1 => "note.bd",
        2 => "note.snare",
        3 => "note.hat",
        4 => "note.bassattack",
        _ => "note.harp",
    }
}

// ── Moving about ──────────────────────────────────────────────────────────

/// A sound of the player's own movement.
#[derive(Debug, Clone, Copy, PartialEq, Eq, Structural)]
pub enum MoveSound {
    /// A fall that hurt.
    FallSmall,
    /// A fall that hurt badly.
    FallBig,
    /// Landing on a block.
    Landing(Material),
    /// A stroke in water.
    Swim,
    /// A step on a block.
    Step(Material),
}

/// A move of the player, as far as it is heard.
#[derive(Debug, Clone, Copy, PartialEq, Eq, Structural)]
pub struct Move {
    pub on_ground: bool,
    /// The damage that the fall so far does on landing.
    pub damage: i32,
    pub in_water: bool,
    /// The block under the feet.
    pub below: BlockState,
    /// Whether the distance walked passed the next step.
    pub step_due: bool,
}

/// What of the movement is remembered for its sounds.
#[derive(Debug, Clone, Copy, PartialEq, Eq, Structural)]
pub struct Steps {
    /// The distance at which the next step is heard.
    pub next_step_distance: i32,
    pub prev_on_ground: bool,
}

/// The sounds of landing: of a fall that hurt, and of the ground.
pub open spec fn landing_sounds(s: Steps, m: Move) -> Seq<MoveSound> {
    if m.on_ground && !s.prev_on_ground {
        let fall = if m.damage > 4 {
            seq![MoveSound::FallBig]
        } else if m.damage > 0 {
            seq![MoveSound::FallSmall]
        } else {
            Seq::empty()
        };
        if !m.in_water && !m.below.spec_air() {
            fall.push(MoveSound::Landing(spec_material(m.below.id as int)))
        } else {
            fall
        }
    } else {
        Seq::empty()
    }
}

/// The sound of the step that is due: a stroke in water, a step on solid ground.
pub open spec fn step_sounds(m: Move) -> Seq<MoveSound> {
    if !m.step_due {
        Seq::empty()
    } else if m.in_water {
        seq![MoveSound::Swim]
    } else if m.on_ground && !m.below.spec_air() && !(m.below.id == 8 || m.below.id == 9) {
        seq![MoveSound::Step(spec_material(m.below.id as int))]
    } else {
        Seq::empty()
    }
}

impl Steps {
    pub fn new() -> (s: Steps)
        ensures
            s == (Steps { next_step_distance: 1, prev_on_ground: true }),
    {
        Steps { next_step_distance: 1, prev_on_ground: true }
    }

    /// What is remembered after a move.
    pub open spec fn moved(self, m: Move) -> Steps {
        Steps {
            next_step_distance: if m.step_due {
                (self.next_step_distance + 1) as i32
            } else {
                self.next_step_distance
            },
            prev_on_ground: m.on_ground,
        }
    }

    /// The sounds of a move.
    pub fn tick_local_movement_sounds(&mut self, m: &Move) -> (sounds: Vec<MoveSound>)
        requires
            old(self).next_step_distance < i32::MAX,
        ensures
            sounds@ == landing_sounds(*old(self), *m) + step_sounds(*m),
            *final(self) == old(self).moved(*m),
    {
        let mut sounds: Vec<MoveSound> = Vec::new();
        if m.on_ground && !self.prev_on_ground {
            if m.damage > 4 {
                sounds.push(MoveSound::FallBig);
            } else if m.damage > 0 {
                sounds.push(MoveSound::FallSmall);
            }
            if !m.in_water && !m.below.is_air() {
                sounds.push(MoveSound::Landing(block_material(m.below.id)));
            }
        }
        assert(sounds@ =~= landing_sounds(*self, *m));
        self.prev_on_ground = m.on_ground;
        if m.step_due {
            self.next_step_distance += 1;
            if m.in_water {
                sounds.push(MoveSound::Swim);
            } else if m.on_ground && !m.below.is_air() && m.below.id != 8 && m.below.id != 9 {
                sounds.push(MoveSound::Step(block_material(m.below.id)));
            }
        }
        assert(sounds@ =~= landing_sounds(*old(self), *m) + step_sounds(*m));
        sounds
    }
}

// ── Mood ──────────────────────────────────────────────────────────────────

/// When cave sounds play, and the random numbers behind them.
#[derive(Debug, Clone, Copy, PartialEq, Eq, Structural)]
pub struct Mood {
    /// Ticks to the next attempt.
    pub countdown: i32,
    pub lcg: u32,
}

/// A place to listen at: within the player's column of chunks.
#[derive(Debug, Clone, Copy, PartialEq, Eq, Structural)]
pub struct Sample {
    pub x: u8,
    pub y: u8,
    pub z: u8,
}

/// The generator behind cave sounds.
pub open spec fn spec_mood_next(lcg: u32) -> u32 {
    lcg.wrapping_mul(3).wrapping_add(1_013_904_223)
}

/// The place that a random number picks.
pub open spec fn spec_sample(lcg: u32) -> Sample {
    let i = lcg >> 2;
    Sample { x: (i & 15) as u8, y: ((i >> 16) & 255) as u8, z: ((i >> 8) & 15) as u8 }
}

/// The ticks from a cave sound to the next attempt.
pub open spec fn spec_mood_wait(lcg: u32) -> i32 {
    (6000 + (lcg >> 8) % 12000) as i32
}

impl Mood {
    pub open spec fn initial() -> Mood {
        Mood { countdown: 4951, lcg: 0x1234_5678 }
    }

    /// The mood after a tick: the countdown runs, and at zero a place is picked
    /// every tick.
    pub open spec fn step(self, joined_game: bool) -> (Mood, Option<Sample>) {
        if !joined_game {
            (self, None)
        } else if self.countdown > 0 {
            (Mood { countdown: (self.countdown - 1) as i32, ..self }, None)
        } else {
            let lcg = spec_mood_next(self.lcg);
            (Mood { lcg, ..self }, Some(spec_sample(lcg)))
        }
    }

    /// A place is a dark one: air that the sky does not reach, lit by no more
    /// than a random level under eight.
    pub open spec fn dark(self, air: bool, block_light: u8, sky_light: u8) -> bool {
        air && block_light <= (self.lcg >> 20) % 8 && sky_light == 0
    }

    /// After listening at a place: a dark one away from the player sounds, with the number
    /// that varies the pitch, and the next attempt is minutes off.
    pub open spec fn listened(
        self,
        air: bool,
        block_light: u8,
        sky_light: u8,
        away: bool,
        after: Mood,
        heard: Option<u16>,
    ) -> bool {
        if self.dark(air, block_light, sky_light) && away {
            &&& heard matches Some(roll) && roll == ((self.lcg >> 8) & 0xffff)
            &&& after == (Mood { countdown: spec_mood_wait(self.lcg), ..self })
        } else {
            heard is None && after == self
        }
    }

    pub fn new() -> (m: Mood)
        ensures
            m == Mood::initial(),
    {
        Mood { countdown: 4951, lcg: 0x1234_5678 }
    }

    /// Count a tick down; when it is time, the place to listen at.
    pub fn tick_ambient_mood(&mut self, joined_game: bool) -> (sample: Option<Sample>)
        ensures
            (*final(self), sample) == old(self).step(joined_game),
    {
        if !joined_game {
            return None;
        }
        if self.countdown > 0 {
            self.countdown -= 1;
            return None;
        }
        self.lcg = self.lcg.wrapping_mul(3).wrapping_add(1_013_904_223);
        let i: u32 = self.lcg >> 2;
        assert(i & 15 <= 15 && (i >> 16) & 255 <= 255 && (i >> 8) & 15 <= 15) by (bit_vector);
        Some(
            Sample { x: (i & 15) as u8, y: ((i >> 16) & 255) as u8, z: ((i >> 8) & 15) as u8 },
        )
    }

    /// Listen at the place: a dark one away from the player sounds, and the next
    /// attempt is minutes off. Returns the number that varies the pitch.
    pub fn listen(&mut self, air: bool, block_light: u8, sky_light: u8, away: bool) -> (heard: Option<u16>)
        ensures
            old(self).listened(air, block_light, sky_light, away, *final(self), heard),
    {
        let lcg: u32 = self.lcg;
        if !air || block_light as u32 > (lcg >> 20) % 8 || sky_light > 0 || !away {
            return None;
        }
        self.countdown = 6000 + ((lcg >> 8) % 12000) as i32;
        assert((lcg >> 8) & 0xffff <= 0xffff) by (bit_vector);
        Some(((lcg >> 8) & 0xffff) as u16)
    }

    /// A random number under 2^24 for the pitch of other sounds.
    pub fn mood_rand(&mut self) -> (roll: u32)
        ensures
            final(self).lcg == old(self).lcg.wrapping_mul(1_664_525).wrapping_add(1_013_904_223),
            final(self).countdown == old(self).countdown,
            roll == final(self).lcg >> 8,
            roll < 0x100_0000,
    {
        self.lcg = self.lcg.wrapping_mul(1_664_525).wrapping_add(1_013_904_223);
        let lcg: u32 = self.lcg;
        assert(lcg >> 8 < 0x100_0000) by (bit_vector);
        lcg >> 8
    }
}

impl Default for Mood {
    fn default() -> (m: Self)
        ensures
            m == Mood::initial(),
    {
        Mood::new()
    }
}

/// After a cave sound the next attempt is five minutes off at least and less than fifteen.
pub proof fn law_cave_sounds_are_minutes_apart(lcg: u32)
    ensures
        6000 <= spec_mood_wait(lcg) < 18000,
{
}

/// Every wait between five minutes and fifteen is drawn for some random number.
pub proof fn law_every_wait_can_come(wait: i32)
    requires
        6000 <= wait < 18000,
    ensures
        exists|lcg: u32| spec_mood_wait(lcg) == wait,
{
    let n = (wait - 6000) as u32;
    let lcg = (n * 256) as u32;
    assert(lcg >> 8 == n) by (bit_vector)
        requires
            lcg == n * 256,
            n < 12000,
    ;
    assert(spec_mood_wait(lcg) == wait);
}

// ── Sounds that follow entities ───────────────────────────────────────────

/// A sound attached to an entity.
#[derive(Debug, Clone, Copy, PartialEq, Eq, Structural)]
pub struct EntitySound {
    pub sound_id: u64,
    pub entity: i32,
}

/// The sounds attached to entities, at most one each.
#[derive(Debug)]
pub struct EntitySounds {
    pub sounds: Vec<EntitySound>,
    pub next_id: u64,
}

/// An entity has a sound.
pub open spec fn sounding(sounds: Seq<EntitySound>, entity: i32) -> bool {
    exists|i: int| 0 <= i < sounds.len() && (#[trigger] sounds[i]).entity == entity
}

impl EntitySounds {
    /// No two sounds share an entity or a number, and new numbers are fresh.
    pub open spec fn wf(&self) -> bool {
        &&& forall|i: int, j: int|
            0 <= i < j < self.sounds@.len() ==> {
                &&& (#[trigger] self.sounds@[i]).entity != (#[trigger] self.sounds@[j]).entity
                &&& self.sounds@[i].sound_id != self.sounds@[j].sound_id
            }
        &&& forall|i: int|
            0 <= i < self.sounds@.len() ==> (#[trigger] self.sounds@[i]).sound_id < self.next_id
    }

    pub fn new() -> (s: EntitySounds)
        ensures
            s.wf(),
            s.sounds@ == Seq::<EntitySound>::empty(),
            s.next_id == 1,
    {
        EntitySounds { sounds: Vec::new(), next_id: 1 }
    }

    fn position(&self, entity: i32) -> (at: Option<usize>)
        ensures
            match at {
                Some(i) => i < self.sounds@.len() && self.sounds@[i as int].entity == entity,
                None => !sounding(self.sounds@, entity),
            },
    {
        let mut i: usize = 0;
        while i < self.sounds.len()
            invariant
                i <= self.sounds@.len(),
                forall|j: int| 0 <= j < i ==> (#[trigger] self.sounds@[j]).entity != entity,
            decreases self.sounds@.len() - i,
        {
            if self.sounds[i].entity == entity {
                return Some(i);
            }
            i += 1;
        }
        None
    }

    /// A sound was attached to an entity; one that has a sound keeps it.
    pub open spec fn attached(self, entity: i32, after: EntitySounds, id: Option<u64>) -> bool {
        &&& sounding(self.sounds@, entity) ==> id is None && after == self
        &&& !sounding(self.sounds@, entity) ==> id == Some(self.next_id) && after.next_id
            == self.next_id + 1 && after.sounds@ == self.sounds@.push(
            EntitySound { sound_id: self.next_id, entity },
        )
    }

    /// Attach a sound to an entity; one that has a sound keeps it. Returns the
    /// new sound's number.
    pub fn attach_entity_sound(&mut self, entity: i32) -> (id: Option<u64>)
        requires
            old(self).wf(),
            old(self).next_id < u64::MAX,
        ensures
            final(self).wf(),
            old(self).attached(entity, *final(self), id),
    {
        if self.position(entity).is_some() {
            return None;
        }
        let sound_id = self.next_id;
        self.next_id += 1;
        self.sounds.push(EntitySound { sound_id, entity });
        assert forall|i: int, j: int| 0 <= i < j < self.sounds@.len() implies {
            &&& (#[trigger] self.sounds@[i]).entity != (#[trigger] self.sounds@[j]).entity
            &&& self.sounds@[i].sound_id != self.sounds@[j].sound_id
        } by {
            assert(self.sounds@[i] == old(self).sounds@[i]);
            if j < old(self).sounds@.len() {
                assert(self.sounds@[j] == old(self).sounds@[j]);
            }
        }
        Some(sound_id)
    }

    /// Take an entity's sound away: the number of the sound to stop.
    pub fn stop_entity_sound(&mut self, entity: i32) -> (id: Option<u64>)
        requires
            old(self).wf(),
        ensures
            final(self).wf(),
            final(self).next_id == old(self).next_id,
            forall|s: EntitySound|
                #[trigger] final(self).sounds@.contains(s) == (old(self).sounds@.contains(s)
                    && s.entity != entity),
            match id {
                Some(n) => old(self).sounds@.contains(EntitySound { sound_id: n, entity })
                    && final(self).sounds@.len() == old(self).sounds@.len() - 1,
                None => !sounding(old(self).sounds@, entity) && *final(self) == *old(self),
            },
    {
        match self.position(entity) {
            Some(i) => {
                let ghost before = self.sounds@;
                let sound = self.sounds.remove(i);
                let ghost after = self.sounds@;
                assert(before[i as int] == sound);
                assert(after =~= before.remove(i as int));
                assert(before.contains(EntitySound { sound_id: sound.sound_id, entity }));
                assert forall|j: int| 0 <= j < after.len() implies (#[trigger] after[j])
                    == before[if j < i {
                    j
                } else {
                    j + 1
                }] by {}
                assert forall|s: EntitySound|
                    #[trigger] after.contains(s) == (before.contains(s) && s.entity != entity) by {
                    if after.contains(s) {
                        let k = choose|k: int| 0 <= k < after.len() && after[k] == s;
                        let b = if k < i {
                            k
                        } else {
                            k + 1
                        };
                        assert(before[b] == after[k]);
                        if b < i {
                            assert(before[b].entity != before[i as int].entity);
                        } else {
                            assert(before[i as int].entity != before[b].entity);
                        }
                    }
                    if before.contains(s) && s.entity != entity {
                        let b = choose|b: int| 0 <= b < before.len() && before[b] == s;
                        if b < i {
                            assert(after[b] == before[b]);
                        } else {
                            assert(after[b - 1] == before[b]);
                        }
                    }
                }
                Some(sound.sound_id)
            },
            None => {
                assert forall|s: EntitySound| self.sounds@.contains(s) implies s.entity
                    != entity by {
                    let k = choose|k: int| 0 <= k < self.sounds@.len() && self.sounds@[k] == s;
                    assert(self.sounds@[k].entity == s.entity);
                }
                None
            },
        }
    }
}

/// The entities of a list that have no sound yet and roll on rails, in its order.
pub open spec fn silent_carts(
    sounds: Seq<EntitySound>,
    entities: Seq<(i32, EntityKind)>,
    n: int,
) -> Seq<i32>
    decreases n,
{
    if n <= 0 {
        Seq::empty()
    } else {
        let rest = silent_carts(sounds, entities, n - 1);
        let (id, kind) = entities[n - 1];
        if kind == EntityKind::Object(10) && !sounding(sounds, id) {
            rest.push(id)
        } else {
            rest
        }
    }
}

/// The attached sounds whose entity is no longer in the world.
pub open spec fn orphaned(sounds: Seq<EntitySound>, present: Seq<i32>, n: int) -> Seq<i32>
    decreases n,
{
    if n <= 0 {
        Seq::empty()
    } else {
        let rest = orphaned(sounds, present, n - 1);
        if present.contains(sounds[n - 1].entity) {
            rest
        } else {
            rest.push(sounds[n - 1].entity)
        }
    }
}

fn holds(list: &Vec<i32>, n: i32) -> (yes: bool)
    ensures
        yes == list@.contains(n),
{
    let mut i: usize = 0;
    while i < list.len()
        invariant
            i <= list@.len(),
            forall|j: int| 0 <= j < i ==> list@[j] != n,
        decreases list@.len() - i,
    {
        if list[i] == n {
            return true;
        }
        i += 1;
    }
    false
}

impl EntitySounds {
    /// The carts that are to get a sound.
    pub fn refresh_entity_sound_targets(&self, entities: &Vec<(i32, EntityKind)>) -> (carts: Vec<
        i32,
    >)
        ensures
            carts@ == silent_carts(self.sounds@, entities@, entities@.len() as int),
    {
        let mut carts: Vec<i32> = Vec::new();
        let mut i: usize = 0;
        while i < entities.len()
            invariant
                i <= entities@.len(),
                carts@ == silent_carts(self.sounds@, entities@, i as int),
            decreases entities@.len() - i,
        {
            let (id, kind) = entities[i];
            if kind == EntityKind::Object(10) && self.position(id).is_none() {
                carts.push(id);
            }
            i += 1;
        }
        carts
    }

    /// The entities whose sounds are to stop because they are gone.
    pub fn sync_entity_sounds(&self, present: &Vec<i32>) -> (gone: Vec<i32>)
        ensures
            gone@ == orphaned(self.sounds@, present@, self.sounds@.len() as int),
    {
        let mut gone: Vec<i32> = Vec::new();
        let mut i: usize = 0;
        while i < self.sounds.len()
            invariant
                i <= self.sounds@.len(),
                gone@ == orphaned(self.sounds@, present@, i as int),
            decreases self.sounds@.len() - i,
        {
            if !holds(present, self.sounds[i].entity) {
                gone.push(self.sounds[i].entity);
            }
            i += 1;
        }
        gone
    }
}

} // verus!
