//! Health, food, experience and potion effects of the local player.

use std::collections::HashMap;
use vstd::prelude::*;
use vstd::std_specs::hash::*;
use crate::floats::{FIVE, TWENTY};
use crate::packets::Real32;
use super::mining::Condition;

verus! {

broadcast use group_hash_axioms;

/// Effects that the health display shows.
pub const POTION_REGENERATION: u8 = 10;

pub const POTION_HUNGER: u8 = 17;

pub const POTION_POISON: u8 = 19;

pub const POTION_WITHER: u8 = 20;

pub const POTION_ABSORPTION: u8 = 22;

/// Effects that change digging.
pub const POTION_HASTE: u8 = 3;

pub const POTION_FATIGUE: u8 = 4;

/// An active potion effect.
#[derive(Debug, Clone, Copy, PartialEq, Eq, Structural)]
pub struct ActiveEffect {
    pub amplifier: i8,
    /// Remaining ticks when the server last reported it.
    pub duration: i32,
}

/// What the server reported of the local player.
#[derive(Debug)]
pub struct Vitals {
    pub health: Real32,
    pub max_health: Real32,
    pub food: i32,
    pub saturation: Real32,
    /// Whether the server has reported health: the first report starts no blink.
    pub health_received: bool,
    /// Counts ticks.
    pub hud_update_counter: i32,
    /// The tick until which the hearts blink.
    pub health_update_counter: i64,
    /// The health drawn while they blink.
    pub last_player_health: i32,
    pub xp_bar: Real32,
    pub xp_level: i32,
    pub is_dead: bool,
    /// A respawn is to be requested.
    pub needs_respawn: bool,
    /// Active effects by number.
    pub effects: HashMap<u8, ActiveEffect>,
}

/// The value of [`Vitals`].
#[verifier::ext_equal]
pub struct VitalsModel {
    pub health: Real32,
    pub max_health: Real32,
    pub food: i32,
    pub saturation: Real32,
    pub health_received: bool,
    pub hud_update_counter: i32,
    pub health_update_counter: i64,
    pub last_player_health: i32,
    pub xp_bar: Real32,
    pub xp_level: i32,
    pub is_dead: bool,
    pub needs_respawn: bool,
    pub effects: Map<u8, ActiveEffect>,
}

impl View for Vitals {
    type V = VitalsModel;

    open spec fn view(&self) -> VitalsModel {
        VitalsModel {
            health: self.health,
            max_health: self.max_health,
            food: self.food,
            saturation: self.saturation,
            health_received: self.health_received,
            hud_update_counter: self.hud_update_counter,
            health_update_counter: self.health_update_counter,
            last_player_health: self.last_player_health,
            xp_bar: self.xp_bar,
            xp_level: self.xp_level,
            is_dead: self.is_dead,
            needs_respawn: self.needs_respawn,
            effects: self.effects@,
        }
    }
}

/// How long the hearts blink after a change of health: twenty ticks on damage, ten
/// on healing.
pub open spec fn spec_blink_window(before: int, after: int) -> Option<i32> {
    if after < before {
        Some(20)
    } else if after > before {
        Some(10)
    } else {
        None
    }
}

/// How long the hearts blink after a change of health.
pub fn health_blink_window(before: i32, after: i32) -> (window: Option<i32>)
    ensures
        window == spec_blink_window(before as int, after as int),
{
    if after < before {
        Some(20)
    } else if after > before {
        Some(10)
    } else {
        None
    }
}

impl VitalsModel {
    /// A healthy, fed player of no experience.
    pub open spec fn initial() -> VitalsModel {
        VitalsModel {
            health: Real32 { bits: TWENTY },
            max_health: Real32 { bits: TWENTY },
            food: 20,
            saturation: Real32 { bits: FIVE },
            health_received: false,
            hud_update_counter: 0,
            health_update_counter: 0,
            last_player_health: 20,
            xp_bar: Real32 { bits: 0 },
            xp_level: 0,
            is_dead: false,
            needs_respawn: false,
            effects: Map::empty(),
        }
    }

    /// After the server reported health: a change makes the hearts blink and keeps
    /// the old value for it, and the player is dead at zero.
    pub open spec fn with_health(self, health: Real32, food: i32, saturation: Real32) -> VitalsModel {
        let before = self.health.spec_ceil();
        let after = health.spec_ceil();
        let told = VitalsModel {
            health,
            food,
            saturation,
            health_received: true,
            is_dead: health.spec_not_positive(),
            ..self
        };
        if !self.health_received {
            VitalsModel { last_player_health: after as i32, ..told }
        } else {
            match spec_blink_window(before, after) {
                Some(window) => VitalsModel {
                    last_player_health: before as i32,
                    health_update_counter: (self.hud_update_counter + window) as i64,
                    ..told
                },
                None => told,
            }
        }
    }

    /// After a respawn: full health and no effects.
    pub open spec fn respawned(self) -> VitalsModel {
        VitalsModel {
            needs_respawn: false,
            is_dead: false,
            health: Real32 { bits: TWENTY },
            max_health: Real32 { bits: TWENTY },
            effects: Map::empty(),
            ..self
        }
    }

    /// After the player asked to respawn: the request is to go out, and death is over.
    pub open spec fn respawn_asked(self) -> VitalsModel {
        VitalsModel { needs_respawn: true, is_dead: false, ..self }
    }

    /// The absorption hearts' health points.
    pub open spec fn absorption(self) -> int {
        if self.effects.dom().contains(POTION_ABSORPTION) {
            4 * (self.effects[POTION_ABSORPTION].amplifier + 1)
        } else {
            0
        }
    }

    /// The amplifier of an effect.
    pub open spec fn amplifier(self, effect: u8) -> Option<i8> {
        if self.effects.dom().contains(effect) {
            Some(self.effects[effect].amplifier)
        } else {
            None
        }
    }
}

/// What the health display shows besides health itself.
#[derive(Debug, Clone, Copy, PartialEq, Eq, Structural)]
pub struct HudVitals {
    pub saturation: Real32,
    pub max_health: Real32,
    /// Health points of absorption hearts.
    pub absorption: i32,
    pub update_counter: i32,
    pub health_update_counter: i64,
    pub last_player_health: i32,
    pub regen: bool,
    pub hunger_effect: bool,
    pub poison: bool,
    pub wither: bool,
}

impl Vitals {
    pub fn new() -> (v: Vitals)
        ensures
            v@ == VitalsModel::initial(),
    {
        let v = Vitals {
            health: Real32 { bits: TWENTY },
            max_health: Real32 { bits: TWENTY },
            food: 20,
            saturation: Real32 { bits: FIVE },
            health_received: false,
            hud_update_counter: 0,
            health_update_counter: 0,
            last_player_health: 20,
            xp_bar: Real32 { bits: 0 },
            xp_level: 0,
            is_dead: false,
            needs_respawn: false,
            effects: HashMap::new(),
        };
        assert(v.effects@ =~= Map::empty());
        v
    }

    /// The server reported health and food.
    pub fn handle_update_health(&mut self, health: Real32, food: i32, saturation: Real32)
        ensures
            final(self)@ == old(self)@.with_health(health, food, saturation),
    {
        if self.health_received {
            let before = self.health.ceil();
            let after = health.ceil();
            if let Some(window) = health_blink_window(before, after) {
                self.last_player_health = before;
                self.health_update_counter = self.hud_update_counter as i64 + window as i64;
            }
        } else {
            self.last_player_health = health.ceil();
        }
        self.health_received = true;
        self.health = health;
        self.food = food;
        self.saturation = saturation;
        self.is_dead = health.not_positive();
    }

    /// The server reported experience.
    pub fn set_experience(&mut self, bar: Real32, level: i32)
        ensures
            final(self)@ == (VitalsModel { xp_bar: bar.spec_clamped(), xp_level: level, ..old(self)@ }),
    {
        self.xp_bar = bar.clamped();
        self.xp_level = level;
    }

    /// The server respawned the player.
    pub fn respawn(&mut self)
        ensures
            final(self)@ == old(self)@.respawned(),
    {
        self.needs_respawn = false;
        self.is_dead = false;
        self.health = Real32 { bits: TWENTY };
        self.max_health = Real32 { bits: TWENTY };
        self.effects.clear();
        assert(self.effects@ =~= Map::empty());
    }

    /// The player asked to respawn.
    pub fn request_respawn(&mut self)
        ensures
            final(self)@ == old(self)@.respawn_asked(),
    {
        self.needs_respawn = true;
        self.is_dead = false;
    }

    /// Whether a respawn is to be requested; each one once.
    pub fn take_respawn_request(&mut self) -> (wanted: bool)
        ensures
            wanted == old(self).needs_respawn,
            final(self)@ == (VitalsModel { needs_respawn: false, ..old(self)@ }),
    {
        let wanted = self.needs_respawn;
        self.needs_respawn = false;
        wanted
    }

    /// An effect starts or changes.
    pub fn add_effect(&mut self, effect: u8, amplifier: i8, duration: i32)
        ensures
            final(self)@ == (VitalsModel {
                effects: old(self)@.effects.insert(effect, ActiveEffect { amplifier, duration }),
                ..old(self)@
            }),
    {
        self.effects.insert(effect, ActiveEffect { amplifier, duration });
    }

    /// An effect ends.
    pub fn remove_effect(&mut self, effect: u8)
        ensures
            final(self)@ == (VitalsModel {
                effects: old(self)@.effects.remove(effect),
                ..old(self)@
            }),
    {
        self.effects.remove(&effect);
        assert(self.effects@ =~= old(self)@.effects.remove(effect));
    }

    /// Count a tick.
    pub fn tick(&mut self)
        ensures
            final(self)@ == (VitalsModel {
                hud_update_counter: old(self).hud_update_counter.wrapping_add(1),
                ..old(self)@
            }),
    {
        self.hud_update_counter = self.hud_update_counter.wrapping_add(1);
    }

    fn amplifier_of(&self, effect: u8) -> (amplifier: Option<i8>)
        ensures
            amplifier == self@.amplifier(effect),
    {
        match self.effects.get(&effect) {
            Some(e) => Some(e.amplifier),
            None => None,
        }
    }

    /// What the player's effects do to digging.
    pub open spec fn digging(self, on_ground: bool) -> Condition {
        Condition {
            haste: self@.amplifier(POTION_HASTE),
            fatigue: self@.amplifier(POTION_FATIGUE),
            on_ground,
        }
    }

    /// What the player's effects do to digging.
    pub fn condition(&self, on_ground: bool) -> (c: Condition)
        ensures
            c == self.digging(on_ground),
    {
        Condition {
            haste: self.amplifier_of(POTION_HASTE),
            fatigue: self.amplifier_of(POTION_FATIGUE),
            on_ground,
        }
    }

    /// The health display shows these vitals.
    pub open spec fn shown_as(&self, hud: HudVitals) -> bool {
        &&& hud.saturation == self.saturation
        &&& hud.max_health == self.max_health
        &&& hud.absorption == self@.absorption()
        &&& hud.update_counter == self.hud_update_counter
        &&& hud.health_update_counter == self.health_update_counter
        &&& hud.last_player_health == self.last_player_health
        &&& hud.regen == self@.effects.dom().contains(POTION_REGENERATION)
        &&& hud.hunger_effect == self@.effects.dom().contains(POTION_HUNGER)
        &&& hud.poison == self@.effects.dom().contains(POTION_POISON)
        &&& hud.wither == self@.effects.dom().contains(POTION_WITHER)
    }

    /// What the health display shows.
    pub fn hud_vitals(&self) -> (hud: HudVitals)
        ensures
            self.shown_as(hud),
    {
        HudVitals {
            saturation: self.saturation,
            max_health: self.max_health,
            absorption: match self.amplifier_of(POTION_ABSORPTION) {
                Some(amplifier) => 4 * (amplifier as i32 + 1),
                None => 0,
            },
            update_counter: self.hud_update_counter,
            health_update_counter: self.health_update_counter,
            last_player_health: self.last_player_health,
            regen: self.effects.contains_key(&POTION_REGENERATION),
            hunger_effect: self.effects.contains_key(&POTION_HUNGER),
            poison: self.effects.contains_key(&POTION_POISON),
            wither: self.effects.contains_key(&POTION_WITHER),
        }
    }
}

/// The hearts blink after damage and keep the health from before it; the first
/// report never makes them blink.
pub proof fn law_damage_blinks(v: VitalsModel, health: Real32, food: i32, saturation: Real32)
    ensures
        ({
            let after = v.with_health(health, food, saturation);
            &&& v.health_received && health.spec_ceil() < v.health.spec_ceil() ==> {
                &&& after.health_update_counter == v.hud_update_counter + 20
                &&& after.last_player_health == v.health.spec_ceil()
            }
            &&& !v.health_received ==> after.health_update_counter == v.health_update_counter
            &&& after.health_received
        }),
{
    lemma_ceil_fits(health);
    lemma_ceil_fits(v.health);
}

proof fn lemma_ceil_fits(r: Real32)
    ensures
        i32::MIN <= r.spec_ceil() <= i32::MAX,
{
}

/// Asking for a respawn closes the death screen and leaves a request; being respawned leaves
/// none.
pub proof fn law_a_respawn_is_asked_for_once(v: VitalsModel)
    ensures
        v.respawn_asked().needs_respawn,
        !v.respawn_asked().is_dead,
        v.respawn_asked().health == v.health,
        v.respawn_asked().effects == v.effects,
        !v.respawn_asked().respawned().needs_respawn,
{
}

/// A respawn ends death and takes all effects away.
pub proof fn law_respawn_heals(v: VitalsModel, effect: u8)
    ensures
        !v.respawned().is_dead,
        v.respawned().amplifier(effect) is None,
        v.respawned().absorption() == 0,
{
}

} // verus!
