//! Sprinting and flying: the rules that run before and after each move.

use vstd::prelude::*;
use crate::packets::{Real32, ServerboundPacket};
use super::input::InputState;

verus! {

/// Window in which a second press toggles sprint or flight, in ticks.
pub const TOGGLE_WINDOW: i32 = 7;

/// What the server lets the player do.
#[derive(Debug, Clone, Copy, PartialEq, Eq, Structural)]
pub struct PlayerCapabilities {
    pub invulnerable: bool,
    pub flying: bool,
    pub allow_flying: bool,
    pub creative: bool,
    pub fly_speed: Real32,
    pub walk_speed: Real32,
}

/// 0.05 as a 32-bit floating-point number.
pub const DEFAULT_FLY_SPEED: u32 = 0x3d4c_cccd;

/// 0.1 as a 32-bit floating-point number.
pub const DEFAULT_WALK_SPEED: u32 = 0x3dcc_cccd;

impl PlayerCapabilities {
    pub open spec fn initial() -> PlayerCapabilities {
        PlayerCapabilities {
            invulnerable: false,
            flying: false,
            allow_flying: false,
            creative: false,
            fly_speed: Real32 { bits: DEFAULT_FLY_SPEED },
            walk_speed: Real32 { bits: DEFAULT_WALK_SPEED },
        }
    }
}

impl Default for PlayerCapabilities {
    fn default() -> (c: Self)
        ensures
            c == PlayerCapabilities::initial(),
    {
        PlayerCapabilities {
            invulnerable: false,
            flying: false,
            allow_flying: false,
            creative: false,
            fly_speed: Real32 { bits: DEFAULT_FLY_SPEED },
            walk_speed: Real32 { bits: DEFAULT_WALK_SPEED },
        }
    }
}

/// The movement state kept from tick to tick.
#[derive(Debug, Clone, Copy, PartialEq, Eq, Structural)]
pub struct Motion {
    pub capabilities: PlayerCapabilities,
    /// Ticks left in which a second jump press toggles flight.
    pub fly_toggle_timer: u8,
    /// Whether the jump key was down last tick.
    pub was_jump_down: bool,
    /// Whether the server is owed the changed abilities.
    pub abilities_dirty: bool,
    /// Ticks left in which a second forward press starts a sprint.
    pub sprint_toggle_timer: i32,
    /// Whether the player sneaked last tick.
    pub prev_sneak: bool,
    /// Whether the player ran forward last tick.
    pub prev_forward: bool,
    /// Hold still for the tick after a teleport.
    pub freeze_movement_after_teleport: bool,
}

impl Motion {
    pub open spec fn initial() -> Motion {
        Motion {
            capabilities: PlayerCapabilities::initial(),
            fly_toggle_timer: 0,
            was_jump_down: false,
            abilities_dirty: false,
            sprint_toggle_timer: 0,
            prev_sneak: false,
            prev_forward: false,
            freeze_movement_after_teleport: false,
        }
    }

    pub open spec fn wf(self) -> bool {
        &&& self.fly_toggle_timer <= TOGGLE_WINDOW
        &&& 0 <= self.sprint_toggle_timer <= TOGGLE_WINDOW
    }

    /// The tick's flight toggle: a second press of the jump key within the window
    /// flips flight; then the window runs down.
    pub open spec fn fly_step(self, jump: bool) -> Motion {
        let pressed = jump && !self.was_jump_down && self.capabilities.allow_flying;
        let toggled = pressed && self.fly_toggle_timer != 0;
        let timer = if !pressed {
            self.fly_toggle_timer as int
        } else if toggled {
            0
        } else {
            TOGGLE_WINDOW as int
        };
        Motion {
            was_jump_down: jump,
            capabilities: if toggled {
                PlayerCapabilities {
                    flying: !self.capabilities.flying,
                    ..self.capabilities
                }
            } else {
                self.capabilities
            },
            abilities_dirty: self.abilities_dirty || toggled,
            fly_toggle_timer: (if timer > 0 {
                timer - 1
            } else {
                0
            }) as u8,
            ..self
        }
    }

    /// Touching the ground ends flight.
    pub open spec fn landed(self, on_ground: bool) -> Motion {
        if on_ground && self.capabilities.flying {
            Motion {
                capabilities: PlayerCapabilities { flying: false, ..self.capabilities },
                abilities_dirty: true,
                ..self
            }
        } else {
            self
        }
    }
}

/// What the sprint rules look at besides the keys.
#[derive(Debug, Clone, Copy, PartialEq, Eq, Structural)]
pub struct Footing {
    pub on_ground: bool,
    pub collided_horizontally: bool,
    pub using_item: bool,
    pub food: i32,
}

/// Running forward at full speed: neither sneaking nor using an item.
pub open spec fn running(input: InputState, using_item: bool) -> bool {
    input.spec_forward_axis() == 1 && !input.sneak && !using_item
}

impl Motion {
    /// Enough food to sprint, or allowed to fly.
    pub open spec fn fed(self, f: Footing) -> bool {
        f.food > 6 || self.capabilities.allow_flying
    }

    /// The sprint window when this tick's rules look at it.
    pub open spec fn window(self, f: Footing) -> int {
        if f.using_item || self.sprint_toggle_timer <= 0 {
            0
        } else {
            self.sprint_toggle_timer - 1
        }
    }

    /// A fresh forward press on the ground that may start a sprint.
    pub open spec fn fresh_press(self, sprinting: bool, input: InputState, f: Footing) -> bool {
        &&& f.on_ground
        &&& !self.prev_sneak
        &&& !self.prev_forward
        &&& running(input, f.using_item)
        &&& !sprinting
        &&& self.fed(f)
    }

    /// Whether the player sprints after this tick's rules: a second press within
    /// the window or the sprint key starts it; letting go, a wall or hunger end
    /// it.
    pub open spec fn sprints(self, sprinting: bool, input: InputState, f: Footing) -> bool {
        let started = sprinting || (self.fresh_press(sprinting, input, f) && (self.window(f) > 0
            || input.sprint)) || (running(input, f.using_item) && self.fed(f) && input.sprint);
        started && running(input, f.using_item) && !f.collided_horizontally && self.fed(f)
    }

    /// The movement state after this tick's sprint rules.
    pub open spec fn sprint_step(self, sprinting: bool, input: InputState, f: Footing) -> Motion {
        Motion {
            sprint_toggle_timer: (if self.fresh_press(sprinting, input, f) && self.window(f) <= 0
                && !input.sprint {
                TOGGLE_WINDOW as int
            } else {
                self.window(f)
            }) as i32,
            prev_sneak: input.sneak,
            prev_forward: running(input, f.using_item),
            ..self
        }
    }

    pub fn new() -> (m: Motion)
        ensures
            m == Motion::initial(),
            m.wf(),
    {
        Motion {
            capabilities: PlayerCapabilities::default(),
            fly_toggle_timer: 0,
            was_jump_down: false,
            abilities_dirty: false,
            sprint_toggle_timer: 0,
            prev_sneak: false,
            prev_forward: false,
            freeze_movement_after_teleport: false,
        }
    }

    /// The tick's flight toggle.
    pub fn tick_fly_toggle(&mut self, jump: bool)
        requires
            old(self).wf(),
        ensures
            *final(self) == old(self).fly_step(jump),
            final(self).wf(),
    {
        let pressed = jump && !self.was_jump_down;
        self.was_jump_down = jump;
        if self.capabilities.allow_flying && pressed {
            if self.fly_toggle_timer == 0 {
                self.fly_toggle_timer = 7;
            } else {
                self.capabilities.flying = !self.capabilities.flying;
                self.abilities_dirty = true;
                self.fly_toggle_timer = 0;
            }
        }
        if self.fly_toggle_timer > 0 {
            self.fly_toggle_timer -= 1;
        }
    }

    /// The tick's sprint rules; whether the player sprints now.
    pub fn tick_sprint(&mut self, sprinting: bool, input: &InputState, f: &Footing) -> (now: bool)
        requires
            old(self).wf(),
        ensures
            now == old(self).sprints(sprinting, *input, *f),
            *final(self) == old(self).sprint_step(sprinting, *input, *f),
            final(self).wf(),
    {
        if self.sprint_toggle_timer > 0 {
            self.sprint_toggle_timer -= 1;
        }
        if f.using_item {
            self.sprint_toggle_timer = 0;
        }
        let (forward, _) = input.player_input();
        let runs = forward == 1 && !input.sneak && !f.using_item;
        let fed = f.food > 6 || self.capabilities.allow_flying;
        let mut now = sprinting;
        if f.on_ground && !self.prev_sneak && !self.prev_forward && runs && !now && fed {
            if self.sprint_toggle_timer <= 0 && !input.sprint {
                self.sprint_toggle_timer = TOGGLE_WINDOW;
            } else {
                now = true;
            }
        }
        if !now && runs && fed && input.sprint {
            now = true;
        }
        if now && (!runs || f.collided_horizontally || !fed) {
            now = false;
        }
        self.prev_sneak = input.sneak;
        self.prev_forward = runs;
        now
    }

    /// End flight on touching the ground.
    pub fn land(&mut self, on_ground: bool)
        ensures
            *final(self) == old(self).landed(on_ground),
            old(self).wf() ==> final(self).wf(),
    {
        if on_ground && self.capabilities.flying {
            self.capabilities.flying = false;
            self.abilities_dirty = true;
        }
    }

    /// The abilities packet the server is owed.
    pub open spec fn owed(self) -> Option<ServerboundPacket> {
        if self.abilities_dirty {
            Some(abilities_packet(self.capabilities))
        } else {
            None
        }
    }

    /// The abilities are told.
    pub open spec fn told(self) -> Motion {
        Motion { abilities_dirty: false, ..self }
    }

    /// The abilities packet the server is owed, once per change.
    pub fn take_abilities(&mut self) -> (packet: Option<ServerboundPacket>)
        ensures
            *final(self) == old(self).told(),
            packet == old(self).owed(),
    {
        if !self.abilities_dirty {
            return None;
        }
        self.abilities_dirty = false;
        let c = self.capabilities;
        Some(
            ServerboundPacket::PlayerAbilities {
                invulnerable: c.invulnerable,
                flying: c.flying,
                allow_flying: c.allow_flying,
                creative: c.creative,
                fly_speed: c.fly_speed,
                walk_speed: c.walk_speed,
            },
        )
    }

    /// Whether this tick holds still after a teleport; only one tick does.
    pub fn take_freeze(&mut self) -> (frozen: bool)
        ensures
            frozen == old(self).freeze_movement_after_teleport,
            *final(self) == (Motion { freeze_movement_after_teleport: false, ..*old(self) }),
    {
        let frozen = self.freeze_movement_after_teleport;
        self.freeze_movement_after_teleport = false;
        frozen
    }
}

/// The packet that reports abilities.
pub open spec fn abilities_packet(c: PlayerCapabilities) -> ServerboundPacket {
    ServerboundPacket::PlayerAbilities {
        invulnerable: c.invulnerable,
        flying: c.flying,
        allow_flying: c.allow_flying,
        creative: c.creative,
        fly_speed: c.fly_speed,
        walk_speed: c.walk_speed,
    }
}

// ── Laws ──────────────────────────────────────────────────────────────────

/// A tick leaves the player sprinting only when running forward, fed and clear
/// of walls: never when sneaking, using an item or hungry.
pub proof fn law_sprint_needs_a_clear_run(m: Motion, sprinting: bool, input: InputState, f: Footing)
    ensures
        m.sprints(sprinting, input, f) ==> running(input, f.using_item) && !f.collided_horizontally
            && m.fed(f),
{
}

/// A sprint goes on while the player runs, whatever the sprint key does.
pub proof fn law_sprint_goes_on(m: Motion, input: InputState, f: Footing)
    requires
        running(input, f.using_item),
        !f.collided_horizontally,
        m.fed(f),
    ensures
        m.sprints(true, input, f),
{
}

/// Ticks in which the player does not run forward and uses nothing.
pub open spec fn idle_ticks(m: Motion, input: InputState, f: Footing, n: nat) -> Motion
    decreases n,
{
    if n == 0 {
        m
    } else {
        idle_ticks(m, input, f, (n - 1) as nat).sprint_step(false, input, f)
    }
}

/// Two forward presses within the window start a sprint without the sprint key:
/// the first press opens the window, and after `n` idle ticks the second one
/// starts the sprint, if `n` leaves some of the window.
pub proof fn law_double_press_sprints(m: Motion, run: InputState, idle: InputState, f: Footing, n: nat)
    requires
        m.wf(),
        m.fresh_press(false, run, f),
        m.sprint_toggle_timer == 0,
        !run.sprint,
        !running(idle, f.using_item),
        !idle.sneak,
        1 <= n < TOGGLE_WINDOW - 1,
        !f.collided_horizontally,
    ensures
        ({
            let first = m.sprint_step(false, run, f);
            let waited = idle_ticks(first, idle, f, n);
            !m.sprints(false, run, f) && waited.sprints(false, run, f)
        }),
{
    let first = m.sprint_step(false, run, f);
    lemma_idle(first, idle, f, n);
}

proof fn lemma_idle(m: Motion, idle: InputState, f: Footing, n: nat)
    requires
        m.sprint_toggle_timer == TOGGLE_WINDOW,
        !running(idle, f.using_item),
        !idle.sneak,
        !f.using_item,
        n <= TOGGLE_WINDOW,
    ensures
        idle_ticks(m, idle, f, n).sprint_toggle_timer == TOGGLE_WINDOW - n,
        n >= 1 ==> !idle_ticks(m, idle, f, n).prev_sneak && !idle_ticks(m, idle, f, n).prev_forward,
        idle_ticks(m, idle, f, n).capabilities == m.capabilities,
    decreases n,
{
    if n > 0 {
        lemma_idle(m, idle, f, (n - 1) as nat);
    }
}

/// `n` ticks with the jump key up.
pub open spec fn grounded_ticks(m: Motion, n: nat) -> Motion
    decreases n,
{
    if n == 0 {
        m
    } else {
        grounded_ticks(m, (n - 1) as nat).fly_step(false)
    }
}

/// A second jump press toggles flight if and only if it comes within the window
/// after the first; the server is then owed the abilities.
pub proof fn law_double_jump_toggles_flight(m: Motion, n: nat)
    requires
        m.capabilities.allow_flying,
        !m.was_jump_down,
        m.fly_toggle_timer == 0,
        n >= 1,
    ensures
        ({
            let second = grounded_ticks(m.fly_step(true), n).fly_step(true);
            let toggled = n < TOGGLE_WINDOW - 1;
            &&& (second.capabilities.flying != m.capabilities.flying) == toggled
            &&& toggled ==> second.abilities_dirty
        }),
{
    lemma_grounded(m.fly_step(true), n);
}

proof fn lemma_grounded(m: Motion, n: nat)
    requires
        m.fly_toggle_timer == TOGGLE_WINDOW - 1,
    ensures
        grounded_ticks(m, n).fly_toggle_timer == if n < TOGGLE_WINDOW - 1 {
            TOGGLE_WINDOW - 1 - n
        } else {
            0
        },
        n >= 1 ==> !grounded_ticks(m, n).was_jump_down,
        grounded_ticks(m, n).capabilities == m.capabilities,
        grounded_ticks(m, n).abilities_dirty == m.abilities_dirty,
    decreases n,
{
    if n > 0 {
        lemma_grounded(m, (n - 1) as nat);
    }
}

/// Nobody flies without being allowed to: neither toggling nor landing starts
/// flight then.
pub proof fn law_flight_needs_permission(m: Motion, jump: bool, on_ground: bool)
    requires
        !m.capabilities.allow_flying,
        !m.capabilities.flying,
    ensures
        !m.fly_step(jump).landed(on_ground).capabilities.flying,
{
}

} // verus!
