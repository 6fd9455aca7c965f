//! When the player holds still: the tick after a teleport.

use vstd::prelude::*;
use super::dispatch::{packet_applied, Order};
use super::input::InputState;
use super::motion::{Footing, Motion};
use super::state::{ticked, GameState, TickStart};
use crate::chat::lang::Language;
use crate::clientbound::ClientboundPlayPacket;

verus! {

/// What can happen to a game between two ticks.
pub enum Happening {
    /// A packet came.
    Packet {
        packet: ClientboundPlayPacket,
        lang: Language,
        now: u64,
        orders: Seq<Order>,
        remesh: bool,
    },
    /// The sprint rules ran.
    Sprint { sprinting: bool, input: InputState, footing: Footing },
    /// The move ended, perhaps on the ground.
    Landing { on_ground: bool },
    /// The server was told of the abilities.
    AbilitiesSent,
    /// Something that does not concern how the player moves.
    Other,
}

impl Happening {
    /// What it leaves of the game.
    pub open spec fn leads(self, before: GameState, after: GameState) -> bool {
        match self {
            Happening::Packet { packet, lang, now, orders, remesh } => packet_applied(
                before,
                packet,
                lang,
                now,
                after,
                orders,
                remesh,
            ),
            Happening::Sprint { sprinting, input, footing } => after.motion
                == before.motion.sprint_step(sprinting, input, footing),
            Happening::Landing { on_ground } => after.motion == before.motion.landed(on_ground),
            Happening::AbilitiesSent => after.motion == (Motion {
                abilities_dirty: false,
                ..before.motion
            }),
            Happening::Other => after.motion == before.motion,
        }
    }

    /// The server placed the player.
    pub open spec fn teleports(self) -> bool {
        self matches Happening::Packet { packet, .. } && packet is PlayerPositionLook
    }
}

/// The game after each of some happenings, starting with the one before them.
pub open spec fn happened(games: Seq<GameState>, happenings: Seq<Happening>) -> bool {
    &&& games.len() == happenings.len() + 1
    &&& forall|i: int|
        0 <= i < happenings.len() ==> (#[trigger] happenings[i]).leads(games[i], games[i + 1])
}

proof fn lemma_only_teleports_freeze(h: Happening, before: GameState, after: GameState)
    requires
        h.leads(before, after),
    ensures
        after.motion.freeze_movement_after_teleport == (
        before.motion.freeze_movement_after_teleport || h.teleports()),
{
}

proof fn lemma_frozen_once_teleported(games: Seq<GameState>, happenings: Seq<Happening>, n: int)
    requires
        happened(games, happenings),
        0 <= n <= happenings.len(),
        !games[0].motion.freeze_movement_after_teleport,
    ensures
        games[n].motion.freeze_movement_after_teleport <==> exists|i: int|
            0 <= i < n && (#[trigger] happenings[i]).teleports(),
    decreases n,
{
    if n > 0 {
        lemma_frozen_once_teleported(games, happenings, n - 1);
        assert(happenings[n - 1].leads(games[n - 1], games[n]));
        lemma_only_teleports_freeze(happenings[n - 1], games[n - 1], games[n]);
    }
}

/// The player holds still in a tick exactly if the server placed the player since the
/// tick before.
pub proof fn law_a_tick_is_frozen_after_a_teleport(
    earlier: GameState,
    earlier_boss: bool,
    earlier_start: TickStart,
    games: Seq<GameState>,
    happenings: Seq<Happening>,
    boss: bool,
    start: TickStart,
    after: GameState,
)
    requires
        happened(games, happenings),
        ticked(earlier, earlier_boss, earlier_start, games[0]),
        ticked(games.last(), boss, start, after),
    ensures
        start.frozen <==> exists|i: int|
            0 <= i < happenings.len() && (#[trigger] happenings[i]).teleports(),
{
    lemma_frozen_once_teleported(games, happenings, happenings.len() as int);
}

/// The player holds still in the first tick exactly if the server placed the player before
/// it.
pub proof fn law_the_first_tick_is_frozen_after_a_teleport(
    games: Seq<GameState>,
    happenings: Seq<Happening>,
    boss: bool,
    start: TickStart,
    after: GameState,
)
    requires
        happened(games, happenings),
        games[0].motion.freeze_movement_after_teleport
            == Motion::initial().freeze_movement_after_teleport,
        ticked(games.last(), boss, start, after),
    ensures
        start.frozen <==> exists|i: int|
            0 <= i < happenings.len() && (#[trigger] happenings[i]).teleports(),
{
    lemma_frozen_once_teleported(games, happenings, happenings.len() as int);
}

} // verus!
