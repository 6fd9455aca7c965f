//! The state of a running game, and its clock tick.

use vstd::prelude::*;
use crate::chat::state::ChatState;
use crate::item::{stack_view, SlotItem};
use crate::packets::ServerboundPacket;
use super::commands::Clock;
use super::entities::EntityTables;
use super::fixtures::Fixtures;
use super::hand::{Equipped, EquippedModel};
use super::input::InputState;
use super::motion::{Footing, Motion, PlayerCapabilities};
use super::music::{desired_music_type, spec_desired, MusicModel, MusicTicker, MusicType};
use super::player::{turn, Hands, HandsModel, Outbox, Scene, Step, TickActions};
use super::sounds::{EntitySounds, Mood, Sample, Steps};
use super::demos::{build_demo, demo_built, scenery, surfaces_for, DemoWorld};
use super::terrain::{holds_blocks, Terrain};
use super::title::{TitleModel, TitleState};
use super::vitals::{Vitals, VitalsModel};
use super::weather::{aged, Lightning, Weather};
use super::windows::Windows;
use super::worldgen::{
    enter_scenery, spawn_built, spawn_scenery, spawn_surfaces, DemoKind, SpawnArea, WorldGen,
};

verus! {

/// Where the client stands with the server.
#[derive(Debug, Clone, Copy, PartialEq, Eq, Structural)]
pub struct Session {
    /// The number of the player's entity.
    pub player_id: i32,
    pub has_sky_light: bool,
    pub dimension: i8,
    pub joined_game: bool,
    /// The server has said where the player is.
    pub position_synced: bool,
    /// The server corrected the position and waits for it to be confirmed.
    pub pending_confirm: bool,
    pub on_fire: bool,
}

impl Session {
    pub open spec fn initial() -> Session {
        Session {
            player_id: 0,
            has_sky_light: true,
            dimension: 0,
            joined_game: false,
            position_synced: false,
            pending_confirm: false,
            on_fire: false,
        }
    }

    /// The server has said where the player is: movement is reported from then on.
    pub open spec fn placed(self) -> bool {
        self.joined_game && self.position_synced
    }

    /// The corrected position needs no more confirming.
    pub open spec fn confirmed(self) -> Session {
        Session { pending_confirm: false, ..self }
    }

    /// A corrected position is to be confirmed.
    pub open spec fn confirms(self) -> bool {
        self.pending_confirm && self.placed()
    }

    /// The dimension, as far as light tells: 0 with a sky, -1 without.
    pub open spec fn lit_dimension(self) -> int {
        if self.has_sky_light {
            0
        } else {
            -1
        }
    }
}

/// The state of a running game, as far as it is not geometry.
#[derive(Debug)]
pub struct GameState {
    pub session: Session,
    pub input: InputState,
    pub hands: Hands,
    pub equipped: Equipped,
    pub motion: Motion,
    pub windows: Windows,
    pub vitals: Vitals,
    pub tables: EntityTables,
    pub terrain: Terrain,
    pub fixtures: Fixtures,
    pub clock: Clock,
    pub weather: Weather,
    pub lightning: Lightning,
    pub chat: ChatState,
    pub title: TitleState,
    pub music: MusicTicker,
    pub mood: Mood,
    pub steps: Steps,
    pub entity_sounds: EntitySounds,
    /// This tick's input.
    pub pending_actions: TickActions,
    /// The generator of a world of its own.
    pub local_worldgen: Option<WorldGen>,
}

/// What a tick leaves for the caller to do.
#[derive(Debug, Clone, Copy, PartialEq, Eq, Structural)]
pub struct TickStart {
    /// The player holds still this tick, and no movement is reported.
    pub frozen: bool,
    /// A place to listen for a cave sound at.
    pub sample: Option<Sample>,
}

/// What a tick starts with: everything that runs by itself has advanced by one, and the
/// player holds still if a teleport came.
pub open spec fn ticked(before: GameState, boss: bool, start: TickStart, after: GameState) -> bool {
    &&& after.vitals@ == (VitalsModel {
        hud_update_counter: before.vitals.hud_update_counter.wrapping_add(1),
        ..before.vitals@
    })
    &&& after.title@ == before.title@.step()
    &&& after.clock == before.clock.step()
    &&& after.weather == before.weather.step()
    &&& after.lightning.bolts@ == aged(before.lightning.bolts@)
    &&& after.lightning.count == before.lightning.count
    &&& after.music@ == before.music@.step(before.wanted_music(boss))
    &&& (after.mood, start.sample) == before.mood.step(
        before.session.joined_game,
    )
    &&& start.frozen == before.motion.freeze_movement_after_teleport
    &&& after.motion == (Motion {
        freeze_movement_after_teleport: false,
        ..before.motion.fly_step(before.input.jump)
    })
    &&& after.hands@ == if start.frozen {
        before.hands@.swing_step()
    } else {
        before.hands@.swing_step().timers_step()
    }
    &&& after.equipped@ == before.equipped@.step(
        stack_view(before.windows.inventory@[36 + before.hands.selected_slot]),
        before.hands.selected_slot,
    )
    &&& after == (GameState {
        vitals: after.vitals,
        title: after.title,
        clock: after.clock,
        weather: after.weather,
        lightning: after.lightning,
        music: after.music,
        mood: after.mood,
        motion: after.motion,
        hands: after.hands,
        equipped: after.equipped,
        ..before
    })
}

/// The sprint rules of a tick were applied.
pub open spec fn sprint_ticked(
    before: GameState,
    on_ground: bool,
    collided_horizontally: bool,
    after: GameState,
) -> bool {
    let f = Footing {
        on_ground,
        collided_horizontally,
        using_item: before.hands@.using_item(),
        food: before.vitals.food,
    };
    &&& after.hands@ == (HandsModel {
        sprinting: before.motion.sprints(before.hands.sprinting, before.input, f),
        ..before.hands@
    })
    &&& after.motion == before.motion.sprint_step(before.hands.sprinting, before.input, f)
    &&& after == (GameState { hands: after.hands, motion: after.motion, ..before })
}

/// The player rides along this tick if the vehicle is in the world, and then does not sprint.
pub open spec fn ridden(before: GameState, in_world: bool, after: GameState, rides: bool) -> bool {
    &&& rides == (in_world && before.tables.riders.vehicle(before.session.player_id) is Some)
    &&& after.hands@ == (HandsModel {
        sprinting: before.hands.sprinting && !rides,
        ..before.hands@
    })
    &&& after == (GameState { hands: after.hands, ..before })
}

impl GameState {
    pub open spec fn wf(&self) -> bool {
        &&& self.hands@.wf()
        &&& self.equipped@.wf()
        &&& self.motion.wf()
        &&& self.windows.wf()
        &&& self.tables.wf()
        &&& self.terrain.wf()
        &&& self.fixtures.open_chests@.no_duplicates()
        &&& self.clock.wf()
        &&& self.weather.wf()
        &&& self.chat.wf()
        &&& self.title@.wf()
        &&& self.music@.wf()
        &&& self.entity_sounds.wf()
    }

    /// A game before anything happened in it, but for what the player holds and is
    /// able to do, how fast time runs, and which columns are there.
    pub open spec fn at_the_start(&self) -> bool {
        &&& self.session == Session::initial()
        &&& self.input == InputState::released()
        &&& self.equipped@ == EquippedModel::initial()
        &&& self.windows.empty_screen()
        &&& self.vitals@ == VitalsModel::initial()
        &&& self.tables.uuids@.dom() == Set::<i32>::empty()
        &&& self.tables.items@.dom() == Set::<i32>::empty()
        &&& self.tables.xp@.dom() == Set::<i32>::empty()
        &&& self.tables.falling@.dom() == Set::<i32>::empty()
        &&& self.tables.equipment@.dom() == Set::<i32>::empty()
        &&& forall|p: i32| #[trigger] self.tables.riders.vehicle(p) is None
        &&& self.terrain.residency.dirty@ == Set::<super::sections::SectionPos>::empty()
        &&& self.terrain.residency.urgent@ == Set::<super::sections::SectionPos>::empty()
        &&& self.terrain.residency.evicted@.len() == 0
        &&& self.terrain.residency.last is None
        &&& self.terrain.pending@.len() == 0
        &&& self.fixtures.signs@.len() == 0
        &&& self.fixtures.open_chests@.len() == 0
        &&& self.weather == Weather::clear_sky()
        &&& self.lightning.bolts@.len() == 0
        &&& self.lightning.count == 0
        &&& self.chat.lines@.len() == 0
        &&& self.chat.action_bar is None
        &&& self.chat.sent@.len() == 0
        &&& self.chat.completions@.len() == 0
        &&& self.title@ == TitleModel::initial()
        &&& self.music@ == MusicModel::initial()
        &&& self.mood == Mood::initial()
        &&& self.steps == (Steps { next_step_distance: 1, prev_on_ground: true })
        &&& self.entity_sounds.sounds@.len() == 0
        &&& self.entity_sounds.next_id == 1
        &&& self.pending_actions == no_actions()
    }

    /// A game before it is joined: a healthy player with empty hands at noon.
    pub fn empty_for_server() -> (g: GameState)
        ensures
            g.wf(),
            g.at_the_start(),
            g.hands@ == HandsModel::initial(),
            g.motion == Motion::initial(),
            g.clock == Clock::initial(),
            g.local_worldgen is None,
            g.terrain.columns.list@.len() == 0,
            forall|i: int| 0 <= i < 45 ==> (#[trigger] g.windows.inventory@[i]) is None,
    {
        let g = GameState {
            session: Session {
                player_id: 0,
                has_sky_light: true,
                dimension: 0,
                joined_game: false,
                position_synced: false,
                pending_confirm: false,
                on_fire: false,
            },
            input: InputState::default(),
            hands: Hands::new(),
            equipped: Equipped::new(),
            motion: Motion::new(),
            windows: Windows::new(),
            vitals: Vitals::new(),
            tables: EntityTables::new(),
            terrain: Terrain::new(),
            fixtures: Fixtures::new(),
            clock: Clock::new(),
            weather: Weather::default(),
            lightning: Lightning::new(),
            chat: ChatState::new(),
            title: TitleState::default(),
            music: MusicTicker::new(),
            mood: Mood::new(),
            steps: Steps::new(),
            entity_sounds: EntitySounds::new(),
            pending_actions: TickActions::default(),
            local_worldgen: None,
        };
        assert(g.tables.uuids@.dom() =~= Set::empty());
        assert(g.tables.items@.dom() =~= Set::empty());
        assert(g.tables.xp@.dom() =~= Set::empty());
        assert(g.tables.falling@.dom() =~= Set::empty());
        assert(g.tables.equipment@.dom() =~= Set::empty());
        g
    }

    /// How the player of a generated world starts.
    pub open spec fn local_start(self, seed: i64) -> bool {
        &&& self.hands@ == HandsModel { creative: true, ..HandsModel::initial() }
        &&& self.motion == Motion {
            capabilities: PlayerCapabilities {
                creative: true,
                allow_flying: true,
                ..Motion::initial().capabilities
            },
            ..Motion::initial()
        }
        &&& self.clock == Clock::initial()
        &&& self.local_worldgen == Some(WorldGen { seed })
        &&& stocked(self.windows.inventory@, local_hotbar())
    }

    /// How the player of a demo world starts.
    pub open spec fn demo_start(self, kind: DemoKind) -> bool {
        &&& self.motion == Motion {
            capabilities: PlayerCapabilities {
                allow_flying: true,
                flying: kind is Terrain || kind is SingleCube,
                ..Motion::initial().capabilities
            },
            ..Motion::initial()
        }
        &&& self.clock == Clock { time_rate: 12, ..Clock::initial() }
        &&& self.hands@ == HandsModel::initial()
        &&& self.local_worldgen is None
        &&& stocked(self.windows.inventory@, demo_hotbar())
    }

    /// This tick's input is begun to be acted on.
    pub open spec fn actions_begun(
        self,
        sent: Outbox,
        after: GameState,
        out: Outbox,
        begun: (TickActions, bool),
    ) -> bool {
        let selected = turn(self.hands, sent).select(self.pending_actions);
        let held = stack_view(self.windows.inventory@[36 + selected.hands.selected_slot]);
        let counter = self.vitals.hud_update_counter;
        &&& begun.0 == self.pending_actions
        &&& turn(after.hands, out) == selected.begin(self.pending_actions, held, counter)
        &&& begun.1 == selected.use_on(held, counter).hands.using_item()
        &&& after == GameState { hands: after.hands, pending_actions: no_actions(), ..self }
    }

    /// A game in a world of its own, generated from a seed: creative, allowed to fly,
    /// with a hotbar of building blocks. The area around the spawn, given its surfaces, is
    /// there from the start; it is returned for the world.
    pub fn local_world(seed: i64, heights: &Vec<i32>) -> (start: (GameState, SpawnArea))
        requires
            spawn_surfaces(heights@),
        ensures
            spawn_built(seed, heights@, start.1),
            holds_blocks(start.0.terrain.columns, spawn_scenery(start.1)),
            start.0.wf(),
            start.0.at_the_start(),
            start.0.local_start(seed),
    {
        let mut g = GameState::empty_for_server();
        let generator = WorldGen::new(seed);
        let area = generator.spawn_area(heights);
        enter_scenery(&mut g.terrain.columns, &area.blocks, &area.trees);
        g.local_worldgen = Some(generator);
        g.hands.creative = true;
        g.motion.capabilities.creative = true;
        g.motion.capabilities.allow_flying = true;
        let blocks: Vec<i16> = vec![1i16, 3, 2, 4, 5, 17, 18, 20, 89];
        stock_hotbar(&mut g.windows.inventory, &blocks);
        assert(blocks@ =~= local_hotbar());
        (g, area)
    }

    /// A game in a demo world: allowed to fly, time runs twelvefold, with a hotbar
    /// of light sources. Some demos hover from the start. The world, given its surfaces,
    /// is there from the start; it is returned to be put in place.
    pub fn demo(kind: DemoKind, heights: &Vec<i32>) -> (start: (GameState, DemoWorld))
        requires
            surfaces_for(kind, heights@),
        ensures
            demo_built(kind, heights@, start.1),
            holds_blocks(start.0.terrain.columns, scenery(start.1)),
            start.0.wf(),
            start.0.at_the_start(),
            start.0.demo_start(kind),
    {
        let mut g = GameState::empty_for_server();
        let world = build_demo(kind, heights);
        enter_scenery(&mut g.terrain.columns, &world.blocks, &world.trees);
        g.motion.capabilities.allow_flying = true;
        match kind {
            DemoKind::Terrain | DemoKind::SingleCube => {
                g.motion.capabilities.flying = true;
            },
            _ => {},
        }
        g.clock.time_rate = 12;
        let blocks: Vec<i16> = vec![89i16, 50, 169, 91, 124, 1];
        stock_hotbar(&mut g.windows.inventory, &blocks);
        assert(blocks@ =~= demo_hotbar());
        (g, world)
    }

    /// Movement is reported only after the server said where the player is.
    pub fn can_send_movement_packets(&self) -> (yes: bool)
        ensures
            yes == self.session.placed(),
    {
        self.session.joined_game && self.session.position_synced
    }

    /// Whether a corrected position is to be confirmed now; each one once.
    pub fn take_position_confirm(&mut self) -> (confirm: bool)
        ensures
            confirm == old(self).session.confirms(),
            *final(self) == (GameState { session: old(self).session.confirmed(), ..*old(self) }),
    {
        let confirm = self.session.pending_confirm && self.can_send_movement_packets();
        self.session.pending_confirm = false;
        confirm
    }

    /// The abilities packet the server is owed.
    pub fn take_abilities_packet(&mut self) -> (packet: Option<ServerboundPacket>)
        ensures
            packet == old(self).motion.owed(),
            *final(self) == (GameState { motion: old(self).motion.told(), ..*old(self) }),
    {
        self.motion.take_abilities()
    }

    /// The dimension, as far as light tells: 0 with a sky, -1 without.
    pub fn dimension(&self) -> (d: i32)
        ensures
            d == self.session.lit_dimension(),
    {
        if self.session.has_sky_light {
            0
        } else {
            -1
        }
    }

    /// The stack in the selected hotbar slot.
    pub fn held_item(&self) -> (held: &Option<SlotItem>)
        requires
            self.wf(),
        ensures
            *held == self.windows.inventory@[36 + self.hands.selected_slot],
    {
        self.windows.held_item(self.hands.selected_slot)
    }

    /// Set this tick's input.
    pub fn set_pending_actions(&mut self, actions: TickActions)
        ensures
            *final(self) == (GameState { pending_actions: actions, ..*old(self) }),
    {
        self.pending_actions = actions;
    }

    /// The music that fits the game.
    pub open spec fn wanted_music(&self, boss: bool) -> MusicType {
        spec_desired(
            self.session.joined_game,
            self.session.dimension as int,
            boss,
            self.hands.creative,
            self.motion.capabilities.allow_flying,
        )
    }

    /// The music that fits the game.
    pub fn desired_music_type(&self, boss: bool) -> (music: MusicType)
        ensures
            music == self.wanted_music(boss),
    {
        desired_music_type(
            self.session.joined_game,
            self.session.dimension,
            boss,
            self.hands.creative,
            self.motion.capabilities.allow_flying,
        )
    }

    /// Advance the music alone, as in the menus.
    pub fn tick_menu_music(&mut self, boss: bool)
        requires
            old(self).wf(),
        ensures
            final(self).wf(),
            final(self).music@ == old(self).music@.step(old(self).wanted_music(boss)),
            *final(self) == (GameState { music: final(self).music, ..*old(self) }),
    {
        let wanted = self.desired_music_type(boss);
        self.music.tick(wanted);
    }

    /// The first part of a tick, before input is acted on: everything that runs by
    /// itself advances by one. On the tick after a teleport the player holds
    /// still: then nothing of this tick's input is acted on.
    pub fn tick(&mut self, boss: bool) -> (start: TickStart)
        requires
            old(self).wf(),
        ensures
            final(self).wf(),
            ticked(*old(self), boss, start, *final(self)),
    {
        self.vitals.tick();
        self.title.tick();
        self.clock.tick();
        self.weather.tick();
        self.lightning.tick();
        let wanted = self.desired_music_type(boss);
        self.music.tick(wanted);
        let joined = self.session.joined_game;
        let sample = self.mood.tick_ambient_mood(joined);
        self.hands.update_arm_swing();
        let selected = self.hands.selected_slot;
        self.equipped.update_equipped_item(self.windows.held_item(selected), selected);
        let jump = self.input.jump;
        self.motion.tick_fly_toggle(jump);
        let frozen = self.motion.take_freeze();
        if !frozen {
            self.hands.tick_click_timers();
        }
        TickStart { frozen, sample }
    }

    /// Start acting on this tick's input: the hotbar selection and the use of an
    /// item. Returns the input and whether its clicks are swallowed. The steps
    /// that [`Hands::next_step`] names follow, each with what the crosshair points
    /// at when it comes.
    pub fn process_tick_actions(&mut self, out: &mut Outbox) -> (begun: (TickActions, bool))
        requires
            old(self).wf(),
            old(self).hands.use_item_ticks < i32::MAX,
        ensures
            final(self).wf(),
            old(self).actions_begun(*old(out), *final(self), *final(out), begun),
    {
        let a = self.pending_actions;
        self.pending_actions = TickActions::default();
        self.hands.select_slot(&a, out);
        let counter = self.vitals.hud_update_counter;
        let swallowed = self.hands.begin_actions(
            &a,
            self.windows.held_item(self.hands.selected_slot),
            counter,
            out,
        );
        (a, swallowed)
    }

    /// Carry out one step of this tick's input.
    pub fn perform(&mut self, step: Step, a: &TickActions, scene: &Scene, out: &mut Outbox)
        requires
            old(self).wf(),
            scene.wf(),
        ensures
            final(self).wf(),
            turn(final(self).hands, *final(out)) == turn(old(self).hands, *old(out)).step(
                step,
                *a,
                stack_view(old(self).windows.inventory@[36 + old(self).hands.selected_slot]),
                *scene,
            ),
            *final(self) == (GameState { hands: final(self).hands, ..*old(self) }),
    {
        self.hands.perform(
            step,
            a,
            self.windows.held_item(self.hands.selected_slot),
            scene,
            out,
        );
    }

    /// The sprint rules, run before the move. A rider does not sprint.
    pub fn tick_sprint(&mut self, on_ground: bool, collided_horizontally: bool)
        requires
            old(self).wf(),
        ensures
            final(self).wf(),
            sprint_ticked(*old(self), on_ground, collided_horizontally, *final(self)),
    {
        let f = Footing {
            on_ground,
            collided_horizontally,
            using_item: self.hands.is_using_item(),
            food: self.vitals.food,
        };
        let sprinting = self.hands.sprinting;
        let input = self.input;
        self.hands.sprinting = self.motion.tick_sprint(sprinting, &input, &f);
    }

    /// The vehicle the player sits on.
    pub fn vehicle(&self) -> (vehicle: Option<i32>)
        ensures
            vehicle == self.tables.riders.vehicle(self.session.player_id),
    {
        self.tables.riders.vehicle_of(self.session.player_id)
    }

    /// Whether the player rides along this tick, instead of walking: the vehicle has to
    /// be in the world. A rider does not sprint.
    pub fn ride(&mut self, in_world: bool) -> (rides: bool)
        requires
            old(self).wf(),
        ensures
            final(self).wf(),
            ridden(*old(self), in_world, *final(self), rides),
    {
        let rides = in_world && self.vehicle().is_some();
        if rides {
            self.hands.sprinting = false;
        }
        rides
    }

    /// After the move: touching the ground ends flight.
    pub fn land(&mut self, on_ground: bool)
        requires
            old(self).wf(),
        ensures
            final(self).wf(),
            final(self).motion == old(self).motion.landed(on_ground),
            *final(self) == (GameState { motion: final(self).motion, ..*old(self) }),
    {
        self.motion.land(on_ground);
    }
}

/// No input.
pub open spec fn no_actions() -> TickActions {
    TickActions {
        slot_select: None,
        slot_scroll: 0,
        attack_pressed: false,
        use_pressed: false,
        left_held: false,
        right_held: false,
        old_animations: false,
    }
}

/// Stone, dirt, grass, cobblestone, planks, log, leaves, glass, glowstone.
pub open spec fn local_hotbar() -> Seq<i16> {
    seq![1i16, 3i16, 2i16, 4i16, 5i16, 17i16, 18i16, 20i16, 89i16]
}

/// Glowstone, torch, sea lantern, jack-o-lantern, redstone lamp, stone.
pub open spec fn demo_hotbar() -> Seq<i16> {
    seq![89i16, 50i16, 169i16, 91i16, 124i16, 1i16]
}

/// The hotbar holds full stacks of these blocks, and nothing else is carried.
pub open spec fn stocked(inventory: Seq<Option<SlotItem>>, blocks: Seq<i16>) -> bool {
    &&& forall|i: int|
        0 <= i < blocks.len() ==> stack_view(#[trigger] inventory[36 + i]) == Some(
            crate::item::ItemModel { id: blocks[i] as int, count: 64, damage: 0, nbt: None },
        )
    &&& forall|i: int|
        0 <= i < 45 && !(36 <= i < 36 + blocks.len()) ==> (#[trigger] inventory[i]) is None
}

fn stock_hotbar(inventory: &mut Vec<Option<SlotItem>>, blocks: &Vec<i16>)
    requires
        old(inventory)@.len() == 45,
        blocks@.len() <= 9,
        forall|i: int| 0 <= i < 45 ==> (#[trigger] old(inventory)@[i]) is None,
    ensures
        final(inventory)@.len() == 45,
        stocked(final(inventory)@, blocks@),
{
    let mut i: usize = 0;
    while i < blocks.len()
        invariant
            i <= blocks@.len() <= 9,
            inventory@.len() == 45,
            forall|k: int|
                0 <= k < i ==> stack_view(#[trigger] inventory@[36 + k]) == Some(
                    crate::item::ItemModel {
                        id: blocks@[k] as int,
                        count: 64,
                        damage: 0,
                        nbt: None,
                    },
                ),
            forall|k: int|
                0 <= k < 45 && !(36 <= k < 36 + i) ==> (#[trigger] inventory@[k]) is None,
        decreases blocks@.len() - i,
    {
        inventory.set(36 + i, Some(SlotItem::new(blocks[i], 64, 0)));
        i += 1;
    }
}

} // verus!
