//! What the host reads from a running game and asks of it: the player's state for
//! the screens, the windows, the title, music and the sections to mesh.

use vstd::prelude::*;
use crate::container::click::click_defined;
use crate::container::state::Container;
use crate::item::{inventory_view, SlotItem};
use crate::packets::{DiggingStatus, Real32, ServerboundPacket};
use super::commands::{
    answer_to, clock_after, command_of, run_demo_command, sky_after, Command, DAY,
};
use super::motion::PlayerCapabilities;
use super::music::{MusicCommand, MusicModel};
use super::player::{dig_packet, HandsModel};
use super::residency::{
    bounded_to_view, columns_to_generate, far_unloaded, next_generated, unload_far_columns,
    urgent_taken,
};
use super::sections::{
    budget_taken, mark_column, take_dirty_chunks_budget, ChunkPos, SectionPos, RESIDENCY_MARGIN,
};
use super::state::GameState;
use super::terrain::{block_predicted, blocks_entered, column_applied, unloaded, BlockEdit};
use super::title::spec_alpha;
use super::vitals::{ActiveEffect, HudVitals, VitalsModel};
use super::weather::{LightningBolt, Weather};
use super::windows::{
    closed_by_player, drag_begun, drag_dropped, drag_reported, is_player_window, offer_chosen,
    window_clicked, worn_points, Windows,
};
use super::worldgen::{enter_scenery, grown, plantable};

verus! {

/// The title and subtitle to draw, and their opacity as a fraction.
#[derive(Debug, Clone, Copy, PartialEq, Eq)]
pub struct TitleOverlay<'a> {
    pub title: &'a str,
    pub subtitle: &'a str,
    /// Numerator and denominator.
    pub alpha: (i128, i128),
}

/// The active effects numbered `id` and above, by number: each with its strength
/// and time left.
pub open spec fn effects_listed(effects: Map<u8, ActiveEffect>, id: int) -> Seq<(u8, i8, i32)>
    decreases 256 - id,
{
    if id < 0 || id >= 256 {
        Seq::empty()
    } else if effects.dom().contains(id as u8) {
        let e = effects[id as u8];
        seq![(id as u8, e.amplifier, e.duration)] + effects_listed(effects, id + 1)
    } else {
        effects_listed(effects, id + 1)
    }
}

// ── The player ────────────────────────────────────────────────────────────

impl GameState {
    /// The selected hotbar slot.
    pub fn selected_slot(&self) -> (slot: i32)
        ensures
            slot == self.hands.selected_slot,
    {
        self.hands.selected_slot
    }

    /// Whether the player is in creative mode.
    pub fn is_creative(&self) -> (yes: bool)
        ensures
            yes == self.hands.creative,
    {
        self.hands.creative
    }

    /// The number of the player's entity.
    pub fn player_entity_id(&self) -> (id: i32)
        ensures
            id == self.session.player_id,
    {
        self.session.player_id
    }

    /// Whether the sneak key is held.
    pub fn player_sneaking(&self) -> (yes: bool)
        ensures
            yes == self.input.sneak,
    {
        self.input.sneak
    }

    /// Whether the player sprints.
    pub fn player_sprinting(&self) -> (yes: bool)
        ensures
            yes == self.hands.sprinting,
    {
        self.hands.sprinting
    }

    /// Health; zero is dead.
    pub fn health(&self) -> (health: Real32)
        ensures
            health == self.vitals.health,
    {
        self.vitals.health
    }

    /// The food level.
    pub fn food(&self) -> (food: i32)
        ensures
            food == self.vitals.food,
    {
        self.vitals.food
    }

    /// How full the experience bar is.
    pub fn xp_bar(&self) -> (bar: Real32)
        ensures
            bar == self.vitals.xp_bar,
    {
        self.vitals.xp_bar
    }

    /// The experience level.
    pub fn xp_level(&self) -> (level: i32)
        ensures
            level == self.vitals.xp_level,
    {
        self.vitals.xp_level
    }

    /// What the player is able to do.
    pub fn capabilities(&self) -> (c: PlayerCapabilities)
        ensures
            c == self.motion.capabilities,
    {
        self.motion.capabilities
    }

    /// Whether the server reported the player dead and no respawn was asked for.
    pub fn is_dead(&self) -> (yes: bool)
        ensures
            yes == self.vitals.is_dead,
    {
        self.vitals.is_dead
    }

    /// The active effects with their strength and time left, by number.
    pub fn active_effects(&self) -> (effects: Vec<(u8, i8, i32)>)
        ensures
            effects@ == effects_listed(self.vitals.effects@, 0),
    {
        let table = &self.vitals.effects;
        let mut effects: Vec<(u8, i8, i32)> = Vec::new();
        let mut id: u16 = 0;
        while id < 256
            invariant
                id <= 256,
                effects@ + effects_listed(table@, id as int) == effects_listed(table@, 0),
            decreases 256 - id,
        {
            let ghost before = effects@;
            let ghost rest = effects_listed(table@, id + 1);
            if let Some(e) = table.get(&(id as u8)) {
                effects.push((id as u8, e.amplifier, e.duration));
                assert(before + (seq![effects@.last()] + rest) =~= effects@ + rest);
            }
            id += 1;
        }
        assert(effects@ + Seq::<(u8, i8, i32)>::empty() =~= effects@);
        effects
    }

    /// What the hearts and the food bar show.
    pub fn hud_vitals(&self) -> (hud: HudVitals)
        ensures
            self.vitals.shown_as(hud),
    {
        self.vitals.hud_vitals()
    }

    /// The player clicked the respawn button: the request goes out with the next
    /// tick and the death screen closes at once.
    pub fn request_respawn(&mut self)
        ensures
            final(self).vitals@ == old(self).vitals@.respawn_asked(),
            *final(self) == (GameState { vitals: final(self).vitals, ..*old(self) }),
    {
        self.vitals.request_respawn();
    }

    /// Whether a respawn is to be asked for now; each request once.
    pub fn take_respawn_request(&mut self) -> (wanted: bool)
        ensures
            wanted == old(self).vitals.needs_respawn,
            final(self).vitals@ == (VitalsModel { needs_respawn: false, ..old(self).vitals@ }),
            *final(self) == (GameState { vitals: final(self).vitals, ..*old(self) }),
    {
        self.vitals.take_respawn_request()
    }

    /// Start swinging the arm, unless a swing is in its first half.
    pub fn swing_arm(&mut self)
        ensures
            final(self).hands@ == old(self).hands@.swung(),
            *final(self) == (GameState { hands: final(self).hands, ..*old(self) }),
    {
        self.hands.swing_arm();
    }

    /// Stop digging: the packet that tells so, if anything was being dug.
    pub fn cancel_breaking(&mut self) -> (packet: Option<ServerboundPacket>)
        ensures
            final(self).hands@ == (HandsModel { breaking: None, ..old(self).hands@ }),
            *final(self) == (GameState { hands: final(self).hands, ..*old(self) }),
            packet == match old(self).hands@.breaking {
                Some(b) => Some(dig_packet(DiggingStatus::CancelDestroy, b.x, b.y, b.z, 0)),
                None => None,
            },
    {
        self.hands.cancel_breaking()
    }

    /// The block being dug and how far its cracks have grown.
    pub fn breaking_overlay(&self) -> (crack: Option<(i32, i32, i32, u8)>)
        requires
            self.wf(),
        ensures
            match (crack, self.hands@.breaking) {
                (Some(c), Some(b)) => c.0 == b.x && c.1 == b.y && c.2 == b.z && c.3 == b.stage()
                    && c.3 <= 9,
                (None, None) => true,
                _ => false,
            },
    {
        self.hands.breaking_overlay()
    }
}

// ── Time, title and music ─────────────────────────────────────────────────

impl GameState {
    /// The time of day, in ticks within the day.
    pub fn world_time_ticks(&self) -> (time: i64)
        requires
            self.wf(),
        ensures
            time == self.clock.world_time,
            0 <= time < DAY,
    {
        self.clock.world_time
    }

    /// The time of day a part of a tick on, in billionths of a tick; `alpha` is that
    /// part, in billionths.
    pub fn world_time(&self, alpha: u32) -> (time: i128)
        ensures
            time == self.clock.time_after(alpha as int),
    {
        let rate: i64 = if self.clock.daylight_cycle {
            self.clock.time_rate
        } else {
            0
        };
        proof {
            assert(-0x8000_0000_0000_0000 * 0xffff_ffff <= rate * alpha
                <= 0x7fff_ffff_ffff_ffff * 0xffff_ffff) by (nonlinear_arith)
                requires
                    -0x8000_0000_0000_0000 <= rate <= 0x7fff_ffff_ffff_ffff,
                    0 <= alpha <= 0xffff_ffff,
            ;
        }
        self.clock.world_time as i128 * 1_000_000_000 + rate as i128 * alpha as i128
    }

    /// Carry a demo world's command out and answer it; a lightning strike is left to
    /// the caller.
    pub fn run_demo_command(&mut self, cmd: &str) -> (answer: Option<String>)
        ensures
            ({
                let command = command_of(crate::text::words_of(cmd@));
                &&& *final(self) == (GameState {
                    clock: clock_after(old(self).clock, command),
                    weather: sky_after(old(self).weather, command),
                    ..*old(self)
                })
                &&& match answer {
                    Some(text) => command != Command::Strike && text@ == answer_to(
                        cmd@,
                        command,
                        final(self).clock,
                    ),
                    None => command == Command::Strike,
                }
            }),
            old(self).wf() ==> final(self).wf(),
    {
        run_demo_command(cmd, &mut self.clock, &mut self.weather)
    }

    /// The weather.
    pub fn weather(&self) -> (weather: &Weather)
        ensures
            *weather == self.weather,
    {
        &self.weather
    }

    /// The bolts that show.
    pub fn lightning_bolts(&self) -> (bolts: &Vec<LightningBolt>)
        ensures
            *bolts == self.lightning.bolts,
    {
        &self.lightning.bolts
    }

    /// This title is drawn `partial` billionths of a tick on.
    pub open spec fn title_drawn(self, partial: int, overlay: Option<TitleOverlay<'_>>) -> bool {
        match overlay {
            Some(o) => {
                &&& self.title@.shown(partial)
                &&& o.title@ == self.title@.title
                &&& o.subtitle@ == self.title@.subtitle
                &&& o.alpha.0 == spec_alpha(self.title@, partial).0
                &&& o.alpha.1 == spec_alpha(self.title@, partial).1
            },
            None => !self.title@.shown(partial),
        }
    }

    /// The title to draw `partial` billionths of a tick on, unless it is over or
    /// fully transparent.
    pub fn title_overlay(&self, partial: u64) -> (overlay: Option<TitleOverlay<'_>>)
        requires
            self.wf(),
        ensures
            self.title_drawn(partial as int, overlay),
    {
        match self.title.overlay(partial) {
            Some(alpha) => Some(
                TitleOverlay {
                    title: self.title.title.as_str(),
                    subtitle: self.title.subtitle.as_str(),
                    alpha,
                },
            ),
            None => None,
        }
    }

    /// What to do to the music since last asked.
    pub fn take_music_commands(&mut self) -> (commands: Vec<MusicCommand>)
        ensures
            commands@ == old(self).music.commands@,
            final(self).music@ == (MusicModel { orders: Seq::empty(), ..old(self).music@ }),
            *final(self) == (GameState { music: final(self).music, ..*old(self) }),
    {
        self.music.take_music_commands()
    }

    /// The host reports whether a track sounds: only its end is taken as news.
    pub fn set_music_playing(&mut self, playing: bool)
        ensures
            final(self).music@ == old(self).music@.heard(playing),
            *final(self) == (GameState { music: final(self).music, ..*old(self) }),
    {
        self.music.set_music_playing(playing);
    }
}

// ── Windows ───────────────────────────────────────────────────────────────

impl GameState {
    /// The places of the player's inventory.
    pub fn inventory_slots(&self) -> (slots: &Vec<Option<SlotItem>>)
        ensures
            *slots == self.windows.inventory,
    {
        &self.windows.inventory
    }

    /// The nine places of the hotbar.
    pub fn hotbar_items(&self) -> (items: &[Option<SlotItem>])
        requires
            self.wf(),
        ensures
            items@ == self.windows.inventory@.subrange(36, 45),
    {
        vstd::slice::slice_subrange(self.windows.inventory.as_slice(), 36, 45)
    }

    /// The stack on the cursor.
    pub fn cursor_item(&self) -> (item: Option<&SlotItem>)
        ensures
            item == match self.windows.cursor_item {
                Some(carried) => Some(&carried),
                None => None,
            },
    {
        self.windows.cursor_item.as_ref()
    }

    /// The armor points of what the player wears.
    pub fn armor(&self) -> (points: i32)
        requires
            self.wf(),
        ensures
            points == worn_points(inventory_view(self.windows.inventory@), 4),
    {
        self.windows.armor()
    }

    /// The open window.
    pub fn open_container(&self) -> (window: Option<&Container>)
        ensures
            window == match self.windows.open_container {
                Some(c) => Some(&c),
                None => None,
            },
    {
        self.windows.open_container.as_ref()
    }

    /// Whether a paint-drag is under way.
    pub fn container_drag_active(&self) -> (yes: bool)
        ensures
            yes == self.windows.drag_active,
    {
        self.windows.drag_active
    }

    /// How many slots it has painted.
    pub fn container_drag_len(&self) -> (n: usize)
        ensures
            n == self.windows.drag_slots@.len(),
    {
        self.windows.drag_slots.len()
    }

    /// The button it was begun with.
    pub fn container_drag_button(&self) -> (button: i8)
        ensures
            button == self.windows.drag_button,
    {
        self.windows.drag_button
    }

    /// Whether the server opened a window since last asked.
    pub fn take_window_open(&mut self) -> (opened: bool)
        requires
            old(self).wf(),
        ensures
            final(self).wf(),
            opened == old(self).windows.window_open_pending,
            *final(self) == (GameState {
                windows: Windows { window_open_pending: false, ..old(self).windows },
                ..*old(self)
            }),
    {
        self.windows.take_window_open()
    }

    /// Whether the server closed the window since last asked.
    pub fn take_window_close(&mut self) -> (closed: bool)
        requires
            old(self).wf(),
        ensures
            final(self).wf(),
            closed == old(self).windows.window_close_pending,
            *final(self) == (GameState {
                windows: Windows { window_close_pending: false, ..old(self).windows },
                ..*old(self)
            }),
    {
        self.windows.take_window_close()
    }

    /// Open the player's own inventory.
    pub fn open_player_inventory(&mut self)
        requires
            old(self).wf(),
        ensures
            final(self).wf(),
            final(self).windows.open_container matches Some(c) && is_player_window(c),
            *final(self) == (GameState {
                windows: Windows {
                    open_container: final(self).windows.open_container,
                    ..old(self).windows
                },
                ..*old(self)
            }),
    {
        self.windows.open_player_inventory();
    }

    /// Click in the open window: predicted here and reported to the server.
    pub fn container_click(&mut self, slot: i16, button: i8, mode: i8) -> (packets: Vec<
        ServerboundPacket,
    >)
        requires
            old(self).wf(),
            old(self).windows.open_container matches Some(c) ==> click_defined(
                c.slots@,
                old(self).windows.state(),
                slot,
                button,
                mode,
            ),
        ensures
            final(self).wf(),
            window_clicked(
                old(self).windows,
                slot,
                button,
                mode,
                old(self).hands.creative,
                final(self).windows,
                packets@,
            ),
            *final(self) == (GameState { windows: final(self).windows, ..*old(self) }),
    {
        self.windows.container_click(slot, button, mode, self.hands.creative)
    }

    /// Close the open window: the packet that tells so.
    pub fn container_close(&mut self) -> (packet: Option<ServerboundPacket>)
        requires
            old(self).wf(),
        ensures
            final(self).wf(),
            closed_by_player(old(self).windows, final(self).windows, packet),
            *final(self) == (GameState { windows: final(self).windows, ..*old(self) }),
    {
        self.windows.container_close()
    }

    /// Choose a villager's offer, the last one where there are fewer: the packet that
    /// tells so.
    pub fn merchant_select(&mut self, index: usize) -> (packet: Option<ServerboundPacket>)
        requires
            old(self).wf(),
            old(self).windows.open_container matches Some(c) ==> c.trades@.len() <= i32::MAX,
        ensures
            final(self).wf(),
            offer_chosen(old(self).windows, index, final(self).windows, packet),
            *final(self) == (GameState { windows: final(self).windows, ..*old(self) }),
    {
        self.windows.merchant_select(index)
    }

    /// Begin a paint-drag, when something is carried.
    pub fn container_drag_begin(&mut self, button: i8)
        requires
            old(self).wf(),
        ensures
            final(self).wf(),
            drag_begun(old(self).windows, button, final(self).windows),
            *final(self) == (GameState { windows: final(self).windows, ..*old(self) }),
    {
        self.windows.container_drag_begin(button);
    }

    /// Paint a slot, where that is allowed.
    pub fn container_drag_add(&mut self, slot: i16)
        requires
            old(self).wf(),
        ensures
            final(self).wf(),
            final(self).windows.drag_slots@ == if old(self).windows.paintable(slot) {
                old(self).windows.drag_slots@.push(slot)
            } else {
                old(self).windows.drag_slots@
            },
            *final(self) == (GameState {
                windows: Windows {
                    drag_slots: final(self).windows.drag_slots,
                    ..old(self).windows
                },
                ..*old(self)
            }),
    {
        self.windows.container_drag_add(slot);
    }

    /// End the paint-drag: report its start, every painted slot and its end.
    pub fn container_drag_commit(&mut self) -> (packets: Vec<ServerboundPacket>)
        requires
            old(self).wf(),
        ensures
            final(self).wf(),
            drag_reported(
                old(self).windows,
                old(self).hands.creative,
                final(self).windows,
                packets@,
            ),
            *final(self) == (GameState { windows: final(self).windows, ..*old(self) }),
    {
        self.windows.container_drag_commit(self.hands.creative)
    }

    /// Give the paint-drag up without reporting it.
    pub fn container_drag_cancel(&mut self)
        requires
            old(self).wf(),
        ensures
            final(self).wf(),
            drag_dropped(old(self).windows, final(self).windows),
            *final(self) == (GameState { windows: final(self).windows, ..*old(self) }),
    {
        self.windows.container_drag_cancel();
    }
}

// ── Terrain ───────────────────────────────────────────────────────────────

impl GameState {
    /// How many columns are loaded.
    pub fn loaded_chunk_count(&self) -> (n: usize)
        ensures
            n == self.terrain.columns.list@.len(),
    {
        self.terrain.columns.list.len()
    }

    /// The dirty sections to handle this frame, the player standing at block
    /// `(bx, by, bz)`.
    pub fn take_dirty_chunks_budget(&mut self, max: usize, bx: i32, by: i32, bz: i32) -> (taken: Vec<
        SectionPos,
    >)
        requires
            old(self).wf(),
        ensures
            final(self).wf(),
            budget_taken(
                old(self).terrain.residency.dirty@,
                old(self).terrain.columns,
                max as int,
                bx as int,
                by as int,
                bz as int,
                taken@,
                final(self).terrain.residency.dirty@,
            ),
            *final(self) == (GameState { terrain: final(self).terrain, ..*old(self) }),
            final(self).terrain.columns == old(self).terrain.columns,
            final(self).terrain.pending == old(self).terrain.pending,
            final(self).terrain.residency.urgent == old(self).terrain.residency.urgent,
            final(self).terrain.residency.evicted == old(self).terrain.residency.evicted,
            final(self).terrain.residency.last == old(self).terrain.residency.last,
    {
        take_dirty_chunks_budget(
            &mut self.terrain.residency.dirty,
            &self.terrain.columns,
            max,
            bx,
            by,
            bz,
        )
    }

    /// Bound resident meshes to the view of the player at block `(bx, bz)`: the
    /// sections whose mesh to free.
    pub fn enforce_render_distance(&mut self, render_distance: u32, bx: i32, bz: i32) -> (removals:
        Vec<SectionPos>)
        requires
            old(self).wf(),
            render_distance <= i32::MAX - RESIDENCY_MARGIN,
        ensures
            final(self).wf(),
            bounded_to_view(
                old(self).terrain.residency,
                old(self).terrain.columns,
                render_distance as int,
                bx as int,
                bz as int,
                final(self).terrain.residency,
                removals@,
            ),
            *final(self) == (GameState { terrain: final(self).terrain, ..*old(self) }),
            final(self).terrain.columns == old(self).terrain.columns,
            final(self).terrain.pending == old(self).terrain.pending,
    {
        self.terrain.residency.enforce_render_distance(
            &self.terrain.columns,
            render_distance,
            bx,
            bz,
        )
    }

    /// Every section that is there needs meshing.
    pub fn mark_all_sections_dirty(&mut self)
        requires
            old(self).wf(),
        ensures
            final(self).wf(),
            forall|s: SectionPos|
                #[trigger] final(self).terrain.residency.dirty@.contains(s) <==> old(
                    self,
                ).terrain.residency.dirty@.contains(s) || old(self).terrain.columns.has_section(s),
            *final(self) == (GameState { terrain: final(self).terrain, ..*old(self) }),
            final(self).terrain.columns == old(self).terrain.columns,
            final(self).terrain.pending == old(self).terrain.pending,
            final(self).terrain.residency.urgent == old(self).terrain.residency.urgent,
            final(self).terrain.residency.evicted == old(self).terrain.residency.evicted,
            final(self).terrain.residency.last == old(self).terrain.residency.last,
    {
        self.terrain.residency.mark_all_sections_dirty(&self.terrain.columns);
    }

    /// The sections the player changed, to mesh before all others.
    pub fn take_urgent_remesh(&mut self) -> (taken: Vec<SectionPos>)
        requires
            old(self).wf(),
        ensures
            final(self).wf(),
            urgent_taken(old(self).terrain.residency, final(self).terrain.residency, taken@),
            *final(self) == (GameState { terrain: final(self).terrain, ..*old(self) }),
            final(self).terrain.columns == old(self).terrain.columns,
            final(self).terrain.pending == old(self).terrain.pending,
    {
        self.terrain.residency.take_urgent_remesh()
    }

    /// Stream a generated world, the player standing at block `(bx, bz)`: the columns
    /// to generate now and the sections whose mesh to free, as the columns far past
    /// the render distance are unloaded. Each generated column is reported back with
    /// [`GameState::column_generated`]. Nothing happens in other worlds.
    pub fn stream_local_world(&mut self, render_distance: u32, bx: i32, bz: i32) -> (streamed: (
        Vec<ChunkPos>,
        Vec<SectionPos>,
    ))
        requires
            old(self).wf(),
            render_distance <= i32::MAX - 0x800_0000,
        ensures
            final(self).wf(),
            old(self).local_worldgen is None ==> {
                &&& streamed.0@.len() == 0
                &&& streamed.1@.len() == 0
                &&& *final(self) == *old(self)
            },
            old(self).local_worldgen is Some ==> {
                let before = old(self).terrain;
                let after = final(self).terrain;
                &&& next_generated(
                    before.columns,
                    before.residency.dirty@.len() as int,
                    render_distance as int,
                    bx as int,
                    bz as int,
                    streamed.0@,
                )
                &&& far_unloaded(
                    before.columns,
                    before.residency.dirty@,
                    render_distance as int,
                    bx as int,
                    bz as int,
                    after.columns,
                    after.residency.dirty@,
                    streamed.1@,
                )
                &&& after.pending == before.pending
                &&& after.residency.urgent == before.residency.urgent
                &&& after.residency.evicted == before.residency.evicted
                &&& after.residency.last == before.residency.last
                &&& *final(self) == (GameState { terrain: after, ..*old(self) })
            },
    {
        if self.local_worldgen.is_none() {
            return (Vec::new(), Vec::new());
        }
        let chosen = columns_to_generate(
            &self.terrain.columns,
            self.terrain.residency.dirty.len(),
            render_distance,
            bx,
            bz,
        );
        let removed = unload_far_columns(
            &mut self.terrain.columns,
            &mut self.terrain.residency.dirty,
            render_distance,
            bx,
            bz,
        );
        (chosen, removed)
    }

    /// A column was generated, with these blocks and trees: it is loaded with their
    /// sections, and those and the sections that its light reached need meshing.
    pub fn column_generated(
        &mut self,
        pos: ChunkPos,
        blocks: &Vec<BlockEdit>,
        trees: &Vec<(i32, i32, i32)>,
        relit: &Vec<SectionPos>,
    )
        requires
            old(self).wf(),
            forall|i: int| 0 <= i < trees@.len() ==> plantable(#[trigger] trees@[i]),
        ensures
            final(self).wf(),
            blocks_entered(
                old(self).terrain.columns,
                blocks@ + grown(trees@, trees@.len() as int),
                final(self).terrain.columns,
            ),
            forall|s: SectionPos|
                #[trigger] final(self).terrain.residency.dirty@.contains(s) <==> old(
                    self,
                ).terrain.residency.dirty@.contains(s) || relit@.contains(s) || (s.spec_chunk()
                    == pos && final(self).terrain.columns.has_section(s)),
            final(self).terrain.pending == old(self).terrain.pending,
            final(self).terrain.residency.urgent == old(self).terrain.residency.urgent,
            final(self).terrain.residency.evicted == old(self).terrain.residency.evicted,
            final(self).terrain.residency.last == old(self).terrain.residency.last,
            *final(self) == (GameState { terrain: final(self).terrain, ..*old(self) }),
    {
        enter_scenery(&mut self.terrain.columns, blocks, trees);
        self.terrain.residency.dirty.extend(relit);
        if self.terrain.columns.find(pos).is_some() {
            assert(self.terrain.columns.loaded(pos));
            mark_column(&mut self.terrain.residency.dirty, &self.terrain.columns, pos);
        }
    }

    /// A decoded column arrived: the waiting changes to make in it.
    pub fn apply_chunk_column(&mut self, x: i32, z: i32, full: bool, sections: &Vec<i32>) -> (edits:
        Vec<BlockEdit>)
        requires
            old(self).wf(),
            i32::MIN < x < i32::MAX,
            i32::MIN < z < i32::MAX,
        ensures
            final(self).wf(),
            column_applied(
                old(self).terrain,
                (ChunkPos { x, z }),
                full,
                sections@,
                edits@,
                final(self).terrain,
            ),
            *final(self) == (GameState { terrain: final(self).terrain, ..*old(self) }),
    {
        self.terrain.apply_chunk_column(x, z, full, sections)
    }

    /// A block that the player sets or breaks, ahead of the server: whether it is to be
    /// made.
    pub fn predict_block(&mut self, edit: BlockEdit) -> (now: bool)
        requires
            old(self).wf(),
        ensures
            final(self).wf(),
            now == old(self).terrain.columns.loaded(edit.spec_column()),
            block_predicted(old(self).terrain, edit, final(self).terrain),
            *final(self) == (GameState { terrain: final(self).terrain, ..*old(self) }),
    {
        self.terrain.predict_block(edit)
    }

    /// Unload a column: it and its neighbours need meshing.
    pub fn unload_chunk(&mut self, x: i32, z: i32)
        requires
            old(self).wf(),
            i32::MIN < x < i32::MAX,
            i32::MIN < z < i32::MAX,
        ensures
            final(self).wf(),
            unloaded(old(self).terrain, (ChunkPos { x, z }), final(self).terrain),
            *final(self) == (GameState { terrain: final(self).terrain, ..*old(self) }),
    {
        self.terrain.unload_chunk(x, z);
    }
}

} // verus!
