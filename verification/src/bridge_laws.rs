//! What extensions are told and shown is what happened: every event and view carries the
//! packet's own values, each in its place.

use vstd::prelude::*;
use crate::chat::component::flat_message;
use crate::chat::lang::Language;
use crate::clientbound::{BlockChangeRecord, ClientboundPlayPacket};
use crate::container::state::WindowKind;
use crate::ext_bridge::{
    are_events_of, built, change_events, changes_fit, digging_number, digging_status, effects_from,
    kind_name, kind_view, others, place_view, removal_events, shape_name, shows_clientbound,
    type_of_clientbound, type_of_serverbound, view_of_serverbound, ContainerInfo, EffectView,
    EntityKindView, ExtEvent, GameViews, PacketBuild, PacketType, PacketView, RenderShape,
};
use crate::game::dispatch::EntityKind;
use crate::game::vitals::ActiveEffect;
use crate::item::SlotItem;
use crate::packets::{DiggingStatus, Real64, ServerboundPacket};

verus! {

// ── Events ────────────────────────────────────────────────────────────────

/// A new entity is told once, with its number, what it is and where it is.
pub proof fn law_spawns_are_told(events: Seq<ExtEvent>, p: ClientboundPlayPacket, lang: Language)
    requires
        are_events_of(events, p, lang),
    ensures
        p matches ClientboundPlayPacket::SpawnPlayer { entity_id, x, y, z, .. } ==> events.len()
            == 1 && told_spawn(events[0], entity_id, EntityKindView::Player, x, y, z),
        p matches ClientboundPlayPacket::SpawnMob { entity_id, kind, x, y, z, .. } ==> events.len()
            == 1 && told_spawn(events[0], entity_id, EntityKindView::Mob(kind), x, y, z),
        p matches ClientboundPlayPacket::SpawnObject { entity_id, kind, x, y, z, .. }
            ==> events.len() == 1 && told_spawn(
            events[0],
            entity_id,
            EntityKindView::Object(kind as u8),
            x,
            y,
            z,
        ),
        p matches ClientboundPlayPacket::SpawnExperienceOrb { entity_id, x, y, z, .. }
            ==> events.len() == 1 && told_spawn(
            events[0],
            entity_id,
            EntityKindView::ExperienceOrb,
            x,
            y,
            z,
        ),
{
}

/// An event tells of this entity here.
pub open spec fn told_spawn(
    event: ExtEvent,
    entity: i32,
    what: EntityKindView,
    px: Real64,
    py: Real64,
    pz: Real64,
) -> bool {
    event matches ExtEvent::EntitySpawn { id, kind, x, y, z } && id == entity && kind == what && x
        == px && y == py && z == pz
}

/// Chat, one changed block and health are told once, as they came.
pub proof fn law_single_events_are_as_they_came(
    events: Seq<ExtEvent>,
    p: ClientboundPlayPacket,
    lang: Language,
)
    requires
        are_events_of(events, p, lang),
    ensures
        p matches ClientboundPlayPacket::ChatMessage { json, position } ==> events.len() == 1 && (
        events[0] matches ExtEvent::Chat { text, position: at, json: raw } && text@ == flat_message(
            json@,
            lang,
        ) && at == position && raw@ == json@),
        p matches ClientboundPlayPacket::BlockChange { x, y, z, id, meta } ==> events.len() == 1
            && told_block(events[0], x as int, y as int, z as int, id, meta),
        p matches ClientboundPlayPacket::UpdateHealth { health, food, .. } ==> events.len() == 1 && (
        events[0] matches ExtEvent::PlayerHealth { health: h, food: f } && h == health && f
            == food),
{
}

/// An event tells of this block.
pub open spec fn told_block(event: ExtEvent, bx: int, by: int, bz: int, block: u16, data: u8) -> bool {
    event matches ExtEvent::BlockChange { x, y, z, id, meta } && x == bx && y == by && z == bz && id
        == block && meta == data
}

proof fn lemma_change_events(
    chunk_x: int,
    chunk_z: int,
    changes: Seq<BlockChangeRecord>,
    n: int,
    i: int,
)
    requires
        0 <= i < n <= changes.len(),
        i32::MIN <= chunk_x * 16 + changes[i].x <= i32::MAX,
        i32::MIN <= chunk_z * 16 + changes[i].z <= i32::MAX,
    ensures
        change_events(chunk_x, chunk_z, changes, n).len() == n,
        told_block(
            change_events(chunk_x, chunk_z, changes, n)[i],
            chunk_x * 16 + changes[i].x,
            changes[i].y as int,
            chunk_z * 16 + changes[i].z,
            changes[i].id,
            changes[i].meta,
        ),
    decreases n,
{
    if i < n - 1 {
        lemma_change_events(chunk_x, chunk_z, changes, n - 1, i);
    } else {
        lemma_change_events_len(chunk_x, chunk_z, changes, n - 1);
    }
}

proof fn lemma_change_events_len(
    chunk_x: int,
    chunk_z: int,
    changes: Seq<BlockChangeRecord>,
    n: int,
)
    requires
        n >= 0,
    ensures
        change_events(chunk_x, chunk_z, changes, n).len() == n,
    decreases n,
{
    if n > 0 {
        lemma_change_events_len(chunk_x, chunk_z, changes, n - 1);
    }
}

/// Of a change of many blocks each is told, in order, at its place in the world: sixteen
/// blocks to a chunk, on its own axis.
pub proof fn law_every_changed_block_is_told(
    events: Seq<ExtEvent>,
    chunk_x: i32,
    chunk_z: i32,
    changes: Vec<BlockChangeRecord>,
    lang: Language,
    i: int,
)
    requires
        are_events_of(
            events,
            ClientboundPlayPacket::MultiBlockChange { chunk_x, chunk_z, changes },
            lang,
        ),
        changes_fit(ClientboundPlayPacket::MultiBlockChange { chunk_x, chunk_z, changes }),
        0 <= i < changes@.len(),
    ensures
        events.len() == changes@.len(),
        told_block(
            events[i],
            16 * chunk_x + changes@[i].x,
            changes@[i].y as int,
            16 * chunk_z + changes@[i].z,
            changes@[i].id,
            changes@[i].meta,
        ),
{
    lemma_change_events(chunk_x as int, chunk_z as int, changes@, changes@.len() as int, i);
}

proof fn lemma_removal_events(ids: Seq<i32>, n: int)
    requires
        0 <= n <= ids.len(),
    ensures
        removal_events(ids, n).len() == n,
        forall|i: int|
            0 <= i < n ==> (#[trigger] removal_events(ids, n)[i] matches ExtEvent::EntityRemove {
                id,
            } && id == ids[i]),
    decreases n,
{
    if n > 0 {
        lemma_removal_events(ids, n - 1);
    }
}

/// Of the entities that go each is told, in order.
pub proof fn law_every_gone_entity_is_told(
    events: Seq<ExtEvent>,
    entity_ids: Vec<i32>,
    lang: Language,
    i: int,
)
    requires
        are_events_of(events, ClientboundPlayPacket::DestroyEntities { entity_ids }, lang),
        0 <= i < entity_ids@.len(),
    ensures
        events.len() == entity_ids@.len(),
        events[i] matches ExtEvent::EntityRemove { id } && id == entity_ids@[i],
{
    lemma_removal_events(entity_ids@, entity_ids@.len() as int);
}

/// Movement, sounds, windows and the rest make no event.
pub proof fn law_other_packets_make_no_event(
    events: Seq<ExtEvent>,
    p: ClientboundPlayPacket,
    lang: Language,
)
    requires
        are_events_of(events, p, lang),
    ensures
        events.len() > 0 ==> p is ChatMessage || p is BlockChange || p is MultiBlockChange
            || p is SpawnPlayer || p is SpawnMob || p is SpawnObject || p is SpawnExperienceOrb
            || p is DestroyEntities || p is UpdateHealth,
{
}

// ── Views ─────────────────────────────────────────────────────────────────

/// A packet from the server is shown with its own values.
pub proof fn law_packets_are_shown_as_they_came(
    v: PacketView,
    p: ClientboundPlayPacket,
    lang: Language,
)
    requires
        shows_clientbound(v, p, lang),
    ensures
        p matches ClientboundPlayPacket::KeepAlive { id } ==> (v matches PacketView::KeepAlive {
            id: shown,
        } && shown == id),
        p matches ClientboundPlayPacket::ChatMessage { json, position } ==> (
        v matches PacketView::Chat { text, position: at, json: raw } && text@ == flat_message(
            json@,
            lang,
        ) && at == position && raw@ == json@),
        p matches ClientboundPlayPacket::BlockChange { x, y, z, id, meta } ==> (
        v matches PacketView::BlockChange { x: bx, y: by, z: bz, id: block, meta: data } && bx == x
            && by == y && bz == z && block == id && data == meta),
        p matches ClientboundPlayPacket::SpawnMob { entity_id, kind, x, y, z, .. } ==> (
        v matches PacketView::SpawnMob { id, kind: what, x: px, y: py, z: pz } && id == entity_id
            && what == kind && px == x && py == y && pz == z),
        p matches ClientboundPlayPacket::SpawnPlayer { entity_id, x, y, z, .. } ==> (
        v matches PacketView::SpawnPlayer { id, x: px, y: py, z: pz } && id == entity_id && px == x
            && py == y && pz == z),
        p matches ClientboundPlayPacket::DestroyEntities { entity_ids } ==> (
        v matches PacketView::DestroyEntities { ids } && ids@ == entity_ids@),
        p matches ClientboundPlayPacket::UpdateHealth { health, food, .. } ==> (
        v matches PacketView::UpdateHealth { health: h, food: f } && h == health && f == food),
        p matches ClientboundPlayPacket::SoundEffect { name, x, y, z, volume, pitch } ==> (
        v matches PacketView::SoundEffect {
            name: n,
            x: px,
            y: py,
            z: pz,
            volume: loud,
            pitch: high,
        } && n@ == name@ && px == x && py == y && pz == z && loud == volume && high == pitch),
        v matches PacketView::Other { ty, raw_id } ==> ty == type_of_clientbound(p) && raw_id == 0,
{
}

/// The kinds tell packets from the server apart; the small moves of entities are one kind.
pub proof fn law_kinds_tell_packets_apart(p: ClientboundPlayPacket)
    ensures
        ({
            let ty = type_of_clientbound(p);
            &&& ty == PacketType::KeepAlive <==> p is KeepAlive
            &&& ty == PacketType::JoinGame <==> p is JoinGame
            &&& ty == PacketType::Respawn <==> p is Respawn
            &&& ty == PacketType::ChatMessage <==> p is ChatMessage
            &&& ty == PacketType::BlockChange <==> p is BlockChange
            &&& ty == PacketType::MultiBlockChange <==> p is MultiBlockChange
            &&& ty == PacketType::ChunkData <==> p is ChunkData
            &&& ty == PacketType::ChunkBulk <==> p is ChunkBulk
            &&& ty == PacketType::SpawnPlayer <==> p is SpawnPlayer
            &&& ty == PacketType::SpawnMob <==> p is SpawnMob
            &&& ty == PacketType::SpawnObject <==> p is SpawnObject
            &&& ty == PacketType::SpawnExperienceOrb <==> p is SpawnExperienceOrb
            &&& ty == PacketType::EntityMove <==> p is EntityRelativeMove || p is EntityLookMove
                || p is EntityLook
            &&& ty == PacketType::EntityTeleport <==> p is EntityTeleport
            &&& ty == PacketType::EntityVelocity <==> p is EntityVelocity
            &&& ty == PacketType::DestroyEntities <==> p is DestroyEntities
            &&& ty == PacketType::EntityMetadata <==> p is EntityMetadata
            &&& ty == PacketType::PlayerPositionLook <==> p is PlayerPositionLook
            &&& ty == PacketType::UpdateHealth <==> p is UpdateHealth
            &&& ty == PacketType::SetExperience <==> p is SetExperience
            &&& ty == PacketType::SetSlot <==> p is SetSlot
            &&& ty == PacketType::WindowItems <==> p is WindowItems
            &&& ty == PacketType::HeldItemChange <==> p is HeldItemChange
            &&& ty == PacketType::SoundEffect <==> p is SoundEffect
            &&& ty == PacketType::SpawnParticle <==> p is SpawnParticle
            &&& ty == PacketType::Effect <==> p is Effect
            &&& ty == PacketType::BlockAction <==> p is BlockAction
            &&& ty == PacketType::TimeUpdate <==> p is TimeUpdate
            &&& ty == PacketType::Disconnect <==> p is Disconnect
        }),
{
}

/// The kinds tell packets to the server apart.
pub proof fn law_kinds_tell_sent_packets_apart(p: ServerboundPacket)
    ensures
        ({
            let ty = type_of_serverbound(p);
            &&& ty == PacketType::SbChatMessage <==> p is ChatMessage
            &&& ty == PacketType::SbPlayerPosition <==> p is PlayerPosition
            &&& ty == PacketType::SbPlayerLook <==> p is PlayerLook
            &&& ty == PacketType::SbPlayerPositionLook <==> p is PlayerPositionLook
            &&& ty == PacketType::SbPlayerDigging <==> p is PlayerDigging
            &&& ty == PacketType::SbPlayerBlockPlacement <==> p is PlayerBlockPlacement
            &&& ty == PacketType::SbHeldItemChange <==> p is HeldItemChange
            &&& ty == PacketType::SbAnimation <==> p is SwingArm
            &&& ty == PacketType::SbUseEntity <==> p is UseEntity
            &&& ty == PacketType::SbEntityAction <==> p is EntityAction
            &&& ty == PacketType::SbKeepAlive <==> p is KeepAlive
        }),
{
}

/// A packet to the server is shown with its own values; a full movement is shown as a
/// position.
pub proof fn law_sent_packets_are_shown_as_sent(p: ServerboundPacket)
    ensures
        ({
            let v = view_of_serverbound(p);
            &&& (p matches ServerboundPacket::ChatMessage { message } ==> (
            v matches PacketView::OutChat { message: shown } && shown == message))
            &&& (p matches ServerboundPacket::PlayerPosition { x, y, z, on_ground } ==> (
            v matches PacketView::OutPlayerPosition { x: px, y: py, z: pz, on_ground: g } && px == x
                && py == y && pz == z && g == on_ground))
            &&& (p matches ServerboundPacket::PlayerPositionLook { x, y, z, on_ground, .. } ==> (
            v matches PacketView::OutPlayerPosition { x: px, y: py, z: pz, on_ground: g } && px == x
                && py == y && pz == z && g == on_ground))
            &&& (p matches ServerboundPacket::PlayerDigging { status, x, y, z, face } ==> (
            v matches PacketView::OutPlayerDigging { status: s, x: px, y: py, z: pz, face: f } && px
                == x && py == y && pz == z && f == face && digging_status(s) == status))
            &&& (v matches PacketView::Other { ty, raw_id } ==> ty == type_of_serverbound(p)
                && raw_id == 0)
        }),
{
}

/// A packet is sent with the values that it was built of.
pub proof fn law_built_packets_are_sent_as_built(b: PacketBuild)
    ensures
        ({
            let p = built(b);
            &&& (b matches PacketBuild::Chat(text) ==> (p matches ServerboundPacket::ChatMessage {
                message,
            } && message == text))
            &&& (b matches PacketBuild::PlayerPosition { x, y, z, on_ground } ==> (
            p matches ServerboundPacket::PlayerPosition { x: px, y: py, z: pz, on_ground: g } && px
                == x && py == y && pz == z && g == on_ground))
            &&& (b matches PacketBuild::PlayerLook { yaw, pitch, on_ground } ==> (
            p matches ServerboundPacket::PlayerLook { yaw: facing, pitch: tilt, on_ground: g }
                && facing == yaw && tilt == pitch && g == on_ground))
            &&& (b matches PacketBuild::HeldItemChange { slot } ==> (
            p matches ServerboundPacket::HeldItemChange { slot: held } && held == slot))
            &&& b is SwingArm ==> p is SwingArm
            &&& (b matches PacketBuild::PlayerDigging { status, x, y, z, face } ==> (
            p matches ServerboundPacket::PlayerDigging {
                status: s,
                x: px,
                y: py,
                z: pz,
                face: f,
            } && px == x && py == y && pz == z && f == face && (status <= 5 ==> digging_number(s)
                == status) && (status > 5 ==> s == DiggingStatus::StartDestroy)))
        }),
{
}

/// The numbers of the digging statuses are those of the protocol, from starting a dig to
/// letting go of a used item.
pub proof fn law_digging_statuses_are_numbered()
    ensures
        digging_number(DiggingStatus::StartDestroy) == 0,
        digging_number(DiggingStatus::CancelDestroy) == 1,
        digging_number(DiggingStatus::FinishDestroy) == 2,
        digging_number(DiggingStatus::DropItemStack) == 3,
        digging_number(DiggingStatus::DropItem) == 4,
        digging_number(DiggingStatus::ReleaseUseItem) == 5,
{
}

/// Both kinds of players are players; mobs and objects keep their number.
pub proof fn law_entities_are_what_they_are(kind: EntityKind)
    ensures
        kind_view(kind) == EntityKindView::Player <==> kind is LocalPlayer || kind is RemotePlayer,
        kind matches EntityKind::Mob(n) ==> kind_view(kind) == EntityKindView::Mob(n),
        kind matches EntityKind::Object(n) ==> kind_view(kind) == EntityKindView::Object(n),
        kind_view(kind) == EntityKindView::ExperienceOrb <==> kind is ExperienceOrb,
{
}

/// A stack is shown with its item, its size and its wear.
pub proof fn law_stacks_are_shown_as_they_are(place: Option<SlotItem>)
    ensures
        place_view(place) is None <==> place is None,
        place matches Some(s) ==> (place_view(place) matches Some(v) && v.id == s.id && v.count
            == s.count && v.damage == s.damage),
{
}

// ── Names ─────────────────────────────────────────────────────────────────

/// The names of windows tell their kinds apart; chests of any size are chests.
pub proof fn law_window_names_tell_kinds_apart(a: WindowKind, b: WindowKind)
    ensures
        kind_name(a)@ == kind_name(b)@ <==> a == b || (a is Chest && b is Chest),
        a is Chest ==> kind_name(a)@ == "chest"@,
        a is Furnace ==> kind_name(a)@ == "furnace"@,
        a is Villager ==> kind_name(a)@ == "villager"@,
{
    reveal_strlit("player");
    reveal_strlit("chest");
    reveal_strlit("dispenser");
    reveal_strlit("hopper");
    reveal_strlit("furnace");
    reveal_strlit("crafting");
    reveal_strlit("brewing");
    reveal_strlit("enchant");
    reveal_strlit("anvil");
    reveal_strlit("beacon");
    reveal_strlit("villager");
    lemma_name_letters(a);
    lemma_name_letters(b);
}

/// A number for the kind of a window, from its name: length and two letters.
spec fn name_key(name: Seq<char>) -> (int, char, char) {
    (name.len() as int, name[0], name[1])
}

proof fn lemma_name_letters(kind: WindowKind)
    ensures
        name_key(kind_name(kind)@) == match kind {
            WindowKind::Player => (6int, 'p', 'l'),
            WindowKind::Chest(_) => (5int, 'c', 'h'),
            WindowKind::Dispenser => (9int, 'd', 'i'),
            WindowKind::Hopper => (6int, 'h', 'o'),
            WindowKind::Furnace => (7int, 'f', 'u'),
            WindowKind::Crafting => (8int, 'c', 'r'),
            WindowKind::Brewing => (7int, 'b', 'r'),
            WindowKind::Enchant => (7int, 'e', 'n'),
            WindowKind::Anvil => (5int, 'a', 'n'),
            WindowKind::Beacon => (6int, 'b', 'e'),
            WindowKind::Villager => (8int, 'v', 'i'),
        },
{
    reveal_strlit("player");
    reveal_strlit("chest");
    reveal_strlit("dispenser");
    reveal_strlit("hopper");
    reveal_strlit("furnace");
    reveal_strlit("crafting");
    reveal_strlit("brewing");
    reveal_strlit("enchant");
    reveal_strlit("anvil");
    reveal_strlit("beacon");
    reveal_strlit("villager");
}

/// The names of shapes tell them apart.
pub proof fn law_shape_names_tell_shapes_apart(a: RenderShape, b: RenderShape)
    ensures
        shape_name(a)@ == shape_name(b)@ <==> a == b,
        shape_name(RenderShape::Hidden)@ == "none"@,
        shape_name(RenderShape::Cube)@ == "cube"@,
        shape_name(RenderShape::Cross)@ == "cross"@,
        shape_name(RenderShape::Fluid)@ == "fluid"@,
{
    lemma_shape_letters(a);
    lemma_shape_letters(b);
}

proof fn lemma_shape_letters(shape: RenderShape)
    ensures
        name_key(shape_name(shape)@) == match shape {
            RenderShape::Hidden => (4int, 'n', 'o'),
            RenderShape::Cube => (4int, 'c', 'u'),
            RenderShape::Cross => (5int, 'c', 'r'),
            RenderShape::Rail => (4int, 'r', 'a'),
            RenderShape::Ladder => (6int, 'l', 'a'),
            RenderShape::Boxes => (5int, 'b', 'o'),
            RenderShape::Door => (4int, 'd', 'o'),
            RenderShape::Piston => (6int, 'p', 'i'),
            RenderShape::PistonHead => (11int, 'p', 'i'),
            RenderShape::Torch => (5int, 't', 'o'),
            RenderShape::Fluid => (5int, 'f', 'l'),
            RenderShape::Fire => (4int, 'f', 'i'),
            RenderShape::Bed => (3int, 'b', 'e'),
        },
{
    reveal_strlit("none");
    reveal_strlit("cube");
    reveal_strlit("cross");
    reveal_strlit("rail");
    reveal_strlit("ladder");
    reveal_strlit("boxes");
    reveal_strlit("door");
    reveal_strlit("piston");
    reveal_strlit("piston_head");
    reveal_strlit("torch");
    reveal_strlit("fluid");
    reveal_strlit("fire");
    reveal_strlit("bed");
}

// ── State ─────────────────────────────────────────────────────────────────

/// Extensions are shown every entity but the player's own.
pub proof fn law_everybody_else_is_shown(ids: Seq<i32>, player_id: i32, n: int, id: i32)
    requires
        0 <= n <= ids.len(),
    ensures
        others(ids, player_id, n).contains(id) <==> ids.take(n).contains(id) && id != player_id,
        others(ids, player_id, n).len() <= n,
    decreases n,
{
    if n > 0 {
        law_everybody_else_is_shown(ids, player_id, n - 1, id);
        let before = others(ids, player_id, n - 1);
        let last = ids[n - 1];
        let older = ids.take(n - 1);
        assert(ids.take(n) =~= older.push(last));
        lemma_pushed(older, last, id);
        lemma_pushed(before, last, id);
    } else {
        assert(ids.take(0) =~= Seq::<i32>::empty());
    }
}

proof fn lemma_pushed(list: Seq<i32>, last: i32, id: i32)
    ensures
        list.push(last).contains(id) == (list.contains(id) || last == id),
{
    let all = list.push(last);
    assert(all[list.len() as int] == last);
    if list.contains(id) {
        let k = choose|k: int| 0 <= k < list.len() && list[k] == id;
        assert(all[k] == id);
    }
    if all.contains(id) {
        let k = choose|k: int| 0 <= k < all.len() && all[k] == id;
        if k < list.len() {
            assert(list[k] == id);
        }
    }
}

/// Extensions are shown exactly the active effects, by rising number, with their strength
/// and time.
pub proof fn law_active_effects_are_shown(effects: Map<u8, ActiveEffect>, from: int, e: EffectView)
    requires
        0 <= from,
    ensures
        effects_from(effects, from).contains(e) <==> e.id >= from && effects.dom().contains(e.id)
            && effects[e.id].amplifier == e.amplifier && effects[e.id].duration == e.duration,
        forall|i: int, j: int|
            0 <= i < j < effects_from(effects, from).len() ==> (#[trigger] effects_from(
                effects,
                from,
            )[i]).id < (#[trigger] effects_from(effects, from)[j]).id,
        forall|i: int|
            0 <= i < effects_from(effects, from).len() ==> from <= (#[trigger] effects_from(
                effects,
                from,
            )[i]).id,
    decreases 256 - from,
{
    if from <= 255 {
        law_active_effects_are_shown(effects, from + 1, e);
        let rest = effects_from(effects, from + 1);
        let all = effects_from(effects, from);
        if effects.dom().contains(from as u8) {
            let a = effects[from as u8];
            let first = EffectView {
                id: from as u8,
                amplifier: a.amplifier,
                duration: a.duration,
            };
            assert(all == seq![first] + rest);
            assert(all[0] == first);
            assert forall|i: int| 0 < i < all.len() implies all[i] == rest[i - 1] by {}
            if rest.contains(e) {
                let k = choose|k: int| 0 <= k < rest.len() && rest[k] == e;
                assert(all[k + 1] == e);
            }
            if all.contains(e) {
                let k = choose|k: int| 0 <= k < all.len() && all[k] == e;
                if k > 0 {
                    assert(rest[k - 1] == e);
                }
            }
        }
    }
}

/// Extensions see the bar and the level as they are, and a connection only once the player
/// has a place in a joined game.
pub proof fn law_extensions_see_the_player(g: GameViews<'_>)
    ensures
        g.spec_xp().0 == g.0.vitals.xp_bar,
        g.spec_xp().1 == g.0.vitals.xp_level,
        g.spec_connected() == g.0.session.placed(),
{
}

/// Extensions see the open window under its own number and with all of its slots, those of
/// the player too.
pub proof fn law_extensions_see_the_open_window(g: GameViews<'_>, info: Option<ContainerInfo>)
    requires
        g.window_seen(info),
    ensures
        info is Some <==> g.0.windows.open_container is Some,
        info matches Some(i) ==> i.window_id == g.0.windows.open_container->0.window_id && i.size
            == g.0.windows.open_container->0.slots@.len(),
{
}

} // verus!
