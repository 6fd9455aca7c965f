//! A key of everything that the entity models are built from: while it stays, last
//! frame's models are kept.

use vstd::prelude::*;
use vstd::utf8::encode_utf8;
use crate::item::SlotItem;
use super::drawing::{counts, entity_counts, skin_of, SeenEntity};
use super::entities::worn;
use super::fixtures::Sign;
use super::rules::ItemUseAction;
use super::state::GameState;

verus! {

broadcast use vstd::std_specs::hash::group_hash_axioms;

/// The key before anything is mixed in.
pub const SEED: u64 = 0xcbf2_9ce4_8422_2325;

/// The multiplier of a mixing step.
pub const PRIME: u64 = 0x0000_0100_0000_01b3;

/// One mixing step.
pub open spec fn mixed(h: u64, word: u64) -> u64 {
    (h ^ word).wrapping_mul(PRIME)
}

/// The key of a list of words.
pub open spec fn folded(seed: u64, words: Seq<u64>) -> u64
    decreases words.len(),
{
    if words.len() == 0 {
        seed
    } else {
        mixed(folded(seed, words.drop_last()), words.last())
    }
}

/// A key in the making, with the words mixed in so far.
struct Mixer {
    h: u64,
    words: Ghost<Seq<u64>>,
}

impl Mixer {
    spec fn wf(&self) -> bool {
        self.h == folded(SEED, self.words@)
    }

    fn new() -> (m: Mixer)
        ensures
            m.wf(),
            m.words@ == Seq::<u64>::empty(),
    {
        Mixer { h: SEED, words: Ghost(Seq::empty()) }
    }

    fn mix(&mut self, word: u64)
        requires
            old(self).wf(),
        ensures
            final(self).wf(),
            final(self).words@ == old(self).words@.push(word),
    {
        let ghost before = self.words@;
        self.h = (self.h ^ word).wrapping_mul(PRIME);
        self.words = Ghost(before.push(word));
        assert(before.push(word).drop_last() =~= before);
    }

    fn mix_all(&mut self, words: &[u64])
        requires
            old(self).wf(),
        ensures
            final(self).wf(),
            final(self).words@ == old(self).words@ + words@,
    {
        let ghost before = self.words@;
        let mut i: usize = 0;
        assert(before + words@.take(0) =~= before);
        while i < words.len()
            invariant
                self.wf(),
                i <= words@.len(),
                self.words@ == before + words@.take(i as int),
            decreases words@.len() - i,
        {
            self.mix(words[i]);
            assert((before + words@.take(i as int)).push(words@[i as int]) =~= before + words@.take(
                i + 1,
            ));
            i += 1;
        }
        assert(words@.take(words@.len() as int) =~= words@);
    }

    fn mix_bytes(&mut self, bytes: &[u8])
        requires
            old(self).wf(),
        ensures
            final(self).wf(),
            final(self).words@ == old(self).words@ + byte_words(bytes@),
    {
        let ghost before = self.words@;
        let ghost all = byte_words(bytes@);
        let mut i: usize = 0;
        assert(before + all.take(0) =~= before);
        while i < bytes.len()
            invariant
                self.wf(),
                i <= bytes@.len(),
                all == byte_words(bytes@),
                self.words@ == before + all.take(i as int),
            decreases bytes@.len() - i,
        {
            self.mix(bytes[i] as u64);
            assert((before + all.take(i as int)).push(all[i as int]) =~= before + all.take(i + 1));
            i += 1;
        }
        assert(all.take(bytes@.len() as int) =~= all);
    }
}

/// Bytes as words.
pub open spec fn byte_words(bytes: Seq<u8>) -> Seq<u64> {
    Seq::new(bytes.len(), |i: int| bytes[i] as u64)
}

// ── The view ──────────────────────────────────────────────────────────────

/// What of the view the models depend on, in the steps in which a change is
/// noticed.
#[derive(Debug)]
pub struct ViewKey {
    /// The place and the angles of the camera.
    pub camera: [u64; 5],
    pub sun: u64,
    pub brightness: u64,
    pub hud_visible: bool,
    /// The raise, the swing and the two sways of the hand.
    pub hand: [u64; 4],
    /// How long the stack in hand has been in use.
    pub use_ticks: u64,
    /// Quarter seconds of world time.
    pub time: u64,
}

/// A chest lid that is not closed.
#[derive(Debug, Clone, Copy, PartialEq, Eq, Structural)]
pub struct Lid {
    pub x: i32,
    pub y: i32,
    pub z: i32,
    /// How far it is open, in steps.
    pub angle: u64,
}

/// A flag as a word.
pub open spec fn flag_word(on: bool) -> u64 {
    if on {
        1
    } else {
        0
    }
}

/// The word of the stack in hand.
pub open spec fn hand_word(item: Option<SlotItem>) -> u64 {
    match item {
        Some(s) => ((s.id as u16) as u64) << 24 | (s.count as u64) << 16 | (s.damage as u16) as u64,
        None => 0,
    }
}

/// The word of a worn stack.
pub open spec fn worn_word(item: Option<SlotItem>) -> u64 {
    match item {
        Some(s) => ((s.id as u16) as u64) << 16 | (s.damage as u16) as u64,
        None => 0,
    }
}

/// The number of a way to use an item.
pub open spec fn use_word(action: ItemUseAction) -> u64 {
    match action {
        ItemUseAction::Nothing => 0,
        ItemUseAction::Block => 1,
        ItemUseAction::Eat => 2,
        ItemUseAction::Drink => 3,
        ItemUseAction::Bow => 4,
    }
}

/// The words of the view. How long the stack has been used counts only while it is.
pub open spec fn view_words(view: ViewKey, item: Option<SlotItem>, action: ItemUseAction) -> Seq<
    u64,
> {
    view.camera@ + seq![view.sun, view.brightness, flag_word(view.hud_visible), hand_word(item)]
        + view.hand@ + seq![use_word(action)] + if action == ItemUseAction::Nothing {
        Seq::empty()
    } else {
        seq![view.use_ticks]
    }
}

// ── Entities ──────────────────────────────────────────────────────────────

/// The flags of an entity as a word.
pub open spec fn flags_word(e: SeenEntity) -> u64 {
    flag_word(e.using_item) << 3 | flag_word(e.sneaking) << 2 | flag_word(e.invisible) << 1
        | flag_word(e.custom_name_visible)
}

/// The words of what an entity wears and holds; none where nothing is known.
pub open spec fn worn_words(g: GameState, id: i32) -> Seq<u64> {
    if g.tables.equipment@.dom().contains(id) {
        let places = worn(g.tables.equipment@, id);
        Seq::new(places.len(), |i: int| worn_word(places[i]))
    } else {
        Seq::empty()
    }
}

/// The word of a skin's row.
pub open spec fn skin_word(row: Option<u32>) -> u64 {
    match row {
        Some(r) => (r + 1) as u64,
        None => 0,
    }
}

/// The words of a name.
pub open spec fn name_words(name: Option<String>) -> Seq<u64> {
    match name {
        Some(name) => byte_words(encode_utf8(name@)),
        None => Seq::empty(),
    }
}

/// The words of an entity's place and state.
pub open spec fn state_words(e: SeenEntity) -> Seq<u64> {
    seq![(e.id as u32) as u64] + e.pose@ + seq![e.hurt_time as u64, e.death_roll, flags_word(e)]
}

/// The words of an entity's vehicle.
pub open spec fn vehicle_words(vehicle: Option<i32>) -> Seq<u64> {
    match vehicle {
        Some(v) => seq![(v as u32) as u64],
        None => Seq::empty(),
    }
}

/// The words of an entity.
pub open spec fn entity_words(g: GameState, e: SeenEntity, rows: Seq<([u8; 16], u32)>) -> Seq<u64> {
    state_words(e) + (name_words(e.custom_name) + (worn_words(g, e.id) + (seq![
        skin_word(skin_of(g, e, rows)),
    ] + vehicle_words(g.tables.riders.vehicle(e.id)))))
}

/// The words of the first `n` entities, as far as they count for the model.
pub open spec fn entities_words(
    g: GameState,
    entities: Seq<SeenEntity>,
    rows: Seq<([u8; 16], u32)>,
    n: int,
) -> Seq<u64>
    decreases n,
{
    if n <= 0 {
        Seq::empty()
    } else if counts(entities[n - 1], g.session.player_id) {
        entities_words(g, entities, rows, n - 1) + entity_words(g, entities[n - 1], rows)
    } else {
        entities_words(g, entities, rows, n - 1)
    }
}

// ── Chests and signs ──────────────────────────────────────────────────────

/// The word of a block position.
pub open spec fn place_word(x: i32, y: i32, z: i32) -> u64 {
    ((x as u32) as u64) ^ (((z as u32) as u64) << 21) ^ ((y as u64) << 42)
}

/// The word of an open lid.
pub open spec fn lid_word(lid: Lid) -> u64 {
    place_word(lid.x, lid.y, lid.z) ^ lid.angle.wrapping_mul(0x9e37_79b9u64)
}

/// The bytes of the lines of a sign.
pub open spec fn line_bytes(lines: Seq<String>, n: int) -> Seq<u64>
    decreases n,
{
    if n <= 0 {
        Seq::empty()
    } else {
        line_bytes(lines, n - 1) + byte_words(encode_utf8(lines[n - 1]@))
    }
}

/// The word of a sign.
pub open spec fn sign_word(sign: Sign) -> u64 {
    folded(
        place_word(sign.pos.x, sign.pos.y, sign.pos.z),
        line_bytes(sign.lines@, sign.lines@.len() as int),
    )
}

/// Words put together so that their order is immaterial.
pub open spec fn gathered(words: Seq<u64>) -> u64
    decreases words.len(),
{
    if words.len() == 0 {
        0
    } else {
        gathered(words.drop_last()) ^ words.last()
    }
}

/// The words of lids.
pub open spec fn lid_words(lids: Seq<Lid>) -> Seq<u64> {
    Seq::new(lids.len(), |i: int| lid_word(lids[i]))
}

/// The words of signs.
pub open spec fn sign_words(signs: Seq<Sign>) -> Seq<u64> {
    Seq::new(signs.len(), |i: int| sign_word(signs[i]))
}

/// Everything that goes into the key, in its order.
pub open spec fn key_words(
    g: GameState,
    view: ViewKey,
    item: Option<SlotItem>,
    entities: Seq<SeenEntity>,
    rows: Seq<([u8; 16], u32)>,
    lids: Seq<Lid>,
) -> Seq<u64> {
    view_words(view, item, g.hands.use_action) + entities_words(
        g,
        entities,
        rows,
        entities.len() as int,
    ) + seq![gathered(lid_words(lids)), gathered(sign_words(g.fixtures.signs@)), view.time]
}

// ── The key ───────────────────────────────────────────────────────────────

fn flag(on: bool) -> (word: u64)
    ensures
        word == flag_word(on),
{
    if on {
        1
    } else {
        0
    }
}

fn word_in_hand(item: &Option<SlotItem>) -> (word: u64)
    ensures
        word == hand_word(*item),
{
    match item {
        Some(s) => {
            let id: u16 = #[verifier::truncate] (s.id as u16);
            let damage: u16 = #[verifier::truncate] (s.damage as u16);
            (id as u64) << 24 | (s.count as u64) << 16 | damage as u64
        },
        None => 0,
    }
}

fn word_worn(item: &Option<SlotItem>) -> (word: u64)
    ensures
        word == worn_word(*item),
{
    match item {
        Some(s) => {
            let id: u16 = #[verifier::truncate] (s.id as u16);
            let damage: u16 = #[verifier::truncate] (s.damage as u16);
            (id as u64) << 16 | damage as u64
        },
        None => 0,
    }
}

fn word_of_use(action: ItemUseAction) -> (word: u64)
    ensures
        word == use_word(action),
{
    match action {
        ItemUseAction::Nothing => 0,
        ItemUseAction::Block => 1,
        ItemUseAction::Eat => 2,
        ItemUseAction::Drink => 3,
        ItemUseAction::Bow => 4,
    }
}

fn word_of_place(x: i32, y: i32, z: i32) -> (word: u64)
    ensures
        word == place_word(x, y, z),
{
    let x: u32 = #[verifier::truncate] (x as u32);
    let z: u32 = #[verifier::truncate] (z as u32);
    let y: u64 = #[verifier::truncate] (y as u64);
    (x as u64) ^ ((z as u64) << 21) ^ (y << 42)
}

fn gather_lids(lids: &Vec<Lid>) -> (word: u64)
    ensures
        word == gathered(lid_words(lids@)),
{
    let ghost all = lid_words(lids@);
    let mut word: u64 = 0;
    let mut i: usize = 0;
    while i < lids.len()
        invariant
            i <= lids@.len(),
            all == lid_words(lids@),
            word == gathered(all.take(i as int)),
        decreases lids@.len() - i,
    {
        let lid = lids[i];
        assert(all.take(i + 1).drop_last() =~= all.take(i as int));
        word = word ^ (word_of_place(lid.x, lid.y, lid.z) ^ lid.angle.wrapping_mul(0x9e37_79b9));
        i += 1;
    }
    assert(all.take(lids@.len() as int) =~= all);
    word
}

proof fn lemma_folded_parts(seed: u64, a: Seq<u64>, b: Seq<u64>)
    ensures
        folded(seed, a + b) == folded(folded(seed, a), b),
    decreases b.len(),
{
    if b.len() == 0 {
        assert(a + b =~= a);
    } else {
        assert((a + b).drop_last() =~= a + b.drop_last());
        lemma_folded_parts(seed, a, b.drop_last());
    }
}

fn fold_bytes(seed: u64, bytes: &[u8]) -> (word: u64)
    ensures
        word == folded(seed, byte_words(bytes@)),
{
    let ghost all = byte_words(bytes@);
    let mut word: u64 = seed;
    let mut i: usize = 0;
    while i < bytes.len()
        invariant
            i <= bytes@.len(),
            all == byte_words(bytes@),
            word == folded(seed, all.take(i as int)),
        decreases bytes@.len() - i,
    {
        assert(all.take(i + 1).drop_last() =~= all.take(i as int));
        word = (word ^ bytes[i] as u64).wrapping_mul(PRIME);
        i += 1;
    }
    assert(all.take(bytes@.len() as int) =~= all);
    word
}

fn word_of_sign(sign: &Sign) -> (word: u64)
    ensures
        word == sign_word(*sign),
{
    let start: u64 = word_of_place(sign.pos.x, sign.pos.y, sign.pos.z);
    let mut word: u64 = start;
    let mut i: usize = 0;
    while i < sign.lines.len()
        invariant
            i <= sign.lines@.len(),
            word == folded(start, line_bytes(sign.lines@, i as int)),
        decreases sign.lines@.len() - i,
    {
        proof {
            lemma_folded_parts(
                start,
                line_bytes(sign.lines@, i as int),
                byte_words(encode_utf8(sign.lines@[i as int]@)),
            );
        }
        word = fold_bytes(word, sign.lines[i].as_str().as_bytes());
        i += 1;
    }
    word
}

fn gather_signs(signs: &Vec<Sign>) -> (word: u64)
    ensures
        word == gathered(sign_words(signs@)),
{
    let ghost all = sign_words(signs@);
    let mut word: u64 = 0;
    let mut i: usize = 0;
    while i < signs.len()
        invariant
            i <= signs@.len(),
            all == sign_words(signs@),
            word == gathered(all.take(i as int)),
        decreases signs@.len() - i,
    {
        assert(all.take(i + 1).drop_last() =~= all.take(i as int));
        word = word ^ word_of_sign(&signs[i]);
        i += 1;
    }
    assert(all.take(signs@.len() as int) =~= all);
    word
}

fn mix_state(e: &SeenEntity, key: &mut Mixer)
    requires
        old(key).wf(),
    ensures
        final(key).wf(),
        final(key).words@ == old(key).words@ + state_words(*e),
{
    let ghost before = key.words@;
    let id: u32 = #[verifier::truncate] (e.id as u32);
    key.mix(id as u64);
    key.mix_all(e.pose.as_slice());
    key.mix(e.hurt_time as u64);
    key.mix(e.death_roll);
    key.mix(
        flag(e.using_item) << 3 | flag(e.sneaking) << 2 | flag(e.invisible) << 1 | flag(
            e.custom_name_visible,
        ),
    );
    assert(key.words@ =~= before + state_words(*e));
}

impl GameState {
    fn mix_worn(&self, id: i32, key: &mut Mixer)
        requires
            old(key).wf(),
        ensures
            final(key).wf(),
            final(key).words@ == old(key).words@ + worn_words(*self, id),
    {
        let ghost before = key.words@;
        let ghost all = worn_words(*self, id);
        match self.tables.equipment.get(&id) {
            Some(slots) => {
                let mut i: usize = 0;
                assert(before + all.take(0) =~= before);
                while i < slots.len()
                    invariant
                        key.wf(),
                        i <= slots@.len(),
                        all.len() == slots@.len(),
                        forall|j: int| 0 <= j < all.len() ==> all[j] == worn_word(slots@[j]),
                        key.words@ == before + all.take(i as int),
                    decreases slots@.len() - i,
                {
                    key.mix(word_worn(&slots[i]));
                    assert((before + all.take(i as int)).push(all[i as int]) =~= before + all.take(
                        i + 1,
                    ));
                    i += 1;
                }
                assert(all.take(slots@.len() as int) =~= all);
            },
            None => {
                assert(before + all =~= before);
            },
        }
    }

    fn mix_entity(&self, e: &SeenEntity, rows: &Vec<([u8; 16], u32)>, key: &mut Mixer)
        requires
            old(key).wf(),
        ensures
            final(key).wf(),
            final(key).words@ == old(key).words@ + entity_words(*self, *e, rows@),
    {
        let ghost start = key.words@;
        mix_state(e, key);
        let ghost a = state_words(*e);
        let ghost b = name_words(e.custom_name);
        if let Some(name) = &e.custom_name {
            key.mix_bytes(name.as_str().as_bytes());
        }
        assert(key.words@ =~= start + a + b);
        self.mix_worn(e.id, key);
        let ghost c = worn_words(*self, e.id);
        let ghost before = key.words@;
        match self.skin_row(e, rows) {
            Some(r) => key.mix(r as u64 + 1),
            None => key.mix(0),
        }
        let ghost vehicle = vehicle_words(self.tables.riders.vehicle(e.id));
        let ghost d = seq![skin_word(skin_of(*self, *e, rows@))] + vehicle;
        if let Some(v) = self.tables.riders.vehicle_of(e.id) {
            let v: u32 = #[verifier::truncate] (v as u32);
            key.mix(v as u64);
        }
        assert(key.words@ =~= before + d);
        assert(start + a + b + c + d =~= start + (a + (b + (c + d))));
    }

    /// A key of everything that the entity models, the hand and the name plates are
    /// built from. Light around an entity that keeps still is not part of it.
    pub fn entity_render_fingerprint(
        &self,
        view: &ViewKey,
        item: &Option<SlotItem>,
        entities: &Vec<SeenEntity>,
        rows: &Vec<([u8; 16], u32)>,
        lids: &Vec<Lid>,
    ) -> (key: u64)
        ensures
            key == folded(SEED, key_words(*self, *view, *item, entities@, rows@, lids@)),
    {
        let mut key = Mixer::new();
        let action = self.hands.use_action;
        key.mix_all(view.camera.as_slice());
        key.mix(view.sun);
        key.mix(view.brightness);
        key.mix(flag(view.hud_visible));
        key.mix(word_in_hand(item));
        key.mix_all(view.hand.as_slice());
        key.mix(word_of_use(action));
        if action != ItemUseAction::Nothing {
            key.mix(view.use_ticks);
        }
        let ghost seen = view_words(*view, *item, action);
        assert(key.words@ =~= seen);
        let mut i: usize = 0;
        assert(seen + Seq::<u64>::empty() =~= seen);
        while i < entities.len()
            invariant
                key.wf(),
                i <= entities@.len(),
                key.words@ == seen + entities_words(*self, entities@, rows@, i as int),
            decreases entities@.len() - i,
        {
            if entity_counts(&entities[i], self.session.player_id) {
                let ghost before = entities_words(*self, entities@, rows@, i as int);
                self.mix_entity(&entities[i], rows, &mut key);
                assert(seen + before + entity_words(*self, entities@[i as int], rows@) =~= seen + (
                before + entity_words(*self, entities@[i as int], rows@)));
            }
            i += 1;
        }
        key.mix(gather_lids(lids));
        key.mix(gather_signs(&self.fixtures.signs));
        key.mix(view.time);
        assert(key.words@ =~= key_words(*self, *view, *item, entities@, rows@, lids@));
        key.h
    }
}

// ── Laws ──────────────────────────────────────────────────────────────────

proof fn lemma_lids_fold(lids: Seq<Lid>, v: u64)
    ensures
        gathered(lid_words(lids)) ^ v == lids.fold_right(|l: Lid, acc: u64| acc ^ lid_word(l), v),
    decreases lids.len(),
{
    let f = |l: Lid, acc: u64| acc ^ lid_word(l);
    if lids.len() == 0 {
        assert(0u64 ^ v == v) by (bit_vector);
    } else {
        let a = gathered(lid_words(lids.drop_last()));
        let w = lid_word(lids.last());
        assert(lid_words(lids).drop_last() =~= lid_words(lids.drop_last()));
        lemma_lids_fold(lids.drop_last(), v ^ w);
        assert((a ^ w) ^ v == a ^ (v ^ w)) by (bit_vector);
        assert(f(lids.last(), v) == v ^ w);
    }
}

/// The order in which open chests are listed is immaterial to the key.
pub proof fn law_chest_order_is_immaterial(a: Seq<Lid>, b: Seq<Lid>)
    requires
        a.to_multiset() == b.to_multiset(),
    ensures
        gathered(lid_words(a)) == gathered(lid_words(b)),
{
    let f = |l: Lid, acc: u64| acc ^ lid_word(l);
    assert forall|x: Lid, y: Lid, v: u64| #[trigger] f(x, f(y, v)) == f(y, f(x, v)) by {
        let p = lid_word(x);
        let q = lid_word(y);
        assert((v ^ q) ^ p == (v ^ p) ^ q) by (bit_vector);
    }
    vstd::seq_lib::lemma_fold_right_permutation(a, b, f, 0u64);
    lemma_lids_fold(a, 0);
    lemma_lids_fold(b, 0);
    let ga = gathered(lid_words(a));
    let gb = gathered(lid_words(b));
    assert(ga ^ 0u64 == ga) by (bit_vector);
    assert(gb ^ 0u64 == gb) by (bit_vector);
}

proof fn lemma_signs_fold(signs: Seq<Sign>, v: u64)
    ensures
        gathered(sign_words(signs)) ^ v == signs.fold_right(
            |s: Sign, acc: u64| acc ^ sign_word(s),
            v,
        ),
    decreases signs.len(),
{
    let f = |s: Sign, acc: u64| acc ^ sign_word(s);
    if signs.len() == 0 {
        assert(0u64 ^ v == v) by (bit_vector);
    } else {
        let a = gathered(sign_words(signs.drop_last()));
        let w = sign_word(signs.last());
        assert(sign_words(signs).drop_last() =~= sign_words(signs.drop_last()));
        lemma_signs_fold(signs.drop_last(), v ^ w);
        assert((a ^ w) ^ v == a ^ (v ^ w)) by (bit_vector);
        assert(f(signs.last(), v) == v ^ w);
    }
}

/// The order in which signs are kept is immaterial to the key.
pub proof fn law_sign_order_is_immaterial(a: Seq<Sign>, b: Seq<Sign>)
    requires
        a.to_multiset() == b.to_multiset(),
    ensures
        gathered(sign_words(a)) == gathered(sign_words(b)),
{
    let f = |s: Sign, acc: u64| acc ^ sign_word(s);
    assert forall|x: Sign, y: Sign, v: u64| #[trigger] f(x, f(y, v)) == f(y, f(x, v)) by {
        let p = sign_word(x);
        let q = sign_word(y);
        assert((v ^ q) ^ p == (v ^ p) ^ q) by (bit_vector);
    }
    vstd::seq_lib::lemma_fold_right_permutation(a, b, f, 0u64);
    lemma_signs_fold(a, 0);
    lemma_signs_fold(b, 0);
    let ga = gathered(sign_words(a));
    let gb = gathered(sign_words(b));
    assert(ga ^ 0u64 == ga) by (bit_vector);
    assert(gb ^ 0u64 == gb) by (bit_vector);
}

/// An entity that does not count for the model leaves the key as it is.
pub proof fn law_unseen_entities_leave_the_key(
    g: GameState,
    view: ViewKey,
    item: Option<SlotItem>,
    entities: Seq<SeenEntity>,
    e: SeenEntity,
    rows: Seq<([u8; 16], u32)>,
    lids: Seq<Lid>,
)
    requires
        !counts(e, g.session.player_id),
    ensures
        key_words(g, view, item, entities.push(e), rows, lids) == key_words(
            g,
            view,
            item,
            entities,
            rows,
            lids,
        ),
{
    lemma_first_entities(g, entities, e, rows, entities.len() as int);
}

proof fn lemma_first_entities(
    g: GameState,
    entities: Seq<SeenEntity>,
    e: SeenEntity,
    rows: Seq<([u8; 16], u32)>,
    n: int,
)
    requires
        n <= entities.len(),
    ensures
        entities_words(g, entities.push(e), rows, n) == entities_words(g, entities, rows, n),
    decreases n,
{
    if n > 0 {
        lemma_first_entities(g, entities, e, rows, n - 1);
        assert(entities.push(e)[n - 1] == entities[n - 1]);
    }
}

} // verus!
