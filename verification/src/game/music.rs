//! Background music: one track at a time, with a random pause between tracks.

use vstd::prelude::*;
use crate::text::copy_text;

verus! {

/// What to do with the music.
#[derive(Debug, PartialEq, Eq)]
pub enum MusicCommand {
    /// Start a track of the named sound event.
    Play(String),
    /// Stop the current track.
    Stop,
}

/// The value of a [`MusicCommand`].
pub enum MusicOrder {
    Play(Seq<char>),
    Stop,
}

impl View for MusicCommand {
    type V = MusicOrder;

    open spec fn view(&self) -> MusicOrder {
        match self {
            MusicCommand::Play(event) => MusicOrder::Play(event@),
            MusicCommand::Stop => MusicOrder::Stop,
        }
    }
}

/// The music groups.
#[derive(Debug, Clone, Copy, PartialEq, Eq, Structural)]
pub enum MusicType {
    Menu,
    Game,
    Creative,
    Nether,
    End,
    EndBoss,
}

impl MusicType {
    pub open spec fn spec_event(self) -> Seq<char> {
        match self {
            MusicType::Menu => "music.menu"@,
            MusicType::Game => "music.game"@,
            MusicType::Creative => "music.game.creative"@,
            MusicType::Nether => "music.game.nether"@,
            MusicType::End => "music.game.end"@,
            MusicType::EndBoss => "music.game.end.dragon"@,
        }
    }

    /// The least and greatest pause before a track, in ticks: short in the menu,
    /// none while the boss fight runs.
    pub open spec fn spec_delay_range(self) -> (int, int) {
        match self {
            MusicType::Menu => (20, 600),
            MusicType::EndBoss => (0, 0),
            _ => (12000, 24000),
        }
    }

    /// The sound event of the group.
    pub fn event(self) -> (event: &'static str)
        ensures
            event@ == self.spec_event(),
    {
        match self {
            MusicType::Menu => "music.menu",
            MusicType::Game => "music.game",
            MusicType::Creative => "music.game.creative",
            MusicType::Nether => "music.game.nether",
            MusicType::End => "music.game.end",
            MusicType::EndBoss => "music.game.end.dragon",
        }
    }

    /// The least and greatest pause before a track, in ticks.
    pub fn delay_range(self) -> (range: (i32, i32))
        ensures
            range.0 == self.spec_delay_range().0,
            range.1 == self.spec_delay_range().1,
    {
        match self {
            MusicType::Menu => (20, 600),
            MusicType::Game => (12000, 24000),
            MusicType::Creative => (12000, 24000),
            MusicType::Nether => (12000, 24000),
            MusicType::End => (12000, 24000),
            MusicType::EndBoss => (0, 0),
        }
    }
}

/// The group that fits the state of the world.
pub open spec fn spec_desired(
    joined: bool,
    dimension: int,
    boss: bool,
    creative: bool,
    allow_flying: bool,
) -> MusicType {
    if !joined {
        MusicType::Menu
    } else if dimension == -1 {
        MusicType::Nether
    } else if dimension == 1 {
        if boss {
            MusicType::EndBoss
        } else {
            MusicType::End
        }
    } else if creative && allow_flying {
        MusicType::Creative
    } else {
        MusicType::Game
    }
}

/// The group that fits the state of the world: the menu before joining, then by
/// dimension, boss fight and game mode.
pub fn desired_music_type(
    joined: bool,
    dimension: i8,
    boss: bool,
    creative: bool,
    allow_flying: bool,
) -> (music: MusicType)
    ensures
        music == spec_desired(joined, dimension as int, boss, creative, allow_flying),
{
    if !joined {
        return MusicType::Menu;
    }
    match dimension {
        -1 => MusicType::Nether,
        1 => if boss {
            MusicType::EndBoss
        } else {
            MusicType::End
        },
        _ => if creative && allow_flying {
            MusicType::Creative
        } else {
            MusicType::Game
        },
    }
}

/// Plays one track at a time.
#[derive(Debug)]
pub struct MusicTicker {
    /// The group of the track that plays; nothing between tracks.
    pub current: Option<MusicType>,
    /// Ticks to the next track.
    pub delay_ticks: i32,
    /// Whether the track is still heard.
    pub playing: bool,
    pub rng: u32,
    /// Orders not yet carried out.
    pub commands: Vec<MusicCommand>,
}

/// The value of a [`MusicTicker`].
pub struct MusicModel {
    pub current: Option<MusicType>,
    pub delay: int,
    pub playing: bool,
    pub rng: u32,
    pub orders: Seq<MusicOrder>,
}

/// The orders of a list of commands.
pub open spec fn orders_of(commands: Seq<MusicCommand>) -> Seq<MusicOrder> {
    Seq::new(commands.len(), |i: int| commands[i]@)
}

impl View for MusicTicker {
    type V = MusicModel;

    open spec fn view(&self) -> MusicModel {
        MusicModel {
            current: self.current,
            delay: self.delay_ticks as int,
            playing: self.playing,
            rng: self.rng,
            orders: orders_of(self.commands@),
        }
    }
}

/// The next number of the generator.
pub open spec fn spec_next_rng(x: u32) -> u32 {
    let a = x ^ (x << 13);
    let b = a ^ (a >> 17);
    b ^ (b << 5)
}

/// A number from `min` to `max`, both included, made of a random one.
pub open spec fn in_range(roll: u32, min: int, max: int) -> int {
    min + roll as int % (max - min + 1)
}

impl MusicModel {
    pub open spec fn initial() -> MusicModel {
        MusicModel {
            current: None,
            delay: 100,
            playing: false,
            rng: 0x9e37_79b9,
            orders: Seq::empty(),
        }
    }

    pub open spec fn wf(self) -> bool {
        0 <= self.delay <= i32::MAX
    }

    /// A random number and the state after drawing it; none is drawn from a
    /// range of one.
    pub open spec fn roll(self, min: int, max: int) -> (int, MusicModel) {
        if max <= min {
            (min, self)
        } else {
            let rng = spec_next_rng(self.rng);
            (in_range(rng, min, max), MusicModel { rng, ..self })
        }
    }

    /// Another group is wanted: the track stops, and the next comes after at most
    /// half its least pause.
    pub open spec fn switch_step(self, wanted: MusicType) -> MusicModel {
        if self.current is Some && self.current != Some(wanted) {
            let (delay, drawn) = self.roll(0, wanted.spec_delay_range().0 / 2);
            MusicModel {
                current: None,
                playing: false,
                delay,
                orders: self.orders.push(MusicOrder::Stop),
                ..drawn
            }
        } else {
            self
        }
    }

    /// The track ended: a pause of the wanted group begins.
    pub open spec fn end_step(self, wanted: MusicType) -> MusicModel {
        if self.current is Some && !self.playing {
            let (min, max) = wanted.spec_delay_range();
            let (delay, drawn) = self.roll(min, max);
            MusicModel {
                current: None,
                delay: if delay < self.delay {
                    delay
                } else {
                    self.delay
                },
                ..drawn
            }
        } else {
            self
        }
    }

    /// Between tracks the pause runs down; then the wanted group's track starts.
    pub open spec fn start_step(self, wanted: MusicType) -> MusicModel {
        if self.current is Some {
            self
        } else if self.delay <= 1 {
            MusicModel {
                current: Some(wanted),
                playing: true,
                delay: i32::MAX as int,
                orders: self.orders.push(MusicOrder::Play(wanted.spec_event())),
                ..self
            }
        } else {
            MusicModel { delay: self.delay - 1, ..self }
        }
    }

    /// After hearing whether a track is audible: only silence counts.
    pub open spec fn heard(self, playing: bool) -> MusicModel {
        MusicModel { playing: playing && self.playing, ..self }
    }

    /// One tick.
    pub open spec fn step(self, wanted: MusicType) -> MusicModel {
        self.switch_step(wanted).end_step(wanted).start_step(wanted)
    }
}

impl MusicTicker {
    pub fn new() -> (ticker: MusicTicker)
        ensures
            ticker@ == MusicModel::initial(),
            ticker@.wf(),
    {
        let ticker = MusicTicker {
            current: None,
            delay_ticks: 100,
            playing: false,
            rng: 0x9e37_79b9,
            commands: Vec::new(),
        };
        assert(ticker@.orders =~= Seq::empty());
        ticker
    }

    /// Draw the next random number.
    pub fn next_rng(&mut self) -> (x: u32)
        ensures
            x == spec_next_rng(old(self).rng),
            final(self)@ == (MusicModel { rng: x, ..old(self)@ }),
    {
        let mut x: u32 = self.rng;
        x = x ^ (x << 13);
        x = x ^ (x >> 17);
        x = x ^ (x << 5);
        self.rng = x;
        x
    }

    /// A random number from `min` to `max`, both included.
    pub fn rand_range(&mut self, min: i32, max: i32) -> (n: i32)
        requires
            max - min + 1 <= i32::MAX,
        ensures
            n == old(self)@.roll(min as int, max as int).0,
            final(self)@ == old(self)@.roll(min as int, max as int).1,
            min <= n,
            min <= max ==> n <= max,
    {
        if max <= min {
            return min;
        }
        let span: u32 = (max as i64 - min as i64 + 1) as u32;
        let roll = self.next_rng();
        let rest: u32 = roll % span;
        assert(rest == roll as int % (max - min + 1));
        (min as i64 + rest as i64) as i32
    }

    /// Advance one tick towards the wanted group.
    pub fn tick(&mut self, wanted: MusicType)
        requires
            old(self)@.wf(),
        ensures
            final(self)@ == old(self)@.step(wanted),
            final(self)@.wf(),
    {
        let ghost before = self@;
        if let Some(cur) = self.current {
            if cur != wanted {
                let ghost orders = self.commands@;
                self.commands.push(MusicCommand::Stop);
                assert(orders_of(self.commands@) =~= orders_of(orders).push(MusicOrder::Stop));
                self.playing = false;
                self.current = None;
                let (min, _) = wanted.delay_range();
                self.delay_ticks = self.rand_range(0, min / 2);
            }
        }
        assert(self@ == before.switch_step(wanted));
        if self.current.is_some() && !self.playing {
            self.current = None;
            let (min, max) = wanted.delay_range();
            let roll = self.rand_range(min, max);
            if roll < self.delay_ticks {
                self.delay_ticks = roll;
            }
        }
        assert(self@ == before.switch_step(wanted).end_step(wanted));
        if self.current.is_none() {
            if self.delay_ticks <= 1 {
                let ghost orders = self.commands@;
                self.commands.push(MusicCommand::Play(copy_text(wanted.event())));
                assert(orders_of(self.commands@) =~= orders_of(orders).push(
                    MusicOrder::Play(wanted.spec_event()),
                ));
                self.current = Some(wanted);
                self.playing = true;
                self.delay_ticks = i32::MAX;
            } else {
                self.delay_ticks -= 1;
            }
        }
    }

    /// Hand out the orders given so far.
    pub fn take_music_commands(&mut self) -> (commands: Vec<MusicCommand>)
        ensures
            commands@ == old(self).commands@,
            final(self)@ == (MusicModel { orders: Seq::empty(), ..old(self)@ }),
    {
        let mut commands: Vec<MusicCommand> = Vec::new();
        std::mem::swap(&mut commands, &mut self.commands);
        assert(orders_of(self.commands@) =~= Seq::empty());
        commands
    }

    /// Hear whether a track is audible. Only silence counts: a track that was
    /// just started may not be heard yet.
    pub fn set_music_playing(&mut self, playing: bool)
        ensures
            final(self)@ == old(self)@.heard(playing),
    {
        if !playing {
            self.playing = false;
        }
    }
}

impl Default for MusicTicker {
    fn default() -> (ticker: Self)
        ensures
            ticker@ == MusicModel::initial(),
    {
        MusicTicker::new()
    }
}

// ── Laws ──────────────────────────────────────────────────────────────────

/// A drawn number lies within its range.
pub proof fn law_rolls_stay_in_range(m: MusicModel, min: int, max: int)
    requires
        min <= max,
    ensures
        min <= m.roll(min, max).0 <= max,
{
}

/// Ticks with one group wanted.
pub open spec fn music_ticks(m: MusicModel, wanted: MusicType, n: nat) -> MusicModel
    decreases n,
{
    if n == 0 {
        m
    } else {
        music_ticks(m, wanted, (n - 1) as nat).step(wanted)
    }
}

/// Between tracks, nothing happens until the pause is over; then the wanted
/// group's track starts.
pub proof fn law_music_waits_out_its_pause(m: MusicModel, wanted: MusicType, n: nat)
    requires
        m.wf(),
        m.current is None,
        n <= m.delay,
    ensures
        n < m.delay ==> music_ticks(m, wanted, n) == (MusicModel { delay: m.delay - n, ..m }),
        n == m.delay && n > 0 ==> {
            let after = music_ticks(m, wanted, n);
            &&& after.current == Some(wanted)
            &&& after.orders == m.orders.push(MusicOrder::Play(wanted.spec_event()))
        },
    decreases n,
{
    if n > 0 {
        law_music_waits_out_its_pause(m, wanted, (n - 1) as nat);
    }
}

/// While a track of the wanted group plays, nothing changes.
pub proof fn law_music_plays_on(m: MusicModel, wanted: MusicType)
    requires
        m.current == Some(wanted),
        m.playing,
    ensures
        m.step(wanted) == m,
{
}

/// When another group is wanted, the first order is to stop the current track, so
/// that no two tracks play together.
pub proof fn law_another_group_stops_the_track(m: MusicModel, wanted: MusicType)
    requires
        m.current is Some,
        m.current != Some(wanted),
    ensures
        m.step(wanted).orders.len() > m.orders.len(),
        m.step(wanted).orders[m.orders.len() as int] == MusicOrder::Stop,
{
}

} // verus!
