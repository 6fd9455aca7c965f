//! Rain, snow and lightning.
//!
//! Strengths are exact: a strength is a number of billionths, and standing water
//! is counted in units of which four hundred make a billionth.

use vstd::prelude::*;
use crate::packets::Real64;
use super::noise::{hash2d, spec_hash2d};
use super::rules::BlockState;

verus! {

/// Full strength, in billionths.
pub const FULL: u64 = 1_000_000_000;

/// What a strength gains or loses in a tick: a hundredth.
pub const RAMP: u64 = 10_000_000;

/// Full standing water.
pub const FULL_PUDDLE: u64 = 400_000_000_000;

/// What standing water loses in a dry tick: an eight-hundredth.
pub const PUDDLE_DRAIN: u64 = 500_000_000;

/// The weather as the client shows it: it follows what the server says by a
/// hundredth per tick.
#[derive(Debug, Clone, Copy, PartialEq, Eq, Structural)]
pub struct Weather {
    pub raining: bool,
    pub thundering: bool,
    pub rain: u64,
    pub prev_rain: u64,
    pub thunder: u64,
    pub prev_thunder: u64,
    /// Ticks left of a lightning flash.
    pub lightning_flash: u32,
    /// How much water stands: it fills with the rain that falls and drains
    /// slowly.
    pub puddle: u64,
    pub prev_puddle: u64,
    /// Let it snow in every column.
    pub force_snow: bool,
}

/// A strength one tick on.
pub open spec fn ramped(level: int, on: bool) -> int {
    if on {
        if level + RAMP > FULL {
            FULL as int
        } else {
            level + RAMP
        }
    } else if level < RAMP {
        0
    } else {
        level - RAMP
    }
}

/// Standing water one tick on: it gains a four-hundredth of the rain's strength
/// while it rains.
pub open spec fn pooled(puddle: int, rain: int, raining: bool) -> int {
    if raining {
        if puddle + rain > FULL_PUDDLE {
            FULL_PUDDLE as int
        } else {
            puddle + rain
        }
    } else if puddle < PUDDLE_DRAIN {
        0
    } else {
        puddle - PUDDLE_DRAIN
    }
}

impl Weather {
    pub open spec fn clear_sky() -> Weather {
        Weather {
            raining: false,
            thundering: false,
            rain: 0,
            prev_rain: 0,
            thunder: 0,
            prev_thunder: 0,
            lightning_flash: 0,
            puddle: 0,
            prev_puddle: 0,
            force_snow: false,
        }
    }

    /// Strengths never exceed full.
    pub open spec fn wf(self) -> bool {
        &&& self.rain <= FULL
        &&& self.prev_rain <= FULL
        &&& self.thunder <= FULL
        &&& self.prev_thunder <= FULL
        &&& self.puddle <= FULL_PUDDLE
        &&& self.prev_puddle <= FULL_PUDDLE
    }

    /// The weather one tick on. Pools follow the rain that falls now.
    pub open spec fn step(self) -> Weather {
        let rain = ramped(self.rain as int, self.raining);
        Weather {
            prev_rain: self.rain,
            rain: rain as u64,
            prev_thunder: self.thunder,
            thunder: ramped(self.thunder as int, self.thundering) as u64,
            prev_puddle: self.puddle,
            puddle: pooled(self.puddle as int, rain, self.raining) as u64,
            lightning_flash: (if self.lightning_flash > 0 {
                self.lightning_flash - 1
            } else {
                0
            }) as u32,
            ..self
        }
    }

    /// When rain starts or stops; thunder does not outlive the rain.
    pub open spec fn with_rain(self, raining: bool) -> Weather {
        Weather { raining, thundering: self.thundering && raining, ..self }
    }

    /// When thunder starts or stops; it brings rain.
    pub open spec fn with_thunder(self, thundering: bool) -> Weather {
        Weather { thundering, raining: self.raining || thundering, ..self }
    }

    pub open spec fn with_snow(self, force: bool) -> Weather {
        Weather { force_snow: force, raining: self.raining || force, ..self }
    }
}

impl Default for Weather {
    fn default() -> (w: Self)
        ensures
            w == Weather::clear_sky(),
            w.wf(),
    {
        Weather {
            raining: false,
            thundering: false,
            rain: 0,
            prev_rain: 0,
            thunder: 0,
            prev_thunder: 0,
            lightning_flash: 0,
            puddle: 0,
            prev_puddle: 0,
            force_snow: false,
        }
    }
}

fn ramp(level: u64, on: bool) -> (next: u64)
    requires
        level <= FULL,
    ensures
        next == ramped(level as int, on),
        next <= FULL,
{
    if on {
        if level + RAMP > FULL {
            FULL
        } else {
            level + RAMP
        }
    } else if level < RAMP {
        0
    } else {
        level - RAMP
    }
}

/// A value between two, `alpha` billionths of the way.
pub open spec fn between(from: int, to: int, alpha: int) -> int {
    from * FULL + (to - from) * alpha
}

fn lerp(from: u64, to: u64, alpha: u64) -> (at: i128)
    requires
        from <= FULL_PUDDLE,
        to <= FULL_PUDDLE,
        alpha <= FULL,
    ensures
        at == between(from as int, to as int, alpha as int),
{
    let a: i128 = from as i128;
    let b: i128 = to as i128;
    let t: i128 = alpha as i128;
    assert(-400_000_000_000_000_000_000 <= (b - a) * t <= 400_000_000_000_000_000_000)
        by (nonlinear_arith)
        requires
            0 <= a <= 400_000_000_000,
            0 <= b <= 400_000_000_000,
            0 <= t <= 1_000_000_000,
    ;
    a * 1_000_000_000 + (b - a) * t
}

/// A value between two levels stays within the full strength.
pub proof fn lemma_between(from: int, to: int, alpha: int, full: int)
    requires
        0 <= from <= full,
        0 <= to <= full,
        0 <= alpha <= FULL,
    ensures
        0 <= between(from, to, alpha) <= full * FULL,
{
    assert(from * 1_000_000_000 + (to - from) * alpha == from * (1_000_000_000 - alpha) + to
        * alpha) by (nonlinear_arith);
    assert(0 <= from * (1_000_000_000 - alpha) <= full * (1_000_000_000 - alpha))
        by (nonlinear_arith)
        requires
            0 <= from <= full,
            0 <= alpha <= 1_000_000_000,
    ;
    assert(0 <= to * alpha <= full * alpha) by (nonlinear_arith)
        requires
            0 <= to <= full,
            0 <= alpha,
    ;
    assert(full * (1_000_000_000 - alpha) + full * alpha == full * 1_000_000_000)
        by (nonlinear_arith);
}

impl Weather {
    pub fn set_force_snow(&mut self, force: bool)
        ensures
            *final(self) == old(self).with_snow(force),
    {
        self.force_snow = force;
        if force {
            self.raining = true;
        }
    }

    /// Rain starts or stops.
    pub fn set_raining(&mut self, raining: bool)
        ensures
            *final(self) == old(self).with_rain(raining),
    {
        self.raining = raining;
        if !raining {
            self.thundering = false;
        }
    }

    /// Thunder starts or stops.
    pub fn set_thundering(&mut self, thundering: bool)
        ensures
            *final(self) == old(self).with_thunder(thundering),
    {
        self.thundering = thundering;
        if thundering {
            self.raining = true;
        }
    }

    /// The server sets the rain outright, in billionths.
    pub fn set_rain_level(&mut self, level: u64)
        requires
            old(self).wf(),
        ensures
            ({
                let rain = if level > FULL {
                    FULL
                } else {
                    level
                };
                *final(self) == (Weather {
                    rain,
                    prev_rain: rain,
                    raining: rain > 0,
                    ..*old(self)
                })
            }),
            final(self).wf(),
    {
        self.rain = if level > FULL {
            FULL
        } else {
            level
        };
        self.prev_rain = self.rain;
        self.raining = self.rain > 0;
    }

    /// The server sets the thunder outright, in billionths.
    pub fn set_thunder_level(&mut self, level: u64)
        requires
            old(self).wf(),
        ensures
            ({
                let thunder = if level > FULL {
                    FULL
                } else {
                    level
                };
                *final(self) == (Weather {
                    thunder,
                    prev_thunder: thunder,
                    thundering: thunder > 0,
                    ..*old(self)
                })
            }),
            final(self).wf(),
    {
        self.thunder = if level > FULL {
            FULL
        } else {
            level
        };
        self.prev_thunder = self.thunder;
        self.thundering = self.thunder > 0;
    }

    /// Whether it rains, or the rain is on its way.
    pub fn is_raining(&self) -> (yes: bool)
        ensures
            yes == self.raining,
    {
        self.raining
    }

    /// Whether it thunders, or the thunder is on its way.
    pub fn is_thundering(&self) -> (yes: bool)
        ensures
            yes == self.thundering,
    {
        self.thundering
    }

    /// Whether rain falls as snow everywhere.
    pub fn force_snow(&self) -> (yes: bool)
        ensures
            yes == self.force_snow,
    {
        self.force_snow
    }

    /// Start the two-tick flash of a lightning bolt.
    pub fn flash(&mut self)
        ensures
            *final(self) == (Weather { lightning_flash: 2, ..*old(self) }),
    {
        self.lightning_flash = 2;
    }

    /// Follow the weather for one tick.
    pub fn tick(&mut self)
        requires
            old(self).wf(),
        ensures
            *final(self) == old(self).step(),
            final(self).wf(),
    {
        self.prev_rain = self.rain;
        self.prev_thunder = self.thunder;
        self.prev_puddle = self.puddle;
        self.rain = ramp(self.rain, self.raining);
        self.thunder = ramp(self.thunder, self.thundering);
        if self.raining {
            self.puddle = if self.puddle + self.rain > FULL_PUDDLE {
                FULL_PUDDLE
            } else {
                self.puddle + self.rain
            };
        } else if self.puddle < PUDDLE_DRAIN {
            self.puddle = 0;
        } else {
            self.puddle = self.puddle - PUDDLE_DRAIN;
        }
        if self.lightning_flash > 0 {
            self.lightning_flash -= 1;
        }
    }

    /// The rain's strength `alpha` billionths into the tick, in billionths of a
    /// billionth.
    pub fn rain_strength(&self, alpha: u64) -> (strength: i128)
        requires
            self.wf(),
            alpha <= FULL,
        ensures
            strength == between(self.prev_rain as int, self.rain as int, alpha as int),
            0 <= strength <= FULL * FULL,
    {
        proof {
            lemma_between(self.prev_rain as int, self.rain as int, alpha as int, FULL as int);
        }
        lerp(self.prev_rain, self.rain, alpha)
    }

    /// The thunder's strength within a tick: the product of its own and the rain's.
    pub open spec fn storm(self, alpha: int) -> int {
        between(self.prev_thunder as int, self.thunder as int, alpha) * between(
            self.prev_rain as int,
            self.rain as int,
            alpha,
        )
    }

    /// The standing water within a tick.
    pub open spec fn standing_water(self, alpha: int) -> int {
        between(self.prev_puddle as int, self.puddle as int, alpha)
    }

    /// A flash lights the sky.
    pub open spec fn flashing(self) -> bool {
        self.lightning_flash > 0
    }

    /// The thunder's strength `alpha` billionths into the tick: never more than
    /// the rain's. The product of two strengths, each in billionths of a
    /// billionth.
    pub fn thunder_strength(&self, alpha: u64) -> (strength: i128)
        requires
            self.wf(),
            alpha <= FULL,
        ensures
            strength == self.storm(alpha as int),
            0 <= strength <= FULL * FULL * between(
                self.prev_rain as int,
                self.rain as int,
                alpha as int,
            ),
            strength <= FULL * FULL * FULL * FULL,
    {
        proof {
            lemma_between(self.prev_thunder as int, self.thunder as int, alpha as int, FULL as int);
        }
        let thunder = lerp(self.prev_thunder, self.thunder, alpha);
        let rain = self.rain_strength(alpha);
        assert(thunder * rain <= 1_000_000_000_000_000_000 * rain) by (nonlinear_arith)
            requires
                thunder <= 1_000_000_000_000_000_000,
                0 <= rain,
        ;
        assert(0 <= thunder * rain <= 1_000_000_000_000_000_000_000_000_000_000_000_000)
            by (nonlinear_arith)
            requires
                0 <= thunder <= 1_000_000_000_000_000_000,
                0 <= rain <= 1_000_000_000_000_000_000,
        ;
        thunder * rain
    }

    /// The standing water `alpha` billionths into the tick.
    pub fn puddle_level(&self, alpha: u64) -> (level: i128)
        requires
            self.wf(),
            alpha <= FULL,
        ensures
            level == self.standing_water(alpha as int),
            0 <= level <= FULL_PUDDLE * FULL,
    {
        proof {
            lemma_between(
                self.prev_puddle as int,
                self.puddle as int,
                alpha as int,
                FULL_PUDDLE as int,
            );
        }
        lerp(self.prev_puddle, self.puddle, alpha)
    }

    /// Whether a flash lights the sky.
    pub fn lightning_flash(&self) -> (yes: bool)
        ensures
            yes == self.flashing(),
    {
        self.lightning_flash > 0
    }
}

/// The weather after the server's change of game state; reasons that do not
/// concern the weather change nothing. `level` is in billionths.
pub open spec fn weather_after(w: Weather, reason: u8, level: u64) -> Weather {
    let capped = if level > FULL {
        FULL
    } else {
        level
    };
    if reason == 1 {
        w.with_rain(false)
    } else if reason == 2 {
        w.with_rain(true)
    } else if reason == 7 {
        Weather { rain: capped, prev_rain: capped, raining: capped > 0, ..w }
    } else if reason == 8 {
        Weather { thunder: capped, prev_thunder: capped, thundering: capped > 0, ..w }
    } else {
        w
    }
}

/// Follow the server's change of game state.
pub fn handle_change_game_state(w: &mut Weather, reason: u8, level: u64)
    requires
        old(w).wf(),
    ensures
        *final(w) == weather_after(*old(w), reason, level),
        final(w).wf(),
{
    match reason {
        1 => w.set_raining(false),
        2 => w.set_raining(true),
        7 => w.set_rain_level(level),
        8 => w.set_thunder_level(level),
        _ => {},
    }
}

/// `n` ticks.
pub open spec fn weather_ticks(w: Weather, n: nat) -> Weather
    decreases n,
{
    if n == 0 {
        w
    } else {
        weather_ticks(w, (n - 1) as nat).step()
    }
}

/// Puddles fill no faster than in four hundred ticks and drain no faster than in eight
/// hundred: what `n` ticks add is bounded by the rain at its fullest, and without rain
/// each tick takes away at most one share.
pub proof fn law_puddles_come_and_go_slowly(w: Weather, n: nat)
    requires
        w.wf(),
    ensures
        weather_ticks(w, n).wf(),
        weather_ticks(w, n).raining == w.raining,
        weather_ticks(w, n).puddle <= w.puddle + n * FULL,
        400 * FULL == FULL_PUDDLE,
        weather_ticks(w, n).puddle + n * PUDDLE_DRAIN >= w.puddle,
        800 * PUDDLE_DRAIN == FULL_PUDDLE,
    decreases n,
{
    if n > 0 {
        law_puddles_come_and_go_slowly(w, (n - 1) as nat);
        let before = weather_ticks(w, (n - 1) as nat);
        assert(before.step().wf());
        assert(n * FULL == (n - 1) * FULL + FULL) by (nonlinear_arith);
        assert(n * PUDDLE_DRAIN == (n - 1) * PUDDLE_DRAIN + PUDDLE_DRAIN) by (nonlinear_arith);
    }
}

/// Rain that starts from a dry sky rises by a hundredth per tick and is full
/// after a hundred ticks.
pub proof fn law_rain_is_full_after_a_hundred_ticks(w: Weather, n: nat)
    requires
        w.raining,
        w.rain == 0,
    ensures
        weather_ticks(w, n).rain == if n < 100 {
            n * RAMP
        } else {
            FULL as int
        },
        weather_ticks(w, n).raining,
    decreases n,
{
    if n > 0 {
        law_rain_is_full_after_a_hundred_ticks(w, (n - 1) as nat);
    }
}

/// Thunder never outlives the rain it rides on, whichever is switched.
pub proof fn law_thunder_needs_rain(w: Weather, on: bool)
    requires
        w.thundering ==> w.raining,
    ensures
        w.with_rain(on).thundering ==> w.with_rain(on).raining,
        w.with_thunder(on).thundering ==> w.with_thunder(on).raining,
        w.with_snow(on).thundering ==> w.with_snow(on).raining,
        w.step().thundering ==> w.step().raining,
{
}

// ── Lightning ─────────────────────────────────────────────────────────────

/// How long a bolt shows, in ticks.
pub const BOLT_LIFE: u32 = 4;

/// A lightning bolt.
#[derive(Debug, Clone, Copy, PartialEq, Eq, Structural)]
pub struct LightningBolt {
    pub x: Real64,
    pub y: Real64,
    pub z: Real64,
    /// Shapes the bolt.
    pub seed: u32,
    /// Ticks left to show.
    pub life: u32,
}

impl LightningBolt {
    /// How bright the bolt is: the share of its life that is left.
    pub open spec fn shine(self) -> (u32, u32) {
        (self.life, BOLT_LIFE)
    }

    /// How bright the bolt is, as a fraction: full at the strike, then fading.
    pub fn brightness(&self) -> (fraction: (u32, u32))
        ensures
            fraction == self.shine(),
    {
        (self.life, BOLT_LIFE)
    }
}

/// The bolts that show, and how many there have been.
#[derive(Debug)]
pub struct Lightning {
    pub bolts: Vec<LightningBolt>,
    pub count: u32,
}

/// The bolts one tick on: each a tick older, the faded ones gone.
pub open spec fn aged(bolts: Seq<LightningBolt>) -> Seq<LightningBolt>
    decreases bolts.len(),
{
    if bolts.len() == 0 {
        Seq::empty()
    } else {
        let last = bolts.last();
        if last.life > 1 {
            aged(bolts.drop_last()).push(
                LightningBolt { life: (last.life - 1) as u32, ..last },
            )
        } else {
            aged(bolts.drop_last())
        }
    }
}

impl Lightning {
    pub fn new() -> (l: Lightning)
        ensures
            l.bolts@ == Seq::<LightningBolt>::empty(),
            l.count == 0,
    {
        Lightning { bolts: Vec::new(), count: 0 }
    }

    /// Age the bolts by a tick.
    pub fn tick(&mut self)
        ensures
            final(self).bolts@ == aged(old(self).bolts@),
            final(self).count == old(self).count,
    {
        let mut kept: Vec<LightningBolt> = Vec::new();
        let mut i: usize = 0;
        while i < self.bolts.len()
            invariant
                i <= self.bolts@.len(),
                self.bolts@ == old(self).bolts@,
                self.count == old(self).count,
                kept@ == aged(self.bolts@.take(i as int)),
            decreases self.bolts@.len() - i,
        {
            let bolt = self.bolts[i];
            if bolt.life > 1 {
                kept.push(LightningBolt { life: bolt.life - 1, ..bolt });
            }
            i += 1;
            assert(self.bolts@.take(i as int).drop_last() =~= self.bolts@.take(i - 1));
        }
        assert(self.bolts@.take(i as int) =~= self.bolts@);
        self.bolts = kept;
    }

    /// A bolt strikes: the sky flashes, and the bolt gets a shape of its own.
    /// `column_x` and `column_z` are the column it strikes.
    pub fn strike(
        &mut self,
        weather: &mut Weather,
        x: Real64,
        y: Real64,
        z: Real64,
        column_x: i32,
        column_z: i32,
    )
        ensures
            *final(weather) == (Weather { lightning_flash: 2, ..*old(weather) }),
            final(self).count == old(self).count.wrapping_add(1),
            final(self).bolts@ == old(self).bolts@.push(
                LightningBolt {
                    x,
                    y,
                    z,
                    seed: spec_hash2d(column_x, column_z, old(self).count.wrapping_add(1)),
                    life: BOLT_LIFE,
                },
            ),
    {
        weather.flash();
        self.count = self.count.wrapping_add(1);
        let seed = hash2d(column_x, column_z, self.count);
        self.bolts.push(LightningBolt { x, y, z, seed, life: BOLT_LIFE });
    }
}

impl Default for Lightning {
    fn default() -> (l: Self)
        ensures
            l.bolts@ == Seq::<LightningBolt>::empty(),
            l.count == 0,
    {
        Lightning::new()
    }
}

/// Ageing never adds a bolt, and bolts that live on keep their order.
pub proof fn law_bolts_only_fade(bolts: Seq<LightningBolt>)
    ensures
        aged(bolts).len() <= bolts.len(),
        forall|i: int|
            0 <= i < aged(bolts).len() ==> 0 < (#[trigger] aged(bolts)[i]).life,
    decreases bolts.len(),
{
    if bolts.len() > 0 {
        law_bolts_only_fade(bolts.drop_last());
    }
}

// ── Precipitation ─────────────────────────────────────────────────────────

/// One above the topmost block of a column that blocks movement or is a liquid: where
/// rain lands.
pub open spec fn spec_landing(column: Seq<BlockState>) -> int
    decreases column.len(),
{
    if column.len() == 0 {
        0
    } else if column.last().spec_stops_rain() {
        column.len() as int
    } else {
        spec_landing(column.drop_last())
    }
}

/// Where rain lands in a column, given its blocks from the bottom up.
pub fn precipitation_height(column: &Vec<BlockState>) -> (y: usize)
    ensures
        y == spec_landing(column@),
        y <= column@.len(),
        y > 0 ==> column@[y - 1].spec_stops_rain(),
        forall|i: int| y <= i < column@.len() ==> !(#[trigger] column@[i]).spec_stops_rain(),
{
    let mut y: usize = column.len();
    assert(column@.take(y as int) =~= column@);
    while y > 0 && !column[y - 1].stops_rain()
        invariant
            y <= column@.len(),
            spec_landing(column@) == spec_landing(column@.take(y as int)),
            forall|i: int| y <= i < column@.len() ==> !(#[trigger] column@[i]).spec_stops_rain(),
        decreases y,
    {
        assert(column@.take(y as int).drop_last() =~= column@.take(y - 1));
        y -= 1;
    }
    assert(y > 0 ==> column@.take(y as int).last() == column@[y - 1]);
    y
}

/// What falls in a column: nothing in a column that is not loaded or dry, else
/// where it lands and whether the biome makes it snow.
#[derive(Debug, Clone, Copy, PartialEq, Eq, Structural)]
pub struct Falling {
    pub ground: i32,
    pub snow: bool,
}

/// A column of rain or snow to draw.
#[derive(Debug, Clone, Copy, PartialEq, Eq, Structural)]
pub struct PrecipColumn {
    pub x: i32,
    pub z: i32,
    pub y_min: i32,
    pub y_max: i32,
    pub snow: bool,
}

/// The part of a column to draw: the band around the camera, above the ground.
pub open spec fn curtain_at(
    x: int,
    z: int,
    cy: int,
    radius: int,
    falling: Option<Falling>,
    force_snow: bool,
) -> Option<PrecipColumn> {
    match falling {
        Some(f) => {
            let low = if cy - radius > f.ground {
                cy - radius
            } else {
                f.ground as int
            };
            let high = if cy + radius > f.ground {
                cy + radius
            } else {
                f.ground as int
            };
            if low < high {
                Some(
                    PrecipColumn {
                        x: x as i32,
                        z: z as i32,
                        y_min: low as i32,
                        y_max: high as i32,
                        snow: f.snow || force_snow,
                    },
                )
            } else {
                None
            }
        },
        None => None,
    }
}

/// The columns of a square around the camera that are drawn, row by row, for the
/// first `n` cells of the square.
pub open spec fn curtain(
    cx: int,
    cy: int,
    cz: int,
    radius: int,
    cells: Seq<Option<Falling>>,
    force_snow: bool,
    n: int,
) -> Seq<PrecipColumn>
    decreases n,
{
    if n <= 0 {
        Seq::empty()
    } else {
        let rest = curtain(cx, cy, cz, radius, cells, force_snow, n - 1);
        let side = 2 * radius + 1;
        match curtain_at(
            cx - radius + (n - 1) % side,
            cz - radius + (n - 1) / side,
            cy,
            radius,
            cells[n - 1],
            force_snow,
        ) {
            Some(column) => rest.push(column),
            None => rest,
        }
    }
}

/// What falls around the camera: nothing when no rain falls or the dimension has no sky.
pub open spec fn fallen(
    weather: Weather,
    alpha: int,
    has_sky_light: bool,
    cx: int,
    cy: int,
    cz: int,
    radius: int,
    cells: Seq<Option<Falling>>,
) -> Seq<PrecipColumn> {
    if between(weather.prev_rain as int, weather.rain as int, alpha) <= 0 || !has_sky_light {
        Seq::empty()
    } else {
        curtain(cx, cy, cz, radius, cells, weather.force_snow, cells.len() as int)
    }
}

/// The columns of rain or snow to draw in the square around the camera. `cells`
/// says what falls in each column of the square, row by row. Nothing is drawn
/// when no rain falls or the dimension has no sky.
pub fn precipitation_columns(
    weather: &Weather,
    alpha: u64,
    has_sky_light: bool,
    cx: i32,
    cy: i32,
    cz: i32,
    radius: i32,
    cells: &Vec<Option<Falling>>,
) -> (columns: Vec<PrecipColumn>)
    requires
        weather.wf(),
        alpha <= FULL,
        radius >= 0,
        i32::MIN <= cx - radius && cx + radius <= i32::MAX,
        i32::MIN <= cy - radius && cy + radius <= i32::MAX,
        i32::MIN <= cz - radius && cz + radius <= i32::MAX,
        cells@.len() == (2 * radius + 1) * (2 * radius + 1),
    ensures
        columns@ == fallen(
            *weather,
            alpha as int,
            has_sky_light,
            cx as int,
            cy as int,
            cz as int,
            radius as int,
            cells@,
        ),
{
    let mut columns: Vec<PrecipColumn> = Vec::new();
    if weather.rain_strength(alpha) <= 0 || !has_sky_light {
        return columns;
    }
    let side: usize = 2 * radius as usize + 1;
    let mut n: usize = 0;
    while n < cells.len()
        invariant
            n <= cells@.len(),
            side == 2 * radius + 1,
            radius >= 0,
            i32::MIN <= cx - radius && cx + radius <= i32::MAX,
            i32::MIN <= cy - radius && cy + radius <= i32::MAX,
            i32::MIN <= cz - radius && cz + radius <= i32::MAX,
            cells@.len() == side * side,
            columns@ == curtain(
                cx as int,
                cy as int,
                cz as int,
                radius as int,
                cells@,
                weather.force_snow,
                n as int,
            ),
        decreases cells@.len() - n,
    {
        assert(0 <= n as int / (side as int) < side && 0 <= n as int % (side as int) < side)
            by (nonlinear_arith)
            requires
                0 <= n < side * side,
                side > 0,
        ;
        let x: i32 = ((cx - radius) as i64 + (n % side) as i64) as i32;
        let z: i32 = ((cz - radius) as i64 + (n / side) as i64) as i32;
        if let Some(f) = cells[n] {
            let low: i32 = if cy - radius > f.ground {
                cy - radius
            } else {
                f.ground
            };
            let high: i32 = if cy + radius > f.ground {
                cy + radius
            } else {
                f.ground
            };
            if low < high {
                columns.push(
                    PrecipColumn {
                        x,
                        z,
                        y_min: low,
                        y_max: high,
                        snow: f.snow || weather.force_snow,
                    },
                );
            }
        }
        n += 1;
    }
    columns
}

/// Nothing is drawn below the ground.
pub proof fn law_curtains_stay_above_ground(
    x: int,
    z: int,
    cy: int,
    radius: int,
    f: Falling,
    force_snow: bool,
)
    requires
        radius >= 0,
        i32::MIN <= cy - radius,
        cy + radius <= i32::MAX,
    ensures
        curtain_at(x, z, cy, radius, Some(f), force_snow) matches Some(c) ==> f.ground <= c.y_min
            < c.y_max,
{
}

// ── Splashes ──────────────────────────────────────────────────────────────

/// How far from the player splashes land.
pub const SPREAD: i32 = 10;

/// How many drops fall near the player in a tick: a hundred times the square of
/// the strength, rounded down.
pub open spec fn spec_drops(rain: int) -> int {
    100 * rain * rain / (FULL * FULL)
}

/// How many drops fall near the player in a tick.
pub fn splash_count(weather: &Weather, has_sky_light: bool) -> (count: u32)
    requires
        weather.wf(),
    ensures
        count == drop_count(*weather, has_sky_light),
        count <= 100,
{
    if !has_sky_light {
        return 0;
    }
    let r: i128 = weather.rain as i128;
    assert(0 <= 100 * r * r <= 100_000_000_000_000_000_000) by (nonlinear_arith)
        requires
            0 <= r <= 1_000_000_000,
    ;
    let scaled: i128 = 100 * r * r;
    (scaled / 1_000_000_000_000_000_000) as u32
}

/// The offset of a drop from the player: most land close by.
pub open spec fn spec_drop_offset(h: u32) -> (int, int) {
    (
        h as int % SPREAD as int - (h >> 5) as int % SPREAD as int,
        (h >> 10) as int % SPREAD as int - (h >> 15) as int % SPREAD as int,
    )
}

/// A drop of rain: the column it falls in, and the hash that varies its place there.
#[derive(Debug, Clone, Copy, PartialEq, Eq, Structural)]
pub struct Raindrop {
    pub x: i32,
    pub z: i32,
    pub hash: u32,
}

/// The `i`-th drop of a tick.
pub open spec fn raindrop(i: int, ex: i32, ez: i32, counter: i32) -> Raindrop {
    let hash = spec_hash2d(ex.wrapping_add(i as i32), ez, (counter as u32) ^ 0x5bd1);
    Raindrop {
        x: (ex + spec_drop_offset(hash).0) as i32,
        z: (ez + spec_drop_offset(hash).1) as i32,
        hash,
    }
}

/// The `i`-th drop of a tick: it falls close to block `(ex, ez)`.
pub fn drop_column(i: u32, ex: i32, ez: i32, counter: i32) -> (drop: Raindrop)
    requires
        i <= i32::MAX,
        i32::MIN + SPREAD <= ex <= i32::MAX - SPREAD,
        i32::MIN + SPREAD <= ez <= i32::MAX - SPREAD,
    ensures
        drop == raindrop(i as int, ex, ez, counter),
        -SPREAD < drop.x - ex < SPREAD,
        -SPREAD < drop.z - ez < SPREAD,
{
    let seed: u32 = (#[verifier::truncate] (counter as u32)) ^ 0x5bd1;
    let h = hash2d(ex.wrapping_add(i as i32), ez, seed);
    let dx: i32 = (h % 10) as i32 - ((h >> 5) % 10) as i32;
    let dz: i32 = ((h >> 10) % 10) as i32 - ((h >> 15) % 10) as i32;
    Raindrop { x: ex + dx, z: ez + dz, hash: h }
}

/// How many drops fall near the player in a tick; none without a sky.
pub open spec fn drop_count(weather: Weather, has_sky_light: bool) -> int {
    if has_sky_light {
        spec_drops(weather.rain as int)
    } else {
        0
    }
}

/// The drops that fall near the player in a tick, the eye at block `(ex, ez)`.
pub fn rain_drops(weather: &Weather, has_sky_light: bool, ex: i32, ez: i32, counter: i32) -> (drops:
    Vec<Raindrop>)
    requires
        weather.wf(),
        i32::MIN + SPREAD <= ex <= i32::MAX - SPREAD,
        i32::MIN + SPREAD <= ez <= i32::MAX - SPREAD,
    ensures
        drops@ == Seq::new(
            drop_count(*weather, has_sky_light) as nat,
            |i: int| raindrop(i, ex, ez, counter),
        ),
{
    let count = splash_count(weather, has_sky_light);
    let mut drops: Vec<Raindrop> = Vec::new();
    let mut i: u32 = 0;
    while i < count
        invariant
            i <= count <= 100,
            i32::MIN + SPREAD <= ex <= i32::MAX - SPREAD,
            i32::MIN + SPREAD <= ez <= i32::MAX - SPREAD,
            drops@ == Seq::new(i as nat, |i: int| raindrop(i, ex, ez, counter)),
        decreases count - i,
    {
        let ghost before = drops@;
        drops.push(drop_column(i, ex, ez, counter));
        i += 1;
        assert(drops@ =~= Seq::new(i as nat, |i: int| raindrop(i, ex, ez, counter)));
    }
    drops
}

/// What a drop does where it lands.
#[derive(Debug, Clone, Copy, PartialEq, Eq, Structural)]
pub enum Splash {
    Nothing,
    Droplet,
    /// Lava hisses.
    Smoke,
}

/// What a drop does: it splashes on a block near the player's height where it
/// rains rather than snows. `rain` says what the biome makes of it: nothing when
/// dry, else whether it snows.
pub open spec fn spec_splash(
    top: int,
    ey: int,
    snows: Option<bool>,
    force_snow: bool,
    below: BlockState,
) -> Splash {
    if top > ey + SPREAD || top < ey - SPREAD || force_snow || snows != Some(false)
        || below.spec_air() {
        Splash::Nothing
    } else if below.id == 10 || below.id == 11 {
        Splash::Smoke
    } else {
        Splash::Droplet
    }
}

/// What a drop does where it lands.
pub fn splash_at(
    top: i32,
    ey: i32,
    snows: Option<bool>,
    force_snow: bool,
    below: BlockState,
) -> (splash: Splash)
    ensures
        splash == spec_splash(top as int, ey as int, snows, force_snow, below),
{
    let above: i64 = top as i64 - ey as i64;
    if above > SPREAD as i64 || above < -(SPREAD as i64) || force_snow {
        return Splash::Nothing;
    }
    match snows {
        Some(false) => {},
        _ => {
            return Splash::Nothing;
        },
    }
    if below.is_air() {
        Splash::Nothing
    } else if below.id == 10 || below.id == 11 {
        Splash::Smoke
    } else {
        Splash::Droplet
    }
}

/// Whether the rain is heard this tick, and the count of silent ticks after it.
pub open spec fn hearing(landed: i32, counter: i32, silent: u32) -> (bool, u32) {
    if landed <= 0 {
        (false, silent)
    } else if spec_hash2d(landed, counter, 0x9e3d) % 3 < silent + 1 {
        (true, 0u32)
    } else {
        (false, (silent + 1) as u32)
    }
}

/// Whether the rain is heard this tick, and the count of silent ticks after it.
/// The more ticks drops landed unheard, the surer it is.
pub fn rain_heard(landed: i32, counter: i32, silent: u32) -> (heard: (bool, u32))
    requires
        silent < u32::MAX,
    ensures
        heard == hearing(landed, counter, silent),
{
    if landed <= 0 {
        return (false, silent);
    }
    if hash2d(landed, counter, 0x9e3d) % 3 < silent + 1 {
        (true, 0)
    } else {
        (false, silent + 1)
    }
}

/// What a drop finds in its column: where it lands, what the biome makes of it, and
/// the block it lands on.
#[derive(Debug, Clone, Copy, PartialEq, Eq, Structural)]
pub struct Landing {
    pub top: i32,
    /// Whether it snows; nothing where the biome is dry.
    pub snows: Option<bool>,
    pub below: BlockState,
}

/// What a drop does in its column; nothing where that is not loaded.
pub open spec fn landing_splash(landing: Option<Landing>, ey: int, force_snow: bool) -> Splash {
    match landing {
        Some(l) => spec_splash(l.top as int, ey, l.snows, force_snow, l.below),
        None => Splash::Nothing,
    }
}

/// The splashes of the first `n` drops: each with the number of its drop.
pub open spec fn splashes_upto(landings: Seq<Option<Landing>>, ey: int, force_snow: bool, n: int) -> Seq<
    (usize, Splash),
>
    decreases n,
{
    if n <= 0 {
        Seq::empty()
    } else {
        let rest = splashes_upto(landings, ey, force_snow, n - 1);
        let splash = landing_splash(landings[n - 1], ey, force_snow);
        if splash == Splash::Nothing {
            rest
        } else {
            rest.push(((n - 1) as usize, splash))
        }
    }
}

/// What the rain of a tick does: the splashes, and the drop where it is heard.
#[derive(Debug, PartialEq, Eq)]
pub struct RainTick {
    pub splashes: Vec<(usize, Splash)>,
    pub heard: Option<usize>,
}

/// Where the rain is heard: at the last drop that landed; and the count of silent ticks
/// after it.
pub open spec fn rain_sounds(splashes: Seq<(usize, Splash)>, counter: i32, silent: u32) -> (
    Option<usize>,
    u32,
) {
    let (heard, after) = hearing(splashes.len() as i32, counter, silent);
    (
        if heard {
            Some(splashes.last().0)
        } else {
            None
        },
        after,
    )
}

/// What the rain of a tick does, given what each drop finds in its column. The rain is
/// heard at the last drop that landed; `silent` counts the ticks it was not.
pub fn spawn_rain_particles(
    landings: &Vec<Option<Landing>>,
    ey: i32,
    force_snow: bool,
    counter: i32,
    silent: &mut u32,
) -> (rain: RainTick)
    requires
        landings@.len() <= i32::MAX,
        *old(silent) < u32::MAX,
    ensures
        rain.splashes@ == splashes_upto(
            landings@,
            ey as int,
            force_snow,
            landings@.len() as int,
        ),
        (rain.heard, *final(silent)) == rain_sounds(rain.splashes@, counter, *old(silent)),
{
    let mut splashes: Vec<(usize, Splash)> = Vec::new();
    let mut i: usize = 0;
    while i < landings.len()
        invariant
            i <= landings@.len() <= i32::MAX,
            splashes@.len() <= i,
            splashes@ == splashes_upto(landings@, ey as int, force_snow, i as int),
        decreases landings@.len() - i,
    {
        if let Some(l) = landings[i] {
            let splash = splash_at(l.top, ey, l.snows, force_snow, l.below);
            if splash != Splash::Nothing {
                splashes.push((i, splash));
            }
        }
        i += 1;
    }
    let (heard, now) = rain_heard(splashes.len() as i32, counter, *silent);
    *silent = now;
    let at: Option<usize> = if heard {
        Some(splashes[splashes.len() - 1].0)
    } else {
        None
    };
    RainTick { splashes, heard: at }
}

/// The rain is heard on the third tick with drops at the latest.
pub proof fn law_rain_is_heard_by_the_third_tick(landed: i32, counter: i32, silent: u32)
    requires
        landed > 0,
        2 <= silent < u32::MAX,
    ensures
        spec_hash2d(landed, counter, 0x9e3d) % 3 < silent + 1,
{
}

} // verus!
