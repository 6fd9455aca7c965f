//! Titles the server shows across the screen.

use vstd::prelude::*;
use crate::chat::component::{flat_message, flatten_chat_json};
use crate::chat::lang::Language;

verus! {

pub const DEFAULT_TITLE_FADE_IN_TICKS: i32 = 10;

pub const DEFAULT_TITLE_STAY_TICKS: i32 = 70;

pub const DEFAULT_TITLE_FADE_OUT_TICKS: i32 = 20;

/// What the server asks of the title. Texts are chat JSON.
#[derive(Debug)]
pub enum TitleAction {
    Title { json: String },
    Subtitle { json: String },
    Times { fade_in: i32, stay: i32, fade_out: i32 },
    Clear,
    Reset,
}

/// The title and how long it shows.
#[derive(Debug)]
pub struct TitleState {
    pub title: String,
    pub subtitle: String,
    /// Ticks left to show.
    pub timer: i32,
    pub fade_in: i32,
    pub stay: i32,
    pub fade_out: i32,
}

/// The value of a [`TitleState`].
pub struct TitleModel {
    pub title: Seq<char>,
    pub subtitle: Seq<char>,
    pub timer: int,
    pub fade_in: int,
    pub stay: int,
    pub fade_out: int,
}

impl View for TitleState {
    type V = TitleModel;

    open spec fn view(&self) -> TitleModel {
        TitleModel {
            title: self.title@,
            subtitle: self.subtitle@,
            timer: self.timer as int,
            fade_in: self.fade_in as int,
            stay: self.stay as int,
            fade_out: self.fade_out as int,
        }
    }
}

/// A time the server gave replaces the old one unless it is negative.
pub open spec fn or_kept(given: int, kept: int) -> int {
    if given >= 0 {
        given
    } else {
        kept
    }
}

impl TitleModel {
    pub open spec fn initial() -> TitleModel {
        TitleModel {
            title: Seq::empty(),
            subtitle: Seq::empty(),
            timer: 0,
            fade_in: DEFAULT_TITLE_FADE_IN_TICKS as int,
            stay: DEFAULT_TITLE_STAY_TICKS as int,
            fade_out: DEFAULT_TITLE_FADE_OUT_TICKS as int,
        }
    }

    pub open spec fn total(self) -> int {
        self.fade_in + self.stay + self.fade_out
    }

    /// Times are never negative, and their sum is a number of ticks.
    pub open spec fn wf(self) -> bool {
        &&& 0 <= self.fade_in
        &&& 0 <= self.stay
        &&& 0 <= self.fade_out
        &&& self.total() <= i32::MAX
        &&& 0 <= self.timer
    }

    pub open spec fn cleared(self) -> TitleModel {
        TitleModel { title: Seq::empty(), subtitle: Seq::empty(), timer: 0, ..self }
    }

    /// The state after new times; a shown title starts over with them.
    pub open spec fn with_times(self, fade_in: int, stay: int, fade_out: int) -> TitleModel {
        let timed = TitleModel {
            fade_in: or_kept(fade_in, self.fade_in),
            stay: or_kept(stay, self.stay),
            fade_out: or_kept(fade_out, self.fade_out),
            ..self
        };
        if self.timer > 0 {
            TitleModel { timer: timed.total(), ..timed }
        } else {
            timed
        }
    }

    /// One tick: the texts go when the time is up.
    pub open spec fn step(self) -> TitleModel {
        if self.timer <= 0 {
            self
        } else if self.timer == 1 {
            self.cleared()
        } else {
            TitleModel { timer: self.timer - 1, ..self }
        }
    }

    /// The state after the server's request.
    pub open spec fn applied(self, action: TitleAction, lang: Language) -> TitleModel {
        match action {
            TitleAction::Title { json } => TitleModel {
                title: flat_message(json@, lang),
                timer: self.total(),
                ..self
            },
            TitleAction::Subtitle { json } => TitleModel {
                subtitle: flat_message(json@, lang),
                ..self
            },
            TitleAction::Times { fade_in, stay, fade_out } => self.with_times(
                fade_in as int,
                stay as int,
                fade_out as int,
            ),
            TitleAction::Clear => self.cleared(),
            TitleAction::Reset => TitleModel::initial(),
        }
    }
}

/// Times that can be added up.
pub open spec fn times_fit(state: TitleModel, action: TitleAction) -> bool {
    match action {
        TitleAction::Times { fade_in, stay, fade_out } => state.with_times(
            fade_in as int,
            stay as int,
            fade_out as int,
        ).total() <= i32::MAX,
        _ => true,
    }
}

impl Default for TitleState {
    fn default() -> (t: Self)
        ensures
            t@ == TitleModel::initial(),
            t@.wf(),
    {
        TitleState {
            title: String::new(),
            subtitle: String::new(),
            timer: 0,
            fade_in: DEFAULT_TITLE_FADE_IN_TICKS,
            stay: DEFAULT_TITLE_STAY_TICKS,
            fade_out: DEFAULT_TITLE_FADE_OUT_TICKS,
        }
    }
}

impl TitleState {
    /// Ticks a title shows, fades and all.
    pub fn total_ticks(&self) -> (n: i32)
        requires
            self@.wf(),
        ensures
            n == self@.total(),
    {
        self.fade_in + self.stay + self.fade_out
    }

    /// Take the title down.
    pub fn clear(&mut self)
        ensures
            final(self)@ == old(self)@.cleared(),
    {
        self.title = String::new();
        self.subtitle = String::new();
        self.timer = 0;
    }

    /// Back to the standard times.
    pub fn reset_times(&mut self)
        ensures
            final(self)@ == (TitleModel {
                fade_in: DEFAULT_TITLE_FADE_IN_TICKS as int,
                stay: DEFAULT_TITLE_STAY_TICKS as int,
                fade_out: DEFAULT_TITLE_FADE_OUT_TICKS as int,
                ..old(self)@
            }),
    {
        self.fade_in = DEFAULT_TITLE_FADE_IN_TICKS;
        self.stay = DEFAULT_TITLE_STAY_TICKS;
        self.fade_out = DEFAULT_TITLE_FADE_OUT_TICKS;
    }

    /// Follow the server's request.
    pub fn apply(&mut self, action: &TitleAction, lang: &Language)
        requires
            old(self)@.wf(),
            times_fit(old(self)@, *action),
        ensures
            final(self)@ == old(self)@.applied(*action, *lang),
            final(self)@.wf(),
    {
        match action {
            TitleAction::Title { json } => {
                self.title = flatten_chat_json(json, lang);
                self.timer = self.total_ticks();
            },
            TitleAction::Subtitle { json } => {
                self.subtitle = flatten_chat_json(json, lang);
            },
            TitleAction::Times { fade_in, stay, fade_out } => {
                if *fade_in >= 0 {
                    self.fade_in = *fade_in;
                }
                if *stay >= 0 {
                    self.stay = *stay;
                }
                if *fade_out >= 0 {
                    self.fade_out = *fade_out;
                }
                if self.timer > 0 {
                    self.timer = self.total_ticks();
                }
            },
            TitleAction::Clear => self.clear(),
            TitleAction::Reset => {
                self.clear();
                self.reset_times();
            },
        }
    }

    /// Whether the times of a request can be added up.
    pub fn times_add_up(&self, action: &TitleAction) -> (yes: bool)
        requires
            self@.wf(),
        ensures
            yes == times_fit(self@, *action),
    {
        if let TitleAction::Times { fade_in, stay, fade_out } = action {
            let a: i64 = (if *fade_in >= 0 {
                *fade_in
            } else {
                self.fade_in
            }) as i64;
            let b: i64 = (if *stay >= 0 {
                *stay
            } else {
                self.stay
            }) as i64;
            let c: i64 = (if *fade_out >= 0 {
                *fade_out
            } else {
                self.fade_out
            }) as i64;
            return a + b + c <= i32::MAX as i64;
        }
        true
    }

    /// Count the title down.
    pub fn tick(&mut self)
        requires
            old(self)@.wf(),
        ensures
            final(self)@ == old(self)@.step(),
            final(self)@.wf(),
    {
        if self.timer <= 0 {
            return ;
        }
        self.timer -= 1;
        if self.timer <= 0 {
            self.title = String::new();
            self.subtitle = String::new();
        }
    }

    /// How visible the title is, as a fraction, with `partial` billionths of the
    /// current tick passed.
    pub fn alpha(&self, partial: u64) -> (alpha: (i128, i128))
        requires
            self@.wf(),
        ensures
            alpha.0 == spec_alpha(self@, partial as int).0,
            alpha.1 == spec_alpha(self@, partial as int).1,
            0 <= alpha.0 <= alpha.1 <= i32::MAX * TICK,
            0 < alpha.1,
    {
        let passed: i128 = if partial < 1_000_000_000 {
            partial as i128
        } else {
            1_000_000_000
        };
        let remaining: i128 = self.timer as i128 * 1_000_000_000 - passed;
        let (num, den): (i128, i128) = if self.fade_out > 0 && self.timer <= self.fade_out {
            (remaining, self.fade_out as i128 * 1_000_000_000)
        } else if self.fade_in > 0 && self.timer > self.fade_out + self.stay {
            (
                self.total_ticks() as i128 * 1_000_000_000 - remaining,
                self.fade_in as i128 * 1_000_000_000,
            )
        } else {
            (1, 1)
        };
        if num < 0 {
            (0, den)
        } else if num > den {
            (den, den)
        } else {
            (num, den)
        }
    }

    /// The visibility to draw the title with; nothing when there is nothing to
    /// see: no time left, no text, or all but transparent.
    pub fn overlay(&self, partial: u64) -> (alpha: Option<(i128, i128)>)
        requires
            self@.wf(),
        ensures
            match alpha {
                Some(a) => self@.shown(partial as int) && a.0 == spec_alpha(
                    self@,
                    partial as int,
                ).0 && a.1 == spec_alpha(self@, partial as int).1,
                None => !self@.shown(partial as int),
            },
    {
        if self.timer <= 0 {
            return None;
        }
        let (num, den) = self.alpha(partial);
        let no_title = self.title.as_str().unicode_len() == 0;
        let no_subtitle = self.subtitle.as_str().unicode_len() == 0;
        if num * 255 <= 8 * den || (no_title && no_subtitle) {
            return None;
        }
        Some((num, den))
    }
}

/// A tick, in billionths.
pub const TICK: i128 = 1_000_000_000;

/// How visible the title is, as a fraction: rising over the fade-in, falling over
/// the fade-out, full in between.
pub open spec fn spec_alpha(t: TitleModel, partial: int) -> (int, int) {
    let passed = if partial < TICK {
        partial
    } else {
        TICK as int
    };
    let remaining = t.timer * TICK - passed;
    let (num, den) = if t.fade_out > 0 && t.timer <= t.fade_out {
        (remaining, t.fade_out * TICK)
    } else if t.fade_in > 0 && t.timer > t.fade_out + t.stay {
        (t.total() * TICK - remaining, t.fade_in * TICK)
    } else {
        (1, 1)
    };
    (
        if num < 0 {
            0
        } else if num > den {
            den
        } else {
            num
        },
        den,
    )
}

impl TitleModel {
    /// There is something to see: time left, text, and more than eight of 255
    /// parts of visibility.
    pub open spec fn shown(self, partial: int) -> bool {
        &&& self.timer > 0
        &&& spec_alpha(self, partial).0 * 255 > 8 * spec_alpha(self, partial).1
        &&& self.title.len() > 0 || self.subtitle.len() > 0
    }
}

/// `n` ticks.
pub open spec fn title_ticks(t: TitleModel, n: nat) -> TitleModel
    decreases n,
{
    if n == 0 {
        t
    } else {
        title_ticks(t, (n - 1) as nat).step()
    }
}

/// A shown title is gone after exactly its time, and not before.
pub proof fn law_titles_show_for_their_time(t: TitleModel, n: nat)
    requires
        t.wf(),
        t.timer > 0,
    ensures
        n < t.timer ==> title_ticks(t, n) == (TitleModel { timer: t.timer - n, ..t }),
        n >= t.timer ==> title_ticks(t, n) == t.cleared(),
    decreases n,
{
    if n > 0 {
        law_titles_show_for_their_time(t, (n - 1) as nat);
    }
}

} // verus!
