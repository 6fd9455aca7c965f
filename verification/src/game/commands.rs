//! Chat commands of worlds without a server: time of day and weather.

use vstd::prelude::*;
use crate::text::{
    append, append_number, chars_of, copy_text, decimal, joined, number_of, parse_number,
    same_chars, split_whitespace, words_of, words_view,
};
use super::weather::Weather;

verus! {

/// Ticks in a day.
pub const DAY: i64 = 24000;

/// The day/night clock.
#[derive(Debug, Clone, Copy, PartialEq, Eq, Structural)]
pub struct Clock {
    /// Time of day in ticks, within a day.
    pub world_time: i64,
    /// Whether time advances by itself.
    pub daylight_cycle: bool,
    /// What a tick adds.
    pub time_rate: i64,
}

/// A weather to set.
#[derive(Debug, Clone, Copy, PartialEq, Eq, Structural)]
pub enum Sky {
    Clear,
    Rain,
    Snow,
    Thunder,
}

/// A command.
#[derive(Debug, Clone, Copy, PartialEq, Eq, Structural)]
pub enum Command {
    TimeSet(i64),
    TimeAdd(i64),
    TimeRate(i64),
    /// A time command that names no time.
    TimeSetUsage,
    TimeAddUsage,
    TimeRateUsage,
    TimeUsage,
    Sky(Sky),
    /// Lightning ahead of the player.
    Strike,
    WeatherUsage,
    Unknown,
}

/// The time a word names: a part of the day or a number of ticks.
pub open spec fn time_named(word: Seq<char>) -> Option<int> {
    if word == "day"@ {
        Some(1000)
    } else if word == "noon"@ {
        Some(6000)
    } else if word == "night"@ {
        Some(13000)
    } else if word == "midnight"@ {
        Some(18000)
    } else {
        number_of(word)
    }
}

/// The command that words give.
pub open spec fn command_of(words: Seq<Seq<char>>) -> Command {
    if words.len() == 3 && words[0] == "time"@ && words[1] == "set"@ {
        match time_named(words[2]) {
            Some(t) => Command::TimeSet(t as i64),
            None => Command::TimeSetUsage,
        }
    } else if words.len() == 3 && words[0] == "time"@ && words[1] == "add"@ {
        match number_of(words[2]) {
            Some(n) => Command::TimeAdd(n as i64),
            None => Command::TimeAddUsage,
        }
    } else if words.len() == 3 && words[0] == "time"@ && words[1] == "rate"@ {
        match number_of(words[2]) {
            Some(n) => Command::TimeRate(n as i64),
            None => Command::TimeRateUsage,
        }
    } else if words.len() >= 1 && words[0] == "time"@ {
        Command::TimeUsage
    } else if words.len() == 2 && words[0] == "weather"@ {
        if words[1] == "clear"@ {
            Command::Sky(Sky::Clear)
        } else if words[1] == "rain"@ {
            Command::Sky(Sky::Rain)
        } else if words[1] == "snow"@ {
            Command::Sky(Sky::Snow)
        } else if words[1] == "thunder"@ {
            Command::Sky(Sky::Thunder)
        } else if words[1] == "strike"@ {
            Command::Strike
        } else {
            Command::WeatherUsage
        }
    } else if words.len() >= 1 && words[0] == "weather"@ {
        Command::WeatherUsage
    } else {
        Command::Unknown
    }
}

/// Whether a word is this one.
fn is_word(word: &Vec<char>, name: &str) -> (yes: bool)
    ensures
        yes == (word@ == name@),
{
    same_chars(word, &chars_of(name))
}

/// The time a word names.
fn parse_time(word: &Vec<char>) -> (t: Option<i64>)
    ensures
        match (t, time_named(word@)) {
            (Some(a), Some(b)) => a == b,
            (None, None) => true,
            _ => false,
        },
{
    if is_word(word, "day") {
        Some(1000)
    } else if is_word(word, "noon") {
        Some(6000)
    } else if is_word(word, "night") {
        Some(13000)
    } else if is_word(word, "midnight") {
        Some(18000)
    } else {
        parse_number(word)
    }
}

/// Read a command: the text after the slash.
pub fn parse_command(cmd: &str) -> (command: Command)
    ensures
        command == command_of(words_of(cmd@)),
{
    let words = split_whitespace(cmd);
    let ghost view = words_view(words@);
    let n = words.len();
    if n == 0 {
        return Command::Unknown;
    }
    assert(view[0] == words@[0]@);
    assert(n > 1 ==> view[1] == words@[1]@);
    assert(n > 2 ==> view[2] == words@[2]@);
    if is_word(&words[0], "time") {
        if n == 3 && is_word(&words[1], "set") {
            return match parse_time(&words[2]) {
                Some(t) => Command::TimeSet(t),
                None => Command::TimeSetUsage,
            };
        }
        if n == 3 && is_word(&words[1], "add") {
            return match parse_number(&words[2]) {
                Some(t) => Command::TimeAdd(t),
                None => Command::TimeAddUsage,
            };
        }
        if n == 3 && is_word(&words[1], "rate") {
            return match parse_number(&words[2]) {
                Some(t) => Command::TimeRate(t),
                None => Command::TimeRateUsage,
            };
        }
        return Command::TimeUsage;
    }
    if !is_word(&words[0], "weather") {
        return Command::Unknown;
    }
    if n != 2 {
        return Command::WeatherUsage;
    }
    if is_word(&words[1], "clear") {
        Command::Sky(Sky::Clear)
    } else if is_word(&words[1], "rain") {
        Command::Sky(Sky::Rain)
    } else if is_word(&words[1], "snow") {
        Command::Sky(Sky::Snow)
    } else if is_word(&words[1], "thunder") {
        Command::Sky(Sky::Thunder)
    } else if is_word(&words[1], "strike") {
        Command::Strike
    } else {
        Command::WeatherUsage
    }
}

/// The clock after a command.
pub open spec fn clock_after(c: Clock, command: Command) -> Clock {
    match command {
        Command::TimeSet(t) => Clock { world_time: (t as int % DAY as int) as i64, ..c },
        Command::TimeAdd(n) => Clock {
            world_time: ((c.world_time + n) % DAY as int) as i64,
            ..c
        },
        Command::TimeRate(n) => Clock {
            time_rate: if n > 0 {
                n
            } else {
                0
            },
            ..c
        },
        _ => c,
    }
}

/// The weather after a command.
pub open spec fn sky_after(w: Weather, command: Command) -> Weather {
    match command {
        Command::Sky(Sky::Clear) => w.with_snow(false).with_rain(false),
        Command::Sky(Sky::Rain) => w.with_snow(false).with_rain(true),
        Command::Sky(Sky::Snow) => w.with_snow(true),
        Command::Sky(Sky::Thunder) => w.with_thunder(true),
        _ => w,
    }
}

/// The line that answers a command, with the clock after it.
pub open spec fn answer_to(cmd: Seq<char>, command: Command, c: Clock) -> Seq<char> {
    match command {
        Command::TimeSet(_) => "Set the time to "@ + decimal(c.world_time as int),
        Command::TimeAdd(n) => "Added "@ + decimal(n as int) + " to the time (now "@ + decimal(
            c.world_time as int,
        ) + ")"@,
        Command::TimeRate(_) => "Day/night rate set to "@ + decimal(c.time_rate as int) + "x"@,
        Command::TimeSetUsage => "Usage: /time set <day|noon|night|midnight|ticks>"@,
        Command::TimeAddUsage => "Usage: /time add <ticks>"@,
        Command::TimeRateUsage => "Usage: /time rate <ticks-per-tick>"@,
        Command::TimeUsage => "Usage: /time set|add <…> or /time rate <n>"@,
        Command::Sky(Sky::Clear) => "Weather set to clear"@,
        Command::Sky(Sky::Rain) => "Weather set to rain"@,
        Command::Sky(Sky::Snow) => "Weather set to snow"@,
        Command::Sky(Sky::Thunder) => "Weather set to thunder"@,
        Command::Strike => Seq::empty(),
        Command::WeatherUsage => "Usage: /weather clear|rain|snow|thunder|strike"@,
        Command::Unknown => "Unknown command: /"@ + cmd,
    }
}

/// The remainder that is never negative.
fn time_of_day(t: i128) -> (time: i64)
    requires
        -0x1_0000_0000_0000_0000 <= t <= 0x1_0000_0000_0000_0000,
    ensures
        time == t as int % DAY as int,
        0 <= time < DAY,
{
    // A multiple of a day keeps the number positive.
    let shifted: i128 = t + 24000 * 0x1_0000_0000_0000_0000;
    assert(shifted as int % 24000 == t as int % 24000);
    (shifted % 24000) as i64
}

/// Run a command on the clock and the weather. Returns the line to show in chat,
/// or nothing for a lightning strike, which the caller places and reports.
pub fn run_demo_command(cmd: &str, clock: &mut Clock, weather: &mut Weather) -> (answer: Option<String>)
    ensures
        ({
            let command = command_of(words_of(cmd@));
            &&& *final(clock) == clock_after(*old(clock), command)
            &&& *final(weather) == sky_after(*old(weather), command)
            &&& match answer {
                Some(text) => command != Command::Strike && text@ == answer_to(
                    cmd@,
                    command,
                    *final(clock),
                ),
                None => command == Command::Strike,
            }
        }),
{
    let command = parse_command(cmd);
    let text = match command {
        Command::TimeSet(t) => {
            clock.world_time = time_of_day(t as i128);
            let mut text = copy_text("Set the time to ");
            append_number(&mut text, clock.world_time);
            text
        },
        Command::TimeAdd(n) => {
            clock.world_time = time_of_day(clock.world_time as i128 + n as i128);
            let mut text = copy_text("Added ");
            append_number(&mut text, n);
            append(&mut text, " to the time (now ");
            append_number(&mut text, clock.world_time);
            append(&mut text, ")");
            text
        },
        Command::TimeRate(n) => {
            clock.time_rate = if n > 0 {
                n
            } else {
                0
            };
            let mut text = copy_text("Day/night rate set to ");
            append_number(&mut text, clock.time_rate);
            append(&mut text, "x");
            text
        },
        Command::TimeSetUsage => copy_text("Usage: /time set <day|noon|night|midnight|ticks>"),
        Command::TimeAddUsage => copy_text("Usage: /time add <ticks>"),
        Command::TimeRateUsage => copy_text("Usage: /time rate <ticks-per-tick>"),
        Command::TimeUsage => copy_text("Usage: /time set|add <…> or /time rate <n>"),
        Command::Sky(Sky::Clear) => {
            weather.set_force_snow(false);
            weather.set_raining(false);
            copy_text("Weather set to clear")
        },
        Command::Sky(Sky::Rain) => {
            weather.set_force_snow(false);
            weather.set_raining(true);
            copy_text("Weather set to rain")
        },
        Command::Sky(Sky::Snow) => {
            weather.set_force_snow(true);
            copy_text("Weather set to snow")
        },
        Command::Sky(Sky::Thunder) => {
            weather.set_thundering(true);
            copy_text("Weather set to thunder")
        },
        Command::Strike => {
            return None;
        },
        Command::WeatherUsage => copy_text("Usage: /weather clear|rain|snow|thunder|strike"),
        Command::Unknown => joined("Unknown command: /", cmd),
    };
    Some(text)
}

/// The line that reports a lightning strike.
pub fn strike_report(x: i32, y: i32, z: i32) -> (text: String)
    ensures
        text@ == "Lightning strikes at "@ + decimal(x as int) + ", "@ + decimal(y as int) + ", "@
            + decimal(z as int),
{
    let mut text = copy_text("Lightning strikes at ");
    append_number(&mut text, x as i64);
    append(&mut text, ", ");
    append_number(&mut text, y as i64);
    append(&mut text, ", ");
    append_number(&mut text, z as i64);
    text
}

impl Clock {
    /// Noon, with time passing.
    pub open spec fn initial() -> Clock {
        Clock { world_time: 6000, daylight_cycle: true, time_rate: 1 }
    }

    /// The time is within a day.
    pub open spec fn wf(self) -> bool {
        0 <= self.world_time < DAY
    }

    /// One tick; a day follows on a day.
    pub open spec fn step(self) -> Clock {
        if self.daylight_cycle {
            Clock { world_time: ((self.world_time + self.time_rate) % DAY as int) as i64, ..self }
        } else {
            self
        }
    }

    /// The time of day a part of a tick on, in billionths of a tick; `alpha` is that part,
    /// in billionths.
    pub open spec fn time_after(self, alpha: int) -> int {
        self.world_time * 1_000_000_000 + if self.daylight_cycle {
            self.time_rate * alpha
        } else {
            0
        }
    }

    /// The clock that the server set: to the time within the day; a negative time stands
    /// still at its magnitude.
    pub open spec fn with_time(self, time_of_day: i64) -> Clock {
        Clock {
            daylight_cycle: time_of_day >= 0,
            world_time: ((if time_of_day >= 0 {
                time_of_day as int
            } else {
                -time_of_day
            }) % DAY as int) as i64,
            ..self
        }
    }

    pub fn new() -> (c: Clock)
        ensures
            c == Clock::initial(),
            c.wf(),
    {
        Clock { world_time: 6000, daylight_cycle: true, time_rate: 1 }
    }

    /// Let a tick pass.
    pub fn tick(&mut self)
        ensures
            *final(self) == old(self).step(),
            old(self).wf() ==> final(self).wf(),
    {
        if self.daylight_cycle {
            self.world_time = time_of_day(self.world_time as i128 + self.time_rate as i128);
        }
    }

    /// The server set the time.
    pub fn set_time(&mut self, time: i64)
        requires
            time > i64::MIN,
        ensures
            *final(self) == old(self).with_time(time),
            final(self).wf(),
    {
        self.daylight_cycle = time >= 0;
        self.world_time = time_of_day(
            if time >= 0 {
                time as i128
            } else {
                -(time as i128)
            },
        );
    }
}

/// Every command leaves a time within the day.
pub proof fn law_commands_keep_the_time_within_a_day(c: Clock, command: Command)
    requires
        c.wf(),
    ensures
        clock_after(c, command).wf(),
{
}

/// Neither a tick nor the server takes the time out of the day.
pub proof fn law_the_time_stays_within_a_day(c: Clock, time: i64)
    requires
        c.wf(),
    ensures
        c.step().wf(),
        c.with_time(time).wf(),
{
}

/// Adding two spans to the time is adding them one after the other.
pub proof fn law_added_spans_add_up(c: Clock, a: i64, b: i64)
    requires
        i64::MIN <= a + b <= i64::MAX,
    ensures
        clock_after(clock_after(c, Command::TimeAdd(a)), Command::TimeAdd(b)) == clock_after(
            c,
            Command::TimeAdd((a + b) as i64),
        ),
{
    vstd::arithmetic::div_mod::lemma_add_mod_noop(c.world_time + a, b as int, DAY as int);
    vstd::arithmetic::div_mod::lemma_mod_twice(c.world_time + a, DAY as int);
    vstd::arithmetic::div_mod::lemma_add_mod_noop(
        (c.world_time + a) % DAY as int,
        b as int,
        DAY as int,
    );
}

} // verus!
