//! What ticks and keys are for: movement, flight and sprints, the hand, titles, the clock
//! and commands.

use vstd::prelude::*;
use crate::item::ItemModel;
use crate::packets::ServerboundPacket;
use crate::text::{decimal, number_of};
use super::commands::{answer_to, clock_after, command_of, sky_after, Clock, Command, Sky};
use super::hand::EquippedModel;
use super::input::{InputState, Key};
use super::motion::{abilities_packet, Footing, Motion, PlayerCapabilities};
use super::state::{ticked, GameState, TickStart};
use super::title::{spec_alpha, TitleModel};
use super::weather::Weather;

verus! {

// ── Keys ──────────────────────────────────────────────────────────────────

/// A key is down while it is held and up after it is let go, and each moves only itself.
pub proof fn law_keys_move_only_themselves(input: InputState, pressed: bool)
    ensures
        input.after(Key::Forward, pressed).forward == pressed,
        input.after(Key::Back, pressed).backward == pressed,
        input.after(Key::Left, pressed).left == pressed,
        input.after(Key::Right, pressed).right == pressed,
        input.after(Key::Jump, pressed).jump == pressed,
        input.after(Key::Sneak, pressed).sneak == pressed,
        input.after(Key::TurnLeft, pressed).turn_left == pressed,
        input.after(Key::TurnRight, pressed).turn_right == pressed,
        input.after(Key::LookUp, pressed).look_up == pressed,
        input.after(Key::LookDown, pressed).look_down == pressed,
        input.after(Key::Forward, pressed).backward == input.backward,
        input.after(Key::Back, pressed).forward == input.forward,
        input.after(Key::Left, pressed).right == input.right,
        input.after(Key::Right, pressed).left == input.left,
        input.after(Key::Jump, pressed).sneak == input.sneak,
        input.after(Key::Sneak, pressed).jump == input.jump,
        input.after(Key::Sprint, false) == input,
        input.after(Key::Sprint, true).sprint != input.sprint,
        input.after(Key::Unbound, pressed) == input,
{
}

/// Opposite keys cancel; alone, forward and left count one, backward and right one less
/// than nothing.
pub proof fn law_opposite_keys_cancel(input: InputState)
    ensures
        input.forward == input.backward <==> input.spec_forward_axis() == 0,
        input.forward && !input.backward ==> input.spec_forward_axis() == 1,
        input.backward && !input.forward ==> input.spec_forward_axis() == -1,
        input.left == input.right <==> input.spec_strafe_axis() == 0,
        input.left && !input.right ==> input.spec_strafe_axis() == 1,
        input.right && !input.left ==> input.spec_strafe_axis() == -1,
{
}

/// With every key let go the player stands still.
pub proof fn law_released_keys_stand_still()
    ensures
        InputState::released().spec_forward_axis() == 0,
        InputState::released().spec_strafe_axis() == 0,
        !InputState::released().jump,
        !InputState::released().sneak,
        !InputState::released().sprint,
{
}

// ── Flight and sprints ────────────────────────────────────────────────────

/// Flight changes exactly on a fresh press of the jump key within seven ticks of the last,
/// where flight is allowed; the server is then owed the new abilities.
pub proof fn law_flight_changes_on_a_second_press(m: Motion, jump: bool)
    ensures
        ({
            let after = m.fly_step(jump);
            let pressed = jump && !m.was_jump_down && m.capabilities.allow_flying;
            &&& after.was_jump_down == jump
            &&& after.capabilities.flying != m.capabilities.flying <==> pressed
                && m.fly_toggle_timer > 0
            &&& pressed && m.fly_toggle_timer > 0 ==> after.abilities_dirty
                && after.fly_toggle_timer == 0
            &&& pressed && m.fly_toggle_timer == 0 ==> after.fly_toggle_timer == 6
            &&& !pressed && m.fly_toggle_timer > 0 ==> after.fly_toggle_timer
                == m.fly_toggle_timer - 1
            &&& !pressed && m.fly_toggle_timer == 0 ==> after.fly_toggle_timer == 0
            &&& after.capabilities.flying == m.capabilities.flying ==> after.abilities_dirty
                == m.abilities_dirty
            &&& after.capabilities.allow_flying == m.capabilities.allow_flying
            &&& after.sprint_toggle_timer == m.sprint_toggle_timer
        }),
{
}

/// The ground ends flight, and the server is told; in the air flight goes on.
pub proof fn law_the_ground_ends_flight(m: Motion, on_ground: bool)
    ensures
        on_ground ==> !m.landed(on_ground).capabilities.flying,
        on_ground && m.capabilities.flying ==> m.landed(on_ground).abilities_dirty,
        !on_ground || !m.capabilities.flying ==> m.landed(on_ground) == m,
{
}

/// Abilities are reported as they are, each in its place.
pub proof fn law_abilities_are_reported(c: PlayerCapabilities)
    ensures
        abilities_packet(c) matches ServerboundPacket::PlayerAbilities {
            invulnerable,
            flying,
            allow_flying,
            creative,
            fly_speed,
            walk_speed,
        } && invulnerable == c.invulnerable && flying == c.flying && allow_flying == c.allow_flying
            && creative == c.creative && fly_speed == c.fly_speed && walk_speed == c.walk_speed,
{
}

/// Holding the sprint key sprints whoever runs forward, clear of walls and with more than
/// six points of food, or allowed to fly; nobody else.
pub proof fn law_the_sprint_key_sprints(
    m: Motion,
    sprinting: bool,
    input: InputState,
    f: Footing,
)
    requires
        input.sprint,
    ensures
        m.sprints(sprinting, input, f) <==> input.forward && !input.backward && !input.sneak
            && !f.using_item && !f.collided_horizontally && (f.food > 6
            || m.capabilities.allow_flying),
{
}

/// A sprint goes on while the player runs; standing, walking back, sneaking, using an item, a
/// wall or hunger end it, and nothing else.
pub proof fn law_sprints_end_for_a_reason(m: Motion, input: InputState, f: Footing)
    ensures
        m.sprints(true, input, f) <==> input.forward && !input.backward && !input.sneak
            && !f.using_item && !f.collided_horizontally && (f.food > 6
            || m.capabilities.allow_flying),
{
}

/// Without the sprint key a sprint starts on the second fresh press on the ground while the
/// window of the first still runs; the first press opens it for seven ticks.
pub proof fn law_the_second_press_sprints(m: Motion, input: InputState, f: Footing)
    requires
        m.wf(),
        !input.sprint,
        f.on_ground,
        f.food > 6,
        !f.using_item,
        !f.collided_horizontally,
        input.forward && !input.backward && !input.sneak,
        !m.prev_forward && !m.prev_sneak,
    ensures
        m.sprints(false, input, f) <==> m.sprint_toggle_timer > 1,
        m.sprint_toggle_timer <= 1 ==> m.sprint_step(false, input, f).sprint_toggle_timer == 7,
        m.sprint_toggle_timer > 1 ==> m.sprint_step(false, input, f).sprint_toggle_timer
            == m.sprint_toggle_timer - 1,
        m.sprint_step(false, input, f).prev_forward,
{
}

/// A press while the key was down already, in the air, or after sneaking starts nothing.
pub proof fn law_stale_presses_do_not_sprint(m: Motion, input: InputState, f: Footing)
    requires
        !input.sprint,
        m.prev_forward || m.prev_sneak || !f.on_ground,
    ensures
        !m.sprints(false, input, f),
{
}

// ── The hand ──────────────────────────────────────────────────────────────

/// The hand moves by at most four tenths a tick: up while it shows what is selected, down
/// otherwise, and takes the new item only once it is down.
pub proof fn law_the_hand_is_lowered_to_change(
    hand: EquippedModel,
    current: Option<ItemModel>,
    selected: i32,
)
    requires
        hand.wf(),
    ensures
        ({
            let after = hand.step(current, selected);
            let same = hand.slot == selected && hand.item == current;
            &&& after.previous == hand.progress
            &&& same ==> after.item == hand.item && after.progress >= hand.progress
            &&& same && hand.progress <= 6 ==> after.progress == hand.progress + 4
            &&& same && hand.progress >= 6 ==> after.progress == 10
            &&& !same && hand.progress >= 5 ==> after.progress == hand.progress - 4 && after.item
                == hand.item && after.slot == hand.slot
            &&& !same && hand.progress <= 4 ==> after.progress == 0 && after.item == current
                && after.slot == selected
        }),
{
}

// ── Titles ────────────────────────────────────────────────────────────────

/// A title fades in over its first ticks, shows in full, and fades out over its last: full
/// between the fades, and as many parts as ticks are left, or gone, within them.
pub proof fn law_titles_fade_in_and_out(t: TitleModel)
    requires
        t.wf(),
        0 < t.timer <= t.total(),
    ensures
        ({
            let (num, den) = spec_alpha(t, 0);
            &&& 0 <= num <= den && den > 0
            &&& t.fade_out < t.timer <= t.fade_out + t.stay ==> num == den
            &&& 0 < t.timer <= t.fade_out ==> num * t.fade_out == t.timer * den
            &&& t.fade_in > 0 && t.timer > t.fade_out + t.stay ==> num * t.fade_in == (t.total()
                - t.timer) * den
        }),
{
    let (num, den) = spec_alpha(t, 0);
    let k = 1_000_000_000int;
    if 0 < t.timer <= t.fade_out {
        let (a, b) = (t.timer, t.fade_out);
        assert(0 <= a * k <= b * k && (a * k) * b == a * (b * k)) by (nonlinear_arith)
            requires
                0 < a <= b,
                k == 1_000_000_000,
        ;
    } else if t.fade_in > 0 && t.timer > t.fade_out + t.stay {
        let (a, b, n, m) = (t.total() - t.timer, t.fade_in, t.total(), t.timer);
        assert(n * k - m * k == a * k && 0 <= a * k <= b * k && (a * k) * b == a * (b * k))
            by (nonlinear_arith)
            requires
                0 <= a <= b,
                a == n - m,
                k == 1_000_000_000,
        ;
    }
}

/// Within a tick of the fade out a title only grows fainter, within one of the fade in only
/// clearer.
pub proof fn law_titles_change_within_a_tick(t: TitleModel, early: int, late: int)
    requires
        t.wf(),
        0 < t.timer <= t.total(),
        0 <= early <= late,
    ensures
        spec_alpha(t, early).1 == spec_alpha(t, late).1,
        t.timer <= t.fade_out ==> spec_alpha(t, late).0 <= spec_alpha(t, early).0,
        t.timer > t.fade_out ==> spec_alpha(t, early).0 <= spec_alpha(t, late).0,
{
}

/// What is all but transparent, has no text or no time left is not shown; a clear title with
/// text is.
pub proof fn law_clear_titles_are_shown(t: TitleModel, partial: int)
    requires
        t.wf(),
    ensures
        t.shown(partial) ==> t.timer > 0 && (t.title.len() > 0 || t.subtitle.len() > 0),
        t.fade_out < t.timer <= t.fade_out + t.stay && t.title.len() > 0 ==> t.shown(partial),
{
}

// ── The clock and commands ────────────────────────────────────────────────

/// Time passes by its rate, within a day, while it runs; else it stands still.
pub proof fn law_time_passes_by_its_rate(c: Clock)
    requires
        c.wf(),
    ensures
        0 <= c.step().world_time < 24000,
        !c.daylight_cycle ==> c.step() == c,
        c.daylight_cycle ==> c.step().world_time == (c.world_time + c.time_rate) % 24000,
        c.step().time_rate == c.time_rate,
        c.step().daylight_cycle == c.daylight_cycle,
{
}

/// Commands set the clock: to a time of the day, on by a span, or to another rate, which is
/// never negative; other commands leave it.
pub proof fn law_commands_set_the_clock(c: Clock, n: i64)
    ensures
        clock_after(c, Command::TimeSet(n)).world_time == n as int % 24000,
        clock_after(c, Command::TimeSet(n)).time_rate == c.time_rate,
        clock_after(c, Command::TimeAdd(n)).world_time == (c.world_time + n) % 24000,
        clock_after(c, Command::TimeAdd(n)).time_rate == c.time_rate,
        n >= 0 ==> clock_after(c, Command::TimeRate(n)).time_rate == n,
        n < 0 ==> clock_after(c, Command::TimeRate(n)).time_rate == 0,
        clock_after(c, Command::TimeRate(n)).world_time == c.world_time,
        clock_after(c, Command::Unknown) == c,
        clock_after(c, Command::Strike) == c,
        clock_after(c, Command::Sky(Sky::Rain)) == c,
{
}

/// Commands set the weather: rain and thunder bring rain, only thunder brings thunder, a
/// clear sky ends both, and snow falls in place of rain until told otherwise.
pub proof fn law_commands_set_the_weather(w: Weather, n: i64)
    ensures
        !sky_after(w, Command::Sky(Sky::Clear)).raining,
        !sky_after(w, Command::Sky(Sky::Clear)).thundering,
        !sky_after(w, Command::Sky(Sky::Clear)).force_snow,
        sky_after(w, Command::Sky(Sky::Rain)).raining,
        !sky_after(w, Command::Sky(Sky::Rain)).force_snow,
        sky_after(w, Command::Sky(Sky::Rain)).thundering == w.thundering,
        sky_after(w, Command::Sky(Sky::Snow)).raining,
        sky_after(w, Command::Sky(Sky::Snow)).force_snow,
        sky_after(w, Command::Sky(Sky::Thunder)).raining,
        sky_after(w, Command::Sky(Sky::Thunder)).thundering,
        sky_after(w, Command::TimeSet(n)) == w,
        sky_after(w, Command::Strike) == w,
        sky_after(w, Command::Sky(Sky::Thunder)).rain == w.rain,
        sky_after(w, Command::Sky(Sky::Clear)).rain == w.rain,
{
}

/// Words are read as the commands they are: the time is set to a named part of the day or a
/// number, changed by a number, or its rate is; the weather is one of four, or a strike.
pub proof fn law_words_are_commands(word: Seq<char>)
    ensures
        number_of(word) matches Some(n) ==> (i64::MIN <= n <= i64::MAX ==> {
            &&& command_of(seq!["time"@, "add"@, word]) == Command::TimeAdd(n as i64)
            &&& command_of(seq!["time"@, "rate"@, word]) == Command::TimeRate(n as i64)
        }),
        number_of(word) is None ==> command_of(seq!["time"@, "add"@, word]) == Command::TimeAddUsage
            && command_of(seq!["time"@, "rate"@, word]) == Command::TimeRateUsage,
        command_of(seq!["time"@, "set"@, "day"@]) == Command::TimeSet(1000),
        command_of(seq!["time"@, "set"@, "noon"@]) == Command::TimeSet(6000),
        command_of(seq!["time"@, "set"@, "night"@]) == Command::TimeSet(13000),
        command_of(seq!["time"@, "set"@, "midnight"@]) == Command::TimeSet(18000),
        command_of(seq!["weather"@, "clear"@]) == Command::Sky(Sky::Clear),
        command_of(seq!["weather"@, "rain"@]) == Command::Sky(Sky::Rain),
        command_of(seq!["weather"@, "snow"@]) == Command::Sky(Sky::Snow),
        command_of(seq!["weather"@, "thunder"@]) == Command::Sky(Sky::Thunder),
        command_of(seq!["weather"@, "strike"@]) == Command::Strike,
        command_of(seq!["weather"@, word, word]) == Command::WeatherUsage,
        command_of(seq!["time"@]) == Command::TimeUsage,
        word != "time"@ && word != "weather"@ ==> command_of(seq![word]) == Command::Unknown,
        command_of(Seq::empty()) == Command::Unknown,
{
    reveal_strlit("time");
    reveal_strlit("weather");
    reveal_strlit("set");
    reveal_strlit("add");
    reveal_strlit("rate");
    reveal_strlit("day");
    reveal_strlit("noon");
    reveal_strlit("night");
    reveal_strlit("midnight");
    reveal_strlit("clear");
    reveal_strlit("rain");
    reveal_strlit("snow");
    reveal_strlit("thunder");
    reveal_strlit("strike");
    assert("set"@.len() == 3 && "add"@.len() == 3 && "rate"@.len() == 4);
    assert("set"@[0] == 's' && "add"@[0] == 'a');
    assert("time"@.len() == 4 && "weather"@.len() == 7);
    assert("day"@.len() == 3 && "noon"@.len() == 4 && "night"@.len() == 5 && "midnight"@.len()
        == 8);
    assert("clear"@.len() == 5 && "rain"@.len() == 4 && "snow"@.len() == 4 && "thunder"@.len() == 7
        && "strike"@.len() == 6);
    assert("rain"@[0] == 'r' && "snow"@[0] == 's');
}

/// Every command but a strike is answered, and the answers say what was done.
pub proof fn law_commands_are_answered(cmd: Seq<char>, n: i64, c: Clock)
    ensures
        answer_to(cmd, Command::TimeSet(n), c) == "Set the time to "@ + decimal(
            c.world_time as int,
        ),
        answer_to(cmd, Command::TimeRate(n), c) == "Day/night rate set to "@ + decimal(
            c.time_rate as int,
        ) + "x"@,
        answer_to(cmd, Command::TimeAdd(n), c) == "Added "@ + decimal(n as int)
            + " to the time (now "@ + decimal(c.world_time as int) + ")"@,
        answer_to(cmd, Command::Unknown, c) == "Unknown command: /"@ + cmd,
{
}

// ── The whole tick ────────────────────────────────────────────────────────

/// A tick counts once, holds the player still if a teleport came and only then, and leaves
/// windows, terrain, chat and what the server said of the player as they are.
pub proof fn law_ticks_leave_what_does_not_run(
    before: GameState,
    boss: bool,
    start: TickStart,
    after: GameState,
)
    requires
        ticked(before, boss, start, after),
        before.vitals.hud_update_counter < i32::MAX,
    ensures
        after.vitals.hud_update_counter == before.vitals.hud_update_counter + 1,
        after.vitals.health == before.vitals.health,
        after.vitals.food == before.vitals.food,
        after.vitals.health_update_counter == before.vitals.health_update_counter,
        start.frozen == before.motion.freeze_movement_after_teleport,
        !after.motion.freeze_movement_after_teleport,
        after.session == before.session,
        after.windows == before.windows,
        after.terrain == before.terrain,
        after.chat == before.chat,
        after.tables == before.tables,
        after.fixtures == before.fixtures,
        after.input == before.input,
        after.lightning.count == before.lightning.count,
        after.hands@.selected_slot == before.hands@.selected_slot,
{
    assert(after.vitals@.hud_update_counter == before.vitals.hud_update_counter.wrapping_add(1));
    assert(after.vitals@.health == before.vitals@.health);
    assert(after.vitals@.food == before.vitals@.food);
    assert(after.vitals@.health_update_counter == before.vitals@.health_update_counter);
}

} // verus!
