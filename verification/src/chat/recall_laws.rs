//! What is kept of the chat: plain lines, the action bar, and the messages to recall.

use vstd::prelude::*;
use crate::chat::lang::texts_view;
use crate::chat::state::ChatState;

verus! {

/// A plain line shows its text in one piece that cannot be clicked and says nothing more.
pub proof fn law_plain_lines_cannot_be_clicked(text: Seq<char>, now: u64)
    ensures
        ({
            let line = ChatState::plain_line(text, now);
            &&& line.text == text && line.received == now
            &&& line.segments.len() == 1
            &&& line.segments[0].text == text
            &&& line.segments[0].click is None && line.segments[0].hover is None
        }),
{
}

/// The action bar shows its text for three seconds, in full until the last of them, then
/// fading; before it was set it shows nothing.
pub proof fn law_the_action_bar_lasts_three_seconds(c: ChatState, now: u64)
    ensures
        c.action_bar is None ==> c.bar_shown(now as int) is None,
        c.action_bar matches Some(set) ==> {
            &&& now >= set.1 + 3_000_000_000 ==> c.bar_shown(now as int) is None
            &&& now < set.1 + 3_000_000_000 ==> (c.bar_shown(now as int) matches Some(shown)
                && shown.0 == set.0@)
            &&& now <= set.1 + 2_000_000_000 ==> (c.bar_shown(now as int) matches Some(shown)
                && shown.1 == 1_000_000_000)
            &&& set.1 + 2_000_000_000 <= now < set.1 + 3_000_000_000 ==> (c.bar_shown(
                now as int,
            ) matches Some(shown) && now + shown.1 == set.1 + 3_000_000_000)
        },
{
}

/// The message that was just sent is the first to be recalled, and the line is empty again
/// past it.
pub proof fn law_what_was_sent_is_recalled_first(before: ChatState, message: Seq<char>, after: ChatState)
    requires
        before.wf(),
        after.wf(),
        before.sent_kept(message, after),
    ensures
        after.before_recalled().0 == Some(message),
        after.after_recalled() == (None::<Seq<char>>, after),
        after.lines == before.lines && after.action_bar == before.action_bar,
{
    let sent = texts_view(after.sent@);
    assert(after.sent.len() == after.sent@.len());
    assert(sent.last() == message);
    assert(after.sent@.len() == sent.len());
    assert(after.sent@[after.sent@.len() - 1]@ == message);
}

/// Recalling starts over at the message that was sent last.
pub proof fn law_recalling_starts_over(c: ChatState)
    requires
        c.wf(),
    ensures
        c.recall_over().recall_over() == c.recall_over(),
        c.sent@.len() == 0 ==> c.recall_over().before_recalled().0 is None,
        c.sent@.len() > 0 ==> c.recall_over().before_recalled().0 == Some(
            c.sent@[c.sent@.len() - 1]@,
        ),
        c.recall_over().after_recalled().0 is None,
        c.recall_over().sent == c.sent && c.recall_over().lines == c.lines,
{
    assert(c.sent.len() == c.sent@.len());
}

/// Going back and forth again leads to where one was; before the first message and past the
/// last there is nothing.
pub proof fn law_recalling_goes_back_and_forth(c: ChatState)
    requires
        c.wf(),
    ensures
        c.sent_cursor > 0 ==> c.before_recalled().1.after_recalled().1 == c,
        c.sent_cursor < c.sent@.len() ==> c.after_recalled().1.before_recalled().1 == c,
        0 < c.sent_cursor < c.sent@.len() ==> c.after_recalled().1.before_recalled().0 == Some(
            c.sent@[c.sent_cursor as int]@,
        ),
        c.sent_cursor > 0 ==> c.before_recalled().0 == Some(c.sent@[c.sent_cursor - 1]@),
        c.before_recalled().0 is None <==> c.sent_cursor == 0,
        c.after_recalled().0 is None <==> c.sent_cursor == c.sent@.len(),
        c.sent_cursor + 1 == c.sent@.len() ==> c.after_recalled().0 == Some(Seq::<char>::empty()),
{
    assert(c.sent.len() == c.sent@.len());
    if c.sent_cursor + 1 == c.sent@.len() {
        assert(c.after_recalled().0->0 =~= Seq::<char>::empty());
    }
}

/// Completions come one after the other, each in its turn, and start over after the last;
/// without any there is none.
pub proof fn law_completions_come_in_turn(c: ChatState)
    requires
        c.wf(),
        c.completion_cursor < usize::MAX - 1,
    ensures
        c.completions@.len() == 0 ==> c.completed() == (None::<Seq<char>>, c),
        c.completion_cursor < c.completions@.len() ==> c.completed().0 == Some(
            c.completions@[c.completion_cursor as int]@,
        ),
        c.completion_cursor + 1 < c.completions@.len() ==> c.completed().1.completed().0 == Some(
            c.completions@[c.completion_cursor + 1]@,
        ),
        c.completion_cursor == c.completions@.len() && c.completions@.len() > 0
            ==> c.completed().0 == Some(c.completions@[0]@),
        c.completed().1.completions == c.completions && c.completed().1.sent == c.sent,
{
    let n = c.completions@.len() as int;
    let i = c.completion_cursor as int;
    if i < n {
        vstd::arithmetic::div_mod::lemma_small_mod(i as nat, n as nat);
    }
    if i + 1 < n {
        vstd::arithmetic::div_mod::lemma_small_mod((i + 1) as nat, n as nat);
    }
    if i == n && n > 0 {
        vstd::arithmetic::div_mod::lemma_mod_self_0(n);
    }
}

} // verus!
