//! The chat box: received lines and their fading, the action bar, recall of sent
//! messages and tab completion.

use std::collections::VecDeque;
use vstd::prelude::*;
use crate::chat::component::{segments_text, segments_view, ChatSegment, SegmentModel};
use crate::chat::lang::{push_all, texts_view};
use crate::text::{chars_of, copy_text, is_whitespace, same_text, text_from, whitespace};

verus! {

/// The longest chat message a server accepts.
pub const MAX_CHAT_INPUT: usize = 100;

/// How long a received line stays visible while the chat is closed, in ns.
pub const LINE_VISIBLE: u64 = 10_000_000_000;

/// Fade-out window at the end of a line's visible time, in ns.
pub const LINE_FADE: u64 = 1_000_000_000;

/// Lines kept in memory.
pub const MAX_LINES: usize = 100;

/// Action-bar display time, in ns.
pub const ACTION_BAR_VISIBLE: u64 = 3_000_000_000;

/// One received chat line: the legacy-coded text plus the segments that keep its
/// click and hover events. `received` is the time of receipt, in ns.
#[derive(Debug)]
pub struct ChatLine {
    pub text: String,
    pub segments: Vec<ChatSegment>,
    pub received: u64,
}

/// The mathematical value of a [`ChatLine`].
pub struct LineModel {
    pub text: Seq<char>,
    pub segments: Seq<SegmentModel>,
    pub received: u64,
}

impl View for ChatLine {
    type V = LineModel;

    open spec fn view(&self) -> LineModel {
        LineModel {
            text: self.text@,
            segments: segments_view(self.segments@),
            received: self.received,
        }
    }
}

/// The value of a backlog.
pub open spec fn backlog_view(lines: Seq<ChatLine>) -> Seq<LineModel> {
    Seq::new(lines.len(), |i: int| lines[i]@)
}

#[derive(Debug)]
pub struct ChatState {
    /// Received lines, newest at the back.
    pub lines: VecDeque<ChatLine>,
    /// The action-bar text and when it was set.
    pub action_bar: Option<(String, u64)>,
    /// Messages the player sent, oldest first, for recall.
    pub sent: Vec<String>,
    /// Recall cursor: the number of sent messages means "fresh line".
    pub sent_cursor: usize,
    /// Last tab-complete candidates and the cursor into them.
    pub completions: Vec<String>,
    pub completion_cursor: usize,
}

/// How much of its fade is left to something that shows for `lasts` ns, in
/// billionths of full opacity; nothing once its time is over.
pub open spec fn opacity(now: int, since: int, lasts: int) -> Option<int> {
    let age = if now < since {
        0
    } else {
        now - since
    };
    if age >= lasts {
        None
    } else if lasts - age < LINE_FADE {
        Some(lasts - age)
    } else {
        Some(LINE_FADE as int)
    }
}

/// The lines to draw from the `n` oldest, newest first. With the chat open every
/// line shows in full; closed, lines fade, and the first one whose time is over
/// ends the list.
pub open spec fn drawn_lines(lines: Seq<LineModel>, n: int, now: int, open: bool) -> Seq<
    (Seq<char>, int),
>
    decreases n,
{
    if n <= 0 {
        Seq::empty()
    } else if open {
        seq![(lines[n - 1].text, LINE_FADE as int)] + drawn_lines(lines, n - 1, now, open)
    } else {
        match opacity(now, lines[n - 1].received as int, LINE_VISIBLE as int) {
            Some(alpha) => seq![(lines[n - 1].text, alpha)] + drawn_lines(
                lines,
                n - 1,
                now,
                open,
            ),
            None => Seq::empty(),
        }
    }
}

/// A backlog with one more line: the oldest leave once there are too many.
pub open spec fn with_line(lines: Seq<LineModel>, line: LineModel) -> Seq<LineModel> {
    let all = lines.push(line);
    if all.len() > MAX_LINES {
        all.skip(all.len() - MAX_LINES)
    } else {
        all
    }
}

pub open spec fn drawn_view(drawn: Seq<(&str, u32)>) -> Seq<(Seq<char>, int)> {
    Seq::new(drawn.len(), |i: int| (drawn[i].0@, drawn[i].1 as int))
}

fn fade(now: u64, since: u64, lasts: u64) -> (alpha: Option<u32>)
    ensures
        match alpha {
            Some(a) => opacity(now as int, since as int, lasts as int) == Some(a as int),
            None => opacity(now as int, since as int, lasts as int) is None,
        },
{
    let age: u64 = if now < since {
        0
    } else {
        now - since
    };
    if age >= lasts {
        None
    } else if lasts - age < LINE_FADE {
        Some((lasts - age) as u32)
    } else {
        Some(LINE_FADE as u32)
    }
}

impl ChatState {
    /// The invariant of the chat box.
    pub open spec fn wf(&self) -> bool {
        &&& self.lines@.len() <= MAX_LINES
        &&& self.sent_cursor <= self.sent@.len()
    }

    /// Nothing but the backlog differs.
    pub open spec fn same_but_lines(&self, other: &ChatState) -> bool {
        &&& self.action_bar == other.action_bar
        &&& self.sent == other.sent
        &&& self.sent_cursor == other.sent_cursor
        &&& self.completions == other.completions
        &&& self.completion_cursor == other.completion_cursor
    }

    /// An empty chat box.
    pub fn new() -> (chat: ChatState)
        ensures
            chat.wf(),
            chat.lines@.len() == 0,
            chat.action_bar is None,
            chat.sent@.len() == 0,
            chat.sent_cursor == 0,
            chat.completions@.len() == 0,
            chat.completion_cursor == 0,
    {
        ChatState {
            lines: VecDeque::new(),
            action_bar: None,
            sent: Vec::new(),
            sent_cursor: 0,
            completions: Vec::new(),
            completion_cursor: 0,
        }
    }

    pub fn push_line(&mut self, text: String, segments: Vec<ChatSegment>, now: u64)
        requires
            old(self).wf(),
        ensures
            final(self).wf(),
            final(self).same_but_lines(old(self)),
            backlog_view(final(self).lines@) == with_line(
                backlog_view(old(self).lines@),
                LineModel { text: text@, segments: segments_view(segments@), received: now },
            ),
    {
        let ghost before = backlog_view(self.lines@);
        let line = ChatLine { text, segments, received: now };
        let ghost value = line@;
        self.lines.push_back(line);
        assert(backlog_view(self.lines@) =~= before.push(value));
        if self.lines.len() > MAX_LINES {
            let ghost all = self.lines@;
            self.lines.pop_front();
            assert(self.lines@ =~= all.skip(1));
            assert(backlog_view(self.lines@) =~= before.push(value).skip(1));
        }
    }

    /// A received line that is plain.
    pub open spec fn plain_line(text: Seq<char>, now: u64) -> LineModel {
        LineModel {
            text,
            segments: seq![SegmentModel { text, click: None, hover: None }],
            received: now,
        }
    }

    /// Append a received line that is plain (no click or hover).
    pub fn push_message(&mut self, text: String, now: u64)
        requires
            old(self).wf(),
        ensures
            final(self).wf(),
            final(self).same_but_lines(old(self)),
            backlog_view(final(self).lines@) == with_line(
                backlog_view(old(self).lines@),
                ChatState::plain_line(text@, now),
            ),
    {
        let mut segments: Vec<ChatSegment> = Vec::new();
        segments.push(ChatSegment { text: copy_text(text.as_str()), click: None, hover: None });
        assert(segments_view(segments@) =~= seq![
            SegmentModel { text: text@, click: None, hover: None },
        ]);
        self.push_line(text, segments, now);
    }

    /// Append a received line built from segments.
    pub fn push_components(&mut self, segments: Vec<ChatSegment>, now: u64)
        requires
            old(self).wf(),
        ensures
            final(self).wf(),
            final(self).same_but_lines(old(self)),
            backlog_view(final(self).lines@) == with_line(
                backlog_view(old(self).lines@),
                (LineModel {
                    text: segments_text(segments_view(segments@)),
                    segments: segments_view(segments@),
                    received: now,
                }),
            ),
    {
        let ghost models = segments_view(segments@);
        let mut joined: Vec<char> = Vec::new();
        let mut i: usize = 0;
        while i < segments.len()
            invariant
                i <= segments@.len(),
                models == segments_view(segments@),
                joined@ == segments_text(models.take(i as int)),
            decreases segments@.len() - i,
        {
            let more = chars_of(segments[i].text.as_str());
            push_all(&mut joined, &more);
            i += 1;
            assert(models.take(i as int).drop_last() =~= models.take(i - 1));
        }
        assert(models.take(i as int) =~= models);
        let text = text_from(&joined);
        self.push_line(text, segments, now);
    }

    /// The backlog lines, oldest first.
    pub fn lines(&self) -> (lines: &VecDeque<ChatLine>)
        ensures
            *lines == self.lines,
    {
        &self.lines
    }

    pub fn set_action_bar(&mut self, text: String, now: u64)
        requires
            old(self).wf(),
        ensures
            final(self).wf(),
            *final(self) == (ChatState { action_bar: Some((text, now)), ..*old(self) }),
    {
        self.action_bar = Some((text, now));
    }

    /// What the action bar shows: its text and its fade.
    pub open spec fn bar_shown(self, now: int) -> Option<(Seq<char>, int)> {
        match self.action_bar {
            Some(set) => match opacity(now, set.1 as int, ACTION_BAR_VISIBLE as int) {
                Some(alpha) => Some((set.0@, alpha)),
                None => None,
            },
            None => None,
        }
    }

    /// The action-bar text with its fade, in billionths, if still visible.
    pub fn action_bar(&self, now: u64) -> (bar: Option<(&str, u32)>)
        ensures
            match bar {
                Some(shown) => self.bar_shown(now as int) == Some((shown.0@, shown.1 as int)),
                None => self.bar_shown(now as int) is None,
            },
    {
        match &self.action_bar {
            Some(set) => match fade(now, set.1, ACTION_BAR_VISIBLE) {
                Some(alpha) => Some((set.0.as_str(), alpha)),
                None => None,
            },
            None => None,
        }
    }

    /// Lines to draw, newest first, each with its fade in billionths.
    pub fn visible_lines(&self, now: u64, open: bool) -> (drawn: Vec<(&str, u32)>)
        ensures
            drawn_view(drawn@) == drawn_lines(
                backlog_view(self.lines@),
                self.lines@.len() as int,
                now as int,
                open,
            ),
    {
        let ghost lines = backlog_view(self.lines@);
        let ghost whole = drawn_lines(lines, lines.len() as int, now as int, open);
        let mut drawn: Vec<(&str, u32)> = Vec::new();
        let mut n: usize = self.lines.len();
        let mut going = true;
        assert(drawn_view(drawn@) + whole =~= whole);
        while going && n > 0
            invariant
                n <= self.lines@.len(),
                lines == backlog_view(self.lines@),
                whole == drawn_view(drawn@) + if going {
                    drawn_lines(lines, n as int, now as int, open)
                } else {
                    Seq::empty()
                },
            decreases n, if going { 1int } else { 0int },
        {
            let ghost before = drawn_view(drawn@);
            let line = &self.lines[n - 1];
            let alpha = if open {
                Some(LINE_FADE as u32)
            } else {
                fade(now, line.received, LINE_VISIBLE)
            };
            match alpha {
                Some(a) => {
                    let text = line.text.as_str();
                    drawn.push((text, a));
                    n -= 1;
                    assert(drawn_view(drawn@) =~= before.push((text@, a as int)));
                    assert(before + (seq![(text@, a as int)] + drawn_lines(
                        lines,
                        n as int,
                        now as int,
                        open,
                    )) =~= drawn_view(drawn@) + drawn_lines(lines, n as int, now as int, open));
                },
                None => {
                    going = false;
                },
            }
        }
        assert(drawn_view(drawn@) + Seq::<(Seq<char>, int)>::empty() =~= drawn_view(drawn@));
        drawn
    }

    /// A message was sent: it is kept, unless it repeats the last one, and recalling starts
    /// over.
    pub open spec fn sent_kept(self, message: Seq<char>, after: ChatState) -> bool {
        &&& texts_view(after.sent@) == with_sent(texts_view(self.sent@), message)
        &&& after == ChatState {
            sent: after.sent,
            sent_cursor: after.sent@.len() as usize,
            ..self
        }
    }

    /// Recalling starts over.
    pub open spec fn recall_over(self) -> ChatState {
        ChatState { sent_cursor: self.sent@.len() as usize, ..self }
    }

    /// The message before the recalled one, and the chat after it.
    pub open spec fn before_recalled(self) -> (Option<Seq<char>>, ChatState) {
        if self.sent_cursor == 0 {
            (None, self)
        } else {
            (
                Some(self.sent@[self.sent_cursor - 1]@),
                ChatState { sent_cursor: (self.sent_cursor - 1) as usize, ..self },
            )
        }
    }

    /// The message after the recalled one, and the chat after it.
    pub open spec fn after_recalled(self) -> (Option<Seq<char>>, ChatState) {
        if self.sent_cursor >= self.sent@.len() {
            (None, self)
        } else {
            (
                Some(recalled(self.sent@, self.sent_cursor + 1)),
                ChatState { sent_cursor: (self.sent_cursor + 1) as usize, ..self },
            )
        }
    }

    /// Record a sent message and reset the recall cursor. A repetition of the last
    /// message is not recorded again.
    pub fn record_sent(&mut self, message: String)
        requires
            old(self).wf(),
        ensures
            final(self).wf(),
            old(self).sent_kept(message@, *final(self)),
    {
        let n = self.sent.len();
        let ghost before = texts_view(self.sent@);
        let repeated = n > 0 && same_text(self.sent[n - 1].as_str(), message.as_str());
        if !repeated {
            let ghost value = message@;
            self.sent.push(message);
            assert(texts_view(self.sent@) =~= before.push(value));
        }
        self.sent_cursor = self.sent.len();
    }

    /// Reset the recall cursor (called when the chat box opens).
    pub fn reset_recall(&mut self)
        requires
            old(self).wf(),
        ensures
            final(self).wf(),
            *final(self) == old(self).recall_over(),
    {
        self.sent_cursor = self.sent.len();
    }

    /// Recall the previous sent message.
    pub fn recall_previous(&mut self) -> (message: Option<String>)
        requires
            old(self).wf(),
        ensures
            final(self).wf(),
            old(self).before_recalled() == (
                match message {
                    Some(m) => Some(m@),
                    None => None,
                },
                *final(self),
            ),
    {
        if self.sent_cursor == 0 {
            return None;
        }
        self.sent_cursor = self.sent_cursor - 1;
        Some(copy_text(self.sent[self.sent_cursor].as_str()))
    }

    /// Recall the next sent message, or an empty line past the newest.
    pub fn recall_next(&mut self) -> (message: Option<String>)
        requires
            old(self).wf(),
        ensures
            final(self).wf(),
            old(self).after_recalled() == (
                match message {
                    Some(m) => Some(m@),
                    None => None,
                },
                *final(self),
            ),
    {
        if self.sent_cursor >= self.sent.len() {
            return None;
        }
        self.sent_cursor = self.sent_cursor + 1;
        if self.sent_cursor < self.sent.len() {
            Some(copy_text(self.sent[self.sent_cursor].as_str()))
        } else {
            Some(String::new())
        }
    }

    /// Store fresh tab-complete candidates (resets the cycle cursor).
    pub fn set_completions(&mut self, matches: Vec<String>)
        requires
            old(self).wf(),
        ensures
            final(self).wf(),
            *final(self) == (ChatState {
                completions: matches,
                completion_cursor: 0,
                ..*old(self)
            }),
    {
        self.completions = matches;
        self.completion_cursor = 0;
    }

    /// The next completion candidate, and the chat after it.
    pub open spec fn completed(self) -> (Option<Seq<char>>, ChatState) {
        let n = self.completions@.len() as int;
        if n == 0 {
            (None, self)
        } else {
            (
                Some(self.completions@[self.completion_cursor as int % n]@),
                ChatState { completion_cursor: (self.completion_cursor + 1) as usize, ..self },
            )
        }
    }

    /// The next completion candidate, advancing the cycle so that repeated calls
    /// walk through the list. `None` when there are no candidates.
    pub fn next_completion(&mut self) -> (candidate: Option<String>)
        requires
            old(self).wf(),
            old(self).completion_cursor < usize::MAX,
        ensures
            final(self).wf(),
            old(self).completed() == (
                match candidate {
                    Some(c) => Some(c@),
                    None => None,
                },
                *final(self),
            ),
    {
        let n = self.completions.len();
        if n == 0 {
            return None;
        }
        let index: usize = self.completion_cursor % n;
        self.completion_cursor = self.completion_cursor + 1;
        Some(copy_text(self.completions[index].as_str()))
    }

    /// Clear stored candidates.
    pub fn clear_completions(&mut self)
        requires
            old(self).wf(),
        ensures
            final(self).wf(),
            final(self).completions@.len() == 0,
            *final(self) == (ChatState {
                completions: final(self).completions,
                completion_cursor: 0,
                ..*old(self)
            }),
    {
        self.completions.clear();
        self.completion_cursor = 0;
    }

    pub fn has_completions(&self) -> (yes: bool)
        ensures
            yes == (self.completions@.len() > 0),
    {
        self.completions.len() > 0
    }
}

impl Default for ChatState {
    fn default() -> (chat: ChatState)
        ensures
            chat.wf(),
            chat.lines@.len() == 0,
            chat.action_bar is None,
            chat.sent@.len() == 0,
            chat.sent_cursor == 0,
            chat.completions@.len() == 0,
            chat.completion_cursor == 0,
    {
        ChatState::new()
    }
}

/// The sent history with one more message.
pub open spec fn with_sent(sent: Seq<Seq<char>>, message: Seq<char>) -> Seq<Seq<char>> {
    if sent.len() > 0 && sent.last() == message {
        sent
    } else {
        sent.push(message)
    }
}

/// What stands at a recall position: a sent message, or a fresh line past them.
pub open spec fn recalled(sent: Seq<String>, at: int) -> Seq<char> {
    if 0 <= at < sent.len() {
        sent[at]@
    } else {
        Seq::empty()
    }
}

// ── Completing a word ─────────────────────────────────────────────────────

/// Where the last token of a text starts: after its last white space.
pub open spec fn token_start(text: Seq<char>) -> int
    decreases text.len(),
{
    if text.len() == 0 || whitespace(text.last()) {
        text.len() as int
    } else {
        token_start(text.drop_last())
    }
}

/// Replace the last whitespace-separated token of `text` with `completion`. An empty
/// text, or one that ends in white space, gets the completion as a new token.
pub fn complete_word(text: &str, completion: &str) -> (completed: String)
    ensures
        completed@ == text@.take(token_start(text@)) + completion@,
{
    let chars = chars_of(text);
    let mut n: usize = chars.len();
    assert(chars@.take(n as int) =~= chars@);
    while n > 0 && !is_whitespace(chars[n - 1])
        invariant
            n <= chars@.len(),
            chars@ == text@,
            token_start(chars@) == token_start(chars@.take(n as int)),
        decreases n,
    {
        assert(chars@.take(n as int).drop_last() =~= chars@.take(n - 1));
        n -= 1;
    }
    assert(n > 0 ==> whitespace(chars@.take(n as int).last()));
    assert(token_start(chars@) == n);
    let mut out: Vec<char> = Vec::new();
    let mut i: usize = 0;
    while i < n
        invariant
            i <= n <= chars@.len(),
            out@ == chars@.take(i as int),
        decreases n - i,
    {
        out.push(chars[i]);
        i += 1;
        assert(chars@.take(i as int) =~= chars@.take(i - 1).push(chars@[i - 1]));
    }
    let word = chars_of(completion);
    push_all(&mut out, &word);
    text_from(&out)
}

// ── Laws ──────────────────────────────────────────────────────────────────

/// The backlog never holds more than its limit, and the newest line is last.
pub proof fn law_backlog_is_bounded(lines: Seq<LineModel>, line: LineModel)
    requires
        lines.len() <= MAX_LINES,
    ensures
        0 < with_line(lines, line).len() <= MAX_LINES,
        with_line(lines, line).last() == line,
{
}

/// The message last recorded is the first one recalled.
pub proof fn law_recall_gives_back_the_last_message(sent: Seq<Seq<char>>, message: Seq<char>)
    ensures
        with_sent(sent, message).len() > 0,
        with_sent(sent, message).last() == message,
{
}

/// With the chat open every line is drawn, newest first, at full opacity.
pub proof fn law_open_chat_draws_everything(lines: Seq<LineModel>, n: int, now: int)
    requires
        0 <= n <= lines.len(),
    ensures
        drawn_lines(lines, n, now, true).len() == n,
        forall|i: int|
            0 <= i < n ==> #[trigger] drawn_lines(lines, n, now, true)[i] == (
                lines[n - 1 - i].text,
                LINE_FADE as int,
            ),
    decreases n,
{
    if n > 0 {
        law_open_chat_draws_everything(lines, n - 1, now);
    }
}

/// With the chat closed exactly the lines younger than their visible time are
/// drawn, when they were received in order.
pub proof fn law_closed_chat_draws_fresh_lines(lines: Seq<LineModel>, n: int, now: int)
    requires
        0 <= n <= lines.len(),
        forall|i: int, j: int|
            0 <= i <= j < lines.len() ==> (#[trigger] lines[i]).received <= (
            #[trigger] lines[j]).received,
    ensures
        drawn_lines(lines, n, now, false).len() <= n,
        forall|i: int|
            0 <= i < n ==> (i < drawn_lines(lines, n, now, false).len() <==> now
                - #[trigger] lines[n - 1 - i].received < LINE_VISIBLE),
    decreases n,
{
    if n > 0 {
        law_closed_chat_draws_fresh_lines(lines, n - 1, now);
        let rest = drawn_lines(lines, n - 1, now, false);
        assert forall|i: int| 0 <= i < n implies (i < drawn_lines(lines, n, now, false).len()
            <==> now - #[trigger] lines[n - 1 - i].received < LINE_VISIBLE) by {
            if i > 0 {
                assert(lines[n - 1 - 1 - (i - 1)] == lines[n - 1 - i]);
                assert(lines[n - 1 - i].received <= lines[n - 1].received);
            }
        }
    }
}

/// Completing replaces only the last token: a completion that is itself one token
/// can be applied again without further effect.
pub proof fn law_completing_twice_is_completing_once(text: Seq<char>, completion: Seq<char>)
    requires
        forall|i: int| 0 <= i < completion.len() ==> !whitespace(#[trigger] completion[i]),
    ensures
        ({
            let once = text.take(token_start(text)) + completion;
            once.take(token_start(once)) + completion == once
        }),
{
    lemma_token_start(text);
    let head = text.take(token_start(text));
    let once = head + completion;
    lemma_token_start_of(head, completion);
    assert(once.take(token_start(once)) =~= head);
}

proof fn lemma_token_start(text: Seq<char>)
    ensures
        0 <= token_start(text) <= text.len(),
        token_start(text) > 0 ==> whitespace(text[token_start(text) - 1]),
    decreases text.len(),
{
    if text.len() > 0 && !whitespace(text.last()) {
        lemma_token_start(text.drop_last());
    }
}

proof fn lemma_token_start_of(head: Seq<char>, word: Seq<char>)
    requires
        head.len() == 0 || whitespace(head.last()),
        forall|i: int| 0 <= i < word.len() ==> !whitespace(#[trigger] word[i]),
    ensures
        token_start(head + word) == head.len(),
    decreases word.len(),
{
    let whole = head + word;
    if word.len() == 0 {
        assert(whole =~= head);
    } else {
        assert(whole.last() == word[word.len() - 1]);
        assert(whole.drop_last() =~= head + word.drop_last());
        assert forall|i: int| 0 <= i < word.drop_last().len() implies !whitespace(
            #[trigger] word.drop_last()[i],
        ) by {
            assert(word.drop_last()[i] == word[i]);
        }
        lemma_token_start_of(head, word.drop_last());
    }
}

} // verus!
