//! The chat box: its keys and the clickable parts of the lines above it.

use vstd::prelude::*;
use crate::chat::component::{ClickAction, ClickEvent};
use crate::chat::state::{complete_word, recalled, token_start, ChatState};
use crate::packets::ServerboundPacket;
use crate::text::{trim, trimmed};
use super::widgets::{nothing, only, GuiAction, GuiKey, KeyResponse, UiRect};

verus! {

/// The open chat box.
#[derive(Debug)]
pub struct GuiChat {
    pub input: String,
    /// The clickable parts of the lines, as they were last drawn.
    pub click_regions: Vec<(UiRect, ClickEvent)>,
}

/// The first clickable part at a pixel, from the `i`-th on.
pub open spec fn region_from(regions: Seq<(UiRect, ClickEvent)>, x: int, y: int, i: int) -> Option<
    int,
>
    decreases regions.len() - i,
{
    if i < 0 || i >= regions.len() {
        None
    } else if regions[i].0.spec_contains(x, y) {
        Some(i)
    } else {
        region_from(regions, x, y, i + 1)
    }
}

/// Whether actions are what a click on an event asks for; a suggestion only fills the
/// box.
pub open spec fn asked_by(event: ClickEvent, actions: Seq<GuiAction>) -> bool {
    match event.action {
        ClickAction::RunCommand => actions == seq![GuiAction::SendChat(event.value)],
        ClickAction::SuggestCommand => actions == Seq::<GuiAction>::empty(),
        ClickAction::OpenUrl => actions == seq![GuiAction::OpenUrl(event.value)],
        ClickAction::CopyToClipboard => actions == seq![GuiAction::CopyToClipboard(event.value)],
    }
}

/// Whether actions send a line, if it says something, and close the box.
pub open spec fn sends_and_closes(line: Seq<char>, actions: Seq<GuiAction>) -> bool {
    if trimmed(line).len() == 0 {
        actions == seq![GuiAction::CloseScreen]
    } else {
        &&& actions.len() == 2
        &&& actions[0] matches GuiAction::SendChat(message)
        &&& message@ == trimmed(line)
        &&& actions[1] == GuiAction::CloseScreen
    }
}

/// What a key does in the chat box. Tab fills in the next candidate, or asks the
/// server for candidates where there are none; up and down walk through what was
/// sent; anything that edits the line drops the candidates.
pub open spec fn chat_key(
    before: GuiChat,
    chat: ChatState,
    key: GuiKey,
    after: GuiChat,
    chat_after: ChatState,
    actions: Seq<GuiAction>,
    edits: bool,
) -> bool {
    let input = before.input@;
    match key {
        GuiKey::Escape => {
            &&& actions == seq![GuiAction::CloseScreen]
            &&& after == before && chat_after == chat && !edits
        },
        GuiKey::Enter => {
            &&& sends_and_closes(input, actions)
            &&& after == before && chat_after == chat && !edits
        },
        GuiKey::Tab => if chat.completions@.len() > 0 {
            let candidate = chat.completions@[chat.completion_cursor as int
                % chat.completions@.len() as int]@;
            &&& actions == Seq::<GuiAction>::empty()
            &&& after.input@ == input.take(token_start(input)) + candidate
            &&& after.click_regions == before.click_regions
            &&& chat_after == (ChatState {
                completion_cursor: (chat.completion_cursor + 1) as usize,
                ..chat
            })
            &&& !edits
        } else {
            &&& actions == seq![
                GuiAction::SendPacket(
                    ServerboundPacket::TabComplete { text: before.input, has_position: false },
                ),
            ]
            &&& after == before && chat_after == chat && !edits
        },
        GuiKey::Up => {
            &&& actions == Seq::<GuiAction>::empty()
            &&& after.click_regions == before.click_regions
            &&& !edits
            &&& if chat.sent_cursor == 0 {
                after.input == before.input && chat_after == chat
            } else {
                &&& after.input@ == chat.sent@[chat.sent_cursor - 1]@
                &&& chat_after == (ChatState {
                    sent_cursor: (chat.sent_cursor - 1) as usize,
                    ..chat
                })
            }
        },
        GuiKey::Down => {
            &&& actions == Seq::<GuiAction>::empty()
            &&& after.click_regions == before.click_regions
            &&& !edits
            &&& if chat.sent_cursor == chat.sent@.len() {
                after.input == before.input && chat_after == chat
            } else {
                &&& after.input@ == recalled(chat.sent@, chat.sent_cursor + 1)
                &&& chat_after == (ChatState {
                    sent_cursor: (chat.sent_cursor + 1) as usize,
                    ..chat
                })
            }
        },
        _ => {
            &&& actions == Seq::<GuiAction>::empty()
            &&& after == before
            &&& chat_after.completions@.len() == 0
            &&& chat_after == (ChatState {
                completions: chat_after.completions,
                completion_cursor: 0,
                ..chat
            })
            &&& edits
        },
    }
}

/// What a click on the lines does: the first clickable part there acts.
pub open spec fn chat_clicked(
    before: GuiChat,
    x: int,
    y: int,
    after: GuiChat,
    actions: Seq<GuiAction>,
) -> bool {
    &&& after.click_regions == before.click_regions
    &&& match region_from(before.click_regions@, x, y, 0) {
        None => actions == Seq::<GuiAction>::empty() && after == before,
        Some(i) => {
            let event = before.click_regions@[i].1;
            &&& asked_by(event, actions)
            &&& after.input == if event.action == ClickAction::SuggestCommand {
                event.value
            } else {
                before.input
            }
        },
    }
}

impl GuiChat {
    /// The chat box with a text to start from.
    pub fn new(prefill: String) -> (screen: GuiChat)
        ensures
            screen.input == prefill,
            screen.click_regions@ == Seq::<(UiRect, ClickEvent)>::empty(),
    {
        GuiChat { input: prefill, click_regions: Vec::new() }
    }

    /// A key. Keys that edit the line are handed on to it.
    pub fn key_pressed(&mut self, key: GuiKey, chat: &mut ChatState) -> (done: KeyResponse)
        requires
            old(chat).wf(),
            old(chat).completion_cursor < usize::MAX,
        ensures
            final(chat).wf(),
            chat_key(
                *old(self),
                *old(chat),
                key,
                *final(self),
                *final(chat),
                done.actions@,
                done.edits,
            ),
    {
        match key {
            GuiKey::Escape => KeyResponse { actions: only(GuiAction::CloseScreen), edits: false },
            GuiKey::Enter => {
                let message = trim(self.input.as_str());
                let mut actions: Vec<GuiAction> = Vec::new();
                if message.as_str().unicode_len() > 0 {
                    actions.push(GuiAction::SendChat(message));
                }
                actions.push(GuiAction::CloseScreen);
                assert(trimmed(self.input@).len() == 0 ==> actions@ =~= seq![
                    GuiAction::CloseScreen,
                ]);
                KeyResponse { actions, edits: false }
            },
            GuiKey::Tab => if chat.has_completions() {
                if let Some(candidate) = chat.next_completion() {
                    self.input = complete_word(self.input.as_str(), candidate.as_str());
                }
                KeyResponse { actions: nothing(), edits: false }
            } else {
                KeyResponse {
                    actions: only(
                        GuiAction::SendPacket(
                            ServerboundPacket::TabComplete {
                                text: self.input.clone(),
                                has_position: false,
                            },
                        ),
                    ),
                    edits: false,
                }
            },
            GuiKey::Up => {
                if let Some(previous) = chat.recall_previous() {
                    self.input = previous;
                }
                KeyResponse { actions: nothing(), edits: false }
            },
            GuiKey::Down => {
                if let Some(next) = chat.recall_next() {
                    self.input = next;
                }
                KeyResponse { actions: nothing(), edits: false }
            },
            _ => {
                chat.clear_completions();
                KeyResponse { actions: nothing(), edits: true }
            },
        }
    }

    /// A click on the lines: the first clickable part there acts.
    pub fn mouse_clicked(&mut self, x: i32, y: i32) -> (actions: Vec<GuiAction>)
        ensures
            chat_clicked(*old(self), x as int, y as int, *final(self), actions@),
    {
        let mut i: usize = 0;
        while i < self.click_regions.len()
            invariant
                *self == *old(self),
                i <= self.click_regions@.len(),
                region_from(self.click_regions@, x as int, y as int, 0) == region_from(
                    self.click_regions@,
                    x as int,
                    y as int,
                    i as int,
                ),
            decreases self.click_regions@.len() - i,
        {
            if self.click_regions[i].0.contains(x, y) {
                let value = self.click_regions[i].1.value.clone();
                return match self.click_regions[i].1.action {
                    ClickAction::RunCommand => only(GuiAction::SendChat(value)),
                    ClickAction::SuggestCommand => {
                        self.input = value;
                        nothing()
                    },
                    ClickAction::OpenUrl => only(GuiAction::OpenUrl(value)),
                    ClickAction::CopyToClipboard => only(GuiAction::CopyToClipboard(value)),
                };
            }
            i += 1;
        }
        nothing()
    }
}

/// Up and then down leads back to the line that was being recalled.
pub proof fn law_up_and_down_lead_back(
    a: GuiChat,
    chat: ChatState,
    b: GuiChat,
    chat_b: ChatState,
    c: GuiChat,
    chat_c: ChatState,
    first: Seq<GuiAction>,
    second: Seq<GuiAction>,
)
    requires
        chat.wf(),
        chat.sent_cursor > 0,
        a.input@ == recalled(chat.sent@, chat.sent_cursor as int),
        chat_key(a, chat, GuiKey::Up, b, chat_b, first, false),
        chat_key(b, chat_b, GuiKey::Down, c, chat_c, second, false),
    ensures
        c.input@ == a.input@,
        chat_c == chat,
{
}

} // verus!
