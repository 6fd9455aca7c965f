//! Adding and editing a saved server, and connecting to an address directly.

use vstd::prelude::*;
use crate::chat::lang::Language;
use crate::text::{copy_text, trim, trimmed};
use super::widgets::{
    button_at, button_pressed, buttons_view, first_pressed, half, halved, nothing, only,
    ButtonModel, GuiAction, GuiButton, GuiKey, KeyResponse, Screen, ScreenKind, UiRect,
};

verus! {

/// A saved server.
#[derive(Debug, PartialEq, Eq)]
pub struct ServerEntry {
    pub name: String,
    pub address: String,
}

/// The value of [`ServerEntry`].
pub struct EntryModel {
    pub name: Seq<char>,
    pub address: Seq<char>,
}

impl View for ServerEntry {
    type V = EntryModel;

    open spec fn view(&self) -> EntryModel {
        EntryModel { name: self.name@, address: self.address@ }
    }
}

/// The values of saved servers.
pub open spec fn entries_view(entries: Seq<ServerEntry>) -> Seq<EntryModel> {
    Seq::new(entries.len(), |i: int| entries[i]@)
}

/// A line of text to edit.
#[derive(Debug)]
pub struct TextField {
    pub rect: UiRect,
    pub text: String,
    pub focused: bool,
}

/// No place yet.
pub open spec fn nowhere() -> UiRect {
    UiRect { x: 0, y: 0, width: 0, height: 0 }
}

// ── Adding and editing ────────────────────────────────────────────────────

/// The screen that adds or edits a saved server.
#[derive(Debug)]
pub struct GuiEditServer {
    /// The place in the saved list when editing.
    pub editing: Option<usize>,
    pub name: TextField,
    pub address: TextField,
    pub buttons: Vec<GuiButton>,
}

/// The saved list after an entry is kept: it replaces the one being edited, if that
/// is still there, and else comes last.
pub open spec fn with_entry(
    entries: Seq<EntryModel>,
    editing: Option<usize>,
    entry: EntryModel,
) -> Seq<EntryModel> {
    match editing {
        Some(i) => if i < entries.len() {
            entries.update(i as int, entry)
        } else {
            entries.push(entry)
        },
        None => entries.push(entry),
    }
}

/// The entry that texts make: both are trimmed, and a server without a name is named
/// by its address.
pub open spec fn entry_of(name: Seq<char>, address: Seq<char>) -> EntryModel {
    EntryModel {
        name: if trimmed(name).len() == 0 {
            trimmed(address)
        } else {
            trimmed(name)
        },
        address: trimmed(address),
    }
}

/// The places of the fields and the buttons, from a top down: the first field 12 and
/// the second 48 GUI pixels below, the buttons 80.
pub open spec fn edit_buttons(screen: Screen, lang: Language) -> Seq<ButtonModel> {
    let s = screen.scale as int;
    let x = halved(screen.width - 200 * s);
    let y = screen.height / 4 + 80 * s;
    seq![
        button_at(x, y, 98 * s, s, lang.text_for("gui.done"@)),
        button_at(x + 102 * s, y, 98 * s, s, lang.text_for("gui.cancel"@)),
    ]
}

/// A field, `below` GUI pixels under the top of the form.
pub open spec fn field_rect(screen: Screen, below: int) -> UiRect {
    let s = screen.scale as int;
    UiRect {
        x: halved(screen.width - 200 * s) as i32,
        y: (screen.height / 4 + below * s) as i32,
        width: (200 * s) as i32,
        height: (16 * s) as i32,
    }
}

/// What was entered is kept, and the list is shown, where there is an address.
pub open spec fn entry_kept(
    screen: GuiEditServer,
    before: Seq<ServerEntry>,
    after: Seq<ServerEntry>,
) -> bool {
    entries_view(after) == with_entry(
        entries_view(before),
        screen.editing,
        entry_of(screen.name.text@, screen.address.text@),
    )
}

/// What a click does: it gives the focus to the field it is in, and presses buttons.
pub open spec fn edit_clicked(
    before: GuiEditServer,
    x: int,
    y: int,
    entries: Seq<ServerEntry>,
    after: GuiEditServer,
    entries_after: Seq<ServerEntry>,
    actions: Seq<GuiAction>,
) -> bool {
    let pressed = first_pressed(buttons_view(before.buttons@), x, y);
    let saves = before.buttons@.len() == 2 && pressed == Some(0int) && trimmed(
        before.address.text@,
    ).len() > 0;
    let leaves = before.buttons@.len() == 2 && pressed == Some(1int);
    &&& after == (GuiEditServer {
        name: TextField { focused: before.name.rect.spec_contains(x, y), ..before.name },
        address: TextField { focused: before.address.rect.spec_contains(x, y), ..before.address },
        ..before
    })
    &&& actions == if saves || leaves {
        seq![GuiAction::SetScreen(ScreenKind::Multiplayer)]
    } else {
        Seq::<GuiAction>::empty()
    }
    &&& saves ==> entry_kept(before, entries, entries_after)
    &&& !saves ==> entries_after == entries
}

/// What a key does: escape leaves, enter keeps what was entered, tab changes the field;
/// others edit the text.
pub open spec fn edit_key(
    before: GuiEditServer,
    key: GuiKey,
    entries: Seq<ServerEntry>,
    after: GuiEditServer,
    entries_after: Seq<ServerEntry>,
    actions: Seq<GuiAction>,
    edits: bool,
) -> bool {
    let saves = key == GuiKey::Enter && trimmed(before.address.text@).len() > 0;
    &&& after == if key == GuiKey::Tab {
        GuiEditServer {
            name: TextField { focused: before.address.focused, ..before.name },
            address: TextField { focused: !before.address.focused, ..before.address },
            ..before
        }
    } else {
        before
    }
    &&& edits == (key != GuiKey::Escape && key != GuiKey::Enter && key != GuiKey::Tab)
    &&& actions == if saves || key == GuiKey::Escape {
        seq![GuiAction::SetScreen(ScreenKind::Multiplayer)]
    } else {
        Seq::<GuiAction>::empty()
    }
    &&& saves ==> entry_kept(before, entries, entries_after)
    &&& !saves ==> entries_after == entries
}

impl GuiEditServer {
    /// The form as it opens: with this name and address, the address taking the keys.
    pub open spec fn opened(self, editing: Option<usize>, name: Seq<char>, address: Seq<char>) -> bool {
        &&& self.editing == editing
        &&& self.name.text@ == name
        &&& self.address.text@ == address
        &&& !self.name.focused
        &&& self.address.focused
        &&& self.buttons@ == Seq::<GuiButton>::empty()
        &&& self.name.rect == nowhere() && self.address.rect == nowhere()
    }

    /// The screen to add a server, with the usual name filled in.
    pub fn add(lang: &Language) -> (screen: GuiEditServer)
        ensures
            screen.opened(None, lang.text_for("fpsmaster.server.defaultName"@), ""@),
    {
        GuiEditServer::with_values(
            None,
            lang.tr("fpsmaster.server.defaultName"),
            copy_text(""),
        )
    }

    /// The screen to edit a saved server.
    pub fn edit(index: usize, entry: ServerEntry) -> (screen: GuiEditServer)
        ensures
            screen.name.text == entry.name,
            screen.address.text == entry.address,
            screen.opened(Some(index), entry.name@, entry.address@),
    {
        GuiEditServer::with_values(Some(index), entry.name, entry.address)
    }

    fn with_values(editing: Option<usize>, name: String, address: String) -> (screen: GuiEditServer)
        ensures
            screen.editing == editing,
            screen.name.text == name,
            screen.address.text == address,
            !screen.name.focused,
            screen.address.focused,
            screen.buttons@ == Seq::<GuiButton>::empty(),
            screen.name.rect == nowhere() && screen.address.rect == nowhere(),
    {
        let rect = UiRect { x: 0, y: 0, width: 0, height: 0 };
        GuiEditServer {
            editing,
            name: TextField { rect, text: name, focused: false },
            address: TextField { rect, text: address, focused: true },
            buttons: Vec::new(),
        }
    }

    /// Put the fields and the buttons in place.
    pub fn layout(&mut self, screen: &Screen, lang: &Language)
        requires
            screen.wf(),
        ensures
            final(self).name == (TextField {
                rect: field_rect(*screen, 12),
                ..old(self).name
            }),
            final(self).address == (TextField {
                rect: field_rect(*screen, 48),
                ..old(self).address
            }),
            buttons_view(final(self).buttons@) == edit_buttons(*screen, *lang),
            final(self).editing == old(self).editing,
    {
        let s: i32 = screen.scale;
        let x: i32 = half(screen.width - 200 * s);
        let top: i32 = screen.height / 4;
        self.name.rect = UiRect { x, y: top + 12 * s, width: 200 * s, height: 16 * s };
        self.address.rect = UiRect { x, y: top + 48 * s, width: 200 * s, height: 16 * s };
        let y: i32 = top + 80 * s;
        let mut buttons: Vec<GuiButton> = Vec::new();
        buttons.push(GuiButton::at_px(x, y, 98 * s, s, lang.tr("gui.done")));
        buttons.push(GuiButton::at_px(x + 102 * s, y, 98 * s, s, lang.tr("gui.cancel")));
        self.buttons = buttons;
        assert(buttons_view(self.buttons@) =~= edit_buttons(*screen, *lang));
    }

    /// Keep what was entered and go to the list; without an address nothing happens.
    pub fn save(&self, entries: &mut Vec<ServerEntry>) -> (actions: Vec<GuiAction>)
        ensures
            trimmed(self.address.text@).len() == 0 ==> actions@ == Seq::<GuiAction>::empty()
                && final(entries)@ == old(entries)@,
            trimmed(self.address.text@).len() > 0 ==> actions@ == seq![
                GuiAction::SetScreen(ScreenKind::Multiplayer),
            ] && entries_view(final(entries)@) == with_entry(
                entries_view(old(entries)@),
                self.editing,
                entry_of(self.name.text@, self.address.text@),
            ),
    {
        let name = trim(self.name.text.as_str());
        let address = trim(self.address.text.as_str());
        if address.as_str().unicode_len() == 0 {
            return nothing();
        }
        let name = if name.as_str().unicode_len() == 0 {
            copy_text(address.as_str())
        } else {
            name
        };
        let ghost before = entries@;
        let entry = ServerEntry { name, address };
        let ghost kept = entry@;
        let at = match self.editing {
            Some(index) => if index < entries.len() {
                Some(index)
            } else {
                None
            },
            None => None,
        };
        match at {
            Some(index) => {
                entries.set(index, entry);
                assert(entries_view(entries@) =~= entries_view(before).update(index as int, kept));
            },
            None => {
                entries.push(entry);
                assert(entries_view(entries@) =~= entries_view(before).push(kept));
            },
        }
        only(GuiAction::SetScreen(ScreenKind::Multiplayer))
    }

    /// A click: it gives the focus to the field it is in, and presses buttons.
    pub fn mouse_clicked(&mut self, x: i32, y: i32, entries: &mut Vec<ServerEntry>) -> (actions: Vec<
        GuiAction,
    >)
        ensures
            edit_clicked(
                *old(self),
                x as int,
                y as int,
                old(entries)@,
                *final(self),
                final(entries)@,
                actions@,
            ),
    {
        self.name.focused = self.name.rect.contains(x, y);
        self.address.focused = self.address.rect.contains(x, y);
        if self.buttons.len() == 2 {
            match button_pressed(&self.buttons, x, y) {
                Some(0) => {
                    return self.save(entries);
                },
                Some(_) => {
                    return only(GuiAction::SetScreen(ScreenKind::Multiplayer));
                },
                None => {},
            }
        }
        nothing()
    }

    /// A key: escape leaves, enter keeps what was entered, tab changes the field;
    /// others edit the text.
    pub fn key_pressed(&mut self, key: GuiKey, entries: &mut Vec<ServerEntry>) -> (done: KeyResponse)
        ensures
            edit_key(
                *old(self),
                key,
                old(entries)@,
                *final(self),
                final(entries)@,
                done.actions@,
                done.edits,
            ),
    {
        match key {
            GuiKey::Escape => KeyResponse {
                actions: only(GuiAction::SetScreen(ScreenKind::Multiplayer)),
                edits: false,
            },
            GuiKey::Enter => KeyResponse { actions: self.save(entries), edits: false },
            GuiKey::Tab => {
                let to_name = self.address.focused;
                self.name.focused = to_name;
                self.address.focused = !to_name;
                KeyResponse { actions: nothing(), edits: false }
            },
            _ => KeyResponse { actions: nothing(), edits: true },
        }
    }
}

/// What is kept has an address without whitespace at its ends, and a name; the list
/// grows by at most one.
pub proof fn law_saved_servers_are_complete(
    entries: Seq<EntryModel>,
    editing: Option<usize>,
    name: Seq<char>,
    address: Seq<char>,
)
    requires
        trimmed(address).len() > 0,
    ensures
        entry_of(name, address).name.len() > 0,
        entry_of(name, address).address == trimmed(address),
        with_entry(entries, editing, entry_of(name, address)).len() <= entries.len() + 1,
        with_entry(entries, editing, entry_of(name, address)).contains(entry_of(name, address)),
{
    let entry = entry_of(name, address);
    let after = with_entry(entries, editing, entry);
    if editing is Some && editing->0 < entries.len() {
        assert(after[editing->0 as int] == entry);
    } else {
        assert(after[entries.len() as int] == entry);
    }
}

// ── Direct connection ─────────────────────────────────────────────────────

/// The screen that connects to an address.
#[derive(Debug)]
pub struct GuiDirectConnect {
    pub address: TextField,
    pub buttons: Vec<GuiButton>,
}

/// The buttons of the direct connection.
pub open spec fn direct_buttons(screen: Screen, lang: Language) -> Seq<ButtonModel> {
    let s = screen.scale as int;
    let x = halved(screen.width - 200 * s);
    let y = screen.height / 4 + 48 * s;
    seq![
        button_at(x, y, 98 * s, s, lang.text_for("selectServer.select"@)),
        button_at(x + 102 * s, y, 98 * s, s, lang.text_for("gui.cancel"@)),
    ]
}

/// What a click does: it connects to what was entered, or leaves.
pub open spec fn direct_clicked(
    before: GuiDirectConnect,
    x: int,
    y: int,
    after: GuiDirectConnect,
    actions: Seq<GuiAction>,
) -> bool {
    &&& after == (GuiDirectConnect {
        address: TextField { focused: before.address.rect.spec_contains(x, y), ..before.address },
        ..before
    })
    &&& actions == if before.buttons@.len() != 2 {
        Seq::empty()
    } else {
        match first_pressed(buttons_view(before.buttons@), x, y) {
            Some(i) => if i == 0 {
                seq![GuiAction::Join(before.address.text)]
            } else {
                seq![GuiAction::SetScreen(ScreenKind::Multiplayer)]
            },
            None => Seq::empty(),
        }
    }
}

/// What a key does: escape leaves, enter connects; others edit the text.
pub open spec fn direct_key(
    screen: GuiDirectConnect,
    key: GuiKey,
    actions: Seq<GuiAction>,
    edits: bool,
) -> bool {
    &&& actions == if key == GuiKey::Escape {
        seq![GuiAction::SetScreen(ScreenKind::Multiplayer)]
    } else if key == GuiKey::Enter {
        seq![GuiAction::Join(screen.address.text)]
    } else {
        Seq::empty()
    }
    &&& edits == (key != GuiKey::Escape && key != GuiKey::Enter)
}

impl GuiDirectConnect {
    pub fn new() -> (screen: GuiDirectConnect)
        ensures
            screen.address.text@ == Seq::<char>::empty(),
            screen.address.rect == nowhere(),
            screen.address.focused,
            screen.buttons@ == Seq::<GuiButton>::empty(),
    {
        GuiDirectConnect {
            address: TextField {
                rect: UiRect { x: 0, y: 0, width: 0, height: 0 },
                text: String::new(),
                focused: true,
            },
            buttons: Vec::new(),
        }
    }

    /// Put the field and the buttons in place.
    pub fn layout(&mut self, screen: &Screen, lang: &Language)
        requires
            screen.wf(),
        ensures
            final(self).address == (TextField {
                rect: field_rect(*screen, 16),
                ..old(self).address
            }),
            buttons_view(final(self).buttons@) == direct_buttons(*screen, *lang),
    {
        let s: i32 = screen.scale;
        let x: i32 = half(screen.width - 200 * s);
        let top: i32 = screen.height / 4;
        self.address.rect = UiRect { x, y: top + 16 * s, width: 200 * s, height: 16 * s };
        let y: i32 = top + 48 * s;
        let mut buttons: Vec<GuiButton> = Vec::new();
        buttons.push(GuiButton::at_px(x, y, 98 * s, s, lang.tr("selectServer.select")));
        buttons.push(GuiButton::at_px(x + 102 * s, y, 98 * s, s, lang.tr("gui.cancel")));
        self.buttons = buttons;
        assert(buttons_view(self.buttons@) =~= direct_buttons(*screen, *lang));
    }

    /// Connect to the entered address.
    pub fn join(&self) -> (actions: Vec<GuiAction>)
        ensures
            actions@ == seq![GuiAction::Join(self.address.text)],
    {
        only(GuiAction::Join(self.address.text.clone()))
    }

    /// A click.
    pub fn mouse_clicked(&mut self, x: i32, y: i32) -> (actions: Vec<GuiAction>)
        ensures
            direct_clicked(*old(self), x as int, y as int, *final(self), actions@),
    {
        self.address.focused = self.address.rect.contains(x, y);
        if self.buttons.len() == 2 {
            match button_pressed(&self.buttons, x, y) {
                Some(0) => {
                    return self.join();
                },
                Some(_) => {
                    return only(GuiAction::SetScreen(ScreenKind::Multiplayer));
                },
                None => {},
            }
        }
        nothing()
    }

    /// A key: escape leaves, enter connects; others edit the text.
    pub fn key_pressed(&self, key: GuiKey) -> (done: KeyResponse)
        ensures
            direct_key(*self, key, done.actions@, done.edits),
    {
        match key {
            GuiKey::Escape => KeyResponse {
                actions: only(GuiAction::SetScreen(ScreenKind::Multiplayer)),
                edits: false,
            },
            GuiKey::Enter => KeyResponse { actions: self.join(), edits: false },
            _ => KeyResponse { actions: nothing(), edits: true },
        }
    }
}

impl Default for GuiDirectConnect {
    fn default() -> (screen: Self)
        ensures
            screen.address.text@ == Seq::<char>::empty(),
            screen.address.rect == nowhere(),
            screen.address.focused,
            screen.buttons@ == Seq::<GuiButton>::empty(),
    {
        GuiDirectConnect::new()
    }
}

} // verus!
