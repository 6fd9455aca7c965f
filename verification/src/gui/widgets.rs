//! Rectangles, buttons, keys and what screens ask for.

use vstd::prelude::*;
use crate::game::worldgen::DemoKind;
use crate::packets::ServerboundPacket;

verus! {

/// The height of a button in GUI pixels.
pub const BUTTON_HEIGHT: i32 = 20;

/// A rectangle in pixels.
#[derive(Debug, Clone, Copy, PartialEq, Eq, Structural)]
pub struct UiRect {
    pub x: i32,
    pub y: i32,
    pub width: i32,
    pub height: i32,
}

impl UiRect {
    /// Whether a pixel is inside.
    pub open spec fn spec_contains(self, x: int, y: int) -> bool {
        self.x <= x < self.x + self.width && self.y <= y < self.y + self.height
    }

    /// Two rectangles share no pixel.
    pub open spec fn apart(self, other: UiRect) -> bool {
        ||| self.x + self.width <= other.x
        ||| other.x + other.width <= self.x
        ||| self.y + self.height <= other.y
        ||| other.y + other.height <= self.y
    }

    /// Whether a pixel is inside.
    pub fn contains(&self, x: i32, y: i32) -> (yes: bool)
        ensures
            yes == self.spec_contains(x as int, y as int),
    {
        let (x, y): (i64, i64) = (x as i64, y as i64);
        let (left, top): (i64, i64) = (self.x as i64, self.y as i64);
        left <= x && x < left + self.width as i64 && top <= y && y < top + self.height as i64
    }
}

/// The screen: its size in pixels and the pixels to a GUI pixel.
#[derive(Debug, Clone, Copy, PartialEq, Eq, Structural)]
pub struct Screen {
    pub width: i32,
    pub height: i32,
    pub scale: i32,
}

impl Screen {
    /// Sizes that leave room for sums.
    pub open spec fn wf(self) -> bool {
        &&& 0 <= self.width <= 0x1000_0000
        &&& 0 <= self.height <= 0x1000_0000
        &&& 0 <= self.scale <= 0x1_0000
    }
}

/// Half of a number, cut off towards zero.
pub open spec fn halved(n: int) -> int {
    if n >= 0 {
        n / 2
    } else {
        -(-n / 2)
    }
}

/// Half of a number, cut off towards zero.
pub fn half(n: i32) -> (h: i32)
    ensures
        h == halved(n as int),
{
    if n >= 0 {
        n / 2
    } else {
        -((-(n as i64)) / 2) as i32
    }
}

/// A button.
#[derive(Debug)]
pub struct GuiButton {
    pub rect: UiRect,
    pub label: String,
    pub enabled: bool,
}

/// The value of [`GuiButton`].
pub struct ButtonModel {
    pub rect: UiRect,
    pub label: Seq<char>,
    pub enabled: bool,
}

impl View for GuiButton {
    type V = ButtonModel;

    open spec fn view(&self) -> ButtonModel {
        ButtonModel { rect: self.rect, label: self.label@, enabled: self.enabled }
    }
}

/// The values of buttons.
pub open spec fn buttons_view(buttons: Seq<GuiButton>) -> Seq<ButtonModel> {
    Seq::new(buttons.len(), |i: int| buttons[i]@)
}

/// A button at a place, as wide as given and of the height of buttons.
pub open spec fn button_at(x: int, y: int, width: int, scale: int, label: Seq<char>) -> ButtonModel {
    ButtonModel {
        rect: UiRect {
            x: x as i32,
            y: y as i32,
            width: width as i32,
            height: (BUTTON_HEIGHT * scale) as i32,
        },
        label,
        enabled: true,
    }
}

impl ButtonModel {
    /// A click there presses the button.
    pub open spec fn pressed(self, x: int, y: int) -> bool {
        self.enabled && self.rect.spec_contains(x, y)
    }

    pub open spec fn enabled_if(self, enabled: bool) -> ButtonModel {
        ButtonModel { enabled, ..self }
    }
}

impl GuiButton {
    /// A button at a place.
    pub fn at_px(x: i32, y: i32, width: i32, scale: i32, label: String) -> (b: GuiButton)
        requires
            0 <= scale <= 0x1_0000,
        ensures
            b@ == button_at(x as int, y as int, width as int, scale as int, label@),
    {
        GuiButton {
            rect: UiRect { x, y, width, height: BUTTON_HEIGHT * scale },
            label,
            enabled: true,
        }
    }

    /// The button, disabled if so wanted.
    pub fn disabled(self, off: bool) -> (b: GuiButton)
        ensures
            b@ == self@.enabled_if(!off),
    {
        GuiButton { enabled: !off, ..self }
    }

    /// Whether a click there presses the button.
    pub fn clicked(&self, x: i32, y: i32) -> (yes: bool)
        ensures
            yes == self@.pressed(x as int, y as int),
    {
        self.enabled && self.rect.contains(x, y)
    }
}

/// The first of some buttons that a click presses, from the `i`-th on.
pub open spec fn pressed_from(buttons: Seq<ButtonModel>, x: int, y: int, i: int) -> Option<int>
    decreases buttons.len() - i,
{
    if i < 0 || i >= buttons.len() {
        None
    } else if buttons[i].pressed(x, y) {
        Some(i)
    } else {
        pressed_from(buttons, x, y, i + 1)
    }
}

/// The first of some buttons that a click presses.
pub open spec fn first_pressed(buttons: Seq<ButtonModel>, x: int, y: int) -> Option<int> {
    pressed_from(buttons, x, y, 0)
}

/// The first of some buttons that a click presses.
pub fn button_pressed(buttons: &Vec<GuiButton>, x: i32, y: i32) -> (at: Option<usize>)
    ensures
        match at {
            Some(i) => i < buttons@.len() && first_pressed(buttons_view(buttons@), x as int, y as int)
                == Some(i as int),
            None => first_pressed(buttons_view(buttons@), x as int, y as int) is None,
        },
{
    let ghost all = buttons_view(buttons@);
    let mut i: usize = 0;
    while i < buttons.len()
        invariant
            i <= buttons@.len(),
            all == buttons_view(buttons@),
            first_pressed(all, x as int, y as int) == pressed_from(
                all,
                x as int,
                y as int,
                i as int,
            ),
        decreases buttons@.len() - i,
    {
        if buttons[i].clicked(x, y) {
            assert(all[i as int].pressed(x as int, y as int));
            return Some(i);
        }
        assert(!all[i as int].pressed(x as int, y as int));
        i += 1;
    }
    None
}

/// No two of some buttons share a pixel.
pub open spec fn all_apart(buttons: Seq<ButtonModel>) -> bool {
    forall|i: int, j: int|
        0 <= i < j < buttons.len() ==> (#[trigger] buttons[i]).rect.apart((
        #[trigger] buttons[j]).rect)
}

/// Where buttons share no pixel, a click presses a button exactly when it is enabled
/// and the click is inside it, whatever the order of the buttons.
pub proof fn law_apart_buttons_have_no_order(buttons: Seq<ButtonModel>, x: int, y: int, i: int)
    requires
        all_apart(buttons),
        0 <= i < buttons.len(),
    ensures
        first_pressed(buttons, x, y) == Some(i) <==> buttons[i].pressed(x, y),
{
    lemma_pressed_from(buttons, x, y, 0, i);
}

proof fn lemma_pressed_from(buttons: Seq<ButtonModel>, x: int, y: int, from: int, i: int)
    requires
        all_apart(buttons),
        0 <= from <= i < buttons.len(),
    ensures
        pressed_from(buttons, x, y, from) == Some(i) <==> buttons[i].pressed(x, y),
    decreases i - from,
{
    if from == i {
        lemma_pressed_after(buttons, x, y, from + 1);
    } else {
        lemma_pressed_from(buttons, x, y, from + 1, i);
        assert(buttons[from].rect.apart(buttons[i].rect));
    }
}

proof fn lemma_pressed_after(buttons: Seq<ButtonModel>, x: int, y: int, from: int)
    requires
        0 <= from,
    ensures
        pressed_from(buttons, x, y, from) matches Some(k) ==> k >= from,
    decreases buttons.len() - from,
{
    if from < buttons.len() {
        lemma_pressed_after(buttons, x, y, from + 1);
    }
}

/// A screen to go to.
#[derive(Debug, Clone, Copy, PartialEq, Eq, Structural)]
pub enum ScreenKind {
    MainMenu,
    SelectWorld,
    Multiplayer,
    DirectConnect,
    AddServer,
    /// The saved server of a number.
    EditServer(usize),
    ModList { from_main_menu: bool },
    Options { from_main_menu: bool },
}

/// A shader setting.
#[derive(Debug, Clone, Copy, PartialEq, Eq, Structural)]
pub enum Toggle {
    Shaders,
    Shadows,
    Specular,
    Fog,
    Bloom,
    VolumetricLight,
    Vignette,
    Chromatic,
    DepthOfField,
    MotionBlur,
    AutoExposure,
    Clouds,
}

/// What a screen asks for.
#[derive(Debug, PartialEq, Eq)]
pub enum GuiAction {
    CloseScreen,
    SetScreen(ScreenKind),
    Quit,
    QuitToTitle,
    StartDemo(DemoKind),
    /// Connect to an address, if it is one.
    Join(String),
    SendChat(String),
    SendPacket(ServerboundPacket),
    OpenUrl(String),
    CopyToClipboard(String),
    SaveSettings,
    SetToggle(Toggle, bool),
}

/// A key that a screen reacts to.
#[derive(Debug, Clone, Copy, PartialEq, Eq, Structural)]
pub enum GuiKey {
    Escape,
    Enter,
    Tab,
    Up,
    Down,
    Refresh,
    Inventory,
    Drop,
    /// A digit from 1 to 9.
    Digit(u8),
    Other,
}

/// What a key does: the actions it asks for, and whether it goes on to the text that
/// is being edited.
#[derive(Debug, PartialEq, Eq)]
pub struct KeyResponse {
    pub actions: Vec<GuiAction>,
    pub edits: bool,
}

/// A list of nothing.
pub fn nothing() -> (actions: Vec<GuiAction>)
    ensures
        actions@ == Seq::<GuiAction>::empty(),
{
    Vec::new()
}

/// A list of one action.
pub fn only(action: GuiAction) -> (actions: Vec<GuiAction>)
    ensures
        actions@ == seq![action],
{
    let mut actions: Vec<GuiAction> = Vec::new();
    actions.push(action);
    actions
}

} // verus!
