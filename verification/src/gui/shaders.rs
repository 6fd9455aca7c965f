//! The shader settings.

use vstd::prelude::*;
use crate::chat::lang::Language;
use crate::text::append;
use super::controls::{leave_settings, leaves_settings};
use super::widgets::{
    all_apart, button_at, button_pressed, buttons_view, first_pressed, half, halved, nothing, only,
    ButtonModel, GuiAction, GuiButton, GuiKey, Screen, ScreenKind, Toggle,
};

verus! {

/// The shader settings.
#[derive(Debug, Clone, Copy, PartialEq, Eq, Structural)]
pub struct ShaderSettings {
    pub shaders: bool,
    pub shadows: bool,
    pub specular: bool,
    pub fog: bool,
    pub bloom: bool,
    pub volumetric_light: bool,
    pub vignette: bool,
    pub chromatic: bool,
    pub depth_of_field: bool,
    pub motion_blur: bool,
    pub auto_exposure: bool,
    pub clouds: bool,
}

impl ShaderSettings {
    /// A setting.
    pub open spec fn value(self, t: Toggle) -> bool {
        match t {
            Toggle::Shaders => self.shaders,
            Toggle::Shadows => self.shadows,
            Toggle::Specular => self.specular,
            Toggle::Fog => self.fog,
            Toggle::Bloom => self.bloom,
            Toggle::VolumetricLight => self.volumetric_light,
            Toggle::Vignette => self.vignette,
            Toggle::Chromatic => self.chromatic,
            Toggle::DepthOfField => self.depth_of_field,
            Toggle::MotionBlur => self.motion_blur,
            Toggle::AutoExposure => self.auto_exposure,
            Toggle::Clouds => self.clouds,
        }
    }

    /// A setting.
    pub fn get(&self, t: Toggle) -> (on: bool)
        ensures
            on == self.value(t),
    {
        match t {
            Toggle::Shaders => self.shaders,
            Toggle::Shadows => self.shadows,
            Toggle::Specular => self.specular,
            Toggle::Fog => self.fog,
            Toggle::Bloom => self.bloom,
            Toggle::VolumetricLight => self.volumetric_light,
            Toggle::Vignette => self.vignette,
            Toggle::Chromatic => self.chromatic,
            Toggle::DepthOfField => self.depth_of_field,
            Toggle::MotionBlur => self.motion_blur,
            Toggle::AutoExposure => self.auto_exposure,
            Toggle::Clouds => self.clouds,
        }
    }

    /// Turn a setting over; its new value.
    pub fn flip(&mut self, t: Toggle) -> (on: bool)
        ensures
            on == !old(self).value(t),
            final(self).value(t) == on,
            forall|other: Toggle| other != t ==> #[trigger] final(self).value(other) == old(
                self,
            ).value(other),
    {
        let on = !self.get(t);
        match t {
            Toggle::Shaders => self.shaders = on,
            Toggle::Shadows => self.shadows = on,
            Toggle::Specular => self.specular = on,
            Toggle::Fog => self.fog = on,
            Toggle::Bloom => self.bloom = on,
            Toggle::VolumetricLight => self.volumetric_light = on,
            Toggle::Vignette => self.vignette = on,
            Toggle::Chromatic => self.chromatic = on,
            Toggle::DepthOfField => self.depth_of_field = on,
            Toggle::MotionBlur => self.motion_blur = on,
            Toggle::AutoExposure => self.auto_exposure = on,
            Toggle::Clouds => self.clouds = on,
        }
        on
    }
}

/// The screen of the shader settings.
#[derive(Debug)]
pub struct GuiShaders {
    /// A button for each setting, the left column first, and the one that leaves.
    pub buttons: Vec<GuiButton>,
    pub from_main_menu: bool,
}

/// The setting of a button.
pub open spec fn toggle_at(button: int) -> Toggle {
    if button == 0 {
        Toggle::Shaders
    } else if button == 1 {
        Toggle::Shadows
    } else if button == 2 {
        Toggle::Specular
    } else if button == 3 {
        Toggle::Fog
    } else if button == 4 {
        Toggle::Bloom
    } else if button == 5 {
        Toggle::VolumetricLight
    } else if button == 6 {
        Toggle::Vignette
    } else if button == 7 {
        Toggle::Chromatic
    } else if button == 8 {
        Toggle::DepthOfField
    } else if button == 9 {
        Toggle::MotionBlur
    } else if button == 10 {
        Toggle::AutoExposure
    } else {
        Toggle::Clouds
    }
}

fn toggle_of(button: usize) -> (t: Toggle)
    ensures
        t == toggle_at(button as int),
{
    match button {
        0 => Toggle::Shaders,
        1 => Toggle::Shadows,
        2 => Toggle::Specular,
        3 => Toggle::Fog,
        4 => Toggle::Bloom,
        5 => Toggle::VolumetricLight,
        6 => Toggle::Vignette,
        7 => Toggle::Chromatic,
        8 => Toggle::DepthOfField,
        9 => Toggle::MotionBlur,
        10 => Toggle::AutoExposure,
        _ => Toggle::Clouds,
    }
}

/// The key of a setting's name.
pub open spec fn toggle_key(t: Toggle) -> &'static str {
    match t {
        Toggle::Shaders => "fpsmaster.shaders.shaders",
        Toggle::Shadows => "fpsmaster.shaders.shadows",
        Toggle::Specular => "fpsmaster.shaders.specular",
        Toggle::Fog => "fpsmaster.shaders.fog",
        Toggle::Bloom => "fpsmaster.shaders.bloom",
        Toggle::VolumetricLight => "fpsmaster.shaders.volLight",
        Toggle::Vignette => "fpsmaster.shaders.vignette",
        Toggle::Chromatic => "fpsmaster.shaders.chroma",
        Toggle::DepthOfField => "fpsmaster.shaders.dof",
        Toggle::MotionBlur => "fpsmaster.shaders.motion",
        Toggle::AutoExposure => "fpsmaster.shaders.autoExp",
        Toggle::Clouds => "fpsmaster.shaders.clouds",
    }
}

fn name_key(t: Toggle) -> (key: &'static str)
    ensures
        key@ == toggle_key(t)@,
{
    match t {
        Toggle::Shaders => "fpsmaster.shaders.shaders",
        Toggle::Shadows => "fpsmaster.shaders.shadows",
        Toggle::Specular => "fpsmaster.shaders.specular",
        Toggle::Fog => "fpsmaster.shaders.fog",
        Toggle::Bloom => "fpsmaster.shaders.bloom",
        Toggle::VolumetricLight => "fpsmaster.shaders.volLight",
        Toggle::Vignette => "fpsmaster.shaders.vignette",
        Toggle::Chromatic => "fpsmaster.shaders.chroma",
        Toggle::DepthOfField => "fpsmaster.shaders.dof",
        Toggle::MotionBlur => "fpsmaster.shaders.motion",
        Toggle::AutoExposure => "fpsmaster.shaders.autoExp",
        Toggle::Clouds => "fpsmaster.shaders.clouds",
    }
}

/// The word for a setting's value.
pub open spec fn on_off_text(on: bool, lang: Language) -> Seq<char> {
    lang.text_for(
        if on {
            "options.on"@
        } else {
            "options.off"@
        },
    )
}

/// The word for a setting's value.
pub fn on_off(on: bool, lang: &Language) -> (text: String)
    ensures
        text@ == on_off_text(on, *lang),
{
    if on {
        lang.tr("options.on")
    } else {
        lang.tr("options.off")
    }
}

/// The label of a setting.
pub open spec fn toggle_label(t: Toggle, on: bool, lang: Language) -> Seq<char> {
    lang.text_for(toggle_key(t)@) + ": "@ + on_off_text(on, lang)
}

fn label_of(t: Toggle, on: bool, lang: &Language) -> (text: String)
    ensures
        text@ == toggle_label(t, on, *lang),
{
    let mut text = lang.tr(name_key(t));
    append(&mut text, ": ");
    append(&mut text, on_off(on, lang).as_str());
    text
}

/// The button of a setting. All but the first and the fog are disabled while shaders
/// are off.
pub open spec fn toggle_button(
    screen: Screen,
    settings: ShaderSettings,
    lang: Language,
    i: int,
) -> ButtonModel {
    let s = screen.scale as int;
    let x = halved(screen.width - 200 * s);
    let top = screen.height / 4 - 8 * s;
    let t = toggle_at(i);
    button_at(
        if i < 6 {
            x
        } else {
            x + 102 * s
        },
        top + (i % 6) * 24 * s,
        98 * s,
        s,
        toggle_label(t, settings.value(t), lang),
    ).enabled_if(settings.shaders || t == Toggle::Shaders || t == Toggle::Fog)
}

/// The button that leaves the settings.
pub open spec fn shaders_done(screen: Screen, lang: Language) -> ButtonModel {
    let s = screen.scale as int;
    button_at(
        halved(screen.width - 200 * s),
        screen.height / 4 - 8 * s + 156 * s,
        200 * s,
        s,
        lang.text_for("gui.done"@),
    )
}

/// The buttons of the screen.
pub open spec fn shader_buttons(screen: Screen, settings: ShaderSettings, lang: Language) -> Seq<
    ButtonModel,
> {
    Seq::new(12, |i: int| toggle_button(screen, settings, lang, i)).push(shaders_done(screen, lang))
}

/// What a click does: it turns a setting over, or leaves.
pub open spec fn shader_clicked(
    screen: GuiShaders,
    x: int,
    y: int,
    before: ShaderSettings,
    after: ShaderSettings,
    actions: Seq<GuiAction>,
) -> bool {
    match first_pressed(buttons_view(screen.buttons@), x, y) {
        Some(i) => if i < 12 {
            let t = toggle_at(i);
            &&& after.value(t) == !before.value(t)
            &&& forall|other: Toggle|
                other != t ==> #[trigger] after.value(other) == before.value(other)
            &&& actions == seq![GuiAction::SetToggle(t, !before.value(t))]
        } else {
            after == before && actions == leaves_settings(screen.from_main_menu)
        },
        None => after == before && actions == Seq::<GuiAction>::empty(),
    }
}

impl GuiShaders {
    pub fn new(from_main_menu: bool) -> (screen: GuiShaders)
        ensures
            screen.buttons@ == Seq::<GuiButton>::empty(),
            screen.from_main_menu == from_main_menu,
    {
        GuiShaders { buttons: Vec::new(), from_main_menu }
    }

    /// The screen to go back to.
    pub open spec fn goes_back_to(self) -> ScreenKind {
        ScreenKind::Options { from_main_menu: self.from_main_menu }
    }

    /// The screen to go back to.
    pub fn back_screen(&self) -> (kind: ScreenKind)
        ensures
            kind == self.goes_back_to(),
    {
        ScreenKind::Options { from_main_menu: self.from_main_menu }
    }

    /// Put the buttons in place.
    pub fn layout(&mut self, screen: &Screen, settings: &ShaderSettings, lang: &Language)
        requires
            screen.wf(),
        ensures
            buttons_view(final(self).buttons@) == shader_buttons(*screen, *settings, *lang),
            final(self).from_main_menu == old(self).from_main_menu,
    {
        let s: i32 = screen.scale;
        let x: i32 = half(screen.width - 200 * s);
        let top: i32 = screen.height / 4 - 8 * s;
        let mut buttons: Vec<GuiButton> = Vec::new();
        let mut i: usize = 0;
        while i < 12
            invariant
                i <= 12,
                screen.wf(),
                s == screen.scale,
                x == halved(screen.width - 200 * s),
                top == screen.height / 4 - 8 * s,
                buttons@.len() == i,
                forall|j: int|
                    0 <= j < i ==> (#[trigger] buttons@[j])@ == toggle_button(
                        *screen,
                        *settings,
                        *lang,
                        j,
                    ),
            decreases 12 - i,
        {
            let t = toggle_of(i);
            let row: i32 = (i % 6) as i32;
            let left: i32 = if i < 6 {
                x
            } else {
                x + 102 * s
            };
            assert(0 <= row * 24 * s <= 120 * s) by (nonlinear_arith)
                requires
                    0 <= row <= 5,
                    0 <= s,
            ;
            let down: i32 = row * 24 * s;
            let on = settings.get(t);
            let usable = settings.shaders || t == Toggle::Shaders || t == Toggle::Fog;
            let button = GuiButton::at_px(left, top + down, 98 * s, s, label_of(t, on, lang));
            buttons.push(button.disabled(!usable));
            i += 1;
        }
        buttons.push(GuiButton::at_px(x, top + 156 * s, 200 * s, s, lang.tr("gui.done")));
        self.buttons = buttons;
        assert(buttons_view(self.buttons@) =~= shader_buttons(*screen, *settings, *lang));
    }

    /// A click: it turns a setting over, or leaves.
    pub fn mouse_clicked(&self, x: i32, y: i32, settings: &mut ShaderSettings) -> (actions: Vec<
        GuiAction,
    >)
        requires
            self.buttons@.len() <= 13,
        ensures
            shader_clicked(*self, x as int, y as int, *old(settings), *final(settings), actions@),
    {
        match button_pressed(&self.buttons, x, y) {
            Some(i) => if i < 12 {
                let t = toggle_of(i);
                let on = settings.flip(t);
                only(GuiAction::SetToggle(t, on))
            } else {
                leave_settings(self.from_main_menu)
            },
            None => nothing(),
        }
    }

    /// What a key does.
    pub open spec fn key_does(self, key: GuiKey) -> Seq<GuiAction> {
        if key == GuiKey::Escape {
            leaves_settings(self.from_main_menu)
        } else {
            Seq::<GuiAction>::empty()
        }
    }

    /// A key: escape leaves.
    pub fn key_pressed(&self, key: GuiKey) -> (actions: Vec<GuiAction>)
        ensures
            actions@ == self.key_does(key),
    {
        if key == GuiKey::Escape {
            leave_settings(self.from_main_menu)
        } else {
            nothing()
        }
    }
}

/// The buttons of the shader settings do not overlap.
pub proof fn law_shader_buttons_are_apart(
    screen: Screen,
    settings: ShaderSettings,
    lang: Language,
)
    requires
        screen.wf(),
    ensures
        all_apart(shader_buttons(screen, settings, lang)),
{
    let b = shader_buttons(screen, settings, lang);
    let s = screen.scale as int;
    assert forall|i: int, j: int| 0 <= i < j < b.len() implies (#[trigger] b[i]).rect.apart((
    #[trigger] b[j]).rect) by {
        assert(i < 12);
        let p = i % 6;
        let q = j % 6;
        assert(0 <= p * 24 * s <= 120 * s) by (nonlinear_arith)
            requires
                0 <= p <= 5,
                0 <= s,
        ;
        assert(0 <= q * 24 * s <= 120 * s) by (nonlinear_arith)
            requires
                0 <= q <= 5,
                0 <= s,
        ;
        if j < 12 && (i < 6) == (j < 6) {
            assert(p + 1 <= q);
            assert(p * 24 * s + 24 * s <= q * 24 * s) by (nonlinear_arith)
                requires
                    p + 1 <= q,
                    0 <= s,
            ;
        }
    }
}

/// With shaders off a click changes nothing but the switch for shaders itself and
/// the fog.
pub proof fn law_shaders_off_leaves_effects_alone(
    screen: Screen,
    settings: ShaderSettings,
    lang: Language,
    x: int,
    y: int,
    i: int,
)
    requires
        !settings.shaders,
        0 <= i < 12,
        first_pressed(shader_buttons(screen, settings, lang), x, y) == Some(i),
    ensures
        toggle_at(i) == Toggle::Shaders || toggle_at(i) == Toggle::Fog,
{
    lemma_pressed_is_pressed(shader_buttons(screen, settings, lang), x, y, 0);
}

proof fn lemma_pressed_is_pressed(buttons: Seq<ButtonModel>, x: int, y: int, from: int)
    requires
        0 <= from,
    ensures
        super::widgets::pressed_from(buttons, x, y, from) matches Some(k) ==> 0 <= k < buttons.len()
            && buttons[k].pressed(x, y),
    decreases buttons.len() - from,
{
    if from < buttons.len() {
        lemma_pressed_is_pressed(buttons, x, y, from + 1);
    }
}

} // verus!
