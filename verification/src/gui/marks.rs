//! What a screen draws: fills, sprites, items and lines of text, in their order.

use vstd::prelude::*;
use super::merchant::OfferPart;
use super::widgets::UiRect;

verus! {

/// A sheet of sprites.
#[derive(Debug, Clone, Copy, PartialEq, Eq, Structural)]
pub enum GuiTexture {
    Inventory,
    Chest,
    Dispenser,
    Hopper,
    Furnace,
    CraftingTable,
    BrewingStand,
    EnchantingTable,
    Anvil,
    Beacon,
    Villager,
    /// The bars of the server list, among others.
    Icons,
    /// The logo of the title screen.
    Title,
}

/// A color: one of those of the screens, or red, green, blue and opacity.
#[derive(Debug, Clone, Copy, PartialEq, Eq, Structural)]
pub enum Ink {
    White,
    Gray,
    Yellow,
    /// What stands for two actions on one key.
    ConflictRed,
    Rgba(u8, u8, u8, u8),
}

/// An item that is drawn.
#[derive(Debug, Clone, Copy, PartialEq, Eq, Structural)]
pub enum ShownItem {
    Slot(usize),
    /// The stack on the pointer, above everything else.
    Carried,
    Offer(OfferPart),
}

/// Something drawn that holds no text of its own.
#[derive(Debug, Clone, Copy, PartialEq, Eq, Structural)]
pub enum Shape {
    /// The background of a screen.
    Background,
    /// The background of a list.
    ListBackground,
    Fill { rect: UiRect, ink: Ink },
    /// A fill above the items.
    Overlay { rect: UiRect, ink: Ink },
    /// A fill that goes from one color at the top to another.
    Gradient { rect: UiRect, from: Ink, to: Ink },
    /// A piece of a sheet: its corner and its size there.
    Sprite { rect: UiRect, sheet: GuiTexture, u: u32, v: u32, width: u32, height: u32 },
    /// An item, its count in letters of a size.
    Item { rect: UiRect, item: ShownItem, size: i32 },
    /// The name of the item in a slot.
    ItemName { x: i32, y: i32, ink: Ink, slot: usize },
    /// What an enchanting table offers.
    EnchantOptions,
    /// The picture that a server sent.
    Favicon { rect: UiRect, server: usize },
    /// The frame around a selected row.
    Selection { rect: UiRect },
    /// The bar beside a list: the first row shown, the last that can be, and all rows.
    Scrollbar { scroll: i32, last: i32, total: i32 },
    /// A button of the screen.
    Button(usize),
    /// A text field of the screen.
    Field(usize),
    /// A slider of the screen.
    Slider { rect: UiRect, place: usize },
}

/// Where a line of text is.
#[derive(Debug, Clone, Copy, PartialEq, Eq, Structural)]
pub enum TextAt {
    Plain { x: i32, y: i32 },
    Shadowed { x: i32, y: i32 },
    /// With a shadow, and cut off to a width.
    Fitted { x: i32, y: i32, width: i32 },
    /// With a shadow, and ending at a pixel.
    Ending { x: i32, y: i32 },
    /// With a shadow, and starting half its width before a pixel.
    Around { x: i32, y: i32 },
    /// In the middle of the screen.
    Centered { y: i32 },
    /// With a shadow, and half of what it leaves of a width before it.
    Halfway { width: i32, y: i32 },
    /// In the middle of a rectangle.
    Within { rect: UiRect },
}

/// Something drawn.
#[derive(Debug, PartialEq, Eq)]
pub enum Mark {
    Shape(Shape),
    Text { at: TextAt, ink: Ink, text: String },
}

/// The value of [`Mark`].
pub enum MarkModel {
    Shape(Shape),
    Text { at: TextAt, ink: Ink, text: Seq<char> },
}

impl View for Mark {
    type V = MarkModel;

    open spec fn view(&self) -> MarkModel {
        match self {
            Mark::Shape(shape) => MarkModel::Shape(*shape),
            Mark::Text { at, ink, text } => MarkModel::Text { at: *at, ink: *ink, text: text@ },
        }
    }
}

/// The values of marks.
pub open spec fn marks_view(marks: Seq<Mark>) -> Seq<MarkModel> {
    Seq::new(marks.len(), |i: int| marks[i]@)
}

/// A piece of a sheet.
pub open spec fn sprite(rect: UiRect, sheet: GuiTexture, u: int, v: int, width: int, height: int) -> MarkModel {
    MarkModel::Shape(
        Shape::Sprite {
            rect,
            sheet,
            u: u as u32,
            v: v as u32,
            width: width as u32,
            height: height as u32,
        },
    )
}

/// A line of text.
pub open spec fn line(at: TextAt, ink: Ink, text: Seq<char>) -> MarkModel {
    MarkModel::Text { at, ink, text }
}

/// All buttons of a screen, in their order.
pub open spec fn all_buttons(n: nat) -> Seq<MarkModel> {
    Seq::new(n, |i: int| MarkModel::Shape(Shape::Button(i as usize)))
}

/// Draw a shape after the others.
pub fn put(marks: &mut Vec<Mark>, shape: Shape)
    ensures
        marks_view(final(marks)@) == marks_view(old(marks)@).push(MarkModel::Shape(shape)),
{
    marks.push(Mark::Shape(shape));
    assert(marks_view(marks@) =~= marks_view(old(marks)@).push(MarkModel::Shape(shape)));
}

/// Draw a line of text after the others.
pub fn put_text(marks: &mut Vec<Mark>, at: TextAt, ink: Ink, text: String)
    ensures
        marks_view(final(marks)@) == marks_view(old(marks)@).push(line(at, ink, text@)),
{
    let ghost shown = text@;
    marks.push(Mark::Text { at, ink, text });
    assert(marks_view(marks@) =~= marks_view(old(marks)@).push(line(at, ink, shown)));
}

/// Draw other marks after these.
pub fn put_all(marks: &mut Vec<Mark>, more: Vec<Mark>)
    ensures
        marks_view(final(marks)@) == marks_view(old(marks)@) + marks_view(more@),
{
    let mut more = more;
    let ghost added = more@;
    marks.append(&mut more);
    assert(marks_view(marks@) =~= marks_view(old(marks)@) + marks_view(added));
}

/// Draw all buttons of a screen after these.
pub fn put_buttons(marks: &mut Vec<Mark>, n: usize)
    ensures
        marks_view(final(marks)@) == marks_view(old(marks)@) + all_buttons(n as nat),
{
    let ghost before = marks_view(marks@);
    let mut i: usize = 0;
    assert(before =~= before + all_buttons(0));
    while i < n
        invariant
            i <= n,
            marks_view(marks@) == before + all_buttons(i as nat),
        decreases n - i,
    {
        put(marks, Shape::Button(i));
        i += 1;
        assert(marks_view(marks@) =~= before + all_buttons(i as nat));
    }
}

} // verus!
