//! The item drawn in hand, and how it is lowered and raised when it changes.

use vstd::prelude::*;
use crate::item::{copy_stack, same_stack, stack_view, ItemModel, SlotItem};

verus! {

/// The item drawn in hand.
#[derive(Debug)]
pub struct Equipped {
    pub item: Option<SlotItem>,
    pub slot: i32,
    /// How far it is raised, in tenths, and how far a tick before.
    pub progress: u8,
    pub previous: u8,
}

/// The value of [`Equipped`].
pub struct EquippedModel {
    pub item: Option<ItemModel>,
    pub slot: i32,
    pub progress: int,
    pub previous: int,
}

impl View for Equipped {
    type V = EquippedModel;

    open spec fn view(&self) -> EquippedModel {
        EquippedModel {
            item: stack_view(self.item),
            slot: self.slot,
            progress: self.progress as int,
            previous: self.previous as int,
        }
    }
}

impl EquippedModel {
    /// An empty hand, raised.
    pub open spec fn initial() -> EquippedModel {
        EquippedModel { item: None, slot: 0, progress: 10, previous: 10 }
    }

    pub open spec fn wf(self) -> bool {
        0 <= self.progress <= 10
    }

    /// The hand a step nearer to where it belongs: up while it shows what is selected,
    /// else down, by at most four tenths.
    pub open spec fn moved(self, raised: bool) -> int {
        if raised {
            if self.progress + 4 < 10 {
                self.progress + 4
            } else {
                10
            }
        } else if self.progress > 4 {
            self.progress - 4
        } else {
            0
        }
    }

    /// One tick: once the hand is down, it takes what is selected.
    pub open spec fn step(self, current: Option<ItemModel>, selected: i32) -> EquippedModel {
        let progress = self.moved(self.slot == selected && self.item == current);
        if progress < 1 {
            EquippedModel { item: current, slot: selected, progress, previous: self.progress }
        } else {
            EquippedModel { progress, previous: self.progress, ..self }
        }
    }

    /// A number of ticks with the same selection.
    pub open spec fn after(self, current: Option<ItemModel>, selected: i32, n: nat) -> EquippedModel
        decreases n,
    {
        if n == 0 {
            self
        } else {
            self.after(current, selected, (n - 1) as nat).step(current, selected)
        }
    }
}

impl Equipped {
    /// An empty hand, raised.
    pub fn new() -> (e: Equipped)
        ensures
            e@ == EquippedModel::initial(),
    {
        Equipped { item: None, slot: 0, progress: 10, previous: 10 }
    }

    /// One tick, with the selected slot and what is in it.
    pub fn update_equipped_item(&mut self, current: &Option<SlotItem>, selected: i32)
        requires
            old(self)@.wf(),
        ensures
            final(self)@.wf(),
            final(self)@ == old(self)@.step(stack_view(*current), selected),
    {
        self.previous = self.progress;
        let raised = self.slot == selected && same_stack(&self.item, current);
        if raised {
            self.progress = if self.progress < 6 {
                self.progress + 4
            } else {
                10
            };
        } else {
            self.progress = if self.progress > 4 {
                self.progress - 4
            } else {
                0
            };
        }
        if self.progress < 1 {
            self.item = copy_stack(current);
            self.slot = selected;
        }
    }
}

impl Default for Equipped {
    fn default() -> (e: Self)
        ensures
            e@ == EquippedModel::initial(),
    {
        Equipped::new()
    }
}

/// A new selection is shown within three ticks and raised within three more, and stays.
pub proof fn law_a_new_item_is_shown_and_raised(
    hand: EquippedModel,
    current: Option<ItemModel>,
    selected: i32,
    n: nat,
)
    requires
        hand.wf(),
    ensures
        n >= 3 ==> hand.after(current, selected, n).item == current && hand.after(
            current,
            selected,
            n,
        ).slot == selected,
        n >= 6 ==> hand.after(current, selected, n).progress == 10,
    decreases n,
{
    reveal_with_fuel(EquippedModel::after, 7);
    if n > 6 {
        law_a_new_item_is_shown_and_raised(hand, current, selected, (n - 1) as nat);
    }
}

} // verus!
