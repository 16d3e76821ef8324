//! The split button that adds a torrent: a main part that adds to the
//! selected destination, and a menu that selects another one and adds to it.

use vstd::prelude::*;
use crate::wire::Destination;

verus! {

/// What was clicked.
#[derive(Clone, Copy, Debug, PartialEq, Eq, Structural)]
pub enum Click {
    /// The main part of the button.
    Primary,
    /// The part that opens and closes the menu.
    Toggle,
    /// The menu item of a destination.
    Item(Destination),
}

/// What a click asks for.
#[derive(Clone, Copy, Debug, PartialEq, Eq, Structural)]
pub enum MagnetAction {
    /// Add to the selected destination.
    AddPrimary,
    /// Add to the destination picked from the menu.
    AddAlternate(Destination),
}

/// The state of the split button.
#[derive(Clone, Copy, Debug, PartialEq, Eq, Structural)]
pub struct AddButtonGroup {
    pub is_menu_open: bool,
    /// The destination of the main part.
    pub selected: Destination,
}

impl AddButtonGroup {
    /// The button after a click, and what the click asks for: the toggle
    /// opens or closes the menu and asks for nothing; every other click
    /// closes the menu, and a menu item selects its destination.
    pub open spec fn after(self, click: Click) -> (AddButtonGroup, Option<MagnetAction>) {
        match click {
            Click::Primary => (
                AddButtonGroup { is_menu_open: false, selected: self.selected },
                Some(MagnetAction::AddPrimary),
            ),
            Click::Toggle => (
                AddButtonGroup { is_menu_open: !self.is_menu_open, selected: self.selected },
                None,
            ),
            Click::Item(dest) => (
                AddButtonGroup { is_menu_open: false, selected: dest },
                Some(MagnetAction::AddAlternate(dest)),
            ),
        }
    }

    /// The destination that an action adds to.
    pub open spec fn target(self, action: MagnetAction) -> Destination {
        match action {
            MagnetAction::AddPrimary => self.selected,
            MagnetAction::AddAlternate(dest) => dest,
        }
    }

    /// A button with its menu closed.
    pub fn new(default_dest: Destination) -> (r: Self)
        ensures
            r == (AddButtonGroup { is_menu_open: false, selected: default_dest }),
    {
        AddButtonGroup { is_menu_open: false, selected: default_dest }
    }

    /// Takes a click.
    pub fn step(&mut self, click: Click) -> (r: Option<MagnetAction>)
        ensures
            (*final(self), r) == old(self).after(click),
    {
        match click {
            Click::Primary => {
                self.is_menu_open = false;
                Some(MagnetAction::AddPrimary)
            },
            Click::Toggle => {
                self.is_menu_open = !self.is_menu_open;
                None
            },
            Click::Item(dest) => {
                self.is_menu_open = false;
                self.selected = dest;
                Some(MagnetAction::AddAlternate(dest))
            },
        }
    }

    /// The destination that an action adds to.
    pub fn destination(&self, action: MagnetAction) -> (r: Destination)
        ensures
            r == self.target(action),
    {
        match action {
            MagnetAction::AddPrimary => self.selected,
            MagnetAction::AddAlternate(dest) => dest,
        }
    }
}

/// The destination that the button offers first for a torrent of a
/// category: the one that the category stands for, or `Movies` where it
/// stands for none.
pub fn default_destination(category: u32) -> (r: Destination)
    ensures
        r == match Destination::of_category(category) {
            Some(dest) => dest,
            None => Destination::Movies,
        },
{
    match Destination::from_category(category) {
        Some(dest) => dest,
        None => Destination::default(),
    }
}

} // verus!
