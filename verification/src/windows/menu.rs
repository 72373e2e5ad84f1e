//! Menus on Windows: items with an id and a label.

use vstd::prelude::*;

verus! {

/// A menu item: the id it reports when chosen, and the label shown.
#[derive(Debug, Clone)]
pub struct MenuItem {
    pub id: String,
    pub label: String,
}

impl MenuItem {
    /// An item with the given id and label.
    pub fn new(id: &str, label: &str) -> (item: Self)
        ensures
            item.id@ == id@,
            item.label@ == label@,
    {
        MenuItem { id: String::from_str(id), label: String::from_str(label) }
    }
}

/// The thing a menu item stands for; only nothing so far.
#[derive(Debug, Clone)]
pub enum RepresentedItem {
    Nothing,
}

} // verus!
