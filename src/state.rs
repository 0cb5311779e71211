use vstd::prelude::*;

verus! {

/// The interaction state that lives across frames: which menu is open, if
/// any, and the last identity handed to an attached menu.
#[derive(Clone, Copy, PartialEq, Eq, Debug)]
pub struct State {
    pub actif_menu_id: Option<u8>,
    pub last_menu_id: u8,
}

impl State {
    /// No menu open, no identity handed out yet.
    pub fn new() -> (r: State)
        ensures
            r.actif_menu_id is None,
            r.last_menu_id == 0,
    {
        State { actif_menu_id: None, last_menu_id: 0 }
    }

    /// Whether the menu with identity `id` is the open one.
    pub open spec fn is_open(self, id: u8) -> bool {
        self.actif_menu_id == Some(id)
    }
}

impl Default for State {
    fn default() -> (r: State)
        ensures
            r.actif_menu_id is None,
            r.last_menu_id == 0,
    {
        State::new()
    }
}

} // verus!
