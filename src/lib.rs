//! An immediate-mode menu bar: a bar of top-level menus, each with a dropdown
//! of buttons, checkboxes, radio groups and separators. Each frame the host
//! hands the bar the pointer position and whether the primary button was just
//! pressed; the bar lays itself out, hit-tests, updates which menu is open and
//! the widgets' own state, and returns the drawing commands and the events of
//! that frame. Text is measured by the host: widgets with a label carry its
//! width.
mod bar;
mod draw;
mod geometry;
mod laws;
mod menu;
mod state;
mod style;
mod widgets;

pub use bar::{
    background_commands, bar_origin, horizontal_draw, menu_origin, menu_turned, menus_commands, menus_events,
    menus_wf, menus_width, open_fold, Barre, MAX_MENUS,
};
pub use draw::{Command, Event, Frame};
pub use geometry::{contains, in_bounds, in_rect, Input, Point, Size, COORD_BOUND, MAX_ROWS};
pub use laws::{
    lemma_at_most_one_open, lemma_dropdown_click_keeps_open, lemma_header_click_closes, lemma_header_click_opens,
    lemma_identities_increase, off_edges,
};
pub use menu::{
    item_origin, items_after, items_close, items_commands, items_events, items_height, items_wf, items_width,
    vertical_draw, Menu,
};
pub use state::State;
pub use style::{classic_theme, Settings, TextStyle};
pub use widgets::{separator_height, Button, Checkbox, Component, Item, Radio, Separator};
