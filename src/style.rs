use vstd::prelude::*;

verus! {

/// Sizes and colors shared by every component. Colors are `0xRRGGBB` values;
/// the font itself belongs to the host, which measures and draws text.
#[derive(Clone, Copy, PartialEq, Eq, Debug)]
pub struct Settings {
    pub font_size: u16,
    /// Height of one row, and of the bar.
    pub height: u16,
    /// Minimum width of a dropdown row.
    pub width: u16,
    pub barre_background_color: u32,
    pub barre_border_color: u32,
    pub item_hover_color: u32,
    pub menu_color: u32,
    pub text_color: u32,
    pub text_hover_color: u32,
    pub menu_shadow_color: u32,
}

/// How a label is to be written: its size and its color.
#[derive(Clone, Copy, PartialEq, Eq, Debug)]
pub struct TextStyle {
    pub font_size: u16,
    pub color: u32,
}

/// The classic light theme: 14-point text, rows 26 high and at least 220
/// wide, a beige bar, blue highlight, white dropdowns.
pub open spec fn classic_theme() -> Settings {
    Settings {
        font_size: 14,
        height: 26,
        width: 220,
        barre_background_color: 0xe9e6d3,
        barre_border_color: 0xa0a0a0,
        item_hover_color: 0x316ac5,
        menu_color: 0xffffff,
        text_color: 0x000000,
        text_hover_color: 0xffffff,
        menu_shadow_color: 0xd2d2d2,
    }
}

impl Settings {
    /// The classic light theme.
    pub fn new() -> (r: Settings)
        ensures
            r == classic_theme(),
    {
        Settings {
            font_size: 14,
            height: 26,
            width: 220,
            barre_background_color: 0xe9e6d3,
            barre_border_color: 0xa0a0a0,
            item_hover_color: 0x316ac5,
            menu_color: 0xffffff,
            text_color: 0x000000,
            text_hover_color: 0xffffff,
            menu_shadow_color: 0xd2d2d2,
        }
    }

    pub open spec fn text_color_of(self, over: bool) -> u32 {
        if over { self.text_hover_color } else { self.text_color }
    }

    /// The style of a label, hovered (`over`) or not.
    pub fn text_params(&self, over: bool) -> (r: TextStyle)
        ensures
            r.font_size == self.font_size,
            r.color == self.text_color_of(over),
    {
        TextStyle { font_size: self.font_size, color: if over { self.text_hover_color } else { self.text_color } }
    }

    pub open spec fn text_y_center_of(self, origine_y: int) -> int {
        origine_y + self.height as int / 2 + self.font_size as int / 3
    }

    /// The baseline of a label in the row whose top is at `origine_y`.
    pub fn text_y_center(&self, origine_y: i64) -> (r: i64)
        requires
            origine_y + self.height + self.font_size <= i64::MAX,
        ensures
            r == self.text_y_center_of(origine_y as int),
    {
        origine_y + (self.height / 2) as i64 + (self.font_size / 3) as i64
    }
}

impl Default for Settings {
    fn default() -> (r: Settings)
        ensures
            r == classic_theme(),
    {
        Settings::new()
    }
}

} // verus!
