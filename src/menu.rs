use vstd::prelude::*;
use crate::draw::{Command, Event};
use crate::geometry::{Point, Size, Input, contains, in_rect, in_bounds, MAX_ROWS};
use crate::state::State;
use crate::style::{Settings, TextStyle};
use crate::widgets::{Item, item_height_bound};

verus! {

/// Total height of the first `n` items, stacked top to bottom.
pub open spec fn items_height(items: Seq<Item>, settings: Settings, n: int) -> int
    decreases n,
{
    if n <= 0 {
        0
    } else {
        items_height(items, settings, n - 1) + items[n - 1].height(settings)
    }
}

/// Width of the widest of the first `n` items.
pub open spec fn items_width(items: Seq<Item>, settings: Settings, n: int) -> int
    decreases n,
{
    if n <= 0 {
        0
    } else {
        let w = items_width(items, settings, n - 1);
        let c = items[n - 1].width(settings);
        if w >= c { w } else { c }
    }
}

/// Where item `k` of a stack that starts at `origine` is drawn.
pub open spec fn item_origin(items: Seq<Item>, origine: Point, settings: Settings, k: int) -> Point {
    Point { x: origine.x, y: (origine.y + items_height(items, settings, k)) as i64 }
}

/// The items after a frame in which the first `n` of them were drawn.
pub open spec fn items_after(items: Seq<Item>, origine: Point, settings: Settings, input: Input, n: int) -> Seq<Item> {
    Seq::new(
        items.len(),
        |k: int|
            if k < n {
                items[k].after(item_origin(items, origine, settings, k), settings, input)
            } else {
                items[k]
            },
    )
}

/// The events of the first `n` items, in order.
pub open spec fn items_events(
    items: Seq<Item>,
    origine: Point,
    settings: Settings,
    input: Input,
    menu: usize,
    n: int,
) -> Seq<Event>
    decreases n,
{
    if n <= 0 {
        Seq::empty()
    } else {
        items_events(items, origine, settings, input, menu, n - 1) + items[n - 1].events(
            item_origin(items, origine, settings, n - 1),
            settings,
            input,
            menu,
            (n - 1) as usize,
        )
    }
}

/// What the first `n` items draw, in order.
pub open spec fn items_commands(items: Seq<Item>, origine: Point, settings: Settings, input: Input, n: int) -> Seq<Command>
    decreases n,
{
    if n <= 0 {
        Seq::empty()
    } else {
        items_commands(items, origine, settings, input, n - 1) + items[n - 1].commands(
            item_origin(items, origine, settings, n - 1),
            settings,
            input,
        )
    }
}

/// Whether one of the first `n` items closes the open menu.
pub open spec fn items_close(items: Seq<Item>, origine: Point, settings: Settings, input: Input, n: int) -> bool {
    exists|k: int|
        0 <= k < n && #[trigger] items[k].closes(item_origin(items, origine, settings, k), settings, input)
}

pub open spec fn items_wf(items: Seq<Item>) -> bool {
    items.len() < MAX_ROWS && forall|k: int| 0 <= k < items.len() ==> #[trigger] items[k].wf()
}

pub proof fn lemma_items_extent(items: Seq<Item>, settings: Settings, n: int)
    requires
        items_wf(items),
        0 <= n <= items.len(),
    ensures
        0 <= items_height(items, settings, n) <= n * item_height_bound(),
        0 <= items_width(items, settings, n) <= 3 * 65535,
    decreases n,
{
    if n > 0 {
        lemma_items_extent(items, settings, n - 1);
        items[n - 1].lemma_extent(settings);
    }
}

pub proof fn lemma_items_after_wf(items: Seq<Item>, origine: Point, settings: Settings, input: Input, n: int)
    requires
        items_wf(items),
    ensures
        items_wf(items_after(items, origine, settings, input, n)),
{
    let a = items_after(items, origine, settings, input, n);
    assert forall|k: int| 0 <= k < a.len() implies #[trigger] a[k].wf() by {
        assert(items[k].wf());
    }
}

/// Draws `childrens` top to bottom from `origine`, each below the one before,
/// and returns the bound of the stack: the widest item's width and the sum of
/// the heights.
pub fn vertical_draw(
    origine: Point,
    childrens: &mut Vec<Item>,
    settings: &Settings,
    input: Input,
    state: &mut State,
    menu: usize,
    cmds: &mut Vec<Command>,
    events: &mut Vec<Event>,
) -> (r: Size)
    requires
        in_bounds(origine),
        origine.y + MAX_ROWS * item_height_bound() <= crate::geometry::COORD_BOUND,
        items_wf(old(childrens)@),
    ensures
        r == (Size {
            w: items_width(old(childrens)@, *settings, old(childrens)@.len() as int) as i64,
            h: items_height(old(childrens)@, *settings, old(childrens)@.len() as int) as i64,
        }),
        final(childrens)@ == items_after(old(childrens)@, origine, *settings, input, old(childrens)@.len() as int),
        final(state).last_menu_id == old(state).last_menu_id,
        final(state).actif_menu_id == if items_close(old(childrens)@, origine, *settings, input, old(childrens)@.len() as int) {
            None
        } else {
            old(state).actif_menu_id
        },
        final(cmds)@ == old(cmds)@ + items_commands(old(childrens)@, origine, *settings, input, old(childrens)@.len() as int),
        final(events)@ == old(events)@ + items_events(old(childrens)@, origine, *settings, input, menu, old(childrens)@.len() as int),
{
    let ghost items = childrens@;
    let n = childrens.len();
    let mut cursor = origine;
    let mut bound = Size { w: 0, h: 0 };
    let mut i: usize = 0;
    while i < n
        invariant
            n == items.len(),
            items_wf(items),
            in_bounds(origine),
            origine.y + MAX_ROWS * item_height_bound() <= crate::geometry::COORD_BOUND,
            i <= n,
            cursor == item_origin(items, origine, *settings, i as int),
            bound == (Size {
                w: items_width(items, *settings, i as int) as i64,
                h: items_height(items, *settings, i as int) as i64,
            }),
            childrens@ == items_after(items, origine, *settings, input, i as int),
            state.last_menu_id == old(state).last_menu_id,
            state.actif_menu_id == if items_close(items, origine, *settings, input, i as int) {
                None
            } else {
                old(state).actif_menu_id
            },
            cmds@ == old(cmds)@ + items_commands(items, origine, *settings, input, i as int),
            events@ == old(events)@ + items_events(items, origine, *settings, input, menu, i as int),
        decreases n - i,
    {
        proof {
            lemma_items_extent(items, *settings, i as int);
            lemma_items_extent(items, *settings, i as int + 1);
            assert(i * item_height_bound() <= MAX_ROWS * item_height_bound()) by (nonlinear_arith)
                requires
                    i <= MAX_ROWS,
            ;
            assert(items[i as int].wf());
        }
        let size = childrens[i].draw(cursor, settings, input, state, menu, i, cmds, events);
        proof {
            assert(cmds@ =~= old(cmds)@ + items_commands(items, origine, *settings, input, i as int + 1));
            assert(childrens@ =~= items_after(items, origine, *settings, input, i as int + 1));
            assert(events@ =~= old(events)@ + items_events(items, origine, *settings, input, menu, i as int + 1));
            if items[i as int].closes(item_origin(items, origine, *settings, i as int), *settings, input) {
                assert(items_close(items, origine, *settings, input, i as int + 1));
            } else if items_close(items, origine, *settings, input, i as int + 1) {
                let k = choose|k: int|
                    0 <= k < i + 1 && #[trigger] items[k].closes(
                        item_origin(items, origine, *settings, k),
                        *settings,
                        input,
                    );
                assert(k < i);
                assert(items_close(items, origine, *settings, input, i as int));
            }
        }
        cursor = Point { x: cursor.x, y: cursor.y + size.h };
        bound = Size { w: if bound.w >= size.w { bound.w } else { size.w }, h: bound.h + size.h };
        i += 1;
    }
    bound
}


/// A top-level menu: a header in the bar and, while it is the open one, a
/// dropdown of items below it.
#[derive(Clone, Debug)]
pub struct Menu {
    pub label: String,
    /// The width of the label's text, as the host's font measures it.
    pub label_width: u16,
    /// The identity the bar gave the menu when it was attached.
    pub id: u8,
    pub childrens: Vec<Item>,
}

impl Menu {
    pub open spec fn wf(self) -> bool {
        items_wf(self.childrens@)
    }

    pub fn well_formed(&self) -> (r: bool)
        ensures
            r == self.wf(),
    {
        if self.childrens.len() >= MAX_ROWS {
            return false;
        }
        let mut i: usize = 0;
        while i < self.childrens.len()
            invariant
                i <= self.childrens.len(),
                forall|k: int| 0 <= k < i ==> #[trigger] self.childrens@[k].wf(),
            decreases self.childrens.len() - i,
        {
            if !self.childrens[i].well_formed() {
                return false;
            }
            i += 1;
        }
        true
    }

    /// A menu with no items, not yet attached to a bar.
    pub fn new(label: &str, label_width: u16) -> (r: Menu)
        ensures
            r.label@ == label@,
            r.label_width == label_width,
            r.id == 0,
            r.childrens@ == Seq::<Item>::empty(),
            r.wf(),
    {
        Menu { label: label.to_string(), label_width, id: 0, childrens: Vec::new() }
    }

    pub fn set_id(&mut self, id: u8)
        ensures
            *final(self) == (Menu { id, ..*old(self) }),
    {
        self.id = id;
    }

    /// The menu with `item` appended below its other items.
    pub fn with_item(self, item: Item) -> (r: Menu)
        requires
            self.childrens.len() + 1 < MAX_ROWS,
            self.wf(),
            item.wf(),
        ensures
            r == (Menu { childrens: r.childrens, ..self }),
            r.childrens@ == self.childrens@.push(item),
            r.wf(),
    {
        let mut m = self;
        m.childrens.push(item);
        m
    }

    /// The header is as wide as the label, with half a row height of margin
    /// on each side.
    pub open spec fn header_width(self, settings: Settings) -> int {
        self.label_width + settings.height
    }

    pub open spec fn header_hover(self, origine: Point, settings: Settings, input: Input) -> bool {
        in_rect(origine.x as int, origine.y as int, self.header_width(settings), settings.height as int, input.mouse)
    }

    pub open spec fn dropdown_origin(origine: Point, settings: Settings) -> Point {
        Point { x: origine.x, y: (origine.y + settings.height) as i64 }
    }

    /// Whether the press of this frame lands in the dropdown, which is drawn
    /// only when the menu is open when its turn comes.
    pub open spec fn click_in_menu(self, origine: Point, settings: Settings, input: Input, open: Option<u8>) -> bool {
        let items = self.childrens@;
        let n = items.len() as int;
        open == Some(self.id) && in_rect(
            origine.x as int,
            origine.y + settings.height,
            items_width(items, settings, n),
            items_height(items, settings, n),
            input.mouse,
        )
    }

    /// Which menu is open after this one's turn, given which was open before
    /// it: its items may close the menu, then the header decides.
    pub open spec fn open_after(self, origine: Point, settings: Settings, input: Input, open: Option<u8>) -> Option<u8> {
        let actif = open == Some(self.id);
        let hover = self.header_hover(origine, settings, input);
        let items = self.childrens@;
        let mid = if actif && items_close(
            items,
            Self::dropdown_origin(origine, settings),
            settings,
            input,
            items.len() as int,
        ) {
            None
        } else {
            open
        };
        if input.pressed && !self.click_in_menu(origine, settings, input, open) {
            if hover {
                if actif { None } else { Some(self.id) }
            } else {
                if actif { None } else { mid }
            }
        } else if hover && mid is Some && !actif {
            Some(self.id)
        } else {
            mid
        }
    }

    /// The header: highlighted while open or hovered, then the label.
    pub open spec fn header_commands(self, origine: Point, settings: Settings, input: Input, open: Option<u8>) -> Seq<Command> {
        let lit = open == Some(self.id) || self.header_hover(origine, settings, input);
        let text = Command::Text {
            text: self.label,
            x: (origine.x + settings.height / 2) as i64,
            y: settings.text_y_center_of(origine.y as int) as i64,
            style: TextStyle { font_size: settings.font_size, color: settings.text_color_of(lit) },
        };
        if lit {
            seq![
                Command::Rectangle {
                    x: origine.x,
                    y: origine.y,
                    w: self.header_width(settings) as i64,
                    h: settings.height as i64,
                    color: settings.item_hover_color,
                },
                text,
            ]
        } else {
            seq![text]
        }
    }

    /// The dropdown's frame, drawn over its items: a border two units thick
    /// and a shadow along its right and bottom sides.
    pub open spec fn dropdown_frame(at: Point, w: int, h: int, settings: Settings) -> Seq<Command> {
        seq![
            Command::RectangleLines {
                x: at.x,
                y: at.y,
                w: w as i64,
                h: h as i64,
                thickness: 2,
                color: settings.barre_border_color,
            },
            Command::Line {
                x1: (at.x + w + 1) as i64,
                y1: (at.y + 2) as i64,
                x2: (at.x + w + 1) as i64,
                y2: (at.y + h + 2) as i64,
                thickness: 2,
                color: settings.menu_shadow_color,
            },
            Command::Line {
                x1: (at.x + 2) as i64,
                y1: (at.y + h + 1) as i64,
                x2: (at.x + w + 2) as i64,
                y2: (at.y + h + 1) as i64,
                thickness: 2,
                color: settings.menu_shadow_color,
            },
        ]
    }

    /// What the menu draws in its turn: the header, then, if it was open, its
    /// items and the dropdown's frame.
    pub open spec fn commands(self, origine: Point, settings: Settings, input: Input, open: Option<u8>) -> Seq<Command> {
        let head = self.header_commands(origine, settings, input, open);
        let items = self.childrens@;
        let n = items.len() as int;
        let at = Self::dropdown_origin(origine, settings);
        if open == Some(self.id) {
            head + items_commands(items, at, settings, input, n) + Self::dropdown_frame(
                at,
                items_width(items, settings, n),
                items_height(items, settings, n),
                settings,
            )
        } else {
            head
        }
    }

    /// The items after the menu's turn: they changed only if it was open.
    pub open spec fn items_after_turn(self, origine: Point, settings: Settings, input: Input, open: Option<u8>) -> Seq<Item> {
        let items = self.childrens@;
        if open == Some(self.id) {
            items_after(items, Self::dropdown_origin(origine, settings), settings, input, items.len() as int)
        } else {
            items
        }
    }

    /// The events of its turn: those of its items, if it was open.
    pub open spec fn events(self, origine: Point, settings: Settings, input: Input, open: Option<u8>, menu: usize) -> Seq<Event> {
        let items = self.childrens@;
        if open == Some(self.id) {
            items_events(items, Self::dropdown_origin(origine, settings), settings, input, menu, items.len() as int)
        } else {
            Seq::empty()
        }
    }

    /// Draws the header at `origine` and, when the menu is open, its dropdown
    /// below it; applies this frame's input to the items and then to the
    /// header, updating which menu is open.
    pub fn draw(
        &mut self,
        origine: Point,
        settings: &Settings,
        input: Input,
        state: &mut State,
        menu: usize,
        cmds: &mut Vec<Command>,
        events: &mut Vec<Event>,
    ) -> (r: Size)
        requires
            in_bounds(origine),
            origine.y + 65536 + MAX_ROWS * item_height_bound() <= crate::geometry::COORD_BOUND,
            old(self).wf(),
        ensures
            r == (Size { w: old(self).header_width(*settings) as i64, h: settings.height as i64 }),
            final(self).label == old(self).label,
            final(self).label_width == old(self).label_width,
            final(self).id == old(self).id,
            final(self).childrens@ == old(self).items_after_turn(origine, *settings, input, old(state).actif_menu_id),
            final(self).wf(),
            final(state).last_menu_id == old(state).last_menu_id,
            final(state).actif_menu_id == old(self).open_after(origine, *settings, input, old(state).actif_menu_id),
            final(cmds)@ == old(cmds)@ + old(self).commands(origine, *settings, input, old(state).actif_menu_id),
            final(events)@ == old(events)@ + old(self).events(origine, *settings, input, old(state).actif_menu_id, menu),
    {
        let ghost items = self.childrens@;
        let ghost head = old(cmds)@ + old(self).header_commands(origine, *settings, input, old(state).actif_menu_id);
        let h = settings.height as i64;
        let width = self.label_width as i64 + h;
        let hover = contains(origine.x, origine.y, width, h, input.mouse);
        let actif = match state.actif_menu_id {
            Some(id) => id == self.id,
            None => false,
        };
        if actif || hover {
            cmds.push(Command::Rectangle { x: origine.x, y: origine.y, w: width, h, color: settings.item_hover_color });
        }
        cmds.push(
            Command::Text {
                text: self.label.clone(),
                x: origine.x + h / 2,
                y: settings.text_y_center(origine.y),
                style: settings.text_params(actif || hover),
            },
        );
        assert(cmds@ =~= head);
        let mut click_in_menu = false;
        if actif {
            let menu_origine = Point { x: origine.x, y: origine.y + h };
            let ghost mid = Self::dropdown_origin(origine, *settings);
            assert(menu_origine == mid);
            let bound = vertical_draw(menu_origine, &mut self.childrens, settings, input, state, menu, cmds, events);
            proof {
                lemma_items_extent(items, *settings, items.len() as int);
                lemma_items_after_wf(items, Self::dropdown_origin(origine, *settings), *settings, input, items.len() as int);
            }
            click_in_menu = contains(origine.x, origine.y + h, bound.w, bound.h, input.mouse);
            cmds.push(
                Command::RectangleLines {
                    x: menu_origine.x,
                    y: menu_origine.y,
                    w: bound.w,
                    h: bound.h,
                    thickness: 2,
                    color: settings.barre_border_color,
                },
            );
            cmds.push(
                Command::Line {
                    x1: menu_origine.x + bound.w + 1,
                    y1: menu_origine.y + 2,
                    x2: menu_origine.x + bound.w + 1,
                    y2: menu_origine.y + bound.h + 2,
                    thickness: 2,
                    color: settings.menu_shadow_color,
                },
            );
            cmds.push(
                Command::Line {
                    x1: menu_origine.x + 2,
                    y1: menu_origine.y + bound.h + 1,
                    x2: menu_origine.x + bound.w + 2,
                    y2: menu_origine.y + bound.h + 1,
                    thickness: 2,
                    color: settings.menu_shadow_color,
                },
            );
            assert(cmds@ =~= head + items_commands(items, mid, *settings, input, items.len() as int) + Self::dropdown_frame(
                mid,
                items_width(items, *settings, items.len() as int),
                items_height(items, *settings, items.len() as int),
                *settings,
            ));
        }
        proof {
            assert(events@ =~= old(events)@ + old(self).events(origine, *settings, input, old(state).actif_menu_id, menu));
        }
        let is_open = state.actif_menu_id.is_some();
        if input.pressed && !click_in_menu {
            state.actif_menu_id = match (hover, actif) {
                (true, true) => None,
                (true, false) => Some(self.id),
                (false, true) => None,
                (false, false) => state.actif_menu_id,
            };
        } else if hover && is_open && !actif {
            state.actif_menu_id = Some(self.id);
        }
        Size { w: width, h }
    }
}

} // verus!
