use vstd::prelude::*;
use crate::draw::{Command, Event, Frame};
use crate::geometry::{Point, Size, Input, in_bounds, COORD_BOUND, MAX_ROWS};
use crate::menu::Menu;
use crate::state::State;
use crate::style::Settings;
use crate::widgets::item_height_bound;

verus! {

/// The most menus a bar holds: identities are `u8` and start at one.
pub const MAX_MENUS: usize = 255;

/// Total width of the first `n` headers, laid left to right.
pub open spec fn menus_width(menus: Seq<Menu>, settings: Settings, n: int) -> int
    decreases n,
{
    if n <= 0 {
        0
    } else {
        menus_width(menus, settings, n - 1) + menus[n - 1].header_width(settings)
    }
}

/// Where the header of menu `k` of a row that starts at `origine` is drawn.
pub open spec fn menu_origin(menus: Seq<Menu>, origine: Point, settings: Settings, k: int) -> Point {
    Point { x: (origine.x + menus_width(menus, settings, k)) as i64, y: origine.y }
}

/// Which menu is open after the first `n` menus had their turn, starting
/// from `open`.
pub open spec fn open_fold(
    menus: Seq<Menu>,
    origine: Point,
    settings: Settings,
    input: Input,
    open: Option<u8>,
    n: int,
) -> Option<u8>
    decreases n,
{
    if n <= 0 {
        open
    } else {
        menus[n - 1].open_after(
            menu_origin(menus, origine, settings, n - 1),
            settings,
            input,
            open_fold(menus, origine, settings, input, open, n - 1),
        )
    }
}

/// The events of the first `n` menus' turns, in order.
pub open spec fn menus_events(
    menus: Seq<Menu>,
    origine: Point,
    settings: Settings,
    input: Input,
    open: Option<u8>,
    n: int,
) -> Seq<Event>
    decreases n,
{
    if n <= 0 {
        Seq::empty()
    } else {
        menus_events(menus, origine, settings, input, open, n - 1) + menus[n - 1].events(
            menu_origin(menus, origine, settings, n - 1),
            settings,
            input,
            open_fold(menus, origine, settings, input, open, n - 1),
            (n - 1) as usize,
        )
    }
}

/// What the first `n` menus draw, in order.
pub open spec fn menus_commands(
    menus: Seq<Menu>,
    origine: Point,
    settings: Settings,
    input: Input,
    open: Option<u8>,
    n: int,
) -> Seq<Command>
    decreases n,
{
    if n <= 0 {
        Seq::empty()
    } else {
        menus_commands(menus, origine, settings, input, open, n - 1) + menus[n - 1].commands(
            menu_origin(menus, origine, settings, n - 1),
            settings,
            input,
            open_fold(menus, origine, settings, input, open, n - 1),
        )
    }
}

/// `after` is menu `k` of `menus` after its turn.
pub open spec fn menu_turned(
    menus: Seq<Menu>,
    origine: Point,
    settings: Settings,
    input: Input,
    open: Option<u8>,
    k: int,
    after: Menu,
) -> bool {
    let m = menus[k];
    &&& after.label == m.label
    &&& after.label_width == m.label_width
    &&& after.id == m.id
    &&& after.childrens@ == m.items_after_turn(
        menu_origin(menus, origine, settings, k),
        settings,
        input,
        open_fold(menus, origine, settings, input, open, k),
    )
}

pub open spec fn menus_wf(menus: Seq<Menu>) -> bool {
    menus.len() <= MAX_MENUS && forall|k: int| 0 <= k < menus.len() ==> #[trigger] menus[k].wf()
}

pub proof fn lemma_menus_width(menus: Seq<Menu>, settings: Settings, n: int)
    requires
        0 <= n <= menus.len(),
    ensures
        0 <= menus_width(menus, settings, n) <= n * 0x2_0000,
    decreases n,
{
    if n > 0 {
        lemma_menus_width(menus, settings, n - 1);
    }
}

/// Draws the headers of `childrens` left to right from `origine`, each after
/// the one before, with the open menu's dropdown; returns the bound of the
/// row: the sum of the header widths and the row height.
pub fn horizontal_draw(
    origine: Point,
    childrens: &mut Vec<Menu>,
    settings: &Settings,
    input: Input,
    state: &mut State,
    cmds: &mut Vec<Command>,
    events: &mut Vec<Event>,
) -> (r: Size)
    requires
        in_bounds(origine),
        origine.x + MAX_MENUS * 0x2_0000 <= COORD_BOUND,
        origine.y + 65536 + MAX_ROWS * item_height_bound() <= COORD_BOUND,
        menus_wf(old(childrens)@),
    ensures
        r == (Size {
            w: menus_width(old(childrens)@, *settings, old(childrens)@.len() as int) as i64,
            h: if old(childrens)@.len() > 0 { settings.height as i64 } else { 0 },
        }),
        final(childrens)@.len() == old(childrens)@.len(),
        forall|k: int|
            0 <= k < old(childrens)@.len() ==> menu_turned(
                old(childrens)@,
                origine,
                *settings,
                input,
                old(state).actif_menu_id,
                k,
                #[trigger] final(childrens)@[k],
            ),
        menus_wf(final(childrens)@),
        final(state).last_menu_id == old(state).last_menu_id,
        final(state).actif_menu_id == open_fold(
            old(childrens)@,
            origine,
            *settings,
            input,
            old(state).actif_menu_id,
            old(childrens)@.len() as int,
        ),
        final(cmds)@ == old(cmds)@ + menus_commands(
            old(childrens)@,
            origine,
            *settings,
            input,
            old(state).actif_menu_id,
            old(childrens)@.len() as int,
        ),
        final(events)@ == old(events)@ + menus_events(
            old(childrens)@,
            origine,
            *settings,
            input,
            old(state).actif_menu_id,
            old(childrens)@.len() as int,
        ),
{
    let ghost menus = childrens@;
    let ghost open0 = state.actif_menu_id;
    let n = childrens.len();
    let mut cursor = origine;
    let mut bound = Size { w: 0, h: 0 };
    let mut i: usize = 0;
    while i < n
        invariant
            n == menus.len(),
            menus_wf(menus),
            in_bounds(origine),
            origine.x + MAX_MENUS * 0x2_0000 <= COORD_BOUND,
            origine.y + 65536 + MAX_ROWS * item_height_bound() <= COORD_BOUND,
            i <= n,
            cursor == menu_origin(menus, origine, *settings, i as int),
            bound == (Size {
                w: menus_width(menus, *settings, i as int) as i64,
                h: if i > 0 { settings.height as i64 } else { 0 },
            }),
            childrens@.len() == n,
            forall|k: int|
                0 <= k < i ==> menu_turned(menus, origine, *settings, input, open0, k, #[trigger] childrens@[k]),
            forall|k: int| i <= k < n ==> #[trigger] childrens@[k] == menus[k],
            forall|k: int| 0 <= k < n ==> (#[trigger] childrens@[k]).wf(),
            state.last_menu_id == old(state).last_menu_id,
            state.actif_menu_id == open_fold(menus, origine, *settings, input, open0, i as int),
            open0 == old(state).actif_menu_id,
            cmds@ == old(cmds)@ + menus_commands(menus, origine, *settings, input, open0, i as int),
            events@ == old(events)@ + menus_events(menus, origine, *settings, input, open0, i as int),
        decreases n - i,
    {
        proof {
            lemma_menus_width(menus, *settings, i as int);
            lemma_menus_width(menus, *settings, i as int + 1);
            assert(i * 0x2_0000 <= MAX_MENUS * 0x2_0000) by (nonlinear_arith)
                requires
                    i <= MAX_MENUS,
            ;
            assert(childrens@[i as int].wf());
        }
        let size = childrens[i].draw(cursor, settings, input, state, i, cmds, events);
        proof {
            assert(cmds@ =~= old(cmds)@ + menus_commands(menus, origine, *settings, input, open0, i as int + 1));
            assert(events@ =~= old(events)@ + menus_events(menus, origine, *settings, input, open0, i as int + 1));
        }
        cursor = Point { x: cursor.x + size.w, y: cursor.y };
        bound = Size { w: bound.w + size.w, h: if bound.h >= size.h { bound.h } else { size.h } };
        i += 1;
    }
    bound
}


/// The menu bar: its menus, left to right, and the interaction state that
/// they share.
#[derive(Clone, Debug)]
pub struct Barre {
    pub childrens: Vec<Menu>,
    pub state: State,
}

/// The bar's background: a strip one row high across the surface, with a
/// one-unit border along its bottom.
pub open spec fn background_commands(settings: Settings, screen_width: u32) -> Seq<Command> {
    seq![
        Command::Rectangle {
            x: 0,
            y: 0,
            w: screen_width as i64,
            h: settings.height as i64,
            color: settings.barre_background_color,
        },
        Command::Rectangle {
            x: 0,
            y: (settings.height - 1) as i64,
            w: screen_width as i64,
            h: 1,
            color: settings.barre_border_color,
        },
    ]
}

pub open spec fn bar_origin() -> Point {
    Point { x: 0, y: 0 }
}

impl Barre {
    /// Menu `k` carries identity `k + 1`, the counter has handed out one
    /// identity per menu, and every menu is well formed.
    pub open spec fn wf(self) -> bool {
        &&& menus_wf(self.childrens@)
        &&& self.state.last_menu_id as int == self.childrens@.len()
        &&& forall|k: int| 0 <= k < self.childrens@.len() ==> #[trigger] self.childrens@[k].id == k + 1
    }

    pub fn well_formed(&self) -> (r: bool)
        ensures
            r == self.wf(),
    {
        let n = self.childrens.len();
        if n > MAX_MENUS || self.state.last_menu_id as usize != n {
            return false;
        }
        let mut i: usize = 0;
        while i < n
            invariant
                n == self.childrens@.len(),
                n <= MAX_MENUS,
                i <= n,
                forall|k: int| 0 <= k < i ==> #[trigger] self.childrens@[k].wf(),
                forall|k: int| 0 <= k < i ==> #[trigger] self.childrens@[k].id == k + 1,
            decreases n - i,
        {
            if !self.childrens[i].well_formed() || self.childrens[i].id as usize != i + 1 {
                return false;
            }
            i += 1;
        }
        true
    }

    /// An empty bar with no menu open.
    pub fn new() -> (r: Barre)
        ensures
            r.wf(),
            r.childrens@.len() == 0,
            r.state.actif_menu_id is None,
            r.state.last_menu_id == 0,
    {
        Barre { childrens: Vec::new(), state: State::new() }
    }

    /// Attaches `menu` after the others, with the next identity.
    pub fn with_menu(self, menu: Menu) -> (r: Barre)
        requires
            self.wf(),
            self.childrens.len() < MAX_MENUS,
            menu.wf(),
        ensures
            r.wf(),
            r.state.last_menu_id == self.state.last_menu_id + 1,
            r.state.actif_menu_id == self.state.actif_menu_id,
            r.childrens@ == self.childrens@.push(Menu { id: (self.state.last_menu_id + 1) as u8, ..menu }),
    {
        let mut b = self;
        let mut m = menu;
        b.state.last_menu_id = b.state.last_menu_id + 1;
        m.id = b.state.last_menu_id;
        b.childrens.push(m);
        proof {
            assert forall|k: int| 0 <= k < b.childrens@.len() implies #[trigger] b.childrens@[k].wf() by {
                if k < self.childrens@.len() {
                    assert(self.childrens@[k].wf());
                }
            }
        }
        b
    }

    fn draw_background(&self, settings: &Settings, screen_width: u32, cmds: &mut Vec<Command>)
        ensures
            final(cmds)@ == old(cmds)@ + background_commands(*settings, screen_width),
    {
        let width = screen_width as i64;
        let h = settings.height as i64;
        cmds.push(Command::Rectangle { x: 0, y: 0, w: width, h, color: settings.barre_background_color });
        cmds.push(Command::Rectangle { x: 0, y: h - 1, w: width, h: 1, color: settings.barre_border_color });
        proof {
            assert(final(cmds)@ =~= old(cmds)@ + background_commands(*settings, screen_width));
        }
    }

    /// Runs one frame: draws the background across `screen_width`, then the
    /// menus from the top-left corner, applying `input` to each in turn.
    pub fn draw(&mut self, settings: &Settings, input: Input, screen_width: u32) -> (r: Frame)
        requires
            old(self).wf(),
        ensures
            final(self).wf(),
            final(self).state.last_menu_id == old(self).state.last_menu_id,
            final(self).childrens@.len() == old(self).childrens@.len(),
            forall|k: int|
                0 <= k < old(self).childrens@.len() ==> menu_turned(
                    old(self).childrens@,
                    bar_origin(),
                    *settings,
                    input,
                    old(self).state.actif_menu_id,
                    k,
                    #[trigger] final(self).childrens@[k],
                ),
            final(self).state.actif_menu_id == open_fold(
                old(self).childrens@,
                bar_origin(),
                *settings,
                input,
                old(self).state.actif_menu_id,
                old(self).childrens@.len() as int,
            ),
            r.commands@ == background_commands(*settings, screen_width) + menus_commands(
                old(self).childrens@,
                bar_origin(),
                *settings,
                input,
                old(self).state.actif_menu_id,
                old(self).childrens@.len() as int,
            ),
            r.events@ == menus_events(
                old(self).childrens@,
                bar_origin(),
                *settings,
                input,
                old(self).state.actif_menu_id,
                old(self).childrens@.len() as int,
            ),
    {
        let mut commands: Vec<Command> = Vec::new();
        let mut events: Vec<Event> = Vec::new();
        self.draw_background(settings, screen_width, &mut commands);
        let ghost c = commands@;
        assert(c =~= background_commands(*settings, screen_width));
        horizontal_draw(Point { x: 0, y: 0 }, &mut self.childrens, settings, input, &mut self.state, &mut commands, &mut events);
        assert(events@ =~= menus_events(
            old(self).childrens@,
            bar_origin(),
            *settings,
            input,
            old(self).state.actif_menu_id,
            old(self).childrens@.len() as int,
        ));
        Frame { commands, events }
    }
}

impl Default for Barre {
    fn default() -> (r: Barre)
        ensures
            r.wf(),
            r.childrens@.len() == 0,
            r.state.actif_menu_id is None,
            r.state.last_menu_id == 0,
    {
        Barre::new()
    }
}

} // verus!
