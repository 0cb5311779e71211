use vstd::prelude::*;
use crate::draw::{Command, Event};
use crate::geometry::{Point, Size, Input, contains, in_rect, in_bounds, near, MAX_ROWS};
use crate::state::State;
use crate::style::{Settings, TextStyle};

verus! {

/// Whether the pointer is over the row at `origine` of width `w`.
pub open spec fn row_hover(origine: Point, w: int, settings: Settings, input: Input) -> bool {
    in_rect(origine.x as int, origine.y as int, w, settings.height as int, input.mouse)
}

/// The background of a row: highlighted while hovered.
pub open spec fn row_background(origine: Point, w: int, settings: Settings, hover: bool) -> Command {
    Command::Rectangle {
        x: origine.x,
        y: origine.y,
        w: w as i64,
        h: settings.height as i64,
        color: if hover { settings.item_hover_color } else { settings.menu_color },
    }
}

/// A row's label, one row height in from its left edge.
pub open spec fn row_label(text: String, origine: Point, settings: Settings, hover: bool) -> Command {
    Command::Text {
        text,
        x: (origine.x + settings.height) as i64,
        y: settings.text_y_center_of(origine.y as int) as i64,
        style: TextStyle { font_size: settings.font_size, color: settings.text_color_of(hover) },
    }
}

/// The check mark of the row whose top-left corner is `origine`.
pub open spec fn row_checkmark(origine: Point, settings: Settings, hover: bool) -> Command {
    Command::Checkmark {
        x: (origine.x + settings.height * 15 / 100) as i64,
        y: (origine.y + settings.height * 15 / 100) as i64,
        size: (settings.height * 70 / 100) as i64,
        color: settings.text_color_of(hover),
    }
}

fn background(origine: Point, w: i64, settings: &Settings, hover: bool) -> (r: Command)
    ensures
        r == row_background(origine, w as int, *settings, hover),
{
    Command::Rectangle {
        x: origine.x,
        y: origine.y,
        w,
        h: settings.height as i64,
        color: if hover { settings.item_hover_color } else { settings.menu_color },
    }
}

fn label(text: &String, origine: Point, settings: &Settings, hover: bool) -> (r: Command)
    requires
        near(origine),
    ensures
        r == row_label(*text, origine, *settings, hover),
{
    Command::Text {
        text: text.clone(),
        x: origine.x + settings.height as i64,
        y: settings.text_y_center(origine.y),
        style: settings.text_params(hover),
    }
}

fn checkmark(origine: Point, settings: &Settings, hover: bool) -> (r: Command)
    requires
        near(origine),
    ensures
        r == row_checkmark(origine, *settings, hover),
{
    let h = settings.height as i64;
    Command::Checkmark {
        x: origine.x + h * 15 / 100,
        y: origine.y + h * 15 / 100,
        size: h * 70 / 100,
        color: if hover { settings.text_hover_color } else { settings.text_color },
    }
}

/// A labelled on/off toggle.
#[derive(Clone, Debug)]
pub struct Checkbox {
    pub actif: bool,
    pub label: String,
}

impl Checkbox {
    pub fn new(label: &str, actif: bool) -> (r: Checkbox)
        ensures
            r.label@ == label@,
            r.actif == actif,
    {
        Checkbox { label: label.to_string(), actif }
    }

    /// Whether this frame's input toggles the box drawn at `origine`.
    pub open spec fn clicked(origine: Point, settings: Settings, input: Input) -> bool {
        input.pressed && row_hover(origine, settings.width as int, settings, input)
    }

    /// The box after this frame.
    pub open spec fn after(self, origine: Point, settings: Settings, input: Input) -> Checkbox {
        Checkbox {
            actif: self.actif != Self::clicked(origine, settings, input),
            label: self.label,
        }
    }

    /// What the box draws this frame.
    pub open spec fn commands(self, origine: Point, settings: Settings, input: Input) -> Seq<Command> {
        let hover = row_hover(origine, settings.width as int, settings, input);
        let now = self.after(origine, settings, input);
        let base = seq![
            row_background(origine, settings.width as int, settings, hover),
            row_label(self.label, origine, settings, hover),
        ];
        if now.actif { base.push(row_checkmark(origine, settings, hover)) } else { base }
    }

    /// Draws the box, toggles it on a press over its row, and reports the new
    /// value.
    pub fn draw(
        &mut self,
        origine: Point,
        settings: &Settings,
        input: Input,
        menu: usize,
        item: usize,
        cmds: &mut Vec<Command>,
        events: &mut Vec<Event>,
    ) -> (r: Size)
        requires
            in_bounds(origine),
        ensures
            r == (Size { w: settings.width as i64, h: settings.height as i64 }),
            *final(self) == old(self).after(origine, *settings, input),
            final(cmds)@ == old(cmds)@ + old(self).commands(origine, *settings, input),
            final(events)@ == if Self::clicked(origine, *settings, input) {
                old(events)@.push(Event::Toggled { menu, item, actif: final(self).actif })
            } else {
                old(events)@
            },
    {
        let w = settings.width as i64;
        let hover = contains(origine.x, origine.y, w, settings.height as i64, input.mouse);
        cmds.push(background(origine, w, settings, hover));
        if hover && input.pressed {
            self.actif = !self.actif;
            events.push(Event::Toggled { menu, item, actif: self.actif });
        }
        cmds.push(label(&self.label, origine, settings, hover));
        if self.actif {
            cmds.push(checkmark(origine, settings, hover));
        }
        proof {
            let ghost c = old(self).commands(origine, *settings, input);
            assert(final(cmds)@ =~= old(cmds)@ + c);
        }
        Size { w, h: settings.height as i64 }
    }
}


/// A thin horizontal rule between groups of rows.
#[derive(Clone, Copy, Debug)]
pub struct Separator;

/// A separator takes a quarter of a row's height.
pub open spec fn separator_height(settings: Settings) -> int {
    settings.height as int / 4
}

impl Separator {
    pub open spec fn commands(origine: Point, settings: Settings) -> Seq<Command> {
        let h = separator_height(settings);
        seq![
            Command::Rectangle {
                x: origine.x,
                y: origine.y,
                w: settings.width as i64,
                h: h as i64,
                color: settings.menu_color,
            },
            Command::Line {
                x1: (origine.x + h) as i64,
                y1: (origine.y + h / 2) as i64,
                x2: (origine.x + settings.width - h) as i64,
                y2: (origine.y + h / 2) as i64,
                thickness: 1,
                color: settings.barre_border_color,
            },
        ]
    }

    /// Draws the rule; it never reacts to the pointer.
    pub fn draw(&self, origine: Point, settings: &Settings, cmds: &mut Vec<Command>) -> (r: Size)
        requires
            in_bounds(origine),
        ensures
            r == (Size { w: settings.width as i64, h: separator_height(*settings) as i64 }),
            final(cmds)@ == old(cmds)@ + Self::commands(origine, *settings),
    {
        let w = settings.width as i64;
        let height = (settings.height / 4) as i64;
        let half_height = height / 2;
        cmds.push(Command::Rectangle { x: origine.x, y: origine.y, w, h: height, color: settings.menu_color });
        cmds.push(
            Command::Line {
                x1: origine.x + height,
                y1: origine.y + half_height,
                x2: origine.x + w - height,
                y2: origine.y + half_height,
                thickness: 1,
                color: settings.barre_border_color,
            },
        );
        proof {
            assert(final(cmds)@ =~= old(cmds)@ + Self::commands(origine, *settings));
        }
        Size { w, h: height }
    }
}

/// A labelled action: pressing it reports a click and closes the open menu.
#[derive(Clone, Debug)]
pub struct Button {
    pub label: String,
    /// The width of the label's text, as the host's font measures it.
    pub label_width: u16,
}

impl Button {
    pub fn new(label: &str, label_width: u16) -> (r: Button)
        ensures
            r.label@ == label@,
            r.label_width == label_width,
    {
        Button { label: label.to_string(), label_width }
    }

    /// The row is as wide as the configured width, or wider where the label
    /// with a row height of margin on each side needs more.
    pub open spec fn width(self, settings: Settings) -> int {
        let need = self.label_width + 2 * settings.height;
        if settings.width >= need { settings.width as int } else { need }
    }

    pub open spec fn clicked(self, origine: Point, settings: Settings, input: Input) -> bool {
        input.pressed && row_hover(origine, self.width(settings), settings, input)
    }

    pub open spec fn commands(self, origine: Point, settings: Settings, input: Input) -> Seq<Command> {
        let w = self.width(settings);
        let hover = row_hover(origine, w, settings, input);
        seq![row_background(origine, w, settings, hover), row_label(self.label, origine, settings, hover)]
    }

    /// Draws the button; a press over it reports a click and closes the open
    /// menu.
    pub fn draw(
        &self,
        origine: Point,
        settings: &Settings,
        input: Input,
        state: &mut State,
        menu: usize,
        item: usize,
        cmds: &mut Vec<Command>,
        events: &mut Vec<Event>,
    ) -> (r: Size)
        requires
            in_bounds(origine),
        ensures
            r == (Size { w: self.width(*settings) as i64, h: settings.height as i64 }),
            final(state).last_menu_id == old(state).last_menu_id,
            final(state).actif_menu_id == if self.clicked(origine, *settings, input) {
                None
            } else {
                old(state).actif_menu_id
            },
            final(cmds)@ == old(cmds)@ + self.commands(origine, *settings, input),
            final(events)@ == if self.clicked(origine, *settings, input) {
                old(events)@.push(Event::Clicked { menu, item })
            } else {
                old(events)@
            },
    {
        let need = self.label_width as i64 + 2 * settings.height as i64;
        let sw = settings.width as i64;
        let w = if sw >= need { sw } else { need };
        let hover = contains(origine.x, origine.y, w, settings.height as i64, input.mouse);
        cmds.push(background(origine, w, settings, hover));
        if hover && input.pressed {
            events.push(Event::Clicked { menu, item });
            state.actif_menu_id = None;
        }
        cmds.push(label(&self.label, origine, settings, hover));
        proof {
            assert(final(cmds)@ =~= old(cmds)@ + self.commands(origine, *settings, input));
        }
        Size { w, h: settings.height as i64 }
    }
}


/// A group of options of which exactly one is chosen, one row each.
#[derive(Clone, Debug)]
pub struct Radio {
    pub childrens: Vec<String>,
    pub actif: Option<String>,
}

impl Radio {
    pub open spec fn wf(self) -> bool {
        self.childrens.len() < MAX_ROWS
    }

    /// Builds the group with the first option chosen.
    pub fn new(childrens: Vec<&str>) -> (r: Radio)
        requires
            childrens.len() < MAX_ROWS,
        ensures
            r.wf(),
            r.childrens.len() == childrens.len(),
            forall|i: int| 0 <= i < childrens.len() ==> #[trigger] r.childrens[i]@ == childrens[i]@,
            r.actif == if childrens.len() > 0 { Some(r.childrens[0]) } else { None::<String> },
    {
        let mut owned: Vec<String> = Vec::new();
        let mut i: usize = 0;
        while i < childrens.len()
            invariant
                i <= childrens.len(),
                owned.len() == i,
                forall|j: int| 0 <= j < i ==> #[trigger] owned[j]@ == childrens[j]@,
            decreases childrens.len() - i,
        {
            owned.push(childrens[i].to_string());
            i += 1;
        }
        let actif = if owned.len() > 0 { Some(owned[0].clone()) } else { None };
        Radio { childrens: owned, actif }
    }

    /// The chosen option, if the group has any.
    pub fn get_actif(&self) -> (r: Option<&String>)
        ensures
            match r {
                Some(s) => self.actif == Some(*s),
                None => self.actif is None,
            },
    {
        match &self.actif {
            Some(s) => Some(s),
            None => None,
        }
    }

    /// Where row `i` of the group is drawn.
    pub open spec fn row_origin(origine: Point, settings: Settings, i: int) -> Point {
        Point { x: origine.x, y: (origine.y + i * settings.height) as i64 }
    }

    /// Whether this frame's press lands on row `i`. Rows share their edges,
    /// so a press on an edge lands on the two rows that meet there.
    pub open spec fn row_pressed(origine: Point, settings: Settings, input: Input, i: int) -> bool {
        input.pressed && row_hover(Self::row_origin(origine, settings, i), settings.width as int, settings, input)
    }

    /// The last of the first `n` rows that the press lands on, if any.
    pub open spec fn last_hit(self, origine: Point, settings: Settings, input: Input, n: int) -> Option<int>
        decreases n,
    {
        if n <= 0 {
            None
        } else if Self::row_pressed(origine, settings, input, n - 1) {
            Some(n - 1)
        } else {
            self.last_hit(origine, settings, input, n - 1)
        }
    }

    /// The options chosen among the first `n` rows, top to bottom.
    pub open spec fn selections(self, origine: Point, settings: Settings, input: Input, menu: usize, item: usize, n: int) -> Seq<Event>
        decreases n,
    {
        if n <= 0 {
            Seq::empty()
        } else {
            let before = self.selections(origine, settings, input, menu, item, n - 1);
            if Self::row_pressed(origine, settings, input, n - 1) {
                before.push(Event::Selected { menu, item, value: self.childrens@[n - 1] })
            } else {
                before
            }
        }
    }

    /// The chosen option once the first `n` rows have been handled.
    pub open spec fn chosen_after(self, origine: Point, settings: Settings, input: Input, n: int) -> Option<String> {
        match self.last_hit(origine, settings, input, n) {
            Some(k) => Some(self.childrens@[k]),
            None => self.actif,
        }
    }

    /// What the first `n` rows draw: each its background and label, and a
    /// check mark where its text is that of the option chosen by then.
    pub open spec fn commands(self, origine: Point, settings: Settings, input: Input, n: int) -> Seq<Command>
        decreases n,
    {
        if n <= 0 {
            Seq::empty()
        } else {
            let row = Self::row_origin(origine, settings, n - 1);
            let hover = row_hover(row, settings.width as int, settings, input);
            let text = self.childrens@[n - 1];
            let base = self.commands(origine, settings, input, n - 1) + seq![
                row_background(row, settings.width as int, settings, hover),
                row_label(text, row, settings, hover),
            ];
            match self.chosen_after(origine, settings, input, n) {
                Some(v) => if v@ == text@ { base.push(row_checkmark(row, settings, hover)) } else { base },
                None => base,
            }
        }
    }

    /// The group after this frame: the option of the last row pressed is
    /// chosen.
    pub open spec fn after(self, origine: Point, settings: Settings, input: Input) -> Radio {
        match self.last_hit(origine, settings, input, self.childrens.len() as int) {
            Some(i) => Radio { childrens: self.childrens, actif: Some(self.childrens[i]) },
            None => self,
        }
    }

    pub open spec fn height(self, settings: Settings) -> int {
        settings.height * self.childrens.len()
    }

    /// Draws one row per option, checks the chosen one, and on a press over a
    /// row chooses that option and reports its text.
    pub fn draw(
        &mut self,
        origine: Point,
        settings: &Settings,
        input: Input,
        menu: usize,
        item: usize,
        cmds: &mut Vec<Command>,
        events: &mut Vec<Event>,
    ) -> (r: Size)
        requires
            in_bounds(origine),
            old(self).wf(),
        ensures
            r == (Size { w: settings.width as i64, h: old(self).height(*settings) as i64 }),
            *final(self) == old(self).after(origine, *settings, input),
            final(cmds)@ == old(cmds)@ + old(self).commands(
                origine,
                *settings,
                input,
                old(self).childrens.len() as int,
            ),
            final(events)@ == old(events)@ + old(self).selections(
                origine,
                *settings,
                input,
                menu,
                item,
                old(self).childrens.len() as int,
            ),
    {
        let ghost start = *self;
        let w = settings.width as i64;
        let h = settings.height as i64;
        let n = self.childrens.len();
        let mut i: usize = 0;
        while i < n
            invariant
                in_bounds(origine),
                n == start.childrens.len(),
                n < MAX_ROWS,
                i <= n,
                w == settings.width,
                h == settings.height,
                self.childrens == start.childrens,
                self.actif == match start.last_hit(origine, *settings, input, i as int) {
                    Some(k) => Some(start.childrens[k]),
                    None => start.actif,
                },
                events@ == old(events)@ + start.selections(origine, *settings, input, menu, item, i as int),
                cmds@ == old(cmds)@ + start.commands(origine, *settings, input, i as int),
            decreases n - i,
        {
            assert(i as int * h <= MAX_ROWS * 65536) by (nonlinear_arith)
                requires
                    i < MAX_ROWS,
                    0 <= h < 65536,
            ;
            let padding = i as i64 * h;
            let row = Point { x: origine.x, y: origine.y + padding };
            assert(near(row));
            let hover = contains(row.x, row.y, w, h, input.mouse);
            cmds.push(background(row, w, settings, hover));
            if hover && input.pressed {
                let value = self.childrens[i].clone();
                events.push(Event::Selected { menu, item, value: value.clone() });
                self.actif = Some(value);
            }
            cmds.push(label(&self.childrens[i], row, settings, hover));
            let checked = match &self.actif {
                Some(v) => *v == self.childrens[i],
                None => false,
            };
            if checked {
                cmds.push(checkmark(row, settings, hover));
            }
            proof {
                assert(row == Self::row_origin(origine, *settings, i as int));
                assert(cmds@ =~= old(cmds)@ + start.commands(origine, *settings, input, i + 1));
                assert(events@ =~= old(events)@ + start.selections(origine, *settings, input, menu, item, i + 1));
            }
            i += 1;
        }
        assert(n as int * h <= MAX_ROWS * 65536) by (nonlinear_arith)
            requires
                n < MAX_ROWS,
                0 <= h < 65536,
        ;
        Size { w, h: n as i64 * h }
    }
}


/// One row of a dropdown: any of the leaf widgets.
#[derive(Clone, Debug)]
pub enum Item {
    Button(Button),
    Checkbox(Checkbox),
    Radio(Radio),
    Separator(Separator),
}

/// The largest height of one item: a radio group of the most options.
pub open spec fn item_height_bound() -> int {
    0x1_0000_0000
}

impl Item {
    pub open spec fn wf(self) -> bool {
        match self {
            Item::Radio(r) => r.wf(),
            _ => true,
        }
    }

    pub fn well_formed(&self) -> (r: bool)
        ensures
            r == self.wf(),
    {
        match self {
            Item::Radio(r) => r.childrens.len() < MAX_ROWS,
            _ => true,
        }
    }

    pub open spec fn width(self, settings: Settings) -> int {
        match self {
            Item::Button(b) => b.width(settings),
            _ => settings.width as int,
        }
    }

    pub open spec fn height(self, settings: Settings) -> int {
        match self {
            Item::Radio(r) => r.height(settings),
            Item::Separator(_) => separator_height(settings),
            _ => settings.height as int,
        }
    }

    /// The item after a frame in which it was drawn at `origine`.
    pub open spec fn after(self, origine: Point, settings: Settings, input: Input) -> Item {
        match self {
            Item::Checkbox(c) => Item::Checkbox(c.after(origine, settings, input)),
            Item::Radio(r) => Item::Radio(r.after(origine, settings, input)),
            _ => self,
        }
    }

    /// What the item reports in that frame: nothing or one event.
    pub open spec fn events(self, origine: Point, settings: Settings, input: Input, menu: usize, item: usize) -> Seq<Event> {
        match self {
            Item::Button(b) => if b.clicked(origine, settings, input) {
                seq![Event::Clicked { menu, item }]
            } else {
                Seq::empty()
            },
            Item::Checkbox(c) => if Checkbox::clicked(origine, settings, input) {
                seq![Event::Toggled { menu, item, actif: !c.actif }]
            } else {
                Seq::empty()
            },
            Item::Radio(r) => r.selections(origine, settings, input, menu, item, r.childrens.len() as int),
            Item::Separator(_) => Seq::empty(),
        }
    }

    /// What the item draws in that frame.
    pub open spec fn commands(self, origine: Point, settings: Settings, input: Input) -> Seq<Command> {
        match self {
            Item::Button(b) => b.commands(origine, settings, input),
            Item::Checkbox(c) => c.commands(origine, settings, input),
            Item::Radio(r) => r.commands(origine, settings, input, r.childrens.len() as int),
            Item::Separator(_) => Separator::commands(origine, settings),
        }
    }

    /// Whether the item closes the open menu in that frame.
    pub open spec fn closes(self, origine: Point, settings: Settings, input: Input) -> bool {
        match self {
            Item::Button(b) => b.clicked(origine, settings, input),
            _ => false,
        }
    }

    pub proof fn lemma_extent(self, settings: Settings)
        requires
            self.wf(),
        ensures
            0 <= self.width(settings) <= 3 * 65535,
            0 <= self.height(settings) <= item_height_bound(),
    {
        if let Item::Radio(r) = self {
            assert(settings.height * r.childrens.len() <= item_height_bound()) by (nonlinear_arith)
                requires
                    settings.height < 65536,
                    r.childrens.len() < 65536,
            ;
        }
    }

    /// Draws the item at `origine` and applies this frame's input to it.
    pub fn draw(
        &mut self,
        origine: Point,
        settings: &Settings,
        input: Input,
        state: &mut State,
        menu: usize,
        item: usize,
        cmds: &mut Vec<Command>,
        events: &mut Vec<Event>,
    ) -> (r: Size)
        requires
            in_bounds(origine),
            old(self).wf(),
        ensures
            r == (Size { w: old(self).width(*settings) as i64, h: old(self).height(*settings) as i64 }),
            *final(self) == old(self).after(origine, *settings, input),
            final(state).last_menu_id == old(state).last_menu_id,
            final(state).actif_menu_id == if old(self).closes(origine, *settings, input) {
                None
            } else {
                old(state).actif_menu_id
            },
            final(cmds)@ == old(cmds)@ + old(self).commands(origine, *settings, input),
            final(events)@ == old(events)@ + old(self).events(origine, *settings, input, menu, item),
    {
        let ghost e0 = events@;
        let r = match self {
            Item::Button(b) => b.draw(origine, settings, input, state, menu, item, cmds, events),
            Item::Checkbox(c) => c.draw(origine, settings, input, menu, item, cmds, events),
            Item::Radio(rd) => rd.draw(origine, settings, input, menu, item, cmds, events),
            Item::Separator(sp) => sp.draw(origine, settings, cmds),
        };
        proof {
            assert(events@ =~= e0 + old(self).events(origine, *settings, input, menu, item));
        }
        r
    }
}


/// What every dropdown row can do: draw itself at an origin, react to this
/// frame's input, and report the space it occupied so that the next row can
/// be placed below it.
pub trait Component {
    /// Whether the component can be drawn at all (its rows fit).
    spec fn drawable(&self) -> bool;

    /// The space the component occupies with `settings`.
    spec fn occupied(&self, settings: Settings) -> Size;

    fn draw_at(
        &mut self,
        origine: Point,
        settings: &Settings,
        input: Input,
        state: &mut State,
        menu: usize,
        item: usize,
        cmds: &mut Vec<Command>,
        events: &mut Vec<Event>,
    ) -> (r: Size)
        requires
            in_bounds(origine),
            old(self).drawable(),
        ensures
            r == old(self).occupied(*settings),
            r.w >= 0,
            r.h >= 0,
            final(self).drawable(),
            final(state).last_menu_id == old(state).last_menu_id,
            old(cmds)@.len() <= final(cmds)@.len(),
            final(cmds)@.subrange(0, old(cmds)@.len() as int) == old(cmds)@,
            old(events)@.len() <= final(events)@.len(),
            final(events)@.subrange(0, old(events)@.len() as int) == old(events)@,
    ;
}

impl Component for Item {
    open spec fn drawable(&self) -> bool {
        self.wf()
    }

    open spec fn occupied(&self, settings: Settings) -> Size {
        Size { w: self.width(settings) as i64, h: self.height(settings) as i64 }
    }

    fn draw_at(
        &mut self,
        origine: Point,
        settings: &Settings,
        input: Input,
        state: &mut State,
        menu: usize,
        item: usize,
        cmds: &mut Vec<Command>,
        events: &mut Vec<Event>,
    ) -> (r: Size) {
        proof {
            old(self).lemma_extent(*settings);
        }
        let ghost e0 = events@;
        let r = self.draw(origine, settings, input, state, menu, item, cmds, events);
        proof {
            assert(events@.subrange(0, e0.len() as int) =~= e0);
            if let Item::Radio(rd) = *old(self) {
                let a = rd.after(origine, *settings, input);
                assert(a.childrens == rd.childrens);
            }
        }
        r
    }
}


impl Component for Checkbox {
    open spec fn drawable(&self) -> bool {
        true
    }

    open spec fn occupied(&self, settings: Settings) -> Size {
        Size { w: settings.width as i64, h: settings.height as i64 }
    }

    fn draw_at(
        &mut self,
        origine: Point,
        settings: &Settings,
        input: Input,
        state: &mut State,
        menu: usize,
        item: usize,
        cmds: &mut Vec<Command>,
        events: &mut Vec<Event>,
    ) -> (r: Size) {
        let ghost e0 = events@;
        let ghost c0 = cmds@;
        let r = Checkbox::draw(self, origine, settings, input, menu, item, cmds, events);
        proof {
            assert(events@.subrange(0, e0.len() as int) =~= e0);
            assert(cmds@.subrange(0, c0.len() as int) =~= c0);
        }
        r
    }
}

impl Component for Radio {
    open spec fn drawable(&self) -> bool {
        self.wf()
    }

    open spec fn occupied(&self, settings: Settings) -> Size {
        Size { w: settings.width as i64, h: self.height(settings) as i64 }
    }

    fn draw_at(
        &mut self,
        origine: Point,
        settings: &Settings,
        input: Input,
        state: &mut State,
        menu: usize,
        item: usize,
        cmds: &mut Vec<Command>,
        events: &mut Vec<Event>,
    ) -> (r: Size) {
        let ghost e0 = events@;
        let ghost c0 = cmds@;
        let r = Radio::draw(self, origine, settings, input, menu, item, cmds, events);
        proof {
            assert(events@.subrange(0, e0.len() as int) =~= e0);
            assert(cmds@.subrange(0, c0.len() as int) =~= c0);
            Item::Radio(*old(self)).lemma_extent(*settings);
        }
        r
    }
}

impl Component for Separator {
    open spec fn drawable(&self) -> bool {
        true
    }

    open spec fn occupied(&self, settings: Settings) -> Size {
        Size { w: settings.width as i64, h: separator_height(settings) as i64 }
    }

    fn draw_at(
        &mut self,
        origine: Point,
        settings: &Settings,
        input: Input,
        state: &mut State,
        menu: usize,
        item: usize,
        cmds: &mut Vec<Command>,
        events: &mut Vec<Event>,
    ) -> (r: Size) {
        let ghost e0 = events@;
        let ghost c0 = cmds@;
        let r = Separator::draw(self, origine, settings, cmds);
        proof {
            assert(events@.subrange(0, e0.len() as int) =~= e0);
            assert(cmds@.subrange(0, c0.len() as int) =~= c0);
        }
        r
    }
}

impl Component for Button {
    open spec fn drawable(&self) -> bool {
        true
    }

    open spec fn occupied(&self, settings: Settings) -> Size {
        Size { w: self.width(settings) as i64, h: settings.height as i64 }
    }

    fn draw_at(
        &mut self,
        origine: Point,
        settings: &Settings,
        input: Input,
        state: &mut State,
        menu: usize,
        item: usize,
        cmds: &mut Vec<Command>,
        events: &mut Vec<Event>,
    ) -> (r: Size) {
        let ghost e0 = events@;
        let ghost c0 = cmds@;
        let r = Button::draw(self, origine, settings, input, state, menu, item, cmds, events);
        proof {
            assert(events@.subrange(0, e0.len() as int) =~= e0);
            assert(cmds@.subrange(0, c0.len() as int) =~= c0);
        }
        r
    }
}

} // verus!
