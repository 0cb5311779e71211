use vstd::prelude::*;
use crate::bar::{Barre, menus_width, menu_origin, open_fold, bar_origin};
use crate::geometry::{Input, Point};
use crate::menu::{Menu, items_close};
use crate::style::Settings;

verus! {

/// Attaching menus hands out identities 1, 2, 3, ... in order: each menu's
/// identity is one more than the number of menus attached before it, so
/// identities strictly increase and never repeat.
pub proof fn lemma_identities_increase(bar: Barre)
    requires
        bar.wf(),
    ensures
        forall|k: int| 0 <= k < bar.childrens@.len() ==> #[trigger] bar.childrens@[k].id == k + 1,
        forall|i: int, j: int|
            0 <= i < j < bar.childrens@.len() ==> #[trigger] bar.childrens@[i].id < #[trigger] bar.childrens@[j].id,
{
}

/// At most one menu of a bar is open: no two menus both carry the identity
/// that the state marks as open. Every frame keeps the bar well formed, so
/// this holds after any sequence of frames.
pub proof fn lemma_at_most_one_open(bar: Barre)
    requires
        bar.wf(),
    ensures
        forall|i: int, j: int|
            0 <= i < bar.childrens@.len() && 0 <= j < bar.childrens@.len() && bar.state.is_open(
                #[trigger] bar.childrens@[i].id,
            ) && bar.state.is_open(#[trigger] bar.childrens@[j].id) ==> i == j,
{
}

/// The pointer is over no edge that the header of menu `k` shares with a
/// neighbour or with the dropdowns below: edges belong to both rectangles that
/// meet there.
pub open spec fn off_edges(bar: Barre, settings: Settings, input: Input, k: int) -> bool {
    let o = menu_origin(bar.childrens@, bar_origin(), settings, k);
    &&& o.x < input.mouse.x < o.x + bar.childrens@[k].header_width(settings)
    &&& input.mouse.y < settings.height
}

proof fn lemma_menus_width_mono(menus: Seq<Menu>, settings: Settings, a: int, b: int)
    requires
        0 <= a <= b <= menus.len(),
    ensures
        menus_width(menus, settings, a) <= menus_width(menus, settings, b),
    decreases b - a,
{
    if a < b {
        lemma_menus_width_mono(menus, settings, a, b - 1);
    }
}

/// A menu whose header the pointer is not over, that is not the open one and
/// whose dropdown the press misses, leaves the open menu as it was.
proof fn lemma_turn_elsewhere(m: Menu, origine: Point, settings: Settings, input: Input, open: Option<u8>)
    requires
        input.pressed,
        !m.header_hover(origine, settings, input),
        open != Some(m.id),
    ensures
        m.open_after(origine, settings, input, open) == open,
{
}

/// The header of menu `j` is not under the pointer when the pointer is over
/// the header of another menu `k` of the same row.
proof fn lemma_headers_apart(bar: Barre, settings: Settings, input: Input, k: int, j: int)
    requires
        bar.wf(),
        0 <= k < bar.childrens@.len(),
        0 <= j < bar.childrens@.len(),
        j != k,
        bar.childrens@[k].header_hover(menu_origin(bar.childrens@, bar_origin(), settings, k), settings, input),
        off_edges(bar, settings, input, k),
    ensures
        !bar.childrens@[j].header_hover(menu_origin(bar.childrens@, bar_origin(), settings, j), settings, input),
{
    let menus = bar.childrens@;
    crate::bar::lemma_menus_width(menus, settings, k);
    crate::bar::lemma_menus_width(menus, settings, j);
    crate::bar::lemma_menus_width(menus, settings, k + 1);
    crate::bar::lemma_menus_width(menus, settings, j + 1);
    if j < k {
        lemma_menus_width_mono(menus, settings, j + 1, k);
    } else {
        lemma_menus_width_mono(menus, settings, k + 1, j);
    }
}

proof fn lemma_header_press_fold(bar: Barre, settings: Settings, input: Input, k: int, j: int)
    requires
        bar.wf(),
        input.pressed,
        0 <= k < bar.childrens@.len(),
        0 <= j <= bar.childrens@.len(),
        bar.childrens@[k].header_hover(menu_origin(bar.childrens@, bar_origin(), settings, k), settings, input),
        off_edges(bar, settings, input, k),
    ensures
        ({
            let menus = bar.childrens@;
            let o = open_fold(menus, bar_origin(), settings, input, bar.state.actif_menu_id, j);
            let id = menus[k].id;
            if j <= k {
                (o == Some(id)) == bar.state.is_open(id)
            } else {
                o == if bar.state.is_open(id) { None } else { Some(id) }
            }
        }),
    decreases j,
{
    let menus = bar.childrens@;
    if j > 0 {
        lemma_header_press_fold(bar, settings, input, k, j - 1);
        let o = open_fold(menus, bar_origin(), settings, input, bar.state.actif_menu_id, j - 1);
        let origin = menu_origin(menus, bar_origin(), settings, j - 1);
        let m = menus[j - 1];
        // The press is on the bar's row, above every dropdown.
        assert(!m.click_in_menu(origin, settings, input, o));
        if j - 1 != k {
            lemma_headers_apart(bar, settings, input, k, j - 1);
            assert(m.id == j);
        }
    }
}

/// Pressing the header of a menu that is not open, while another menu is
/// open (or none is), leaves exactly that menu open at the end of the frame
/// (for a press off the edges the header shares with others).
pub proof fn lemma_header_click_opens(bar: Barre, settings: Settings, input: Input, k: int)
    requires
        bar.wf(),
        input.pressed,
        0 <= k < bar.childrens@.len(),
        bar.childrens@[k].header_hover(menu_origin(bar.childrens@, bar_origin(), settings, k), settings, input),
        off_edges(bar, settings, input, k),
        !bar.state.is_open(bar.childrens@[k].id),
    ensures
        open_fold(
            bar.childrens@,
            bar_origin(),
            settings,
            input,
            bar.state.actif_menu_id,
            bar.childrens@.len() as int,
        ) == Some(bar.childrens@[k].id),
{
    lemma_header_press_fold(bar, settings, input, k, bar.childrens@.len() as int);
}

/// Pressing the header of the open menu closes it, and no other menu opens
/// (for a press off the edges the header shares with others).
pub proof fn lemma_header_click_closes(bar: Barre, settings: Settings, input: Input, k: int)
    requires
        bar.wf(),
        input.pressed,
        0 <= k < bar.childrens@.len(),
        bar.childrens@[k].header_hover(menu_origin(bar.childrens@, bar_origin(), settings, k), settings, input),
        off_edges(bar, settings, input, k),
        bar.state.is_open(bar.childrens@[k].id),
    ensures
        open_fold(
            bar.childrens@,
            bar_origin(),
            settings,
            input,
            bar.state.actif_menu_id,
            bar.childrens@.len() as int,
        ) is None,
{
    lemma_header_press_fold(bar, settings, input, k, bar.childrens@.len() as int);
}


proof fn lemma_dropdown_press_fold(bar: Barre, settings: Settings, input: Input, k: int, j: int)
    requires
        bar.wf(),
        input.pressed,
        0 <= k < bar.childrens@.len(),
        0 <= j <= bar.childrens@.len(),
        bar.state.is_open(bar.childrens@[k].id),
        bar.childrens@[k].click_in_menu(
            menu_origin(bar.childrens@, bar_origin(), settings, k),
            settings,
            input,
            bar.state.actif_menu_id,
        ),
        !items_close(
            bar.childrens@[k].childrens@,
            Menu::dropdown_origin(menu_origin(bar.childrens@, bar_origin(), settings, k), settings),
            settings,
            input,
            bar.childrens@[k].childrens@.len() as int,
        ),
        input.mouse.y > settings.height,
    ensures
        open_fold(bar.childrens@, bar_origin(), settings, input, bar.state.actif_menu_id, j)
            == bar.state.actif_menu_id,
    decreases j,
{
    let menus = bar.childrens@;
    if j > 0 {
        lemma_dropdown_press_fold(bar, settings, input, k, j - 1);
        if j - 1 != k {
            assert(menus[j - 1].id == j);
            lemma_turn_elsewhere(
                menus[j - 1],
                menu_origin(menus, bar_origin(), settings, j - 1),
                settings,
                input,
                bar.state.actif_menu_id,
            );
        }
    }
}

/// A press inside the open menu's dropdown, below the bar's row, leaves that
/// menu open in the same frame, unless one of its items closes it itself (a
/// button does).
pub proof fn lemma_dropdown_click_keeps_open(bar: Barre, settings: Settings, input: Input, k: int)
    requires
        bar.wf(),
        input.pressed,
        0 <= k < bar.childrens@.len(),
        bar.state.is_open(bar.childrens@[k].id),
        bar.childrens@[k].click_in_menu(
            menu_origin(bar.childrens@, bar_origin(), settings, k),
            settings,
            input,
            bar.state.actif_menu_id,
        ),
        !items_close(
            bar.childrens@[k].childrens@,
            Menu::dropdown_origin(menu_origin(bar.childrens@, bar_origin(), settings, k), settings),
            settings,
            input,
            bar.childrens@[k].childrens@.len() as int,
        ),
        input.mouse.y > settings.height,
    ensures
        open_fold(
            bar.childrens@,
            bar_origin(),
            settings,
            input,
            bar.state.actif_menu_id,
            bar.childrens@.len() as int,
        ) == Some(bar.childrens@[k].id),
{
    lemma_dropdown_press_fold(bar, settings, input, k, bar.childrens@.len() as int);
}

} // verus!
