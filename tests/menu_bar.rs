use xp_menu_bar::{
    horizontal_draw, Barre, Button, Checkbox, Command, Event, Input, Item, Menu, Point, Radio, Separator, Settings,
    Size, State,
};

fn at(x: i64, y: i64, pressed: bool) -> Input {
    Input { mouse: Point { x, y }, pressed }
}

fn idle() -> Input {
    at(-100, -100, false)
}

/// Label widths 14, 29 and 4 give headers 40, 55 and 30 wide with rows 26 high.
fn three_menus() -> Barre {
    Barre::new()
        .with_menu(
            Menu::new("Game", 14)
                .with_item(Item::Button(Button::new("New", 30)))
                .with_item(Item::Separator(Separator))
                .with_item(Item::Radio(Radio::new(vec!["Beginner", "Intermediate", "Expert"])))
                .with_item(Item::Checkbox(Checkbox::new("Sound", false))),
        )
        .with_menu(Menu::new("Help", 29).with_item(Item::Button(Button::new("About", 40))))
        .with_menu(Menu::new("More", 4))
}

fn header_text_xs(commands: &[Command]) -> Vec<i64> {
    let mut xs = Vec::new();
    for c in commands {
        if let Command::Text { text, x, y, .. } = c {
            if *y < 26 && (text == "Game" || text == "Help" || text == "More") {
                xs.push(*x);
            }
        }
    }
    xs
}

#[test]
fn default_settings_are_the_classic_theme() {
    let s = Settings::new();
    assert_eq!(s.font_size, 14);
    assert_eq!(s.height, 26);
    assert_eq!(s.width, 220);
    assert_eq!(s.item_hover_color, 0x316ac5);
    assert_eq!(s.menu_color, 0xffffff);
    assert_eq!(Settings::default(), s);
    assert_eq!(s.text_params(true).color, 0xffffff);
    assert_eq!(s.text_params(false).color, 0x000000);
    assert_eq!(s.text_y_center(10), 10 + 13 + 4);
}

#[test]
fn attach_assigns_increasing_identities() {
    let mut bar = Barre::new();
    for k in 0..7u8 {
        bar = bar.with_menu(Menu::new("M", 10));
        assert_eq!(bar.childrens.len(), (k + 1) as usize);
        assert_eq!(bar.childrens[k as usize].id, k + 1);
        assert_eq!(bar.state.last_menu_id, k + 1);
    }
}

#[test]
fn five_menus_round_trip() {
    let bar = Barre::default()
        .with_menu(Menu::new("Game", 30))
        .with_menu(Menu::new("Menu 1", 40))
        .with_menu(Menu::new("Menu 2", 40))
        .with_menu(Menu::new("Menu 3", 40))
        .with_menu(Menu::new("Menu 4", 40));
    assert_eq!(bar.childrens.len(), 5);
    let ids: Vec<u8> = bar.childrens.iter().map(|m| m.id).collect();
    assert_eq!(ids, vec![1, 2, 3, 4, 5]);
    assert_eq!(bar.childrens[3].label, "Menu 3");
}

#[test]
fn horizontal_layout_advances_by_header_widths() {
    let settings = Settings::new();
    let mut menus = vec![Menu::new("Game", 14), Menu::new("Help", 29), Menu::new("More", 4)];
    let mut state = State::new();
    let mut cmds = Vec::new();
    let mut events = Vec::new();
    let bound =
        horizontal_draw(Point { x: 0, y: 0 }, &mut menus, &settings, idle(), &mut state, &mut cmds, &mut events);
    assert_eq!(bound, Size { w: 125, h: 26 });
    // Each header's label starts half a row height after the cursor: 0, 40, 95.
    assert_eq!(header_text_xs(&cmds), vec![13, 53, 108]);
    assert!(events.is_empty());
}

#[test]
fn frame_starts_with_the_background() {
    let settings = Settings::new();
    let mut bar = three_menus();
    let frame = bar.draw(&settings, idle(), 800);
    assert_eq!(frame.commands[0], Command::Rectangle { x: 0, y: 0, w: 800, h: 26, color: 0xe9e6d3 });
    assert_eq!(frame.commands[1], Command::Rectangle { x: 0, y: 25, w: 800, h: 1, color: 0xa0a0a0 });
    assert_eq!(header_text_xs(&frame.commands), vec![13, 53, 108]);
}

#[test]
fn header_click_opens_a_closed_menu() {
    let settings = Settings::new();
    let mut bar = three_menus();
    bar.draw(&settings, at(5, 5, true), 800);
    assert_eq!(bar.state.actif_menu_id, Some(1));
}

#[test]
fn header_click_switches_to_the_clicked_menu() {
    let settings = Settings::new();
    let mut bar = three_menus();
    bar.draw(&settings, at(5, 5, true), 800);
    assert_eq!(bar.state.actif_menu_id, Some(1));
    // The header of "More" spans 95..125.
    bar.draw(&settings, at(100, 5, true), 800);
    assert_eq!(bar.state.actif_menu_id, Some(3));
    // And back to the left of the open one.
    bar.draw(&settings, at(1, 1, true), 800);
    assert_eq!(bar.state.actif_menu_id, Some(1));
}

#[test]
fn header_click_closes_its_own_open_menu() {
    let settings = Settings::new();
    let mut bar = three_menus();
    bar.draw(&settings, at(45, 5, true), 800);
    assert_eq!(bar.state.actif_menu_id, Some(2));
    bar.draw(&settings, at(45, 5, true), 800);
    assert_eq!(bar.state.actif_menu_id, None);
}

#[test]
fn hovering_another_header_switches_while_a_menu_is_open() {
    let settings = Settings::new();
    let mut bar = three_menus();
    bar.draw(&settings, at(5, 5, true), 800);
    bar.draw(&settings, at(60, 5, false), 800);
    assert_eq!(bar.state.actif_menu_id, Some(2));
}

#[test]
fn hovering_with_nothing_open_opens_nothing() {
    let settings = Settings::new();
    let mut bar = three_menus();
    bar.draw(&settings, at(60, 5, false), 800);
    assert_eq!(bar.state.actif_menu_id, None);
}

#[test]
fn press_on_empty_canvas_closes_the_open_menu() {
    let settings = Settings::new();
    let mut bar = three_menus();
    bar.draw(&settings, at(5, 5, true), 800);
    bar.draw(&settings, at(600, 400, true), 800);
    assert_eq!(bar.state.actif_menu_id, None);
    // With nothing open, it stays so.
    bar.draw(&settings, at(600, 400, true), 800);
    assert_eq!(bar.state.actif_menu_id, None);
}

#[test]
fn click_in_dropdown_item_keeps_the_menu_open() {
    let settings = Settings::new();
    let mut bar = three_menus();
    bar.draw(&settings, at(5, 5, true), 800);
    // Dropdown of "Game": button 26..52, separator 52..58, radio 58..136, checkbox 136..162.
    let frame = bar.draw(&settings, at(50, 140, true), 800);
    assert_eq!(bar.state.actif_menu_id, Some(1));
    assert_eq!(frame.events, vec![Event::Toggled { menu: 0, item: 3, actif: true }]);
    if let Item::Checkbox(c) = &bar.childrens[0].childrens[3] {
        assert!(c.actif);
    } else {
        panic!("item 3 is the checkbox");
    }
}

#[test]
fn button_click_closes_the_menu() {
    let settings = Settings::new();
    let mut bar = three_menus();
    bar.draw(&settings, at(5, 5, true), 800);
    let frame = bar.draw(&settings, at(50, 30, true), 800);
    assert_eq!(frame.events, vec![Event::Clicked { menu: 0, item: 0 }]);
    assert_eq!(bar.state.actif_menu_id, None);
}

#[test]
fn closed_menu_items_do_not_react() {
    let settings = Settings::new();
    let mut bar = three_menus();
    let frame = bar.draw(&settings, at(50, 30, true), 800);
    assert!(frame.events.is_empty());
    assert_eq!(bar.state.actif_menu_id, None);
}

#[test]
fn at_most_one_menu_open_over_a_click_sequence() {
    let settings = Settings::new();
    let mut bar = three_menus();
    let clicks = [(5, 5, true), (60, 5, false), (100, 5, true), (100, 40, true), (5, 5, true), (50, 70, true), (45, 5, true), (45, 5, true)];
    for (x, y, p) in clicks {
        bar.draw(&settings, at(x, y, p), 800);
        let open = bar.childrens.iter().filter(|m| bar.state.actif_menu_id == Some(m.id)).count();
        assert!(open <= 1);
    }
}

#[test]
fn checkbox_toggles_once_per_press() {
    let settings = Settings::new();
    let mut c = Checkbox::new("Sound", false);
    let mut cmds = Vec::new();
    let mut events = Vec::new();
    let o = Point { x: 0, y: 100 };
    // Hover without a press does nothing.
    c.draw(o, &settings, at(10, 110, false), 0, 2, &mut cmds, &mut events);
    assert!(!c.actif);
    assert!(events.is_empty());
    c.draw(o, &settings, at(10, 110, true), 0, 2, &mut cmds, &mut events);
    assert!(c.actif);
    assert_eq!(events, vec![Event::Toggled { menu: 0, item: 2, actif: true }]);
    c.draw(o, &settings, at(10, 110, true), 0, 2, &mut cmds, &mut events);
    assert!(!c.actif);
    assert_eq!(events[1], Event::Toggled { menu: 0, item: 2, actif: false });
    // A press outside the row does nothing.
    c.draw(o, &settings, at(10, 127, true), 0, 2, &mut cmds, &mut events);
    assert!(!c.actif);
    assert_eq!(events.len(), 2);
}

#[test]
fn checkbox_draws_a_mark_only_when_checked() {
    let settings = Settings::new();
    let mut c = Checkbox::new("Sound", true);
    let mut cmds = Vec::new();
    let mut events = Vec::new();
    let size = c.draw(Point { x: 0, y: 0 }, &settings, idle(), 0, 0, &mut cmds, &mut events);
    assert_eq!(size, Size { w: 220, h: 26 });
    assert_eq!(cmds.len(), 3);
    assert_eq!(cmds[2], Command::Checkmark { x: 3, y: 3, size: 18, color: 0x000000 });
    let mut cmds2 = Vec::new();
    let mut unchecked = Checkbox::new("Sound", false);
    unchecked.draw(Point { x: 0, y: 0 }, &settings, idle(), 0, 0, &mut cmds2, &mut events);
    assert_eq!(cmds2.len(), 2);
}

#[test]
fn radio_defaults_to_first_and_selects_expert() {
    let settings = Settings::new();
    let mut r = Radio::new(vec!["Beginner", "Intermediate", "Expert"]);
    assert_eq!(r.get_actif().map(|s| s.as_str()), Some("Beginner"));
    let mut cmds = Vec::new();
    let mut events = Vec::new();
    let o = Point { x: 0, y: 58 };
    // Rows: 58..84, 84..110, 110..136.
    let size = r.draw(o, &settings, at(30, 120, true), 0, 2, &mut cmds, &mut events);
    assert_eq!(size, Size { w: 220, h: 78 });
    assert_eq!(r.get_actif().map(|s| s.as_str()), Some("Expert"));
    assert_eq!(events, vec![Event::Selected { menu: 0, item: 2, value: "Expert".to_string() }]);
}

#[test]
fn radio_press_on_a_shared_edge_selects_both_rows_in_order() {
    let settings = Settings::new();
    let mut r = Radio::new(vec!["Beginner", "Intermediate", "Expert"]);
    let mut cmds = Vec::new();
    let mut events = Vec::new();
    // Rows 0..26 and 26..52 share the edge at 26; the last one wins.
    r.draw(Point { x: 0, y: 0 }, &settings, at(220, 26, true), 0, 1, &mut cmds, &mut events);
    assert_eq!(
        events,
        vec![
            Event::Selected { menu: 0, item: 1, value: "Beginner".to_string() },
            Event::Selected { menu: 0, item: 1, value: "Intermediate".to_string() },
        ]
    );
    assert_eq!(r.get_actif().map(|s| s.as_str()), Some("Intermediate"));
}

#[test]
fn well_formed_bars_and_menus() {
    let bar = three_menus();
    assert!(bar.well_formed());
    let mut broken = three_menus();
    broken.childrens[1].id = 7;
    assert!(!broken.well_formed());
    assert!(Menu::new("Game", 10).well_formed());
}

#[test]
fn empty_radio_has_no_choice() {
    let r = Radio::new(Vec::new());
    assert_eq!(r.get_actif(), None);
}

#[test]
fn separator_is_a_quarter_row_high() {
    let mut cmds = Vec::new();
    let mut s = Settings::new();
    assert_eq!(Separator.draw(Point { x: 0, y: 0 }, &s, &mut cmds), Size { w: 220, h: 6 });
    s.width = 500;
    assert_eq!(Separator.draw(Point { x: 0, y: 0 }, &s, &mut cmds).h, 6);
    s.height = 40;
    assert_eq!(Separator.draw(Point { x: 0, y: 0 }, &s, &mut cmds).h, 10);
    assert_eq!(cmds[5], Command::Line { x1: 10, y1: 5, x2: 490, y2: 5, thickness: 1, color: 0xa0a0a0 });
}

#[test]
fn button_widens_for_a_long_label() {
    let settings = Settings::new();
    let mut state = State::new();
    let mut cmds = Vec::new();
    let mut events = Vec::new();
    let long = Button::new("Did you really think you would find help here ?", 300);
    let size = long.draw(Point { x: 0, y: 0 }, &settings, idle(), &mut state, 0, 0, &mut cmds, &mut events);
    assert_eq!(size, Size { w: 352, h: 26 });
    let short = Button::new("New", 20);
    let size = short.draw(Point { x: 0, y: 0 }, &settings, idle(), &mut state, 0, 0, &mut cmds, &mut events);
    assert_eq!(size, Size { w: 220, h: 26 });
}

#[test]
fn button_press_reports_and_closes() {
    let settings = Settings::new();
    let mut state = State { actif_menu_id: Some(4), last_menu_id: 4 };
    let mut cmds = Vec::new();
    let mut events = Vec::new();
    let b = Button::new("Exit", 20);
    // The row is 220 wide: a press at 230 misses it.
    b.draw(Point { x: 0, y: 0 }, &settings, at(230, 10, true), &mut state, 1, 5, &mut cmds, &mut events);
    assert_eq!(state.actif_menu_id, Some(4));
    b.draw(Point { x: 0, y: 0 }, &settings, at(219, 10, true), &mut state, 1, 5, &mut cmds, &mut events);
    assert_eq!(state.actif_menu_id, None);
    assert_eq!(events, vec![Event::Clicked { menu: 1, item: 5 }]);
}

#[test]
fn open_menu_draws_its_dropdown_frame() {
    let settings = Settings::new();
    let mut bar = three_menus();
    bar.draw(&settings, at(5, 5, true), 800);
    let frame = bar.draw(&settings, idle(), 800);
    // Dropdown of "Game": 220 wide, 26 + 6 + 78 + 26 high, below the bar.
    assert!(frame.commands.contains(&Command::RectangleLines { x: 0, y: 26, w: 220, h: 136, thickness: 2, color: 0xa0a0a0 }));
    assert!(frame.commands.contains(&Command::Line { x1: 221, y1: 28, x2: 221, y2: 164, thickness: 2, color: 0xd2d2d2 }));
}
