use reactron::clipboard::Clipboard;
use reactron::events::{UiAction, UiEvent};
use reactron::geometry::Rect;
use reactron::input::{PointerSignal, PointerState};
use reactron::navigation::{find_next_contains, find_next_prefix, step_clamped, step_wrapped};
use reactron::numfmt::hundredths_string;
use reactron::theme::Theme;
use reactron::tree::{CrossAlign, LayoutProps, SizeSpec, UiTree, WidgetBox};
use reactron::widgets::button::{Button, ButtonStyle};
use reactron::widgets::checkbox::{Checkbox, CheckboxStyle};
use reactron::widgets::label::{Label, LabelStyle};
use reactron::widgets::list_view::{ListView, ListViewStyle};
use reactron::widgets::modal::{Modal, ModalStyle};
use reactron::widgets::select::{Select, SelectStyle};
use reactron::widgets::slider::{Slider, SliderStyle};
use reactron::widgets::tabs::{Tabs, TabsStyle};
use reactron::widgets::text_input::{TextInput, TextInputStyle};

fn rect(x: i64, y: i64, w: i64, h: i64) -> Rect {
    Rect { x, y, width: w, height: h }
}

fn value_of(event: &UiEvent) -> (&'static str, String) {
    match event {
        UiEvent::ValueChanged { key, value } => (key, value.clone()),
        UiEvent::Action(_) => panic!("expected a value change"),
    }
}

fn quiet_input() -> PointerState {
    PointerState::new()
}

fn make_tabs() -> Tabs {
    Tabs {
        key: "main_tab",
        rect: rect(0, 0, 408, 34),
        options: vec![
            "Overview".to_string(),
            "Controls".to_string(),
            "Metrics".to_string(),
        ],
        selected: 0,
        focused: true,
        style: TabsStyle::default(),
    }
}

#[test]
fn tabs_move_right_selects_controls() {
    let mut tabs = make_tabs();
    let mut input = quiet_input();
    input.apply(PointerSignal::MoveRight);
    let events = tabs.draw(&input);
    assert_eq!(tabs.selected, 1);
    assert_eq!(events.len(), 1);
    let (key, value) = value_of(&events[0]);
    assert_eq!(key, "main_tab");
    assert_eq!(value, "Controls");
}

#[test]
fn tabs_wraps_left_from_start() {
    let mut tabs = make_tabs();
    let mut input = quiet_input();
    input.apply(PointerSignal::MoveLeft);
    let events = tabs.draw(&input);
    assert_eq!(tabs.selected, 2);
    assert_eq!(value_of(&events[0]).1, "Metrics");
}

#[test]
fn tabs_empty_options_ignore_navigation() {
    let mut tabs = make_tabs();
    tabs.options = Vec::new();
    tabs.selected = 0;
    let mut input = quiet_input();
    input.apply(PointerSignal::MoveRight);
    let events = tabs.draw(&input);
    assert!(events.is_empty());
    assert_eq!(tabs.selected, 0);
}

fn make_slider() -> Slider {
    Slider {
        key: "ui_intensity",
        rect: rect(0, 0, 200, 44),
        value: 6500,
        min: 0,
        max: 10000,
        step: 500,
        label: "Intensity",
        focused: true,
        dragging: false,
        style: SliderStyle::default(),
    }
}

#[test]
fn slider_step_emits_seventy() {
    let mut slider = make_slider();
    let mut input = quiet_input();
    input.apply(PointerSignal::MoveRight);
    let events = slider.draw(&input);
    assert_eq!(slider.value, 7000);
    assert_eq!(events.len(), 1);
    assert_eq!(value_of(&events[0]).1, "70.00");
}

#[test]
fn slider_clamped_at_max_does_not_emit() {
    let mut slider = make_slider();
    slider.value = 10000;
    let mut input = quiet_input();
    input.apply(PointerSignal::MoveRight);
    let events = slider.draw(&input);
    assert_eq!(slider.value, 10000);
    assert!(events.is_empty());
}

#[test]
fn slider_set_value_snaps_to_step() {
    let mut slider = make_slider();
    slider.set_value(6300);
    assert_eq!(slider.value, 6500);
    slider.set_value(-50);
    assert_eq!(slider.value, 0);
}

#[test]
fn hundredths_formatting() {
    assert_eq!(hundredths_string(7000), "70.00");
    assert_eq!(hundredths_string(5), "0.05");
    assert_eq!(hundredths_string(-5), "-0.05");
    assert_eq!(hundredths_string(12345), "123.45");
}

fn demo_items() -> Vec<String> {
    (1..=120).map(|i| format!("Widget Item {:03}", i)).collect()
}

fn make_list() -> ListView {
    ListView {
        key: "results_item",
        rect: rect(0, 0, 408, 190),
        items: demo_items(),
        row_height: 28,
        scroll_offset: 0,
        selected: Some(0),
        selection_anchor: Some(0),
        style: ListViewStyle::default(),
        focused: true,
    }
}

#[test]
fn list_typeahead_jumps_to_next_match() {
    let mut list = make_list();
    let mut input = quiet_input();
    input.apply(PointerSignal::TextInput("0".to_string()));
    let events = list.draw(&input);
    // The first item after index 0 whose text contains "0" is index 1.
    assert_eq!(list.selected, Some(1));
    assert_eq!(events.len(), 1);
    assert_eq!(value_of(&events[0]).1, "Widget Item 002");
}

#[test]
fn list_set_items_clamps_selection() {
    let mut list = make_list();
    list.selected = Some(100);
    list.set_items((1..=5).map(|i| format!("Row {}", i)).collect());
    assert_eq!(list.selected, Some(4));
    list.set_items(Vec::new());
    assert_eq!(list.selected, None);
}

#[test]
fn list_selection_scrolls_into_view() {
    let mut list = make_list();
    let mut input = quiet_input();
    input.apply(PointerSignal::MoveEnd);
    let _ = list.draw(&input);
    assert_eq!(list.selected, Some(119));
    let top = 119 * list.row_height;
    let bottom = top + list.row_height;
    assert!(list.scroll_offset <= top);
    assert!(bottom <= list.scroll_offset + list.rect.height);
}

#[test]
fn list_home_and_page_moves() {
    let mut list = make_list();
    list.selected = Some(50);
    list.selection_anchor = Some(50);
    let mut input = quiet_input();
    input.apply(PointerSignal::MovePageUp);
    let _ = list.draw(&input);
    // 190 / 28 = 6 fully visible rows.
    assert_eq!(list.selected, Some(44));
    let mut home = quiet_input();
    home.apply(PointerSignal::MoveHome);
    let _ = list.draw(&home);
    assert_eq!(list.selected, Some(0));
}

fn make_text_input(value: &str, cursor: usize) -> TextInput {
    TextInput {
        key: "search_query",
        rect: rect(0, 0, 200, 44),
        value: value.to_string(),
        placeholder: "Type here...",
        style: TextInputStyle::default(),
        focused: true,
        cursor,
        selection_anchor: None,
        dragging_selection: false,
    }
}

#[test]
fn text_input_select_all_then_type_replaces() {
    let mut field = make_text_input("hello", 5);
    let mut clip = Clipboard::new();
    let mut input = quiet_input();
    input.apply(PointerSignal::SelectAll);
    input.apply(PointerSignal::TextInput("X".to_string()));
    let events = field.draw(&input, &mut clip);
    assert_eq!(field.value, "X");
    assert_eq!(field.cursor, 1);
    assert_eq!(events.len(), 1);
    assert_eq!(value_of(&events[0]).1, "X");
}

#[test]
fn text_input_insert_then_delete_round_trip() {
    let mut field = make_text_input("hello", 2);
    let mut clip = Clipboard::new();
    let mut typed = quiet_input();
    typed.apply(PointerSignal::TextInput("ab".to_string()));
    let _ = field.draw(&typed, &mut clip);
    assert_eq!(field.value, "heabllo");
    assert_eq!(field.cursor, 4);
    let mut erase = quiet_input();
    erase.apply(PointerSignal::Backspace);
    let _ = field.draw(&erase, &mut clip);
    let _ = field.draw(&erase, &mut clip);
    assert_eq!(field.value, "hello");
    assert_eq!(field.cursor, 2);
}

#[test]
fn text_input_cut_and_paste_through_clipboard() {
    let mut field = make_text_input("hello", 0);
    let mut clip = Clipboard::new();
    field.selection_anchor = Some(0);
    field.cursor = 2;
    let mut cut = quiet_input();
    cut.apply(PointerSignal::Cut);
    let events = field.draw(&cut, &mut clip);
    assert_eq!(field.value, "llo");
    assert_eq!(clip.text, "he");
    assert_eq!(events.len(), 1);
    let mut paste = quiet_input();
    paste.apply(PointerSignal::MoveEnd);
    paste.apply(PointerSignal::Paste);
    let _ = field.draw(&paste, &mut clip);
    assert_eq!(field.value, "llohe");
}

#[test]
fn text_input_unfocused_ignores_editing() {
    let mut field = make_text_input("hello", 5);
    field.focused = false;
    let mut clip = Clipboard::new();
    let mut input = quiet_input();
    input.apply(PointerSignal::Backspace);
    let events = field.draw(&input, &mut clip);
    assert!(events.is_empty());
    assert_eq!(field.value, "hello");
}

fn make_select() -> Select {
    Select {
        key: "theme_preset",
        rect: rect(0, 0, 200, 44),
        options: vec![
            "Ocean".to_string(),
            "Sunset".to_string(),
            "Forest".to_string(),
        ],
        selected: 0,
        style: SelectStyle::default(),
        focused: true,
        open: false,
        highlighted: 0,
        label: "Preset",
    }
}

#[test]
fn select_activate_navigate_commit() {
    let mut select = make_select();
    assert!(select.activate().is_none());
    assert!(select.open);
    assert_eq!(select.highlighted, select.selected);
    let mut input = quiet_input();
    input.apply(PointerSignal::MoveDown);
    let events = select.draw(&input);
    assert!(events.is_empty());
    assert_eq!(select.highlighted, 1);
    let commit = select.activate();
    assert!(!select.open);
    assert_eq!(select.selected, 1);
    let event = commit.expect("commit emits");
    assert_eq!(value_of(&event).1, "Sunset");
}

#[test]
fn select_closed_stepping_is_circular() {
    let mut select = make_select();
    let count = select.options.len();
    for _ in 0..count {
        let mut input = quiet_input();
        input.apply(PointerSignal::MoveRight);
        let events = select.draw(&input);
        assert_eq!(events.len(), 1);
    }
    assert_eq!(select.selected, 0);
}

#[test]
fn select_typeahead_prefix_is_case_insensitive() {
    let mut select = make_select();
    let mut input = quiet_input();
    input.apply(PointerSignal::TextInput("su".to_string()));
    let events = select.draw(&input);
    assert_eq!(select.selected, 1);
    assert_eq!(value_of(&events[0]).1, "Sunset");
}

#[test]
fn select_loses_focus_and_closes() {
    let mut select = make_select();
    select.open = true;
    select.set_focused(false);
    assert!(!select.open);
}

fn make_modal() -> Modal {
    Modal {
        key: "demo_modal_open",
        result_key: "demo_modal_result",
        rect: rect(0, 0, 800, 600),
        open: true,
        title: "Reactron Modal".to_string(),
        message: "A message".to_string(),
        confirm_label: "Confirm",
        cancel_label: "Cancel",
        focused: true,
        style: ModalStyle::default(),
    }
}

#[test]
fn modal_outside_release_dismisses() {
    let mut modal = make_modal();
    let mut input = quiet_input();
    input.apply(PointerSignal::Down { x: 1, y: 1 });
    input.apply(PointerSignal::Up { x: 1, y: 1 });
    let events = modal.draw(&input);
    assert!(!modal.open);
    assert_eq!(events.len(), 2);
    assert_eq!(value_of(&events[0]), ("demo_modal_open", "false".to_string()));
    assert_eq!(value_of(&events[1]), ("demo_modal_result", "dismiss".to_string()));
}

#[test]
fn modal_cancel_signal_cancels() {
    let mut modal = make_modal();
    let mut input = quiet_input();
    input.apply(PointerSignal::Cancel);
    let events = modal.draw(&input);
    assert!(!modal.open);
    assert_eq!(value_of(&events[1]), ("demo_modal_result", "cancel".to_string()));
}

#[test]
fn modal_confirm_button_confirms() {
    let mut modal = make_modal();
    let panel = modal.panel_rect();
    let confirm = modal.confirm_rect(panel);
    let cx = confirm.x + confirm.width / 2;
    let cy = confirm.y + confirm.height / 2;
    let mut input = quiet_input();
    input.apply(PointerSignal::Down { x: cx, y: cy });
    input.apply(PointerSignal::Up { x: cx, y: cy });
    let events = modal.draw(&input);
    assert_eq!(value_of(&events[1]), ("demo_modal_result", "confirm".to_string()));
}

#[test]
fn modal_closed_is_inert() {
    let mut modal = make_modal();
    modal.open = false;
    let mut input = quiet_input();
    input.apply(PointerSignal::Cancel);
    let events = modal.draw(&input);
    assert!(events.is_empty());
    assert!(!modal.open);
}

#[test]
fn step_functions_are_total() {
    assert_eq!(step_clamped(None, 5, 0), None);
    assert_eq!(step_wrapped(None, -7, 0), None);
    assert_eq!(step_clamped(Some(2), 100, 4), Some(3));
    assert_eq!(step_clamped(Some(2), -100, 4), Some(0));
    assert_eq!(step_wrapped(Some(2), 3, 4), Some(1));
    assert_eq!(step_wrapped(Some(0), -1, 4), Some(3));
    assert_eq!(step_wrapped(Some(1), -9, 4), Some(0));
}

#[test]
fn find_next_is_circular_and_case_insensitive() {
    let items: Vec<String> = vec![
        "Alpha".to_string(),
        "Beta".to_string(),
        "Gamma".to_string(),
    ];
    assert_eq!(find_next_contains(&items, "AL", None), Some(0));
    assert_eq!(find_next_contains(&items, "a", Some(0)), Some(1));
    assert_eq!(find_next_contains(&items, "", Some(0)), None);
    assert_eq!(find_next_contains(&Vec::new(), "a", None), None);
    assert_eq!(find_next_prefix(&items, "ga", None), Some(2));
    assert_eq!(find_next_prefix(&items, "ALPHA", Some(0)), Some(0));
    assert_eq!(find_next_prefix(&items, "zz", None), None);
}

#[test]
fn checkbox_toggle_emits_new_value() {
    let mut checkbox = Checkbox {
        key: "ui_animations",
        rect: rect(0, 0, 120, 44),
        value: true,
        label: "Animations",
        focused: true,
        style: CheckboxStyle::default(),
    };
    let mut input = quiet_input();
    input.apply(PointerSignal::ActivatePrimary);
    let events = checkbox.draw(&input);
    assert!(!checkbox.value);
    assert_eq!(value_of(&events[0]).1, "false");
}

#[test]
fn tree_click_bubbles_button_action() {
    let mut tree = UiTree::column(rect(0, 0, 400, 300), 10);
    tree.push_key_with(
        "hello_button",
        WidgetBox::Button(Button {
            action: UiAction::ToggleAccent,
            rect: rect(0, 0, 0, 0),
            label: "Press",
            style: ButtonStyle::default(),
            focused: false,
        }),
        LayoutProps {
            width: SizeSpec::Flex(1),
            height: SizeSpec::Fixed(40),
            align_self: Some(CrossAlign::Stretch),
        },
    );
    tree.push_key_with(
        "status",
        WidgetBox::Label(Label {
            rect: rect(0, 0, 0, 0),
            text: "ready".to_string(),
            style: LabelStyle { font: "14px Consolas", color: "#d8e3ff" },
        }),
        LayoutProps {
            width: SizeSpec::Flex(1),
            height: SizeSpec::Fixed(20),
            align_self: Some(CrossAlign::Stretch),
        },
    );
    let mut clip = Clipboard::new();
    let mut input = quiet_input();
    input.apply(PointerSignal::Down { x: 10, y: 10 });
    input.apply(PointerSignal::Up { x: 10, y: 10 });
    let events = tree.draw(&input, &mut clip);
    assert_eq!(events.len(), 1);
    assert!(matches!(events[0], UiEvent::Action(UiAction::ToggleAccent)));
    // The button occupies the first 40-pixel band and was hit, so it holds focus.
    assert_eq!(tree.focus_index, Some(0));
}

#[test]
fn tree_focus_traversal_skips_unfocusable() {
    let mut tree = UiTree::column(rect(0, 0, 400, 300), 10);
    tree.push_key_with(
        "banner",
        WidgetBox::Label(Label {
            rect: rect(0, 0, 0, 0),
            text: "banner".to_string(),
            style: LabelStyle { font: "14px Consolas", color: "#d8e3ff" },
        }),
        LayoutProps::auto(),
    );
    tree.push_key_with(
        "first_button",
        WidgetBox::Button(Button {
            action: UiAction::OpenModal,
            rect: rect(0, 0, 0, 0),
            label: "One",
            style: ButtonStyle::default(),
            focused: false,
        }),
        LayoutProps::auto(),
    );
    tree.push_key_with(
        "second_button",
        WidgetBox::Button(Button {
            action: UiAction::ToggleAccent,
            rect: rect(0, 0, 0, 0),
            label: "Two",
            style: ButtonStyle::default(),
            focused: false,
        }),
        LayoutProps::auto(),
    );
    let mut clip = Clipboard::new();
    let mut tab = quiet_input();
    tab.apply(PointerSignal::FocusNext);
    let _ = tree.draw(&tab, &mut clip);
    assert_eq!(tree.focus_index, Some(1));
    let _ = tree.draw(&tab, &mut clip);
    assert_eq!(tree.focus_index, Some(2));
    let _ = tree.draw(&tab, &mut clip);
    assert_eq!(tree.focus_index, Some(1));
}

#[test]
fn theme_palette_is_stable() {
    let theme = Theme::reactron();
    assert_eq!(theme.background, "#080b13");
    assert_eq!(theme.accent_primary, "#ff2d2d");
    assert_eq!(theme.accent_secondary, "#27ffd8");
}

#[test]
fn pointer_state_edges_and_reset() {
    let mut pointer = PointerState::new();
    pointer.apply(PointerSignal::Down { x: 5, y: 6 });
    assert!(pointer.is_down && pointer.just_pressed);
    pointer.apply(PointerSignal::Down { x: 5, y: 6 });
    assert!(pointer.is_down);
    pointer.apply(PointerSignal::Up { x: 5, y: 6 });
    assert!(!pointer.is_down && pointer.just_released);
    pointer.apply(PointerSignal::Scroll { x: 0, y: 0, delta_y: 12 });
    pointer.apply(PointerSignal::Scroll { x: 0, y: 0, delta_y: -4 });
    assert_eq!(pointer.scroll_y, 8);
    pointer.reset_transient();
    assert!(!pointer.just_pressed && !pointer.just_released);
    assert_eq!(pointer.scroll_y, 0);
    assert!(pointer.text_input.is_none());
}
