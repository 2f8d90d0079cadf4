use branch_picker::config::KeyCode;
use branch_picker::config::KeyPress;
use branch_picker::config::Keybinds;
use branch_picker::finder::filter;
use branch_picker::ui::UiAction;
use branch_picker::ui::UI;

fn key(code: KeyCode) -> KeyPress {
    KeyPress { code, shift: false, ctrl: false, alt: false }
}

fn binds() -> Keybinds {
    Keybinds {
        next: key(KeyCode::Tab),
        next_alternate: key(KeyCode::Down),
        prev: KeyPress { code: KeyCode::BackTab, shift: true, ctrl: false, alt: false },
        prev_alternate: key(KeyCode::Up),
        submit: key(KeyCode::Enter),
        quit: key(KeyCode::Esc),
        quit_alternate: KeyPress { code: KeyCode::Char('c'), shift: false, ctrl: true, alt: false },
    }
}

fn names(v: &[&str]) -> Vec<String> {
    v.iter().map(|s| s.to_string()).collect()
}

fn session() -> UI {
    UI::new(
        binds(),
        names(&["main", "dev", "origin/main", "origin/feature"]),
        String::new(),
    )
}

#[test]
fn a_session_starts_with_every_candidate_and_the_first_selected() {
    let ui = session();
    assert_eq!(ui.results.len(), 4);
    assert_eq!(ui.selected, 0);
}

#[test]
fn navigation_stays_in_bounds() {
    let mut ui = session();
    for _ in 0..10 {
        assert_eq!(ui.handle_input(key(KeyCode::Tab)), UiAction::Redraw);
        assert!(ui.selected < ui.results.len());
    }
    assert_eq!(ui.selected, 3);
    for _ in 0..10 {
        assert_eq!(ui.handle_input(key(KeyCode::Up)), UiAction::Redraw);
        assert!(ui.selected < ui.results.len());
    }
    assert_eq!(ui.selected, 0);
}

#[test]
fn navigation_on_an_empty_result_set_is_a_no_op() {
    let mut ui = session();
    for c in "zzz".chars() {
        ui.handle_input(key(KeyCode::Char(c)));
    }
    assert_eq!(ui.results.len(), 0);
    assert_eq!(ui.handle_input(key(KeyCode::Down)), UiAction::Redraw);
    assert_eq!(ui.selected, 0);
    assert_eq!(ui.handle_input(key(KeyCode::Enter)), UiAction::Redraw);
}

#[test]
fn selection_is_reclamped_when_the_results_collapse() {
    let mut ui = session();
    ui.handle_input(key(KeyCode::Tab));
    ui.handle_input(key(KeyCode::Tab));
    ui.handle_input(key(KeyCode::Tab));
    assert_eq!(ui.selected, 3);
    ui.handle_input(key(KeyCode::Char('d')));
    ui.handle_input(key(KeyCode::Char('v')));
    assert_eq!(ui.results, names(&["dev"]));
    assert_eq!(ui.selected, 0);
}

#[test]
fn typing_then_erasing_restores_the_full_result_set() {
    let mut ui = session();
    let initial = ui.results.clone();
    ui.handle_input(key(KeyCode::Char('m')));
    assert_ne!(ui.results, initial);
    ui.handle_input(key(KeyCode::Backspace));
    let refiltered = filter("", &ui.haystack).unwrap();
    assert_eq!(ui.results, refiltered);
    assert_eq!(ui.results, initial);
}

#[test]
fn erase_on_an_empty_needle_is_a_no_op() {
    let mut ui = session();
    let initial = ui.results.clone();
    assert_eq!(ui.handle_input(key(KeyCode::Backspace)), UiAction::Redraw);
    assert_eq!(ui.needle, String::new());
    assert_eq!(ui.results, initial);
}

#[test]
fn submit_hands_back_the_selected_name() {
    let mut ui = session();
    ui.handle_input(key(KeyCode::Tab));
    let action = ui.handle_input(key(KeyCode::Enter));
    assert_eq!(action, UiAction::Submit("dev".to_string()));
}

#[test]
fn quit_keys_quit_whatever_the_state() {
    let mut ui = session();
    ui.handle_input(key(KeyCode::Char('m')));
    ui.handle_input(key(KeyCode::Tab));
    assert_eq!(ui.handle_input(key(KeyCode::Esc)), UiAction::Quit);
    let mut other = session();
    let ctrl_c = KeyPress { code: KeyCode::Char('c'), shift: false, ctrl: true, alt: false };
    assert_eq!(other.handle_input(ctrl_c), UiAction::Quit);
}

#[test]
fn unbound_keys_only_redraw() {
    let mut ui = session();
    let initial = ui.results.clone();
    assert_eq!(ui.handle_input(key(KeyCode::Other)), UiAction::Redraw);
    assert_eq!(ui.results, initial);
    assert_eq!(ui.selected, 0);
}
