use folder_browser::browser::App;
use folder_browser::input::{Action, Key};
use folder_browser::item::Game;
use folder_browser::text::{fold_case, folded_name_matches, name_matches};

fn game(name: &str, app_id: u32, is_non_steam: bool) -> Game {
    Game::new(name.to_string(), app_id, is_non_steam, format!("/games/{}", app_id))
}

fn names(app: &App) -> Vec<String> {
    app.filtered_items().iter().map(|g| g.name.clone()).collect()
}

fn five() -> App {
    App::new(vec![
        game("Alpha", 1, false),
        game("Beta", 2, false),
        game("Gamma", 3, true),
        game("Delta", 4, false),
        game("Epsilon", 5, true),
    ])
}

fn type_text(app: &mut App, s: &str) {
    for c in s.chars() {
        app.append_char(c);
    }
}

#[test]
fn new_app_shows_everything_with_first_selected() {
    let app = five();
    assert_eq!(app.filtered_items().len(), 5);
    assert_eq!(app.items().len(), 5);
    assert_eq!(app.selected(), Some(0));
    assert_eq!(app.search_query(), "");
    assert!(!app.in_search_mode());
    assert_eq!(app.status_message(), "Use '/' to search, 'q' to exit.");
}

#[test]
fn empty_catalog_has_no_selection_and_moves_do_nothing() {
    let mut app = App::new(vec![]);
    assert_eq!(app.selected(), None);
    app.next();
    assert_eq!(app.selected(), None);
    app.previous();
    assert_eq!(app.selected(), None);
    assert_eq!(app.open_selected(true), None);
    assert_eq!(app.status_message(), "Use '/' to search, 'q' to exit.");
}

#[test]
fn filter_is_case_insensitive_and_keeps_order() {
    let mut app = App::new(vec![
        game("Half-Life", 70, false),
        game("Portal", 400, false),
        game("HALF dead", 9, true),
        game("Team Fortress", 440, false),
    ]);
    app.enter_search_mode();
    type_text(&mut app, "hAlF");
    assert_eq!(names(&app), vec!["Half-Life".to_string(), "HALF dead".to_string()]);
    assert_eq!(app.search_query(), "hAlF");
    assert_eq!(app.filtered_items()[1].app_id, 9);
}

#[test]
fn filter_matches_inside_names() {
    let mut app = App::new(vec![game("Portal", 400, false), game("Portal 2", 620, false)]);
    type_text(&mut app, "tal 2");
    assert_eq!(names(&app), vec!["Portal 2".to_string()]);
}

#[test]
fn filter_folds_non_ascii_letters() {
    let mut app = App::new(vec![game("ÉCOLE", 1, false), game("ecole", 2, false)]);
    type_text(&mut app, "é");
    assert_eq!(names(&app), vec!["ÉCOLE".to_string()]);
}

#[test]
fn refiltering_twice_changes_nothing() {
    let mut app = five();
    app.next();
    type_text(&mut app, "a");
    let first = names(&app);
    let cursor = app.selected();
    app.update_filter();
    assert_eq!(names(&app), first);
    assert_eq!(app.selected(), cursor);
    app.update_filter();
    assert_eq!(names(&app), first);
    assert_eq!(app.selected(), cursor);
}

#[test]
fn next_wraps_from_last_to_first() {
    let mut app = App::new(vec![game("A", 1, false), game("B", 2, false), game("C", 3, false)]);
    app.next();
    app.next();
    assert_eq!(app.selected(), Some(2));
    app.next();
    assert_eq!(app.selected(), Some(0));
}

#[test]
fn previous_wraps_from_first_to_last() {
    let mut app = App::new(vec![game("A", 1, false), game("B", 2, false), game("C", 3, false)]);
    assert_eq!(app.selected(), Some(0));
    app.previous();
    assert_eq!(app.selected(), Some(2));
    app.previous();
    assert_eq!(app.selected(), Some(1));
}

#[test]
fn shrinking_filter_resets_cursor_to_first() {
    let mut app = five();
    for _ in 0..4 {
        app.next();
    }
    assert_eq!(app.selected(), Some(4));
    app.enter_search_mode();
    type_text(&mut app, "lt");
    assert_eq!(names(&app), vec!["Delta".to_string()]);
    assert_eq!(app.selected(), Some(0));
}

#[test]
fn shrinking_five_to_two_resets_cursor_to_first() {
    let mut app = five();
    for _ in 0..4 {
        app.next();
    }
    assert_eq!(app.selected(), Some(4));
    app.enter_search_mode();
    type_text(&mut app, "ta");
    assert_eq!(names(&app), vec!["Beta".to_string(), "Delta".to_string()]);
    assert_eq!(app.selected(), Some(0));
}

#[test]
fn cursor_inside_shrunk_list_is_kept() {
    let mut app = five();
    app.next();
    type_text(&mut app, "a");
    assert_eq!(names(&app).len(), 4);
    assert_eq!(app.selected(), Some(1));
}

#[test]
fn filter_to_nothing_clears_the_cursor() {
    let mut app = five();
    type_text(&mut app, "zzz");
    assert!(app.filtered_items().is_empty());
    assert_eq!(app.selected(), None);
    app.remove_last_char();
    app.remove_last_char();
    app.remove_last_char();
    assert_eq!(app.filtered_items().len(), 5);
    assert_eq!(app.selected(), None);
    app.next();
    assert_eq!(app.selected(), Some(0));
}

#[test]
fn search_round_trip_restores_full_catalog() {
    let mut app = five();
    app.enter_search_mode();
    assert!(app.in_search_mode());
    app.append_char('a');
    app.append_char('b');
    assert!(app.filtered_items().is_empty());
    app.exit_search_mode();
    assert_eq!(app.search_query(), "");
    assert!(!app.in_search_mode());
    assert_eq!(names(&app), vec!["Alpha", "Beta", "Gamma", "Delta", "Epsilon"]);
}

#[test]
fn removing_from_empty_filter_is_a_no_op() {
    let mut app = five();
    app.remove_last_char();
    assert_eq!(app.search_query(), "");
    assert_eq!(app.filtered_items().len(), 5);
    assert_eq!(app.selected(), Some(0));
}

#[test]
fn open_missing_folder_reports_and_launches_nothing() {
    let mut app = five();
    app.next();
    let before = names(&app);
    assert_eq!(app.open_selected(false), None);
    assert_eq!(app.status_message(), "Folder does not exist.");
    assert_eq!(names(&app), before);
    assert_eq!(app.selected(), Some(1));
}

#[test]
fn open_existing_folder_returns_its_path() {
    let mut app = five();
    app.next();
    assert_eq!(app.selected_path(), Some("/games/2".to_string()));
    assert_eq!(app.open_selected(true), Some("/games/2".to_string()));
    assert_eq!(app.status_message(), "Opened game folder.");
}

#[test]
fn open_shortcut_and_game_give_different_status() {
    let mut proxied = App::new(vec![game("Same", 1, true)]);
    let mut direct = App::new(vec![game("Same", 1, false)]);
    assert!(proxied.open_selected(true).is_some());
    assert!(direct.open_selected(true).is_some());
    assert_eq!(proxied.status_message(), "Opened prefix folder.");
    assert_eq!(direct.status_message(), "Opened game folder.");
    assert_ne!(proxied.status_message(), direct.status_message());
    assert_eq!(names(&proxied), names(&direct));
    assert_eq!(proxied.selected(), direct.selected());
}

#[test]
fn open_without_selection_does_nothing() {
    let mut app = five();
    type_text(&mut app, "zzz");
    assert_eq!(app.selected_path(), None);
    assert_eq!(app.open_selected(true), None);
    assert_eq!(app.status_message(), "Use '/' to search, 'q' to exit.");
}

#[test]
fn keys_in_navigation_mode() {
    let mut app = five();
    assert_eq!(app.handle_key(Key::Down), Action::Continue);
    assert_eq!(app.selected(), Some(1));
    assert_eq!(app.handle_key(Key::Up), Action::Continue);
    assert_eq!(app.handle_key(Key::Up), Action::Continue);
    assert_eq!(app.selected(), Some(4));
    assert_eq!(app.handle_key(Key::Enter), Action::OpenSelected);
    assert_eq!(app.handle_key(Key::Backspace), Action::Continue);
    assert_eq!(app.handle_key(Key::Char('x')), Action::Continue);
    assert_eq!(app.search_query(), "");
    assert_eq!(app.handle_key(Key::Other), Action::Continue);
    assert_eq!(app.handle_key(Key::Char('q')), Action::Quit);
    assert_eq!(app.handle_key(Key::Char('/')), Action::Continue);
    assert!(app.in_search_mode());
}

#[test]
fn keys_in_search_mode() {
    let mut app = five();
    app.handle_key(Key::Char('/'));
    assert_eq!(app.handle_key(Key::Char('q')), Action::Continue);
    assert_eq!(app.handle_key(Key::Char('/')), Action::Continue);
    assert_eq!(app.search_query(), "q/");
    assert_eq!(app.handle_key(Key::Backspace), Action::Continue);
    assert_eq!(app.search_query(), "q");
    assert_eq!(app.handle_key(Key::Down), Action::Continue);
    assert_eq!(app.handle_key(Key::Enter), Action::Continue);
    assert!(!app.in_search_mode());
    assert_eq!(app.search_query(), "");
    assert_eq!(app.filtered_items().len(), 5);
}

#[test]
fn row_labels() {
    assert_eq!(game("Portal", 400, false).row_label(), "Portal (App ID: 400)");
    assert_eq!(game("Emu", 3141592653, true).row_label(), "Non-Steam: Emu (App ID: 3141592653)");
    assert_eq!(game("Zero", 0, false).row_label(), "Zero (App ID: 0)");
}

#[test]
fn titles_and_search_text() {
    let mut app = five();
    assert_eq!(app.list_title(), "Games (5/5, ↑/↓ to navigate, Enter to open, q to quit)");
    assert_eq!(app.search_title(), "Search (press '/' to enter search mode)");
    assert_eq!(app.search_text(), "No search query");
    app.enter_search_mode();
    assert_eq!(app.search_title(), "Search (type to search, Enter to exit)");
    assert_eq!(app.search_text(), "");
    type_text(&mut app, "ta");
    assert_eq!(app.search_text(), "ta");
    assert_eq!(app.list_title(), "Games (2/5, ↑/↓ to navigate, Enter to open, q to quit)");
}

#[test]
fn text_helpers() {
    assert_eq!(fold_case("HeLLo ÄÖ"), "hello äö");
    assert!(name_matches("Counter-Strike", "STRIKE"));
    assert!(!name_matches("Counter-Strike", "strikes"));
    assert!(name_matches("anything", ""));
    assert!(folded_name_matches("half-life", "lf-l"));
    assert!(!folded_name_matches("half-life", "LF"));
}
