use leetui::api::types::{normalize_favorite_status, FavoriteList, FavoriteQuestion};
use leetui::ui::keys::{KeyCode, KeyPress};
use leetui::ui::lists::{centered_dialog, Area, ListsAction, ListsBody, ListsState, Row};

fn key(code: KeyCode) -> KeyPress {
    KeyPress { code, ctrl: false }
}

fn ch(c: char) -> KeyPress {
    key(KeyCode::Char(c))
}

fn question(id: &str, slug: &str, status: Option<&str>) -> FavoriteQuestion {
    FavoriteQuestion {
        question_id: id.to_string(),
        status: status.map(|s| s.to_string()),
        title: format!("Title {id}"),
        title_slug: slug.to_string(),
    }
}

fn list(hash: &str, name: &str, questions: Vec<FavoriteQuestion>, public: bool) -> FavoriteList {
    FavoriteList {
        id_hash: hash.to_string(),
        name: name.to_string(),
        description: None,
        view_count: 0,
        creator: "me".to_string(),
        is_watched: false,
        is_public_favorite: public,
        questions,
    }
}

fn state() -> ListsState {
    let mut s = ListsState::new();
    s.loading = false;
    s.lists = vec![
        list("a-hash", "Alpha", vec![question("1", "two-sum", Some("ac")), question("2", "add-two", Some("notac"))], true),
        list("b-hash", "Beta", vec![], false),
        list("c-hash", "Gamma", vec![question("3", "longest", None)], false),
    ];
    s
}

#[test]
fn new_state_is_loading_and_empty() {
    let s = ListsState::new();
    assert!(s.loading);
    assert!(s.lists.is_empty());
    assert_eq!(s.cursor, 0);
    assert!(s.expanded.is_empty());
    assert!(!s.create_mode && !s.confirm_delete);
    assert!(s.build_rows().is_empty());
}

#[test]
fn rows_follow_expansion() {
    let mut s = state();
    assert_eq!(s.build_rows(), vec![Row::List(0), Row::List(1), Row::List(2)]);
    s.expanded.insert(0);
    s.expanded.insert(2);
    assert_eq!(
        s.build_rows(),
        vec![Row::List(0), Row::Problem(0, 0), Row::Problem(0, 1), Row::List(1), Row::List(2), Row::Problem(2, 0)]
    );
}

#[test]
fn cursor_moves_and_clamps() {
    let mut s = state();
    assert!(matches!(s.handle_key(ch('j')), ListsAction::Nothing));
    assert_eq!(s.cursor, 1);
    s.handle_key(key(KeyCode::Down));
    s.handle_key(key(KeyCode::Down));
    assert_eq!(s.cursor, 2);
    s.handle_key(ch('k'));
    s.handle_key(key(KeyCode::Up));
    s.handle_key(key(KeyCode::Up));
    assert_eq!(s.cursor, 0);
    s.cursor = 10;
    s.clamp_cursor();
    assert_eq!(s.cursor, 2);
    s.clamp_cursor();
    assert_eq!(s.cursor, 2);
    let mut empty = ListsState::new();
    empty.cursor = 4;
    empty.clamp_cursor();
    assert_eq!(empty.cursor, 0);
    empty.handle_key(ch('j'));
    assert_eq!(empty.cursor, 0);
}

#[test]
fn expand_open_remove_and_collapse() {
    let mut s = state();
    assert!(matches!(s.handle_key(ch('l')), ListsAction::Nothing));
    assert!(s.expanded.contains(&0));
    s.handle_key(ch('j'));
    match s.handle_key(key(KeyCode::Enter)) {
        ListsAction::OpenDetail(slug) => assert_eq!(slug, "two-sum"),
        other => panic!("unexpected {other:?}"),
    }
    s.handle_key(ch('j'));
    match s.handle_key(ch('d')) {
        ListsAction::RemoveProblem { id_hash, question_id } => {
            assert_eq!(id_hash, "a-hash");
            assert_eq!(question_id, "2");
        },
        other => panic!("unexpected {other:?}"),
    }
    assert!(!s.confirm_delete);
    // Collapsing from a nested problem snaps the cursor to its header.
    assert_eq!(s.cursor, 2);
    s.handle_key(ch('l'));
    assert!(!s.expanded.contains(&0));
    assert_eq!(s.cursor, 0);
}

#[test]
fn expanding_an_empty_list_fetches_once() {
    let mut s = state();
    s.cursor = 1;
    s.question_errors.insert(1, "old failure".to_string());
    match s.handle_key(ch('l')) {
        ListsAction::FetchListQuestions(h) => assert_eq!(h, "b-hash"),
        other => panic!("unexpected {other:?}"),
    }
    assert!(s.loading_questions.contains(&1));
    assert!(!s.question_errors.contains_key(&1));
    // Collapse, then expand again while the fetch is still running.
    assert!(matches!(s.handle_key(key(KeyCode::Enter)), ListsAction::Nothing));
    assert!(!s.expanded.contains(&1));
    assert!(matches!(s.handle_key(key(KeyCode::Enter)), ListsAction::Nothing));
    assert!(s.expanded.contains(&1));
}

#[test]
fn toggling_twice_restores_outline() {
    let mut s = state();
    s.cursor = 2;
    s.handle_key(ch('l'));
    s.handle_key(ch('l'));
    assert!(s.expanded.is_empty());
    assert_eq!(s.cursor, 2);
}

#[test]
fn delete_needs_confirmation() {
    let mut s = state();
    s.cursor = 2;
    assert!(matches!(s.handle_key(ch('d')), ListsAction::Nothing));
    assert!(s.confirm_delete);
    assert!(matches!(s.handle_key(ch('x')), ListsAction::Nothing));
    assert!(!s.confirm_delete);
    s.handle_key(ch('d'));
    assert_eq!(s.confirm_dialog(), Some("\n Delete \"Gamma\" (1 problems)?\n (y) Yes  (any) Cancel".to_string()));
    match s.handle_key(ch('Y')) {
        ListsAction::DeleteList(h) => assert_eq!(h, "c-hash"),
        other => panic!("unexpected {other:?}"),
    }
    assert!(!s.confirm_delete);
    s.cursor = 1;
    assert_eq!(s.confirm_dialog(), Some("\n Delete \"Beta\"?\n (y) Yes  (any) Cancel".to_string()));
}

#[test]
fn create_dialog_types_and_submits_trimmed_name() {
    let mut s = state();
    s.handle_key(ch('n'));
    assert!(s.create_mode);
    for c in "  My List x".chars() {
        s.handle_key(ch(c));
    }
    s.handle_key(key(KeyCode::Backspace));
    s.handle_key(key(KeyCode::Backspace));
    assert_eq!(s.create_input, "  My List");
    assert_eq!(s.create_dialog(), "\n   My List\u{258e}");
    // 'q' is text while the dialog is open.
    s.handle_key(ch('q'));
    s.handle_key(ch('\u{3000}'));
    match s.handle_key(key(KeyCode::Enter)) {
        ListsAction::CreateList(name) => assert_eq!(name, "My Listq"),
        other => panic!("unexpected {other:?}"),
    }
    assert!(!s.create_mode);
    assert_eq!(s.create_input, "");
    s.handle_key(ch('n'));
    s.handle_key(ch(' '));
    assert!(matches!(s.handle_key(key(KeyCode::Enter)), ListsAction::Nothing));
    s.handle_key(ch('n'));
    s.handle_key(ch('z'));
    assert!(matches!(s.handle_key(key(KeyCode::Esc)), ListsAction::Nothing));
    assert!(!s.create_mode);
    assert_eq!(s.create_input, "");
}

#[test]
fn back_keys_leave_the_screen() {
    let mut s = state();
    assert!(matches!(s.handle_key(key(KeyCode::Esc)), ListsAction::Back));
    assert!(matches!(s.handle_key(ch('q')), ListsAction::Back));
    assert!(matches!(s.handle_key(key(KeyCode::Other)), ListsAction::Nothing));
}

#[test]
fn outline_renders_headers_and_problems() {
    let mut s = state();
    s.expanded.insert(0);
    s.expanded.insert(1);
    s.cursor = 99;
    let (items, selected) = s.outline();
    let text: Vec<String> = items.iter().map(|l| l.content()).collect();
    assert_eq!(
        text,
        vec![
            " \u{25be} Alpha  2 problems  Public".to_string(),
            "      1. \u{2714} Title 1".to_string(),
            "      2. \u{25cf} Title 2".to_string(),
            " \u{25be} Beta  0 problems  Private".to_string(),
            "      (no problems)".to_string(),
            " \u{25b8} Gamma  1 problems  Private".to_string(),
        ]
    );
    assert_eq!(s.cursor, 4);
    assert_eq!(selected, Some(4));
    s.loading_questions.insert(1);
    s.spinner_frame = 11;
    let (items, _) = s.outline();
    assert_eq!(items[4].content(), "      \u{2819} Loading problems...");
    s.loading_questions.clear();
    s.question_errors.insert(1, "timeout".to_string());
    let (items, _) = s.outline();
    assert_eq!(items[4].content(), "      Error: timeout");
}

#[test]
fn body_shows_loading_error_or_outline() {
    let mut s = ListsState::new();
    match s.body() {
        ListsBody::Loading(t) => assert_eq!(t, " \u{280b} Loading lists..."),
        other => panic!("unexpected {other:?}"),
    }
    s.loading = false;
    s.error_message = Some("offline".to_string());
    match s.body() {
        ListsBody::Error(t) => assert_eq!(t, " Error: offline"),
        other => panic!("unexpected {other:?}"),
    }
    s.error_message = None;
    match s.body() {
        ListsBody::Outline(items, sel) => {
            assert!(items.is_empty());
            assert_eq!(sel, None);
        },
        other => panic!("unexpected {other:?}"),
    }
    assert_eq!(state().title_line().content(), " Lists  3 lists");
}

#[test]
fn status_hints_follow_the_mode() {
    let mut s = state();
    assert_eq!(s.status_hints().len(), 7);
    s.confirm_delete = true;
    assert_eq!(s.status_hints(), vec![("y", "Confirm"), ("any", "Cancel")]);
    s.create_mode = true;
    assert_eq!(s.status_hints(), vec![("Enter", "Create"), ("Esc", "Cancel")]);
}

#[test]
fn dialogs_are_centred() {
    let a = Area { x: 2, y: 1, width: 80, height: 24 };
    assert_eq!(centered_dialog(a, 40, 5), Area { x: 22, y: 10, width: 40, height: 5 });
    let small = Area { x: 0, y: 0, width: 10, height: 3 };
    assert_eq!(centered_dialog(small, 44, 5), Area { x: 2, y: 0, width: 6, height: 5 });
    let tiny = Area { x: 0, y: 0, width: 3, height: 3 };
    assert_eq!(centered_dialog(tiny, 44, 5), Area { x: 1, y: 0, width: 0, height: 5 });
}

#[test]
fn favorite_statuses_are_normalized() {
    assert_eq!(normalize_favorite_status(Some("SOLVED")), Some("ac".to_string()));
    assert_eq!(normalize_favorite_status(Some("ATTEMPTED")), Some("notac".to_string()));
    assert_eq!(normalize_favorite_status(Some("TO_DO")), Some("notac".to_string()));
    assert_eq!(normalize_favorite_status(Some("UNKNOWN")), None);
    assert_eq!(normalize_favorite_status(Some("solved")), None);
    assert_eq!(normalize_favorite_status(None), None);
}
