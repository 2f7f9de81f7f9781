use spaces::config::{Config, OwnerSpaces, Repo, SpaceConfig};
use spaces::new::{App, AppState, Key};

fn repo(name: &str) -> Repo {
    Repo { name: name.to_string(), default_branch: None, username: None, token: None }
}

fn conf() -> Config {
    Config {
        config: SpaceConfig {
            spaces_dir: "/home/u/spaces".to_string(),
            default_branch: "master".to_string(),
            default_username: "user".to_string(),
            default_token: "SECRET-REDACTED".to_string(),
        },
        repos: vec![repo("github.com/acme/widgets"), repo("github.com/acme/gadgets"), repo("github.com/other/tool")],
        current_spaces: vec![OwnerSpaces {
            owner: "acme".to_string(),
            spaces: vec!["widgets-main".to_string(), "gadgets-main".to_string(), "widgets-feature".to_string()],
        }],
    }
}

fn type_text(app: &mut App, text: &str) {
    for c in text.chars() {
        app.handle_key_event(Key::Char(c));
    }
}

#[test]
fn starts_in_repo_stage_with_every_repository() {
    let app = App::new(conf());
    assert!(matches!(app.state, AppState::Repo));
    assert_eq!(app.repos_list.matched_repos, vec![0, 1, 2]);
    assert_eq!(app.repos_list.selected, None);
    assert!(!app.exit && !app.ready_to_clone);
}

#[test]
fn unmatched_repository_query_stays_in_repo_stage() {
    let mut app = App::new(conf());
    type_text(&mut app, "zzz");
    assert!(app.repos_list.matched_repos.is_empty());
    app.handle_key_event(Key::Enter);
    assert!(matches!(app.state, AppState::Repo));
    assert!(!app.exit && !app.ready_to_clone);
    assert_eq!(app.selected_repo, "zzz");
}

#[test]
fn typing_filters_and_backspace_refilters() {
    let mut app = App::new(conf());
    type_text(&mut app, "wid");
    assert_eq!(app.repos_list.matched_repos, vec![0]);
    app.handle_key_event(Key::Backspace);
    app.handle_key_event(Key::Backspace);
    assert_eq!(app.selected_repo, "w");
    assert_eq!(app.repos_list.matched_repos.len(), 1);
    app.handle_key_event(Key::Backspace);
    app.handle_key_event(Key::Backspace);
    assert_eq!(app.selected_repo, "");
    assert_eq!(app.repos_list.matched_repos, vec![0, 1, 2]);
}

#[test]
fn navigation_moves_and_clears_the_highlight() {
    let mut app = App::new(conf());
    app.handle_key_event(Key::Up);
    assert_eq!(app.repos_list.selected, Some(2));
    app.handle_key_event(Key::Down);
    assert_eq!(app.repos_list.selected, Some(2));
    app.handle_key_event(Key::Up);
    app.handle_key_event(Key::Up);
    app.handle_key_event(Key::Up);
    assert_eq!(app.repos_list.selected, Some(0));
    app.handle_key_event(Key::Tab);
    assert_eq!(app.repos_list.selected, Some(1));
    app.handle_key_event(Key::Esc);
    assert_eq!(app.repos_list.selected, None);
    type_text(&mut app, "zzz");
    app.handle_key_event(Key::Down);
    assert_eq!(app.repos_list.selected, None);
}

#[test]
fn confirming_a_repository_offers_its_owner_spaces() {
    let mut app = App::new(conf());
    type_text(&mut app, "widg");
    app.handle_key_event(Key::Down);
    app.handle_key_event(Key::Enter);
    assert!(matches!(app.state, AppState::Branch));
    assert_eq!(app.selected_repo, "github.com/acme/widgets");
    let labels: Vec<&str> = app
        .existing_spaces_list
        .matched_spaces
        .iter()
        .map(|&i| app.existing_spaces_list.available_spaces[i].as_str())
        .collect();
    assert_eq!(labels.len(), 2);
    assert!(labels.contains(&"widgets-main") && labels.contains(&"widgets-feature"));
    type_text(&mut app, "fe");
    assert_eq!(app.existing_spaces_list.matched_spaces.len(), 1);
    let i = app.existing_spaces_list.matched_spaces[0];
    assert_eq!(app.existing_spaces_list.available_spaces[i], "widgets-feature");
}

#[test]
fn choosing_an_existing_space_completes_with_its_branch() {
    let mut app = App::new(conf());
    type_text(&mut app, "widg");
    app.handle_key_event(Key::Down);
    app.handle_key_event(Key::Enter);
    type_text(&mut app, "fe");
    app.handle_key_event(Key::Down);
    app.handle_key_event(Key::Enter);
    assert!(app.exit && app.ready_to_clone);
    assert_eq!(app.selected_branch, "feature");
    assert_eq!(app.selected_base_branch, "");
}

#[test]
fn empty_branch_completes_with_the_default() {
    let mut app = App::new(conf());
    app.handle_key_event(Key::Down);
    app.handle_key_event(Key::Enter);
    app.handle_key_event(Key::Enter);
    assert!(app.exit && app.ready_to_clone);
    assert_eq!(app.selected_repo, "github.com/acme/widgets");
    assert_eq!(app.selected_branch, "");
}

#[test]
fn new_branch_asks_for_a_base_branch() {
    let mut app = App::new(conf());
    app.handle_key_event(Key::Down);
    app.handle_key_event(Key::Enter);
    type_text(&mut app, "feature/x");
    app.handle_key_event(Key::Enter);
    assert!(matches!(app.state, AppState::BaseBranch));
    assert!(!app.exit);
    type_text(&mut app, "develo");
    app.handle_key_event(Key::Down);
    type_text(&mut app, "pp");
    app.handle_key_event(Key::Backspace);
    app.handle_key_event(Key::Enter);
    assert!(app.exit && app.ready_to_clone);
    assert_eq!(app.selected_branch, "feature/x");
    assert_eq!(app.selected_base_branch, "develop");
}

#[test]
fn interrupt_abandons_the_flow() {
    let mut app = App::new(conf());
    app.handle_key_event(Key::Down);
    app.handle_key_event(Key::Enter);
    app.handle_key_event(Key::Interrupt);
    assert!(app.exit);
    assert!(!app.ready_to_clone);
}

#[test]
fn repository_without_recorded_spaces_offers_none() {
    let mut app = App::new(conf());
    type_text(&mut app, "tool");
    app.handle_key_event(Key::Down);
    app.handle_key_event(Key::Enter);
    assert!(matches!(app.state, AppState::Branch));
    assert!(app.existing_spaces_list.available_spaces.is_empty());
    app.handle_key_event(Key::Other);
    assert!(matches!(app.state, AppState::Branch));
}
