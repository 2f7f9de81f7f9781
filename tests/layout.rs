use spaces::config::{master, Config, OwnerSpaces, Repo, SpaceConfig};
use spaces::error::CustomError;
use spaces::layout::{get_branch_name, location_owner, repo_short_name, space_name, space_path};

fn conf(root: &str) -> Config {
    Config {
        config: SpaceConfig {
            spaces_dir: root.to_string(),
            default_branch: master(),
            default_username: "user".to_string(),
            default_token: "SECRET-REDACTED".to_string(),
        },
        repos: vec![],
        current_spaces: Vec::<OwnerSpaces>::new(),
    }
}

fn repo(name: &str, default_branch: Option<&str>) -> Repo {
    Repo {
        name: name.to_string(),
        default_branch: default_branch.map(|s| s.to_string()),
        username: None,
        token: None,
    }
}

#[test]
fn short_name_drops_a_trailing_git() {
    assert_eq!(repo_short_name("github.com/acme/widgets.git"), "widgets");
    assert_eq!(repo_short_name("github.com/acme/widgets"), "widgets");
    assert_eq!(repo_short_name("github.com/acme/my.github"), "my.github");
    assert_eq!(repo_short_name("widgets"), "widgets");
}

#[test]
fn owner_is_the_segment_before_the_name() {
    assert_eq!(location_owner("github.com/acme/widgets"), Some("acme".to_string()));
    assert_eq!(location_owner("https://github.com/acme/widgets.git"), Some("acme".to_string()));
    assert_eq!(location_owner("acme/widgets"), Some("acme".to_string()));
    assert_eq!(location_owner("widgets"), None);
}

#[test]
fn space_name_joins_name_and_branch() {
    assert_eq!(space_name("github.com/acme/widgets.git", "feature/x"), "widgets-feature/x");
}

#[test]
fn branch_falls_back_to_repository_then_catalog_default() {
    let c = conf("/home/u/spaces");
    let with_default = repo("github.com/acme/widgets", Some("main"));
    let without = repo("github.com/acme/widgets", None);
    assert_eq!(get_branch_name(&c, &"dev".to_string(), &with_default), "dev");
    assert_eq!(get_branch_name(&c, &String::new(), &with_default), "main");
    assert_eq!(get_branch_name(&c, &String::new(), &without), "master");
}

#[test]
fn destination_of_the_default_branch() {
    let c = conf("/home/u/spaces");
    let r = repo("github.com/acme/widgets", Some("main"));
    let branch = get_branch_name(&c, &String::new(), &r);
    match space_path(&c, &r, &branch) {
        Ok(p) => assert_eq!(p, "/home/u/spaces/acme/widgets-main"),
        Err(_) => panic!("expected a destination"),
    }
}

#[test]
fn destination_needs_an_owner() {
    let c = conf("/home/u/spaces");
    let r = repo("widgets", None);
    match space_path(&c, &r, &"main".to_string()) {
        Err(CustomError::Io(m)) => assert_eq!(m, "Destination path not found"),
        _ => panic!("expected an I/O failure"),
    }
}

#[test]
fn destinations_are_stable_and_distinct() {
    let c = conf("/s");
    let path = |name: &str, branch: &str| match space_path(&c, &repo(name, None), &branch.to_string()) {
        Ok(p) => p,
        Err(_) => panic!("expected a destination"),
    };
    assert_eq!(path("github.com/acme/widgets", "main"), path("github.com/acme/widgets", "main"));
    let all = [
        path("github.com/acme/widgets", "main"),
        path("github.com/acme/widgets", "dev"),
        path("github.com/acme/gadgets", "main"),
        path("github.com/other/widgets", "main"),
    ];
    for i in 0..all.len() {
        for j in 0..all.len() {
            if i != j {
                assert_ne!(all[i], all[j]);
            }
        }
    }
}
