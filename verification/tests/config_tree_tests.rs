use scrn::config::{expand_tilde, Config};
use scrn::timefmt::utc_timestamp;
use scrn::tree::{build_tree_prefix, collect_repo_paths, tree_has_match, TreeNode};

fn home() -> String {
    "/home/u".to_string()
}

#[test]
fn cli_workspace_wins() {
    let cli = "~/code".to_string();
    let text = "workspace = /elsewhere\nsidebar = true\n".to_string();
    let h = home();
    let cfg = Config::load(Some(&cli), Some(&text), Some(&h));
    assert_eq!(cfg.workspace.as_deref(), Some("/home/u/code"));
    assert!(!cfg.sidebar);
}

#[test]
fn file_keys_are_parsed() {
    let text = "# a comment\n\nworkspace = \"~/projects\"\nsidebar = true\n".to_string();
    let h = home();
    let cfg = Config::load(None, Some(&text), Some(&h));
    assert_eq!(cfg.workspace.as_deref(), Some("/home/u/projects"));
    assert!(cfg.sidebar);
}

#[test]
fn later_keys_override_and_unknown_are_ignored() {
    let text = "workspace = /a\nsidebar = yes\nworkspace = /b\ncolor = red\nnot a pair\n"
        .to_string();
    let cfg = Config::load(None, Some(&text), None);
    assert_eq!(cfg.workspace.as_deref(), Some("/b"));
    // "yes" is not "true".
    assert!(!cfg.sidebar);
}

#[test]
fn missing_file_means_defaults() {
    let cfg = Config::load(None, None, None);
    assert!(cfg.workspace.is_none());
    assert!(!cfg.sidebar);
}

#[test]
fn tilde_expansion() {
    let h = home();
    assert_eq!(expand_tilde(&"~/x".to_string(), Some(&h)), "/home/u/x");
    assert_eq!(expand_tilde(&"~".to_string(), Some(&h)), "/home/u");
    assert_eq!(expand_tilde(&"/abs".to_string(), Some(&h)), "/abs");
    assert_eq!(expand_tilde(&"~/x".to_string(), None), "~/x");
}

fn repo(name: &str) -> TreeNode {
    TreeNode {
        name: name.to_string(),
        path: format!("/w/{name}"),
        is_repo: true,
        children: Vec::new(),
    }
}

fn dir(name: &str, children: Vec<TreeNode>) -> TreeNode {
    TreeNode { name: name.to_string(), path: format!("/w/{name}"), is_repo: false, children }
}

#[test]
fn tree_prefixes() {
    assert_eq!(build_tree_prefix(&vec![], false), "\u{251c}\u{2500} ");
    assert_eq!(build_tree_prefix(&vec![], true), "\u{2514}\u{2500} ");
    assert_eq!(
        build_tree_prefix(&vec![true, false], true),
        "\u{2502}     \u{2514}\u{2500} "
    );
}

#[test]
fn tree_search_descends() {
    let t = dir("root", vec![dir("sub", vec![repo("alpha"), repo("beta")]), repo("gamma")]);
    assert!(tree_has_match(&t, "alp"));
    assert!(tree_has_match(&t, "gam"));
    assert!(tree_has_match(&t, "BETA"));
    assert!(!tree_has_match(&t, "zzz"));
    assert!(tree_has_match(&t, ""));
}

#[test]
fn repo_paths_in_tree_order() {
    let t = dir("root", vec![dir("sub", vec![repo("alpha")]), repo("gamma")]);
    let mut out = Vec::new();
    collect_repo_paths(&t, &mut out);
    assert_eq!(
        out,
        vec![
            ("alpha".to_string(), "/w/alpha".to_string()),
            ("gamma".to_string(), "/w/gamma".to_string()),
        ]
    );
}

#[test]
fn timestamps_are_civil() {
    assert_eq!(utc_timestamp(0), "1970-01-01 00:00:00");
    assert_eq!(utc_timestamp(86399), "1970-01-01 23:59:59");
    assert_eq!(utc_timestamp(86400), "1970-01-02 00:00:00");
    assert_eq!(utc_timestamp(951782400), "2000-02-29 00:00:00");
    assert_eq!(utc_timestamp(1700000000), "2023-11-14 22:13:20");
}
