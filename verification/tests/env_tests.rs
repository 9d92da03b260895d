use rustup_paths_demo::env::{join, EnvPaths};

fn p(s: &str) -> String {
    s.to_string()
}

#[test]
fn from_values_uses_supplied_home_for_legacy_defaults() {
    let env = EnvPaths::from_values(p("/home/alice"), None, None, None, None, None);

    assert_eq!(env.default_rustup_home(), p("/home/alice/.rustup"));
    assert_eq!(env.default_cargo_home(), p("/home/alice/.cargo"));
}

#[test]
fn from_values_uses_supplied_home_for_xdg_fallbacks() {
    let env = EnvPaths::from_values(p("/home/alice"), None, None, None, None, None);

    assert_eq!(env.effective_xdg_config_home(), p("/home/alice/.config"));
    assert_eq!(env.effective_xdg_data_home(), p("/home/alice/.local/share"));
    assert_eq!(env.effective_xdg_cache_home(), p("/home/alice/.cache"));
}

#[test]
fn explicit_xdg_values_override_home_based_fallbacks() {
    let env = EnvPaths::from_values(
        p("/home/alice"),
        None,
        None,
        Some(p("/xdg/config")),
        Some(p("/xdg/data")),
        Some(p("/xdg/cache")),
    );

    assert_eq!(env.effective_xdg_config_home(), p("/xdg/config"));
    assert_eq!(env.effective_xdg_data_home(), p("/xdg/data"));
    assert_eq!(env.effective_xdg_cache_home(), p("/xdg/cache"));
}

#[test]
fn from_values_keeps_every_value() {
    let env = EnvPaths::from_values(
        p("/h"),
        Some(p("/r")),
        Some(p("/c")),
        Some(p("/x1")),
        Some(p("/x2")),
        Some(p("/x3")),
    );
    assert_eq!(env.home, "/h");
    assert_eq!(env.rustup_home.as_deref(), Some("/r"));
    assert_eq!(env.cargo_home.as_deref(), Some("/c"));
    assert_eq!(env.xdg_config_home.as_deref(), Some("/x1"));
    assert_eq!(env.xdg_data_home.as_deref(), Some("/x2"));
    assert_eq!(env.xdg_cache_home.as_deref(), Some("/x3"));
}

#[test]
fn join_inserts_one_separator() {
    assert_eq!(join("/home/alice", ".rustup"), "/home/alice/.rustup");
    assert_eq!(join("/home/alice/", ".rustup"), "/home/alice/.rustup");
}

#[test]
fn join_absolute_child_replaces_base() {
    assert_eq!(join("/home/alice", "/etc/rustup"), "/etc/rustup");
}

#[test]
fn join_onto_empty_base_is_child() {
    assert_eq!(join("", "bin"), "bin");
}

#[test]
fn join_empty_child_adds_trailing_separator() {
    assert_eq!(join("a", ""), "a/");
    assert_eq!(join("", ""), "");
}

#[test]
fn join_agrees_with_std_path_join() {
    for (base, child) in [("/a/b", "c"), ("a", "b/c"), ("/", "x"), ("/a/", "/b"), ("rel", "")] {
        let expected = std::path::Path::new(base).join(child);
        assert_eq!(join(base, child), expected.to_str().unwrap());
    }
}

#[test]
fn home_with_trailing_slash_gives_single_separator() {
    let env = EnvPaths::from_values(p("/home/bob/"), None, None, None, None, None);
    assert_eq!(env.default_rustup_home(), "/home/bob/.rustup");
    assert_eq!(env.effective_xdg_data_home(), "/home/bob/.local/share");
}
