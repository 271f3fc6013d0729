use zsh_mgr_rs::config::{
    classify_update, last_segment, parse_plugin_origin, str_ends_with, str_starts_with, Config,
    PluginInfo, PluginList, UpdateStatus,
};

fn sample_config() -> Config {
    Config {
        plugin_dir: String::from("/home/u/.zsh-plugins"),
        config_dir: String::from("/home/u/.config/zsh"),
        time_threshold: 604800,
        mgr_time_threshold: 604800,
    }
}

#[test]
fn last_segment_takes_part_after_last_slash() {
    assert_eq!(last_segment("user/repo"), "repo");
    assert_eq!(last_segment("a/b/c"), "c");
    assert_eq!(last_segment("plain"), "plain");
    assert_eq!(last_segment(""), "");
    assert_eq!(last_segment("trailing/"), "");
}

#[test]
fn config_paths_are_joined_under_plugin_dir() {
    let config = sample_config();
    assert_eq!(config.plugin_list_file(), "/home/u/.zsh-plugins/plugins.json");
    assert_eq!(config.manager_timestamp_file(), "/home/u/.zsh-plugins/.zsh-mgr");
    assert_eq!(config.plugin_path("user/repo"), "/home/u/.zsh-plugins/user/repo");
}

#[test]
fn timestamp_file_uses_bare_repository_name() {
    let config = sample_config();
    assert_eq!(config.timestamp_file("user/repo"), "/home/u/.zsh-plugins/.repo");
    assert_eq!(config.timestamp_file("repo"), "/home/u/.zsh-plugins/.repo");
}

#[test]
fn origin_urls_parse_to_tracked_names() {
    // A hosted https url: the user/repo part without its .git ending, public.
    let (name, private) = parse_plugin_origin("https://github.com/user/repo.git", "repo");
    assert_eq!(name, "user/repo");
    assert!(!private);

    // The same without the .git ending.
    let (name, _) = parse_plugin_origin("https://github.com/user/repo", "repo");
    assert_eq!(name, "user/repo");

    // An ssh url: same name, marked private.
    let (name, private) = parse_plugin_origin("git@github.com:user/repo.git", "repo");
    assert_eq!(name, "user/repo");
    assert!(private);

    // Any other shape falls back to the directory name; ssh still means private.
    let (name, private) = parse_plugin_origin("git@gitlab.example.com:user/repo.git", "repo");
    assert_eq!(name, "repo");
    assert!(private);
    let (name, private) = parse_plugin_origin("file:///srv/repo.git", "dirname");
    assert_eq!(name, "dirname");
    assert!(!private);
}

#[test]
fn prefix_and_suffix_checks_match_plain_strings() {
    assert!(str_starts_with("git@github.com:u/r", "git@"));
    assert!(!str_starts_with("https://x", "git@"));
    assert!(!str_starts_with("gi", "git@"));
    assert!(str_starts_with("abc", ""));
    assert!(str_ends_with("repo.git", ".git"));
    assert!(!str_ends_with("repo.gitx", ".git"));
    assert!(!str_ends_with("it", ".git"));
    assert!(str_ends_with("x", ""));
}

#[test]
fn update_classification_follows_the_one_day_boundary() {
    // Updated at 1000 with a week's interval: due again at 605800.
    let last = 1000u64;
    let week = 604800u64;
    // More than a day before the due time.
    assert_eq!(classify_update(last, week, 1000), UpdateStatus::Current);
    assert_eq!(classify_update(last, week, 605800 - 86401), UpdateStatus::Current);
    // Within the last day.
    assert_eq!(classify_update(last, week, 605800 - 86400), UpdateStatus::UpdateSoon);
    assert_eq!(classify_update(last, week, 605800 - 1), UpdateStatus::UpdateSoon);
    // Due or overdue.
    assert_eq!(classify_update(last, week, 605800), UpdateStatus::UpdateNeeded);
    assert_eq!(classify_update(last, week, 9999999), UpdateStatus::UpdateNeeded);
}

#[test]
fn plugin_info_new_starts_with_equal_timestamps() {
    let p = PluginInfo::new(
        String::from("user/repo"),
        String::from("https://github.com/user/repo.git"),
        false,
        Some(String::from("--depth 1")),
    );
    assert_eq!(p.name, "user/repo");
    assert_eq!(p.url, "https://github.com/user/repo.git");
    assert!(!p.private);
    assert_eq!(p.flags.as_deref(), Some("--depth 1"));
    assert_eq!(p.installed_at, p.last_updated);
}

fn plugin(name: &str) -> PluginInfo {
    PluginInfo::new(
        String::from(name),
        format!("https://github.com/{}.git", name),
        false,
        None,
    )
}

#[test]
fn plugin_list_add_get_remove() {
    let mut list = PluginList::new(String::from("/tmp/plugins.json"));
    assert_eq!(list.file_path(), "/tmp/plugins.json");
    assert!(list.get("user/alpha").is_none());

    list.add(plugin("user/alpha"));
    list.add(plugin("user/beta"));
    assert_eq!(list.list().len(), 2);
    assert_eq!(list.get("user/alpha").unwrap().name, "user/alpha");
    assert_eq!(list.get("user/beta").unwrap().name, "user/beta");

    let removed = list.remove("user/alpha").unwrap();
    assert_eq!(removed.name, "user/alpha");
    assert!(list.get("user/alpha").is_none());
    assert_eq!(list.list().len(), 1);
    assert!(list.remove("user/alpha").is_none());
}

#[test]
fn plugin_list_update_timestamp_touches_only_the_named_plugin() {
    let mut list = PluginList::new(String::from("/tmp/plugins.json"));
    list.add(plugin("user/alpha"));
    list.add(plugin("user/beta"));
    let beta_before = list.get("user/beta").unwrap().last_updated;

    list.update_timestamp("user/alpha", 12345);
    assert_eq!(list.get("user/alpha").unwrap().last_updated, 12345);
    assert_eq!(list.get("user/beta").unwrap().last_updated, beta_before);

    // A name that is not tracked changes nothing.
    list.update_timestamp("user/gamma", 999);
    assert!(list.get("user/gamma").is_none());
    assert_eq!(list.list().len(), 2);
}
