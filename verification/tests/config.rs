use search::config::{
    config_dir, config_dir_for, config_dir_in, config_path, config_path_for, config_path_in,
    default_config_file, find_provider, join_path, select_browser, BrowserChoice, BrowserSetting,
    Config, DefaultConfig, Provider, CONFIG_FILE,
};

fn provider(name: &str, aliases: Option<Vec<&str>>) -> Provider {
    Provider {
        name: name.to_string(),
        aliases: aliases.map(|list| list.into_iter().map(String::from).collect()),
        url: format!("https://{name}.example/?q={{{{ word | urlencode }}}}"),
        browser: BrowserSetting::ConfigDefault,
    }
}

#[test]
fn test_find_provider() {
    let name = "google";
    assert_eq!(find_provider(&[], name), None);

    let providers = [Provider {
        name: "google".into(),
        ..Default::default()
    }];

    assert_eq!(
        find_provider(&providers, name),
        Some(&Provider {
            name: "google".into(),
            ..Default::default()
        })
    );
}

#[test]
fn find_by_name_among_several() {
    let providers = default_config_file().providers;
    for p in &providers {
        assert_eq!(find_provider(&providers, &p.name), Some(p));
    }
}

#[test]
fn find_by_each_alias() {
    let providers = vec![
        provider("google", Some(vec!["g", "goo"])),
        provider("bing", None),
        provider("duckduckgo", Some(vec!["d", "ddg", "duck"])),
    ];
    for p in &providers {
        for alias in p.aliases.iter().flatten() {
            assert_eq!(find_provider(&providers, alias), Some(p));
        }
    }
}

#[test]
fn find_in_empty_list_is_none() {
    assert_eq!(find_provider(&[], ""), None);
    assert_eq!(find_provider(&[], "g"), None);
    assert_eq!(find_provider(&Vec::new(), "anything"), None);
}

#[test]
fn find_unknown_name_is_none() {
    let providers = default_config_file().providers;
    assert_eq!(find_provider(&providers, "yahoo"), None);
    assert_eq!(find_provider(&providers, ""), None);
    assert_eq!(find_provider(&providers, "goog"), None);
    assert_eq!(find_provider(&providers, "googlee"), None);
}

#[test]
fn find_is_case_sensitive() {
    let providers = default_config_file().providers;
    assert_eq!(find_provider(&providers, "Google"), None);
    assert_eq!(find_provider(&providers, "G"), None);
    assert_eq!(find_provider(&providers, "D"), None);
}

#[test]
fn find_takes_the_first_that_answers() {
    let providers = vec![
        provider("one", Some(vec!["shared", "two"])),
        provider("two", Some(vec!["shared"])),
        provider("one", None),
    ];
    assert_eq!(find_provider(&providers, "shared"), Some(&providers[0]));
    // An alias of an earlier provider wins over the name of a later one.
    assert_eq!(find_provider(&providers, "two"), Some(&providers[0]));
    assert_eq!(find_provider(&providers, "one"), Some(&providers[0]));
    assert!(std::ptr::eq(find_provider(&providers, "one").unwrap(), &providers[0]));
}

#[test]
fn find_with_empty_alias_list() {
    let providers = vec![provider("one", Some(vec![])), provider("two", Some(vec!["2"]))];
    assert_eq!(find_provider(&providers, "2"), Some(&providers[1]));
    assert_eq!(find_provider(&providers, "1"), None);
}

#[test]
fn find_compares_whole_unicode_names() {
    let providers = vec![provider("検索", Some(vec!["けんさく"])), provider("suche", Some(vec!["ß"]))];
    assert_eq!(find_provider(&providers, "検索"), Some(&providers[0]));
    assert_eq!(find_provider(&providers, "けんさく"), Some(&providers[0]));
    assert_eq!(find_provider(&providers, "ß"), Some(&providers[1]));
    assert_eq!(find_provider(&providers, "検"), None);
    assert_eq!(find_provider(&providers, "ss"), None);
}

#[test]
fn provider_answers_to_name_and_aliases_only() {
    let p = provider("google", Some(vec!["g"]));
    assert!(p.answers_to("google"));
    assert!(p.answers_to("g"));
    assert!(!p.answers_to("go"));
    assert!(!p.answers_to(""));
    assert!(!p.answers_to(&p.url));
}

#[test]
fn default_provider_is_blank() {
    let p = Provider::default();
    assert_eq!(p.name, "");
    assert_eq!(p.aliases, None);
    assert_eq!(p.url, "");
    assert_eq!(p.browser, BrowserSetting::ConfigDefault);
    assert_eq!(BrowserSetting::default(), BrowserSetting::ConfigDefault);
}

#[test]
fn no_browser_anywhere_selects_os_default() {
    assert_eq!(select_browser(&BrowserSetting::ConfigDefault, &None), BrowserChoice::OsDefault);
    assert_eq!(
        select_browser(&BrowserSetting::ConfigDefault, &Some(DefaultConfig { browser: None })),
        BrowserChoice::OsDefault
    );
    assert_eq!(select_browser(&BrowserSetting::OsDefault, &None), BrowserChoice::OsDefault);
}

#[test]
fn config_default_browser_is_used() {
    let default = Some(DefaultConfig { browser: Some("/usr/bin/firefox".to_string()) });
    assert_eq!(
        select_browser(&BrowserSetting::ConfigDefault, &default),
        BrowserChoice::Path("/usr/bin/firefox".to_string())
    );
}

#[test]
fn os_default_setting_ignores_config_default() {
    let default = Some(DefaultConfig { browser: Some("/usr/bin/firefox".to_string()) });
    assert_eq!(select_browser(&BrowserSetting::OsDefault, &default), BrowserChoice::OsDefault);
}

#[test]
fn explicit_browser_wins() {
    let setting = BrowserSetting::Path("chromium".to_string());
    let default = Some(DefaultConfig { browser: Some("/usr/bin/firefox".to_string()) });
    assert_eq!(select_browser(&setting, &default), BrowserChoice::Path("chromium".to_string()));
    assert_eq!(select_browser(&setting, &None), BrowserChoice::Path("chromium".to_string()));
    assert_eq!(
        select_browser(&setting, &Some(DefaultConfig { browser: None })),
        BrowserChoice::Path("chromium".to_string())
    );
}

#[test]
fn built_in_configuration() {
    let expected = Config {
        version: "v1.0".to_string(),
        providers: vec![
            Provider {
                name: "google".to_string(),
                aliases: Some(vec!["g".to_string()]),
                url: "https://google.com/search?q={{ word | urlencode }}".to_string(),
                browser: BrowserSetting::ConfigDefault,
            },
            Provider {
                name: "bing".to_string(),
                aliases: None,
                url: "https://www.bing.com/search?q={{ word | urlencode }}".to_string(),
                browser: BrowserSetting::ConfigDefault,
            },
            Provider {
                name: "duckduckgo".to_string(),
                aliases: Some(vec!["d".to_string()]),
                url: "https://duckduckgo.com/?q={{ word | urlencode }}".to_string(),
                browser: BrowserSetting::ConfigDefault,
            },
        ],
        default: None,
    };
    assert_eq!(default_config_file(), expected);
}

#[test]
fn join_path_puts_one_slash_between() {
    assert_eq!(join_path("/home/alice", "x"), "/home/alice/x");
    assert_eq!(join_path("/home/alice/", "x"), "/home/alice/x");
    assert_eq!(join_path("/", "x"), "/x");
    assert_eq!(join_path("", "x"), "x");
    assert_eq!(join_path("relative", "x"), "relative/x");
    assert_eq!(join_path("/home/アリス", "x"), "/home/アリス/x");
    assert_eq!(join_path("/a", ""), "/a/");
}

#[test]
fn config_paths_below_a_home() {
    assert_eq!(CONFIG_FILE, "config.yaml");
    assert_eq!(config_dir_in("/home/alice"), "/home/alice/.config/search");
    assert_eq!(config_path_in("/home/alice"), "/home/alice/.config/search/config.yaml");
    assert_eq!(config_path_in("/home/alice/"), "/home/alice/.config/search/config.yaml");
    assert_eq!(config_path_in("/"), "/.config/search/config.yaml");
    assert_eq!(config_path_in(""), ".config/search/config.yaml");
}

#[test]
fn config_paths_of_the_current_user() {
    let home = dirs::home_dir().and_then(|h| h.to_str().map(String::from));
    assert_eq!(config_dir(), home.as_deref().map(config_dir_in));
    assert_eq!(config_path(), home.as_deref().map(config_path_in));
    if let (Some(dir), Some(path)) = (config_dir(), config_path()) {
        assert_eq!(path, join_path(&dir, CONFIG_FILE));
        let mut by_std = dirs::home_dir().unwrap();
        by_std.push(".config");
        by_std.push("search");
        by_std.push("config.yaml");
        if std::path::MAIN_SEPARATOR == '/' {
            assert_eq!(by_std.to_str(), Some(path.as_str()));
        }
    }
}

#[test]
fn config_paths_for_an_optional_home() {
    assert_eq!(config_dir_for(&None), None);
    assert_eq!(config_path_for(&None), None);
    let home = Some("/home/alice".to_string());
    assert_eq!(config_dir_for(&home), Some("/home/alice/.config/search".to_string()));
    assert_eq!(config_path_for(&home), Some("/home/alice/.config/search/config.yaml".to_string()));
    let root = Some("/".to_string());
    assert_eq!(config_path_for(&root), Some("/.config/search/config.yaml".to_string()));
    let current = dirs::home_dir().and_then(|h| h.to_str().map(String::from));
    assert_eq!(config_dir(), config_dir_for(&current));
    assert_eq!(config_path(), config_path_for(&current));
}
