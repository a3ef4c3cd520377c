use window_menu::layout::{
    about_info, app_menu, application_submenu, dev_submenu, edit_submenu, file_submenu,
    help_submenu, quit_label, view_submenu, window_submenu,
};
use window_menu::model::{
    AboutInfo, MenuBar, MenuEntry, PackageInfo, Predefined, Submenu, SubmenuRole,
};
use window_menu::platform::Platform;

fn package() -> PackageInfo {
    PackageInfo {
        name: "Notes".to_string(),
        version: "1.4.2".to_string(),
        copyright: Some("© 2024 Notes Ltd".to_string()),
        publisher: Some("Notes Ltd".to_string()),
    }
}

fn bare_package() -> PackageInfo {
    PackageInfo {
        name: "Notes".to_string(),
        version: "0.1.0".to_string(),
        copyright: None,
        publisher: None,
    }
}

fn about() -> AboutInfo {
    AboutInfo {
        name: Some("Notes".to_string()),
        version: Some("1.4.2".to_string()),
        copyright: Some("© 2024 Notes Ltd".to_string()),
        authors: Some(vec!["Notes Ltd".to_string()]),
    }
}

fn ready(kind: Predefined) -> MenuEntry {
    MenuEntry::Predefined(kind)
}

fn custom(id: &str, label: &str, accelerator: Option<&str>) -> MenuEntry {
    MenuEntry::Custom {
        id: id.to_string(),
        label: label.to_string(),
        accelerator: accelerator.map(|a| a.to_string()),
    }
}

fn labels(menu: &MenuBar) -> Vec<String> {
    menu.submenus.iter().map(|s| s.label.clone()).collect()
}

fn custom_ids(menu: &MenuBar) -> Vec<String> {
    let mut ids = Vec::new();
    for submenu in &menu.submenus {
        for entry in &submenu.items {
            if let MenuEntry::Custom { id, .. } = entry {
                ids.push(id.clone());
            }
        }
    }
    ids
}

fn every_configuration() -> Vec<(Platform, bool)> {
    vec![
        (Platform::MacOs, false),
        (Platform::MacOs, true),
        (Platform::UnixLike, false),
        (Platform::UnixLike, true),
        (Platform::Other, false),
        (Platform::Other, true),
    ]
}

#[test]
fn about_info_takes_name_version_copyright_and_publisher() {
    assert_eq!(about_info(&package()), about());
}

#[test]
fn about_info_without_publisher_has_no_authors() {
    let info = about_info(&bare_package());
    assert_eq!(
        info,
        AboutInfo {
            name: Some("Notes".to_string()),
            version: Some("0.1.0".to_string()),
            copyright: None,
            authors: None,
        }
    );
}

#[test]
fn quit_label_names_the_application() {
    assert_eq!(quit_label("Notes"), "Quit Notes");
    assert_eq!(quit_label(""), "Quit ");
}

#[test]
fn window_submenu_on_macos_has_a_separator_before_close() {
    assert_eq!(
        window_submenu(Platform::MacOs),
        Submenu {
            role: SubmenuRole::Window,
            label: "窗口".to_string(),
            enabled: true,
            items: vec![
                ready(Predefined::Minimize),
                ready(Predefined::Maximize),
                ready(Predefined::Separator),
                ready(Predefined::CloseWindow),
            ],
        }
    );
}

#[test]
fn window_submenu_elsewhere_has_three_entries() {
    for platform in [Platform::UnixLike, Platform::Other] {
        assert_eq!(
            window_submenu(platform),
            Submenu {
                role: SubmenuRole::Window,
                label: "窗口".to_string(),
                enabled: true,
                items: vec![
                    ready(Predefined::Minimize),
                    ready(Predefined::Maximize),
                    ready(Predefined::CloseWindow),
                ],
            }
        );
    }
}

#[test]
fn help_submenu_on_macos_opens_feedback() {
    assert_eq!(
        help_submenu(&package(), Platform::MacOs),
        Submenu {
            role: SubmenuRole::Help,
            label: "帮助".to_string(),
            enabled: true,
            items: vec![custom("open_feedback", "反馈", None)],
        }
    );
}

#[test]
fn help_submenu_elsewhere_shows_about() {
    for platform in [Platform::UnixLike, Platform::Other] {
        assert_eq!(
            help_submenu(&package(), platform),
            Submenu {
                role: SubmenuRole::Help,
                label: "帮助".to_string(),
                enabled: true,
                items: vec![MenuEntry::About(about())],
            }
        );
    }
}

#[test]
fn application_submenu_lists_its_entries_in_order() {
    assert_eq!(
        application_submenu(&package()),
        Submenu {
            role: SubmenuRole::Plain,
            label: "Notes".to_string(),
            enabled: true,
            items: vec![
                MenuEntry::About(about()),
                ready(Predefined::Separator),
                custom("settings", "设置", Some("CmdOrCtrl+,")),
                ready(Predefined::Separator),
                ready(Predefined::Separator),
                ready(Predefined::Hide),
                ready(Predefined::HideOthers),
                ready(Predefined::Separator),
                custom("hacked_quit", "Quit Notes", Some("CmdOrCtrl+q")),
            ],
        }
    );
}

#[test]
fn file_submenu_on_macos_only_closes_the_window() {
    assert_eq!(
        file_submenu(Platform::MacOs),
        Submenu {
            role: SubmenuRole::Plain,
            label: "文件".to_string(),
            enabled: true,
            items: vec![ready(Predefined::CloseWindow)],
        }
    );
}

#[test]
fn file_submenu_elsewhere_also_quits() {
    assert_eq!(
        file_submenu(Platform::Other),
        Submenu {
            role: SubmenuRole::Plain,
            label: "文件".to_string(),
            enabled: true,
            items: vec![ready(Predefined::CloseWindow), ready(Predefined::Quit)],
        }
    );
}

#[test]
fn edit_submenu_lists_its_entries_in_order() {
    assert_eq!(
        edit_submenu(),
        Submenu {
            role: SubmenuRole::Plain,
            label: "编辑".to_string(),
            enabled: true,
            items: vec![
                ready(Predefined::Undo),
                ready(Predefined::Redo),
                ready(Predefined::Separator),
                ready(Predefined::Cut),
                ready(Predefined::Copy),
                ready(Predefined::Paste),
                ready(Predefined::SelectAll),
            ],
        }
    );
}

#[test]
fn view_submenu_on_macos_starts_with_fullscreen() {
    assert_eq!(
        view_submenu(Platform::MacOs),
        Submenu {
            role: SubmenuRole::Plain,
            label: "视图".to_string(),
            enabled: true,
            items: vec![
                ready(Predefined::Fullscreen),
                ready(Predefined::Separator),
                custom("zoom_reset", "缩放到实际大小", Some("CmdOrCtrl+0")),
                custom("zoom_in", "放大", Some("CmdOrCtrl+=")),
                custom("zoom_out", "缩小", Some("CmdOrCtrl+-")),
            ],
        }
    );
}

#[test]
fn view_submenu_elsewhere_holds_the_zoom_entries() {
    for platform in [Platform::UnixLike, Platform::Other] {
        assert_eq!(
            view_submenu(platform),
            Submenu {
                role: SubmenuRole::Plain,
                label: "视图".to_string(),
                enabled: true,
                items: vec![
                    custom("zoom_reset", "缩放到实际大小", Some("CmdOrCtrl+0")),
                    custom("zoom_in", "放大", Some("CmdOrCtrl+=")),
                    custom("zoom_out", "缩小", Some("CmdOrCtrl+-")),
                ],
            }
        );
    }
}

#[test]
fn dev_submenu_lists_its_entries_in_order() {
    assert_eq!(
        dev_submenu(),
        Submenu {
            role: SubmenuRole::Plain,
            label: "开发".to_string(),
            enabled: true,
            items: vec![
                custom("dev.refresh", "刷新", Some("CmdOrCtrl+Shift+r")),
                custom("dev.toggle_devtools", "打开开发者工具", Some("CmdOrCtrl+Option+i")),
                custom("dev.reset_size", "重置大小", None),
                custom("dev.generate_theme_css", "生成主题CSS", None),
            ],
        }
    );
}

#[test]
fn menu_on_macos_release() {
    let menu = app_menu(&package(), Platform::MacOs, false);
    assert_eq!(
        menu,
        MenuBar {
            submenus: vec![
                application_submenu(&package()),
                file_submenu(Platform::MacOs),
                edit_submenu(),
                view_submenu(Platform::MacOs),
                window_submenu(Platform::MacOs),
                help_submenu(&package(), Platform::MacOs),
            ],
        }
    );
    assert_eq!(labels(&menu), ["Notes", "文件", "编辑", "视图", "窗口", "帮助"]);
}

#[test]
fn menu_on_unix_like_release_has_no_file_submenu() {
    let menu = app_menu(&package(), Platform::UnixLike, false);
    assert_eq!(
        menu,
        MenuBar {
            submenus: vec![
                edit_submenu(),
                view_submenu(Platform::UnixLike),
                window_submenu(Platform::UnixLike),
                help_submenu(&package(), Platform::UnixLike),
            ],
        }
    );
    assert_eq!(labels(&menu), ["编辑", "视图", "窗口", "帮助"]);
}

#[test]
fn menu_on_other_platforms_release_starts_with_file() {
    let menu = app_menu(&package(), Platform::Other, false);
    assert_eq!(
        menu,
        MenuBar {
            submenus: vec![
                file_submenu(Platform::Other),
                edit_submenu(),
                view_submenu(Platform::Other),
                window_submenu(Platform::Other),
                help_submenu(&package(), Platform::Other),
            ],
        }
    );
    assert_eq!(labels(&menu), ["文件", "编辑", "视图", "窗口", "帮助"]);
}

#[test]
fn menu_on_macos_development_has_seven_submenus() {
    let menu = app_menu(&package(), Platform::MacOs, true);
    assert_eq!(labels(&menu), ["Notes", "文件", "编辑", "视图", "窗口", "帮助", "开发"]);
}

#[test]
fn development_build_appends_the_dev_submenu() {
    for platform in [Platform::MacOs, Platform::UnixLike, Platform::Other] {
        let release = app_menu(&package(), platform, false);
        let development = app_menu(&package(), platform, true);
        let mut expected = release.submenus.clone();
        expected.push(dev_submenu());
        assert_eq!(development.submenus, expected);
    }
}

#[test]
fn submenu_count_follows_platform_and_build_mode() {
    let counts: Vec<usize> = every_configuration()
        .into_iter()
        .map(|(platform, dev)| app_menu(&package(), platform, dev).submenus.len())
        .collect();
    assert_eq!(counts, [6, 7, 4, 5, 5, 6]);
}

#[test]
fn every_submenu_is_enabled() {
    for (platform, dev) in every_configuration() {
        let menu = app_menu(&package(), platform, dev);
        assert!(menu.submenus.iter().all(|s| s.enabled));
    }
}

#[test]
fn help_follows_window_and_each_stands_once() {
    for (platform, dev) in every_configuration() {
        let menu = app_menu(&package(), platform, dev);
        let roles: Vec<SubmenuRole> = menu.submenus.iter().map(|s| s.role).collect();
        let window: Vec<usize> =
            (0..roles.len()).filter(|&i| roles[i] == SubmenuRole::Window).collect();
        let help: Vec<usize> =
            (0..roles.len()).filter(|&i| roles[i] == SubmenuRole::Help).collect();
        assert_eq!(window.len(), 1);
        assert_eq!(help, [window[0] + 1]);
    }
}

#[test]
fn emitted_ids_on_macos_development() {
    let menu = app_menu(&package(), Platform::MacOs, true);
    assert_eq!(
        custom_ids(&menu),
        [
            "settings",
            "hacked_quit",
            "zoom_reset",
            "zoom_in",
            "zoom_out",
            "open_feedback",
            "dev.refresh",
            "dev.toggle_devtools",
            "dev.reset_size",
            "dev.generate_theme_css",
        ]
    );
}

#[test]
fn emitted_ids_on_macos_release() {
    let menu = app_menu(&package(), Platform::MacOs, false);
    assert_eq!(
        custom_ids(&menu),
        ["settings", "hacked_quit", "zoom_reset", "zoom_in", "zoom_out", "open_feedback"]
    );
}

#[test]
fn emitted_ids_off_macos() {
    for platform in [Platform::UnixLike, Platform::Other] {
        let release = app_menu(&package(), platform, false);
        assert_eq!(custom_ids(&release), ["zoom_reset", "zoom_in", "zoom_out"]);
        let development = app_menu(&package(), platform, true);
        assert_eq!(
            custom_ids(&development),
            [
                "zoom_reset",
                "zoom_in",
                "zoom_out",
                "dev.refresh",
                "dev.toggle_devtools",
                "dev.reset_size",
                "dev.generate_theme_css",
            ]
        );
    }
}

#[test]
fn emitted_ids_are_unique() {
    for (platform, dev) in every_configuration() {
        let mut ids = custom_ids(&app_menu(&package(), platform, dev));
        let total = ids.len();
        ids.sort();
        ids.dedup();
        assert_eq!(ids.len(), total);
    }
}

#[test]
fn about_entry_stands_exactly_once() {
    for (platform, dev) in every_configuration() {
        let menu = app_menu(&package(), platform, dev);
        let mut found = Vec::new();
        for (i, submenu) in menu.submenus.iter().enumerate() {
            for (j, entry) in submenu.items.iter().enumerate() {
                if let MenuEntry::About(info) = entry {
                    assert_eq!(info, &about());
                    found.push((i, j));
                }
            }
        }
        let expected = match platform {
            Platform::MacOs => (0, 0),
            Platform::UnixLike => (3, 0),
            Platform::Other => (4, 0),
        };
        assert_eq!(found, [expected]);
    }
}

#[test]
fn menu_without_publisher_or_copyright() {
    let menu = app_menu(&bare_package(), Platform::Other, false);
    let help = &menu.submenus[4];
    assert_eq!(
        help.items,
        [MenuEntry::About(AboutInfo {
            name: Some("Notes".to_string()),
            version: Some("0.1.0".to_string()),
            copyright: None,
            authors: None,
        })]
    );
}

#[test]
fn platform_tests() {
    assert!(Platform::MacOs.is_macos());
    assert!(!Platform::UnixLike.is_macos());
    assert!(!Platform::Other.is_macos());
    assert!(Platform::MacOs.has_file_submenu());
    assert!(!Platform::UnixLike.has_file_submenu());
    assert!(Platform::Other.has_file_submenu());
}
