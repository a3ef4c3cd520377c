//! The layout of the menu bar: which submenus it holds on which platform and
//! in which build mode, and the entries of each.

use vstd::prelude::*;
use vstd::string::*;
use crate::model::{
    AboutInfo, AboutView, EntryView, MenuBar, MenuBarView, MenuEntry, PackageInfo,
    PackageInfoView, Predefined, Submenu, SubmenuRole, SubmenuView,
};
use crate::laws::{is_emitted_id, law_emitted_ids, law_ids_unique};
use crate::platform::Platform;

verus! {

/// A ready-made entry, as it stands in a view.
pub open spec fn predefined(kind: Predefined) -> EntryView {
    EntryView::Predefined(kind)
}

/// An entry of the application with a keyboard shortcut, as it stands in a view.
pub open spec fn shortcut_item(id: Seq<char>, label: Seq<char>, accelerator: Seq<char>) -> EntryView {
    EntryView::Custom { id, label, accelerator: Some(accelerator) }
}

/// An entry of the application without a keyboard shortcut, as it stands in a view.
pub open spec fn plain_item(id: Seq<char>, label: Seq<char>) -> EntryView {
    EntryView::Custom { id, label, accelerator: None }
}

/// What the "about" entry shows of a package: its name and version, the
/// bundle's copyright, and the publisher as the only author.
pub open spec fn about_of(info: PackageInfoView) -> AboutView {
    AboutView {
        name: Some(info.name),
        version: Some(info.version),
        copyright: info.copyright,
        authors: match info.publisher {
            Some(p) => Some(seq![p]),
            None => None,
        },
    }
}

/// The window submenu: minimize, maximize and close, with a separator before
/// the last on macOS.
pub open spec fn window_submenu_of(platform: Platform) -> SubmenuView {
    SubmenuView {
        role: SubmenuRole::Window,
        label: "窗口"@,
        enabled: true,
        items: if platform.is_macos() {
            seq![
                predefined(Predefined::Minimize),
                predefined(Predefined::Maximize),
                predefined(Predefined::Separator),
                predefined(Predefined::CloseWindow),
            ]
        } else {
            seq![
                predefined(Predefined::Minimize),
                predefined(Predefined::Maximize),
                predefined(Predefined::CloseWindow),
            ]
        },
    }
}

/// The help submenu: the "about" entry, or on macOS, where that entry stands
/// in the application submenu, the entry that opens the feedback form.
pub open spec fn help_submenu_of(info: PackageInfoView, platform: Platform) -> SubmenuView {
    SubmenuView {
        role: SubmenuRole::Help,
        label: "帮助"@,
        enabled: true,
        items: if platform.is_macos() {
            seq![plain_item("open_feedback"@, "反馈"@)]
        } else {
            seq![EntryView::About(about_of(info))]
        },
    }
}

/// The label of the entry that quits the application.
pub open spec fn quit_label_of(name: Seq<char>) -> Seq<char> {
    "Quit "@ + name
}

/// The application submenu of macOS, named after the application. Its last
/// entry quits through an identifier of the application's own rather than
/// through the toolkit's ready-made entry.
pub open spec fn application_submenu_of(info: PackageInfoView) -> SubmenuView {
    SubmenuView {
        role: SubmenuRole::Plain,
        label: info.name,
        enabled: true,
        items: seq![
            EntryView::About(about_of(info)),
            predefined(Predefined::Separator),
            shortcut_item("settings"@, "设置"@, "CmdOrCtrl+,"@),
            predefined(Predefined::Separator),
            predefined(Predefined::Separator),
            predefined(Predefined::Hide),
            predefined(Predefined::HideOthers),
            predefined(Predefined::Separator),
            shortcut_item("hacked_quit"@, quit_label_of(info.name), "CmdOrCtrl+q"@),
        ],
    }
}

/// The file submenu: close the window and, except on macOS, quit.
pub open spec fn file_submenu_of(platform: Platform) -> SubmenuView {
    SubmenuView {
        role: SubmenuRole::Plain,
        label: "文件"@,
        enabled: true,
        items: if platform.is_macos() {
            seq![predefined(Predefined::CloseWindow)]
        } else {
            seq![predefined(Predefined::CloseWindow), predefined(Predefined::Quit)]
        },
    }
}

/// The edit submenu, the same on every platform.
pub open spec fn edit_submenu_of() -> SubmenuView {
    SubmenuView {
        role: SubmenuRole::Plain,
        label: "编辑"@,
        enabled: true,
        items: seq![
            predefined(Predefined::Undo),
            predefined(Predefined::Redo),
            predefined(Predefined::Separator),
            predefined(Predefined::Cut),
            predefined(Predefined::Copy),
            predefined(Predefined::Paste),
            predefined(Predefined::SelectAll),
        ],
    }
}

/// The three zoom entries of the view submenu.
pub open spec fn zoom_items() -> Seq<EntryView> {
    seq![
        shortcut_item("zoom_reset"@, "缩放到实际大小"@, "CmdOrCtrl+0"@),
        shortcut_item("zoom_in"@, "放大"@, "CmdOrCtrl+="@),
        shortcut_item("zoom_out"@, "缩小"@, "CmdOrCtrl+-"@),
    ]
}

/// The view submenu: the zoom entries, on macOS after the fullscreen entry
/// and a separator.
pub open spec fn view_submenu_of(platform: Platform) -> SubmenuView {
    SubmenuView {
        role: SubmenuRole::Plain,
        label: "视图"@,
        enabled: true,
        items: if platform.is_macos() {
            seq![predefined(Predefined::Fullscreen), predefined(Predefined::Separator)]
                + zoom_items()
        } else {
            zoom_items()
        },
    }
}

/// The submenu that only development builds carry.
pub open spec fn dev_submenu_of() -> SubmenuView {
    SubmenuView {
        role: SubmenuRole::Plain,
        label: "开发"@,
        enabled: true,
        items: seq![
            shortcut_item("dev.refresh"@, "刷新"@, "CmdOrCtrl+Shift+r"@),
            shortcut_item("dev.toggle_devtools"@, "打开开发者工具"@, "CmdOrCtrl+Option+i"@),
            plain_item("dev.reset_size"@, "重置大小"@),
            plain_item("dev.generate_theme_css"@, "生成主题CSS"@),
        ],
    }
}

/// The submenus that stand before the edit submenu: the application submenu
/// on macOS, then the file submenu wherever the platform has one.
pub open spec fn leading_submenus(info: PackageInfoView, platform: Platform) -> Seq<SubmenuView> {
    let application = if platform.is_macos() {
        seq![application_submenu_of(info)]
    } else {
        Seq::<SubmenuView>::empty()
    };
    let file = if platform.has_file_submenu() {
        seq![file_submenu_of(platform)]
    } else {
        Seq::<SubmenuView>::empty()
    };
    application + file
}

/// The submenus that every menu bar holds, in their order.
pub open spec fn common_submenus(info: PackageInfoView, platform: Platform) -> Seq<SubmenuView> {
    seq![
        edit_submenu_of(),
        view_submenu_of(platform),
        window_submenu_of(platform),
        help_submenu_of(info, platform),
    ]
}

/// The submenus that stand after the help submenu: the development submenu,
/// in development builds only.
pub open spec fn trailing_submenus(dev: bool) -> Seq<SubmenuView> {
    if dev {
        seq![dev_submenu_of()]
    } else {
        Seq::<SubmenuView>::empty()
    }
}

/// The menu bar of the application for a platform and a build mode.
pub open spec fn app_menu_of(info: PackageInfoView, platform: Platform, dev: bool) -> MenuBarView {
    MenuBarView {
        submenus: leading_submenus(info, platform) + common_submenus(info, platform)
            + trailing_submenus(dev),
    }
}

fn copy_text(o: &Option<String>) -> (r: Option<String>)
    ensures
        crate::model::text_of(r) == crate::model::text_of(*o),
{
    match o {
        Some(s) => Some(s.clone()),
        None => None,
    }
}

/// Builds an entry of the application that has a keyboard shortcut.
fn shortcut_entry(id: &str, label: &str, accelerator: &str) -> (e: MenuEntry)
    ensures
        e@ == shortcut_item(id@, label@, accelerator@),
{
    MenuEntry::Custom {
        id: id.to_string(),
        label: label.to_string(),
        accelerator: Some(accelerator.to_string()),
    }
}

/// Builds an entry of the application that has no keyboard shortcut.
fn plain_entry(id: &str, label: &str) -> (e: MenuEntry)
    ensures
        e@ == plain_item(id@, label@),
{
    MenuEntry::Custom { id: id.to_string(), label: label.to_string(), accelerator: None }
}

/// Gathers what the "about" entry shows from the package information.
pub fn about_info(info: &PackageInfo) -> (about: AboutInfo)
    ensures
        about@ == about_of(info@),
{
    let authors = match &info.publisher {
        Some(p) => Some(vec![p.clone()]),
        None => None,
    };
    let about = AboutInfo {
        name: Some(info.name.clone()),
        version: Some(info.version.clone()),
        copyright: copy_text(&info.copyright),
        authors,
    };
    proof {
        if about.authors is Some {
            assert(about.authors.unwrap()@.map_values(|s: String| s@) =~= seq![
                info.publisher.unwrap()@,
            ]);
        }
    }
    about
}

/// Builds the window submenu.
pub fn window_submenu(platform: Platform) -> (menu: Submenu)
    ensures
        menu@ == window_submenu_of(platform),
{
    let items = if platform.is_macos() {
        vec![
            MenuEntry::Predefined(Predefined::Minimize),
            MenuEntry::Predefined(Predefined::Maximize),
            MenuEntry::Predefined(Predefined::Separator),
            MenuEntry::Predefined(Predefined::CloseWindow),
        ]
    } else {
        vec![
            MenuEntry::Predefined(Predefined::Minimize),
            MenuEntry::Predefined(Predefined::Maximize),
            MenuEntry::Predefined(Predefined::CloseWindow),
        ]
    };
    let menu = Submenu { role: SubmenuRole::Window, label: "窗口".to_string(), enabled: true, items };
    proof {
        assert(menu@.items =~= window_submenu_of(platform).items);
    }
    menu
}

/// Builds the help submenu.
pub fn help_submenu(info: &PackageInfo, platform: Platform) -> (menu: Submenu)
    ensures
        menu@ == help_submenu_of(info@, platform),
{
    let items = if platform.is_macos() {
        vec![plain_entry("open_feedback", "反馈")]
    } else {
        vec![MenuEntry::About(about_info(info))]
    };
    let menu = Submenu { role: SubmenuRole::Help, label: "帮助".to_string(), enabled: true, items };
    proof {
        assert(menu@.items =~= help_submenu_of(info@, platform).items);
    }
    menu
}

/// Builds the label of the entry that quits the application.
pub fn quit_label(name: &str) -> (label: String)
    ensures
        label@ == quit_label_of(name@),
{
    "Quit ".to_string().concat(name)
}

/// Builds the application submenu of macOS.
pub fn application_submenu(info: &PackageInfo) -> (menu: Submenu)
    ensures
        menu@ == application_submenu_of(info@),
{
    let quit = MenuEntry::Custom {
        id: "hacked_quit".to_string(),
        label: quit_label(info.name.as_str()),
        accelerator: Some("CmdOrCtrl+q".to_string()),
    };
    let items = vec![
        MenuEntry::About(about_info(info)),
        MenuEntry::Predefined(Predefined::Separator),
        shortcut_entry("settings", "设置", "CmdOrCtrl+,"),
        MenuEntry::Predefined(Predefined::Separator),
        MenuEntry::Predefined(Predefined::Separator),
        MenuEntry::Predefined(Predefined::Hide),
        MenuEntry::Predefined(Predefined::HideOthers),
        MenuEntry::Predefined(Predefined::Separator),
        quit,
    ];
    let menu = Submenu { role: SubmenuRole::Plain, label: info.name.clone(), enabled: true, items };
    proof {
        assert(menu@.items =~= application_submenu_of(info@).items);
    }
    menu
}

/// Builds the file submenu.
pub fn file_submenu(platform: Platform) -> (menu: Submenu)
    ensures
        menu@ == file_submenu_of(platform),
{
    let items = if platform.is_macos() {
        vec![MenuEntry::Predefined(Predefined::CloseWindow)]
    } else {
        vec![MenuEntry::Predefined(Predefined::CloseWindow), MenuEntry::Predefined(Predefined::Quit)]
    };
    let menu = Submenu { role: SubmenuRole::Plain, label: "文件".to_string(), enabled: true, items };
    proof {
        assert(menu@.items =~= file_submenu_of(platform).items);
    }
    menu
}

/// Builds the edit submenu.
pub fn edit_submenu() -> (menu: Submenu)
    ensures
        menu@ == edit_submenu_of(),
{
    let items = vec![
        MenuEntry::Predefined(Predefined::Undo),
        MenuEntry::Predefined(Predefined::Redo),
        MenuEntry::Predefined(Predefined::Separator),
        MenuEntry::Predefined(Predefined::Cut),
        MenuEntry::Predefined(Predefined::Copy),
        MenuEntry::Predefined(Predefined::Paste),
        MenuEntry::Predefined(Predefined::SelectAll),
    ];
    let menu = Submenu { role: SubmenuRole::Plain, label: "编辑".to_string(), enabled: true, items };
    proof {
        assert(menu@.items =~= edit_submenu_of().items);
    }
    menu
}

/// Builds the view submenu.
pub fn view_submenu(platform: Platform) -> (menu: Submenu)
    ensures
        menu@ == view_submenu_of(platform),
{
    let mut items: Vec<MenuEntry> = Vec::new();
    if platform.is_macos() {
        items.push(MenuEntry::Predefined(Predefined::Fullscreen));
        items.push(MenuEntry::Predefined(Predefined::Separator));
    }
    items.push(shortcut_entry("zoom_reset", "缩放到实际大小", "CmdOrCtrl+0"));
    items.push(shortcut_entry("zoom_in", "放大", "CmdOrCtrl+="));
    items.push(shortcut_entry("zoom_out", "缩小", "CmdOrCtrl+-"));
    let menu = Submenu { role: SubmenuRole::Plain, label: "视图".to_string(), enabled: true, items };
    proof {
        assert(menu@.items =~= view_submenu_of(platform).items);
    }
    menu
}

/// Builds the submenu of development builds.
pub fn dev_submenu() -> (menu: Submenu)
    ensures
        menu@ == dev_submenu_of(),
{
    let items = vec![
        shortcut_entry("dev.refresh", "刷新", "CmdOrCtrl+Shift+r"),
        shortcut_entry("dev.toggle_devtools", "打开开发者工具", "CmdOrCtrl+Option+i"),
        plain_entry("dev.reset_size", "重置大小"),
        plain_entry("dev.generate_theme_css", "生成主题CSS"),
    ];
    let menu = Submenu { role: SubmenuRole::Plain, label: "开发".to_string(), enabled: true, items };
    proof {
        assert(menu@.items =~= dev_submenu_of().items);
    }
    menu
}

/// Builds the menu bar of the application for the given platform and build
/// mode, from what is known of the package.
pub fn app_menu(info: &PackageInfo, platform: Platform, dev: bool) -> (menu: MenuBar)
    ensures
        menu@ == app_menu_of(info@, platform, dev),
        menu@.ids_unique(),
        forall|id: Seq<char>| #[trigger] menu@.emits(id) <==> is_emitted_id(id, platform, dev),
{
    let mut submenus: Vec<Submenu> = Vec::new();
    if platform.is_macos() {
        submenus.push(application_submenu(info));
    }
    if platform.has_file_submenu() {
        submenus.push(file_submenu(platform));
    }
    submenus.push(edit_submenu());
    submenus.push(view_submenu(platform));
    submenus.push(window_submenu(platform));
    submenus.push(help_submenu(info, platform));
    if dev {
        submenus.push(dev_submenu());
    }
    let menu = MenuBar { submenus };
    proof {
        assert(menu@.submenus =~= app_menu_of(info@, platform, dev).submenus);
        law_ids_unique(info@, platform, dev);
        assert forall|id: Seq<char>| #[trigger]
            menu@.emits(id) <==> is_emitted_id(id, platform, dev) by {
            law_emitted_ids(info@, platform, dev, id);
        }
    }
    menu
}

} // verus!
