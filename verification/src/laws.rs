//! What holds of the menu bar on every platform and in every build mode.

use vstd::prelude::*;
use crate::layout::{
    about_of, app_menu_of, application_submenu_of, dev_submenu_of, edit_submenu_of,
    file_submenu_of, help_submenu_of, leading_submenus, view_submenu_of, window_submenu_of,
};
use crate::model::{EntryView, PackageInfoView, SubmenuRole};
use crate::platform::Platform;

verus! {

/// The identifiers that the menu bar of a platform and build mode carries:
/// the zoom entries everywhere, the settings, quit and feedback entries on
/// macOS, and the four development entries in development builds.
pub open spec fn is_emitted_id(id: Seq<char>, platform: Platform, dev: bool) -> bool {
    ||| id == "zoom_reset"@
    ||| id == "zoom_in"@
    ||| id == "zoom_out"@
    ||| platform.is_macos() && (id == "settings"@ || id == "hacked_quit"@ || id
        == "open_feedback"@)
    ||| dev && (id == "dev.refresh"@ || id == "dev.toggle_devtools"@ || id == "dev.reset_size"@
        || id == "dev.generate_theme_css"@)
}

/// The ten identifiers are pairwise different texts.
proof fn lemma_ids_differ()
    ensures
        "settings"@.len() == 8 && "settings"@[0] == 's',
        "zoom_out"@.len() == 8 && "zoom_out"@[0] == 'z',
        "hacked_quit"@.len() == 11 && "hacked_quit"@[0] == 'h',
        "dev.refresh"@.len() == 11 && "dev.refresh"@[0] == 'd',
        "zoom_in"@.len() == 7,
        "zoom_reset"@.len() == 10,
        "open_feedback"@.len() == 13,
        "dev.reset_size"@.len() == 14,
        "dev.toggle_devtools"@.len() == 19,
        "dev.generate_theme_css"@.len() == 22,
{
    reveal_strlit("settings");
    reveal_strlit("zoom_out");
    reveal_strlit("hacked_quit");
    reveal_strlit("dev.refresh");
    reveal_strlit("zoom_in");
    reveal_strlit("zoom_reset");
    reveal_strlit("open_feedback");
    reveal_strlit("dev.reset_size");
    reveal_strlit("dev.toggle_devtools");
    reveal_strlit("dev.generate_theme_css");
}

/// One if the condition holds, zero otherwise.
pub open spec fn count_if(present: bool) -> int {
    if present {
        1
    } else {
        0
    }
}

/// The number of submenus: four everywhere, one more on macOS, one more
/// where the platform has a file submenu, one more in development builds.
pub proof fn law_submenu_count(info: PackageInfoView, platform: Platform, dev: bool)
    ensures
        app_menu_of(info, platform, dev).submenus.len() == 4 + count_if(platform.is_macos())
            + count_if(platform.has_file_submenu()) + count_if(dev),
{
}

/// The order of the submenus: the application submenu comes first where
/// there is one, the file submenu stands directly before the edit submenu
/// where there is one, edit, view, window and help follow one another, and
/// the development submenu comes last where there is one.
pub proof fn law_submenu_order(info: PackageInfoView, platform: Platform, dev: bool)
    ensures
        ({
            let menu = app_menu_of(info, platform, dev).submenus;
            let edit = count_if(platform.is_macos()) + count_if(platform.has_file_submenu());
            &&& platform.is_macos() ==> menu[0] == application_submenu_of(info)
            &&& platform.has_file_submenu() ==> menu[edit - 1] == file_submenu_of(platform)
            &&& menu[edit] == edit_submenu_of()
            &&& menu[edit + 1] == view_submenu_of(platform)
            &&& menu[edit + 2] == window_submenu_of(platform)
            &&& menu[edit + 3] == help_submenu_of(info, platform)
            &&& dev ==> menu[edit + 4] == dev_submenu_of() && menu.len() == edit + 5
        }),
{
}

/// A development build has the menu bar of a release build with the
/// development submenu added at its end.
pub proof fn law_dev_build_appends(info: PackageInfoView, platform: Platform)
    ensures
        app_menu_of(info, platform, true).submenus == app_menu_of(
            info,
            platform,
            false,
        ).submenus.push(dev_submenu_of()),
{
    assert(app_menu_of(info, platform, true).submenus =~= app_menu_of(
        info,
        platform,
        false,
    ).submenus.push(dev_submenu_of()));
}

/// Every submenu of the menu bar is enabled.
pub proof fn law_submenus_enabled(info: PackageInfoView, platform: Platform, dev: bool, i: int)
    requires
        0 <= i < app_menu_of(info, platform, dev).submenus.len(),
    ensures
        app_menu_of(info, platform, dev).submenus[i].enabled,
{
}

/// Exactly one submenu takes the window role and exactly one the help role,
/// and the help submenu follows the window submenu directly. The result is
/// the place of the window submenu.
pub proof fn law_window_then_help(info: PackageInfoView, platform: Platform, dev: bool) -> (w: int)
    ensures
        ({
            let menu = app_menu_of(info, platform, dev).submenus;
            &&& 0 <= w && w + 1 < menu.len()
            &&& forall|i: int|
                0 <= i < menu.len() ==> ((#[trigger] menu[i]).role == SubmenuRole::Window <==> i
                    == w)
            &&& forall|i: int|
                0 <= i < menu.len() ==> ((#[trigger] menu[i]).role == SubmenuRole::Help <==> i
                    == w + 1)
        }),
{
    leading_submenus(info, platform).len() as int + 2
}

/// An identifier is carried by some entry of the menu bar exactly if it is
/// one of those named for the platform and the build mode.
pub proof fn law_emitted_ids(info: PackageInfoView, platform: Platform, dev: bool, id: Seq<char>)
    ensures
        app_menu_of(info, platform, dev).emits(id) <==> is_emitted_id(id, platform, dev),
{
    let menu = app_menu_of(info, platform, dev);
    let lead = leading_submenus(info, platform).len() as int;
    if is_emitted_id(id, platform, dev) {
        let (i, j): (int, int) = if id == "zoom_reset"@ {
            (lead + 1, if platform.is_macos() { 2 } else { 0 })
        } else if id == "zoom_in"@ {
            (lead + 1, if platform.is_macos() { 3 } else { 1 })
        } else if id == "zoom_out"@ {
            (lead + 1, if platform.is_macos() { 4 } else { 2 })
        } else if platform.is_macos() && id == "settings"@ {
            (0, 2)
        } else if platform.is_macos() && id == "hacked_quit"@ {
            (0, 8)
        } else if platform.is_macos() && id == "open_feedback"@ {
            (lead + 3, 0)
        } else if id == "dev.refresh"@ {
            (lead + 4, 0)
        } else if id == "dev.toggle_devtools"@ {
            (lead + 4, 1)
        } else if id == "dev.reset_size"@ {
            (lead + 4, 2)
        } else {
            (lead + 4, 3)
        };
        assert(menu.has_entry(i, j) && menu.entry(i, j).custom_id() == Some(id));
    }
    if menu.emits(id) {
        let (i, j) = choose|i: int, j: int|
            menu.has_entry(i, j) && #[trigger] menu.entry(i, j).custom_id() == Some(id);
        assert(menu.has_entry(i, j) && menu.entry(i, j).custom_id() == Some(id));
    }
}

/// Two entries of the menu bar that carry the same identifier stand at the
/// same place.
proof fn lemma_same_id_same_place(
    info: PackageInfoView,
    platform: Platform,
    dev: bool,
    i1: int,
    j1: int,
    i2: int,
    j2: int,
)
    requires
        app_menu_of(info, platform, dev).has_entry(i1, j1),
        app_menu_of(info, platform, dev).has_entry(i2, j2),
        app_menu_of(info, platform, dev).entry(i1, j1).custom_id() is Some,
        app_menu_of(info, platform, dev).entry(i1, j1).custom_id() == app_menu_of(
            info,
            platform,
            dev,
        ).entry(i2, j2).custom_id(),
    ensures
        i1 == i2 && j1 == j2,
{
    lemma_ids_differ();
}

/// No two entries of the menu bar carry the same identifier, on any platform
/// and in either build mode.
pub proof fn law_ids_unique(info: PackageInfoView, platform: Platform, dev: bool)
    ensures
        app_menu_of(info, platform, dev).ids_unique(),
{
    let menu = app_menu_of(info, platform, dev);
    assert forall|i1: int, j1: int, i2: int, j2: int|
        menu.has_entry(i1, j1) && menu.has_entry(i2, j2) && (#[trigger] menu.entry(
            i1,
            j1,
        )).custom_id() is Some && menu.entry(i1, j1).custom_id() == (#[trigger] menu.entry(
            i2,
            j2,
        )).custom_id() implies i1 == i2 && j1 == j2 by {
        lemma_same_id_same_place(info, platform, dev, i1, j1, i2, j2);
    }
}

/// The "about" entry stands in the menu bar exactly once, and shows the
/// package's name, version, copyright and publisher. The result is its place:
/// the submenu and the entry within it.
pub proof fn law_about_once(info: PackageInfoView, platform: Platform, dev: bool) -> (at: (int, int))
    ensures
        ({
            let menu = app_menu_of(info, platform, dev);
            &&& menu.has_entry(at.0, at.1)
            &&& menu.entry(at.0, at.1) == EntryView::About(about_of(info))
            &&& forall|i: int, j: int|
                menu.has_entry(i, j) && (#[trigger] menu.entry(i, j)) is About ==> i == at.0 && j
                    == at.1
        }),
{
    if platform.is_macos() {
        (0, 0)
    } else {
        (leading_submenus(info, platform).len() as int + 3, 0)
    }
}

} // verus!
