//! The menu tree as plain data, with the mathematical view of each part.

use vstd::prelude::*;

verus! {

/// A menu entry whose behaviour the host toolkit supplies.
#[derive(Clone, Copy, Debug, PartialEq, Eq, Structural)]
pub enum Predefined {
    Separator,
    Minimize,
    Maximize,
    CloseWindow,
    Hide,
    HideOthers,
    Quit,
    Undo,
    Redo,
    Cut,
    Copy,
    Paste,
    SelectAll,
    Fullscreen,
}

/// The place a submenu takes in the menu bar: the toolkit knows the window
/// and the help submenu by identifiers of its own.
#[derive(Clone, Copy, Debug, PartialEq, Eq, Structural)]
pub enum SubmenuRole {
    /// A submenu without a fixed identifier.
    Plain,
    /// The submenu that the toolkit treats as the window menu.
    Window,
    /// The submenu that the toolkit treats as the help menu.
    Help,
}

/// What is known of the application bundle when the menu is built.
#[derive(Clone, Debug, PartialEq, Eq)]
pub struct PackageInfo {
    pub name: String,
    pub version: String,
    pub copyright: Option<String>,
    pub publisher: Option<String>,
}

/// The view of a [`PackageInfo`].
pub struct PackageInfoView {
    pub name: Seq<char>,
    pub version: Seq<char>,
    pub copyright: Option<Seq<char>>,
    pub publisher: Option<Seq<char>>,
}

/// What the "about" entry shows.
#[derive(Clone, Debug, PartialEq, Eq)]
pub struct AboutInfo {
    pub name: Option<String>,
    pub version: Option<String>,
    pub copyright: Option<String>,
    pub authors: Option<Vec<String>>,
}

/// The view of an [`AboutInfo`].
pub struct AboutView {
    pub name: Option<Seq<char>>,
    pub version: Option<Seq<char>>,
    pub copyright: Option<Seq<char>>,
    pub authors: Option<Seq<Seq<char>>>,
}

/// One entry of a submenu.
#[derive(Clone, Debug, PartialEq, Eq)]
pub enum MenuEntry {
    /// An entry that the toolkit supplies ready-made.
    Predefined(Predefined),
    /// The toolkit's "about" entry, with what it is to show.
    About(AboutInfo),
    /// An entry of the application, found again by its identifier when it is
    /// chosen.
    Custom { id: String, label: String, accelerator: Option<String> },
}

/// The view of a [`MenuEntry`].
pub enum EntryView {
    Predefined(Predefined),
    About(AboutView),
    Custom { id: Seq<char>, label: Seq<char>, accelerator: Option<Seq<char>> },
}

/// A named group of entries in the menu bar.
#[derive(Clone, Debug, PartialEq, Eq)]
pub struct Submenu {
    pub role: SubmenuRole,
    pub label: String,
    pub enabled: bool,
    pub items: Vec<MenuEntry>,
}

/// The view of a [`Submenu`].
pub struct SubmenuView {
    pub role: SubmenuRole,
    pub label: Seq<char>,
    pub enabled: bool,
    pub items: Seq<EntryView>,
}

/// The whole menu bar: its submenus from left to right.
#[derive(Clone, Debug, PartialEq, Eq)]
pub struct MenuBar {
    pub submenus: Vec<Submenu>,
}

/// The view of a [`MenuBar`].
pub struct MenuBarView {
    pub submenus: Seq<SubmenuView>,
}

/// The text of an optional string.
pub open spec fn text_of(o: Option<String>) -> Option<Seq<char>> {
    match o {
        Some(s) => Some(s@),
        None => None,
    }
}

/// The texts of an optional list of strings.
pub open spec fn texts_of(o: Option<Vec<String>>) -> Option<Seq<Seq<char>>> {
    match o {
        Some(v) => Some(v@.map_values(|s: String| s@)),
        None => None,
    }
}

impl View for PackageInfo {
    type V = PackageInfoView;

    open spec fn view(&self) -> PackageInfoView {
        PackageInfoView {
            name: self.name@,
            version: self.version@,
            copyright: text_of(self.copyright),
            publisher: text_of(self.publisher),
        }
    }
}

impl View for AboutInfo {
    type V = AboutView;

    open spec fn view(&self) -> AboutView {
        AboutView {
            name: text_of(self.name),
            version: text_of(self.version),
            copyright: text_of(self.copyright),
            authors: texts_of(self.authors),
        }
    }
}

impl View for MenuEntry {
    type V = EntryView;

    open spec fn view(&self) -> EntryView {
        match *self {
            MenuEntry::Predefined(kind) => EntryView::Predefined(kind),
            MenuEntry::About(info) => EntryView::About(info@),
            MenuEntry::Custom { id, label, accelerator } => EntryView::Custom {
                id: id@,
                label: label@,
                accelerator: text_of(accelerator),
            },
        }
    }
}

impl View for Submenu {
    type V = SubmenuView;

    open spec fn view(&self) -> SubmenuView {
        SubmenuView {
            role: self.role,
            label: self.label@,
            enabled: self.enabled,
            items: self.items@.map_values(|e: MenuEntry| e@),
        }
    }
}

impl View for MenuBar {
    type V = MenuBarView;

    open spec fn view(&self) -> MenuBarView {
        MenuBarView { submenus: self.submenus@.map_values(|s: Submenu| s@) }
    }
}

impl EntryView {
    /// The identifier under which the application finds the entry again, if
    /// it is an entry of the application's own.
    pub open spec fn custom_id(self) -> Option<Seq<char>> {
        match self {
            EntryView::Custom { id, .. } => Some(id),
            _ => None,
        }
    }
}

impl MenuBarView {
    /// Whether the menu bar has an entry at place `j` of submenu `i`.
    pub open spec fn has_entry(self, i: int, j: int) -> bool {
        0 <= i < self.submenus.len() && 0 <= j < self.submenus[i].items.len()
    }

    /// The entry at place `j` of submenu `i`.
    pub open spec fn entry(self, i: int, j: int) -> EntryView
        recommends
            self.has_entry(i, j),
    {
        self.submenus[i].items[j]
    }

    /// Whether no two entries of the menu bar carry the same identifier.
    pub open spec fn ids_unique(self) -> bool {
        forall|i1: int, j1: int, i2: int, j2: int|
            self.has_entry(i1, j1) && self.has_entry(i2, j2) && (#[trigger] self.entry(
                i1,
                j1,
            )).custom_id() is Some && self.entry(i1, j1).custom_id() == (#[trigger] self.entry(
                i2,
                j2,
            )).custom_id() ==> i1 == i2 && j1 == j2
    }

    /// Whether some entry of the menu bar carries the identifier `id`.
    pub open spec fn emits(self, id: Seq<char>) -> bool {
        exists|i: int, j: int|
            self.has_entry(i, j) && #[trigger] self.entry(i, j).custom_id() == Some(id)
    }
}

} // verus!
