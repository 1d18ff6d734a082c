//! The application's pages, the settings tabs, and how the user picks them.

use vstd::prelude::*;

verus! {

/// One page of the application.
#[derive(Debug, PartialEq, Eq, Structural, Clone, Copy)]
pub enum Page {
    Settings,
    Passwords,
    Sync,
    Gallery,
    Notes,
    Tasks,
}

/// The name under which a page is shown and stored.
pub open spec fn page_name(p: Page) -> Seq<char> {
    match p {
        Page::Settings => "Settings"@,
        Page::Passwords => "Passwords"@,
        Page::Sync => "Sync"@,
        Page::Gallery => "Gallery"@,
        Page::Notes => "Notes"@,
        Page::Tasks => "Tasks"@,
    }
}

/// The order in which the pages are listed.
pub open spec fn all_pages() -> Seq<Page> {
    seq![Page::Settings, Page::Notes, Page::Passwords, Page::Tasks, Page::Sync, Page::Gallery]
}

/// The page that a setting's stored name selects; an unknown name selects the notes page.
pub open spec fn page_from_name(s: Seq<char>) -> Page {
    if s == "Settings"@ {
        Page::Settings
    } else if s == "Notes"@ {
        Page::Notes
    } else if s == "Tasks"@ {
        Page::Tasks
    } else if s == "Sync"@ {
        Page::Sync
    } else if s == "Gallery"@ {
        Page::Gallery
    } else if s == "Passwords"@ {
        Page::Passwords
    } else {
        Page::Notes
    }
}

/// The page that `Alt` with the digit key `c` switches to.
pub open spec fn shortcut_page(c: char) -> Option<Page> {
    if c == '1' {
        Some(Page::Notes)
    } else if c == '2' {
        Some(Page::Tasks)
    } else if c == '3' {
        Some(Page::Passwords)
    } else if c == '4' {
        Some(Page::Sync)
    } else if c == '5' {
        Some(Page::Gallery)
    } else if c == '6' {
        Some(Page::Settings)
    } else {
        None
    }
}

impl Page {
    /// Every page, in the order the navigation lists them.
    pub fn get_all() -> (r: [Page; 6])
        ensures
            r@ == all_pages(),
    {
        let r = [Page::Settings, Page::Notes, Page::Passwords, Page::Tasks, Page::Sync, Page::Gallery];
        assert(r@ =~= all_pages());
        r
    }

    /// The page's name.
    pub fn name(&self) -> (r: &'static str)
        ensures
            r@ == page_name(*self),
    {
        match self {
            Page::Settings => {
                proof {
                    reveal_strlit("Settings");
                }
                "Settings"
            },
            Page::Passwords => {
                proof {
                    reveal_strlit("Passwords");
                }
                "Passwords"
            },
            Page::Sync => {
                proof {
                    reveal_strlit("Sync");
                }
                "Sync"
            },
            Page::Gallery => {
                proof {
                    reveal_strlit("Gallery");
                }
                "Gallery"
            },
            Page::Notes => {
                proof {
                    reveal_strlit("Notes");
                }
                "Notes"
            },
            Page::Tasks => {
                proof {
                    reveal_strlit("Tasks");
                }
                "Tasks"
            },
        }
    }

    /// The page's name as an owned string (what displaying a page writes).
    pub fn to_display_string(&self) -> (r: String)
        ensures
            r@ == page_name(*self),
    {
        self.name().to_owned()
    }

    /// The page chosen by the stored name `s` of the "default page on open" setting.
    pub fn from_setting_name(s: &str) -> (p: Page)
        ensures
            p == page_from_name(s@),
    {
        proof {
            reveal_strlit("Settings");
            reveal_strlit("Notes");
            reveal_strlit("Tasks");
            reveal_strlit("Sync");
            reveal_strlit("Gallery");
            reveal_strlit("Passwords");
        }
        if crate::text::str_eq(s, "Settings") {
            Page::Settings
        } else if crate::text::str_eq(s, "Notes") {
            Page::Notes
        } else if crate::text::str_eq(s, "Tasks") {
            Page::Tasks
        } else if crate::text::str_eq(s, "Sync") {
            Page::Sync
        } else if crate::text::str_eq(s, "Gallery") {
            Page::Gallery
        } else if crate::text::str_eq(s, "Passwords") {
            Page::Passwords
        } else {
            Page::Notes
        }
    }

    /// The page that `Alt` together with the character key `c` opens, if any.
    pub fn for_alt_shortcut(c: char) -> (p: Option<Page>)
        ensures
            p == shortcut_page(c),
    {
        if c == '1' {
            Some(Page::Notes)
        } else if c == '2' {
            Some(Page::Tasks)
        } else if c == '3' {
            Some(Page::Passwords)
        } else if c == '4' {
            Some(Page::Sync)
        } else if c == '5' {
            Some(Page::Gallery)
        } else if c == '6' {
            Some(Page::Settings)
        } else {
            None
        }
    }
}

/// Choosing a page by its own name selects that page again.
pub proof fn lemma_page_name_round_trip(p: Page)
    ensures
        page_from_name(page_name(p)) == p,
{
    reveal_strlit("Settings");
    reveal_strlit("Notes");
    reveal_strlit("Tasks");
    reveal_strlit("Sync");
    reveal_strlit("Gallery");
    reveal_strlit("Passwords");
    match p {
        Page::Settings => {},
        Page::Notes => {
            assert("Notes"@[0] != "Settings"@[0]);
        },
        Page::Tasks => {
            assert("Tasks"@[0] != "Settings"@[0]);
            assert("Tasks"@[0] != "Notes"@[0]);
        },
        Page::Sync => {
            assert("Sync"@.len() != "Settings"@.len());
            assert("Sync"@[0] != "Notes"@[0]);
            assert("Sync"@[0] != "Tasks"@[0]);
        },
        Page::Gallery => {
            assert("Gallery"@[0] != "Settings"@[0]);
            assert("Gallery"@[0] != "Notes"@[0]);
            assert("Gallery"@[0] != "Tasks"@[0]);
            assert("Gallery"@[0] != "Sync"@[0]);
        },
        Page::Passwords => {
            assert("Passwords"@[0] != "Settings"@[0]);
            assert("Passwords"@[0] != "Notes"@[0]);
            assert("Passwords"@[0] != "Tasks"@[0]);
            assert("Passwords"@[0] != "Sync"@[0]);
            assert("Passwords"@[0] != "Gallery"@[0]);
        },
    }
}

/// Every page is listed exactly once, and the listed pages have pairwise distinct names.
pub proof fn lemma_all_pages_complete(p: Page)
    ensures
        all_pages().contains(p),
        all_pages().len() == 6,
        forall|i: int, j: int|
            0 <= i < j < 6 ==> all_pages()[i] != all_pages()[j] && page_name(all_pages()[i])
                != page_name(all_pages()[j]),
{
    reveal_strlit("Settings");
    reveal_strlit("Notes");
    reveal_strlit("Tasks");
    reveal_strlit("Sync");
    reveal_strlit("Gallery");
    reveal_strlit("Passwords");
    match p {
        Page::Settings => assert(all_pages()[0] == p),
        Page::Notes => assert(all_pages()[1] == p),
        Page::Passwords => assert(all_pages()[2] == p),
        Page::Tasks => assert(all_pages()[3] == p),
        Page::Sync => assert(all_pages()[4] == p),
        Page::Gallery => assert(all_pages()[5] == p),
    }
    assert forall|i: int, j: int| 0 <= i < j < 6 implies all_pages()[i] != all_pages()[j]
        && page_name(all_pages()[i]) != page_name(all_pages()[j]) by {
        assert("Settings"@[1] != "Notes"@[1]);
        assert("Settings"@[0] != "Passwords"@[0]);
        assert("Settings"@[0] != "Tasks"@[0]);
        assert("Settings"@[1] != "Sync"@[1]);
        assert("Settings"@[0] != "Gallery"@[0]);
        assert("Notes"@[0] != "Passwords"@[0]);
        assert("Notes"@[0] != "Tasks"@[0]);
        assert("Notes"@[0] != "Sync"@[0]);
        assert("Notes"@[0] != "Gallery"@[0]);
        assert("Passwords"@[0] != "Tasks"@[0]);
        assert("Passwords"@[0] != "Sync"@[0]);
        assert("Passwords"@[0] != "Gallery"@[0]);
        assert("Tasks"@[0] != "Sync"@[0]);
        assert("Tasks"@[0] != "Gallery"@[0]);
        assert("Sync"@[0] != "Gallery"@[0]);
    }
}

/// Each digit from 1 to 6 opens a different page, and together they reach every page.
pub proof fn lemma_shortcuts_reach_every_page(p: Page)
    ensures
        exists|c: char| '1' <= c <= '6' && shortcut_page(c) == Some(p),
        forall|c: char, d: char|
            shortcut_page(c) is Some && shortcut_page(c) == shortcut_page(d) ==> c == d,
{
    match p {
        Page::Notes => assert(shortcut_page('1') == Some(p)),
        Page::Tasks => assert(shortcut_page('2') == Some(p)),
        Page::Passwords => assert(shortcut_page('3') == Some(p)),
        Page::Sync => assert(shortcut_page('4') == Some(p)),
        Page::Gallery => assert(shortcut_page('5') == Some(p)),
        Page::Settings => assert(shortcut_page('6') == Some(p)),
    }
}

/// A tab of the settings page.
#[derive(Debug, PartialEq, Eq, Structural, Clone, Copy)]
pub enum SettingsTab {
    General,
    Sync,
    Gallery,
    Passwords,
    Notes,
    Tasks,
}

/// The label of a settings tab.
pub open spec fn tab_name(t: SettingsTab) -> Seq<char> {
    match t {
        SettingsTab::General => "General"@,
        SettingsTab::Sync => "Sync"@,
        SettingsTab::Gallery => "Gallery"@,
        SettingsTab::Passwords => "Passwords"@,
        SettingsTab::Notes => "Notes"@,
        SettingsTab::Tasks => "Tasks"@,
    }
}

/// The order in which the settings tabs are listed.
pub open spec fn all_tabs() -> Seq<SettingsTab> {
    seq![
        SettingsTab::General,
        SettingsTab::Sync,
        SettingsTab::Gallery,
        SettingsTab::Passwords,
        SettingsTab::Notes,
        SettingsTab::Tasks,
    ]
}

impl SettingsTab {
    /// Every settings tab, in display order.
    pub fn get_all() -> (r: [SettingsTab; 6])
        ensures
            r@ == all_tabs(),
    {
        let r = [
            SettingsTab::General,
            SettingsTab::Sync,
            SettingsTab::Gallery,
            SettingsTab::Passwords,
            SettingsTab::Notes,
            SettingsTab::Tasks,
        ];
        assert(r@ =~= all_tabs());
        r
    }

    /// The tab's label.
    pub fn name(&self) -> (r: &'static str)
        ensures
            r@ == tab_name(*self),
    {
        match self {
            SettingsTab::General => {
                proof {
                    reveal_strlit("General");
                }
                "General"
            },
            SettingsTab::Sync => {
                proof {
                    reveal_strlit("Sync");
                }
                "Sync"
            },
            SettingsTab::Gallery => {
                proof {
                    reveal_strlit("Gallery");
                }
                "Gallery"
            },
            SettingsTab::Passwords => {
                proof {
                    reveal_strlit("Passwords");
                }
                "Passwords"
            },
            SettingsTab::Notes => {
                proof {
                    reveal_strlit("Notes");
                }
                "Notes"
            },
            SettingsTab::Tasks => {
                proof {
                    reveal_strlit("Tasks");
                }
                "Tasks"
            },
        }
    }
}

/// Every settings tab is listed exactly once.
pub proof fn lemma_all_tabs_complete(t: SettingsTab)
    ensures
        all_tabs().contains(t),
        all_tabs().len() == 6,
        forall|i: int, j: int| 0 <= i < j < 6 ==> all_tabs()[i] != all_tabs()[j],
{
    match t {
        SettingsTab::General => assert(all_tabs()[0] == t),
        SettingsTab::Sync => assert(all_tabs()[1] == t),
        SettingsTab::Gallery => assert(all_tabs()[2] == t),
        SettingsTab::Passwords => assert(all_tabs()[3] == t),
        SettingsTab::Notes => assert(all_tabs()[4] == t),
        SettingsTab::Tasks => assert(all_tabs()[5] == t),
    }
}

} // verus!
