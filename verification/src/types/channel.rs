//! The sections of a channel.

use vstd::prelude::*;

verus! {

/// One of a channel's navigational sections.
///
/// A tab has a name, which ends the URL of the section, and an index, which
/// selects the section's list in a browse response that holds all tabs. Both
/// follow the platform's fixed order of tabs, [`tab_order`].
#[derive(Clone, Copy, Debug, PartialEq, Eq)]
pub enum Tab {
    Home,
    Videos,
    Playlists,
    Community,
    Channels,
    About,
}

/// The names of the tabs in the platform's order.
pub open spec fn tab_order() -> Seq<Seq<char>> {
    seq!["featured"@, "videos"@, "playlists"@, "community"@, "channels"@, "about"@]
}

impl Tab {
    /// The position of the tab in the platform's order.
    pub open spec fn index(self) -> nat {
        match self {
            Tab::Home => 0,
            Tab::Videos => 1,
            Tab::Playlists => 2,
            Tab::Community => 3,
            Tab::Channels => 4,
            Tab::About => 5,
        }
    }

    /// The name of the tab as it stands in a URL.
    pub open spec fn name(self) -> Seq<char> {
        match self {
            Tab::Home => "featured"@,
            Tab::Videos => "videos"@,
            Tab::Playlists => "playlists"@,
            Tab::Community => "community"@,
            Tab::Channels => "channels"@,
            Tab::About => "about"@,
        }
    }

    pub fn get_index(&self) -> (index: usize)
        ensures
            index == self.index(),
    {
        match self {
            Tab::Home => 0,
            Tab::Videos => 1,
            Tab::Playlists => 2,
            Tab::Community => 3,
            Tab::Channels => 4,
            Tab::About => 5,
        }
    }

    pub fn get_name(&self) -> (name: &'static str)
        ensures
            name@ == self.name(),
    {
        match self {
            Tab::Home => "featured",
            Tab::Videos => "videos",
            Tab::Playlists => "playlists",
            Tab::Community => "community",
            Tab::Channels => "channels",
            Tab::About => "about",
        }
    }
}

/// Name and index of every tab agree with the platform's order: the name of
/// a tab is the entry of the order at the tab's index.
pub proof fn tab_follows_order(tab: Tab)
    ensures
        tab.index() < tab_order().len(),
        tab_order()[tab.index() as int] == tab.name(),
{
}

/// Distinct tabs have distinct indices and distinct names.
pub proof fn tabs_are_distinct(left: Tab, right: Tab)
    requires
        left != right,
    ensures
        left.index() != right.index(),
        left.name() != right.name(),
{
    reveal_strlit("featured");
    reveal_strlit("videos");
    reveal_strlit("playlists");
    reveal_strlit("community");
    reveal_strlit("channels");
    reveal_strlit("about");
    assert("featured"@.len() == 8 && "videos"@.len() == 6 && "playlists"@.len() == 9);
    assert("community"@.len() == 9 && "channels"@.len() == 8 && "about"@.len() == 5);
    assert("featured"@[0] == 'f' && "channels"@[0] == 'c');
    assert("playlists"@[0] == 'p' && "community"@[0] == 'c');
}

} // verus!
