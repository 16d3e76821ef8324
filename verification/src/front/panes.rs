//! Which pane is shown: the tabs of the window, and search or details
//! within the search tab.

use vstd::prelude::*;

verus! {

/// A tab of the window.
#[derive(Clone, Copy, Debug, PartialEq, Eq, Structural)]
pub enum Tab {
    Search,
    Downloads,
    Settings,
}

impl Tab {
    /// The tab at a position of the tab list.
    pub open spec fn at_index(index: usize) -> Option<Tab> {
        if index == 0 {
            Some(Tab::Search)
        } else if index == 1 {
            Some(Tab::Downloads)
        } else if index == 2 {
            Some(Tab::Settings)
        } else {
            None
        }
    }

    /// The tab at a position of the tab list.
    pub fn at(index: usize) -> (r: Option<Tab>)
        ensures
            r == Tab::at_index(index),
    {
        if index == 0 {
            Some(Tab::Search)
        } else if index == 1 {
            Some(Tab::Downloads)
        } else if index == 2 {
            Some(Tab::Settings)
        } else {
            None
        }
    }

    /// The position of the tab in the tab list.
    pub fn index(&self) -> (r: usize)
        ensures
            Tab::at_index(r) == Some(*self),
    {
        match self {
            Tab::Search => 0,
            Tab::Downloads => 1,
            Tab::Settings => 2,
        }
    }
}

/// Which tab is shown, and whether the settings were fetched already.
#[derive(Clone, Copy, Debug, PartialEq, Eq, Structural)]
pub struct Tabs {
    pub active_tab: usize,
    pub settings_loaded: bool,
}

impl Tabs {
    /// The window as it opens: on the search tab.
    pub fn new() -> (r: Self)
        ensures
            r == (Tabs { active_tab: 0, settings_loaded: false }),
    {
        Tabs { active_tab: 0, settings_loaded: false }
    }

    /// Shows the tab at a position.
    pub fn select_tab(&mut self, index: usize)
        ensures
            *final(self) == (Tabs { active_tab: index, ..*old(self) }),
    {
        self.active_tab = index;
    }

    /// The tab whose pane is to take its next step; none where the
    /// position shown belongs to no tab, and only a click on a tab helps.
    pub fn active(&self) -> (r: Option<Tab>)
        ensures
            r == Tab::at_index(self.active_tab),
    {
        Tab::at(self.active_tab)
    }

    /// Whether the settings have to be fetched before their pane takes a
    /// step: once, when the settings tab is shown for the first time. The
    /// answer is remembered.
    pub fn load_settings_now(&mut self) -> (r: bool)
        ensures
            r == (old(self).active_tab == 2 && !old(self).settings_loaded),
            final(self).active_tab == old(self).active_tab,
            final(self).settings_loaded == (old(self).settings_loaded || old(self).active_tab == 2),
    {
        if self.active_tab == 2 && !self.settings_loaded {
            self.settings_loaded = true;
            true
        } else {
            false
        }
    }
}

/// What the search tab does in its next step.
#[derive(Clone, Copy, Debug, PartialEq, Eq, Structural)]
pub enum SearchTask {
    /// Look for the details that were shown when the window was last open.
    Restore,
    /// Show the search, and fetch the details of the result that is picked.
    Search,
    /// Show the details, until the user goes back.
    Detail,
}

/// Where the search tab stands.
#[derive(Clone, Copy, Debug, PartialEq, Eq, Structural)]
pub struct SearchTab {
    pub is_in_search: bool,
    pub is_startup: bool,
}

impl SearchTab {
    /// What the next step does.
    pub open spec fn next_task(self) -> SearchTask {
        if self.is_startup {
            SearchTask::Restore
        } else if self.is_in_search {
            SearchTask::Search
        } else {
            SearchTask::Detail
        }
    }

    /// The tab as the window opens.
    pub fn new() -> (r: Self)
        ensures
            r == (SearchTab { is_in_search: true, is_startup: true }),
    {
        SearchTab { is_in_search: true, is_startup: true }
    }

    /// What the next step does.
    pub fn task(&self) -> (r: SearchTask)
        ensures
            r == self.next_task(),
    {
        if self.is_startup {
            SearchTask::Restore
        } else if self.is_in_search {
            SearchTask::Search
        } else {
            SearchTask::Detail
        }
    }

    /// Takes note of what was stored: with details the tab shows them, and
    /// without it shows the search.
    pub fn restored(&mut self, has_info: bool)
        ensures
            *final(self) == (SearchTab { is_in_search: !has_info, is_startup: false }),
    {
        self.is_in_search = !has_info;
        self.is_startup = false;
    }

    /// Takes note of the end of a search step: details that arrived are
    /// shown; where they could not be had, the tab stays with the search.
    pub fn info_arrived(&mut self, ok: bool)
        ensures
            *final(self) == (SearchTab {
                is_in_search: old(self).is_in_search && !ok,
                is_startup: old(self).is_startup,
            }),
    {
        if ok {
            self.is_in_search = false;
        }
    }

    /// Takes note that the user went back from the details.
    pub fn detail_closed(&mut self)
        ensures
            *final(self) == (SearchTab { is_in_search: true, is_startup: old(self).is_startup }),
    {
        self.is_in_search = true;
    }
}

} // verus!
