//! Tab kinds of the dock workspace and their citizen identities.
//!
//! Five tabs: Project, Editor, Canvas, Logger, Settings. Every tab is
//! backed by a citizen whose id is stable, so the dispatcher's one-hot
//! activation can address it.

use vstd::prelude::*;

verus! {

pub const PROJECT_ID: &'static str = "project";
pub const EDITOR_ID: &'static str = "editor";
pub const CANVAS_ID: &'static str = "canvas";
pub const LOGGER_ID: &'static str = "logger";
pub const SETTINGS_ID: &'static str = "settings";

#[derive(Clone, Copy, PartialEq, Eq, Structural, Debug)]
pub enum TabKind {
    Project,
    Editor,
    Canvas,
    Logger,
    Settings,
}

#[derive(Clone, Copy, PartialEq, Eq, Structural, Debug)]
pub struct Tab {
    pub kind: TabKind,
}

/// The title shown on a tab of the given kind.
pub open spec fn title_of(kind: TabKind) -> Seq<char> {
    match kind {
        TabKind::Project => "Project"@,
        TabKind::Editor => "Editor"@,
        TabKind::Canvas => "Canvas"@,
        TabKind::Logger => "Logger"@,
        TabKind::Settings => "Settings"@,
    }
}

/// The id of the citizen that backs a tab of the given kind.
pub open spec fn citizen_key_of(kind: TabKind) -> Seq<char> {
    match kind {
        TabKind::Project => "project"@,
        TabKind::Editor => "editor"@,
        TabKind::Canvas => "canvas"@,
        TabKind::Logger => "logger"@,
        TabKind::Settings => "settings"@,
    }
}

impl Tab {
    pub fn new(kind: TabKind) -> (tab: Self)
        ensures
            tab.kind == kind,
    {
        Self { kind }
    }

    pub fn title(&self) -> (t: &'static str)
        ensures
            t@ == title_of(self.kind),
    {
        match self.kind {
            TabKind::Project => "Project",
            TabKind::Editor => "Editor",
            TabKind::Canvas => "Canvas",
            TabKind::Logger => "Logger",
            TabKind::Settings => "Settings",
        }
    }

    /// The id under which the tab's citizen is registered with the
    /// dispatcher.
    pub fn citizen_key(&self) -> (id: &'static str)
        ensures
            id@ == citizen_key_of(self.kind),
    {
        match self.kind {
            TabKind::Project => PROJECT_ID,
            TabKind::Editor => EDITOR_ID,
            TabKind::Canvas => CANVAS_ID,
            TabKind::Logger => LOGGER_ID,
            TabKind::Settings => SETTINGS_ID,
        }
    }

    /// Settings is always reachable from the default layout, so it
    /// cannot be closed; every other tab can.
    pub fn closeable(&self) -> (c: bool)
        ensures
            c <==> self.kind != TabKind::Settings,
    {
        match self.kind {
            TabKind::Settings => false,
            _ => true,
        }
    }
}

/// Distinct tab kinds are backed by distinct citizens, so activating
/// one tab's citizen never addresses another tab.
pub proof fn lemma_citizen_keys_distinct(a: TabKind, b: TabKind)
    requires
        a != b,
    ensures
        citizen_key_of(a) != citizen_key_of(b),
{
    reveal_strlit("project");
    reveal_strlit("editor");
    reveal_strlit("canvas");
    reveal_strlit("logger");
    reveal_strlit("settings");
    assert("project"@[0] == 'p');
    assert("editor"@[0] == 'e');
    assert("canvas"@[0] == 'c');
    assert("logger"@[0] == 'l');
    assert("settings"@[0] == 's');
}

/// Distinct tab kinds carry distinct titles.
pub proof fn lemma_titles_distinct(a: TabKind, b: TabKind)
    requires
        a != b,
    ensures
        title_of(a) != title_of(b),
{
    reveal_strlit("Project");
    reveal_strlit("Editor");
    reveal_strlit("Canvas");
    reveal_strlit("Logger");
    reveal_strlit("Settings");
    assert("Project"@[0] == 'P');
    assert("Editor"@[0] == 'E');
    assert("Canvas"@[0] == 'C');
    assert("Logger"@[0] == 'L');
    assert("Settings"@[0] == 'S');
}

/// Each tab's citizen id is the id under which the application
/// registers that citizen.
pub proof fn lemma_citizen_keys_are_registered_ids()
    ensures
        citizen_key_of(TabKind::Project) == PROJECT_ID@,
        citizen_key_of(TabKind::Editor) == EDITOR_ID@,
        citizen_key_of(TabKind::Canvas) == CANVAS_ID@,
        citizen_key_of(TabKind::Logger) == LOGGER_ID@,
        citizen_key_of(TabKind::Settings) == SETTINGS_ID@,
{
}

} // verus!
