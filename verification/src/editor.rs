//! The editor registry: the closed set of editors the helper server can be
//! launched against, and the fixed launch target and menu identifier of each.

use vstd::prelude::*;

verus! {

/// One of the editors the helper server knows how to open files in.
///
/// The set is closed: adding an editor means adding a variant here together
/// with its registry entries below.
#[derive(Debug, Clone, Copy, PartialEq, Eq, Structural)]
pub enum Editor {
    Zed,
    Vscode,
    Sublime,
}

impl Editor {
    /// The launch target of an editor: the absolute path of the binary that
    /// the helper server is told to open files with.
    pub open spec fn spec_bin_path(self) -> Seq<char> {
        match self {
            Editor::Zed => "/usr/local/bin/zed"@,
            Editor::Vscode => "/usr/local/bin/code"@,
            Editor::Sublime => "/Applications/Sublime Text.app/Contents/SharedSupport/bin/subl"@,
        }
    }

    /// The menu item identifier under which the tray surface reports a click
    /// on this editor's entry.
    pub open spec fn spec_menu_id(self) -> Seq<char> {
        match self {
            Editor::Zed => "select_zed"@,
            Editor::Vscode => "select_vscode"@,
            Editor::Sublime => "select_sublime"@,
        }
    }

    /// Look up this editor's launch target. Total: every editor has a target
    /// baked in at build time.
    pub fn to_bin_path(&self) -> (r: &'static str)
        ensures
            r@ == self.spec_bin_path(),
    {
        match self {
            Editor::Zed => "/usr/local/bin/zed",
            Editor::Vscode => "/usr/local/bin/code",
            Editor::Sublime => "/Applications/Sublime Text.app/Contents/SharedSupport/bin/subl",
        }
    }

    /// Look up this editor's menu item identifier. Total, like `to_bin_path`.
    pub fn to_menu_id(&self) -> (r: &'static str)
        ensures
            r@ == self.spec_menu_id(),
    {
        match self {
            Editor::Zed => "select_zed",
            Editor::Vscode => "select_vscode",
            Editor::Sublime => "select_sublime",
        }
    }
}

} // verus!
