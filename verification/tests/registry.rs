use rmate_tray::editor::Editor;

#[test]
fn zed_bin_path() {
    assert_eq!(Editor::Zed.to_bin_path(), "/usr/local/bin/zed");
}

#[test]
fn vscode_bin_path() {
    assert_eq!(Editor::Vscode.to_bin_path(), "/usr/local/bin/code");
}

#[test]
fn sublime_bin_path() {
    assert_eq!(
        Editor::Sublime.to_bin_path(),
        "/Applications/Sublime Text.app/Contents/SharedSupport/bin/subl"
    );
}

#[test]
fn menu_ids() {
    assert_eq!(Editor::Zed.to_menu_id(), "select_zed");
    assert_eq!(Editor::Vscode.to_menu_id(), "select_vscode");
    assert_eq!(Editor::Sublime.to_menu_id(), "select_sublime");
}
