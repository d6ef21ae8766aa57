use rmate_tray::config::{load, Preference};
use rmate_tray::editor::Editor;
use rmate_tray::router::{Action, Event, Router};
use rmate_tray::supervisor::{ProcState, SpawnOutcome, StartError};

fn running_router(editor: Editor, pid: u64) -> Router {
    let mut r = Router::new(Preference { selected_editor: editor });
    let acts = r.handle_event(Event::ToggleServer);
    assert_eq!(acts.last(), Some(&Action::Spawn { editor }));
    let acts = r.handle_event(Event::SpawnFinished(SpawnOutcome::Spawned { pid }));
    assert_eq!(
        acts,
        vec![Action::SetLabel { running: true }, Action::SetIcon { on: true }]
    );
    r
}

#[test]
fn first_run_toggle_starts_with_default_editor() {
    // No persisted config: load gives the default preference {Zed}.
    let p = load(None);
    assert_eq!(p.selected_editor, Editor::Zed);
    let mut r = Router::new(p);
    assert!(!r.tray_state().label_running);

    let acts = r.handle_event(Event::ToggleServer);
    assert_eq!(
        acts,
        vec![
            Action::CleanupStray,
            Action::Settle,
            Action::Spawn { editor: Editor::Zed },
        ]
    );
    assert!(r.is_awaiting_spawn());

    let acts = r.handle_event(Event::SpawnFinished(SpawnOutcome::Spawned { pid: 11 }));
    assert_eq!(
        acts,
        vec![Action::SetLabel { running: true }, Action::SetIcon { on: true }]
    );
    let tray = r.tray_state();
    assert!(tray.label_running && tray.icon_on);
    assert_eq!(tray.checked, Editor::Zed);
    assert_eq!(r.supervisor.state, ProcState::Running { pid: 11 });
}

#[test]
fn select_while_running_restarts_against_new_editor() {
    // Running with Zed; the user picks Sublime: stop, uncheck/check, save,
    // settle, and a fresh start against Sublime's target.
    let mut r = running_router(Editor::Zed, 21);

    let acts = r.handle_event(Event::SelectEditor(Editor::Sublime));
    assert_eq!(
        acts,
        vec![
            Action::KillServer { pid: 21 },
            Action::SetChecked { editor: Editor::Zed, checked: false },
            Action::SetChecked { editor: Editor::Sublime, checked: true },
            Action::SaveConfig {
                preference: Preference { selected_editor: Editor::Sublime },
            },
            Action::Settle,
            Action::CleanupStray,
            Action::Settle,
            Action::Spawn { editor: Editor::Sublime },
        ]
    );
    assert!(r.is_awaiting_spawn());

    let acts = r.handle_event(Event::SpawnFinished(SpawnOutcome::Spawned { pid: 22 }));
    assert_eq!(
        acts,
        vec![Action::SetLabel { running: true }, Action::SetIcon { on: true }]
    );
    let tray = r.tray_state();
    assert!(tray.label_running && tray.icon_on);
    assert_eq!(tray.checked, Editor::Sublime);
}

#[test]
fn select_current_editor_only_rechecks_it() {
    let mut r = running_router(Editor::Vscode, 5);
    let before = r;
    let acts = r.handle_event(Event::SelectEditor(Editor::Vscode));
    assert_eq!(
        acts,
        vec![Action::SetChecked { editor: Editor::Vscode, checked: true }]
    );
    assert_eq!(r, before);

    // The same while stopped.
    let mut r = Router::new(Preference { selected_editor: Editor::Vscode });
    let acts = r.handle_event(Event::SelectEditor(Editor::Vscode));
    assert_eq!(
        acts,
        vec![Action::SetChecked { editor: Editor::Vscode, checked: true }]
    );
    assert!(!r.supervisor.is_running());
}

#[test]
fn select_while_stopped_saves_without_spawning() {
    let mut r = Router::new(Preference { selected_editor: Editor::Zed });
    let acts = r.handle_event(Event::SelectEditor(Editor::Vscode));
    assert_eq!(
        acts,
        vec![
            Action::SetChecked { editor: Editor::Zed, checked: false },
            Action::SetChecked { editor: Editor::Vscode, checked: true },
            Action::SaveConfig {
                preference: Preference { selected_editor: Editor::Vscode },
            },
        ]
    );
    assert!(!r.is_awaiting_spawn());
    assert!(!r.supervisor.is_running());
    assert_eq!(r.preference.selected_editor, Editor::Vscode);
}

#[test]
fn toggle_while_running_stops_the_server() {
    let mut r = running_router(Editor::Zed, 33);
    let acts = r.handle_event(Event::ToggleServer);
    assert_eq!(
        acts,
        vec![
            Action::KillServer { pid: 33 },
            Action::SetLabel { running: false },
            Action::SetIcon { on: false },
        ]
    );
    assert!(!r.tray_state().label_running);
    assert_eq!(r.supervisor.state, ProcState::Absent);
}

#[test]
fn failed_spawn_leaves_tray_stopped() {
    let mut r = Router::new(Preference { selected_editor: Editor::Zed });
    r.handle_event(Event::ToggleServer);
    let acts = r.handle_event(Event::SpawnFinished(SpawnOutcome::BinaryMissing));
    assert_eq!(
        acts,
        vec![
            Action::SetLabel { running: false },
            Action::SetIcon { on: false },
            Action::ReportStartFailure { error: StartError::BinaryNotFound },
        ]
    );
    assert!(!r.supervisor.is_running());
    assert!(!r.tray_state().label_running);
}

#[test]
fn refused_spawn_reports_the_reason() {
    let mut r = Router::new(Preference { selected_editor: Editor::Sublime });
    r.handle_event(Event::ToggleServer);
    let acts = r.handle_event(Event::SpawnFinished(SpawnOutcome::SpawnRefused {
        reason: String::from("resource exhausted"),
    }));
    assert_eq!(
        acts[2],
        Action::ReportStartFailure {
            error: StartError::SpawnFailure(String::from("resource exhausted")),
        }
    );
}

#[test]
fn quit_while_running_kills_then_exits() {
    let mut r = running_router(Editor::Zed, 55);
    let acts = r.handle_event(Event::Quit);
    assert_eq!(acts, vec![Action::KillServer { pid: 55 }, Action::Exit]);
    assert!(r.is_quitting());
    assert_eq!(r.supervisor.state, ProcState::Absent);
}

#[test]
fn quit_while_stopped_just_exits() {
    let mut r = Router::new(Preference { selected_editor: Editor::Zed });
    let acts = r.handle_event(Event::Quit);
    assert_eq!(acts, vec![Action::Exit]);
    assert!(r.is_quitting());
}

#[test]
fn no_events_are_processed_after_quit() {
    let mut r = running_router(Editor::Zed, 8);
    r.handle_event(Event::Quit);
    let before = r;
    assert_eq!(r.handle_event(Event::ToggleServer), vec![]);
    assert_eq!(r.handle_event(Event::SelectEditor(Editor::Vscode)), vec![]);
    assert_eq!(r.handle_event(Event::Quit), vec![]);
    assert_eq!(r, before);
}

#[test]
fn rapid_double_toggle_is_two_transitions() {
    let mut r = running_router(Editor::Zed, 13);
    let acts = r.handle_event(Event::ToggleServer);
    assert_eq!(acts[0], Action::KillServer { pid: 13 });
    let acts = r.handle_event(Event::ToggleServer);
    assert_eq!(acts.last(), Some(&Action::Spawn { editor: Editor::Zed }));
}
