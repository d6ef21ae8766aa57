//! The tray command router: the single-threaded state machine that applies
//! user-originated events against the supervisor and the preference, and
//! emits the UI-update and process commands the surrounding binary carries
//! out.
//!
//! Events are processed strictly one at a time, in arrival order. The router
//! never spawns, kills, sleeps, writes files or touches menu widgets: it
//! returns a sequence of [`Action`]s, and the binary performs each in order.
//! A `Spawn` action is answered by feeding the launch attempt's outcome back
//! in as a [`Event::SpawnFinished`] before the next user event is taken, so
//! that the router can record the result and bring the tray in line with it.

use vstd::prelude::*;

use crate::config::Preference;
use crate::editor::Editor;
use crate::supervisor::{ProcState, SpawnOutcome, StartError, Supervisor, start_spec};

verus! {

/// The router's input alphabet: the three user commands of the tray menu,
/// and the binary's report of a finished launch attempt.
#[derive(Debug, PartialEq, Eq)]
pub enum Event {
    /// The toggle menu item was clicked.
    ToggleServer,
    /// The menu entry of the given editor was clicked.
    SelectEditor(Editor),
    /// The quit menu item was clicked.
    Quit,
    /// The launch attempt requested by a `Spawn` action ended thus.
    SpawnFinished(SpawnOutcome),
}

/// One command to the surrounding binary: a process operation, a UI update,
/// a config write, an error report, or termination of the hosting runtime.
#[derive(Debug, PartialEq, Eq)]
pub enum Action {
    /// Send a termination signal to the child with this identity.
    KillServer { pid: u64 },
    /// Best-effort terminate stray processes bearing the helper server's
    /// well-known name, to reclaim a possibly-orphaned listening port.
    CleanupStray,
    /// Wait the fixed settle interval so the OS can release the port.
    Settle,
    /// Attempt to launch the helper server against this editor's target,
    /// then feed the outcome back as `Event::SpawnFinished`.
    Spawn { editor: Editor },
    /// Set the toggle item's label: "Stop Server" when `running`, else
    /// "Start Server".
    SetLabel { running: bool },
    /// Set the tray icon to its on or off variant.
    SetIcon { on: bool },
    /// Set the checkmark of the given editor's menu entry.
    SetChecked { editor: Editor, checked: bool },
    /// Persist this preference to the config store, best-effort.
    SaveConfig { preference: Preference },
    /// Report a failed launch to the logging collaborator.
    ReportStartFailure { error: StartError },
    /// Signal the hosting UI runtime to terminate the process.
    Exit,
}

/// The router's whole state: the supervisor, the in-memory preference (the
/// source of truth for the session), whether a `Spawn` action is outstanding,
/// and whether `Quit` has been processed.
#[derive(Debug, Clone, Copy, PartialEq, Eq, Structural)]
pub struct Router {
    pub supervisor: Supervisor,
    pub preference: Preference,
    pub awaiting_spawn: bool,
    pub quitting: bool,
}

/// The commands that carry out a fresh launch: the stray-process cleanup and
/// the settle interval precede every spawn.
pub open spec fn start_actions(e: Editor) -> Seq<Action> {
    seq![Action::CleanupStray, Action::Settle, Action::Spawn { editor: e }]
}

/// The router's transition function: the state after an event, and the
/// sequence of actions emitted for it. `handle_event` computes exactly this.
pub open spec fn spec_step(r: Router, ev: Event) -> (Router, Seq<Action>) {
    if r.quitting {
        (r, Seq::empty())
    } else {
        match ev {
            Event::ToggleServer => match r.supervisor.state {
                ProcState::Running { pid } => (
                    Router { supervisor: Supervisor { state: ProcState::Absent }, ..r },
                    seq![
                        Action::KillServer { pid },
                        Action::SetLabel { running: false },
                        Action::SetIcon { on: false },
                    ],
                ),
                ProcState::Absent => (
                    Router { awaiting_spawn: true, ..r },
                    start_actions(r.preference.selected_editor),
                ),
            },
            Event::SelectEditor(new_editor) => {
                let current = r.preference.selected_editor;
                if new_editor == current {
                    (r, seq![Action::SetChecked { editor: new_editor, checked: true }])
                } else {
                    let switched = Preference { selected_editor: new_editor };
                    let ui = seq![
                        Action::SetChecked { editor: current, checked: false },
                        Action::SetChecked { editor: new_editor, checked: true },
                        Action::SaveConfig { preference: switched },
                    ];
                    match r.supervisor.state {
                        ProcState::Running { pid } => (
                            Router {
                                supervisor: Supervisor { state: ProcState::Absent },
                                preference: switched,
                                awaiting_spawn: true,
                                ..r
                            },
                            seq![Action::KillServer { pid }] + ui + seq![Action::Settle]
                                + start_actions(new_editor),
                        ),
                        ProcState::Absent => (Router { preference: switched, ..r }, ui),
                    }
                }
            },
            Event::Quit => match r.supervisor.state {
                ProcState::Running { pid } => (
                    Router {
                        supervisor: Supervisor { state: ProcState::Absent },
                        quitting: true,
                        ..r
                    },
                    seq![Action::KillServer { pid }, Action::Exit],
                ),
                ProcState::Absent => (Router { quitting: true, ..r }, seq![Action::Exit]),
            },
            Event::SpawnFinished(outcome) => {
                let started = start_spec(r.supervisor, outcome);
                let r2 = Router { supervisor: started.0, awaiting_spawn: false, ..r };
                match started.1 {
                    Ok(()) => (
                        r2,
                        seq![Action::SetLabel { running: true }, Action::SetIcon { on: true }],
                    ),
                    Err(e) => (
                        r2,
                        seq![
                            Action::SetLabel { running: false },
                            Action::SetIcon { on: false },
                            Action::ReportStartFailure { error: e },
                        ],
                    ),
                }
            },
        }
    }
}

impl Router {
    /// The router's internal invariant: a spawn is only ever outstanding
    /// while no child is recorded, and nothing is outstanding once quitting.
    pub open spec fn wf(self) -> bool {
        &&& (self.awaiting_spawn ==> self.supervisor.state is Absent)
        &&& (self.quitting ==> !self.awaiting_spawn)
    }

    /// A fresh router for the given loaded preference: no child, nothing
    /// outstanding.
    pub fn new(preference: Preference) -> (r: Router)
        ensures
            r == (Router {
                supervisor: Supervisor { state: ProcState::Absent },
                preference,
                awaiting_spawn: false,
                quitting: false,
            }),
            r.wf(),
    {
        Router {
            supervisor: Supervisor::new(),
            preference,
            awaiting_spawn: false,
            quitting: false,
        }
    }

    /// Is a `Spawn` action outstanding, so that the next event must be its
    /// `SpawnFinished` report?
    pub fn is_awaiting_spawn(&self) -> (b: bool)
        ensures
            b == self.awaiting_spawn,
    {
        self.awaiting_spawn
    }

    /// Has `Quit` been processed? From then on every event is ignored.
    pub fn is_quitting(&self) -> (b: bool)
        ensures
            b == self.quitting,
    {
        self.quitting
    }

    /// Apply one event, in arrival order, and return the actions the caller
    /// must carry out, in order. Exactly the transition `spec_step` states.
    pub fn handle_event(&mut self, ev: Event) -> (out: Vec<Action>)
        requires
            (ev is SpawnFinished) == old(self).awaiting_spawn,
        ensures
            *final(self) == spec_step(*old(self), ev).0,
            out@ == spec_step(*old(self), ev).1,
            old(self).wf() ==> final(self).wf(),
    {
        let mut out: Vec<Action> = Vec::new();
        if self.quitting {
            proof {
                assert(out@ =~= spec_step(*old(self), ev).1);
            }
            return out;
        }
        match ev {
            Event::ToggleServer => {
                if self.supervisor.is_running() {
                    let killed = self.supervisor.stop();
                    if let Some(pid) = killed {
                        out.push(Action::KillServer { pid });
                    }
                    out.push(Action::SetLabel { running: false });
                    out.push(Action::SetIcon { on: false });
                } else {
                    out.push(Action::CleanupStray);
                    out.push(Action::Settle);
                    out.push(Action::Spawn { editor: self.preference.selected_editor });
                    self.awaiting_spawn = true;
                }
            },
            Event::SelectEditor(new_editor) => {
                let current = self.preference.selected_editor;
                if new_editor == current {
                    out.push(Action::SetChecked { editor: new_editor, checked: true });
                } else {
                    let was_running = self.supervisor.is_running();
                    if was_running {
                        let killed = self.supervisor.stop();
                        if let Some(pid) = killed {
                            out.push(Action::KillServer { pid });
                        }
                    }
                    self.preference = Preference { selected_editor: new_editor };
                    out.push(Action::SetChecked { editor: current, checked: false });
                    out.push(Action::SetChecked { editor: new_editor, checked: true });
                    out.push(Action::SaveConfig { preference: self.preference });
                    if was_running {
                        out.push(Action::Settle);
                        out.push(Action::CleanupStray);
                        out.push(Action::Settle);
                        out.push(Action::Spawn { editor: new_editor });
                        self.awaiting_spawn = true;
                    }
                }
            },
            Event::Quit => {
                let killed = self.supervisor.stop();
                if let Some(pid) = killed {
                    out.push(Action::KillServer { pid });
                }
                self.quitting = true;
                out.push(Action::Exit);
            },
            Event::SpawnFinished(outcome) => {
                self.awaiting_spawn = false;
                let res = self.supervisor.start(outcome);
                match res {
                    Ok(()) => {
                        out.push(Action::SetLabel { running: true });
                        out.push(Action::SetIcon { on: true });
                    },
                    Err(e) => {
                        out.push(Action::SetLabel { running: false });
                        out.push(Action::SetIcon { on: false });
                        out.push(Action::ReportStartFailure { error: e });
                    },
                }
            },
        }
        proof {
            assert(out@ =~= spec_step(*old(self), ev).1);
        }
        out
    }
}

/// The observable tray surface as a pure function of the router's state:
/// what the menu should show whenever no spawn is outstanding.
#[derive(Debug, Clone, Copy, PartialEq, Eq, Structural)]
pub struct TrayState {
    pub label_running: bool,
    pub icon_on: bool,
    pub checked: Editor,
}

impl Router {
    /// Recompute the whole tray surface from the current state, rather than
    /// mutating it incrementally: label and icon follow the supervisor, the
    /// single checkmark follows the preference.
    pub fn tray_state(&self) -> (t: TrayState)
        ensures
            t.label_running == (self.supervisor.state is Running),
            t.icon_on == (self.supervisor.state is Running),
            t.checked == self.preference.selected_editor,
    {
        TrayState {
            label_running: self.supervisor.is_running(),
            icon_on: self.supervisor.is_running(),
            checked: self.preference.selected_editor,
        }
    }
}

} // verus!
