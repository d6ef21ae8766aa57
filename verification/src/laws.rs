//! The guarantees the router gives across whole event sequences: the tray
//! surface never drifts from the state, switching editors restarts the
//! server exactly once, re-affirming a selection touches the server not at
//! all, and quitting always cleans up and is terminal.
//!
//! The tray surface itself lives outside the library, so it is modelled here
//! as a ghost value that accumulates the emitted UI actions; the laws say
//! what that accumulation looks like after any step the router can take.

use vstd::prelude::*;

use crate::config::Preference;
use crate::editor::Editor;
use crate::router::{Action, Event, Router, spec_step};
use crate::supervisor::{ProcState, SpawnOutcome, Supervisor};

verus! {

/// The externally rendered tray surface: which editor entries bear a
/// checkmark, and what the toggle label and the icon show.
pub ghost struct TrayUi {
    pub checked: Set<Editor>,
    pub label_running: bool,
    pub icon_on: bool,
}

/// How the tray surface changes under one emitted action: UI actions update
/// the widget they name, every other action leaves the surface alone.
pub open spec fn ui_apply(u: TrayUi, a: Action) -> TrayUi {
    match a {
        Action::SetLabel { running } => TrayUi { label_running: running, ..u },
        Action::SetIcon { on } => TrayUi { icon_on: on, ..u },
        Action::SetChecked { editor, checked } => TrayUi {
            checked: if checked {
                u.checked.insert(editor)
            } else {
                u.checked.remove(editor)
            },
            ..u
        },
        _ => u,
    }
}

pub open spec fn ui_apply_from(u: TrayUi, s: Seq<Action>, i: int) -> TrayUi
    decreases s.len() - i,
{
    if 0 <= i < s.len() {
        ui_apply_from(ui_apply(u, s[i]), s, i + 1)
    } else {
        u
    }
}

/// The tray surface after rendering a whole emitted action sequence in
/// order.
pub open spec fn ui_apply_all(u: TrayUi, s: Seq<Action>) -> TrayUi {
    ui_apply_from(u, s, 0)
}

/// The tray surface agrees with the router: exactly the selected editor is
/// checked, and — whenever no spawn is outstanding and the router is not
/// quitting — the label and the icon show whether the server runs.
pub open spec fn ui_consistent(u: TrayUi, r: Router) -> bool {
    &&& (forall|e: Editor| u.checked.contains(e) <==> e == r.preference.selected_editor)
    &&& (!r.awaiting_spawn && !r.quitting ==> u.label_running == (r.supervisor.state is Running))
    &&& (!r.awaiting_spawn && !r.quitting ==> u.icon_on == (r.supervisor.state is Running))
}

/// The tray surface the router expects at birth: the loaded preference
/// checked, label and icon showing "stopped".
pub open spec fn initial_ui(r: Router) -> TrayUi {
    TrayUi {
        checked: Set::empty().insert(r.preference.selected_editor),
        label_running: false,
        icon_on: false,
    }
}

/// A fresh router and its initial surface agree.
pub proof fn lemma_initial_ui_consistent(p: Preference)
    ensures
        ({
            let r = Router {
                supervisor: Supervisor { state: ProcState::Absent },
                preference: p,
                awaiting_spawn: false,
                quitting: false,
            };
            ui_consistent(initial_ui(r), r)
        }),
{
}

/// Mutual exclusion of the checked state, and no UI drift: after any event
/// the router accepts, a consistent tray surface stays consistent — in
/// particular, after any number of `SelectEditor` events exactly one editor
/// is checked, and it is the selected one. The router's invariant is
/// preserved along the way.
pub proof fn lemma_ui_stays_consistent(u: TrayUi, r: Router, ev: Event)
    requires
        r.wf(),
        ui_consistent(u, r),
        (ev is SpawnFinished) == r.awaiting_spawn,
    ensures
        spec_step(r, ev).0.wf(),
        ui_consistent(ui_apply_all(u, spec_step(r, ev).1), spec_step(r, ev).0),
{
    reveal_with_fuel(ui_apply_from, 10);
}

/// How many termination signals a sequence of actions sends.
pub open spec fn count_kills(s: Seq<Action>) -> nat {
    count_kills_from(s, 0)
}

pub open spec fn count_kills_from(s: Seq<Action>, i: int) -> nat
    decreases s.len() - i,
{
    if 0 <= i < s.len() {
        (if s[i] is KillServer {
            1nat
        } else {
            0nat
        }) + count_kills_from(s, i + 1)
    } else {
        0
    }
}

/// How many launch attempts a sequence of actions requests.
pub open spec fn count_spawns(s: Seq<Action>) -> nat {
    count_spawns_from(s, 0)
}

pub open spec fn count_spawns_from(s: Seq<Action>, i: int) -> nat
    decreases s.len() - i,
{
    if 0 <= i < s.len() {
        (if s[i] is Spawn {
            1nat
        } else {
            0nat
        }) + count_spawns_from(s, i + 1)
    } else {
        0
    }
}

/// Restart on switch: with the server running and a different editor
/// selected, the select event stops the server exactly once and then starts
/// it exactly once, against the new editor's target; once the spawn is
/// reported successful, the tray shows "running" with exactly the new editor
/// checked.
pub proof fn lemma_restart_on_switch(
    u: TrayUi,
    r: Router,
    new_editor: Editor,
    pid: u64,
    new_pid: u64,
)
    requires
        r.wf(),
        !r.quitting,
        !r.awaiting_spawn,
        ui_consistent(u, r),
        r.supervisor.state == (ProcState::Running { pid }),
        new_editor != r.preference.selected_editor,
    ensures
        ({
            let (r1, acts1) = spec_step(r, Event::SelectEditor(new_editor));
            let (r2, acts2) = spec_step(
                r1,
                Event::SpawnFinished(SpawnOutcome::Spawned { pid: new_pid }),
            );
            let u2 = ui_apply_all(ui_apply_all(u, acts1), acts2);
            &&& count_kills(acts1) == 1 && count_kills(acts2) == 0
            &&& count_spawns(acts1) == 1 && count_spawns(acts2) == 0
            &&& acts1[0] == (Action::KillServer { pid })
            &&& acts1.last() == (Action::Spawn { editor: new_editor })
            &&& r2.supervisor.state == (ProcState::Running { pid: new_pid })
            &&& r2.preference.selected_editor == new_editor
            &&& u2.label_running && u2.icon_on
            &&& forall|e: Editor| u2.checked.contains(e) <==> e == new_editor
        }),
{
    reveal_with_fuel(ui_apply_from, 10);
    reveal_with_fuel(count_kills_from, 10);
    reveal_with_fuel(count_spawns_from, 10);
    let (r1, acts1) = spec_step(r, Event::SelectEditor(new_editor));
    lemma_ui_stays_consistent(u, r, Event::SelectEditor(new_editor));
    lemma_ui_stays_consistent(
        ui_apply_all(u, acts1),
        r1,
        Event::SpawnFinished(SpawnOutcome::Spawned { pid: new_pid }),
    );
}

/// No restart on a no-op select: re-affirming the already selected editor
/// issues no stop and no start — whether or not the server is running — and
/// leaves the state untouched; the only action re-checks the entry.
pub proof fn lemma_noop_select(r: Router, e: Editor)
    requires
        !r.quitting,
        !r.awaiting_spawn,
        e == r.preference.selected_editor,
    ensures
        ({
            let (r1, acts) = spec_step(r, Event::SelectEditor(e));
            &&& r1 == r
            &&& count_kills(acts) == 0
            &&& count_spawns(acts) == 0
            &&& acts == seq![Action::SetChecked { editor: e, checked: true }]
        }),
{
    reveal_with_fuel(count_kills_from, 3);
    reveal_with_fuel(count_spawns_from, 3);
}

/// Quit always cleans up: a quit while the server runs sends exactly one
/// termination signal, and only then signals the hosting runtime to exit.
pub proof fn lemma_quit_cleans_up(r: Router, pid: u64)
    requires
        !r.quitting,
        r.supervisor.state == (ProcState::Running { pid }),
    ensures
        ({
            let (r1, acts) = spec_step(r, Event::Quit);
            &&& acts == seq![Action::KillServer { pid }, Action::Exit]
            &&& count_kills(acts) == 1
            &&& r1.supervisor.state is Absent
            &&& r1.quitting
        }),
{
    reveal_with_fuel(count_kills_from, 4);
}

/// Quit is terminal: once the router is quitting, every further event is
/// ignored — no state change and no action.
pub proof fn lemma_quit_is_terminal(r: Router, ev: Event)
    requires
        r.quitting,
    ensures
        spec_step(r, ev).0 == r,
        spec_step(r, ev).1 == Seq::<Action>::empty(),
{
}

} // verus!
