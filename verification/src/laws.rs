//! The supervision laws, stated over the manager's mathematical model and
//! proved once and for all. Each law speaks about the spec-level step
//! functions that the exec methods of [`crate::manager::ProcessManager`] are
//! proved to implement, so it holds of every run of the supervisor.

use crate::events::EventView;
use crate::manager::{
    exited_normally_line, logs_of, spec_apply_spawn, spec_handle_poll, spec_respawn_success,
    spec_stop, status_of, PollView,
};
use crate::process::{ProcView, ProcessStatus};
use crate::MAX_RESTART_ATTEMPTS;
use vstd::prelude::*;

verus! {

/// A project that was never started reads as `Stopped` with an empty
/// scrollback.
pub proof fn lemma_never_started(m: Map<Seq<char>, ProcView>, id: Seq<char>)
    requires
        !m.contains_key(id),
    ensures
        status_of(m, id) == ProcessStatus::Stopped,
        logs_of(m, id) == Seq::<Seq<char>>::empty(),
{
}

/// A child that exits with code 0 settles its record in `Stopped` exactly
/// once: the step appends the one closing line, orders the monitor loop to
/// terminate, and every later poll of the settled record changes nothing —
/// no further log line ever follows the closing one.
pub proof fn lemma_normal_exit_settles(
    m: Map<Seq<char>, ProcView>,
    id: Seq<char>,
    ts: Seq<char>,
    later: PollView,
    ts2: Seq<char>,
)
    requires
        m.contains_key(id),
        m[id].status == ProcessStatus::Running,
        m[id].child is Some,
    ensures
        ({
            let step = spec_handle_poll(m, id, PollView::Exited(0), ts);
            &&& step.procs[id].status == ProcessStatus::Stopped
            &&& step.procs[id].child is None
            &&& step.procs[id].logs == crate::log_buffer::appended(
                m[id].logs,
                exited_normally_line(ts),
            )
            &&& step.directive is Exit
            &&& step.events == seq![EventView::Status { id: id, status: "stopped"@ }]
            &&& spec_handle_poll(step.procs, id, later, ts2).procs == step.procs
            &&& spec_handle_poll(step.procs, id, later, ts2).directive is Exit
            &&& spec_handle_poll(step.procs, id, later, ts2).events == Seq::<EventView>::empty()
        }),
{
}

/// The off-by-one boundary of the restart policy: a crash of a process with
/// `restart_on_crash` earns a respawn exactly while `restart_count` is below
/// the cap. A restarting crash increments the counter, waits in
/// `Restarting`, and publishes the crash with the incremented counter; the
/// crash that finds the counter at the cap settles the record in `Error`
/// with the counter untouched and publishes the crash with `will_restart`
/// false.
pub proof fn lemma_restart_boundary(
    m: Map<Seq<char>, ProcView>,
    id: Seq<char>,
    code: i32,
    ts: Seq<char>,
)
    requires
        m.contains_key(id),
        m[id].status == ProcessStatus::Running,
        m[id].child is Some,
        m[id].restart_on_crash,
        code != 0,
    ensures
        ({
            let r = m[id];
            let step = spec_handle_poll(m, id, PollView::Exited(code), ts);
            &&& (r.restart_count < MAX_RESTART_ATTEMPTS ==> {
                &&& step.procs[id].status == ProcessStatus::Restarting
                &&& step.procs[id].restart_count == r.restart_count + 1
                &&& step.directive is Restart
                &&& step.events == seq![
                    EventView::Crash {
                        id: id,
                        restart_count: (r.restart_count + 1) as u32,
                        will_restart: true,
                    },
                    EventView::Status { id: id, status: "restarting"@ },
                ]
            })
            &&& (r.restart_count >= MAX_RESTART_ATTEMPTS ==> {
                &&& step.procs[id].status == ProcessStatus::Error
                &&& step.procs[id].restart_count == r.restart_count
                &&& step.directive is Exit
                &&& step.events == seq![
                    EventView::Crash {
                        id: id,
                        restart_count: r.restart_count,
                        will_restart: false,
                    },
                    EventView::Status { id: id, status: "error"@ },
                ]
            })
        }),
{
}

/// A crash of a process whose `restart_on_crash` is off settles the record
/// in `Error` directly: the restart counter is not incremented, no respawn
/// is scheduled, and the crash event says so.
pub proof fn lemma_crash_without_restart_policy(
    m: Map<Seq<char>, ProcView>,
    id: Seq<char>,
    code: i32,
    ts: Seq<char>,
)
    requires
        m.contains_key(id),
        m[id].status == ProcessStatus::Running,
        m[id].child is Some,
        !m[id].restart_on_crash,
        code != 0,
    ensures
        ({
            let step = spec_handle_poll(m, id, PollView::Exited(code), ts);
            &&& step.procs[id].status == ProcessStatus::Error
            &&& step.procs[id].restart_count == m[id].restart_count
            &&& step.directive is Exit
            &&& step.events == seq![
                EventView::Crash {
                    id: id,
                    restart_count: m[id].restart_count,
                    will_restart: false,
                },
                EventView::Status { id: id, status: "error"@ },
            ]
        }),
{
}

/// One full crash-and-respawn cycle: the crash observed at the given poll,
/// followed by the scheduled respawn succeeding.
pub open spec fn crash_cycle(
    m: Map<Seq<char>, ProcView>,
    id: Seq<char>,
    code: i32,
    pid: u32,
    has_stdin: bool,
    ts: Seq<char>,
) -> Map<Seq<char>, ProcView> {
    spec_respawn_success(
        spec_handle_poll(m, id, PollView::Exited(code), ts).procs,
        id,
        pid,
        has_stdin,
        ts,
    ).0
}

/// A run of crash-and-respawn cycles, oldest first; each input is the exit
/// code observed, the pid of the respawned child, and the timestamp.
pub open spec fn crash_cycles(
    m: Map<Seq<char>, ProcView>,
    id: Seq<char>,
    inputs: Seq<(i32, u32, Seq<char>)>,
    has_stdin: bool,
) -> Map<Seq<char>, ProcView>
    decreases inputs.len(),
{
    if inputs.len() == 0 {
        m
    } else {
        crash_cycle(
            crash_cycles(m, id, inputs.drop_last(), has_stdin),
            id,
            inputs.last().0,
            inputs.last().1,
            has_stdin,
            inputs.last().2,
        )
    }
}

/// A process with `restart_on_crash` that keeps crashing is respawned once
/// per crash while the counter is below the cap: after `k` crashes (each
/// with a nonzero exit code) and `k` successful respawns, `k` at most the
/// cap, the record is `Running` again with `restart_count == k`. With
/// [`lemma_restart_boundary`] this pins the policy to exactly
/// `MAX_RESTART_ATTEMPTS` respawns: the next crash after a full run of
/// cycles finds the counter at the cap and settles in `Error`.
pub proof fn lemma_bounded_respawns(
    m: Map<Seq<char>, ProcView>,
    id: Seq<char>,
    inputs: Seq<(i32, u32, Seq<char>)>,
    has_stdin: bool,
)
    requires
        m.contains_key(id),
        m[id].status == ProcessStatus::Running,
        m[id].child is Some,
        m[id].restart_on_crash,
        m[id].restart_count == 0,
        inputs.len() <= MAX_RESTART_ATTEMPTS,
        forall|j: int| 0 <= j < inputs.len() ==> (#[trigger] inputs[j]).0 != 0,
    ensures
        ({
            let m2 = crash_cycles(m, id, inputs, has_stdin);
            &&& m2.contains_key(id)
            &&& m2[id].status == ProcessStatus::Running
            &&& m2[id].child is Some
            &&& m2[id].restart_on_crash
            &&& m2[id].restart_count == inputs.len()
        }),
    decreases inputs.len(),
{
    if inputs.len() > 0 {
        assert forall|j: int| 0 <= j < inputs.drop_last().len() implies (#[trigger] inputs.drop_last()[j]).0
            != 0 by {
            assert(inputs[j].0 != 0);
        }
        lemma_bounded_respawns(m, id, inputs.drop_last(), has_stdin);
    }
}

/// An explicit stop followed by an explicit start always yields `Running`
/// with `restart_count` reset to 0, whatever the prior crash history; the
/// scrollback survives both.
pub proof fn lemma_stop_then_start(
    m: Map<Seq<char>, ProcView>,
    id: Seq<char>,
    path: Seq<char>,
    commands: Seq<Seq<char>>,
    restart_on_crash: bool,
    pid: u32,
    has_stdin: bool,
)
    ensures
        status_of(spec_stop(m, id), id) != ProcessStatus::Running,
        ({
            let m2 = spec_apply_spawn(
                spec_stop(m, id),
                id,
                path,
                commands,
                restart_on_crash,
                pid,
                has_stdin,
            );
            &&& m2.contains_key(id)
            &&& m2[id].status == ProcessStatus::Running
            &&& m2[id].restart_count == 0
            &&& m2[id].child == Some(pid)
            &&& m2[id].logs == logs_of(m, id)
        }),
{
}

} // verus!
