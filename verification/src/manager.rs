//! The process manager: the single source of truth for every supervised
//! process. It owns the registry of records and makes every supervision
//! decision — who may start, what a poll result does to a record, when a
//! crash earns a respawn, what is logged and which events are published.
//!
//! All blocking work (spawning, killing, pipe reads, sleeps) is done by an
//! unverified driver around this type: the manager hands it plans
//! ([`LaunchPlan`], [`MonitorDirective`]) and receives the outcomes
//! ([`PollOutcome`], spawn results) back. Everything the driver may observe
//! of the state is pinned down here.

use crate::errors::ProcError;
use crate::events::{CrashPayload, Event, EventView, LogPayload, StatusPayload};
use crate::launcher::{build_script, script_view, LaunchPlan};
use crate::log_buffer::{appended, LogBuffer};
use crate::process::{rec_inv, status_label, status_label_view, ProcView, ProcessInfo, ProcessStatus};
use crate::strutil::{clone_strings, dec_digits, dec_int, i64_to_string, stamp, stamped, u64_to_string};
use crate::{MAX_RESTART_ATTEMPTS, RESTART_DELAY_MS};
use vstd::prelude::*;
use vstd::string::StringExecFns;

verus! {

/// No two records share a project id.
pub open spec fn ids_unique(s: Seq<ProcessInfo>) -> bool {
    forall|i: int, j: int|
        0 <= i < j < s.len() ==> (#[trigger] s[i]).project_id@ != (#[trigger] s[j]).project_id@
}

/// The registry a record sequence stands for: project id to record model.
pub closed spec fn procs_map(s: Seq<ProcessInfo>) -> Map<Seq<char>, ProcView>
    decreases s.len(),
{
    if s.len() == 0 {
        Map::empty()
    } else {
        procs_map(s.drop_last()).insert(s.last().project_id@, s.last()@)
    }
}

proof fn lemma_procs_map_contains(s: Seq<ProcessInfo>, k: Seq<char>)
    ensures
        procs_map(s).contains_key(k) <==> exists|i: int|
            0 <= i < s.len() && (#[trigger] s[i]).project_id@ == k,
    decreases s.len(),
{
    if s.len() > 0 {
        lemma_procs_map_contains(s.drop_last(), k);
        if procs_map(s).contains_key(k) {
            if s.last().project_id@ == k {
                assert(s[s.len() - 1].project_id@ == k);
            } else {
                let i = choose|i: int|
                    0 <= i < s.drop_last().len() && (#[trigger] s.drop_last()[i]).project_id@ == k;
                assert(s[i].project_id@ == k);
            }
        }
        if exists|i: int| 0 <= i < s.len() && (#[trigger] s[i]).project_id@ == k {
            let i = choose|i: int| 0 <= i < s.len() && (#[trigger] s[i]).project_id@ == k;
            if i < s.len() - 1 {
                assert(s.drop_last()[i].project_id@ == k);
            }
        }
    }
}

proof fn lemma_procs_map_index(s: Seq<ProcessInfo>, i: int)
    requires
        ids_unique(s),
        0 <= i < s.len(),
    ensures
        procs_map(s).contains_key(s[i].project_id@),
        procs_map(s)[s[i].project_id@] == s[i]@,
    decreases s.len(),
{
    if i == s.len() - 1 {
    } else {
        assert(ids_unique(s.drop_last()));
        assert(s.drop_last()[i] == s[i]);
        lemma_procs_map_index(s.drop_last(), i);
        assert(s[i].project_id@ != s.last().project_id@);
    }
}

proof fn lemma_procs_map_update(s: Seq<ProcessInfo>, i: int, r: ProcessInfo)
    requires
        ids_unique(s),
        0 <= i < s.len(),
        r.project_id@ == s[i].project_id@,
    ensures
        ids_unique(s.update(i, r)),
        procs_map(s.update(i, r)) == procs_map(s).insert(r.project_id@, r@),
    decreases s.len(),
{
    let t = s.update(i, r);
    assert forall|a: int, b: int| 0 <= a < b < t.len() implies (#[trigger] t[a]).project_id@
        != (#[trigger] t[b]).project_id@ by {
        assert(s[a].project_id@ != s[b].project_id@);
    }
    if i == s.len() - 1 {
        assert(t.drop_last() =~= s.drop_last());
        assert(t.last() == r);
        assert(procs_map(t) =~= procs_map(s).insert(r.project_id@, r@));
    } else {
        assert(ids_unique(s.drop_last()));
        assert(s.drop_last()[i] == s[i]);
        lemma_procs_map_update(s.drop_last(), i, r);
        assert(t.drop_last() =~= s.drop_last().update(i, r));
        assert(t.last() == s.last());
        // the two inserts go to different keys, so they commute
        assert(s[i].project_id@ != s.last().project_id@);
        assert(procs_map(t) =~= procs_map(s).insert(r.project_id@, r@));
    }
}

proof fn lemma_procs_map_push(s: Seq<ProcessInfo>, r: ProcessInfo)
    requires
        ids_unique(s),
        forall|i: int| 0 <= i < s.len() ==> (#[trigger] s[i]).project_id@ != r.project_id@,
    ensures
        ids_unique(s.push(r)),
        procs_map(s.push(r)) == procs_map(s).insert(r.project_id@, r@),
{
    let t = s.push(r);
    assert forall|a: int, b: int| 0 <= a < b < t.len() implies (#[trigger] t[a]).project_id@
        != (#[trigger] t[b]).project_id@ by {
        if b < s.len() {
            assert(s[a].project_id@ != s[b].project_id@);
        } else {
            assert(t[a] == s[a]);
        }
    }
    assert(t.drop_last() =~= s);
    assert(t.last() == r);
}

/// Status a caller observes for a project: `Stopped` until a record exists.
pub open spec fn status_of(m: Map<Seq<char>, ProcView>, id: Seq<char>) -> ProcessStatus {
    if m.contains_key(id) {
        m[id].status
    } else {
        ProcessStatus::Stopped
    }
}

/// Log lines a caller observes for a project: empty until a record exists.
pub open spec fn logs_of(m: Map<Seq<char>, ProcView>, id: Seq<char>) -> Seq<Seq<char>> {
    if m.contains_key(id) {
        m[id].logs
    } else {
        Seq::empty()
    }
}

/// Restart counter a caller observes for a project: 0 until a record exists.
pub open spec fn restart_count_of(m: Map<Seq<char>, ProcView>, id: Seq<char>) -> u32 {
    if m.contains_key(id) {
        m[id].restart_count
    } else {
        0
    }
}

/// What recording a successful explicit spawn does to the registry: the
/// record becomes `Running` with the fresh child and a reset restart
/// counter; only the scrollback survives from any earlier life.
pub open spec fn spec_apply_spawn(
    m: Map<Seq<char>, ProcView>,
    id: Seq<char>,
    path: Seq<char>,
    commands: Seq<Seq<char>>,
    restart_on_crash: bool,
    pid: u32,
    has_stdin: bool,
) -> Map<Seq<char>, ProcView> {
    m.insert(
        id,
        ProcView {
            status: ProcessStatus::Running,
            child: Some(pid),
            has_stdin: has_stdin,
            logs: logs_of(m, id),
            restart_count: 0,
            restart_on_crash: restart_on_crash,
            path: path,
            commands: commands,
        },
    )
}

/// What an explicit stop does to the registry: an existing record is reset
/// to `Stopped` with no child, no stdin writer and a zeroed restart counter;
/// an unknown id changes nothing.
pub open spec fn spec_stop(m: Map<Seq<char>, ProcView>, id: Seq<char>) -> Map<
    Seq<char>,
    ProcView,
> {
    if m.contains_key(id) {
        m.insert(
            id,
            ProcView {
                status: ProcessStatus::Stopped,
                child: None,
                has_stdin: false,
                restart_count: 0,
                ..m[id]
            },
        )
    } else {
        m
    }
}

/// What clearing a project's scrollback does to the registry.
pub open spec fn spec_clear_logs(m: Map<Seq<char>, ProcView>, id: Seq<char>) -> Map<
    Seq<char>,
    ProcView,
> {
    if m.contains_key(id) {
        m.insert(id, ProcView { logs: Seq::empty(), ..m[id] })
    } else {
        m
    }
}

/// The scrollback line recording a normal exit.
pub open spec fn exited_normally_line(ts: Seq<char>) -> Seq<char> {
    stamped(ts, "Process exited normally"@)
}

/// The scrollback line recording an abnormal exit with its code.
pub open spec fn crashed_line(ts: Seq<char>, code: int) -> Seq<char> {
    stamped(ts, "[ERR] Process crashed with exit code: "@ + dec_int(code))
}

/// The scrollback line recording that a respawn is scheduled.
pub open spec fn restarting_line(ts: Seq<char>, attempt: u32) -> Seq<char> {
    stamped(
        ts,
        "Restarting... (attempt "@ + dec_digits(attempt as nat) + "/"@ + dec_digits(
            MAX_RESTART_ATTEMPTS as nat,
        ) + ")"@,
    )
}

/// The scrollback line recording that the restart cap was reached.
pub open spec fn gave_up_line(ts: Seq<char>) -> Seq<char> {
    stamped(ts, "[ERR] Max restart attempts reached. Giving up."@)
}

/// The scrollback line recording a failed exit-status poll.
pub open spec fn wait_error_line(ts: Seq<char>, err: Seq<char>) -> Seq<char> {
    stamped(ts, "[ERR] Failed to check process status: "@ + err)
}

/// The scrollback line recording a successful respawn.
pub open spec fn restarted_line(ts: Seq<char>) -> Seq<char> {
    stamped(ts, "Process restarted successfully"@)
}

/// The scrollback line recording a failed respawn.
pub open spec fn restart_failed_line(ts: Seq<char>, err: Seq<char>) -> Seq<char> {
    stamped(ts, "[ERR] Failed to restart: "@ + err)
}

/// The scrollback line echoing text a caller sent to the child's stdin.
pub open spec fn input_echo_line(ts: Seq<char>, input: Seq<char>) -> Seq<char> {
    stamped(ts, "> "@ + input)
}

/// The scrollback line echoing an interrupt sent to the child.
pub open spec fn interrupt_line(ts: Seq<char>) -> Seq<char> {
    stamped(ts, "^C"@)
}

fn mk_crashed_line(ts: &str, code: i32) -> (r: String)
    ensures
        r@ == crashed_line(ts@, code as int),
{
    let tail = String::from_str("[ERR] Process crashed with exit code: ").concat(
        i64_to_string(code as i64).as_str(),
    );
    let r = stamp(ts, tail.as_str());
    proof {
        assert(tail@ =~= "[ERR] Process crashed with exit code: "@ + dec_int(code as int));
    }
    r
}

fn mk_restarting_line(ts: &str, attempt: u32) -> (r: String)
    ensures
        r@ == restarting_line(ts@, attempt),
{
    let tail = String::from_str("Restarting... (attempt ").concat(
        u64_to_string(attempt as u64).as_str(),
    ).concat("/").concat(u64_to_string(MAX_RESTART_ATTEMPTS as u64).as_str()).concat(")");
    let r = stamp(ts, tail.as_str());
    proof {
        assert(tail@ =~= "Restarting... (attempt "@ + dec_digits(attempt as nat) + "/"@
            + dec_digits(MAX_RESTART_ATTEMPTS as nat) + ")"@);
    }
    r
}

fn mk_wait_error_line(ts: &str, err: &str) -> (r: String)
    ensures
        r@ == wait_error_line(ts@, err@),
{
    let tail = String::from_str("[ERR] Failed to check process status: ").concat(err);
    let r = stamp(ts, tail.as_str());
    proof {
        assert(tail@ =~= "[ERR] Failed to check process status: "@ + err@);
    }
    r
}

fn mk_restart_failed_line(ts: &str, err: &str) -> (r: String)
    ensures
        r@ == restart_failed_line(ts@, err@),
{
    let tail = String::from_str("[ERR] Failed to restart: ").concat(err);
    let r = stamp(ts, tail.as_str());
    proof {
        assert(tail@ =~= "[ERR] Failed to restart: "@ + err@);
    }
    r
}

/// What the driver's poll of a child's exit status observed.
pub enum PollOutcome {
    /// The child is still alive.
    StillRunning,
    /// The child exited with this code.
    Exited(i32),
    /// The OS-level wait call itself failed; the payload is its message.
    WaitFailed(String),
}

/// Mathematical model of a poll observation.
pub ghost enum PollView {
    StillRunning,
    Exited(i32),
    WaitFailed(Seq<char>),
}

impl View for PollOutcome {
    type V = PollView;

    open spec fn view(&self) -> PollView {
        match self {
            PollOutcome::StillRunning => PollView::StillRunning,
            PollOutcome::Exited(code) => PollView::Exited(*code),
            PollOutcome::WaitFailed(e) => PollView::WaitFailed(e@),
        }
    }
}

/// A scheduled respawn: sleep the fixed backoff, then spawn this script.
pub struct RestartPlan {
    pub delay_ms: u64,
    pub script: String,
}

/// What the monitor loop must do after one poll was handled.
pub enum MonitorDirective {
    /// Keep polling.
    Continue,
    /// The supervision session is over; the loop terminates.
    Exit,
    /// Sleep the backoff, respawn, and report back.
    Restart(RestartPlan),
}

/// Mathematical model of a monitor directive.
pub ghost enum DirectiveView {
    Continue,
    Exit,
    Restart { delay_ms: u64, script: Seq<char> },
}

impl View for MonitorDirective {
    type V = DirectiveView;

    open spec fn view(&self) -> DirectiveView {
        match self {
            MonitorDirective::Continue => DirectiveView::Continue,
            MonitorDirective::Exit => DirectiveView::Exit,
            MonitorDirective::Restart(p) => DirectiveView::Restart {
                delay_ms: p.delay_ms,
                script: p.script@,
            },
        }
    }
}

/// Everything one poll-handling step produces: the new registry, the order
/// for the monitor loop, and the events owed to the sink.
pub ghost struct PollStep {
    pub procs: Map<Seq<char>, ProcView>,
    pub directive: DirectiveView,
    pub events: Seq<EventView>,
}

/// The whole crash-detection and restart policy, as one step function.
///
/// A record that is gone, not `Running`, or without a child ends the session.
/// A live child continues the loop. Exit code 0 settles the record in
/// `Stopped`. A nonzero exit is a crash: it earns a respawn exactly when the
/// policy flag is set and the restart counter is below the cap — the counter
/// is incremented and the record waits in `Restarting` while the driver
/// sleeps the backoff; otherwise the record settles in `Error` with its
/// counter untouched. A failed wait settles the record in `Error`.
pub open spec fn spec_handle_poll(
    m: Map<Seq<char>, ProcView>,
    id: Seq<char>,
    poll: PollView,
    ts: Seq<char>,
) -> PollStep {
    if !m.contains_key(id) || m[id].status != ProcessStatus::Running || m[id].child is None {
        PollStep { procs: m, directive: DirectiveView::Exit, events: Seq::empty() }
    } else {
        let r = m[id];
        match poll {
            PollView::StillRunning => PollStep {
                procs: m,
                directive: DirectiveView::Continue,
                events: Seq::empty(),
            },
            PollView::Exited(code) => if code == 0 {
                PollStep {
                    procs: m.insert(
                        id,
                        ProcView {
                            status: ProcessStatus::Stopped,
                            child: None,
                            logs: appended(r.logs, exited_normally_line(ts)),
                            ..r
                        },
                    ),
                    directive: DirectiveView::Exit,
                    events: seq![EventView::Status { id: id, status: "stopped"@ }],
                }
            } else {
                let crash_logs = appended(r.logs, crashed_line(ts, code as int));
                if r.restart_on_crash && r.restart_count < MAX_RESTART_ATTEMPTS {
                    let n = (r.restart_count + 1) as u32;
                    PollStep {
                        procs: m.insert(
                            id,
                            ProcView {
                                status: ProcessStatus::Restarting,
                                child: None,
                                restart_count: n,
                                logs: appended(crash_logs, restarting_line(ts, n)),
                                ..r
                            },
                        ),
                        directive: DirectiveView::Restart {
                            delay_ms: RESTART_DELAY_MS,
                            script: script_view(r.path, r.commands),
                        },
                        events: seq![
                            EventView::Crash { id: id, restart_count: n, will_restart: true },
                            EventView::Status { id: id, status: "restarting"@ },
                        ],
                    }
                } else {
                    let final_logs = if r.restart_count >= MAX_RESTART_ATTEMPTS {
                        appended(crash_logs, gave_up_line(ts))
                    } else {
                        crash_logs
                    };
                    PollStep {
                        procs: m.insert(
                            id,
                            ProcView {
                                status: ProcessStatus::Error,
                                child: None,
                                logs: final_logs,
                                ..r
                            },
                        ),
                        directive: DirectiveView::Exit,
                        events: seq![
                            EventView::Crash {
                                id: id,
                                restart_count: r.restart_count,
                                will_restart: false,
                            },
                            EventView::Status { id: id, status: "error"@ },
                        ],
                    }
                }
            },
            PollView::WaitFailed(err) => PollStep {
                procs: m.insert(
                    id,
                    ProcView {
                        status: ProcessStatus::Error,
                        child: None,
                        logs: appended(r.logs, wait_error_line(ts, err)),
                        ..r
                    },
                ),
                directive: DirectiveView::Exit,
                events: Seq::empty(),
            },
        }
    }
}

/// What recording a successful respawn does: the record (if still there)
/// returns to `Running` with the new child, keeping the already-incremented
/// restart counter; one `running` status event is owed.
pub open spec fn spec_respawn_success(
    m: Map<Seq<char>, ProcView>,
    id: Seq<char>,
    pid: u32,
    has_stdin: bool,
    ts: Seq<char>,
) -> (Map<Seq<char>, ProcView>, Seq<EventView>) {
    if m.contains_key(id) {
        (
            m.insert(
                id,
                ProcView {
                    status: ProcessStatus::Running,
                    child: Some(pid),
                    has_stdin: has_stdin,
                    logs: appended(m[id].logs, restarted_line(ts)),
                    ..m[id]
                },
            ),
            seq![EventView::Status { id: id, status: "running"@ }],
        )
    } else {
        (m, Seq::empty())
    }
}

/// What recording a failed respawn does: the record (if still there) settles
/// in `Error` with the failure logged; one `error` status event is owed.
pub open spec fn spec_respawn_failure(
    m: Map<Seq<char>, ProcView>,
    id: Seq<char>,
    err: Seq<char>,
    ts: Seq<char>,
) -> (Map<Seq<char>, ProcView>, Seq<EventView>) {
    if m.contains_key(id) {
        (
            m.insert(
                id,
                ProcView {
                    status: ProcessStatus::Error,
                    child: None,
                    logs: appended(m[id].logs, restart_failed_line(ts, err)),
                    ..m[id]
                },
            ),
            seq![EventView::Status { id: id, status: "error"@ }],
        )
    } else {
        (m, Seq::empty())
    }
}

/// What appending one scrollback line does to the registry; an unknown id
/// changes nothing.
pub open spec fn spec_append_line(
    m: Map<Seq<char>, ProcView>,
    id: Seq<char>,
    line: Seq<char>,
) -> Map<Seq<char>, ProcView> {
    if m.contains_key(id) {
        m.insert(id, ProcView { logs: appended(m[id].logs, line), ..m[id] })
    } else {
        m
    }
}

/// What shutdown does to one record: a record with a live child is stopped
/// exactly as an explicit stop would; any other record is left alone.
pub open spec fn stopped_rec(r: ProcView) -> ProcView {
    if r.child is Some {
        ProcView {
            status: ProcessStatus::Stopped,
            child: None,
            has_stdin: false,
            restart_count: 0,
            ..r
        }
    } else {
        r
    }
}

/// Builds a status-changed event carrying the status label.
fn status_event(project_id: &str, st: ProcessStatus) -> (e: Event)
    ensures
        e@ == (EventView::Status { id: project_id@, status: status_label_view(st) }),
{
    Event::Status(
        StatusPayload { project_id: String::from_str(project_id), status: status_label(&st) },
    )
}

/// Builds a status-changed event from an owned id.
fn status_event_owned(project_id: &String, st: ProcessStatus) -> (e: Event)
    ensures
        e@ == (EventView::Status { id: project_id@, status: status_label_view(st) }),
{
    Event::Status(StatusPayload { project_id: project_id.clone(), status: status_label(&st) })
}

/// Builds a log-appended event carrying the full scrollback line.
fn log_event(project_id: &str, line: String) -> (e: Event)
    ensures
        e@ == (EventView::Log { id: project_id@, line: line@ }),
{
    Event::Log(LogPayload { project_id: String::from_str(project_id), log: line })
}

/// Builds a crash event carrying the restart bookkeeping.
fn crash_event(project_id: &str, restart_count: u32, will_restart: bool) -> (e: Event)
    ensures
        e@ == (EventView::Crash { id: project_id@, restart_count, will_restart }),
{
    Event::Crash(
        CrashPayload { project_id: String::from_str(project_id), restart_count, will_restart },
    )
}

/// Every record's live child is among the pids handed to the driver.
pub open spec fn live_children_all_killed(m: Map<Seq<char>, ProcView>, pids: Seq<u32>) -> bool {
    forall|k: Seq<char>|
        #![trigger m[k]]
        m.contains_key(k) && m[k].child is Some ==> exists|j: int|
            #![trigger pids[j]]
            0 <= j < pids.len() && pids[j] == m[k].child.unwrap()
}

/// Every record that had a live child gets its `stopped` status event.
pub open spec fn stop_events_complete(m: Map<Seq<char>, ProcView>, evs: Seq<Event>) -> bool {
    forall|k: Seq<char>|
        #![trigger m[k]]
        m.contains_key(k) && m[k].child is Some ==> exists|j: int|
            #![trigger evs[j]]
            0 <= j < evs.len() && evs[j]@ == (EventView::Status { id: k, status: "stopped"@ })
}

proof fn lemma_pids_complete(
    pre: Seq<ProcessInfo>,
    pids: Seq<u32>,
    hit: Seq<int>,
    slot: Map<int, int>,
)
    requires
        ids_unique(pre),
        hit.len() == pids.len(),
        forall|j: int|
            0 <= j < pids.len() ==> 0 <= #[trigger] hit[j] < pre.len() && pre[hit[j]]@.child
                == Some(pids[j]),
        forall|idx: int|
            0 <= idx < pre.len() && (#[trigger] pre[idx])@.child is Some ==> {
                &&& slot.contains_key(idx)
                &&& 0 <= slot[idx] < pids.len()
                &&& hit[slot[idx]] == idx
            },
    ensures
        live_children_all_killed(procs_map(pre), pids),
{
    assert forall|k: Seq<char>| #![trigger procs_map(pre)[k]]
        procs_map(pre).contains_key(k) && procs_map(pre)[k].child is Some implies exists|j: int|
        #![trigger pids[j]]
        0 <= j < pids.len() && pids[j] == procs_map(pre)[k].child.unwrap() by {
        lemma_procs_map_contains(pre, k);
        let idx = choose|idx: int| 0 <= idx < pre.len() && (#[trigger] pre[idx]).project_id@ == k;
        lemma_procs_map_index(pre, idx);
        let j = slot[idx];
        assert(0 <= j < pids.len() && pids[j] == procs_map(pre)[k].child.unwrap());
    }
}

proof fn lemma_evs_complete(
    pre: Seq<ProcessInfo>,
    evs: Seq<Event>,
    hit: Seq<int>,
    slot: Map<int, int>,
)
    requires
        ids_unique(pre),
        hit.len() == evs.len(),
        forall|j: int|
            0 <= j < evs.len() ==> {
                &&& 0 <= #[trigger] hit[j] < pre.len()
                &&& evs[j]@ == (EventView::Status {
                    id: pre[hit[j]].project_id@,
                    status: "stopped"@,
                })
            },
        forall|idx: int|
            0 <= idx < pre.len() && (#[trigger] pre[idx])@.child is Some ==> {
                &&& slot.contains_key(idx)
                &&& 0 <= slot[idx] < evs.len()
                &&& hit[slot[idx]] == idx
            },
    ensures
        stop_events_complete(procs_map(pre), evs),
{
    assert forall|k: Seq<char>| #![trigger procs_map(pre)[k]]
        procs_map(pre).contains_key(k) && procs_map(pre)[k].child is Some implies exists|j: int|
        #![trigger evs[j]]
        0 <= j < evs.len() && evs[j]@ == (EventView::Status { id: k, status: "stopped"@ }) by {
        lemma_procs_map_contains(pre, k);
        let idx = choose|idx: int| 0 <= idx < pre.len() && (#[trigger] pre[idx]).project_id@ == k;
        lemma_procs_map_index(pre, idx);
        let j = slot[idx];
        assert(0 <= j < evs.len() && evs[j]@ == (EventView::Status { id: k, status: "stopped"@ }));
    }
}

/// Concurrency-safe (behind the driver's lock) registry of process records
/// and the decision core of the supervisor.
pub struct ProcessManager {
    processes: Vec<ProcessInfo>,
}

impl Default for ProcessManager {
    /// The same empty registry [`ProcessManager::new`] builds.
    fn default() -> (r: Self)
        ensures
            r.wf(),
            r@ == Map::<Seq<char>, ProcView>::empty(),
    {
        ProcessManager::new()
    }
}

impl View for ProcessManager {
    type V = Map<Seq<char>, ProcView>;

    closed spec fn view(&self) -> Map<Seq<char>, ProcView> {
        procs_map(self.processes@)
    }
}

impl ProcessManager {
    /// Registry invariant: ids are unique and every record is well formed.
    pub closed spec fn wf(&self) -> bool {
        &&& ids_unique(self.processes@)
        &&& forall|i: int| 0 <= i < self.processes@.len() ==> (#[trigger] self.processes@[i]).inv()
    }

    /// Every record of a well-formed manager satisfies the record invariant.
    pub proof fn lemma_wf_rec_inv(&self, k: Seq<char>)
        requires
            self.wf(),
            self@.contains_key(k),
        ensures
            rec_inv(self@[k]),
    {
        lemma_procs_map_contains(self.processes@, k);
        let i = choose|i: int|
            0 <= i < self.processes@.len() && (#[trigger] self.processes@[i]).project_id@ == k;
        lemma_procs_map_index(self.processes@, i);
    }

    /// A manager with no records: nothing was ever started.
    pub fn new() -> (r: Self)
        ensures
            r.wf(),
            r@ == Map::<Seq<char>, ProcView>::empty(),
    {
        let r = ProcessManager { processes: Vec::new() };
        proof {
            assert(r@ =~= Map::<Seq<char>, ProcView>::empty());
        }
        r
    }

    /// Index of the record for `id`, if one exists.
    fn find(&self, id: &String) -> (r: Option<usize>)
        requires
            self.wf(),
        ensures
            match r {
                Some(i) => {
                    &&& i < self.processes@.len()
                    &&& self.processes@[i as int].project_id@ == id@
                    &&& self@.contains_key(id@)
                    &&& self@[id@] == self.processes@[i as int]@
                },
                None => !self@.contains_key(id@),
            },
    {
        let mut i: usize = 0;
        while i < self.processes.len()
            invariant
                self.wf(),
                i <= self.processes@.len(),
                forall|j: int| 0 <= j < i ==> (#[trigger] self.processes@[j]).project_id@ != id@,
            decreases self.processes@.len() - i,
        {
            if self.processes[i].project_id == *id {
                proof {
                    lemma_procs_map_index(self.processes@, i as int);
                }
                return Some(i);
            }
            i += 1;
        }
        proof {
            lemma_procs_map_contains(self.processes@, id@);
        }
        None
    }

    /// Current status of a project; `Stopped` for one never started.
    pub fn get_status(&self, project_id: &str) -> (r: ProcessStatus)
        requires
            self.wf(),
        ensures
            r == status_of(self@, project_id@),
    {
        let key = String::from_str(project_id);
        match self.find(&key) {
            Some(i) => self.processes[i].status,
            None => ProcessStatus::Stopped,
        }
    }

    /// Whether a project currently has a running child.
    pub fn is_running(&self, project_id: &str) -> (r: bool)
        requires
            self.wf(),
        ensures
            r == (status_of(self@, project_id@) == ProcessStatus::Running),
    {
        let s = self.get_status(project_id);
        s == ProcessStatus::Running
    }

    /// Crash-restart counter of a project; 0 for one never started.
    pub fn get_restart_count(&self, project_id: &str) -> (r: u32)
        requires
            self.wf(),
        ensures
            r == restart_count_of(self@, project_id@),
    {
        let key = String::from_str(project_id);
        match self.find(&key) {
            Some(i) => self.processes[i].restart_count,
            None => 0,
        }
    }

    /// Decides a start request. A live process is never started twice: the
    /// request is refused exactly when the project is `Running`. Nothing is
    /// mutated here; on success the driver spawns the planned script and
    /// reports back through [`Self::apply_spawn_success`].
    pub fn start_project(
        &self,
        project_id: &str,
        path: &str,
        commands: &Vec<String>,
        restart_on_crash: bool,
    ) -> (r: Result<LaunchPlan, ProcError>)
        requires
            self.wf(),
        ensures
            match r {
                Ok(plan) => {
                    &&& status_of(self@, project_id@) != ProcessStatus::Running
                    &&& plan.script@ == script_view(path@, commands.deep_view())
                },
                Err(e) => {
                    &&& status_of(self@, project_id@) == ProcessStatus::Running
                    &&& e is AlreadyRunning
                },
            },
    {
        let _ = restart_on_crash;
        if self.get_status(project_id) == ProcessStatus::Running {
            return Err(ProcError::AlreadyRunning);
        }
        Ok(LaunchPlan { script: build_script(path, commands) })
    }

    /// Records a successful spawn for an explicit start: the record (created
    /// on first start) becomes `Running` with the new child, the restart
    /// counter is reset, the retained command spec is replaced, and the
    /// scrollback is kept. One `running` status event is owed.
    pub fn apply_spawn_success(
        &mut self,
        project_id: &str,
        path: &str,
        commands: &Vec<String>,
        restart_on_crash: bool,
        pid: u32,
        has_stdin: bool,
    ) -> (evs: Vec<Event>)
        requires
            old(self).wf(),
            status_of(old(self)@, project_id@) != ProcessStatus::Running,
        ensures
            final(self).wf(),
            final(self)@ == spec_apply_spawn(
                old(self)@,
                project_id@,
                path@,
                commands.deep_view(),
                restart_on_crash,
                pid,
                has_stdin,
            ),
            crate::events::events_view(evs@) == seq![
                EventView::Status { id: project_id@, status: "running"@ },
            ],
    {
        let key = String::from_str(project_id);
        match self.find(&key) {
            Some(i) => {
                let ghost pre = self.processes@;
                let mut info = ProcessInfo::new(String::new(), String::new(), Vec::new(), false);
                self.processes.set_and_swap(i, &mut info);
                info.status = ProcessStatus::Running;
                info.child = Some(pid);
                info.has_stdin = has_stdin;
                info.restart_count = 0;
                info.restart_on_crash = restart_on_crash;
                info.path = String::from_str(path);
                info.commands = clone_strings(commands);
                self.processes.set(i, info);
                proof {
                    assert(self.processes@ =~= pre.update(i as int, info));
                    lemma_procs_map_update(pre, i as int, info);
                }
            },
            None => {
                let ghost pre = self.processes@;
                let info = ProcessInfo {
                    project_id: key,
                    child: Some(pid),
                    has_stdin,
                    status: ProcessStatus::Running,
                    logs: LogBuffer::new(),
                    restart_count: 0,
                    restart_on_crash,
                    path: String::from_str(path),
                    commands: clone_strings(commands),
                };
                proof {
                    lemma_procs_map_contains(pre, project_id@);
                }
                self.processes.push(info);
                proof {
                    lemma_procs_map_push(pre, info);
                    assert(logs_of(old(self)@, project_id@) =~= Seq::<Seq<char>>::empty());
                }
            },
        }
        let mut evs: Vec<Event> = Vec::new();
        evs.push(status_event(project_id, ProcessStatus::Running));
        proof {
            assert(crate::events::events_view(evs@) =~= seq![
                EventView::Status { id: project_id@, status: "running"@ },
            ]);
        }
        evs
    }

    /// Stops a project: the record (if any) is reset to `Stopped` with the
    /// handle cleared, the stdin writer dropped and the restart counter
    /// zeroed, and the driver is told which child to kill. Idempotent:
    /// stopping an unknown or already-stopped project changes nothing.
    pub fn stop_project(&mut self, project_id: &str) -> (r: (Option<u32>, Vec<Event>))
        requires
            old(self).wf(),
        ensures
            final(self).wf(),
            final(self)@ == spec_stop(old(self)@, project_id@),
            r.0 == (if old(self)@.contains_key(project_id@) {
                old(self)@[project_id@].child
            } else {
                None::<u32>
            }),
            crate::events::events_view(r.1@) == (if old(self)@.contains_key(project_id@) {
                seq![EventView::Status { id: project_id@, status: "stopped"@ }]
            } else {
                Seq::<EventView>::empty()
            }),
    {
        let key = String::from_str(project_id);
        match self.find(&key) {
            Some(i) => {
                let ghost pre = self.processes@;
                let mut info = ProcessInfo::new(String::new(), String::new(), Vec::new(), false);
                self.processes.set_and_swap(i, &mut info);
                let pid = info.child;
                info.status = ProcessStatus::Stopped;
                info.child = None;
                info.has_stdin = false;
                info.restart_count = 0;
                self.processes.set(i, info);
                proof {
                    assert(self.processes@ =~= pre.update(i as int, info));
                    lemma_procs_map_update(pre, i as int, info);
                }
                let mut evs: Vec<Event> = Vec::new();
                evs.push(status_event(project_id, ProcessStatus::Stopped));
                proof {
                    assert(crate::events::events_view(evs@) =~= seq![
                        EventView::Status { id: project_id@, status: "stopped"@ },
                    ]);
                }
                (pid, evs)
            },
            None => {
                let evs: Vec<Event> = Vec::new();
                proof {
                    assert(crate::events::events_view(evs@) =~= Seq::<EventView>::empty());
                }
                (None, evs)
            },
        }
    }

    /// Handles one observation of the monitor loop's poll, making every
    /// crash-detection and restart-policy decision; see [`spec_handle_poll`]
    /// for the exact step it takes.
    pub fn handle_poll(&mut self, project_id: &str, poll: &PollOutcome, ts: &str) -> (r: (
        MonitorDirective,
        Vec<Event>,
    ))
        requires
            old(self).wf(),
        ensures
            final(self).wf(),
            final(self)@ == spec_handle_poll(old(self)@, project_id@, poll@, ts@).procs,
            r.0@ == spec_handle_poll(old(self)@, project_id@, poll@, ts@).directive,
            crate::events::events_view(r.1@) == spec_handle_poll(
                old(self)@,
                project_id@,
                poll@,
                ts@,
            ).events,
    {
        let no_events: Vec<Event> = Vec::new();
        proof {
            assert(crate::events::events_view(no_events@) =~= Seq::<EventView>::empty());
        }
        let key = String::from_str(project_id);
        let i = match self.find(&key) {
            Some(i) => i,
            None => {
                return (MonitorDirective::Exit, no_events);
            },
        };
        if self.processes[i].status != ProcessStatus::Running {
            return (MonitorDirective::Exit, no_events);
        }
        if self.processes[i].child.is_none() {
            return (MonitorDirective::Exit, no_events);
        }
        match poll {
            PollOutcome::StillRunning => (MonitorDirective::Continue, no_events),
            PollOutcome::Exited(code) => {
                let code = *code;
                let ghost pre = self.processes@;
                let mut info = ProcessInfo::new(String::new(), String::new(), Vec::new(), false);
                self.processes.set_and_swap(i, &mut info);
                if code == 0 {
                    info.add_log(stamp(ts, "Process exited normally"));
                    info.status = ProcessStatus::Stopped;
                    info.child = None;
                    self.processes.set(i, info);
                    proof {
                        assert(self.processes@ =~= pre.update(i as int, info));
                        lemma_procs_map_update(pre, i as int, info);
                    }
                    let mut evs: Vec<Event> = Vec::new();
                    evs.push(status_event(project_id, ProcessStatus::Stopped));
                    proof {
                        assert(crate::events::events_view(evs@) =~= seq![
                            EventView::Status { id: project_id@, status: "stopped"@ },
                        ]);
                    }
                    (MonitorDirective::Exit, evs)
                } else {
                    info.add_log(mk_crashed_line(ts, code));
                    let will_restart = info.restart_on_crash && info.restart_count
                        < MAX_RESTART_ATTEMPTS;
                    if will_restart {
                        let n = info.restart_count + 1;
                        info.status = ProcessStatus::Restarting;
                        info.child = None;
                        info.restart_count = n;
                        info.add_log(mk_restarting_line(ts, n));
                        let script = build_script(info.path.as_str(), &info.commands);
                        self.processes.set(i, info);
                        proof {
                            assert(self.processes@ =~= pre.update(i as int, info));
                            lemma_procs_map_update(pre, i as int, info);
                        }
                        let mut evs: Vec<Event> = Vec::new();
                        evs.push(crash_event(project_id, n, true));
                        evs.push(status_event(project_id, ProcessStatus::Restarting));
                        proof {
                            assert(crate::events::events_view(evs@) =~= seq![
                                EventView::Crash {
                                    id: project_id@,
                                    restart_count: n,
                                    will_restart: true,
                                },
                                EventView::Status { id: project_id@, status: "restarting"@ },
                            ]);
                        }
                        (
                            MonitorDirective::Restart(
                                RestartPlan { delay_ms: RESTART_DELAY_MS, script },
                            ),
                            evs,
                        )
                    } else {
                        let count = info.restart_count;
                        info.status = ProcessStatus::Error;
                        info.child = None;
                        if count >= MAX_RESTART_ATTEMPTS {
                            info.add_log(stamp(ts, "[ERR] Max restart attempts reached. Giving up."));
                        }
                        self.processes.set(i, info);
                        proof {
                            assert(self.processes@ =~= pre.update(i as int, info));
                            lemma_procs_map_update(pre, i as int, info);
                        }
                        let mut evs: Vec<Event> = Vec::new();
                        evs.push(crash_event(project_id, count, false));
                        evs.push(status_event(project_id, ProcessStatus::Error));
                        proof {
                            assert(crate::events::events_view(evs@) =~= seq![
                                EventView::Crash {
                                    id: project_id@,
                                    restart_count: count,
                                    will_restart: false,
                                },
                                EventView::Status { id: project_id@, status: "error"@ },
                            ]);
                        }
                        (MonitorDirective::Exit, evs)
                    }
                }
            },
            PollOutcome::WaitFailed(err) => {
                let ghost pre = self.processes@;
                let mut info = ProcessInfo::new(String::new(), String::new(), Vec::new(), false);
                self.processes.set_and_swap(i, &mut info);
                info.add_log(mk_wait_error_line(ts, err.as_str()));
                info.status = ProcessStatus::Error;
                info.child = None;
                self.processes.set(i, info);
                proof {
                    assert(self.processes@ =~= pre.update(i as int, info));
                    lemma_procs_map_update(pre, i as int, info);
                }
                (MonitorDirective::Exit, no_events)
            },
        }
    }

    /// Records a successful respawn after a crash; see
    /// [`spec_respawn_success`] for the exact step.
    pub fn apply_respawn_success(
        &mut self,
        project_id: &str,
        pid: u32,
        has_stdin: bool,
        ts: &str,
    ) -> (evs: Vec<Event>)
        requires
            old(self).wf(),
        ensures
            final(self).wf(),
            final(self)@ == spec_respawn_success(old(self)@, project_id@, pid, has_stdin, ts@).0,
            crate::events::events_view(evs@) == spec_respawn_success(
                old(self)@,
                project_id@,
                pid,
                has_stdin,
                ts@,
            ).1,
    {
        let key = String::from_str(project_id);
        match self.find(&key) {
            Some(i) => {
                let ghost pre = self.processes@;
                let mut info = ProcessInfo::new(String::new(), String::new(), Vec::new(), false);
                self.processes.set_and_swap(i, &mut info);
                info.add_log(stamp(ts, "Process restarted successfully"));
                info.status = ProcessStatus::Running;
                info.child = Some(pid);
                info.has_stdin = has_stdin;
                self.processes.set(i, info);
                proof {
                    assert(self.processes@ =~= pre.update(i as int, info));
                    lemma_procs_map_update(pre, i as int, info);
                }
                let mut evs: Vec<Event> = Vec::new();
                evs.push(status_event(project_id, ProcessStatus::Running));
                proof {
                    assert(crate::events::events_view(evs@) =~= seq![
                        EventView::Status { id: project_id@, status: "running"@ },
                    ]);
                }
                evs
            },
            None => {
                let evs: Vec<Event> = Vec::new();
                proof {
                    assert(crate::events::events_view(evs@) =~= Seq::<EventView>::empty());
                }
                evs
            },
        }
    }

    /// Records a failed respawn after a crash; see [`spec_respawn_failure`]
    /// for the exact step.
    pub fn apply_respawn_failure(&mut self, project_id: &str, err: &str, ts: &str) -> (evs: Vec<
        Event,
    >)
        requires
            old(self).wf(),
        ensures
            final(self).wf(),
            final(self)@ == spec_respawn_failure(old(self)@, project_id@, err@, ts@).0,
            crate::events::events_view(evs@) == spec_respawn_failure(
                old(self)@,
                project_id@,
                err@,
                ts@,
            ).1,
    {
        let key = String::from_str(project_id);
        match self.find(&key) {
            Some(i) => {
                let ghost pre = self.processes@;
                let mut info = ProcessInfo::new(String::new(), String::new(), Vec::new(), false);
                self.processes.set_and_swap(i, &mut info);
                info.add_log(mk_restart_failed_line(ts, err));
                info.status = ProcessStatus::Error;
                info.child = None;
                self.processes.set(i, info);
                proof {
                    assert(self.processes@ =~= pre.update(i as int, info));
                    lemma_procs_map_update(pre, i as int, info);
                }
                let mut evs: Vec<Event> = Vec::new();
                evs.push(status_event(project_id, ProcessStatus::Error));
                proof {
                    assert(crate::events::events_view(evs@) =~= seq![
                        EventView::Status { id: project_id@, status: "error"@ },
                    ]);
                }
                evs
            },
            None => {
                let evs: Vec<Event> = Vec::new();
                proof {
                    assert(crate::events::events_view(evs@) =~= Seq::<EventView>::empty());
                }
                evs
            },
        }
    }

    /// Empties a project's scrollback; a no-op for an unknown project.
    pub fn clear_logs(&mut self, project_id: &str)
        requires
            old(self).wf(),
        ensures
            final(self).wf(),
            final(self)@ == spec_clear_logs(old(self)@, project_id@),
    {
        let key = String::from_str(project_id);
        match self.find(&key) {
            Some(i) => {
                let ghost pre = self.processes@;
                let mut info = ProcessInfo::new(String::new(), String::new(), Vec::new(), false);
                self.processes.set_and_swap(i, &mut info);
                info.logs.clear();
                self.processes.set(i, info);
                proof {
                    assert(self.processes@ =~= pre.update(i as int, info));
                    lemma_procs_map_update(pre, i as int, info);
                    assert(self@ =~= spec_clear_logs(old(self)@, project_id@));
                }
            },
            None => {},
        }
    }

    /// Stops every record with a live child, exactly as [`Self::stop_project`]
    /// would, and tells the driver which children to kill; records without a
    /// live child are left alone. Used at shutdown. The ghost result names,
    /// position by position, the project each killed pid and each `stopped`
    /// event belongs to.
    #[verifier::rlimit(100)]
    pub fn stop_all(&mut self) -> (r: (Vec<u32>, Vec<Event>, Ghost<Seq<Seq<char>>>))
        requires
            old(self).wf(),
        ensures
            final(self).wf(),
            final(self)@.dom() == old(self)@.dom(),
            forall|k: Seq<char>|
                old(self)@.contains_key(k) ==> final(self)@[k] == stopped_rec(
                    #[trigger] old(self)@[k],
                ),
            r.1@.len() == r.0@.len(),
            r.2@.len() == r.0@.len(),
            forall|j: int|
                #![trigger r.2@[j]]
                0 <= j < r.0@.len() ==> {
                    &&& old(self)@.contains_key(r.2@[j])
                    &&& old(self)@[r.2@[j]].child == Some(r.0@[j])
                    &&& r.1@[j]@ == (EventView::Status { id: r.2@[j], status: "stopped"@ })
                },
            live_children_all_killed(old(self)@, r.0@),
            stop_events_complete(old(self)@, r.1@),
    {
        let ghost pre = self.processes@;
        let mut pids: Vec<u32> = Vec::new();
        let mut evs: Vec<Event> = Vec::new();
        let ghost mut hit: Seq<int> = Seq::empty();
        let ghost mut gids: Seq<Seq<char>> = Seq::empty();
        let ghost mut slot: Map<int, int> = Map::empty();
        let mut i: usize = 0;
        while i < self.processes.len()
            invariant
                ids_unique(pre),
                forall|idx: int| 0 <= idx < pre.len() ==> (#[trigger] pre[idx]).inv(),
                i <= pre.len(),
                self.processes@.len() == pre.len(),
                forall|idx: int|
                    0 <= idx < pre.len() ==> (#[trigger] self.processes@[idx]).project_id
                        == pre[idx].project_id,
                forall|idx: int|
                    i <= idx < pre.len() ==> #[trigger] self.processes@[idx] == pre[idx],
                forall|idx: int|
                    0 <= idx < i ==> (#[trigger] self.processes@[idx])@ == stopped_rec(pre[idx]@),
                forall|idx: int|
                    0 <= idx < pre.len() ==> (#[trigger] self.processes@[idx]).inv(),
                evs@.len() == pids@.len(),
                hit.len() == pids@.len(),
                gids.len() == pids@.len(),
                forall|j: int|
                    0 <= j < pids@.len() ==> #[trigger] gids[j] == pre[hit[j]].project_id@,
                forall|j: int|
                    0 <= j < pids@.len() ==> {
                        &&& 0 <= #[trigger] hit[j] < i
                        &&& pre[hit[j]]@.child == Some(pids@[j])
                        &&& evs@[j]@ == (EventView::Status {
                            id: pre[hit[j]].project_id@,
                            status: "stopped"@,
                        })
                    },
                forall|idx: int|
                    0 <= idx < i && (#[trigger] pre[idx])@.child is Some ==> {
                        &&& slot.contains_key(idx)
                        &&& 0 <= slot[idx] < pids@.len()
                        &&& hit[slot[idx]] == idx
                    },
            decreases pre.len() - i,
        {
            if self.processes[i].child.is_some() {
                let ghost mid = self.processes@;
                let mut info = ProcessInfo::new(String::new(), String::new(), Vec::new(), false);
                self.processes.set_and_swap(i, &mut info);
                let pid = info.child.unwrap();
                pids.push(pid);
                let ev = status_event_owned(&info.project_id, ProcessStatus::Stopped);
                evs.push(ev);
                info.status = ProcessStatus::Stopped;
                info.child = None;
                info.has_stdin = false;
                info.restart_count = 0;
                self.processes.set(i, info);
                proof {
                    hit = hit.push(i as int);
                    gids = gids.push(pre[i as int].project_id@);
                    slot = slot.insert(i as int, pids@.len() - 1);
                    assert(self.processes@ =~= mid.update(i as int, info));
                    assert(self.processes@[i as int]@ == stopped_rec(pre[i as int]@));
                    assert(pre[hit[pids@.len() - 1]]@.child == Some(pids@[pids@.len() - 1]));
                }
            } else {
                proof {
                    assert(self.processes@[i as int]@ == stopped_rec(pre[i as int]@));
                }
            }
            i += 1;
        }
        proof {
            let post = self.processes@;
            assert forall|k: Seq<char>| old(self)@.contains_key(k) <==> self@.contains_key(k) by {
                lemma_procs_map_contains(pre, k);
                lemma_procs_map_contains(post, k);
                if old(self)@.contains_key(k) {
                    let idx = choose|idx: int|
                        0 <= idx < pre.len() && (#[trigger] pre[idx]).project_id@ == k;
                    assert(post[idx].project_id@ == k);
                }
                if self@.contains_key(k) {
                    let idx = choose|idx: int|
                        0 <= idx < post.len() && (#[trigger] post[idx]).project_id@ == k;
                    assert(pre[idx].project_id@ == k);
                }
            }
            assert(self@.dom() =~= old(self)@.dom());
            assert forall|k: Seq<char>| old(self)@.contains_key(k) implies self@[k] == stopped_rec(
                old(self)@[k],
            ) by {
                lemma_procs_map_contains(pre, k);
                let idx = choose|idx: int|
                    0 <= idx < pre.len() && (#[trigger] pre[idx]).project_id@ == k;
                lemma_procs_map_index(pre, idx);
                lemma_procs_map_index(post, idx);
            }
            lemma_pids_complete(pre, pids@, hit, slot);
            lemma_evs_complete(pre, evs@, hit, slot);
            assert forall|j: int| #![trigger gids[j]] 0 <= j < pids@.len() implies {
                &&& old(self)@.contains_key(gids[j])
                &&& old(self)@[gids[j]].child == Some(pids@[j])
                &&& evs@[j]@ == (EventView::Status { id: gids[j], status: "stopped"@ })
            } by {
                lemma_procs_map_index(pre, hit[j]);
            }
        }
        (pids, evs, Ghost(gids))
    }

    /// Gate for sending text to a child's stdin: permitted exactly while the
    /// process is `Running` and its stdin writer is retained.
    pub fn check_send_input(&self, project_id: &str) -> (r: Result<(), ProcError>)
        requires
            self.wf(),
        ensures
            match r {
                Ok(()) => {
                    &&& self@.contains_key(project_id@)
                    &&& self@[project_id@].status == ProcessStatus::Running
                    &&& self@[project_id@].has_stdin
                },
                Err(e) => match e {
                    ProcError::NotFound => !self@.contains_key(project_id@),
                    ProcError::NotRunning => self@.contains_key(project_id@)
                        && self@[project_id@].status != ProcessStatus::Running,
                    ProcError::IoError(m) => {
                        &&& self@.contains_key(project_id@)
                        &&& self@[project_id@].status == ProcessStatus::Running
                        &&& !self@[project_id@].has_stdin
                        &&& m@ == "No stdin handle available for this process"@
                    },
                    _ => false,
                },
            },
    {
        let key = String::from_str(project_id);
        match self.find(&key) {
            None => Err(ProcError::NotFound),
            Some(i) => {
                if self.processes[i].status != ProcessStatus::Running {
                    Err(ProcError::NotRunning)
                } else if !self.processes[i].has_stdin {
                    Err(
                        ProcError::IoError(
                            String::from_str("No stdin handle available for this process"),
                        ),
                    )
                } else {
                    Ok(())
                }
            },
        }
    }

    /// Gate for sending an interrupt to a child: the same precondition as
    /// [`Self::check_send_input`].
    pub fn check_send_interrupt(&self, project_id: &str) -> (r: Result<(), ProcError>)
        requires
            self.wf(),
        ensures
            match r {
                Ok(()) => {
                    &&& self@.contains_key(project_id@)
                    &&& self@[project_id@].status == ProcessStatus::Running
                    &&& self@[project_id@].has_stdin
                },
                Err(e) => match e {
                    ProcError::NotFound => !self@.contains_key(project_id@),
                    ProcError::NotRunning => self@.contains_key(project_id@)
                        && self@[project_id@].status != ProcessStatus::Running,
                    ProcError::IoError(m) => {
                        &&& self@.contains_key(project_id@)
                        &&& self@[project_id@].status == ProcessStatus::Running
                        &&& !self@[project_id@].has_stdin
                        &&& m@ == "No stdin handle available"@
                    },
                    _ => false,
                },
            },
    {
        let key = String::from_str(project_id);
        match self.find(&key) {
            None => Err(ProcError::NotFound),
            Some(i) => {
                if self.processes[i].status != ProcessStatus::Running {
                    Err(ProcError::NotRunning)
                } else if !self.processes[i].has_stdin {
                    Err(ProcError::IoError(String::from_str("No stdin handle available")))
                } else {
                    Ok(())
                }
            },
        }
    }

    /// Appends one already-built scrollback line for a project (if a record
    /// exists) and returns the matching log event.
    fn append_line(&mut self, project_id: &str, line: String) -> (evs: Vec<Event>)
        requires
            old(self).wf(),
        ensures
            final(self).wf(),
            final(self)@ == spec_append_line(old(self)@, project_id@, line@),
            crate::events::events_view(evs@) == seq![
                EventView::Log { id: project_id@, line: line@ },
            ],
    {
        let key = String::from_str(project_id);
        match self.find(&key) {
            Some(i) => {
                let ghost pre = self.processes@;
                let mut info = ProcessInfo::new(String::new(), String::new(), Vec::new(), false);
                self.processes.set_and_swap(i, &mut info);
                info.add_log(line.clone());
                self.processes.set(i, info);
                proof {
                    assert(self.processes@ =~= pre.update(i as int, info));
                    lemma_procs_map_update(pre, i as int, info);
                }
            },
            None => {},
        }
        let mut evs: Vec<Event> = Vec::new();
        evs.push(log_event(project_id, line));
        proof {
            assert(crate::events::events_view(evs@) =~= seq![
                EventView::Log { id: project_id@, line: line@ },
            ]);
        }
        evs
    }

    /// Records one line read from the child's stdout or stderr: it is
    /// timestamp-prefixed, stored in the project's scrollback, and returned
    /// as a log event for the sink.
    pub fn record_output_line(&mut self, project_id: &str, line: &str, ts: &str) -> (evs: Vec<
        Event,
    >)
        requires
            old(self).wf(),
        ensures
            final(self).wf(),
            final(self)@ == spec_append_line(old(self)@, project_id@, stamped(ts@, line@)),
            crate::events::events_view(evs@) == seq![
                EventView::Log { id: project_id@, line: stamped(ts@, line@) },
            ],
    {
        let full = stamp(ts, line);
        self.append_line(project_id, full)
    }

    /// Records one output line stamped with the current wall-clock time.
    pub fn record_output_line_now(&mut self, project_id: &str, line: &str) -> (evs: Vec<Event>)
        requires
            old(self).wf(),
        ensures
            final(self).wf(),
            exists|ts: Seq<char>|
                {
                    &&& #[trigger] ts.len() == 8
                    &&& final(self)@ == spec_append_line(
                        old(self)@,
                        project_id@,
                        stamped(ts, line@),
                    )
                    &&& crate::events::events_view(evs@) == seq![
                        EventView::Log { id: project_id@, line: stamped(ts, line@) },
                    ]
                },
    {
        let ts = crate::clock::now_hms();
        let evs = self.record_output_line(project_id, line, ts.as_str());
        proof {
            let w = ts@;
            assert(w.len() == 8 && self@ == spec_append_line(
                old(self)@,
                project_id@,
                stamped(w, line@),
            ) && crate::events::events_view(evs@) == seq![
                EventView::Log { id: project_id@, line: stamped(w, line@) },
            ]);
        }
        evs
    }

    /// Echoes caller input into the project's scrollback after the driver
    /// wrote it to the child's stdin, and returns the matching log event.
    pub fn log_input_echo(&mut self, project_id: &str, input: &str, ts: &str) -> (evs: Vec<Event>)
        requires
            old(self).wf(),
        ensures
            final(self).wf(),
            final(self)@ == spec_append_line(old(self)@, project_id@, input_echo_line(ts@, input@)),
            crate::events::events_view(evs@) == seq![
                EventView::Log { id: project_id@, line: input_echo_line(ts@, input@) },
            ],
    {
        let tail = String::from_str("> ").concat(input);
        let full = stamp(ts, tail.as_str());
        proof {
            assert(tail@ =~= "> "@ + input@);
        }
        self.append_line(project_id, full)
    }

    /// Records that an interrupt was sent to the child, and returns the
    /// matching log event.
    pub fn log_interrupt(&mut self, project_id: &str, ts: &str) -> (evs: Vec<Event>)
        requires
            old(self).wf(),
        ensures
            final(self).wf(),
            final(self)@ == spec_append_line(old(self)@, project_id@, interrupt_line(ts@)),
            crate::events::events_view(evs@) == seq![
                EventView::Log { id: project_id@, line: interrupt_line(ts@) },
            ],
    {
        let full = stamp(ts, "^C");
        self.append_line(project_id, full)
    }

    /// A copy of a project's scrollback, oldest line first; empty for a
    /// project never started.
    pub fn get_logs(&self, project_id: &str) -> (r: Vec<String>)
        requires
            self.wf(),
        ensures
            r.deep_view() == logs_of(self@, project_id@),
    {
        let key = String::from_str(project_id);
        match self.find(&key) {
            Some(i) => self.processes[i].logs.snapshot(),
            None => {
                let r: Vec<String> = Vec::new();
                proof {
                    assert(r.deep_view() =~= Seq::<Seq<char>>::empty());
                }
                r
            },
        }
    }
}

} // verus!
