//! The state of one supervised process: its status, the handle bookkeeping,
//! its scrollback log and the restart policy data retained for respawns.

use crate::log_buffer::LogBuffer;
use crate::MAX_RESTART_ATTEMPTS;
use vstd::prelude::*;

verus! {

/// Lifecycle status of a supervised process. `Stopped` is both the initial
/// and a terminal state; `Restarting` covers only the brief window between an
/// abnormal exit and the respawn; `Error` is terminal failure.
#[derive(Clone, Copy, Debug, PartialEq, Eq, Structural)]
pub enum ProcessStatus {
    Stopped,
    Running,
    Error,
    Restarting,
}

/// The lowercase label under which a status travels in events.
pub open spec fn status_label_view(s: ProcessStatus) -> Seq<char> {
    match s {
        ProcessStatus::Stopped => "stopped"@,
        ProcessStatus::Running => "running"@,
        ProcessStatus::Error => "error"@,
        ProcessStatus::Restarting => "restarting"@,
    }
}

/// Renders a status as its lowercase event label.
pub fn status_label(s: &ProcessStatus) -> (r: String)
    ensures
        r@ == status_label_view(*s),
{
    match s {
        ProcessStatus::Stopped => String::from_str("stopped"),
        ProcessStatus::Running => String::from_str("running"),
        ProcessStatus::Error => String::from_str("error"),
        ProcessStatus::Restarting => String::from_str("restarting"),
    }
}

/// Mathematical model of one process record.
pub ghost struct ProcView {
    pub status: ProcessStatus,
    pub child: Option<u32>,
    pub has_stdin: bool,
    pub logs: Seq<Seq<char>>,
    pub restart_count: u32,
    pub restart_on_crash: bool,
    pub path: Seq<char>,
    pub commands: Seq<Seq<char>>,
}

/// One supervised process record, kept for a project from its first start
/// request until manager shutdown. The `child` field holds the OS process id
/// of the live child; the driver owns the actual handle.
pub struct ProcessInfo {
    pub project_id: String,
    pub child: Option<u32>,
    pub has_stdin: bool,
    pub status: ProcessStatus,
    pub logs: LogBuffer,
    pub restart_count: u32,
    pub restart_on_crash: bool,
    pub path: String,
    pub commands: Vec<String>,
}

impl View for ProcessInfo {
    type V = ProcView;

    open spec fn view(&self) -> ProcView {
        ProcView {
            status: self.status,
            child: self.child,
            has_stdin: self.has_stdin,
            logs: self.logs@,
            restart_count: self.restart_count,
            restart_on_crash: self.restart_on_crash,
            path: self.path@,
            commands: self.commands.deep_view(),
        }
    }
}

/// Record invariant: the scrollback respects its bound, the restart counter
/// never passes the cap, and a live child handle is held exactly while the
/// record is `Running`.
pub open spec fn rec_inv(r: ProcView) -> bool {
    &&& r.restart_count <= MAX_RESTART_ATTEMPTS
    &&& (r.child is Some <==> r.status == ProcessStatus::Running)
}

impl ProcessInfo {
    /// The exec-side part of the invariant that the view cannot see.
    pub open spec fn inv(&self) -> bool {
        &&& self.logs.wf()
        &&& rec_inv(self@)
    }

    /// A fresh, never-started record: stopped, no child, empty log.
    pub fn new(project_id: String, path: String, commands: Vec<String>, restart_on_crash: bool) -> (r: Self)
        ensures
            r.inv(),
            r.project_id == project_id,
            r@ == (ProcView {
                status: ProcessStatus::Stopped,
                child: None,
                has_stdin: false,
                logs: Seq::<Seq<char>>::empty(),
                restart_count: 0,
                restart_on_crash: restart_on_crash,
                path: path@,
                commands: commands.deep_view(),
            }),
    {
        ProcessInfo {
            project_id,
            child: None,
            has_stdin: false,
            status: ProcessStatus::Stopped,
            logs: LogBuffer::new(),
            restart_count: 0,
            restart_on_crash,
            path,
            commands,
        }
    }

    /// Appends one line to this record's scrollback, evicting the oldest line
    /// when the buffer is full.
    pub fn add_log(&mut self, line: String)
        requires
            old(self).inv(),
        ensures
            final(self).inv(),
            final(self)@ == (ProcView {
                logs: crate::log_buffer::appended(old(self)@.logs, line@),
                ..old(self)@
            }),
            final(self).project_id == old(self).project_id,
    {
        self.logs.append(line);
    }
}

} // verus!
