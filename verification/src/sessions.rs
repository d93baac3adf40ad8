//! Records exchanged with the peer-session mailbox: the metadata under which
//! an instance registers itself, and the short messages peers send each
//! other. The mailbox storage itself is an external collaborator; this
//! module only models what the orchestrator reads and formats.

use vstd::prelude::*;

verus! {

/// Metadata describing one running peer instance.
#[derive(Debug, Clone)]
pub struct SessionInfo {
    pub id: String,
    pub pid: u32,
    pub cwd: String,
    pub task: String,
    /// Registration time, as seconds since the epoch.
    pub started: u64,
    pub app: Option<String>,
    pub tmux_window: Option<String>,
}

/// Spec-level mirror of `SessionInfo`.
#[verifier::ext_equal]
pub struct SessionInfoView {
    pub id: Seq<char>,
    pub pid: u32,
    pub cwd: Seq<char>,
    pub task: Seq<char>,
    pub started: u64,
    pub app: Option<Seq<char>>,
    pub tmux_window: Option<Seq<char>>,
}

impl View for SessionInfo {
    type V = SessionInfoView;

    open spec fn view(&self) -> SessionInfoView {
        SessionInfoView {
            id: self.id@,
            pid: self.pid,
            cwd: self.cwd@,
            task: self.task@,
            started: self.started,
            app: self.app.deep_view(),
            tmux_window: self.tmux_window.deep_view(),
        }
    }
}

impl DeepView for SessionInfo {
    type V = SessionInfoView;

    open spec fn deep_view(&self) -> SessionInfoView {
        self.view()
    }
}

/// An incoming message from another session.
#[derive(Debug, Clone)]
pub struct SessionMessage {
    pub from: String,
    pub message: String,
    pub time: String,
}

/// Spec-level mirror of `SessionMessage`.
#[verifier::ext_equal]
pub struct SessionMessageView {
    pub from: Seq<char>,
    pub message: Seq<char>,
    pub time: Seq<char>,
}

impl View for SessionMessage {
    type V = SessionMessageView;

    open spec fn view(&self) -> SessionMessageView {
        SessionMessageView { from: self.from@, message: self.message@, time: self.time@ }
    }
}

impl DeepView for SessionMessage {
    type V = SessionMessageView;

    open spec fn deep_view(&self) -> SessionMessageView {
        self.view()
    }
}

} // verus!
