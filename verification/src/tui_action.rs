use vstd::prelude::*;
use crate::envfile::{app_field_settings, app_settings, config_env_text, env_text};
use crate::models::{Job, JobStatus, SessionInfo, TunnelState};
use crate::text::{push_str, string_from};
use crate::tui_app::{last_line, Action, App, LogOverlay, Overlay, StatusKind, StatusToast};

verus! {

/// Outside work an action needs before it can finish.
#[derive(Debug)]
pub enum Effect {
    /// Nothing to do.
    NoEffect,
    /// Reload sessions, jobs, tunnel state and the command log, then call
    /// `finish_refresh`.
    Reload,
    /// Signal the job's process (when it has one), then call `finish_cancel`.
    Kill(usize, Option<u32>),
    /// Write this text to `.env`, then call `finish_save`.
    Save(String),
}

/// Carries out an action of the event handler. Work outside the state
/// (reloading, signalling, writing) is handed back as an `Effect`.
pub fn handle_action(app: &mut App, action: Action, now: u64) -> (e: Effect)
    ensures
        match action {
            Action::Nothing => e is NoEffect && *final(app) == *old(app),
            Action::Quit => e is NoEffect && *final(app) == (App { should_quit: true, ..*old(app) }),
            Action::Refresh => e is Reload && *final(app) == *old(app),
            Action::CancelJob(idx) => if idx < old(app).jobs@.len() {
                if old(app).jobs@[idx as int].status == JobStatus::Running {
                    e == Effect::Kill(idx, old(app).jobs@[idx as int].pid) && *final(app) == *old(app)
                } else {
                    e is NoEffect && *final(app) == (App { status: final(app).status, ..*old(app) })
                        && (final(app).status matches Some(t)
                        && t.message@ == "Job not running"@ && t.kind == StatusKind::Info && t.at == now)
                }
            } else {
                e is NoEffect && *final(app) == *old(app)
            },
            Action::SaveConfig => *final(app) == *old(app)
                && (e matches Effect::Save(t) && t@ == env_text(app_settings(old(app).config_fields@))),
            Action::Status(m, k) => e is NoEffect
                && *final(app) == (App { status: Some(StatusToast { message: m, kind: k, at: now }), ..*old(app) }),
        },
{
    match action {
        Action::Nothing => Effect::NoEffect,
        Action::Quit => {
            app.should_quit = true;
            Effect::NoEffect
        },
        Action::Refresh => Effect::Reload,
        Action::CancelJob(idx) => {
            if idx < app.jobs.len() {
                if app.jobs[idx].status == JobStatus::Running {
                    Effect::Kill(idx, app.jobs[idx].pid)
                } else {
                    app.set_status(string_from("Job not running"), StatusKind::Info, now);
                    Effect::NoEffect
                }
            } else {
                Effect::NoEffect
            }
        },
        Action::SaveConfig => {
            let settings = app_field_settings(&app.config_fields);
            Effect::Save(config_env_text(&settings))
        },
        Action::Status(msg, kind) => {
            app.set_status(msg, kind, now);
            Effect::NoEffect
        },
    }
}

impl App {
    /// Finishes a refresh: the reloaded data replaces the old, an open log
    /// viewer shows the reloaded log from its last line, and the status
    /// says so.
    pub fn finish_refresh(&mut self, sessions: Vec<SessionInfo>, jobs: Vec<Job>, tunnel_state: Option<TunnelState>,
        log_lines: Vec<String>, now: u64)
        ensures
            final(self).sessions == sessions,
            final(self).jobs == jobs,
            final(self).tunnel_state == tunnel_state,
            old(self).overlay is Log ==> final(self).overlay == Overlay::Log(LogOverlay { lines: log_lines, scroll: last_line(log_lines@.len()) }),
            !(old(self).overlay is Log) ==> final(self).overlay == old(self).overlay,
            final(self).status matches Some(t) && t.message@ == "Refreshed"@ && t.kind == StatusKind::Success && t.at == now,
            *final(self) == (App { sessions: final(self).sessions, jobs: final(self).jobs, tunnel_state: final(self).tunnel_state,
                overlay: final(self).overlay, status: final(self).status, ..*old(self) }),
    {
        self.sessions = sessions;
        self.jobs = jobs;
        self.tunnel_state = tunnel_state;
        if let Overlay::Log(_) = self.overlay {
            self.overlay = Overlay::Log(LogOverlay::new(log_lines));
        }
        self.set_status(string_from("Refreshed"), StatusKind::Success, now);
    }

    /// Finishes cancelling running job `idx` at time `finished` and says so.
    pub fn finish_cancel(&mut self, idx: usize, finished: String, now: u64)
        requires
            idx < old(self).jobs@.len(),
            old(self).jobs@[idx as int].status == JobStatus::Running,
        ensures
            final(self).jobs@ == old(self).jobs@.update(idx as int,
                Job { status: JobStatus::Cancelled, finished: Some(finished), ..old(self).jobs@[idx as int] }),
            final(self).status matches Some(t) && t.message@ == "Cancelled job "@ + old(self).jobs@[idx as int].id@
                && t.kind == StatusKind::Warn && t.at == now,
            *final(self) == (App { jobs: final(self).jobs, status: final(self).status, ..*old(self) }),
    {
        let mut jobs: Vec<Job> = Vec::new();
        std::mem::swap(&mut jobs, &mut self.jobs);
        let mut job = jobs.remove(idx);
        let _ = job.cancel(finished);
        let mut message = string_from("Cancelled job ");
        push_str(&mut message, job.id.as_str());
        jobs.insert(idx, job);
        self.jobs = jobs;
        self.set_status(message, StatusKind::Warn, now);
    }

    /// Finishes saving the config: success, or the error's message.
    pub fn finish_save(&mut self, outcome: Result<(), String>, now: u64)
        ensures
            match outcome {
                Ok(_) => final(self).status matches Some(t) && t.message@ == "Config saved to .env"@
                    && t.kind == StatusKind::Success && t.at == now,
                Err(e) => final(self).status matches Some(t) && t.message@ == "Save failed: "@ + e@
                    && t.kind == StatusKind::Failure && t.at == now,
            },
            *final(self) == (App { status: final(self).status, ..*old(self) }),
    {
        match outcome {
            Ok(_) => self.set_status(string_from("Config saved to .env"), StatusKind::Success, now),
            Err(e) => {
                let mut m = string_from("Save failed: ");
                push_str(&mut m, e.as_str());
                self.set_status(m, StatusKind::Failure, now);
            },
        }
    }
}

} // verus!
