use vstd::prelude::*;
use crate::models::{Job, SessionInfo, TunnelState};
use crate::text::{chars_of, push_char, string_of};
use crate::tui_app::{KeyCode, KeyEvent};

verus! {

/// The tabs of the single-screen dashboard.
#[derive(Clone, Copy, Debug, PartialEq, Eq, Structural)]
pub enum ActiveTab {
    Sessions,
    Jobs,
    Config,
}

/// The tab after `t`, wrapping around.
pub open spec fn tab_after(t: ActiveTab) -> ActiveTab {
    match t {
        ActiveTab::Sessions => ActiveTab::Jobs,
        ActiveTab::Jobs => ActiveTab::Config,
        ActiveTab::Config => ActiveTab::Sessions,
    }
}

/// One `.env` setting shown on the Config tab.
#[derive(Debug)]
pub struct ConfigField {
    pub key: String,
    pub value: String,
    pub hint: &'static str,
}

/// What the event loop does after a key.
#[derive(Clone, Copy, Debug, PartialEq, Eq, Structural)]
pub enum EventAction {
    Continue,
    Quit,
    Refresh,
    ShowLog,
    CancelJob,
    SaveConfig,
}

/// The dashboard's state. `status_msg` carries the time it was set.
#[derive(Debug)]
pub struct TuiState {
    pub sessions: Vec<SessionInfo>,
    pub jobs: Vec<Job>,
    pub tunnel_state: Option<TunnelState>,
    pub selected_session: usize,
    pub selected_job: usize,
    pub active_tab: ActiveTab,
    pub status_msg: Option<(String, u64)>,
    pub show_log: bool,
    pub log_lines: Vec<String>,
    pub log_scroll: usize,
    pub spinner_frame: usize,
    pub config_fields: Vec<ConfigField>,
    pub config_selected: usize,
    pub config_editing: bool,
    pub config_edit_buf: String,
}

/// One step down a list of `len` items, wrapping; nothing for an empty list.
pub open spec fn step_down(sel: usize, len: nat) -> usize {
    if len == 0 { sel } else { ((sel + 1) % (len as int)) as usize }
}

/// One step up a list of `len` items, wrapping; nothing for an empty list.
pub open spec fn step_up(sel: usize, len: nat) -> usize {
    if len == 0 { sel } else if sel == 0 { (len - 1) as usize } else { (sel - 1) as usize }
}

/// `s` with the active tab's selection moved by `f`.
pub open spec fn moved(s: TuiState, down: bool) -> TuiState {
    match s.active_tab {
        ActiveTab::Sessions => TuiState {
            selected_session: if down { step_down(s.selected_session, s.sessions@.len()) } else { step_up(s.selected_session, s.sessions@.len()) },
            ..s
        },
        ActiveTab::Jobs => TuiState {
            selected_job: if down { step_down(s.selected_job, s.jobs@.len()) } else { step_up(s.selected_job, s.jobs@.len()) },
            ..s
        },
        ActiveTab::Config => TuiState {
            config_selected: if down { step_down(s.config_selected, s.config_fields@.len()) } else { step_up(s.config_selected, s.config_fields@.len()) },
            ..s
        },
    }
}

/// `a` and `b` differ at most in the edit buffer and the config fields.
pub open spec fn same_but_edit(a: TuiState, b: TuiState) -> bool {
    a == (TuiState { config_edit_buf: a.config_edit_buf, config_fields: a.config_fields, config_editing: a.config_editing, ..b })
}

/// The key handling while the log is shown: Esc/`q`/`l` hide it, `j`/Down
/// scroll down while a line is left, `k`/Up scroll up, `G`/`g` jump to the
/// last/first line.
pub open spec fn log_key(s: TuiState, key: KeyEvent) -> TuiState {
    let n = s.log_lines@.len();
    if key.code == KeyCode::Esc || key.code == KeyCode::Char('q') || key.code == KeyCode::Char('l') {
        TuiState { show_log: false, ..s }
    } else if (key.code == KeyCode::Char('j') || key.code == KeyCode::Down) && s.log_scroll + 1 < n {
        TuiState { log_scroll: (s.log_scroll + 1) as usize, ..s }
    } else if key.code == KeyCode::Char('k') || key.code == KeyCode::Up {
        TuiState { log_scroll: if s.log_scroll > 0 { (s.log_scroll - 1) as usize } else { 0 }, ..s }
    } else if key.code == KeyCode::Char('G') {
        TuiState { log_scroll: if n > 0 { (n - 1) as usize } else { 0 }, ..s }
    } else if key.code == KeyCode::Char('g') {
        TuiState { log_scroll: 0, ..s }
    } else {
        s
    }
}

/// The key handling while a config value is edited: Esc discards the edit,
/// Enter stores it into the selected field and asks to save, Backspace
/// deletes the last character, a character is appended.
pub open spec fn edit_key_ok(old_s: TuiState, new_s: TuiState, key: KeyEvent, act: EventAction) -> bool {
    let buf = old_s.config_edit_buf@;
    if key.code == KeyCode::Esc {
        &&& act == EventAction::Continue
        &&& same_but_edit(new_s, old_s) && new_s.config_fields == old_s.config_fields
        &&& !new_s.config_editing && new_s.config_edit_buf@.len() == 0
    } else if key.code == KeyCode::Enter {
        &&& act == EventAction::SaveConfig
        &&& same_but_edit(new_s, old_s)
        &&& !new_s.config_editing && new_s.config_edit_buf@.len() == 0
        &&& new_s.config_fields@.len() == old_s.config_fields@.len()
        &&& forall|i: int| 0 <= i < old_s.config_fields@.len() ==> {
            let nf = #[trigger] new_s.config_fields@[i];
            let of = old_s.config_fields@[i];
            &&& nf.key == of.key
            &&& nf.hint == of.hint
            &&& nf.value@ == (if i == old_s.config_selected { buf } else { of.value@ })
        }
    } else {
        &&& act == EventAction::Continue
        &&& same_but_edit(new_s, old_s) && new_s.config_fields == old_s.config_fields
        &&& new_s.config_editing == old_s.config_editing
        &&& new_s.config_edit_buf@ == (match key.code {
            KeyCode::Backspace => if buf.len() > 0 { buf.drop_last() } else { buf },
            KeyCode::Char(c) => buf.push(c),
            _ => buf,
        })
    }
}

/// The key handling on the tabs: `q` quits, `r` refreshes, `l` shows the
/// log, `c` cancels a job, Tab switches tabs, Enter/`i` on the Config tab
/// starts editing the selected field, `j`/`k` and the arrows move the
/// selection.
pub open spec fn tab_key_ok(old_s: TuiState, new_s: TuiState, key: KeyEvent, act: EventAction) -> bool {
    if key.code == KeyCode::Char('q') {
        act == EventAction::Quit && new_s == old_s
    } else if key.code == KeyCode::Char('r') {
        act == EventAction::Refresh && new_s == old_s
    } else if key.code == KeyCode::Char('l') {
        act == EventAction::ShowLog && new_s == old_s
    } else if key.code == KeyCode::Char('c') {
        act == EventAction::CancelJob && new_s == old_s
    } else if key.code == KeyCode::Tab {
        act == EventAction::Continue && new_s == (TuiState { active_tab: tab_after(old_s.active_tab), ..old_s })
    } else if (key.code == KeyCode::Enter || key.code == KeyCode::Char('i')) && old_s.active_tab == ActiveTab::Config {
        act == EventAction::Continue && if old_s.config_selected < old_s.config_fields@.len() {
            &&& same_but_edit(new_s, old_s) && new_s.config_fields == old_s.config_fields
            &&& new_s.config_editing
            &&& new_s.config_edit_buf@ == old_s.config_fields@[old_s.config_selected as int].value@
        } else {
            new_s == old_s
        }
    } else if key.code == KeyCode::Char('j') || key.code == KeyCode::Down {
        act == EventAction::Continue && new_s == moved(old_s, true)
    } else if key.code == KeyCode::Char('k') || key.code == KeyCode::Up {
        act == EventAction::Continue && new_s == moved(old_s, false)
    } else {
        act == EventAction::Continue && new_s == old_s
    }
}

impl TuiState {
    /// The dashboard over freshly loaded sessions, jobs, tunnel state and
    /// config fields, on the Sessions tab with nothing selected.
    pub fn new(sessions: Vec<SessionInfo>, jobs: Vec<Job>, tunnel_state: Option<TunnelState>, config_fields: Vec<ConfigField>) -> (s: Self)
        ensures
            s.sessions == sessions,
            s.jobs == jobs,
            s.tunnel_state == tunnel_state,
            s.config_fields == config_fields,
            s.selected_session == 0,
            s.selected_job == 0,
            s.active_tab == ActiveTab::Sessions,
            s.status_msg is None,
            !s.show_log,
            s.log_lines@.len() == 0,
            s.log_scroll == 0,
            s.spinner_frame == 0,
            s.config_selected == 0,
            !s.config_editing,
            s.config_edit_buf@.len() == 0,
    {
        TuiState {
            sessions,
            jobs,
            tunnel_state,
            selected_session: 0,
            selected_job: 0,
            active_tab: ActiveTab::Sessions,
            status_msg: None,
            show_log: false,
            log_lines: Vec::new(),
            log_scroll: 0,
            spinner_frame: 0,
            config_fields,
            config_selected: 0,
            config_editing: false,
            config_edit_buf: String::new(),
        }
    }

    /// Replaces the loaded sessions, jobs and tunnel state.
    pub fn refresh(&mut self, sessions: Vec<SessionInfo>, jobs: Vec<Job>, tunnel_state: Option<TunnelState>)
        ensures
            *final(self) == (TuiState { sessions, jobs, tunnel_state, ..*old(self) }),
    {
        self.sessions = sessions;
        self.jobs = jobs;
        self.tunnel_state = tunnel_state;
    }

    /// Shows a status message, stamped with the time `now`.
    pub fn set_status(&mut self, msg: &str, now: u64)
        ensures
            final(self).status_msg matches Some((m, t)) && m@ == msg@ && t == now,
            *final(self) == (TuiState { status_msg: final(self).status_msg, ..*old(self) }),
    {
        let m = string_of(chars_of(msg).as_slice());
        self.status_msg = Some((m, now));
    }

    /// The selected session, if the selection is in range.
    pub fn selected_session_info(&self) -> (r: Option<&SessionInfo>)
        ensures
            self.selected_session < self.sessions@.len() ==> r == Some(&self.sessions@[self.selected_session as int]),
            self.selected_session >= self.sessions@.len() ==> r is None,
    {
        if self.selected_session < self.sessions.len() {
            Some(&self.sessions[self.selected_session])
        } else {
            None
        }
    }
}

fn step_down_exec(sel: usize, len: usize) -> (r: usize)
    requires
        sel < usize::MAX,
    ensures
        r == step_down(sel, len as nat),
{
    if len == 0 { sel } else { (sel + 1) % len }
}

fn step_up_exec(sel: usize, len: usize) -> (r: usize)
    ensures
        r == step_up(sel, len as nat),
{
    if len == 0 { sel } else if sel == 0 { len - 1 } else { sel - 1 }
}

fn drop_last_char(s: &mut String)
    ensures
        final(s)@ == (if old(s)@.len() > 0 { old(s)@.drop_last() } else { old(s)@ }),
{
    let cs = chars_of(s.as_str());
    if cs.len() > 0 {
        let mut keep: Vec<char> = Vec::new();
        let mut i: usize = 0;
        while i + 1 < cs.len()
            invariant
                i + 1 <= cs.len(),
                keep@ == cs@.take(i as int),
            decreases cs.len() - i,
        {
            keep.push(cs[i]);
            assert(cs@.take(i + 1) == cs@.take(i as int).push(cs@[i as int]));
            i = i + 1;
        }
        assert(keep@ == cs@.drop_last());
        *s = string_of(keep.as_slice());
    }
}

/// The dashboard's key handling (the log view and the editor take keys
/// first). The selections must leave room to step down.
pub fn handle_key(state: &mut TuiState, key: KeyEvent) -> (act: EventAction)
    requires
        old(state).selected_session < usize::MAX,
        old(state).selected_job < usize::MAX,
        old(state).config_selected < usize::MAX,
    ensures
        old(state).show_log ==> act == EventAction::Continue && *final(state) == log_key(*old(state), key),
        !old(state).show_log && old(state).config_editing ==> edit_key_ok(*old(state), *final(state), key, act),
        !old(state).show_log && !old(state).config_editing ==> tab_key_ok(*old(state), *final(state), key, act),
{
    if state.show_log {
        let n = state.log_lines.len();
        match key.code {
            KeyCode::Esc | KeyCode::Char('q') | KeyCode::Char('l') => {
                state.show_log = false;
            },
            KeyCode::Char('j') | KeyCode::Down => {
                if state.log_scroll < usize::MAX && state.log_scroll + 1 < n {
                    state.log_scroll = state.log_scroll + 1;
                }
            },
            KeyCode::Char('k') | KeyCode::Up => {
                state.log_scroll = if state.log_scroll > 0 { state.log_scroll - 1 } else { 0 };
            },
            KeyCode::Char('G') => {
                state.log_scroll = if n > 0 { n - 1 } else { 0 };
            },
            KeyCode::Char('g') => {
                state.log_scroll = 0;
            },
            _ => {},
        }
        return EventAction::Continue;
    }
    if state.config_editing {
        match key.code {
            KeyCode::Esc => {
                state.config_editing = false;
                state.config_edit_buf = String::new();
            },
            KeyCode::Enter => {
                let idx = state.config_selected;
                if idx < state.config_fields.len() {
                    let value = string_of(chars_of(state.config_edit_buf.as_str()).as_slice());
                    set_field(&mut state.config_fields, idx, value);
                }
                state.config_editing = false;
                state.config_edit_buf = String::new();
                return EventAction::SaveConfig;
            },
            KeyCode::Backspace => {
                drop_last_char(&mut state.config_edit_buf);
            },
            KeyCode::Char(c) => {
                push_char(&mut state.config_edit_buf, c);
            },
            _ => {},
        }
        return EventAction::Continue;
    }
    if (key.code == KeyCode::Enter || key.code == KeyCode::Char('i')) && state.active_tab == ActiveTab::Config {
        if state.config_selected < state.config_fields.len() {
            let v = string_of(chars_of(state.config_fields[state.config_selected].value.as_str()).as_slice());
            state.config_edit_buf = v;
            state.config_editing = true;
        }
        return EventAction::Continue;
    }
    match key.code {
        KeyCode::Char('q') => EventAction::Quit,
        KeyCode::Char('r') => EventAction::Refresh,
        KeyCode::Char('l') => EventAction::ShowLog,
        KeyCode::Char('c') => EventAction::CancelJob,
        KeyCode::Tab => {
            state.active_tab = match state.active_tab {
                ActiveTab::Sessions => ActiveTab::Jobs,
                ActiveTab::Jobs => ActiveTab::Config,
                ActiveTab::Config => ActiveTab::Sessions,
            };
            EventAction::Continue
        },
        KeyCode::Char('j') | KeyCode::Down => {
            match state.active_tab {
                ActiveTab::Sessions => {
                    state.selected_session = step_down_exec(state.selected_session, state.sessions.len());
                },
                ActiveTab::Jobs => {
                    state.selected_job = step_down_exec(state.selected_job, state.jobs.len());
                },
                ActiveTab::Config => {
                    state.config_selected = step_down_exec(state.config_selected, state.config_fields.len());
                },
            }
            EventAction::Continue
        },
        KeyCode::Char('k') | KeyCode::Up => {
            match state.active_tab {
                ActiveTab::Sessions => {
                    state.selected_session = step_up_exec(state.selected_session, state.sessions.len());
                },
                ActiveTab::Jobs => {
                    state.selected_job = step_up_exec(state.selected_job, state.jobs.len());
                },
                ActiveTab::Config => {
                    state.config_selected = step_up_exec(state.config_selected, state.config_fields.len());
                },
            }
            EventAction::Continue
        },
        _ => EventAction::Continue,
    }
}

fn set_field(fields: &mut Vec<ConfigField>, idx: usize, value: String)
    requires
        idx < old(fields)@.len(),
    ensures
        final(fields)@.len() == old(fields)@.len(),
        forall|i: int| 0 <= i < old(fields)@.len() ==> {
            let nf = #[trigger] final(fields)@[i];
            let of = old(fields)@[i];
            &&& nf.key == of.key
            &&& nf.hint == of.hint
            &&& nf.value == (if i == idx { value } else { of.value })
        },
{
    let old_field = fields.remove(idx);
    let ConfigField { key, value: _, hint } = old_field;
    fields.insert(idx, ConfigField { key, value, hint });
}

/// Three Tab presses bring the dashboard back to the same tab.
pub proof fn law_tab_cycle(t: ActiveTab)
    ensures
        tab_after(tab_after(tab_after(t))) == t,
        tab_after(t) != t,
{
}

/// A step down then a step up returns to the same item of a list.
pub proof fn law_step_round_trip(sel: usize, len: nat)
    requires
        sel < len,
        len <= usize::MAX,
    ensures
        step_down(sel, len) < len,
        step_up(step_down(sel, len), len) == sel,
        step_down(step_up(sel, len), len) == sel,
{
    if sel + 1 < len {
        assert((sel + 1) % (len as int) == sel + 1) by {
            vstd::arithmetic::div_mod::lemma_small_mod((sel + 1) as nat, len);
        }
    } else {
        assert((sel + 1) % (len as int) == 0) by {
            vstd::arithmetic::div_mod::lemma_mod_self_0(len as int);
        }
    }
    if sel == 0 {
        assert(((len - 1) + 1) % (len as int) == 0) by {
            vstd::arithmetic::div_mod::lemma_mod_self_0(len as int);
        }
    } else {
        assert((sel as int) % (len as int) == sel) by {
            vstd::arithmetic::div_mod::lemma_small_mod(sel as nat, len);
        }
    }
}

/// The log view's scroll position never passes its last line.
pub proof fn law_log_scroll_in_range(s: TuiState, key: KeyEvent)
    requires
        s.log_lines@.len() <= usize::MAX,
        s.log_lines@.len() == 0 ==> s.log_scroll == 0,
        s.log_lines@.len() > 0 ==> s.log_scroll < s.log_lines@.len(),
    ensures
        log_key(s, key).log_lines == s.log_lines,
        s.log_lines@.len() == 0 ==> log_key(s, key).log_scroll == 0,
        s.log_lines@.len() > 0 ==> log_key(s, key).log_scroll < s.log_lines@.len(),
{
}

} // verus!
