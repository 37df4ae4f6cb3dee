use vstd::prelude::*;
use crate::models::{Job, JobStatus, SessionInfo, TunnelState};
use crate::text::{push_str, string_from};
use crate::text_input::{TextInput, byte_len, char_utf8_len};

verus! {

// ───────────────────────── tabs ─────────────────────────

/// The content tabs of the terminal UI.
#[derive(Clone, Copy, Debug, PartialEq, Eq, Structural)]
pub enum Tab {
    Sessions,
    Jobs,
    Config,
}

/// The tab after `t`, wrapping around.
pub open spec fn tab_next(t: Tab) -> Tab {
    match t {
        Tab::Sessions => Tab::Jobs,
        Tab::Jobs => Tab::Config,
        Tab::Config => Tab::Sessions,
    }
}

/// The tab before `t`, wrapping around.
pub open spec fn tab_prev(t: Tab) -> Tab {
    match t {
        Tab::Sessions => Tab::Config,
        Tab::Jobs => Tab::Sessions,
        Tab::Config => Tab::Jobs,
    }
}

/// The tab's title.
pub open spec fn tab_label(t: Tab) -> Seq<char> {
    match t {
        Tab::Sessions => "Sessions"@,
        Tab::Jobs => "Jobs"@,
        Tab::Config => "Config"@,
    }
}

impl Tab {
    /// The tab's title.
    pub fn label(self) -> (r: &'static str)
        ensures
            r@ == tab_label(self),
    {
        match self {
            Tab::Sessions => "Sessions",
            Tab::Jobs => "Jobs",
            Tab::Config => "Config",
        }
    }

    /// The next tab, wrapping around.
    pub fn next(self) -> (r: Tab)
        ensures
            r == tab_next(self),
    {
        match self {
            Tab::Sessions => Tab::Jobs,
            Tab::Jobs => Tab::Config,
            Tab::Config => Tab::Sessions,
        }
    }

    /// The previous tab, wrapping around.
    pub fn prev(self) -> (r: Tab)
        ensures
            r == tab_prev(self),
    {
        match self {
            Tab::Sessions => Tab::Config,
            Tab::Jobs => Tab::Sessions,
            Tab::Config => Tab::Jobs,
        }
    }

    /// Every tab, in display order.
    pub fn all() -> (r: [Tab; 3])
        ensures
            r@ == seq![Tab::Sessions, Tab::Jobs, Tab::Config],
    {
        [Tab::Sessions, Tab::Jobs, Tab::Config]
    }
}

/// `prev` undoes `next` and `next` undoes `prev`.
pub proof fn law_tab_next_prev(t: Tab)
    ensures
        tab_prev(tab_next(t)) == t,
        tab_next(tab_prev(t)) == t,
{
}

/// Three steps forward come back to the same tab.
pub proof fn law_tab_cycle(t: Tab)
    ensures
        tab_next(tab_next(tab_next(t))) == t,
        tab_next(t) != t,
{
}

// ───────────────────────── state ─────────────────────────

/// Which pane has focus.
#[derive(Clone, Copy, Debug, PartialEq, Eq, Structural)]
pub enum Focus {
    Content,
}

/// The tone of a status message.
#[derive(Clone, Copy, Debug, PartialEq, Eq, Structural)]
pub enum StatusKind {
    Info,
    Success,
    Warn,
    Failure,
}

/// A transient status message; `at` is when it was set, in seconds of a
/// monotonic clock.
#[derive(Debug)]
pub struct StatusToast {
    pub message: String,
    pub kind: StatusKind,
    pub at: u64,
}

/// A single .env config field.
#[derive(Debug)]
pub struct ConfigField {
    pub key: String,
    pub value: String,
    pub hint: &'static str,
}

/// The command log viewer.
#[derive(Debug)]
pub struct LogOverlay {
    pub lines: Vec<String>,
    pub scroll: usize,
}

/// The scroll position that shows the last line.
pub open spec fn last_line(n: nat) -> usize {
    if n > 0 { (n - 1) as usize } else { 0 }
}

impl LogOverlay {
    /// A viewer scrolled to the last line.
    pub fn new(lines: Vec<String>) -> (o: Self)
        ensures
            o.lines == lines,
            o.scroll == last_line(lines@.len()),
    {
        let n = lines.len();
        let scroll = if n > 0 { n - 1 } else { 0 };
        LogOverlay { lines, scroll }
    }
}

/// What a confirmation does when accepted.
#[derive(Clone, Copy, Debug, PartialEq, Eq, Structural)]
pub enum ConfirmAction {
    CancelJob(usize),
}

/// A yes/no question.
#[derive(Debug)]
pub struct ConfirmOverlay {
    pub title: String,
    pub message: String,
    pub action: ConfirmAction,
}

/// Editing one config field.
#[derive(Debug)]
pub struct ConfigFormState {
    pub field_idx: usize,
    pub key: String,
    pub hint: &'static str,
    pub value: TextInput,
}

/// At most one overlay is open at a time (`Closed` when none is).
#[derive(Debug)]
pub enum Overlay {
    Closed,
    Log(LogOverlay),
    Confirm(ConfirmOverlay),
    Form(ConfigFormState),
    Help,
}

impl Overlay {
    /// Whether an overlay is open.
    pub fn is_active(&self) -> (b: bool)
        ensures
            b == !(self is Closed),
    {
        match self {
            Overlay::Closed => false,
            _ => true,
        }
    }
}

/// The whole terminal UI state.
#[derive(Debug)]
pub struct App {
    pub tab: Tab,
    pub focus: Focus,
    pub overlay: Overlay,
    pub sessions: Vec<SessionInfo>,
    pub jobs: Vec<Job>,
    pub tunnel_state: Option<TunnelState>,
    pub config_fields: Vec<ConfigField>,
    pub selected_session: usize,
    pub selected_job: usize,
    pub selected_config: usize,
    pub spinner_frame: usize,
    pub status: Option<StatusToast>,
    pub should_quit: bool,
}

/// The selection index of the active tab and the length of its list.
pub open spec fn active_selection(app: App) -> (usize, nat) {
    match app.tab {
        Tab::Sessions => (app.selected_session, app.sessions@.len()),
        Tab::Jobs => (app.selected_job, app.jobs@.len()),
        Tab::Config => (app.selected_config, app.config_fields@.len()),
    }
}

/// The new selection after moving by `delta`: 0 for an empty list, else
/// the cursor taken as an `i64`, plus `delta`, wrapped (Euclidean remainder)
/// by the list length taken as an `i64`.
pub open spec fn moved_selection(cursor: usize, len: nat, delta: i64) -> usize {
    if len == 0 { 0 } else { (((cursor as i64) + delta) % ((len as i64) as int)) as usize }
}

/// `app` with the active tab's selection set to `v`.
pub open spec fn with_active_selection(app: App, v: usize) -> App {
    match app.tab {
        Tab::Sessions => App { selected_session: v, ..app },
        Tab::Jobs => App { selected_job: v, ..app },
        Tab::Config => App { selected_config: v, ..app },
    }
}

/// `move_selection` can add `delta` to the cursor (taken as an `i64`)
/// without overflow, or the list is empty.
pub open spec fn can_move(app: App, delta: i64) -> bool {
    let (c, n) = active_selection(app);
    n == 0 || i64::MIN <= (c as i64) + delta <= i64::MAX
}

/// `(c - m) mod n` computed from the remainders of `c` and `m`.
proof fn lemma_mod_diff(c: int, m: int, n: int)
    requires
        n > 0,
        c >= 0,
        m >= 0,
    ensures
        (c - m) % n == ((c % n) + n - (m % n)) % n,
{
    vstd::arithmetic::div_mod::lemma_fundamental_div_mod(c, n);
    vstd::arithmetic::div_mod::lemma_fundamental_div_mod(m, n);
    let a = c / n - m / n - 1;
    let b = (c % n) + n - (m % n);
    assert(c - m == n * a + b) by (nonlinear_arith)
        requires
            c == n * (c / n) + c % n,
            m == n * (m / n) + m % n,
            a == c / n - m / n - 1,
            b == (c % n) + n - (m % n),
    ;
    vstd::arithmetic::div_mod::lemma_mod_multiples_vanish(a, b, n);
}

/// A Euclidean remainder depends only on the divisor's size.
proof fn lemma_mod_abs(x: int, d: int)
    requires
        d != 0,
    ensures
        x % d == x % (if d < 0 { -d } else { d }),
{
    if d < 0 {
        assert(x % d == x % (-d)) by (nonlinear_arith)
            requires
                d < 0,
        ;
    }
}

impl App {
    /// Config field values fit in memory and an open form's field is well formed.
    pub open spec fn wf(&self) -> bool {
        &&& forall|i: int| 0 <= i < self.config_fields@.len() ==> byte_len(#[trigger] self.config_fields@[i].value@) <= usize::MAX
        &&& (self.overlay matches Overlay::Form(f) ==> f.value.wf())
    }

    /// The initial state: the Sessions tab with nothing selected, the
    /// loaded sessions, jobs and tunnel, and the Config tab's twelve fields
    /// read from the `.env` entries and, failing those, from the process
    /// environment (`process[i]` is the variable of the `i`-th setting).
    pub fn new(sessions: Vec<SessionInfo>, jobs: Vec<Job>, tunnel_state: Option<TunnelState>,
        env_entries: &Vec<(String, String)>, process: &Vec<Option<String>>) -> (app: Self)
        requires
            process@.len() == crate::envfile::FIELD_COUNT,
        ensures
            app.wf(),
            app.tab == Tab::Sessions,
            app.focus == Focus::Content,
            app.overlay is Closed,
            app.sessions == sessions,
            app.jobs == jobs,
            app.tunnel_state == tunnel_state,
            crate::envfile::loaded_fields(app.config_fields@, crate::envfile::pairs_view(env_entries@), process@),
            app.selected_session == 0,
            app.selected_job == 0,
            app.selected_config == 0,
            app.spinner_frame == 0,
            app.status is None,
            !app.should_quit,
    {
        let config_fields = crate::envfile::load_config_fields(env_entries, process);
        let n = config_fields.len();
        for i in 0..n
            invariant
                n == config_fields@.len(),
                forall|k: int| 0 <= k < i ==> byte_len(#[trigger] config_fields@[k].value@) <= usize::MAX,
        {
            let _ = crate::text_input::text_byte_len(config_fields[i].value.as_str());
        }
        App {
            tab: Tab::Sessions,
            focus: Focus::Content,
            overlay: Overlay::Closed,
            sessions,
            jobs,
            tunnel_state,
            config_fields,
            selected_session: 0,
            selected_job: 0,
            selected_config: 0,
            spinner_frame: 0,
            status: None,
            should_quit: false,
        }
    }

    /// Shows a status message, stamped with the current time `now`.
    pub fn set_status(&mut self, message: String, kind: StatusKind, now: u64)
        ensures
            *final(self) == (App { status: Some(StatusToast { message, kind, at: now }), ..*old(self) }),
    {
        self.status = Some(StatusToast { message, kind, at: now });
    }

    /// Clears the status message once it is at least 3 seconds old.
    pub fn clear_expired_status(&mut self, now: u64)
        ensures
            (old(self).status matches Some(s) && now >= s.at && now - s.at >= 3)
                ==> *final(self) == (App { status: None, ..*old(self) }),
            !(old(self).status matches Some(s) && now >= s.at && now - s.at >= 3)
                ==> *final(self) == *old(self),
    {
        let expired = match &self.status {
            Some(s) => now >= s.at && now - s.at >= 3,
            None => false,
        };
        if expired {
            self.status = None;
        }
    }

    /// The session under the cursor, if any.
    pub fn selected_session_info(&self) -> (r: Option<&SessionInfo>)
        ensures
            match r {
                Some(s) => self.selected_session < self.sessions@.len() && *s == self.sessions@[self.selected_session as int],
                None => self.selected_session >= self.sessions@.len(),
            },
    {
        if self.selected_session < self.sessions.len() {
            Some(&self.sessions[self.selected_session])
        } else {
            None
        }
    }

    /// The config field under the cursor, if any.
    pub fn selected_config_field(&self) -> (r: Option<&ConfigField>)
        ensures
            match r {
                Some(f) => self.selected_config < self.config_fields@.len() && *f == self.config_fields@[self.selected_config as int],
                None => self.selected_config >= self.config_fields@.len(),
            },
    {
        if self.selected_config < self.config_fields.len() {
            Some(&self.config_fields[self.selected_config])
        } else {
            None
        }
    }

    /// Moves the active tab's selection by `delta`, wrapping around the list.
    pub fn move_selection(&mut self, delta: i64)
        requires
            can_move(*old(self), delta),
        ensures
            *final(self) == with_active_selection(
                *old(self),
                moved_selection(active_selection(*old(self)).0, active_selection(*old(self)).1, delta),
            ),
    {
        let (cursor, len) = match self.tab {
            Tab::Sessions => (self.selected_session, self.sessions.len()),
            Tab::Jobs => (self.selected_job, self.jobs.len()),
            Tab::Config => (self.selected_config, self.config_fields.len()),
        };
        let new: usize = if len == 0 {
            0
        } else {
            let s: i64 = (cursor as i64) + delta;
            let d: i64 = len as i64;
            assert(len != 0usize ==> (len as i64) != 0i64) by (bit_vector);
            let a: u128 = if d < 0 { (-(d as i128)) as u128 } else { d as u128 };
            let r: u128 = if s >= 0 {
                let r: u128 = (s as u128) % a;
                proof {
                    lemma_mod_abs(s as int, d as int);
                }
                r
            } else {
                let m: u128 = (-(s as i128)) as u128;
                let r: u128 = (a - m % a) % a;
                proof {
                    lemma_mod_diff(0, m as int, a as int);
                    vstd::arithmetic::div_mod::lemma_small_mod(0, a as nat);
                    lemma_mod_abs(s as int, d as int);
                }
                r
            };
            r as usize
        };
        match self.tab {
            Tab::Sessions => self.selected_session = new,
            Tab::Jobs => self.selected_job = new,
            Tab::Config => self.selected_config = new,
        }
    }
}

} // verus!

verus! {

/// A non-empty list keeps its selection inside the list (for a list
/// shorter than `i64::MAX`, which the cast to `i64` keeps whole).
pub proof fn law_selection_in_range(cursor: usize, len: nat, delta: i64)
    requires
        len > 0,
        len <= i64::MAX,
        len <= usize::MAX,
    ensures
        moved_selection(cursor, len, delta) < len,
{
    assert((len as i64) as int == len);
    vstd::arithmetic::div_mod::lemma_mod_bound(((cursor as i64) + delta) as int, len as int);
}

/// Moving back by the same amount returns to the selection it started from.
pub proof fn law_selection_round_trip(cursor: usize, len: nat, delta: i64)
    requires
        cursor < len,
        len <= i64::MAX,
        len <= usize::MAX,
        delta > i64::MIN,
    ensures
        moved_selection(moved_selection(cursor, len, delta), len, (-delta) as i64) == cursor,
{
    let n = len as int;
    assert((len as i64) as int == n);
    assert((cursor as i64) as int == cursor as int);
    let x = cursor + delta;
    vstd::arithmetic::div_mod::lemma_mod_bound(x, n);
    let m = moved_selection(cursor, len, delta);
    assert(m as int == x % n);
    assert((m as i64) as int == m as int);
    vstd::arithmetic::div_mod::lemma_add_mod_noop(x, -delta, n);
    vstd::arithmetic::div_mod::lemma_add_mod_noop_right(x % n, -delta, n);
    vstd::arithmetic::div_mod::lemma_small_mod(cursor as nat, len);
    assert(x + (-delta) == cursor);
}

// ───────────────────────── keys ─────────────────────────

/// The keys the UI reacts to.
#[derive(Clone, Copy, Debug, PartialEq, Eq, Structural)]
pub enum KeyCode {
    Char(char),
    Esc,
    Enter,
    Backspace,
    Left,
    Right,
    Up,
    Down,
    Home,
    End,
    Tab,
    BackTab,
    Other,
}

/// A key press; `ctrl_only` when Control and no other modifier is held.
#[derive(Clone, Copy, Debug, PartialEq, Eq, Structural)]
pub struct KeyEvent {
    pub code: KeyCode,
    pub ctrl_only: bool,
}

/// What the event handler asks the application to do next.
#[derive(Debug)]
pub enum Action {
    Nothing,
    Quit,
    Refresh,
    CancelJob(usize),
    SaveConfig,
    Status(String, StatusKind),
}

/// The global keys (active whenever no overlay is open).
#[derive(Clone, Copy, Debug, PartialEq, Eq, Structural)]
pub enum GlobalKey {
    Quit,
    Refresh,
    OpenLog,
    OpenHelp,
    NextTab,
    PrevTab,
    NotGlobal,
}

/// Which global key `key` is: `q` or Ctrl-C quit, `r` refreshes, `l` opens
/// the log, `?` the help, Tab/`]` and BackTab/`[` switch tabs.
pub open spec fn global_key_of(key: KeyEvent) -> GlobalKey {
    if key.code == KeyCode::Char('q') || (key.code == KeyCode::Char('c') && key.ctrl_only) {
        GlobalKey::Quit
    } else if key.code == KeyCode::Char('r') {
        GlobalKey::Refresh
    } else if key.code == KeyCode::Char('l') {
        GlobalKey::OpenLog
    } else if key.code == KeyCode::Char('?') {
        GlobalKey::OpenHelp
    } else if key.code == KeyCode::Tab || key.code == KeyCode::Char(']') {
        GlobalKey::NextTab
    } else if key.code == KeyCode::BackTab || key.code == KeyCode::Char('[') {
        GlobalKey::PrevTab
    } else {
        GlobalKey::NotGlobal
    }
}

fn global_key_exec(key: &KeyEvent) -> (g: GlobalKey)
    ensures
        g == global_key_of(*key),
{
    match key.code {
        KeyCode::Char('q') => GlobalKey::Quit,
        KeyCode::Char('c') => if key.ctrl_only { GlobalKey::Quit } else { GlobalKey::NotGlobal },
        KeyCode::Char('r') => GlobalKey::Refresh,
        KeyCode::Char('l') => GlobalKey::OpenLog,
        KeyCode::Char('?') => GlobalKey::OpenHelp,
        KeyCode::Tab | KeyCode::Char(']') => GlobalKey::NextTab,
        KeyCode::BackTab | KeyCode::Char('[') => GlobalKey::PrevTab,
        _ => GlobalKey::NotGlobal,
    }
}

/// Whether handling `key` opens the command log, so the caller must hand
/// `on_key` the log's lines.
pub open spec fn opens_log(app: App, key: KeyEvent) -> bool {
    app.overlay is Closed && global_key_of(key) == GlobalKey::OpenLog
}

/// Whether handling `key` opens the command log.
pub fn key_opens_log(app: &App, key: &KeyEvent) -> (b: bool)
    ensures
        b == opens_log(*app, *key),
{
    !app.overlay.is_active() && global_key_exec(key) == GlobalKey::OpenLog
}

/// `j`/Down moves the selection down, `k`/Up up.
pub open spec fn is_down(k: KeyCode) -> bool {
    k == KeyCode::Char('j') || k == KeyCode::Down
}

pub open spec fn is_up(k: KeyCode) -> bool {
    k == KeyCode::Char('k') || k == KeyCode::Up
}

/// The form that edits config field `i`.
pub open spec fn form_for(f: ConfigFormState, app: App, i: usize) -> bool {
    &&& f.field_idx == i
    &&& f.key@ == app.config_fields@[i as int].key@
    &&& f.hint == app.config_fields@[i as int].hint
    &&& f.value.value@ == app.config_fields@[i as int].value@
    &&& f.value.cursor == byte_len(app.config_fields@[i as int].value@)
    &&& f.value.wf()
}

/// The confirmation that cancels job `i`.
pub open spec fn cancel_prompt_for(c: ConfirmOverlay, app: App, i: usize) -> bool {
    &&& c.title@ == "Cancel Job"@
    &&& c.message@ == "Kill running job "@ + app.jobs@[i as int].id@ + "?"@
    &&& c.action == ConfirmAction::CancelJob(i)
}

/// Everything but the overlay is as before.
pub open spec fn same_but_overlay(a: App, b: App) -> bool {
    a == (App { overlay: a.overlay, ..b })
}

/// The key handling when no overlay is open: global keys first, then the
/// active tab's keys.
pub open spec fn closed_key_ok(old_app: App, new_app: App, key: KeyEvent, lines: Vec<String>, act: Action) -> bool {
    match global_key_of(key) {
        GlobalKey::Quit => act is Quit && new_app == old_app,
        GlobalKey::Refresh => act is Refresh && new_app == old_app,
        GlobalKey::OpenLog => act is Nothing && new_app == (App {
            overlay: Overlay::Log(LogOverlay { lines, scroll: last_line(lines@.len()) }),
            ..old_app
        }),
        GlobalKey::OpenHelp => act is Nothing && new_app == (App { overlay: Overlay::Help, ..old_app }),
        GlobalKey::NextTab => act is Nothing && new_app == (App { tab: tab_next(old_app.tab), ..old_app }),
        GlobalKey::PrevTab => act is Nothing && new_app == (App { tab: tab_prev(old_app.tab), ..old_app }),
        GlobalKey::NotGlobal => content_key_ok(old_app, new_app, key, act),
    }
}

/// The active tab's keys: `j`/`k` and the arrows move the selection, Enter or
/// `i` on the Config tab opens the form, `x` on the Jobs tab asks to cancel.
pub open spec fn content_key_ok(old_app: App, new_app: App, key: KeyEvent, act: Action) -> bool {
    let (c, n) = active_selection(old_app);
    if is_down(key.code) {
        act is Nothing && new_app == with_active_selection(old_app, moved_selection(c, n, 1))
    } else if is_up(key.code) {
        act is Nothing && new_app == with_active_selection(old_app, moved_selection(c, n, -1i64))
    } else if (key.code == KeyCode::Enter || key.code == KeyCode::Char('i')) && old_app.tab == Tab::Config {
        act is Nothing && if old_app.selected_config < old_app.config_fields@.len() {
            same_but_overlay(new_app, old_app)
                && (new_app.overlay matches Overlay::Form(f) && form_for(f, old_app, old_app.selected_config))
        } else {
            new_app == old_app
        }
    } else if key.code == KeyCode::Char('x') && old_app.tab == Tab::Jobs {
        if old_app.selected_job < old_app.jobs@.len() {
            if old_app.jobs@[old_app.selected_job as int].status != JobStatus::Running {
                new_app == old_app && (act matches Action::Status(m, k)
                    && m@ == "Selected job is not running"@ && k == StatusKind::Info)
            } else {
                act is Nothing && same_but_overlay(new_app, old_app)
                    && (new_app.overlay matches Overlay::Confirm(c)
                    && cancel_prompt_for(c, old_app, old_app.selected_job))
            }
        } else {
            act is Nothing && new_app == old_app
        }
    } else {
        act is Nothing && new_app == old_app
    }
}

/// The key handling inside the log viewer: Esc/`q`/`l` close it, `j`/Down
/// scroll down while a line is left, `k`/Up scroll up, `g`/`G` jump to the
/// first/last line.
pub open spec fn log_key_ok(old_app: App, new_app: App, log: LogOverlay, key: KeyEvent, act: Action) -> bool {
    act is Nothing && if key.code == KeyCode::Esc || key.code == KeyCode::Char('q') || key.code == KeyCode::Char('l') {
        new_app == (App { overlay: Overlay::Closed, ..old_app })
    } else {
        let scroll = if is_down(key.code) && log.scroll + 1 < log.lines@.len() {
            (log.scroll + 1) as usize
        } else if is_up(key.code) {
            if log.scroll > 0 { (log.scroll - 1) as usize } else { 0 }
        } else if key.code == KeyCode::Char('g') {
            0
        } else if key.code == KeyCode::Char('G') {
            last_line(log.lines@.len())
        } else {
            log.scroll
        };
        new_app == (App { overlay: Overlay::Log(LogOverlay { lines: log.lines, scroll }), ..old_app })
    }
}

/// The key handling inside a confirmation: Enter/`y`/`Y` accept, Esc/`n`/`N`
/// dismiss, other keys are ignored.
pub open spec fn confirm_key_ok(old_app: App, new_app: App, c: ConfirmOverlay, key: KeyEvent, act: Action) -> bool {
    if key.code == KeyCode::Enter || key.code == KeyCode::Char('y') || key.code == KeyCode::Char('Y') {
        new_app == (App { overlay: Overlay::Closed, ..old_app }) && match c.action {
            ConfirmAction::CancelJob(i) => act == Action::CancelJob(i),
        }
    } else if key.code == KeyCode::Esc || key.code == KeyCode::Char('n') || key.code == KeyCode::Char('N') {
        act is Nothing && new_app == (App { overlay: Overlay::Closed, ..old_app })
    } else {
        act is Nothing && new_app == old_app
    }
}

/// The key handling inside the config form: Esc cancels, Enter stores the
/// edited value into its field and asks to save, the editing keys edit.
pub open spec fn form_key_ok(old_app: App, new_app: App, f: ConfigFormState, key: KeyEvent, act: Action) -> bool {
    let v = f.value.value@;
    let cur = f.value.cursor as nat;
    if key.code == KeyCode::Esc {
        act is Nothing && new_app == (App { overlay: Overlay::Closed, ..old_app })
    } else if key.code == KeyCode::Enter {
        &&& act is SaveConfig
        &&& new_app.overlay is Closed
        &&& new_app.config_fields@.len() == old_app.config_fields@.len()
        &&& forall|i: int| 0 <= i < old_app.config_fields@.len() ==> {
            let nf = #[trigger] new_app.config_fields@[i];
            let of = old_app.config_fields@[i];
            &&& nf.key == of.key
            &&& nf.hint == of.hint
            &&& nf.value@ == (if i == f.field_idx { v } else { of.value@ })
        }
        &&& new_app == (App { overlay: new_app.overlay, config_fields: new_app.config_fields, ..old_app })
    } else {
        act is Nothing && same_but_overlay(new_app, old_app) && (new_app.overlay matches Overlay::Form(g)
            && g.field_idx == f.field_idx && g.key == f.key && g.hint == f.hint && g.value.wf()
            && (g.value.value@, g.value.cursor as nat) == (match key.code {
                KeyCode::Backspace => crate::text_input::backspace_spec(v, cur),
                KeyCode::Left => (v, crate::text_input::left_spec(v, cur)),
                KeyCode::Right => (v, crate::text_input::right_spec(v, cur)),
                KeyCode::Home => (v, 0nat),
                KeyCode::End => (v, byte_len(v)),
                KeyCode::Char(c) => crate::text_input::insert_spec(v, cur, c),
                _ => (v, cur),
            }))
    }
}

/// `on_key` may run: the active selection can move and an open form has
/// room for one more character.
pub open spec fn can_handle_key(app: App) -> bool {
    &&& app.wf()
    &&& can_move(app, 1)
    &&& can_move(app, -1i64)
    &&& (app.overlay matches Overlay::Form(f) ==> byte_len(f.value.value@) + 4 <= usize::MAX)
}

impl App {
    /// Handles a key press: an open overlay takes every key; otherwise the
    /// global keys come first, then the active tab's keys. `log_lines` are
    /// the command log's lines, used when the key opens the log viewer.
    pub fn on_key(&mut self, key: KeyEvent, log_lines: Vec<String>) -> (act: Action)
        requires
            can_handle_key(*old(self)),
        ensures
            final(self).wf(),
            old(self).overlay is Closed ==> closed_key_ok(*old(self), *final(self), key, log_lines, act),
            !(old(self).overlay is Closed) ==> overlay_key_ok(*old(self), *final(self), key, act),
    {
        if self.overlay.is_active() {
            return self.overlay_key(key);
        }
        match global_key_exec(&key) {
            GlobalKey::Quit => Action::Quit,
            GlobalKey::Refresh => Action::Refresh,
            GlobalKey::OpenLog => {
                self.overlay = Overlay::Log(LogOverlay::new(log_lines));
                Action::Nothing
            },
            GlobalKey::OpenHelp => {
                self.overlay = Overlay::Help;
                Action::Nothing
            },
            GlobalKey::NextTab => {
                self.tab = self.tab.next();
                Action::Nothing
            },
            GlobalKey::PrevTab => {
                self.tab = self.tab.prev();
                Action::Nothing
            },
            GlobalKey::NotGlobal => self.content_key(key),
        }
    }

    fn content_key(&mut self, key: KeyEvent) -> (act: Action)
        requires
            can_handle_key(*old(self)),
            old(self).overlay is Closed,
            global_key_of(key) == GlobalKey::NotGlobal,
        ensures
            final(self).wf(),
            content_key_ok(*old(self), *final(self), key, act),
    {
        match key.code {
            KeyCode::Char('j') | KeyCode::Down => {
                self.move_selection(1);
                Action::Nothing
            },
            KeyCode::Char('k') | KeyCode::Up => {
                self.move_selection(-1);
                Action::Nothing
            },
            KeyCode::Enter | KeyCode::Char('i') => {
                if self.tab == Tab::Config {
                    if self.selected_config < self.config_fields.len() {
                        let field = &self.config_fields[self.selected_config];
                        assert(byte_len(field.value@) <= usize::MAX);
                        let form = ConfigFormState {
                            field_idx: self.selected_config,
                            key: string_from(field.key.as_str()),
                            hint: field.hint,
                            value: TextInput::new(field.value.as_str()),
                        };
                        self.overlay = Overlay::Form(form);
                    }
                }
                Action::Nothing
            },
            KeyCode::Char('x') => {
                if self.tab == Tab::Jobs {
                    self.cancel_job_prompt()
                } else {
                    Action::Nothing
                }
            },
            _ => Action::Nothing,
        }
    }

    fn cancel_job_prompt(&mut self) -> (act: Action)
        requires
            old(self).wf(),
            old(self).overlay is Closed,
        ensures
            final(self).wf(),
            if old(self).selected_job < old(self).jobs@.len() {
                if old(self).jobs@[old(self).selected_job as int].status != JobStatus::Running {
                    *final(self) == *old(self) && (act matches Action::Status(m, k)
                        && m@ == "Selected job is not running"@ && k == StatusKind::Info)
                } else {
                    act is Nothing && same_but_overlay(*final(self), *old(self))
                        && (final(self).overlay matches Overlay::Confirm(c)
                        && cancel_prompt_for(c, *old(self), old(self).selected_job))
                }
            } else {
                act is Nothing && *final(self) == *old(self)
            },
    {
        if self.selected_job >= self.jobs.len() {
            return Action::Nothing;
        }
        let job = &self.jobs[self.selected_job];
        if job.status != JobStatus::Running {
            return Action::Status(string_from("Selected job is not running"), StatusKind::Info);
        }
        let mut message = string_from("Kill running job ");
        push_str(&mut message, job.id.as_str());
        push_str(&mut message, "?");
        self.overlay = Overlay::Confirm(ConfirmOverlay {
            title: string_from("Cancel Job"),
            message,
            action: ConfirmAction::CancelJob(self.selected_job),
        });
        Action::Nothing
    }

    fn overlay_key(&mut self, key: KeyEvent) -> (act: Action)
        requires
            can_handle_key(*old(self)),
            !(old(self).overlay is Closed),
        ensures
            final(self).wf(),
            overlay_key_ok(*old(self), *final(self), key, act),
    {
        let mut overlay = Overlay::Closed;
        std::mem::swap(&mut overlay, &mut self.overlay);
        match overlay {
            Overlay::Closed => Action::Nothing,
            Overlay::Help => {
                if !(key.code == KeyCode::Esc || key.code == KeyCode::Char('q') || key.code == KeyCode::Char('?')) {
                    self.overlay = Overlay::Help;
                }
                Action::Nothing
            },
            Overlay::Log(mut log) => {
                if key.code == KeyCode::Esc || key.code == KeyCode::Char('q') || key.code == KeyCode::Char('l') {
                    return Action::Nothing;
                }
                let n = log.lines.len();
                let down = key.code == KeyCode::Char('j') || key.code == KeyCode::Down;
                let up = key.code == KeyCode::Char('k') || key.code == KeyCode::Up;
                if down && log.scroll < usize::MAX && log.scroll + 1 < n {
                    log.scroll = log.scroll + 1;
                } else if up {
                    log.scroll = if log.scroll > 0 { log.scroll - 1 } else { 0 };
                } else if key.code == KeyCode::Char('g') {
                    log.scroll = 0;
                } else if key.code == KeyCode::Char('G') {
                    log.scroll = if n > 0 { n - 1 } else { 0 };
                }
                self.overlay = Overlay::Log(log);
                Action::Nothing
            },
            Overlay::Confirm(c) => {
                if key.code == KeyCode::Enter || key.code == KeyCode::Char('y') || key.code == KeyCode::Char('Y') {
                    match c.action {
                        ConfirmAction::CancelJob(i) => Action::CancelJob(i),
                    }
                } else if key.code == KeyCode::Esc || key.code == KeyCode::Char('n') || key.code == KeyCode::Char('N') {
                    Action::Nothing
                } else {
                    self.overlay = Overlay::Confirm(c);
                    Action::Nothing
                }
            },
            Overlay::Form(mut form) => {
                match key.code {
                    KeyCode::Esc => Action::Nothing,
                    KeyCode::Enter => {
                        let idx = form.field_idx;
                        if idx < self.config_fields.len() {
                            let new_value = form.value.value;
                            self.set_field_value(idx, new_value);
                        }
                        Action::SaveConfig
                    },
                    KeyCode::Backspace => {
                        form.value.backspace();
                        self.overlay = Overlay::Form(form);
                        Action::Nothing
                    },
                    KeyCode::Left => {
                        form.value.move_left();
                        self.overlay = Overlay::Form(form);
                        Action::Nothing
                    },
                    KeyCode::Right => {
                        form.value.move_right();
                        self.overlay = Overlay::Form(form);
                        Action::Nothing
                    },
                    KeyCode::Home => {
                        form.value.home();
                        self.overlay = Overlay::Form(form);
                        Action::Nothing
                    },
                    KeyCode::End => {
                        form.value.end();
                        self.overlay = Overlay::Form(form);
                        Action::Nothing
                    },
                    KeyCode::Char(c) => {
                        form.value.insert_char(c);
                        self.overlay = Overlay::Form(form);
                        Action::Nothing
                    },
                    _ => {
                        self.overlay = Overlay::Form(form);
                        Action::Nothing
                    },
                }
            },
        }
    }

    fn set_field_value(&mut self, idx: usize, value: String)
        requires
            idx < old(self).config_fields@.len(),
        ensures
            final(self).config_fields@.len() == old(self).config_fields@.len(),
            forall|i: int| 0 <= i < old(self).config_fields@.len() ==> {
                let nf = #[trigger] final(self).config_fields@[i];
                let of = old(self).config_fields@[i];
                &&& nf.key == of.key
                &&& nf.hint == of.hint
                &&& nf.value == (if i == idx { value } else { of.value })
            },
            *final(self) == (App { config_fields: final(self).config_fields, ..*old(self) }),
    {
        let mut fields: Vec<ConfigField> = Vec::new();
        std::mem::swap(&mut fields, &mut self.config_fields);
        let old_field = fields.remove(idx);
        let ConfigField { key, value: _, hint } = old_field;
        fields.insert(idx, ConfigField { key, value, hint });
        self.config_fields = fields;
    }
}

} // verus!

verus! {

/// How an open overlay handles a key (the cases of `on_key` for an open
/// overlay).
pub open spec fn overlay_key_ok(old_app: App, new_app: App, key: KeyEvent, act: Action) -> bool {
    match old_app.overlay {
        Overlay::Closed => true,
        Overlay::Help => act is Nothing && if key.code == KeyCode::Esc || key.code == KeyCode::Char('q')
            || key.code == KeyCode::Char('?') {
            new_app == (App { overlay: Overlay::Closed, ..old_app })
        } else {
            new_app == old_app
        },
        Overlay::Log(log) => log_key_ok(old_app, new_app, log, key, act),
        Overlay::Confirm(c) => confirm_key_ok(old_app, new_app, c, key, act),
        Overlay::Form(f) => form_key_ok(old_app, new_app, f, key, act),
    }
}

/// An open overlay takes every key: the tab, the selections, the loaded
/// data and the quit flag stay as they were, whatever the key.
pub proof fn law_overlay_captures_keys(old_app: App, new_app: App, key: KeyEvent, act: Action)
    requires
        !(old_app.overlay is Closed),
        overlay_key_ok(old_app, new_app, key, act),
    ensures
        new_app.tab == old_app.tab,
        new_app.selected_session == old_app.selected_session,
        new_app.selected_job == old_app.selected_job,
        new_app.selected_config == old_app.selected_config,
        new_app.sessions == old_app.sessions,
        new_app.jobs == old_app.jobs,
        new_app.should_quit == old_app.should_quit,
        !(act is Quit) && !(act is Refresh),
{
}

/// The log viewer's scroll position never passes its last line.
pub proof fn law_log_scroll_in_range(old_app: App, new_app: App, log: LogOverlay, key: KeyEvent, act: Action)
    requires
        old_app.overlay == Overlay::Log(log),
        log.scroll <= last_line(log.lines@.len()),
        log.lines@.len() <= usize::MAX,
        log_key_ok(old_app, new_app, log, key, act),
    ensures
        new_app.overlay matches Overlay::Log(l) ==> l.lines == log.lines && l.scroll <= last_line(l.lines@.len()),
{
}

} // verus!
