//! The dashboard's state and its reaction to keys, and the texts it draws.
//! The terminal, the record files and the commands are driven from outside:
//! each key goes to `App::handle_key`, which says what outside work follows.
use vstd::prelude::*;

use crate::actions::{run_cmd, verb_confirm, PostOpen, RunRequest, RunVerb, Verb};
use crate::board::{reload_selection, step_selection, BoxList};
use crate::state::{labelled, load_boxes, sorted_by_label, stable_arrangement, BoxRecord};
use crate::text::{decimal, push_decimal};
use crate::theme::{fg, fg_style, lemma_preset_named, preset, theme_from, status_glyph_color, status_look, title, title_style, Color, Style, Theme};
use crate::theme::{next_theme, next_theme_idx, theme_name, theme_name_of, THEME_COUNT};

verus! {

/// A key press, as far as the board tells keys apart.
#[derive(Clone, Copy, Debug, PartialEq, Eq, Structural)]
pub enum Key {
    Char(char),
    Esc,
    Up,
    Down,
    Enter,
    Other,
}

/// The outside work that a key asks for.
pub enum KeyAction {
    /// Nothing beyond the change of state.
    Nothing,
    /// The key answered the offer after a shell was left, or a confirmation
    /// prompt: nothing more happens on this turn, not even the periodic
    /// refresh.
    Answered,
    /// Leave the dashboard.
    Quit,
    /// Read the records again and reload the board with them.
    Refresh,
    /// The theme changed: show it and save its name.
    ThemeChanged,
    /// Go to the worktree of this sandbox (`goto_worktree`).
    GotoWorktree { label: String, worktree: String },
}

/// The state of the dashboard, as the contracts speak of it.
pub struct AppView {
    pub records: Seq<BoxRecord>,
    pub selected: Option<int>,
    pub theme_idx: int,
    pub msg: Seq<char>,
    pub pending: Option<Verb>,
    pub run: Option<RunRequest>,
    pub post_open: Option<PostOpen>,
}

/// The state of the dashboard: the board, the theme, the footer message, a
/// verb waiting for confirmation, an action waiting to run, and the sandbox
/// whose shell was just left.
pub struct App {
    list: BoxList,
    theme_idx: usize,
    msg: String,
    pending: Option<Verb>,
    run: Option<RunRequest>,
    post_open: Option<PostOpen>,
}

impl View for App {
    type V = AppView;

    closed spec fn view(&self) -> AppView {
        AppView {
            records: self.list.records(),
            selected: self.list.selection(),
            theme_idx: self.theme_idx as int,
            msg: self.msg@,
            pending: self.pending,
            run: self.run,
            post_open: self.post_open,
        }
    }
}

/// The selected record.
pub open spec fn selected_record(v: AppView) -> Option<BoxRecord> {
    match v.selected {
        Some(i) => if 0 <= i < v.records.len() {
            Some(v.records[i])
        } else {
            None
        },
        None => None,
    }
}

/// A run request for the sandbox `b`.
pub open spec fn request_for(b: BoxRecord, verb: RunVerb) -> RunRequest {
    RunRequest { label: b.label, key: b.key, verb, worktree: b.worktree_path }
}

/// Arming `verb`: it waits for confirmation when a sandbox is selected and
/// has a worktree, or the verb is kill, which needs none.
pub open spec fn armed(v: AppView, verb: Verb) -> AppView {
    match selected_record(v) {
        Some(b) => if b.worktree_path@.len() > 0 || verb == Verb::Kill {
            AppView { pending: Some(verb), ..v }
        } else {
            v
        },
        None => v,
    }
}

/// The board after moving the selection `d` rows.
pub open spec fn moved(v: AppView, d: int) -> AppView {
    if v.records.len() == 0 {
        v
    } else {
        AppView {
            selected: Some(
                step_selection(
                    match v.selected {
                        Some(i) => i,
                        None => 0,
                    },
                    d,
                    v.records.len() as int,
                ),
            ),
            ..v
        }
    }
}

/// Whether `key` is the letter `lower` or its capital `upper`.
pub open spec fn is_letter(key: Key, lower: char, upper: char) -> bool {
    key == Key::Char(lower) || key == Key::Char(upper)
}

/// What a key does to the dashboard, and the outside work it asks for.
///
/// Right after a sandbox shell was left, `p` pulls, `k` kills and any other
/// key leaves the sandbox running. While a verb waits for confirmation, `y`
/// runs it on the selected sandbox and any other key cancels it. Either
/// answer ends the turn. Otherwise:
/// `q` or Esc quits, `r` refreshes, `t` cycles the theme, Down or `j` and Up
/// or `k` move, `s`, `p` and `x` arm sync, pull and kill, `o` opens the
/// sandbox shell, Enter goes to the worktree.
pub open spec fn key_step(v: AppView, key: Key) -> (AppView, KeyAction) {
    match v.post_open {
        Some(po) => {
            let v1 = AppView { post_open: None, ..v };
            if is_letter(key, 'p', 'P') {
                (
                    AppView {
                        run: Some(
                            RunRequest {
                                label: po.label,
                                key: po.key,
                                verb: RunVerb::Pull,
                                worktree: po.worktree,
                            },
                        ),
                        ..v1
                    },
                    KeyAction::Answered,
                )
            } else if is_letter(key, 'k', 'K') {
                (
                    AppView {
                        run: Some(
                            RunRequest {
                                label: po.label,
                                key: po.key,
                                verb: RunVerb::Kill,
                                worktree: po.worktree,
                            },
                        ),
                        ..v1
                    },
                    KeyAction::Answered,
                )
            } else {
                (AppView { msg: "left '"@ + po.label@ + "' running"@, ..v1 }, KeyAction::Answered)
            }
        },
        None => match v.pending {
            Some(verb) => if is_letter(key, 'y', 'Y') {
                (
                    AppView {
                        pending: None,
                        run: match selected_record(v) {
                            Some(b) => Some(request_for(b, crate::actions::run_verb_of(verb))),
                            None => v.run,
                        },
                        ..v
                    },
                    KeyAction::Answered,
                )
            } else {
                (AppView { pending: None, msg: "cancelled"@, ..v }, KeyAction::Answered)
            },
            None => if key == Key::Char('q') || key == Key::Esc {
                (v, KeyAction::Quit)
            } else if key == Key::Char('r') {
                (AppView { msg: "refreshed"@, ..v }, KeyAction::Refresh)
            } else if is_letter(key, 't', 'T') {
                let i = next_theme(v.theme_idx);
                (
                    AppView { theme_idx: i, msg: "theme: "@ + theme_name_of(i) + " (saved)"@, ..v },
                    KeyAction::ThemeChanged,
                )
            } else if key == Key::Down || key == Key::Char('j') {
                (moved(v, 1), KeyAction::Nothing)
            } else if key == Key::Up || key == Key::Char('k') {
                (moved(v, -1), KeyAction::Nothing)
            } else if key == Key::Char('s') {
                (armed(v, Verb::Sync), KeyAction::Nothing)
            } else if key == Key::Char('p') {
                (armed(v, Verb::Pull), KeyAction::Nothing)
            } else if key == Key::Char('x') {
                (armed(v, Verb::Kill), KeyAction::Nothing)
            } else if key == Key::Char('o') {
                (
                    AppView {
                        run: match selected_record(v) {
                            Some(b) => Some(request_for(b, RunVerb::Open)),
                            None => v.run,
                        },
                        ..v
                    },
                    KeyAction::Nothing,
                )
            } else if key == Key::Enter {
                match selected_record(v) {
                    Some(b) => (
                        v,
                        KeyAction::GotoWorktree { label: b.label, worktree: b.worktree_path },
                    ),
                    None => (v, KeyAction::Nothing),
                }
            } else {
                (v, KeyAction::Nothing)
            },
        },
    }
}

impl App {
    #[verifier::type_invariant]
    spec fn well_formed(self) -> bool {
        &&& self.theme_idx < THEME_COUNT
        &&& sorted_by_label(self.list.records())
    }

    /// A dashboard with an empty board, the preset `theme_idx`, and nothing
    /// pending.
    pub fn new(theme_idx: usize) -> (r: App)
        requires
            theme_idx < THEME_COUNT,
        ensures
            r@ == (AppView {
                records: Seq::empty(),
                selected: None,
                theme_idx: theme_idx as int,
                msg: Seq::empty(),
                pending: None,
                run: None,
                post_open: None,
            }),
    {
        App {
            list: BoxList::new(),
            theme_idx,
            msg: String::new(),
            pending: None,
            run: None,
            post_open: None,
        }
    }

    /// The records on the board.
    pub fn boxes(&self) -> (r: &Vec<BoxRecord>)
        ensures
            r@ == self@.records,
            sorted_by_label(r@),
    {
        proof {
            use_type_invariant(self);
        }
        self.list.boxes()
    }

    /// The selected row; there is one exactly when the board is not empty.
    pub fn selected(&self) -> (r: Option<usize>)
        ensures
            r is Some <==> self@.records.len() > 0,
            r matches Some(i) ==> i < self@.records.len() && self@.selected == Some(i as int),
            r is None ==> self@.selected is None,
    {
        self.list.selected()
    }

    /// The preset in use.
    pub fn theme_idx(&self) -> (r: usize)
        ensures
            r == self@.theme_idx,
            r < THEME_COUNT,
    {
        proof {
            use_type_invariant(self);
        }
        self.theme_idx
    }

    /// The footer message.
    pub fn msg(&self) -> (r: &String)
        ensures
            r@ == self@.msg,
    {
        &self.msg
    }

    /// The verb waiting for confirmation.
    pub fn pending(&self) -> (r: Option<Verb>)
        ensures
            r == self@.pending,
    {
        self.pending
    }

    /// The sandbox whose shell was just left.
    pub fn post_open(&self) -> (r: &Option<PostOpen>)
        ensures
            *r == self@.post_open,
    {
        &self.post_open
    }

    /// Sets the footer message.
    pub fn set_msg(&mut self, msg: String)
        ensures
            final(self)@ == (AppView { msg: msg@, ..old(self)@ }),
    {
        proof {
            use_type_invariant(&*self);
        }
        self.msg = msg;
    }

    /// Reloads the board from the parsed record files, given in the order the
    /// directory listed them: the board shows them as `load_boxes` orders
    /// them (labelled, sorted by label, stable), keeping the selected row
    /// where the board still reaches it.
    pub fn reload(&mut self, parsed: Vec<BoxRecord>)
        ensures
            sorted_by_label(final(self)@.records),
            exists|p: Seq<int>|
                #[trigger] stable_arrangement(p, labelled(parsed@), final(self)@.records),
            final(self)@ == (AppView {
                records: final(self)@.records,
                selected: reload_selection(old(self)@.selected, parsed@.len() as int),
                ..old(self)@
            }),
    {
        proof {
            use_type_invariant(&*self);
        }
        let boxes = load_boxes(parsed);
        let mut list = BoxList::new();
        std::mem::swap(&mut list, &mut self.list);
        list.reload(boxes);
        self.list = list;
    }

    /// Moves the selection `d` rows, wrapping around.
    pub fn move_by(&mut self, d: isize)
        ensures
            final(self)@ == moved(old(self)@, d as int),
    {
        proof {
            use_type_invariant(&*self);
        }
        let mut list = BoxList::new();
        std::mem::swap(&mut list, &mut self.list);
        list.move_by(d);
        self.list = list;
    }

    /// The selected record.
    pub fn sel(&self) -> (r: Option<&BoxRecord>)
        ensures
            match selected_record(self@) {
                Some(b) => r matches Some(x) && *x == b,
                None => r is None,
            },
    {
        self.list.sel()
    }

    /// Arms `v` to wait for confirmation, when it applies to the selected
    /// sandbox.
    pub fn arm(&mut self, v: Verb)
        ensures
            final(self)@ == armed(old(self)@, v),
    {
        proof {
            use_type_invariant(&*self);
        }
        let ok = match self.list.sel() {
            Some(b) => !b.worktree_path.as_str().is_empty() || v == Verb::Kill,
            None => false,
        };
        if ok {
            self.pending = Some(v);
        }
    }

    /// Takes the action waiting to run.
    pub fn take_run(&mut self) -> (r: Option<RunRequest>)
        ensures
            r == old(self)@.run,
            final(self)@ == (AppView { run: None, ..old(self)@ }),
    {
        proof {
            use_type_invariant(&*self);
        }
        let mut run = None;
        std::mem::swap(&mut run, &mut self.run);
        run
    }

    /// Records that the sandbox shell of `req` was just left, so the next key
    /// can pull, kill or leave it.
    pub fn after_open(&mut self, req: RunRequest)
        ensures
            final(self)@ == (AppView {
                post_open: Some(PostOpen { label: req.label, key: req.key, worktree: req.worktree }),
                ..old(self)@
            }),
    {
        proof {
            use_type_invariant(&*self);
        }
        self.post_open = Some(PostOpen { label: req.label, key: req.key, worktree: req.worktree });
    }

    fn request(b: &BoxRecord, verb: RunVerb) -> (r: RunRequest)
        ensures
            r == request_for(*b, verb),
    {
        RunRequest {
            label: b.label.clone(),
            key: b.key.clone(),
            verb,
            worktree: b.worktree_path.clone(),
        }
    }

    /// Reacts to a key press; see `key_step`.
    pub fn handle_key(&mut self, key: Key) -> (r: KeyAction)
        ensures
            (final(self)@, r) == key_step(old(self)@, key),
    {
        proof {
            use_type_invariant(&*self);
        }
        let mut post_open = None;
        std::mem::swap(&mut post_open, &mut self.post_open);
        if let Some(po) = post_open {
            if key == Key::Char('p') || key == Key::Char('P') {
                self.run = Some(
                    RunRequest {
                        label: po.label,
                        key: po.key,
                        verb: RunVerb::Pull,
                        worktree: po.worktree,
                    },
                );
            } else if key == Key::Char('k') || key == Key::Char('K') {
                self.run = Some(
                    RunRequest {
                        label: po.label,
                        key: po.key,
                        verb: RunVerb::Kill,
                        worktree: po.worktree,
                    },
                );
            } else {
                let mut m = String::from_str("left '");
                m.append(po.label.as_str());
                m.append("' running");
                self.msg = m;
            }
            return KeyAction::Answered;
        }
        if let Some(v) = self.pending {
            if key == Key::Char('y') || key == Key::Char('Y') {
                let req = match self.list.sel() {
                    Some(b) => Some(App::request(b, RunVerb::from_verb(v))),
                    None => None,
                };
                if let Some(req) = req {
                    self.run = Some(req);
                }
                self.pending = None;
            } else {
                self.pending = None;
                self.msg = String::from_str("cancelled");
            }
            return KeyAction::Answered;
        }
        if key == Key::Char('q') || key == Key::Esc {
            KeyAction::Quit
        } else if key == Key::Char('r') {
            self.msg = String::from_str("refreshed");
            KeyAction::Refresh
        } else if key == Key::Char('t') || key == Key::Char('T') {
            let i = next_theme_idx(self.theme_idx);
            self.theme_idx = i;
            let mut m = String::from_str("theme: ");
            m.append(theme_name(i));
            m.append(" (saved)");
            self.msg = m;
            KeyAction::ThemeChanged
        } else if key == Key::Down || key == Key::Char('j') {
            self.move_by(1);
            KeyAction::Nothing
        } else if key == Key::Up || key == Key::Char('k') {
            self.move_by(-1);
            KeyAction::Nothing
        } else if key == Key::Char('s') {
            self.arm(Verb::Sync);
            KeyAction::Nothing
        } else if key == Key::Char('p') {
            self.arm(Verb::Pull);
            KeyAction::Nothing
        } else if key == Key::Char('x') {
            self.arm(Verb::Kill);
            KeyAction::Nothing
        } else if key == Key::Char('o') {
            let req = match self.list.sel() {
                Some(b) => Some(App::request(b, RunVerb::Open)),
                None => None,
            };
            if let Some(req) = req {
                self.run = Some(req);
            }
            KeyAction::Nothing
        } else if key == Key::Enter {
            match self.list.sel() {
                Some(b) => KeyAction::GotoWorktree {
                    label: b.label.clone(),
                    worktree: b.worktree_path.clone(),
                },
                None => KeyAction::Nothing,
            }
        } else {
            KeyAction::Nothing
        }
    }
}

/// The middle line of the footer: the offer after a sandbox shell was left,
/// a confirmation prompt, or the key help. Each asks for its own style.
pub enum FooterMid {
    PostOpen(String),
    Confirm(String),
    Help(String),
}

/// The key help.
pub open spec fn help_text() -> Seq<char> {
    "  ↑/↓ move · ↵ worktree · o open · s sync · p pull · x kill · r refresh · T theme · q quit"@
}

/// The footer's middle line for the dashboard `v`.
pub open spec fn footer_mid_matches(r: FooterMid, v: AppView) -> bool {
    match v.post_open {
        Some(po) => r matches FooterMid::PostOpen(t) && t@ == "  left '"@ + po.label@
            + "' — [p]ull changes down · [k]ill it · [L]eave running"@,
        None => match v.pending {
            Some(verb) => r matches FooterMid::Confirm(t) && t@ == "  "@ + verb_confirm(
                verb,
                match selected_record(v) {
                    Some(b) => b.label@,
                    None => seq![],
                },
                match selected_record(v) {
                    Some(b) => b.worktree_path@,
                    None => seq![],
                },
            ),
            None => r matches FooterMid::Help(t) && t@ == help_text(),
        },
    }
}

/// The first `n` characters of `s`, or all of it when it is shorter.
pub open spec fn prefix(s: Seq<char>, n: int) -> Seq<char> {
    if s.len() <= n {
        s
    } else {
        s.take(n)
    }
}

/// The sandbox column: the first twelve characters of the sandbox id.
pub fn sandbox_short(id: &str) -> (r: String)
    ensures
        r@ == prefix(id@, 12),
{
    let n = id.unicode_len();
    let k = if n < 12 {
        n
    } else {
        12
    };
    let part = id.substring_char(0, k);
    let r = String::from_str(part);
    assert(n <= 12 ==> id@.subrange(0, k as int) =~= id@);
    r
}

/// The files column: the number of files uploaded, or a dash for none.
pub fn files_text(files: u32) -> (r: String)
    ensures
        r@ == if files > 0 {
            decimal(files as nat)
        } else {
            "—"@
        },
{
    if files > 0 {
        let mut r = String::new();
        push_decimal(&mut r, files as u64);
        assert(r@ =~= decimal(files as nat));
        r
    } else {
        String::from_str("—")
    }
}

impl App {
    /// The title line: the number of sandboxes and the theme in use.
    pub fn header_text(&self) -> (r: String)
        ensures
            r@ == "  herdr-e2b · "@ + decimal(self@.records.len()) + " sandboxes · theme: "@
                + theme_name_of(self@.theme_idx),
    {
        proof {
            use_type_invariant(self);
        }
        let mut r = String::from_str("  herdr-e2b · ");
        push_decimal(&mut r, self.list.boxes().len() as u64);
        r.append(" sandboxes · theme: ");
        r.append(theme_name(self.theme_idx));
        r
    }

    /// The first footer line: the worktree of the selected sandbox (a dash
    /// when it has none), or nothing when no sandbox is selected.
    pub fn target_text(&self) -> (r: String)
        ensures
            r@ == match selected_record(self@) {
                Some(b) => "  target: "@ + if b.worktree_path@.len() == 0 {
                    "—"@
                } else {
                    b.worktree_path@
                },
                None => seq![],
            },
    {
        match self.list.sel() {
            Some(b) => {
                let mut r = String::from_str("  target: ");
                if b.worktree_path.as_str().is_empty() {
                    r.append("—");
                } else {
                    r.append(b.worktree_path.as_str());
                }
                r
            },
            None => String::new(),
        }
    }

    /// The middle footer line.
    pub fn footer_mid(&self) -> (r: FooterMid)
        ensures
            footer_mid_matches(r, self@),
    {
        if let Some(po) = &self.post_open {
            let mut t = String::from_str("  left '");
            t.append(po.label.as_str());
            t.append("' — [p]ull changes down · [k]ill it · [L]eave running");
            return FooterMid::PostOpen(t);
        }
        if let Some(v) = self.pending {
            let b = self.list.sel();
            let label = match b {
                Some(b) => b.label.as_str(),
                None => "",
            };
            let wt = match b {
                Some(b) => b.worktree_path.as_str(),
                None => "",
            };
            proof {
                reveal_strlit("");
            }
            let mut t = String::from_str("  ");
            t.append(v.confirm(label, wt).as_str());
            return FooterMid::Confirm(t);
        }
        FooterMid::Help(
            String::from_str(
                "  ↑/↓ move · ↵ worktree · o open · s sync · p pull · x kill · r refresh · T theme · q quit",
            ),
        )
    }

    /// The last footer line: the message.
    pub fn msg_line(&self) -> (r: String)
        ensures
            r@ == "  "@ + self@.msg,
    {
        let mut r = String::from_str("  ");
        r.append(self.msg.as_str());
        r
    }
}

/// A line of the screen: its text and its style.
pub struct StyledLine {
    pub text: String,
    pub style: Style,
}

/// The footer's middle line, styled: the offer after a shell was left and a
/// confirmation prompt in the theme's confirm style, the key help dim.
pub open spec fn footer_line_matches(r: StyledLine, v: AppView, t: Theme) -> bool {
    match v.post_open {
        Some(po) => r.text@ == "  left '"@ + po.label@
            + "' — [p]ull changes down · [k]ill it · [L]eave running"@ && r.style == t.confirm,
        None => match v.pending {
            Some(verb) => r.text@ == "  "@ + verb_confirm(
                verb,
                match selected_record(v) {
                    Some(b) => b.label@,
                    None => seq![],
                },
                match selected_record(v) {
                    Some(b) => b.worktree_path@,
                    None => seq![],
                },
            ) && r.style == t.confirm,
            None => r.text@ == help_text() && r.style == fg_style(t.dim),
        },
    }
}

/// One row of the board's table: the label; the status glyph with a space
/// after it, in the glyph's colour, followed by the status; the short sandbox
/// id; the files column; the step.
pub struct BoardRow {
    pub label: String,
    pub glyph: String,
    pub glyph_color: Color,
    pub status: String,
    pub sandbox: String,
    pub files: String,
    pub step: String,
}

/// `r` is the table row that shows the record `b` in the theme `t`.
pub open spec fn row_matches(r: BoardRow, b: BoxRecord, t: Theme) -> bool {
    &&& r.label@ == b.label@
    &&& r.glyph@ == status_look(t, b.status@).0 + " "@
    &&& r.glyph_color == status_look(t, b.status@).1
    &&& r.status@ == b.status@
    &&& r.sandbox@ == prefix(b.sandbox_id@, 12)
    &&& r.files@ == (if b.files > 0 {
        decimal(b.files as nat)
    } else {
        "—"@
    })
    &&& r.step@ == b.step@
}

/// The table row that shows the record `b` in the theme `t`.
pub fn board_row(b: &BoxRecord, t: &Theme) -> (r: BoardRow)
    ensures
        row_matches(r, *b, *t),
{
    let (dot, col) = status_glyph_color(t, b.status.as_str());
    let mut glyph = String::from_str(dot);
    glyph.append(" ");
    BoardRow {
        label: b.label.clone(),
        glyph,
        glyph_color: col,
        status: b.status.clone(),
        sandbox: sandbox_short(b.sandbox_id.as_str()),
        files: files_text(b.files),
        step: b.step.clone(),
    }
}

/// How the table looks: its column titles and their style, the border's
/// style, the selected row's style, and the mark before the selected row.
pub struct TableLook {
    pub titles: Vec<String>,
    pub title_style: Style,
    pub border_style: Style,
    pub highlight_style: Style,
    pub highlight_symbol: &'static str,
}

/// The look of the table in the theme `t`: columns NAME, STATUS, SANDBOX,
/// FILES and STEP titled in the accent colour, bold; the border in the border
/// colour; the selected row in the theme's selection style, marked `▸ `.
pub fn table_look(t: &Theme) -> (r: TableLook)
    ensures
        r.titles@.len() == 5,
        r.titles@[0]@ == "NAME"@,
        r.titles@[1]@ == "STATUS"@,
        r.titles@[2]@ == "SANDBOX"@,
        r.titles@[3]@ == "FILES"@,
        r.titles@[4]@ == "STEP"@,
        r.title_style == title_style(*t),
        r.border_style == fg_style(t.border),
        r.highlight_style == t.sel,
        r.highlight_symbol@ == "▸ "@,
{
    let mut titles: Vec<String> = Vec::new();
    titles.push(String::from_str("NAME"));
    titles.push(String::from_str("STATUS"));
    titles.push(String::from_str("SANDBOX"));
    titles.push(String::from_str("FILES"));
    titles.push(String::from_str("STEP"));
    TableLook {
        titles,
        title_style: title(t),
        border_style: fg(t.border),
        highlight_style: t.sel,
        highlight_symbol: "▸ ",
    }
}

impl App {
    /// The theme in use: the preset the dashboard is set to.
    pub fn theme(&self) -> (r: Theme)
        ensures
            r == preset(self@.theme_idx),
    {
        proof {
            use_type_invariant(self);
            lemma_preset_named(self.theme_idx as int);
        }
        theme_from(theme_name(self.theme_idx))
    }

    /// The title line, in the accent colour of the theme in use, bold.
    pub fn header_line(&self) -> (r: StyledLine)
        ensures
            r.text@ == "  herdr-e2b · "@ + decimal(self@.records.len()) + " sandboxes · theme: "@
                + theme_name_of(self@.theme_idx),
            r.style == title_style(preset(self@.theme_idx)),
    {
        let t = self.theme();
        StyledLine { text: self.header_text(), style: title(&t) }
    }

    /// The rows of the table in the theme in use: one per record, in the
    /// board's order.
    pub fn rows(&self) -> (r: Vec<BoardRow>)
        ensures
            r@.len() == self@.records.len(),
            forall|k: int|
                0 <= k < r@.len() ==> row_matches(
                    #[trigger] r@[k],
                    self@.records[k],
                    preset(self@.theme_idx),
                ),
    {
        let t = self.theme();
        let boxes = self.list.boxes();
        let mut rows: Vec<BoardRow> = Vec::new();
        let mut k: usize = 0;
        while k < boxes.len()
            invariant
                k <= boxes@.len(),
                boxes@ == self@.records,
                t == preset(self@.theme_idx),
                rows@.len() == k,
                forall|i: int| 0 <= i < k ==> row_matches(#[trigger] rows@[i], boxes@[i], t),
            decreases boxes@.len() - k,
        {
            rows.push(board_row(&boxes[k], &t));
            k = k + 1;
        }
        rows
    }

    /// How the table looks in the theme in use.
    pub fn table_look(&self) -> (r: TableLook)
        ensures
            r.titles@.len() == 5,
            r.titles@[0]@ == "NAME"@,
            r.titles@[1]@ == "STATUS"@,
            r.titles@[2]@ == "SANDBOX"@,
            r.titles@[3]@ == "FILES"@,
            r.titles@[4]@ == "STEP"@,
            r.title_style == title_style(preset(self@.theme_idx)),
            r.border_style == fg_style(preset(self@.theme_idx).border),
            r.highlight_style == preset(self@.theme_idx).sel,
            r.highlight_symbol@ == "▸ "@,
    {
        let t = self.theme();
        table_look(&t)
    }

    /// The first footer line, dim.
    pub fn target_line(&self) -> (r: StyledLine)
        ensures
            r.text@ == match selected_record(self@) {
                Some(b) => "  target: "@ + if b.worktree_path@.len() == 0 {
                    "—"@
                } else {
                    b.worktree_path@
                },
                None => seq![],
            },
            r.style == fg_style(preset(self@.theme_idx).dim),
    {
        let t = self.theme();
        StyledLine { text: self.target_text(), style: fg(t.dim) }
    }

    /// The middle footer line, styled.
    pub fn footer_line(&self) -> (r: StyledLine)
        ensures
            footer_line_matches(r, self@, preset(self@.theme_idx)),
    {
        let t = self.theme();
        match self.footer_mid() {
            FooterMid::PostOpen(text) => StyledLine { text, style: t.confirm },
            FooterMid::Confirm(text) => StyledLine { text, style: t.confirm },
            FooterMid::Help(text) => StyledLine { text, style: fg(t.dim) },
        }
    }

    /// The last footer line, the message, in the paused colour.
    pub fn message_line(&self) -> (r: StyledLine)
        ensures
            r.text@ == "  "@ + self@.msg,
            r.style == fg_style(preset(self@.theme_idx).paused),
    {
        let t = self.theme();
        StyledLine { text: self.msg_line(), style: fg(t.paused) }
    }
}

/// Moving the selection by `d` rows and back by `-d` rows returns to the row
/// one started from.
pub proof fn lemma_app_move_back(v: AppView, d: int)
    requires
        v.records.len() > 0,
        v.selected matches Some(i) && 0 <= i < v.records.len(),
    ensures
        moved(moved(v, d), -d).selected == v.selected,
{
    crate::board::lemma_move_back(v.selected->0, d, v.records.len() as int);
}

/// Nothing runs against a sandbox without being asked for: a key queues an
/// action only when it is `o` (open the shell), when it answers the offer
/// after a shell was left (pull or kill), or when it is `y` confirming the
/// waiting verb, which is then the verb that runs. Sync, pull and kill
/// therefore never run on a single key from the board.
pub proof fn lemma_actions_need_confirmation(v: AppView, key: Key)
    ensures
        ({
            let w = key_step(v, key).0;
            w.run != v.run ==> match w.run {
                Some(r) => {
                    ||| (r.verb == RunVerb::Open && key == Key::Char('o') && v.post_open is None
                        && v.pending is None)
                    ||| (v.post_open is Some && (r.verb == RunVerb::Pull || r.verb
                        == RunVerb::Kill))
                    ||| (v.post_open is None && is_letter(key, 'y', 'Y') && v.pending is Some
                        && r.verb == crate::actions::run_verb_of(v.pending->0))
                },
                None => false,
            }
        }),
{
}

/// A confirmed verb runs on the sandbox that was selected, with that
/// sandbox's label, key and worktree, and the confirmation is used up.
pub proof fn lemma_confirmed_verb_targets_selection(v: AppView, key: Key)
    requires
        v.post_open is None,
        v.pending is Some,
        is_letter(key, 'y', 'Y'),
    ensures
        key_step(v, key).0.pending is None,
        selected_record(v) matches Some(b) ==> key_step(v, key).0.run == Some(
            request_for(b, crate::actions::run_verb_of(v.pending->0)),
        ),
{
}

/// The arrow keys move the selection one row, wrapping around: with no offer
/// and nothing waiting, Up (like `k`) moves from row `i` to row `i - 1` (the
/// last row from the first), Down (like `j`) to row `i + 1` (the first row
/// from the last); each undoes the other; nothing else changes.
pub proof fn lemma_arrow_keys_move(v: AppView, i: int)
    requires
        v.post_open is None,
        v.pending is None,
        v.records.len() > 0,
        v.selected == Some(i),
        0 <= i < v.records.len(),
    ensures
        ({
            let n = v.records.len() as int;
            let up = key_step(v, Key::Up).0;
            let down = key_step(v, Key::Down).0;
            &&& up.selected == Some(if i == 0 {
                n - 1
            } else {
                i - 1
            })
            &&& down.selected == Some(if i == n - 1 {
                0
            } else {
                i + 1
            })
            &&& key_step(v, Key::Up) == key_step(v, Key::Char('k'))
            &&& key_step(v, Key::Down) == key_step(v, Key::Char('j'))
            &&& key_step(down, Key::Up).0.selected == v.selected
            &&& key_step(up, Key::Down).0.selected == v.selected
            &&& up.records == v.records && up.run == v.run && up.msg == v.msg
            &&& down.records == v.records && down.run == v.run && down.msg == v.msg
            &&& key_step(v, Key::Up).1 is Nothing && key_step(v, Key::Down).1 is Nothing
        }),
{
    let n = v.records.len() as int;
    if i == 0 {
        assert((0 + -1) % n == n - 1) by {
            vstd::arithmetic::div_mod::lemma_mod_multiples_vanish(-1, n - 1, n);
            vstd::arithmetic::div_mod::lemma_small_mod((n - 1) as nat, n as nat);
        }
    } else {
        vstd::arithmetic::div_mod::lemma_small_mod((i - 1) as nat, n as nat);
    }
    if i == n - 1 {
        vstd::arithmetic::div_mod::lemma_mod_self_0(n);
    } else {
        vstd::arithmetic::div_mod::lemma_small_mod((i + 1) as nat, n as nat);
    }
    let up = key_step(v, Key::Up).0;
    let down = key_step(v, Key::Down).0;
    let iu = if i == 0 { n - 1 } else { i - 1 };
    let id = if i == n - 1 { 0 } else { i + 1 };
    if iu == n - 1 {
        vstd::arithmetic::div_mod::lemma_mod_self_0(n);
    } else {
        vstd::arithmetic::div_mod::lemma_small_mod((iu + 1) as nat, n as nat);
    }
    if id == 0 {
        assert((0 + -1) % n == n - 1) by {
            vstd::arithmetic::div_mod::lemma_mod_multiples_vanish(-1, n - 1, n);
            vstd::arithmetic::div_mod::lemma_small_mod((n - 1) as nat, n as nat);
        }
    } else {
        vstd::arithmetic::div_mod::lemma_small_mod((id - 1) as nat, n as nat);
    }
}

/// The confirmation prompt names the sandbox that confirming acts on: with
/// a verb waiting and row `i` selected, the prompt (plain and styled) is the
/// verb's prompt for record `i`'s label and worktree, and `y` queues the verb
/// on record `i`'s label, key and worktree.
pub proof fn lemma_prompt_names_the_confirmed_sandbox(
    v: AppView,
    i: int,
    r: FooterMid,
    line: StyledLine,
    t: Theme,
)
    requires
        v.post_open is None,
        v.pending is Some,
        v.selected == Some(i),
        0 <= i < v.records.len(),
        footer_mid_matches(r, v),
        footer_line_matches(line, v, t),
    ensures
        r matches FooterMid::Confirm(text) && text@ == "  "@ + verb_confirm(
            v.pending->0,
            v.records[i].label@,
            v.records[i].worktree_path@,
        ),
        line.text@ == "  "@ + verb_confirm(
            v.pending->0,
            v.records[i].label@,
            v.records[i].worktree_path@,
        ),
        line.style == t.confirm,
        key_step(v, Key::Char('y')).0.run matches Some(req) && req.label == v.records[i].label
            && req.key == v.records[i].key && req.worktree == v.records[i].worktree_path
            && run_cmd(req.verb) == crate::actions::verb_cmd(v.pending->0),
{
}

/// The keys of the board when nothing is waiting: `q` and Esc quit and
/// change nothing; `r` asks for a refresh; `t` and `T` move to the next preset
/// (back to the first after the last), report it, and ask to save it; any
/// key the board does not use changes nothing.
pub proof fn lemma_board_keys(v: AppView, c: char)
    requires
        v.post_open is None,
        v.pending is None,
        0 <= v.theme_idx < THEME_COUNT,
    ensures
        key_step(v, Key::Char('q')) == (v, KeyAction::Quit),
        key_step(v, Key::Esc) == (v, KeyAction::Quit),
        key_step(v, Key::Char('r')).1 is Refresh,
        key_step(v, Key::Char('r')).0 == (AppView { msg: "refreshed"@, ..v }),
        ({
            let next = if v.theme_idx == THEME_COUNT - 1 {
                0
            } else {
                v.theme_idx + 1
            };
            &&& key_step(v, Key::Char('t')).1 is ThemeChanged
            &&& key_step(v, Key::Char('t')).0 == (AppView {
                theme_idx: next,
                msg: "theme: "@ + theme_name_of(next) + " (saved)"@,
                ..v
            })
            &&& key_step(v, Key::Char('T')) == key_step(v, Key::Char('t'))
        }),
        key_step(v, Key::Other) == (v, KeyAction::Nothing),
        !"qrtTjkspxo"@.contains(c) ==> key_step(v, Key::Char(c)) == (v, KeyAction::Nothing),
{
    reveal_strlit("qrtTjkspxo");
    if !"qrtTjkspxo"@.contains(c) {
        assert("qrtTjkspxo"@[0] == 'q');
        assert("qrtTjkspxo"@[1] == 'r');
        assert("qrtTjkspxo"@[2] == 't');
        assert("qrtTjkspxo"@[3] == 'T');
        assert("qrtTjkspxo"@[4] == 'j');
        assert("qrtTjkspxo"@[5] == 'k');
        assert("qrtTjkspxo"@[6] == 's');
        assert("qrtTjkspxo"@[7] == 'p');
        assert("qrtTjkspxo"@[8] == 'x');
        assert("qrtTjkspxo"@[9] == 'o');
    }
}

/// Answering a waiting verb: `y` or `Y` queues it (and nothing else changes
/// but the waiting verb, now gone); any other key cancels it, queues
/// nothing, and says so. Either way the turn ends.
pub proof fn lemma_answer_waiting_verb(v: AppView, key: Key)
    requires
        v.post_open is None,
        v.pending is Some,
    ensures
        key_step(v, key).0.pending is None,
        key_step(v, key).1 is Answered,
        key_step(v, key).0.records == v.records,
        key_step(v, key).0.selected == v.selected,
        !is_letter(key, 'y', 'Y') ==> key_step(v, key).0 == (AppView {
            pending: None,
            msg: "cancelled"@,
            ..v
        }),
        is_letter(key, 'y', 'Y') ==> key_step(v, key).0.msg == v.msg,
{
}

/// Answering the offer after a sandbox shell was left: `p`/`P` queues a pull
/// and `k`/`K` a kill of that sandbox; any other key leaves it running and
/// says so. The offer is gone afterwards and nothing else changes.
pub proof fn lemma_answer_offer(v: AppView, key: Key)
    requires
        v.post_open is Some,
    ensures
        ({
            let po = v.post_open->0;
            let w = key_step(v, key).0;
            &&& w.post_open is None
            &&& key_step(v, key).1 is Answered
            &&& w.pending == v.pending && w.records == v.records && w.selected == v.selected
            &&& is_letter(key, 'p', 'P') ==> w.run == Some(
                RunRequest { label: po.label, key: po.key, verb: RunVerb::Pull, worktree: po.worktree },
            )
            &&& is_letter(key, 'k', 'K') ==> w.run == Some(
                RunRequest { label: po.label, key: po.key, verb: RunVerb::Kill, worktree: po.worktree },
            )
            &&& !is_letter(key, 'p', 'P') && !is_letter(key, 'k', 'K') ==> w.run == v.run && w.msg
                == "left '"@ + po.label@ + "' running"@
        }),
{
}

} // verus!
