//! Per-sandbox actions: the confirm-gated verbs, the step that takes Enter to a
//! sandbox's worktree, and the commands that run an action.
use vstd::prelude::*;

use crate::state::{sh, sh_quoted};
use crate::text::{trim, trimmed};

verus! {

/// The actions that ask for confirmation before they run.
#[derive(Clone, Copy, Debug, PartialEq, Eq, Structural)]
pub enum Verb {
    Sync,
    Pull,
    Kill,
}

/// The `e2b-box` subcommand of a verb.
pub open spec fn verb_cmd(v: Verb) -> Seq<char> {
    match v {
        Verb::Sync => "sync"@,
        Verb::Pull => "pull"@,
        Verb::Kill => "kill"@,
    }
}

/// The confirmation prompt of a verb for the sandbox `label` whose worktree
/// is `wt`.
pub open spec fn verb_confirm(v: Verb, label: Seq<char>, wt: Seq<char>) -> Seq<char> {
    match v {
        Verb::Sync => "SYNC  local → sandbox   uploads "@ + wt
            + " into the sandbox (additive)   [y/N]"@,
        Verb::Pull => "PULL  sandbox → local   overwrites "@ + wt + " from the sandbox   [y/N]"@,
        Verb::Kill => "KILL  '"@ + label + "'   destroys the sandbox   [y/N]"@,
    }
}

impl Verb {
    /// The `e2b-box` subcommand that carries out this verb.
    pub fn cmd(self) -> (r: &'static str)
        ensures
            r@ == verb_cmd(self),
    {
        match self {
            Verb::Sync => "sync",
            Verb::Pull => "pull",
            Verb::Kill => "kill",
        }
    }

    /// The prompt that asks to confirm this verb on the sandbox `label` whose
    /// worktree is `wt`.
    pub fn confirm(self, label: &str, wt: &str) -> (r: String)
        ensures
            r@ == verb_confirm(self, label@, wt@),
    {
        match self {
            Verb::Sync => {
                let mut s = String::from_str("SYNC  local → sandbox   uploads ");
                s.append(wt);
                s.append(" into the sandbox (additive)   [y/N]");
                s
            },
            Verb::Pull => {
                let mut s = String::from_str("PULL  sandbox → local   overwrites ");
                s.append(wt);
                s.append(" from the sandbox   [y/N]");
                s
            },
            Verb::Kill => {
                let mut s = String::from_str("KILL  '");
                s.append(label);
                s.append("'   destroys the sandbox   [y/N]");
                s
            },
        }
    }
}

/// Whether a variable's value is set and not empty.
pub open spec fn is_set(v: Option<Seq<char>>) -> bool {
    match v {
        Some(s) => s.len() > 0,
        None => false,
    }
}

/// The herdr program: `HERDR_BIN_PATH` where it is set and not empty, else
/// `herdr` from the `PATH`.
pub open spec fn herdr_program_path(bin: Option<Seq<char>>) -> Seq<char> {
    match bin {
        Some(b) => if b.len() > 0 {
            b
        } else {
            "herdr"@
        },
        None => "herdr"@,
    }
}

/// The herdr program to run, given the value of `HERDR_BIN_PATH`.
pub fn herdr_program(bin: Option<String>) -> (r: String)
    ensures
        r@ == herdr_program_path(bin.deep_view()),
{
    match bin {
        Some(b) => if b.as_str().is_empty() {
            String::from_str("herdr")
        } else {
            b
        },
        None => String::from_str("herdr"),
    }
}

/// Whether the dashboard runs inside a herdr session, given the value of
/// `HERDR_SOCKET_PATH`: the socket path is set and not empty.
pub fn in_herdr(socket: &Option<String>) -> (r: bool)
    ensures
        r == is_set(socket.deep_view()),
{
    match socket {
        Some(s) => !s.as_str().is_empty(),
        None => false,
    }
}

/// The jq filter that picks the pane whose directory is the worktree or
/// lies under it, and prints its workspace and tab.
pub open spec fn pane_filter() -> Seq<char> {
    "'.result.panes[] | select(.cwd==$wt or (.cwd|startswith($wt+\"/\")) or .foreground_cwd==$wt or (.foreground_cwd|startswith($wt+\"/\"))) | \"\\(.workspace_id) \\(.tab_id)\"'"@
}

/// The script that takes herdr (run as the quoted program `h`) to the
/// worktree quoted as `wt`: it focuses the workspace and tab of a pane open
/// in that directory (or under it), unzooms the board when that pane is the
/// board's own tab, or opens the worktree in a new workspace when no pane
/// shows it. It prints `switched`, `unzoomed`, `opened` or `missing`.
pub open spec fn goto_script(wt: Seq<char>, h: Seq<char>) -> Seq<char> {
    "wt="@ + wt + "; sel=$("@ + h + " pane list 2>/dev/null | jq -r --arg wt \"$wt\" "@
        + pane_filter()
        + " | head -1); ws=$(echo \"$sel\" | cut -d' ' -f1); tab=$(echo \"$sel\" | cut -d' ' -f2); if [ -z \"$ws\" ]; then if [ -d \"$wt\" ]; then "@
        + h
        + " workspace create --cwd \"$wt\" --focus >/dev/null 2>&1 && echo opened || echo missing; else echo missing; fi; elif [ \"$ws\" != \"$HERDR_WORKSPACE_ID\" ]; then "@
        + h + " workspace focus \"$ws\" >/dev/null 2>&1; "@ + h
        + " tab focus \"$tab\" >/dev/null 2>&1; echo switched; elif [ \"$tab\" != \"$HERDR_TAB_ID\" ]; then "@
        + h + " tab focus \"$tab\" >/dev/null 2>&1; echo switched; else "@ + h
        + " pane zoom --pane \"$HERDR_PANE_ID\" --off >/dev/null 2>&1 || "@ + h
        + " pane zoom --current --off >/dev/null 2>&1; echo unzoomed; fi"@
}

/// What Enter does for a sandbox: finish at once with a message for the
/// footer, or run a script through `bash -lc` and read the word it prints.
pub enum GotoStep {
    Done(String),
    Run(String),
}

/// The footer message when the sandbox has no worktree path.
pub open spec fn no_worktree_msg(label: Seq<char>) -> Seq<char> {
    label + ": no worktree path"@
}

/// The footer message when the dashboard runs outside herdr.
pub open spec fn needs_herdr_msg() -> Seq<char> {
    "↵ needs herdr (press o to open the sandbox instead)"@
}

/// Enter on a sandbox: go to its local worktree. Focus an already open herdr
/// workspace for that path (or a subdirectory), else open it fresh. This is
/// only meaningful inside herdr, told by `HERDR_SOCKET_PATH`; the program is
/// told by `HERDR_BIN_PATH`.
pub fn goto_worktree(
    label: &str,
    wt: &str,
    herdr_socket: Option<String>,
    herdr_bin: Option<String>,
) -> (r: GotoStep)
    ensures
        wt@.len() == 0 ==> (r matches GotoStep::Done(m) && m@ == no_worktree_msg(label@)),
        wt@.len() > 0 && !is_set(herdr_socket.deep_view()) ==> (r matches GotoStep::Done(m) && m@
            == needs_herdr_msg()),
        wt@.len() > 0 && is_set(herdr_socket.deep_view()) ==> (r matches GotoStep::Run(script)
            && script@ == goto_script(
            sh_quoted(wt@),
            sh_quoted(herdr_program_path(herdr_bin.deep_view())),
        )),
{
    if wt.is_empty() {
        let mut m = String::from_str(label);
        m.append(": no worktree path");
        return GotoStep::Done(m);
    }
    if !in_herdr(&herdr_socket) {
        return GotoStep::Done(String::from_str("↵ needs herdr (press o to open the sandbox instead)"));
    }
    let herdr = herdr_program(herdr_bin);
    let w = sh(wt);
    let h = sh(herdr.as_str());
    let mut s = String::from_str("wt=");
    s.append(w.as_str());
    s.append("; sel=$(");
    s.append(h.as_str());
    s.append(" pane list 2>/dev/null | jq -r --arg wt \"$wt\" ");
    s.append("'.result.panes[] | select(.cwd==$wt or (.cwd|startswith($wt+\"/\")) or .foreground_cwd==$wt or (.foreground_cwd|startswith($wt+\"/\"))) | \"\\(.workspace_id) \\(.tab_id)\"'");
    s.append(" | head -1); ws=$(echo \"$sel\" | cut -d' ' -f1); tab=$(echo \"$sel\" | cut -d' ' -f2); if [ -z \"$ws\" ]; then if [ -d \"$wt\" ]; then ");
    s.append(h.as_str());
    s.append(" workspace create --cwd \"$wt\" --focus >/dev/null 2>&1 && echo opened || echo missing; else echo missing; fi; elif [ \"$ws\" != \"$HERDR_WORKSPACE_ID\" ]; then ");
    s.append(h.as_str());
    s.append(" workspace focus \"$ws\" >/dev/null 2>&1; ");
    s.append(h.as_str());
    s.append(" tab focus \"$tab\" >/dev/null 2>&1; echo switched; elif [ \"$tab\" != \"$HERDR_TAB_ID\" ]; then ");
    s.append(h.as_str());
    s.append(" tab focus \"$tab\" >/dev/null 2>&1; echo switched; else ");
    s.append(h.as_str());
    s.append(" pane zoom --pane \"$HERDR_PANE_ID\" --off >/dev/null 2>&1 || ");
    s.append(h.as_str());
    s.append(" pane zoom --current --off >/dev/null 2>&1; echo unzoomed; fi");
    GotoStep::Run(s)
}

/// The footer message for the word that the script of `goto_worktree`
/// printed (white space around it ignored).
pub open spec fn goto_result_msg(label: Seq<char>, word: Seq<char>) -> Seq<char> {
    if word == "switched"@ {
        "→ switched to "@ + label + "'s worktree"@
    } else if word == "opened"@ {
        "→ opened "@ + label + "'s worktree"@
    } else if word == "unzoomed"@ {
        "→ "@ + label + " is here — unzoomed the board"@
    } else if word == "missing"@ {
        label + ": worktree not open & not found locally"@
    } else {
        label + ": couldn't switch"@
    }
}

/// The footer message after the script of `goto_worktree` ran, from what it
/// printed (`None` when it could not run or printed other than UTF-8).
pub fn goto_worktree_result(label: &str, output: Option<String>) -> (r: String)
    ensures
        r@ == goto_result_msg(
            label@,
            match output.deep_view() {
                Some(o) => trimmed(o),
                None => seq![],
            },
        ),
{
    let word = match output {
        Some(o) => trim(o.as_str()),
        None => String::new(),
    };
    if word == String::from_str("switched") {
        let mut m = String::from_str("→ switched to ");
        m.append(label);
        m.append("'s worktree");
        m
    } else if word == String::from_str("opened") {
        let mut m = String::from_str("→ opened ");
        m.append(label);
        m.append("'s worktree");
        m
    } else if word == String::from_str("unzoomed") {
        let mut m = String::from_str("→ ");
        m.append(label);
        m.append(" is here — unzoomed the board");
        m
    } else if word == String::from_str("missing") {
        let mut m = String::from_str(label);
        m.append(": worktree not open & not found locally");
        m
    } else {
        let mut m = String::from_str(label);
        m.append(": couldn't switch");
        m
    }
}

/// What a run request does: open the sandbox shell, or one of the verbs.
#[derive(Clone, Copy, Debug, PartialEq, Eq, Structural)]
pub enum RunVerb {
    Open,
    Sync,
    Pull,
    Kill,
}

/// The `e2b-box` subcommand of a run verb.
pub open spec fn run_cmd(v: RunVerb) -> Seq<char> {
    match v {
        RunVerb::Open => "open"@,
        RunVerb::Sync => "sync"@,
        RunVerb::Pull => "pull"@,
        RunVerb::Kill => "kill"@,
    }
}

/// The run verb that carries out a confirmed verb.
pub open spec fn run_verb_of(v: Verb) -> RunVerb {
    match v {
        Verb::Sync => RunVerb::Sync,
        Verb::Pull => RunVerb::Pull,
        Verb::Kill => RunVerb::Kill,
    }
}

impl RunVerb {
    /// The `e2b-box` subcommand.
    pub fn cmd(self) -> (r: &'static str)
        ensures
            r@ == run_cmd(self),
    {
        match self {
            RunVerb::Open => "open",
            RunVerb::Sync => "sync",
            RunVerb::Pull => "pull",
            RunVerb::Kill => "kill",
        }
    }

    /// The run verb that carries out the confirmed verb `v`.
    pub fn from_verb(v: Verb) -> (r: RunVerb)
        ensures
            r == run_verb_of(v),
            run_cmd(r) == verb_cmd(v),
    {
        match v {
            Verb::Sync => RunVerb::Sync,
            Verb::Pull => RunVerb::Pull,
            Verb::Kill => RunVerb::Kill,
        }
    }

    /// Whether the action targets the sandbox by its key alone; every other
    /// action works on the worktree, which must then exist.
    pub fn key_only(self) -> (r: bool)
        ensures
            r == (self == RunVerb::Kill),
    {
        match self {
            RunVerb::Kill => true,
            _ => false,
        }
    }
}

/// An action to run on one sandbox: its label, its key, the verb, and its
/// worktree path.
pub struct RunRequest {
    pub label: String,
    pub key: String,
    pub verb: RunVerb,
    pub worktree: String,
}

/// The sandbox whose shell was just left: its label, key and worktree path.
pub struct PostOpen {
    pub label: String,
    pub key: String,
    pub worktree: String,
}

/// How to carry out a run request.
pub enum RunPlan {
    /// Run nothing; show the message.
    Skip(String),
    /// Hand the terminal to this `bash -lc` script (the sandbox shell), then
    /// offer pull, kill or leave.
    Open(String),
    /// Start herdr `program` as `agent start <name> --cwd <cwd> --split down
    /// --focus -- bash -lc <script>`: the action runs in a pane of its own.
    Pane { program: String, name: String, cwd: String, script: String },
    /// Suspend the board and run this `bash -lc` script in its terminal.
    Inline(String),
}

/// The message when an action that needs the worktree finds none.
pub open spec fn skip_msg(verb: RunVerb, wt: Seq<char>) -> Seq<char> {
    "skipped "@ + run_cmd(verb) + ": worktree not found ("@ + wt + ")"@
}

/// The script that opens the sandbox shell in the worktree `wt` for `key`,
/// with the plugin context unset so `e2b-box` does not follow the board's pane.
pub open spec fn open_script(wt: Seq<char>, key: Seq<char>) -> Seq<char> {
    "unset HERDR_PLUGIN_CONTEXT_JSON; cd "@ + sh_quoted(wt) + " && KEY="@ + sh_quoted(key)
        + " E2B_DASH=1 e2b-box open"@
}

/// The title line printed above an action's output.
pub open spec fn action_header(verb: RunVerb, label: Seq<char>) -> Seq<char> {
    "── e2b-box "@ + run_cmd(verb) + " ("@ + label + ") ──"@
}

/// The script that runs an action: it prints the quoted title, changes to
/// the worktree unless the action goes by key alone, runs `e2b-box` for the
/// key, and waits for Enter.
pub open spec fn action_script(verb: RunVerb, label: Seq<char>, key: Seq<char>, wt: Seq<char>) -> Seq<
    char,
> {
    "unset HERDR_PLUGIN_CONTEXT_JSON; echo "@ + sh_quoted(action_header(verb, label)) + "; "@ + (
    if verb == RunVerb::Kill {
        seq![]
    } else {
        "cd "@ + sh_quoted(wt) + " && "@
    }) + "KEY="@ + sh_quoted(key) + " e2b-box "@ + run_cmd(verb)
        + "; echo; read -rp '↵ close this pane '"@
}

/// Where a pane for an action starts: the worktree, else `HOME`, else `.`.
pub open spec fn action_cwd(wt: Seq<char>, home: Option<Seq<char>>) -> Seq<char> {
    if wt.len() > 0 {
        wt
    } else {
        match home {
            Some(h) => h,
            None => "."@,
        }
    }
}

/// The plan for a run request, from whether its worktree is a directory and
/// the values of `HERDR_SOCKET_PATH`, `HERDR_BIN_PATH` and `HOME`.
pub open spec fn run_plan_matches(
    r: RunPlan,
    req: RunRequest,
    wt_is_dir: bool,
    socket: Option<Seq<char>>,
    bin: Option<Seq<char>>,
    home: Option<Seq<char>>,
) -> bool {
    let wt = req.worktree@;
    if req.verb != RunVerb::Kill && (wt.len() == 0 || !wt_is_dir) {
        r matches RunPlan::Skip(m) && m@ == skip_msg(req.verb, wt)
    } else if req.verb == RunVerb::Open {
        r matches RunPlan::Open(s) && s@ == open_script(wt, req.key@)
    } else {
        let script = action_script(req.verb, req.label@, req.key@, wt);
        if is_set(socket) {
            r matches RunPlan::Pane { program, name, cwd, script: s } && program@
                == herdr_program_path(bin) && name@ == "e2b-"@ + run_cmd(req.verb) && cwd@
                == action_cwd(wt, home) && s@ == script
        } else {
            r matches RunPlan::Inline(s) && s@ == script
        }
    }
}

/// How to run `req`. Kill goes by the sandbox key; every other action works
/// on the worktree, so it must exist: never fall back to the current
/// directory. Open hands the terminal to the sandbox shell; the other actions
/// run in a herdr pane of their own inside a herdr session, else inline.
pub fn plan_run(
    req: &RunRequest,
    wt_is_dir: bool,
    herdr_socket: Option<String>,
    herdr_bin: Option<String>,
    home: Option<String>,
) -> (r: RunPlan)
    ensures
        run_plan_matches(
            r,
            *req,
            wt_is_dir,
            herdr_socket.deep_view(),
            herdr_bin.deep_view(),
            home.deep_view(),
        ),
{
    let key_only = req.verb.key_only();
    let wt = req.worktree.as_str();
    if !key_only && (wt.is_empty() || !wt_is_dir) {
        let mut m = String::from_str("skipped ");
        m.append(req.verb.cmd());
        m.append(": worktree not found (");
        m.append(wt);
        m.append(")");
        return RunPlan::Skip(m);
    }
    if req.verb == RunVerb::Open {
        let mut s = String::from_str("unset HERDR_PLUGIN_CONTEXT_JSON; cd ");
        s.append(sh(wt).as_str());
        s.append(" && KEY=");
        s.append(sh(req.key.as_str()).as_str());
        s.append(" E2B_DASH=1 e2b-box open");
        return RunPlan::Open(s);
    }
    let mut title = String::from_str("── e2b-box ");
    title.append(req.verb.cmd());
    title.append(" (");
    title.append(req.label.as_str());
    title.append(") ──");
    let mut inner = String::from_str("unset HERDR_PLUGIN_CONTEXT_JSON; echo ");
    inner.append(sh(title.as_str()).as_str());
    inner.append("; ");
    let ghost before_cd = inner@;
    if !key_only {
        inner.append("cd ");
        inner.append(sh(wt).as_str());
        inner.append(" && ");
    }
    assert(inner@ == before_cd + (if req.verb == RunVerb::Kill {
        seq![]
    } else {
        "cd "@ + sh_quoted(wt@) + " && "@
    }));
    inner.append("KEY=");
    inner.append(sh(req.key.as_str()).as_str());
    inner.append(" e2b-box ");
    inner.append(req.verb.cmd());
    inner.append("; echo; read -rp '↵ close this pane '");
    if in_herdr(&herdr_socket) {
        let cwd = if wt.is_empty() {
            match home {
                Some(h) => h,
                None => String::from_str("."),
            }
        } else {
            String::from_str(wt)
        };
        let mut name = String::from_str("e2b-");
        name.append(req.verb.cmd());
        RunPlan::Pane { program: herdr_program(herdr_bin), name, cwd, script: inner }
    } else {
        RunPlan::Inline(inner)
    }
}

/// The message after starting an action in a herdr pane, `ok` telling
/// whether herdr reported success.
pub fn pane_result_msg(verb: RunVerb, label: &str, ok: bool) -> (r: String)
    ensures
        r@ == if ok {
            run_cmd(verb) + " · opened a pane for "@ + label@
        } else {
            run_cmd(verb) + ": couldn't open a pane for "@ + label@
        },
{
    let mut m = String::from_str(verb.cmd());
    if ok {
        m.append(" · opened a pane for ");
    } else {
        m.append(": couldn't open a pane for ");
    }
    m.append(label);
    m
}

/// The message after an action ran inline.
pub fn inline_done_msg(verb: RunVerb, label: &str) -> (r: String)
    ensures
        r@ == run_cmd(verb) + " done · "@ + label@,
{
    let mut m = String::from_str(verb.cmd());
    m.append(" done · ");
    m.append(label);
    m
}

/// Only kill goes without a worktree: any other action on a sandbox whose
/// worktree path is empty or not a directory runs nothing, so no action ever
/// falls back to the current directory; and kill is never skipped.
pub proof fn lemma_only_kill_runs_without_worktree(
    r: RunPlan,
    req: RunRequest,
    wt_is_dir: bool,
    socket: Option<Seq<char>>,
    bin: Option<Seq<char>>,
    home: Option<Seq<char>>,
)
    requires
        run_plan_matches(r, req, wt_is_dir, socket, bin, home),
    ensures
        req.verb != RunVerb::Kill && !(req.worktree@.len() > 0 && wt_is_dir) ==> r is Skip,
        req.verb == RunVerb::Kill ==> !(r is Skip) && !(r is Open),
{
}

/// Every action but kill runs inside its worktree: when sync or pull runs,
/// in a herdr pane or inline, its script prints the title, changes into the
/// quoted worktree, and only then runs `e2b-box` for the quoted key; kill
/// goes by the key alone, without changing directory.
pub proof fn lemma_actions_run_in_worktree(
    r: RunPlan,
    req: RunRequest,
    wt_is_dir: bool,
    socket: Option<Seq<char>>,
    bin: Option<Seq<char>>,
    home: Option<Seq<char>>,
)
    requires
        run_plan_matches(r, req, wt_is_dir, socket, bin, home),
        req.verb != RunVerb::Open,
        req.verb == RunVerb::Kill || (req.worktree@.len() > 0 && wt_is_dir),
    ensures
        ({
            let head = "unset HERDR_PLUGIN_CONTEXT_JSON; echo "@ + sh_quoted(
                "── e2b-box "@ + run_cmd(req.verb) + " ("@ + req.label@ + ") ──"@,
            ) + "; "@;
            let tail = "KEY="@ + sh_quoted(req.key@) + " e2b-box "@ + run_cmd(req.verb)
                + "; echo; read -rp '↵ close this pane '"@;
            let expected = if req.verb == RunVerb::Kill {
                head + tail
            } else {
                head + "cd "@ + sh_quoted(req.worktree@) + " && "@ + tail
            };
            match r {
                RunPlan::Pane { script, .. } => script@ == expected,
                RunPlan::Inline(script) => script@ == expected,
                _ => false,
            }
        }),
{
    assert(seq![] + ("KEY="@ + sh_quoted(req.key@)) =~= "KEY="@ + sh_quoted(req.key@));
}

/// Opening the sandbox shell happens in its worktree: the script unsets the
/// plugin context, changes into the quoted worktree and opens the shell for
/// the quoted key; a missing worktree opens nothing.
pub proof fn lemma_open_runs_in_worktree(
    r: RunPlan,
    req: RunRequest,
    wt_is_dir: bool,
    socket: Option<Seq<char>>,
    bin: Option<Seq<char>>,
    home: Option<Seq<char>>,
)
    requires
        run_plan_matches(r, req, wt_is_dir, socket, bin, home),
        req.verb == RunVerb::Open,
    ensures
        req.worktree@.len() > 0 && wt_is_dir ==> (r matches RunPlan::Open(s) && s@
            == "unset HERDR_PLUGIN_CONTEXT_JSON; cd "@ + sh_quoted(req.worktree@) + " && KEY="@
            + sh_quoted(req.key@) + " E2B_DASH=1 e2b-box open"@),
        !(req.worktree@.len() > 0 && wt_is_dir) ==> (r matches RunPlan::Skip(m) && m@
            == "skipped "@ + "open"@ + ": worktree not found ("@ + req.worktree@ + ")"@),
{
}

/// Inside herdr an action other than open gets a pane of its own, named
/// after the verb, started in the worktree (or `HOME`, else `.`, when there
/// is none) by the herdr program; outside herdr it runs inline.
pub proof fn lemma_action_pane(
    r: RunPlan,
    req: RunRequest,
    wt_is_dir: bool,
    socket: Option<Seq<char>>,
    bin: Option<Seq<char>>,
    home: Option<Seq<char>>,
)
    requires
        run_plan_matches(r, req, wt_is_dir, socket, bin, home),
        req.verb != RunVerb::Open,
        req.verb == RunVerb::Kill || (req.worktree@.len() > 0 && wt_is_dir),
    ensures
        is_set(socket) ==> (r matches RunPlan::Pane { program, name, cwd, .. } && name@ == "e2b-"@
            + run_cmd(req.verb) && cwd@ == (if req.worktree@.len() > 0 {
            req.worktree@
        } else {
            match home {
                Some(h) => h,
                None => "."@,
            }
        }) && program@ == (match bin {
            Some(b) => if b.len() > 0 {
                b
            } else {
                "herdr"@
            },
            None => "herdr"@,
        })),
        !is_set(socket) ==> r is Inline,
{
}

} // verus!
