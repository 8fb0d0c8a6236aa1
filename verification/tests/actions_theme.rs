use e2b_dash::actions::{
    goto_worktree, goto_worktree_result, herdr_program, in_herdr, inline_done_msg,
    pane_result_msg, plan_run, GotoStep, RunPlan, RunRequest, RunVerb, Verb,
};
use e2b_dash::state::sh;
use e2b_dash::theme::{
    initial_theme_idx, next_theme_idx, rgb, status_glyph_color, theme_file, theme_from,
    theme_index, theme_name, Color, Style, THEME_COUNT,
};

#[test]
fn verb_commands() {
    assert_eq!(Verb::Sync.cmd(), "sync");
    assert_eq!(Verb::Pull.cmd(), "pull");
    assert_eq!(Verb::Kill.cmd(), "kill");
    assert_eq!(RunVerb::Open.cmd(), "open");
    assert_eq!(RunVerb::from_verb(Verb::Pull), RunVerb::Pull);
    assert!(RunVerb::Kill.key_only());
    assert!(!RunVerb::Sync.key_only());
}

#[test]
fn verb_confirm_prompts() {
    assert_eq!(
        Verb::Sync.confirm("box", "/w"),
        "SYNC  local → sandbox   uploads /w into the sandbox (additive)   [y/N]"
    );
    assert_eq!(
        Verb::Pull.confirm("box", "/w"),
        "PULL  sandbox → local   overwrites /w from the sandbox   [y/N]"
    );
    assert_eq!(Verb::Kill.confirm("box", "/w"), "KILL  'box'   destroys the sandbox   [y/N]");
}

fn expected_goto_script(wt: &str, herdr: &str) -> String {
    let sel = "'.result.panes[] | select(.cwd==$wt or (.cwd|startswith($wt+\"/\")) or .foreground_cwd==$wt or (.foreground_cwd|startswith($wt+\"/\"))) | \"\\(.workspace_id) \\(.tab_id)\"'";
    format!(
        "wt={wt}; sel=$({h} pane list 2>/dev/null | jq -r --arg wt \"$wt\" {sel} | head -1); \
ws=$(echo \"$sel\" | cut -d' ' -f1); tab=$(echo \"$sel\" | cut -d' ' -f2); \
if [ -z \"$ws\" ]; then \
  if [ -d \"$wt\" ]; then {h} workspace create --cwd \"$wt\" --focus >/dev/null 2>&1 && echo opened || echo missing; else echo missing; fi; \
elif [ \"$ws\" != \"$HERDR_WORKSPACE_ID\" ]; then \
  {h} workspace focus \"$ws\" >/dev/null 2>&1; {h} tab focus \"$tab\" >/dev/null 2>&1; echo switched; \
elif [ \"$tab\" != \"$HERDR_TAB_ID\" ]; then \
  {h} tab focus \"$tab\" >/dev/null 2>&1; echo switched; \
else \
  {h} pane zoom --pane \"$HERDR_PANE_ID\" --off >/dev/null 2>&1 || {h} pane zoom --current --off >/dev/null 2>&1; echo unzoomed; \
fi",
        wt = sh(wt),
        h = sh(herdr),
        sel = sel,
    )
}

#[test]
fn goto_without_worktree() {
    match goto_worktree("box", "", Some("/sock".into()), None) {
        GotoStep::Done(m) => assert_eq!(m, "box: no worktree path"),
        GotoStep::Run(_) => panic!("should not run"),
    }
}

#[test]
fn goto_outside_herdr() {
    for socket in [None, Some(String::new())] {
        match goto_worktree("box", "/w", socket, None) {
            GotoStep::Done(m) => assert_eq!(m, "↵ needs herdr (press o to open the sandbox instead)"),
            GotoStep::Run(_) => panic!("should not run"),
        }
    }
}

#[test]
fn goto_script_inside_herdr() {
    match goto_worktree("box", "/my wt", Some("/sock".into()), Some("/opt/herdr".into())) {
        GotoStep::Run(s) => assert_eq!(s, expected_goto_script("/my wt", "/opt/herdr")),
        GotoStep::Done(_) => panic!("should run"),
    }
    match goto_worktree("box", "/w'x", Some("/sock".into()), Some(String::new())) {
        GotoStep::Run(s) => assert_eq!(s, expected_goto_script("/w'x", "herdr")),
        GotoStep::Done(_) => panic!("should run"),
    }
}

#[test]
fn herdr_program_falls_back() {
    assert_eq!(herdr_program(None), "herdr");
    assert_eq!(herdr_program(Some(String::new())), "herdr");
    assert_eq!(herdr_program(Some("/bin/h".into())), "/bin/h");
    assert!(in_herdr(&Some("s".into())));
    assert!(!in_herdr(&Some(String::new())));
    assert!(!in_herdr(&None));
}

#[test]
fn goto_results() {
    assert_eq!(goto_worktree_result("b", Some("switched\n".into())), "→ switched to b's worktree");
    assert_eq!(goto_worktree_result("b", Some("opened".into())), "→ opened b's worktree");
    assert_eq!(goto_worktree_result("b", Some(" unzoomed ".into())), "→ b is here — unzoomed the board");
    assert_eq!(goto_worktree_result("b", Some("missing\n".into())), "b: worktree not open & not found locally");
    assert_eq!(goto_worktree_result("b", Some("other".into())), "b: couldn't switch");
    assert_eq!(goto_worktree_result("b", None), "b: couldn't switch");
}

fn req(verb: RunVerb, wt: &str) -> RunRequest {
    RunRequest { label: "box".into(), key: "k'1".into(), verb, worktree: wt.into() }
}

#[test]
fn run_skips_missing_worktree() {
    match plan_run(&req(RunVerb::Sync, "/gone"), false, None, None, None) {
        RunPlan::Skip(m) => assert_eq!(m, "skipped sync: worktree not found (/gone)"),
        _ => panic!("should skip"),
    }
    match plan_run(&req(RunVerb::Open, ""), true, None, None, None) {
        RunPlan::Skip(m) => assert_eq!(m, "skipped open: worktree not found ()"),
        _ => panic!("should skip"),
    }
}

#[test]
fn run_open_hands_over_terminal() {
    match plan_run(&req(RunVerb::Open, "/w d"), true, Some("s".into()), None, None) {
        RunPlan::Open(s) => assert_eq!(
            s,
            format!("unset HERDR_PLUGIN_CONTEXT_JSON; cd {} && KEY={} E2B_DASH=1 e2b-box open", sh("/w d"), sh("k'1"))
        ),
        _ => panic!("should open"),
    }
}

#[test]
fn run_kill_goes_by_key_in_pane() {
    match plan_run(&req(RunVerb::Kill, ""), false, Some("s".into()), None, Some("/home/u".into())) {
        RunPlan::Pane { program, name, cwd, script } => {
            assert_eq!(program, "herdr");
            assert_eq!(name, "e2b-kill");
            assert_eq!(cwd, "/home/u");
            let header = sh("── e2b-box kill (box) ──");
            assert_eq!(
                script,
                format!("unset HERDR_PLUGIN_CONTEXT_JSON; echo {header}; KEY={} e2b-box kill; echo; read -rp '↵ close this pane '", sh("k'1"))
            );
        }
        _ => panic!("should use a pane"),
    }
    match plan_run(&req(RunVerb::Kill, ""), false, Some("s".into()), None, None) {
        RunPlan::Pane { cwd, .. } => assert_eq!(cwd, "."),
        _ => panic!("should use a pane"),
    }
}

#[test]
fn run_pull_inline_outside_herdr() {
    match plan_run(&req(RunVerb::Pull, "/w"), true, None, None, None) {
        RunPlan::Inline(script) => {
            let header = sh("── e2b-box pull (box) ──");
            assert_eq!(
                script,
                format!("unset HERDR_PLUGIN_CONTEXT_JSON; echo {header}; cd {} && KEY={} e2b-box pull; echo; read -rp '↵ close this pane '", sh("/w"), sh("k'1"))
            );
        }
        _ => panic!("should run inline"),
    }
}

#[test]
fn run_messages() {
    assert_eq!(pane_result_msg(RunVerb::Sync, "b", true), "sync · opened a pane for b");
    assert_eq!(pane_result_msg(RunVerb::Sync, "b", false), "sync: couldn't open a pane for b");
    assert_eq!(inline_done_msg(RunVerb::Kill, "b"), "kill done · b");
}

#[test]
fn rgb_splits_bytes() {
    assert_eq!(rgb(0x268bd2), Color::Rgb(0x26, 0x8b, 0xd2));
    assert_eq!(rgb(0xff123456), Color::Rgb(0x12, 0x34, 0x56));
}

#[test]
fn theme_names_in_cycle_order() {
    let names: Vec<&str> = (0..THEME_COUNT).map(theme_name).collect();
    assert_eq!(names, ["terminal", "solarized-light", "tokyo-night", "dracula", "nord", "gruvbox"]);
    for i in 0..THEME_COUNT {
        assert_eq!(theme_index(theme_name(i)), Some(i));
    }
    assert_eq!(theme_index("auto"), None);
}

#[test]
fn theme_presets() {
    let d = theme_from("dracula");
    assert_eq!(d.accent, Color::Rgb(0xbd, 0x93, 0xf9));
    assert_eq!(d.sel, Style { fg: Some(Color::Rgb(0xf8, 0xf8, 0xf2)), bg: Some(Color::Rgb(0x44, 0x47, 0x5a)), bold: true, reversed: false });
    let t = theme_from("terminal");
    assert_eq!(t.accent, Color::Cyan);
    assert_eq!(t.sel, Style { fg: None, bg: None, bold: true, reversed: true });
    assert_eq!(t.confirm, Style { fg: Some(Color::Black), bg: Some(Color::Yellow), bold: true, reversed: false });
    assert_eq!(theme_from("no-such-theme"), t);
    assert_eq!(theme_from("nord").failed, Color::Rgb(0xbf, 0x61, 0x6a));
}

#[test]
fn status_glyphs() {
    let t = theme_from("gruvbox");
    assert_eq!(status_glyph_color(&t, "ready"), ("●", t.ready));
    assert_eq!(status_glyph_color(&t, "paused"), ("●", t.paused));
    assert_eq!(status_glyph_color(&t, "provisioning"), ("◐", t.prov));
    assert_eq!(status_glyph_color(&t, "failed"), ("●", t.failed));
    assert_eq!(status_glyph_color(&t, "odd"), ("○", t.dim));
}

#[test]
fn theme_file_in_state_dir() {
    assert_eq!(theme_file("/s"), "/s/dashboard-theme");
}

#[test]
fn initial_theme_saved_choice_wins() {
    assert_eq!(initial_theme_idx(Some("nord\n".into()), Some("dracula".into())), 4);
    for i in 0..THEME_COUNT {
        assert_eq!(initial_theme_idx(Some(theme_name(i).to_string()), None), i);
    }
}

#[test]
fn initial_theme_seed_and_default() {
    assert_eq!(initial_theme_idx(Some("bogus".into()), Some("dracula".into())), 3);
    assert_eq!(initial_theme_idx(None, Some("auto".into())), 0);
    assert_eq!(initial_theme_idx(None, Some("tokyo-night".into())), 2);
    assert_eq!(initial_theme_idx(None, Some("bogus".into())), 0);
    assert_eq!(initial_theme_idx(None, None), 0);
}

#[test]
fn theme_cycle_wraps() {
    let mut i = 2;
    for _ in 0..THEME_COUNT {
        i = next_theme_idx(i);
    }
    assert_eq!(i, 2);
    assert_eq!(next_theme_idx(5), 0);
}
