use e2b_dash::actions::{RunVerb, Verb};
use e2b_dash::app::{files_text, sandbox_short, App, FooterMid, Key, KeyAction};
use e2b_dash::theme::{theme_from, Style};
use e2b_dash::board::BoxList;
use e2b_dash::state::BoxRecord;

fn rec(key: &str, wt: &str) -> BoxRecord {
    BoxRecord {
        key: key.to_string(),
        label: format!("L{key}"),
        status: "ready".into(),
        step: String::new(),
        sandbox_id: String::new(),
        files: 0,
        worktree_path: wt.to_string(),
    }
}

fn app_with(n: usize) -> App {
    let mut app = App::new(0);
    app.reload((0..n).map(|i| rec(&format!("k{i}"), &format!("/w{i}"))).collect());
    app
}

#[test]
fn reload_selects_first_row() {
    let app = app_with(3);
    assert_eq!(app.selected(), Some(0));
    let empty = app_with(0);
    assert_eq!(empty.selected(), None);
}

#[test]
fn reload_clamps_selection() {
    let mut app = app_with(5);
    app.move_by(4);
    assert_eq!(app.selected(), Some(4));
    app.reload(vec![rec("a", "/a"), rec("b", "/b")]);
    assert_eq!(app.selected(), Some(1));
    app.reload(Vec::new());
    assert_eq!(app.selected(), None);
}

#[test]
fn move_wraps_both_ways() {
    let mut app = app_with(3);
    app.move_by(-1);
    assert_eq!(app.selected(), Some(2));
    app.move_by(1);
    assert_eq!(app.selected(), Some(0));
    app.move_by(7);
    assert_eq!(app.selected(), Some(1));
    app.move_by(isize::MIN);
    app.move_by(isize::MAX);
    assert_eq!(app.selected(), Some(0));
}

#[test]
fn move_back_returns() {
    let mut list = BoxList::new();
    list.reload((0..4).map(|i| rec(&format!("k{i}"), "")).collect());
    for d in [-9isize, -1, 0, 1, 3, 11] {
        let before = list.selected();
        list.move_by(d);
        list.move_by(-d);
        assert_eq!(list.selected(), before);
    }
}

#[test]
fn move_on_empty_board_does_nothing() {
    let mut app = app_with(0);
    app.move_by(1);
    assert_eq!(app.selected(), None);
}

#[test]
fn arm_needs_worktree_except_kill() {
    let mut app = App::new(0);
    app.reload(vec![rec("a", "")]);
    app.arm(Verb::Sync);
    assert_eq!(app.pending(), None);
    app.arm(Verb::Kill);
    assert_eq!(app.pending(), Some(Verb::Kill));
    let mut empty = App::new(0);
    empty.arm(Verb::Kill);
    assert_eq!(empty.pending(), None);
}

#[test]
fn sync_needs_confirmation() {
    let mut app = app_with(2);
    assert!(matches!(app.handle_key(Key::Char('s')), KeyAction::Nothing));
    assert_eq!(app.pending(), Some(Verb::Sync));
    assert!(app.take_run().is_none());
    assert!(matches!(app.handle_key(Key::Char('y')), KeyAction::Answered));
    assert_eq!(app.pending(), None);
    let r = app.take_run().expect("confirmed");
    assert_eq!(r.verb, RunVerb::Sync);
    assert_eq!(r.key, "k0");
    assert_eq!(r.worktree, "/w0");
    assert_eq!(r.label, "Lk0");
}

#[test]
fn other_key_cancels() {
    let mut app = app_with(2);
    app.handle_key(Key::Char('x'));
    app.handle_key(Key::Char('n'));
    assert_eq!(app.pending(), None);
    assert_eq!(app.msg(), "cancelled");
    assert!(app.take_run().is_none());
}

#[test]
fn open_runs_without_confirmation() {
    let mut app = app_with(2);
    app.handle_key(Key::Down);
    app.handle_key(Key::Char('o'));
    let r = app.take_run().expect("open");
    assert_eq!(r.verb, RunVerb::Open);
    assert_eq!(r.key, "k1");
}

#[test]
fn after_open_offers_pull_kill_leave() {
    let mut app = app_with(1);
    app.handle_key(Key::Char('o'));
    let r = app.take_run().unwrap();
    app.after_open(r);
    match app.footer_mid() {
        FooterMid::PostOpen(s) => assert_eq!(s, "  left 'Lk0' — [p]ull changes down · [k]ill it · [L]eave running"),
        _ => panic!("expected the offer"),
    }
    app.handle_key(Key::Char('K'));
    assert!(app.post_open().is_none());
    assert_eq!(app.take_run().unwrap().verb, RunVerb::Kill);

    let r = { app.handle_key(Key::Char('o')); app.take_run().unwrap() };
    app.after_open(r);
    app.handle_key(Key::Char('L'));
    assert_eq!(app.msg(), "left 'Lk0' running");
    assert!(app.take_run().is_none());
}

#[test]
fn keys_quit_refresh_theme_move() {
    let mut app = app_with(3);
    assert!(matches!(app.handle_key(Key::Char('q')), KeyAction::Quit));
    assert!(matches!(app.handle_key(Key::Esc), KeyAction::Quit));
    assert!(matches!(app.handle_key(Key::Char('r')), KeyAction::Refresh));
    assert_eq!(app.msg(), "refreshed");
    assert!(matches!(app.handle_key(Key::Char('T')), KeyAction::ThemeChanged));
    assert_eq!(app.theme_idx(), 1);
    assert_eq!(app.msg(), "theme: solarized-light (saved)");
    app.handle_key(Key::Char('k'));
    assert_eq!(app.selected(), Some(2));
    app.handle_key(Key::Char('j'));
    assert_eq!(app.selected(), Some(0));
    assert!(matches!(app.handle_key(Key::Other), KeyAction::Nothing));
}

#[test]
fn theme_key_cycles_back() {
    let mut app = App::new(4);
    for _ in 0..6 {
        app.handle_key(Key::Char('t'));
    }
    assert_eq!(app.theme_idx(), 4);
}

#[test]
fn enter_asks_to_go_to_worktree() {
    let mut app = app_with(2);
    match app.handle_key(Key::Enter) {
        KeyAction::GotoWorktree { label, worktree } => {
            assert_eq!(label, "Lk0");
            assert_eq!(worktree, "/w0");
        }
        _ => panic!("expected goto"),
    }
    let mut empty = App::new(0);
    assert!(matches!(empty.handle_key(Key::Enter), KeyAction::Nothing));
}

#[test]
fn texts() {
    let mut app = app_with(2);
    assert_eq!(app.header_text(), "  herdr-e2b · 2 sandboxes · theme: terminal");
    assert_eq!(app.target_text(), "  target: /w0");
    match app.footer_mid() {
        FooterMid::Help(s) => assert_eq!(s, "  ↑/↓ move · ↵ worktree · o open · s sync · p pull · x kill · r refresh · T theme · q quit"),
        _ => panic!("expected help"),
    }
    app.handle_key(Key::Char('p'));
    match app.footer_mid() {
        FooterMid::Confirm(s) => assert_eq!(s, "  PULL  sandbox → local   overwrites /w0 from the sandbox   [y/N]"),
        _ => panic!("expected confirm"),
    }
    app.set_msg("hello".into());
    assert_eq!(app.msg_line(), "  hello");
    let mut bare = App::new(0);
    bare.reload(vec![rec("z", "")]);
    assert_eq!(bare.target_text(), "  target: —");
    assert_eq!(App::new(0).target_text(), "");
}

#[test]
fn columns() {
    assert_eq!(sandbox_short("abcdefghijklmnop"), "abcdefghijkl");
    assert_eq!(sandbox_short("short"), "short");
    assert_eq!(files_text(0), "—");
    assert_eq!(files_text(1234), "1234");
}

#[test]
fn styled_lines_follow_the_theme() {
    let t = theme_from("dracula");
    let mut app = App::new(3);
    app.reload((0..2).map(|i| rec(&format!("k{i}"), &format!("/w{i}"))).collect());
    assert_eq!(app.theme(), t);
    let h = app.header_line();
    assert_eq!(h.text, "  herdr-e2b · 2 sandboxes · theme: dracula");
    assert_eq!(h.style, Style { fg: Some(t.accent), bg: None, bold: true, reversed: false });
    let dim = Style { fg: Some(t.dim), bg: None, bold: false, reversed: false };
    assert_eq!(app.target_line().style, dim);
    assert_eq!(app.footer_line().style, dim);
    app.handle_key(Key::Char('x'));
    let c = app.footer_line();
    assert_eq!(c.text, "  KILL  'Lk0'   destroys the sandbox   [y/N]");
    assert_eq!(c.style, t.confirm);
    app.set_msg("hi".into());
    let m = app.message_line();
    assert_eq!(m.text, "  hi");
    assert_eq!(m.style, Style { fg: Some(t.paused), bg: None, bold: false, reversed: false });
}

#[test]
fn drawn_theme_follows_theme_key() {
    let mut app = App::new(5);
    app.handle_key(Key::Char('t'));
    assert_eq!(app.theme(), theme_from("terminal"));
    app.handle_key(Key::Char('t'));
    assert_eq!(app.theme(), theme_from("solarized-light"));
    assert_eq!(app.header_line().style.fg, Some(theme_from("solarized-light").accent));
}

#[test]
fn offer_line_uses_confirm_style() {
    let t = theme_from("nord");
    let mut app = App::new(4);
    app.reload(vec![rec("k0", "/w0")]);
    app.handle_key(Key::Char('o'));
    let r = app.take_run().unwrap();
    app.after_open(r);
    assert_eq!(app.footer_line().style, t.confirm);
}

#[test]
fn rows_one_per_record_in_order() {
    let t = theme_from("terminal");
    let mut app = App::new(0);
    let mut a = rec("a", "/a");
    a.status = "provisioning".into();
    a.sandbox_id = "0123456789abcdef".into();
    a.files = 12;
    a.step = "upload".into();
    let mut b = rec("b", "/b");
    b.status = "weird".into();
    app.reload(vec![b, a]);
    let rows = app.rows();
    assert_eq!(rows.len(), 2);
    assert_eq!(rows[0].label, "La");
    assert_eq!(rows[0].glyph, "◐ ");
    assert_eq!(rows[0].glyph_color, t.prov);
    assert_eq!(rows[0].status, "provisioning");
    assert_eq!(rows[0].sandbox, "0123456789ab");
    assert_eq!(rows[0].files, "12");
    assert_eq!(rows[0].step, "upload");
    assert_eq!(rows[1].label, "Lb");
    assert_eq!(rows[1].glyph, "○ ");
    assert_eq!(rows[1].glyph_color, t.dim);
    assert_eq!(rows[1].files, "—");
    let look = app.table_look();
    assert_eq!(look.titles, ["NAME", "STATUS", "SANDBOX", "FILES", "STEP"]);
    assert_eq!(look.highlight_style, t.sel);
    assert_eq!(look.highlight_symbol, "▸ ");
}

#[test]
fn reload_sorts_and_labels() {
    let mut app = App::new(0);
    let mut z = rec("z", "/z");
    z.label = String::new();
    app.reload(vec![rec("m", "/m"), z, rec("b", "/b")]);
    let labels: Vec<&str> = app.boxes().iter().map(|b| b.label.as_str()).collect();
    assert_eq!(labels, ["Lb", "Lm", "z"]);
}
