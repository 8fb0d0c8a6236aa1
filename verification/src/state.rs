//! Box records, the state directory, record-file selection and ordering, and
//! shell quoting.
use vstd::prelude::*;

use crate::text::{chars_of, lemma_lex_le_total, lemma_lex_le_transitive, lex_le, lex_le_chars, push_char};

verus! {

/// One tracked sandbox, as the node side writes it into `<state>/boxes/*.json`.
/// Absent optional fields read as empty strings and zero.
pub struct BoxRecord {
    pub key: String,
    pub label: String,
    pub status: String,
    pub step: String,
    pub sandbox_id: String,
    pub files: u32,
    pub worktree_path: String,
}

// ---------------------------------------------------------------------------
// Shell quoting
// ---------------------------------------------------------------------------

/// How one character of a value is written inside single quotes: a quote
/// closes the quoted run, is written escaped, and reopens it.
pub open spec fn quote_piece(c: char) -> Seq<char> {
    if c == '\'' {
        seq!['\'', '\\', '\'', '\'']
    } else {
        seq![c]
    }
}

/// The characters of `s`, each written as `quote_piece` writes it.
pub open spec fn quoted_body(s: Seq<char>) -> Seq<char>
    decreases s.len(),
{
    if s.len() == 0 {
        seq![]
    } else {
        quote_piece(s[0]) + quoted_body(s.drop_first())
    }
}

/// `s` as a single-quoted POSIX shell word.
pub open spec fn sh_quoted(s: Seq<char>) -> Seq<char> {
    seq!['\''] + quoted_body(s) + seq!['\'']
}

/// The value that a POSIX shell gives the word `w` when `w` is made only of
/// single-quoted runs and backslash-escaped characters, `in_quote` telling
/// whether a quoted run is open. Any other word (one with an unquoted
/// character that could expand, split or end the word, or with an
/// unterminated quote) has no value here.
pub open spec fn shell_word_value(w: Seq<char>, in_quote: bool) -> Option<Seq<char>>
    decreases w.len(),
{
    if w.len() == 0 {
        if in_quote {
            None
        } else {
            Some(seq![])
        }
    } else if in_quote {
        if w[0] == '\'' {
            shell_word_value(w.drop_first(), false)
        } else {
            match shell_word_value(w.drop_first(), true) {
                Some(r) => Some(seq![w[0]] + r),
                None => None,
            }
        }
    } else if w[0] == '\'' {
        shell_word_value(w.drop_first(), true)
    } else if w[0] == '\\' && w.len() >= 2 && w[1] != '\n' {
        match shell_word_value(w.subrange(2, w.len() as int), false) {
            Some(r) => Some(seq![w[1]] + r),
            None => None,
        }
    } else {
        None
    }
}

proof fn lemma_quoted_body_push(s: Seq<char>, c: char)
    ensures
        quoted_body(s.push(c)) == quoted_body(s) + quote_piece(c),
    decreases s.len(),
{
    if s.len() == 0 {
        assert(s.push(c).drop_first() =~= seq![]);
        assert(quoted_body(s.push(c).drop_first()) == Seq::<char>::empty());
        assert(quoted_body(s) == Seq::<char>::empty());
        assert(quoted_body(s.push(c)) =~= quote_piece(c));
    } else {
        assert(s.push(c).drop_first() =~= s.drop_first().push(c));
        lemma_quoted_body_push(s.drop_first(), c);
        assert(quoted_body(s.push(c)) =~= quoted_body(s) + quote_piece(c));
    }
}

proof fn lemma_quoted_run(s: Seq<char>, rest: Seq<char>)
    ensures
        shell_word_value(quoted_body(s) + seq!['\''] + rest, true) == match shell_word_value(
            rest,
            false,
        ) {
            Some(r) => Some(s + r),
            None => None,
        },
    decreases s.len(),
{
    let w = quoted_body(s) + seq!['\''] + rest;
    if s.len() == 0 {
        assert(quoted_body(s) == Seq::<char>::empty());
        assert(w =~= seq!['\''] + rest);
        assert(w.drop_first() =~= rest);
        assert(shell_word_value(w, true) == shell_word_value(rest, false));
        match shell_word_value(rest, false) {
            Some(r) => assert(s + r =~= r),
            None => {},
        }
    } else {
        let t = s.drop_first();
        let tail = quoted_body(t) + seq!['\''] + rest;
        lemma_quoted_run(t, rest);
        assert(quoted_body(s) == quote_piece(s[0]) + quoted_body(t));
        if s[0] == '\'' {
            assert(w =~= seq!['\'', '\\', '\'', '\''] + tail);
            let w1 = w.drop_first();
            assert(w1 =~= seq!['\\', '\'', '\''] + tail);
            let w2 = w1.subrange(2, w1.len() as int);
            assert(w2 =~= seq!['\''] + tail);
            assert(w2.drop_first() =~= tail);
            assert(shell_word_value(w2, false) == shell_word_value(tail, true));
            assert(shell_word_value(w, true) == shell_word_value(w1, false));
            match shell_word_value(rest, false) {
                Some(r) => {
                    assert(seq!['\''] + (t + r) =~= s + r);
                },
                None => {},
            }
        } else {
            assert(w =~= seq![s[0]] + tail);
            assert(w.drop_first() =~= tail);
            match shell_word_value(rest, false) {
                Some(r) => assert(seq![s[0]] + (t + r) =~= s + r),
                None => {},
            }
        }
    }
}

/// A quoted value is read back by a POSIX shell as one word whose value is
/// exactly the original: nothing in it expands, splits or escapes the quotes.
pub proof fn lemma_sh_quoted_is_one_word(s: Seq<char>)
    ensures
        shell_word_value(sh_quoted(s), false) == Some(s),
{
    let w = sh_quoted(s);
    assert(w.drop_first() =~= quoted_body(s) + seq!['\''] + seq![]);
    lemma_quoted_run(s, seq![]);
    assert(s + seq![] =~= s);
}

/// POSIX shell single-quote a value so it is one safe token: the value is put
/// in single quotes, and each `'` in it is written as `'\''`.
pub fn sh(s: &str) -> (r: String)
    ensures
        r@ == sh_quoted(s@),
{
    let mut out = String::new();
    push_char(&mut out, '\'');
    let ghost mut done: Seq<char> = seq![];
    for c in it: s.chars()
        invariant
            it.seq() == s@,
            done == it.seq().take(it.index() as int),
            out@ == seq!['\''] + quoted_body(done),
    {
        proof {
            lemma_quoted_body_push(done, c);
        }
        if c == '\'' {
            push_char(&mut out, '\'');
            push_char(&mut out, '\\');
            push_char(&mut out, '\'');
            push_char(&mut out, '\'');
        } else {
            push_char(&mut out, c);
        }
        proof {
            assert(it.seq().take(it.index() + 1) =~= done.push(c));
            done = done.push(c);
        }
        assert(out@ =~= seq!['\''] + quoted_body(done));
    }
    assert(done =~= s@);
    push_char(&mut out, '\'');
    out
}

// ---------------------------------------------------------------------------
// Paths
// ---------------------------------------------------------------------------

/// `base` joined with the relative path `rel`, as `PathBuf::join` joins on
/// Unix: a separator goes between them unless `base` is empty or already ends
/// in one.
pub open spec fn joined(base: Seq<char>, rel: Seq<char>) -> Seq<char> {
    if base.len() == 0 || base.last() == '/' {
        base + rel
    } else {
        base + seq!['/'] + rel
    }
}

/// Joins the relative path `rel` onto `base`.
pub fn join_path(base: &str, rel: &str) -> (r: String)
    requires
        rel@.len() == 0 || rel@[0] != '/',
    ensures
        r@ == joined(base@, rel@),
{
    let mut out = String::from_str(base);
    let n = base.unicode_len();
    if n > 0 && base.get_char(n - 1) != '/' {
        push_char(&mut out, '/');
    }
    out.append(rel);
    out
}

/// Where the plugin keeps its state, from the environment: herdr's own
/// `HERDR_PLUGIN_STATE_DIR` first, then the plugin's `HERDR_E2B_STATE_DIR`,
/// then `herdr/plugins/herdr-e2b` under `XDG_STATE_HOME`, and last
/// `.local/state/herdr/plugins/herdr-e2b` under `HOME` (empty when unset).
pub open spec fn state_dir_path(
    plugin_dir: Option<Seq<char>>,
    e2b_dir: Option<Seq<char>>,
    xdg_state_home: Option<Seq<char>>,
    home: Option<Seq<char>>,
) -> Seq<char> {
    match plugin_dir {
        Some(d) => d,
        None => match e2b_dir {
            Some(d) => d,
            None => match xdg_state_home {
                Some(d) => joined(d, "herdr/plugins/herdr-e2b"@),
                None => joined(
                    match home {
                        Some(h) => h,
                        None => seq![],
                    },
                    ".local/state/herdr/plugins/herdr-e2b"@,
                ),
            },
        },
    }
}

/// The plugin state directory, given the values of `HERDR_PLUGIN_STATE_DIR`,
/// `HERDR_E2B_STATE_DIR`, `XDG_STATE_HOME` and `HOME` (`None` where a
/// variable is unset or not Unicode).
pub fn state_dir(
    plugin_dir: Option<String>,
    e2b_dir: Option<String>,
    xdg_state_home: Option<String>,
    home: Option<String>,
) -> (r: String)
    ensures
        r@ == state_dir_path(
            plugin_dir.deep_view(),
            e2b_dir.deep_view(),
            xdg_state_home.deep_view(),
            home.deep_view(),
        ),
{
    if let Some(d) = plugin_dir {
        return d;
    }
    if let Some(d) = e2b_dir {
        return d;
    }
    proof {
        reveal_strlit("herdr/plugins/herdr-e2b");
        reveal_strlit(".local/state/herdr/plugins/herdr-e2b");
    }
    if let Some(d) = xdg_state_home {
        return join_path(d.as_str(), "herdr/plugins/herdr-e2b");
    }
    let h = match home {
        Some(h) => h,
        None => String::new(),
    };
    join_path(h.as_str(), ".local/state/herdr/plugins/herdr-e2b")
}

/// The directory of box records: the one given on the command line, else
/// `boxes` under the state directory.
pub fn boxes_dir(arg: Option<String>, state_dir: &str) -> (r: String)
    ensures
        r@ == match arg.deep_view() {
            Some(a) => a,
            None => joined(state_dir@, "boxes"@),
        },
{
    match arg {
        Some(a) => a,
        None => {
            proof {
                reveal_strlit("boxes");
            }
            join_path(state_dir, "boxes")
        },
    }
}

/// The index of the last `.` in `s`.
pub open spec fn last_dot(s: Seq<char>) -> Option<int>
    decreases s.len(),
{
    if s.len() == 0 {
        None
    } else if s.last() == '.' {
        Some(s.len() - 1)
    } else {
        last_dot(s.drop_last())
    }
}

/// The extension of a file name as `Path::extension` finds it: what follows
/// the last `.`, where that `.` is not the name's first character, and no
/// extension for `..`.
pub open spec fn file_extension(name: Seq<char>) -> Option<Seq<char>> {
    if name == seq!['.', '.'] {
        None
    } else {
        match last_dot(name) {
            Some(k) => if k == 0 {
                None
            } else {
                Some(name.subrange(k + 1, name.len() as int))
            },
            None => None,
        }
    }
}

proof fn lemma_last_dot_bounds(s: Seq<char>)
    ensures
        match last_dot(s) {
            Some(k) => 0 <= k < s.len() && s[k] == '.' && forall|j: int|
                k < j < s.len() ==> s[j] != '.',
            None => forall|j: int| 0 <= j < s.len() ==> s[j] != '.',
        },
    decreases s.len(),
{
    if s.len() > 0 && s.last() != '.' {
        let t = s.drop_last();
        lemma_last_dot_bounds(t);
        assert(forall|j: int| 0 <= j < t.len() ==> t[j] == s[j]);
    }
}

/// Whether a directory entry with this file name is a box record, that is,
/// whether its extension is `json`.
pub fn is_record_file(name: &str) -> (r: bool)
    ensures
        r == (file_extension(name@) == Some("json"@)),
{
    proof {
        reveal_strlit("json");
    }
    let v = chars_of(name);
    let n = v.len();
    let mut j: usize = n;
    assert(name@.take(n as int) =~= name@);
    while j > 0 && v[j - 1] != '.'
        invariant
            v@ == name@,
            n == v@.len(),
            j <= n,
            last_dot(name@) == last_dot(name@.take(j as int)),
            forall|i: int| j <= i < n ==> name@[i] != '.',
        decreases j,
    {
        assert(name@.take(j as int).drop_last() =~= name@.take(j - 1));
        j = j - 1;
    }
    proof {
        lemma_last_dot_bounds(name@);
    }
    if j <= 1 {
        // no dot, or the only candidate is the name's first character
        if n == 2 && v[0] == '.' && v[1] == '.' {
            assert(name@ =~= seq!['.', '.']);
        }
        return false;
    }
    let k = j - 1;
    assert(last_dot(name@) == Some(k as int));
    if n == 2 && v[0] == '.' && v[1] == '.' {
        assert(name@ =~= seq!['.', '.']);
        return false;
    }
    if n - k - 1 == 4 && v[k + 1] == 'j' && v[k + 2] == 's' && v[k + 3] == 'o' && v[k + 4] == 'n' {
        assert(name@.subrange(k + 1, n as int) =~= "json"@);
        true
    } else {
        assert(name@.subrange(k + 1, n as int).len() != 4 || name@.subrange(k + 1, n as int)[0]
            != 'j' || name@.subrange(k + 1, n as int)[1] != 's' || name@.subrange(
            k + 1,
            n as int,
        )[2] != 'o' || name@.subrange(k + 1, n as int)[3] != 'n');
        false
    }
}

// ---------------------------------------------------------------------------
// Ordering the board
// ---------------------------------------------------------------------------

/// A record as the board shows it: one without a label is labelled by its key.
pub open spec fn with_label(b: BoxRecord) -> BoxRecord {
    if b.label@.len() == 0 {
        BoxRecord { label: b.key, ..b }
    } else {
        b
    }
}

/// The records, each labelled as the board shows it.
pub open spec fn labelled(s: Seq<BoxRecord>) -> Seq<BoxRecord> {
    s.map_values(|b: BoxRecord| with_label(b))
}

/// `dst` is `src` rearranged by `p` (`dst[i]` is `src[p[i]]`, each index of
/// `src` used once), with records of equal label kept in their order in `src`.
pub open spec fn stable_arrangement(p: Seq<int>, src: Seq<BoxRecord>, dst: Seq<BoxRecord>) -> bool {
    &&& p.len() == src.len()
    &&& dst.len() == src.len()
    &&& forall|i: int| 0 <= i < p.len() ==> 0 <= #[trigger] p[i] < src.len() && dst[i] == src[p[i]]
    &&& forall|i: int, j: int| 0 <= i < j < p.len() ==> #[trigger] p[i] != #[trigger] p[j]
    &&& forall|i: int, j: int|
        0 <= i < j < p.len() && #[trigger] dst[i].label@ == #[trigger] dst[j].label@ ==> p[i]
            < p[j]
}

/// The records are in order of label.
pub open spec fn sorted_by_label(s: Seq<BoxRecord>) -> bool {
    forall|i: int, j: int| 0 <= i < j < s.len() ==> lex_le(#[trigger] s[i].label@, #[trigger] s[j].label@)
}

/// Inserting `b` (the record at index `k` of `src`) at `pos`, the first place
/// whose label is above its own, keeps the arrangement sorted and stable.
proof fn lemma_insert_keeps_order(
    out: Seq<BoxRecord>,
    p: Seq<int>,
    src: Seq<BoxRecord>,
    b: BoxRecord,
    pos: int,
    k: int,
)
    requires
        0 <= pos <= out.len(),
        out.len() == k,
        p.len() == k,
        0 <= k < src.len(),
        b == src[k],
        sorted_by_label(out),
        forall|i: int| 0 <= i < k ==> 0 <= #[trigger] p[i] < k && out[i] == src[p[i]],
        forall|i: int, j: int| 0 <= i < j < k ==> #[trigger] p[i] != #[trigger] p[j],
        forall|i: int, j: int|
            0 <= i < j < k && #[trigger] out[i].label@ == #[trigger] out[j].label@ ==> p[i] < p[j],
        forall|i: int| 0 <= i < pos ==> lex_le(#[trigger] out[i].label@, b.label@),
        pos < out.len() ==> !lex_le(out[pos].label@, b.label@),
    ensures
        sorted_by_label(out.insert(pos, b)),
        forall|i: int|
            0 <= i <= k ==> 0 <= #[trigger] p.insert(pos, k)[i] <= k && out.insert(pos, b)[i]
                == src[p.insert(pos, k)[i]],
        forall|i: int, j: int|
            0 <= i < j <= k ==> #[trigger] p.insert(pos, k)[i] != #[trigger] p.insert(pos, k)[j],
        forall|i: int, j: int|
            0 <= i < j <= k && #[trigger] out.insert(pos, b)[i].label@ == #[trigger] out.insert(
                pos,
                b,
            )[j].label@ ==> p.insert(pos, k)[i] < p.insert(pos, k)[j],
{
    let o2 = out.insert(pos, b);
    let p2 = p.insert(pos, k);
    out.insert_ensures(pos, b);
    p.insert_ensures(pos, k);
    let bl = b.label@;
    // everything from `pos` on is strictly above the new label
    assert forall|j: int| pos <= j < k implies lex_le(bl, #[trigger] out[j].label@) && out[j].label@
        != bl by {
        lemma_lex_le_total(out[pos].label@, bl);
        if j > pos {
            assert(lex_le(out[pos].label@, out[j].label@));
            lemma_lex_le_transitive(bl, out[pos].label@, out[j].label@);
        }
        if out[j].label@ == bl {
            if j > pos {
                assert(lex_le(out[pos].label@, out[j].label@));
            }
        }
    }
    assert forall|i: int| 0 <= i <= k implies (i < pos ==> o2[i] == out[i] && p2[i] == p[i]) && (i
        == pos ==> o2[i] == b && p2[i] == k) && (i > pos ==> o2[i] == out[i - 1] && p2[i] == p[i
        - 1]) by {
        if i > pos {
            assert(o2[(i - 1) + 1] == out[i - 1]);
            assert(p2[(i - 1) + 1] == p[i - 1]);
        }
    }
    assert forall|i: int, j: int| 0 <= i < j < o2.len() implies lex_le(
        #[trigger] o2[i].label@,
        #[trigger] o2[j].label@,
    ) by {
        if j < pos {
        } else if j == pos {
        } else if i < pos {
            lemma_lex_le_transitive(out[i].label@, bl, out[j - 1].label@);
        } else if i == pos {
        } else {
            assert(lex_le(out[i - 1].label@, out[j - 1].label@));
        }
    }
    assert forall|i: int, j: int| 0 <= i < j <= k implies #[trigger] p2[i] != #[trigger] p2[j] by {
        if i < pos && j > pos {
            assert(p[i] != p[j - 1]);
        } else if i > pos {
            assert(p[i - 1] != p[j - 1]);
        }
    }
    assert forall|i: int, j: int|
        0 <= i < j <= k && #[trigger] o2[i].label@ == #[trigger] o2[j].label@ implies p2[i]
        < p2[j] by {
        if i < pos && j > pos {
            assert(out[i].label@ == out[j - 1].label@);
        } else if i > pos {
            assert(out[i - 1].label@ == out[j - 1].label@);
        }
    }
}

/// The board's records from the parsed record files, given in the order the
/// directory listed them: each without a label takes its key as label, and
/// they are sorted by label, records of equal label keeping their order.
pub fn load_boxes(parsed: Vec<BoxRecord>) -> (out: Vec<BoxRecord>)
    ensures
        sorted_by_label(out@),
        exists|p: Seq<int>|
            #[trigger] stable_arrangement(p, labelled(parsed@), out@),
{
    let ghost orig = parsed@;
    let ghost src = labelled(parsed@);
    let n = parsed.len();
    let mut rest = parsed;
    let mut out: Vec<BoxRecord> = Vec::new();
    let mut keys: Vec<Vec<char>> = Vec::new();
    let ghost mut p: Seq<int> = seq![];
    let mut k: usize = 0;
    assert(orig.skip(0) =~= orig);
    while k < n
        invariant
            k <= n,
            orig.len() == n,
            src.len() == n,
            rest@ == orig.skip(k as int),
            src == labelled(orig),
            out@.len() == k,
            keys@.len() == k,
            forall|i: int| 0 <= i < k ==> (#[trigger] keys@[i])@ == out@[i].label@,
            sorted_by_label(out@),
            p.len() == k,
            forall|i: int| 0 <= i < k ==> 0 <= #[trigger] p[i] < k && out@[i] == src[p[i]],
            forall|i: int, j: int| 0 <= i < j < k ==> #[trigger] p[i] != #[trigger] p[j],
            forall|i: int, j: int|
                0 <= i < j < k && #[trigger] out@[i].label@ == #[trigger] out@[j].label@ ==> p[i]
                    < p[j],
        decreases n - k,
    {
        let mut b = rest.remove(0);
        assert(rest@ =~= orig.skip(k + 1));
        if b.label.as_str().is_empty() {
            b.label = b.key.clone();
        }
        assert(b == src[k as int]);
        let key = chars_of(b.label.as_str());
        // the first position whose label is above the new one
        let mut pos: usize = 0;
        while pos < out.len() && lex_le_chars(&keys[pos], &key)
            invariant
                pos <= out@.len(),
                keys@.len() == out@.len(),
                forall|i: int| 0 <= i < out@.len() ==> (#[trigger] keys@[i])@ == out@[i].label@,
                key@ == b.label@,
                forall|i: int| 0 <= i < pos ==> lex_le(#[trigger] out@[i].label@, b.label@),
            decreases out@.len() - pos,
        {
            pos = pos + 1;
        }
        proof {
            lemma_insert_keeps_order(out@, p, src, b, pos as int, k as int);
        }
        let ghost old_keys = keys@;
        let ghost old_out = out@;
        out.insert(pos, b);
        keys.insert(pos, key);
        proof {
            old_keys.insert_ensures(pos as int, key);
            old_out.insert_ensures(pos as int, src[k as int]);
            p = p.insert(pos as int, k as int);
            assert forall|i: int| 0 <= i < k + 1 implies (#[trigger] keys@[i])@ == out@[i].label@ by {
                if i > pos {
                    assert(keys@[(i - 1) + 1] == old_keys[i - 1]);
                    assert(out@[(i - 1) + 1] == old_out[i - 1]);
                }
            }
        }
        k = k + 1;
    }
    assert(stable_arrangement(p, src, out@));
    out
}

} // verus!
