//! Canonical text encoding of the settings record.
//!
//! The record is persisted as one JSON object in a fixed field order, with
//! quote and backslash escaped inside the hotkey string. Reading is strict:
//! a stored text either is exactly a canonical encoding and decodes to the
//! record it encodes, or the whole text counts as corrupt and the defaults
//! are returned — never a partially-merged record.

use vstd::prelude::*;
use crate::settings::AppSettings;
use crate::settings::AppSettingsSpec;
use crate::settings::Theme;
use crate::settings::default_settings;

verus! {

/// How one character of the hotkey string is written inside quotes.
pub open spec fn escape_char(c: char) -> Seq<char> {
    if c == '"' {
        seq!['\\', '"']
    } else if c == '\\' {
        seq!['\\', '\\']
    } else {
        seq![c]
    }
}

/// The hotkey string as written inside its quotes.
pub open spec fn escape_text(s: Seq<char>) -> Seq<char>
    decreases s.len(),
{
    if s.len() == 0 {
        Seq::empty()
    } else {
        escape_char(s[0]) + escape_text(s.drop_first())
    }
}

/// A boolean field's text.
pub open spec fn bool_text(b: bool) -> Seq<char> {
    if b {
        "true"@
    } else {
        "false"@
    }
}

/// A theme's text, as written inside its quotes.
pub open spec fn theme_text(t: Theme) -> Seq<char> {
    match t {
        Theme::Dark => "dark"@,
        Theme::Light => "light"@,
        Theme::System => "system"@,
    }
}

/// The canonical encoding of a settings record.
pub open spec fn settings_text(v: AppSettingsSpec) -> Seq<char> {
    "{\"auto_start\":"@ + bool_text(v.auto_start) + ",\"global_hotkey\":\""@ + escape_text(
        v.global_hotkey,
    ) + "\""@ + ",\"auto_close_on_focus_loss\":"@ + bool_text(v.auto_close_on_focus_loss)
        + ",\"auto_load_clipboard\":"@ + bool_text(v.auto_load_clipboard)
        + ",\"use_llm_parsing\":"@ + bool_text(v.use_llm_parsing) + ",\"theme\":\""@ + theme_text(
        v.theme,
    ) + "\"}"@
}

/// Position just past `lit` when the text carries `lit` at `i`.
pub open spec fn lit_at(t: Seq<char>, i: int, lit: Seq<char>) -> Option<int> {
    if 0 <= i && i + lit.len() <= t.len() && t.subrange(i, i + lit.len()) == lit {
        Some(i + lit.len())
    } else {
        None
    }
}

/// A boolean field read at `i`.
pub open spec fn bool_at(t: Seq<char>, i: int) -> Option<(int, bool)> {
    match lit_at(t, i, "true"@) {
        Some(j) => Some((j, true)),
        None => match lit_at(t, i, "false"@) {
            Some(j) => Some((j, false)),
            None => None,
        },
    }
}

/// A theme word read at `i`.
pub open spec fn theme_at(t: Seq<char>, i: int) -> Option<(int, Theme)> {
    match lit_at(t, i, "dark"@) {
        Some(j) => Some((j, Theme::Dark)),
        None => match lit_at(t, i, "light"@) {
            Some(j) => Some((j, Theme::Light)),
            None => match lit_at(t, i, "system"@) {
                Some(j) => Some((j, Theme::System)),
                None => None,
            },
        },
    }
}

/// The rest of a quoted string read at `i`: unescaped characters up to the
/// closing quote, which is consumed.
pub open spec fn string_body_at(t: Seq<char>, i: int) -> Option<(int, Seq<char>)>
    decreases t.len() - i,
{
    if i < 0 || i >= t.len() {
        None
    } else if t[i] == '"' {
        Some((i + 1, Seq::empty()))
    } else if t[i] == '\\' {
        if i + 1 < t.len() && (t[i + 1] == '"' || t[i + 1] == '\\') {
            match string_body_at(t, i + 2) {
                Some(r) => Some((r.0, seq![t[i + 1]] + r.1)),
                None => None,
            }
        } else {
            None
        }
    } else {
        match string_body_at(t, i + 1) {
            Some(r) => Some((r.0, seq![t[i]] + r.1)),
            None => None,
        }
    }
}

/// The record a stored text encodes, when it is exactly one canonical
/// encoding; anything else counts as corrupt.
pub open spec fn settings_of_text(t: Seq<char>) -> Option<AppSettingsSpec> {
    match lit_at(t, 0, "{\"auto_start\":"@) {
        None => None,
        Some(i1) => match bool_at(t, i1) {
            None => None,
            Some(r1) => match lit_at(t, r1.0, ",\"global_hotkey\":\""@) {
                None => None,
                Some(i2) => match string_body_at(t, i2) {
                    None => None,
                    Some(r2) => match lit_at(t, r2.0, ",\"auto_close_on_focus_loss\":"@) {
                        None => None,
                        Some(i3) => match bool_at(t, i3) {
                            None => None,
                            Some(r3) => match lit_at(t, r3.0, ",\"auto_load_clipboard\":"@) {
                                None => None,
                                Some(i4) => match bool_at(t, i4) {
                                    None => None,
                                    Some(r4) => match lit_at(t, r4.0, ",\"use_llm_parsing\":"@) {
                                        None => None,
                                        Some(i5) => match bool_at(t, i5) {
                                            None => None,
                                            Some(r5) => match lit_at(t, r5.0, ",\"theme\":\""@) {
                                                None => None,
                                                Some(i6) => match theme_at(t, i6) {
                                                    None => None,
                                                    Some(r6) => match lit_at(t, r6.0, "\"}"@) {
                                                        None => None,
                                                        Some(end) => if end == t.len() {
                                                            Some(
                                                                AppSettingsSpec {
                                                                    auto_start: r1.1,
                                                                    global_hotkey: r2.1,
                                                                    auto_close_on_focus_loss: r3.1,
                                                                    auto_load_clipboard: r4.1,
                                                                    use_llm_parsing: r5.1,
                                                                    theme: r6.1,
                                                                },
                                                            )
                                                        } else {
                                                            None
                                                        },
                                                    },
                                                },
                                            },
                                        },
                                    },
                                },
                            },
                        },
                    },
                },
            },
        },
    }
}

/// `lit_at` succeeds exactly past the literal where the text carries it.
proof fn lemma_lit_at_hit(t: Seq<char>, i: int, lit: Seq<char>)
    requires
        0 <= i,
        i + lit.len() <= t.len(),
        t.subrange(i, i + lit.len()) == lit,
    ensures
        lit_at(t, i, lit) == Some(i + lit.len()),
{
}

/// Reading a boolean where its text stands yields that boolean.
proof fn lemma_bool_at(t: Seq<char>, i: int, b: bool)
    requires
        0 <= i,
        i + bool_text(b).len() <= t.len(),
        t.subrange(i, i + bool_text(b).len()) == bool_text(b),
    ensures
        bool_at(t, i) == Some((i + bool_text(b).len(), b)),
{
    reveal_strlit("true");
    reveal_strlit("false");
    if b {
        lemma_lit_at_hit(t, i, "true"@);
    } else {
        lemma_lit_at_hit(t, i, "false"@);
        assert(t.subrange(i, i + bool_text(b).len())[0] == t[i]);
        assert(t[i] == 'f');
        if i + "true"@.len() <= t.len() {
            assert(t.subrange(i, i + "true"@.len())[0] == t[i]);
            assert(t.subrange(i, i + "true"@.len()) != "true"@);
        }
    }
}

/// Reading a theme word where its text stands yields that theme.
proof fn lemma_theme_at(t: Seq<char>, i: int, th: Theme)
    requires
        0 <= i,
        i + theme_text(th).len() <= t.len(),
        t.subrange(i, i + theme_text(th).len()) == theme_text(th),
    ensures
        theme_at(t, i) == Some((i + theme_text(th).len(), th)),
{
    reveal_strlit("dark");
    reveal_strlit("light");
    reveal_strlit("system");
    assert(t.subrange(i, i + theme_text(th).len())[0] == t[i]);
    match th {
        Theme::Dark => {
            lemma_lit_at_hit(t, i, "dark"@);
        },
        Theme::Light => {
            lemma_lit_at_hit(t, i, "light"@);
            assert(t[i] == 'l');
            if i + "dark"@.len() <= t.len() {
                assert(t.subrange(i, i + "dark"@.len())[0] == t[i]);
                assert(t.subrange(i, i + "dark"@.len()) != "dark"@);
            }
        },
        Theme::System => {
            lemma_lit_at_hit(t, i, "system"@);
            assert(t[i] == 's');
            if i + "dark"@.len() <= t.len() {
                assert(t.subrange(i, i + "dark"@.len())[0] == t[i]);
                assert(t.subrange(i, i + "dark"@.len()) != "dark"@);
            }
            if i + "light"@.len() <= t.len() {
                assert(t.subrange(i, i + "light"@.len())[0] == t[i]);
                assert(t.subrange(i, i + "light"@.len()) != "light"@);
            }
        },
    }
}

/// Reading a string body where an escaped string and its closing quote
/// stand yields exactly that string.
proof fn lemma_string_body_at(t: Seq<char>, i: int, s: Seq<char>)
    requires
        0 <= i,
        i + escape_text(s).len() + 1 <= t.len(),
        t.subrange(i, i + escape_text(s).len() + 1) == escape_text(s) + seq!['"'],
    ensures
        string_body_at(t, i) == Some((i + escape_text(s).len() + 1, s)),
    decreases s.len(),
{
    let esc = escape_text(s);
    let w = t.subrange(i, i + esc.len() + 1);
    assert(w[0] == t[i]);
    if s.len() == 0 {
        assert(t[i] == '"');
    } else {
        let c = s[0];
        let rest = s.drop_first();
        let esc_r = escape_text(rest);
        assert(esc == escape_char(c) + esc_r);
        if c == '"' || c == '\\' {
            assert(esc[0] == '\\');
            assert(esc[1] == c);
            assert(t[i] == '\\');
            assert(w[1] == t[i + 1]);
            assert(t[i + 1] == c);
            assert(t.subrange(i + 2, i + 2 + esc_r.len() + 1) =~= esc_r + seq!['"']) by {
                assert forall|k: int| 0 <= k < esc_r.len() + 1 implies t.subrange(
                    i + 2,
                    i + 2 + esc_r.len() + 1,
                )[k] == (esc_r + seq!['"'])[k] by {
                    assert(t.subrange(i + 2, i + 2 + esc_r.len() + 1)[k] == w[k + 2]);
                    assert(w[k + 2] == (esc + seq!['"'])[k + 2]);
                }
            }
            lemma_string_body_at(t, i + 2, rest);
            assert(seq![t[i + 1]] + rest =~= s);
        } else {
            assert(esc[0] == c);
            assert(t[i] == c);
            assert(t.subrange(i + 1, i + 1 + esc_r.len() + 1) =~= esc_r + seq!['"']) by {
                assert forall|k: int| 0 <= k < esc_r.len() + 1 implies t.subrange(
                    i + 1,
                    i + 1 + esc_r.len() + 1,
                )[k] == (esc_r + seq!['"'])[k] by {
                    assert(t.subrange(i + 1, i + 1 + esc_r.len() + 1)[k] == w[k + 1]);
                    assert(w[k + 1] == (esc + seq!['"'])[k + 1]);
                }
            }
            lemma_string_body_at(t, i + 1, rest);
            assert(seq![t[i]] + rest =~= s);
        }
    }
}

/// Escaping distributes over appending one character.
proof fn lemma_escape_snoc(s: Seq<char>, c: char)
    ensures
        escape_text(s.push(c)) == escape_text(s) + escape_char(c),
    decreases s.len(),
{
    if s.len() == 0 {
        assert(s.push(c)[0] == c);
        assert(s.push(c).drop_first() =~= Seq::<char>::empty());
        assert(escape_text(Seq::<char>::empty()) == Seq::<char>::empty());
        assert(escape_text(s.push(c)) =~= escape_text(s) + escape_char(c));
    } else {
        assert(s.push(c).drop_first() =~= s.drop_first().push(c));
        lemma_escape_snoc(s.drop_first(), c);
        assert(s.push(c)[0] == s[0]);
        assert(escape_text(s.push(c)) == escape_char(s[0]) + escape_text(s.drop_first().push(c)));
        assert(escape_char(s[0]) + (escape_text(s.drop_first()) + escape_char(c)) =~= (escape_char(
            s[0],
        ) + escape_text(s.drop_first())) + escape_char(c));
        assert(escape_text(s.push(c)) =~= escape_text(s) + escape_char(c));
    }
}

/// Splitting the last piece off a known prefix of the text: where
/// `t[0 .. end]` is `a + b`, the two stand at their own windows.
proof fn lemma_peel_last(t: Seq<char>, end: int, a: Seq<char>, b: Seq<char>)
    requires
        0 <= end <= t.len(),
        t.subrange(0, end) == a + b,
    ensures
        end == a.len() + b.len(),
        t.subrange(0, end - b.len()) == a,
        t.subrange(end - b.len(), end) == b,
{
    let asz = a.len() as int;
    let bsz = b.len() as int;
    assert(t.subrange(0, end).len() == end - 0);
    assert(end == asz + bsz);
    assert(t.subrange(0, asz) =~= a) by {
        assert forall|j: int| 0 <= j < asz implies t.subrange(0, asz)[j] == a[j] by {
            assert(t.subrange(0, asz)[j] == t[j]);
            assert(t.subrange(0, end)[j] == t[j]);
            assert(t.subrange(0, end)[j] == (a + b)[j]);
        }
    }
    assert(t.subrange(asz, end) =~= b) by {
        assert forall|j: int| 0 <= j < bsz implies t.subrange(asz, end)[j] == b[j] by {
            assert(t.subrange(asz, end)[j] == t[asz + j]);
            assert(t.subrange(0, end)[asz + j] == t[asz + j]);
            assert(t.subrange(0, end)[asz + j] == (a + b)[asz + j]);
        }
    }
}

/// The opening brace, the auto-start field and the hotkey string of a
/// canonical encoding are read back at their own windows.
#[verifier::rlimit(100)]
proof fn lemma_encoding_fields_head(v: AppSettingsSpec)
    ensures
        ({
            let t = settings_text(v);
            let p1 = "{\"auto_start\":"@.len() as int;
            let p2 = p1 + bool_text(v.auto_start).len();
            let p3 = p2 + ",\"global_hotkey\":\""@.len();
            let p5 = p3 + escape_text(v.global_hotkey).len() + 1;
            &&& lit_at(t, 0, "{\"auto_start\":"@) == Some(p1)
            &&& bool_at(t, p1) == Some((p2, v.auto_start))
            &&& lit_at(t, p2, ",\"global_hotkey\":\""@) == Some(p3)
            &&& string_body_at(t, p3) == Some((p5, v.global_hotkey))
        }),
{
    let t = settings_text(v);
    let l0 = "{\"auto_start\":"@;
    let b1 = bool_text(v.auto_start);
    let l1 = ",\"global_hotkey\":\""@;
    let e = escape_text(v.global_hotkey);
    let q = "\""@;
    let l2 = ",\"auto_close_on_focus_loss\":"@;
    let b2 = bool_text(v.auto_close_on_focus_loss);
    let l3 = ",\"auto_load_clipboard\":"@;
    let b3 = bool_text(v.auto_load_clipboard);
    let l4 = ",\"use_llm_parsing\":"@;
    let b4 = bool_text(v.use_llm_parsing);
    let l5 = ",\"theme\":\""@;
    let th = theme_text(v.theme);
    let l6 = "\"}"@;
    let x1 = l0 + b1;
    let x2 = x1 + l1;
    let x3 = x2 + e;
    let x4 = x3 + q;
    let x5 = x4 + l2;
    let x6 = x5 + b2;
    let x7 = x6 + l3;
    let x8 = x7 + b3;
    let x9 = x8 + l4;
    let x10 = x9 + b4;
    let x11 = x10 + l5;
    let x12 = x11 + th;
    let x13 = x12 + l6;
    let p1 = l0.len() as int;
    let p2 = p1 + b1.len();
    let p3 = p2 + l1.len();
    let p4 = p3 + e.len();
    let p5 = p4 + q.len();
    let p6 = p5 + l2.len();
    let p7 = p6 + b2.len();
    let p8 = p7 + l3.len();
    let p9 = p8 + b3.len();
    let p10 = p9 + l4.len();
    let p11 = p10 + b4.len();
    let p12 = p11 + l5.len();
    let p13 = p12 + th.len();
    let p14 = p13 + l6.len();
    assert(t == x13);
    assert(t.len() == p14);
    assert(t.subrange(0, p14) =~= t);
    lemma_peel_last(t, p14, x12, l6);
    lemma_peel_last(t, p13, x11, th);
    lemma_peel_last(t, p12, x10, l5);
    lemma_peel_last(t, p11, x9, b4);
    lemma_peel_last(t, p10, x8, l4);
    lemma_peel_last(t, p9, x7, b3);
    lemma_peel_last(t, p8, x6, l3);
    lemma_peel_last(t, p7, x5, b2);
    lemma_peel_last(t, p6, x4, l2);
    lemma_peel_last(t, p5, x3, q);
    lemma_peel_last(t, p4, x2, e);
    lemma_peel_last(t, p3, x1, l1);
    lemma_peel_last(t, p2, l0, b1);
    reveal_strlit("\"");
    assert(q.len() == 1 && q[0] == '"');
    assert(t.subrange(p3, p5) =~= e + seq!['"']) by {
        assert forall|j: int| 0 <= j < e.len() + 1 implies t.subrange(p3, p5)[j] == (e + seq![
            '"',
        ])[j] by {
            if j < e.len() {
                assert(t.subrange(p3, p4)[j] == e[j]);
            } else {
                assert(t.subrange(p4, p5)[0] == q[0]);
            }
        }
    }
    lemma_lit_at_hit(t, 0, l0);
    lemma_bool_at(t, p1, v.auto_start);
    lemma_lit_at_hit(t, p2, l1);
    lemma_string_body_at(t, p3, v.global_hotkey);
}

/// The remaining fields of a canonical encoding are read back at their own
/// windows, and the closing brace ends the text.
#[verifier::rlimit(100)]
proof fn lemma_encoding_fields_tail(v: AppSettingsSpec)
    ensures
        ({
            let t = settings_text(v);
            let p1 = "{\"auto_start\":"@.len() as int;
            let p2 = p1 + bool_text(v.auto_start).len();
            let p3 = p2 + ",\"global_hotkey\":\""@.len();
            let p5 = p3 + escape_text(v.global_hotkey).len() + 1;
            let p6 = p5 + ",\"auto_close_on_focus_loss\":"@.len();
            let p7 = p6 + bool_text(v.auto_close_on_focus_loss).len();
            let p8 = p7 + ",\"auto_load_clipboard\":"@.len();
            let p9 = p8 + bool_text(v.auto_load_clipboard).len();
            let p10 = p9 + ",\"use_llm_parsing\":"@.len();
            let p11 = p10 + bool_text(v.use_llm_parsing).len();
            let p12 = p11 + ",\"theme\":\""@.len();
            let p13 = p12 + theme_text(v.theme).len();
            let p14 = p13 + "\"}"@.len();
            &&& lit_at(t, p5, ",\"auto_close_on_focus_loss\":"@) == Some(p6)
            &&& bool_at(t, p6) == Some((p7, v.auto_close_on_focus_loss))
            &&& lit_at(t, p7, ",\"auto_load_clipboard\":"@) == Some(p8)
            &&& bool_at(t, p8) == Some((p9, v.auto_load_clipboard))
            &&& lit_at(t, p9, ",\"use_llm_parsing\":"@) == Some(p10)
            &&& bool_at(t, p10) == Some((p11, v.use_llm_parsing))
            &&& lit_at(t, p11, ",\"theme\":\""@) == Some(p12)
            &&& theme_at(t, p12) == Some((p13, v.theme))
            &&& lit_at(t, p13, "\"}"@) == Some(p14)
            &&& p14 == t.len()
        }),
{
    let t = settings_text(v);
    let l0 = "{\"auto_start\":"@;
    let b1 = bool_text(v.auto_start);
    let l1 = ",\"global_hotkey\":\""@;
    let e = escape_text(v.global_hotkey);
    let q = "\""@;
    let l2 = ",\"auto_close_on_focus_loss\":"@;
    let b2 = bool_text(v.auto_close_on_focus_loss);
    let l3 = ",\"auto_load_clipboard\":"@;
    let b3 = bool_text(v.auto_load_clipboard);
    let l4 = ",\"use_llm_parsing\":"@;
    let b4 = bool_text(v.use_llm_parsing);
    let l5 = ",\"theme\":\""@;
    let th = theme_text(v.theme);
    let l6 = "\"}"@;
    let x1 = l0 + b1;
    let x2 = x1 + l1;
    let x3 = x2 + e;
    let x4 = x3 + q;
    let x5 = x4 + l2;
    let x6 = x5 + b2;
    let x7 = x6 + l3;
    let x8 = x7 + b3;
    let x9 = x8 + l4;
    let x10 = x9 + b4;
    let x11 = x10 + l5;
    let x12 = x11 + th;
    let x13 = x12 + l6;
    let p1 = l0.len() as int;
    let p2 = p1 + b1.len();
    let p3 = p2 + l1.len();
    let p4 = p3 + e.len();
    let p5 = p4 + q.len();
    let p6 = p5 + l2.len();
    let p7 = p6 + b2.len();
    let p8 = p7 + l3.len();
    let p9 = p8 + b3.len();
    let p10 = p9 + l4.len();
    let p11 = p10 + b4.len();
    let p12 = p11 + l5.len();
    let p13 = p12 + th.len();
    let p14 = p13 + l6.len();
    assert(t == x13);
    assert(t.len() == p14);
    assert(t.subrange(0, p14) =~= t);
    lemma_peel_last(t, p14, x12, l6);
    lemma_peel_last(t, p13, x11, th);
    lemma_peel_last(t, p12, x10, l5);
    lemma_peel_last(t, p11, x9, b4);
    lemma_peel_last(t, p10, x8, l4);
    lemma_peel_last(t, p9, x7, b3);
    lemma_peel_last(t, p8, x6, l3);
    lemma_peel_last(t, p7, x5, b2);
    lemma_peel_last(t, p6, x4, l2);
    lemma_peel_last(t, p5, x3, q);
    lemma_peel_last(t, p4, x2, e);
    lemma_peel_last(t, p3, x1, l1);
    lemma_peel_last(t, p2, l0, b1);
    reveal_strlit("\"");
    assert(q.len() == 1);
    lemma_lit_at_hit(t, p5, l2);
    lemma_bool_at(t, p6, v.auto_close_on_focus_loss);
    lemma_lit_at_hit(t, p7, l3);
    lemma_bool_at(t, p8, v.auto_load_clipboard);
    lemma_lit_at_hit(t, p9, l4);
    lemma_bool_at(t, p10, v.use_llm_parsing);
    lemma_lit_at_hit(t, p11, l5);
    lemma_theme_at(t, p12, v.theme);
    lemma_lit_at_hit(t, p13, l6);
}

/// Saving and immediately loading gives the saved record back: decoding a
/// canonical encoding yields exactly the record that was encoded, for every
/// settings record.
pub proof fn lemma_settings_round_trip(v: AppSettingsSpec)
    ensures
        settings_of_text(settings_text(v)) == Some(v),
{
    lemma_encoding_fields_head(v);
    lemma_encoding_fields_tail(v);
    let t = settings_text(v);
    assert(settings_of_text(t) == Some(
        AppSettingsSpec {
            auto_start: v.auto_start,
            global_hotkey: v.global_hotkey,
            auto_close_on_focus_loss: v.auto_close_on_focus_loss,
            auto_load_clipboard: v.auto_load_clipboard,
            use_llm_parsing: v.use_llm_parsing,
            theme: v.theme,
        },
    ));
}

/// Distinct settings records never store as the same text.
pub proof fn lemma_encoding_injective(a: AppSettingsSpec, b: AppSettingsSpec)
    requires
        settings_text(a) == settings_text(b),
    ensures
        a == b,
{
    lemma_settings_round_trip(a);
    lemma_settings_round_trip(b);
}

fn append_bool(out: &mut String, b: bool)
    ensures
        final(out)@ == old(out)@ + bool_text(b),
{
    if b {
        out.append("true");
    } else {
        out.append("false");
    }
}

fn append_theme(out: &mut String, t: Theme)
    ensures
        final(out)@ == old(out)@ + theme_text(t),
{
    match t {
        Theme::Dark => out.append("dark"),
        Theme::Light => out.append("light"),
        Theme::System => out.append("system"),
    }
}

fn append_escaped(out: &mut String, s: &String)
    ensures
        final(out)@ == old(out)@ + escape_text(s@),
{
    let n = s.as_str().unicode_len();
    proof {
        assert(escape_text(s@.subrange(0, 0)) == Seq::<char>::empty());
        assert(out@ + escape_text(s@.subrange(0, 0)) =~= out@);
    }
    let mut i: usize = 0;
    while i < n
        invariant
            n == s@.len(),
            i <= n,
            out@ == old(out)@ + escape_text(s@.subrange(0, i as int)),
        decreases n - i,
    {
        let ghost pre = s@.subrange(0, i as int);
        let c = s.as_str().get_char(i);
        if c == '"' {
            out.append("\\\"");
            proof {
                reveal_strlit("\\\"");
                assert("\\\""@ =~= escape_char(c));
            }
        } else if c == '\\' {
            out.append("\\\\");
            proof {
                reveal_strlit("\\\\");
                assert("\\\\"@ =~= escape_char(c));
            }
        } else {
            crate::text::push_char(out, c);
            proof {
                assert(seq![c] =~= escape_char(c));
                assert(out@ == (old(out)@ + escape_text(pre)).push(c));
                assert((old(out)@ + escape_text(pre)).push(c) =~= old(out)@ + escape_text(pre)
                    + escape_char(c));
            }
        }
        i = i + 1;
        proof {
            lemma_escape_snoc(pre, c);
            assert(pre.push(c) =~= s@.subrange(0, i as int));
            assert(old(out)@ + escape_text(pre) + escape_char(c) =~= old(out)@ + (escape_text(pre)
                + escape_char(c)));
        }
    }
    proof {
        assert(s@.subrange(0, n as int) =~= s@);
    }
}

/// Serialise a settings record into its canonical text, the exact value
/// the settings file stores.
pub fn encode_settings(s: &AppSettings) -> (out: String)
    ensures
        out@ == settings_text(s@),
{
    let mut out = String::from_str("{\"auto_start\":");
    append_bool(&mut out, s.auto_start);
    out.append(",\"global_hotkey\":\"");
    append_escaped(&mut out, &s.global_hotkey);
    out.append("\"");
    out.append(",\"auto_close_on_focus_loss\":");
    append_bool(&mut out, s.auto_close_on_focus_loss);
    out.append(",\"auto_load_clipboard\":");
    append_bool(&mut out, s.auto_load_clipboard);
    out.append(",\"use_llm_parsing\":");
    append_bool(&mut out, s.use_llm_parsing);
    out.append(",\"theme\":\"");
    append_theme(&mut out, s.theme);
    out.append("\"}");
    out
}

fn expect_lit(t: &Vec<char>, i: usize, lit: &str) -> (r: Option<usize>)
    requires
        i <= t@.len(),
    ensures
        match r {
            Some(j) => lit_at(t@, i as int, lit@) == Some(j as int) && i <= j <= t@.len(),
            None => lit_at(t@, i as int, lit@) is None,
        },
{
    let n = lit.unicode_len();
    if t.len() - i < n {
        return None;
    }
    let mut j: usize = 0;
    while j < n
        invariant
            i + n <= t@.len(),
            t@.len() <= usize::MAX,
            n == lit@.len(),
            j <= n,
            forall|k: int| 0 <= k < j ==> t@[i + k] == lit@[k],
        decreases n - j,
    {
        if t[i + j] != lit.get_char(j) {
            proof {
                assert(t@.subrange(i as int, i + lit@.len())[j as int] == t@[i + j]);
            }
            return None;
        }
        j = j + 1;
    }
    proof {
        assert(t@.subrange(i as int, i + lit@.len()) =~= lit@);
    }
    Some(i + n)
}

fn parse_bool(t: &Vec<char>, i: usize) -> (r: Option<(usize, bool)>)
    requires
        i <= t@.len(),
    ensures
        match r {
            Some(p) => bool_at(t@, i as int) == Some((p.0 as int, p.1)) && p.0 <= t@.len(),
            None => bool_at(t@, i as int) is None,
        },
{
    match expect_lit(t, i, "true") {
        Some(j) => Some((j, true)),
        None => match expect_lit(t, i, "false") {
            Some(j) => Some((j, false)),
            None => None,
        },
    }
}

fn parse_theme(t: &Vec<char>, i: usize) -> (r: Option<(usize, Theme)>)
    requires
        i <= t@.len(),
    ensures
        match r {
            Some(p) => theme_at(t@, i as int) == Some((p.0 as int, p.1)) && p.0 <= t@.len(),
            None => theme_at(t@, i as int) is None,
        },
{
    match expect_lit(t, i, "dark") {
        Some(j) => Some((j, Theme::Dark)),
        None => match expect_lit(t, i, "light") {
            Some(j) => Some((j, Theme::Light)),
            None => match expect_lit(t, i, "system") {
                Some(j) => Some((j, Theme::System)),
                None => None,
            },
        },
    }
}

fn parse_string_body(t: &Vec<char>, i: usize) -> (r: Option<(usize, String)>)
    requires
        i <= t@.len(),
    ensures
        match r {
            Some(p) => string_body_at(t@, i as int) == Some((p.0 as int, p.1@)) && p.0 <= t@.len(),
            None => string_body_at(t@, i as int) is None,
        },
{
    let mut acc = String::new();
    let mut cur = i;
    loop
        invariant
            i <= cur <= t@.len(),
            ({
                let full = string_body_at(t@, i as int);
                match string_body_at(t@, cur as int) {
                    Some(p) => full == Some((p.0, acc@ + p.1)),
                    None => full is None,
                }
            }),
        decreases t@.len() - cur,
    {
        if cur >= t.len() {
            return None;
        }
        let c = t[cur];
        if c == '"' {
            proof {
                assert(acc@ + Seq::<char>::empty() =~= acc@);
            }
            return Some((cur + 1, acc));
        } else if c == '\\' {
            if cur + 1 >= t.len() {
                return None;
            }
            let e2 = t[cur + 1];
            if e2 == '"' || e2 == '\\' {
                let ghost acc0 = acc@;
                crate::text::push_char(&mut acc, e2);
                cur = cur + 2;
                proof {
                    if string_body_at(t@, cur as int) is Some {
                        let p = string_body_at(t@, cur as int)->Some_0;
                        assert(acc0 + (seq![e2] + p.1) =~= acc@ + p.1);
                    }
                }
            } else {
                return None;
            }
        } else {
            let ghost acc0 = acc@;
            crate::text::push_char(&mut acc, c);
            cur = cur + 1;
            proof {
                if string_body_at(t@, cur as int) is Some {
                    let p = string_body_at(t@, cur as int)->Some_0;
                    assert(acc0 + (seq![c] + p.1) =~= acc@ + p.1);
                }
            }
        }
    }
}

/// Parse a whole stored text as one canonical settings record.
fn parse_settings(t: &Vec<char>) -> (r: Option<AppSettings>)
    ensures
        match r {
            Some(s) => settings_of_text(t@) == Some(s@),
            None => settings_of_text(t@) is None,
        },
{
    let i1 = match expect_lit(t, 0, "{\"auto_start\":") {
        Some(j) => j,
        None => {
            return None;
        },
    };
    let (i2, auto_start) = match parse_bool(t, i1) {
        Some(p) => p,
        None => {
            return None;
        },
    };
    let i3 = match expect_lit(t, i2, ",\"global_hotkey\":\"") {
        Some(j) => j,
        None => {
            return None;
        },
    };
    let (i4, global_hotkey) = match parse_string_body(t, i3) {
        Some(p) => p,
        None => {
            return None;
        },
    };
    let i5 = match expect_lit(t, i4, ",\"auto_close_on_focus_loss\":") {
        Some(j) => j,
        None => {
            return None;
        },
    };
    let (i6, auto_close_on_focus_loss) = match parse_bool(t, i5) {
        Some(p) => p,
        None => {
            return None;
        },
    };
    let i7 = match expect_lit(t, i6, ",\"auto_load_clipboard\":") {
        Some(j) => j,
        None => {
            return None;
        },
    };
    let (i8, auto_load_clipboard) = match parse_bool(t, i7) {
        Some(p) => p,
        None => {
            return None;
        },
    };
    let i9 = match expect_lit(t, i8, ",\"use_llm_parsing\":") {
        Some(j) => j,
        None => {
            return None;
        },
    };
    let (i10, use_llm_parsing) = match parse_bool(t, i9) {
        Some(p) => p,
        None => {
            return None;
        },
    };
    let i11 = match expect_lit(t, i10, ",\"theme\":\"") {
        Some(j) => j,
        None => {
            return None;
        },
    };
    let (i12, theme) = match parse_theme(t, i11) {
        Some(p) => p,
        None => {
            return None;
        },
    };
    let end = match expect_lit(t, i12, "\"}") {
        Some(j) => j,
        None => {
            return None;
        },
    };
    if end != t.len() {
        return None;
    }
    Some(
        AppSettings {
            auto_start,
            global_hotkey,
            auto_close_on_focus_loss,
            auto_load_clipboard,
            use_llm_parsing,
            theme,
        },
    )
}

/// Read a stored text back into a settings record: exactly the record a
/// canonical encoding carries, and the defaults for any other text.
pub fn decode_settings(text: &str) -> (s: AppSettings)
    ensures
        settings_of_text(text@) matches Some(v) ==> s@ == v,
        settings_of_text(text@) is None ==> s@ == default_settings(),
{
    let chars = crate::text::chars_of(text);
    match parse_settings(&chars) {
        Some(s) => s,
        None => AppSettings::default(),
    }
}

/// What startup makes of the settings store: no stored text (a first run)
/// or a corrupt one falls back to the full defaults, never to a partial
/// record.
pub fn load_settings(stored: Option<&str>) -> (s: AppSettings)
    ensures
        stored is None ==> s@ == default_settings(),
        stored matches Some(text) ==> (match settings_of_text(text@) {
            Some(v) => s@ == v,
            None => s@ == default_settings(),
        }),
{
    match stored {
        Some(text) => decode_settings(text),
        None => AppSettings::default(),
    }
}

} // verus!
