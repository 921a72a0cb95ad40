//! The key-combo grammar.
//!
//! A combo is written `mod+...+mod+key`: zero or more distinct modifier
//! names (`ctrl`, `alt`, `shift`, `super`), then one key token of lower-case
//! letters and digits, all joined by `+`. A combo is validated here, before
//! any OS-level registration call ever sees it; text outside the grammar
//! fails with [`ComboError::InvalidCombo`].

use vstd::prelude::*;
use crate::text::chars_of;

verus! {

/// A validated key combination.
#[derive(Clone, PartialEq, Debug)]
pub struct KeyCombo {
    pub ctrl: bool,
    pub alt: bool,
    pub shift: bool,
    pub meta: bool,
    pub key: String,
}

/// Mathematical value of a [`KeyCombo`].
pub ghost struct KeyComboSpec {
    pub ctrl: bool,
    pub alt: bool,
    pub shift: bool,
    pub meta: bool,
    pub key: Seq<char>,
}

impl View for KeyCombo {
    type V = KeyComboSpec;

    open spec fn view(&self) -> KeyComboSpec {
        KeyComboSpec {
            ctrl: self.ctrl,
            alt: self.alt,
            shift: self.shift,
            meta: self.meta,
            key: self.key@,
        }
    }
}

/// The one way combo text is rejected.
#[derive(Clone, Copy, PartialEq, Eq, Structural, Debug)]
pub enum ComboError {
    InvalidCombo,
}

/// Characters a key token may hold.
pub open spec fn is_key_char(c: char) -> bool {
    (('a' as u32) <= (c as u32) && (c as u32) <= ('z' as u32)) || (('0' as u32) <= (c as u32) && (c
        as u32) <= ('9' as u32))
}

/// A key token: nonempty, key characters only.
pub open spec fn is_valid_key(s: Seq<char>) -> bool {
    s.len() > 0 && forall|i: int| 0 <= i < s.len() ==> is_key_char(s[i])
}

/// Index of the first `+`, if any.
pub open spec fn plus_index(s: Seq<char>) -> Option<int>
    decreases s.len(),
{
    if s.len() == 0 {
        None
    } else if s[0] == '+' {
        Some(0)
    } else {
        match plus_index(s.drop_first()) {
            Some(k) => Some(k + 1),
            None => None,
        }
    }
}

/// Fold one leading modifier token into an already-parsed tail; a name that
/// is no modifier, or one the tail already set, rejects the combo.
pub open spec fn add_modifier(tok: Seq<char>, c: KeyComboSpec) -> Option<KeyComboSpec> {
    if tok == "ctrl"@ {
        if c.ctrl {
            None
        } else {
            Some(KeyComboSpec { ctrl: true, ..c })
        }
    } else if tok == "alt"@ {
        if c.alt {
            None
        } else {
            Some(KeyComboSpec { alt: true, ..c })
        }
    } else if tok == "shift"@ {
        if c.shift {
            None
        } else {
            Some(KeyComboSpec { shift: true, ..c })
        }
    } else if tok == "super"@ {
        if c.meta {
            None
        } else {
            Some(KeyComboSpec { meta: true, ..c })
        }
    } else {
        None
    }
}

/// The combo a text denotes, or nothing when the text is outside the
/// grammar.
pub open spec fn combo_of(s: Seq<char>) -> Option<KeyComboSpec>
    decreases s.len(),
{
    match plus_index(s) {
        Some(k) => if 0 <= k < s.len() {
            match combo_of(s.subrange(k + 1, s.len() as int)) {
                Some(c) => add_modifier(s.subrange(0, k), c),
                None => None,
            }
        } else {
            None
        },
        None => if is_valid_key(s) {
            Some(KeyComboSpec { ctrl: false, alt: false, shift: false, meta: false, key: s })
        } else {
            None
        },
    }
}

/// Whether a text is a well-formed combo.
pub open spec fn is_valid_combo(s: Seq<char>) -> bool {
    combo_of(s) is Some
}

/// Where the first `+` stands, and that nothing before it is a `+`.
proof fn lemma_plus_index(s: Seq<char>)
    ensures
        match plus_index(s) {
            Some(k) => 0 <= k < s.len() && s[k] == '+' && (forall|j: int|
                0 <= j < k ==> s[j] != '+'),
            None => forall|j: int| 0 <= j < s.len() ==> s[j] != '+',
        },
    decreases s.len(),
{
    if s.len() == 0 {
    } else if s[0] == '+' {
    } else {
        lemma_plus_index(s.drop_first());
        let d = s.drop_first();
        match plus_index(d) {
            Some(k) => {
                assert(plus_index(s) == Some(k + 1));
                assert(s[k + 1] == d[k]);
                assert forall|j: int| 0 <= j < k + 1 implies s[j] != '+' by {
                    if j > 0 {
                        assert(s[j] == d[j - 1]);
                    }
                }
            },
            None => {
                assert forall|j: int| 0 <= j < s.len() implies s[j] != '+' by {
                    if j > 0 {
                        assert(s[j] == d[j - 1]);
                    }
                }
            },
        }
    }
}

/// The first `+` is the only index that `plus_index` can name.
proof fn lemma_plus_index_unique(s: Seq<char>, k: int)
    requires
        0 <= k < s.len(),
        s[k] == '+',
        forall|j: int| 0 <= j < k ==> s[j] != '+',
    ensures
        plus_index(s) == Some(k),
{
    lemma_plus_index(s);
    match plus_index(s) {
        Some(k2) => {
            if k2 < k {
                assert(s[k2] != '+');
            }
            if k < k2 {
                assert(s[k] != '+');
            }
        },
        None => {
            assert(s[k] != '+');
        },
    }
}

/// Find the first `+` at or after `pos`.
fn scan_plus(t: &Vec<char>, pos: usize) -> (r: Option<usize>)
    requires
        pos <= t@.len(),
    ensures
        match r {
            Some(k) => pos <= k < t@.len() && plus_index(
                t@.subrange(pos as int, t@.len() as int),
            ) == Some(k - pos),
            None => plus_index(t@.subrange(pos as int, t@.len() as int)) is None,
        },
{
    let ghost sub = t@.subrange(pos as int, t@.len() as int);
    let n = t.len();
    let mut k = pos;
    while k < n
        invariant
            pos <= k <= n,
            n == t@.len(),
            sub == t@.subrange(pos as int, t@.len() as int),
            forall|j: int| pos <= j < k ==> t@[j] != '+',
        decreases n - k,
    {
        if t[k] == '+' {
            proof {
                assert(sub[k - pos] == t@[k as int]);
                assert forall|j: int| 0 <= j < k - pos implies sub[j] != '+' by {
                    assert(sub[j] == t@[pos + j]);
                }
                lemma_plus_index_unique(sub, k - pos);
            }
            return Some(k);
        }
        k = k + 1;
    }
    proof {
        lemma_plus_index(sub);
        if plus_index(sub) is Some {
            let q = plus_index(sub)->Some_0;
            assert(sub[q] == t@[pos + q]);
        }
    }
    None
}

/// Whether the characters in `[a, b)` are exactly the literal.
fn token_eq(t: &Vec<char>, a: usize, b: usize, lit: &str) -> (r: bool)
    requires
        a <= b <= t@.len(),
    ensures
        r == (t@.subrange(a as int, b as int) == lit@),
{
    let n = lit.unicode_len();
    if b - a != n {
        return false;
    }
    let mut j: usize = 0;
    while j < n
        invariant
            a + n <= t@.len(),
            b == a + n,
            n == lit@.len(),
            j <= n,
            forall|k: int| 0 <= k < j ==> t@[a + k] == lit@[k],
        decreases n - j,
    {
        if t[a + j] != lit.get_char(j) {
            proof {
                assert(t@.subrange(a as int, b as int)[j as int] == t@[a + j]);
            }
            return false;
        }
        j = j + 1;
    }
    proof {
        assert(t@.subrange(a as int, b as int) =~= lit@);
    }
    true
}

/// Whether the characters in `[a, b)` form a key token.
fn is_key_token(t: &Vec<char>, a: usize, b: usize) -> (r: bool)
    requires
        a <= b <= t@.len(),
    ensures
        r == is_valid_key(t@.subrange(a as int, b as int)),
{
    if a == b {
        return false;
    }
    let mut j = a;
    while j < b
        invariant
            a <= j <= b <= t@.len(),
            forall|k: int| a <= k < j ==> is_key_char(t@[k]),
        decreases b - j,
    {
        let u = t[j] as u32;
        if !((u >= 'a' as u32 && u <= 'z' as u32) || (u >= '0' as u32 && u <= '9' as u32)) {
            proof {
                assert(t@.subrange(a as int, b as int)[j - a] == t@[j as int]);
            }
            return false;
        }
        j = j + 1;
    }
    proof {
        assert forall|k: int| 0 <= k < b - a implies is_key_char(
            t@.subrange(a as int, b as int)[k],
        ) by {
            assert(t@.subrange(a as int, b as int)[k] == t@[a + k]);
        }
    }
    true
}

/// The characters in `[a, b)` as an owned string.
fn string_of_range(t: &Vec<char>, a: usize, b: usize) -> (s: String)
    requires
        a <= b <= t@.len(),
    ensures
        s@ == t@.subrange(a as int, b as int),
{
    let mut s = String::new();
    let mut j = a;
    while j < b
        invariant
            a <= j <= b <= t@.len(),
            s@ == t@.subrange(a as int, j as int),
        decreases b - j,
    {
        crate::text::push_char(&mut s, t[j]);
        j = j + 1;
        proof {
            assert(s@ =~= t@.subrange(a as int, j as int));
        }
    }
    s
}

/// Parse the combo text from `pos` on.
fn parse_combo_rec(t: &Vec<char>, pos: usize) -> (r: Option<KeyCombo>)
    requires
        pos <= t@.len(),
    ensures
        match r {
            Some(c) => combo_of(t@.subrange(pos as int, t@.len() as int)) == Some(c@),
            None => combo_of(t@.subrange(pos as int, t@.len() as int)) is None,
        },
    decreases t@.len() - pos,
{
    let ghost sub = t@.subrange(pos as int, t@.len() as int);
    let n = t.len();
    match scan_plus(t, pos) {
        Some(k) => {
            assert(k < n);
            proof {
                assert(sub.subrange(k - pos + 1, sub.len() as int) =~= t@.subrange(
                    k + 1,
                    t@.len() as int,
                ));
                assert(sub.subrange(0, k - pos) =~= t@.subrange(pos as int, k as int));
            }
            match parse_combo_rec(t, k + 1) {
                Some(c) => {
                    if token_eq(t, pos, k, "ctrl") {
                        if c.ctrl {
                            None
                        } else {
                            Some(KeyCombo { ctrl: true, ..c })
                        }
                    } else if token_eq(t, pos, k, "alt") {
                        if c.alt {
                            None
                        } else {
                            Some(KeyCombo { alt: true, ..c })
                        }
                    } else if token_eq(t, pos, k, "shift") {
                        if c.shift {
                            None
                        } else {
                            Some(KeyCombo { shift: true, ..c })
                        }
                    } else if token_eq(t, pos, k, "super") {
                        if c.meta {
                            None
                        } else {
                            Some(KeyCombo { meta: true, ..c })
                        }
                    } else {
                        None
                    }
                },
                None => None,
            }
        },
        None => {
            if is_key_token(t, pos, t.len()) {
                Some(
                    KeyCombo {
                        ctrl: false,
                        alt: false,
                        shift: false,
                        meta: false,
                        key: string_of_range(t, pos, t.len()),
                    },
                )
            } else {
                None
            }
        },
    }
}

/// Parse a combo text into a validated value, or reject it.
pub fn parse_combo(s: &str) -> (r: Result<KeyCombo, ComboError>)
    ensures
        match r {
            Ok(c) => combo_of(s@) == Some(c@),
            Err(e) => combo_of(s@) is None && e == ComboError::InvalidCombo,
        },
{
    let t = chars_of(s);
    proof {
        assert(t@.subrange(0, t@.len() as int) =~= t@);
    }
    match parse_combo_rec(&t, 0) {
        Some(c) => Ok(c),
        None => Err(ComboError::InvalidCombo),
    }
}

/// Whether a candidate text is inside the combo grammar; a candidate
/// outside it counts as a failed registration attempt without any OS call.
pub fn check_combo(s: &str) -> (b: bool)
    ensures
        b == is_valid_combo(s@),
{
    match parse_combo(s) {
        Ok(_) => true,
        Err(_) => false,
    }
}

} // verus!
