//! The config store's data: the single persisted preference and its on-disk
//! format.
//!
//! The persisted file holds one JSON object, `{"selected_editor":"<name>"}`.
//! `save` produces exactly those bytes; `load` accepts them with any amount
//! of ASCII whitespace between the tokens, and falls back to the documented
//! default preference on a missing or malformed file, never failing the
//! caller. Reading and writing the file itself is the surrounding binary's
//! job: it hands the raw bytes in and out.

use vstd::prelude::*;

use crate::editor::Editor;

verus! {

/// The single persisted value: which editor the helper server launches
/// against.
#[derive(Debug, Clone, Copy, PartialEq, Eq, Structural)]
pub struct Preference {
    pub selected_editor: Editor,
}

impl Default for Preference {
    /// The documented default, used on first run and whenever the persisted
    /// file is missing or malformed.
    fn default() -> (p: Preference)
        ensures
            p == default_preference(),
    {
        Preference { selected_editor: Editor::Zed }
    }
}

/// The default preference: the first editor of the registry.
pub open spec fn default_preference() -> Preference {
    Preference { selected_editor: Editor::Zed }
}

/// An ASCII whitespace byte: space, tab, line feed or carriage return.
pub open spec fn is_ws(b: u8) -> bool {
    b == 32 || b == 9 || b == 10 || b == 13
}

/// The first index at or after `i` holding a non-whitespace byte, or the
/// length of `s` if only whitespace remains.
pub open spec fn skip_ws(s: Seq<u8>, i: int) -> int
    decreases s.len() - i,
{
    if 0 <= i < s.len() && is_ws(s[i]) {
        skip_ws(s, i + 1)
    } else {
        i
    }
}

/// The bytes of `lit` occur in `s` starting exactly at index `i`.
pub open spec fn match_at(s: Seq<u8>, i: int, lit: Seq<u8>) -> bool {
    0 <= i && i + lit.len() <= s.len() && s.subrange(i, i + lit.len()) == lit
}

/// The quoted key of the one field of the persisted object:
/// `"selected_editor"`.
pub open spec fn key_bytes() -> Seq<u8> {
    seq![34u8, 115, 101, 108, 101, 99, 116, 101, 100, 95, 101, 100, 105, 116, 111, 114, 34]
}

/// The quoted name under which an editor is persisted: `"Zed"`, `"Vscode"`
/// or `"Sublime"`.
pub open spec fn name_bytes(e: Editor) -> Seq<u8> {
    match e {
        Editor::Zed => seq![34u8, 90, 101, 100, 34],
        Editor::Vscode => seq![34u8, 86, 115, 99, 111, 100, 101, 34],
        Editor::Sublime => seq![34u8, 83, 117, 98, 108, 105, 109, 101, 34],
    }
}

/// The canonical rendering of a preference: `{"selected_editor":"<name>"}`
/// with no whitespace.
pub open spec fn render_bytes(e: Editor) -> Seq<u8> {
    seq![123u8] + key_bytes() + seq![58u8] + name_bytes(e) + seq![125u8]
}

/// The editor whose quoted name occurs at index `i` of `s`, if any. The
/// names start with distinct letters, so at most one can match.
pub open spec fn name_at(s: Seq<u8>, i: int) -> Option<Editor> {
    if match_at(s, i, name_bytes(Editor::Zed)) {
        Some(Editor::Zed)
    } else if match_at(s, i, name_bytes(Editor::Vscode)) {
        Some(Editor::Vscode)
    } else if match_at(s, i, name_bytes(Editor::Sublime)) {
        Some(Editor::Sublime)
    } else {
        None
    }
}

/// From index `j` on, `s` holds nothing but whitespace, a closing brace, and
/// trailing whitespace.
pub open spec fn closes(s: Seq<u8>, j: int) -> bool {
    let i4 = skip_ws(s, j);
    i4 < s.len() && s[i4] == 125 && skip_ws(s, i4 + 1) == s.len()
}

/// The whitespace-tolerant reading of a persisted file's bytes: `Some(e)`
/// exactly when the bytes are `{ "selected_editor" : "<name of e>" }` with
/// any ASCII whitespace between the tokens, `None` on anything else.
pub open spec fn parse_bytes(s: Seq<u8>) -> Option<Editor> {
    let i0 = skip_ws(s, 0);
    if !(i0 < s.len() && s[i0] == 123) {
        None
    } else {
        let i1 = skip_ws(s, i0 + 1);
        if !match_at(s, i1, key_bytes()) {
            None
        } else {
            let i2 = skip_ws(s, i1 + key_bytes().len());
            if !(i2 < s.len() && s[i2] == 58) {
                None
            } else {
                let i3 = skip_ws(s, i2 + 1);
                match name_at(s, i3) {
                    Some(e) => if closes(s, i3 + name_bytes(e).len()) {
                        Some(e)
                    } else {
                        None
                    },
                    None => None,
                }
            }
        }
    }
}

/// What `load` returns for a given file observation: the parsed preference
/// where the bytes parse, the default where the file was absent or
/// malformed.
pub open spec fn load_spec(content: Option<Seq<u8>>) -> Preference {
    match content {
        Some(s) => match parse_bytes(s) {
            Some(e) => Preference { selected_editor: e },
            None => default_preference(),
        },
        None => default_preference(),
    }
}

fn skip_ws_exec(s: &Vec<u8>, i: usize) -> (r: usize)
    requires
        i <= s.len(),
    ensures
        i <= r <= s.len(),
        r == skip_ws(s@, i as int),
{
    let mut j: usize = i;
    loop
        invariant
            i <= j <= s.len(),
            skip_ws(s@, i as int) == skip_ws(s@, j as int),
        decreases s.len() - j,
    {
        if j == s.len() {
            return j;
        }
        let b = s[j];
        if b == 32 || b == 9 || b == 10 || b == 13 {
            proof {
                assert(skip_ws(s@, j as int) == skip_ws(s@, j as int + 1));
            }
            j += 1;
        } else {
            return j;
        }
    }
}

fn match_at_exec(s: &Vec<u8>, i: usize, lit: &Vec<u8>) -> (r: bool)
    ensures
        r == match_at(s@, i as int, lit@),
{
    if i > s.len() {
        return false;
    }
    if s.len() - i < lit.len() {
        return false;
    }
    let mut k: usize = 0;
    while k < lit.len()
        invariant
            k <= lit.len(),
            i + lit.len() <= s.len(),
            forall|m: int| 0 <= m < k ==> s@[i + m] == lit@[m],
        decreases lit.len() - k,
    {
        if s[i + k] != lit[k] {
            proof {
                assert(s@.subrange(i as int, i + lit@.len())[k as int] == s@[i + k]);
            }
            return false;
        }
        k += 1;
    }
    proof {
        assert(s@.subrange(i as int, i + lit@.len()) =~= lit@);
    }
    true
}

fn key_vec() -> (v: Vec<u8>)
    ensures
        v@ == key_bytes(),
{
    let mut v: Vec<u8> = Vec::new();
    v.push(34);
    v.push(115);
    v.push(101);
    v.push(108);
    v.push(101);
    v.push(99);
    v.push(116);
    v.push(101);
    v.push(100);
    v.push(95);
    v.push(101);
    v.push(100);
    v.push(105);
    v.push(116);
    v.push(111);
    v.push(114);
    v.push(34);
    proof {
        assert(v@ =~= key_bytes());
    }
    v
}

fn name_vec(e: &Editor) -> (v: Vec<u8>)
    ensures
        v@ == name_bytes(*e),
{
    let mut v: Vec<u8> = Vec::new();
    v.push(34);
    match e {
        Editor::Zed => {
            v.push(90);
            v.push(101);
            v.push(100);
        },
        Editor::Vscode => {
            v.push(86);
            v.push(115);
            v.push(99);
            v.push(111);
            v.push(100);
            v.push(101);
        },
        Editor::Sublime => {
            v.push(83);
            v.push(117);
            v.push(98);
            v.push(108);
            v.push(105);
            v.push(109);
            v.push(101);
        },
    }
    v.push(34);
    proof {
        assert(v@ =~= name_bytes(*e));
    }
    v
}

fn close_at(s: &Vec<u8>, j: usize) -> (b: bool)
    requires
        j <= s.len(),
    ensures
        b == closes(s@, j as int),
{
    let i4 = skip_ws_exec(s, j);
    if i4 == s.len() {
        return false;
    }
    if s[i4] != 125 {
        return false;
    }
    let i5 = skip_ws_exec(s, i4 + 1);
    i5 == s.len()
}

/// Read a persisted file's bytes into an editor choice: `Some` exactly on a
/// well-formed `{ "selected_editor": "<name>" }` object, `None` on anything
/// else.
pub fn parse_preference(s: &Vec<u8>) -> (r: Option<Editor>)
    ensures
        r == parse_bytes(s@),
{
    let i0 = skip_ws_exec(s, 0);
    if i0 == s.len() {
        return None;
    }
    if s[i0] != 123 {
        return None;
    }
    let i1 = skip_ws_exec(s, i0 + 1);
    let key = key_vec();
    if !match_at_exec(s, i1, &key) {
        return None;
    }
    let i2 = skip_ws_exec(s, i1 + key.len());
    if i2 == s.len() {
        return None;
    }
    if s[i2] != 58 {
        return None;
    }
    let i3 = skip_ws_exec(s, i2 + 1);
    let name_zed = name_vec(&Editor::Zed);
    if match_at_exec(s, i3, &name_zed) {
        let ok = close_at(s, i3 + name_zed.len());
        if ok {
            return Some(Editor::Zed);
        } else {
            return None;
        }
    }
    let name_vscode = name_vec(&Editor::Vscode);
    if match_at_exec(s, i3, &name_vscode) {
        let ok = close_at(s, i3 + name_vscode.len());
        if ok {
            return Some(Editor::Vscode);
        } else {
            return None;
        }
    }
    let name_sublime = name_vec(&Editor::Sublime);
    if match_at_exec(s, i3, &name_sublime) {
        let ok = close_at(s, i3 + name_sublime.len());
        if ok {
            return Some(Editor::Sublime);
        } else {
            return None;
        }
    }
    None
}

/// Turn the observed content of the persisted file — `None` where the file
/// was missing or unreadable — into the preference to run with. Never fails:
/// a missing or malformed file yields the documented default.
pub fn load(content: Option<Vec<u8>>) -> (p: Preference)
    ensures
        p == load_spec(
            match content {
                Some(v) => Some(v@),
                None => None,
            },
        ),
        content is None ==> p == default_preference(),
{
    match content {
        Some(bytes) => match parse_preference(&bytes) {
            Some(e) => Preference { selected_editor: e },
            None => Preference { selected_editor: Editor::Zed },
        },
        None => Preference { selected_editor: Editor::Zed },
    }
}

/// Render a preference as the exact bytes to persist.
pub fn save(p: &Preference) -> (out: Vec<u8>)
    ensures
        out@ == render_bytes(p.selected_editor),
{
    let mut out: Vec<u8> = Vec::new();
    out.push(123);
    let mut key = key_vec();
    out.append(&mut key);
    out.push(58);
    let mut name = name_vec(&p.selected_editor);
    out.append(&mut name);
    out.push(125);
    proof {
        assert(out@ =~= render_bytes(p.selected_editor));
    }
    out
}

/// The canonical rendering of an editor choice parses back to that choice.
pub proof fn lemma_render_parses(e: Editor)
    ensures
        parse_bytes(render_bytes(e)) == Some(e),
{
    let s = render_bytes(e);
    let n = name_bytes(e).len() as int;
    assert(s.len() == 20 + n);
    assert(s[0] == 123);
    assert(skip_ws(s, 0) == 0);
    assert(s[1] == 34);
    assert(skip_ws(s, 1) == 1);
    assert(s.subrange(1, 18) =~= key_bytes());
    assert(match_at(s, 1, key_bytes()));
    assert(s[18] == 58);
    assert(skip_ws(s, 18) == 18);
    assert(s[19] == 34);
    assert(skip_ws(s, 19) == 19);
    assert(s.subrange(19, 19 + n) =~= name_bytes(e));
    assert(match_at(s, 19, name_bytes(e)));
    match e {
        Editor::Zed => {
            assert(name_at(s, 19) == Some(e));
        },
        Editor::Vscode => {
            assert(s[20] == 86);
            assert(!match_at(s, 19, name_bytes(Editor::Zed)));
            assert(name_at(s, 19) == Some(e));
        },
        Editor::Sublime => {
            assert(s[20] == 83);
            assert(!match_at(s, 19, name_bytes(Editor::Zed)));
            assert(!match_at(s, 19, name_bytes(Editor::Vscode)));
            assert(name_at(s, 19) == Some(e));
        },
    }
    assert(s[19 + n] == 125);
    assert(skip_ws(s, 19 + n) == 19 + n);
    assert(skip_ws(s, 20 + n) == 20 + n);
    assert(closes(s, 19 + n));
}

/// The round trip of the config store: persisting a preference and loading
/// the written bytes back always yields that same preference.
pub proof fn lemma_save_load_round_trip(p: Preference)
    ensures
        load_spec(Some(render_bytes(p.selected_editor))) == p,
{
    lemma_render_parses(p.selected_editor);
}

} // verus!
