//! The `key = value` settings file read at start-up.
//!
//! A line may carry a comment after `#`; blank lines, lines without `=` and
//! unknown keys are skipped, and a key that is missing keeps its default, so
//! that a broken file never stops the drawing. The shape is resolved here;
//! the numeric keys are handed on as the texts that were written for them,
//! in file order, since turning such a text into a number is floating point
//! work that this library leaves to its caller.

use vstd::prelude::*;
use vstd::string::StringSliceAdditionalSpecFns;

use crate::shapes::{shape_named, Shape};
use crate::text::{
    find, find_char, is_space, lemma_find_at, lemma_find_bound, lemma_trim_after_trim_end,
    lemma_trim_end_after, lemma_trim_start_append, lemma_trim_start_idem, lemma_trim_start_skip,
    spells, to_chars, trim, trim_chars, trim_end, trim_start,
};

verus! {

/// What a settings text says: the starting shape, and for each numeric key
/// the values written for it, earliest first.
pub struct SettingsModel {
    pub shape: Shape,
    pub amplitude: Seq<Seq<char>>,
    pub offset: Seq<Seq<char>>,
    pub frame_hz: Seq<Seq<char>>,
}

/// The settings of an empty or unreadable file: the heart, and no values.
pub open spec fn default_model() -> SettingsModel {
    SettingsModel {
        shape: Shape::Heart,
        amplitude: Seq::empty(),
        offset: Seq::empty(),
        frame_hz: Seq::empty(),
    }
}

/// The key and the value that a line sets, if any: the text before the first
/// `#`, trimmed, split at its first `=`, both sides trimmed.
pub open spec fn line_entry(line: Seq<char>) -> Option<(Seq<char>, Seq<char>)> {
    let content = trim(line.take(find(line, '#') as int));
    let e = find(content, '=') as int;
    if content.len() == 0 || e == content.len() {
        None
    } else {
        Some((trim(content.take(e)), trim(content.skip(e + 1))))
    }
}

/// The settings after one `key = value` entry.
pub open spec fn apply_entry(m: SettingsModel, key: Seq<char>, value: Seq<char>) -> SettingsModel {
    if key == "shape"@ {
        match shape_named(value) {
            Some(s) => SettingsModel { shape: s, ..m },
            None => m,
        }
    } else if key == "amplitude"@ {
        SettingsModel { amplitude: m.amplitude.push(value), ..m }
    } else if key == "offset"@ {
        SettingsModel { offset: m.offset.push(value), ..m }
    } else if key == "frame_hz"@ {
        SettingsModel { frame_hz: m.frame_hz.push(value), ..m }
    } else {
        m
    }
}

/// The settings after one line.
pub open spec fn apply_line(m: SettingsModel, line: Seq<char>) -> SettingsModel {
    match line_entry(line) {
        Some((k, v)) => apply_entry(m, k, v),
        None => m,
    }
}

/// The settings after the lines of `text`, which are separated by `\n`.
pub open spec fn apply_text(m: SettingsModel, text: Seq<char>) -> SettingsModel
    decreases text.len(),
{
    let i = find(text, '\n') as int;
    if i < text.len() {
        proof {
            lemma_find_bound(text, '\n');
        }
        apply_text(apply_line(m, text.take(i)), text.skip(i + 1))
    } else {
        apply_line(m, text)
    }
}

/// What a whole settings text says.
pub open spec fn settings_of(text: Seq<char>) -> SettingsModel {
    apply_text(default_model(), text)
}

/// What the raw bytes of a settings file say: the text they encode, or the
/// defaults when they are not valid UTF-8.
pub open spec fn settings_of_bytes(bytes: Seq<u8>) -> SettingsModel {
    if vstd::utf8::valid_utf8(bytes) {
        settings_of(vstd::utf8::decode_utf8(bytes))
    } else {
        default_model()
    }
}

/// Whether `s` holds no line break, i.e. is a single line.
pub open spec fn single_line(s: Seq<char>) -> bool {
    forall|i: int| 0 <= i < s.len() ==> s[i] != '\n'
}

/// The text of `a`, a line break, and the text of `b`.
pub open spec fn joined(a: Seq<char>, b: Seq<char>) -> Seq<char> {
    a + seq!['\n'] + b
}

/// A text is read line by line: reading `a`, a line break and `b` is reading
/// `b` on top of what `a` says.
pub proof fn lemma_read_in_order(m: SettingsModel, a: Seq<char>, b: Seq<char>)
    ensures
        apply_text(m, joined(a, b)) == apply_text(apply_text(m, a), b),
    decreases a.len(),
{
    let t = joined(a, b);
    lemma_find_bound(a, '\n');
    let i = find(a, '\n') as int;
    if i < a.len() {
        assert forall|j: int| 0 <= j < i implies t[j] != '\n' by {
            assert(t[j] == a[j]);
        }
        assert(t[i] == a[i]);
        lemma_find_at(t, '\n', i);
        assert(t.take(i) =~= a.take(i));
        assert(t.skip(i + 1) =~= joined(a.skip(i + 1), b));
        lemma_read_in_order(apply_line(m, a.take(i)), a.skip(i + 1), b);
    } else {
        assert forall|j: int| 0 <= j < a.len() implies t[j] != '\n' by {
            assert(t[j] == a[j]);
        }
        lemma_find_at(t, '\n', a.len() as int);
        assert(t.take(a.len() as int) =~= a);
        assert(t.skip(a.len() as int + 1) =~= b);
    }
}

/// A single line is read as that one line.
pub proof fn lemma_single_line(m: SettingsModel, line: Seq<char>)
    requires
        single_line(line),
    ensures
        apply_text(m, line) == apply_line(m, line),
{
    lemma_find_at(line, '\n', line.len() as int);
}

/// An empty text gives the defaults.
pub proof fn lemma_empty_text()
    ensures
        settings_of(Seq::empty()) == default_model(),
{
    let e = Seq::<char>::empty();
    lemma_find_at(e, '\n', 0);
    lemma_find_at(e, '#', 0);
    assert(e.take(0) =~= e);
}

/// A line that sets nothing known is skipped: one without `=` before its
/// comment, one with an unknown key, or one that names no known shape.
pub proof fn lemma_skipped_line(text: Seq<char>, line: Seq<char>)
    requires
        single_line(line),
        match line_entry(line) {
            None => true,
            Some((k, v)) => {
                ||| (k == "shape"@ && shape_named(v) is None)
                ||| (k != "shape"@ && k != "amplitude"@ && k != "offset"@ && k != "frame_hz"@)
            },
        },
    ensures
        settings_of(joined(text, line)) == settings_of(text),
{
    lemma_read_in_order(default_model(), text, line);
    lemma_single_line(settings_of(text), line);
}

/// A later `shape` line that names a known shape overrides every earlier one
/// and leaves the other keys as they were.
pub proof fn lemma_later_shape_wins(text: Seq<char>, line: Seq<char>, v: Seq<char>, s: Shape)
    requires
        single_line(line),
        line_entry(line) == Some(("shape"@, v)),
        shape_named(v) == Some(s),
    ensures
        settings_of(joined(text, line)) == (SettingsModel { shape: s, ..settings_of(text) }),
{
    lemma_read_in_order(default_model(), text, line);
    lemma_single_line(settings_of(text), line);
}

/// A numeric key's value is added after the values that earlier lines wrote
/// for it; nothing else changes.
pub proof fn lemma_value_appended(text: Seq<char>, line: Seq<char>, k: Seq<char>, v: Seq<char>)
    requires
        single_line(line),
        line_entry(line) == Some((k, v)),
    ensures
        k == "amplitude"@ ==> settings_of(joined(text, line)) == (SettingsModel {
            amplitude: settings_of(text).amplitude.push(v),
            ..settings_of(text)
        }),
        k == "offset"@ ==> settings_of(joined(text, line)) == (SettingsModel {
            offset: settings_of(text).offset.push(v),
            ..settings_of(text)
        }),
        k == "frame_hz"@ ==> settings_of(joined(text, line)) == (SettingsModel {
            frame_hz: settings_of(text).frame_hz.push(v),
            ..settings_of(text)
        }),
{
    reveal_strlit("shape");
    reveal_strlit("amplitude");
    reveal_strlit("offset");
    reveal_strlit("frame_hz");
    assert("amplitude"@.len() != "shape"@.len());
    assert("offset"@.len() != "shape"@.len());
    assert("offset"@.len() != "amplitude"@.len());
    assert("frame_hz"@.len() != "shape"@.len());
    assert("frame_hz"@.len() != "amplitude"@.len());
    assert("frame_hz"@.len() != "offset"@.len());
    lemma_read_in_order(default_model(), text, line);
    lemma_single_line(settings_of(text), line);
}

/// A line `k = v` sets the key `k` to the value `v`, each without the white
/// space around it, when `k` holds neither `=` nor `#` and `v` holds no `#`:
/// the line is split at its first `=`, and later `=` belong to the value.
pub proof fn lemma_line_splits_at_first_equals(k: Seq<char>, v: Seq<char>)
    requires
        forall|i: int| 0 <= i < k.len() ==> k[i] != '=' && k[i] != '#',
        forall|i: int| 0 <= i < v.len() ==> v[i] != '#',
    ensures
        line_entry(k + seq!['='] + v) == Some((trim(k), trim(v))),
{
    let line = k + seq!['='] + v;
    assert forall|i: int| 0 <= i < line.len() implies line[i] != '#' by {
        if i < k.len() {
            assert(line[i] == k[i]);
        } else if i > k.len() {
            assert(line[i] == v[i - k.len() - 1]);
        }
    }
    lemma_find_at(line, '#', line.len() as int);
    assert(line.take(line.len() as int) =~= line);
    assert(!is_space('='));
    // The front: the white space of `k` goes, `=` stops the trimming.
    let ks = trim_start(k);
    let rest = seq!['='] + v;
    assert(line =~= k + rest);
    lemma_trim_start_append(k, rest);
    assert(rest[0] == '=');
    assert(trim_start(line) =~= ks + seq!['='] + v);
    // The back: `=` stops the trimming, only `v` is trimmed.
    let x = ks + seq!['='];
    assert(x.last() == '=');
    lemma_trim_end_after(x, v);
    assert(ks + seq!['='] + v =~= x + v);
    let content = x + trim_end(v);
    assert(trim(line) == content);
    // The first `=` of the trimmed line is the one after the key.
    let a = lemma_trim_start_skip(k);
    assert forall|j: int| 0 <= j < ks.len() implies content[j] != '=' by {
        assert(content[j] == ks[j]);
        assert(ks[j] == k[a + j]);
    }
    assert(content[ks.len() as int] == '=');
    lemma_find_at(content, '=', ks.len() as int);
    assert(content.take(ks.len() as int) =~= ks);
    assert(content.skip(ks.len() as int + 1) =~= trim_end(v));
    lemma_trim_start_idem(k);
    lemma_trim_after_trim_end(v);
}

/// What follows a `#` on a line is a comment and does not matter.
pub proof fn lemma_comment_ignored(a: Seq<char>, c: Seq<char>)
    requires
        forall|i: int| 0 <= i < a.len() ==> a[i] != '#',
    ensures
        line_entry(a + seq!['#'] + c) == line_entry(a),
{
    let t = a + seq!['#'] + c;
    assert forall|j: int| 0 <= j < a.len() implies t[j] != '#' by {
        assert(t[j] == a[j]);
    }
    lemma_find_at(t, '#', a.len() as int);
    lemma_find_at(a, '#', a.len() as int);
    assert(t.take(a.len() as int) =~= a);
    assert(a.take(a.len() as int) =~= a);
}

/// Valid UTF-8 bytes say what the text they encode says, whatever their
/// length; other bytes give the defaults.
pub proof fn lemma_bytes_as_text(bytes: Seq<u8>)
    ensures
        vstd::utf8::valid_utf8(bytes) ==> settings_of_bytes(bytes) == settings_of(
            vstd::utf8::decode_utf8(bytes),
        ),
        !vstd::utf8::valid_utf8(bytes) ==> settings_of_bytes(bytes) == default_model(),
{
}

/// The bytes of any text, in UTF-8, say exactly what the text says: reading
/// the raw file gives what reading its text gives, at any length.
pub proof fn lemma_encoded_text(text: Seq<char>)
    ensures
        settings_of_bytes(vstd::utf8::encode_utf8(text)) == settings_of(text),
{
    vstd::utf8::encode_utf8_valid_utf8(text);
    vstd::utf8::encode_utf8_decode_utf8(text);
}

/// A text followed by a line is, as bytes, read as that line on top of the
/// text: a line far into the file still counts, however long the text before
/// it.
pub proof fn lemma_encoded_lines(text: Seq<char>, line: Seq<char>)
    ensures
        settings_of_bytes(vstd::utf8::encode_utf8(joined(text, line))) == apply_text(
            settings_of(text),
            line,
        ),
{
    lemma_encoded_text(joined(text, line));
    lemma_read_in_order(default_model(), text, line);
}

/// The settings read from a file.
pub struct Settings {
    /// The shape drawn first.
    pub shape: Shape,
    /// The texts written for `amplitude`, earliest first.
    pub amplitude: Vec<Vec<char>>,
    /// The texts written for `offset`, earliest first.
    pub offset: Vec<Vec<char>>,
    /// The texts written for `frame_hz`, earliest first.
    pub frame_hz: Vec<Vec<char>>,
}

impl View for Settings {
    type V = SettingsModel;

    open spec fn view(&self) -> SettingsModel {
        SettingsModel {
            shape: self.shape,
            amplitude: self.amplitude.deep_view(),
            offset: self.offset.deep_view(),
            frame_hz: self.frame_hz.deep_view(),
        }
    }
}

/// Calls `core::str::from_utf8`. Claimed, as its documentation says: it
/// succeeds exactly when the bytes are valid UTF-8, and the text it gives
/// back is made of exactly those bytes.
#[verifier::external_body]
fn utf8_text(bytes: &[u8]) -> (r: Option<&str>)
    ensures
        r is Some <==> vstd::utf8::valid_utf8(bytes@),
        r matches Some(s) ==> s.spec_bytes() == bytes@,
{
    match core::str::from_utf8(bytes) {
        Ok(s) => Some(s),
        Err(_) => None,
    }
}

/// A copy of a character slice.
fn copy_chars(s: &[char]) -> (v: Vec<char>)
    ensures
        v@ == s@,
{
    let mut v: Vec<char> = Vec::new();
    let mut i: usize = 0;
    while i < s.len()
        invariant
            0 <= i <= s@.len(),
            v@ == s@.take(i as int),
        decreases s@.len() - i,
    {
        assert(s@.take(i + 1) =~= s@.take(i as int).push(s@[i as int]));
        v.push(s[i]);
        i = i + 1;
    }
    assert(s@.take(s@.len() as int) =~= s@);
    v
}

/// Appends a copy of `value` to a list of values.
fn push_value(list: &mut Vec<Vec<char>>, value: &[char])
    ensures
        final(list).deep_view() == old(list).deep_view().push(value@),
{
    let v = copy_chars(value);
    assert(v.deep_view() =~= value@);
    list.push(v);
    assert(list.deep_view() =~= old(list).deep_view().push(value@));
}

/// The key and value that a line sets, if any.
fn entry_of_line(line: &[char]) -> (r: Option<(&[char], &[char])>)
    ensures
        match r {
            Some((k, v)) => line_entry(line@) == Some((k@, v@)),
            None => line_entry(line@) is None,
        },
{
    let h = find_char(line, '#');
    let content = trim_chars(vstd::slice::slice_subrange(line, 0, h));
    assert(line@.subrange(0, h as int) =~= line@.take(h as int));
    if content.len() == 0 {
        return None;
    }
    let e = find_char(content, '=');
    if e == content.len() {
        return None;
    }
    let key = trim_chars(vstd::slice::slice_subrange(content, 0, e));
    let value = trim_chars(vstd::slice::slice_subrange(content, e + 1, content.len()));
    assert(content@.subrange(0, e as int) =~= content@.take(e as int));
    assert(content@.subrange(e + 1, content@.len() as int) =~= content@.skip(e + 1));
    Some((key, value))
}

impl Default for Settings {
    /// The settings used when no file can be read: the heart, no values.
    fn default() -> (s: Settings)
        ensures
            s@ == default_model(),
    {
        Settings::new()
    }
}

impl Settings {
    /// The settings used when no file can be read: the heart, no values.
    pub fn new() -> (s: Settings)
        ensures
            s@ == default_model(),
    {
        let s = Settings {
            shape: Shape::Heart,
            amplitude: Vec::new(),
            offset: Vec::new(),
            frame_hz: Vec::new(),
        };
        assert(s@.amplitude =~= Seq::<Seq<char>>::empty());
        assert(s@.offset =~= Seq::<Seq<char>>::empty());
        assert(s@.frame_hz =~= Seq::<Seq<char>>::empty());
        s
    }

    /// Takes in one `key = value` entry.
    fn apply_entry(&mut self, key: &[char], value: &[char])
        ensures
            final(self)@ == apply_entry(old(self)@, key@, value@),
    {
        if spells(key, "shape") {
            match Shape::from_chars(value) {
                Some(s) => {
                    self.shape = s;
                },
                None => {},
            }
        } else if spells(key, "amplitude") {
            push_value(&mut self.amplitude, value);
        } else if spells(key, "offset") {
            push_value(&mut self.offset, value);
        } else if spells(key, "frame_hz") {
            push_value(&mut self.frame_hz, value);
        }
    }

    /// Takes in one line of a settings text.
    fn apply_line(&mut self, line: &[char])
        ensures
            final(self)@ == apply_line(old(self)@, line@),
    {
        match entry_of_line(line) {
            Some((k, v)) => self.apply_entry(k, v),
            None => {},
        }
    }

    /// The settings that the characters of a settings text give.
    pub fn parse_chars(text: &[char]) -> (s: Settings)
        ensures
            s@ == settings_of(text@),
    {
        let mut s = Settings::new();
        let mut rest = text;
        loop
            invariant
                apply_text(s@, rest@) == settings_of(text@),
            decreases rest@.len(),
        {
            let i = find_char(rest, '\n');
            if i == rest.len() {
                s.apply_line(rest);
                return s;
            }
            let line = vstd::slice::slice_subrange(rest, 0, i);
            let next = vstd::slice::slice_subrange(rest, i + 1, rest.len());
            assert(rest@.subrange(0, i as int) =~= rest@.take(i as int));
            assert(rest@.subrange(i + 1, rest@.len() as int) =~= rest@.skip(i + 1));
            s.apply_line(line);
            rest = next;
        }
    }

    /// The settings that a settings text gives.
    pub fn parse(text: &str) -> (s: Settings)
        ensures
            s@ == settings_of(text@),
    {
        let v = to_chars(text);
        Self::parse_chars(v.as_slice())
    }

    /// The settings that the raw bytes of a settings file give; the defaults
    /// when they are not valid UTF-8.
    pub fn parse_bytes(bytes: &[u8]) -> (s: Settings)
        ensures
            s@ == settings_of_bytes(bytes@),
            vstd::utf8::valid_utf8(bytes@) ==> s@ == settings_of(
                vstd::utf8::decode_utf8(bytes@),
            ),
            !vstd::utf8::valid_utf8(bytes@) ==> s@ == default_model(),
    {
        match utf8_text(bytes) {
            Some(text) => {
                proof {
                    vstd::utf8::encode_utf8_decode_utf8(text@);
                }
                Self::parse(text)
            },
            None => Self::new(),
        }
    }
}

} // verus!
