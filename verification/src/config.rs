//! The settings file: its format, how it is read back, where it lives, and
//! the registry value that starts the program with Windows.

use vstd::prelude::*;
use crate::text::{
    chars_of, encode_utf16, find_char, format_i32, index_of_char, is_trimmed,
    lemma_encode_utf16_append, lemma_format_i32_plain, lemma_index_of_char,
    lemma_index_of_char_is, lemma_parse_format_i32, lemma_trim_blank_prefix,
    lemma_trim_of_trimmed, parse_i32, parse_i32_range, push_i32, push_str, push_utf16,
    push_utf16_str, range_equals, trim, trim_range, utf16_units,
};

verus! {

/// The settings that the program keeps across sessions.
#[derive(Clone, Copy, Debug, PartialEq, Eq, Structural)]
pub struct Config {
    /// Per-core bars in place of the CPU sparkline.
    pub show_per_core: bool,
    /// Saved left edge of the overlay; negative means none saved.
    pub overlay_x: i32,
    /// Saved top edge of the overlay; negative means none saved.
    pub overlay_y: i32,
    /// The taskbar overlay is shown.
    pub show_overlay: bool,
    /// The overlay is held to the taskbar row; otherwise it can be dragged
    /// anywhere.
    pub lock_to_taskbar: bool,
    /// The two tray icons are shown.
    pub show_tray: bool,
    /// Whether the autostart registry value is present.
    pub autostart_enabled: bool,
}

impl Config {
    /// The settings before anything has been loaded: classic sparklines, no
    /// saved position, overlay shown and locked to the taskbar, tray icons
    /// shown.
    pub fn new() -> (c: Config)
        ensures
            c == Config::initial(),
    {
        Config {
            show_per_core: false,
            overlay_x: -1,
            overlay_y: -1,
            show_overlay: true,
            lock_to_taskbar: true,
            show_tray: true,
            autostart_enabled: false,
        }
    }

    pub open spec fn initial() -> Config {
        Config {
            show_per_core: false,
            overlay_x: -1i32,
            overlay_y: -1i32,
            show_overlay: true,
            lock_to_taskbar: true,
            show_tray: true,
            autostart_enabled: false,
        }
    }

    /// The settings after the user left the overlay at (`left`, `top`): the
    /// left edge is kept always, the top edge only when the overlay is not
    /// locked to the taskbar.
    pub open spec fn dragged(self, left: i32, top: i32) -> Config {
        Config {
            overlay_x: left,
            overlay_y: if self.lock_to_taskbar {
                self.overlay_y
            } else {
                top
            },
            ..self
        }
    }

    /// A drag while the overlay is locked to the taskbar moves only the saved
    /// left edge: the saved top edge (of an earlier free position) is kept,
    /// so unlocking later puts the overlay back at that height. Unlocked, the
    /// drag saves both edges.
    pub proof fn lemma_drag_keeps_top_when_locked(self, left: i32, top: i32)
        ensures
            self.dragged(left, top).overlay_x == left,
            self.lock_to_taskbar ==> self.dragged(left, top).overlay_y == self.overlay_y,
            !self.lock_to_taskbar ==> self.dragged(left, top).overlay_y == top,
            self.dragged(left, top).lock_to_taskbar == self.lock_to_taskbar,
    {
    }

    /// Records where the user left the overlay after dragging it; see
    /// `dragged`.
    pub fn record_drag(&mut self, left: i32, top: i32)
        ensures
            *final(self) == old(self).dragged(left, top),
            final(self).overlay_x == left,
            old(self).lock_to_taskbar ==> final(self).overlay_y == old(self).overlay_y,
            !old(self).lock_to_taskbar ==> final(self).overlay_y == top,
            final(self).show_per_core == old(self).show_per_core,
            final(self).show_overlay == old(self).show_overlay,
            final(self).lock_to_taskbar == old(self).lock_to_taskbar,
            final(self).show_tray == old(self).show_tray,
            final(self).autostart_enabled == old(self).autostart_enabled,
    {
        self.overlay_x = left;
        if !self.lock_to_taskbar {
            self.overlay_y = top;
        }
    }
}

// ---------------------------------------------------------------------------
// Reading the file
// ---------------------------------------------------------------------------

/// The value that one line gives for `key`: the line must hold a `:`; the
/// text before the first `:`, trimmed, must be `key`; the value is the text
/// after it, trimmed.
pub open spec fn entry_value(line: Seq<char>, key: Seq<char>) -> Option<Seq<char>> {
    let c = index_of_char(line, ':');
    if c < line.len() && trim(line.subrange(0, c)) == key {
        Some(trim(line.subrange(c + 1, line.len() as int)))
    } else {
        None
    }
}

/// The value of `key` in a settings text: that of the first line that has
/// one for it. Lines end at `\n`; a `\r` before it is white space that the
/// trimming of the value removes.
pub open spec fn config_value(content: Seq<char>, key: Seq<char>) -> Option<Seq<char>>
    decreases content.len(),
{
    let e = index_of_char(content, '\n');
    match entry_value(content.subrange(0, e), key) {
        Some(v) => Some(v),
        None => if 0 <= e < content.len() {
            config_value(content.subrange(e + 1, content.len() as int), key)
        } else {
            None
        },
    }
}

pub open spec fn key_show_per_core() -> Seq<char> {
    "show_per_core"@
}

pub open spec fn key_overlay_x() -> Seq<char> {
    "overlay_x"@
}

pub open spec fn key_overlay_y() -> Seq<char> {
    "overlay_y"@
}

/// A switch is on exactly when its value is `true`; where the file gives no
/// value for it, it takes `default`.
pub open spec fn loaded_flag(content: Seq<char>, key: Seq<char>, default: bool) -> bool {
    match config_value(content, key) {
        Some(v) => v == "true"@,
        None => default,
    }
}

/// A coordinate is its value read as an `i32`, or -1 where there is none or
/// it does not read as one.
pub open spec fn loaded_coordinate(content: Seq<char>, key: Seq<char>) -> i32 {
    match config_value(content, key) {
        Some(v) => match parse_i32(v) {
            Some(n) => n,
            None => -1i32,
        },
        None => -1i32,
    }
}

/// The settings after reading a settings text over `before`: `show_per_core`
/// from its line (off where there is none), each coordinate from its line
/// (-1 where there is none or it does not read as an `i32`), `autostart_enabled`
/// as given; the switches that the file does not hold (overlay shown, locked
/// to the taskbar, tray icons shown) stay as they were.
pub open spec fn loaded(content: Seq<char>, before: Config, autostart_enabled: bool) -> Config {
    Config {
        show_per_core: loaded_flag(content, key_show_per_core(), false),
        overlay_x: loaded_coordinate(content, key_overlay_x()),
        overlay_y: loaded_coordinate(content, key_overlay_y()),
        autostart_enabled,
        ..before
    }
}

/// The bounds in `v` of the value that `config_value` finds for `key`.
fn lookup(v: &Vec<char>, key: &Vec<char>) -> (r: Option<(usize, usize)>)
    ensures
        match r {
            Some((a, b)) => a <= b <= v.len() && config_value(v@, key@) == Some(
                v@.subrange(a as int, b as int),
            ),
            None => config_value(v@, key@) is None,
        },
{
    let mut start: usize = 0;
    assert(v@.subrange(0, v.len() as int) =~= v@);
    loop
        invariant
            start <= v.len(),
            config_value(v@, key@) == config_value(v@.subrange(start as int, v.len() as int), key@),
        decreases v.len() - start,
    {
        let ghost rest = v@.subrange(start as int, v.len() as int);
        let e: usize = find_char(v, '\n', start, v.len());
        assert(rest.subrange(0, e - start) =~= v@.subrange(start as int, e as int));
        let colon: usize = find_char(v, ':', start, e);
        if colon < e {
            let (ka, kb) = trim_range(v, start, colon);
            proof {
                let line = v@.subrange(start as int, e as int);
                assert(line.subrange(0, colon - start) =~= v@.subrange(start as int, colon as int));
                assert(line.subrange(colon - start + 1, line.len() as int) =~= v@.subrange(
                    colon + 1,
                    e as int,
                ));
            }
            if range_equals(v, ka, kb, key) {
                let (va, vb) = trim_range(v, colon + 1, e);
                return Some((va, vb));
            }
        }
        proof {
            lemma_index_of_char(rest, '\n');
            if e < v.len() {
                assert(rest.subrange(e - start + 1, rest.len() as int) =~= v@.subrange(
                    e + 1,
                    v.len() as int,
                ));
            }
        }
        if e == v.len() {
            return None;
        }
        start = e + 1;
    }
}

fn load_flag(v: &Vec<char>, key: &str, default: bool) -> (r: bool)
    ensures
        r == loaded_flag(v@, key@, default),
{
    let k = chars_of(key);
    let true_text = chars_of("true");
    match lookup(v, &k) {
        Some((a, b)) => range_equals(v, a, b, &true_text),
        None => default,
    }
}

fn load_coordinate(v: &Vec<char>, key: &str) -> (r: i32)
    ensures
        r == loaded_coordinate(v@, key@),
{
    let k = chars_of(key);
    match lookup(v, &k) {
        Some((a, b)) => match parse_i32_range(v, a, b) {
            Some(n) => n,
            None => -1,
        },
        None => -1,
    }
}

/// Reads the settings file, as the program does at start. Where the file
/// could be read (`content` is `Some`), the settings are what it gives over
/// the current ones (see `loaded`); where it could not, they stay as they
/// were.
/// `autostart_enabled` takes what the registry says either way.
pub fn load_config(config: &mut Config, content: Option<&str>, autostart_enabled: bool)
    ensures
        match content {
            Some(text) => *final(config) == loaded(text@, *old(config), autostart_enabled),
            None => *final(config) == Config { autostart_enabled, ..*old(config) },
        },
{
    if let Some(text) = content {
        let v = chars_of(text);
        config.show_per_core = load_flag(&v, "show_per_core", false);
        config.overlay_x = load_coordinate(&v, "overlay_x");
        config.overlay_y = load_coordinate(&v, "overlay_y");
    }
    config.autostart_enabled = autostart_enabled;
}

// ---------------------------------------------------------------------------
// Writing the file
// ---------------------------------------------------------------------------

pub open spec fn bool_text(b: bool) -> Seq<char> {
    if b {
        "true"@
    } else {
        "false"@
    }
}

/// One line of the file: the key, `": "`, the value.
pub open spec fn entry_line(key: Seq<char>, value: Seq<char>) -> Seq<char> {
    key + ": "@ + value
}

/// A line of the file followed by its line break.
pub open spec fn entry(key: Seq<char>, value: Seq<char>) -> Seq<char> {
    entry_line(key, value) + "\n"@
}

/// The text of the settings file: one line for each of `show_per_core`,
/// `overlay_x` and `overlay_y`, in that order, each ended by `\n`.
pub open spec fn config_text(c: Config) -> Seq<char> {
    entry(key_show_per_core(), bool_text(c.show_per_core)) + (entry(
        key_overlay_x(),
        format_i32(c.overlay_x),
    ) + (entry(key_overlay_y(), format_i32(c.overlay_y)) + Seq::<char>::empty()))
}

fn push_bool_entry(s: &mut String, key: &str, b: bool)
    ensures
        final(s)@ == old(s)@ + entry(key@, bool_text(b)),
{
    push_str(s, key);
    push_str(s, ": ");
    if b {
        push_str(s, "true");
    } else {
        push_str(s, "false");
    }
    push_str(s, "\n");
    assert(s@ =~= old(s)@ + entry(key@, bool_text(b)));
}

fn push_i32_entry(s: &mut String, key: &str, v: i32)
    ensures
        final(s)@ == old(s)@ + entry(key@, format_i32(v)),
{
    push_str(s, key);
    push_str(s, ": ");
    push_i32(s, v);
    push_str(s, "\n");
    assert(s@ =~= old(s)@ + entry(key@, format_i32(v)));
}

/// The text that the program writes to the settings file.
pub fn save_config(config: &Config) -> (text: String)
    ensures
        text@ == config_text(*config),
{
    let mut s = String::new();
    push_bool_entry(&mut s, "show_per_core", config.show_per_core);
    push_i32_entry(&mut s, "overlay_x", config.overlay_x);
    push_i32_entry(&mut s, "overlay_y", config.overlay_y);
    assert(s@ =~= config_text(*config));
    s
}

// ---------------------------------------------------------------------------
// What is read back of what was written
// ---------------------------------------------------------------------------

/// A key or value that a line can hold and give back: no `:` (for a key),
/// no line break, no white space at either end.
pub open spec fn plain(s: Seq<char>, is_key: bool) -> bool {
    &&& forall|i: int| 0 <= i < s.len() ==> s[i] != '\n' && (is_key ==> s[i] != ':')
    &&& is_trimmed(s)
}

/// The first line that holds a key gives its value: a line `key: value`
/// answers for its key whatever follows, and passes any other key on to the
/// lines after it.
pub proof fn lemma_entry_lookup(k: Seq<char>, value: Seq<char>, rest: Seq<char>, key: Seq<char>)
    requires
        plain(k, true),
        plain(value, false),
    ensures
        config_value(entry(k, value) + rest, key) == if k == key {
            Some(value)
        } else {
            config_value(rest, key)
        },
{
    reveal_strlit(": ");
    reveal_strlit("\n");
    let line = entry_line(k, value);
    assert forall|i: int| 0 <= i < line.len() implies line[i] != '\n' by {
        if i < k.len() {
            assert(line[i] == k[i]);
        } else if i >= k.len() + 2 {
            assert(line[i] == value[i - k.len() - 2]);
        }
    }
    assert(entry(k, value) + rest =~= line + seq!['\n'] + rest);
    lemma_config_value_line(line, rest, key);
    lemma_entry_value(k, value, key);
}

proof fn lemma_config_value_line(line: Seq<char>, rest: Seq<char>, key: Seq<char>)
    requires
        forall|i: int| 0 <= i < line.len() ==> line[i] != '\n',
    ensures
        config_value(line + seq!['\n'] + rest, key) == match entry_value(line, key) {
            Some(v) => Some(v),
            None => config_value(rest, key),
        },
{
    let content = line + seq!['\n'] + rest;
    assert forall|i: int| 0 <= i < line.len() implies content[i] != '\n' by {
        assert(content[i] == line[i]);
    }
    lemma_index_of_char_is(content, '\n', line.len() as int);
    assert(content.subrange(0, line.len() as int) =~= line);
    assert(content.subrange(line.len() + 1int, content.len() as int) =~= rest);
}

proof fn lemma_entry_value(k: Seq<char>, value: Seq<char>, key: Seq<char>)
    requires
        forall|i: int| 0 <= i < k.len() ==> k[i] != ':',
        is_trimmed(k),
        is_trimmed(value),
    ensures
        entry_value(entry_line(k, value), key) == if k == key {
            Some(value)
        } else {
            None
        },
{
    reveal_strlit(": ");
    let line = entry_line(k, value);
    assert forall|i: int| 0 <= i < k.len() implies line[i] != ':' by {
        assert(line[i] == k[i]);
    }
    assert(line[k.len() as int] == ':');
    lemma_index_of_char_is(line, ':', k.len() as int);
    assert(line.subrange(0, k.len() as int) =~= k);
    assert(line.subrange(k.len() + 1int, line.len() as int) =~= seq![' '] + value);
    lemma_trim_of_trimmed(k);
    lemma_trim_blank_prefix(value);
}

proof fn lemma_config_value_empty(key: Seq<char>)
    ensures
        config_value(Seq::<char>::empty(), key) is None,
{
    let e = Seq::<char>::empty();
    lemma_index_of_char(e, '\n');
    lemma_index_of_char(e.subrange(0, 0), ':');
}

proof fn lemma_plain_texts()
    ensures
        plain(key_show_per_core(), true),
        plain(key_overlay_x(), true),
        plain(key_overlay_y(), true),
        plain(bool_text(true), false),
        plain(bool_text(false), false),
        bool_text(true) == "true"@,
        bool_text(false) != "true"@,
        key_show_per_core() != key_overlay_x(),
        key_show_per_core() != key_overlay_y(),
        key_overlay_x() != key_overlay_y(),
{
    reveal_strlit("show_per_core");
    reveal_strlit("overlay_x");
    reveal_strlit("overlay_y");
    reveal_strlit("true");
    reveal_strlit("false");
    assert(bool_text(false).len() != bool_text(true).len());
    assert(key_show_per_core().len() != key_overlay_x().len());
    assert(key_show_per_core().len() != key_overlay_y().len());
    assert(key_overlay_x()[8] != key_overlay_y()[8]);
}

/// What the program writes to the settings file reads back as the same
/// settings: `show_per_core` and both saved coordinates come back
/// unchanged, whatever the settings were before the read.
pub proof fn lemma_save_then_load(c: Config, before: Config)
    ensures
        ({
            let back = loaded(config_text(c), before, c.autostart_enabled);
            &&& back.show_per_core == c.show_per_core
            &&& back.overlay_x == c.overlay_x
            &&& back.overlay_y == c.overlay_y
        }),
        loaded(config_text(c), c, c.autostart_enabled) == c,
{
    lemma_plain_texts();
    lemma_format_i32_plain(c.overlay_x);
    lemma_format_i32_plain(c.overlay_y);
    lemma_parse_format_i32(c.overlay_x);
    lemma_parse_format_i32(c.overlay_y);
    let e = Seq::<char>::empty();
    let r3 = entry(key_overlay_y(), format_i32(c.overlay_y)) + e;
    let r2 = entry(key_overlay_x(), format_i32(c.overlay_x)) + r3;
    let r1 = entry(key_show_per_core(), bool_text(c.show_per_core)) + r2;
    assert(config_text(c) == r1);
    let ks = seq![key_show_per_core(), key_overlay_x(), key_overlay_y()];
    let vs = seq![bool_text(c.show_per_core), format_i32(c.overlay_x), format_i32(c.overlay_y)];
    assert forall|j: int| 0 <= j < 3 implies config_value(r1, #[trigger] ks[j]) == Some(vs[j]) by {
        let key = ks[j];
        lemma_config_value_empty(key);
        lemma_entry_lookup(key_overlay_y(), format_i32(c.overlay_y), e, key);
        lemma_entry_lookup(key_overlay_x(), format_i32(c.overlay_x), r3, key);
        lemma_entry_lookup(key_show_per_core(), bool_text(c.show_per_core), r2, key);
    }
    assert(config_value(r1, ks[0]) == Some(vs[0]));
    assert(config_value(r1, ks[1]) == Some(vs[1]));
    assert(config_value(r1, ks[2]) == Some(vs[2]));
}

// ---------------------------------------------------------------------------
// Where the files live
// ---------------------------------------------------------------------------

/// The base directory: `%APPDATA%`, or `.` where it is not set.
pub open spec fn base_dir(appdata: Option<Seq<char>>) -> Seq<char> {
    match appdata {
        Some(a) => a,
        None => "."@,
    }
}

fn string_of(s: &str) -> (r: String)
    ensures
        r@ == s@,
{
    let mut r = String::new();
    push_str(&mut r, s);
    r
}

/// The path components of the directory that holds the settings and the
/// log: the base directory, then `rmeters`. The caller joins them.
pub fn data_dir(appdata: Option<&str>) -> (r: Vec<String>)
    ensures
        r.len() == 2,
        r[0]@ == base_dir(
            match appdata {
                Some(a) => Some(a@),
                None => None,
            },
        ),
        r[1]@ == "rmeters"@,
{
    let mut r: Vec<String> = Vec::new();
    match appdata {
        Some(a) => r.push(string_of(a)),
        None => r.push(string_of(".")),
    }
    r.push(string_of("rmeters"));
    r
}

/// The path components of the settings file: the data directory, then
/// `config.txt`.
pub fn config_path(appdata: Option<&str>) -> (r: Vec<String>)
    ensures
        r.len() == 3,
        r[0]@ == base_dir(
            match appdata {
                Some(a) => Some(a@),
                None => None,
            },
        ),
        r[1]@ == "rmeters"@,
        r[2]@ == "config.txt"@,
{
    let mut r = data_dir(appdata);
    r.push(string_of("config.txt"));
    r
}

/// The path components of the log file: the data directory, then
/// `run_log.txt`.
pub fn log_path(appdata: Option<&str>) -> (r: Vec<String>)
    ensures
        r.len() == 3,
        r[0]@ == base_dir(
            match appdata {
                Some(a) => Some(a@),
                None => None,
            },
        ),
        r[1]@ == "rmeters"@,
        r[2]@ == "run_log.txt"@,
{
    let mut r = data_dir(appdata);
    r.push(string_of("run_log.txt"));
    r
}

/// The line that the log gets for a message: `[LOG] `, the message, and a
/// line break.
pub fn log_line(msg: &str) -> (r: String)
    ensures
        r@ == "[LOG] "@ + msg@ + "\n"@,
{
    let mut r = String::new();
    push_str(&mut r, "[LOG] ");
    push_str(&mut r, msg);
    push_str(&mut r, "\n");
    r
}

// ---------------------------------------------------------------------------
// The autostart registry value
// ---------------------------------------------------------------------------

/// Code units laid out as little-endian bytes, two for each unit.
pub open spec fn le_bytes(units: Seq<u16>) -> Seq<u8>
    decreases units.len(),
{
    if units.len() == 0 {
        seq![]
    } else {
        le_bytes(units.drop_last()) + seq![
            (units.last() % 256) as u8,
            (units.last() / 256) as u8,
        ]
    }
}

/// The command that starts the program: its path in double quotes.
pub open spec fn autostart_command(exe_path: Seq<char>) -> Seq<char> {
    seq!['"'] + exe_path + seq!['"']
}

/// The data of the `REG_SZ` autostart value: the quoted path in UTF-16,
/// with a terminating zero unit, as little-endian bytes.
#[verifier::rlimit(40)]
pub fn autostart_value(exe_path: &str) -> (r: Vec<u8>)
    ensures
        r@ == le_bytes(encode_utf16(autostart_command(exe_path@)).push(0)),
{
    let mut units: Vec<u16> = Vec::new();
    push_utf16(&mut units, '"');
    push_utf16_str(&mut units, exe_path);
    push_utf16(&mut units, '"');
    units.push(0);
    proof {
        let q = seq!['"'];
        lemma_encode_utf16_append(q, exe_path@);
        lemma_encode_utf16_append(q + exe_path@, q);
        assert(q.drop_last() =~= Seq::<char>::empty());
        assert(q.last() == '"');
        assert(encode_utf16(Seq::<char>::empty()) =~= Seq::<u16>::empty());
        assert(encode_utf16(q) =~= utf16_units('"'));
        assert(units@ =~= encode_utf16(autostart_command(exe_path@)).push(0));
    }
    let mut bytes: Vec<u8> = Vec::new();
    let mut i: usize = 0;
    while i < units.len()
        invariant
            i <= units.len(),
            bytes@ == le_bytes(units@.take(i as int)),
        decreases units.len() - i,
    {
        let u: u16 = units[i];
        bytes.push((u % 256) as u8);
        bytes.push((u / 256) as u8);
        proof {
            assert(units@.take(i + 1).drop_last() =~= units@.take(i as int));
            assert(bytes@ =~= le_bytes(units@.take(i + 1)));
        }
        i = i + 1;
    }
    assert(units@.take(units.len() as int) =~= units@);
    bytes
}

} // verus!
