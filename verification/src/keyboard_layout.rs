//! The keyboard-layout item: a two-letter code for the current input source.

use vstd::prelude::*;
use crate::api::{
    add_event, cmd_view, cmds_view, set_texts, spec_event_names, spec_set_texts_cmd,
    spec_special_cmds,
};
use crate::event::BarEvent;
use crate::item::{BarItem, ItemBuilder};
use crate::props::{BackgroundProps, Geometry, ItemProps, ScriptType, Text};
use crate::strs::{
    contains, lines_of, spec_contains, spec_lines, spec_split, spec_starts_with, spec_trim,
    spec_trim_start, split_on, starts_with, str_chars, trim, trim_start, vecs_view,
};
use crate::style::ItemStyle;
use crate::text::{concat2, string_from_chars, string_of};
use crate::themes::{catppuccin_mocha, spec_catppuccin_mocha};
use crate::types::{ComponentPosition, ToSketchybarArgs, ToggleState};

verus! {

/// The text `str::to_uppercase` gives for `s`: each character mapped to its
/// uppercase form by the Unicode tables.
pub uninterp spec fn spec_to_uppercase(s: Seq<char>) -> Seq<char>;

/// Calls `str::to_uppercase`. The result is named by `spec_to_uppercase`;
/// on ASCII letters and digits the documented mapping is stated.
#[verifier::external_body]
fn to_uppercase(s: &str) -> (r: String)
    ensures
        r@ == spec_to_uppercase(s@),
        (forall|i: int|
            0 <= i < s@.len() ==> ('a' <= #[trigger] s@[i] <= 'z' || 'A' <= s@[i] <= 'Z' || '0'
                <= s@[i] <= '9')) ==> r@.len() == s@.len() && forall|i: int|
            0 <= i < s@.len() ==> #[trigger] r@[i] == (if 'a' <= s@[i] <= 'z' {
                ((s@[i] as u32) - 32) as char
            } else {
                s@[i]
            }),
{
    s.to_uppercase()
}

/// The first two characters of `s` (fewer when it is shorter).
pub open spec fn spec_take2(s: Seq<char>) -> Seq<char> {
    if s.len() <= 2 {
        s
    } else {
        s.subrange(0, 2)
    }
}

/// The name starts with one of the prefixes that have their own code.
pub open spec fn spec_known_layout(n: Seq<char>) -> bool {
    spec_starts_with(n, "U.S"@) || spec_starts_with(n, "ABC"@) || spec_starts_with(n, "British"@)
        || spec_starts_with(n, "Australian"@) || spec_starts_with(n, "Canadian"@)
        || spec_starts_with(n, "Ukrainian"@) || spec_starts_with(n, "Russian"@) || spec_starts_with(
        n,
        "German"@,
    ) || spec_starts_with(n, "Austrian"@) || spec_starts_with(n, "French"@) || spec_starts_with(
        n,
        "Spanish"@,
    ) || spec_starts_with(n, "Finnish"@) || spec_starts_with(n, "Polish"@) || spec_starts_with(
        n,
        "Swedish"@,
    ) || spec_starts_with(n, "Norwegian"@) || spec_starts_with(n, "Danish"@) || spec_starts_with(
        n,
        "Italian"@,
    ) || spec_starts_with(n, "Portuguese"@) || spec_starts_with(n, "Dutch"@)
}

/// The code of a layout name, such as `U.S.`, `Ukrainian` or `Finnish`: a
/// known prefix gives its code, any other name its first two characters in
/// upper case.
pub open spec fn spec_name_code(n: Seq<char>) -> Seq<char> {
    if spec_starts_with(n, "U.S"@) || spec_starts_with(n, "ABC"@) || spec_starts_with(n, "British"@)
        || spec_starts_with(n, "Australian"@) || spec_starts_with(n, "Canadian"@) {
        "EN"@
    } else if spec_starts_with(n, "Ukrainian"@) {
        "UA"@
    } else if spec_starts_with(n, "Russian"@) {
        "RU"@
    } else if spec_starts_with(n, "German"@) || spec_starts_with(n, "Austrian"@) {
        "DE"@
    } else if spec_starts_with(n, "French"@) {
        "FR"@
    } else if spec_starts_with(n, "Spanish"@) {
        "ES"@
    } else if spec_starts_with(n, "Finnish"@) {
        "FI"@
    } else if spec_starts_with(n, "Polish"@) {
        "PL"@
    } else if spec_starts_with(n, "Swedish"@) {
        "SV"@
    } else if spec_starts_with(n, "Norwegian"@) {
        "NO"@
    } else if spec_starts_with(n, "Danish"@) {
        "DA"@
    } else if spec_starts_with(n, "Italian"@) {
        "IT"@
    } else if spec_starts_with(n, "Portuguese"@) {
        "PT"@
    } else if spec_starts_with(n, "Dutch"@) {
        "NL"@
    } else {
        spec_to_uppercase(spec_take2(n))
    }
}

/// A name that begins with `p` has the character of `p` at each place in front.
proof fn lemma_prefix_char(n: Seq<char>, p: Seq<char>, i: int)
    ensures
        spec_starts_with(n, p) && 0 <= i < p.len() ==> n[i] == p[i],
{
    if spec_starts_with(n, p) && 0 <= i < p.len() {
        assert(n.subrange(0, p.len() as int)[i] == n[i]);
    }
}

/// Every layout name that begins with one of the known prefixes has that
/// prefix's code: the English layouts `EN`, `Ukrainian` `UA`, `Russian` `RU`,
/// the German and Austrian layouts `DE`, `French` `FR`, `Spanish` `ES`,
/// `Finnish` `FI`, `Polish` `PL`, `Swedish` `SV`, `Norwegian` `NO`, `Danish`
/// `DA`, `Italian` `IT`, `Portuguese` `PT` and `Dutch` `NL`.
pub proof fn lemma_known_layout_codes(n: Seq<char>)
    ensures
        spec_starts_with(n, "U.S"@) ==> spec_name_code(n) == "EN"@,
        spec_starts_with(n, "ABC"@) ==> spec_name_code(n) == "EN"@,
        spec_starts_with(n, "British"@) ==> spec_name_code(n) == "EN"@,
        spec_starts_with(n, "Australian"@) ==> spec_name_code(n) == "EN"@,
        spec_starts_with(n, "Canadian"@) ==> spec_name_code(n) == "EN"@,
        spec_starts_with(n, "Ukrainian"@) ==> spec_name_code(n) == "UA"@,
        spec_starts_with(n, "Russian"@) ==> spec_name_code(n) == "RU"@,
        spec_starts_with(n, "German"@) ==> spec_name_code(n) == "DE"@,
        spec_starts_with(n, "Austrian"@) ==> spec_name_code(n) == "DE"@,
        spec_starts_with(n, "French"@) ==> spec_name_code(n) == "FR"@,
        spec_starts_with(n, "Spanish"@) ==> spec_name_code(n) == "ES"@,
        spec_starts_with(n, "Finnish"@) ==> spec_name_code(n) == "FI"@,
        spec_starts_with(n, "Polish"@) ==> spec_name_code(n) == "PL"@,
        spec_starts_with(n, "Swedish"@) ==> spec_name_code(n) == "SV"@,
        spec_starts_with(n, "Norwegian"@) ==> spec_name_code(n) == "NO"@,
        spec_starts_with(n, "Danish"@) ==> spec_name_code(n) == "DA"@,
        spec_starts_with(n, "Italian"@) ==> spec_name_code(n) == "IT"@,
        spec_starts_with(n, "Portuguese"@) ==> spec_name_code(n) == "PT"@,
        spec_starts_with(n, "Dutch"@) ==> spec_name_code(n) == "NL"@,
{
    reveal_strlit("U.S");
    reveal_strlit("ABC");
    reveal_strlit("British");
    reveal_strlit("Australian");
    reveal_strlit("Canadian");
    reveal_strlit("Ukrainian");
    reveal_strlit("Russian");
    reveal_strlit("German");
    reveal_strlit("Austrian");
    reveal_strlit("French");
    reveal_strlit("Spanish");
    reveal_strlit("Finnish");
    reveal_strlit("Polish");
    reveal_strlit("Swedish");
    reveal_strlit("Norwegian");
    reveal_strlit("Danish");
    reveal_strlit("Italian");
    reveal_strlit("Portuguese");
    reveal_strlit("Dutch");
    lemma_prefix_char(n, "U.S"@, 0);
    lemma_prefix_char(n, "U.S"@, 1);
    lemma_prefix_char(n, "ABC"@, 0);
    lemma_prefix_char(n, "ABC"@, 1);
    lemma_prefix_char(n, "British"@, 0);
    lemma_prefix_char(n, "British"@, 1);
    lemma_prefix_char(n, "Australian"@, 0);
    lemma_prefix_char(n, "Australian"@, 1);
    lemma_prefix_char(n, "Australian"@, 5);
    lemma_prefix_char(n, "Canadian"@, 0);
    lemma_prefix_char(n, "Canadian"@, 1);
    lemma_prefix_char(n, "Ukrainian"@, 0);
    lemma_prefix_char(n, "Ukrainian"@, 1);
    lemma_prefix_char(n, "Russian"@, 0);
    lemma_prefix_char(n, "Russian"@, 1);
    lemma_prefix_char(n, "German"@, 0);
    lemma_prefix_char(n, "German"@, 1);
    lemma_prefix_char(n, "Austrian"@, 0);
    lemma_prefix_char(n, "Austrian"@, 1);
    lemma_prefix_char(n, "Austrian"@, 5);
    lemma_prefix_char(n, "French"@, 0);
    lemma_prefix_char(n, "French"@, 1);
    lemma_prefix_char(n, "Spanish"@, 0);
    lemma_prefix_char(n, "Spanish"@, 1);
    lemma_prefix_char(n, "Finnish"@, 0);
    lemma_prefix_char(n, "Finnish"@, 1);
    lemma_prefix_char(n, "Polish"@, 0);
    lemma_prefix_char(n, "Polish"@, 1);
    lemma_prefix_char(n, "Polish"@, 2);
    lemma_prefix_char(n, "Swedish"@, 0);
    lemma_prefix_char(n, "Swedish"@, 1);
    lemma_prefix_char(n, "Norwegian"@, 0);
    lemma_prefix_char(n, "Norwegian"@, 1);
    lemma_prefix_char(n, "Danish"@, 0);
    lemma_prefix_char(n, "Danish"@, 1);
    lemma_prefix_char(n, "Italian"@, 0);
    lemma_prefix_char(n, "Italian"@, 1);
    lemma_prefix_char(n, "Portuguese"@, 0);
    lemma_prefix_char(n, "Portuguese"@, 1);
    lemma_prefix_char(n, "Portuguese"@, 2);
    lemma_prefix_char(n, "Dutch"@, 0);
    lemma_prefix_char(n, "Dutch"@, 1);
}

fn sw(n: &[char], p: &str) -> (r: bool)
    ensures
        r == spec_starts_with(n@, p@),
{
    starts_with(n, str_chars(p).as_slice())
}

/// The code of a layout name.
pub fn keyboard_name_to_code(name: &str) -> (r: String)
    ensures
        r@ == spec_name_code(name@),
        !spec_known_layout(name@) && (forall|i: int|
            0 <= i < spec_take2(name@).len() ==> crate::strs::spec_ascii_alnum(
                #[trigger] spec_take2(name@)[i],
            )) ==> r@ == crate::strs::spec_ascii_upper(spec_take2(name@)),
{
    let n = str_chars(name);
    let n = n.as_slice();
    if sw(n, "U.S") || sw(n, "ABC") || sw(n, "British") || sw(n, "Australian") || sw(
        n,
        "Canadian",
    ) {
        string_of("EN")
    } else if sw(n, "Ukrainian") {
        string_of("UA")
    } else if sw(n, "Russian") {
        string_of("RU")
    } else if sw(n, "German") || sw(n, "Austrian") {
        string_of("DE")
    } else if sw(n, "French") {
        string_of("FR")
    } else if sw(n, "Spanish") {
        string_of("ES")
    } else if sw(n, "Finnish") {
        string_of("FI")
    } else if sw(n, "Polish") {
        string_of("PL")
    } else if sw(n, "Swedish") {
        string_of("SV")
    } else if sw(n, "Norwegian") {
        string_of("NO")
    } else if sw(n, "Danish") {
        string_of("DA")
    } else if sw(n, "Italian") {
        string_of("IT")
    } else if sw(n, "Portuguese") {
        string_of("PT")
    } else if sw(n, "Dutch") {
        string_of("NL")
    } else {
        let k = if n.len() <= 2 {
            n.len()
        } else {
            2
        };
        let first = crate::strs::slice_of(n, 0, k);
        assert(first@ =~= spec_take2(name@));
        let t = string_from_chars(first.as_slice());
        let up = to_uppercase(t.as_str());
        assert(crate::strs::spec_ascii_upper(t@).len() == t@.len());
        proof {
            if forall|i: int| 0 <= i < t@.len() ==> crate::strs::spec_ascii_alnum(#[trigger] t@[i]) {
                assert(up@ =~= crate::strs::spec_ascii_upper(t@));
            }
        }
        up
    }
}

/// `s` without its trailing dots.
pub open spec fn spec_strip_dots(s: Seq<char>) -> Seq<char>
    decreases s.len(),
{
    if s.len() > 0 && s.last() == '.' {
        spec_strip_dots(s.drop_last())
    } else {
        s
    }
}

/// The last non-empty `.`-separated component of `s`, or `s` itself when
/// every component is empty.
pub open spec fn spec_last_component(s: Seq<char>) -> Seq<char> {
    let t = spec_strip_dots(s);
    if t.len() == 0 {
        s
    } else {
        spec_split(t, '.').last()
    }
}

/// The code of an input-source identifier such as
/// `com.apple.inputmethod.Korean.2SetKorean` or `com.apple.keylayout.Ukrainian`:
/// the input methods of Japanese, Korean, Chinese and Vietnamese have their
/// codes; otherwise the last component names the layout.
pub open spec fn spec_source_code(id: Seq<char>) -> Seq<char> {
    if spec_contains(id, "Japanese"@) || spec_contains(id, "Kotoeri"@) {
        "JA"@
    } else if spec_contains(id, "Korean"@) {
        "KO"@
    } else if spec_contains(id, "SCIM"@) || spec_contains(id, "Chinese"@) {
        "ZH"@
    } else if spec_contains(id, "Vietnamese"@) {
        "VI"@
    } else {
        spec_name_code(spec_last_component(id))
    }
}

fn has(s: &[char], p: &str) -> (r: bool)
    ensures
        r == spec_contains(s@, p@),
{
    contains(s, str_chars(p).as_slice())
}

fn last_component(s: &[char]) -> (r: Vec<char>)
    ensures
        r@ == spec_last_component(s@),
{
    let mut end = s.len();
    assert(s@.subrange(0, s@.len() as int) =~= s@);
    while end > 0 && s[end - 1] == '.'
        invariant
            end <= s@.len(),
            spec_strip_dots(s@) == spec_strip_dots(s@.subrange(0, end as int)),
        decreases end,
    {
        let ghost t = s@.subrange(0, end as int);
        assert(t.drop_last() =~= s@.subrange(0, end - 1));
        end = end - 1;
    }
    let t = crate::strs::slice_of(s, 0, end);
    assert(s@.subrange(0, s@.len() as int) =~= s@);
    assert(spec_strip_dots(t@) == t@);
    if end == 0 {
        return crate::strs::slice_of(s, 0, s.len());
    }
    let fields = split_on(t.as_slice(), '.');
    proof {
        crate::strs::lemma_split_nonempty(t@, '.');
    }
    let k = fields.len() - 1;
    assert(vecs_view(fields@)[k as int] == fields@[k as int]@);
    crate::strs::slice_of(fields[k].as_slice(), 0, fields[k].len())
}

/// The code of an input-source identifier.
pub fn source_id_to_code(id: &str) -> (r: String)
    ensures
        r@ == spec_source_code(id@),
{
    let s = str_chars(id);
    let s = s.as_slice();
    if has(s, "Japanese") || has(s, "Kotoeri") {
        string_of("JA")
    } else if has(s, "Korean") {
        string_of("KO")
    } else if has(s, "SCIM") || has(s, "Chinese") {
        string_of("ZH")
    } else if has(s, "Vietnamese") {
        string_of("VI")
    } else {
        let c = last_component(s);
        let name = string_from_chars(c.as_slice());
        keyboard_name_to_code(name.as_str())
    }
}

/// The text after the first `c` in `s` (`split_once(c)`), if `c` occurs.
pub open spec fn spec_after_first(s: Seq<char>, c: char) -> Option<Seq<char>> {
    let f = spec_split(s, c);
    if f.len() > 1 {
        Some(s.subrange(f[0].len() + 1int, s.len() as int))
    } else {
        None
    }
}

/// The first line whose text, without leading white space, begins with `key`.
pub open spec fn spec_first_line(lines: Seq<Seq<char>>, key: Seq<char>) -> Option<Seq<char>>
    decreases lines.len(),
{
    if lines.len() == 0 {
        None
    } else if spec_starts_with(spec_trim_start(lines[0]), key) {
        Some(lines[0])
    } else {
        spec_first_line(lines.drop_first(), key)
    }
}

/// The value after `=` on the first line that begins with `key`.
pub open spec fn spec_entry(lines: Seq<Seq<char>>, key: Seq<char>) -> Option<Seq<char>> {
    match spec_first_line(lines, key) {
        Some(l) => match spec_after_first(l, '=') {
            Some(v) => Some(spec_trim(v)),
            None => None,
        },
        None => None,
    }
}

/// The layout code read from the first entry of the input-source history
/// that `PlistBuddy` prints: an input method's mode when there is one, else
/// the keyboard layout's name, else `??`.
pub open spec fn spec_plist_code(text: Seq<char>) -> Seq<char> {
    let lines = spec_lines(text);
    match spec_entry(lines, "Input Mode"@) {
        Some(mode) => spec_source_code(mode),
        None => match spec_entry(lines, "KeyboardLayout Name"@) {
            Some(name) => spec_name_code(name),
            None => "??"@,
        },
    }
}

fn after_first(s: &[char], c: char) -> (r: Option<Vec<char>>)
    ensures
        match spec_after_first(s@, c) {
            Some(v) => r matches Some(x) && x@ == v,
            None => r is None,
        },
{
    let fields = split_on(s, c);
    proof {
        crate::strs::lemma_split_nonempty(s@, c);
    }
    if fields.len() > 1 {
        let k = fields[0].len();
        assert(vecs_view(fields@)[0] == fields@[0]@);
        proof {
            lemma_first_field_len(s@, c);
        }
        let n = s.len();
        assert(k < n);
        Some(crate::strs::slice_of(s, k + 1, n))
    } else {
        None
    }
}

/// When `c` occurs in `s`, the first field ends just before it.
proof fn lemma_first_field_len(s: Seq<char>, c: char)
    requires
        spec_split(s, c).len() > 1,
    ensures
        spec_split(s, c)[0].len() < s.len(),
    decreases s.len(),
{
    crate::strs::lemma_split_nonempty(s, c);
    if s.len() > 0 {
        let p = s.drop_last();
        crate::strs::lemma_split_nonempty(p, c);
        if spec_split(p, c).len() > 1 {
            lemma_first_field_len(p, c);
        } else {
            lemma_single_field(p, c);
        }
    }
}

/// With a single field, that field is the whole text.
proof fn lemma_single_field(s: Seq<char>, c: char)
    requires
        spec_split(s, c).len() == 1,
    ensures
        spec_split(s, c)[0] == s,
    decreases s.len(),
{
    if s.len() > 0 {
        let p = s.drop_last();
        crate::strs::lemma_split_nonempty(p, c);
        lemma_single_field(p, c);
        assert(spec_split(s, c)[0] =~= s);
    }
}

fn entry(lines: &Vec<Vec<char>>, key: &str) -> (r: Option<Vec<char>>)
    ensures
        match spec_entry(vecs_view(lines@), key@) {
            Some(v) => r matches Some(x) && x@ == v,
            None => r is None,
        },
{
    let k = str_chars(key);
    let mut i: usize = 0;
    assert(vecs_view(lines@).subrange(0, lines@.len() as int) =~= vecs_view(lines@));
    while i < lines.len()
        invariant
            i <= lines@.len(),
            k@ == key@,
            spec_first_line(vecs_view(lines@), key@) == spec_first_line(
                vecs_view(lines@).subrange(i as int, lines@.len() as int),
                key@,
            ),
        decreases lines@.len() - i,
    {
        let ghost rest = vecs_view(lines@).subrange(i as int, lines@.len() as int);
        assert(rest[0] == lines@[i as int]@);
        let t = trim_start(lines[i].as_slice());
        if starts_with(t.as_slice(), k.as_slice()) {
            return match after_first(lines[i].as_slice(), '=') {
                Some(v) => Some(trim(v.as_slice())),
                None => None,
            };
        }
        assert(rest.drop_first() =~= vecs_view(lines@).subrange(i + 1, lines@.len() as int));
        i = i + 1;
    }
    None
}

/// The code of the current layout, from the history printed by `PlistBuddy`.
pub fn layout_code_from_plist(text: &str) -> (r: String)
    ensures
        r@ == spec_plist_code(text@),
{
    let lines = lines_of(str_chars(text).as_slice());
    match entry(&lines, "Input Mode") {
        Some(mode) => {
            let m = string_from_chars(mode.as_slice());
            source_id_to_code(m.as_str())
        },
        None => match entry(&lines, "KeyboardLayout Name") {
            Some(name) => {
                let n = string_from_chars(name.as_slice());
                keyboard_name_to_code(n.as_str())
            },
            None => string_of("??"),
        },
    }
}

/// The keyboard-layout item's data: the code shown.
#[derive(Debug, Clone, PartialEq, Eq)]
pub struct KeyboardLayout {
    pub name: String,
}

/// The code to show: read from the input-source identifier when the change
/// notification carried one, else from the history printed by `PlistBuddy`
/// (`??` when it could not be run).
pub open spec fn spec_layout_name(source_id: Option<Seq<char>>, plist: Option<Seq<char>>) -> Seq<
    char,
> {
    match source_id {
        Some(id) => if id.len() > 0 {
            spec_source_code(id)
        } else {
            match plist {
                Some(t) => spec_plist_code(t),
                None => "??"@,
            }
        },
        None => match plist {
            Some(t) => spec_plist_code(t),
            None => "??"@,
        },
    }
}

impl KeyboardLayout {
    /// The layout read from the output of `PlistBuddy`, if it could be run.
    pub fn fetch(plist_output: Option<&str>) -> (r: Self)
        ensures
            r.name@ == spec_layout_name(None, crate::api::opt_str_view(plist_output)),
    {
        let name = match plist_output {
            Some(t) => layout_code_from_plist(t),
            None => string_of("??"),
        };
        KeyboardLayout { name }
    }

    /// The layout for an update: from the notification's identifier when it
    /// is not empty, else from `PlistBuddy`'s output.
    pub fn from_source(source_id: Option<&str>, plist_output: Option<&str>) -> (r: Self)
        ensures
            r.name@ == spec_layout_name(
                crate::api::opt_str_view(source_id),
                crate::api::opt_str_view(plist_output),
            ),
    {
        match source_id {
            Some(id) => {
                if id.unicode_len() > 0 {
                    KeyboardLayout { name: source_id_to_code(id) }
                } else {
                    KeyboardLayout::fetch(plist_output)
                }
            },
            None => KeyboardLayout::fetch(plist_output),
        }
    }

    /// The command that shows the code on the item.
    pub fn update_items(data: &Self) -> (r: Vec<String>)
        ensures
            cmd_view(r) == spec_set_texts_cmd("keyboard_layout"@, None, Some(data.name@)),
    {
        set_texts("keyboard_layout", None, Some(data.name.as_str()))
    }

    /// The update after a change: the code for the notification's identifier
    /// (or `PlistBuddy`'s output), shown on the item.
    pub fn update_command(source_id: Option<&str>, plist_output: Option<&str>) -> (r: Vec<String>)
        ensures
            cmd_view(r) == spec_set_texts_cmd(
                "keyboard_layout"@,
                None,
                Some(
                    spec_layout_name(
                        crate::api::opt_str_view(source_id),
                        crate::api::opt_str_view(plist_output),
                    ),
                ),
            ),
    {
        let data = KeyboardLayout::from_source(source_id, plist_output);
        KeyboardLayout::update_items(&data)
    }

    /// The commands that add the item, register the layout-change event and
    /// subscribe the item to it.
    pub fn setup(exe_path: &str) -> (r: Vec<Vec<String>>)
        ensures
            exists|p: ItemProps|
                spec_keyboard_props(p, exe_path@) && cmds_view(r@) == spec_special_cmds(
                    "item"@,
                    "keyboard_layout"@,
                    Some("right"@),
                    p.spec_args(),
                ) + seq![
                    seq!["--add"@, "event"@, "keyboard_layout_change"@],
                    seq!["--subscribe"@, "keyboard_layout"@, "keyboard_layout_change"@],
                ],
    {
        let theme = catppuccin_mocha();
        let script = concat2(exe_path, " --update-keyboard-layout");
        let item = BarItem::new("keyboard_layout").position(ComponentPosition::Right).script(
            script.as_str(),
        ).icon("󰌌").icon_color(theme.lavender).background_color(
            theme.surface0,
        ).background_drawing(ToggleState::On);
        assert(spec_keyboard_props(item.props, exe_path@));
        proof {
            crate::api::lemma_add_childless(item);
        }
        let mut cmds = item.add();
        let ev = add_event("keyboard_layout_change");
        let mut events: Vec<BarEvent> = Vec::new();
        events.push(BarEvent::Custom(string_of("keyboard_layout_change")));
        let sub = item.subscribe(events);
        assert(spec_event_names(events@) =~= seq!["keyboard_layout_change"@]);
        let ghost before = cmds_view(cmds@);
        cmds.push(ev);
        cmds.push(sub);
        assert(cmd_view(sub) =~= seq!["--subscribe"@, "keyboard_layout"@, "keyboard_layout_change"@]);
        assert(cmds_view(cmds@) =~= before + seq![cmd_view(ev), cmd_view(sub)]);
        cmds
    }
}

/// The keyboard-layout item: on the right, a keyboard icon in lavender over
/// a drawn background, updated by `<exe> --update-keyboard-layout`.
pub open spec fn spec_keyboard_props(p: ItemProps, exe_path: Seq<char>) -> bool {
    let mocha = spec_catppuccin_mocha();
    &&& p.geometry == (Geometry {
        position: Some(ComponentPosition::Right),
        background: Some(
            BackgroundProps {
                color: Some(mocha.surface0),
                drawing: Some(ToggleState::On),
                ..BackgroundProps::spec_empty()
            },
        ),
        ..Geometry::spec_empty()
    })
    &&& (p.icon.icon matches Some(s) && s@ == "󰌌"@)
    &&& p.icon.props == Some(Text { color: Some(mocha.lavender), ..Text::spec_empty() })
    &&& p.label == crate::props::Label::spec_empty()
    &&& (p.scripting.script matches Some(ScriptType::String(s)) && s@ == exe_path
        + " --update-keyboard-layout"@)
    &&& p.scripting.click_script is None
    &&& p.scripting.update_freq is None
    &&& p.scripting.updates is None
    &&& p.scripting.mach_helper is None
    &&& p.text is None
    &&& p.popup is None
}

} // verus!
