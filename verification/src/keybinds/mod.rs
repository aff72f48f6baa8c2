//! Keys, shortcuts and key bindings.
use vstd::prelude::*;

use crate::strings::{
    chars_eq_str, chars_of, lemma_find_from_is, lemma_find_from_none, split_chars, split_on,
};

pub mod config;
pub mod files_tab;
pub mod keybinds_store;
pub mod log_tab;
pub mod rebase_popup;

pub use log_tab::{LogTabEvent, LogTabKeybinds};

verus! {

/// A key of the keyboard.
#[derive(Clone, Copy, Debug, PartialEq, Eq, Hash, Structural)]
pub enum KeyCode {
    Backspace,
    Enter,
    Left,
    Right,
    Up,
    Down,
    Home,
    End,
    PageUp,
    PageDown,
    Tab,
    BackTab,
    Delete,
    Insert,
    F(u8),
    Char(char),
    Null,
    Esc,
    CapsLock,
    ScrollLock,
    NumLock,
    PrintScreen,
    Pause,
    Menu,
    KeypadBegin,
    /// A media or a lone modifier key.
    Other,
}

/// A set of modifier keys, one bit each.
#[derive(Clone, Copy, Debug, PartialEq, Eq, Hash, Structural)]
pub struct KeyModifiers {
    pub bits: u8,
}

/// The bits of the modifier keys.
pub const SHIFT_BIT: u8 = 0x01;
pub const CONTROL_BIT: u8 = 0x02;
pub const ALT_BIT: u8 = 0x04;
pub const SUPER_BIT: u8 = 0x08;
pub const HYPER_BIT: u8 = 0x10;
pub const META_BIT: u8 = 0x20;

impl KeyModifiers {
    /// No modifier.
    pub fn empty() -> (r: KeyModifiers)
        ensures
            r.bits == 0,
    {
        KeyModifiers { bits: 0 }
    }

    /// Shift alone.
    pub fn shift() -> (r: KeyModifiers)
        ensures
            r.bits == SHIFT_BIT,
    {
        KeyModifiers { bits: SHIFT_BIT }
    }

    /// Control alone.
    pub fn control() -> (r: KeyModifiers)
        ensures
            r.bits == CONTROL_BIT,
    {
        KeyModifiers { bits: CONTROL_BIT }
    }

    /// Whether every modifier of `other` is in `self`.
    pub fn contains(&self, other: KeyModifiers) -> (r: bool)
        ensures
            r == (self.bits & other.bits == other.bits),
    {
        self.bits & other.bits == other.bits
    }
}

/// Whether a key went down, repeats while held, or came up.
#[derive(Clone, Copy, Debug, PartialEq, Eq, Structural)]
pub enum KeyEventKind {
    Press,
    Repeat,
    Release,
}

/// A key event: the key, the modifiers held with it, and what the key did.
#[derive(Clone, Copy, Debug, PartialEq, Eq, Structural)]
pub struct KeyEvent {
    pub code: KeyCode,
    pub modifiers: KeyModifiers,
    pub kind: KeyEventKind,
}

impl KeyEvent {
    /// A press of `code` with `modifiers` held.
    pub fn new(code: KeyCode, modifiers: KeyModifiers) -> (r: KeyEvent)
        ensures
            r == (KeyEvent { code, modifiers, kind: KeyEventKind::Press }),
    {
        KeyEvent { code, modifiers, kind: KeyEventKind::Press }
    }
}

/// A key with modifiers, as bindings are keyed by.
#[derive(Debug, Clone, Copy, Hash, PartialEq, Eq, Structural)]
pub struct Shortcut {
    pub key: KeyCode,
    pub modifiers: KeyModifiers,
}

/// `c` with an ASCII upper-case letter turned into lower case.
pub open spec fn ascii_lower(c: char) -> char {
    if 'A' <= c && c <= 'Z' {
        (((c as u32) + 32) as u8) as char
    } else {
        c
    }
}

/// The key as a shortcut sees it: letters of `Char` keys in lower case.
pub open spec fn normalized_key(k: KeyCode) -> KeyCode {
    match k {
        KeyCode::Char(c) => KeyCode::Char(ascii_lower(c)),
        _ => k,
    }
}

fn to_ascii_lower(c: char) -> (r: char)
    ensures
        r == ascii_lower(c),
{
    if 'A' <= c && c <= 'Z' {
        let x: u32 = (c as u32) + 32;
        (x as u8) as char
    } else {
        c
    }
}

impl Shortcut {
    /// `key` with `modifiers`.
    pub fn new_mod_key(modifiers: KeyModifiers, key: KeyCode) -> (r: Self)
        ensures
            r.key == key && r.modifiers == modifiers,
    {
        Self { key, modifiers }
    }

    /// The character `key` with `modifiers`.
    pub fn new_mod_char(modifiers: KeyModifiers, key: char) -> (r: Self)
        ensures
            r.key == KeyCode::Char(key) && r.modifiers == modifiers,
    {
        Self::new_mod_key(modifiers, KeyCode::Char(key))
    }

    /// The character `key` with no modifier.
    pub fn new_char(key: char) -> (r: Self)
        ensures
            r.key == KeyCode::Char(key) && r.modifiers.bits == 0,
    {
        Self::new_mod_key(KeyModifiers::empty(), KeyCode::Char(key))
    }

    /// `key` with no modifier.
    pub fn new_key(key: KeyCode) -> (r: Self)
        ensures
            r.key == key && r.modifiers.bits == 0,
    {
        Self::new_mod_key(KeyModifiers::empty(), key)
    }

    /// The shortcut a key press stands for.
    pub fn from_event(event: KeyEvent) -> (r: Self)
        ensures
            r.key == normalized_key(event.code),
            r.modifiers == event.modifiers,
    {
        Self {
            key: match event.code {
                KeyCode::Char(c) => KeyCode::Char(to_ascii_lower(c)),
                c => c,
            },
            modifiers: event.modifiers,
        }
    }
}

/// The bit of a modifier name: `ctrl` (or `control`), `shift`, `alt`,
/// `super`, `hyper` or `meta`.
pub open spec fn modifier_bit(tok: Seq<char>) -> Option<u8> {
    if tok == "ctrl"@ || tok == "control"@ {
        Some(CONTROL_BIT)
    } else if tok == "shift"@ {
        Some(SHIFT_BIT)
    } else if tok == "alt"@ {
        Some(ALT_BIT)
    } else if tok == "super"@ {
        Some(SUPER_BIT)
    } else if tok == "hyper"@ {
        Some(HYPER_BIT)
    } else if tok == "meta"@ {
        Some(META_BIT)
    } else {
        None
    }
}

/// The number of a function key name `f1` .. `f12`.
pub open spec fn function_key_number(tok: Seq<char>) -> Option<u8> {
    if tok.len() == 2 && tok[0] == 'f' && '1' <= tok[1] && tok[1] <= '9' {
        Some(((tok[1] as u32) - ('0' as u32)) as u8)
    } else if tok.len() == 3 && tok[0] == 'f' && tok[1] == '1' && '0' <= tok[2] && tok[2] <= '2' {
        Some((10 + (tok[2] as u32) - ('0' as u32)) as u8)
    } else {
        None
    }
}

/// The key a key name stands for: a single character (letters in lower
/// case), a function key, or one of the named keys.
pub open spec fn key_of_name(tok: Seq<char>) -> Option<KeyCode> {
    if tok.len() == 1 {
        Some(KeyCode::Char(ascii_lower(tok[0])))
    } else if function_key_number(tok) is Some {
        Some(KeyCode::F(function_key_number(tok)->0))
    } else if tok == "enter"@ {
        Some(KeyCode::Enter)
    } else if tok == "esc"@ {
        Some(KeyCode::Esc)
    } else if tok == "up"@ {
        Some(KeyCode::Up)
    } else if tok == "down"@ {
        Some(KeyCode::Down)
    } else if tok == "left"@ {
        Some(KeyCode::Left)
    } else if tok == "right"@ {
        Some(KeyCode::Right)
    } else if tok == "home"@ {
        Some(KeyCode::Home)
    } else if tok == "end"@ {
        Some(KeyCode::End)
    } else if tok == "pageup"@ {
        Some(KeyCode::PageUp)
    } else if tok == "pagedown"@ {
        Some(KeyCode::PageDown)
    } else if tok == "tab"@ {
        Some(KeyCode::Tab)
    } else if tok == "backtab"@ {
        Some(KeyCode::BackTab)
    } else if tok == "backspace"@ {
        Some(KeyCode::Backspace)
    } else if tok == "delete"@ {
        Some(KeyCode::Delete)
    } else if tok == "insert"@ {
        Some(KeyCode::Insert)
    } else if tok == "space"@ {
        Some(KeyCode::Char(' '))
    } else {
        None
    }
}

/// The modifier bits named by `toks`, or `None` if one of them names none.
pub open spec fn modifier_bits(toks: Seq<Seq<char>>) -> Option<u8>
    decreases toks.len(),
{
    if toks.len() == 0 {
        Some(0u8)
    } else {
        match (modifier_bits(toks.drop_last()), modifier_bit(toks.last())) {
            (Some(a), Some(b)) => Some(a | b),
            _ => None,
        }
    }
}

/// The shortcut that a text such as `ctrl+shift+p`, `f5` or `?` names:
/// modifier names and then a key name, joined by `+`.
pub open spec fn parsed_shortcut(s: Seq<char>) -> Option<Shortcut> {
    let toks = split_on(s, '+');
    match (modifier_bits(toks.drop_last()), key_of_name(toks.last())) {
        (Some(bits), Some(key)) => Some(Shortcut { key, modifiers: KeyModifiers { bits } }),
        _ => None,
    }
}

fn modifier_bit_of(tok: &Vec<char>) -> (r: Option<u8>)
    ensures
        r == modifier_bit(tok@),
{
    if chars_eq_str(tok, "ctrl") || chars_eq_str(tok, "control") {
        Some(CONTROL_BIT)
    } else if chars_eq_str(tok, "shift") {
        Some(SHIFT_BIT)
    } else if chars_eq_str(tok, "alt") {
        Some(ALT_BIT)
    } else if chars_eq_str(tok, "super") {
        Some(SUPER_BIT)
    } else if chars_eq_str(tok, "hyper") {
        Some(HYPER_BIT)
    } else if chars_eq_str(tok, "meta") {
        Some(META_BIT)
    } else {
        None
    }
}

fn function_key_of(tok: &Vec<char>) -> (r: Option<u8>)
    ensures
        r == function_key_number(tok@),
{
    if tok.len() == 2 && tok[0] == 'f' && '1' <= tok[1] && tok[1] <= '9' {
        Some(((tok[1] as u32) - ('0' as u32)) as u8)
    } else if tok.len() == 3 && tok[0] == 'f' && tok[1] == '1' && '0' <= tok[2] && tok[2] <= '2' {
        Some((10 + (tok[2] as u32) - ('0' as u32)) as u8)
    } else {
        None
    }
}

fn key_of(tok: &Vec<char>) -> (r: Option<KeyCode>)
    ensures
        r == key_of_name(tok@),
{
    if tok.len() == 1 {
        return Some(KeyCode::Char(to_ascii_lower(tok[0])));
    }
    match function_key_of(tok) {
        Some(n) => {
            return Some(KeyCode::F(n));
        },
        None => {},
    }
    if chars_eq_str(tok, "enter") {
        Some(KeyCode::Enter)
    } else if chars_eq_str(tok, "esc") {
        Some(KeyCode::Esc)
    } else if chars_eq_str(tok, "up") {
        Some(KeyCode::Up)
    } else if chars_eq_str(tok, "down") {
        Some(KeyCode::Down)
    } else if chars_eq_str(tok, "left") {
        Some(KeyCode::Left)
    } else if chars_eq_str(tok, "right") {
        Some(KeyCode::Right)
    } else if chars_eq_str(tok, "home") {
        Some(KeyCode::Home)
    } else if chars_eq_str(tok, "end") {
        Some(KeyCode::End)
    } else if chars_eq_str(tok, "pageup") {
        Some(KeyCode::PageUp)
    } else if chars_eq_str(tok, "pagedown") {
        Some(KeyCode::PageDown)
    } else if chars_eq_str(tok, "tab") {
        Some(KeyCode::Tab)
    } else if chars_eq_str(tok, "backtab") {
        Some(KeyCode::BackTab)
    } else if chars_eq_str(tok, "backspace") {
        Some(KeyCode::Backspace)
    } else if chars_eq_str(tok, "delete") {
        Some(KeyCode::Delete)
    } else if chars_eq_str(tok, "insert") {
        Some(KeyCode::Insert)
    } else if chars_eq_str(tok, "space") {
        Some(KeyCode::Char(' '))
    } else {
        None
    }
}

impl Shortcut {
    /// Reads a shortcut such as `ctrl+shift+p`, `shift+j`, `f5`, `down` or `?`.
    pub fn parse(text: &str) -> (r: Option<Shortcut>)
        ensures
            r == parsed_shortcut(text@),
    {
        let v = chars_of(text);
        let toks = split_chars(&v, '+');
        let ghost tv = toks@.map_values(|p: Vec<char>| p@);
        let n = toks.len();
        let mut bits: u8 = 0;
        let mut i: usize = 0;
        while i + 1 < n
            invariant
                n == toks@.len() >= 1,
                tv == split_on(v@, '+'),
                tv == toks@.map_values(|p: Vec<char>| p@),
                v@ == text@,
                i + 1 <= n,
                modifier_bits(tv.take(i as int)) == Some(bits),
            decreases n - i,
        {
            match modifier_bit_of(&toks[i]) {
                Some(b) => {
                    proof {
                        assert(tv.take(i + 1).drop_last() =~= tv.take(i as int));
                        assert(tv.take(i + 1).last() == toks@[i as int]@);
                    }
                    bits = bits | b;
                },
                None => {
                    proof {
                        assert(tv.take(i + 1).drop_last() =~= tv.take(i as int));
                        assert(tv.take(i + 1).last() == toks@[i as int]@);
                        lemma_modifier_bits_none_extends(tv.drop_last(), i as int + 1);
                        assert(tv.drop_last().take(i + 1) =~= tv.take(i + 1));
                    }
                    return None;
                },
            }
            i = i + 1;
        }
        assert(tv.take(i as int) =~= tv.drop_last());
        assert(tv.last() == toks@[n - 1]@);
        match key_of(&toks[n - 1]) {
            Some(key) => Some(Shortcut { key, modifiers: KeyModifiers { bits } }),
            None => None,
        }
    }
}

proof fn lemma_modifier_bits_none_extends(toks: Seq<Seq<char>>, k: int)
    requires
        0 <= k <= toks.len(),
        modifier_bits(toks.take(k)) is None,
    ensures
        modifier_bits(toks) is None,
    decreases toks.len() - k,
{
    if k < toks.len() {
        assert(toks.take(k + 1).drop_last() =~= toks.take(k));
        lemma_modifier_bits_none_extends(toks, k + 1);
    } else {
        assert(toks.take(k) =~= toks);
    }
}

/// How a key is written: the character itself, `f<n>` for function keys,
/// or the key's name.
pub open spec fn key_text(k: KeyCode) -> Seq<char> {
    match k {
        KeyCode::Char(c) => seq![c],
        KeyCode::F(n) => "f"@ + decimal(n as nat),
        KeyCode::Backspace => "backspace"@,
        KeyCode::Enter => "enter"@,
        KeyCode::Left => "left"@,
        KeyCode::Right => "right"@,
        KeyCode::Up => "up"@,
        KeyCode::Down => "down"@,
        KeyCode::Home => "home"@,
        KeyCode::End => "end"@,
        KeyCode::PageUp => "pageup"@,
        KeyCode::PageDown => "pagedown"@,
        KeyCode::Tab => "tab"@,
        KeyCode::BackTab => "backtab"@,
        KeyCode::Delete => "delete"@,
        KeyCode::Insert => "insert"@,
        KeyCode::Null => "null"@,
        KeyCode::Esc => "esc"@,
        KeyCode::CapsLock => "capslock"@,
        KeyCode::ScrollLock => "scrolllock"@,
        KeyCode::NumLock => "numlock"@,
        KeyCode::PrintScreen => "printscreen"@,
        KeyCode::Pause => "pause"@,
        KeyCode::Menu => "menu"@,
        KeyCode::KeypadBegin => "keypadbegin"@,
        KeyCode::Other => "other"@,
    }
}

/// The decimal digits of `n`.
pub open spec fn decimal(n: nat) -> Seq<char>
    decreases n,
{
    if n < 10 {
        seq![(('0' as u32) + n) as char]
    } else {
        decimal(n / 10).push((('0' as u32) + (n % 10)) as char)
    }
}

/// `word` followed by `+` when `on`, else nothing.
pub open spec fn modifier_prefix(on: bool, word: Seq<char>) -> Seq<char> {
    if on {
        word + "+"@
    } else {
        seq![]
    }
}

/// How a shortcut is written: its modifiers, each followed by `+`, in the
/// order ctrl, shift, alt, super, hyper, meta, and then its key.
pub open spec fn shortcut_text(s: Shortcut) -> Seq<char> {
    let b = s.modifiers.bits;
    modifier_prefix(b & CONTROL_BIT != 0, "ctrl"@) + modifier_prefix(b & SHIFT_BIT != 0, "shift"@)
        + modifier_prefix(b & ALT_BIT != 0, "alt"@) + modifier_prefix(b & SUPER_BIT != 0, "super"@)
        + modifier_prefix(b & HYPER_BIT != 0, "hyper"@) + modifier_prefix(b & META_BIT != 0, "meta"@)
        + key_text(s.key)
}

fn digit_char(d: u8) -> (c: char)
    requires
        d < 10,
    ensures
        c == (('0' as u32) + d) as char,
{
    (48u8 + d) as char
}

fn push_decimal(s: &mut String, n: u8)
    ensures
        final(s)@ == old(s)@ + decimal(n as nat),
{
    let ghost s0 = s@;
    let nn: Ghost<nat> = Ghost(n as nat);
    if n >= 100 {
        let c1 = digit_char(n / 100);
        let c2 = digit_char((n / 10) % 10);
        let c3 = digit_char(n % 10);
        crate::strings::push_char(s, c1);
        crate::strings::push_char(s, c2);
        crate::strings::push_char(s, c3);
        proof {
            let m = nn@;
            assert(m / 10 / 10 == m / 100);
            assert(m / 10 / 10 < 10);
            assert(decimal(m / 10 / 10) =~= seq![c1]);
            assert(decimal(m / 10) =~= seq![c1, c2]);
            assert(decimal(m) =~= seq![c1, c2, c3]);
            assert(s@ =~= s0 + decimal(m));
        }
    } else if n >= 10 {
        let c1 = digit_char(n / 10);
        let c2 = digit_char(n % 10);
        crate::strings::push_char(s, c1);
        crate::strings::push_char(s, c2);
        proof {
            let m = nn@;
            assert(decimal(m / 10) =~= seq![c1]);
            assert(decimal(m) =~= seq![c1, c2]);
            assert(s@ =~= s0 + decimal(m));
        }
    } else {
        let c1 = digit_char(n);
        crate::strings::push_char(s, c1);
        proof {
            assert(decimal(nn@) =~= seq![c1]);
            assert(s@ =~= s0 + decimal(nn@));
        }
    }
}

fn push_modifier(s: &mut String, on: bool, word: &str)
    ensures
        final(s)@ == old(s)@ + modifier_prefix(on, word@),
{
    if on {
        s.append(word);
        s.append("+");
    }
}

fn push_key_text(s: &mut String, key: KeyCode)
    ensures
        final(s)@ == old(s)@ + key_text(key),
{
    match key {
        KeyCode::Char(c) => crate::strings::push_char(s, c),
        KeyCode::F(n) => {
            s.append("f");
            push_decimal(s, n);
            assert(s@ =~= old(s)@ + key_text(key));
        },
        KeyCode::Backspace => s.append("backspace"),
        KeyCode::Enter => s.append("enter"),
        KeyCode::Left => s.append("left"),
        KeyCode::Right => s.append("right"),
        KeyCode::Up => s.append("up"),
        KeyCode::Down => s.append("down"),
        KeyCode::Home => s.append("home"),
        KeyCode::End => s.append("end"),
        KeyCode::PageUp => s.append("pageup"),
        KeyCode::PageDown => s.append("pagedown"),
        KeyCode::Tab => s.append("tab"),
        KeyCode::BackTab => s.append("backtab"),
        KeyCode::Delete => s.append("delete"),
        KeyCode::Insert => s.append("insert"),
        KeyCode::Null => s.append("null"),
        KeyCode::Esc => s.append("esc"),
        KeyCode::CapsLock => s.append("capslock"),
        KeyCode::ScrollLock => s.append("scrolllock"),
        KeyCode::NumLock => s.append("numlock"),
        KeyCode::PrintScreen => s.append("printscreen"),
        KeyCode::Pause => s.append("pause"),
        KeyCode::Menu => s.append("menu"),
        KeyCode::KeypadBegin => s.append("keypadbegin"),
        KeyCode::Other => s.append("other"),
    }
}

impl Shortcut {
    /// The shortcut as it is written (see `shortcut_text`).
    pub fn to_text(&self) -> (r: String)
        ensures
            r@ == shortcut_text(*self),
    {
        let b = self.modifiers.bits;
        let mut s = String::new();
        push_modifier(&mut s, b & CONTROL_BIT != 0, "ctrl");
        push_modifier(&mut s, b & SHIFT_BIT != 0, "shift");
        push_modifier(&mut s, b & ALT_BIT != 0, "alt");
        push_modifier(&mut s, b & SUPER_BIT != 0, "super");
        push_modifier(&mut s, b & HYPER_BIT != 0, "hyper");
        push_modifier(&mut s, b & META_BIT != 0, "meta");
        push_key_text(&mut s, self.key);
        assert(s@ =~= shortcut_text(*self));
        s
    }
}

/// Whether `key_text` writes the key in a form that `parse` reads back as
/// the same key: a character other than an upper-case letter or `+`, a
/// function key `f1` .. `f12`, or one of the named keys.
pub open spec fn has_key_name(k: KeyCode) -> bool {
    match k {
        KeyCode::Char(c) => !('A' <= c && c <= 'Z') && c != '+',
        KeyCode::F(n) => 1 <= n && n <= 12,
        KeyCode::Enter | KeyCode::Esc | KeyCode::Up | KeyCode::Down | KeyCode::Left
        | KeyCode::Right | KeyCode::Home | KeyCode::End | KeyCode::PageUp | KeyCode::PageDown
        | KeyCode::Tab | KeyCode::BackTab | KeyCode::Backspace | KeyCode::Delete
        | KeyCode::Insert => true,
        _ => false,
    }
}

/// `seq![w]` when `on`, else nothing: the token a modifier prefix adds.
spec fn chosen(on: bool, w: Seq<char>) -> Seq<Seq<char>> {
    if on {
        seq![w]
    } else {
        seq![]
    }
}

spec fn plus_free(w: Seq<char>) -> bool {
    forall|j: int| 0 <= j < w.len() ==> w[j] != '+'
}

proof fn lemma_split_prefix(on: bool, w: Seq<char>, rest: Seq<char>)
    requires
        plus_free(w),
    ensures
        split_on(modifier_prefix(on, w) + rest, '+') == chosen(on, w) + split_on(rest, '+'),
{
    reveal_strlit("+");
    if on {
        let t = modifier_prefix(on, w) + rest;
        assert(t =~= w + seq!['+'] + rest);
        lemma_find_from_is(t, '+', 0, w.len() as int);
        assert(t.take(w.len() as int) =~= w);
        assert(t.skip(w.len() as int + 1) =~= rest);
    } else {
        assert(modifier_prefix(on, w) + rest =~= rest);
        assert(chosen(on, w) + split_on(rest, '+') =~= split_on(rest, '+'));
    }
}

proof fn lemma_modifier_bits_chosen(ts: Seq<Seq<char>>, on: bool, w: Seq<char>, a: u8, bw: u8)
    requires
        modifier_bits(ts) == Some(a),
        modifier_bit(w) == Some(bw),
    ensures
        modifier_bits(ts + chosen(on, w)) == Some(if on { a | bw } else { a }),
{
    if on {
        let u = ts + chosen(on, w);
        assert(u.drop_last() =~= ts);
        assert(u.last() == w);
    } else {
        assert(ts + chosen(on, w) =~= ts);
    }
}

proof fn lemma_modifier_names()
    ensures
        modifier_bit("ctrl"@) == Some(CONTROL_BIT),
        modifier_bit("shift"@) == Some(SHIFT_BIT),
        modifier_bit("alt"@) == Some(ALT_BIT),
        modifier_bit("super"@) == Some(SUPER_BIT),
        modifier_bit("hyper"@) == Some(HYPER_BIT),
        modifier_bit("meta"@) == Some(META_BIT),
        plus_free("ctrl"@),
        plus_free("shift"@),
        plus_free("alt"@),
        plus_free("super"@),
        plus_free("hyper"@),
        plus_free("meta"@),
{
    reveal_strlit("ctrl");
    reveal_strlit("control");
    reveal_strlit("shift");
    reveal_strlit("alt");
    reveal_strlit("super");
    reveal_strlit("hyper");
    reveal_strlit("meta");
    assert("ctrl"@.len() == 4 && "control"@.len() == 7 && "shift"@.len() == 5);
    assert("alt"@.len() == 3 && "super"@.len() == 5 && "hyper"@.len() == 5);
    assert("meta"@.len() == 4 && "ctrl"@[0] == 'c' && "meta"@[0] == 'm');
    assert("shift"@[1] == 'h' && "super"@[1] == 'u' && "hyper"@[1] == 'y');
}

proof fn lemma_key_text_plus_free(k: KeyCode)
    requires
        has_key_name(k),
    ensures
        plus_free(key_text(k)),
{
    reveal_strlit("f");
    reveal_strlit("enter");
    reveal_strlit("esc");
    reveal_strlit("up");
    reveal_strlit("down");
    reveal_strlit("left");
    reveal_strlit("right");
    reveal_strlit("home");
    reveal_strlit("end");
    reveal_strlit("pageup");
    reveal_strlit("pagedown");
    reveal_strlit("tab");
    reveal_strlit("backtab");
    reveal_strlit("backspace");
    reveal_strlit("delete");
    reveal_strlit("insert");
    match k {
        KeyCode::F(n) => {
            if n < 10 {
                assert(key_text(k) =~= seq!['f', (('0' as u32) + n) as char]);
            } else {
                reveal_with_fuel(decimal, 2);
                assert(decimal(n as nat / 10) =~= seq!['1']);
                assert(key_text(k) =~= seq!['f', '1', (('0' as u32) + (n as nat % 10)) as char]);
            }
        },
        _ => {},
    }
}

proof fn lemma_key_name_round_trip(k: KeyCode)
    requires
        has_key_name(k),
    ensures
        key_of_name(key_text(k)) == Some(k),
{
    reveal_strlit("f");
    reveal_strlit("enter");
    reveal_strlit("esc");
    reveal_strlit("up");
    reveal_strlit("down");
    reveal_strlit("left");
    reveal_strlit("right");
    reveal_strlit("home");
    reveal_strlit("end");
    reveal_strlit("pageup");
    reveal_strlit("pagedown");
    reveal_strlit("tab");
    reveal_strlit("backtab");
    reveal_strlit("backspace");
    reveal_strlit("delete");
    reveal_strlit("insert");
    reveal_strlit("space");
    assert("enter"@.len() == 5 && "esc"@.len() == 3 && "up"@.len() == 2 && "down"@.len() == 4);
    assert("left"@.len() == 4 && "right"@.len() == 5 && "home"@.len() == 4 && "end"@.len() == 3);
    assert("pageup"@.len() == 6 && "pagedown"@.len() == 8 && "tab"@.len() == 3);
    assert("backtab"@.len() == 7 && "backspace"@.len() == 9 && "delete"@.len() == 6);
    assert("insert"@.len() == 6 && "space"@.len() == 5 && "f"@.len() == 1);
    assert("enter"@[0] == 'e' && "esc"@[0] == 'e' && "up"@[0] == 'u' && "down"@[0] == 'd');
    assert("left"@[0] == 'l' && "right"@[0] == 'r' && "home"@[0] == 'h' && "end"@[0] == 'e');
    assert("pageup"@[0] == 'p' && "tab"@[0] == 't' && "delete"@[0] == 'd');
    assert("insert"@[0] == 'i' && "space"@[0] == 's' && "esc"@[1] == 's' && "end"@[1] == 'n');
    match k {
        KeyCode::F(n) => {
            let t = key_text(k);
            if n < 10 {
                assert(t =~= seq!['f', (('0' as u32) + n) as char]);
            } else {
                reveal_with_fuel(decimal, 2);
                assert(decimal(n as nat / 10) =~= seq!['1']);
                assert(t =~= seq!['f', '1', (('0' as u32) + (n as nat % 10)) as char]);
            }
        },
        _ => {},
    }
}

/// The modifier names that `shortcut_text` writes for the bits `b`, in order.
#[verifier::opaque]
spec fn modifier_tokens(b: u8) -> Seq<Seq<char>> {
    chosen(b & CONTROL_BIT != 0, "ctrl"@) + chosen(b & SHIFT_BIT != 0, "shift"@) + chosen(
        b & ALT_BIT != 0,
        "alt"@,
    ) + chosen(b & SUPER_BIT != 0, "super"@) + chosen(b & HYPER_BIT != 0, "hyper"@) + chosen(
        b & META_BIT != 0,
        "meta"@,
    )
}

/// The modifier names that `shortcut_text` writes for the bits `b`, each
/// followed by `+`.
#[verifier::opaque]
spec fn modifier_text(b: u8) -> Seq<char> {
    modifier_prefix(b & CONTROL_BIT != 0, "ctrl"@) + modifier_prefix(b & SHIFT_BIT != 0, "shift"@)
        + modifier_prefix(b & ALT_BIT != 0, "alt"@) + modifier_prefix(b & SUPER_BIT != 0, "super"@)
        + modifier_prefix(b & HYPER_BIT != 0, "hyper"@) + modifier_prefix(b & META_BIT != 0, "meta"@)
}

/// The words `ws`, each followed by `+`.
spec fn joined(ws: Seq<Seq<char>>) -> Seq<char>
    decreases ws.len(),
{
    if ws.len() == 0 {
        seq![]
    } else {
        ws[0] + "+"@ + joined(ws.skip(1))
    }
}

proof fn lemma_joined_append(a: Seq<Seq<char>>, b: Seq<Seq<char>>)
    ensures
        joined(a + b) == joined(a) + joined(b),
    decreases a.len(),
{
    if a.len() == 0 {
        assert(a + b =~= b);
        assert(joined(a) + joined(b) =~= joined(b));
    } else {
        lemma_joined_append(a.skip(1), b);
        assert((a + b).skip(1) =~= a.skip(1) + b);
        assert((a + b)[0] == a[0]);
        assert(joined(a + b) =~= joined(a) + joined(b));
    }
}

proof fn lemma_joined_chosen(on: bool, w: Seq<char>)
    ensures
        joined(chosen(on, w)) == modifier_prefix(on, w),
{
    if on {
        reveal_with_fuel(joined, 2);
        assert(chosen(on, w).skip(1) =~= Seq::<Seq<char>>::empty());
        assert(joined(chosen(on, w)) =~= modifier_prefix(on, w));
    } else {
        assert(joined(chosen(on, w)) =~= modifier_prefix(on, w));
    }
}

proof fn lemma_split_joined(ws: Seq<Seq<char>>, kt: Seq<char>)
    requires
        plus_free(kt),
        forall|i: int| 0 <= i < ws.len() ==> plus_free(#[trigger] ws[i]),
    ensures
        split_on(joined(ws) + kt, '+') == ws.push(kt),
    decreases ws.len(),
{
    if ws.len() == 0 {
        assert(joined(ws) + kt =~= kt);
        lemma_find_from_none(kt, '+', 0);
        assert(ws.push(kt) =~= seq![kt]);
    } else {
        let rest = ws.skip(1);
        assert forall|i: int| 0 <= i < rest.len() implies plus_free(#[trigger] rest[i]) by {
            assert(rest[i] == ws[i + 1]);
        }
        lemma_split_joined(rest, kt);
        assert(plus_free(ws[0]));
        lemma_split_prefix(true, ws[0], joined(rest) + kt);
        assert(joined(ws) + kt =~= modifier_prefix(true, ws[0]) + (joined(rest) + kt));
        assert(ws.push(kt) =~= chosen(true, ws[0]) + rest.push(kt));
    }
}

proof fn lemma_joined_modifier_tokens(b: u8)
    ensures
        joined(modifier_tokens(b)) == modifier_text(b),
{
    let (c, sh, al, su, hy, me) = (
        b & CONTROL_BIT != 0,
        b & SHIFT_BIT != 0,
        b & ALT_BIT != 0,
        b & SUPER_BIT != 0,
        b & HYPER_BIT != 0,
        b & META_BIT != 0,
    );
    let (q1, q2, q3, q4, q5, q6) = (
        chosen(c, "ctrl"@),
        chosen(sh, "shift"@),
        chosen(al, "alt"@),
        chosen(su, "super"@),
        chosen(hy, "hyper"@),
        chosen(me, "meta"@),
    );
    lemma_joined_chosen(c, "ctrl"@);
    lemma_joined_chosen(sh, "shift"@);
    lemma_joined_chosen(al, "alt"@);
    lemma_joined_chosen(su, "super"@);
    lemma_joined_chosen(hy, "hyper"@);
    lemma_joined_chosen(me, "meta"@);
    lemma_joined_append(q1, q2);
    lemma_joined_append(q1 + q2, q3);
    lemma_joined_append(q1 + q2 + q3, q4);
    lemma_joined_append(q1 + q2 + q3 + q4, q5);
    lemma_joined_append(q1 + q2 + q3 + q4 + q5, q6);
    reveal(modifier_tokens);
    reveal(modifier_text);
}

proof fn lemma_modifier_tokens_plus_free(b: u8)
    ensures
        forall|i: int|
            0 <= i < modifier_tokens(b).len() ==> plus_free(#[trigger] modifier_tokens(b)[i]),
{
    lemma_modifier_names();
    reveal(modifier_tokens);
    let ws = modifier_tokens(b);
    assert forall|i: int| 0 <= i < ws.len() implies plus_free(#[trigger] ws[i]) by {
        assert(ws[i] == "ctrl"@ || ws[i] == "shift"@ || ws[i] == "alt"@ || ws[i] == "super"@
            || ws[i] == "hyper"@ || ws[i] == "meta"@);
    }
}

proof fn lemma_split_modifier_text(b: u8, kt: Seq<char>)
    requires
        plus_free(kt),
    ensures
        split_on(modifier_text(b) + kt, '+') == modifier_tokens(b).push(kt),
{
    lemma_joined_modifier_tokens(b);
    lemma_modifier_tokens_plus_free(b);
    lemma_split_joined(modifier_tokens(b), kt);
}

proof fn lemma_modifier_tokens_bits(b: u8)
    requires
        b < 64,
    ensures
        modifier_bits(modifier_tokens(b)) == Some(b),
{
    lemma_modifier_names();
    reveal(modifier_tokens);
    let (c, sh, al, su, hy, me) = (
        b & CONTROL_BIT != 0,
        b & SHIFT_BIT != 0,
        b & ALT_BIT != 0,
        b & SUPER_BIT != 0,
        b & HYPER_BIT != 0,
        b & META_BIT != 0,
    );
    let (q1, q2, q3, q4, q5, q6) = (
        chosen(c, "ctrl"@),
        chosen(sh, "shift"@),
        chosen(al, "alt"@),
        chosen(su, "super"@),
        chosen(hy, "hyper"@),
        chosen(me, "meta"@),
    );
    let e: Seq<Seq<char>> = seq![];
    assert(modifier_bits(e) == Some(0u8));
    let a1: u8 = if c { 0u8 | CONTROL_BIT } else { 0u8 };
    let a2: u8 = if sh { a1 | SHIFT_BIT } else { a1 };
    let a3: u8 = if al { a2 | ALT_BIT } else { a2 };
    let a4: u8 = if su { a3 | SUPER_BIT } else { a3 };
    let a5: u8 = if hy { a4 | HYPER_BIT } else { a4 };
    let a6: u8 = if me { a5 | META_BIT } else { a5 };
    lemma_modifier_bits_chosen(e, c, "ctrl"@, 0u8, CONTROL_BIT);
    assert(e + q1 =~= q1);
    lemma_modifier_bits_chosen(q1, sh, "shift"@, a1, SHIFT_BIT);
    lemma_modifier_bits_chosen(q1 + q2, al, "alt"@, a2, ALT_BIT);
    lemma_modifier_bits_chosen(q1 + q2 + q3, su, "super"@, a3, SUPER_BIT);
    lemma_modifier_bits_chosen(q1 + q2 + q3 + q4, hy, "hyper"@, a4, HYPER_BIT);
    lemma_modifier_bits_chosen(q1 + q2 + q3 + q4 + q5, me, "meta"@, a5, META_BIT);
    assert(a6 == b) by (bit_vector)
        requires
            b < 64,
            a1 == (if b & 2 != 0 { 0u8 | 2u8 } else { 0u8 }),
            a2 == (if b & 1 != 0 { a1 | 1u8 } else { a1 }),
            a3 == (if b & 4 != 0 { a2 | 4u8 } else { a2 }),
            a4 == (if b & 8 != 0 { a3 | 8u8 } else { a3 }),
            a5 == (if b & 16 != 0 { a4 | 16u8 } else { a4 }),
            a6 == (if b & 32 != 0 { a5 | 32u8 } else { a5 }),
    ;
}

/// A shortcut written out with `to_text` reads back as the same shortcut
/// with `parse`, wherever its modifiers are among the six named ones and its
/// key is written in a form that `parse` reads back (`has_key_name`).
pub proof fn lemma_shortcut_text_round_trip(s: Shortcut)
    requires
        s.modifiers.bits < 64,
        has_key_name(s.key),
    ensures
        parsed_shortcut(shortcut_text(s)) == Some(s),
{
    let toks = split_on(shortcut_text(s), '+');
    lemma_key_text_plus_free(s.key);
    assert(shortcut_text(s) =~= modifier_text(s.modifiers.bits) + key_text(s.key)) by {
        reveal(modifier_text);
    }
    lemma_split_modifier_text(s.modifiers.bits, key_text(s.key));
    lemma_modifier_tokens_bits(s.modifiers.bits);
    lemma_key_name_round_trip(s.key);
    assert(toks.drop_last() =~= modifier_tokens(s.modifiers.bits));
    assert(toks.last() == key_text(s.key));
}

/// A binding as the configuration gives it: one shortcut, several, or
/// `true` (keep the default) / `false` (unbind).
#[derive(Debug, Clone)]
pub enum Keybind {
    Single(Shortcut),
    Multiple(Vec<Shortcut>),
    Enable(bool),
}

} // verus!
