//! Hotkey strings such as `Ctrl+Shift+A`: parsing into modifiers and a key,
//! the default shortcut, and what a shortcut press does to the pipeline.
use vstd::prelude::*;
use crate::text::{chars_of, fold_code, folded_eq, folded_eq_str, str_eq, trim, trim_chars};

verus! {

/// Modifier keys held with a shortcut.
#[derive(Debug, Clone, Copy, PartialEq, Eq, Structural)]
pub struct Modifiers {
    pub alt: bool,
    pub control: bool,
    pub shift: bool,
    pub meta: bool,
}

/// A physical key that a shortcut can end in.
#[derive(Debug, Clone, Copy, PartialEq, Eq, Structural)]
pub enum Code {
    Space,
    Tab,
    Enter,
    Backspace,
    Escape,
    Delete,
    Insert,
    Home,
    End,
    PageUp,
    PageDown,
    ArrowUp,
    ArrowDown,
    ArrowLeft,
    ArrowRight,
    F1,
    F2,
    F3,
    F4,
    F5,
    F6,
    F7,
    F8,
    F9,
    F10,
    F11,
    F12,
    KeyA,
    KeyB,
    KeyC,
    KeyD,
    KeyE,
    KeyF,
    KeyG,
    KeyH,
    KeyI,
    KeyJ,
    KeyK,
    KeyL,
    KeyM,
    KeyN,
    KeyO,
    KeyP,
    KeyQ,
    KeyR,
    KeyS,
    KeyT,
    KeyU,
    KeyV,
    KeyW,
    KeyX,
    KeyY,
    KeyZ,
    Digit0,
    Digit1,
    Digit2,
    Digit3,
    Digit4,
    Digit5,
    Digit6,
    Digit7,
    Digit8,
    Digit9,
    Slash,
    Backslash,
    Period,
    Comma,
    Semicolon,
    Quote,
    Backquote,
    Minus,
    Equal,
    BracketLeft,
    BracketRight
}

/// A key together with the modifiers held with it.
#[derive(Debug, Clone, Copy, PartialEq, Eq, Structural)]
pub struct Shortcut {
    pub mods: Modifiers,
    pub key: Code,
}

pub open spec fn no_modifiers() -> Modifiers {
    Modifiers { alt: false, control: false, shift: false, meta: false }
}

impl Modifiers {
    /// No modifier held.
    pub fn empty() -> (m: Modifiers)
        ensures
            m == no_modifiers(),
    {
        Modifiers { alt: false, control: false, shift: false, meta: false }
    }

    /// Alt alone.
    pub fn alt() -> (m: Modifiers)
        ensures
            m == (Modifiers { alt: true, ..no_modifiers() }),
    {
        Modifiers { alt: true, control: false, shift: false, meta: false }
    }

    /// Control alone.
    pub fn control() -> (m: Modifiers)
        ensures
            m == (Modifiers { control: true, ..no_modifiers() }),
    {
        Modifiers { alt: false, control: true, shift: false, meta: false }
    }

    /// Shift alone.
    pub fn shift() -> (m: Modifiers)
        ensures
            m == (Modifiers { shift: true, ..no_modifiers() }),
    {
        Modifiers { alt: false, control: false, shift: true, meta: false }
    }

    /// Meta (Super, Windows, Command) alone.
    pub fn meta() -> (m: Modifiers)
        ensures
            m == (Modifiers { meta: true, ..no_modifiers() }),
    {
        Modifiers { alt: false, control: false, shift: false, meta: true }
    }

    /// The modifiers held in either `self` or `other`.
    pub fn union(self, other: Modifiers) -> (m: Modifiers)
        ensures
            m.alt == (self.alt || other.alt),
            m.control == (self.control || other.control),
            m.shift == (self.shift || other.shift),
            m.meta == (self.meta || other.meta),
    {
        Modifiers {
            alt: self.alt || other.alt,
            control: self.control || other.control,
            shift: self.shift || other.shift,
            meta: self.meta || other.meta,
        }
    }

    /// Whether no modifier is held.
    pub fn is_empty(&self) -> (r: bool)
        ensures
            r == (*self == no_modifiers()),
    {
        !self.alt && !self.control && !self.shift && !self.meta
    }
}

/// `s` cut at every `+`, as `str::split('+')` cuts it (always one piece or more).
pub open spec fn split_plus(s: Seq<char>) -> Seq<Seq<char>>
    decreases s.len(),
{
    if s.len() == 0 {
        seq![Seq::<char>::empty()]
    } else {
        let p = split_plus(s.drop_last());
        if s.last() == '+' {
            p.push(Seq::<char>::empty())
        } else {
            p.update(p.len() - 1, p.last().push(s.last()))
        }
    }
}

/// The pieces of a hotkey string, each trimmed.
pub open spec fn hotkey_parts(s: Seq<char>) -> Seq<Seq<char>> {
    split_plus(s).map_values(|p: Seq<char>| trim(p))
}

/// `m` with the modifier that `part` names added, or `None` if `part` names
/// no modifier (compared case-insensitively).
pub open spec fn add_modifier(m: Modifiers, part: Seq<char>) -> Option<Modifiers> {
    if folded_eq(part, "alt"@) {
        Some(Modifiers { alt: true, ..m })
    } else if folded_eq(part, "ctrl"@) || folded_eq(part, "control"@) {
        Some(Modifiers { control: true, ..m })
    } else if folded_eq(part, "shift"@) {
        Some(Modifiers { shift: true, ..m })
    } else if folded_eq(part, "meta"@) || folded_eq(part, "super"@) || folded_eq(part, "win"@)
        || folded_eq(part, "cmd"@) {
        Some(Modifiers { meta: true, ..m })
    } else {
        None
    }
}

/// The modifiers named by `parts`, or `None` if one of them names none.
pub open spec fn modifiers_of(parts: Seq<Seq<char>>) -> Option<Modifiers>
    decreases parts.len(),
{
    if parts.len() == 0 {
        Some(no_modifiers())
    } else {
        match modifiers_of(parts.drop_last()) {
            Some(m) => add_modifier(m, parts.last()),
            None => None,
        }
    }
}

/// The key that `part` names, compared case-insensitively.
pub open spec fn key_code_of(part: Seq<char>) -> Option<Code> {
    if folded_eq(part, "space"@) {
        Some(Code::Space)
    } else if folded_eq(part, "tab"@) {
        Some(Code::Tab)
    } else if folded_eq(part, "enter"@) || folded_eq(part, "return"@) {
        Some(Code::Enter)
    } else if folded_eq(part, "backspace"@) {
        Some(Code::Backspace)
    } else if folded_eq(part, "escape"@) || folded_eq(part, "esc"@) {
        Some(Code::Escape)
    } else if folded_eq(part, "delete"@) {
        Some(Code::Delete)
    } else if folded_eq(part, "insert"@) {
        Some(Code::Insert)
    } else if folded_eq(part, "home"@) {
        Some(Code::Home)
    } else if folded_eq(part, "end"@) {
        Some(Code::End)
    } else if folded_eq(part, "pageup"@) {
        Some(Code::PageUp)
    } else if folded_eq(part, "pagedown"@) {
        Some(Code::PageDown)
    } else if folded_eq(part, "arrowup"@) || folded_eq(part, "up"@) {
        Some(Code::ArrowUp)
    } else if folded_eq(part, "arrowdown"@) || folded_eq(part, "down"@) {
        Some(Code::ArrowDown)
    } else if folded_eq(part, "arrowleft"@) || folded_eq(part, "left"@) {
        Some(Code::ArrowLeft)
    } else if folded_eq(part, "arrowright"@) || folded_eq(part, "right"@) {
        Some(Code::ArrowRight)
    } else if folded_eq(part, "f1"@) {
        Some(Code::F1)
    } else if folded_eq(part, "f2"@) {
        Some(Code::F2)
    } else if folded_eq(part, "f3"@) {
        Some(Code::F3)
    } else if folded_eq(part, "f4"@) {
        Some(Code::F4)
    } else if folded_eq(part, "f5"@) {
        Some(Code::F5)
    } else if folded_eq(part, "f6"@) {
        Some(Code::F6)
    } else if folded_eq(part, "f7"@) {
        Some(Code::F7)
    } else if folded_eq(part, "f8"@) {
        Some(Code::F8)
    } else if folded_eq(part, "f9"@) {
        Some(Code::F9)
    } else if folded_eq(part, "f10"@) {
        Some(Code::F10)
    } else if folded_eq(part, "f11"@) {
        Some(Code::F11)
    } else if folded_eq(part, "f12"@) {
        Some(Code::F12)
    } else if folded_eq(part, "a"@) {
        Some(Code::KeyA)
    } else if folded_eq(part, "b"@) {
        Some(Code::KeyB)
    } else if folded_eq(part, "c"@) {
        Some(Code::KeyC)
    } else if folded_eq(part, "d"@) {
        Some(Code::KeyD)
    } else if folded_eq(part, "e"@) {
        Some(Code::KeyE)
    } else if folded_eq(part, "f"@) {
        Some(Code::KeyF)
    } else if folded_eq(part, "g"@) {
        Some(Code::KeyG)
    } else if folded_eq(part, "h"@) {
        Some(Code::KeyH)
    } else if folded_eq(part, "i"@) {
        Some(Code::KeyI)
    } else if folded_eq(part, "j"@) {
        Some(Code::KeyJ)
    } else if folded_eq(part, "k"@) {
        Some(Code::KeyK)
    } else if folded_eq(part, "l"@) {
        Some(Code::KeyL)
    } else if folded_eq(part, "m"@) {
        Some(Code::KeyM)
    } else if folded_eq(part, "n"@) {
        Some(Code::KeyN)
    } else if folded_eq(part, "o"@) {
        Some(Code::KeyO)
    } else if folded_eq(part, "p"@) {
        Some(Code::KeyP)
    } else if folded_eq(part, "q"@) {
        Some(Code::KeyQ)
    } else if folded_eq(part, "r"@) {
        Some(Code::KeyR)
    } else if folded_eq(part, "s"@) {
        Some(Code::KeyS)
    } else if folded_eq(part, "t"@) {
        Some(Code::KeyT)
    } else if folded_eq(part, "u"@) {
        Some(Code::KeyU)
    } else if folded_eq(part, "v"@) {
        Some(Code::KeyV)
    } else if folded_eq(part, "w"@) {
        Some(Code::KeyW)
    } else if folded_eq(part, "x"@) {
        Some(Code::KeyX)
    } else if folded_eq(part, "y"@) {
        Some(Code::KeyY)
    } else if folded_eq(part, "z"@) {
        Some(Code::KeyZ)
    } else if folded_eq(part, "0"@) {
        Some(Code::Digit0)
    } else if folded_eq(part, "1"@) {
        Some(Code::Digit1)
    } else if folded_eq(part, "2"@) {
        Some(Code::Digit2)
    } else if folded_eq(part, "3"@) {
        Some(Code::Digit3)
    } else if folded_eq(part, "4"@) {
        Some(Code::Digit4)
    } else if folded_eq(part, "5"@) {
        Some(Code::Digit5)
    } else if folded_eq(part, "6"@) {
        Some(Code::Digit6)
    } else if folded_eq(part, "7"@) {
        Some(Code::Digit7)
    } else if folded_eq(part, "8"@) {
        Some(Code::Digit8)
    } else if folded_eq(part, "9"@) {
        Some(Code::Digit9)
    } else if folded_eq(part, "/"@) || folded_eq(part, "slash"@) {
        Some(Code::Slash)
    } else if folded_eq(part, "\\"@) || folded_eq(part, "backslash"@) {
        Some(Code::Backslash)
    } else if folded_eq(part, "."@) || folded_eq(part, "period"@) {
        Some(Code::Period)
    } else if folded_eq(part, ","@) || folded_eq(part, "comma"@) {
        Some(Code::Comma)
    } else if folded_eq(part, ";"@) || folded_eq(part, "semicolon"@) {
        Some(Code::Semicolon)
    } else if folded_eq(part, "'"@) || folded_eq(part, "quote"@) {
        Some(Code::Quote)
    } else if folded_eq(part, "`"@) || folded_eq(part, "backquote"@) {
        Some(Code::Backquote)
    } else if folded_eq(part, "-"@) || folded_eq(part, "minus"@) {
        Some(Code::Minus)
    } else if folded_eq(part, "="@) || folded_eq(part, "equal"@) {
        Some(Code::Equal)
    } else if folded_eq(part, "["@) || folded_eq(part, "bracketleft"@) {
        Some(Code::BracketLeft)
    } else if folded_eq(part, "]"@) || folded_eq(part, "bracketright"@) {
        Some(Code::BracketRight)
    } else {
        None
    }
}

/// The shortcut a hotkey string describes: every piece before the last
/// names a modifier, the last names the key.
pub open spec fn parse_hotkey_spec(s: Seq<char>) -> Option<Shortcut> {
    let parts = hotkey_parts(s);
    match modifiers_of(parts.drop_last()) {
        None => None,
        Some(m) => match key_code_of(parts.last()) {
            None => None,
            Some(k) => Some(Shortcut { mods: m, key: k }),
        },
    }
}

/// The modifier that one piece names on its own (none held if it names none).
pub open spec fn named_modifier(part: Seq<char>) -> Modifiers {
    match add_modifier(no_modifiers(), part) {
        Some(m) => m,
        None => no_modifiers(),
    }
}

/// Whether a piece names a modifier.
pub open spec fn is_modifier_name(part: Seq<char>) -> bool {
    add_modifier(no_modifiers(), part) is Some
}

/// The modifiers that some piece of `parts` names, whatever their order
/// and however often each is named.
pub open spec fn named_modifiers(parts: Seq<Seq<char>>) -> Modifiers {
    Modifiers {
        alt: exists|i: int| 0 <= i < parts.len() && #[trigger] named_modifier(parts[i]).alt,
        control: exists|i: int| 0 <= i < parts.len() && #[trigger] named_modifier(parts[i]).control,
        shift: exists|i: int| 0 <= i < parts.len() && #[trigger] named_modifier(parts[i]).shift,
        meta: exists|i: int| 0 <= i < parts.len() && #[trigger] named_modifier(parts[i]).meta,
    }
}

/// Adding a piece's modifier is taking the union with what it names alone.
proof fn lemma_add_modifier_is_union(m: Modifiers, part: Seq<char>)
    ensures
        add_modifier(m, part) is Some <==> is_modifier_name(part),
        is_modifier_name(part) ==> add_modifier(m, part) == Some(
            Modifiers {
                alt: m.alt || named_modifier(part).alt,
                control: m.control || named_modifier(part).control,
                shift: m.shift || named_modifier(part).shift,
                meta: m.meta || named_modifier(part).meta,
            },
        ),
{
}

/// `modifiers_of` accepts the pieces exactly when each names a modifier, and
/// then gives the modifiers some piece names.
proof fn lemma_modifiers_of_characterized(parts: Seq<Seq<char>>)
    ensures
        modifiers_of(parts) is Some <==> (forall|i: int|
            0 <= i < parts.len() ==> #[trigger] is_modifier_name(parts[i])),
        modifiers_of(parts) is Some ==> modifiers_of(parts) == Some(named_modifiers(parts)),
    decreases parts.len(),
{
    if parts.len() > 0 {
        let init = parts.drop_last();
        lemma_modifiers_of_characterized(init);
        assert forall|i: int| 0 <= i < init.len() implies init[i] == parts[i] by {}
        match modifiers_of(init) {
            Some(m) => {
                lemma_add_modifier_is_union(m, parts.last());
                if is_modifier_name(parts.last()) {
                    let n = named_modifiers(parts);
                    let last = parts.len() - 1;
                    assert(parts[last] == parts.last());
                    if n.alt {
                        let i = choose|i: int| 0 <= i < parts.len() && #[trigger] named_modifier(parts[i]).alt;
                        if i < last {
                            assert(named_modifier(init[i]).alt);
                        }
                    }
                    if n.control {
                        let i = choose|i: int| 0 <= i < parts.len() && #[trigger] named_modifier(parts[i]).control;
                        if i < last {
                            assert(named_modifier(init[i]).control);
                        }
                    }
                    if n.shift {
                        let i = choose|i: int| 0 <= i < parts.len() && #[trigger] named_modifier(parts[i]).shift;
                        if i < last {
                            assert(named_modifier(init[i]).shift);
                        }
                    }
                    if n.meta {
                        let i = choose|i: int| 0 <= i < parts.len() && #[trigger] named_modifier(parts[i]).meta;
                        if i < last {
                            assert(named_modifier(init[i]).meta);
                        }
                    }
                    if m.alt {
                        let i = choose|i: int| 0 <= i < init.len() && #[trigger] named_modifier(init[i]).alt;
                        assert(named_modifier(parts[i]).alt);
                    }
                    if m.control {
                        let i = choose|i: int| 0 <= i < init.len() && #[trigger] named_modifier(init[i]).control;
                        assert(named_modifier(parts[i]).control);
                    }
                    if m.shift {
                        let i = choose|i: int| 0 <= i < init.len() && #[trigger] named_modifier(init[i]).shift;
                        assert(named_modifier(parts[i]).shift);
                    }
                    if m.meta {
                        let i = choose|i: int| 0 <= i < init.len() && #[trigger] named_modifier(init[i]).meta;
                        assert(named_modifier(parts[i]).meta);
                    }
                    assert(modifiers_of(parts) == Some(named_modifiers(parts)));
                } else {
                    assert(!is_modifier_name(parts[parts.len() - 1]));
                }
            },
            None => {
                let i = choose|i: int| 0 <= i < init.len() && !#[trigger] is_modifier_name(init[i]);
                assert(!is_modifier_name(parts[i]));
            },
        }
    } else {
        assert(named_modifiers(parts) == no_modifiers());
    }
}

/// What a hotkey string means: split at `+` and trim each piece; it is valid
/// exactly when every piece but the last names a modifier (`alt`, `ctrl` or
/// `control`, `shift`, `meta`/`super`/`win`/`cmd`, in any case) and the last
/// names a key; the shortcut then holds the modifiers that some piece names
/// and that key. So padding, the order of the modifiers and repeating one of
/// them change nothing.
pub proof fn lemma_parse_hotkey_characterized(s: Seq<char>)
    ensures
        hotkey_parts(s).len() >= 1,
        parse_hotkey_spec(s) == if (forall|i: int|
            0 <= i < hotkey_parts(s).len() - 1 ==> #[trigger] is_modifier_name(hotkey_parts(s)[i]))
            && key_code_of(hotkey_parts(s).last()) is Some {
            Some(
                Shortcut {
                    mods: named_modifiers(hotkey_parts(s).drop_last()),
                    key: key_code_of(hotkey_parts(s).last()).unwrap(),
                },
            )
        } else {
            None
        },
{
    lemma_split_plus_nonempty(s);
    let parts = hotkey_parts(s);
    let init = parts.drop_last();
    lemma_modifiers_of_characterized(init);
    assert forall|i: int| 0 <= i < init.len() implies init[i] == parts[i] by {}
    if !(forall|i: int| 0 <= i < parts.len() - 1 ==> #[trigger] is_modifier_name(parts[i])) {
        let i = choose|i: int| 0 <= i < parts.len() - 1 && !#[trigger] is_modifier_name(parts[i]);
        assert(!is_modifier_name(init[i]));
    }
}

/// Two hotkey strings whose pieces name the same modifiers, in whatever
/// order, repetition, padding or case, and end in pieces naming the same key
/// parse to the same shortcut.
pub proof fn lemma_hotkey_normalisation(s: Seq<char>, t: Seq<char>)
    requires
        forall|i: int|
            0 <= i < hotkey_parts(s).len() - 1 ==> #[trigger] is_modifier_name(hotkey_parts(s)[i]),
        forall|i: int|
            0 <= i < hotkey_parts(t).len() - 1 ==> #[trigger] is_modifier_name(hotkey_parts(t)[i]),
        named_modifiers(hotkey_parts(s).drop_last()) == named_modifiers(hotkey_parts(t).drop_last()),
        key_code_of(hotkey_parts(s).last()) == key_code_of(hotkey_parts(t).last()),
    ensures
        parse_hotkey_spec(s) == parse_hotkey_spec(t),
{
    lemma_parse_hotkey_characterized(s);
    lemma_parse_hotkey_characterized(t);
}

/// The key and modifier names, spelled out character by character.
proof fn lemma_key_names_spelled()
    ensures
        "space"@ == seq!['s', 'p', 'a', 'c', 'e'],
        "tab"@ == seq!['t', 'a', 'b'],
        "enter"@ == seq!['e', 'n', 't', 'e', 'r'],
        "return"@ == seq!['r', 'e', 't', 'u', 'r', 'n'],
        "backspace"@ == seq!['b', 'a', 'c', 'k', 's', 'p', 'a', 'c', 'e'],
        "escape"@ == seq!['e', 's', 'c', 'a', 'p', 'e'],
        "esc"@ == seq!['e', 's', 'c'],
        "delete"@ == seq!['d', 'e', 'l', 'e', 't', 'e'],
        "insert"@ == seq!['i', 'n', 's', 'e', 'r', 't'],
        "home"@ == seq!['h', 'o', 'm', 'e'],
        "end"@ == seq!['e', 'n', 'd'],
        "pageup"@ == seq!['p', 'a', 'g', 'e', 'u', 'p'],
        "pagedown"@ == seq!['p', 'a', 'g', 'e', 'd', 'o', 'w', 'n'],
        "arrowup"@ == seq!['a', 'r', 'r', 'o', 'w', 'u', 'p'],
        "up"@ == seq!['u', 'p'],
        "arrowdown"@ == seq!['a', 'r', 'r', 'o', 'w', 'd', 'o', 'w', 'n'],
        "down"@ == seq!['d', 'o', 'w', 'n'],
        "arrowleft"@ == seq!['a', 'r', 'r', 'o', 'w', 'l', 'e', 'f', 't'],
        "left"@ == seq!['l', 'e', 'f', 't'],
        "arrowright"@ == seq!['a', 'r', 'r', 'o', 'w', 'r', 'i', 'g', 'h', 't'],
        "right"@ == seq!['r', 'i', 'g', 'h', 't'],
        "f1"@ == seq!['f', '1'],
        "f2"@ == seq!['f', '2'],
        "f3"@ == seq!['f', '3'],
        "f4"@ == seq!['f', '4'],
        "f5"@ == seq!['f', '5'],
        "f6"@ == seq!['f', '6'],
        "f7"@ == seq!['f', '7'],
        "f8"@ == seq!['f', '8'],
        "f9"@ == seq!['f', '9'],
        "f10"@ == seq!['f', '1', '0'],
        "f11"@ == seq!['f', '1', '1'],
        "f12"@ == seq!['f', '1', '2'],
        "a"@ == seq!['a'],
        "b"@ == seq!['b'],
        "c"@ == seq!['c'],
        "d"@ == seq!['d'],
        "e"@ == seq!['e'],
        "f"@ == seq!['f'],
        "g"@ == seq!['g'],
        "h"@ == seq!['h'],
        "i"@ == seq!['i'],
        "j"@ == seq!['j'],
        "k"@ == seq!['k'],
        "l"@ == seq!['l'],
        "m"@ == seq!['m'],
        "n"@ == seq!['n'],
        "o"@ == seq!['o'],
        "p"@ == seq!['p'],
        "q"@ == seq!['q'],
        "r"@ == seq!['r'],
        "s"@ == seq!['s'],
        "t"@ == seq!['t'],
        "u"@ == seq!['u'],
        "v"@ == seq!['v'],
        "w"@ == seq!['w'],
        "x"@ == seq!['x'],
        "y"@ == seq!['y'],
        "z"@ == seq!['z'],
        "0"@ == seq!['0'],
        "1"@ == seq!['1'],
        "2"@ == seq!['2'],
        "3"@ == seq!['3'],
        "4"@ == seq!['4'],
        "5"@ == seq!['5'],
        "6"@ == seq!['6'],
        "7"@ == seq!['7'],
        "8"@ == seq!['8'],
        "9"@ == seq!['9'],
        "/"@ == seq!['/'],
        "slash"@ == seq!['s', 'l', 'a', 's', 'h'],
        "\\"@ == seq!['\\'],
        "backslash"@ == seq!['b', 'a', 'c', 'k', 's', 'l', 'a', 's', 'h'],
        "."@ == seq!['.'],
        "period"@ == seq!['p', 'e', 'r', 'i', 'o', 'd'],
        ","@ == seq![','],
        "comma"@ == seq!['c', 'o', 'm', 'm', 'a'],
        ";"@ == seq![';'],
        "semicolon"@ == seq!['s', 'e', 'm', 'i', 'c', 'o', 'l', 'o', 'n'],
        "'"@ == seq!['\''],
        "quote"@ == seq!['q', 'u', 'o', 't', 'e'],
        "`"@ == seq!['`'],
        "backquote"@ == seq!['b', 'a', 'c', 'k', 'q', 'u', 'o', 't', 'e'],
        "-"@ == seq!['-'],
        "minus"@ == seq!['m', 'i', 'n', 'u', 's'],
        "="@ == seq!['='],
        "equal"@ == seq!['e', 'q', 'u', 'a', 'l'],
        "["@ == seq!['['],
        "bracketleft"@ == seq!['b', 'r', 'a', 'c', 'k', 'e', 't', 'l', 'e', 'f', 't'],
        "]"@ == seq![']'],
        "bracketright"@ == seq!['b', 'r', 'a', 'c', 'k', 'e', 't', 'r', 'i', 'g', 'h', 't'],
        "alt"@ == seq!['a', 'l', 't'],
        "ctrl"@ == seq!['c', 't', 'r', 'l'],
        "control"@ == seq!['c', 'o', 'n', 't', 'r', 'o', 'l'],
        "shift"@ == seq!['s', 'h', 'i', 'f', 't'],
        "meta"@ == seq!['m', 'e', 't', 'a'],
        "super"@ == seq!['s', 'u', 'p', 'e', 'r'],
        "win"@ == seq!['w', 'i', 'n'],
        "cmd"@ == seq!['c', 'm', 'd'],
{
    reveal_strlit("space");
    assert("space"@ =~= seq!['s', 'p', 'a', 'c', 'e']);
    reveal_strlit("tab");
    assert("tab"@ =~= seq!['t', 'a', 'b']);
    reveal_strlit("enter");
    assert("enter"@ =~= seq!['e', 'n', 't', 'e', 'r']);
    reveal_strlit("return");
    assert("return"@ =~= seq!['r', 'e', 't', 'u', 'r', 'n']);
    reveal_strlit("backspace");
    assert("backspace"@ =~= seq!['b', 'a', 'c', 'k', 's', 'p', 'a', 'c', 'e']);
    reveal_strlit("escape");
    assert("escape"@ =~= seq!['e', 's', 'c', 'a', 'p', 'e']);
    reveal_strlit("esc");
    assert("esc"@ =~= seq!['e', 's', 'c']);
    reveal_strlit("delete");
    assert("delete"@ =~= seq!['d', 'e', 'l', 'e', 't', 'e']);
    reveal_strlit("insert");
    assert("insert"@ =~= seq!['i', 'n', 's', 'e', 'r', 't']);
    reveal_strlit("home");
    assert("home"@ =~= seq!['h', 'o', 'm', 'e']);
    reveal_strlit("end");
    assert("end"@ =~= seq!['e', 'n', 'd']);
    reveal_strlit("pageup");
    assert("pageup"@ =~= seq!['p', 'a', 'g', 'e', 'u', 'p']);
    reveal_strlit("pagedown");
    assert("pagedown"@ =~= seq!['p', 'a', 'g', 'e', 'd', 'o', 'w', 'n']);
    reveal_strlit("arrowup");
    assert("arrowup"@ =~= seq!['a', 'r', 'r', 'o', 'w', 'u', 'p']);
    reveal_strlit("up");
    assert("up"@ =~= seq!['u', 'p']);
    reveal_strlit("arrowdown");
    assert("arrowdown"@ =~= seq!['a', 'r', 'r', 'o', 'w', 'd', 'o', 'w', 'n']);
    reveal_strlit("down");
    assert("down"@ =~= seq!['d', 'o', 'w', 'n']);
    reveal_strlit("arrowleft");
    assert("arrowleft"@ =~= seq!['a', 'r', 'r', 'o', 'w', 'l', 'e', 'f', 't']);
    reveal_strlit("left");
    assert("left"@ =~= seq!['l', 'e', 'f', 't']);
    reveal_strlit("arrowright");
    assert("arrowright"@ =~= seq!['a', 'r', 'r', 'o', 'w', 'r', 'i', 'g', 'h', 't']);
    reveal_strlit("right");
    assert("right"@ =~= seq!['r', 'i', 'g', 'h', 't']);
    reveal_strlit("f1");
    assert("f1"@ =~= seq!['f', '1']);
    reveal_strlit("f2");
    assert("f2"@ =~= seq!['f', '2']);
    reveal_strlit("f3");
    assert("f3"@ =~= seq!['f', '3']);
    reveal_strlit("f4");
    assert("f4"@ =~= seq!['f', '4']);
    reveal_strlit("f5");
    assert("f5"@ =~= seq!['f', '5']);
    reveal_strlit("f6");
    assert("f6"@ =~= seq!['f', '6']);
    reveal_strlit("f7");
    assert("f7"@ =~= seq!['f', '7']);
    reveal_strlit("f8");
    assert("f8"@ =~= seq!['f', '8']);
    reveal_strlit("f9");
    assert("f9"@ =~= seq!['f', '9']);
    reveal_strlit("f10");
    assert("f10"@ =~= seq!['f', '1', '0']);
    reveal_strlit("f11");
    assert("f11"@ =~= seq!['f', '1', '1']);
    reveal_strlit("f12");
    assert("f12"@ =~= seq!['f', '1', '2']);
    reveal_strlit("a");
    assert("a"@ =~= seq!['a']);
    reveal_strlit("b");
    assert("b"@ =~= seq!['b']);
    reveal_strlit("c");
    assert("c"@ =~= seq!['c']);
    reveal_strlit("d");
    assert("d"@ =~= seq!['d']);
    reveal_strlit("e");
    assert("e"@ =~= seq!['e']);
    reveal_strlit("f");
    assert("f"@ =~= seq!['f']);
    reveal_strlit("g");
    assert("g"@ =~= seq!['g']);
    reveal_strlit("h");
    assert("h"@ =~= seq!['h']);
    reveal_strlit("i");
    assert("i"@ =~= seq!['i']);
    reveal_strlit("j");
    assert("j"@ =~= seq!['j']);
    reveal_strlit("k");
    assert("k"@ =~= seq!['k']);
    reveal_strlit("l");
    assert("l"@ =~= seq!['l']);
    reveal_strlit("m");
    assert("m"@ =~= seq!['m']);
    reveal_strlit("n");
    assert("n"@ =~= seq!['n']);
    reveal_strlit("o");
    assert("o"@ =~= seq!['o']);
    reveal_strlit("p");
    assert("p"@ =~= seq!['p']);
    reveal_strlit("q");
    assert("q"@ =~= seq!['q']);
    reveal_strlit("r");
    assert("r"@ =~= seq!['r']);
    reveal_strlit("s");
    assert("s"@ =~= seq!['s']);
    reveal_strlit("t");
    assert("t"@ =~= seq!['t']);
    reveal_strlit("u");
    assert("u"@ =~= seq!['u']);
    reveal_strlit("v");
    assert("v"@ =~= seq!['v']);
    reveal_strlit("w");
    assert("w"@ =~= seq!['w']);
    reveal_strlit("x");
    assert("x"@ =~= seq!['x']);
    reveal_strlit("y");
    assert("y"@ =~= seq!['y']);
    reveal_strlit("z");
    assert("z"@ =~= seq!['z']);
    reveal_strlit("0");
    assert("0"@ =~= seq!['0']);
    reveal_strlit("1");
    assert("1"@ =~= seq!['1']);
    reveal_strlit("2");
    assert("2"@ =~= seq!['2']);
    reveal_strlit("3");
    assert("3"@ =~= seq!['3']);
    reveal_strlit("4");
    assert("4"@ =~= seq!['4']);
    reveal_strlit("5");
    assert("5"@ =~= seq!['5']);
    reveal_strlit("6");
    assert("6"@ =~= seq!['6']);
    reveal_strlit("7");
    assert("7"@ =~= seq!['7']);
    reveal_strlit("8");
    assert("8"@ =~= seq!['8']);
    reveal_strlit("9");
    assert("9"@ =~= seq!['9']);
    reveal_strlit("/");
    assert("/"@ =~= seq!['/']);
    reveal_strlit("slash");
    assert("slash"@ =~= seq!['s', 'l', 'a', 's', 'h']);
    reveal_strlit("\\");
    assert("\\"@ =~= seq!['\\']);
    reveal_strlit("backslash");
    assert("backslash"@ =~= seq!['b', 'a', 'c', 'k', 's', 'l', 'a', 's', 'h']);
    reveal_strlit(".");
    assert("."@ =~= seq!['.']);
    reveal_strlit("period");
    assert("period"@ =~= seq!['p', 'e', 'r', 'i', 'o', 'd']);
    reveal_strlit(",");
    assert(","@ =~= seq![',']);
    reveal_strlit("comma");
    assert("comma"@ =~= seq!['c', 'o', 'm', 'm', 'a']);
    reveal_strlit(";");
    assert(";"@ =~= seq![';']);
    reveal_strlit("semicolon");
    assert("semicolon"@ =~= seq!['s', 'e', 'm', 'i', 'c', 'o', 'l', 'o', 'n']);
    reveal_strlit("'");
    assert("'"@ =~= seq!['\'']);
    reveal_strlit("quote");
    assert("quote"@ =~= seq!['q', 'u', 'o', 't', 'e']);
    reveal_strlit("`");
    assert("`"@ =~= seq!['`']);
    reveal_strlit("backquote");
    assert("backquote"@ =~= seq!['b', 'a', 'c', 'k', 'q', 'u', 'o', 't', 'e']);
    reveal_strlit("-");
    assert("-"@ =~= seq!['-']);
    reveal_strlit("minus");
    assert("minus"@ =~= seq!['m', 'i', 'n', 'u', 's']);
    reveal_strlit("=");
    assert("="@ =~= seq!['=']);
    reveal_strlit("equal");
    assert("equal"@ =~= seq!['e', 'q', 'u', 'a', 'l']);
    reveal_strlit("[");
    assert("["@ =~= seq!['[']);
    reveal_strlit("bracketleft");
    assert("bracketleft"@ =~= seq!['b', 'r', 'a', 'c', 'k', 'e', 't', 'l', 'e', 'f', 't']);
    reveal_strlit("]");
    assert("]"@ =~= seq![']']);
    reveal_strlit("bracketright");
    assert("bracketright"@ =~= seq!['b', 'r', 'a', 'c', 'k', 'e', 't', 'r', 'i', 'g', 'h', 't']);
    reveal_strlit("alt");
    assert("alt"@ =~= seq!['a', 'l', 't']);
    reveal_strlit("ctrl");
    assert("ctrl"@ =~= seq!['c', 't', 'r', 'l']);
    reveal_strlit("control");
    assert("control"@ =~= seq!['c', 'o', 'n', 't', 'r', 'o', 'l']);
    reveal_strlit("shift");
    assert("shift"@ =~= seq!['s', 'h', 'i', 'f', 't']);
    reveal_strlit("meta");
    assert("meta"@ =~= seq!['m', 'e', 't', 'a']);
    reveal_strlit("super");
    assert("super"@ =~= seq!['s', 'u', 'p', 'e', 'r']);
    reveal_strlit("win");
    assert("win"@ =~= seq!['w', 'i', 'n']);
    reveal_strlit("cmd");
    assert("cmd"@ =~= seq!['c', 'm', 'd']);
}

/// Each letter, in either case, names the key of that letter: `a` is A, ..., `v` is V, ..., `z` is Z.
pub proof fn lemma_letter_keys(part: Seq<char>)
    ensures
        folded_eq(part, "a"@) ==> key_code_of(part) == Some(Code::KeyA),
        folded_eq(part, "b"@) ==> key_code_of(part) == Some(Code::KeyB),
        folded_eq(part, "c"@) ==> key_code_of(part) == Some(Code::KeyC),
        folded_eq(part, "d"@) ==> key_code_of(part) == Some(Code::KeyD),
        folded_eq(part, "e"@) ==> key_code_of(part) == Some(Code::KeyE),
        folded_eq(part, "f"@) ==> key_code_of(part) == Some(Code::KeyF),
        folded_eq(part, "g"@) ==> key_code_of(part) == Some(Code::KeyG),
        folded_eq(part, "h"@) ==> key_code_of(part) == Some(Code::KeyH),
        folded_eq(part, "i"@) ==> key_code_of(part) == Some(Code::KeyI),
        folded_eq(part, "j"@) ==> key_code_of(part) == Some(Code::KeyJ),
        folded_eq(part, "k"@) ==> key_code_of(part) == Some(Code::KeyK),
        folded_eq(part, "l"@) ==> key_code_of(part) == Some(Code::KeyL),
        folded_eq(part, "m"@) ==> key_code_of(part) == Some(Code::KeyM),
        folded_eq(part, "n"@) ==> key_code_of(part) == Some(Code::KeyN),
        folded_eq(part, "o"@) ==> key_code_of(part) == Some(Code::KeyO),
        folded_eq(part, "p"@) ==> key_code_of(part) == Some(Code::KeyP),
        folded_eq(part, "q"@) ==> key_code_of(part) == Some(Code::KeyQ),
        folded_eq(part, "r"@) ==> key_code_of(part) == Some(Code::KeyR),
        folded_eq(part, "s"@) ==> key_code_of(part) == Some(Code::KeyS),
        folded_eq(part, "t"@) ==> key_code_of(part) == Some(Code::KeyT),
        folded_eq(part, "u"@) ==> key_code_of(part) == Some(Code::KeyU),
        folded_eq(part, "v"@) ==> key_code_of(part) == Some(Code::KeyV),
        folded_eq(part, "w"@) ==> key_code_of(part) == Some(Code::KeyW),
        folded_eq(part, "x"@) ==> key_code_of(part) == Some(Code::KeyX),
        folded_eq(part, "y"@) ==> key_code_of(part) == Some(Code::KeyY),
        folded_eq(part, "z"@) ==> key_code_of(part) == Some(Code::KeyZ),
{
    lemma_key_names_spelled();
    if folded_eq(part, "a"@) {
        assert(fold_code(part[0]) == "a"@[0] as u32);
    }
    if folded_eq(part, "b"@) {
        assert(fold_code(part[0]) == "b"@[0] as u32);
    }
    if folded_eq(part, "c"@) {
        assert(fold_code(part[0]) == "c"@[0] as u32);
    }
    if folded_eq(part, "d"@) {
        assert(fold_code(part[0]) == "d"@[0] as u32);
    }
    if folded_eq(part, "e"@) {
        assert(fold_code(part[0]) == "e"@[0] as u32);
    }
    if folded_eq(part, "f"@) {
        assert(fold_code(part[0]) == "f"@[0] as u32);
    }
    if folded_eq(part, "g"@) {
        assert(fold_code(part[0]) == "g"@[0] as u32);
    }
    if folded_eq(part, "h"@) {
        assert(fold_code(part[0]) == "h"@[0] as u32);
    }
    if folded_eq(part, "i"@) {
        assert(fold_code(part[0]) == "i"@[0] as u32);
    }
    if folded_eq(part, "j"@) {
        assert(fold_code(part[0]) == "j"@[0] as u32);
    }
    if folded_eq(part, "k"@) {
        assert(fold_code(part[0]) == "k"@[0] as u32);
    }
    if folded_eq(part, "l"@) {
        assert(fold_code(part[0]) == "l"@[0] as u32);
    }
    if folded_eq(part, "m"@) {
        assert(fold_code(part[0]) == "m"@[0] as u32);
    }
    if folded_eq(part, "n"@) {
        assert(fold_code(part[0]) == "n"@[0] as u32);
    }
    if folded_eq(part, "o"@) {
        assert(fold_code(part[0]) == "o"@[0] as u32);
    }
    if folded_eq(part, "p"@) {
        assert(fold_code(part[0]) == "p"@[0] as u32);
    }
    if folded_eq(part, "q"@) {
        assert(fold_code(part[0]) == "q"@[0] as u32);
    }
    if folded_eq(part, "r"@) {
        assert(fold_code(part[0]) == "r"@[0] as u32);
    }
    if folded_eq(part, "s"@) {
        assert(fold_code(part[0]) == "s"@[0] as u32);
    }
    if folded_eq(part, "t"@) {
        assert(fold_code(part[0]) == "t"@[0] as u32);
    }
    if folded_eq(part, "u"@) {
        assert(fold_code(part[0]) == "u"@[0] as u32);
    }
    if folded_eq(part, "v"@) {
        assert(fold_code(part[0]) == "v"@[0] as u32);
    }
    if folded_eq(part, "w"@) {
        assert(fold_code(part[0]) == "w"@[0] as u32);
    }
    if folded_eq(part, "x"@) {
        assert(fold_code(part[0]) == "x"@[0] as u32);
    }
    if folded_eq(part, "y"@) {
        assert(fold_code(part[0]) == "y"@[0] as u32);
    }
    if folded_eq(part, "z"@) {
        assert(fold_code(part[0]) == "z"@[0] as u32);
    }
}

/// Each digit names the key of that digit.
pub proof fn lemma_digit_keys(part: Seq<char>)
    ensures
        folded_eq(part, "0"@) ==> key_code_of(part) == Some(Code::Digit0),
        folded_eq(part, "1"@) ==> key_code_of(part) == Some(Code::Digit1),
        folded_eq(part, "2"@) ==> key_code_of(part) == Some(Code::Digit2),
        folded_eq(part, "3"@) ==> key_code_of(part) == Some(Code::Digit3),
        folded_eq(part, "4"@) ==> key_code_of(part) == Some(Code::Digit4),
        folded_eq(part, "5"@) ==> key_code_of(part) == Some(Code::Digit5),
        folded_eq(part, "6"@) ==> key_code_of(part) == Some(Code::Digit6),
        folded_eq(part, "7"@) ==> key_code_of(part) == Some(Code::Digit7),
        folded_eq(part, "8"@) ==> key_code_of(part) == Some(Code::Digit8),
        folded_eq(part, "9"@) ==> key_code_of(part) == Some(Code::Digit9),
{
    lemma_key_names_spelled();
    if folded_eq(part, "0"@) {
        assert(fold_code(part[0]) == "0"@[0] as u32);
    }
    if folded_eq(part, "1"@) {
        assert(fold_code(part[0]) == "1"@[0] as u32);
    }
    if folded_eq(part, "2"@) {
        assert(fold_code(part[0]) == "2"@[0] as u32);
    }
    if folded_eq(part, "3"@) {
        assert(fold_code(part[0]) == "3"@[0] as u32);
    }
    if folded_eq(part, "4"@) {
        assert(fold_code(part[0]) == "4"@[0] as u32);
    }
    if folded_eq(part, "5"@) {
        assert(fold_code(part[0]) == "5"@[0] as u32);
    }
    if folded_eq(part, "6"@) {
        assert(fold_code(part[0]) == "6"@[0] as u32);
    }
    if folded_eq(part, "7"@) {
        assert(fold_code(part[0]) == "7"@[0] as u32);
    }
    if folded_eq(part, "8"@) {
        assert(fold_code(part[0]) == "8"@[0] as u32);
    }
    if folded_eq(part, "9"@) {
        assert(fold_code(part[0]) == "9"@[0] as u32);
    }
}

/// `f1` to `f12`, in either case, name the function keys F1 to F12.
pub proof fn lemma_function_keys(part: Seq<char>)
    ensures
        folded_eq(part, "f1"@) ==> key_code_of(part) == Some(Code::F1),
        folded_eq(part, "f2"@) ==> key_code_of(part) == Some(Code::F2),
        folded_eq(part, "f3"@) ==> key_code_of(part) == Some(Code::F3),
        folded_eq(part, "f4"@) ==> key_code_of(part) == Some(Code::F4),
        folded_eq(part, "f5"@) ==> key_code_of(part) == Some(Code::F5),
        folded_eq(part, "f6"@) ==> key_code_of(part) == Some(Code::F6),
        folded_eq(part, "f7"@) ==> key_code_of(part) == Some(Code::F7),
        folded_eq(part, "f8"@) ==> key_code_of(part) == Some(Code::F8),
        folded_eq(part, "f9"@) ==> key_code_of(part) == Some(Code::F9),
        folded_eq(part, "f10"@) ==> key_code_of(part) == Some(Code::F10),
        folded_eq(part, "f11"@) ==> key_code_of(part) == Some(Code::F11),
        folded_eq(part, "f12"@) ==> key_code_of(part) == Some(Code::F12),
{
    lemma_key_names_spelled();
    if folded_eq(part, "f1"@) {
        assert(fold_code(part[0]) == "f1"@[0] as u32);
        assert(fold_code(part[1]) == "f1"@[1] as u32);
    }
    if folded_eq(part, "f2"@) {
        assert(fold_code(part[0]) == "f2"@[0] as u32);
        assert(fold_code(part[1]) == "f2"@[1] as u32);
    }
    if folded_eq(part, "f3"@) {
        assert(fold_code(part[0]) == "f3"@[0] as u32);
        assert(fold_code(part[1]) == "f3"@[1] as u32);
    }
    if folded_eq(part, "f4"@) {
        assert(fold_code(part[0]) == "f4"@[0] as u32);
        assert(fold_code(part[1]) == "f4"@[1] as u32);
    }
    if folded_eq(part, "f5"@) {
        assert(fold_code(part[0]) == "f5"@[0] as u32);
        assert(fold_code(part[1]) == "f5"@[1] as u32);
    }
    if folded_eq(part, "f6"@) {
        assert(fold_code(part[0]) == "f6"@[0] as u32);
        assert(fold_code(part[1]) == "f6"@[1] as u32);
    }
    if folded_eq(part, "f7"@) {
        assert(fold_code(part[0]) == "f7"@[0] as u32);
        assert(fold_code(part[1]) == "f7"@[1] as u32);
    }
    if folded_eq(part, "f8"@) {
        assert(fold_code(part[0]) == "f8"@[0] as u32);
        assert(fold_code(part[1]) == "f8"@[1] as u32);
    }
    if folded_eq(part, "f9"@) {
        assert(fold_code(part[0]) == "f9"@[0] as u32);
        assert(fold_code(part[1]) == "f9"@[1] as u32);
    }
    if folded_eq(part, "f10"@) {
        assert(fold_code(part[0]) == "f10"@[0] as u32);
        assert(fold_code(part[1]) == "f10"@[1] as u32);
        assert(fold_code(part[2]) == "f10"@[2] as u32);
    }
    if folded_eq(part, "f11"@) {
        assert(fold_code(part[0]) == "f11"@[0] as u32);
        assert(fold_code(part[1]) == "f11"@[1] as u32);
        assert(fold_code(part[2]) == "f11"@[2] as u32);
    }
    if folded_eq(part, "f12"@) {
        assert(fold_code(part[0]) == "f12"@[0] as u32);
        assert(fold_code(part[1]) == "f12"@[1] as u32);
        assert(fold_code(part[2]) == "f12"@[2] as u32);
    }
}

/// The named keys and punctuation: `space`, `tab`, `enter`/`return`, `backspace`, `escape`/`esc`, `delete`, `insert`, `home`, `end`, `pageup`, `pagedown`, the arrows (also `up`, `down`, `left`, `right`), and each punctuation key by its symbol or its name.
pub proof fn lemma_named_keys(part: Seq<char>)
    ensures
        folded_eq(part, "space"@) ==> key_code_of(part) == Some(Code::Space),
        folded_eq(part, "tab"@) ==> key_code_of(part) == Some(Code::Tab),
        folded_eq(part, "enter"@) ==> key_code_of(part) == Some(Code::Enter),
        folded_eq(part, "return"@) ==> key_code_of(part) == Some(Code::Enter),
        folded_eq(part, "backspace"@) ==> key_code_of(part) == Some(Code::Backspace),
        folded_eq(part, "escape"@) ==> key_code_of(part) == Some(Code::Escape),
        folded_eq(part, "esc"@) ==> key_code_of(part) == Some(Code::Escape),
        folded_eq(part, "delete"@) ==> key_code_of(part) == Some(Code::Delete),
        folded_eq(part, "insert"@) ==> key_code_of(part) == Some(Code::Insert),
        folded_eq(part, "home"@) ==> key_code_of(part) == Some(Code::Home),
        folded_eq(part, "end"@) ==> key_code_of(part) == Some(Code::End),
        folded_eq(part, "pageup"@) ==> key_code_of(part) == Some(Code::PageUp),
        folded_eq(part, "pagedown"@) ==> key_code_of(part) == Some(Code::PageDown),
        folded_eq(part, "arrowup"@) ==> key_code_of(part) == Some(Code::ArrowUp),
        folded_eq(part, "up"@) ==> key_code_of(part) == Some(Code::ArrowUp),
        folded_eq(part, "arrowdown"@) ==> key_code_of(part) == Some(Code::ArrowDown),
        folded_eq(part, "down"@) ==> key_code_of(part) == Some(Code::ArrowDown),
        folded_eq(part, "arrowleft"@) ==> key_code_of(part) == Some(Code::ArrowLeft),
        folded_eq(part, "left"@) ==> key_code_of(part) == Some(Code::ArrowLeft),
        folded_eq(part, "arrowright"@) ==> key_code_of(part) == Some(Code::ArrowRight),
        folded_eq(part, "right"@) ==> key_code_of(part) == Some(Code::ArrowRight),
        folded_eq(part, "/"@) ==> key_code_of(part) == Some(Code::Slash),
        folded_eq(part, "slash"@) ==> key_code_of(part) == Some(Code::Slash),
        folded_eq(part, "\\"@) ==> key_code_of(part) == Some(Code::Backslash),
        folded_eq(part, "backslash"@) ==> key_code_of(part) == Some(Code::Backslash),
        folded_eq(part, "."@) ==> key_code_of(part) == Some(Code::Period),
        folded_eq(part, "period"@) ==> key_code_of(part) == Some(Code::Period),
        folded_eq(part, ","@) ==> key_code_of(part) == Some(Code::Comma),
        folded_eq(part, "comma"@) ==> key_code_of(part) == Some(Code::Comma),
        folded_eq(part, ";"@) ==> key_code_of(part) == Some(Code::Semicolon),
        folded_eq(part, "semicolon"@) ==> key_code_of(part) == Some(Code::Semicolon),
        folded_eq(part, "'"@) ==> key_code_of(part) == Some(Code::Quote),
        folded_eq(part, "quote"@) ==> key_code_of(part) == Some(Code::Quote),
        folded_eq(part, "`"@) ==> key_code_of(part) == Some(Code::Backquote),
        folded_eq(part, "backquote"@) ==> key_code_of(part) == Some(Code::Backquote),
        folded_eq(part, "-"@) ==> key_code_of(part) == Some(Code::Minus),
        folded_eq(part, "minus"@) ==> key_code_of(part) == Some(Code::Minus),
        folded_eq(part, "="@) ==> key_code_of(part) == Some(Code::Equal),
        folded_eq(part, "equal"@) ==> key_code_of(part) == Some(Code::Equal),
        folded_eq(part, "["@) ==> key_code_of(part) == Some(Code::BracketLeft),
        folded_eq(part, "bracketleft"@) ==> key_code_of(part) == Some(Code::BracketLeft),
        folded_eq(part, "]"@) ==> key_code_of(part) == Some(Code::BracketRight),
        folded_eq(part, "bracketright"@) ==> key_code_of(part) == Some(Code::BracketRight),
{
    lemma_key_names_spelled();
    if folded_eq(part, "space"@) {
        assert(fold_code(part[0]) == "space"@[0] as u32);
        assert(fold_code(part[1]) == "space"@[1] as u32);
        assert(fold_code(part[2]) == "space"@[2] as u32);
        assert(fold_code(part[3]) == "space"@[3] as u32);
        assert(fold_code(part[4]) == "space"@[4] as u32);
    }
    if folded_eq(part, "tab"@) {
        assert(fold_code(part[0]) == "tab"@[0] as u32);
        assert(fold_code(part[1]) == "tab"@[1] as u32);
        assert(fold_code(part[2]) == "tab"@[2] as u32);
    }
    if folded_eq(part, "enter"@) {
        assert(fold_code(part[0]) == "enter"@[0] as u32);
        assert(fold_code(part[1]) == "enter"@[1] as u32);
        assert(fold_code(part[2]) == "enter"@[2] as u32);
        assert(fold_code(part[3]) == "enter"@[3] as u32);
        assert(fold_code(part[4]) == "enter"@[4] as u32);
    }
    if folded_eq(part, "return"@) {
        assert(fold_code(part[0]) == "return"@[0] as u32);
        assert(fold_code(part[1]) == "return"@[1] as u32);
        assert(fold_code(part[2]) == "return"@[2] as u32);
        assert(fold_code(part[3]) == "return"@[3] as u32);
        assert(fold_code(part[4]) == "return"@[4] as u32);
        assert(fold_code(part[5]) == "return"@[5] as u32);
    }
    if folded_eq(part, "backspace"@) {
        assert(fold_code(part[0]) == "backspace"@[0] as u32);
        assert(fold_code(part[1]) == "backspace"@[1] as u32);
        assert(fold_code(part[2]) == "backspace"@[2] as u32);
        assert(fold_code(part[3]) == "backspace"@[3] as u32);
        assert(fold_code(part[4]) == "backspace"@[4] as u32);
        assert(fold_code(part[5]) == "backspace"@[5] as u32);
        assert(fold_code(part[6]) == "backspace"@[6] as u32);
        assert(fold_code(part[7]) == "backspace"@[7] as u32);
        assert(fold_code(part[8]) == "backspace"@[8] as u32);
    }
    if folded_eq(part, "escape"@) {
        assert(fold_code(part[0]) == "escape"@[0] as u32);
        assert(fold_code(part[1]) == "escape"@[1] as u32);
        assert(fold_code(part[2]) == "escape"@[2] as u32);
        assert(fold_code(part[3]) == "escape"@[3] as u32);
        assert(fold_code(part[4]) == "escape"@[4] as u32);
        assert(fold_code(part[5]) == "escape"@[5] as u32);
    }
    if folded_eq(part, "esc"@) {
        assert(fold_code(part[0]) == "esc"@[0] as u32);
        assert(fold_code(part[1]) == "esc"@[1] as u32);
        assert(fold_code(part[2]) == "esc"@[2] as u32);
    }
    if folded_eq(part, "delete"@) {
        assert(fold_code(part[0]) == "delete"@[0] as u32);
        assert(fold_code(part[1]) == "delete"@[1] as u32);
        assert(fold_code(part[2]) == "delete"@[2] as u32);
        assert(fold_code(part[3]) == "delete"@[3] as u32);
        assert(fold_code(part[4]) == "delete"@[4] as u32);
        assert(fold_code(part[5]) == "delete"@[5] as u32);
    }
    if folded_eq(part, "insert"@) {
        assert(fold_code(part[0]) == "insert"@[0] as u32);
        assert(fold_code(part[1]) == "insert"@[1] as u32);
        assert(fold_code(part[2]) == "insert"@[2] as u32);
        assert(fold_code(part[3]) == "insert"@[3] as u32);
        assert(fold_code(part[4]) == "insert"@[4] as u32);
        assert(fold_code(part[5]) == "insert"@[5] as u32);
    }
    if folded_eq(part, "home"@) {
        assert(fold_code(part[0]) == "home"@[0] as u32);
        assert(fold_code(part[1]) == "home"@[1] as u32);
        assert(fold_code(part[2]) == "home"@[2] as u32);
        assert(fold_code(part[3]) == "home"@[3] as u32);
    }
    if folded_eq(part, "end"@) {
        assert(fold_code(part[0]) == "end"@[0] as u32);
        assert(fold_code(part[1]) == "end"@[1] as u32);
        assert(fold_code(part[2]) == "end"@[2] as u32);
    }
    if folded_eq(part, "pageup"@) {
        assert(fold_code(part[0]) == "pageup"@[0] as u32);
        assert(fold_code(part[1]) == "pageup"@[1] as u32);
        assert(fold_code(part[2]) == "pageup"@[2] as u32);
        assert(fold_code(part[3]) == "pageup"@[3] as u32);
        assert(fold_code(part[4]) == "pageup"@[4] as u32);
        assert(fold_code(part[5]) == "pageup"@[5] as u32);
    }
    if folded_eq(part, "pagedown"@) {
        assert(fold_code(part[0]) == "pagedown"@[0] as u32);
        assert(fold_code(part[1]) == "pagedown"@[1] as u32);
        assert(fold_code(part[2]) == "pagedown"@[2] as u32);
        assert(fold_code(part[3]) == "pagedown"@[3] as u32);
        assert(fold_code(part[4]) == "pagedown"@[4] as u32);
        assert(fold_code(part[5]) == "pagedown"@[5] as u32);
        assert(fold_code(part[6]) == "pagedown"@[6] as u32);
        assert(fold_code(part[7]) == "pagedown"@[7] as u32);
    }
    if folded_eq(part, "arrowup"@) {
        assert(fold_code(part[0]) == "arrowup"@[0] as u32);
        assert(fold_code(part[1]) == "arrowup"@[1] as u32);
        assert(fold_code(part[2]) == "arrowup"@[2] as u32);
        assert(fold_code(part[3]) == "arrowup"@[3] as u32);
        assert(fold_code(part[4]) == "arrowup"@[4] as u32);
        assert(fold_code(part[5]) == "arrowup"@[5] as u32);
        assert(fold_code(part[6]) == "arrowup"@[6] as u32);
    }
    if folded_eq(part, "up"@) {
        assert(fold_code(part[0]) == "up"@[0] as u32);
        assert(fold_code(part[1]) == "up"@[1] as u32);
    }
    if folded_eq(part, "arrowdown"@) {
        assert(fold_code(part[0]) == "arrowdown"@[0] as u32);
        assert(fold_code(part[1]) == "arrowdown"@[1] as u32);
        assert(fold_code(part[2]) == "arrowdown"@[2] as u32);
        assert(fold_code(part[3]) == "arrowdown"@[3] as u32);
        assert(fold_code(part[4]) == "arrowdown"@[4] as u32);
        assert(fold_code(part[5]) == "arrowdown"@[5] as u32);
        assert(fold_code(part[6]) == "arrowdown"@[6] as u32);
        assert(fold_code(part[7]) == "arrowdown"@[7] as u32);
        assert(fold_code(part[8]) == "arrowdown"@[8] as u32);
    }
    if folded_eq(part, "down"@) {
        assert(fold_code(part[0]) == "down"@[0] as u32);
        assert(fold_code(part[1]) == "down"@[1] as u32);
        assert(fold_code(part[2]) == "down"@[2] as u32);
        assert(fold_code(part[3]) == "down"@[3] as u32);
    }
    if folded_eq(part, "arrowleft"@) {
        assert(fold_code(part[0]) == "arrowleft"@[0] as u32);
        assert(fold_code(part[1]) == "arrowleft"@[1] as u32);
        assert(fold_code(part[2]) == "arrowleft"@[2] as u32);
        assert(fold_code(part[3]) == "arrowleft"@[3] as u32);
        assert(fold_code(part[4]) == "arrowleft"@[4] as u32);
        assert(fold_code(part[5]) == "arrowleft"@[5] as u32);
        assert(fold_code(part[6]) == "arrowleft"@[6] as u32);
        assert(fold_code(part[7]) == "arrowleft"@[7] as u32);
        assert(fold_code(part[8]) == "arrowleft"@[8] as u32);
    }
    if folded_eq(part, "left"@) {
        assert(fold_code(part[0]) == "left"@[0] as u32);
        assert(fold_code(part[1]) == "left"@[1] as u32);
        assert(fold_code(part[2]) == "left"@[2] as u32);
        assert(fold_code(part[3]) == "left"@[3] as u32);
    }
    if folded_eq(part, "arrowright"@) {
        assert(fold_code(part[0]) == "arrowright"@[0] as u32);
        assert(fold_code(part[1]) == "arrowright"@[1] as u32);
        assert(fold_code(part[2]) == "arrowright"@[2] as u32);
        assert(fold_code(part[3]) == "arrowright"@[3] as u32);
        assert(fold_code(part[4]) == "arrowright"@[4] as u32);
        assert(fold_code(part[5]) == "arrowright"@[5] as u32);
        assert(fold_code(part[6]) == "arrowright"@[6] as u32);
        assert(fold_code(part[7]) == "arrowright"@[7] as u32);
        assert(fold_code(part[8]) == "arrowright"@[8] as u32);
        assert(fold_code(part[9]) == "arrowright"@[9] as u32);
    }
    if folded_eq(part, "right"@) {
        assert(fold_code(part[0]) == "right"@[0] as u32);
        assert(fold_code(part[1]) == "right"@[1] as u32);
        assert(fold_code(part[2]) == "right"@[2] as u32);
        assert(fold_code(part[3]) == "right"@[3] as u32);
        assert(fold_code(part[4]) == "right"@[4] as u32);
    }
    if folded_eq(part, "/"@) {
        assert(fold_code(part[0]) == "/"@[0] as u32);
    }
    if folded_eq(part, "slash"@) {
        assert(fold_code(part[0]) == "slash"@[0] as u32);
        assert(fold_code(part[1]) == "slash"@[1] as u32);
        assert(fold_code(part[2]) == "slash"@[2] as u32);
        assert(fold_code(part[3]) == "slash"@[3] as u32);
        assert(fold_code(part[4]) == "slash"@[4] as u32);
    }
    if folded_eq(part, "\\"@) {
        assert(fold_code(part[0]) == "\\"@[0] as u32);
    }
    if folded_eq(part, "backslash"@) {
        assert(fold_code(part[0]) == "backslash"@[0] as u32);
        assert(fold_code(part[1]) == "backslash"@[1] as u32);
        assert(fold_code(part[2]) == "backslash"@[2] as u32);
        assert(fold_code(part[3]) == "backslash"@[3] as u32);
        assert(fold_code(part[4]) == "backslash"@[4] as u32);
        assert(fold_code(part[5]) == "backslash"@[5] as u32);
        assert(fold_code(part[6]) == "backslash"@[6] as u32);
        assert(fold_code(part[7]) == "backslash"@[7] as u32);
        assert(fold_code(part[8]) == "backslash"@[8] as u32);
    }
    if folded_eq(part, "."@) {
        assert(fold_code(part[0]) == "."@[0] as u32);
    }
    if folded_eq(part, "period"@) {
        assert(fold_code(part[0]) == "period"@[0] as u32);
        assert(fold_code(part[1]) == "period"@[1] as u32);
        assert(fold_code(part[2]) == "period"@[2] as u32);
        assert(fold_code(part[3]) == "period"@[3] as u32);
        assert(fold_code(part[4]) == "period"@[4] as u32);
        assert(fold_code(part[5]) == "period"@[5] as u32);
    }
    if folded_eq(part, ","@) {
        assert(fold_code(part[0]) == ","@[0] as u32);
    }
    if folded_eq(part, "comma"@) {
        assert(fold_code(part[0]) == "comma"@[0] as u32);
        assert(fold_code(part[1]) == "comma"@[1] as u32);
        assert(fold_code(part[2]) == "comma"@[2] as u32);
        assert(fold_code(part[3]) == "comma"@[3] as u32);
        assert(fold_code(part[4]) == "comma"@[4] as u32);
    }
    if folded_eq(part, ";"@) {
        assert(fold_code(part[0]) == ";"@[0] as u32);
    }
    if folded_eq(part, "semicolon"@) {
        assert(fold_code(part[0]) == "semicolon"@[0] as u32);
        assert(fold_code(part[1]) == "semicolon"@[1] as u32);
        assert(fold_code(part[2]) == "semicolon"@[2] as u32);
        assert(fold_code(part[3]) == "semicolon"@[3] as u32);
        assert(fold_code(part[4]) == "semicolon"@[4] as u32);
        assert(fold_code(part[5]) == "semicolon"@[5] as u32);
        assert(fold_code(part[6]) == "semicolon"@[6] as u32);
        assert(fold_code(part[7]) == "semicolon"@[7] as u32);
        assert(fold_code(part[8]) == "semicolon"@[8] as u32);
    }
    if folded_eq(part, "'"@) {
        assert(fold_code(part[0]) == "'"@[0] as u32);
    }
    if folded_eq(part, "quote"@) {
        assert(fold_code(part[0]) == "quote"@[0] as u32);
        assert(fold_code(part[1]) == "quote"@[1] as u32);
        assert(fold_code(part[2]) == "quote"@[2] as u32);
        assert(fold_code(part[3]) == "quote"@[3] as u32);
        assert(fold_code(part[4]) == "quote"@[4] as u32);
    }
    if folded_eq(part, "`"@) {
        assert(fold_code(part[0]) == "`"@[0] as u32);
    }
    if folded_eq(part, "backquote"@) {
        assert(fold_code(part[0]) == "backquote"@[0] as u32);
        assert(fold_code(part[1]) == "backquote"@[1] as u32);
        assert(fold_code(part[2]) == "backquote"@[2] as u32);
        assert(fold_code(part[3]) == "backquote"@[3] as u32);
        assert(fold_code(part[4]) == "backquote"@[4] as u32);
        assert(fold_code(part[5]) == "backquote"@[5] as u32);
        assert(fold_code(part[6]) == "backquote"@[6] as u32);
        assert(fold_code(part[7]) == "backquote"@[7] as u32);
        assert(fold_code(part[8]) == "backquote"@[8] as u32);
    }
    if folded_eq(part, "-"@) {
        assert(fold_code(part[0]) == "-"@[0] as u32);
    }
    if folded_eq(part, "minus"@) {
        assert(fold_code(part[0]) == "minus"@[0] as u32);
        assert(fold_code(part[1]) == "minus"@[1] as u32);
        assert(fold_code(part[2]) == "minus"@[2] as u32);
        assert(fold_code(part[3]) == "minus"@[3] as u32);
        assert(fold_code(part[4]) == "minus"@[4] as u32);
    }
    if folded_eq(part, "="@) {
        assert(fold_code(part[0]) == "="@[0] as u32);
    }
    if folded_eq(part, "equal"@) {
        assert(fold_code(part[0]) == "equal"@[0] as u32);
        assert(fold_code(part[1]) == "equal"@[1] as u32);
        assert(fold_code(part[2]) == "equal"@[2] as u32);
        assert(fold_code(part[3]) == "equal"@[3] as u32);
        assert(fold_code(part[4]) == "equal"@[4] as u32);
    }
    if folded_eq(part, "["@) {
        assert(fold_code(part[0]) == "["@[0] as u32);
    }
    if folded_eq(part, "bracketleft"@) {
        assert(fold_code(part[0]) == "bracketleft"@[0] as u32);
        assert(fold_code(part[1]) == "bracketleft"@[1] as u32);
        assert(fold_code(part[2]) == "bracketleft"@[2] as u32);
        assert(fold_code(part[3]) == "bracketleft"@[3] as u32);
        assert(fold_code(part[4]) == "bracketleft"@[4] as u32);
        assert(fold_code(part[5]) == "bracketleft"@[5] as u32);
        assert(fold_code(part[6]) == "bracketleft"@[6] as u32);
        assert(fold_code(part[7]) == "bracketleft"@[7] as u32);
        assert(fold_code(part[8]) == "bracketleft"@[8] as u32);
        assert(fold_code(part[9]) == "bracketleft"@[9] as u32);
        assert(fold_code(part[10]) == "bracketleft"@[10] as u32);
    }
    if folded_eq(part, "]"@) {
        assert(fold_code(part[0]) == "]"@[0] as u32);
    }
    if folded_eq(part, "bracketright"@) {
        assert(fold_code(part[0]) == "bracketright"@[0] as u32);
        assert(fold_code(part[1]) == "bracketright"@[1] as u32);
        assert(fold_code(part[2]) == "bracketright"@[2] as u32);
        assert(fold_code(part[3]) == "bracketright"@[3] as u32);
        assert(fold_code(part[4]) == "bracketright"@[4] as u32);
        assert(fold_code(part[5]) == "bracketright"@[5] as u32);
        assert(fold_code(part[6]) == "bracketright"@[6] as u32);
        assert(fold_code(part[7]) == "bracketright"@[7] as u32);
        assert(fold_code(part[8]) == "bracketright"@[8] as u32);
        assert(fold_code(part[9]) == "bracketright"@[9] as u32);
        assert(fold_code(part[10]) == "bracketright"@[10] as u32);
        assert(fold_code(part[11]) == "bracketright"@[11] as u32);
    }
}

/// The modifier names, in any case: `alt` adds Alt; `ctrl` and `control` add
/// Control; `shift` adds Shift; `meta`, `super`, `win` and `cmd` add Meta.
pub proof fn lemma_modifier_names(m: Modifiers)
    ensures
        add_modifier(m, seq!['a', 'l', 't']) == Some(Modifiers { alt: true, ..m }),
        add_modifier(m, seq!['A', 'L', 'T']) == Some(Modifiers { alt: true, ..m }),
        add_modifier(m, seq!['c', 't', 'r', 'l']) == Some(Modifiers { control: true, ..m }),
        add_modifier(m, seq!['C', 'T', 'R', 'L']) == Some(Modifiers { control: true, ..m }),
        add_modifier(m, seq!['c', 'o', 'n', 't', 'r', 'o', 'l']) == Some(Modifiers { control: true, ..m }),
        add_modifier(m, seq!['C', 'O', 'N', 'T', 'R', 'O', 'L']) == Some(Modifiers { control: true, ..m }),
        add_modifier(m, seq!['s', 'h', 'i', 'f', 't']) == Some(Modifiers { shift: true, ..m }),
        add_modifier(m, seq!['S', 'H', 'I', 'F', 'T']) == Some(Modifiers { shift: true, ..m }),
        add_modifier(m, seq!['m', 'e', 't', 'a']) == Some(Modifiers { meta: true, ..m }),
        add_modifier(m, seq!['M', 'E', 'T', 'A']) == Some(Modifiers { meta: true, ..m }),
        add_modifier(m, seq!['s', 'u', 'p', 'e', 'r']) == Some(Modifiers { meta: true, ..m }),
        add_modifier(m, seq!['S', 'U', 'P', 'E', 'R']) == Some(Modifiers { meta: true, ..m }),
        add_modifier(m, seq!['w', 'i', 'n']) == Some(Modifiers { meta: true, ..m }),
        add_modifier(m, seq!['W', 'I', 'N']) == Some(Modifiers { meta: true, ..m }),
        add_modifier(m, seq!['c', 'm', 'd']) == Some(Modifiers { meta: true, ..m }),
        add_modifier(m, seq!['C', 'M', 'D']) == Some(Modifiers { meta: true, ..m }),
{
    lemma_key_names_spelled();
}

/// The views of a list of character vectors.
pub open spec fn char_views(v: Seq<Vec<char>>) -> Seq<Seq<char>> {
    v.map_values(|p: Vec<char>| p@)
}

/// `split_plus` always yields at least one piece.
pub proof fn lemma_split_plus_nonempty(s: Seq<char>)
    ensures
        split_plus(s).len() >= 1,
    decreases s.len(),
{
    if s.len() > 0 {
        lemma_split_plus_nonempty(s.drop_last());
    }
}

/// Once a prefix of the parts names an invalid modifier, every longer prefix does.
proof fn lemma_modifiers_of_none_stays(parts: Seq<Seq<char>>, i: int, j: int)
    requires
        0 <= i <= j <= parts.len(),
        modifiers_of(parts.take(i)) is None,
    ensures
        modifiers_of(parts.take(j)) is None,
    decreases j - i,
{
    if i < j {
        assert(parts.take(i + 1).drop_last() =~= parts.take(i));
        lemma_modifiers_of_none_stays(parts, i + 1, j);
    }
}

/// The pieces of `cs` cut at every `+`.
fn split_on_plus(cs: &[char]) -> (parts: Vec<Vec<char>>)
    ensures
        char_views(parts@) == split_plus(cs@),
{
    let mut done: Vec<Vec<char>> = Vec::new();
    let mut cur: Vec<char> = Vec::new();
    let mut i: usize = 0;
    assert(cs@.take(0) =~= Seq::<char>::empty());
    assert(char_views(done@).push(cur@) =~= split_plus(cs@.take(0)));
    while i < cs.len()
        invariant
            i <= cs@.len(),
            char_views(done@).push(cur@) == split_plus(cs@.take(i as int)),
        decreases cs.len() - i,
    {
        let c = cs[i];
        let ghost before = cs@.take(i as int);
        proof {
            lemma_split_plus_nonempty(before);
            assert(cs@.take(i + 1).drop_last() =~= before);
            assert(cs@.take(i + 1).last() == c);
        }
        if c == '+' {
            let piece = cur;
            done.push(piece);
            cur = Vec::new();
            assert(char_views(done@).push(cur@) =~= split_plus(before).push(Seq::<char>::empty()));
        } else {
            let ghost old_cur = cur@;
            cur.push(c);
            assert(char_views(done@).push(cur@) =~= split_plus(before).update(
                split_plus(before).len() - 1,
                old_cur.push(c),
            ));
        }
        i = i + 1;
    }
    assert(cs@.take(cs@.len() as int) =~= cs@);
    done.push(cur);
    assert(char_views(done@) =~= split_plus(cs@));
    done
}

/// Each piece of `parts`, trimmed.
fn trim_each(parts: &Vec<Vec<char>>) -> (out: Vec<Vec<char>>)
    ensures
        char_views(out@) == char_views(parts@).map_values(|p: Seq<char>| trim(p)),
{
    let mut out: Vec<Vec<char>> = Vec::new();
    let mut i: usize = 0;
    while i < parts.len()
        invariant
            i <= parts@.len(),
            char_views(out@) == char_views(parts@).map_values(|p: Seq<char>| trim(p)).take(
                i as int,
            ),
        decreases parts.len() - i,
    {
        let t = trim_chars(parts[i].as_slice());
        let ghost prev = char_views(out@);
        out.push(t);
        proof {
            let target = char_views(parts@).map_values(|p: Seq<char>| trim(p));
            assert(char_views(parts@)[i as int] == parts@[i as int]@);
            assert(target[i as int] == trim(parts@[i as int]@));
            assert(char_views(out@) =~= prev.push(t@));
            assert(target.take(i + 1) =~= target.take(i as int).push(target[i as int]));
        }
        i = i + 1;
        assert(char_views(out@) =~= char_views(parts@).map_values(|p: Seq<char>| trim(p)).take(
            i as int,
        ));
    }
    assert(char_views(parts@).map_values(|p: Seq<char>| trim(p)).take(parts@.len() as int)
        =~= char_views(parts@).map_values(|p: Seq<char>| trim(p)));
    out
}

/// `m` with the modifier that `part` names added.
fn add_modifier_exec(m: Modifiers, part: &[char]) -> (r: Option<Modifiers>)
    ensures
        r == add_modifier(m, part@),
{
    if folded_eq_str(part, "alt") {
        Some(Modifiers { alt: true, ..m })
    } else if folded_eq_str(part, "ctrl") || folded_eq_str(part, "control") {
        Some(Modifiers { control: true, ..m })
    } else if folded_eq_str(part, "shift") {
        Some(Modifiers { shift: true, ..m })
    } else if folded_eq_str(part, "meta") || folded_eq_str(part, "super") || folded_eq_str(
        part,
        "win",
    ) || folded_eq_str(part, "cmd") {
        Some(Modifiers { meta: true, ..m })
    } else {
        None
    }
}

/// The key that `part` names.
pub fn key_code(part: &[char]) -> (r: Option<Code>)
    ensures
        r == key_code_of(part@),
{
    if folded_eq_str(part, "space") {
        Some(Code::Space)
    } else if folded_eq_str(part, "tab") {
        Some(Code::Tab)
    } else if folded_eq_str(part, "enter") || folded_eq_str(part, "return") {
        Some(Code::Enter)
    } else if folded_eq_str(part, "backspace") {
        Some(Code::Backspace)
    } else if folded_eq_str(part, "escape") || folded_eq_str(part, "esc") {
        Some(Code::Escape)
    } else if folded_eq_str(part, "delete") {
        Some(Code::Delete)
    } else if folded_eq_str(part, "insert") {
        Some(Code::Insert)
    } else if folded_eq_str(part, "home") {
        Some(Code::Home)
    } else if folded_eq_str(part, "end") {
        Some(Code::End)
    } else if folded_eq_str(part, "pageup") {
        Some(Code::PageUp)
    } else if folded_eq_str(part, "pagedown") {
        Some(Code::PageDown)
    } else if folded_eq_str(part, "arrowup") || folded_eq_str(part, "up") {
        Some(Code::ArrowUp)
    } else if folded_eq_str(part, "arrowdown") || folded_eq_str(part, "down") {
        Some(Code::ArrowDown)
    } else if folded_eq_str(part, "arrowleft") || folded_eq_str(part, "left") {
        Some(Code::ArrowLeft)
    } else if folded_eq_str(part, "arrowright") || folded_eq_str(part, "right") {
        Some(Code::ArrowRight)
    } else if folded_eq_str(part, "f1") {
        Some(Code::F1)
    } else if folded_eq_str(part, "f2") {
        Some(Code::F2)
    } else if folded_eq_str(part, "f3") {
        Some(Code::F3)
    } else if folded_eq_str(part, "f4") {
        Some(Code::F4)
    } else if folded_eq_str(part, "f5") {
        Some(Code::F5)
    } else if folded_eq_str(part, "f6") {
        Some(Code::F6)
    } else if folded_eq_str(part, "f7") {
        Some(Code::F7)
    } else if folded_eq_str(part, "f8") {
        Some(Code::F8)
    } else if folded_eq_str(part, "f9") {
        Some(Code::F9)
    } else if folded_eq_str(part, "f10") {
        Some(Code::F10)
    } else if folded_eq_str(part, "f11") {
        Some(Code::F11)
    } else if folded_eq_str(part, "f12") {
        Some(Code::F12)
    } else if folded_eq_str(part, "a") {
        Some(Code::KeyA)
    } else if folded_eq_str(part, "b") {
        Some(Code::KeyB)
    } else if folded_eq_str(part, "c") {
        Some(Code::KeyC)
    } else if folded_eq_str(part, "d") {
        Some(Code::KeyD)
    } else if folded_eq_str(part, "e") {
        Some(Code::KeyE)
    } else if folded_eq_str(part, "f") {
        Some(Code::KeyF)
    } else if folded_eq_str(part, "g") {
        Some(Code::KeyG)
    } else if folded_eq_str(part, "h") {
        Some(Code::KeyH)
    } else if folded_eq_str(part, "i") {
        Some(Code::KeyI)
    } else if folded_eq_str(part, "j") {
        Some(Code::KeyJ)
    } else if folded_eq_str(part, "k") {
        Some(Code::KeyK)
    } else if folded_eq_str(part, "l") {
        Some(Code::KeyL)
    } else if folded_eq_str(part, "m") {
        Some(Code::KeyM)
    } else if folded_eq_str(part, "n") {
        Some(Code::KeyN)
    } else if folded_eq_str(part, "o") {
        Some(Code::KeyO)
    } else if folded_eq_str(part, "p") {
        Some(Code::KeyP)
    } else if folded_eq_str(part, "q") {
        Some(Code::KeyQ)
    } else if folded_eq_str(part, "r") {
        Some(Code::KeyR)
    } else if folded_eq_str(part, "s") {
        Some(Code::KeyS)
    } else if folded_eq_str(part, "t") {
        Some(Code::KeyT)
    } else if folded_eq_str(part, "u") {
        Some(Code::KeyU)
    } else if folded_eq_str(part, "v") {
        Some(Code::KeyV)
    } else if folded_eq_str(part, "w") {
        Some(Code::KeyW)
    } else if folded_eq_str(part, "x") {
        Some(Code::KeyX)
    } else if folded_eq_str(part, "y") {
        Some(Code::KeyY)
    } else if folded_eq_str(part, "z") {
        Some(Code::KeyZ)
    } else if folded_eq_str(part, "0") {
        Some(Code::Digit0)
    } else if folded_eq_str(part, "1") {
        Some(Code::Digit1)
    } else if folded_eq_str(part, "2") {
        Some(Code::Digit2)
    } else if folded_eq_str(part, "3") {
        Some(Code::Digit3)
    } else if folded_eq_str(part, "4") {
        Some(Code::Digit4)
    } else if folded_eq_str(part, "5") {
        Some(Code::Digit5)
    } else if folded_eq_str(part, "6") {
        Some(Code::Digit6)
    } else if folded_eq_str(part, "7") {
        Some(Code::Digit7)
    } else if folded_eq_str(part, "8") {
        Some(Code::Digit8)
    } else if folded_eq_str(part, "9") {
        Some(Code::Digit9)
    } else if folded_eq_str(part, "/") || folded_eq_str(part, "slash") {
        Some(Code::Slash)
    } else if folded_eq_str(part, "\\") || folded_eq_str(part, "backslash") {
        Some(Code::Backslash)
    } else if folded_eq_str(part, ".") || folded_eq_str(part, "period") {
        Some(Code::Period)
    } else if folded_eq_str(part, ",") || folded_eq_str(part, "comma") {
        Some(Code::Comma)
    } else if folded_eq_str(part, ";") || folded_eq_str(part, "semicolon") {
        Some(Code::Semicolon)
    } else if folded_eq_str(part, "'") || folded_eq_str(part, "quote") {
        Some(Code::Quote)
    } else if folded_eq_str(part, "`") || folded_eq_str(part, "backquote") {
        Some(Code::Backquote)
    } else if folded_eq_str(part, "-") || folded_eq_str(part, "minus") {
        Some(Code::Minus)
    } else if folded_eq_str(part, "=") || folded_eq_str(part, "equal") {
        Some(Code::Equal)
    } else if folded_eq_str(part, "[") || folded_eq_str(part, "bracketleft") {
        Some(Code::BracketLeft)
    } else if folded_eq_str(part, "]") || folded_eq_str(part, "bracketright") {
        Some(Code::BracketRight)
    } else {
        None
    }
}

/// Parses a hotkey string such as `Ctrl+Shift+A` or `Alt+F4`.
///
/// The string is cut at every `+` and each piece trimmed. Every piece but the
/// last must name a modifier (`alt`, `ctrl`/`control`, `shift`,
/// `meta`/`super`/`win`/`cmd`), the last a key; names are compared
/// case-insensitively. Returns `None` if any piece names nothing.
pub fn parse_hotkey(s: &str) -> (r: Option<Shortcut>)
    ensures
        r == parse_hotkey_spec(s@),
{
    let cs = chars_of(s);
    let raw = split_on_plus(&cs);
    let parts = trim_each(&raw);
    let ghost views = hotkey_parts(s@);
    proof {
        lemma_split_plus_nonempty(s@);
        assert(char_views(parts@) =~= views);
    }
    let n = parts.len();
    let mut mods = Modifiers::empty();
    let mut i: usize = 0;
    assert(views.take(0) =~= Seq::<Seq<char>>::empty());
    while i + 1 < n
        invariant
            n == parts@.len(),
            n >= 1,
            views == char_views(parts@),
            views == hotkey_parts(s@),
            i + 1 <= n,
            modifiers_of(views.take(i as int)) == Some(mods),
        decreases n - i,
    {
        proof {
            assert(views.take(i + 1).drop_last() =~= views.take(i as int));
            assert(views.take(i + 1).last() == parts@[i as int]@);
        }
        match add_modifier_exec(mods, parts[i].as_slice()) {
            None => {
                proof {
                    assert(modifiers_of(views.take(i + 1)) is None);
                    assert(views.drop_last() =~= views.take(n - 1));
                    lemma_modifiers_of_none_stays(views, i + 1, n - 1);
                    assert(modifiers_of(views.drop_last()) is None);
                }
                return None;
            },
            Some(m) => {
                mods = m;
            },
        }
        i = i + 1;
    }
    assert(views.drop_last() =~= views.take(n - 1));
    assert(views.last() == parts@[n - 1]@);
    match key_code(parts[n - 1].as_slice()) {
        None => None,
        Some(k) => Some(Shortcut { mods, key: k }),
    }
}

/// The shortcut used when the configured one does not parse: the default
/// hotkey string if it parses, otherwise Ctrl+/.
pub fn default_shortcut(default_hotkey: &str) -> (r: Shortcut)
    ensures
        r == (match parse_hotkey_spec(default_hotkey@) {
            Some(sc) => sc,
            None => Shortcut { mods: Modifiers { control: true, ..no_modifiers() }, key: Code::Slash },
        }),
{
    match parse_hotkey(default_hotkey) {
        Some(sc) => sc,
        None => Shortcut { mods: Modifiers::control(), key: Code::Slash },
    }
}

/// The hotkey string that selects the Fn/Globe key instead of a shortcut.
pub const FN_HOTKEY: &'static str = "Fn";
pub const INVALID_HOTKEY_PREFIX: &'static str = "Invalid hotkey: ";

/// How the main hotkey is listened for.
#[derive(Debug, Clone, Copy, PartialEq, Eq, Structural)]
pub enum HotkeyBinding {
    /// The Fn/Globe key, watched by the key-event tap.
    FnKey,
    /// A global shortcut.
    Shortcut(Shortcut),
}

/// The binding for a main hotkey setting: `Fn` selects the Fn key; anything
/// else must parse, or the setting is refused.
pub fn main_hotkey_binding(hotkey: &str) -> (r: Result<HotkeyBinding, String>)
    ensures
        hotkey@ == FN_HOTKEY@ ==> r == Ok::<HotkeyBinding, String>(HotkeyBinding::FnKey),
        hotkey@ != FN_HOTKEY@ ==> match parse_hotkey_spec(hotkey@) {
            Some(sc) => r == Ok::<HotkeyBinding, String>(HotkeyBinding::Shortcut(sc)),
            None => r matches Err(m) && m@ == INVALID_HOTKEY_PREFIX@ + hotkey@,
        },
{
    if str_eq(hotkey, FN_HOTKEY) {
        return Ok(HotkeyBinding::FnKey);
    }
    match parse_hotkey(hotkey) {
        Some(sc) => Ok(HotkeyBinding::Shortcut(sc)),
        None => Err(crate::connection::concat(INVALID_HOTKEY_PREFIX, hotkey)),
    }
}

/// The shortcut for a translate hotkey setting: none when empty; otherwise
/// it must parse, or the setting is refused.
pub fn translate_hotkey_binding(hotkey: &str) -> (r: Result<Option<Shortcut>, String>)
    ensures
        hotkey@.len() == 0 ==> r == Ok::<Option<Shortcut>, String>(None),
        hotkey@.len() > 0 ==> match parse_hotkey_spec(hotkey@) {
            Some(sc) => r == Ok::<Option<Shortcut>, String>(Some(sc)),
            None => r matches Err(m) && m@ == INVALID_HOTKEY_PREFIX@ + hotkey@,
        },
{
    if hotkey.is_empty() {
        return Ok(None);
    }
    match parse_hotkey(hotkey) {
        Some(sc) => Ok(Some(sc)),
        None => Err(crate::connection::concat(INVALID_HOTKEY_PREFIX, hotkey)),
    }
}

/// The Fn key for `Fn`; otherwise the shortcut the setting names, or the
/// default shortcut (the default hotkey, else Ctrl+/) if it does not parse.
pub open spec fn restored_binding_spec(hotkey: Seq<char>, default_hotkey: Seq<char>) -> HotkeyBinding {
    if hotkey == FN_HOTKEY@ {
        HotkeyBinding::FnKey
    } else {
        HotkeyBinding::Shortcut(
            match parse_hotkey_spec(hotkey) {
                Some(sc) => sc,
                None => match parse_hotkey_spec(default_hotkey) {
                    Some(sc) => sc,
                    None => Shortcut {
                        mods: Modifiers { control: true, ..no_modifiers() },
                        key: Code::Slash,
                    },
                },
            },
        )
    }
}

/// The binding a saved main hotkey is restored with: the Fn key for `Fn`,
/// otherwise its shortcut, or the default shortcut if it does not parse.
pub fn restored_binding(hotkey: &str, default_hotkey: &str) -> (r: HotkeyBinding)
    ensures
        r == restored_binding_spec(hotkey@, default_hotkey@),
{
    if str_eq(hotkey, FN_HOTKEY) {
        return HotkeyBinding::FnKey;
    }
    match parse_hotkey(hotkey) {
        Some(sc) => HotkeyBinding::Shortcut(sc),
        None => HotkeyBinding::Shortcut(default_shortcut(default_hotkey)),
    }
}

/// The global shortcut a saved translate hotkey registers: none when it is
/// empty or does not parse.
pub open spec fn translate_registration(translate_hotkey: Seq<char>) -> Seq<Shortcut> {
    if translate_hotkey.len() > 0 {
        match parse_hotkey_spec(translate_hotkey) {
            Some(sc) => seq![sc],
            None => Seq::empty(),
        }
    } else {
        Seq::empty()
    }
}

/// `HotkeyRegistration` as plain values.
#[verifier::ext_equal]
pub struct RegistrationView {
    pub fn_enabled: bool,
    pub recording: bool,
    pub registered: Seq<Shortcut>,
}

/// How the hotkeys are listened for: whether the Fn-key tap drives the
/// pipeline, whether a new hotkey is being recorded in the settings (the tap
/// then only reports the Fn key), and the global shortcuts registered.
pub struct HotkeyRegistration {
    pub fn_enabled: bool,
    pub recording: bool,
    pub registered: Vec<Shortcut>,
}

impl View for HotkeyRegistration {
    type V = RegistrationView;

    open spec fn view(&self) -> RegistrationView {
        RegistrationView {
            fn_enabled: self.fn_enabled,
            recording: self.recording,
            registered: self.registered@,
        }
    }
}

/// What saved hotkey settings put in place: the main hotkey as
/// `restored_binding_spec` gives it (the Fn-key tap, or its shortcut), then
/// the translate hotkey's shortcut, if any; nothing is being recorded.
pub open spec fn configured_registration(
    hotkey: Seq<char>,
    translate_hotkey: Seq<char>,
    default_hotkey: Seq<char>,
) -> RegistrationView {
    match restored_binding_spec(hotkey, default_hotkey) {
        HotkeyBinding::FnKey => RegistrationView {
            fn_enabled: true,
            recording: false,
            registered: translate_registration(translate_hotkey),
        },
        HotkeyBinding::Shortcut(sc) => RegistrationView {
            fn_enabled: false,
            recording: false,
            registered: seq![sc] + translate_registration(translate_hotkey),
        },
    }
}

/// Pausing so the settings page can capture keys: the Fn-key tap stops
/// driving the pipeline and only reports, and every shortcut is unregistered.
pub open spec fn pause_step(v: RegistrationView) -> RegistrationView {
    RegistrationView { fn_enabled: false, recording: true, registered: Seq::empty() }
}

/// Resuming from the saved settings: recording ends; for the Fn key the tap
/// is enabled and the registered shortcuts are kept; for a shortcut, every
/// shortcut is unregistered and the main one registered; then the translate
/// hotkey's shortcut, if any, is registered.
pub open spec fn resume_step(
    v: RegistrationView,
    hotkey: Seq<char>,
    translate_hotkey: Seq<char>,
    default_hotkey: Seq<char>,
) -> RegistrationView {
    match restored_binding_spec(hotkey, default_hotkey) {
        HotkeyBinding::FnKey => RegistrationView {
            fn_enabled: true,
            recording: false,
            registered: v.registered + translate_registration(translate_hotkey),
        },
        HotkeyBinding::Shortcut(sc) => RegistrationView {
            fn_enabled: false,
            recording: false,
            registered: seq![sc] + translate_registration(translate_hotkey),
        },
    }
}

/// Appends the translate hotkey's shortcut, if it has one, to `registered`.
fn push_translate_registration(registered: &mut Vec<Shortcut>, translate_hotkey: &str)
    ensures
        final(registered)@ == old(registered)@ + translate_registration(translate_hotkey@),
{
    if !translate_hotkey.is_empty() {
        match parse_hotkey(translate_hotkey) {
            Some(sc) => {
                registered.push(sc);
                assert(registered@ =~= old(registered)@ + seq![sc]);
            },
            None => {
                assert(old(registered)@ + Seq::<Shortcut>::empty() =~= old(registered)@);
            },
        }
    } else {
        assert(old(registered)@ + Seq::<Shortcut>::empty() =~= old(registered)@);
    }
}

impl HotkeyRegistration {
    /// What the saved settings put in place at startup.
    pub fn configured(hotkey: &str, translate_hotkey: &str, default_hotkey: &str) -> (r:
        HotkeyRegistration)
        ensures
            r@ == configured_registration(hotkey@, translate_hotkey@, default_hotkey@),
    {
        let mut registered: Vec<Shortcut> = Vec::new();
        let fn_enabled = match restored_binding(hotkey, default_hotkey) {
            HotkeyBinding::FnKey => true,
            HotkeyBinding::Shortcut(sc) => {
                registered.push(sc);
                false
            },
        };
        push_translate_registration(&mut registered, translate_hotkey);
        proof {
            assert(Seq::<Shortcut>::empty() + translate_registration(translate_hotkey@)
                =~= translate_registration(translate_hotkey@));
        }
        HotkeyRegistration { fn_enabled, recording: false, registered }
    }

    /// Pauses the hotkeys: see `pause_step`.
    pub fn pause(&mut self)
        ensures
            final(self)@ == pause_step(old(self)@),
    {
        self.fn_enabled = false;
        self.recording = true;
        self.registered = Vec::new();
    }

    /// Resumes the hotkeys from the saved settings: see `resume_step`.
    pub fn resume(&mut self, hotkey: &str, translate_hotkey: &str, default_hotkey: &str)
        ensures
            final(self)@ == resume_step(old(self)@, hotkey@, translate_hotkey@, default_hotkey@),
    {
        self.recording = false;
        match restored_binding(hotkey, default_hotkey) {
            HotkeyBinding::FnKey => {
                self.fn_enabled = true;
            },
            HotkeyBinding::Shortcut(sc) => {
                self.fn_enabled = false;
                let mut registered: Vec<Shortcut> = Vec::new();
                registered.push(sc);
                self.registered = registered;
            },
        }
        push_translate_registration(&mut self.registered, translate_hotkey);
    }
}

/// Resuming undoes pausing: whatever was in place before, a pause followed
/// by a resume leaves what the saved settings put in place, so a state that
/// came from those settings is restored exactly.
pub proof fn lemma_resume_undoes_pause(
    v: RegistrationView,
    hotkey: Seq<char>,
    translate_hotkey: Seq<char>,
    default_hotkey: Seq<char>,
)
    ensures
        resume_step(pause_step(v), hotkey, translate_hotkey, default_hotkey)
            == configured_registration(hotkey, translate_hotkey, default_hotkey),
        v == configured_registration(hotkey, translate_hotkey, default_hotkey) ==> resume_step(
            pause_step(v),
            hotkey,
            translate_hotkey,
            default_hotkey,
        ) == v,
{
    assert(Seq::<Shortcut>::empty() + translate_registration(translate_hotkey)
        =~= translate_registration(translate_hotkey));
}

/// While paused no hotkey drives the pipeline: the Fn-key tap only reports
/// and no shortcut is registered.
pub proof fn lemma_pause_silences_hotkeys(v: RegistrationView)
    ensures
        !pause_step(v).fn_enabled,
        pause_step(v).recording,
        pause_step(v).registered.len() == 0,
{
}

/// Adding two modifiers in either order gives the same result.
proof fn lemma_add_modifier_commutes(m: Modifiers, a: Seq<char>, b: Seq<char>)
    ensures
        (match add_modifier(m, a) {
            Some(x) => add_modifier(x, b),
            None => None,
        }) == (match add_modifier(m, b) {
            Some(x) => add_modifier(x, a),
            None => None,
        }),
{
}

/// The order in which modifiers are written does not matter: swapping two
/// neighbouring modifier pieces names the same modifiers (or none either way).
pub proof fn lemma_modifier_order_irrelevant(
    prefix: Seq<Seq<char>>,
    a: Seq<char>,
    b: Seq<char>,
    suffix: Seq<Seq<char>>,
)
    ensures
        modifiers_of(prefix + seq![a, b] + suffix) == modifiers_of(prefix + seq![b, a] + suffix),
    decreases suffix.len(),
{
    if suffix.len() == 0 {
        let x = prefix + seq![a, b];
        let y = prefix + seq![b, a];
        assert(x + suffix =~= x);
        assert(y + suffix =~= y);
        assert(x.drop_last() =~= prefix.push(a));
        assert(y.drop_last() =~= prefix.push(b));
        assert(prefix.push(a).drop_last() =~= prefix);
        assert(prefix.push(b).drop_last() =~= prefix);
        assert(x.last() == b);
        assert(y.last() == a);
        assert(prefix.push(a).last() == a);
        assert(prefix.push(b).last() == b);
        let pa = modifiers_of(prefix.push(a));
        let pb = modifiers_of(prefix.push(b));
        assert(pa == match modifiers_of(prefix) {
            Some(m) => add_modifier(m, a),
            None => None,
        });
        assert(pb == match modifiers_of(prefix) {
            Some(m) => add_modifier(m, b),
            None => None,
        });
        assert(modifiers_of(x) == match pa {
            Some(m) => add_modifier(m, b),
            None => None,
        });
        assert(modifiers_of(y) == match pb {
            Some(m) => add_modifier(m, a),
            None => None,
        });
        lemma_add_modifier_commutes_opt(modifiers_of(prefix), a, b);
    } else {
        let s2 = suffix.drop_last();
        lemma_modifier_order_irrelevant(prefix, a, b, s2);
        assert((prefix + seq![a, b] + suffix).drop_last() =~= prefix + seq![a, b] + s2);
        assert((prefix + seq![b, a] + suffix).drop_last() =~= prefix + seq![b, a] + s2);
        assert((prefix + seq![a, b] + suffix).last() == suffix.last());
        assert((prefix + seq![b, a] + suffix).last() == suffix.last());
    }
}

proof fn lemma_add_modifier_commutes_opt(m: Option<Modifiers>, a: Seq<char>, b: Seq<char>)
    ensures
        (match (match m {
            Some(x) => add_modifier(x, a),
            None => None,
        }) {
            Some(x) => add_modifier(x, b),
            None => None,
        }) == (match (match m {
            Some(x) => add_modifier(x, b),
            None => None,
        }) {
            Some(x) => add_modifier(x, a),
            None => None,
        }),
{
    if let Some(x) = m {
        lemma_add_modifier_commutes(x, a, b);
    }
}

/// Repeating a modifier changes nothing.
pub proof fn lemma_repeated_modifier_idempotent(parts: Seq<Seq<char>>, a: Seq<char>)
    ensures
        modifiers_of(parts.push(a).push(a)) == modifiers_of(parts.push(a)),
{
    assert(parts.push(a).push(a).drop_last() =~= parts.push(a));
    assert(parts.push(a).drop_last() =~= parts);
}

/// Two pieces that lowercase alike match the same names.
proof fn lemma_folded_eq_respects_case(a: Seq<char>, b: Seq<char>)
    requires
        a.len() == b.len(),
        forall|i: int| 0 <= i < a.len() ==> fold_code(#[trigger] a[i]) == fold_code(b[i]),
    ensures
        forall|name: Seq<char>| #[trigger] folded_eq(a, name) == folded_eq(b, name),
{
    assert forall|name: Seq<char>| #[trigger] folded_eq(a, name) == folded_eq(b, name) by {
        if folded_eq(a, name) {
            assert forall|i: int| 0 <= i < b.len() implies fold_code(#[trigger] b[i]) == name[i] as u32 by {
                assert(fold_code(a[i]) == fold_code(b[i]));
            }
        }
        if folded_eq(b, name) {
            assert forall|i: int| 0 <= i < a.len() implies fold_code(#[trigger] a[i]) == name[i] as u32 by {
                assert(fold_code(a[i]) == fold_code(b[i]));
            }
        }
    }
}

/// Names are compared case-insensitively: two pieces that lowercase alike
/// name the same key and add the same modifier.
pub proof fn lemma_pieces_case_insensitive(a: Seq<char>, b: Seq<char>, m: Modifiers)
    requires
        a.len() == b.len(),
        forall|i: int| 0 <= i < a.len() ==> fold_code(#[trigger] a[i]) == fold_code(b[i]),
    ensures
        key_code_of(a) == key_code_of(b),
        add_modifier(m, a) == add_modifier(m, b),
{
    lemma_folded_eq_respects_case(a, b);
}

} // verus!
