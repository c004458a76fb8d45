use vstd::prelude::*;
use vstd::string::*;

use crate::config::ShortcutConfig;
use crate::text::str_eq;

verus! {

/// Modifier keys of a global shortcut.
#[derive(Clone, Copy, Debug, PartialEq, Eq)]
pub enum Modifier {
    Super,
    Control,
    Alt,
    Shift,
}

/// The set of modifiers held with the key.
#[derive(Clone, Copy, Debug, PartialEq, Eq)]
pub struct ModifierSet {
    pub super_key: bool,
    pub control: bool,
    pub alt: bool,
    pub shift: bool,
}

/// Keys a shortcut may use: F1 to F22, a letter A to Z, and four named keys.
#[derive(Clone, Copy, Debug, PartialEq, Eq)]
pub enum KeyCode {
    Function(u8),
    Letter(char),
    Space,
    Enter,
    Tab,
    Escape,
}

/// A parsed shortcut; `modifiers` is `None` when no modifier is held.
#[derive(Clone, Copy, Debug, PartialEq, Eq)]
pub struct Shortcut {
    pub modifiers: Option<ModifierSet>,
    pub code: KeyCode,
}

/// The text in lower case.
pub uninterp spec fn lower_of(s: Seq<char>) -> Seq<char>;

/// The text in upper case.
pub uninterp spec fn upper_of(s: Seq<char>) -> Seq<char>;

/// Relies on `str::to_lowercase`: the result depends on the characters alone.
#[verifier::external_body]
fn lowercase(s: &str) -> (r: String)
    ensures
        r@ == lower_of(s@),
{
    s.to_lowercase()
}

/// Relies on `str::to_uppercase`: the result depends on the characters alone.
#[verifier::external_body]
fn uppercase(s: &str) -> (r: String)
    ensures
        r@ == upper_of(s@),
{
    s.to_uppercase()
}

/// The modifier a lower-case name stands for.
pub open spec fn modifier_named(s: Seq<char>) -> Option<Modifier> {
    if s == "cmd"@ || s == "super"@ || s == "meta"@ {
        Some(Modifier::Super)
    } else if s == "ctrl"@ || s == "control"@ {
        Some(Modifier::Control)
    } else if s == "alt"@ || s == "option"@ {
        Some(Modifier::Alt)
    } else if s == "shift"@ {
        Some(Modifier::Shift)
    } else {
        None
    }
}

pub open spec fn is_digit(c: char) -> bool {
    '0' <= c && c <= '9'
}

pub open spec fn digit(c: char) -> int {
    c as int - '0' as int
}

/// The key an upper-case name stands for.
pub open spec fn key_named(s: Seq<char>) -> Option<KeyCode> {
    if s.len() == 1 && 'A' <= s[0] && s[0] <= 'Z' {
        Some(KeyCode::Letter(s[0]))
    } else if s.len() == 2 && s[0] == 'F' && '1' <= s[1] && s[1] <= '9' {
        Some(KeyCode::Function(digit(s[1]) as u8))
    } else if s.len() == 3 && s[0] == 'F' && s[1] == '1' && is_digit(s[2]) {
        Some(KeyCode::Function((10 + digit(s[2])) as u8))
    } else if s.len() == 3 && s[0] == 'F' && s[1] == '2' && '0' <= s[2] && s[2] <= '2' {
        Some(KeyCode::Function((20 + digit(s[2])) as u8))
    } else if s == "SPACE"@ {
        Some(KeyCode::Space)
    } else if s == "ENTER"@ {
        Some(KeyCode::Enter)
    } else if s == "TAB"@ {
        Some(KeyCode::Tab)
    } else if s == "ESCAPE"@ || s == "ESC"@ {
        Some(KeyCode::Escape)
    } else {
        None
    }
}

/// The modifier named by `name`, in any case.
pub fn parse_modifier(name: &str) -> (r: Option<Modifier>)
    ensures
        r == modifier_named(lower_of(name@)),
{
    let l = lowercase(name);
    modifier_from_lower(l.as_str())
}

/// The modifier a lower-case name stands for.
pub fn modifier_from_lower(s: &str) -> (r: Option<Modifier>)
    ensures
        r == modifier_named(s@),
{
    if str_eq(s, "cmd") || str_eq(s, "super") || str_eq(s, "meta") {
        Some(Modifier::Super)
    } else if str_eq(s, "ctrl") || str_eq(s, "control") {
        Some(Modifier::Control)
    } else if str_eq(s, "alt") || str_eq(s, "option") {
        Some(Modifier::Alt)
    } else if str_eq(s, "shift") {
        Some(Modifier::Shift)
    } else {
        None
    }
}

/// The key named by `name`, in any case.
pub fn parse_key(name: &str) -> (r: Option<KeyCode>)
    ensures
        r == key_named(upper_of(name@)),
{
    let u = uppercase(name);
    key_from_upper(u.as_str())
}

/// The key an upper-case name stands for.
pub fn key_from_upper(s: &str) -> (r: Option<KeyCode>)
    ensures
        r == key_named(s@),
{
    let len = s.unicode_len();
    if len == 1 {
        let c = s.get_char(0);
        if 'A' <= c && c <= 'Z' {
            return Some(KeyCode::Letter(c));
        }
    }
    if len == 2 && s.get_char(0) == 'F' {
        let c = s.get_char(1);
        if '1' <= c && c <= '9' {
            return Some(KeyCode::Function((c as u32 - '0' as u32) as u8));
        }
    }
    if len == 3 && s.get_char(0) == 'F' {
        let c1 = s.get_char(1);
        let c2 = s.get_char(2);
        if c1 == '1' && '0' <= c2 && c2 <= '9' {
            return Some(KeyCode::Function((10 + (c2 as u32 - '0' as u32)) as u8));
        }
        if c1 == '2' && '0' <= c2 && c2 <= '2' {
            return Some(KeyCode::Function((20 + (c2 as u32 - '0' as u32)) as u8));
        }
    }
    if str_eq(s, "SPACE") {
        Some(KeyCode::Space)
    } else if str_eq(s, "ENTER") {
        Some(KeyCode::Enter)
    } else if str_eq(s, "TAB") {
        Some(KeyCode::Tab)
    } else if str_eq(s, "ESCAPE") || str_eq(s, "ESC") {
        Some(KeyCode::Escape)
    } else {
        None
    }
}

/// The set after adding `m` (or unchanged when the name was not a modifier).
pub open spec fn with_modifier(set: ModifierSet, m: Option<Modifier>) -> ModifierSet {
    match m {
        Some(Modifier::Super) => ModifierSet { super_key: true, ..set },
        Some(Modifier::Control) => ModifierSet { control: true, ..set },
        Some(Modifier::Alt) => ModifierSet { alt: true, ..set },
        Some(Modifier::Shift) => ModifierSet { shift: true, ..set },
        None => set,
    }
}

/// The modifiers named in `names`; unknown names are ignored.
pub open spec fn modifiers_named(names: Seq<Seq<char>>) -> ModifierSet
    decreases names.len(),
{
    if names.len() == 0 {
        ModifierSet { super_key: false, control: false, alt: false, shift: false }
    } else {
        with_modifier(modifiers_named(names.drop_last()), modifier_named(lower_of(names.last())))
    }
}

pub open spec fn is_empty_set(m: ModifierSet) -> bool {
    !m.super_key && !m.control && !m.alt && !m.shift
}

impl ShortcutConfig {
    /// Parses the stored names into a shortcut. Unknown modifier names are ignored; an
    /// unknown key is an error that names it.
    pub fn to_shortcut(&self) -> (r: Result<Shortcut, String>)
        ensures
            key_named(upper_of(self.key@)) is None ==> r is Err,
            key_named(upper_of(self.key@)) matches Some(code) ==> r == Ok::<Shortcut, String>(
                Shortcut {
                    modifiers: if is_empty_set(modifiers_named(self.modifiers@.map_values(|s: String| s@))) {
                        None
                    } else {
                        Some(modifiers_named(self.modifiers@.map_values(|s: String| s@)))
                    },
                    code,
                },
            ),
    {
        let ghost names = self.modifiers@.map_values(|s: String| s@);
        let mut set = ModifierSet { super_key: false, control: false, alt: false, shift: false };
        let mut i: usize = 0;
        while i < self.modifiers.len()
            invariant
                names == self.modifiers@.map_values(|s: String| s@),
                i <= self.modifiers@.len(),
                set == modifiers_named(names.subrange(0, i as int)),
            decreases self.modifiers@.len() - i,
        {
            proof {
                assert(names.subrange(0, i + 1).drop_last() =~= names.subrange(0, i as int));
            }
            match parse_modifier(self.modifiers[i].as_str()) {
                Some(Modifier::Super) => set.super_key = true,
                Some(Modifier::Control) => set.control = true,
                Some(Modifier::Alt) => set.alt = true,
                Some(Modifier::Shift) => set.shift = true,
                None => {},
            }
            i = i + 1;
        }
        proof {
            assert(names.subrange(0, self.modifiers@.len() as int) =~= names);
        }
        let code = match parse_key(self.key.as_str()) {
            Some(c) => c,
            None => {
                let msg = String::from_str("Unsupported key: ").concat(self.key.as_str());
                return Err(msg);
            },
        };
        let none_held = !set.super_key && !set.control && !set.alt && !set.shift;
        Ok(Shortcut { modifiers: if none_held { None } else { Some(set) }, code })
    }
}

} // verus!
