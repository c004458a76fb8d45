use vstd::prelude::*;
use vstd::string::*;

verus! {

/// Stored transcription language; `None` lets the engine detect it.
#[derive(Clone, Debug, Default)]
pub struct LanguageConfig {
    pub language: Option<String>,
}

/// Stored initial prompt.
#[derive(Clone, Debug, Default)]
pub struct PromptConfig {
    pub prompt: Option<String>,
}

#[derive(Clone, Debug, Default)]
pub struct AutoPasteConfig {
    pub enabled: bool,
}

#[derive(Clone, Debug, Default)]
pub struct HoldToRecordConfig {
    pub enabled: bool,
}

/// Stored global shortcut: modifier names and a key name.
#[derive(Clone, Debug)]
pub struct ShortcutConfig {
    pub modifiers: Vec<String>,
    pub key: String,
}

impl Default for ShortcutConfig {
    fn default() -> (s: Self)
        ensures
            s.modifiers@.len() == 2,
            s.modifiers@[0]@ == "Super"@,
            s.modifiers@[1]@ == "Shift"@,
            s.key@ == "F9"@,
    {
        let mut modifiers: Vec<String> = Vec::new();
        modifiers.push(String::from_str("Super"));
        modifiers.push(String::from_str("Shift"));
        ShortcutConfig { modifiers, key: String::from_str("F9") }
    }
}

#[derive(Clone, Debug, Default)]
pub struct ModelConfig {
    pub selected_id: Option<String>,
}

#[derive(Clone, Debug, Default)]
pub struct AudioInputConfig {
    pub selected_device_name: Option<String>,
}

/// Language used when none has been stored yet.
pub const DEFAULT_LANGUAGE: &'static str = "en";

/// The language to request: English when no language was ever stored, else what was stored
/// (nothing when the stored file could not be read).
pub fn effective_language(stored: Option<Option<LanguageConfig>>) -> (r: Option<String>)
    ensures
        stored is None ==> (r matches Some(l) && l@ == DEFAULT_LANGUAGE@),
        stored matches Some(None) ==> r is None,
        stored matches Some(Some(c)) ==> (match c.language {
            Some(l) => (r matches Some(m) && m@ == l@),
            None => r is None,
        }),
{
    match stored {
        None => Some(String::from_str(DEFAULT_LANGUAGE)),
        Some(None) => None,
        Some(Some(c)) => match &c.language {
            Some(l) => Some(l.clone()),
            None => None,
        },
    }
}

} // verus!
