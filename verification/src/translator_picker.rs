//! The translator picker: local or remote, which provider, and the OpenAI
//! API key when the remote provider is chosen.

use crate::slash_popup::{lemma_succ_mod, next_index, previous_index};
use crate::text::{
    byte_len, chars_of, is_whitespace, push_char, spec_is_whitespace, starts_with, str_eq,
    string_from_chars, utf8_len,
};
use vstd::prelude::*;

verus! {

/// A provider chosen from the local list.
#[derive(Debug, Clone, Copy, PartialEq, Eq)]
pub enum TranslatorProviderSelection {
    Noop,
    Ollama,
    LocalOpenAiCompatible,
}

/// What confirming a row asks the application to do.
#[derive(Debug)]
pub enum TranslatorPickerAction {
    SelectedLocal(TranslatorProviderSelection),
    SelectedOpenAi,
    TestOpenAi { api_key: String },
    InvalidOpenAiApiKey,
}

/// Which list (or the key input) the picker shows.
#[derive(Debug)]
pub enum TranslatorPickerStage {
    Category,
    LocalProvider,
    RemoteProvider,
    OpenAiApiKey { value: String },
}

/// The picker's state.
#[derive(Debug)]
pub struct TranslatorPicker {
    stage: TranslatorPickerStage,
    selected: usize,
    has_openai_api_key: bool,
    local_provider_is_root: bool,
    openai_api_key_from_provider_list: bool,
}

/// The screens of the picker, without the typed key.
#[derive(Debug, Clone, Copy, PartialEq, Eq)]
pub enum PickerScreen {
    Category,
    LocalProvider,
    RemoteProvider,
    ApiKey,
}

/// Whether `c` is a control character (`char::is_control`: the Unicode
/// `Cc` category).
pub open spec fn spec_is_control(c: char) -> bool {
    (c as u32) < 0x20 || (0x7F <= (c as u32) && (c as u32) < 0xA0)
}

/// Whether `c` is a control character.
pub fn is_control(c: char) -> (b: bool)
    ensures
        b == spec_is_control(c),
{
    (c as u32) < 0x20 || (0x7F <= (c as u32) && (c as u32) < 0xA0)
}

/// The key without whitespace.
pub open spec fn normalized_key_spec(value: Seq<char>) -> Seq<char> {
    value.filter(|c: char| !spec_is_whitespace(c))
}

/// Whether a normalized key has the OpenAI form: it starts with `sk-` and
/// is at least 40 bytes long.
pub open spec fn key_looks_valid(key: Seq<char>) -> bool {
    "sk-"@.is_prefix_of(key) && utf8_len(key) >= 40
}

/// The provider picked at row `sel` of the provider list (when that row
/// does not lead to the key input).
pub open spec fn local_choice(sel: nat, root: bool) -> TranslatorPickerAction {
    if sel == 0 {
        TranslatorPickerAction::SelectedLocal(TranslatorProviderSelection::Ollama)
    } else if sel == 1 {
        TranslatorPickerAction::SelectedLocal(TranslatorProviderSelection::LocalOpenAiCompatible)
    } else if sel == 2 && root {
        TranslatorPickerAction::SelectedOpenAi
    } else {
        TranslatorPickerAction::SelectedLocal(TranslatorProviderSelection::Noop)
    }
}

/// The title of a screen.
pub open spec fn header_title_spec(screen: PickerScreen, root: bool) -> Seq<char> {
    match screen {
        PickerScreen::Category => "Select Translator Type"@,
        PickerScreen::LocalProvider => if root {
            "Select Translation Provider"@
        } else {
            "Select Local Provider"@
        },
        PickerScreen::RemoteProvider => "Select Remote Provider"@,
        PickerScreen::ApiKey => "OpenAI API Key"@,
    }
}

/// The line under the title of a screen.
pub open spec fn header_subtitle_spec(screen: PickerScreen, root: bool) -> Seq<char> {
    match screen {
        PickerScreen::Category => "Choose where prompt translation should run."@,
        PickerScreen::LocalProvider => if root {
            "Choose the provider to enable prompt translation."@
        } else {
            "Local providers keep prompts on this machine."@
        },
        PickerScreen::RemoteProvider => "Remote providers send prompts to an external API."@,
        PickerScreen::ApiKey => "The key is validated with one API call before the provider is enabled."@,
    }
}

/// The row names of a screen.
pub open spec fn row_names(screen: PickerScreen, root: bool) -> Seq<Seq<char>> {
    match screen {
        PickerScreen::Category => seq!["1. Local"@, "2. Remote"@],
        PickerScreen::LocalProvider => if root {
            seq!["1. Ollama"@, "2. OpenAI compatible"@, "3. OpenAI API"@, "4. Off"@]
        } else {
            seq!["1. Ollama"@, "2. OpenAI compatible"@, "3. Off"@]
        },
        PickerScreen::RemoteProvider => seq!["1. OpenAI API"@],
        PickerScreen::ApiKey => seq![],
    }
}

/// The row descriptions of a screen.
pub open spec fn row_descriptions(screen: PickerScreen, root: bool) -> Seq<Seq<char>> {
    match screen {
        PickerScreen::Category => seq!["Ollama or local OpenAI-compatible server"@, "OpenAI API"@],
        PickerScreen::LocalProvider => if root {
            seq![
                "Use a local Ollama model"@,
                "Use a local /v1/chat/completions server"@,
                "Use the saved or entered OpenAI API key"@,
                "Disable prompt translation"@,
            ]
        } else {
            seq![
                "Use a local Ollama model"@,
                "Use a local /v1/chat/completions server"@,
                "Disable prompt translation"@,
            ]
        },
        PickerScreen::RemoteProvider => seq!["Use OpenAI Responses API"@],
        PickerScreen::ApiKey => seq![],
    }
}

/// What the key input shows for a typed key.
pub open spec fn masked_key_spec(typed: Seq<char>) -> Seq<char> {
    if typed.len() == 0 {
        "Paste API key and press Enter"@
    } else {
        Seq::new(if typed.len() < 64 {
            typed.len()
        } else {
            64
        }, |i: int| '*')
    }
}

/// A key with its whitespace removed.
pub fn normalized_api_key(value: &str) -> (r: String)
    ensures
        r@ == normalized_key_spec(value@),
{
    let v = chars_of(value);
    let ghost p = |c: char| !spec_is_whitespace(c);
    let mut out: Vec<char> = Vec::new();
    let mut i: usize = 0;
    assert(v@.take(0).filter(p) =~= Seq::<char>::empty());
    while i < v.len()
        invariant
            p == (|c: char| !spec_is_whitespace(c)),
            v@ == value@,
            i <= v@.len(),
            out@ == v@.take(i as int).filter(p),
        decreases v.len() - i,
    {
        let c = v[i];
        proof {
            assert(v@.take(i + 1) =~= v@.take(i as int).push(c));
            v@.take(i as int).lemma_filter_push(c, p);
        }
        if !is_whitespace(c) {
            out.push(c);
        }
        i = i + 1;
    }
    assert(v@.take(i as int) =~= v@);
    string_from_chars(&out)
}

impl TranslatorPicker {
    /// The screen shown.
    pub closed spec fn screen(&self) -> PickerScreen {
        match self.stage {
            TranslatorPickerStage::Category => PickerScreen::Category,
            TranslatorPickerStage::LocalProvider => PickerScreen::LocalProvider,
            TranslatorPickerStage::RemoteProvider => PickerScreen::RemoteProvider,
            TranslatorPickerStage::OpenAiApiKey { .. } => PickerScreen::ApiKey,
        }
    }

    /// The key typed so far (empty outside the key input).
    pub closed spec fn typed_key(&self) -> Seq<char> {
        match self.stage {
            TranslatorPickerStage::OpenAiApiKey { value } => value@,
            _ => Seq::empty(),
        }
    }

    /// The selected row.
    pub closed spec fn selected_spec(&self) -> nat {
        self.selected as nat
    }

    /// Whether an OpenAI key is already stored.
    pub closed spec fn has_key_spec(&self) -> bool {
        self.has_openai_api_key
    }

    /// Whether the picker opened on the provider list (with OpenAI in it).
    pub closed spec fn root_spec(&self) -> bool {
        self.local_provider_is_root
    }

    /// Whether the key input was reached from the provider list.
    pub closed spec fn from_list_spec(&self) -> bool {
        self.openai_api_key_from_provider_list
    }

    /// How many rows the shown list has.
    pub open spec fn visible_len_spec(&self) -> nat {
        match self.screen() {
            PickerScreen::Category => 2,
            PickerScreen::LocalProvider => if self.root_spec() {
                4
            } else {
                3
            },
            PickerScreen::RemoteProvider => 1,
            PickerScreen::ApiKey => 0,
        }
    }

    /// The selected row.
    pub fn selected_row(&self) -> (r: usize)
        ensures
            r == self.selected_spec(),
    {
        self.selected
    }

    /// A picker that starts by asking local or remote.
    pub fn new() -> (p: TranslatorPicker)
        ensures
            p.screen() == PickerScreen::Category,
            p.selected_spec() == 0,
            !p.has_key_spec(),
            !p.root_spec(),
            !p.from_list_spec(),
    {
        TranslatorPicker {
            stage: TranslatorPickerStage::Category,
            selected: 0,
            has_openai_api_key: false,
            local_provider_is_root: false,
            openai_api_key_from_provider_list: false,
        }
    }

    /// A picker that opens on the full provider list, on the active
    /// provider's row.
    pub fn provider_list(active_provider: &str, has_openai_api_key: bool) -> (p: TranslatorPicker)
        ensures
            p.screen() == PickerScreen::LocalProvider,
            p.selected_spec() == (if active_provider@ == "local-openai-compatible"@ {
                1nat
            } else if active_provider@ == "openai"@ {
                2nat
            } else {
                0nat
            }),
            p.has_key_spec() == has_openai_api_key,
            p.root_spec(),
            !p.from_list_spec(),
    {
        let selected = if str_eq(active_provider, "local-openai-compatible") {
            1
        } else if str_eq(active_provider, "openai") {
            2
        } else {
            0
        };
        TranslatorPicker {
            stage: TranslatorPickerStage::LocalProvider,
            selected,
            has_openai_api_key,
            local_provider_is_root: true,
            openai_api_key_from_provider_list: false,
        }
    }

    /// How many rows the shown list has.
    pub fn visible_len(&self) -> (n: usize)
        ensures
            n == self.visible_len_spec(),
    {
        match self.stage {
            TranslatorPickerStage::Category => 2,
            TranslatorPickerStage::LocalProvider => if self.local_provider_is_root {
                4
            } else {
                3
            },
            TranslatorPickerStage::RemoteProvider => 1,
            TranslatorPickerStage::OpenAiApiKey { .. } => 0,
        }
    }

    /// Moves the selection up, from the first row to the last.
    pub fn select_previous(&mut self)
        ensures
            final(self).selected_spec() == previous_index(
                old(self).selected_spec(),
                old(self).visible_len_spec(),
            ),
            final(self).screen() == old(self).screen(),
            final(self).typed_key() == old(self).typed_key(),
            final(self).has_key_spec() == old(self).has_key_spec(),
            final(self).root_spec() == old(self).root_spec(),
            final(self).from_list_spec() == old(self).from_list_spec(),
    {
        let len = self.visible_len();
        if len == 0 {
            return;
        }
        self.selected = if self.selected == 0 {
            len - 1
        } else {
            self.selected - 1
        };
    }

    /// Moves the selection down, from the last row to the first.
    pub fn select_next(&mut self)
        ensures
            final(self).selected_spec() == next_index(
                old(self).selected_spec(),
                old(self).visible_len_spec(),
            ),
            final(self).screen() == old(self).screen(),
            final(self).typed_key() == old(self).typed_key(),
            final(self).has_key_spec() == old(self).has_key_spec(),
            final(self).root_spec() == old(self).root_spec(),
            final(self).from_list_spec() == old(self).from_list_spec(),
    {
        let len = self.visible_len();
        if len == 0 {
            return;
        }
        if self.selected < len {
            self.selected = (self.selected + 1) % len;
        } else {
            self.selected = ((self.selected % len) + 1) % len;
            proof {
                lemma_succ_mod(old(self).selected as nat, len as nat);
            }
        }
    }

    /// Confirms the selected row (or the typed key).
    ///
    /// * local or remote: opens the local or the remote provider list;
    /// * provider list: Ollama, the local OpenAI-compatible server, then
    ///   (on the full list) OpenAI, which is picked at once when a key is
    ///   stored and otherwise asks for one, and last "off";
    /// * remote list: asks for the OpenAI key;
    /// * key input: nothing for a key that is empty once whitespace is
    ///   removed, a request to test a key of the OpenAI form, and a
    ///   refusal of any other key.
    pub fn accept(&mut self) -> (r: Option<TranslatorPickerAction>)
        ensures
            final(self).has_key_spec() == old(self).has_key_spec(),
            final(self).root_spec() == old(self).root_spec(),
            old(self).screen() == PickerScreen::Category ==> {
                &&& r is None
                &&& final(self).screen() == (if old(self).selected_spec() == 0 {
                    PickerScreen::LocalProvider
                } else {
                    PickerScreen::RemoteProvider
                })
                &&& final(self).selected_spec() == 0
                &&& final(self).from_list_spec() == old(self).from_list_spec()
            },
            old(self).screen() == PickerScreen::LocalProvider ==> if old(self).selected_spec() == 2
                && old(self).root_spec() && !old(self).has_key_spec() {
                &&& r is None
                &&& final(self).screen() == PickerScreen::ApiKey
                &&& final(self).typed_key().len() == 0
                &&& final(self).selected_spec() == 0
                &&& final(self).from_list_spec()
            } else {
                &&& r == Some(local_choice(old(self).selected_spec(), old(self).root_spec()))
                &&& *final(self) == *old(self)
            },
            old(self).screen() == PickerScreen::RemoteProvider ==> {
                &&& r is None
                &&& final(self).screen() == PickerScreen::ApiKey
                &&& final(self).typed_key().len() == 0
                &&& final(self).selected_spec() == 0
                &&& !final(self).from_list_spec()
            },
            old(self).screen() == PickerScreen::ApiKey ==> {
                let key = normalized_key_spec(old(self).typed_key());
                &&& *final(self) == *old(self)
                &&& (key.len() == 0 ==> r is None)
                &&& (key.len() > 0 && key_looks_valid(key) ==> (r matches Some(
                    TranslatorPickerAction::TestOpenAi { api_key },
                ) && api_key@ == key))
                &&& (key.len() > 0 && !key_looks_valid(key) ==> r == Some(
                    TranslatorPickerAction::InvalidOpenAiApiKey,
                ))
            },
    {
        match &self.stage {
            TranslatorPickerStage::Category => {
                self.stage = if self.selected == 0 {
                    TranslatorPickerStage::LocalProvider
                } else {
                    TranslatorPickerStage::RemoteProvider
                };
                self.selected = 0;
                None
            },
            TranslatorPickerStage::LocalProvider => {
                let selection = if self.selected == 0 {
                    TranslatorProviderSelection::Ollama
                } else if self.selected == 1 {
                    TranslatorProviderSelection::LocalOpenAiCompatible
                } else if self.selected == 2 && self.local_provider_is_root {
                    if self.has_openai_api_key {
                        return Some(TranslatorPickerAction::SelectedOpenAi);
                    }
                    self.openai_api_key_from_provider_list = true;
                    self.stage = TranslatorPickerStage::OpenAiApiKey { value: String::new() };
                    self.selected = 0;
                    return None;
                } else {
                    TranslatorProviderSelection::Noop
                };
                Some(TranslatorPickerAction::SelectedLocal(selection))
            },
            TranslatorPickerStage::RemoteProvider => {
                self.openai_api_key_from_provider_list = false;
                self.stage = TranslatorPickerStage::OpenAiApiKey { value: String::new() };
                self.selected = 0;
                None
            },
            TranslatorPickerStage::OpenAiApiKey { value } => {
                let api_key = normalized_api_key(value.as_str());
                let chars = chars_of(api_key.as_str());
                if chars.len() == 0 {
                    None
                } else {
                    if starts_with(api_key.as_str(), "sk-") && byte_len(api_key.as_str()) >= 40 {
                        Some(TranslatorPickerAction::TestOpenAi { api_key })
                    } else {
                        Some(TranslatorPickerAction::InvalidOpenAiApiKey)
                    }
                }
            },
        }
    }

    /// Picks row `number` (counted from 1) of the shown list and confirms
    /// it; nothing happens for a number outside the list.
    pub fn select_number(&mut self, number: usize) -> (r: Option<TranslatorPickerAction>)
        ensures
            (number == 0 || number > old(self).visible_len_spec()) ==> (r is None && *final(self)
                == *old(self)),
            final(self).has_key_spec() == old(self).has_key_spec(),
            final(self).root_spec() == old(self).root_spec(),
            (1 <= number <= old(self).visible_len_spec() && old(self).screen()
                == PickerScreen::LocalProvider && !(number == 3 && old(self).root_spec()
                && !old(self).has_key_spec())) ==> r == Some(
                local_choice((number - 1) as nat, old(self).root_spec()),
            ) && final(self).screen() == PickerScreen::LocalProvider && final(self).selected_spec()
                == number - 1 && final(self).from_list_spec() == old(self).from_list_spec()
                && final(self).typed_key() == old(self).typed_key(),
            (1 <= number <= old(self).visible_len_spec() && old(self).screen()
                == PickerScreen::Category) ==> r is None && final(self).screen() == (if number
                == 1 {
                PickerScreen::LocalProvider
            } else {
                PickerScreen::RemoteProvider
            }) && final(self).selected_spec() == 0 && final(self).from_list_spec() == old(
                self,
            ).from_list_spec(),
            (1 <= number <= old(self).visible_len_spec() && old(self).screen()
                == PickerScreen::RemoteProvider) ==> r is None && final(self).screen()
                == PickerScreen::ApiKey && !final(self).from_list_spec() && final(self).selected_spec()
                == 0 && final(self).typed_key().len() == 0,
            (number == 3 && old(self).screen() == PickerScreen::LocalProvider && old(self).root_spec()
                && !old(self).has_key_spec()) ==> r is None && final(self).screen()
                == PickerScreen::ApiKey && final(self).from_list_spec() && final(self).selected_spec()
                == 0 && final(self).typed_key().len() == 0,
    {
        if number == 0 || number > self.visible_len() {
            return None;
        }
        self.selected = number - 1;
        self.accept()
    }

    /// Esc: back to the previous list, or a request to close the picker
    /// from its first screen.  The key input goes back to the list it was
    /// opened from, and the typed key is dropped.
    pub fn cancel_or_back(&mut self) -> (close: bool)
        ensures
            final(self).has_key_spec() == old(self).has_key_spec(),
            final(self).root_spec() == old(self).root_spec(),
            final(self).from_list_spec() == old(self).from_list_spec(),
            close <==> (old(self).screen() == PickerScreen::Category || (old(self).screen()
                == PickerScreen::LocalProvider && old(self).root_spec())),
            close ==> *final(self) == *old(self),
            !close ==> final(self).selected_spec() == 0 && final(self).typed_key().len() == 0,
            !close ==> final(self).screen() == (if old(self).screen() == PickerScreen::ApiKey {
                if old(self).from_list_spec() {
                    PickerScreen::LocalProvider
                } else {
                    PickerScreen::RemoteProvider
                }
            } else {
                PickerScreen::Category
            }),
    {
        match self.stage {
            TranslatorPickerStage::Category => true,
            TranslatorPickerStage::RemoteProvider => {
                self.stage = TranslatorPickerStage::Category;
                self.selected = 0;
                false
            },
            TranslatorPickerStage::LocalProvider => {
                if self.local_provider_is_root {
                    true
                } else {
                    self.stage = TranslatorPickerStage::Category;
                    self.selected = 0;
                    false
                }
            },
            TranslatorPickerStage::OpenAiApiKey { .. } => {
                self.stage = if self.openai_api_key_from_provider_list {
                    TranslatorPickerStage::LocalProvider
                } else {
                    TranslatorPickerStage::RemoteProvider
                };
                self.selected = 0;
                false
            },
        }
    }

    /// The heading of the shown screen: its title and the line under it.
    pub fn header_text(&self) -> (r: (&'static str, &'static str))
        ensures
            r.0@ == header_title_spec(self.screen(), self.root_spec()),
            r.1@ == header_subtitle_spec(self.screen(), self.root_spec()),
    {
        match self.stage {
            TranslatorPickerStage::Category => (
                "Select Translator Type",
                "Choose where prompt translation should run.",
            ),
            TranslatorPickerStage::LocalProvider => if self.local_provider_is_root {
                ("Select Translation Provider", "Choose the provider to enable prompt translation.")
            } else {
                ("Select Local Provider", "Local providers keep prompts on this machine.")
            },
            TranslatorPickerStage::RemoteProvider => (
                "Select Remote Provider",
                "Remote providers send prompts to an external API.",
            ),
            TranslatorPickerStage::OpenAiApiKey { .. } => (
                "OpenAI API Key",
                "The key is validated with one API call before the provider is enabled.",
            ),
        }
    }

    /// The rows of the shown list: name and description.
    pub fn rows(&self) -> (r: Vec<(&'static str, &'static str)>)
        ensures
            r@.len() == self.visible_len_spec(),
            forall|i: int|
                0 <= i < r@.len() ==> (#[trigger] r@[i]).0@ == row_names(
                    self.screen(),
                    self.root_spec(),
                )[i] && r@[i].1@ == row_descriptions(self.screen(), self.root_spec())[i],
    {
        match self.stage {
            TranslatorPickerStage::Category => vec![
                ("1. Local", "Ollama or local OpenAI-compatible server"),
                ("2. Remote", "OpenAI API"),
            ],
            TranslatorPickerStage::LocalProvider => if self.local_provider_is_root {
                vec![
                    ("1. Ollama", "Use a local Ollama model"),
                    ("2. OpenAI compatible", "Use a local /v1/chat/completions server"),
                    ("3. OpenAI API", "Use the saved or entered OpenAI API key"),
                    ("4. Off", "Disable prompt translation"),
                ]
            } else {
                vec![
                    ("1. Ollama", "Use a local Ollama model"),
                    ("2. OpenAI compatible", "Use a local /v1/chat/completions server"),
                    ("3. Off", "Disable prompt translation"),
                ]
            },
            TranslatorPickerStage::RemoteProvider => vec![("1. OpenAI API", "Use OpenAI Responses API")],
            TranslatorPickerStage::OpenAiApiKey { .. } => Vec::new(),
        }
    }

    /// What the key input shows: a prompt while empty, else one `*` per
    /// typed character, at most 64.
    pub fn masked_key(&self) -> (r: String)
        ensures
            r@ == masked_key_spec(self.typed_key()),
    {
        let n = match &self.stage {
            TranslatorPickerStage::OpenAiApiKey { value } => value.as_str().unicode_len(),
            _ => 0,
        };
        if n == 0 {
            return crate::text::owned("Paste API key and press Enter");
        }
        let shown = if n < 64 {
            n
        } else {
            64
        };
        let mut r = String::new();
        let mut k: usize = 0;
        while k < shown
            invariant
                k <= shown,
                r@ == Seq::new(k as nat, |i: int| '*'),
            decreases shown - k,
        {
            push_char(&mut r, '*');
            k = k + 1;
            assert(r@ =~= Seq::new(k as nat, |i: int| '*'));
        }
        r
    }

    /// Whether the key input is shown.
    pub fn is_api_key_input(&self) -> (b: bool)
        ensures
            b == (self.screen() == PickerScreen::ApiKey),
    {
        match self.stage {
            TranslatorPickerStage::OpenAiApiKey { .. } => true,
            _ => false,
        }
    }

    /// Types one character into the key input (nothing elsewhere).
    pub fn push_api_key_char(&mut self, character: char)
        ensures
            final(self).screen() == old(self).screen(),
            final(self).selected_spec() == old(self).selected_spec(),
            final(self).has_key_spec() == old(self).has_key_spec(),
            final(self).root_spec() == old(self).root_spec(),
            final(self).from_list_spec() == old(self).from_list_spec(),
            final(self).typed_key() == (if old(self).screen() == PickerScreen::ApiKey {
                old(self).typed_key().push(character)
            } else {
                old(self).typed_key()
            }),
    {
        match &mut self.stage {
            TranslatorPickerStage::OpenAiApiKey { value } => {
                push_char(value, character);
            },
            _ => {},
        }
    }

    /// Pastes text into the key input, without its control characters
    /// (nothing elsewhere).
    pub fn push_api_key_text(&mut self, text: &str)
        ensures
            final(self).screen() == old(self).screen(),
            final(self).selected_spec() == old(self).selected_spec(),
            final(self).has_key_spec() == old(self).has_key_spec(),
            final(self).root_spec() == old(self).root_spec(),
            final(self).from_list_spec() == old(self).from_list_spec(),
            final(self).typed_key() == (if old(self).screen() == PickerScreen::ApiKey {
                old(self).typed_key() + text@.filter(|c: char| !spec_is_control(c))
            } else {
                old(self).typed_key()
            }),
    {
        match &mut self.stage {
            TranslatorPickerStage::OpenAiApiKey { value } => {
                let v = chars_of(text);
                let ghost p = |c: char| !spec_is_control(c);
                let ghost start = value@;
                let mut i: usize = 0;
                assert(v@.take(0).filter(p) =~= Seq::<char>::empty());
                assert(value@ =~= start + v@.take(0).filter(p));
                while i < v.len()
                    invariant
                        p == (|c: char| !spec_is_control(c)),
                        v@ == text@,
                        i <= v@.len(),
                        value@ == start + v@.take(i as int).filter(p),
                    decreases v.len() - i,
                {
                    let c = v[i];
                    proof {
                        assert(v@.take(i + 1) =~= v@.take(i as int).push(c));
                        v@.take(i as int).lemma_filter_push(c, p);
                    }
                    if !is_control(c) {
                        push_char(value, c);
                    }
                    i = i + 1;
                }
                assert(v@.take(i as int) =~= v@);
            },
            _ => {},
        }
    }

    /// Deletes the last typed character of the key (nothing elsewhere).
    pub fn pop_api_key_char(&mut self)
        ensures
            final(self).screen() == old(self).screen(),
            final(self).selected_spec() == old(self).selected_spec(),
            final(self).has_key_spec() == old(self).has_key_spec(),
            final(self).root_spec() == old(self).root_spec(),
            final(self).from_list_spec() == old(self).from_list_spec(),
            final(self).typed_key() == (if old(self).screen() == PickerScreen::ApiKey
                && old(self).typed_key().len() > 0 {
                old(self).typed_key().drop_last()
            } else {
                old(self).typed_key()
            }),
    {
        match &mut self.stage {
            TranslatorPickerStage::OpenAiApiKey { value } => {
                let v = chars_of(value.as_str());
                if v.len() > 0 {
                    let kept = crate::text::string_from_range(&v, 0, v.len() - 1);
                    assert(kept@ =~= v@.drop_last());
                    *value = kept;
                }
            },
            _ => {},
        }
    }
}

} // verus!
