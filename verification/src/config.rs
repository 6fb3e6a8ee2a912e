//! The settings of the switcher and the rules by which windows are
//! labelled and installations are told apart.

use vstd::prelude::*;
use vstd::string::StringExecFns;
use crate::text::{capitalize_first, capitalized, trim, trimmed};

verus! {

/// The columns of the grid unless the settings say otherwise.
pub const DEFAULT_MAX_COLUMNS: usize = 6;

/// How the grid of windows is laid out.
#[derive(Debug, Clone, Copy, PartialEq, Eq, Structural)]
pub struct DisplayConfig {
    pub max_columns: usize,
}

impl Default for DisplayConfig {
    fn default() -> (config: DisplayConfig)
        ensures
            config.max_columns == DEFAULT_MAX_COLUMNS,
    {
        DisplayConfig { max_columns: DEFAULT_MAX_COLUMNS }
    }
}

/// Which parts a window's label shows.
#[derive(Debug, Clone, Copy, PartialEq, Eq, Structural)]
pub struct LabelConfig {
    pub show_app_name: bool,
    pub show_window_title: bool,
}

impl Default for LabelConfig {
    fn default() -> (config: LabelConfig)
        ensures
            config.show_app_name,
            config.show_window_title,
    {
        LabelConfig { show_app_name: true, show_window_title: true }
    }
}

impl LabelConfig {
    /// The label of a window: the capitalized application name and the
    /// title, joined by a dash, each only where it is wanted and not
    /// empty.
    pub open spec fn label(self, app_name: Seq<char>, title: Seq<char>) -> Seq<char> {
        let show_app = self.show_app_name && app_name.len() > 0;
        let show_title = self.show_window_title && title.len() > 0;
        if show_app && show_title {
            capitalized(app_name) + " - "@ + title
        } else if show_app {
            capitalized(app_name)
        } else if show_title {
            title
        } else {
            Seq::<char>::empty()
        }
    }

    /// Writes the label of a window.
    pub fn format(&self, app_name: &str, title: &str) -> (label: String)
        ensures
            label@ == self.label(app_name@, title@),
    {
        let show_app = self.show_app_name && !app_name.is_empty();
        let show_title = self.show_window_title && !title.is_empty();
        if show_app && show_title {
            let mut label = capitalize_first(app_name);
            label.append(" - ");
            label.append(title);
            label
        } else if show_app {
            capitalize_first(app_name)
        } else if show_title {
            title.to_owned()
        } else {
            let label = String::new();
            assert(label@ =~= Seq::<char>::empty());
            label
        }
    }
}

/// What ends a selection.
#[derive(Debug, Clone, Copy, PartialEq, Eq, Structural)]
pub enum ActionMode {
    /// The picker stays until a window is chosen.
    Sticky,
    /// Releasing the modifier chooses the selected window.
    HoldToSwitch,
}

impl Default for ActionMode {
    fn default() -> (mode: ActionMode)
        ensures
            mode == ActionMode::HoldToSwitch,
    {
        ActionMode::HoldToSwitch
    }
}

/// What opening the picker does to the selection.
#[derive(Debug, Clone, Copy, PartialEq, Eq, Structural)]
pub enum OpenBehavior {
    /// Opening moves the selection on by one window.
    CycleOnce,
    /// Opening only shows the picker.
    ShowOnly,
}

impl Default for OpenBehavior {
    fn default() -> (behavior: OpenBehavior)
        ensures
            behavior == OpenBehavior::CycleOnce,
    {
        OpenBehavior::CycleOnce
    }
}

/// The settings of the switcher.
#[derive(Debug, Clone, Copy, PartialEq, Eq, Structural)]
pub struct AltTabConfig {
    pub display: DisplayConfig,
    pub action_mode: ActionMode,
    pub reset_selection_on_open: bool,
    pub open_behavior: OpenBehavior,
    pub label: LabelConfig,
}

/// Whether the selection starts over when the picker opens, unless the
/// settings say otherwise.
pub fn default_reset_selection_on_open() -> (reset: bool)
    ensures
        reset,
{
    true
}

impl Default for AltTabConfig {
    fn default() -> (config: AltTabConfig)
        ensures
            config == (AltTabConfig {
                display: DisplayConfig { max_columns: DEFAULT_MAX_COLUMNS },
                action_mode: ActionMode::HoldToSwitch,
                reset_selection_on_open: true,
                open_behavior: OpenBehavior::CycleOnce,
                label: LabelConfig { show_app_name: true, show_window_title: true },
            }),
    {
        AltTabConfig {
            display: DisplayConfig::default(),
            action_mode: ActionMode::default(),
            reset_selection_on_open: default_reset_selection_on_open(),
            open_behavior: OpenBehavior::default(),
            label: LabelConfig::default(),
        }
    }
}

/// The longest identifier that an installation may have.
pub const MAX_INSTALL_ID_LEN: usize = 64;

/// A character that an installation's identifier may hold: an ASCII
/// letter or digit, a hyphen or an underscore.
pub open spec fn is_install_id_char(c: char) -> bool {
    ||| 'a' <= c <= 'z'
    ||| 'A' <= c <= 'Z'
    ||| '0' <= c <= '9'
    ||| c == '-'
    ||| c == '_'
}

/// An identifier is valid when it holds between one and sixty-four
/// characters, all of them allowed.
pub open spec fn is_valid_install_id(value: Seq<char>) -> bool {
    &&& 0 < value.len() <= MAX_INSTALL_ID_LEN
    &&& forall|i: int| 0 <= i < value.len() ==> is_install_id_char(#[trigger] value[i])
}

fn install_id_char(c: char) -> (ok: bool)
    ensures
        ok == is_install_id_char(c),
{
    ('a' <= c && c <= 'z') || ('A' <= c && c <= 'Z') || ('0' <= c && c <= '9') || c == '-' || c
        == '_'
}

/// Whether the text can be the identifier of an installation.
pub fn valid_install_id(value: &str) -> (valid: bool)
    ensures
        valid == is_valid_install_id(value@),
{
    let len = value.unicode_len();
    if len == 0 || len > MAX_INSTALL_ID_LEN {
        return false;
    }
    let mut i: usize = 0;
    while i < len
        invariant
            len == value@.len(),
            i <= len,
            forall|k: int| 0 <= k < i ==> is_install_id_char(#[trigger] value@[k]),
        decreases len - i,
    {
        if !install_id_char(value.get_char(i)) {
            return false;
        }
        i += 1;
    }
    true
}

/// The identifier that a raw setting names: the setting without the
/// white space around it, if that is a valid identifier.
pub fn install_id_from(raw: &str) -> (id: Option<String>)
    ensures
        id is Some <==> is_valid_install_id(trimmed(raw@)),
        id matches Some(text) ==> text@ == trimmed(raw@),
{
    let text = trim(raw);
    if valid_install_id(text) {
        Some(text.to_owned())
    } else {
        None
    }
}

} // verus!
