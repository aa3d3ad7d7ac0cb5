//! This module contains the logic for fzf configuration

use fzf_wrapped::{Border, Layout};
use crate::text::lower_of;
use vstd::prelude::*;

verus! {

#[verifier::external_type_specification]
pub struct ExLayout(Layout);

#[verifier::external_type_specification]
pub struct ExBorder(Border);

/// The layout that fzf_wrapped gives to an already lowercased name
pub open spec fn layout_named(s: Seq<char>) -> Layout {
    if s == "default"@ {
        Layout::Default
    } else if s == "reverse"@ {
        Layout::Reverse
    } else if s == "reverse-list"@ {
        Layout::ReverseList
    } else {
        Layout::Default
    }
}

/// Relies on `<fzf_wrapped::Layout as From<String>>::from`: it lowercases the
/// name, maps `default`, `reverse` and `reverse-list` to their variants and
/// every other name to `Layout::Default`.
#[verifier::external_body]
fn layout_from(name: String) -> (r: Layout)
    ensures
        r == layout_named(lower_of(name@)),
{
    Layout::from(name)
}


/// The border that fzf_wrapped gives to an already lowercased name
pub open spec fn border_named(s: Seq<char>) -> Border {
    if s == "none"@ {
        Border::None
    } else if s == "rounded"@ {
        Border::Rounded
    } else if s == "sharp"@ {
        Border::Sharp
    } else if s == "horizontal"@ {
        Border::Horizontal
    } else if s == "vertical"@ {
        Border::Vertical
    } else if s == "top"@ {
        Border::Top
    } else if s == "bottom"@ {
        Border::Bottom
    } else if s == "left"@ {
        Border::Left
    } else if s == "right"@ {
        Border::Right
    } else {
        Border::None
    }
}

/// Whether fzf_wrapped knows an already lowercased border name
pub open spec fn is_border_name(s: Seq<char>) -> bool {
    ||| s == "none"@
    ||| s == "rounded"@
    ||| s == "sharp"@
    ||| s == "horizontal"@
    ||| s == "vertical"@
    ||| s == "top"@
    ||| s == "bottom"@
    ||| s == "left"@
    ||| s == "right"@
}

/// Whether fzf_wrapped knows an already lowercased layout name
pub open spec fn is_layout_name(s: Seq<char>) -> bool {
    ||| s == "default"@
    ||| s == "reverse"@
    ||| s == "reverse-list"@
}

/// Relies on `<fzf_wrapped::Border as From<String>>::from`: it lowercases the
/// name, maps each of the nine border names to its variant and every other
/// name to `Border::None`.
#[verifier::external_body]
fn border_from(name: String) -> (r: Border)
    ensures
        r == border_named(lower_of(name@)),
{
    Border::from(name)
}

/// The label shown in the border when none is configured
pub const DEFAULT_BORDER_LABEL: &'static str = "";

/// The default prompt fzf will show when opening a project
pub const DEFAULT_OPEN_PROMPT: &'static str = "Open: ";

/// The `[fzf]` section of the configuration.
///
/// Each field holds the raw value as written, or `None` where the key is
/// absent; the accessors resolve them, falling back to the defaults.
#[derive(Debug, Clone, PartialEq, Eq)]
pub struct FzfConfig {
    /// What layout fzf should use
    ///
    /// Default: `default`
    layout: Option<String>,
    /// What border fzf should use
    ///
    /// Default: `none`
    border: Option<String>,
    /// What label should be shown in the border, requires border to not be none
    ///
    /// Default: `""`
    border_label: Option<String>,
    /// The prompt fzf should display when opening a project
    ///
    /// Default: `Open: `
    open_prompt: Option<String>,
}

/// The text of an optional string, or `default` where it is absent
pub open spec fn or_default(o: Option<String>, default: Seq<char>) -> Seq<char> {
    match o {
        Some(s) => s@,
        None => default,
    }
}

impl FzfConfig {
    /// Whether every key is absent
    pub open spec fn spec_is_empty(self) -> bool {
        &&& self.spec_raw_layout() is None
        &&& self.spec_raw_border() is None
        &&& self.spec_raw_border_label() is None
        &&& self.spec_raw_open_prompt() is None
    }

    /// The resolved layout, as a function of the raw field
    pub open spec fn spec_layout(self) -> Layout {
        match self.spec_raw_layout() {
            Some(l) => layout_named(lower_of(l@)),
            None => Layout::Default,
        }
    }

    /// The resolved border label
    pub open spec fn spec_border_label(self) -> Seq<char> {
        or_default(self.spec_raw_border_label(), DEFAULT_BORDER_LABEL@)
    }

    /// The resolved open prompt
    pub open spec fn spec_open_prompt(self) -> Seq<char> {
        or_default(self.spec_raw_open_prompt(), DEFAULT_OPEN_PROMPT@)
    }

    /// The resolved border, as a function of the raw field
    pub open spec fn spec_border(self) -> Border {
        match self.spec_raw_border() {
            Some(b) => border_named(lower_of(b@)),
            None => Border::None,
        }
    }

    /// The raw `layout` key
    pub closed spec fn spec_raw_layout(self) -> Option<String> {
        self.layout
    }

    /// The raw `border` key
    pub closed spec fn spec_raw_border(self) -> Option<String> {
        self.border
    }

    /// The raw `border_label` key
    pub closed spec fn spec_raw_border_label(self) -> Option<String> {
        self.border_label
    }

    /// The raw `open_prompt` key
    pub closed spec fn spec_raw_open_prompt(self) -> Option<String> {
        self.open_prompt
    }

    /// A copy of this section, equal to it
    pub fn duplicate(&self) -> (r: FzfConfig)
        ensures
            r == *self,
    {
        FzfConfig { layout: self.layout.clone(), border: self.border.clone(), border_label: self.border_label.clone(), open_prompt: self.open_prompt.clone() }
    }

    /// A section with the given raw values, `None` for an absent key
    pub fn new(
        layout: Option<String>,
        border: Option<String>,
        border_label: Option<String>,
        open_prompt: Option<String>,
    ) -> (r: FzfConfig)
        ensures
            r.spec_raw_layout() == layout,
            r.spec_raw_border() == border,
            r.spec_raw_border_label() == border_label,
            r.spec_raw_open_prompt() == open_prompt,
    {
        FzfConfig { layout, border, border_label, open_prompt }
    }

    /// An empty section: every key absent
    pub fn empty() -> (r: FzfConfig)
        ensures
            r.spec_is_empty(),
    {
        FzfConfig { layout: None, border: None, border_label: None, open_prompt: None }
    }

    /// The layout as written in the configuration, if any
    pub fn raw_layout(&self) -> (r: Option<String>)
        ensures
            r == self.spec_raw_layout(),
    {
        self.layout.clone()
    }

    /// The border as written in the configuration, if any
    pub fn raw_border(&self) -> (r: Option<String>)
        ensures
            r == self.spec_raw_border(),
    {
        self.border.clone()
    }

    /// The border label as written in the configuration, if any
    pub fn raw_border_label(&self) -> (r: Option<String>)
        ensures
            r == self.spec_raw_border_label(),
    {
        self.border_label.clone()
    }

    /// The open prompt as written in the configuration, if any
    pub fn raw_open_prompt(&self) -> (r: Option<String>)
        ensures
            r == self.spec_raw_open_prompt(),
    {
        self.open_prompt.clone()
    }

    /// What layout fzf should use
    ///
    /// Default: `default`
    pub fn layout(&self) -> (r: Layout)
        ensures
            r == self.spec_layout(),
    {
        match &self.layout {
            Some(layout) => layout_from(layout.clone()),
            None => Layout::Default,
        }
    }

    /// What border fzf should use
    ///
    /// Default: `none`
    pub fn border(&self) -> (r: Border)
        ensures
            r == self.spec_border(),
    {
        match &self.border {
            Some(border) => border_from(border.clone()),
            None => Border::None,
        }
    }

    /// What label should be shown in the border, requires border to not be none
    ///
    /// Default: `""`
    pub fn border_label(&self) -> (r: String)
        ensures
            r@ == self.spec_border_label(),
    {
        match &self.border_label {
            Some(label) => label.clone(),
            None => String::from_str(DEFAULT_BORDER_LABEL),
        }
    }

    /// The default prompt fzf will show when opening a project
    pub fn open_prompt(&self) -> (r: String)
        ensures
            r@ == self.spec_open_prompt(),
    {
        match &self.open_prompt {
            Some(prompt) => prompt.clone(),
            None => String::from_str(DEFAULT_OPEN_PROMPT),
        }
    }
}

} // verus!
