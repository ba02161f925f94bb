//! Default font families: which family stands for each generic kind of font.
use vstd::prelude::*;

verus! {

/// A generic kind of font.
#[derive(Clone, Copy, Debug, PartialEq, Eq)]
pub enum DefaultFamily {
    SansSerif,
    Serif,
    Monospace,
    UiFont,
    CodeFont,
    TerminalFont,
}

/// The fontconfig family name that a generic kind of font is looked up by.
pub open spec fn fc_family_name(f: DefaultFamily) -> Seq<char> {
    match f {
        DefaultFamily::SansSerif | DefaultFamily::UiFont => "sans-serif"@,
        DefaultFamily::Serif => "serif"@,
        DefaultFamily::Monospace | DefaultFamily::CodeFont | DefaultFamily::TerminalFont => "monospace"@,
    }
}

impl DefaultFamily {
    pub fn get_fc_family_name(&self) -> (n: &'static str)
        ensures
            n@ == fc_family_name(*self),
    {
        match self {
            Self::SansSerif | Self::UiFont => "sans-serif",
            Self::Serif => "serif",
            Self::Monospace | Self::CodeFont | Self::TerminalFont => "monospace",
        }
    }
}

/// A font family does not exist.
#[derive(Clone, Copy, Debug, Default, PartialEq, Eq, Hash)]
pub struct FontFamilyNotExist;

/// The family chosen for each generic kind of font, if any.
#[derive(Clone, Debug, Default)]
pub struct DefaultFontTable {
    sans_serif: Option<String>,
    serif: Option<String>,
    monospace: Option<String>,
    ui_font: Option<String>,
    code_font: Option<String>,
    terminal_font: Option<String>,
}

pub open spec fn opt_view(o: Option<String>) -> Option<Seq<char>> {
    match o {
        Some(s) => Some(s@),
        None => None,
    }
}

impl DefaultFontTable {
    /// The family chosen for `f`.
    pub closed spec fn family(&self, f: DefaultFamily) -> Option<Seq<char>> {
        opt_view(
            match f {
                DefaultFamily::SansSerif => self.sans_serif,
                DefaultFamily::Serif => self.serif,
                DefaultFamily::Monospace => self.monospace,
                DefaultFamily::UiFont => self.ui_font,
                DefaultFamily::CodeFont => self.code_font,
                DefaultFamily::TerminalFont => self.terminal_font,
            },
        )
    }

    /// A table with no family chosen.
    pub fn new() -> (t: Self)
        ensures
            forall|f: DefaultFamily| t.family(f) is None,
    {
        DefaultFontTable {
            sans_serif: None,
            serif: None,
            monospace: None,
            ui_font: None,
            code_font: None,
            terminal_font: None,
        }
    }

    /// Chooses `family` for `family_type`; returns the family chosen before.
    pub fn set_default_family(&mut self, family_type: DefaultFamily, family: String) -> (r: Option<
        String,
    >)
        ensures
            opt_view(r) == old(self).family(family_type),
            final(self).family(family_type) == Some(family@),
            forall|f: DefaultFamily| f != family_type ==> final(self).family(f) == old(self).family(f),
    {
        let family_ref = match family_type {
            DefaultFamily::SansSerif => &mut self.sans_serif,
            DefaultFamily::Serif => &mut self.serif,
            DefaultFamily::Monospace => &mut self.monospace,
            DefaultFamily::UiFont => &mut self.ui_font,
            DefaultFamily::CodeFont => &mut self.code_font,
            DefaultFamily::TerminalFont => &mut self.terminal_font,
        };
        let result = family_ref.take();
        *family_ref = Some(family);
        result
    }

    /// The family chosen for `family_type`.
    pub fn default_family(&self, family_type: DefaultFamily) -> (r: Option<&String>)
        ensures
            match r {
                Some(s) => self.family(family_type) == Some(s@),
                None => self.family(family_type) is None,
            },
    {
        match family_type {
            DefaultFamily::SansSerif => self.sans_serif.as_ref(),
            DefaultFamily::Serif => self.serif.as_ref(),
            DefaultFamily::Monospace => self.monospace.as_ref(),
            DefaultFamily::UiFont => self.ui_font.as_ref(),
            DefaultFamily::CodeFont => self.code_font.as_ref(),
            DefaultFamily::TerminalFont => self.terminal_font.as_ref(),
        }
    }
}

} // verus!
