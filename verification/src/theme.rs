//! The colour themes that the front-end offers, by name.

use vstd::prelude::*;

verus! {

/// A colour theme.
#[derive(Debug, Clone, Copy, PartialEq, Eq, Structural)]
pub enum Theme {
    Catppuccin,
    Dracula,
    Nord,
    Gruvbox,
    TokyoNight,
    Monokai,
    Ocean,
    Sunset,
}

/// The themes in the order in which they are offered.
pub open spec fn all_themes() -> Seq<Theme> {
    seq![
        Theme::Catppuccin,
        Theme::Dracula,
        Theme::Nord,
        Theme::Gruvbox,
        Theme::TokyoNight,
        Theme::Monokai,
        Theme::Ocean,
        Theme::Sunset,
    ]
}

impl Default for Theme {
    fn default() -> (r: Self)
        ensures
            r == Theme::Catppuccin,
    {
        Theme::Catppuccin
    }
}

impl Theme {
    /// The place of the theme in [`all_themes`].
    pub open spec fn position(self) -> int {
        match self {
            Theme::Catppuccin => 0,
            Theme::Dracula => 1,
            Theme::Nord => 2,
            Theme::Gruvbox => 3,
            Theme::TokyoNight => 4,
            Theme::Monokai => 5,
            Theme::Ocean => 6,
            Theme::Sunset => 7,
        }
    }

    /// The name under which the theme is shown.
    pub open spec fn name_text(self) -> Seq<char> {
        match self {
            Theme::Catppuccin => "Catppuccin Mocha"@,
            Theme::Dracula => "Dracula"@,
            Theme::Nord => "Nord"@,
            Theme::Gruvbox => "Gruvbox Dark"@,
            Theme::TokyoNight => "Tokyo Night"@,
            Theme::Monokai => "Monokai Pro"@,
            Theme::Ocean => "Ocean Deep"@,
            Theme::Sunset => "Sunset Glow"@,
        }
    }

    /// The name under which the theme stands in the configuration.
    pub open spec fn slug_text(self) -> Seq<char> {
        match self {
            Theme::Catppuccin => "catppuccin"@,
            Theme::Dracula => "dracula"@,
            Theme::Nord => "nord"@,
            Theme::Gruvbox => "gruvbox"@,
            Theme::TokyoNight => "tokyonight"@,
            Theme::Monokai => "monokai"@,
            Theme::Ocean => "ocean"@,
            Theme::Sunset => "sunset"@,
        }
    }

    /// The name under which the theme stands in the configuration.
    pub fn slug(&self) -> (r: &'static str)
        ensures
            r@ == self.slug_text(),
    {
        match self {
            Theme::Catppuccin => "catppuccin",
            Theme::Dracula => "dracula",
            Theme::Nord => "nord",
            Theme::Gruvbox => "gruvbox",
            Theme::TokyoNight => "tokyonight",
            Theme::Monokai => "monokai",
            Theme::Ocean => "ocean",
            Theme::Sunset => "sunset",
        }
    }

    /// The place of the theme among all themes.
    pub fn index(&self) -> (r: usize)
        ensures
            r == self.position(),
    {
        match self {
            Theme::Catppuccin => 0,
            Theme::Dracula => 1,
            Theme::Nord => 2,
            Theme::Gruvbox => 3,
            Theme::TokyoNight => 4,
            Theme::Monokai => 5,
            Theme::Ocean => 6,
            Theme::Sunset => 7,
        }
    }

    /// The theme at the place `i` among all themes.
    pub fn at(i: usize) -> (r: Theme)
        requires
            i < 8,
        ensures
            r == all_themes()[i as int],
    {
        if i == 0 {
            Theme::Catppuccin
        } else if i == 1 {
            Theme::Dracula
        } else if i == 2 {
            Theme::Nord
        } else if i == 3 {
            Theme::Gruvbox
        } else if i == 4 {
            Theme::TokyoNight
        } else if i == 5 {
            Theme::Monokai
        } else if i == 6 {
            Theme::Ocean
        } else {
            Theme::Sunset
        }
    }

    /// Every theme, in the order in which they are offered.
    pub fn all() -> (r: [Theme; 8])
        ensures
            r@ == all_themes(),
    {
        let r = [
            Theme::Catppuccin,
            Theme::Dracula,
            Theme::Nord,
            Theme::Gruvbox,
            Theme::TokyoNight,
            Theme::Monokai,
            Theme::Ocean,
            Theme::Sunset,
        ];
        assert(r@ =~= all_themes());
        r
    }

    /// The theme that follows this one; the first follows the last.
    pub fn next(&self) -> (r: Theme)
        ensures
            r == all_themes()[(self.position() + 1) % 8],
    {
        match self {
            Theme::Catppuccin => Theme::Dracula,
            Theme::Dracula => Theme::Nord,
            Theme::Nord => Theme::Gruvbox,
            Theme::Gruvbox => Theme::TokyoNight,
            Theme::TokyoNight => Theme::Monokai,
            Theme::Monokai => Theme::Ocean,
            Theme::Ocean => Theme::Sunset,
            Theme::Sunset => Theme::Catppuccin,
        }
    }

    /// The name under which the theme is shown.
    pub fn name(&self) -> (r: &'static str)
        ensures
            r@ == self.name_text(),
    {
        match self {
            Theme::Catppuccin => "Catppuccin Mocha",
            Theme::Dracula => "Dracula",
            Theme::Nord => "Nord",
            Theme::Gruvbox => "Gruvbox Dark",
            Theme::TokyoNight => "Tokyo Night",
            Theme::Monokai => "Monokai Pro",
            Theme::Ocean => "Ocean Deep",
            Theme::Sunset => "Sunset Glow",
        }
    }

    /// The theme to start with: always the default one.
    pub fn load() -> (r: Theme)
        ensures
            r == Theme::Catppuccin,
    {
        Theme::Catppuccin
    }
}

/// Every theme has its place among all themes: [`Theme::position`] is the
/// index at which [`all_themes`] holds it.
pub proof fn law_themes_have_their_places(t: Theme)
    ensures
        0 <= t.position() < 8,
        all_themes().len() == 8,
        all_themes()[t.position()] == t,
{
}

/// A colour, by its parts of red, green and blue.
#[derive(Debug, Clone, Copy, PartialEq, Eq, Structural)]
pub struct Rgb {
    pub r: u8,
    pub g: u8,
    pub b: u8,
}

/// How a piece of text is drawn.
#[derive(Debug, Clone, Copy, PartialEq, Eq, Structural)]
pub struct Style {
    /// The colour of the text, where one is set.
    pub fg: Option<Rgb>,
    /// The colour of the background, where one is set.
    pub bg: Option<Rgb>,
    /// Whether the text is bold.
    pub bold: bool,
}

/// The colours of a theme.
#[derive(Debug, Clone, Copy, PartialEq, Eq, Structural)]
pub struct ThemeColors {
    /// The background.
    pub bg: Rgb,
    /// The background of panels.
    pub bg_secondary: Rgb,
    /// The background of what is highlighted.
    pub bg_highlight: Rgb,
    /// The text.
    pub fg: Rgb,
    /// Text that is dimmed.
    pub fg_dim: Rgb,
    /// Text that is muted.
    pub fg_muted: Rgb,
    /// The first accent.
    pub primary: Rgb,
    /// The second accent.
    pub secondary: Rgb,
    /// The third accent.
    pub accent: Rgb,
    /// What went well.
    pub success: Rgb,
    /// What warns.
    pub warning: Rgb,
    /// What failed.
    pub error: Rgb,
    /// What informs.
    pub info: Rgb,
    /// The borders.
    pub border: Rgb,
    /// The border of what has the focus.
    pub border_focus: Rgb,
    /// The background of the selected item.
    pub selection: Rgb,
    /// The first colour of the logo.
    pub logo_primary: Rgb,
    /// The second colour of the logo.
    pub logo_secondary: Rgb,
}

/// Text in the colour `c`.
pub open spec fn plain(c: Rgb) -> Style {
    Style { fg: Some(c), bg: None, bold: false }
}

/// Bold text in the colour `c`.
pub open spec fn bold(c: Rgb) -> Style {
    Style { fg: Some(c), bg: None, bold: true }
}

/// The colours of the theme [`Theme::Catppuccin`].
pub open spec fn catppuccin_colors() -> ThemeColors {
    ThemeColors {
        bg: Rgb { r: 30, g: 30, b: 46 },
        bg_secondary: Rgb { r: 49, g: 50, b: 68 },
        bg_highlight: Rgb { r: 69, g: 71, b: 90 },
        fg: Rgb { r: 205, g: 214, b: 244 },
        fg_dim: Rgb { r: 166, g: 173, b: 200 },
        fg_muted: Rgb { r: 108, g: 112, b: 134 },
        primary: Rgb { r: 137, g: 180, b: 250 },
        secondary: Rgb { r: 180, g: 190, b: 254 },
        accent: Rgb { r: 245, g: 194, b: 231 },
        success: Rgb { r: 166, g: 227, b: 161 },
        warning: Rgb { r: 249, g: 226, b: 175 },
        error: Rgb { r: 243, g: 139, b: 168 },
        info: Rgb { r: 148, g: 226, b: 213 },
        border: Rgb { r: 69, g: 71, b: 90 },
        border_focus: Rgb { r: 137, g: 180, b: 250 },
        selection: Rgb { r: 88, g: 91, b: 112 },
        logo_primary: Rgb { r: 203, g: 166, b: 247 },
        logo_secondary: Rgb { r: 137, g: 180, b: 250 },
    }
}

/// The colours of the theme [`Theme::Dracula`].
pub open spec fn dracula_colors() -> ThemeColors {
    ThemeColors {
        bg: Rgb { r: 40, g: 42, b: 54 },
        bg_secondary: Rgb { r: 68, g: 71, b: 90 },
        bg_highlight: Rgb { r: 98, g: 114, b: 164 },
        fg: Rgb { r: 248, g: 248, b: 242 },
        fg_dim: Rgb { r: 189, g: 147, b: 249 },
        fg_muted: Rgb { r: 98, g: 114, b: 164 },
        primary: Rgb { r: 189, g: 147, b: 249 },
        secondary: Rgb { r: 139, g: 233, b: 253 },
        accent: Rgb { r: 255, g: 121, b: 198 },
        success: Rgb { r: 80, g: 250, b: 123 },
        warning: Rgb { r: 241, g: 250, b: 140 },
        error: Rgb { r: 255, g: 85, b: 85 },
        info: Rgb { r: 139, g: 233, b: 253 },
        border: Rgb { r: 68, g: 71, b: 90 },
        border_focus: Rgb { r: 189, g: 147, b: 249 },
        selection: Rgb { r: 68, g: 71, b: 90 },
        logo_primary: Rgb { r: 255, g: 121, b: 198 },
        logo_secondary: Rgb { r: 189, g: 147, b: 249 },
    }
}

/// The colours of the theme [`Theme::Nord`].
pub open spec fn nord_colors() -> ThemeColors {
    ThemeColors {
        bg: Rgb { r: 46, g: 52, b: 64 },
        bg_secondary: Rgb { r: 59, g: 66, b: 82 },
        bg_highlight: Rgb { r: 67, g: 76, b: 94 },
        fg: Rgb { r: 236, g: 239, b: 244 },
        fg_dim: Rgb { r: 216, g: 222, b: 233 },
        fg_muted: Rgb { r: 76, g: 86, b: 106 },
        primary: Rgb { r: 136, g: 192, b: 208 },
        secondary: Rgb { r: 129, g: 161, b: 193 },
        accent: Rgb { r: 180, g: 142, b: 173 },
        success: Rgb { r: 163, g: 190, b: 140 },
        warning: Rgb { r: 235, g: 203, b: 139 },
        error: Rgb { r: 191, g: 97, b: 106 },
        info: Rgb { r: 136, g: 192, b: 208 },
        border: Rgb { r: 59, g: 66, b: 82 },
        border_focus: Rgb { r: 136, g: 192, b: 208 },
        selection: Rgb { r: 67, g: 76, b: 94 },
        logo_primary: Rgb { r: 136, g: 192, b: 208 },
        logo_secondary: Rgb { r: 163, g: 190, b: 140 },
    }
}

/// The colours of the theme [`Theme::Gruvbox`].
pub open spec fn gruvbox_colors() -> ThemeColors {
    ThemeColors {
        bg: Rgb { r: 40, g: 40, b: 40 },
        bg_secondary: Rgb { r: 60, g: 56, b: 54 },
        bg_highlight: Rgb { r: 80, g: 73, b: 69 },
        fg: Rgb { r: 235, g: 219, b: 178 },
        fg_dim: Rgb { r: 213, g: 196, b: 161 },
        fg_muted: Rgb { r: 146, g: 131, b: 116 },
        primary: Rgb { r: 131, g: 165, b: 152 },
        secondary: Rgb { r: 184, g: 187, b: 38 },
        accent: Rgb { r: 211, g: 134, b: 155 },
        success: Rgb { r: 152, g: 151, b: 26 },
        warning: Rgb { r: 250, g: 189, b: 47 },
        error: Rgb { r: 251, g: 73, b: 52 },
        info: Rgb { r: 131, g: 165, b: 152 },
        border: Rgb { r: 80, g: 73, b: 69 },
        border_focus: Rgb { r: 250, g: 189, b: 47 },
        selection: Rgb { r: 80, g: 73, b: 69 },
        logo_primary: Rgb { r: 254, g: 128, b: 25 },
        logo_secondary: Rgb { r: 250, g: 189, b: 47 },
    }
}

/// The colours of the theme [`Theme::TokyoNight`].
pub open spec fn tokyo_night_colors() -> ThemeColors {
    ThemeColors {
        bg: Rgb { r: 26, g: 27, b: 38 },
        bg_secondary: Rgb { r: 36, g: 40, b: 59 },
        bg_highlight: Rgb { r: 41, g: 46, b: 66 },
        fg: Rgb { r: 192, g: 202, b: 245 },
        fg_dim: Rgb { r: 169, g: 177, b: 214 },
        fg_muted: Rgb { r: 86, g: 95, b: 137 },
        primary: Rgb { r: 122, g: 162, b: 247 },
        secondary: Rgb { r: 187, g: 154, b: 247 },
        accent: Rgb { r: 255, g: 158, b: 100 },
        success: Rgb { r: 158, g: 206, b: 106 },
        warning: Rgb { r: 224, g: 175, b: 104 },
        error: Rgb { r: 247, g: 118, b: 142 },
        info: Rgb { r: 125, g: 207, b: 255 },
        border: Rgb { r: 41, g: 46, b: 66 },
        border_focus: Rgb { r: 122, g: 162, b: 247 },
        selection: Rgb { r: 52, g: 59, b: 88 },
        logo_primary: Rgb { r: 187, g: 154, b: 247 },
        logo_secondary: Rgb { r: 122, g: 162, b: 247 },
    }
}

/// The colours of the theme [`Theme::Monokai`].
pub open spec fn monokai_colors() -> ThemeColors {
    ThemeColors {
        bg: Rgb { r: 45, g: 42, b: 46 },
        bg_secondary: Rgb { r: 55, g: 52, b: 56 },
        bg_highlight: Rgb { r: 73, g: 72, b: 62 },
        fg: Rgb { r: 252, g: 252, b: 250 },
        fg_dim: Rgb { r: 199, g: 199, b: 199 },
        fg_muted: Rgb { r: 117, g: 113, b: 94 },
        primary: Rgb { r: 102, g: 217, b: 239 },
        secondary: Rgb { r: 174, g: 129, b: 255 },
        accent: Rgb { r: 255, g: 97, b: 136 },
        success: Rgb { r: 166, g: 226, b: 46 },
        warning: Rgb { r: 230, g: 219, b: 116 },
        error: Rgb { r: 249, g: 38, b: 114 },
        info: Rgb { r: 102, g: 217, b: 239 },
        border: Rgb { r: 73, g: 72, b: 62 },
        border_focus: Rgb { r: 255, g: 97, b: 136 },
        selection: Rgb { r: 73, g: 72, b: 62 },
        logo_primary: Rgb { r: 166, g: 226, b: 46 },
        logo_secondary: Rgb { r: 102, g: 217, b: 239 },
    }
}

/// The colours of the theme [`Theme::Ocean`].
pub open spec fn ocean_colors() -> ThemeColors {
    ThemeColors {
        bg: Rgb { r: 15, g: 25, b: 40 },
        bg_secondary: Rgb { r: 25, g: 40, b: 60 },
        bg_highlight: Rgb { r: 35, g: 55, b: 80 },
        fg: Rgb { r: 220, g: 235, b: 250 },
        fg_dim: Rgb { r: 180, g: 200, b: 220 },
        fg_muted: Rgb { r: 100, g: 130, b: 160 },
        primary: Rgb { r: 80, g: 180, b: 230 },
        secondary: Rgb { r: 100, g: 220, b: 200 },
        accent: Rgb { r: 255, g: 180, b: 100 },
        success: Rgb { r: 80, g: 200, b: 150 },
        warning: Rgb { r: 255, g: 200, b: 100 },
        error: Rgb { r: 255, g: 100, b: 120 },
        info: Rgb { r: 100, g: 200, b: 255 },
        border: Rgb { r: 40, g: 60, b: 90 },
        border_focus: Rgb { r: 80, g: 180, b: 230 },
        selection: Rgb { r: 35, g: 55, b: 80 },
        logo_primary: Rgb { r: 100, g: 220, b: 200 },
        logo_secondary: Rgb { r: 80, g: 180, b: 230 },
    }
}

/// The colours of the theme [`Theme::Sunset`].
pub open spec fn sunset_colors() -> ThemeColors {
    ThemeColors {
        bg: Rgb { r: 35, g: 25, b: 35 },
        bg_secondary: Rgb { r: 50, g: 35, b: 50 },
        bg_highlight: Rgb { r: 70, g: 50, b: 70 },
        fg: Rgb { r: 255, g: 240, b: 230 },
        fg_dim: Rgb { r: 230, g: 200, b: 190 },
        fg_muted: Rgb { r: 150, g: 120, b: 130 },
        primary: Rgb { r: 255, g: 150, b: 100 },
        secondary: Rgb { r: 255, g: 120, b: 150 },
        accent: Rgb { r: 200, g: 150, b: 255 },
        success: Rgb { r: 150, g: 220, b: 130 },
        warning: Rgb { r: 255, g: 220, b: 100 },
        error: Rgb { r: 255, g: 100, b: 100 },
        info: Rgb { r: 150, g: 200, b: 255 },
        border: Rgb { r: 80, g: 60, b: 80 },
        border_focus: Rgb { r: 255, g: 150, b: 100 },
        selection: Rgb { r: 70, g: 50, b: 70 },
        logo_primary: Rgb { r: 255, g: 150, b: 100 },
        logo_secondary: Rgb { r: 255, g: 120, b: 150 },
    }
}

impl Theme {
    /// The colours of the theme.
    pub open spec fn palette(self) -> ThemeColors {
        match self {
            Theme::Catppuccin => catppuccin_colors(),
            Theme::Dracula => dracula_colors(),
            Theme::Nord => nord_colors(),
            Theme::Gruvbox => gruvbox_colors(),
            Theme::TokyoNight => tokyo_night_colors(),
            Theme::Monokai => monokai_colors(),
            Theme::Ocean => ocean_colors(),
            Theme::Sunset => sunset_colors(),
        }
    }

    /// The colours of the theme.
    pub fn colors(&self) -> (r: ThemeColors)
        ensures
            r == self.palette(),
    {
        match self {
            Theme::Catppuccin => ThemeColors::catppuccin(),
            Theme::Dracula => ThemeColors::dracula(),
            Theme::Nord => ThemeColors::nord(),
            Theme::Gruvbox => ThemeColors::gruvbox(),
            Theme::TokyoNight => ThemeColors::tokyo_night(),
            Theme::Monokai => ThemeColors::monokai(),
            Theme::Ocean => ThemeColors::ocean(),
            Theme::Sunset => ThemeColors::sunset(),
        }
    }
}

impl ThemeColors {
    /// The colours of the theme [`Theme::Catppuccin`].
    pub fn catppuccin() -> (r: Self)
        ensures
            r == catppuccin_colors(),
    {
        ThemeColors {
            bg: Rgb { r: 30, g: 30, b: 46 },
            bg_secondary: Rgb { r: 49, g: 50, b: 68 },
            bg_highlight: Rgb { r: 69, g: 71, b: 90 },
            fg: Rgb { r: 205, g: 214, b: 244 },
            fg_dim: Rgb { r: 166, g: 173, b: 200 },
            fg_muted: Rgb { r: 108, g: 112, b: 134 },
            primary: Rgb { r: 137, g: 180, b: 250 },
            secondary: Rgb { r: 180, g: 190, b: 254 },
            accent: Rgb { r: 245, g: 194, b: 231 },
            success: Rgb { r: 166, g: 227, b: 161 },
            warning: Rgb { r: 249, g: 226, b: 175 },
            error: Rgb { r: 243, g: 139, b: 168 },
            info: Rgb { r: 148, g: 226, b: 213 },
            border: Rgb { r: 69, g: 71, b: 90 },
            border_focus: Rgb { r: 137, g: 180, b: 250 },
            selection: Rgb { r: 88, g: 91, b: 112 },
            logo_primary: Rgb { r: 203, g: 166, b: 247 },
            logo_secondary: Rgb { r: 137, g: 180, b: 250 },
        }
    }

    /// The colours of the theme [`Theme::Dracula`].
    pub fn dracula() -> (r: Self)
        ensures
            r == dracula_colors(),
    {
        ThemeColors {
            bg: Rgb { r: 40, g: 42, b: 54 },
            bg_secondary: Rgb { r: 68, g: 71, b: 90 },
            bg_highlight: Rgb { r: 98, g: 114, b: 164 },
            fg: Rgb { r: 248, g: 248, b: 242 },
            fg_dim: Rgb { r: 189, g: 147, b: 249 },
            fg_muted: Rgb { r: 98, g: 114, b: 164 },
            primary: Rgb { r: 189, g: 147, b: 249 },
            secondary: Rgb { r: 139, g: 233, b: 253 },
            accent: Rgb { r: 255, g: 121, b: 198 },
            success: Rgb { r: 80, g: 250, b: 123 },
            warning: Rgb { r: 241, g: 250, b: 140 },
            error: Rgb { r: 255, g: 85, b: 85 },
            info: Rgb { r: 139, g: 233, b: 253 },
            border: Rgb { r: 68, g: 71, b: 90 },
            border_focus: Rgb { r: 189, g: 147, b: 249 },
            selection: Rgb { r: 68, g: 71, b: 90 },
            logo_primary: Rgb { r: 255, g: 121, b: 198 },
            logo_secondary: Rgb { r: 189, g: 147, b: 249 },
        }
    }

    /// The colours of the theme [`Theme::Nord`].
    pub fn nord() -> (r: Self)
        ensures
            r == nord_colors(),
    {
        ThemeColors {
            bg: Rgb { r: 46, g: 52, b: 64 },
            bg_secondary: Rgb { r: 59, g: 66, b: 82 },
            bg_highlight: Rgb { r: 67, g: 76, b: 94 },
            fg: Rgb { r: 236, g: 239, b: 244 },
            fg_dim: Rgb { r: 216, g: 222, b: 233 },
            fg_muted: Rgb { r: 76, g: 86, b: 106 },
            primary: Rgb { r: 136, g: 192, b: 208 },
            secondary: Rgb { r: 129, g: 161, b: 193 },
            accent: Rgb { r: 180, g: 142, b: 173 },
            success: Rgb { r: 163, g: 190, b: 140 },
            warning: Rgb { r: 235, g: 203, b: 139 },
            error: Rgb { r: 191, g: 97, b: 106 },
            info: Rgb { r: 136, g: 192, b: 208 },
            border: Rgb { r: 59, g: 66, b: 82 },
            border_focus: Rgb { r: 136, g: 192, b: 208 },
            selection: Rgb { r: 67, g: 76, b: 94 },
            logo_primary: Rgb { r: 136, g: 192, b: 208 },
            logo_secondary: Rgb { r: 163, g: 190, b: 140 },
        }
    }

    /// The colours of the theme [`Theme::Gruvbox`].
    pub fn gruvbox() -> (r: Self)
        ensures
            r == gruvbox_colors(),
    {
        ThemeColors {
            bg: Rgb { r: 40, g: 40, b: 40 },
            bg_secondary: Rgb { r: 60, g: 56, b: 54 },
            bg_highlight: Rgb { r: 80, g: 73, b: 69 },
            fg: Rgb { r: 235, g: 219, b: 178 },
            fg_dim: Rgb { r: 213, g: 196, b: 161 },
            fg_muted: Rgb { r: 146, g: 131, b: 116 },
            primary: Rgb { r: 131, g: 165, b: 152 },
            secondary: Rgb { r: 184, g: 187, b: 38 },
            accent: Rgb { r: 211, g: 134, b: 155 },
            success: Rgb { r: 152, g: 151, b: 26 },
            warning: Rgb { r: 250, g: 189, b: 47 },
            error: Rgb { r: 251, g: 73, b: 52 },
            info: Rgb { r: 131, g: 165, b: 152 },
            border: Rgb { r: 80, g: 73, b: 69 },
            border_focus: Rgb { r: 250, g: 189, b: 47 },
            selection: Rgb { r: 80, g: 73, b: 69 },
            logo_primary: Rgb { r: 254, g: 128, b: 25 },
            logo_secondary: Rgb { r: 250, g: 189, b: 47 },
        }
    }

    /// The colours of the theme [`Theme::TokyoNight`].
    pub fn tokyo_night() -> (r: Self)
        ensures
            r == tokyo_night_colors(),
    {
        ThemeColors {
            bg: Rgb { r: 26, g: 27, b: 38 },
            bg_secondary: Rgb { r: 36, g: 40, b: 59 },
            bg_highlight: Rgb { r: 41, g: 46, b: 66 },
            fg: Rgb { r: 192, g: 202, b: 245 },
            fg_dim: Rgb { r: 169, g: 177, b: 214 },
            fg_muted: Rgb { r: 86, g: 95, b: 137 },
            primary: Rgb { r: 122, g: 162, b: 247 },
            secondary: Rgb { r: 187, g: 154, b: 247 },
            accent: Rgb { r: 255, g: 158, b: 100 },
            success: Rgb { r: 158, g: 206, b: 106 },
            warning: Rgb { r: 224, g: 175, b: 104 },
            error: Rgb { r: 247, g: 118, b: 142 },
            info: Rgb { r: 125, g: 207, b: 255 },
            border: Rgb { r: 41, g: 46, b: 66 },
            border_focus: Rgb { r: 122, g: 162, b: 247 },
            selection: Rgb { r: 52, g: 59, b: 88 },
            logo_primary: Rgb { r: 187, g: 154, b: 247 },
            logo_secondary: Rgb { r: 122, g: 162, b: 247 },
        }
    }

    /// The colours of the theme [`Theme::Monokai`].
    pub fn monokai() -> (r: Self)
        ensures
            r == monokai_colors(),
    {
        ThemeColors {
            bg: Rgb { r: 45, g: 42, b: 46 },
            bg_secondary: Rgb { r: 55, g: 52, b: 56 },
            bg_highlight: Rgb { r: 73, g: 72, b: 62 },
            fg: Rgb { r: 252, g: 252, b: 250 },
            fg_dim: Rgb { r: 199, g: 199, b: 199 },
            fg_muted: Rgb { r: 117, g: 113, b: 94 },
            primary: Rgb { r: 102, g: 217, b: 239 },
            secondary: Rgb { r: 174, g: 129, b: 255 },
            accent: Rgb { r: 255, g: 97, b: 136 },
            success: Rgb { r: 166, g: 226, b: 46 },
            warning: Rgb { r: 230, g: 219, b: 116 },
            error: Rgb { r: 249, g: 38, b: 114 },
            info: Rgb { r: 102, g: 217, b: 239 },
            border: Rgb { r: 73, g: 72, b: 62 },
            border_focus: Rgb { r: 255, g: 97, b: 136 },
            selection: Rgb { r: 73, g: 72, b: 62 },
            logo_primary: Rgb { r: 166, g: 226, b: 46 },
            logo_secondary: Rgb { r: 102, g: 217, b: 239 },
        }
    }

    /// The colours of the theme [`Theme::Ocean`].
    pub fn ocean() -> (r: Self)
        ensures
            r == ocean_colors(),
    {
        ThemeColors {
            bg: Rgb { r: 15, g: 25, b: 40 },
            bg_secondary: Rgb { r: 25, g: 40, b: 60 },
            bg_highlight: Rgb { r: 35, g: 55, b: 80 },
            fg: Rgb { r: 220, g: 235, b: 250 },
            fg_dim: Rgb { r: 180, g: 200, b: 220 },
            fg_muted: Rgb { r: 100, g: 130, b: 160 },
            primary: Rgb { r: 80, g: 180, b: 230 },
            secondary: Rgb { r: 100, g: 220, b: 200 },
            accent: Rgb { r: 255, g: 180, b: 100 },
            success: Rgb { r: 80, g: 200, b: 150 },
            warning: Rgb { r: 255, g: 200, b: 100 },
            error: Rgb { r: 255, g: 100, b: 120 },
            info: Rgb { r: 100, g: 200, b: 255 },
            border: Rgb { r: 40, g: 60, b: 90 },
            border_focus: Rgb { r: 80, g: 180, b: 230 },
            selection: Rgb { r: 35, g: 55, b: 80 },
            logo_primary: Rgb { r: 100, g: 220, b: 200 },
            logo_secondary: Rgb { r: 80, g: 180, b: 230 },
        }
    }

    /// The colours of the theme [`Theme::Sunset`].
    pub fn sunset() -> (r: Self)
        ensures
            r == sunset_colors(),
    {
        ThemeColors {
            bg: Rgb { r: 35, g: 25, b: 35 },
            bg_secondary: Rgb { r: 50, g: 35, b: 50 },
            bg_highlight: Rgb { r: 70, g: 50, b: 70 },
            fg: Rgb { r: 255, g: 240, b: 230 },
            fg_dim: Rgb { r: 230, g: 200, b: 190 },
            fg_muted: Rgb { r: 150, g: 120, b: 130 },
            primary: Rgb { r: 255, g: 150, b: 100 },
            secondary: Rgb { r: 255, g: 120, b: 150 },
            accent: Rgb { r: 200, g: 150, b: 255 },
            success: Rgb { r: 150, g: 220, b: 130 },
            warning: Rgb { r: 255, g: 220, b: 100 },
            error: Rgb { r: 255, g: 100, b: 100 },
            info: Rgb { r: 150, g: 200, b: 255 },
            border: Rgb { r: 80, g: 60, b: 80 },
            border_focus: Rgb { r: 255, g: 150, b: 100 },
            selection: Rgb { r: 70, g: 50, b: 70 },
            logo_primary: Rgb { r: 255, g: 150, b: 100 },
            logo_secondary: Rgb { r: 255, g: 120, b: 150 },
        }
    }

    /// Ordinary text.
    pub fn text(&self) -> (r: Style)
        ensures
            r == plain(self.fg),
    {
        Style { fg: Some(self.fg), bg: None, bold: false }
    }

    /// Dimmed text.
    pub fn text_dim(&self) -> (r: Style)
        ensures
            r == plain(self.fg_dim),
    {
        Style { fg: Some(self.fg_dim), bg: None, bold: false }
    }

    /// Muted text.
    pub fn text_muted(&self) -> (r: Style)
        ensures
            r == plain(self.fg_muted),
    {
        Style { fg: Some(self.fg_muted), bg: None, bold: false }
    }

    /// Text in the first accent.
    pub fn text_primary(&self) -> (r: Style)
        ensures
            r == plain(self.primary),
    {
        Style { fg: Some(self.primary), bg: None, bold: false }
    }

    /// Text in the second accent.
    pub fn text_secondary(&self) -> (r: Style)
        ensures
            r == plain(self.secondary),
    {
        Style { fg: Some(self.secondary), bg: None, bold: false }
    }

    /// Text for what went well.
    pub fn text_success(&self) -> (r: Style)
        ensures
            r == plain(self.success),
    {
        Style { fg: Some(self.success), bg: None, bold: false }
    }

    /// Text that warns.
    pub fn text_warning(&self) -> (r: Style)
        ensures
            r == plain(self.warning),
    {
        Style { fg: Some(self.warning), bg: None, bold: false }
    }

    /// Text for what failed.
    pub fn text_error(&self) -> (r: Style)
        ensures
            r == plain(self.error),
    {
        Style { fg: Some(self.error), bg: None, bold: false }
    }

    /// Text that informs.
    pub fn text_info(&self) -> (r: Style)
        ensures
            r == plain(self.info),
    {
        Style { fg: Some(self.info), bg: None, bold: false }
    }

    /// The border of a block.
    pub fn block(&self) -> (r: Style)
        ensures
            r == plain(self.border),
    {
        Style { fg: Some(self.border), bg: None, bold: false }
    }

    /// The border of the block that has the focus.
    pub fn block_focus(&self) -> (r: Style)
        ensures
            r == plain(self.border_focus),
    {
        Style { fg: Some(self.border_focus), bg: None, bold: false }
    }

    /// A tab.
    pub fn tab(&self) -> (r: Style)
        ensures
            r == plain(self.fg_muted),
    {
        Style { fg: Some(self.fg_muted), bg: None, bold: false }
    }

    /// The tab that is open.
    pub fn tab_active(&self) -> (r: Style)
        ensures
            r == bold(self.primary),
    {
        Style { fg: Some(self.primary), bg: None, bold: true }
    }

    /// The hint for a key.
    pub fn key_hint(&self) -> (r: Style)
        ensures
            r == bold(self.accent),
    {
        Style { fg: Some(self.accent), bg: None, bold: true }
    }

    /// The first part of the logo.
    pub fn logo_style_primary(&self) -> (r: Style)
        ensures
            r == bold(self.logo_primary),
    {
        Style { fg: Some(self.logo_primary), bg: None, bold: true }
    }

    /// The second part of the logo.
    pub fn logo_style_secondary(&self) -> (r: Style)
        ensures
            r == bold(self.logo_secondary),
    {
        Style { fg: Some(self.logo_secondary), bg: None, bold: true }
    }

    /// The selected item: bold text on the colour of the selection.
    pub fn selected(&self) -> (r: Style)
        ensures
            r == (Style { fg: Some(self.fg), bg: Some(self.selection), bold: true }),
    {
        Style { fg: Some(self.fg), bg: Some(self.selection), bold: true }
    }
}

} // verus!
