use vstd::prelude::*;

verus! {

/// A font, as the text renderer loaded it
#[verifier::external_type_specification]
#[verifier::external_body]
pub struct ExFont(fontdue::Font);

/// Calls `fontdue::Font::clone`: a copy of the font. Nothing is stated of it, as the font
/// is opaque here.
#[verifier::external_body]
fn clone_font(font: &fontdue::Font) -> (r: fontdue::Font)
{
    font.clone()
}

/// How modules are drawn and spaced: the font, the text height, the colors and the margins
pub struct Formatting {
    /// The font text is drawn with
    pub font: fontdue::Font,
    /// The height of text
    pub height: usize,
    /// The color of the background
    pub background_color: u32,
    /// The color of the things in front
    pub foreground_color: u32,
    /// The color of text
    pub text_color: u32,
    /// A color for other parts of the interface
    pub misc_ui_color: u32,
    /// The horizontal space between modules
    pub horizontal_margin: usize,
    /// The vertical space between modules
    pub vertical_margin: usize,
}

/// The background color when none is given (opaque, red 10, green 5, blue 20)
pub const DEFAULT_BACKGROUND_COLOR: u32 = 0xFF0A0514u32;
/// The color of things in front when none is given (opaque, red 40, green 30, blue 100)
pub const DEFAULT_STUFF_COLOR: u32 = 0xFF281E64u32;
/// The text color when none is given (opaque white)
pub const DEFAULT_TEXT_COLOR: u32 = 0xFFFFFFFFu32;
/// The horizontal margin when none is given (before halving)
pub const DEFAULT_HORIZONTAL_MARGIN: usize = 5;
/// The vertical margin when none is given (before halving)
pub const DEFAULT_VERTICAL_MARGIN: usize = 5;

impl Formatting {
    /// A formatting with the given values; what is not given takes its default. The margins
    /// are halved (half of the margin goes on each side).
    pub fn configured(
        font: &fontdue::Font,
        height: usize,
        menu_text_color: Option<u32>,
        main_color: Option<u32>,
        secondary_color: Option<u32>,
        horizontal_margin: Option<usize>,
        vertical_margin: Option<usize>,
    ) -> (r: Self)
        ensures
            r.height == height,
            r.background_color == match main_color { Some(c) => c, None => DEFAULT_BACKGROUND_COLOR },
            r.foreground_color == match secondary_color { Some(c) => c, None => DEFAULT_STUFF_COLOR },
            r.text_color == match menu_text_color { Some(c) => c, None => DEFAULT_TEXT_COLOR },
            r.misc_ui_color == 0,
            r.horizontal_margin == (match horizontal_margin { Some(m) => m, None => DEFAULT_HORIZONTAL_MARGIN }) / 2,
            r.vertical_margin == (match vertical_margin { Some(m) => m, None => DEFAULT_VERTICAL_MARGIN }) / 2,
    {
        Formatting {
            height,
            font: clone_font(font),
            background_color: match main_color { Some(c) => c, None => DEFAULT_BACKGROUND_COLOR },
            foreground_color: match secondary_color { Some(c) => c, None => DEFAULT_STUFF_COLOR },
            text_color: match menu_text_color { Some(c) => c, None => DEFAULT_TEXT_COLOR },
            misc_ui_color: 0,
            horizontal_margin: (match horizontal_margin { Some(m) => m, None => DEFAULT_HORIZONTAL_MARGIN }) / 2,
            vertical_margin: (match vertical_margin { Some(m) => m, None => DEFAULT_VERTICAL_MARGIN }) / 2,
        }
    }

    /// The default formatting for the given font and text height
    pub fn default(font: &fontdue::Font, height: usize) -> (r: Self)
        ensures
            r.height == height,
            r.background_color == DEFAULT_BACKGROUND_COLOR,
            r.foreground_color == DEFAULT_STUFF_COLOR,
            r.text_color == DEFAULT_TEXT_COLOR,
            r.misc_ui_color == 0,
            r.horizontal_margin == DEFAULT_HORIZONTAL_MARGIN / 2,
            r.vertical_margin == DEFAULT_VERTICAL_MARGIN / 2,
    {
        Formatting {
            height,
            font: clone_font(font),
            background_color: DEFAULT_BACKGROUND_COLOR,
            foreground_color: DEFAULT_STUFF_COLOR,
            text_color: DEFAULT_TEXT_COLOR,
            misc_ui_color: 0,
            horizontal_margin: DEFAULT_HORIZONTAL_MARGIN / 2,
            vertical_margin: DEFAULT_VERTICAL_MARGIN / 2,
        }
    }

    /// Use another font
    pub fn font(self, font: fontdue::Font) -> (r: Self)
        ensures
            r.font == font,
            r.height == self.height && r.background_color == self.background_color,
            r.foreground_color == self.foreground_color && r.text_color == self.text_color,
            r.misc_ui_color == self.misc_ui_color,
            r.horizontal_margin == self.horizontal_margin && r.vertical_margin == self.vertical_margin,
    {
        let mut s = self;
        s.font = font;
        s
    }

    /// Use another background color
    pub fn background_color(self, color: u32) -> (r: Self)
        ensures
            r.background_color == color,
            r.height == self.height && r.foreground_color == self.foreground_color,
            r.text_color == self.text_color && r.misc_ui_color == self.misc_ui_color,
            r.horizontal_margin == self.horizontal_margin && r.vertical_margin == self.vertical_margin,
    {
        let mut s = self;
        s.background_color = color;
        s
    }

    /// Use another foreground color
    pub fn foreground_color(self, color: u32) -> (r: Self)
        ensures
            r.foreground_color == color,
            r.height == self.height && r.background_color == self.background_color,
            r.text_color == self.text_color && r.misc_ui_color == self.misc_ui_color,
            r.horizontal_margin == self.horizontal_margin && r.vertical_margin == self.vertical_margin,
    {
        let mut s = self;
        s.foreground_color = color;
        s
    }

    /// Use another text color
    pub fn text_color(self, color: u32) -> (r: Self)
        ensures
            r.text_color == color,
            r.height == self.height && r.background_color == self.background_color,
            r.foreground_color == self.foreground_color && r.misc_ui_color == self.misc_ui_color,
            r.horizontal_margin == self.horizontal_margin && r.vertical_margin == self.vertical_margin,
    {
        let mut s = self;
        s.text_color = color;
        s
    }

    /// Use another color for other parts of the interface
    pub fn misc_ui_color(self, color: u32) -> (r: Self)
        ensures
            r.misc_ui_color == color,
            r.height == self.height && r.background_color == self.background_color,
            r.foreground_color == self.foreground_color && r.text_color == self.text_color,
            r.horizontal_margin == self.horizontal_margin && r.vertical_margin == self.vertical_margin,
    {
        let mut s = self;
        s.misc_ui_color = color;
        s
    }

    /// Use another horizontal margin (taken as it is)
    pub fn horizontal_margin(self, margin: usize) -> (r: Self)
        ensures
            r.horizontal_margin == margin,
            r.height == self.height && r.background_color == self.background_color,
            r.foreground_color == self.foreground_color && r.text_color == self.text_color,
            r.misc_ui_color == self.misc_ui_color && r.vertical_margin == self.vertical_margin,
    {
        let mut s = self;
        s.horizontal_margin = margin;
        s
    }

    /// Use another vertical margin (taken as it is)
    pub fn vertical_margin(self, margin: usize) -> (r: Self)
        ensures
            r.vertical_margin == margin,
            r.height == self.height && r.background_color == self.background_color,
            r.foreground_color == self.foreground_color && r.text_color == self.text_color,
            r.misc_ui_color == self.misc_ui_color && r.horizontal_margin == self.horizontal_margin,
    {
        let mut s = self;
        s.vertical_margin = margin;
        s
    }
}

} // verus!
