use vstd::prelude::*;

verus! {

/// Colors of Material Icons.
///
/// The named tokens follow Google's guidance for icons on light and dark
/// backgrounds. When an icon is given no color, [`MaterialIconColor::Inherit`]
/// applies.
///
/// A [`MaterialIconColor::Custom`] string is copied into the icon's inline
/// style as it stands, without escaping: callers that take colors from
/// untrusted input must sanitize them first.
#[derive(Debug, Clone, PartialEq, Eq)]
pub enum MaterialIconColor {
    /// For using icons as black on a light background.
    Dark,
    /// For inactive icons, black on a light background.
    DarkInactive,
    /// For using icons as white on a dark background.
    Light,
    /// For inactive icons, white on a dark background.
    LightInactive,
    /// The color of the surrounding text; the default.
    Inherit,
    /// Custom color, any valid CSS color (e.g. `#0000ff` or `red`).
    Custom(String),
}

/// What a [`MaterialIconColor`] denotes, with the custom string as characters.
pub enum ColorModel {
    Dark,
    DarkInactive,
    Light,
    LightInactive,
    Inherit,
    Custom(Seq<char>),
}

impl View for MaterialIconColor {
    type V = ColorModel;

    open spec fn view(&self) -> ColorModel {
        match self {
            MaterialIconColor::Dark => ColorModel::Dark,
            MaterialIconColor::DarkInactive => ColorModel::DarkInactive,
            MaterialIconColor::Light => ColorModel::Light,
            MaterialIconColor::LightInactive => ColorModel::LightInactive,
            MaterialIconColor::Inherit => ColorModel::Inherit,
            MaterialIconColor::Custom(c) => ColorModel::Custom(c@),
        }
    }
}

/// The CSS color value that a color stands for.
pub open spec fn css_color(c: ColorModel) -> Seq<char> {
    match c {
        ColorModel::Dark => "rgba(0, 0, 0, 0.54)"@,
        ColorModel::DarkInactive => "rgba(0, 0, 0, 0.26)"@,
        ColorModel::Light => "rgba(255, 255, 255, 1)"@,
        ColorModel::LightInactive => "rgba(255, 255, 255, 0.3)"@,
        ColorModel::Inherit => "inherit"@,
        ColorModel::Custom(s) => s,
    }
}

impl MaterialIconColor {
    /// Converts the color to its corresponding CSS color.
    pub fn to_css_color(&self) -> (r: &str)
        ensures
            r@ == css_color(self@),
    {
        match self {
            MaterialIconColor::Dark => "rgba(0, 0, 0, 0.54)",
            MaterialIconColor::DarkInactive => "rgba(0, 0, 0, 0.26)",
            MaterialIconColor::Light => "rgba(255, 255, 255, 1)",
            MaterialIconColor::LightInactive => "rgba(255, 255, 255, 0.3)",
            MaterialIconColor::Inherit => "inherit",
            MaterialIconColor::Custom(c) => c.as_str(),
        }
    }
}

impl Default for MaterialIconColor {
    fn default() -> (r: Self)
        ensures
            r@ == ColorModel::Inherit,
    {
        MaterialIconColor::Inherit
    }
}

/// A string converts to a custom color holding that string, as
/// [`IconColor`] makes it; never to a named token, even for `"inherit"`.
impl<'a> From<&'a str> for MaterialIconColor {
    fn from(value: &'a str) -> (r: Self)
        ensures
            r@ == ColorModel::Custom(value@),
    {
        IconColor(value)
    }
}

// The conversion's contract is the `ensures` of `from` above, over the view.
// No `from_spec` is given: `==` on the `String` inside is not known to follow
// from equal characters, so equality with a value built in spec could not be
// proved.
impl<'a> vstd::std_specs::convert::FromSpecImpl<&'a str> for MaterialIconColor {
    open spec fn obeys_from_spec() -> bool {
        false
    }

    open spec fn from_spec(v: &'a str) -> Self {
        arbitrary()
    }
}

/// An owned string converts to a custom color holding that very string.
impl From<String> for MaterialIconColor {
    fn from(value: String) -> (r: Self)
        ensures
            r@ == ColorModel::Custom(value@),
    {
        MaterialIconColor::Custom(value)
    }
}

impl vstd::std_specs::convert::FromSpecImpl<String> for MaterialIconColor {
    open spec fn obeys_from_spec() -> bool {
        true
    }

    open spec fn from_spec(v: String) -> Self {
        MaterialIconColor::Custom(v)
    }
}

/// Creates a custom color from any CSS color string.
pub fn IconColor(color: &str) -> (r: MaterialIconColor)
    ensures
        r@ == ColorModel::Custom(color@),
{
    MaterialIconColor::Custom(String::from_str(color))
}

} // verus!
