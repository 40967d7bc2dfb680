use vstd::prelude::*;

use crate::color::{css_color, ColorModel, MaterialIconColor};
use crate::decimal::{decimal_digits, push_decimal};

verus! {

/// Props of one icon: what to draw, how large and in which color.
#[derive(Debug, Clone, PartialEq)]
pub struct MaterialIconProps {
    /// Name of the icon (e.g. `home`); the font turns it into the glyph.
    pub name: String,
    /// Size in pixels; when absent the icon takes the size of the
    /// surrounding text.
    pub size: Option<u32>,
    /// Color; when absent, [`MaterialIconColor::Inherit`].
    pub color: Option<MaterialIconColor>,
}

/// What [`MaterialIconProps`] denote.
pub struct IconPropsModel {
    pub name: Seq<char>,
    pub size: Option<u32>,
    pub color: Option<ColorModel>,
}

impl View for MaterialIconProps {
    type V = IconPropsModel;

    open spec fn view(&self) -> IconPropsModel {
        IconPropsModel {
            name: self.name@,
            size: self.size,
            color: match self.color {
                Some(c) => Some(c@),
                None => None,
            },
        }
    }
}

/// The markup of one icon: a span with these class, style and text.
#[derive(Debug, Clone, PartialEq)]
pub struct RenderedIcon {
    /// The classes of every font variant, so that whichever stylesheet is
    /// loaded applies.
    pub class: String,
    /// The inline style: font size, color, and no text selection.
    pub style: String,
    /// The icon's name, which the font draws as the glyph.
    pub text: String,
}

/// What a [`RenderedIcon`] holds, as characters.
pub struct RenderedIconModel {
    pub class: Seq<char>,
    pub style: Seq<char>,
    pub text: Seq<char>,
}

impl View for RenderedIcon {
    type V = RenderedIconModel;

    open spec fn view(&self) -> RenderedIconModel {
        RenderedIconModel { class: self.class@, style: self.style@, text: self.text@ }
    }
}

/// Why an icon cannot be rendered.
#[derive(Debug, Clone, Copy, PartialEq, Eq, Structural)]
pub enum IconError {
    /// The icon's name is empty.
    EmptyName,
}

/// The class list of every icon, whatever its name, size or color: the
/// class of each font variant, so that the one whose stylesheet is loaded
/// applies, and a size modifier.
pub const ICON_CLASSES: &'static str = "material-icons material-icons-outlined material-icons-round material-icons-sharp material-icons-two-tone md-48";

/// The CSS `font-size` value: pixels when a size is given, else `inherit`.
pub open spec fn size_css(size: Option<u32>) -> Seq<char> {
    match size {
        Some(n) => decimal_digits(n as nat) + "px"@,
        None => "inherit"@,
    }
}

/// The color that applies: the one given, else `Inherit`.
pub open spec fn effective_color(color: Option<ColorModel>) -> ColorModel {
    match color {
        Some(c) => c,
        None => ColorModel::Inherit,
    }
}

/// The inline style of an icon.
pub open spec fn icon_style(size: Option<u32>, color: Option<ColorModel>) -> Seq<char> {
    "font-size: "@ + size_css(size) + "; color: "@ + css_color(effective_color(color))
        + "; user-select: none;"@
}

/// The markup of an icon, or why there is none.
pub open spec fn icon_render(p: IconPropsModel) -> Result<RenderedIconModel, IconError> {
    if p.name.len() == 0 {
        Err(IconError::EmptyName)
    } else {
        Ok(RenderedIconModel { class: ICON_CLASSES@, style: icon_style(p.size, p.color), text: p.name })
    }
}

/// Renders one icon: its class list, inline style and text.
///
/// The name is not checked against the icons that the font knows: an unknown
/// name is drawn as the font draws it. A custom color goes into the style
/// unescaped.
pub fn MaterialIcon(props: MaterialIconProps) -> (r: Result<RenderedIcon, IconError>)
    ensures
        r is Err <==> props@.name.len() == 0,
        match r {
            Ok(icon) => icon_render(props@) == Ok::<RenderedIconModel, IconError>(icon@),
            Err(e) => icon_render(props@) == Err::<RenderedIconModel, IconError>(e),
        },
{
    if props.name.as_str().is_empty() {
        return Err(IconError::EmptyName);
    }
    let mut style = String::from_str("font-size: ");
    match props.size {
        Some(n) => {
            push_decimal(n, &mut style);
            style.append("px");
        },
        None => style.append("inherit"),
    }
    assert(style@ == "font-size: "@ + size_css(props.size));
    style.append("; color: ");
    let color: &str = match &props.color {
        Some(c) => c.to_css_color(),
        None => "inherit",
    };
    style.append(color);
    style.append("; user-select: none;");
    let class = String::from_str(
        "material-icons material-icons-outlined material-icons-round material-icons-sharp material-icons-two-tone md-48",
    );
    assert(style@ == icon_style(props.size, props@.color));
    Ok(RenderedIcon { class, style, text: props.name })
}

/// An icon with an empty name is refused, whatever its size and color.
pub proof fn lemma_empty_name_refused(size: Option<u32>, color: Option<ColorModel>)
    ensures
        icon_render(IconPropsModel { name: Seq::empty(), size, color }) == Err::<
            RenderedIconModel,
            IconError,
        >(IconError::EmptyName),
{
}

/// Rendering depends on the props alone: equal props give equal markup, so
/// rendering twice gives the same output.
pub proof fn lemma_render_deterministic(a: IconPropsModel, b: IconPropsModel)
    requires
        a == b,
    ensures
        icon_render(a) == icon_render(b),
{
}

/// Every icon that renders has the same class list, whatever its name, size
/// and color.
pub proof fn lemma_class_list_fixed(a: IconPropsModel, b: IconPropsModel)
    requires
        a.name.len() > 0,
        b.name.len() > 0,
    ensures
        icon_render(a) is Ok,
        icon_render(b) is Ok,
        icon_render(a)->Ok_0.class == icon_render(b)->Ok_0.class,
        icon_render(a)->Ok_0.class == ICON_CLASSES@,
{
}

} // verus!
