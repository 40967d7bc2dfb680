#![allow(non_snake_case)]

//! Material Icons for component-based user interfaces.
//!
//! The library computes, as plain data, what a host UI framework needs to
//! show Google's Material Icons: which stylesheet to load for a font variant
//! (a hosted link, or inline `@font-face` rules for a self-hosted file), and
//! the class list, inline style and text of one icon.

mod color;
mod decimal;
mod escape;
mod icon;
mod stylesheet;

pub use color::{css_color, ColorModel, IconColor, MaterialIconColor};
pub use decimal::{decimal_digits, digit_seq};
pub use escape::{css_escape_char, css_escaped, escape_sequence, lemma_escape_plain};
pub use icon::{
    effective_color, icon_render, icon_style, lemma_class_list_fixed, lemma_empty_name_refused,
    lemma_render_deterministic, size_css, IconError, IconPropsModel, MaterialIcon,
    MaterialIconProps, RenderedIcon, RenderedIconModel, ICON_CLASSES,
};
pub use stylesheet::{
    font_face_rule, font_face_rules, lemma_hosted_variant_link, lemma_self_hosted_inline,
    resource_of, self_hosted_css, self_hosted_styles, style_classes, variant_suffix,
    MaterialIconStylesheet, MaterialIconStylesheetProps, MaterialIconVariant, ResourceModel,
    StylesheetResource, VariantModel, CLASS_BODY, CLASS_FAMILY, FACE_CLOSE, FACE_OPEN, FACE_SRC,
    FONTS_BASE_URL, FONT_FAMILY,
};
