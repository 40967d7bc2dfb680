use vstd::prelude::*;

use crate::escape::{css_escaped, escape_sequence, lemma_escape_plain, push_css_escaped};

verus! {

/// Variants (also called categories) of the Material Icon font.
///
/// All variants draw the same set of glyphs, under the same names.
#[derive(Debug, Clone, PartialEq, Eq)]
pub enum MaterialIconVariant {
    /// Regular, also called Filled; the default.
    Regular,
    /// Outlined
    Outlined,
    /// Round
    Round,
    /// Sharp
    Sharp,
    /// Two tone
    TwoTone,
    /// A self-hosted font file: the path or URL of a ttf, otf or woff2 file.
    ///
    /// Nothing here checks that the file exists or has the right format;
    /// a bad file shows when the host loads it.
    SelfHosted(String),
}

/// What a [`MaterialIconVariant`] denotes.
pub enum VariantModel {
    Regular,
    Outlined,
    Round,
    Sharp,
    TwoTone,
    SelfHosted(Seq<char>),
}

impl View for MaterialIconVariant {
    type V = VariantModel;

    open spec fn view(&self) -> VariantModel {
        match self {
            MaterialIconVariant::Regular => VariantModel::Regular,
            MaterialIconVariant::Outlined => VariantModel::Outlined,
            MaterialIconVariant::Round => VariantModel::Round,
            MaterialIconVariant::Sharp => VariantModel::Sharp,
            MaterialIconVariant::TwoTone => VariantModel::TwoTone,
            MaterialIconVariant::SelfHosted(s) => VariantModel::SelfHosted(s@),
        }
    }
}

impl Default for MaterialIconVariant {
    fn default() -> (r: Self)
        ensures
            r@ == VariantModel::Regular,
    {
        MaterialIconVariant::Regular
    }
}

/// Props of the stylesheet: which variant of the font to load.
#[derive(Debug, Clone, PartialEq, Eq)]
pub struct MaterialIconStylesheetProps {
    /// The variant; [`MaterialIconVariant::Regular`] by default.
    pub variant: MaterialIconVariant,
}

impl Default for MaterialIconStylesheetProps {
    fn default() -> (r: Self)
        ensures
            r.variant@ == VariantModel::Regular,
    {
        MaterialIconStylesheetProps { variant: MaterialIconVariant::default() }
    }
}

/// How the host is to load the icon font.
#[derive(Debug, Clone, PartialEq, Eq)]
pub enum StylesheetResource {
    /// A stylesheet to link to (`<link rel="stylesheet" href=..>`).
    Link { href: String },
    /// CSS to place in a `<style>` element.
    Inline { css: String },
}

/// What a [`StylesheetResource`] holds, as characters.
pub enum ResourceModel {
    Link { href: Seq<char> },
    Inline { css: Seq<char> },
}

impl View for StylesheetResource {
    type V = ResourceModel;

    open spec fn view(&self) -> ResourceModel {
        match self {
            StylesheetResource::Link { href } => ResourceModel::Link { href: href@ },
            StylesheetResource::Inline { css } => ResourceModel::Inline { css: css@ },
        }
    }
}

/// The stylesheet of the Regular variant on Google Fonts; the other hosted
/// variants add a suffix to it.
pub const FONTS_BASE_URL: &'static str = "https://fonts.googleapis.com/icon?family=Material+Icons";

/// What a hosted variant adds to [`FONTS_BASE_URL`].
pub open spec fn variant_suffix(v: VariantModel) -> Seq<char> {
    match v {
        VariantModel::Outlined => "+Outlined"@,
        VariantModel::Round => "+Round"@,
        VariantModel::Sharp => "+Sharp"@,
        VariantModel::TwoTone => "+Two+Tone"@,
        _ => Seq::empty(),
    }
}

/// The opening of each `@font-face` rule, up to the family name.
pub const FACE_OPEN: &'static str = "@font-face {\n  font-family: '";

/// Between the family name and the font file in a `@font-face` rule.
pub const FACE_SRC: &'static str = "';\n  font-style: normal;\n  font-weight: 400;\n  src: url(\"";

/// Closes a `@font-face` rule and opens the class rule that uses it.
pub const FACE_CLOSE: &'static str = "\");\n}\n\n.";

/// Between the class name and the family name in a class rule.
pub const CLASS_FAMILY: &'static str = " {\n  font-family: '";

/// The rest of a class rule, after the family name.
pub const CLASS_BODY: &'static str = "';\n  font-weight: normal;\n  font-style: normal;\n  font-size: 24px;\n  line-height: 1;\n  letter-spacing: normal;\n  text-transform: none;\n  display: inline-block;\n  white-space: nowrap;\n  word-wrap: normal;\n  direction: ltr;\n  -webkit-font-feature-settings: 'liga';\n  -webkit-font-smoothing: antialiased;\n}\n\n";

/// The font family that every style of a self-hosted font binds: all five
/// styles share one glyph family, drawn from the one file.
pub const FONT_FAMILY: &'static str = "Material Icons";

/// The class of each of the five styles, in order.
pub open spec fn style_classes() -> Seq<Seq<char>> {
    seq![
        "material-icons"@,
        "material-icons-outlined"@,
        "material-icons-round"@,
        "material-icons-sharp"@,
        "material-icons-two-tone"@,
    ]
}

/// One style's rules: a `@font-face` that binds `family` to the file at
/// `src` (already escaped), and the rule of the class that uses it.
pub open spec fn font_face_rule(family: Seq<char>, class: Seq<char>, src: Seq<char>) -> Seq<char> {
    FACE_OPEN@ + family + FACE_SRC@ + src + FACE_CLOSE@ + class + CLASS_FAMILY@ + family
        + CLASS_BODY@
}

/// The rules of the first `k` styles, each binding `family` to the file at
/// `src` (escaped).
pub open spec fn font_face_rules(k: nat, family: Seq<char>, src: Seq<char>) -> Seq<char>
    decreases k,
{
    if k == 0 {
        Seq::empty()
    } else {
        font_face_rules((k - 1) as nat, family, src) + font_face_rule(
            family,
            style_classes()[k - 1],
            src,
        )
    }
}

/// The inline stylesheet for a self-hosted font file at `source`: the rules
/// of all five styles, each binding [`FONT_FAMILY`] to the same file.
pub open spec fn self_hosted_css(source: Seq<char>) -> Seq<char> {
    font_face_rules(5, FONT_FAMILY@, css_escaped(source))
}

/// How the stylesheet of a variant is loaded.
pub open spec fn resource_of(v: VariantModel) -> ResourceModel {
    match v {
        VariantModel::SelfHosted(source) => ResourceModel::Inline { css: self_hosted_css(source) },
        _ => ResourceModel::Link { href: FONTS_BASE_URL@ + variant_suffix(v) },
    }
}

fn push_font_face_rule(family: &str, class: &str, src: &str, out: &mut String)
    ensures
        final(out)@ == old(out)@ + font_face_rule(family@, class@, src@),
{
    out.append(FACE_OPEN);
    out.append(family);
    out.append(FACE_SRC);
    out.append(src);
    out.append(FACE_CLOSE);
    out.append(class);
    out.append(CLASS_FAMILY);
    out.append(family);
    out.append(CLASS_BODY);
    assert(out@ =~= old(out)@ + font_face_rule(family@, class@, src@));
}

/// Builds the inline stylesheet for a self-hosted font file at `source`.
///
/// `source` is escaped where it stands in the CSS, so that no path or URL
/// can end the string that holds it.
pub fn self_hosted_styles(source: &str) -> (r: String)
    ensures
        r@ == self_hosted_css(source@),
{
    let mut src = String::new();
    push_css_escaped(source, &mut src);
    let src = src.as_str();
    let mut css = String::new();
    push_font_face_rule(FONT_FAMILY, "material-icons", src, &mut css);
    push_font_face_rule(FONT_FAMILY, "material-icons-outlined", src, &mut css);
    push_font_face_rule(FONT_FAMILY, "material-icons-round", src, &mut css);
    push_font_face_rule(FONT_FAMILY, "material-icons-sharp", src, &mut css);
    push_font_face_rule(FONT_FAMILY, "material-icons-two-tone", src, &mut css);
    proof {
        reveal_with_fuel(font_face_rules, 6);
        assert(css@ =~= self_hosted_css(source@));
    }
    css
}

impl MaterialIconVariant {
    /// How to load the stylesheet of this variant: a link to Google Fonts,
    /// or, for a self-hosted file, inline `@font-face` rules.
    pub fn resolve(&self) -> (r: StylesheetResource)
        ensures
            r@ == resource_of(self@),
    {
        match self {
            MaterialIconVariant::SelfHosted(source) => StylesheetResource::Inline {
                css: self_hosted_styles(source.as_str()),
            },
            _ => {
                let suffix: &str = match self {
                    MaterialIconVariant::Outlined => "+Outlined",
                    MaterialIconVariant::Round => "+Round",
                    MaterialIconVariant::Sharp => "+Sharp",
                    MaterialIconVariant::TwoTone => "+Two+Tone",
                    _ => "",
                };
                proof {
                    reveal_strlit("");
                }
                let href = String::from_str(FONTS_BASE_URL).concat(suffix);
                proof {
                    if self@ is Regular {
                        assert(href@ =~= FONTS_BASE_URL@ + variant_suffix(self@));
                    }
                }
                StylesheetResource::Link { href }
            },
        }
    }
}

/// The stylesheet that the icons need, for the variant in `props`.
pub fn MaterialIconStylesheet(props: MaterialIconStylesheetProps) -> (r: StylesheetResource)
    ensures
        r@ == resource_of(props.variant@),
{
    props.variant.resolve()
}

/// Each hosted variant resolves to a link: the base URL followed by its
/// suffix. Regular adds nothing; every other hosted variant adds `+` and its
/// name.
pub proof fn lemma_hosted_variant_link(v: VariantModel)
    requires
        !(v is SelfHosted),
    ensures
        resource_of(v) == (ResourceModel::Link { href: FONTS_BASE_URL@ + variant_suffix(v) }),
        v is Regular ==> resource_of(v) == (ResourceModel::Link { href: FONTS_BASE_URL@ }),
        !(v is Regular) ==> variant_suffix(v).len() > 1 && variant_suffix(v)[0] == '+',
{
    reveal_strlit("+Outlined");
    reveal_strlit("+Round");
    reveal_strlit("+Sharp");
    reveal_strlit("+Two+Tone");
    if v is Regular {
        assert(FONTS_BASE_URL@ + variant_suffix(v) =~= FONTS_BASE_URL@);
    }
}

/// A self-hosted variant resolves to inline CSS and never to a link: five
/// rules, one per style class, all binding the one family
/// [`FONT_FAMILY`] and each naming the source once; a source with no
/// character to escape stands there as it is.
pub proof fn lemma_self_hosted_inline(source: Seq<char>)
    requires
        forall|i: int| 0 <= i < source.len() ==> escape_sequence(#[trigger] source[i]) is None,
    ensures
        resource_of(VariantModel::SelfHosted(source)) is Inline,
        resource_of(VariantModel::SelfHosted(source)) == (ResourceModel::Inline {
            css: font_face_rule(FONT_FAMILY@, "material-icons"@, source) + font_face_rule(
                FONT_FAMILY@,
                "material-icons-outlined"@,
                source,
            ) + font_face_rule(FONT_FAMILY@, "material-icons-round"@, source) + font_face_rule(
                FONT_FAMILY@,
                "material-icons-sharp"@,
                source,
            ) + font_face_rule(FONT_FAMILY@, "material-icons-two-tone"@, source),
        }),
{
    lemma_escape_plain(source);
    reveal_with_fuel(font_face_rules, 6);
    assert(self_hosted_css(source) =~= font_face_rule(FONT_FAMILY@, "material-icons"@, source)
        + font_face_rule(FONT_FAMILY@, "material-icons-outlined"@, source) + font_face_rule(
        FONT_FAMILY@,
        "material-icons-round"@,
        source,
    ) + font_face_rule(FONT_FAMILY@, "material-icons-sharp"@, source) + font_face_rule(
        FONT_FAMILY@,
        "material-icons-two-tone"@,
        source,
    ));
}

} // verus!
