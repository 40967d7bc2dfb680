use dioxus_material_icons::{
    IconColor, IconError, MaterialIcon, MaterialIconColor, MaterialIconProps,
    MaterialIconStylesheet, MaterialIconStylesheetProps, MaterialIconVariant, RenderedIcon,
    StylesheetResource, ICON_CLASSES,
};

const ALL_CLASSES: &str = "material-icons material-icons-outlined material-icons-round material-icons-sharp material-icons-two-tone md-48";

fn href_of(variant: MaterialIconVariant) -> String {
    match variant.resolve() {
        StylesheetResource::Link { href } => href,
        StylesheetResource::Inline { .. } => panic!("expected a link"),
    }
}

fn css_of(variant: MaterialIconVariant) -> String {
    match variant.resolve() {
        StylesheetResource::Inline { css } => css,
        StylesheetResource::Link { .. } => panic!("expected inline css"),
    }
}

fn props(name: &str, size: Option<u32>, color: Option<MaterialIconColor>) -> MaterialIconProps {
    MaterialIconProps { name: name.to_string(), size, color }
}

fn render(name: &str, size: Option<u32>, color: Option<MaterialIconColor>) -> RenderedIcon {
    MaterialIcon(props(name, size, color)).expect("icon renders")
}

fn all_colors() -> Vec<Option<MaterialIconColor>> {
    vec![
        None,
        Some(MaterialIconColor::Dark),
        Some(MaterialIconColor::DarkInactive),
        Some(MaterialIconColor::Light),
        Some(MaterialIconColor::LightInactive),
        Some(MaterialIconColor::Inherit),
        Some(IconColor("#0000ff")),
    ]
}

#[test]
fn hosted_variants_link_to_google_fonts() {
    let base = "https://fonts.googleapis.com/icon?family=Material+Icons";
    assert_eq!(href_of(MaterialIconVariant::Regular), base);
    assert_eq!(href_of(MaterialIconVariant::Outlined), format!("{base}+Outlined"));
    assert_eq!(href_of(MaterialIconVariant::Round), format!("{base}+Round"));
    assert_eq!(href_of(MaterialIconVariant::Sharp), format!("{base}+Sharp"));
    assert_eq!(
        href_of(MaterialIconVariant::TwoTone),
        "https://fonts.googleapis.com/icon?family=Material+Icons+Two+Tone"
    );
}

#[test]
fn stylesheet_default_is_regular_link() {
    let r = MaterialIconStylesheet(MaterialIconStylesheetProps::default());
    assert_eq!(
        r,
        StylesheetResource::Link {
            href: "https://fonts.googleapis.com/icon?family=Material+Icons".to_string()
        }
    );
    assert_eq!(MaterialIconVariant::default(), MaterialIconVariant::Regular);
}

#[test]
fn stylesheet_follows_props_variant() {
    let r = MaterialIconStylesheet(MaterialIconStylesheetProps { variant: MaterialIconVariant::Round });
    assert_eq!(r, MaterialIconVariant::Round.resolve());
}

#[test]
fn self_hosted_source_once_per_font_face() {
    let r = MaterialIconVariant::SelfHosted("foo.ttf".to_string()).resolve();
    assert!(matches!(r, StylesheetResource::Inline { .. }));
    let css = css_of(MaterialIconVariant::SelfHosted("foo.ttf".to_string()));
    assert_eq!(css.matches("@font-face").count(), 5);
    assert_eq!(css.matches("foo.ttf").count(), 5);
    assert_eq!(css.matches("url(\"foo.ttf\")").count(), 5);
    // One font-face rule and one class rule per style, all of the one family.
    assert_eq!(css.matches("font-family: 'Material Icons';").count(), 10);
    assert_eq!(css.matches("font-family:").count(), 10);
    for class in [
        ".material-icons {",
        ".material-icons-outlined {",
        ".material-icons-round {",
        ".material-icons-sharp {",
        ".material-icons-two-tone {",
    ] {
        assert!(css.contains(class), "{class} missing");
    }
}

#[test]
fn self_hosted_first_rule_exact() {
    let css = css_of(MaterialIconVariant::SelfHosted("a.woff2".to_string()));
    assert!(css.starts_with(
        "@font-face {\n  font-family: 'Material Icons';\n  font-style: normal;\n  font-weight: 400;\n  src: url(\"a.woff2\");\n}\n\n.material-icons {\n  font-family: 'Material Icons';\n"
    ));
}

#[test]
fn self_hosted_outlined_rule_binds_shared_family() {
    let css = css_of(MaterialIconVariant::SelfHosted("b.otf".to_string()));
    assert!(css.contains(
        "src: url(\"b.otf\");\n}\n\n.material-icons-outlined {\n  font-family: 'Material Icons';\n"
    ));
    assert!(!css.contains("Material Icons Outlined"));
    assert!(!css.contains("Material Icons Two Tone"));
}

#[test]
fn self_hosted_source_is_escaped() {
    let css = css_of(MaterialIconVariant::SelfHosted("x\"); } </style>\\\n".to_string()));
    assert_eq!(css.matches("url(\"x\\\"); } \\3c /style>\\\\\\a \")").count(), 5);
    assert!(!css.contains("</style>"));
}

#[test]
fn self_hosted_is_deterministic() {
    let a = MaterialIconVariant::SelfHosted("fonts/icons.otf".to_string()).resolve();
    let b = MaterialIconVariant::SelfHosted("fonts/icons.otf".to_string()).resolve();
    assert_eq!(a, b);
}

#[test]
fn render_inherit_without_size() {
    let icon = render("home", None, Some(MaterialIconColor::Inherit));
    assert!(icon.style.contains("font-size: inherit;"));
    assert!(icon.style.contains("color: inherit;"));
    assert_eq!(icon.style, "font-size: inherit; color: inherit; user-select: none;");
    assert_eq!(icon.text, "home");
    assert_eq!(icon.class, ALL_CLASSES);
}

#[test]
fn render_without_color_defaults_to_inherit() {
    let icon = render("home", None, None);
    assert_eq!(icon, render("home", None, Some(MaterialIconColor::Inherit)));
    assert_eq!(MaterialIconColor::default(), MaterialIconColor::Inherit);
}

#[test]
fn render_custom_color_and_size() {
    let icon = render("home", Some(48), Some(IconColor("blue")));
    assert!(icon.style.contains("font-size: 48px;"));
    assert!(icon.style.contains("color: blue;"));
    assert_eq!(icon.style, "font-size: 48px; color: blue; user-select: none;");
    assert_eq!(icon.text, "home");
}

#[test]
fn render_size_edges() {
    assert_eq!(render("a", Some(0), None).style, "font-size: 0px; color: inherit; user-select: none;");
    assert_eq!(render("a", Some(7), None).style, "font-size: 7px; color: inherit; user-select: none;");
    assert_eq!(render("a", Some(10), None).style, "font-size: 10px; color: inherit; user-select: none;");
    assert_eq!(
        render("a", Some(u32::MAX), None).style,
        "font-size: 4294967295px; color: inherit; user-select: none;"
    );
}

#[test]
fn render_named_colors() {
    let style = |c: MaterialIconColor| render("star", Some(24), Some(c)).style;
    assert_eq!(style(MaterialIconColor::Dark), "font-size: 24px; color: rgba(0, 0, 0, 0.54); user-select: none;");
    assert_eq!(style(MaterialIconColor::DarkInactive), "font-size: 24px; color: rgba(0, 0, 0, 0.26); user-select: none;");
    assert_eq!(style(MaterialIconColor::Light), "font-size: 24px; color: rgba(255, 255, 255, 1); user-select: none;");
    assert_eq!(style(MaterialIconColor::LightInactive), "font-size: 24px; color: rgba(255, 255, 255, 0.3); user-select: none;");
}

#[test]
fn css_colors_of_tokens() {
    assert_eq!(MaterialIconColor::Dark.to_css_color(), "rgba(0, 0, 0, 0.54)");
    assert_eq!(MaterialIconColor::DarkInactive.to_css_color(), "rgba(0, 0, 0, 0.26)");
    assert_eq!(MaterialIconColor::Light.to_css_color(), "rgba(255, 255, 255, 1)");
    assert_eq!(MaterialIconColor::LightInactive.to_css_color(), "rgba(255, 255, 255, 0.3)");
    assert_eq!(MaterialIconColor::Inherit.to_css_color(), "inherit");
    assert_eq!(IconColor("#0000ff").to_css_color(), "#0000ff");
}

#[test]
fn custom_color_from_str() {
    let c: MaterialIconColor = "red".into();
    assert_eq!(c, MaterialIconColor::Custom("red".to_string()));
    assert_eq!(IconColor("red"), c);
}

#[test]
fn custom_color_from_owned_string() {
    let c: MaterialIconColor = String::from("#00ff00").into();
    assert_eq!(c, MaterialIconColor::Custom("#00ff00".to_string()));
    assert_eq!(c.to_css_color(), "#00ff00");
}

#[test]
fn token_names_convert_to_custom_colors() {
    for name in ["Dark", "inherit", "Light"] {
        let c = MaterialIconColor::from(name);
        assert_eq!(c, MaterialIconColor::Custom(name.to_string()));
        assert_eq!(c.to_css_color(), name);
        let owned = MaterialIconColor::from(name.to_string());
        assert_eq!(owned.to_css_color(), name);
        assert_eq!(IconColor(name).to_css_color(), name);
    }
}

#[test]
fn custom_color_passes_through_unescaped() {
    let icon = render("home", None, Some(IconColor("red; background: url(x)")));
    assert_eq!(icon.style, "font-size: inherit; color: red; background: url(x); user-select: none;");
}

#[test]
fn empty_name_fails_for_every_color_and_size() {
    for size in [None, Some(0), Some(24), Some(48), Some(u32::MAX)] {
        for color in all_colors() {
            assert_eq!(MaterialIcon(props("", size, color)), Err(IconError::EmptyName));
        }
    }
}

#[test]
fn render_twice_gives_same_output() {
    for color in all_colors() {
        let a = MaterialIcon(props("settings", Some(32), color.clone()));
        let b = MaterialIcon(props("settings", Some(32), color));
        assert_eq!(a, b);
    }
}

#[test]
fn class_list_never_changes() {
    assert_eq!(ICON_CLASSES, ALL_CLASSES);
    for size in [None, Some(1), Some(48)] {
        for color in all_colors() {
            for name in ["home", "settings", "not_an_icon"] {
                assert_eq!(render(name, size, color.clone()).class, ALL_CLASSES);
            }
        }
    }
}

#[test]
fn unknown_name_is_rendered_as_is() {
    let icon = render("no such icon", None, None);
    assert_eq!(icon.text, "no such icon");
}
