use pop_cli::template::Template;

#[test]
fn test_template_parse_aliases() {
    assert_eq!(Template::parse("cpt"), Some(Template::Contracts));
    assert_eq!(Template::parse("fpt"), Some(Template::FPT));
    assert_eq!(Template::parse("base"), Some(Template::Base));
}

#[test]
fn test_template_parse_display_names() {
    assert_eq!(Template::parse("Contracts Node Template"), Some(Template::Contracts));
    assert_eq!(Template::parse("Frontier Parachain Template"), Some(Template::FPT));
    assert_eq!(Template::parse("Base Parachain Template"), Some(Template::Base));
}

#[test]
fn test_template_parse_unknown() {
    assert_eq!(Template::parse(""), None);
    assert_eq!(Template::parse("BASE"), None);
    assert_eq!(Template::parse("contracts"), None);
    assert_eq!(Template::parse("base "), None);
}

#[test]
fn test_template_display_names() {
    assert_eq!(Template::Contracts.display_name(), "Contracts Node Template");
    assert_eq!(Template::FPT.display_name(), "Frontier Parachain Template");
    assert_eq!(Template::Base.display_name(), "Base Parachain Template");
}

#[test]
fn test_template_display_roundtrip() {
    for t in [Template::Contracts, Template::FPT, Template::Base] {
        assert_eq!(Template::parse(t.display_name()), Some(t));
    }
}
