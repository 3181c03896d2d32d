use pop_cli::config::Config;

#[test]
fn test_config_defaults() {
    let c = Config::resolve(&None, &None, &None);
    assert_eq!(c.symbol, "UNIT");
    assert_eq!(c.decimals, 12);
    assert_eq!(c.initial_endowment, "1u64 << 60");
}

#[test]
fn test_config_explicit_values() {
    let c = Config::resolve(
        &Some("DOT".to_string()),
        &Some(10),
        &Some("5000000".to_string()),
    );
    assert_eq!(c.symbol, "DOT");
    assert_eq!(c.decimals, 10);
    assert_eq!(c.initial_endowment, "5000000");
}

#[test]
fn test_config_mixed_defaults() {
    let c = Config::resolve(&Some("KSM".to_string()), &None, &None);
    assert_eq!(c.symbol, "KSM");
    assert_eq!(c.decimals, 12);
    assert_eq!(c.initial_endowment, "1u64 << 60");
}

#[test]
fn test_config_clone_equal() {
    let c = Config::resolve(&None, &Some(6), &None);
    let d = c.clone();
    assert_eq!(c, d);
}
