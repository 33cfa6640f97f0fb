use content_delivery::config::port_from_setting;

#[test]
fn absent_setting_uses_default() {
    assert_eq!(port_from_setting(None), 3000);
}

#[test]
fn plain_number_is_taken() {
    assert_eq!(port_from_setting(Some("8080")), 8080);
    assert_eq!(port_from_setting(Some("0")), 0);
    assert_eq!(port_from_setting(Some("65535")), 65535);
}

#[test]
fn leading_plus_is_accepted() {
    assert_eq!(port_from_setting(Some("+80")), 80);
}

#[test]
fn unparsable_settings_use_default() {
    assert_eq!(port_from_setting(Some("")), 3000);
    assert_eq!(port_from_setting(Some("+")), 3000);
    assert_eq!(port_from_setting(Some("abc")), 3000);
    assert_eq!(port_from_setting(Some("80a")), 3000);
    assert_eq!(port_from_setting(Some(" 80")), 3000);
    assert_eq!(port_from_setting(Some("-1")), 3000);
    assert_eq!(port_from_setting(Some("8.1")), 3000);
}

#[test]
fn out_of_range_settings_use_default() {
    assert_eq!(port_from_setting(Some("65536")), 3000);
    assert_eq!(port_from_setting(Some("70000")), 3000);
    assert_eq!(port_from_setting(Some("99999999999999999999")), 3000);
}
