use flute_cli_mcp::tools::address::BillingArgs;

#[test]
fn empty_address_appends_nothing() {
    let mut args = vec!["transactions".to_string()];
    BillingArgs::default().push(&mut args);
    assert_eq!(args, vec!["transactions".to_string()]);
}

#[test]
fn partial_address_appends_only_set_flags() {
    let mut args = Vec::new();
    BillingArgs {
        city: Some("Denver".into()),
        country_id: Some(1),
        ..Default::default()
    }
    .push(&mut args);
    assert_eq!(
        args,
        vec!["--billing-city", "Denver", "--billing-country-id", "1"]
    );
}

#[test]
fn full_address_keeps_cli_flag_order() {
    let mut args = Vec::new();
    BillingArgs {
        line1: Some("123 Test St".into()),
        line2: Some("Apt 4".into()),
        city: Some("Denver".into()),
        state: Some("CO".into()),
        state_id: Some(6),
        postal_code: Some("80202".into()),
        country_id: Some(1),
    }
    .push(&mut args);
    assert_eq!(
        args,
        vec![
            "--billing-line1",
            "123 Test St",
            "--billing-line2",
            "Apt 4",
            "--billing-city",
            "Denver",
            "--billing-state",
            "CO",
            "--billing-state-id",
            "6",
            "--billing-postal-code",
            "80202",
            "--billing-country-id",
            "1",
        ]
    );
}

#[test]
fn billing_numbers_are_rendered_in_decimal() {
    let mut args = Vec::new();
    BillingArgs { state_id: Some(4294967295), country_id: Some(0), ..Default::default() }.push(&mut args);
    assert_eq!(args, vec!["--billing-state-id", "4294967295", "--billing-country-id", "0"]);
}
