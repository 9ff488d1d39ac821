use flute_cli_mcp::config::{BinaryProbe, Config, EnvVars, FileFacts, Profile};
use flute_cli_mcp::error::FluteError;
use flute_cli_mcp::json::{as_bool, as_str, get, Json};
use flute_cli_mcp::server::{finish, FluteServer, Reply, ToolPlan};
use flute_cli_mcp::tools::ach::AchMove;
use flute_cli_mcp::tools::customers::{
    AddAch, AddCard, CustomerFields, CustomerUpdate, CustomersList, RemoveMethod,
};
use flute_cli_mcp::tools::devices::{DeviceId, DeviceRegister};
use flute_cli_mcp::tools::keys::{KeyCreate, KeyRevoke, KeysList};
use flute_cli_mcp::tools::pos::{PosCreate, PosList};
use flute_cli_mcp::tools::settlements::SettlementsList;
use flute_cli_mcp::tools::subscriptions::{SubscriptionCreate, SubscriptionsList};
use flute_cli_mcp::tools::tokens::{TokenCreate, TokenRevoke, TokensList};
use flute_cli_mcp::tools::transactions::{SaleArgs, Settle, TipAdjust, TransactionsList, TxnRef};
use flute_cli_mcp::tools::{Empty, Id, ToolResult};

fn cfg(profile: Profile, allow_prod_writes: bool, merchant_id: Option<&str>) -> Config {
    Config {
        profile,
        binary: "/bin/false".to_string(),
        merchant_id: merchant_id.map(String::from),
        timeout_secs: 30,
        debug: false,
        allow_prod_writes,
    }
}

fn svec<const N: usize>(a: [&str; N]) -> Vec<String> {
    a.iter().map(|s| s.to_string()).collect()
}

fn sandbox() -> FluteServer {
    FluteServer::new(cfg(Profile::Sandbox, false, None))
}

/// The argv a plan runs the CLI with; panics when the plan refuses.
fn argv(plan: ToolPlan) -> Vec<String> {
    match plan {
        ToolPlan::Run { args, .. } => args,
        ToolPlan::Refuse(e) => panic!("expected the CLI to run, got a refusal: {e:?}"),
    }
}

/// The answer a refused plan is given; panics when the plan runs the CLI.
fn refusal(plan: ToolPlan) -> ToolResult {
    match plan {
        ToolPlan::Refuse(e) => match finish::<Json>(Err(e), None) {
            Reply::Answer(r) => r,
            Reply::Forward(_) => panic!("an error must be answered"),
        },
        ToolPlan::Run { args, .. } => panic!("expected a refusal, the CLI would run {args:?}"),
    }
}

fn text<'a>(v: &'a Json, key: &str) -> &'a str {
    as_str(get(v, key).unwrap_or_else(|| panic!("{key} missing"))).unwrap().as_str()
}

fn s(v: &str) -> Json {
    Json::Str(v.to_string())
}

fn obj(members: Vec<(&str, Json)>) -> Json {
    Json::Object(members.into_iter().map(|(k, v)| (k.to_string(), v)).collect())
}

#[test]
fn util_tools_build_expected_argv() {
    let srv = sandbox();
    assert_eq!(argv(srv.ping(Empty {})), svec(["--profile", "sandbox", "--output", "json", "ping"]));
    assert_eq!(
        argv(srv.version(Empty {})),
        svec(["--profile", "sandbox", "--output", "json", "version"])
    );
}

#[test]
fn auth_status_maps_live_authenticated_shape() {
    let srv = sandbox();
    assert_eq!(
        argv(srv.auth_status(Empty {})),
        svec(["--profile", "sandbox", "--output", "json", "auth", "status"])
    );
    let answer = obj(vec![
        ("object", s("auth_status")),
        (
            "data",
            obj(vec![
                ("profile", s("sandbox")),
                ("api_base_url", s("https://sandbox.api.flute.com")),
                ("authenticated", Json::Bool(true)),
                ("client_id", s("cid-server")),
                ("merchant_id", s("m-42")),
            ]),
        ),
    ]);
    let res = srv.finish_auth_status(Ok(answer));
    assert_eq!(res.is_error, Some(false));
    let v = &res.content;
    assert_eq!(as_bool(get(v, "authenticated").unwrap()), Some(true));
    assert_eq!(text(v, "profile"), "sandbox");
    assert_eq!(text(v, "api_base_url"), "https://sandbox.api.flute.com");
    assert_eq!(text(v, "client_id"), "cid-server");
    assert_eq!(text(v, "merchant_id"), "m-42");
}

#[test]
fn auth_status_reports_failed_live_check_without_null_merchant() {
    let srv = sandbox();
    let answer = obj(vec![
        ("object", s("auth_status")),
        (
            "data",
            obj(vec![
                ("authenticated", Json::Bool(false)),
                ("client_id", s("cid-stored")),
                ("merchant_id", Json::Null),
            ]),
        ),
    ]);
    let v = srv.auth_status_report(&answer);
    assert_eq!(as_bool(get(&v, "authenticated").unwrap()), Some(false));
    assert_eq!(text(&v, "client_id"), "cid-stored");
    assert!(get(&v, "merchant_id").is_none(), "a null merchant_id must be omitted, got {v:?}");
}

#[test]
fn auth_status_falls_back_to_legacy_has_credentials() {
    let srv = sandbox();
    let answer = obj(vec![
        ("object", s("auth_status")),
        ("data", obj(vec![("has_credentials", Json::Bool(true))])),
    ]);
    let v = srv.auth_status_report(&answer);
    assert_eq!(as_bool(get(&v, "authenticated").unwrap()), Some(true));
    assert!(get(&v, "client_id").is_none());
}

#[test]
fn auth_status_without_data_is_not_authenticated() {
    let srv = FluteServer::new(cfg(Profile::Production, false, None));
    let v = srv.auth_status_report(&Json::Null);
    assert_eq!(as_bool(get(&v, "authenticated").unwrap()), Some(false));
    assert_eq!(text(&v, "profile"), "production");
    // a non-boolean `authenticated` does not fall back to the legacy flag
    let odd = obj(vec![("data", obj(vec![("authenticated", s("yes")), ("has_credentials", Json::Bool(true))]))]);
    assert_eq!(as_bool(get(&srv.auth_status_report(&odd), "authenticated").unwrap()), Some(false));
    let err = srv.finish_auth_status(Err(FluteError::Auth { message: "no credentials".into() }));
    assert_eq!(err.is_error, Some(true));
    assert_eq!(text(&err.content, "kind"), "auth");
}

#[test]
fn transactions_read_argv() {
    let srv = sandbox();
    assert_eq!(
        argv(srv.transactions_list(TransactionsList {
            limit: Some(25),
            unsettled: Some(true),
            ..Default::default()
        })),
        svec(["--profile", "sandbox", "--output", "json", "transactions", "list", "--limit", "25", "--unsettled"])
    );
    assert_eq!(
        argv(srv.transactions_get(Id { id: "t1".into() })),
        svec(["--profile", "sandbox", "--output", "json", "transactions", "get", "t1"])
    );
    assert_eq!(
        argv(srv.transactions_inspect(Id { id: "t2".into() })),
        svec(["--profile", "sandbox", "--output", "json", "transactions", "inspect", "t2"])
    );
}

#[test]
fn transactions_list_forwards_every_filter() {
    let srv = sandbox();
    assert_eq!(
        argv(srv.transactions_list(TransactionsList {
            limit: Some(5),
            page: Some(1),
            unsettled: Some(false),
            status: Some("Approved".into()),
            from: Some("2024-01-01".into()),
            to: Some("2024-02-01".into()),
        })),
        svec([
            "--profile", "sandbox", "--output", "json", "transactions", "list", "--limit", "5", "--page", "1",
            "--status", "Approved", "--from", "2024-01-01", "--to", "2024-02-01",
        ])
    );
}

#[test]
fn transactions_sale_argv() {
    let srv = sandbox();
    assert_eq!(
        argv(srv.transactions_sale(SaleArgs {
            amount: "10.00".into(),
            card: Some("4111111111111111".into()),
            exp: Some("12/27".into()),
            cvv: Some("123".into()),
            ..Default::default()
        })),
        svec([
            "--profile", "sandbox", "--output", "json", "transactions", "sale", "--amount", "10.00", "--card",
            "4111111111111111", "--exp", "12/27", "--cvv", "123",
        ])
    );
}

#[test]
fn transactions_sale_forwards_avs_billing_address() {
    let srv = sandbox();
    assert_eq!(
        argv(srv.transactions_sale(SaleArgs {
            amount: "10.00".into(),
            card: Some("4111111111111111".into()),
            billing_line1: Some("123 Test St".into()),
            billing_city: Some("Denver".into()),
            billing_state: Some("CO".into()),
            billing_state_id: Some(6),
            billing_postal_code: Some("80202".into()),
            billing_country_id: Some(1),
            ..Default::default()
        })),
        svec([
            "--profile", "sandbox", "--output", "json", "transactions", "sale", "--amount", "10.00", "--card",
            "4111111111111111", "--billing-line1", "123 Test St", "--billing-city", "Denver", "--billing-state",
            "CO", "--billing-state-id", "6", "--billing-postal-code", "80202", "--billing-country-id", "1",
        ])
    );
}

#[test]
fn transactions_auth_omits_billing_flags_when_unset() {
    let srv = sandbox();
    assert_eq!(
        argv(srv.transactions_auth(SaleArgs {
            amount: "5.00".into(),
            billing_city: Some("Denver".into()),
            ..Default::default()
        })),
        svec(["--profile", "sandbox", "--output", "json", "transactions", "auth", "--amount", "5.00", "--billing-city", "Denver"])
    );
}

#[test]
fn sale_forwards_every_optional_flag_in_order() {
    let srv = sandbox();
    assert_eq!(
        argv(srv.transactions_sale(SaleArgs {
            amount: "1.00".into(),
            tip_amount: Some("0.10".into()),
            customer_id: Some("c1".into()),
            payment_method_id: Some("pm1".into()),
            currency_id: Some(1),
            card_data_source: Some(7),
            reference_id: Some("r1".into()),
            billing_line2: Some("Apt 4".into()),
            ..Default::default()
        })),
        svec([
            "--profile", "sandbox", "--output", "json", "transactions", "sale", "--amount", "1.00", "--tip-amount",
            "0.10", "--customer-id", "c1", "--payment-method-id", "pm1", "--currency-id", "1",
            "--card-data-source", "7", "--reference-id", "r1", "--billing-line2", "Apt 4",
        ])
    );
}

#[test]
fn transactions_refund_argv() {
    let srv = sandbox();
    assert_eq!(
        argv(srv.transactions_refund(TxnRef { transaction_id: "t9".into(), amount: Some("5.00".into()) })),
        svec(["--profile", "sandbox", "--output", "json", "transactions", "refund", "--transaction-id", "t9", "--amount", "5.00"])
    );
}

#[test]
fn transactions_settle_argv() {
    let srv = sandbox();
    assert_eq!(
        argv(srv.transactions_settle(Settle { payment_processor_id: "pp1".into() })),
        svec(["--profile", "sandbox", "--output", "json", "transactions", "settle", "--payment-processor-id", "pp1"])
    );
}

#[test]
fn capture_void_and_tip_adjust_argv() {
    let srv = sandbox();
    assert_eq!(
        argv(srv.transactions_capture(TxnRef { transaction_id: "t1".into(), amount: None })),
        svec(["--profile", "sandbox", "--output", "json", "transactions", "capture", "--transaction-id", "t1"])
    );
    // a void never carries an amount
    assert_eq!(
        argv(srv.transactions_void(TxnRef { transaction_id: "t1".into(), amount: Some("1.00".into()) })),
        svec(["--profile", "sandbox", "--output", "json", "transactions", "void", "--transaction-id", "t1"])
    );
    assert_eq!(
        argv(srv.transactions_tip_adjust(TipAdjust { transaction_id: "t1".into(), tip_amount: "2.00".into() })),
        svec(["--profile", "sandbox", "--output", "json", "transactions", "tip-adjust", "--transaction-id", "t1", "--tip-amount", "2.00"])
    );
}

#[test]
fn prod_blocks_writes_without_override() {
    let srv = FluteServer::new(cfg(Profile::Production, false, None));
    let res = refusal(srv.transactions_sale(SaleArgs { amount: "10.00".into(), ..Default::default() }));
    assert_eq!(res.is_error, Some(true));
    assert_eq!(text(&res.content, "kind"), "client");
    assert_eq!(
        text(&res.content, "message"),
        "refusing transactions_sale on production profile; set FLUTE_MCP_ALLOW_PROD_WRITES=1 to enable writes"
    );
}

#[test]
fn prod_allows_writes_with_override() {
    let srv = FluteServer::new(cfg(Profile::Production, true, None));
    assert_eq!(
        argv(srv.transactions_sale(SaleArgs { amount: "10.00".into(), ..Default::default() })),
        svec(["--profile", "production", "--output", "json", "transactions", "sale", "--amount", "10.00"])
    );
}

#[test]
fn prod_allows_reads() {
    let srv = FluteServer::new(cfg(Profile::Production, false, None));
    assert_eq!(argv(srv.transactions_list(TransactionsList::default())).len(), 6);
}

#[test]
fn customers_argv() {
    let srv = sandbox();
    assert_eq!(
        argv(srv.customers_list(CustomersList { search: Some("ann".into()), ..Default::default() })),
        svec(["--profile", "sandbox", "--output", "json", "customers", "list", "--search", "ann"])
    );
    assert_eq!(
        argv(srv.customers_create(CustomerFields {
            first_name: Some("Ann".into()),
            email: Some("a@b.com".into()),
            ..Default::default()
        })),
        svec(["--profile", "sandbox", "--output", "json", "customers", "create", "--first-name", "Ann", "--email", "a@b.com"])
    );
    assert_eq!(
        argv(srv.customers_update(CustomerUpdate {
            id: "c1".into(),
            fields: CustomerFields { mobile: Some("5551234".into()), ..Default::default() },
        })),
        svec(["--profile", "sandbox", "--output", "json", "customers", "update", "c1", "--mobile", "5551234"])
    );
    assert_eq!(
        argv(srv.customers_remove_method(RemoveMethod { id: "c1".into(), method_id: "m9".into() })),
        svec(["--profile", "sandbox", "--output", "json", "customers", "remove-method", "c1", "m9", "--yes"])
    );
}

#[test]
fn customers_create_and_update_forward_billing_address() {
    let srv = sandbox();
    assert_eq!(
        argv(srv.customers_create(CustomerFields {
            first_name: Some("Ann".into()),
            billing_line1: Some("1 Main St".into()),
            billing_line2: Some("Suite 2".into()),
            billing_city: Some("Denver".into()),
            billing_country_id: Some(1),
            ..Default::default()
        })),
        svec([
            "--profile", "sandbox", "--output", "json", "customers", "create", "--first-name", "Ann",
            "--billing-line1", "1 Main St", "--billing-line2", "Suite 2", "--billing-city", "Denver",
            "--billing-country-id", "1",
        ])
    );
    assert_eq!(
        argv(srv.customers_update(CustomerUpdate {
            id: "c1".into(),
            fields: CustomerFields {
                billing_postal_code: Some("80202".into()),
                billing_state_id: Some(6),
                ..Default::default()
            },
        })),
        svec([
            "--profile", "sandbox", "--output", "json", "customers", "update", "c1", "--billing-state-id", "6",
            "--billing-postal-code", "80202",
        ])
    );
}

#[test]
fn customers_add_methods_argv() {
    let srv = sandbox();
    assert_eq!(
        argv(srv.customers_add_card(AddCard {
            id: "c1".into(),
            card: "4111111111111111".into(),
            exp: "12/27".into(),
            cvv: "123".into(),
            name: Some("Ann B".into()),
        })),
        svec([
            "--profile", "sandbox", "--output", "json", "customers", "add-card", "c1", "--card",
            "4111111111111111", "--exp", "12/27", "--cvv", "123", "--name", "Ann B",
        ])
    );
    assert_eq!(
        argv(srv.customers_add_ach(AddAch {
            id: "c1".into(),
            routing: "021000021".into(),
            account: "123456789".into(),
            account_type: "checking".into(),
            account_holder_type: "personal".into(),
            ..Default::default()
        })),
        svec([
            "--profile", "sandbox", "--output", "json", "customers", "add-ach", "c1", "--routing", "021000021",
            "--account", "123456789", "--account-type", "checking", "--account-holder-type", "personal",
        ])
    );
}

#[test]
fn customers_reads_argv() {
    let srv = sandbox();
    assert_eq!(
        argv(srv.customers_get(Id { id: "c1".into() })),
        svec(["--profile", "sandbox", "--output", "json", "customers", "get", "c1"])
    );
    assert_eq!(
        argv(srv.customers_methods(Id { id: "c1".into() })),
        svec(["--profile", "sandbox", "--output", "json", "customers", "methods", "c1"])
    );
    assert_eq!(
        argv(srv.customers_delete(Id { id: "c1".into() })),
        svec(["--profile", "sandbox", "--output", "json", "customers", "delete", "c1", "--yes"])
    );
}

#[test]
fn terminals_and_devices_argv() {
    let srv = sandbox();
    assert_eq!(
        argv(srv.terminals_status(Id { id: "term1".into() })),
        svec(["--profile", "sandbox", "--output", "json", "terminals", "status", "term1"])
    );
    assert_eq!(argv(srv.devices_list(Empty {})), svec(["--profile", "sandbox", "--output", "json", "devices", "list"]));
    assert_eq!(
        argv(srv.devices_ttp_jwt(DeviceId { device_id: "d1".into() })),
        svec(["--profile", "sandbox", "--output", "json", "devices", "ttp-jwt", "--device-id", "d1"])
    );
    assert_eq!(
        argv(srv.devices_register(DeviceRegister { id: "d1".into(), name: Some("Lane 1".into()) })),
        svec(["--profile", "sandbox", "--output", "json", "devices", "register", "d1", "--name", "Lane 1"])
    );
    assert_eq!(argv(srv.terminals_list(Empty {})), svec(["--profile", "sandbox", "--output", "json", "terminals", "list"]));
    assert_eq!(
        argv(srv.devices_get(Id { id: "d2".into() })),
        svec(["--profile", "sandbox", "--output", "json", "devices", "get", "d2"])
    );
    assert_eq!(
        argv(srv.devices_ttp_activate(Id { id: "d2".into() })),
        svec(["--profile", "sandbox", "--output", "json", "devices", "ttp-activate", "d2"])
    );
}

fn ach_move(holder: &str, company: Option<&str>) -> AchMove {
    AchMove {
        amount: "25.00".into(),
        payment_processor_id: "pp1".into(),
        routing: "021000021".into(),
        account: "123456789".into(),
        account_type: "checking".into(),
        account_holder_type: holder.into(),
        billing_line1: "1 Main St".into(),
        billing_city: "Austin".into(),
        billing_state: "TX".into(),
        billing_state_id: 44,
        billing_postal_code: "78701".into(),
        contact_first_name: "A".into(),
        contact_last_name: "B".into(),
        contact_email: "a@b.com".into(),
        contact_phone: "5125551234".into(),
        contact_company: company.map(String::from),
        ..Default::default()
    }
}

#[test]
fn ach_debit_argv() {
    let srv = sandbox();
    assert_eq!(
        argv(srv.ach_debit(ach_move("personal", None))),
        svec([
            "--profile", "sandbox", "--output", "json", "ach", "debit", "--amount", "25.00",
            "--payment-processor-id", "pp1", "--routing", "021000021", "--account", "123456789",
            "--account-type", "checking", "--account-holder-type", "personal", "--billing-line1", "1 Main St",
            "--billing-city", "Austin", "--billing-state", "TX", "--billing-state-id", "44",
            "--billing-postal-code", "78701", "--billing-country-id", "1", "--contact-first-name", "A",
            "--contact-last-name", "B", "--contact-email", "a@b.com", "--contact-phone", "5125551234",
            "--sec-code", "1", "--requester-ip", "127.0.0.1",
        ])
    );
}

#[test]
fn ach_debit_argv_forwards_contact_company() {
    let srv = sandbox();
    let args = argv(srv.ach_debit(ach_move("business", Some("Acme Corp"))));
    let pos = args.iter().position(|a| a == "--contact-company").expect("argv must include --contact-company");
    assert_eq!(args[pos + 1], "Acme Corp");
}

#[test]
fn ach_credit_void_refund_argv() {
    let srv = sandbox();
    let mut m = ach_move("personal", None);
    m.billing_country_id = Some(2);
    m.sec_code = Some(3);
    m.requester_ip = Some("10.0.0.1".into());
    let args = argv(srv.ach_credit(m));
    assert_eq!(&args[4..6], &svec(["ach", "credit"])[..]);
    let tail: Vec<&str> = args.iter().map(|s| s.as_str()).collect();
    assert!(tail.windows(2).any(|w| w == ["--billing-country-id", "2"]));
    assert!(tail.ends_with(&["--sec-code", "3", "--requester-ip", "10.0.0.1"]));
    assert_eq!(
        argv(srv.ach_void(Id { id: "a1".into() })),
        svec(["--profile", "sandbox", "--output", "json", "ach", "void", "a1"])
    );
    assert_eq!(
        argv(srv.ach_refund(Id { id: "a1".into() })),
        svec(["--profile", "sandbox", "--output", "json", "ach", "refund", "a1"])
    );
}

#[test]
fn pos_argv_has_no_wait() {
    let srv = sandbox();
    assert_eq!(
        argv(srv.pos_list(PosList { terminal_id: Some("term1".into()), ..Default::default() })),
        svec(["--profile", "sandbox", "--output", "json", "pos", "list", "--terminal-id", "term1"])
    );
    let c = argv(srv.pos_create(PosCreate {
        terminal_id: "term1".into(),
        amount: "10.00".into(),
        pos_device_id: "dev1".into(),
        reference_id: "ref-1".into(),
        ..Default::default()
    }));
    assert_eq!(
        c,
        svec([
            "--profile", "sandbox", "--output", "json", "pos", "create", "--terminal-id", "term1", "--amount",
            "10.00", "--pos-device-id", "dev1", "--reference-id", "ref-1",
        ])
    );
    assert!(!c.iter().any(|a| a == "--wait"), "pos_create must not pass --wait");
}

#[test]
fn pos_reads_and_cancel_argv() {
    let srv = sandbox();
    assert_eq!(
        argv(srv.pos_get(Id { id: "p1".into() })),
        svec(["--profile", "sandbox", "--output", "json", "pos", "get", "p1"])
    );
    assert_eq!(
        argv(srv.pos_cancel(Id { id: "p1".into() })),
        svec(["--profile", "sandbox", "--output", "json", "pos", "cancel", "p1"])
    );
}

#[test]
fn settlements_and_subscriptions_argv() {
    let srv = sandbox();
    assert_eq!(
        argv(srv.settlements_list(SettlementsList { status: Some("open".into()), ..Default::default() })),
        svec(["--profile", "sandbox", "--output", "json", "settlements", "list", "--status", "open"])
    );
    assert_eq!(
        argv(srv.subscriptions_create(SubscriptionCreate {
            customer_id: "c1".into(),
            payment_method_id: "pm1".into(),
            amount: "9.99".into(),
            number_of_payments: 12,
            payment_processor_id: "pp1".into(),
            ..Default::default()
        })),
        svec([
            "--profile", "sandbox", "--output", "json", "subscriptions", "create", "--customer-id", "c1",
            "--payment-method-id", "pm1", "--amount", "9.99", "--number-of-payments", "12",
            "--payment-processor-id", "pp1",
        ])
    );
    assert_eq!(
        argv(srv.subscriptions_list(SubscriptionsList {
            customer_id: Some("c1".into()),
            status: Some("active".into()),
            ..Default::default()
        })),
        svec(["--profile", "sandbox", "--output", "json", "subscriptions", "list", "--customer-id", "c1", "--status", "active"])
    );
}

#[test]
fn subscription_reads_and_terminate_argv() {
    let srv = sandbox();
    assert_eq!(
        argv(srv.subscriptions_get(Id { id: "s1".into() })),
        svec(["--profile", "sandbox", "--output", "json", "subscriptions", "get", "s1"])
    );
    assert_eq!(
        argv(srv.subscriptions_payments(Id { id: "s1".into() })),
        svec(["--profile", "sandbox", "--output", "json", "subscriptions", "payments", "s1"])
    );
    assert_eq!(
        argv(srv.subscriptions_terminate(Id { id: "s1".into() })),
        svec(["--profile", "sandbox", "--output", "json", "subscriptions", "terminate", "s1", "--yes"])
    );
    assert_eq!(
        argv(srv.settlements_get(Id { id: "b1".into() })),
        svec(["--profile", "sandbox", "--output", "json", "settlements", "get", "b1"])
    );
    let full = argv(srv.subscriptions_create(SubscriptionCreate {
        customer_id: "c1".into(),
        payment_method_id: "pm1".into(),
        amount: "1.00".into(),
        number_of_payments: 3,
        interval: Some("week".into()),
        payment_frequency: Some(2),
        currency_id: Some(1),
        transaction_type: Some(11),
        requester_ip: Some("1.2.3.4".into()),
        payment_processor_id: "pp1".into(),
        start_date: Some("2025-01-01".into()),
        sec_code: Some(1),
        faster: Some(true),
    }));
    assert_eq!(
        &full[6..],
        &svec([
            "--customer-id", "c1", "--payment-method-id", "pm1", "--amount", "1.00", "--number-of-payments", "3",
            "--interval", "week", "--payment-frequency", "2", "--currency-id", "1", "--transaction-type", "11",
            "--requester-ip", "1.2.3.4", "--payment-processor-id", "pp1", "--start-date", "2025-01-01",
            "--sec-code", "1", "--faster",
        ])[..]
    );
}

#[test]
fn keys_create_uses_per_call_merchant_id() {
    let srv = sandbox();
    assert_eq!(
        argv(srv.keys_create(KeyCreate { name: "ci".into(), merchant_id: Some("m-1".into()) })),
        svec(["--profile", "sandbox", "--output", "json", "keys", "create", "--merchant-id", "m-1", "--name", "ci"])
    );
}

#[test]
fn keys_create_falls_back_to_pinned_merchant_id() {
    let srv = FluteServer::new(cfg(Profile::Sandbox, false, Some("m-pinned")));
    assert_eq!(
        argv(srv.keys_create(KeyCreate { name: "ci".into(), merchant_id: None })),
        svec(["--profile", "sandbox", "--output", "json", "keys", "create", "--merchant-id", "m-pinned", "--name", "ci"])
    );
    // an empty per-call id counts as absent
    assert_eq!(
        argv(srv.keys_create(KeyCreate { name: "ci".into(), merchant_id: Some(String::new()) }))[7],
        "m-pinned"
    );
}

#[test]
fn keys_create_errors_without_any_merchant_id() {
    let srv = sandbox();
    let res = refusal(srv.keys_create(KeyCreate { name: "ci".into(), merchant_id: None }));
    assert_eq!(res.is_error, Some(true));
    assert_eq!(text(&res.content, "kind"), "client");
    assert_eq!(
        text(&res.content, "message"),
        "merchant_id required: pass `merchant_id` or set FLUTE_MERCHANT_ID"
    );
}

#[test]
fn keys_revoke_argv() {
    let srv = sandbox();
    assert_eq!(
        argv(srv.keys_revoke(KeyRevoke { client_id: "cid-1".into(), merchant_id: Some("m-1".into()) })),
        svec(["--profile", "sandbox", "--output", "json", "keys", "revoke", "--client-id", "cid-1", "--merchant-id", "m-1", "--yes"])
    );
}

#[test]
fn keys_and_tokens_list_merchant_filter() {
    let srv = sandbox();
    assert_eq!(
        argv(srv.keys_list(KeysList { merchant_id: None })),
        svec(["--profile", "sandbox", "--output", "json", "keys", "list"])
    );
    let pinned = FluteServer::new(cfg(Profile::Sandbox, false, Some("m-pinned")));
    assert_eq!(
        argv(pinned.keys_list(KeysList { merchant_id: Some(String::new()) })),
        svec(["--profile", "sandbox", "--output", "json", "keys", "list", "--merchant-id", "m-pinned"])
    );
    assert_eq!(
        argv(pinned.tokens_list(TokensList { merchant_id: Some("m-2".into()) })),
        svec(["--profile", "sandbox", "--output", "json", "tokens", "list", "--merchant-id", "m-2"])
    );
    assert_eq!(
        argv(pinned.tokens_create(TokenCreate { name: "n".into(), merchant_id: None })),
        svec(["--profile", "sandbox", "--output", "json", "tokens", "create", "--merchant-id", "m-pinned", "--name", "n"])
    );
    match pinned.tokens_revoke(TokenRevoke { client_id: "cid".into(), merchant_id: None }) {
        ToolPlan::Run { args, on_empty } => {
            assert_eq!(
                args,
                svec(["--profile", "sandbox", "--output", "json", "tokens", "revoke", "--client-id", "cid", "--merchant-id", "m-pinned", "--yes"])
            );
            assert!(on_empty.is_none());
        }
        other => panic!("expected a run, got {other:?}"),
    }
}

#[test]
fn production_blocks_a_write_in_every_group() {
    let srv = FluteServer::new(cfg(Profile::Production, false, None));
    let blocked = [
        srv.transactions_sale(SaleArgs { amount: "1.00".into(), ..Default::default() }),
        srv.ach_debit(AchMove { amount: "1.00".into(), ..Default::default() }),
        srv.customers_create(CustomerFields::default()),
        srv.devices_register(DeviceRegister { id: "d1".into(), ..Default::default() }),
        srv.pos_create(PosCreate {
            terminal_id: "t1".into(),
            amount: "1.00".into(),
            pos_device_id: "dev1".into(),
            reference_id: "ref1".into(),
            ..Default::default()
        }),
        srv.subscriptions_create(SubscriptionCreate {
            customer_id: "c1".into(),
            payment_method_id: "pm1".into(),
            amount: "1.00".into(),
            number_of_payments: 1,
            ..Default::default()
        }),
        srv.keys_create(KeyCreate { name: "n".into(), merchant_id: Some("m1".into()) }),
    ];
    for plan in blocked {
        let res = refusal(plan);
        assert_eq!(res.is_error, Some(true));
    }
}

#[test]
fn page_is_forwarded_verbatim_zero_based() {
    let srv = sandbox();
    assert_eq!(
        argv(srv.customers_list(CustomersList { page: Some(2), ..Default::default() })),
        svec(["--profile", "sandbox", "--output", "json", "customers", "list", "--page", "2"])
    );
    assert_eq!(
        argv(srv.transactions_list(TransactionsList { page: Some(0), ..Default::default() })),
        svec(["--profile", "sandbox", "--output", "json", "transactions", "list", "--page", "0"])
    );
}

fn answered(plan: ToolPlan) -> ToolResult {
    match plan {
        ToolPlan::Run { on_empty, .. } => match finish::<Json>(Ok(None), on_empty) {
            Reply::Answer(r) => r,
            Reply::Forward(_) => panic!("an empty success must be answered with an envelope"),
        },
        ToolPlan::Refuse(e) => panic!("unexpected refusal {e:?}"),
    }
}

#[test]
fn empty_success_synthesizes_structured_envelope() {
    let srv = sandbox();
    let del = answered(srv.customers_delete(Id { id: "c1".into() }));
    let rm = answered(srv.customers_remove_method(RemoveMethod { id: "c1".into(), method_id: "m9".into() }));
    let rev = answered(srv.keys_revoke(KeyRevoke { client_id: "cid1".into(), merchant_id: Some("m1".into()) }));

    assert_eq!(del.is_error, Some(false));
    let d = &del.content;
    assert_eq!(text(d, "object"), "customer_delete");
    assert_eq!(text(get(d, "data").unwrap(), "id"), "c1");
    assert_eq!(as_bool(get(get(d, "data").unwrap(), "deleted").unwrap()), Some(true));
    assert_eq!(text(get(d, "meta").unwrap(), "environment"), "sandbox");

    assert_eq!(rm.is_error, Some(false));
    let r = &rm.content;
    assert_eq!(text(r, "object"), "payment_method_removed");
    assert_eq!(text(get(r, "data").unwrap(), "method_id"), "m9");
    assert_eq!(as_bool(get(get(r, "data").unwrap(), "removed").unwrap()), Some(true));

    assert_eq!(rev.is_error, Some(false));
    let v = &rev.content;
    assert_eq!(text(v, "object"), "api_token_revoked");
    assert_eq!(text(get(v, "data").unwrap(), "client_id"), "cid1");
    assert_eq!(as_bool(get(get(v, "data").unwrap(), "revoked").unwrap()), Some(true));
}

#[test]
fn non_empty_success_and_plain_tools_forward_the_answer() {
    let srv = sandbox();
    match srv.customers_delete(Id { id: "c1".into() }) {
        ToolPlan::Run { on_empty, .. } => {
            assert!(matches!(finish(Ok(Some(7u8)), on_empty), Reply::Forward(Some(7))));
        }
        other => panic!("unexpected {other:?}"),
    }
    match srv.ping(Empty {}) {
        ToolPlan::Run { on_empty, .. } => {
            assert!(matches!(finish::<u8>(Ok(None), on_empty), Reply::Forward(None)));
        }
        other => panic!("unexpected {other:?}"),
    }
    match finish::<u8>(Err(FluteError::Timeout { secs: 5 }), None) {
        Reply::Answer(r) => assert_eq!(text(&r.content, "message"), "flute timed out after 5s"),
        Reply::Forward(_) => panic!("errors are answered"),
    }
}

#[test]
fn auth_status_never_forwards_other_fields() {
    let srv = sandbox();
    let answer = obj(vec![(
        "data",
        obj(vec![
            ("authenticated", Json::Bool(true)),
            ("client_id", s("cid")),
            ("client_secret", s("do-not-leak")),
            ("token", s("bearer-xyz")),
            ("merchant_id", Json::Null),
        ]),
    )]);
    let res = srv.finish_auth_status(Ok(answer));
    match &res.content {
        Json::Object(members) => {
            let keys: Vec<&str> = members.iter().map(|(k, _)| k.as_str()).collect();
            assert_eq!(keys, vec!["authenticated", "profile", "client_id"]);
        }
        other => panic!("report is not an object: {other:?}"),
    }
}

#[test]
fn write_guard_follows_the_environment() {
    let probe = || BinaryProbe {
        flute_bin: Some(FileFacts { is_file: true, mode: 0o100755 }),
        on_path: None,
    };
    let server = |profile: &str, allow: Option<&str>| {
        let env = EnvVars {
            profile: Some(profile.to_string()),
            binary: Some("/opt/flute".to_string()),
            allow_prod_writes: allow.map(String::from),
            ..Default::default()
        };
        FluteServer::new(Config::from_env(env, probe()).unwrap())
    };
    let void = |srv: &FluteServer| {
        srv.transactions_void(TxnRef { transaction_id: "t1".into(), amount: None })
    };
    for allow in [None, Some("false"), Some("0"), Some(""), Some("maybe")] {
        let res = refusal(void(&server("production", allow)));
        assert_eq!(text(&res.content, "kind"), "client");
        assert_eq!(
            text(&res.content, "message"),
            "refusing transactions_void on production profile; set FLUTE_MCP_ALLOW_PROD_WRITES=1 to enable writes"
        );
    }
    for allow in [Some("1"), Some(" TRUE "), Some("yes"), Some("On")] {
        assert_eq!(argv(void(&server("prod", allow)))[1], "production");
    }
    for allow in [None, Some("false")] {
        assert_eq!(argv(void(&server("sandbox", allow)))[1], "sandbox");
    }
}
