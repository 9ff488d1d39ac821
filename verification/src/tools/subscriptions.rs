//! Recurring subscription tools.
use vstd::prelude::*;

use crate::config::Profile;
use crate::server::{
    base_argv, flag, num_flag, push_flag, push_lit, push_num, push_num_flag, push_pair,
    push_switch, push_word, runs, switch, write_plan, FluteServer, ToolPlan,
};
use crate::server::{
    given, has_pair, has_word, lemma_flag_len, lemma_flag_pair, lemma_num_flag_len,
    lemma_switch_len, lemma_take_concat, lemma_has_pair_concat, lemma_has_pair_two,
    lemma_has_word_concat, lemma_num_flag_pair, lemma_switch_word,
};
use crate::text::decimal;
use crate::tools::Id;

verus! {

/// Parameters of `subscriptions_list`.
#[derive(Debug, Default)]
pub struct SubscriptionsList {
    pub limit: Option<u32>,
    pub page: Option<u32>,
    pub search: Option<String>,
    pub customer_id: Option<String>,
    /// Client-side status filter (e.g. "active", "paused", "terminated").
    pub status: Option<String>,
}

/// Parameters of `subscriptions_create`.
#[derive(Debug, Default)]
pub struct SubscriptionCreate {
    pub customer_id: String,
    /// Must be a vaulted and active payment method.
    pub payment_method_id: String,
    /// Amount as a decimal string, e.g. "10.00".
    pub amount: String,
    pub number_of_payments: u32,
    /// "day" | "week" | "month" (default month).
    pub interval: Option<String>,
    pub payment_frequency: Option<u32>,
    pub currency_id: Option<u32>,
    /// Default 2 = Sale; 11 = AchDebit.
    pub transaction_type: Option<u32>,
    pub requester_ip: Option<String>,
    /// Required by the API.
    pub payment_processor_id: String,
    pub start_date: Option<String>,
    pub sec_code: Option<u32>,
    pub faster: Option<bool>,
}

/// The arguments `subscriptions_get` runs the CLI with.
pub open spec fn subscriptions_get_argv(profile: Profile, p: Id) -> Seq<Seq<char>> {
    base_argv(profile)
        + seq!["subscriptions"@, "get"@, p.id@]
}

/// `subscriptions_get_argv` passes each parameter under its own flag: the fixed words come
/// first, and every given field adds exactly its own `--flag value`, holding
/// that field's value whatever the other fields are; nothing else is added.
pub proof fn lemma_subscriptions_get_argv_fields(profile: Profile, p: Id)
    ensures
        subscriptions_get_argv(profile, p).take(7) == base_argv(profile) + seq!["subscriptions"@, "get"@, p.id@],
        subscriptions_get_argv(profile, p).len() == 7,
{
    let a0 = base_argv(profile);
    let a1 = a0 + seq!["subscriptions"@, "get"@, p.id@];
    assert(subscriptions_get_argv(profile, p) == a1);
    assert(subscriptions_get_argv(profile, p).take(7) == base_argv(profile) + seq!["subscriptions"@, "get"@, p.id@]) by {
        assert(a1.take(7) =~= a1);
    }
    assert(subscriptions_get_argv(profile, p).len() == 7) by {
        assert(a0.len() == 4);
        assert(a1.len() == a0.len() + 3);
    }
}

/// The arguments `subscriptions_list` runs the CLI with.
pub open spec fn subscriptions_list_argv(profile: Profile, p: SubscriptionsList) -> Seq<Seq<char>> {
    base_argv(profile)
        + seq!["subscriptions"@, "list"@]
        + num_flag("--limit"@, p.limit)
        + num_flag("--page"@, p.page)
        + flag("--search"@, p.search)
        + flag("--customer-id"@, p.customer_id)
        + flag("--status"@, p.status)
}

/// `subscriptions_list_argv` passes each parameter under its own flag: the fixed words come
/// first, and every given field adds exactly its own `--flag value`, holding
/// that field's value whatever the other fields are; nothing else is added.
#[verifier::spinoff_prover]
#[verifier::rlimit(100)]
pub proof fn lemma_subscriptions_list_argv_fields(profile: Profile, p: SubscriptionsList)
    ensures
        subscriptions_list_argv(profile, p).take(6) == base_argv(profile) + seq!["subscriptions"@, "list"@],
        subscriptions_list_argv(profile, p).len() == 6 + 2 * given(p.limit) + 2 * given(p.page) + 2 * given(p.search) + 2 * given(p.customer_id) + 2 * given(p.status),
        p.limit matches Some(n) ==> has_pair(subscriptions_list_argv(profile, p), "--limit"@, decimal(n as nat)),
        p.page matches Some(n) ==> has_pair(subscriptions_list_argv(profile, p), "--page"@, decimal(n as nat)),
        p.search matches Some(v) ==> has_pair(subscriptions_list_argv(profile, p), "--search"@, v@),
        p.customer_id matches Some(v) ==> has_pair(subscriptions_list_argv(profile, p), "--customer-id"@, v@),
        p.status matches Some(v) ==> has_pair(subscriptions_list_argv(profile, p), "--status"@, v@),
{
    let a0 = base_argv(profile);
    let a1 = a0 + seq!["subscriptions"@, "list"@];
    let a2 = a1 + num_flag("--limit"@, p.limit);
    let a3 = a2 + num_flag("--page"@, p.page);
    let a4 = a3 + flag("--search"@, p.search);
    let a5 = a4 + flag("--customer-id"@, p.customer_id);
    let a6 = a5 + flag("--status"@, p.status);
    assert(subscriptions_list_argv(profile, p) == a6);
    assert(subscriptions_list_argv(profile, p).take(6) == base_argv(profile) + seq!["subscriptions"@, "list"@]) by {
        lemma_take_concat(a5, flag("--status"@, p.status), 6);
        lemma_take_concat(a4, flag("--customer-id"@, p.customer_id), 6);
        lemma_take_concat(a3, flag("--search"@, p.search), 6);
        lemma_take_concat(a2, num_flag("--page"@, p.page), 6);
        lemma_take_concat(a1, num_flag("--limit"@, p.limit), 6);
        assert(a1.take(6) =~= a1);
    }
    assert(subscriptions_list_argv(profile, p).len() == 6 + 2 * given(p.limit) + 2 * given(p.page) + 2 * given(p.search) + 2 * given(p.customer_id) + 2 * given(p.status)) by {
        assert(a0.len() == 4);
        assert(a1.len() == a0.len() + 2);
        lemma_num_flag_len("--limit"@, p.limit);
        assert(a2.len() == a1.len() + 2 * given(p.limit));
        lemma_num_flag_len("--page"@, p.page);
        assert(a3.len() == a2.len() + 2 * given(p.page));
        lemma_flag_len("--search"@, p.search);
        assert(a4.len() == a3.len() + 2 * given(p.search));
        lemma_flag_len("--customer-id"@, p.customer_id);
        assert(a5.len() == a4.len() + 2 * given(p.customer_id));
        lemma_flag_len("--status"@, p.status);
        assert(a6.len() == a5.len() + 2 * given(p.status));
    }
    assert(p.limit matches Some(n) ==> has_pair(subscriptions_list_argv(profile, p), "--limit"@, decimal(n as nat))) by {
        match p.limit {
        Some(n) => {
            lemma_num_flag_pair("--limit"@, p.limit);
            lemma_has_pair_concat(a1, num_flag("--limit"@, p.limit), "--limit"@, decimal(n as nat));
            lemma_has_pair_concat(a2, num_flag("--page"@, p.page), "--limit"@, decimal(n as nat));
            lemma_has_pair_concat(a3, flag("--search"@, p.search), "--limit"@, decimal(n as nat));
            lemma_has_pair_concat(a4, flag("--customer-id"@, p.customer_id), "--limit"@, decimal(n as nat));
            lemma_has_pair_concat(a5, flag("--status"@, p.status), "--limit"@, decimal(n as nat));
        },
        None => {},
    }
    }
    assert(p.page matches Some(n) ==> has_pair(subscriptions_list_argv(profile, p), "--page"@, decimal(n as nat))) by {
        match p.page {
        Some(n) => {
            lemma_num_flag_pair("--page"@, p.page);
            lemma_has_pair_concat(a2, num_flag("--page"@, p.page), "--page"@, decimal(n as nat));
            lemma_has_pair_concat(a3, flag("--search"@, p.search), "--page"@, decimal(n as nat));
            lemma_has_pair_concat(a4, flag("--customer-id"@, p.customer_id), "--page"@, decimal(n as nat));
            lemma_has_pair_concat(a5, flag("--status"@, p.status), "--page"@, decimal(n as nat));
        },
        None => {},
    }
    }
    assert(p.search matches Some(v) ==> has_pair(subscriptions_list_argv(profile, p), "--search"@, v@)) by {
        match p.search {
        Some(v) => {
            lemma_flag_pair("--search"@, p.search);
            lemma_has_pair_concat(a3, flag("--search"@, p.search), "--search"@, v@);
            lemma_has_pair_concat(a4, flag("--customer-id"@, p.customer_id), "--search"@, v@);
            lemma_has_pair_concat(a5, flag("--status"@, p.status), "--search"@, v@);
        },
        None => {},
    }
    }
    assert(p.customer_id matches Some(v) ==> has_pair(subscriptions_list_argv(profile, p), "--customer-id"@, v@)) by {
        match p.customer_id {
        Some(v) => {
            lemma_flag_pair("--customer-id"@, p.customer_id);
            lemma_has_pair_concat(a4, flag("--customer-id"@, p.customer_id), "--customer-id"@, v@);
            lemma_has_pair_concat(a5, flag("--status"@, p.status), "--customer-id"@, v@);
        },
        None => {},
    }
    }
    assert(p.status matches Some(v) ==> has_pair(subscriptions_list_argv(profile, p), "--status"@, v@)) by {
        match p.status {
        Some(v) => {
            lemma_flag_pair("--status"@, p.status);
            lemma_has_pair_concat(a5, flag("--status"@, p.status), "--status"@, v@);
        },
        None => {},
    }
    }
}

/// The arguments `subscriptions_payments` runs the CLI with.
pub open spec fn subscriptions_payments_argv(profile: Profile, p: Id) -> Seq<Seq<char>> {
    base_argv(profile)
        + seq!["subscriptions"@, "payments"@, p.id@]
}

/// `subscriptions_payments_argv` passes each parameter under its own flag: the fixed words come
/// first, and every given field adds exactly its own `--flag value`, holding
/// that field's value whatever the other fields are; nothing else is added.
pub proof fn lemma_subscriptions_payments_argv_fields(profile: Profile, p: Id)
    ensures
        subscriptions_payments_argv(profile, p).take(7) == base_argv(profile) + seq!["subscriptions"@, "payments"@, p.id@],
        subscriptions_payments_argv(profile, p).len() == 7,
{
    let a0 = base_argv(profile);
    let a1 = a0 + seq!["subscriptions"@, "payments"@, p.id@];
    assert(subscriptions_payments_argv(profile, p) == a1);
    assert(subscriptions_payments_argv(profile, p).take(7) == base_argv(profile) + seq!["subscriptions"@, "payments"@, p.id@]) by {
        assert(a1.take(7) =~= a1);
    }
    assert(subscriptions_payments_argv(profile, p).len() == 7) by {
        assert(a0.len() == 4);
        assert(a1.len() == a0.len() + 3);
    }
}

/// The arguments `subscriptions_create` runs the CLI with.
pub open spec fn subscriptions_create_argv(profile: Profile, p: SubscriptionCreate) -> Seq<Seq<char>> {
    base_argv(profile)
        + seq!["subscriptions"@, "create"@]
        + seq!["--customer-id"@, p.customer_id@]
        + seq!["--payment-method-id"@, p.payment_method_id@]
        + seq!["--amount"@, p.amount@]
        + seq!["--number-of-payments"@, decimal(p.number_of_payments as nat)]
        + flag("--interval"@, p.interval)
        + num_flag("--payment-frequency"@, p.payment_frequency)
        + num_flag("--currency-id"@, p.currency_id)
        + num_flag("--transaction-type"@, p.transaction_type)
        + flag("--requester-ip"@, p.requester_ip)
        + seq!["--payment-processor-id"@, p.payment_processor_id@]
        + flag("--start-date"@, p.start_date)
        + num_flag("--sec-code"@, p.sec_code)
        + switch("--faster"@, p.faster)
}

/// `subscriptions_create_argv` passes each parameter under its own flag: the fixed words come
/// first, and every given field adds exactly its own `--flag value`, holding
/// that field's value whatever the other fields are; nothing else is added.
#[verifier::spinoff_prover]
#[verifier::rlimit(100)]
pub proof fn lemma_subscriptions_create_argv_fields(profile: Profile, p: SubscriptionCreate)
    ensures
        subscriptions_create_argv(profile, p).take(14) == base_argv(profile) + seq!["subscriptions"@, "create"@] + seq!["--customer-id"@, p.customer_id@] + seq!["--payment-method-id"@, p.payment_method_id@] + seq!["--amount"@, p.amount@] + seq!["--number-of-payments"@, decimal(p.number_of_payments as nat)],
        subscriptions_create_argv(profile, p).len() == 16 + 2 * given(p.interval) + 2 * given(p.payment_frequency) + 2 * given(p.currency_id) + 2 * given(p.transaction_type) + 2 * given(p.requester_ip) + 2 * given(p.start_date) + 2 * given(p.sec_code) + (if p.faster == Some(true) { 1int } else { 0int }),
        p.interval matches Some(v) ==> has_pair(subscriptions_create_argv(profile, p), "--interval"@, v@),
        p.payment_frequency matches Some(n) ==> has_pair(subscriptions_create_argv(profile, p), "--payment-frequency"@, decimal(n as nat)),
        p.currency_id matches Some(n) ==> has_pair(subscriptions_create_argv(profile, p), "--currency-id"@, decimal(n as nat)),
        p.transaction_type matches Some(n) ==> has_pair(subscriptions_create_argv(profile, p), "--transaction-type"@, decimal(n as nat)),
        p.requester_ip matches Some(v) ==> has_pair(subscriptions_create_argv(profile, p), "--requester-ip"@, v@),
        has_pair(subscriptions_create_argv(profile, p), "--payment-processor-id"@, p.payment_processor_id@),
        p.start_date matches Some(v) ==> has_pair(subscriptions_create_argv(profile, p), "--start-date"@, v@),
        p.sec_code matches Some(n) ==> has_pair(subscriptions_create_argv(profile, p), "--sec-code"@, decimal(n as nat)),
        p.faster == Some(true) ==> has_word(subscriptions_create_argv(profile, p), "--faster"@),
{
    let a0 = base_argv(profile);
    let a1 = a0 + seq!["subscriptions"@, "create"@];
    let a2 = a1 + seq!["--customer-id"@, p.customer_id@];
    let a3 = a2 + seq!["--payment-method-id"@, p.payment_method_id@];
    let a4 = a3 + seq!["--amount"@, p.amount@];
    let a5 = a4 + seq!["--number-of-payments"@, decimal(p.number_of_payments as nat)];
    let a6 = a5 + flag("--interval"@, p.interval);
    let a7 = a6 + num_flag("--payment-frequency"@, p.payment_frequency);
    let a8 = a7 + num_flag("--currency-id"@, p.currency_id);
    let a9 = a8 + num_flag("--transaction-type"@, p.transaction_type);
    let a10 = a9 + flag("--requester-ip"@, p.requester_ip);
    let a11 = a10 + seq!["--payment-processor-id"@, p.payment_processor_id@];
    let a12 = a11 + flag("--start-date"@, p.start_date);
    let a13 = a12 + num_flag("--sec-code"@, p.sec_code);
    let a14 = a13 + switch("--faster"@, p.faster);
    assert(subscriptions_create_argv(profile, p) == a14);
    assert(subscriptions_create_argv(profile, p).take(14) == base_argv(profile) + seq!["subscriptions"@, "create"@] + seq!["--customer-id"@, p.customer_id@] + seq!["--payment-method-id"@, p.payment_method_id@] + seq!["--amount"@, p.amount@] + seq!["--number-of-payments"@, decimal(p.number_of_payments as nat)]) by {
        lemma_take_concat(a13, switch("--faster"@, p.faster), 14);
        lemma_take_concat(a12, num_flag("--sec-code"@, p.sec_code), 14);
        lemma_take_concat(a11, flag("--start-date"@, p.start_date), 14);
        lemma_take_concat(a10, seq!["--payment-processor-id"@, p.payment_processor_id@], 14);
        lemma_take_concat(a9, flag("--requester-ip"@, p.requester_ip), 14);
        lemma_take_concat(a8, num_flag("--transaction-type"@, p.transaction_type), 14);
        lemma_take_concat(a7, num_flag("--currency-id"@, p.currency_id), 14);
        lemma_take_concat(a6, num_flag("--payment-frequency"@, p.payment_frequency), 14);
        lemma_take_concat(a5, flag("--interval"@, p.interval), 14);
        assert(a5.take(14) =~= a5);
    }
    assert(subscriptions_create_argv(profile, p).len() == 16 + 2 * given(p.interval) + 2 * given(p.payment_frequency) + 2 * given(p.currency_id) + 2 * given(p.transaction_type) + 2 * given(p.requester_ip) + 2 * given(p.start_date) + 2 * given(p.sec_code) + (if p.faster == Some(true) { 1int } else { 0int })) by {
        assert(a0.len() == 4);
        assert(a1.len() == a0.len() + 2);
        assert(a2.len() == a1.len() + 2);
        assert(a3.len() == a2.len() + 2);
        assert(a4.len() == a3.len() + 2);
        assert(a5.len() == a4.len() + 2);
        lemma_flag_len("--interval"@, p.interval);
        assert(a6.len() == a5.len() + 2 * given(p.interval));
        lemma_num_flag_len("--payment-frequency"@, p.payment_frequency);
        assert(a7.len() == a6.len() + 2 * given(p.payment_frequency));
        lemma_num_flag_len("--currency-id"@, p.currency_id);
        assert(a8.len() == a7.len() + 2 * given(p.currency_id));
        lemma_num_flag_len("--transaction-type"@, p.transaction_type);
        assert(a9.len() == a8.len() + 2 * given(p.transaction_type));
        lemma_flag_len("--requester-ip"@, p.requester_ip);
        assert(a10.len() == a9.len() + 2 * given(p.requester_ip));
        assert(a11.len() == a10.len() + 2);
        lemma_flag_len("--start-date"@, p.start_date);
        assert(a12.len() == a11.len() + 2 * given(p.start_date));
        lemma_num_flag_len("--sec-code"@, p.sec_code);
        assert(a13.len() == a12.len() + 2 * given(p.sec_code));
        lemma_switch_len("--faster"@, p.faster);
        assert(a14.len() == a13.len() + (if p.faster == Some(true) { 1int } else { 0int }));
    }
    assert(p.interval matches Some(v) ==> has_pair(subscriptions_create_argv(profile, p), "--interval"@, v@)) by {
        match p.interval {
        Some(v) => {
            lemma_flag_pair("--interval"@, p.interval);
            lemma_has_pair_concat(a5, flag("--interval"@, p.interval), "--interval"@, v@);
            lemma_has_pair_concat(a6, num_flag("--payment-frequency"@, p.payment_frequency), "--interval"@, v@);
            lemma_has_pair_concat(a7, num_flag("--currency-id"@, p.currency_id), "--interval"@, v@);
            lemma_has_pair_concat(a8, num_flag("--transaction-type"@, p.transaction_type), "--interval"@, v@);
            lemma_has_pair_concat(a9, flag("--requester-ip"@, p.requester_ip), "--interval"@, v@);
            lemma_has_pair_concat(a10, seq!["--payment-processor-id"@, p.payment_processor_id@], "--interval"@, v@);
            lemma_has_pair_concat(a11, flag("--start-date"@, p.start_date), "--interval"@, v@);
            lemma_has_pair_concat(a12, num_flag("--sec-code"@, p.sec_code), "--interval"@, v@);
            lemma_has_pair_concat(a13, switch("--faster"@, p.faster), "--interval"@, v@);
        },
        None => {},
    }
    }
    assert(p.payment_frequency matches Some(n) ==> has_pair(subscriptions_create_argv(profile, p), "--payment-frequency"@, decimal(n as nat))) by {
        match p.payment_frequency {
        Some(n) => {
            lemma_num_flag_pair("--payment-frequency"@, p.payment_frequency);
            lemma_has_pair_concat(a6, num_flag("--payment-frequency"@, p.payment_frequency), "--payment-frequency"@, decimal(n as nat));
            lemma_has_pair_concat(a7, num_flag("--currency-id"@, p.currency_id), "--payment-frequency"@, decimal(n as nat));
            lemma_has_pair_concat(a8, num_flag("--transaction-type"@, p.transaction_type), "--payment-frequency"@, decimal(n as nat));
            lemma_has_pair_concat(a9, flag("--requester-ip"@, p.requester_ip), "--payment-frequency"@, decimal(n as nat));
            lemma_has_pair_concat(a10, seq!["--payment-processor-id"@, p.payment_processor_id@], "--payment-frequency"@, decimal(n as nat));
            lemma_has_pair_concat(a11, flag("--start-date"@, p.start_date), "--payment-frequency"@, decimal(n as nat));
            lemma_has_pair_concat(a12, num_flag("--sec-code"@, p.sec_code), "--payment-frequency"@, decimal(n as nat));
            lemma_has_pair_concat(a13, switch("--faster"@, p.faster), "--payment-frequency"@, decimal(n as nat));
        },
        None => {},
    }
    }
    assert(p.currency_id matches Some(n) ==> has_pair(subscriptions_create_argv(profile, p), "--currency-id"@, decimal(n as nat))) by {
        match p.currency_id {
        Some(n) => {
            lemma_num_flag_pair("--currency-id"@, p.currency_id);
            lemma_has_pair_concat(a7, num_flag("--currency-id"@, p.currency_id), "--currency-id"@, decimal(n as nat));
            lemma_has_pair_concat(a8, num_flag("--transaction-type"@, p.transaction_type), "--currency-id"@, decimal(n as nat));
            lemma_has_pair_concat(a9, flag("--requester-ip"@, p.requester_ip), "--currency-id"@, decimal(n as nat));
            lemma_has_pair_concat(a10, seq!["--payment-processor-id"@, p.payment_processor_id@], "--currency-id"@, decimal(n as nat));
            lemma_has_pair_concat(a11, flag("--start-date"@, p.start_date), "--currency-id"@, decimal(n as nat));
            lemma_has_pair_concat(a12, num_flag("--sec-code"@, p.sec_code), "--currency-id"@, decimal(n as nat));
            lemma_has_pair_concat(a13, switch("--faster"@, p.faster), "--currency-id"@, decimal(n as nat));
        },
        None => {},
    }
    }
    assert(p.transaction_type matches Some(n) ==> has_pair(subscriptions_create_argv(profile, p), "--transaction-type"@, decimal(n as nat))) by {
        match p.transaction_type {
        Some(n) => {
            lemma_num_flag_pair("--transaction-type"@, p.transaction_type);
            lemma_has_pair_concat(a8, num_flag("--transaction-type"@, p.transaction_type), "--transaction-type"@, decimal(n as nat));
            lemma_has_pair_concat(a9, flag("--requester-ip"@, p.requester_ip), "--transaction-type"@, decimal(n as nat));
            lemma_has_pair_concat(a10, seq!["--payment-processor-id"@, p.payment_processor_id@], "--transaction-type"@, decimal(n as nat));
            lemma_has_pair_concat(a11, flag("--start-date"@, p.start_date), "--transaction-type"@, decimal(n as nat));
            lemma_has_pair_concat(a12, num_flag("--sec-code"@, p.sec_code), "--transaction-type"@, decimal(n as nat));
            lemma_has_pair_concat(a13, switch("--faster"@, p.faster), "--transaction-type"@, decimal(n as nat));
        },
        None => {},
    }
    }
    assert(p.requester_ip matches Some(v) ==> has_pair(subscriptions_create_argv(profile, p), "--requester-ip"@, v@)) by {
        match p.requester_ip {
        Some(v) => {
            lemma_flag_pair("--requester-ip"@, p.requester_ip);
            lemma_has_pair_concat(a9, flag("--requester-ip"@, p.requester_ip), "--requester-ip"@, v@);
            lemma_has_pair_concat(a10, seq!["--payment-processor-id"@, p.payment_processor_id@], "--requester-ip"@, v@);
            lemma_has_pair_concat(a11, flag("--start-date"@, p.start_date), "--requester-ip"@, v@);
            lemma_has_pair_concat(a12, num_flag("--sec-code"@, p.sec_code), "--requester-ip"@, v@);
            lemma_has_pair_concat(a13, switch("--faster"@, p.faster), "--requester-ip"@, v@);
        },
        None => {},
    }
    }
    assert(has_pair(subscriptions_create_argv(profile, p), "--payment-processor-id"@, p.payment_processor_id@)) by {
        lemma_has_pair_two("--payment-processor-id"@, p.payment_processor_id@);
        lemma_has_pair_concat(a10, seq!["--payment-processor-id"@, p.payment_processor_id@], "--payment-processor-id"@, p.payment_processor_id@);
        lemma_has_pair_concat(a11, flag("--start-date"@, p.start_date), "--payment-processor-id"@, p.payment_processor_id@);
        lemma_has_pair_concat(a12, num_flag("--sec-code"@, p.sec_code), "--payment-processor-id"@, p.payment_processor_id@);
        lemma_has_pair_concat(a13, switch("--faster"@, p.faster), "--payment-processor-id"@, p.payment_processor_id@);
    }
    assert(p.start_date matches Some(v) ==> has_pair(subscriptions_create_argv(profile, p), "--start-date"@, v@)) by {
        match p.start_date {
        Some(v) => {
            lemma_flag_pair("--start-date"@, p.start_date);
            lemma_has_pair_concat(a11, flag("--start-date"@, p.start_date), "--start-date"@, v@);
            lemma_has_pair_concat(a12, num_flag("--sec-code"@, p.sec_code), "--start-date"@, v@);
            lemma_has_pair_concat(a13, switch("--faster"@, p.faster), "--start-date"@, v@);
        },
        None => {},
    }
    }
    assert(p.sec_code matches Some(n) ==> has_pair(subscriptions_create_argv(profile, p), "--sec-code"@, decimal(n as nat))) by {
        match p.sec_code {
        Some(n) => {
            lemma_num_flag_pair("--sec-code"@, p.sec_code);
            lemma_has_pair_concat(a12, num_flag("--sec-code"@, p.sec_code), "--sec-code"@, decimal(n as nat));
            lemma_has_pair_concat(a13, switch("--faster"@, p.faster), "--sec-code"@, decimal(n as nat));
        },
        None => {},
    }
    }
    assert(p.faster == Some(true) ==> has_word(subscriptions_create_argv(profile, p), "--faster"@)) by {
        if p.faster == Some(true) {
        lemma_switch_word("--faster"@, p.faster);
        lemma_has_word_concat(a13, switch("--faster"@, p.faster), "--faster"@);
    }
    }
}

/// The arguments `subscriptions_terminate` runs the CLI with.
pub open spec fn subscriptions_terminate_argv(profile: Profile, p: Id) -> Seq<Seq<char>> {
    base_argv(profile)
        + seq!["subscriptions"@, "terminate"@, p.id@, "--yes"@]
}

/// `subscriptions_terminate_argv` passes each parameter under its own flag: the fixed words come
/// first, and every given field adds exactly its own `--flag value`, holding
/// that field's value whatever the other fields are; nothing else is added.
pub proof fn lemma_subscriptions_terminate_argv_fields(profile: Profile, p: Id)
    ensures
        subscriptions_terminate_argv(profile, p).take(8) == base_argv(profile) + seq!["subscriptions"@, "terminate"@, p.id@, "--yes"@],
        subscriptions_terminate_argv(profile, p).len() == 8,
{
    let a0 = base_argv(profile);
    let a1 = a0 + seq!["subscriptions"@, "terminate"@, p.id@, "--yes"@];
    assert(subscriptions_terminate_argv(profile, p) == a1);
    assert(subscriptions_terminate_argv(profile, p).take(8) == base_argv(profile) + seq!["subscriptions"@, "terminate"@, p.id@, "--yes"@]) by {
        assert(a1.take(8) =~= a1);
    }
    assert(subscriptions_terminate_argv(profile, p).len() == 8) by {
        assert(a0.len() == 4);
        assert(a1.len() == a0.len() + 4);
    }
}

impl FluteServer {
    /// Get a subscription by id. Safe to retry.
    pub fn subscriptions_get(&self, p: Id) -> (res: ToolPlan)
        ensures
            runs(res, subscriptions_get_argv(self.config.profile, p)),
    {
        let Id { id } = p;
        let mut args = self.base_args();
        push_lit(&mut args, "subscriptions");
        push_lit(&mut args, "get");
        push_word(&mut args, id);
        assert(args.deep_view() =~= subscriptions_get_argv(self.config.profile, p));
        ToolPlan::Run { args, on_empty: None }
    }

    /// List subscriptions. Safe to retry.
    pub fn subscriptions_list(&self, p: SubscriptionsList) -> (res: ToolPlan)
        ensures
            runs(res, subscriptions_list_argv(self.config.profile, p)),
    {
        let SubscriptionsList { limit, page, search, customer_id, status } = p;
        let mut args = self.base_args();
        push_lit(&mut args, "subscriptions");
        push_lit(&mut args, "list");
        push_num_flag(&mut args, "--limit", limit);
        push_num_flag(&mut args, "--page", page);
        push_flag(&mut args, "--search", search);
        push_flag(&mut args, "--customer-id", customer_id);
        push_flag(&mut args, "--status", status);
        assert(args.deep_view() =~= subscriptions_list_argv(self.config.profile, p));
        ToolPlan::Run { args, on_empty: None }
    }

    /// List the payments for a subscription. Safe to retry.
    pub fn subscriptions_payments(&self, p: Id) -> (res: ToolPlan)
        ensures
            runs(res, subscriptions_payments_argv(self.config.profile, p)),
    {
        let Id { id } = p;
        let mut args = self.base_args();
        push_lit(&mut args, "subscriptions");
        push_lit(&mut args, "payments");
        push_word(&mut args, id);
        assert(args.deep_view() =~= subscriptions_payments_argv(self.config.profile, p));
        ToolPlan::Run { args, on_empty: None }
    }

    /// Create a recurring subscription. NOT idempotent.
    pub fn subscriptions_create(&self, p: SubscriptionCreate) -> (res: ToolPlan)
        ensures
            write_plan(self.config, res, "subscriptions_create"@, subscriptions_create_argv(self.config.profile, p)),
    {
        if let Some(e) = self.guard_write("subscriptions_create") {
            return ToolPlan::Refuse(e);
        }
        let SubscriptionCreate { customer_id, payment_method_id, amount, number_of_payments, interval, payment_frequency, currency_id, transaction_type, requester_ip, payment_processor_id, start_date, sec_code, faster } = p;
        let mut args = self.base_args();
        push_lit(&mut args, "subscriptions");
        push_lit(&mut args, "create");
        push_pair(&mut args, "--customer-id", customer_id);
        push_pair(&mut args, "--payment-method-id", payment_method_id);
        push_pair(&mut args, "--amount", amount);
        push_num(&mut args, "--number-of-payments", number_of_payments);
        push_flag(&mut args, "--interval", interval);
        push_num_flag(&mut args, "--payment-frequency", payment_frequency);
        push_num_flag(&mut args, "--currency-id", currency_id);
        push_num_flag(&mut args, "--transaction-type", transaction_type);
        push_flag(&mut args, "--requester-ip", requester_ip);
        push_pair(&mut args, "--payment-processor-id", payment_processor_id);
        push_flag(&mut args, "--start-date", start_date);
        push_num_flag(&mut args, "--sec-code", sec_code);
        push_switch(&mut args, "--faster", faster);
        assert(args.deep_view() =~= subscriptions_create_argv(self.config.profile, p));
        ToolPlan::Run { args, on_empty: None }
    }

    /// Terminate a subscription.
    pub fn subscriptions_terminate(&self, p: Id) -> (res: ToolPlan)
        ensures
            write_plan(self.config, res, "subscriptions_terminate"@, subscriptions_terminate_argv(self.config.profile, p)),
    {
        if let Some(e) = self.guard_write("subscriptions_terminate") {
            return ToolPlan::Refuse(e);
        }
        let Id { id } = p;
        let mut args = self.base_args();
        push_lit(&mut args, "subscriptions");
        push_lit(&mut args, "terminate");
        push_word(&mut args, id);
        push_lit(&mut args, "--yes");
        assert(args.deep_view() =~= subscriptions_terminate_argv(self.config.profile, p));
        ToolPlan::Run { args, on_empty: None }
    }
}

} // verus!
