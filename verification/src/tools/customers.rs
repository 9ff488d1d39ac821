//! Customer and vaulted payment-method tools.
use vstd::prelude::*;

use crate::config::{profile_str, Profile};
use crate::json::{json_get, member_lookup, Json, JsonV};
use crate::server::{
    base_argv, flag, guarded, num_flag, push_flag, push_lit, push_num_flag, push_pair, push_word,
    refuses, runs, runs_with_ack, write_plan, FluteServer, ToolPlan,
};
use crate::server::{
    given, has_pair, lemma_flag_len, lemma_flag_pair, lemma_num_flag_len, lemma_take_concat,
    lemma_has_pair_concat, lemma_num_flag_pair,
};
use crate::text::decimal;
use crate::tools::{ack_envelope, ack_envelope_view, json_object, Id};
use crate::tools::address::{billing_argv, lemma_billing_argv_fields, BillingArgs};

verus! {

/// Parameters of `customers_list`.
#[derive(Debug, Default)]
pub struct CustomersList {
    pub limit: Option<u32>,
    /// Zero-based page index: 0 (or omitted) is the first page.
    pub page: Option<u32>,
    pub search: Option<String>,
}

/// The fields `create` sets and `update` changes. On update, supplying any billing field replaces the stored address wholesale.
#[derive(Debug, Default)]
pub struct CustomerFields {
    pub first_name: Option<String>,
    pub last_name: Option<String>,
    pub email: Option<String>,
    pub company: Option<String>,
    pub mobile: Option<String>,
    /// AVS billing street line 1.
    pub billing_line1: Option<String>,
    /// AVS billing street line 2.
    pub billing_line2: Option<String>,
    /// AVS billing city.
    pub billing_city: Option<String>,
    /// AVS billing state name, e.g. "CO".
    pub billing_state: Option<String>,
    /// AVS billing numeric state id.
    pub billing_state_id: Option<u32>,
    /// AVS billing postal / ZIP code.
    pub billing_postal_code: Option<String>,
    /// AVS billing numeric country id; 1 = US.
    pub billing_country_id: Option<u32>,
}

/// Parameters of `customers_update`.
#[derive(Debug, Default)]
pub struct CustomerUpdate {
    pub id: String,
    pub fields: CustomerFields,
}

/// Parameters of `customers_add_card`.
#[derive(Debug, Default)]
pub struct AddCard {
    pub id: String,
    pub card: String,
    pub exp: String,
    pub cvv: String,
    pub name: Option<String>,
}

/// Parameters of `customers_add_ach`.
#[derive(Debug, Default)]
pub struct AddAch {
    pub id: String,
    pub routing: String,
    pub account: String,
    pub account_type: String,
    pub account_holder_type: String,
    pub tax_id: Option<String>,
    pub name: Option<String>,
}

/// Parameters of `customers_remove_method`.
#[derive(Debug, Default)]
pub struct RemoveMethod {
    pub id: String,
    pub method_id: String,
}

/// The flags of the set customer fields: name and contact first, then the billing address.
pub open spec fn customer_fields_argv(f: CustomerFields) -> Seq<Seq<char>> {
    flag("--first-name"@, f.first_name)
        + flag("--last-name"@, f.last_name)
        + flag("--email"@, f.email)
        + flag("--company"@, f.company)
        + flag("--mobile"@, f.mobile)
        + billing_argv(BillingArgs { line1: f.billing_line1, line2: f.billing_line2, city: f.billing_city, state: f.billing_state, state_id: f.billing_state_id, postal_code: f.billing_postal_code, country_id: f.billing_country_id })
}

/// `customer_fields_argv` passes each parameter under its own flag: the fixed words come
/// first, and every given field adds exactly its own `--flag value`, holding
/// that field's value whatever the other fields are; nothing else is added.
#[verifier::spinoff_prover]
#[verifier::rlimit(100)]
pub proof fn lemma_customer_fields_argv_fields(f: CustomerFields)
    ensures
        customer_fields_argv(f).len() == 2 * given(f.first_name) + 2 * given(f.last_name) + 2 * given(f.email) + 2 * given(f.company) + 2 * given(f.mobile) + 2 * (given(f.billing_line1) + given(f.billing_line2) + given(f.billing_city) + given(f.billing_state) + given(f.billing_state_id) + given(f.billing_postal_code) + given(f.billing_country_id)),
        f.first_name matches Some(v) ==> has_pair(customer_fields_argv(f), "--first-name"@, v@),
        f.last_name matches Some(v) ==> has_pair(customer_fields_argv(f), "--last-name"@, v@),
        f.email matches Some(v) ==> has_pair(customer_fields_argv(f), "--email"@, v@),
        f.company matches Some(v) ==> has_pair(customer_fields_argv(f), "--company"@, v@),
        f.mobile matches Some(v) ==> has_pair(customer_fields_argv(f), "--mobile"@, v@),
        f.billing_line1 matches Some(v) ==> has_pair(customer_fields_argv(f), "--billing-line1"@, v@),
        f.billing_line2 matches Some(v) ==> has_pair(customer_fields_argv(f), "--billing-line2"@, v@),
        f.billing_city matches Some(v) ==> has_pair(customer_fields_argv(f), "--billing-city"@, v@),
        f.billing_state matches Some(v) ==> has_pair(customer_fields_argv(f), "--billing-state"@, v@),
        f.billing_state_id matches Some(n) ==> has_pair(customer_fields_argv(f), "--billing-state-id"@, decimal(n as nat)),
        f.billing_postal_code matches Some(v) ==> has_pair(customer_fields_argv(f), "--billing-postal-code"@, v@),
        f.billing_country_id matches Some(n) ==> has_pair(customer_fields_argv(f), "--billing-country-id"@, decimal(n as nat)),
{
    let a0 = flag("--first-name"@, f.first_name);
    let a1 = a0 + flag("--last-name"@, f.last_name);
    let a2 = a1 + flag("--email"@, f.email);
    let a3 = a2 + flag("--company"@, f.company);
    let a4 = a3 + flag("--mobile"@, f.mobile);
    let a5 = a4 + billing_argv(BillingArgs { line1: f.billing_line1, line2: f.billing_line2, city: f.billing_city, state: f.billing_state, state_id: f.billing_state_id, postal_code: f.billing_postal_code, country_id: f.billing_country_id });
    assert(customer_fields_argv(f) == a5);
    assert(customer_fields_argv(f).len() == 2 * given(f.first_name) + 2 * given(f.last_name) + 2 * given(f.email) + 2 * given(f.company) + 2 * given(f.mobile) + 2 * (given(f.billing_line1) + given(f.billing_line2) + given(f.billing_city) + given(f.billing_state) + given(f.billing_state_id) + given(f.billing_postal_code) + given(f.billing_country_id))) by {
        lemma_flag_len("--first-name"@, f.first_name);
        assert(a0.len() == 2 * given(f.first_name));
        lemma_flag_len("--last-name"@, f.last_name);
        assert(a1.len() == a0.len() + 2 * given(f.last_name));
        lemma_flag_len("--email"@, f.email);
        assert(a2.len() == a1.len() + 2 * given(f.email));
        lemma_flag_len("--company"@, f.company);
        assert(a3.len() == a2.len() + 2 * given(f.company));
        lemma_flag_len("--mobile"@, f.mobile);
        assert(a4.len() == a3.len() + 2 * given(f.mobile));
        lemma_billing_argv_fields(BillingArgs { line1: f.billing_line1, line2: f.billing_line2, city: f.billing_city, state: f.billing_state, state_id: f.billing_state_id, postal_code: f.billing_postal_code, country_id: f.billing_country_id });
        assert(a5.len() == a4.len() + 2 * (given(f.billing_line1) + given(f.billing_line2) + given(f.billing_city) + given(f.billing_state) + given(f.billing_state_id) + given(f.billing_postal_code) + given(f.billing_country_id)));
    }
    assert(f.first_name matches Some(v) ==> has_pair(customer_fields_argv(f), "--first-name"@, v@)) by {
        match f.first_name {
        Some(v) => {
            lemma_flag_pair("--first-name"@, f.first_name);
            lemma_has_pair_concat(a0, flag("--last-name"@, f.last_name), "--first-name"@, v@);
            lemma_has_pair_concat(a1, flag("--email"@, f.email), "--first-name"@, v@);
            lemma_has_pair_concat(a2, flag("--company"@, f.company), "--first-name"@, v@);
            lemma_has_pair_concat(a3, flag("--mobile"@, f.mobile), "--first-name"@, v@);
            lemma_has_pair_concat(a4, billing_argv(BillingArgs { line1: f.billing_line1, line2: f.billing_line2, city: f.billing_city, state: f.billing_state, state_id: f.billing_state_id, postal_code: f.billing_postal_code, country_id: f.billing_country_id }), "--first-name"@, v@);
        },
        None => {},
    }
    }
    assert(f.last_name matches Some(v) ==> has_pair(customer_fields_argv(f), "--last-name"@, v@)) by {
        match f.last_name {
        Some(v) => {
            lemma_flag_pair("--last-name"@, f.last_name);
            lemma_has_pair_concat(a0, flag("--last-name"@, f.last_name), "--last-name"@, v@);
            lemma_has_pair_concat(a1, flag("--email"@, f.email), "--last-name"@, v@);
            lemma_has_pair_concat(a2, flag("--company"@, f.company), "--last-name"@, v@);
            lemma_has_pair_concat(a3, flag("--mobile"@, f.mobile), "--last-name"@, v@);
            lemma_has_pair_concat(a4, billing_argv(BillingArgs { line1: f.billing_line1, line2: f.billing_line2, city: f.billing_city, state: f.billing_state, state_id: f.billing_state_id, postal_code: f.billing_postal_code, country_id: f.billing_country_id }), "--last-name"@, v@);
        },
        None => {},
    }
    }
    assert(f.email matches Some(v) ==> has_pair(customer_fields_argv(f), "--email"@, v@)) by {
        match f.email {
        Some(v) => {
            lemma_flag_pair("--email"@, f.email);
            lemma_has_pair_concat(a1, flag("--email"@, f.email), "--email"@, v@);
            lemma_has_pair_concat(a2, flag("--company"@, f.company), "--email"@, v@);
            lemma_has_pair_concat(a3, flag("--mobile"@, f.mobile), "--email"@, v@);
            lemma_has_pair_concat(a4, billing_argv(BillingArgs { line1: f.billing_line1, line2: f.billing_line2, city: f.billing_city, state: f.billing_state, state_id: f.billing_state_id, postal_code: f.billing_postal_code, country_id: f.billing_country_id }), "--email"@, v@);
        },
        None => {},
    }
    }
    assert(f.company matches Some(v) ==> has_pair(customer_fields_argv(f), "--company"@, v@)) by {
        match f.company {
        Some(v) => {
            lemma_flag_pair("--company"@, f.company);
            lemma_has_pair_concat(a2, flag("--company"@, f.company), "--company"@, v@);
            lemma_has_pair_concat(a3, flag("--mobile"@, f.mobile), "--company"@, v@);
            lemma_has_pair_concat(a4, billing_argv(BillingArgs { line1: f.billing_line1, line2: f.billing_line2, city: f.billing_city, state: f.billing_state, state_id: f.billing_state_id, postal_code: f.billing_postal_code, country_id: f.billing_country_id }), "--company"@, v@);
        },
        None => {},
    }
    }
    assert(f.mobile matches Some(v) ==> has_pair(customer_fields_argv(f), "--mobile"@, v@)) by {
        match f.mobile {
        Some(v) => {
            lemma_flag_pair("--mobile"@, f.mobile);
            lemma_has_pair_concat(a3, flag("--mobile"@, f.mobile), "--mobile"@, v@);
            lemma_has_pair_concat(a4, billing_argv(BillingArgs { line1: f.billing_line1, line2: f.billing_line2, city: f.billing_city, state: f.billing_state, state_id: f.billing_state_id, postal_code: f.billing_postal_code, country_id: f.billing_country_id }), "--mobile"@, v@);
        },
        None => {},
    }
    }
    assert(f.billing_line1 matches Some(v) ==> has_pair(customer_fields_argv(f), "--billing-line1"@, v@)) by {
        lemma_billing_argv_fields(BillingArgs { line1: f.billing_line1, line2: f.billing_line2, city: f.billing_city, state: f.billing_state, state_id: f.billing_state_id, postal_code: f.billing_postal_code, country_id: f.billing_country_id });
        match f.billing_line1 {
        Some(v) => {
            lemma_has_pair_concat(a4, billing_argv(BillingArgs { line1: f.billing_line1, line2: f.billing_line2, city: f.billing_city, state: f.billing_state, state_id: f.billing_state_id, postal_code: f.billing_postal_code, country_id: f.billing_country_id }), "--billing-line1"@, v@);
        },
        None => {},
    }
    }
    assert(f.billing_line2 matches Some(v) ==> has_pair(customer_fields_argv(f), "--billing-line2"@, v@)) by {
        lemma_billing_argv_fields(BillingArgs { line1: f.billing_line1, line2: f.billing_line2, city: f.billing_city, state: f.billing_state, state_id: f.billing_state_id, postal_code: f.billing_postal_code, country_id: f.billing_country_id });
        match f.billing_line2 {
        Some(v) => {
            lemma_has_pair_concat(a4, billing_argv(BillingArgs { line1: f.billing_line1, line2: f.billing_line2, city: f.billing_city, state: f.billing_state, state_id: f.billing_state_id, postal_code: f.billing_postal_code, country_id: f.billing_country_id }), "--billing-line2"@, v@);
        },
        None => {},
    }
    }
    assert(f.billing_city matches Some(v) ==> has_pair(customer_fields_argv(f), "--billing-city"@, v@)) by {
        lemma_billing_argv_fields(BillingArgs { line1: f.billing_line1, line2: f.billing_line2, city: f.billing_city, state: f.billing_state, state_id: f.billing_state_id, postal_code: f.billing_postal_code, country_id: f.billing_country_id });
        match f.billing_city {
        Some(v) => {
            lemma_has_pair_concat(a4, billing_argv(BillingArgs { line1: f.billing_line1, line2: f.billing_line2, city: f.billing_city, state: f.billing_state, state_id: f.billing_state_id, postal_code: f.billing_postal_code, country_id: f.billing_country_id }), "--billing-city"@, v@);
        },
        None => {},
    }
    }
    assert(f.billing_state matches Some(v) ==> has_pair(customer_fields_argv(f), "--billing-state"@, v@)) by {
        lemma_billing_argv_fields(BillingArgs { line1: f.billing_line1, line2: f.billing_line2, city: f.billing_city, state: f.billing_state, state_id: f.billing_state_id, postal_code: f.billing_postal_code, country_id: f.billing_country_id });
        match f.billing_state {
        Some(v) => {
            lemma_has_pair_concat(a4, billing_argv(BillingArgs { line1: f.billing_line1, line2: f.billing_line2, city: f.billing_city, state: f.billing_state, state_id: f.billing_state_id, postal_code: f.billing_postal_code, country_id: f.billing_country_id }), "--billing-state"@, v@);
        },
        None => {},
    }
    }
    assert(f.billing_state_id matches Some(n) ==> has_pair(customer_fields_argv(f), "--billing-state-id"@, decimal(n as nat))) by {
        lemma_billing_argv_fields(BillingArgs { line1: f.billing_line1, line2: f.billing_line2, city: f.billing_city, state: f.billing_state, state_id: f.billing_state_id, postal_code: f.billing_postal_code, country_id: f.billing_country_id });
        match f.billing_state_id {
        Some(n) => {
            lemma_has_pair_concat(a4, billing_argv(BillingArgs { line1: f.billing_line1, line2: f.billing_line2, city: f.billing_city, state: f.billing_state, state_id: f.billing_state_id, postal_code: f.billing_postal_code, country_id: f.billing_country_id }), "--billing-state-id"@, decimal(n as nat));
        },
        None => {},
    }
    }
    assert(f.billing_postal_code matches Some(v) ==> has_pair(customer_fields_argv(f), "--billing-postal-code"@, v@)) by {
        lemma_billing_argv_fields(BillingArgs { line1: f.billing_line1, line2: f.billing_line2, city: f.billing_city, state: f.billing_state, state_id: f.billing_state_id, postal_code: f.billing_postal_code, country_id: f.billing_country_id });
        match f.billing_postal_code {
        Some(v) => {
            lemma_has_pair_concat(a4, billing_argv(BillingArgs { line1: f.billing_line1, line2: f.billing_line2, city: f.billing_city, state: f.billing_state, state_id: f.billing_state_id, postal_code: f.billing_postal_code, country_id: f.billing_country_id }), "--billing-postal-code"@, v@);
        },
        None => {},
    }
    }
    assert(f.billing_country_id matches Some(n) ==> has_pair(customer_fields_argv(f), "--billing-country-id"@, decimal(n as nat))) by {
        lemma_billing_argv_fields(BillingArgs { line1: f.billing_line1, line2: f.billing_line2, city: f.billing_city, state: f.billing_state, state_id: f.billing_state_id, postal_code: f.billing_postal_code, country_id: f.billing_country_id });
        match f.billing_country_id {
        Some(n) => {
            lemma_has_pair_concat(a4, billing_argv(BillingArgs { line1: f.billing_line1, line2: f.billing_line2, city: f.billing_city, state: f.billing_state, state_id: f.billing_state_id, postal_code: f.billing_postal_code, country_id: f.billing_country_id }), "--billing-country-id"@, decimal(n as nat));
        },
        None => {},
    }
    }
}

/// Appends the flags of the set customer fields.
pub fn customer_field_args(args: &mut Vec<String>, f: CustomerFields)
    ensures
        final(args).deep_view() == old(args).deep_view() + customer_fields_argv(f),
{
    let ghost start = args.deep_view();
    let CustomerFields { first_name, last_name, email, company, mobile, billing_line1, billing_line2, billing_city, billing_state, billing_state_id, billing_postal_code, billing_country_id } = f;
    push_flag(args, "--first-name", first_name);
    push_flag(args, "--last-name", last_name);
    push_flag(args, "--email", email);
    push_flag(args, "--company", company);
    push_flag(args, "--mobile", mobile);
    BillingArgs { line1: billing_line1, line2: billing_line2, city: billing_city, state: billing_state, state_id: billing_state_id, postal_code: billing_postal_code, country_id: billing_country_id }.push(args);
    assert(args.deep_view() =~= start + customer_fields_argv(f));
}

/// The arguments `customers_get` runs the CLI with.
pub open spec fn customers_get_argv(profile: Profile, p: Id) -> Seq<Seq<char>> {
    base_argv(profile)
        + seq!["customers"@, "get"@, p.id@]
}

/// `customers_get_argv` passes each parameter under its own flag: the fixed words come
/// first, and every given field adds exactly its own `--flag value`, holding
/// that field's value whatever the other fields are; nothing else is added.
pub proof fn lemma_customers_get_argv_fields(profile: Profile, p: Id)
    ensures
        customers_get_argv(profile, p).take(7) == base_argv(profile) + seq!["customers"@, "get"@, p.id@],
        customers_get_argv(profile, p).len() == 7,
{
    let a0 = base_argv(profile);
    let a1 = a0 + seq!["customers"@, "get"@, p.id@];
    assert(customers_get_argv(profile, p) == a1);
    assert(customers_get_argv(profile, p).take(7) == base_argv(profile) + seq!["customers"@, "get"@, p.id@]) by {
        assert(a1.take(7) =~= a1);
    }
    assert(customers_get_argv(profile, p).len() == 7) by {
        assert(a0.len() == 4);
        assert(a1.len() == a0.len() + 3);
    }
}

/// The arguments `customers_list` runs the CLI with.
pub open spec fn customers_list_argv(profile: Profile, p: CustomersList) -> Seq<Seq<char>> {
    base_argv(profile)
        + seq!["customers"@, "list"@]
        + num_flag("--limit"@, p.limit)
        + num_flag("--page"@, p.page)
        + flag("--search"@, p.search)
}

/// `customers_list_argv` passes each parameter under its own flag: the fixed words come
/// first, and every given field adds exactly its own `--flag value`, holding
/// that field's value whatever the other fields are; nothing else is added.
pub proof fn lemma_customers_list_argv_fields(profile: Profile, p: CustomersList)
    ensures
        customers_list_argv(profile, p).take(6) == base_argv(profile) + seq!["customers"@, "list"@],
        customers_list_argv(profile, p).len() == 6 + 2 * given(p.limit) + 2 * given(p.page) + 2 * given(p.search),
        p.limit matches Some(n) ==> has_pair(customers_list_argv(profile, p), "--limit"@, decimal(n as nat)),
        p.page matches Some(n) ==> has_pair(customers_list_argv(profile, p), "--page"@, decimal(n as nat)),
        p.search matches Some(v) ==> has_pair(customers_list_argv(profile, p), "--search"@, v@),
{
    let a0 = base_argv(profile);
    let a1 = a0 + seq!["customers"@, "list"@];
    let a2 = a1 + num_flag("--limit"@, p.limit);
    let a3 = a2 + num_flag("--page"@, p.page);
    let a4 = a3 + flag("--search"@, p.search);
    assert(customers_list_argv(profile, p) == a4);
    assert(customers_list_argv(profile, p).take(6) == base_argv(profile) + seq!["customers"@, "list"@]) by {
        lemma_take_concat(a3, flag("--search"@, p.search), 6);
        lemma_take_concat(a2, num_flag("--page"@, p.page), 6);
        lemma_take_concat(a1, num_flag("--limit"@, p.limit), 6);
        assert(a1.take(6) =~= a1);
    }
    assert(customers_list_argv(profile, p).len() == 6 + 2 * given(p.limit) + 2 * given(p.page) + 2 * given(p.search)) by {
        assert(a0.len() == 4);
        assert(a1.len() == a0.len() + 2);
        lemma_num_flag_len("--limit"@, p.limit);
        assert(a2.len() == a1.len() + 2 * given(p.limit));
        lemma_num_flag_len("--page"@, p.page);
        assert(a3.len() == a2.len() + 2 * given(p.page));
        lemma_flag_len("--search"@, p.search);
        assert(a4.len() == a3.len() + 2 * given(p.search));
    }
    assert(p.limit matches Some(n) ==> has_pair(customers_list_argv(profile, p), "--limit"@, decimal(n as nat))) by {
        match p.limit {
        Some(n) => {
            lemma_num_flag_pair("--limit"@, p.limit);
            lemma_has_pair_concat(a1, num_flag("--limit"@, p.limit), "--limit"@, decimal(n as nat));
            lemma_has_pair_concat(a2, num_flag("--page"@, p.page), "--limit"@, decimal(n as nat));
            lemma_has_pair_concat(a3, flag("--search"@, p.search), "--limit"@, decimal(n as nat));
        },
        None => {},
    }
    }
    assert(p.page matches Some(n) ==> has_pair(customers_list_argv(profile, p), "--page"@, decimal(n as nat))) by {
        match p.page {
        Some(n) => {
            lemma_num_flag_pair("--page"@, p.page);
            lemma_has_pair_concat(a2, num_flag("--page"@, p.page), "--page"@, decimal(n as nat));
            lemma_has_pair_concat(a3, flag("--search"@, p.search), "--page"@, decimal(n as nat));
        },
        None => {},
    }
    }
    assert(p.search matches Some(v) ==> has_pair(customers_list_argv(profile, p), "--search"@, v@)) by {
        match p.search {
        Some(v) => {
            lemma_flag_pair("--search"@, p.search);
            lemma_has_pair_concat(a3, flag("--search"@, p.search), "--search"@, v@);
        },
        None => {},
    }
    }
}

/// The arguments `customers_methods` runs the CLI with.
pub open spec fn customers_methods_argv(profile: Profile, p: Id) -> Seq<Seq<char>> {
    base_argv(profile)
        + seq!["customers"@, "methods"@, p.id@]
}

/// `customers_methods_argv` passes each parameter under its own flag: the fixed words come
/// first, and every given field adds exactly its own `--flag value`, holding
/// that field's value whatever the other fields are; nothing else is added.
pub proof fn lemma_customers_methods_argv_fields(profile: Profile, p: Id)
    ensures
        customers_methods_argv(profile, p).take(7) == base_argv(profile) + seq!["customers"@, "methods"@, p.id@],
        customers_methods_argv(profile, p).len() == 7,
{
    let a0 = base_argv(profile);
    let a1 = a0 + seq!["customers"@, "methods"@, p.id@];
    assert(customers_methods_argv(profile, p) == a1);
    assert(customers_methods_argv(profile, p).take(7) == base_argv(profile) + seq!["customers"@, "methods"@, p.id@]) by {
        assert(a1.take(7) =~= a1);
    }
    assert(customers_methods_argv(profile, p).len() == 7) by {
        assert(a0.len() == 4);
        assert(a1.len() == a0.len() + 3);
    }
}

/// The arguments `customers_create` runs the CLI with.
pub open spec fn customers_create_argv(profile: Profile, p: CustomerFields) -> Seq<Seq<char>> {
    base_argv(profile)
        + seq!["customers"@, "create"@]
        + customer_fields_argv(p)
}

/// `customers_create_argv` passes each parameter under its own flag: the fixed words come
/// first, and every given field adds exactly its own `--flag value`, holding
/// that field's value whatever the other fields are; nothing else is added.
#[verifier::spinoff_prover]
#[verifier::rlimit(100)]
pub proof fn lemma_customers_create_argv_fields(profile: Profile, p: CustomerFields)
    ensures
        customers_create_argv(profile, p).take(6) == base_argv(profile) + seq!["customers"@, "create"@],
        customers_create_argv(profile, p).len() == 6 + 2 * (given(p.first_name) + given(p.last_name) + given(p.email) + given(p.company) + given(p.mobile) + given(p.billing_line1) + given(p.billing_line2) + given(p.billing_city) + given(p.billing_state) + given(p.billing_state_id) + given(p.billing_postal_code) + given(p.billing_country_id)),
        p.first_name matches Some(v) ==> has_pair(customers_create_argv(profile, p), "--first-name"@, v@),
        p.last_name matches Some(v) ==> has_pair(customers_create_argv(profile, p), "--last-name"@, v@),
        p.email matches Some(v) ==> has_pair(customers_create_argv(profile, p), "--email"@, v@),
        p.company matches Some(v) ==> has_pair(customers_create_argv(profile, p), "--company"@, v@),
        p.mobile matches Some(v) ==> has_pair(customers_create_argv(profile, p), "--mobile"@, v@),
        p.billing_line1 matches Some(v) ==> has_pair(customers_create_argv(profile, p), "--billing-line1"@, v@),
        p.billing_line2 matches Some(v) ==> has_pair(customers_create_argv(profile, p), "--billing-line2"@, v@),
        p.billing_city matches Some(v) ==> has_pair(customers_create_argv(profile, p), "--billing-city"@, v@),
        p.billing_state matches Some(v) ==> has_pair(customers_create_argv(profile, p), "--billing-state"@, v@),
        p.billing_state_id matches Some(n) ==> has_pair(customers_create_argv(profile, p), "--billing-state-id"@, decimal(n as nat)),
        p.billing_postal_code matches Some(v) ==> has_pair(customers_create_argv(profile, p), "--billing-postal-code"@, v@),
        p.billing_country_id matches Some(n) ==> has_pair(customers_create_argv(profile, p), "--billing-country-id"@, decimal(n as nat)),
{
    let a0 = base_argv(profile);
    let a1 = a0 + seq!["customers"@, "create"@];
    let a2 = a1 + customer_fields_argv(p);
    assert(customers_create_argv(profile, p) == a2);
    assert(customers_create_argv(profile, p).take(6) == base_argv(profile) + seq!["customers"@, "create"@]) by {
        lemma_take_concat(a1, customer_fields_argv(p), 6);
        assert(a1.take(6) =~= a1);
    }
    assert(customers_create_argv(profile, p).len() == 6 + 2 * (given(p.first_name) + given(p.last_name) + given(p.email) + given(p.company) + given(p.mobile) + given(p.billing_line1) + given(p.billing_line2) + given(p.billing_city) + given(p.billing_state) + given(p.billing_state_id) + given(p.billing_postal_code) + given(p.billing_country_id))) by {
        assert(a0.len() == 4);
        assert(a1.len() == a0.len() + 2);
        lemma_customer_fields_argv_fields(p);
        assert(a2.len() == a1.len() + 2 * (given(p.first_name) + given(p.last_name) + given(p.email) + given(p.company) + given(p.mobile) + given(p.billing_line1) + given(p.billing_line2) + given(p.billing_city) + given(p.billing_state) + given(p.billing_state_id) + given(p.billing_postal_code) + given(p.billing_country_id)));
    }
    assert(p.first_name matches Some(v) ==> has_pair(customers_create_argv(profile, p), "--first-name"@, v@)) by {
        lemma_customer_fields_argv_fields(p);
        match p.first_name {
        Some(v) => {
            lemma_has_pair_concat(a1, customer_fields_argv(p), "--first-name"@, v@);
        },
        None => {},
    }
    }
    assert(p.last_name matches Some(v) ==> has_pair(customers_create_argv(profile, p), "--last-name"@, v@)) by {
        lemma_customer_fields_argv_fields(p);
        match p.last_name {
        Some(v) => {
            lemma_has_pair_concat(a1, customer_fields_argv(p), "--last-name"@, v@);
        },
        None => {},
    }
    }
    assert(p.email matches Some(v) ==> has_pair(customers_create_argv(profile, p), "--email"@, v@)) by {
        lemma_customer_fields_argv_fields(p);
        match p.email {
        Some(v) => {
            lemma_has_pair_concat(a1, customer_fields_argv(p), "--email"@, v@);
        },
        None => {},
    }
    }
    assert(p.company matches Some(v) ==> has_pair(customers_create_argv(profile, p), "--company"@, v@)) by {
        lemma_customer_fields_argv_fields(p);
        match p.company {
        Some(v) => {
            lemma_has_pair_concat(a1, customer_fields_argv(p), "--company"@, v@);
        },
        None => {},
    }
    }
    assert(p.mobile matches Some(v) ==> has_pair(customers_create_argv(profile, p), "--mobile"@, v@)) by {
        lemma_customer_fields_argv_fields(p);
        match p.mobile {
        Some(v) => {
            lemma_has_pair_concat(a1, customer_fields_argv(p), "--mobile"@, v@);
        },
        None => {},
    }
    }
    assert(p.billing_line1 matches Some(v) ==> has_pair(customers_create_argv(profile, p), "--billing-line1"@, v@)) by {
        lemma_customer_fields_argv_fields(p);
        match p.billing_line1 {
        Some(v) => {
            lemma_has_pair_concat(a1, customer_fields_argv(p), "--billing-line1"@, v@);
        },
        None => {},
    }
    }
    assert(p.billing_line2 matches Some(v) ==> has_pair(customers_create_argv(profile, p), "--billing-line2"@, v@)) by {
        lemma_customer_fields_argv_fields(p);
        match p.billing_line2 {
        Some(v) => {
            lemma_has_pair_concat(a1, customer_fields_argv(p), "--billing-line2"@, v@);
        },
        None => {},
    }
    }
    assert(p.billing_city matches Some(v) ==> has_pair(customers_create_argv(profile, p), "--billing-city"@, v@)) by {
        lemma_customer_fields_argv_fields(p);
        match p.billing_city {
        Some(v) => {
            lemma_has_pair_concat(a1, customer_fields_argv(p), "--billing-city"@, v@);
        },
        None => {},
    }
    }
    assert(p.billing_state matches Some(v) ==> has_pair(customers_create_argv(profile, p), "--billing-state"@, v@)) by {
        lemma_customer_fields_argv_fields(p);
        match p.billing_state {
        Some(v) => {
            lemma_has_pair_concat(a1, customer_fields_argv(p), "--billing-state"@, v@);
        },
        None => {},
    }
    }
    assert(p.billing_state_id matches Some(n) ==> has_pair(customers_create_argv(profile, p), "--billing-state-id"@, decimal(n as nat))) by {
        lemma_customer_fields_argv_fields(p);
        match p.billing_state_id {
        Some(n) => {
            lemma_has_pair_concat(a1, customer_fields_argv(p), "--billing-state-id"@, decimal(n as nat));
        },
        None => {},
    }
    }
    assert(p.billing_postal_code matches Some(v) ==> has_pair(customers_create_argv(profile, p), "--billing-postal-code"@, v@)) by {
        lemma_customer_fields_argv_fields(p);
        match p.billing_postal_code {
        Some(v) => {
            lemma_has_pair_concat(a1, customer_fields_argv(p), "--billing-postal-code"@, v@);
        },
        None => {},
    }
    }
    assert(p.billing_country_id matches Some(n) ==> has_pair(customers_create_argv(profile, p), "--billing-country-id"@, decimal(n as nat))) by {
        lemma_customer_fields_argv_fields(p);
        match p.billing_country_id {
        Some(n) => {
            lemma_has_pair_concat(a1, customer_fields_argv(p), "--billing-country-id"@, decimal(n as nat));
        },
        None => {},
    }
    }
}

/// The arguments `customers_update` runs the CLI with.
pub open spec fn customers_update_argv(profile: Profile, p: CustomerUpdate) -> Seq<Seq<char>> {
    base_argv(profile)
        + seq!["customers"@, "update"@, p.id@]
        + customer_fields_argv(p.fields)
}

/// `customers_update_argv` passes each parameter under its own flag: the fixed words come
/// first, and every given field adds exactly its own `--flag value`, holding
/// that field's value whatever the other fields are; nothing else is added.
#[verifier::spinoff_prover]
#[verifier::rlimit(100)]
pub proof fn lemma_customers_update_argv_fields(profile: Profile, p: CustomerUpdate)
    ensures
        customers_update_argv(profile, p).take(7) == base_argv(profile) + seq!["customers"@, "update"@, p.id@],
        customers_update_argv(profile, p).len() == 7 + 2 * (given(p.fields.first_name) + given(p.fields.last_name) + given(p.fields.email) + given(p.fields.company) + given(p.fields.mobile) + given(p.fields.billing_line1) + given(p.fields.billing_line2) + given(p.fields.billing_city) + given(p.fields.billing_state) + given(p.fields.billing_state_id) + given(p.fields.billing_postal_code) + given(p.fields.billing_country_id)),
        p.fields.first_name matches Some(v) ==> has_pair(customers_update_argv(profile, p), "--first-name"@, v@),
        p.fields.last_name matches Some(v) ==> has_pair(customers_update_argv(profile, p), "--last-name"@, v@),
        p.fields.email matches Some(v) ==> has_pair(customers_update_argv(profile, p), "--email"@, v@),
        p.fields.company matches Some(v) ==> has_pair(customers_update_argv(profile, p), "--company"@, v@),
        p.fields.mobile matches Some(v) ==> has_pair(customers_update_argv(profile, p), "--mobile"@, v@),
        p.fields.billing_line1 matches Some(v) ==> has_pair(customers_update_argv(profile, p), "--billing-line1"@, v@),
        p.fields.billing_line2 matches Some(v) ==> has_pair(customers_update_argv(profile, p), "--billing-line2"@, v@),
        p.fields.billing_city matches Some(v) ==> has_pair(customers_update_argv(profile, p), "--billing-city"@, v@),
        p.fields.billing_state matches Some(v) ==> has_pair(customers_update_argv(profile, p), "--billing-state"@, v@),
        p.fields.billing_state_id matches Some(n) ==> has_pair(customers_update_argv(profile, p), "--billing-state-id"@, decimal(n as nat)),
        p.fields.billing_postal_code matches Some(v) ==> has_pair(customers_update_argv(profile, p), "--billing-postal-code"@, v@),
        p.fields.billing_country_id matches Some(n) ==> has_pair(customers_update_argv(profile, p), "--billing-country-id"@, decimal(n as nat)),
{
    let a0 = base_argv(profile);
    let a1 = a0 + seq!["customers"@, "update"@, p.id@];
    let a2 = a1 + customer_fields_argv(p.fields);
    assert(customers_update_argv(profile, p) == a2);
    assert(customers_update_argv(profile, p).take(7) == base_argv(profile) + seq!["customers"@, "update"@, p.id@]) by {
        lemma_take_concat(a1, customer_fields_argv(p.fields), 7);
        assert(a1.take(7) =~= a1);
    }
    assert(customers_update_argv(profile, p).len() == 7 + 2 * (given(p.fields.first_name) + given(p.fields.last_name) + given(p.fields.email) + given(p.fields.company) + given(p.fields.mobile) + given(p.fields.billing_line1) + given(p.fields.billing_line2) + given(p.fields.billing_city) + given(p.fields.billing_state) + given(p.fields.billing_state_id) + given(p.fields.billing_postal_code) + given(p.fields.billing_country_id))) by {
        assert(a0.len() == 4);
        assert(a1.len() == a0.len() + 3);
        lemma_customer_fields_argv_fields(p.fields);
        assert(a2.len() == a1.len() + 2 * (given(p.fields.first_name) + given(p.fields.last_name) + given(p.fields.email) + given(p.fields.company) + given(p.fields.mobile) + given(p.fields.billing_line1) + given(p.fields.billing_line2) + given(p.fields.billing_city) + given(p.fields.billing_state) + given(p.fields.billing_state_id) + given(p.fields.billing_postal_code) + given(p.fields.billing_country_id)));
    }
    assert(p.fields.first_name matches Some(v) ==> has_pair(customers_update_argv(profile, p), "--first-name"@, v@)) by {
        lemma_customer_fields_argv_fields(p.fields);
        match p.fields.first_name {
        Some(v) => {
            lemma_has_pair_concat(a1, customer_fields_argv(p.fields), "--first-name"@, v@);
        },
        None => {},
    }
    }
    assert(p.fields.last_name matches Some(v) ==> has_pair(customers_update_argv(profile, p), "--last-name"@, v@)) by {
        lemma_customer_fields_argv_fields(p.fields);
        match p.fields.last_name {
        Some(v) => {
            lemma_has_pair_concat(a1, customer_fields_argv(p.fields), "--last-name"@, v@);
        },
        None => {},
    }
    }
    assert(p.fields.email matches Some(v) ==> has_pair(customers_update_argv(profile, p), "--email"@, v@)) by {
        lemma_customer_fields_argv_fields(p.fields);
        match p.fields.email {
        Some(v) => {
            lemma_has_pair_concat(a1, customer_fields_argv(p.fields), "--email"@, v@);
        },
        None => {},
    }
    }
    assert(p.fields.company matches Some(v) ==> has_pair(customers_update_argv(profile, p), "--company"@, v@)) by {
        lemma_customer_fields_argv_fields(p.fields);
        match p.fields.company {
        Some(v) => {
            lemma_has_pair_concat(a1, customer_fields_argv(p.fields), "--company"@, v@);
        },
        None => {},
    }
    }
    assert(p.fields.mobile matches Some(v) ==> has_pair(customers_update_argv(profile, p), "--mobile"@, v@)) by {
        lemma_customer_fields_argv_fields(p.fields);
        match p.fields.mobile {
        Some(v) => {
            lemma_has_pair_concat(a1, customer_fields_argv(p.fields), "--mobile"@, v@);
        },
        None => {},
    }
    }
    assert(p.fields.billing_line1 matches Some(v) ==> has_pair(customers_update_argv(profile, p), "--billing-line1"@, v@)) by {
        lemma_customer_fields_argv_fields(p.fields);
        match p.fields.billing_line1 {
        Some(v) => {
            lemma_has_pair_concat(a1, customer_fields_argv(p.fields), "--billing-line1"@, v@);
        },
        None => {},
    }
    }
    assert(p.fields.billing_line2 matches Some(v) ==> has_pair(customers_update_argv(profile, p), "--billing-line2"@, v@)) by {
        lemma_customer_fields_argv_fields(p.fields);
        match p.fields.billing_line2 {
        Some(v) => {
            lemma_has_pair_concat(a1, customer_fields_argv(p.fields), "--billing-line2"@, v@);
        },
        None => {},
    }
    }
    assert(p.fields.billing_city matches Some(v) ==> has_pair(customers_update_argv(profile, p), "--billing-city"@, v@)) by {
        lemma_customer_fields_argv_fields(p.fields);
        match p.fields.billing_city {
        Some(v) => {
            lemma_has_pair_concat(a1, customer_fields_argv(p.fields), "--billing-city"@, v@);
        },
        None => {},
    }
    }
    assert(p.fields.billing_state matches Some(v) ==> has_pair(customers_update_argv(profile, p), "--billing-state"@, v@)) by {
        lemma_customer_fields_argv_fields(p.fields);
        match p.fields.billing_state {
        Some(v) => {
            lemma_has_pair_concat(a1, customer_fields_argv(p.fields), "--billing-state"@, v@);
        },
        None => {},
    }
    }
    assert(p.fields.billing_state_id matches Some(n) ==> has_pair(customers_update_argv(profile, p), "--billing-state-id"@, decimal(n as nat))) by {
        lemma_customer_fields_argv_fields(p.fields);
        match p.fields.billing_state_id {
        Some(n) => {
            lemma_has_pair_concat(a1, customer_fields_argv(p.fields), "--billing-state-id"@, decimal(n as nat));
        },
        None => {},
    }
    }
    assert(p.fields.billing_postal_code matches Some(v) ==> has_pair(customers_update_argv(profile, p), "--billing-postal-code"@, v@)) by {
        lemma_customer_fields_argv_fields(p.fields);
        match p.fields.billing_postal_code {
        Some(v) => {
            lemma_has_pair_concat(a1, customer_fields_argv(p.fields), "--billing-postal-code"@, v@);
        },
        None => {},
    }
    }
    assert(p.fields.billing_country_id matches Some(n) ==> has_pair(customers_update_argv(profile, p), "--billing-country-id"@, decimal(n as nat))) by {
        lemma_customer_fields_argv_fields(p.fields);
        match p.fields.billing_country_id {
        Some(n) => {
            lemma_has_pair_concat(a1, customer_fields_argv(p.fields), "--billing-country-id"@, decimal(n as nat));
        },
        None => {},
    }
    }
}

/// The arguments `customers_delete` runs the CLI with.
pub open spec fn customers_delete_argv(profile: Profile, p: Id) -> Seq<Seq<char>> {
    base_argv(profile)
        + seq!["customers"@, "delete"@, p.id@, "--yes"@]
}

/// The envelope `customers_delete` answers an empty success with.
pub open spec fn customers_delete_ack(profile: Profile, p: Id) -> JsonV {
    ack_envelope_view("customer_delete"@, JsonV::Object(seq![("id"@, JsonV::Str(p.id@)), ("deleted"@, JsonV::Bool(true))]), profile_str(profile))
}

/// An empty success of `customers_delete` is acknowledged with an `customer_delete` envelope whose
/// data describe what was done to the given resource and whose environment is
/// the pinned profile.
pub proof fn lemma_customers_delete_ack_fields(profile: Profile, p: Id)
    ensures
        json_get(customers_delete_ack(profile, p), "object"@) == Some(JsonV::Str("customer_delete"@)),
        json_get(customers_delete_ack(profile, p), "meta"@) matches Some(mt) && json_get(mt, "environment"@) == Some(JsonV::Str(profile_str(profile))),
        json_get(customers_delete_ack(profile, p), "data"@) matches Some(d) && json_get(d, "id"@) == Some(JsonV::Str(p.id@)),
        json_get(customers_delete_ack(profile, p), "data"@) matches Some(d) && json_get(d, "deleted"@) == Some(JsonV::Bool(true)),
{
    reveal_strlit("object");
    reveal_strlit("data");
    reveal_strlit("meta");
    reveal_strlit("environment");
    reveal_strlit("id");
    reveal_strlit("deleted");
    reveal_with_fuel(member_lookup, 4);
    assert("object"@.len() == 6);
    assert("data"@.len() == 4);
    assert("meta"@.len() == 4);
    assert("environment"@.len() == 11);
    assert("id"@.len() == 2);
    assert("deleted"@.len() == 7);
    assert("data"@[0] == 'd');
    assert("meta"@[0] == 'm');
    let d = JsonV::Object(seq![("id"@, JsonV::Str(p.id@)), ("deleted"@, JsonV::Bool(true))]);
    let mt = JsonV::Object(seq![("environment"@, JsonV::Str(profile_str(profile)))]);
    assert(json_get(customers_delete_ack(profile, p), "data"@) == Some(d));
    assert(json_get(customers_delete_ack(profile, p), "meta"@) == Some(mt));
    assert(json_get(mt, "environment"@) == Some(JsonV::Str(profile_str(profile))));
    assert(json_get(d, "id"@) == Some(JsonV::Str(p.id@)));
    assert(json_get(d, "deleted"@) == Some(JsonV::Bool(true)));
}

/// `customers_delete_argv` passes each parameter under its own flag: the fixed words come
/// first, and every given field adds exactly its own `--flag value`, holding
/// that field's value whatever the other fields are; nothing else is added.
pub proof fn lemma_customers_delete_argv_fields(profile: Profile, p: Id)
    ensures
        customers_delete_argv(profile, p).take(8) == base_argv(profile) + seq!["customers"@, "delete"@, p.id@, "--yes"@],
        customers_delete_argv(profile, p).len() == 8,
{
    let a0 = base_argv(profile);
    let a1 = a0 + seq!["customers"@, "delete"@, p.id@, "--yes"@];
    assert(customers_delete_argv(profile, p) == a1);
    assert(customers_delete_argv(profile, p).take(8) == base_argv(profile) + seq!["customers"@, "delete"@, p.id@, "--yes"@]) by {
        assert(a1.take(8) =~= a1);
    }
    assert(customers_delete_argv(profile, p).len() == 8) by {
        assert(a0.len() == 4);
        assert(a1.len() == a0.len() + 4);
    }
}

/// The arguments `customers_add_card` runs the CLI with.
pub open spec fn customers_add_card_argv(profile: Profile, p: AddCard) -> Seq<Seq<char>> {
    base_argv(profile)
        + seq!["customers"@, "add-card"@, p.id@]
        + seq!["--card"@, p.card@]
        + seq!["--exp"@, p.exp@]
        + seq!["--cvv"@, p.cvv@]
        + flag("--name"@, p.name)
}

/// `customers_add_card_argv` passes each parameter under its own flag: the fixed words come
/// first, and every given field adds exactly its own `--flag value`, holding
/// that field's value whatever the other fields are; nothing else is added.
pub proof fn lemma_customers_add_card_argv_fields(profile: Profile, p: AddCard)
    ensures
        customers_add_card_argv(profile, p).take(13) == base_argv(profile) + seq!["customers"@, "add-card"@, p.id@] + seq!["--card"@, p.card@] + seq!["--exp"@, p.exp@] + seq!["--cvv"@, p.cvv@],
        customers_add_card_argv(profile, p).len() == 13 + 2 * given(p.name),
        p.name matches Some(v) ==> has_pair(customers_add_card_argv(profile, p), "--name"@, v@),
{
    let a0 = base_argv(profile);
    let a1 = a0 + seq!["customers"@, "add-card"@, p.id@];
    let a2 = a1 + seq!["--card"@, p.card@];
    let a3 = a2 + seq!["--exp"@, p.exp@];
    let a4 = a3 + seq!["--cvv"@, p.cvv@];
    let a5 = a4 + flag("--name"@, p.name);
    assert(customers_add_card_argv(profile, p) == a5);
    assert(customers_add_card_argv(profile, p).take(13) == base_argv(profile) + seq!["customers"@, "add-card"@, p.id@] + seq!["--card"@, p.card@] + seq!["--exp"@, p.exp@] + seq!["--cvv"@, p.cvv@]) by {
        lemma_take_concat(a4, flag("--name"@, p.name), 13);
        assert(a4.take(13) =~= a4);
    }
    assert(customers_add_card_argv(profile, p).len() == 13 + 2 * given(p.name)) by {
        assert(a0.len() == 4);
        assert(a1.len() == a0.len() + 3);
        assert(a2.len() == a1.len() + 2);
        assert(a3.len() == a2.len() + 2);
        assert(a4.len() == a3.len() + 2);
        lemma_flag_len("--name"@, p.name);
        assert(a5.len() == a4.len() + 2 * given(p.name));
    }
    assert(p.name matches Some(v) ==> has_pair(customers_add_card_argv(profile, p), "--name"@, v@)) by {
        match p.name {
        Some(v) => {
            lemma_flag_pair("--name"@, p.name);
            lemma_has_pair_concat(a4, flag("--name"@, p.name), "--name"@, v@);
        },
        None => {},
    }
    }
}

/// The arguments `customers_add_ach` runs the CLI with.
pub open spec fn customers_add_ach_argv(profile: Profile, p: AddAch) -> Seq<Seq<char>> {
    base_argv(profile)
        + seq!["customers"@, "add-ach"@, p.id@]
        + seq!["--routing"@, p.routing@]
        + seq!["--account"@, p.account@]
        + seq!["--account-type"@, p.account_type@]
        + seq!["--account-holder-type"@, p.account_holder_type@]
        + flag("--tax-id"@, p.tax_id)
        + flag("--name"@, p.name)
}

/// `customers_add_ach_argv` passes each parameter under its own flag: the fixed words come
/// first, and every given field adds exactly its own `--flag value`, holding
/// that field's value whatever the other fields are; nothing else is added.
pub proof fn lemma_customers_add_ach_argv_fields(profile: Profile, p: AddAch)
    ensures
        customers_add_ach_argv(profile, p).take(15) == base_argv(profile) + seq!["customers"@, "add-ach"@, p.id@] + seq!["--routing"@, p.routing@] + seq!["--account"@, p.account@] + seq!["--account-type"@, p.account_type@] + seq!["--account-holder-type"@, p.account_holder_type@],
        customers_add_ach_argv(profile, p).len() == 15 + 2 * given(p.tax_id) + 2 * given(p.name),
        p.tax_id matches Some(v) ==> has_pair(customers_add_ach_argv(profile, p), "--tax-id"@, v@),
        p.name matches Some(v) ==> has_pair(customers_add_ach_argv(profile, p), "--name"@, v@),
{
    let a0 = base_argv(profile);
    let a1 = a0 + seq!["customers"@, "add-ach"@, p.id@];
    let a2 = a1 + seq!["--routing"@, p.routing@];
    let a3 = a2 + seq!["--account"@, p.account@];
    let a4 = a3 + seq!["--account-type"@, p.account_type@];
    let a5 = a4 + seq!["--account-holder-type"@, p.account_holder_type@];
    let a6 = a5 + flag("--tax-id"@, p.tax_id);
    let a7 = a6 + flag("--name"@, p.name);
    assert(customers_add_ach_argv(profile, p) == a7);
    assert(customers_add_ach_argv(profile, p).take(15) == base_argv(profile) + seq!["customers"@, "add-ach"@, p.id@] + seq!["--routing"@, p.routing@] + seq!["--account"@, p.account@] + seq!["--account-type"@, p.account_type@] + seq!["--account-holder-type"@, p.account_holder_type@]) by {
        lemma_take_concat(a6, flag("--name"@, p.name), 15);
        lemma_take_concat(a5, flag("--tax-id"@, p.tax_id), 15);
        assert(a5.take(15) =~= a5);
    }
    assert(customers_add_ach_argv(profile, p).len() == 15 + 2 * given(p.tax_id) + 2 * given(p.name)) by {
        assert(a0.len() == 4);
        assert(a1.len() == a0.len() + 3);
        assert(a2.len() == a1.len() + 2);
        assert(a3.len() == a2.len() + 2);
        assert(a4.len() == a3.len() + 2);
        assert(a5.len() == a4.len() + 2);
        lemma_flag_len("--tax-id"@, p.tax_id);
        assert(a6.len() == a5.len() + 2 * given(p.tax_id));
        lemma_flag_len("--name"@, p.name);
        assert(a7.len() == a6.len() + 2 * given(p.name));
    }
    assert(p.tax_id matches Some(v) ==> has_pair(customers_add_ach_argv(profile, p), "--tax-id"@, v@)) by {
        match p.tax_id {
        Some(v) => {
            lemma_flag_pair("--tax-id"@, p.tax_id);
            lemma_has_pair_concat(a5, flag("--tax-id"@, p.tax_id), "--tax-id"@, v@);
            lemma_has_pair_concat(a6, flag("--name"@, p.name), "--tax-id"@, v@);
        },
        None => {},
    }
    }
    assert(p.name matches Some(v) ==> has_pair(customers_add_ach_argv(profile, p), "--name"@, v@)) by {
        match p.name {
        Some(v) => {
            lemma_flag_pair("--name"@, p.name);
            lemma_has_pair_concat(a6, flag("--name"@, p.name), "--name"@, v@);
        },
        None => {},
    }
    }
}

/// The arguments `customers_remove_method` runs the CLI with.
pub open spec fn customers_remove_method_argv(profile: Profile, p: RemoveMethod) -> Seq<Seq<char>> {
    base_argv(profile)
        + seq!["customers"@, "remove-method"@, p.id@, p.method_id@, "--yes"@]
}

/// The envelope `customers_remove_method` answers an empty success with.
pub open spec fn customers_remove_method_ack(profile: Profile, p: RemoveMethod) -> JsonV {
    ack_envelope_view("payment_method_removed"@, JsonV::Object(seq![("id"@, JsonV::Str(p.id@)), ("method_id"@, JsonV::Str(p.method_id@)), ("removed"@, JsonV::Bool(true))]), profile_str(profile))
}

/// An empty success of `customers_remove_method` is acknowledged with an `payment_method_removed` envelope whose
/// data describe what was done to the given resource and whose environment is
/// the pinned profile.
pub proof fn lemma_customers_remove_method_ack_fields(profile: Profile, p: RemoveMethod)
    ensures
        json_get(customers_remove_method_ack(profile, p), "object"@) == Some(JsonV::Str("payment_method_removed"@)),
        json_get(customers_remove_method_ack(profile, p), "meta"@) matches Some(mt) && json_get(mt, "environment"@) == Some(JsonV::Str(profile_str(profile))),
        json_get(customers_remove_method_ack(profile, p), "data"@) matches Some(d) && json_get(d, "id"@) == Some(JsonV::Str(p.id@)),
        json_get(customers_remove_method_ack(profile, p), "data"@) matches Some(d) && json_get(d, "method_id"@) == Some(JsonV::Str(p.method_id@)),
        json_get(customers_remove_method_ack(profile, p), "data"@) matches Some(d) && json_get(d, "removed"@) == Some(JsonV::Bool(true)),
{
    reveal_strlit("object");
    reveal_strlit("data");
    reveal_strlit("meta");
    reveal_strlit("environment");
    reveal_strlit("id");
    reveal_strlit("method_id");
    reveal_strlit("removed");
    reveal_with_fuel(member_lookup, 4);
    assert("object"@.len() == 6);
    assert("data"@.len() == 4);
    assert("meta"@.len() == 4);
    assert("environment"@.len() == 11);
    assert("id"@.len() == 2);
    assert("method_id"@.len() == 9);
    assert("removed"@.len() == 7);
    assert("data"@[0] == 'd');
    assert("meta"@[0] == 'm');
    let d = JsonV::Object(seq![("id"@, JsonV::Str(p.id@)), ("method_id"@, JsonV::Str(p.method_id@)), ("removed"@, JsonV::Bool(true))]);
    let mt = JsonV::Object(seq![("environment"@, JsonV::Str(profile_str(profile)))]);
    assert(json_get(customers_remove_method_ack(profile, p), "data"@) == Some(d));
    assert(json_get(customers_remove_method_ack(profile, p), "meta"@) == Some(mt));
    assert(json_get(mt, "environment"@) == Some(JsonV::Str(profile_str(profile))));
    assert(json_get(d, "id"@) == Some(JsonV::Str(p.id@)));
    assert(json_get(d, "method_id"@) == Some(JsonV::Str(p.method_id@)));
    assert(json_get(d, "removed"@) == Some(JsonV::Bool(true)));
}

/// `customers_remove_method_argv` passes each parameter under its own flag: the fixed words come
/// first, and every given field adds exactly its own `--flag value`, holding
/// that field's value whatever the other fields are; nothing else is added.
pub proof fn lemma_customers_remove_method_argv_fields(profile: Profile, p: RemoveMethod)
    ensures
        customers_remove_method_argv(profile, p).take(9) == base_argv(profile) + seq!["customers"@, "remove-method"@, p.id@, p.method_id@, "--yes"@],
        customers_remove_method_argv(profile, p).len() == 9,
{
    let a0 = base_argv(profile);
    let a1 = a0 + seq!["customers"@, "remove-method"@, p.id@, p.method_id@, "--yes"@];
    assert(customers_remove_method_argv(profile, p) == a1);
    assert(customers_remove_method_argv(profile, p).take(9) == base_argv(profile) + seq!["customers"@, "remove-method"@, p.id@, p.method_id@, "--yes"@]) by {
        assert(a1.take(9) =~= a1);
    }
    assert(customers_remove_method_argv(profile, p).len() == 9) by {
        assert(a0.len() == 4);
        assert(a1.len() == a0.len() + 5);
    }
}

impl FluteServer {
    /// Get a customer by id. Safe to retry.
    pub fn customers_get(&self, p: Id) -> (res: ToolPlan)
        ensures
            runs(res, customers_get_argv(self.config.profile, p)),
    {
        let Id { id } = p;
        let mut args = self.base_args();
        push_lit(&mut args, "customers");
        push_lit(&mut args, "get");
        push_word(&mut args, id);
        assert(args.deep_view() =~= customers_get_argv(self.config.profile, p));
        ToolPlan::Run { args, on_empty: None }
    }

    /// List customers. Safe to retry.
    pub fn customers_list(&self, p: CustomersList) -> (res: ToolPlan)
        ensures
            runs(res, customers_list_argv(self.config.profile, p)),
    {
        let CustomersList { limit, page, search } = p;
        let mut args = self.base_args();
        push_lit(&mut args, "customers");
        push_lit(&mut args, "list");
        push_num_flag(&mut args, "--limit", limit);
        push_num_flag(&mut args, "--page", page);
        push_flag(&mut args, "--search", search);
        assert(args.deep_view() =~= customers_list_argv(self.config.profile, p));
        ToolPlan::Run { args, on_empty: None }
    }

    /// List a customer's stored payment methods. Safe to retry.
    pub fn customers_methods(&self, p: Id) -> (res: ToolPlan)
        ensures
            runs(res, customers_methods_argv(self.config.profile, p)),
    {
        let Id { id } = p;
        let mut args = self.base_args();
        push_lit(&mut args, "customers");
        push_lit(&mut args, "methods");
        push_word(&mut args, id);
        assert(args.deep_view() =~= customers_methods_argv(self.config.profile, p));
        ToolPlan::Run { args, on_empty: None }
    }

    /// Create a customer. NOT idempotent.
    pub fn customers_create(&self, p: CustomerFields) -> (res: ToolPlan)
        ensures
            write_plan(self.config, res, "customers_create"@, customers_create_argv(self.config.profile, p)),
    {
        if let Some(e) = self.guard_write("customers_create") {
            return ToolPlan::Refuse(e);
        }
        let mut args = self.base_args();
        push_lit(&mut args, "customers");
        push_lit(&mut args, "create");
        customer_field_args(&mut args, p);
        assert(args.deep_view() =~= customers_create_argv(self.config.profile, p));
        ToolPlan::Run { args, on_empty: None }
    }

    /// Update a customer; omitted fields keep their values.
    pub fn customers_update(&self, p: CustomerUpdate) -> (res: ToolPlan)
        ensures
            write_plan(self.config, res, "customers_update"@, customers_update_argv(self.config.profile, p)),
    {
        if let Some(e) = self.guard_write("customers_update") {
            return ToolPlan::Refuse(e);
        }
        let CustomerUpdate { id, fields } = p;
        let mut args = self.base_args();
        push_lit(&mut args, "customers");
        push_lit(&mut args, "update");
        push_word(&mut args, id);
        customer_field_args(&mut args, fields);
        assert(args.deep_view() =~= customers_update_argv(self.config.profile, p));
        ToolPlan::Run { args, on_empty: None }
    }

    /// Delete a customer. An empty success is answered with a `customer_delete` envelope.
    pub fn customers_delete(&self, p: Id) -> (res: ToolPlan)
        ensures
            guarded(self.config) ==> refuses(res, "customers_delete"@),
            !guarded(self.config) ==> runs_with_ack(res, customers_delete_argv(self.config.profile, p), customers_delete_ack(self.config.profile, p)),
    {
        if let Some(e) = self.guard_write("customers_delete") {
            return ToolPlan::Refuse(e);
        }
        let Id { id } = p;
        let id_copy = id.clone();
        let mut args = self.base_args();
        push_lit(&mut args, "customers");
        push_lit(&mut args, "delete");
        push_word(&mut args, id);
        push_lit(&mut args, "--yes");
        assert(args.deep_view() =~= customers_delete_argv(self.config.profile, p));
        let mut data: Vec<(String, Json)> = Vec::new();
        data.push((String::from_str("id"), Json::Str(id_copy)));
        data.push((String::from_str("deleted"), Json::Bool(true)));
        let data = json_object(data);
        proof {
            assert(data@->Object_0 =~= seq![("id"@, JsonV::Str(p.id@)), ("deleted"@, JsonV::Bool(true))]);
        }
        let ack = ack_envelope("customer_delete", data, self.config.profile.as_cli_str());
        ToolPlan::Run { args, on_empty: Some(ack) }
    }

    /// Vault a card on a customer. NOT idempotent.
    pub fn customers_add_card(&self, p: AddCard) -> (res: ToolPlan)
        ensures
            write_plan(self.config, res, "customers_add_card"@, customers_add_card_argv(self.config.profile, p)),
    {
        if let Some(e) = self.guard_write("customers_add_card") {
            return ToolPlan::Refuse(e);
        }
        let AddCard { id, card, exp, cvv, name } = p;
        let mut args = self.base_args();
        push_lit(&mut args, "customers");
        push_lit(&mut args, "add-card");
        push_word(&mut args, id);
        push_pair(&mut args, "--card", card);
        push_pair(&mut args, "--exp", exp);
        push_pair(&mut args, "--cvv", cvv);
        push_flag(&mut args, "--name", name);
        assert(args.deep_view() =~= customers_add_card_argv(self.config.profile, p));
        ToolPlan::Run { args, on_empty: None }
    }

    /// Vault a bank account (ACH) on a customer. NOT idempotent.
    pub fn customers_add_ach(&self, p: AddAch) -> (res: ToolPlan)
        ensures
            write_plan(self.config, res, "customers_add_ach"@, customers_add_ach_argv(self.config.profile, p)),
    {
        if let Some(e) = self.guard_write("customers_add_ach") {
            return ToolPlan::Refuse(e);
        }
        let AddAch { id, routing, account, account_type, account_holder_type, tax_id, name } = p;
        let mut args = self.base_args();
        push_lit(&mut args, "customers");
        push_lit(&mut args, "add-ach");
        push_word(&mut args, id);
        push_pair(&mut args, "--routing", routing);
        push_pair(&mut args, "--account", account);
        push_pair(&mut args, "--account-type", account_type);
        push_pair(&mut args, "--account-holder-type", account_holder_type);
        push_flag(&mut args, "--tax-id", tax_id);
        push_flag(&mut args, "--name", name);
        assert(args.deep_view() =~= customers_add_ach_argv(self.config.profile, p));
        ToolPlan::Run { args, on_empty: None }
    }

    /// Remove a stored payment method from a customer. An empty success is answered with a `payment_method_removed` envelope.
    pub fn customers_remove_method(&self, p: RemoveMethod) -> (res: ToolPlan)
        ensures
            guarded(self.config) ==> refuses(res, "customers_remove_method"@),
            !guarded(self.config) ==> runs_with_ack(res, customers_remove_method_argv(self.config.profile, p), customers_remove_method_ack(self.config.profile, p)),
    {
        if let Some(e) = self.guard_write("customers_remove_method") {
            return ToolPlan::Refuse(e);
        }
        let RemoveMethod { id, method_id } = p;
        let id_copy = id.clone();
        let method_id_copy = method_id.clone();
        let mut args = self.base_args();
        push_lit(&mut args, "customers");
        push_lit(&mut args, "remove-method");
        push_word(&mut args, id);
        push_word(&mut args, method_id);
        push_lit(&mut args, "--yes");
        assert(args.deep_view() =~= customers_remove_method_argv(self.config.profile, p));
        let mut data: Vec<(String, Json)> = Vec::new();
        data.push((String::from_str("id"), Json::Str(id_copy)));
        data.push((String::from_str("method_id"), Json::Str(method_id_copy)));
        data.push((String::from_str("removed"), Json::Bool(true)));
        let data = json_object(data);
        proof {
            assert(data@->Object_0 =~= seq![("id"@, JsonV::Str(p.id@)), ("method_id"@, JsonV::Str(p.method_id@)), ("removed"@, JsonV::Bool(true))]);
        }
        let ack = ack_envelope("payment_method_removed", data, self.config.profile.as_cli_str());
        ToolPlan::Run { args, on_empty: Some(ack) }
    }
}

} // verus!
