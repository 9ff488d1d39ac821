//! Card transaction tools.
use vstd::prelude::*;

use crate::config::Profile;
use crate::server::{
    base_argv, flag, num_flag, push_flag, push_lit, push_num_flag, push_pair, push_switch,
    push_word, runs, switch, write_plan, FluteServer, ToolPlan,
};
use crate::server::{
    given, has_pair, has_word, lemma_flag_len, lemma_flag_pair, lemma_num_flag_len,
    lemma_switch_len, lemma_take_concat, lemma_has_pair_concat, lemma_has_word_concat,
    lemma_num_flag_pair, lemma_switch_word,
};
use crate::text::decimal;
use crate::tools::Id;
use crate::tools::address::{billing_argv, lemma_billing_argv_fields, BillingArgs};

verus! {

/// Parameters of `transactions_list`.
#[derive(Debug, Default)]
pub struct TransactionsList {
    /// Page size (maps to the API `pageSize`).
    pub limit: Option<u32>,
    /// Zero-based page index: 0 (or omitted) is the first page.
    pub page: Option<u32>,
    /// Only unsettled transactions.
    pub unsettled: Option<bool>,
    /// Client-side status filter applied to the returned page.
    pub status: Option<String>,
    pub from: Option<String>,
    pub to: Option<String>,
}

/// Shared input for `sale` and `auth` (identical flag set).
#[derive(Debug, Default)]
pub struct SaleArgs {
    /// Amount as a decimal string, e.g. "10.00".
    pub amount: String,
    pub card: Option<String>,
    /// Expiry as MM/YY or MM/YYYY.
    pub exp: Option<String>,
    pub cvv: Option<String>,
    pub tip_amount: Option<String>,
    pub customer_id: Option<String>,
    pub payment_method_id: Option<String>,
    /// Currency id; API default 1 = USD.
    pub currency_id: Option<u32>,
    /// Card data source; CLI default 1 = Internet/ISV.
    pub card_data_source: Option<u32>,
    pub reference_id: Option<String>,
    /// AVS billing street line 1.
    pub billing_line1: Option<String>,
    /// AVS billing street line 2.
    pub billing_line2: Option<String>,
    /// AVS billing city.
    pub billing_city: Option<String>,
    /// AVS billing state name, e.g. "CO".
    pub billing_state: Option<String>,
    /// AVS billing numeric state id.
    pub billing_state_id: Option<u32>,
    /// AVS billing postal / ZIP code.
    pub billing_postal_code: Option<String>,
    /// AVS billing numeric country id; 1 = US.
    pub billing_country_id: Option<u32>,
}

/// A transaction, with an optional partial amount.
#[derive(Debug, Default)]
pub struct TxnRef {
    pub transaction_id: String,
    /// Optional partial amount (capture/refund).
    pub amount: Option<String>,
}

/// Parameters of `transactions_tip_adjust`.
#[derive(Debug, Default)]
pub struct TipAdjust {
    pub transaction_id: String,
    pub tip_amount: String,
}

/// Parameters of `transactions_settle`.
#[derive(Debug, Default)]
pub struct Settle {
    pub payment_processor_id: String,
}

/// The arguments of a `sale` or `auth` (`sub`) call; they share one flag set.
pub open spec fn sale_like_argv(profile: Profile, sub: Seq<char>, p: SaleArgs) -> Seq<Seq<char>> {
    base_argv(profile)
        + seq!["transactions"@, sub]
        + seq!["--amount"@, p.amount@]
        + flag("--card"@, p.card)
        + flag("--exp"@, p.exp)
        + flag("--cvv"@, p.cvv)
        + flag("--tip-amount"@, p.tip_amount)
        + flag("--customer-id"@, p.customer_id)
        + flag("--payment-method-id"@, p.payment_method_id)
        + num_flag("--currency-id"@, p.currency_id)
        + num_flag("--card-data-source"@, p.card_data_source)
        + flag("--reference-id"@, p.reference_id)
        + billing_argv(BillingArgs { line1: p.billing_line1, line2: p.billing_line2, city: p.billing_city, state: p.billing_state, state_id: p.billing_state_id, postal_code: p.billing_postal_code, country_id: p.billing_country_id })
}

/// `sale_like_argv` passes each parameter under its own flag: the fixed words come
/// first, and every given field adds exactly its own `--flag value`, holding
/// that field's value whatever the other fields are; nothing else is added.
#[verifier::spinoff_prover]
#[verifier::rlimit(100)]
pub proof fn lemma_sale_like_argv_fields(profile: Profile, sub: Seq<char>, p: SaleArgs)
    ensures
        sale_like_argv(profile, sub, p).take(8) == base_argv(profile) + seq!["transactions"@, sub] + seq!["--amount"@, p.amount@],
        sale_like_argv(profile, sub, p).len() == 8 + 2 * given(p.card) + 2 * given(p.exp) + 2 * given(p.cvv) + 2 * given(p.tip_amount) + 2 * given(p.customer_id) + 2 * given(p.payment_method_id) + 2 * given(p.currency_id) + 2 * given(p.card_data_source) + 2 * given(p.reference_id) + 2 * (given(p.billing_line1) + given(p.billing_line2) + given(p.billing_city) + given(p.billing_state) + given(p.billing_state_id) + given(p.billing_postal_code) + given(p.billing_country_id)),
        p.card matches Some(v) ==> has_pair(sale_like_argv(profile, sub, p), "--card"@, v@),
        p.exp matches Some(v) ==> has_pair(sale_like_argv(profile, sub, p), "--exp"@, v@),
        p.cvv matches Some(v) ==> has_pair(sale_like_argv(profile, sub, p), "--cvv"@, v@),
        p.tip_amount matches Some(v) ==> has_pair(sale_like_argv(profile, sub, p), "--tip-amount"@, v@),
        p.customer_id matches Some(v) ==> has_pair(sale_like_argv(profile, sub, p), "--customer-id"@, v@),
        p.payment_method_id matches Some(v) ==> has_pair(sale_like_argv(profile, sub, p), "--payment-method-id"@, v@),
        p.currency_id matches Some(n) ==> has_pair(sale_like_argv(profile, sub, p), "--currency-id"@, decimal(n as nat)),
        p.card_data_source matches Some(n) ==> has_pair(sale_like_argv(profile, sub, p), "--card-data-source"@, decimal(n as nat)),
        p.reference_id matches Some(v) ==> has_pair(sale_like_argv(profile, sub, p), "--reference-id"@, v@),
{
    let a0 = base_argv(profile);
    let a1 = a0 + seq!["transactions"@, sub];
    let a2 = a1 + seq!["--amount"@, p.amount@];
    let a3 = a2 + flag("--card"@, p.card);
    let a4 = a3 + flag("--exp"@, p.exp);
    let a5 = a4 + flag("--cvv"@, p.cvv);
    let a6 = a5 + flag("--tip-amount"@, p.tip_amount);
    let a7 = a6 + flag("--customer-id"@, p.customer_id);
    let a8 = a7 + flag("--payment-method-id"@, p.payment_method_id);
    let a9 = a8 + num_flag("--currency-id"@, p.currency_id);
    let a10 = a9 + num_flag("--card-data-source"@, p.card_data_source);
    let a11 = a10 + flag("--reference-id"@, p.reference_id);
    let a12 = a11 + billing_argv(BillingArgs { line1: p.billing_line1, line2: p.billing_line2, city: p.billing_city, state: p.billing_state, state_id: p.billing_state_id, postal_code: p.billing_postal_code, country_id: p.billing_country_id });
    assert(sale_like_argv(profile, sub, p) == a12);
    assert(sale_like_argv(profile, sub, p).take(8) == base_argv(profile) + seq!["transactions"@, sub] + seq!["--amount"@, p.amount@]) by {
        lemma_take_concat(a11, billing_argv(BillingArgs { line1: p.billing_line1, line2: p.billing_line2, city: p.billing_city, state: p.billing_state, state_id: p.billing_state_id, postal_code: p.billing_postal_code, country_id: p.billing_country_id }), 8);
        lemma_take_concat(a10, flag("--reference-id"@, p.reference_id), 8);
        lemma_take_concat(a9, num_flag("--card-data-source"@, p.card_data_source), 8);
        lemma_take_concat(a8, num_flag("--currency-id"@, p.currency_id), 8);
        lemma_take_concat(a7, flag("--payment-method-id"@, p.payment_method_id), 8);
        lemma_take_concat(a6, flag("--customer-id"@, p.customer_id), 8);
        lemma_take_concat(a5, flag("--tip-amount"@, p.tip_amount), 8);
        lemma_take_concat(a4, flag("--cvv"@, p.cvv), 8);
        lemma_take_concat(a3, flag("--exp"@, p.exp), 8);
        lemma_take_concat(a2, flag("--card"@, p.card), 8);
        assert(a2.take(8) =~= a2);
    }
    assert(sale_like_argv(profile, sub, p).len() == 8 + 2 * given(p.card) + 2 * given(p.exp) + 2 * given(p.cvv) + 2 * given(p.tip_amount) + 2 * given(p.customer_id) + 2 * given(p.payment_method_id) + 2 * given(p.currency_id) + 2 * given(p.card_data_source) + 2 * given(p.reference_id) + 2 * (given(p.billing_line1) + given(p.billing_line2) + given(p.billing_city) + given(p.billing_state) + given(p.billing_state_id) + given(p.billing_postal_code) + given(p.billing_country_id))) by {
        assert(a0.len() == 4);
        assert(a1.len() == a0.len() + 2);
        assert(a2.len() == a1.len() + 2);
        lemma_flag_len("--card"@, p.card);
        assert(a3.len() == a2.len() + 2 * given(p.card));
        lemma_flag_len("--exp"@, p.exp);
        assert(a4.len() == a3.len() + 2 * given(p.exp));
        lemma_flag_len("--cvv"@, p.cvv);
        assert(a5.len() == a4.len() + 2 * given(p.cvv));
        lemma_flag_len("--tip-amount"@, p.tip_amount);
        assert(a6.len() == a5.len() + 2 * given(p.tip_amount));
        lemma_flag_len("--customer-id"@, p.customer_id);
        assert(a7.len() == a6.len() + 2 * given(p.customer_id));
        lemma_flag_len("--payment-method-id"@, p.payment_method_id);
        assert(a8.len() == a7.len() + 2 * given(p.payment_method_id));
        lemma_num_flag_len("--currency-id"@, p.currency_id);
        assert(a9.len() == a8.len() + 2 * given(p.currency_id));
        lemma_num_flag_len("--card-data-source"@, p.card_data_source);
        assert(a10.len() == a9.len() + 2 * given(p.card_data_source));
        lemma_flag_len("--reference-id"@, p.reference_id);
        assert(a11.len() == a10.len() + 2 * given(p.reference_id));
        lemma_billing_argv_fields(BillingArgs { line1: p.billing_line1, line2: p.billing_line2, city: p.billing_city, state: p.billing_state, state_id: p.billing_state_id, postal_code: p.billing_postal_code, country_id: p.billing_country_id });
        assert(a12.len() == a11.len() + 2 * (given(p.billing_line1) + given(p.billing_line2) + given(p.billing_city) + given(p.billing_state) + given(p.billing_state_id) + given(p.billing_postal_code) + given(p.billing_country_id)));
    }
    assert(p.card matches Some(v) ==> has_pair(sale_like_argv(profile, sub, p), "--card"@, v@)) by {
        match p.card {
        Some(v) => {
            lemma_flag_pair("--card"@, p.card);
            lemma_has_pair_concat(a2, flag("--card"@, p.card), "--card"@, v@);
            lemma_has_pair_concat(a3, flag("--exp"@, p.exp), "--card"@, v@);
            lemma_has_pair_concat(a4, flag("--cvv"@, p.cvv), "--card"@, v@);
            lemma_has_pair_concat(a5, flag("--tip-amount"@, p.tip_amount), "--card"@, v@);
            lemma_has_pair_concat(a6, flag("--customer-id"@, p.customer_id), "--card"@, v@);
            lemma_has_pair_concat(a7, flag("--payment-method-id"@, p.payment_method_id), "--card"@, v@);
            lemma_has_pair_concat(a8, num_flag("--currency-id"@, p.currency_id), "--card"@, v@);
            lemma_has_pair_concat(a9, num_flag("--card-data-source"@, p.card_data_source), "--card"@, v@);
            lemma_has_pair_concat(a10, flag("--reference-id"@, p.reference_id), "--card"@, v@);
            lemma_has_pair_concat(a11, billing_argv(BillingArgs { line1: p.billing_line1, line2: p.billing_line2, city: p.billing_city, state: p.billing_state, state_id: p.billing_state_id, postal_code: p.billing_postal_code, country_id: p.billing_country_id }), "--card"@, v@);
        },
        None => {},
    }
    }
    assert(p.exp matches Some(v) ==> has_pair(sale_like_argv(profile, sub, p), "--exp"@, v@)) by {
        match p.exp {
        Some(v) => {
            lemma_flag_pair("--exp"@, p.exp);
            lemma_has_pair_concat(a3, flag("--exp"@, p.exp), "--exp"@, v@);
            lemma_has_pair_concat(a4, flag("--cvv"@, p.cvv), "--exp"@, v@);
            lemma_has_pair_concat(a5, flag("--tip-amount"@, p.tip_amount), "--exp"@, v@);
            lemma_has_pair_concat(a6, flag("--customer-id"@, p.customer_id), "--exp"@, v@);
            lemma_has_pair_concat(a7, flag("--payment-method-id"@, p.payment_method_id), "--exp"@, v@);
            lemma_has_pair_concat(a8, num_flag("--currency-id"@, p.currency_id), "--exp"@, v@);
            lemma_has_pair_concat(a9, num_flag("--card-data-source"@, p.card_data_source), "--exp"@, v@);
            lemma_has_pair_concat(a10, flag("--reference-id"@, p.reference_id), "--exp"@, v@);
            lemma_has_pair_concat(a11, billing_argv(BillingArgs { line1: p.billing_line1, line2: p.billing_line2, city: p.billing_city, state: p.billing_state, state_id: p.billing_state_id, postal_code: p.billing_postal_code, country_id: p.billing_country_id }), "--exp"@, v@);
        },
        None => {},
    }
    }
    assert(p.cvv matches Some(v) ==> has_pair(sale_like_argv(profile, sub, p), "--cvv"@, v@)) by {
        match p.cvv {
        Some(v) => {
            lemma_flag_pair("--cvv"@, p.cvv);
            lemma_has_pair_concat(a4, flag("--cvv"@, p.cvv), "--cvv"@, v@);
            lemma_has_pair_concat(a5, flag("--tip-amount"@, p.tip_amount), "--cvv"@, v@);
            lemma_has_pair_concat(a6, flag("--customer-id"@, p.customer_id), "--cvv"@, v@);
            lemma_has_pair_concat(a7, flag("--payment-method-id"@, p.payment_method_id), "--cvv"@, v@);
            lemma_has_pair_concat(a8, num_flag("--currency-id"@, p.currency_id), "--cvv"@, v@);
            lemma_has_pair_concat(a9, num_flag("--card-data-source"@, p.card_data_source), "--cvv"@, v@);
            lemma_has_pair_concat(a10, flag("--reference-id"@, p.reference_id), "--cvv"@, v@);
            lemma_has_pair_concat(a11, billing_argv(BillingArgs { line1: p.billing_line1, line2: p.billing_line2, city: p.billing_city, state: p.billing_state, state_id: p.billing_state_id, postal_code: p.billing_postal_code, country_id: p.billing_country_id }), "--cvv"@, v@);
        },
        None => {},
    }
    }
    assert(p.tip_amount matches Some(v) ==> has_pair(sale_like_argv(profile, sub, p), "--tip-amount"@, v@)) by {
        match p.tip_amount {
        Some(v) => {
            lemma_flag_pair("--tip-amount"@, p.tip_amount);
            lemma_has_pair_concat(a5, flag("--tip-amount"@, p.tip_amount), "--tip-amount"@, v@);
            lemma_has_pair_concat(a6, flag("--customer-id"@, p.customer_id), "--tip-amount"@, v@);
            lemma_has_pair_concat(a7, flag("--payment-method-id"@, p.payment_method_id), "--tip-amount"@, v@);
            lemma_has_pair_concat(a8, num_flag("--currency-id"@, p.currency_id), "--tip-amount"@, v@);
            lemma_has_pair_concat(a9, num_flag("--card-data-source"@, p.card_data_source), "--tip-amount"@, v@);
            lemma_has_pair_concat(a10, flag("--reference-id"@, p.reference_id), "--tip-amount"@, v@);
            lemma_has_pair_concat(a11, billing_argv(BillingArgs { line1: p.billing_line1, line2: p.billing_line2, city: p.billing_city, state: p.billing_state, state_id: p.billing_state_id, postal_code: p.billing_postal_code, country_id: p.billing_country_id }), "--tip-amount"@, v@);
        },
        None => {},
    }
    }
    assert(p.customer_id matches Some(v) ==> has_pair(sale_like_argv(profile, sub, p), "--customer-id"@, v@)) by {
        match p.customer_id {
        Some(v) => {
            lemma_flag_pair("--customer-id"@, p.customer_id);
            lemma_has_pair_concat(a6, flag("--customer-id"@, p.customer_id), "--customer-id"@, v@);
            lemma_has_pair_concat(a7, flag("--payment-method-id"@, p.payment_method_id), "--customer-id"@, v@);
            lemma_has_pair_concat(a8, num_flag("--currency-id"@, p.currency_id), "--customer-id"@, v@);
            lemma_has_pair_concat(a9, num_flag("--card-data-source"@, p.card_data_source), "--customer-id"@, v@);
            lemma_has_pair_concat(a10, flag("--reference-id"@, p.reference_id), "--customer-id"@, v@);
            lemma_has_pair_concat(a11, billing_argv(BillingArgs { line1: p.billing_line1, line2: p.billing_line2, city: p.billing_city, state: p.billing_state, state_id: p.billing_state_id, postal_code: p.billing_postal_code, country_id: p.billing_country_id }), "--customer-id"@, v@);
        },
        None => {},
    }
    }
    assert(p.payment_method_id matches Some(v) ==> has_pair(sale_like_argv(profile, sub, p), "--payment-method-id"@, v@)) by {
        match p.payment_method_id {
        Some(v) => {
            lemma_flag_pair("--payment-method-id"@, p.payment_method_id);
            lemma_has_pair_concat(a7, flag("--payment-method-id"@, p.payment_method_id), "--payment-method-id"@, v@);
            lemma_has_pair_concat(a8, num_flag("--currency-id"@, p.currency_id), "--payment-method-id"@, v@);
            lemma_has_pair_concat(a9, num_flag("--card-data-source"@, p.card_data_source), "--payment-method-id"@, v@);
            lemma_has_pair_concat(a10, flag("--reference-id"@, p.reference_id), "--payment-method-id"@, v@);
            lemma_has_pair_concat(a11, billing_argv(BillingArgs { line1: p.billing_line1, line2: p.billing_line2, city: p.billing_city, state: p.billing_state, state_id: p.billing_state_id, postal_code: p.billing_postal_code, country_id: p.billing_country_id }), "--payment-method-id"@, v@);
        },
        None => {},
    }
    }
    assert(p.currency_id matches Some(n) ==> has_pair(sale_like_argv(profile, sub, p), "--currency-id"@, decimal(n as nat))) by {
        match p.currency_id {
        Some(n) => {
            lemma_num_flag_pair("--currency-id"@, p.currency_id);
            lemma_has_pair_concat(a8, num_flag("--currency-id"@, p.currency_id), "--currency-id"@, decimal(n as nat));
            lemma_has_pair_concat(a9, num_flag("--card-data-source"@, p.card_data_source), "--currency-id"@, decimal(n as nat));
            lemma_has_pair_concat(a10, flag("--reference-id"@, p.reference_id), "--currency-id"@, decimal(n as nat));
            lemma_has_pair_concat(a11, billing_argv(BillingArgs { line1: p.billing_line1, line2: p.billing_line2, city: p.billing_city, state: p.billing_state, state_id: p.billing_state_id, postal_code: p.billing_postal_code, country_id: p.billing_country_id }), "--currency-id"@, decimal(n as nat));
        },
        None => {},
    }
    }
    assert(p.card_data_source matches Some(n) ==> has_pair(sale_like_argv(profile, sub, p), "--card-data-source"@, decimal(n as nat))) by {
        match p.card_data_source {
        Some(n) => {
            lemma_num_flag_pair("--card-data-source"@, p.card_data_source);
            lemma_has_pair_concat(a9, num_flag("--card-data-source"@, p.card_data_source), "--card-data-source"@, decimal(n as nat));
            lemma_has_pair_concat(a10, flag("--reference-id"@, p.reference_id), "--card-data-source"@, decimal(n as nat));
            lemma_has_pair_concat(a11, billing_argv(BillingArgs { line1: p.billing_line1, line2: p.billing_line2, city: p.billing_city, state: p.billing_state, state_id: p.billing_state_id, postal_code: p.billing_postal_code, country_id: p.billing_country_id }), "--card-data-source"@, decimal(n as nat));
        },
        None => {},
    }
    }
    assert(p.reference_id matches Some(v) ==> has_pair(sale_like_argv(profile, sub, p), "--reference-id"@, v@)) by {
        match p.reference_id {
        Some(v) => {
            lemma_flag_pair("--reference-id"@, p.reference_id);
            lemma_has_pair_concat(a10, flag("--reference-id"@, p.reference_id), "--reference-id"@, v@);
            lemma_has_pair_concat(a11, billing_argv(BillingArgs { line1: p.billing_line1, line2: p.billing_line2, city: p.billing_city, state: p.billing_state, state_id: p.billing_state_id, postal_code: p.billing_postal_code, country_id: p.billing_country_id }), "--reference-id"@, v@);
        },
        None => {},
    }
    }
}

/// `sale_like_argv` passes each given field of the AVS billing address under its
/// own `--billing-*` flag, holding that field's value.
#[verifier::spinoff_prover]
#[verifier::rlimit(100)]
pub proof fn lemma_sale_like_argv_billing_fields(profile: Profile, sub: Seq<char>, p: SaleArgs)
    ensures
        p.billing_line1 matches Some(v) ==> has_pair(sale_like_argv(profile, sub, p), "--billing-line1"@, v@),
        p.billing_line2 matches Some(v) ==> has_pair(sale_like_argv(profile, sub, p), "--billing-line2"@, v@),
        p.billing_city matches Some(v) ==> has_pair(sale_like_argv(profile, sub, p), "--billing-city"@, v@),
        p.billing_state matches Some(v) ==> has_pair(sale_like_argv(profile, sub, p), "--billing-state"@, v@),
        p.billing_state_id matches Some(n) ==> has_pair(sale_like_argv(profile, sub, p), "--billing-state-id"@, decimal(n as nat)),
        p.billing_postal_code matches Some(v) ==> has_pair(sale_like_argv(profile, sub, p), "--billing-postal-code"@, v@),
        p.billing_country_id matches Some(n) ==> has_pair(sale_like_argv(profile, sub, p), "--billing-country-id"@, decimal(n as nat)),
{
    let a0 = base_argv(profile);
    let a1 = a0 + seq!["transactions"@, sub];
    let a2 = a1 + seq!["--amount"@, p.amount@];
    let a3 = a2 + flag("--card"@, p.card);
    let a4 = a3 + flag("--exp"@, p.exp);
    let a5 = a4 + flag("--cvv"@, p.cvv);
    let a6 = a5 + flag("--tip-amount"@, p.tip_amount);
    let a7 = a6 + flag("--customer-id"@, p.customer_id);
    let a8 = a7 + flag("--payment-method-id"@, p.payment_method_id);
    let a9 = a8 + num_flag("--currency-id"@, p.currency_id);
    let a10 = a9 + num_flag("--card-data-source"@, p.card_data_source);
    let a11 = a10 + flag("--reference-id"@, p.reference_id);
    let a12 = a11 + billing_argv(BillingArgs { line1: p.billing_line1, line2: p.billing_line2, city: p.billing_city, state: p.billing_state, state_id: p.billing_state_id, postal_code: p.billing_postal_code, country_id: p.billing_country_id });
    assert(sale_like_argv(profile, sub, p) == a12);
    assert(p.billing_line1 matches Some(v) ==> has_pair(sale_like_argv(profile, sub, p), "--billing-line1"@, v@)) by {
        lemma_billing_argv_fields(BillingArgs { line1: p.billing_line1, line2: p.billing_line2, city: p.billing_city, state: p.billing_state, state_id: p.billing_state_id, postal_code: p.billing_postal_code, country_id: p.billing_country_id });
        match p.billing_line1 {
        Some(v) => {
            lemma_has_pair_concat(a11, billing_argv(BillingArgs { line1: p.billing_line1, line2: p.billing_line2, city: p.billing_city, state: p.billing_state, state_id: p.billing_state_id, postal_code: p.billing_postal_code, country_id: p.billing_country_id }), "--billing-line1"@, v@);
        },
        None => {},
    }
    }
    assert(p.billing_line2 matches Some(v) ==> has_pair(sale_like_argv(profile, sub, p), "--billing-line2"@, v@)) by {
        lemma_billing_argv_fields(BillingArgs { line1: p.billing_line1, line2: p.billing_line2, city: p.billing_city, state: p.billing_state, state_id: p.billing_state_id, postal_code: p.billing_postal_code, country_id: p.billing_country_id });
        match p.billing_line2 {
        Some(v) => {
            lemma_has_pair_concat(a11, billing_argv(BillingArgs { line1: p.billing_line1, line2: p.billing_line2, city: p.billing_city, state: p.billing_state, state_id: p.billing_state_id, postal_code: p.billing_postal_code, country_id: p.billing_country_id }), "--billing-line2"@, v@);
        },
        None => {},
    }
    }
    assert(p.billing_city matches Some(v) ==> has_pair(sale_like_argv(profile, sub, p), "--billing-city"@, v@)) by {
        lemma_billing_argv_fields(BillingArgs { line1: p.billing_line1, line2: p.billing_line2, city: p.billing_city, state: p.billing_state, state_id: p.billing_state_id, postal_code: p.billing_postal_code, country_id: p.billing_country_id });
        match p.billing_city {
        Some(v) => {
            lemma_has_pair_concat(a11, billing_argv(BillingArgs { line1: p.billing_line1, line2: p.billing_line2, city: p.billing_city, state: p.billing_state, state_id: p.billing_state_id, postal_code: p.billing_postal_code, country_id: p.billing_country_id }), "--billing-city"@, v@);
        },
        None => {},
    }
    }
    assert(p.billing_state matches Some(v) ==> has_pair(sale_like_argv(profile, sub, p), "--billing-state"@, v@)) by {
        lemma_billing_argv_fields(BillingArgs { line1: p.billing_line1, line2: p.billing_line2, city: p.billing_city, state: p.billing_state, state_id: p.billing_state_id, postal_code: p.billing_postal_code, country_id: p.billing_country_id });
        match p.billing_state {
        Some(v) => {
            lemma_has_pair_concat(a11, billing_argv(BillingArgs { line1: p.billing_line1, line2: p.billing_line2, city: p.billing_city, state: p.billing_state, state_id: p.billing_state_id, postal_code: p.billing_postal_code, country_id: p.billing_country_id }), "--billing-state"@, v@);
        },
        None => {},
    }
    }
    assert(p.billing_state_id matches Some(n) ==> has_pair(sale_like_argv(profile, sub, p), "--billing-state-id"@, decimal(n as nat))) by {
        lemma_billing_argv_fields(BillingArgs { line1: p.billing_line1, line2: p.billing_line2, city: p.billing_city, state: p.billing_state, state_id: p.billing_state_id, postal_code: p.billing_postal_code, country_id: p.billing_country_id });
        match p.billing_state_id {
        Some(n) => {
            lemma_has_pair_concat(a11, billing_argv(BillingArgs { line1: p.billing_line1, line2: p.billing_line2, city: p.billing_city, state: p.billing_state, state_id: p.billing_state_id, postal_code: p.billing_postal_code, country_id: p.billing_country_id }), "--billing-state-id"@, decimal(n as nat));
        },
        None => {},
    }
    }
    assert(p.billing_postal_code matches Some(v) ==> has_pair(sale_like_argv(profile, sub, p), "--billing-postal-code"@, v@)) by {
        lemma_billing_argv_fields(BillingArgs { line1: p.billing_line1, line2: p.billing_line2, city: p.billing_city, state: p.billing_state, state_id: p.billing_state_id, postal_code: p.billing_postal_code, country_id: p.billing_country_id });
        match p.billing_postal_code {
        Some(v) => {
            lemma_has_pair_concat(a11, billing_argv(BillingArgs { line1: p.billing_line1, line2: p.billing_line2, city: p.billing_city, state: p.billing_state, state_id: p.billing_state_id, postal_code: p.billing_postal_code, country_id: p.billing_country_id }), "--billing-postal-code"@, v@);
        },
        None => {},
    }
    }
    assert(p.billing_country_id matches Some(n) ==> has_pair(sale_like_argv(profile, sub, p), "--billing-country-id"@, decimal(n as nat))) by {
        lemma_billing_argv_fields(BillingArgs { line1: p.billing_line1, line2: p.billing_line2, city: p.billing_city, state: p.billing_state, state_id: p.billing_state_id, postal_code: p.billing_postal_code, country_id: p.billing_country_id });
        match p.billing_country_id {
        Some(n) => {
            lemma_has_pair_concat(a11, billing_argv(BillingArgs { line1: p.billing_line1, line2: p.billing_line2, city: p.billing_city, state: p.billing_state, state_id: p.billing_state_id, postal_code: p.billing_postal_code, country_id: p.billing_country_id }), "--billing-country-id"@, decimal(n as nat));
        },
        None => {},
    }
    }
}

/// The arguments `transactions_list` runs the CLI with.
pub open spec fn transactions_list_argv(profile: Profile, p: TransactionsList) -> Seq<Seq<char>> {
    base_argv(profile)
        + seq!["transactions"@, "list"@]
        + num_flag("--limit"@, p.limit)
        + num_flag("--page"@, p.page)
        + switch("--unsettled"@, p.unsettled)
        + flag("--status"@, p.status)
        + flag("--from"@, p.from)
        + flag("--to"@, p.to)
}

/// `transactions_list_argv` passes each parameter under its own flag: the fixed words come
/// first, and every given field adds exactly its own `--flag value`, holding
/// that field's value whatever the other fields are; nothing else is added.
#[verifier::spinoff_prover]
#[verifier::rlimit(100)]
pub proof fn lemma_transactions_list_argv_fields(profile: Profile, p: TransactionsList)
    ensures
        transactions_list_argv(profile, p).take(6) == base_argv(profile) + seq!["transactions"@, "list"@],
        transactions_list_argv(profile, p).len() == 6 + 2 * given(p.limit) + 2 * given(p.page) + (if p.unsettled == Some(true) { 1int } else { 0int }) + 2 * given(p.status) + 2 * given(p.from) + 2 * given(p.to),
        p.limit matches Some(n) ==> has_pair(transactions_list_argv(profile, p), "--limit"@, decimal(n as nat)),
        p.page matches Some(n) ==> has_pair(transactions_list_argv(profile, p), "--page"@, decimal(n as nat)),
        p.unsettled == Some(true) ==> has_word(transactions_list_argv(profile, p), "--unsettled"@),
        p.status matches Some(v) ==> has_pair(transactions_list_argv(profile, p), "--status"@, v@),
        p.from matches Some(v) ==> has_pair(transactions_list_argv(profile, p), "--from"@, v@),
        p.to matches Some(v) ==> has_pair(transactions_list_argv(profile, p), "--to"@, v@),
{
    let a0 = base_argv(profile);
    let a1 = a0 + seq!["transactions"@, "list"@];
    let a2 = a1 + num_flag("--limit"@, p.limit);
    let a3 = a2 + num_flag("--page"@, p.page);
    let a4 = a3 + switch("--unsettled"@, p.unsettled);
    let a5 = a4 + flag("--status"@, p.status);
    let a6 = a5 + flag("--from"@, p.from);
    let a7 = a6 + flag("--to"@, p.to);
    assert(transactions_list_argv(profile, p) == a7);
    assert(transactions_list_argv(profile, p).take(6) == base_argv(profile) + seq!["transactions"@, "list"@]) by {
        lemma_take_concat(a6, flag("--to"@, p.to), 6);
        lemma_take_concat(a5, flag("--from"@, p.from), 6);
        lemma_take_concat(a4, flag("--status"@, p.status), 6);
        lemma_take_concat(a3, switch("--unsettled"@, p.unsettled), 6);
        lemma_take_concat(a2, num_flag("--page"@, p.page), 6);
        lemma_take_concat(a1, num_flag("--limit"@, p.limit), 6);
        assert(a1.take(6) =~= a1);
    }
    assert(transactions_list_argv(profile, p).len() == 6 + 2 * given(p.limit) + 2 * given(p.page) + (if p.unsettled == Some(true) { 1int } else { 0int }) + 2 * given(p.status) + 2 * given(p.from) + 2 * given(p.to)) by {
        assert(a0.len() == 4);
        assert(a1.len() == a0.len() + 2);
        lemma_num_flag_len("--limit"@, p.limit);
        assert(a2.len() == a1.len() + 2 * given(p.limit));
        lemma_num_flag_len("--page"@, p.page);
        assert(a3.len() == a2.len() + 2 * given(p.page));
        lemma_switch_len("--unsettled"@, p.unsettled);
        assert(a4.len() == a3.len() + (if p.unsettled == Some(true) { 1int } else { 0int }));
        lemma_flag_len("--status"@, p.status);
        assert(a5.len() == a4.len() + 2 * given(p.status));
        lemma_flag_len("--from"@, p.from);
        assert(a6.len() == a5.len() + 2 * given(p.from));
        lemma_flag_len("--to"@, p.to);
        assert(a7.len() == a6.len() + 2 * given(p.to));
    }
    assert(p.limit matches Some(n) ==> has_pair(transactions_list_argv(profile, p), "--limit"@, decimal(n as nat))) by {
        match p.limit {
        Some(n) => {
            lemma_num_flag_pair("--limit"@, p.limit);
            lemma_has_pair_concat(a1, num_flag("--limit"@, p.limit), "--limit"@, decimal(n as nat));
            lemma_has_pair_concat(a2, num_flag("--page"@, p.page), "--limit"@, decimal(n as nat));
            lemma_has_pair_concat(a3, switch("--unsettled"@, p.unsettled), "--limit"@, decimal(n as nat));
            lemma_has_pair_concat(a4, flag("--status"@, p.status), "--limit"@, decimal(n as nat));
            lemma_has_pair_concat(a5, flag("--from"@, p.from), "--limit"@, decimal(n as nat));
            lemma_has_pair_concat(a6, flag("--to"@, p.to), "--limit"@, decimal(n as nat));
        },
        None => {},
    }
    }
    assert(p.page matches Some(n) ==> has_pair(transactions_list_argv(profile, p), "--page"@, decimal(n as nat))) by {
        match p.page {
        Some(n) => {
            lemma_num_flag_pair("--page"@, p.page);
            lemma_has_pair_concat(a2, num_flag("--page"@, p.page), "--page"@, decimal(n as nat));
            lemma_has_pair_concat(a3, switch("--unsettled"@, p.unsettled), "--page"@, decimal(n as nat));
            lemma_has_pair_concat(a4, flag("--status"@, p.status), "--page"@, decimal(n as nat));
            lemma_has_pair_concat(a5, flag("--from"@, p.from), "--page"@, decimal(n as nat));
            lemma_has_pair_concat(a6, flag("--to"@, p.to), "--page"@, decimal(n as nat));
        },
        None => {},
    }
    }
    assert(p.unsettled == Some(true) ==> has_word(transactions_list_argv(profile, p), "--unsettled"@)) by {
        if p.unsettled == Some(true) {
        lemma_switch_word("--unsettled"@, p.unsettled);
        lemma_has_word_concat(a3, switch("--unsettled"@, p.unsettled), "--unsettled"@);
        lemma_has_word_concat(a4, flag("--status"@, p.status), "--unsettled"@);
        lemma_has_word_concat(a5, flag("--from"@, p.from), "--unsettled"@);
        lemma_has_word_concat(a6, flag("--to"@, p.to), "--unsettled"@);
    }
    }
    assert(p.status matches Some(v) ==> has_pair(transactions_list_argv(profile, p), "--status"@, v@)) by {
        match p.status {
        Some(v) => {
            lemma_flag_pair("--status"@, p.status);
            lemma_has_pair_concat(a4, flag("--status"@, p.status), "--status"@, v@);
            lemma_has_pair_concat(a5, flag("--from"@, p.from), "--status"@, v@);
            lemma_has_pair_concat(a6, flag("--to"@, p.to), "--status"@, v@);
        },
        None => {},
    }
    }
    assert(p.from matches Some(v) ==> has_pair(transactions_list_argv(profile, p), "--from"@, v@)) by {
        match p.from {
        Some(v) => {
            lemma_flag_pair("--from"@, p.from);
            lemma_has_pair_concat(a5, flag("--from"@, p.from), "--from"@, v@);
            lemma_has_pair_concat(a6, flag("--to"@, p.to), "--from"@, v@);
        },
        None => {},
    }
    }
    assert(p.to matches Some(v) ==> has_pair(transactions_list_argv(profile, p), "--to"@, v@)) by {
        match p.to {
        Some(v) => {
            lemma_flag_pair("--to"@, p.to);
            lemma_has_pair_concat(a6, flag("--to"@, p.to), "--to"@, v@);
        },
        None => {},
    }
    }
}

/// The arguments `transactions_get` runs the CLI with.
pub open spec fn transactions_get_argv(profile: Profile, p: Id) -> Seq<Seq<char>> {
    base_argv(profile)
        + seq!["transactions"@, "get"@, p.id@]
}

/// `transactions_get_argv` passes each parameter under its own flag: the fixed words come
/// first, and every given field adds exactly its own `--flag value`, holding
/// that field's value whatever the other fields are; nothing else is added.
pub proof fn lemma_transactions_get_argv_fields(profile: Profile, p: Id)
    ensures
        transactions_get_argv(profile, p).take(7) == base_argv(profile) + seq!["transactions"@, "get"@, p.id@],
        transactions_get_argv(profile, p).len() == 7,
{
    let a0 = base_argv(profile);
    let a1 = a0 + seq!["transactions"@, "get"@, p.id@];
    assert(transactions_get_argv(profile, p) == a1);
    assert(transactions_get_argv(profile, p).take(7) == base_argv(profile) + seq!["transactions"@, "get"@, p.id@]) by {
        assert(a1.take(7) =~= a1);
    }
    assert(transactions_get_argv(profile, p).len() == 7) by {
        assert(a0.len() == 4);
        assert(a1.len() == a0.len() + 3);
    }
}

/// The arguments `transactions_inspect` runs the CLI with.
pub open spec fn transactions_inspect_argv(profile: Profile, p: Id) -> Seq<Seq<char>> {
    base_argv(profile)
        + seq!["transactions"@, "inspect"@, p.id@]
}

/// `transactions_inspect_argv` passes each parameter under its own flag: the fixed words come
/// first, and every given field adds exactly its own `--flag value`, holding
/// that field's value whatever the other fields are; nothing else is added.
pub proof fn lemma_transactions_inspect_argv_fields(profile: Profile, p: Id)
    ensures
        transactions_inspect_argv(profile, p).take(7) == base_argv(profile) + seq!["transactions"@, "inspect"@, p.id@],
        transactions_inspect_argv(profile, p).len() == 7,
{
    let a0 = base_argv(profile);
    let a1 = a0 + seq!["transactions"@, "inspect"@, p.id@];
    assert(transactions_inspect_argv(profile, p) == a1);
    assert(transactions_inspect_argv(profile, p).take(7) == base_argv(profile) + seq!["transactions"@, "inspect"@, p.id@]) by {
        assert(a1.take(7) =~= a1);
    }
    assert(transactions_inspect_argv(profile, p).len() == 7) by {
        assert(a0.len() == 4);
        assert(a1.len() == a0.len() + 3);
    }
}

/// The arguments `transactions_capture` runs the CLI with.
pub open spec fn transactions_capture_argv(profile: Profile, p: TxnRef) -> Seq<Seq<char>> {
    base_argv(profile)
        + seq!["transactions"@, "capture"@]
        + seq!["--transaction-id"@, p.transaction_id@]
        + flag("--amount"@, p.amount)
}

/// `transactions_capture_argv` passes each parameter under its own flag: the fixed words come
/// first, and every given field adds exactly its own `--flag value`, holding
/// that field's value whatever the other fields are; nothing else is added.
pub proof fn lemma_transactions_capture_argv_fields(profile: Profile, p: TxnRef)
    ensures
        transactions_capture_argv(profile, p).take(8) == base_argv(profile) + seq!["transactions"@, "capture"@] + seq!["--transaction-id"@, p.transaction_id@],
        transactions_capture_argv(profile, p).len() == 8 + 2 * given(p.amount),
        p.amount matches Some(v) ==> has_pair(transactions_capture_argv(profile, p), "--amount"@, v@),
{
    let a0 = base_argv(profile);
    let a1 = a0 + seq!["transactions"@, "capture"@];
    let a2 = a1 + seq!["--transaction-id"@, p.transaction_id@];
    let a3 = a2 + flag("--amount"@, p.amount);
    assert(transactions_capture_argv(profile, p) == a3);
    assert(transactions_capture_argv(profile, p).take(8) == base_argv(profile) + seq!["transactions"@, "capture"@] + seq!["--transaction-id"@, p.transaction_id@]) by {
        lemma_take_concat(a2, flag("--amount"@, p.amount), 8);
        assert(a2.take(8) =~= a2);
    }
    assert(transactions_capture_argv(profile, p).len() == 8 + 2 * given(p.amount)) by {
        assert(a0.len() == 4);
        assert(a1.len() == a0.len() + 2);
        assert(a2.len() == a1.len() + 2);
        lemma_flag_len("--amount"@, p.amount);
        assert(a3.len() == a2.len() + 2 * given(p.amount));
    }
    assert(p.amount matches Some(v) ==> has_pair(transactions_capture_argv(profile, p), "--amount"@, v@)) by {
        match p.amount {
        Some(v) => {
            lemma_flag_pair("--amount"@, p.amount);
            lemma_has_pair_concat(a2, flag("--amount"@, p.amount), "--amount"@, v@);
        },
        None => {},
    }
    }
}

/// The arguments `transactions_void` runs the CLI with.
pub open spec fn transactions_void_argv(profile: Profile, p: TxnRef) -> Seq<Seq<char>> {
    base_argv(profile)
        + seq!["transactions"@, "void"@]
        + seq!["--transaction-id"@, p.transaction_id@]
}

/// `transactions_void_argv` passes each parameter under its own flag: the fixed words come
/// first, and every given field adds exactly its own `--flag value`, holding
/// that field's value whatever the other fields are; nothing else is added.
pub proof fn lemma_transactions_void_argv_fields(profile: Profile, p: TxnRef)
    ensures
        transactions_void_argv(profile, p).take(8) == base_argv(profile) + seq!["transactions"@, "void"@] + seq!["--transaction-id"@, p.transaction_id@],
        transactions_void_argv(profile, p).len() == 8,
{
    let a0 = base_argv(profile);
    let a1 = a0 + seq!["transactions"@, "void"@];
    let a2 = a1 + seq!["--transaction-id"@, p.transaction_id@];
    assert(transactions_void_argv(profile, p) == a2);
    assert(transactions_void_argv(profile, p).take(8) == base_argv(profile) + seq!["transactions"@, "void"@] + seq!["--transaction-id"@, p.transaction_id@]) by {
        assert(a2.take(8) =~= a2);
    }
    assert(transactions_void_argv(profile, p).len() == 8) by {
        assert(a0.len() == 4);
        assert(a1.len() == a0.len() + 2);
        assert(a2.len() == a1.len() + 2);
    }
}

/// The arguments `transactions_refund` runs the CLI with.
pub open spec fn transactions_refund_argv(profile: Profile, p: TxnRef) -> Seq<Seq<char>> {
    base_argv(profile)
        + seq!["transactions"@, "refund"@]
        + seq!["--transaction-id"@, p.transaction_id@]
        + flag("--amount"@, p.amount)
}

/// `transactions_refund_argv` passes each parameter under its own flag: the fixed words come
/// first, and every given field adds exactly its own `--flag value`, holding
/// that field's value whatever the other fields are; nothing else is added.
pub proof fn lemma_transactions_refund_argv_fields(profile: Profile, p: TxnRef)
    ensures
        transactions_refund_argv(profile, p).take(8) == base_argv(profile) + seq!["transactions"@, "refund"@] + seq!["--transaction-id"@, p.transaction_id@],
        transactions_refund_argv(profile, p).len() == 8 + 2 * given(p.amount),
        p.amount matches Some(v) ==> has_pair(transactions_refund_argv(profile, p), "--amount"@, v@),
{
    let a0 = base_argv(profile);
    let a1 = a0 + seq!["transactions"@, "refund"@];
    let a2 = a1 + seq!["--transaction-id"@, p.transaction_id@];
    let a3 = a2 + flag("--amount"@, p.amount);
    assert(transactions_refund_argv(profile, p) == a3);
    assert(transactions_refund_argv(profile, p).take(8) == base_argv(profile) + seq!["transactions"@, "refund"@] + seq!["--transaction-id"@, p.transaction_id@]) by {
        lemma_take_concat(a2, flag("--amount"@, p.amount), 8);
        assert(a2.take(8) =~= a2);
    }
    assert(transactions_refund_argv(profile, p).len() == 8 + 2 * given(p.amount)) by {
        assert(a0.len() == 4);
        assert(a1.len() == a0.len() + 2);
        assert(a2.len() == a1.len() + 2);
        lemma_flag_len("--amount"@, p.amount);
        assert(a3.len() == a2.len() + 2 * given(p.amount));
    }
    assert(p.amount matches Some(v) ==> has_pair(transactions_refund_argv(profile, p), "--amount"@, v@)) by {
        match p.amount {
        Some(v) => {
            lemma_flag_pair("--amount"@, p.amount);
            lemma_has_pair_concat(a2, flag("--amount"@, p.amount), "--amount"@, v@);
        },
        None => {},
    }
    }
}

/// The arguments `transactions_settle` runs the CLI with.
pub open spec fn transactions_settle_argv(profile: Profile, p: Settle) -> Seq<Seq<char>> {
    base_argv(profile)
        + seq!["transactions"@, "settle"@]
        + seq!["--payment-processor-id"@, p.payment_processor_id@]
}

/// `transactions_settle_argv` passes each parameter under its own flag: the fixed words come
/// first, and every given field adds exactly its own `--flag value`, holding
/// that field's value whatever the other fields are; nothing else is added.
pub proof fn lemma_transactions_settle_argv_fields(profile: Profile, p: Settle)
    ensures
        transactions_settle_argv(profile, p).take(8) == base_argv(profile) + seq!["transactions"@, "settle"@] + seq!["--payment-processor-id"@, p.payment_processor_id@],
        transactions_settle_argv(profile, p).len() == 8,
{
    let a0 = base_argv(profile);
    let a1 = a0 + seq!["transactions"@, "settle"@];
    let a2 = a1 + seq!["--payment-processor-id"@, p.payment_processor_id@];
    assert(transactions_settle_argv(profile, p) == a2);
    assert(transactions_settle_argv(profile, p).take(8) == base_argv(profile) + seq!["transactions"@, "settle"@] + seq!["--payment-processor-id"@, p.payment_processor_id@]) by {
        assert(a2.take(8) =~= a2);
    }
    assert(transactions_settle_argv(profile, p).len() == 8) by {
        assert(a0.len() == 4);
        assert(a1.len() == a0.len() + 2);
        assert(a2.len() == a1.len() + 2);
    }
}

/// The arguments `transactions_tip_adjust` runs the CLI with.
pub open spec fn transactions_tip_adjust_argv(profile: Profile, p: TipAdjust) -> Seq<Seq<char>> {
    base_argv(profile)
        + seq!["transactions"@, "tip-adjust"@]
        + seq!["--transaction-id"@, p.transaction_id@]
        + seq!["--tip-amount"@, p.tip_amount@]
}

/// `transactions_tip_adjust_argv` passes each parameter under its own flag: the fixed words come
/// first, and every given field adds exactly its own `--flag value`, holding
/// that field's value whatever the other fields are; nothing else is added.
pub proof fn lemma_transactions_tip_adjust_argv_fields(profile: Profile, p: TipAdjust)
    ensures
        transactions_tip_adjust_argv(profile, p).take(10) == base_argv(profile) + seq!["transactions"@, "tip-adjust"@] + seq!["--transaction-id"@, p.transaction_id@] + seq!["--tip-amount"@, p.tip_amount@],
        transactions_tip_adjust_argv(profile, p).len() == 10,
{
    let a0 = base_argv(profile);
    let a1 = a0 + seq!["transactions"@, "tip-adjust"@];
    let a2 = a1 + seq!["--transaction-id"@, p.transaction_id@];
    let a3 = a2 + seq!["--tip-amount"@, p.tip_amount@];
    assert(transactions_tip_adjust_argv(profile, p) == a3);
    assert(transactions_tip_adjust_argv(profile, p).take(10) == base_argv(profile) + seq!["transactions"@, "tip-adjust"@] + seq!["--transaction-id"@, p.transaction_id@] + seq!["--tip-amount"@, p.tip_amount@]) by {
        assert(a3.take(10) =~= a3);
    }
    assert(transactions_tip_adjust_argv(profile, p).len() == 10) by {
        assert(a0.len() == 4);
        assert(a1.len() == a0.len() + 2);
        assert(a2.len() == a1.len() + 2);
        assert(a3.len() == a2.len() + 2);
    }
}

impl FluteServer {
    /// The argument vector shared by `sale` and `auth`.
    pub fn sale_like_args(&self, sub: &str, p: SaleArgs) -> (res: Vec<String>)
        ensures
            res.deep_view() == sale_like_argv(self.config.profile, sub@, p),
    {
        let SaleArgs { amount, card, exp, cvv, tip_amount, customer_id, payment_method_id, currency_id, card_data_source, reference_id, billing_line1, billing_line2, billing_city, billing_state, billing_state_id, billing_postal_code, billing_country_id } = p;
        let mut args = self.base_args();
        push_lit(&mut args, "transactions");
        push_lit(&mut args, sub);
        push_pair(&mut args, "--amount", amount);
        push_flag(&mut args, "--card", card);
        push_flag(&mut args, "--exp", exp);
        push_flag(&mut args, "--cvv", cvv);
        push_flag(&mut args, "--tip-amount", tip_amount);
        push_flag(&mut args, "--customer-id", customer_id);
        push_flag(&mut args, "--payment-method-id", payment_method_id);
        push_num_flag(&mut args, "--currency-id", currency_id);
        push_num_flag(&mut args, "--card-data-source", card_data_source);
        push_flag(&mut args, "--reference-id", reference_id);
        BillingArgs { line1: billing_line1, line2: billing_line2, city: billing_city, state: billing_state, state_id: billing_state_id, postal_code: billing_postal_code, country_id: billing_country_id }.push(&mut args);
        assert(args.deep_view() =~= sale_like_argv(self.config.profile, sub@, p));
        args
    }

    /// Charge a card. NOT idempotent: each call moves money.
    pub fn transactions_sale(&self, p: SaleArgs) -> (res: ToolPlan)
        ensures
            write_plan(self.config, res, "transactions_sale"@, sale_like_argv(self.config.profile, "sale"@, p)),
    {
        if let Some(e) = self.guard_write("transactions_sale") {
            return ToolPlan::Refuse(e);
        }
        let args = self.sale_like_args("sale", p);
        ToolPlan::Run { args, on_empty: None }
    }

    /// Authorize (hold) a card without capturing. NOT idempotent.
    pub fn transactions_auth(&self, p: SaleArgs) -> (res: ToolPlan)
        ensures
            write_plan(self.config, res, "transactions_auth"@, sale_like_argv(self.config.profile, "auth"@, p)),
    {
        if let Some(e) = self.guard_write("transactions_auth") {
            return ToolPlan::Refuse(e);
        }
        let args = self.sale_like_args("auth", p);
        ToolPlan::Run { args, on_empty: None }
    }

    /// List transactions (newest first); filters apply to the returned page. Safe to retry.
    pub fn transactions_list(&self, p: TransactionsList) -> (res: ToolPlan)
        ensures
            runs(res, transactions_list_argv(self.config.profile, p)),
    {
        let TransactionsList { limit, page, unsettled, status, from, to } = p;
        let mut args = self.base_args();
        push_lit(&mut args, "transactions");
        push_lit(&mut args, "list");
        push_num_flag(&mut args, "--limit", limit);
        push_num_flag(&mut args, "--page", page);
        push_switch(&mut args, "--unsettled", unsettled);
        push_flag(&mut args, "--status", status);
        push_flag(&mut args, "--from", from);
        push_flag(&mut args, "--to", to);
        assert(args.deep_view() =~= transactions_list_argv(self.config.profile, p));
        ToolPlan::Run { args, on_empty: None }
    }

    /// Get one transaction by id. Safe to retry.
    pub fn transactions_get(&self, p: Id) -> (res: ToolPlan)
        ensures
            runs(res, transactions_get_argv(self.config.profile, p)),
    {
        let Id { id } = p;
        let mut args = self.base_args();
        push_lit(&mut args, "transactions");
        push_lit(&mut args, "get");
        push_word(&mut args, id);
        assert(args.deep_view() =~= transactions_get_argv(self.config.profile, p));
        ToolPlan::Run { args, on_empty: None }
    }

    /// A transaction with its current status and available operations. Safe to retry.
    pub fn transactions_inspect(&self, p: Id) -> (res: ToolPlan)
        ensures
            runs(res, transactions_inspect_argv(self.config.profile, p)),
    {
        let Id { id } = p;
        let mut args = self.base_args();
        push_lit(&mut args, "transactions");
        push_lit(&mut args, "inspect");
        push_word(&mut args, id);
        assert(args.deep_view() =~= transactions_inspect_argv(self.config.profile, p));
        ToolPlan::Run { args, on_empty: None }
    }

    /// Capture a prior authorization. NOT idempotent. Optional partial amount.
    pub fn transactions_capture(&self, p: TxnRef) -> (res: ToolPlan)
        ensures
            write_plan(self.config, res, "transactions_capture"@, transactions_capture_argv(self.config.profile, p)),
    {
        if let Some(e) = self.guard_write("transactions_capture") {
            return ToolPlan::Refuse(e);
        }
        let TxnRef { transaction_id, amount } = p;
        let mut args = self.base_args();
        push_lit(&mut args, "transactions");
        push_lit(&mut args, "capture");
        push_pair(&mut args, "--transaction-id", transaction_id);
        push_flag(&mut args, "--amount", amount);
        assert(args.deep_view() =~= transactions_capture_argv(self.config.profile, p));
        ToolPlan::Run { args, on_empty: None }
    }

    /// Void a transaction.
    pub fn transactions_void(&self, p: TxnRef) -> (res: ToolPlan)
        ensures
            write_plan(self.config, res, "transactions_void"@, transactions_void_argv(self.config.profile, p)),
    {
        if let Some(e) = self.guard_write("transactions_void") {
            return ToolPlan::Refuse(e);
        }
        let TxnRef { transaction_id, amount: _ } = p;
        let mut args = self.base_args();
        push_lit(&mut args, "transactions");
        push_lit(&mut args, "void");
        push_pair(&mut args, "--transaction-id", transaction_id);
        assert(args.deep_view() =~= transactions_void_argv(self.config.profile, p));
        ToolPlan::Run { args, on_empty: None }
    }

    /// Refund a transaction. NOT idempotent: moves money. Optional partial amount.
    pub fn transactions_refund(&self, p: TxnRef) -> (res: ToolPlan)
        ensures
            write_plan(self.config, res, "transactions_refund"@, transactions_refund_argv(self.config.profile, p)),
    {
        if let Some(e) = self.guard_write("transactions_refund") {
            return ToolPlan::Refuse(e);
        }
        let TxnRef { transaction_id, amount } = p;
        let mut args = self.base_args();
        push_lit(&mut args, "transactions");
        push_lit(&mut args, "refund");
        push_pair(&mut args, "--transaction-id", transaction_id);
        push_flag(&mut args, "--amount", amount);
        assert(args.deep_view() =~= transactions_refund_argv(self.config.profile, p));
        ToolPlan::Run { args, on_empty: None }
    }

    /// Settle a payment processor's open batch. NOT idempotent.
    pub fn transactions_settle(&self, p: Settle) -> (res: ToolPlan)
        ensures
            write_plan(self.config, res, "transactions_settle"@, transactions_settle_argv(self.config.profile, p)),
    {
        if let Some(e) = self.guard_write("transactions_settle") {
            return ToolPlan::Refuse(e);
        }
        let Settle { payment_processor_id } = p;
        let mut args = self.base_args();
        push_lit(&mut args, "transactions");
        push_lit(&mut args, "settle");
        push_pair(&mut args, "--payment-processor-id", payment_processor_id);
        assert(args.deep_view() =~= transactions_settle_argv(self.config.profile, p));
        ToolPlan::Run { args, on_empty: None }
    }

    /// Adjust the tip on a transaction. NOT idempotent.
    pub fn transactions_tip_adjust(&self, p: TipAdjust) -> (res: ToolPlan)
        ensures
            write_plan(self.config, res, "transactions_tip_adjust"@, transactions_tip_adjust_argv(self.config.profile, p)),
    {
        if let Some(e) = self.guard_write("transactions_tip_adjust") {
            return ToolPlan::Refuse(e);
        }
        let TipAdjust { transaction_id, tip_amount } = p;
        let mut args = self.base_args();
        push_lit(&mut args, "transactions");
        push_lit(&mut args, "tip-adjust");
        push_pair(&mut args, "--transaction-id", transaction_id);
        push_pair(&mut args, "--tip-amount", tip_amount);
        assert(args.deep_view() =~= transactions_tip_adjust_argv(self.config.profile, p));
        ToolPlan::Run { args, on_empty: None }
    }
}

} // verus!
