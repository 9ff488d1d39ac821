//! Terminal (POS) transaction tools.
use vstd::prelude::*;

use crate::config::Profile;
use crate::server::{
    base_argv, flag, num_flag, push_flag, push_lit, push_num_flag, push_pair, push_word, runs,
    write_plan, FluteServer, ToolPlan,
};
use crate::server::{
    given, has_pair, lemma_flag_len, lemma_flag_pair, lemma_num_flag_len, lemma_take_concat,
    lemma_has_pair_concat, lemma_num_flag_pair,
};
use crate::text::decimal;
use crate::tools::Id;

verus! {

/// Parameters of `pos_list`.
#[derive(Debug, Default)]
pub struct PosList {
    pub terminal_id: Option<String>,
    pub limit: Option<u32>,
    pub page: Option<u32>,
}

/// Parameters of `pos_create`.
#[derive(Debug, Default)]
pub struct PosCreate {
    pub terminal_id: String,
    /// Amount as a decimal string, e.g. "10.00".
    pub amount: String,
    pub pos_device_id: String,
    pub reference_id: String,
    /// Currency id; default 1.
    pub currency_id: Option<u32>,
    /// Transaction type; default 2 = Sale (1=Auth, 3=Capture, 4=Void, 5=Refund).
    pub transaction_type: Option<u32>,
    pub tip_amount: Option<String>,
    pub tip_rate: Option<String>,
    pub customer_id: Option<String>,
    pub payment_processor_id: Option<String>,
    pub target_transaction_id: Option<String>,
    pub reading_method: Option<String>,
}

/// The arguments `pos_get` runs the CLI with.
pub open spec fn pos_get_argv(profile: Profile, p: Id) -> Seq<Seq<char>> {
    base_argv(profile)
        + seq!["pos"@, "get"@, p.id@]
}

/// `pos_get_argv` passes each parameter under its own flag: the fixed words come
/// first, and every given field adds exactly its own `--flag value`, holding
/// that field's value whatever the other fields are; nothing else is added.
pub proof fn lemma_pos_get_argv_fields(profile: Profile, p: Id)
    ensures
        pos_get_argv(profile, p).take(7) == base_argv(profile) + seq!["pos"@, "get"@, p.id@],
        pos_get_argv(profile, p).len() == 7,
{
    let a0 = base_argv(profile);
    let a1 = a0 + seq!["pos"@, "get"@, p.id@];
    assert(pos_get_argv(profile, p) == a1);
    assert(pos_get_argv(profile, p).take(7) == base_argv(profile) + seq!["pos"@, "get"@, p.id@]) by {
        assert(a1.take(7) =~= a1);
    }
    assert(pos_get_argv(profile, p).len() == 7) by {
        assert(a0.len() == 4);
        assert(a1.len() == a0.len() + 3);
    }
}

/// The arguments `pos_list` runs the CLI with.
pub open spec fn pos_list_argv(profile: Profile, p: PosList) -> Seq<Seq<char>> {
    base_argv(profile)
        + seq!["pos"@, "list"@]
        + flag("--terminal-id"@, p.terminal_id)
        + num_flag("--limit"@, p.limit)
        + num_flag("--page"@, p.page)
}

/// `pos_list_argv` passes each parameter under its own flag: the fixed words come
/// first, and every given field adds exactly its own `--flag value`, holding
/// that field's value whatever the other fields are; nothing else is added.
pub proof fn lemma_pos_list_argv_fields(profile: Profile, p: PosList)
    ensures
        pos_list_argv(profile, p).take(6) == base_argv(profile) + seq!["pos"@, "list"@],
        pos_list_argv(profile, p).len() == 6 + 2 * given(p.terminal_id) + 2 * given(p.limit) + 2 * given(p.page),
        p.terminal_id matches Some(v) ==> has_pair(pos_list_argv(profile, p), "--terminal-id"@, v@),
        p.limit matches Some(n) ==> has_pair(pos_list_argv(profile, p), "--limit"@, decimal(n as nat)),
        p.page matches Some(n) ==> has_pair(pos_list_argv(profile, p), "--page"@, decimal(n as nat)),
{
    let a0 = base_argv(profile);
    let a1 = a0 + seq!["pos"@, "list"@];
    let a2 = a1 + flag("--terminal-id"@, p.terminal_id);
    let a3 = a2 + num_flag("--limit"@, p.limit);
    let a4 = a3 + num_flag("--page"@, p.page);
    assert(pos_list_argv(profile, p) == a4);
    assert(pos_list_argv(profile, p).take(6) == base_argv(profile) + seq!["pos"@, "list"@]) by {
        lemma_take_concat(a3, num_flag("--page"@, p.page), 6);
        lemma_take_concat(a2, num_flag("--limit"@, p.limit), 6);
        lemma_take_concat(a1, flag("--terminal-id"@, p.terminal_id), 6);
        assert(a1.take(6) =~= a1);
    }
    assert(pos_list_argv(profile, p).len() == 6 + 2 * given(p.terminal_id) + 2 * given(p.limit) + 2 * given(p.page)) by {
        assert(a0.len() == 4);
        assert(a1.len() == a0.len() + 2);
        lemma_flag_len("--terminal-id"@, p.terminal_id);
        assert(a2.len() == a1.len() + 2 * given(p.terminal_id));
        lemma_num_flag_len("--limit"@, p.limit);
        assert(a3.len() == a2.len() + 2 * given(p.limit));
        lemma_num_flag_len("--page"@, p.page);
        assert(a4.len() == a3.len() + 2 * given(p.page));
    }
    assert(p.terminal_id matches Some(v) ==> has_pair(pos_list_argv(profile, p), "--terminal-id"@, v@)) by {
        match p.terminal_id {
        Some(v) => {
            lemma_flag_pair("--terminal-id"@, p.terminal_id);
            lemma_has_pair_concat(a1, flag("--terminal-id"@, p.terminal_id), "--terminal-id"@, v@);
            lemma_has_pair_concat(a2, num_flag("--limit"@, p.limit), "--terminal-id"@, v@);
            lemma_has_pair_concat(a3, num_flag("--page"@, p.page), "--terminal-id"@, v@);
        },
        None => {},
    }
    }
    assert(p.limit matches Some(n) ==> has_pair(pos_list_argv(profile, p), "--limit"@, decimal(n as nat))) by {
        match p.limit {
        Some(n) => {
            lemma_num_flag_pair("--limit"@, p.limit);
            lemma_has_pair_concat(a2, num_flag("--limit"@, p.limit), "--limit"@, decimal(n as nat));
            lemma_has_pair_concat(a3, num_flag("--page"@, p.page), "--limit"@, decimal(n as nat));
        },
        None => {},
    }
    }
    assert(p.page matches Some(n) ==> has_pair(pos_list_argv(profile, p), "--page"@, decimal(n as nat))) by {
        match p.page {
        Some(n) => {
            lemma_num_flag_pair("--page"@, p.page);
            lemma_has_pair_concat(a3, num_flag("--page"@, p.page), "--page"@, decimal(n as nat));
        },
        None => {},
    }
    }
}

/// The arguments `pos_create` runs the CLI with.
pub open spec fn pos_create_argv(profile: Profile, p: PosCreate) -> Seq<Seq<char>> {
    base_argv(profile)
        + seq!["pos"@, "create"@]
        + seq!["--terminal-id"@, p.terminal_id@]
        + seq!["--amount"@, p.amount@]
        + seq!["--pos-device-id"@, p.pos_device_id@]
        + seq!["--reference-id"@, p.reference_id@]
        + num_flag("--currency-id"@, p.currency_id)
        + num_flag("--transaction-type"@, p.transaction_type)
        + flag("--tip-amount"@, p.tip_amount)
        + flag("--tip-rate"@, p.tip_rate)
        + flag("--customer-id"@, p.customer_id)
        + flag("--payment-processor-id"@, p.payment_processor_id)
        + flag("--target-transaction-id"@, p.target_transaction_id)
        + flag("--reading-method"@, p.reading_method)
}

/// `pos_create_argv` passes each parameter under its own flag: the fixed words come
/// first, and every given field adds exactly its own `--flag value`, holding
/// that field's value whatever the other fields are; nothing else is added.
#[verifier::spinoff_prover]
#[verifier::rlimit(100)]
pub proof fn lemma_pos_create_argv_fields(profile: Profile, p: PosCreate)
    ensures
        pos_create_argv(profile, p).take(14) == base_argv(profile) + seq!["pos"@, "create"@] + seq!["--terminal-id"@, p.terminal_id@] + seq!["--amount"@, p.amount@] + seq!["--pos-device-id"@, p.pos_device_id@] + seq!["--reference-id"@, p.reference_id@],
        pos_create_argv(profile, p).len() == 14 + 2 * given(p.currency_id) + 2 * given(p.transaction_type) + 2 * given(p.tip_amount) + 2 * given(p.tip_rate) + 2 * given(p.customer_id) + 2 * given(p.payment_processor_id) + 2 * given(p.target_transaction_id) + 2 * given(p.reading_method),
        p.currency_id matches Some(n) ==> has_pair(pos_create_argv(profile, p), "--currency-id"@, decimal(n as nat)),
        p.transaction_type matches Some(n) ==> has_pair(pos_create_argv(profile, p), "--transaction-type"@, decimal(n as nat)),
        p.tip_amount matches Some(v) ==> has_pair(pos_create_argv(profile, p), "--tip-amount"@, v@),
        p.tip_rate matches Some(v) ==> has_pair(pos_create_argv(profile, p), "--tip-rate"@, v@),
        p.customer_id matches Some(v) ==> has_pair(pos_create_argv(profile, p), "--customer-id"@, v@),
        p.payment_processor_id matches Some(v) ==> has_pair(pos_create_argv(profile, p), "--payment-processor-id"@, v@),
        p.target_transaction_id matches Some(v) ==> has_pair(pos_create_argv(profile, p), "--target-transaction-id"@, v@),
        p.reading_method matches Some(v) ==> has_pair(pos_create_argv(profile, p), "--reading-method"@, v@),
{
    let a0 = base_argv(profile);
    let a1 = a0 + seq!["pos"@, "create"@];
    let a2 = a1 + seq!["--terminal-id"@, p.terminal_id@];
    let a3 = a2 + seq!["--amount"@, p.amount@];
    let a4 = a3 + seq!["--pos-device-id"@, p.pos_device_id@];
    let a5 = a4 + seq!["--reference-id"@, p.reference_id@];
    let a6 = a5 + num_flag("--currency-id"@, p.currency_id);
    let a7 = a6 + num_flag("--transaction-type"@, p.transaction_type);
    let a8 = a7 + flag("--tip-amount"@, p.tip_amount);
    let a9 = a8 + flag("--tip-rate"@, p.tip_rate);
    let a10 = a9 + flag("--customer-id"@, p.customer_id);
    let a11 = a10 + flag("--payment-processor-id"@, p.payment_processor_id);
    let a12 = a11 + flag("--target-transaction-id"@, p.target_transaction_id);
    let a13 = a12 + flag("--reading-method"@, p.reading_method);
    assert(pos_create_argv(profile, p) == a13);
    assert(pos_create_argv(profile, p).take(14) == base_argv(profile) + seq!["pos"@, "create"@] + seq!["--terminal-id"@, p.terminal_id@] + seq!["--amount"@, p.amount@] + seq!["--pos-device-id"@, p.pos_device_id@] + seq!["--reference-id"@, p.reference_id@]) by {
        lemma_take_concat(a12, flag("--reading-method"@, p.reading_method), 14);
        lemma_take_concat(a11, flag("--target-transaction-id"@, p.target_transaction_id), 14);
        lemma_take_concat(a10, flag("--payment-processor-id"@, p.payment_processor_id), 14);
        lemma_take_concat(a9, flag("--customer-id"@, p.customer_id), 14);
        lemma_take_concat(a8, flag("--tip-rate"@, p.tip_rate), 14);
        lemma_take_concat(a7, flag("--tip-amount"@, p.tip_amount), 14);
        lemma_take_concat(a6, num_flag("--transaction-type"@, p.transaction_type), 14);
        lemma_take_concat(a5, num_flag("--currency-id"@, p.currency_id), 14);
        assert(a5.take(14) =~= a5);
    }
    assert(pos_create_argv(profile, p).len() == 14 + 2 * given(p.currency_id) + 2 * given(p.transaction_type) + 2 * given(p.tip_amount) + 2 * given(p.tip_rate) + 2 * given(p.customer_id) + 2 * given(p.payment_processor_id) + 2 * given(p.target_transaction_id) + 2 * given(p.reading_method)) by {
        assert(a0.len() == 4);
        assert(a1.len() == a0.len() + 2);
        assert(a2.len() == a1.len() + 2);
        assert(a3.len() == a2.len() + 2);
        assert(a4.len() == a3.len() + 2);
        assert(a5.len() == a4.len() + 2);
        lemma_num_flag_len("--currency-id"@, p.currency_id);
        assert(a6.len() == a5.len() + 2 * given(p.currency_id));
        lemma_num_flag_len("--transaction-type"@, p.transaction_type);
        assert(a7.len() == a6.len() + 2 * given(p.transaction_type));
        lemma_flag_len("--tip-amount"@, p.tip_amount);
        assert(a8.len() == a7.len() + 2 * given(p.tip_amount));
        lemma_flag_len("--tip-rate"@, p.tip_rate);
        assert(a9.len() == a8.len() + 2 * given(p.tip_rate));
        lemma_flag_len("--customer-id"@, p.customer_id);
        assert(a10.len() == a9.len() + 2 * given(p.customer_id));
        lemma_flag_len("--payment-processor-id"@, p.payment_processor_id);
        assert(a11.len() == a10.len() + 2 * given(p.payment_processor_id));
        lemma_flag_len("--target-transaction-id"@, p.target_transaction_id);
        assert(a12.len() == a11.len() + 2 * given(p.target_transaction_id));
        lemma_flag_len("--reading-method"@, p.reading_method);
        assert(a13.len() == a12.len() + 2 * given(p.reading_method));
    }
    assert(p.currency_id matches Some(n) ==> has_pair(pos_create_argv(profile, p), "--currency-id"@, decimal(n as nat))) by {
        match p.currency_id {
        Some(n) => {
            lemma_num_flag_pair("--currency-id"@, p.currency_id);
            lemma_has_pair_concat(a5, num_flag("--currency-id"@, p.currency_id), "--currency-id"@, decimal(n as nat));
            lemma_has_pair_concat(a6, num_flag("--transaction-type"@, p.transaction_type), "--currency-id"@, decimal(n as nat));
            lemma_has_pair_concat(a7, flag("--tip-amount"@, p.tip_amount), "--currency-id"@, decimal(n as nat));
            lemma_has_pair_concat(a8, flag("--tip-rate"@, p.tip_rate), "--currency-id"@, decimal(n as nat));
            lemma_has_pair_concat(a9, flag("--customer-id"@, p.customer_id), "--currency-id"@, decimal(n as nat));
            lemma_has_pair_concat(a10, flag("--payment-processor-id"@, p.payment_processor_id), "--currency-id"@, decimal(n as nat));
            lemma_has_pair_concat(a11, flag("--target-transaction-id"@, p.target_transaction_id), "--currency-id"@, decimal(n as nat));
            lemma_has_pair_concat(a12, flag("--reading-method"@, p.reading_method), "--currency-id"@, decimal(n as nat));
        },
        None => {},
    }
    }
    assert(p.transaction_type matches Some(n) ==> has_pair(pos_create_argv(profile, p), "--transaction-type"@, decimal(n as nat))) by {
        match p.transaction_type {
        Some(n) => {
            lemma_num_flag_pair("--transaction-type"@, p.transaction_type);
            lemma_has_pair_concat(a6, num_flag("--transaction-type"@, p.transaction_type), "--transaction-type"@, decimal(n as nat));
            lemma_has_pair_concat(a7, flag("--tip-amount"@, p.tip_amount), "--transaction-type"@, decimal(n as nat));
            lemma_has_pair_concat(a8, flag("--tip-rate"@, p.tip_rate), "--transaction-type"@, decimal(n as nat));
            lemma_has_pair_concat(a9, flag("--customer-id"@, p.customer_id), "--transaction-type"@, decimal(n as nat));
            lemma_has_pair_concat(a10, flag("--payment-processor-id"@, p.payment_processor_id), "--transaction-type"@, decimal(n as nat));
            lemma_has_pair_concat(a11, flag("--target-transaction-id"@, p.target_transaction_id), "--transaction-type"@, decimal(n as nat));
            lemma_has_pair_concat(a12, flag("--reading-method"@, p.reading_method), "--transaction-type"@, decimal(n as nat));
        },
        None => {},
    }
    }
    assert(p.tip_amount matches Some(v) ==> has_pair(pos_create_argv(profile, p), "--tip-amount"@, v@)) by {
        match p.tip_amount {
        Some(v) => {
            lemma_flag_pair("--tip-amount"@, p.tip_amount);
            lemma_has_pair_concat(a7, flag("--tip-amount"@, p.tip_amount), "--tip-amount"@, v@);
            lemma_has_pair_concat(a8, flag("--tip-rate"@, p.tip_rate), "--tip-amount"@, v@);
            lemma_has_pair_concat(a9, flag("--customer-id"@, p.customer_id), "--tip-amount"@, v@);
            lemma_has_pair_concat(a10, flag("--payment-processor-id"@, p.payment_processor_id), "--tip-amount"@, v@);
            lemma_has_pair_concat(a11, flag("--target-transaction-id"@, p.target_transaction_id), "--tip-amount"@, v@);
            lemma_has_pair_concat(a12, flag("--reading-method"@, p.reading_method), "--tip-amount"@, v@);
        },
        None => {},
    }
    }
    assert(p.tip_rate matches Some(v) ==> has_pair(pos_create_argv(profile, p), "--tip-rate"@, v@)) by {
        match p.tip_rate {
        Some(v) => {
            lemma_flag_pair("--tip-rate"@, p.tip_rate);
            lemma_has_pair_concat(a8, flag("--tip-rate"@, p.tip_rate), "--tip-rate"@, v@);
            lemma_has_pair_concat(a9, flag("--customer-id"@, p.customer_id), "--tip-rate"@, v@);
            lemma_has_pair_concat(a10, flag("--payment-processor-id"@, p.payment_processor_id), "--tip-rate"@, v@);
            lemma_has_pair_concat(a11, flag("--target-transaction-id"@, p.target_transaction_id), "--tip-rate"@, v@);
            lemma_has_pair_concat(a12, flag("--reading-method"@, p.reading_method), "--tip-rate"@, v@);
        },
        None => {},
    }
    }
    assert(p.customer_id matches Some(v) ==> has_pair(pos_create_argv(profile, p), "--customer-id"@, v@)) by {
        match p.customer_id {
        Some(v) => {
            lemma_flag_pair("--customer-id"@, p.customer_id);
            lemma_has_pair_concat(a9, flag("--customer-id"@, p.customer_id), "--customer-id"@, v@);
            lemma_has_pair_concat(a10, flag("--payment-processor-id"@, p.payment_processor_id), "--customer-id"@, v@);
            lemma_has_pair_concat(a11, flag("--target-transaction-id"@, p.target_transaction_id), "--customer-id"@, v@);
            lemma_has_pair_concat(a12, flag("--reading-method"@, p.reading_method), "--customer-id"@, v@);
        },
        None => {},
    }
    }
    assert(p.payment_processor_id matches Some(v) ==> has_pair(pos_create_argv(profile, p), "--payment-processor-id"@, v@)) by {
        match p.payment_processor_id {
        Some(v) => {
            lemma_flag_pair("--payment-processor-id"@, p.payment_processor_id);
            lemma_has_pair_concat(a10, flag("--payment-processor-id"@, p.payment_processor_id), "--payment-processor-id"@, v@);
            lemma_has_pair_concat(a11, flag("--target-transaction-id"@, p.target_transaction_id), "--payment-processor-id"@, v@);
            lemma_has_pair_concat(a12, flag("--reading-method"@, p.reading_method), "--payment-processor-id"@, v@);
        },
        None => {},
    }
    }
    assert(p.target_transaction_id matches Some(v) ==> has_pair(pos_create_argv(profile, p), "--target-transaction-id"@, v@)) by {
        match p.target_transaction_id {
        Some(v) => {
            lemma_flag_pair("--target-transaction-id"@, p.target_transaction_id);
            lemma_has_pair_concat(a11, flag("--target-transaction-id"@, p.target_transaction_id), "--target-transaction-id"@, v@);
            lemma_has_pair_concat(a12, flag("--reading-method"@, p.reading_method), "--target-transaction-id"@, v@);
        },
        None => {},
    }
    }
    assert(p.reading_method matches Some(v) ==> has_pair(pos_create_argv(profile, p), "--reading-method"@, v@)) by {
        match p.reading_method {
        Some(v) => {
            lemma_flag_pair("--reading-method"@, p.reading_method);
            lemma_has_pair_concat(a12, flag("--reading-method"@, p.reading_method), "--reading-method"@, v@);
        },
        None => {},
    }
    }
}

/// The arguments `pos_cancel` runs the CLI with.
pub open spec fn pos_cancel_argv(profile: Profile, p: Id) -> Seq<Seq<char>> {
    base_argv(profile)
        + seq!["pos"@, "cancel"@, p.id@]
}

/// `pos_cancel_argv` passes each parameter under its own flag: the fixed words come
/// first, and every given field adds exactly its own `--flag value`, holding
/// that field's value whatever the other fields are; nothing else is added.
pub proof fn lemma_pos_cancel_argv_fields(profile: Profile, p: Id)
    ensures
        pos_cancel_argv(profile, p).take(7) == base_argv(profile) + seq!["pos"@, "cancel"@, p.id@],
        pos_cancel_argv(profile, p).len() == 7,
{
    let a0 = base_argv(profile);
    let a1 = a0 + seq!["pos"@, "cancel"@, p.id@];
    assert(pos_cancel_argv(profile, p) == a1);
    assert(pos_cancel_argv(profile, p).take(7) == base_argv(profile) + seq!["pos"@, "cancel"@, p.id@]) by {
        assert(a1.take(7) =~= a1);
    }
    assert(pos_cancel_argv(profile, p).len() == 7) by {
        assert(a0.len() == 4);
        assert(a1.len() == a0.len() + 3);
    }
}

impl FluteServer {
    /// Get a POS transaction by id. Safe to retry.
    pub fn pos_get(&self, p: Id) -> (res: ToolPlan)
        ensures
            runs(res, pos_get_argv(self.config.profile, p)),
    {
        let Id { id } = p;
        let mut args = self.base_args();
        push_lit(&mut args, "pos");
        push_lit(&mut args, "get");
        push_word(&mut args, id);
        assert(args.deep_view() =~= pos_get_argv(self.config.profile, p));
        ToolPlan::Run { args, on_empty: None }
    }

    /// List POS transactions, optionally by terminal. Safe to retry.
    pub fn pos_list(&self, p: PosList) -> (res: ToolPlan)
        ensures
            runs(res, pos_list_argv(self.config.profile, p)),
    {
        let PosList { terminal_id, limit, page } = p;
        let mut args = self.base_args();
        push_lit(&mut args, "pos");
        push_lit(&mut args, "list");
        push_flag(&mut args, "--terminal-id", terminal_id);
        push_num_flag(&mut args, "--limit", limit);
        push_num_flag(&mut args, "--page", page);
        assert(args.deep_view() =~= pos_list_argv(self.config.profile, p));
        ToolPlan::Run { args, on_empty: None }
    }

    /// Start a terminal (POS) transaction. NOT idempotent. Does not wait: poll `pos_get`.
    pub fn pos_create(&self, p: PosCreate) -> (res: ToolPlan)
        ensures
            write_plan(self.config, res, "pos_create"@, pos_create_argv(self.config.profile, p)),
    {
        if let Some(e) = self.guard_write("pos_create") {
            return ToolPlan::Refuse(e);
        }
        let PosCreate { terminal_id, amount, pos_device_id, reference_id, currency_id, transaction_type, tip_amount, tip_rate, customer_id, payment_processor_id, target_transaction_id, reading_method } = p;
        let mut args = self.base_args();
        push_lit(&mut args, "pos");
        push_lit(&mut args, "create");
        push_pair(&mut args, "--terminal-id", terminal_id);
        push_pair(&mut args, "--amount", amount);
        push_pair(&mut args, "--pos-device-id", pos_device_id);
        push_pair(&mut args, "--reference-id", reference_id);
        push_num_flag(&mut args, "--currency-id", currency_id);
        push_num_flag(&mut args, "--transaction-type", transaction_type);
        push_flag(&mut args, "--tip-amount", tip_amount);
        push_flag(&mut args, "--tip-rate", tip_rate);
        push_flag(&mut args, "--customer-id", customer_id);
        push_flag(&mut args, "--payment-processor-id", payment_processor_id);
        push_flag(&mut args, "--target-transaction-id", target_transaction_id);
        push_flag(&mut args, "--reading-method", reading_method);
        assert(args.deep_view() =~= pos_create_argv(self.config.profile, p));
        ToolPlan::Run { args, on_empty: None }
    }

    /// Cancel an in-progress POS transaction by id.
    pub fn pos_cancel(&self, p: Id) -> (res: ToolPlan)
        ensures
            write_plan(self.config, res, "pos_cancel"@, pos_cancel_argv(self.config.profile, p)),
    {
        if let Some(e) = self.guard_write("pos_cancel") {
            return ToolPlan::Refuse(e);
        }
        let Id { id } = p;
        let mut args = self.base_args();
        push_lit(&mut args, "pos");
        push_lit(&mut args, "cancel");
        push_word(&mut args, id);
        assert(args.deep_view() =~= pos_cancel_argv(self.config.profile, p));
        ToolPlan::Run { args, on_empty: None }
    }
}

} // verus!
