//! ACH (bank transfer) tools.
use vstd::prelude::*;

use crate::config::Profile;
use crate::server::{
    base_argv, flag, push_flag, push_lit, push_num, push_pair, push_word, text_or, unwrap_or_u32,
    write_plan, FluteServer, ToolPlan,
};
use crate::server::{
    given, has_pair, lemma_flag_len, lemma_flag_pair, lemma_take_concat, lemma_has_pair_concat,
    lemma_has_pair_two,
};
use crate::text::decimal;
use crate::tools::Id;

verus! {

/// Shared input for `ach debit` and `ach credit`.
#[derive(Debug, Default)]
pub struct AchMove {
    /// Amount as a decimal string, e.g. "10.00".
    pub amount: String,
    pub payment_processor_id: String,
    pub routing: String,
    pub account: String,
    /// "checking" | "savings".
    pub account_type: String,
    /// "business" | "personal".
    pub account_holder_type: String,
    pub billing_line1: String,
    pub billing_city: String,
    pub billing_state: String,
    /// Numeric state id (free-text state alone is rejected).
    pub billing_state_id: u32,
    pub billing_postal_code: String,
    /// Numeric country id; 1 = US.
    pub billing_country_id: Option<u32>,
    pub contact_first_name: String,
    pub contact_last_name: String,
    pub contact_email: String,
    pub contact_phone: String,
    /// Contact company name; required by the API when `account_holder_type` is "business".
    pub contact_company: Option<String>,
    /// SEC code; CLI default 1 = Web.
    pub sec_code: Option<u32>,
    /// Requester IP; CLI default 127.0.0.1.
    pub requester_ip: Option<String>,
}

/// The arguments of an ACH `debit` or `credit` (`sub`): the country id and SEC code
/// default to 1 and the requester IP to 127.0.0.1.
pub open spec fn ach_move_argv(profile: Profile, sub: Seq<char>, p: AchMove) -> Seq<Seq<char>> {
    base_argv(profile)
        + seq!["ach"@, sub]
        + seq!["--amount"@, p.amount@]
        + seq!["--payment-processor-id"@, p.payment_processor_id@]
        + seq!["--routing"@, p.routing@]
        + seq!["--account"@, p.account@]
        + seq!["--account-type"@, p.account_type@]
        + seq!["--account-holder-type"@, p.account_holder_type@]
        + seq!["--billing-line1"@, p.billing_line1@]
        + seq!["--billing-city"@, p.billing_city@]
        + seq!["--billing-state"@, p.billing_state@]
        + seq!["--billing-state-id"@, decimal(p.billing_state_id as nat)]
        + seq!["--billing-postal-code"@, p.billing_postal_code@]
        + seq!["--billing-country-id"@, decimal(unwrap_or_u32(p.billing_country_id, 1) as nat)]
        + seq!["--contact-first-name"@, p.contact_first_name@]
        + seq!["--contact-last-name"@, p.contact_last_name@]
        + seq!["--contact-email"@, p.contact_email@]
        + seq!["--contact-phone"@, p.contact_phone@]
        + flag("--contact-company"@, p.contact_company)
        + seq!["--sec-code"@, decimal(unwrap_or_u32(p.sec_code, 1) as nat)]
        + seq!["--requester-ip"@, text_or(p.requester_ip, "127.0.0.1"@)]
}

/// `ach_move_argv` passes each parameter under its own flag: the fixed words come
/// first, and every given field adds exactly its own `--flag value`, holding
/// that field's value whatever the other fields are; nothing else is added.
#[verifier::spinoff_prover]
#[verifier::rlimit(100)]
pub proof fn lemma_ach_move_argv_fields(profile: Profile, sub: Seq<char>, p: AchMove)
    ensures
        ach_move_argv(profile, sub, p).take(38) == base_argv(profile) + seq!["ach"@, sub] + seq!["--amount"@, p.amount@] + seq!["--payment-processor-id"@, p.payment_processor_id@] + seq!["--routing"@, p.routing@] + seq!["--account"@, p.account@] + seq!["--account-type"@, p.account_type@] + seq!["--account-holder-type"@, p.account_holder_type@] + seq!["--billing-line1"@, p.billing_line1@] + seq!["--billing-city"@, p.billing_city@] + seq!["--billing-state"@, p.billing_state@] + seq!["--billing-state-id"@, decimal(p.billing_state_id as nat)] + seq!["--billing-postal-code"@, p.billing_postal_code@] + seq!["--billing-country-id"@, decimal(unwrap_or_u32(p.billing_country_id, 1) as nat)] + seq!["--contact-first-name"@, p.contact_first_name@] + seq!["--contact-last-name"@, p.contact_last_name@] + seq!["--contact-email"@, p.contact_email@] + seq!["--contact-phone"@, p.contact_phone@],
        ach_move_argv(profile, sub, p).len() == 42 + 2 * given(p.contact_company),
        p.contact_company matches Some(v) ==> has_pair(ach_move_argv(profile, sub, p), "--contact-company"@, v@),
        p.sec_code matches Some(n) ==> has_pair(ach_move_argv(profile, sub, p), "--sec-code"@, decimal(n as nat)),
        p.sec_code is None ==> has_pair(ach_move_argv(profile, sub, p), "--sec-code"@, decimal(1)),
        p.requester_ip matches Some(v) ==> has_pair(ach_move_argv(profile, sub, p), "--requester-ip"@, v@),
        p.requester_ip is None ==> has_pair(ach_move_argv(profile, sub, p), "--requester-ip"@, "127.0.0.1"@),
{
    let a0 = base_argv(profile);
    let a1 = a0 + seq!["ach"@, sub];
    let a2 = a1 + seq!["--amount"@, p.amount@];
    let a3 = a2 + seq!["--payment-processor-id"@, p.payment_processor_id@];
    let a4 = a3 + seq!["--routing"@, p.routing@];
    let a5 = a4 + seq!["--account"@, p.account@];
    let a6 = a5 + seq!["--account-type"@, p.account_type@];
    let a7 = a6 + seq!["--account-holder-type"@, p.account_holder_type@];
    let a8 = a7 + seq!["--billing-line1"@, p.billing_line1@];
    let a9 = a8 + seq!["--billing-city"@, p.billing_city@];
    let a10 = a9 + seq!["--billing-state"@, p.billing_state@];
    let a11 = a10 + seq!["--billing-state-id"@, decimal(p.billing_state_id as nat)];
    let a12 = a11 + seq!["--billing-postal-code"@, p.billing_postal_code@];
    let a13 = a12 + seq!["--billing-country-id"@, decimal(unwrap_or_u32(p.billing_country_id, 1) as nat)];
    let a14 = a13 + seq!["--contact-first-name"@, p.contact_first_name@];
    let a15 = a14 + seq!["--contact-last-name"@, p.contact_last_name@];
    let a16 = a15 + seq!["--contact-email"@, p.contact_email@];
    let a17 = a16 + seq!["--contact-phone"@, p.contact_phone@];
    let a18 = a17 + flag("--contact-company"@, p.contact_company);
    let a19 = a18 + seq!["--sec-code"@, decimal(unwrap_or_u32(p.sec_code, 1) as nat)];
    let a20 = a19 + seq!["--requester-ip"@, text_or(p.requester_ip, "127.0.0.1"@)];
    assert(ach_move_argv(profile, sub, p) == a20);
    assert(ach_move_argv(profile, sub, p).take(38) == base_argv(profile) + seq!["ach"@, sub] + seq!["--amount"@, p.amount@] + seq!["--payment-processor-id"@, p.payment_processor_id@] + seq!["--routing"@, p.routing@] + seq!["--account"@, p.account@] + seq!["--account-type"@, p.account_type@] + seq!["--account-holder-type"@, p.account_holder_type@] + seq!["--billing-line1"@, p.billing_line1@] + seq!["--billing-city"@, p.billing_city@] + seq!["--billing-state"@, p.billing_state@] + seq!["--billing-state-id"@, decimal(p.billing_state_id as nat)] + seq!["--billing-postal-code"@, p.billing_postal_code@] + seq!["--billing-country-id"@, decimal(unwrap_or_u32(p.billing_country_id, 1) as nat)] + seq!["--contact-first-name"@, p.contact_first_name@] + seq!["--contact-last-name"@, p.contact_last_name@] + seq!["--contact-email"@, p.contact_email@] + seq!["--contact-phone"@, p.contact_phone@]) by {
        lemma_take_concat(a19, seq!["--requester-ip"@, text_or(p.requester_ip, "127.0.0.1"@)], 38);
        lemma_take_concat(a18, seq!["--sec-code"@, decimal(unwrap_or_u32(p.sec_code, 1) as nat)], 38);
        lemma_take_concat(a17, flag("--contact-company"@, p.contact_company), 38);
        assert(a17.take(38) =~= a17);
    }
    assert(ach_move_argv(profile, sub, p).len() == 42 + 2 * given(p.contact_company)) by {
        assert(a0.len() == 4);
        assert(a1.len() == a0.len() + 2);
        assert(a2.len() == a1.len() + 2);
        assert(a3.len() == a2.len() + 2);
        assert(a4.len() == a3.len() + 2);
        assert(a5.len() == a4.len() + 2);
        assert(a6.len() == a5.len() + 2);
        assert(a7.len() == a6.len() + 2);
        assert(a8.len() == a7.len() + 2);
        assert(a9.len() == a8.len() + 2);
        assert(a10.len() == a9.len() + 2);
        assert(a11.len() == a10.len() + 2);
        assert(a12.len() == a11.len() + 2);
        assert(a13.len() == a12.len() + 2);
        assert(a14.len() == a13.len() + 2);
        assert(a15.len() == a14.len() + 2);
        assert(a16.len() == a15.len() + 2);
        assert(a17.len() == a16.len() + 2);
        lemma_flag_len("--contact-company"@, p.contact_company);
        assert(a18.len() == a17.len() + 2 * given(p.contact_company));
        assert(a19.len() == a18.len() + 2);
        assert(a20.len() == a19.len() + 2);
    }
    assert(p.contact_company matches Some(v) ==> has_pair(ach_move_argv(profile, sub, p), "--contact-company"@, v@)) by {
        match p.contact_company {
        Some(v) => {
            lemma_flag_pair("--contact-company"@, p.contact_company);
            lemma_has_pair_concat(a17, flag("--contact-company"@, p.contact_company), "--contact-company"@, v@);
            lemma_has_pair_concat(a18, seq!["--sec-code"@, decimal(unwrap_or_u32(p.sec_code, 1) as nat)], "--contact-company"@, v@);
            lemma_has_pair_concat(a19, seq!["--requester-ip"@, text_or(p.requester_ip, "127.0.0.1"@)], "--contact-company"@, v@);
        },
        None => {},
    }
    }
    assert(p.sec_code matches Some(n) ==> has_pair(ach_move_argv(profile, sub, p), "--sec-code"@, decimal(n as nat))) by {
        lemma_has_pair_two("--sec-code"@, decimal(unwrap_or_u32(p.sec_code, 1) as nat));
        lemma_has_pair_concat(a18, seq!["--sec-code"@, decimal(unwrap_or_u32(p.sec_code, 1) as nat)], "--sec-code"@, decimal(unwrap_or_u32(p.sec_code, 1) as nat));
        lemma_has_pair_concat(a19, seq!["--requester-ip"@, text_or(p.requester_ip, "127.0.0.1"@)], "--sec-code"@, decimal(unwrap_or_u32(p.sec_code, 1) as nat));
    }
    assert(p.sec_code is None ==> has_pair(ach_move_argv(profile, sub, p), "--sec-code"@, decimal(1))) by {
        lemma_has_pair_two("--sec-code"@, decimal(unwrap_or_u32(p.sec_code, 1) as nat));
        lemma_has_pair_concat(a18, seq!["--sec-code"@, decimal(unwrap_or_u32(p.sec_code, 1) as nat)], "--sec-code"@, decimal(unwrap_or_u32(p.sec_code, 1) as nat));
        lemma_has_pair_concat(a19, seq!["--requester-ip"@, text_or(p.requester_ip, "127.0.0.1"@)], "--sec-code"@, decimal(unwrap_or_u32(p.sec_code, 1) as nat));
    }
    assert(p.requester_ip matches Some(v) ==> has_pair(ach_move_argv(profile, sub, p), "--requester-ip"@, v@)) by {
        lemma_has_pair_two("--requester-ip"@, text_or(p.requester_ip, "127.0.0.1"@));
        lemma_has_pair_concat(a19, seq!["--requester-ip"@, text_or(p.requester_ip, "127.0.0.1"@)], "--requester-ip"@, text_or(p.requester_ip, "127.0.0.1"@));
    }
    assert(p.requester_ip is None ==> has_pair(ach_move_argv(profile, sub, p), "--requester-ip"@, "127.0.0.1"@)) by {
        lemma_has_pair_two("--requester-ip"@, text_or(p.requester_ip, "127.0.0.1"@));
        lemma_has_pair_concat(a19, seq!["--requester-ip"@, text_or(p.requester_ip, "127.0.0.1"@)], "--requester-ip"@, text_or(p.requester_ip, "127.0.0.1"@));
    }
}

/// The arguments `ach_void` runs the CLI with.
pub open spec fn ach_void_argv(profile: Profile, p: Id) -> Seq<Seq<char>> {
    base_argv(profile)
        + seq!["ach"@, "void"@, p.id@]
}

/// `ach_void_argv` passes each parameter under its own flag: the fixed words come
/// first, and every given field adds exactly its own `--flag value`, holding
/// that field's value whatever the other fields are; nothing else is added.
pub proof fn lemma_ach_void_argv_fields(profile: Profile, p: Id)
    ensures
        ach_void_argv(profile, p).take(7) == base_argv(profile) + seq!["ach"@, "void"@, p.id@],
        ach_void_argv(profile, p).len() == 7,
{
    let a0 = base_argv(profile);
    let a1 = a0 + seq!["ach"@, "void"@, p.id@];
    assert(ach_void_argv(profile, p) == a1);
    assert(ach_void_argv(profile, p).take(7) == base_argv(profile) + seq!["ach"@, "void"@, p.id@]) by {
        assert(a1.take(7) =~= a1);
    }
    assert(ach_void_argv(profile, p).len() == 7) by {
        assert(a0.len() == 4);
        assert(a1.len() == a0.len() + 3);
    }
}

/// The arguments `ach_refund` runs the CLI with.
pub open spec fn ach_refund_argv(profile: Profile, p: Id) -> Seq<Seq<char>> {
    base_argv(profile)
        + seq!["ach"@, "refund"@, p.id@]
}

/// `ach_refund_argv` passes each parameter under its own flag: the fixed words come
/// first, and every given field adds exactly its own `--flag value`, holding
/// that field's value whatever the other fields are; nothing else is added.
pub proof fn lemma_ach_refund_argv_fields(profile: Profile, p: Id)
    ensures
        ach_refund_argv(profile, p).take(7) == base_argv(profile) + seq!["ach"@, "refund"@, p.id@],
        ach_refund_argv(profile, p).len() == 7,
{
    let a0 = base_argv(profile);
    let a1 = a0 + seq!["ach"@, "refund"@, p.id@];
    assert(ach_refund_argv(profile, p) == a1);
    assert(ach_refund_argv(profile, p).take(7) == base_argv(profile) + seq!["ach"@, "refund"@, p.id@]) by {
        assert(a1.take(7) =~= a1);
    }
    assert(ach_refund_argv(profile, p).len() == 7) by {
        assert(a0.len() == 4);
        assert(a1.len() == a0.len() + 3);
    }
}

impl FluteServer {
    /// The argument vector shared by `ach debit` and `ach credit`.
    pub fn ach_move_args(&self, sub: &str, p: AchMove) -> (res: Vec<String>)
        ensures
            res.deep_view() == ach_move_argv(self.config.profile, sub@, p),
    {
        let AchMove { amount, payment_processor_id, routing, account, account_type, account_holder_type, billing_line1, billing_city, billing_state, billing_state_id, billing_postal_code, billing_country_id, contact_first_name, contact_last_name, contact_email, contact_phone, contact_company, sec_code, requester_ip } = p;
        let mut args = self.base_args();
        push_lit(&mut args, "ach");
        push_lit(&mut args, sub);
        push_pair(&mut args, "--amount", amount);
        push_pair(&mut args, "--payment-processor-id", payment_processor_id);
        push_pair(&mut args, "--routing", routing);
        push_pair(&mut args, "--account", account);
        push_pair(&mut args, "--account-type", account_type);
        push_pair(&mut args, "--account-holder-type", account_holder_type);
        push_pair(&mut args, "--billing-line1", billing_line1);
        push_pair(&mut args, "--billing-city", billing_city);
        push_pair(&mut args, "--billing-state", billing_state);
        push_num(&mut args, "--billing-state-id", billing_state_id);
        push_pair(&mut args, "--billing-postal-code", billing_postal_code);
        push_num(&mut args, "--billing-country-id", match billing_country_id { Some(v) => v, None => 1 });
        push_pair(&mut args, "--contact-first-name", contact_first_name);
        push_pair(&mut args, "--contact-last-name", contact_last_name);
        push_pair(&mut args, "--contact-email", contact_email);
        push_pair(&mut args, "--contact-phone", contact_phone);
        push_flag(&mut args, "--contact-company", contact_company);
        push_num(&mut args, "--sec-code", match sec_code { Some(v) => v, None => 1 });
        push_pair(&mut args, "--requester-ip", match requester_ip { Some(v) => v, None => String::from_str("127.0.0.1") });
        assert(args.deep_view() =~= ach_move_argv(self.config.profile, sub@, p));
        args
    }

    /// ACH debit (pull funds). NOT idempotent: moves money.
    pub fn ach_debit(&self, p: AchMove) -> (res: ToolPlan)
        ensures
            write_plan(self.config, res, "ach_debit"@, ach_move_argv(self.config.profile, "debit"@, p)),
    {
        if let Some(e) = self.guard_write("ach_debit") {
            return ToolPlan::Refuse(e);
        }
        let args = self.ach_move_args("debit", p);
        ToolPlan::Run { args, on_empty: None }
    }

    /// ACH credit (push funds). NOT idempotent: moves money.
    pub fn ach_credit(&self, p: AchMove) -> (res: ToolPlan)
        ensures
            write_plan(self.config, res, "ach_credit"@, ach_move_argv(self.config.profile, "credit"@, p)),
    {
        if let Some(e) = self.guard_write("ach_credit") {
            return ToolPlan::Refuse(e);
        }
        let args = self.ach_move_args("credit", p);
        ToolPlan::Run { args, on_empty: None }
    }

    /// Void an ACH transaction by id. NOT idempotent.
    pub fn ach_void(&self, p: Id) -> (res: ToolPlan)
        ensures
            write_plan(self.config, res, "ach_void"@, ach_void_argv(self.config.profile, p)),
    {
        if let Some(e) = self.guard_write("ach_void") {
            return ToolPlan::Refuse(e);
        }
        let Id { id } = p;
        let mut args = self.base_args();
        push_lit(&mut args, "ach");
        push_lit(&mut args, "void");
        push_word(&mut args, id);
        assert(args.deep_view() =~= ach_void_argv(self.config.profile, p));
        ToolPlan::Run { args, on_empty: None }
    }

    /// Refund an ACH transaction by id. NOT idempotent: moves money.
    pub fn ach_refund(&self, p: Id) -> (res: ToolPlan)
        ensures
            write_plan(self.config, res, "ach_refund"@, ach_refund_argv(self.config.profile, p)),
    {
        if let Some(e) = self.guard_write("ach_refund") {
            return ToolPlan::Refuse(e);
        }
        let Id { id } = p;
        let mut args = self.base_args();
        push_lit(&mut args, "ach");
        push_lit(&mut args, "refund");
        push_word(&mut args, id);
        assert(args.deep_view() =~= ach_refund_argv(self.config.profile, p));
        ToolPlan::Run { args, on_empty: None }
    }
}

} // verus!
