//! The AVS billing-address arguments shared by the card `sale`/`auth`
//! commands and the customer `create`/`update` commands: one `--billing-*`
//! vocabulary, which the CLI maps onto each endpoint.
use vstd::prelude::*;

use crate::server::{
    flag, given, has_pair, lemma_flag_len, lemma_flag_pair, lemma_has_pair_concat, lemma_num_flag_len,
    lemma_num_flag_pair, num_flag,
    push_flag, push_num_flag,
};
use crate::text::decimal;

verus! {

/// The seven AVS billing values pulled off a tool's parameters.
#[derive(Debug, Default)]
pub struct BillingArgs {
    pub line1: Option<String>,
    pub line2: Option<String>,
    pub city: Option<String>,
    pub state: Option<String>,
    pub state_id: Option<u32>,
    pub postal_code: Option<String>,
    pub country_id: Option<u32>,
}

/// The `--billing-*` flags of the set fields, in the CLI's declared order.
pub open spec fn billing_argv(b: BillingArgs) -> Seq<Seq<char>> {
    flag("--billing-line1"@, b.line1) + flag("--billing-line2"@, b.line2) + flag(
        "--billing-city"@,
        b.city,
    ) + flag("--billing-state"@, b.state) + num_flag("--billing-state-id"@, b.state_id) + flag(
        "--billing-postal-code"@,
        b.postal_code,
    ) + num_flag("--billing-country-id"@, b.country_id)
}

/// The billing flags hold each given address field under its own flag, with
/// that field's value, and nothing else: an address with no field set adds
/// no flag at all.
pub proof fn lemma_billing_argv_fields(b: BillingArgs)
    ensures
        billing_argv(b).len() == 2 * given(b.line1) + 2 * given(b.line2) + 2 * given(b.city) + 2 * given(b.state) + 2 * given(b.state_id) + 2 * given(b.postal_code) + 2 * given(b.country_id),
        b.line1 matches Some(v) ==> has_pair(billing_argv(b), "--billing-line1"@, v@),
        b.line2 matches Some(v) ==> has_pair(billing_argv(b), "--billing-line2"@, v@),
        b.city matches Some(v) ==> has_pair(billing_argv(b), "--billing-city"@, v@),
        b.state matches Some(v) ==> has_pair(billing_argv(b), "--billing-state"@, v@),
        b.state_id matches Some(n) ==> has_pair(billing_argv(b), "--billing-state-id"@, decimal(n as nat)),
        b.postal_code matches Some(v) ==> has_pair(billing_argv(b), "--billing-postal-code"@, v@),
        b.country_id matches Some(n) ==> has_pair(billing_argv(b), "--billing-country-id"@, decimal(n as nat)),
{
    let a0 = flag("--billing-line1"@, b.line1);
    let a1 = a0 + flag("--billing-line2"@, b.line2);
    let a2 = a1 + flag("--billing-city"@, b.city);
    let a3 = a2 + flag("--billing-state"@, b.state);
    let a4 = a3 + num_flag("--billing-state-id"@, b.state_id);
    let a5 = a4 + flag("--billing-postal-code"@, b.postal_code);
    let a6 = a5 + num_flag("--billing-country-id"@, b.country_id);
    assert(billing_argv(b) == a6);
    assert(billing_argv(b).len() == 2 * given(b.line1) + 2 * given(b.line2) + 2 * given(b.city) + 2 * given(b.state) + 2 * given(b.state_id) + 2 * given(b.postal_code) + 2 * given(b.country_id)) by {
        lemma_flag_len("--billing-line1"@, b.line1);
        assert(a0.len() == 2 * given(b.line1));
        lemma_flag_len("--billing-line2"@, b.line2);
        assert(a1.len() == a0.len() + 2 * given(b.line2));
        lemma_flag_len("--billing-city"@, b.city);
        assert(a2.len() == a1.len() + 2 * given(b.city));
        lemma_flag_len("--billing-state"@, b.state);
        assert(a3.len() == a2.len() + 2 * given(b.state));
        lemma_num_flag_len("--billing-state-id"@, b.state_id);
        assert(a4.len() == a3.len() + 2 * given(b.state_id));
        lemma_flag_len("--billing-postal-code"@, b.postal_code);
        assert(a5.len() == a4.len() + 2 * given(b.postal_code));
        lemma_num_flag_len("--billing-country-id"@, b.country_id);
        assert(a6.len() == a5.len() + 2 * given(b.country_id));
    }
    assert(b.line1 matches Some(v) ==> has_pair(billing_argv(b), "--billing-line1"@, v@)) by {
        match b.line1 {
        Some(v) => {
            lemma_flag_pair("--billing-line1"@, b.line1);
            lemma_has_pair_concat(a0, flag("--billing-line2"@, b.line2), "--billing-line1"@, v@);
            lemma_has_pair_concat(a1, flag("--billing-city"@, b.city), "--billing-line1"@, v@);
            lemma_has_pair_concat(a2, flag("--billing-state"@, b.state), "--billing-line1"@, v@);
            lemma_has_pair_concat(a3, num_flag("--billing-state-id"@, b.state_id), "--billing-line1"@, v@);
            lemma_has_pair_concat(a4, flag("--billing-postal-code"@, b.postal_code), "--billing-line1"@, v@);
            lemma_has_pair_concat(a5, num_flag("--billing-country-id"@, b.country_id), "--billing-line1"@, v@);
        },
        None => {},
    }
    }
    assert(b.line2 matches Some(v) ==> has_pair(billing_argv(b), "--billing-line2"@, v@)) by {
        match b.line2 {
        Some(v) => {
            lemma_flag_pair("--billing-line2"@, b.line2);
            lemma_has_pair_concat(a0, flag("--billing-line2"@, b.line2), "--billing-line2"@, v@);
            lemma_has_pair_concat(a1, flag("--billing-city"@, b.city), "--billing-line2"@, v@);
            lemma_has_pair_concat(a2, flag("--billing-state"@, b.state), "--billing-line2"@, v@);
            lemma_has_pair_concat(a3, num_flag("--billing-state-id"@, b.state_id), "--billing-line2"@, v@);
            lemma_has_pair_concat(a4, flag("--billing-postal-code"@, b.postal_code), "--billing-line2"@, v@);
            lemma_has_pair_concat(a5, num_flag("--billing-country-id"@, b.country_id), "--billing-line2"@, v@);
        },
        None => {},
    }
    }
    assert(b.city matches Some(v) ==> has_pair(billing_argv(b), "--billing-city"@, v@)) by {
        match b.city {
        Some(v) => {
            lemma_flag_pair("--billing-city"@, b.city);
            lemma_has_pair_concat(a1, flag("--billing-city"@, b.city), "--billing-city"@, v@);
            lemma_has_pair_concat(a2, flag("--billing-state"@, b.state), "--billing-city"@, v@);
            lemma_has_pair_concat(a3, num_flag("--billing-state-id"@, b.state_id), "--billing-city"@, v@);
            lemma_has_pair_concat(a4, flag("--billing-postal-code"@, b.postal_code), "--billing-city"@, v@);
            lemma_has_pair_concat(a5, num_flag("--billing-country-id"@, b.country_id), "--billing-city"@, v@);
        },
        None => {},
    }
    }
    assert(b.state matches Some(v) ==> has_pair(billing_argv(b), "--billing-state"@, v@)) by {
        match b.state {
        Some(v) => {
            lemma_flag_pair("--billing-state"@, b.state);
            lemma_has_pair_concat(a2, flag("--billing-state"@, b.state), "--billing-state"@, v@);
            lemma_has_pair_concat(a3, num_flag("--billing-state-id"@, b.state_id), "--billing-state"@, v@);
            lemma_has_pair_concat(a4, flag("--billing-postal-code"@, b.postal_code), "--billing-state"@, v@);
            lemma_has_pair_concat(a5, num_flag("--billing-country-id"@, b.country_id), "--billing-state"@, v@);
        },
        None => {},
    }
    }
    assert(b.state_id matches Some(n) ==> has_pair(billing_argv(b), "--billing-state-id"@, decimal(n as nat))) by {
        match b.state_id {
        Some(n) => {
            lemma_num_flag_pair("--billing-state-id"@, b.state_id);
            lemma_has_pair_concat(a3, num_flag("--billing-state-id"@, b.state_id), "--billing-state-id"@, decimal(n as nat));
            lemma_has_pair_concat(a4, flag("--billing-postal-code"@, b.postal_code), "--billing-state-id"@, decimal(n as nat));
            lemma_has_pair_concat(a5, num_flag("--billing-country-id"@, b.country_id), "--billing-state-id"@, decimal(n as nat));
        },
        None => {},
    }
    }
    assert(b.postal_code matches Some(v) ==> has_pair(billing_argv(b), "--billing-postal-code"@, v@)) by {
        match b.postal_code {
        Some(v) => {
            lemma_flag_pair("--billing-postal-code"@, b.postal_code);
            lemma_has_pair_concat(a4, flag("--billing-postal-code"@, b.postal_code), "--billing-postal-code"@, v@);
            lemma_has_pair_concat(a5, num_flag("--billing-country-id"@, b.country_id), "--billing-postal-code"@, v@);
        },
        None => {},
    }
    }
    assert(b.country_id matches Some(n) ==> has_pair(billing_argv(b), "--billing-country-id"@, decimal(n as nat))) by {
        match b.country_id {
        Some(n) => {
            lemma_num_flag_pair("--billing-country-id"@, b.country_id);
            lemma_has_pair_concat(a5, num_flag("--billing-country-id"@, b.country_id), "--billing-country-id"@, decimal(n as nat));
        },
        None => {},
    }
    }
}

/// No field of the address is set.
pub open spec fn billing_is_empty(b: BillingArgs) -> bool {
    b.line1 is None && b.line2 is None && b.city is None && b.state is None && b.state_id is None
        && b.postal_code is None && b.country_id is None
}

impl BillingArgs {
    /// Appends the set `--billing-*` flags, in the CLI's declared order.
    ///
    /// Nothing is appended when every field is `None`, so an empty address
    /// stays absent from the request rather than being sent blank.
    pub fn push(self, args: &mut Vec<String>)
        ensures
            final(args).deep_view() == old(args).deep_view() + billing_argv(self),
            billing_is_empty(self) ==> final(args).deep_view() == old(args).deep_view(),
    {
        let ghost b = self;
        let BillingArgs { line1, line2, city, state, state_id, postal_code, country_id } = self;
        let ghost start = args.deep_view();
        push_flag(args, "--billing-line1", line1);
        push_flag(args, "--billing-line2", line2);
        push_flag(args, "--billing-city", city);
        push_flag(args, "--billing-state", state);
        push_num_flag(args, "--billing-state-id", state_id);
        push_flag(args, "--billing-postal-code", postal_code);
        push_num_flag(args, "--billing-country-id", country_id);
        assert(args.deep_view() =~= start + billing_argv(b));
        proof {
            if billing_is_empty(b) {
                assert(billing_argv(b) =~= Seq::<Seq<char>>::empty());
            }
        }
    }
}

} // verus!
