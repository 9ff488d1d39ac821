//! Settlement batch tools.
use vstd::prelude::*;

use crate::config::Profile;
use crate::server::{
    base_argv, flag, num_flag, push_flag, push_lit, push_num_flag, push_word, runs, FluteServer,
    ToolPlan,
};
use crate::server::{
    given, has_pair, lemma_flag_len, lemma_flag_pair, lemma_num_flag_len, lemma_take_concat,
    lemma_has_pair_concat, lemma_num_flag_pair,
};
use crate::text::decimal;
use crate::tools::Id;

verus! {

/// Parameters of `settlements_list`.
#[derive(Debug, Default)]
pub struct SettlementsList {
    pub limit: Option<u32>,
    /// Zero-based page index: 0 (or omitted) is the first page.
    pub page: Option<u32>,
    pub from: Option<String>,
    pub to: Option<String>,
    /// "open" | "settled".
    pub status: Option<String>,
}

/// The arguments `settlements_list` runs the CLI with.
pub open spec fn settlements_list_argv(profile: Profile, p: SettlementsList) -> Seq<Seq<char>> {
    base_argv(profile)
        + seq!["settlements"@, "list"@]
        + num_flag("--limit"@, p.limit)
        + num_flag("--page"@, p.page)
        + flag("--from"@, p.from)
        + flag("--to"@, p.to)
        + flag("--status"@, p.status)
}

/// `settlements_list_argv` passes each parameter under its own flag: the fixed words come
/// first, and every given field adds exactly its own `--flag value`, holding
/// that field's value whatever the other fields are; nothing else is added.
#[verifier::spinoff_prover]
#[verifier::rlimit(100)]
pub proof fn lemma_settlements_list_argv_fields(profile: Profile, p: SettlementsList)
    ensures
        settlements_list_argv(profile, p).take(6) == base_argv(profile) + seq!["settlements"@, "list"@],
        settlements_list_argv(profile, p).len() == 6 + 2 * given(p.limit) + 2 * given(p.page) + 2 * given(p.from) + 2 * given(p.to) + 2 * given(p.status),
        p.limit matches Some(n) ==> has_pair(settlements_list_argv(profile, p), "--limit"@, decimal(n as nat)),
        p.page matches Some(n) ==> has_pair(settlements_list_argv(profile, p), "--page"@, decimal(n as nat)),
        p.from matches Some(v) ==> has_pair(settlements_list_argv(profile, p), "--from"@, v@),
        p.to matches Some(v) ==> has_pair(settlements_list_argv(profile, p), "--to"@, v@),
        p.status matches Some(v) ==> has_pair(settlements_list_argv(profile, p), "--status"@, v@),
{
    let a0 = base_argv(profile);
    let a1 = a0 + seq!["settlements"@, "list"@];
    let a2 = a1 + num_flag("--limit"@, p.limit);
    let a3 = a2 + num_flag("--page"@, p.page);
    let a4 = a3 + flag("--from"@, p.from);
    let a5 = a4 + flag("--to"@, p.to);
    let a6 = a5 + flag("--status"@, p.status);
    assert(settlements_list_argv(profile, p) == a6);
    assert(settlements_list_argv(profile, p).take(6) == base_argv(profile) + seq!["settlements"@, "list"@]) by {
        lemma_take_concat(a5, flag("--status"@, p.status), 6);
        lemma_take_concat(a4, flag("--to"@, p.to), 6);
        lemma_take_concat(a3, flag("--from"@, p.from), 6);
        lemma_take_concat(a2, num_flag("--page"@, p.page), 6);
        lemma_take_concat(a1, num_flag("--limit"@, p.limit), 6);
        assert(a1.take(6) =~= a1);
    }
    assert(settlements_list_argv(profile, p).len() == 6 + 2 * given(p.limit) + 2 * given(p.page) + 2 * given(p.from) + 2 * given(p.to) + 2 * given(p.status)) by {
        assert(a0.len() == 4);
        assert(a1.len() == a0.len() + 2);
        lemma_num_flag_len("--limit"@, p.limit);
        assert(a2.len() == a1.len() + 2 * given(p.limit));
        lemma_num_flag_len("--page"@, p.page);
        assert(a3.len() == a2.len() + 2 * given(p.page));
        lemma_flag_len("--from"@, p.from);
        assert(a4.len() == a3.len() + 2 * given(p.from));
        lemma_flag_len("--to"@, p.to);
        assert(a5.len() == a4.len() + 2 * given(p.to));
        lemma_flag_len("--status"@, p.status);
        assert(a6.len() == a5.len() + 2 * given(p.status));
    }
    assert(p.limit matches Some(n) ==> has_pair(settlements_list_argv(profile, p), "--limit"@, decimal(n as nat))) by {
        match p.limit {
        Some(n) => {
            lemma_num_flag_pair("--limit"@, p.limit);
            lemma_has_pair_concat(a1, num_flag("--limit"@, p.limit), "--limit"@, decimal(n as nat));
            lemma_has_pair_concat(a2, num_flag("--page"@, p.page), "--limit"@, decimal(n as nat));
            lemma_has_pair_concat(a3, flag("--from"@, p.from), "--limit"@, decimal(n as nat));
            lemma_has_pair_concat(a4, flag("--to"@, p.to), "--limit"@, decimal(n as nat));
            lemma_has_pair_concat(a5, flag("--status"@, p.status), "--limit"@, decimal(n as nat));
        },
        None => {},
    }
    }
    assert(p.page matches Some(n) ==> has_pair(settlements_list_argv(profile, p), "--page"@, decimal(n as nat))) by {
        match p.page {
        Some(n) => {
            lemma_num_flag_pair("--page"@, p.page);
            lemma_has_pair_concat(a2, num_flag("--page"@, p.page), "--page"@, decimal(n as nat));
            lemma_has_pair_concat(a3, flag("--from"@, p.from), "--page"@, decimal(n as nat));
            lemma_has_pair_concat(a4, flag("--to"@, p.to), "--page"@, decimal(n as nat));
            lemma_has_pair_concat(a5, flag("--status"@, p.status), "--page"@, decimal(n as nat));
        },
        None => {},
    }
    }
    assert(p.from matches Some(v) ==> has_pair(settlements_list_argv(profile, p), "--from"@, v@)) by {
        match p.from {
        Some(v) => {
            lemma_flag_pair("--from"@, p.from);
            lemma_has_pair_concat(a3, flag("--from"@, p.from), "--from"@, v@);
            lemma_has_pair_concat(a4, flag("--to"@, p.to), "--from"@, v@);
            lemma_has_pair_concat(a5, flag("--status"@, p.status), "--from"@, v@);
        },
        None => {},
    }
    }
    assert(p.to matches Some(v) ==> has_pair(settlements_list_argv(profile, p), "--to"@, v@)) by {
        match p.to {
        Some(v) => {
            lemma_flag_pair("--to"@, p.to);
            lemma_has_pair_concat(a4, flag("--to"@, p.to), "--to"@, v@);
            lemma_has_pair_concat(a5, flag("--status"@, p.status), "--to"@, v@);
        },
        None => {},
    }
    }
    assert(p.status matches Some(v) ==> has_pair(settlements_list_argv(profile, p), "--status"@, v@)) by {
        match p.status {
        Some(v) => {
            lemma_flag_pair("--status"@, p.status);
            lemma_has_pair_concat(a5, flag("--status"@, p.status), "--status"@, v@);
        },
        None => {},
    }
    }
}

/// The arguments `settlements_get` runs the CLI with.
pub open spec fn settlements_get_argv(profile: Profile, p: Id) -> Seq<Seq<char>> {
    base_argv(profile)
        + seq!["settlements"@, "get"@, p.id@]
}

/// `settlements_get_argv` passes each parameter under its own flag: the fixed words come
/// first, and every given field adds exactly its own `--flag value`, holding
/// that field's value whatever the other fields are; nothing else is added.
pub proof fn lemma_settlements_get_argv_fields(profile: Profile, p: Id)
    ensures
        settlements_get_argv(profile, p).take(7) == base_argv(profile) + seq!["settlements"@, "get"@, p.id@],
        settlements_get_argv(profile, p).len() == 7,
{
    let a0 = base_argv(profile);
    let a1 = a0 + seq!["settlements"@, "get"@, p.id@];
    assert(settlements_get_argv(profile, p) == a1);
    assert(settlements_get_argv(profile, p).take(7) == base_argv(profile) + seq!["settlements"@, "get"@, p.id@]) by {
        assert(a1.take(7) =~= a1);
    }
    assert(settlements_get_argv(profile, p).len() == 7) by {
        assert(a0.len() == 4);
        assert(a1.len() == a0.len() + 3);
    }
}

impl FluteServer {
    /// List settlement batches. Safe to retry.
    pub fn settlements_list(&self, p: SettlementsList) -> (res: ToolPlan)
        ensures
            runs(res, settlements_list_argv(self.config.profile, p)),
    {
        let SettlementsList { limit, page, from, to, status } = p;
        let mut args = self.base_args();
        push_lit(&mut args, "settlements");
        push_lit(&mut args, "list");
        push_num_flag(&mut args, "--limit", limit);
        push_num_flag(&mut args, "--page", page);
        push_flag(&mut args, "--from", from);
        push_flag(&mut args, "--to", to);
        push_flag(&mut args, "--status", status);
        assert(args.deep_view() =~= settlements_list_argv(self.config.profile, p));
        ToolPlan::Run { args, on_empty: None }
    }

    /// Get a settlement batch by id. Safe to retry.
    pub fn settlements_get(&self, p: Id) -> (res: ToolPlan)
        ensures
            runs(res, settlements_get_argv(self.config.profile, p)),
    {
        let Id { id } = p;
        let mut args = self.base_args();
        push_lit(&mut args, "settlements");
        push_lit(&mut args, "get");
        push_word(&mut args, id);
        assert(args.deep_view() =~= settlements_get_argv(self.config.profile, p));
        ToolPlan::Run { args, on_empty: None }
    }
}

} // verus!
