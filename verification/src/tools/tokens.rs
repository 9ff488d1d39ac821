//! ISV API token tools (`flute tokens ...`).
use vstd::prelude::*;

use crate::config::Profile;
use crate::server::{
    base_argv, flag, guarded, merchant_for, push_flag, push_lit, push_pair, refuses,
    refuses_without_merchant, runs, FluteServer, ToolPlan,
};
use crate::server::{has_pair, lemma_flag_pair, lemma_take_concat, lemma_has_pair_concat};

verus! {

/// Parameters of `tokens_list`.
#[derive(Debug, Default)]
pub struct TokensList {
    /// Overrides the pinned merchant id; optional for list.
    pub merchant_id: Option<String>,
}

/// Parameters of `tokens_create`.
#[derive(Debug, Default)]
pub struct TokenCreate {
    pub name: String,
    /// Overrides the pinned merchant id; required here or pinned.
    pub merchant_id: Option<String>,
}

/// Parameters of `tokens_revoke`.
#[derive(Debug, Default)]
pub struct TokenRevoke {
    pub client_id: String,
    pub merchant_id: Option<String>,
}

/// The arguments `tokens_list` runs the CLI with.
pub open spec fn tokens_list_argv(profile: Profile, pinned: Option<String>, p: TokensList) -> Seq<Seq<char>> {
    base_argv(profile)
        + seq!["tokens"@, "list"@]
        + flag("--merchant-id"@, merchant_for(p.merchant_id, pinned))
}

/// `tokens_list_argv` passes each parameter under its own flag: the fixed words come
/// first, and every given field adds exactly its own `--flag value`, holding
/// that field's value whatever the other fields are; nothing else is added.
pub proof fn lemma_tokens_list_argv_fields(profile: Profile, pinned: Option<String>, p: TokensList)
    ensures
        tokens_list_argv(profile, pinned, p).take(6) == base_argv(profile) + seq!["tokens"@, "list"@],
        p.merchant_id is None && pinned is None ==> tokens_list_argv(profile, pinned, p).len() == 6,
        p.merchant_id matches Some(m) ==> (m@.len() > 0 ==> has_pair(tokens_list_argv(profile, pinned, p), "--merchant-id"@, m@)),
        p.merchant_id is None ==> (pinned matches Some(q) ==> has_pair(tokens_list_argv(profile, pinned, p), "--merchant-id"@, q@)),
        p.merchant_id matches Some(m) ==> (m@.len() == 0 ==> (pinned matches Some(q) ==> has_pair(tokens_list_argv(profile, pinned, p), "--merchant-id"@, q@))),
{
    let a0 = base_argv(profile);
    let a1 = a0 + seq!["tokens"@, "list"@];
    let a2 = a1 + flag("--merchant-id"@, merchant_for(p.merchant_id, pinned));
    assert(tokens_list_argv(profile, pinned, p) == a2);
    assert(tokens_list_argv(profile, pinned, p).take(6) == base_argv(profile) + seq!["tokens"@, "list"@]) by {
        lemma_take_concat(a1, flag("--merchant-id"@, merchant_for(p.merchant_id, pinned)), 6);
        assert(a1.take(6) =~= a1);
    }
    assert(p.merchant_id matches Some(m) ==> (m@.len() > 0 ==> has_pair(tokens_list_argv(profile, pinned, p), "--merchant-id"@, m@))) by {
        match merchant_for(p.merchant_id, pinned) {
        Some(v) => {
            lemma_flag_pair("--merchant-id"@, merchant_for(p.merchant_id, pinned));
            lemma_has_pair_concat(a1, flag("--merchant-id"@, merchant_for(p.merchant_id, pinned)), "--merchant-id"@, v@);
        },
        None => {},
    }
    }
    assert(p.merchant_id is None ==> (pinned matches Some(q) ==> has_pair(tokens_list_argv(profile, pinned, p), "--merchant-id"@, q@))) by {
        match merchant_for(p.merchant_id, pinned) {
        Some(v) => {
            lemma_flag_pair("--merchant-id"@, merchant_for(p.merchant_id, pinned));
            lemma_has_pair_concat(a1, flag("--merchant-id"@, merchant_for(p.merchant_id, pinned)), "--merchant-id"@, v@);
        },
        None => {},
    }
    }
    assert(p.merchant_id matches Some(m) ==> (m@.len() == 0 ==> (pinned matches Some(q) ==> has_pair(tokens_list_argv(profile, pinned, p), "--merchant-id"@, q@)))) by {
        match merchant_for(p.merchant_id, pinned) {
        Some(v) => {
            lemma_flag_pair("--merchant-id"@, merchant_for(p.merchant_id, pinned));
            lemma_has_pair_concat(a1, flag("--merchant-id"@, merchant_for(p.merchant_id, pinned)), "--merchant-id"@, v@);
        },
        None => {},
    }
    }
}

/// The arguments `tokens_create` runs the CLI with.
pub open spec fn tokens_create_argv(profile: Profile, m: String, p: TokenCreate) -> Seq<Seq<char>> {
    base_argv(profile)
        + seq!["tokens"@, "create"@]
        + seq!["--merchant-id"@, m@]
        + seq!["--name"@, p.name@]
}

/// `tokens_create_argv` passes each parameter under its own flag: the fixed words come
/// first, and every given field adds exactly its own `--flag value`, holding
/// that field's value whatever the other fields are; nothing else is added.
pub proof fn lemma_tokens_create_argv_fields(profile: Profile, m: String, p: TokenCreate)
    ensures
        tokens_create_argv(profile, m, p).take(10) == base_argv(profile) + seq!["tokens"@, "create"@] + seq!["--merchant-id"@, m@] + seq!["--name"@, p.name@],
        tokens_create_argv(profile, m, p).len() == 10,
{
    let a0 = base_argv(profile);
    let a1 = a0 + seq!["tokens"@, "create"@];
    let a2 = a1 + seq!["--merchant-id"@, m@];
    let a3 = a2 + seq!["--name"@, p.name@];
    assert(tokens_create_argv(profile, m, p) == a3);
    assert(tokens_create_argv(profile, m, p).take(10) == base_argv(profile) + seq!["tokens"@, "create"@] + seq!["--merchant-id"@, m@] + seq!["--name"@, p.name@]) by {
        assert(a3.take(10) =~= a3);
    }
    assert(tokens_create_argv(profile, m, p).len() == 10) by {
        assert(a0.len() == 4);
        assert(a1.len() == a0.len() + 2);
        assert(a2.len() == a1.len() + 2);
        assert(a3.len() == a2.len() + 2);
    }
}

/// The arguments `tokens_revoke` runs the CLI with.
pub open spec fn tokens_revoke_argv(profile: Profile, m: String, p: TokenRevoke) -> Seq<Seq<char>> {
    base_argv(profile)
        + seq!["tokens"@, "revoke"@]
        + seq!["--client-id"@, p.client_id@]
        + seq!["--merchant-id"@, m@]
        + seq!["--yes"@]
}

/// `tokens_revoke_argv` passes each parameter under its own flag: the fixed words come
/// first, and every given field adds exactly its own `--flag value`, holding
/// that field's value whatever the other fields are; nothing else is added.
pub proof fn lemma_tokens_revoke_argv_fields(profile: Profile, m: String, p: TokenRevoke)
    ensures
        tokens_revoke_argv(profile, m, p).take(11) == base_argv(profile) + seq!["tokens"@, "revoke"@] + seq!["--client-id"@, p.client_id@] + seq!["--merchant-id"@, m@] + seq!["--yes"@],
        tokens_revoke_argv(profile, m, p).len() == 11,
{
    let a0 = base_argv(profile);
    let a1 = a0 + seq!["tokens"@, "revoke"@];
    let a2 = a1 + seq!["--client-id"@, p.client_id@];
    let a3 = a2 + seq!["--merchant-id"@, m@];
    let a4 = a3 + seq!["--yes"@];
    assert(tokens_revoke_argv(profile, m, p) == a4);
    assert(tokens_revoke_argv(profile, m, p).take(11) == base_argv(profile) + seq!["tokens"@, "revoke"@] + seq!["--client-id"@, p.client_id@] + seq!["--merchant-id"@, m@] + seq!["--yes"@]) by {
        assert(a4.take(11) =~= a4);
    }
    assert(tokens_revoke_argv(profile, m, p).len() == 11) by {
        assert(a0.len() == 4);
        assert(a1.len() == a0.len() + 2);
        assert(a2.len() == a1.len() + 2);
        assert(a3.len() == a2.len() + 2);
        assert(a4.len() == a3.len() + 1);
    }
}

impl FluteServer {
    /// List ISV API tokens: for the given merchant id, else the pinned one, else without a merchant filter. Safe to retry.
    pub fn tokens_list(&self, p: TokensList) -> (res: ToolPlan)
        ensures
            runs(res, tokens_list_argv(self.config.profile, self.config.merchant_id, p)),
    {
        let TokensList { merchant_id } = p;
        let mut args = self.base_args();
        push_lit(&mut args, "tokens");
        push_lit(&mut args, "list");
        push_flag(&mut args, "--merchant-id", self.merchant_or_pinned(merchant_id));
        assert(args.deep_view() =~= tokens_list_argv(self.config.profile, self.config.merchant_id, p));
        ToolPlan::Run { args, on_empty: None }
    }

    /// Create an ISV API token. NOT idempotent; the merchant id is required.
    pub fn tokens_create(&self, p: TokenCreate) -> (res: ToolPlan)
        ensures
            guarded(self.config) ==> refuses(res, "tokens_create"@),
            !guarded(self.config) && merchant_for(p.merchant_id, self.config.merchant_id) is None ==> refuses_without_merchant(res),
            !guarded(self.config) ==> (merchant_for(p.merchant_id, self.config.merchant_id) matches Some(m) ==> runs(res, tokens_create_argv(self.config.profile, m, p))),
    {
        if let Some(e) = self.guard_write("tokens_create") {
            return ToolPlan::Refuse(e);
        }
        let TokenCreate { name, merchant_id } = p;
        let m = match self.merchant_id_for(merchant_id) {
            Ok(m) => m,
            Err(e) => return ToolPlan::Refuse(e),
        };
        let mut args = self.base_args();
        push_lit(&mut args, "tokens");
        push_lit(&mut args, "create");
        push_pair(&mut args, "--merchant-id", m);
        push_pair(&mut args, "--name", name);
        assert(args.deep_view() =~= tokens_create_argv(self.config.profile, m, p));
        ToolPlan::Run { args, on_empty: None }
    }

    /// Revoke an ISV API token; the merchant id is required.
    pub fn tokens_revoke(&self, p: TokenRevoke) -> (res: ToolPlan)
        ensures
            guarded(self.config) ==> refuses(res, "tokens_revoke"@),
            !guarded(self.config) && merchant_for(p.merchant_id, self.config.merchant_id) is None ==> refuses_without_merchant(res),
            !guarded(self.config) ==> (merchant_for(p.merchant_id, self.config.merchant_id) matches Some(m) ==> runs(res, tokens_revoke_argv(self.config.profile, m, p))),
    {
        if let Some(e) = self.guard_write("tokens_revoke") {
            return ToolPlan::Refuse(e);
        }
        let TokenRevoke { client_id, merchant_id } = p;
        let m = match self.merchant_id_for(merchant_id) {
            Ok(m) => m,
            Err(e) => return ToolPlan::Refuse(e),
        };
        let mut args = self.base_args();
        push_lit(&mut args, "tokens");
        push_lit(&mut args, "revoke");
        push_pair(&mut args, "--client-id", client_id);
        push_pair(&mut args, "--merchant-id", m);
        push_lit(&mut args, "--yes");
        assert(args.deep_view() =~= tokens_revoke_argv(self.config.profile, m, p));
        ToolPlan::Run { args, on_empty: None }
    }
}

} // verus!
