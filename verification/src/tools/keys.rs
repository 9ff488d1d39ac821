//! ISV API key tools (`flute keys ...`).
use vstd::prelude::*;

use crate::config::{profile_str, Profile};
use crate::json::{json_get, member_lookup, Json, JsonV};
use crate::server::{
    base_argv, flag, guarded, merchant_for, push_flag, push_lit, push_pair, refuses,
    refuses_without_merchant, runs, runs_with_ack, FluteServer, ToolPlan,
};
use crate::server::{has_pair, lemma_flag_pair, lemma_take_concat, lemma_has_pair_concat};
use crate::tools::{ack_envelope, ack_envelope_view, json_object};

verus! {

/// Parameters of `keys_list`.
#[derive(Debug, Default)]
pub struct KeysList {
    /// Overrides the pinned merchant id; optional for list.
    pub merchant_id: Option<String>,
}

/// Parameters of `keys_create`.
#[derive(Debug, Default)]
pub struct KeyCreate {
    pub name: String,
    /// Overrides the pinned merchant id; required here or pinned.
    pub merchant_id: Option<String>,
}

/// Parameters of `keys_revoke`.
#[derive(Debug, Default)]
pub struct KeyRevoke {
    pub client_id: String,
    pub merchant_id: Option<String>,
}

/// The arguments `keys_list` runs the CLI with.
pub open spec fn keys_list_argv(profile: Profile, pinned: Option<String>, p: KeysList) -> Seq<Seq<char>> {
    base_argv(profile)
        + seq!["keys"@, "list"@]
        + flag("--merchant-id"@, merchant_for(p.merchant_id, pinned))
}

/// `keys_list_argv` passes each parameter under its own flag: the fixed words come
/// first, and every given field adds exactly its own `--flag value`, holding
/// that field's value whatever the other fields are; nothing else is added.
pub proof fn lemma_keys_list_argv_fields(profile: Profile, pinned: Option<String>, p: KeysList)
    ensures
        keys_list_argv(profile, pinned, p).take(6) == base_argv(profile) + seq!["keys"@, "list"@],
        p.merchant_id is None && pinned is None ==> keys_list_argv(profile, pinned, p).len() == 6,
        p.merchant_id matches Some(m) ==> (m@.len() > 0 ==> has_pair(keys_list_argv(profile, pinned, p), "--merchant-id"@, m@)),
        p.merchant_id is None ==> (pinned matches Some(q) ==> has_pair(keys_list_argv(profile, pinned, p), "--merchant-id"@, q@)),
        p.merchant_id matches Some(m) ==> (m@.len() == 0 ==> (pinned matches Some(q) ==> has_pair(keys_list_argv(profile, pinned, p), "--merchant-id"@, q@))),
{
    let a0 = base_argv(profile);
    let a1 = a0 + seq!["keys"@, "list"@];
    let a2 = a1 + flag("--merchant-id"@, merchant_for(p.merchant_id, pinned));
    assert(keys_list_argv(profile, pinned, p) == a2);
    assert(keys_list_argv(profile, pinned, p).take(6) == base_argv(profile) + seq!["keys"@, "list"@]) by {
        lemma_take_concat(a1, flag("--merchant-id"@, merchant_for(p.merchant_id, pinned)), 6);
        assert(a1.take(6) =~= a1);
    }
    assert(p.merchant_id matches Some(m) ==> (m@.len() > 0 ==> has_pair(keys_list_argv(profile, pinned, p), "--merchant-id"@, m@))) by {
        match merchant_for(p.merchant_id, pinned) {
        Some(v) => {
            lemma_flag_pair("--merchant-id"@, merchant_for(p.merchant_id, pinned));
            lemma_has_pair_concat(a1, flag("--merchant-id"@, merchant_for(p.merchant_id, pinned)), "--merchant-id"@, v@);
        },
        None => {},
    }
    }
    assert(p.merchant_id is None ==> (pinned matches Some(q) ==> has_pair(keys_list_argv(profile, pinned, p), "--merchant-id"@, q@))) by {
        match merchant_for(p.merchant_id, pinned) {
        Some(v) => {
            lemma_flag_pair("--merchant-id"@, merchant_for(p.merchant_id, pinned));
            lemma_has_pair_concat(a1, flag("--merchant-id"@, merchant_for(p.merchant_id, pinned)), "--merchant-id"@, v@);
        },
        None => {},
    }
    }
    assert(p.merchant_id matches Some(m) ==> (m@.len() == 0 ==> (pinned matches Some(q) ==> has_pair(keys_list_argv(profile, pinned, p), "--merchant-id"@, q@)))) by {
        match merchant_for(p.merchant_id, pinned) {
        Some(v) => {
            lemma_flag_pair("--merchant-id"@, merchant_for(p.merchant_id, pinned));
            lemma_has_pair_concat(a1, flag("--merchant-id"@, merchant_for(p.merchant_id, pinned)), "--merchant-id"@, v@);
        },
        None => {},
    }
    }
}

/// The arguments `keys_create` runs the CLI with.
pub open spec fn keys_create_argv(profile: Profile, m: String, p: KeyCreate) -> Seq<Seq<char>> {
    base_argv(profile)
        + seq!["keys"@, "create"@]
        + seq!["--merchant-id"@, m@]
        + seq!["--name"@, p.name@]
}

/// `keys_create_argv` passes each parameter under its own flag: the fixed words come
/// first, and every given field adds exactly its own `--flag value`, holding
/// that field's value whatever the other fields are; nothing else is added.
pub proof fn lemma_keys_create_argv_fields(profile: Profile, m: String, p: KeyCreate)
    ensures
        keys_create_argv(profile, m, p).take(10) == base_argv(profile) + seq!["keys"@, "create"@] + seq!["--merchant-id"@, m@] + seq!["--name"@, p.name@],
        keys_create_argv(profile, m, p).len() == 10,
{
    let a0 = base_argv(profile);
    let a1 = a0 + seq!["keys"@, "create"@];
    let a2 = a1 + seq!["--merchant-id"@, m@];
    let a3 = a2 + seq!["--name"@, p.name@];
    assert(keys_create_argv(profile, m, p) == a3);
    assert(keys_create_argv(profile, m, p).take(10) == base_argv(profile) + seq!["keys"@, "create"@] + seq!["--merchant-id"@, m@] + seq!["--name"@, p.name@]) by {
        assert(a3.take(10) =~= a3);
    }
    assert(keys_create_argv(profile, m, p).len() == 10) by {
        assert(a0.len() == 4);
        assert(a1.len() == a0.len() + 2);
        assert(a2.len() == a1.len() + 2);
        assert(a3.len() == a2.len() + 2);
    }
}

/// The arguments `keys_revoke` runs the CLI with.
pub open spec fn keys_revoke_argv(profile: Profile, m: String, p: KeyRevoke) -> Seq<Seq<char>> {
    base_argv(profile)
        + seq!["keys"@, "revoke"@]
        + seq!["--client-id"@, p.client_id@]
        + seq!["--merchant-id"@, m@]
        + seq!["--yes"@]
}

/// The envelope `keys_revoke` answers an empty success with.
pub open spec fn keys_revoke_ack(profile: Profile, p: KeyRevoke) -> JsonV {
    ack_envelope_view("api_token_revoked"@, JsonV::Object(seq![("client_id"@, JsonV::Str(p.client_id@)), ("revoked"@, JsonV::Bool(true))]), profile_str(profile))
}

/// An empty success of `keys_revoke` is acknowledged with an `api_token_revoked` envelope whose
/// data describe what was done to the given resource and whose environment is
/// the pinned profile.
pub proof fn lemma_keys_revoke_ack_fields(profile: Profile, p: KeyRevoke)
    ensures
        json_get(keys_revoke_ack(profile, p), "object"@) == Some(JsonV::Str("api_token_revoked"@)),
        json_get(keys_revoke_ack(profile, p), "meta"@) matches Some(mt) && json_get(mt, "environment"@) == Some(JsonV::Str(profile_str(profile))),
        json_get(keys_revoke_ack(profile, p), "data"@) matches Some(d) && json_get(d, "client_id"@) == Some(JsonV::Str(p.client_id@)),
        json_get(keys_revoke_ack(profile, p), "data"@) matches Some(d) && json_get(d, "revoked"@) == Some(JsonV::Bool(true)),
{
    reveal_strlit("object");
    reveal_strlit("data");
    reveal_strlit("meta");
    reveal_strlit("environment");
    reveal_strlit("client_id");
    reveal_strlit("revoked");
    reveal_with_fuel(member_lookup, 4);
    assert("object"@.len() == 6);
    assert("data"@.len() == 4);
    assert("meta"@.len() == 4);
    assert("environment"@.len() == 11);
    assert("client_id"@.len() == 9);
    assert("revoked"@.len() == 7);
    assert("data"@[0] == 'd');
    assert("meta"@[0] == 'm');
    let d = JsonV::Object(seq![("client_id"@, JsonV::Str(p.client_id@)), ("revoked"@, JsonV::Bool(true))]);
    let mt = JsonV::Object(seq![("environment"@, JsonV::Str(profile_str(profile)))]);
    assert(json_get(keys_revoke_ack(profile, p), "data"@) == Some(d));
    assert(json_get(keys_revoke_ack(profile, p), "meta"@) == Some(mt));
    assert(json_get(mt, "environment"@) == Some(JsonV::Str(profile_str(profile))));
    assert(json_get(d, "client_id"@) == Some(JsonV::Str(p.client_id@)));
    assert(json_get(d, "revoked"@) == Some(JsonV::Bool(true)));
}

/// `keys_revoke_argv` passes each parameter under its own flag: the fixed words come
/// first, and every given field adds exactly its own `--flag value`, holding
/// that field's value whatever the other fields are; nothing else is added.
pub proof fn lemma_keys_revoke_argv_fields(profile: Profile, m: String, p: KeyRevoke)
    ensures
        keys_revoke_argv(profile, m, p).take(11) == base_argv(profile) + seq!["keys"@, "revoke"@] + seq!["--client-id"@, p.client_id@] + seq!["--merchant-id"@, m@] + seq!["--yes"@],
        keys_revoke_argv(profile, m, p).len() == 11,
{
    let a0 = base_argv(profile);
    let a1 = a0 + seq!["keys"@, "revoke"@];
    let a2 = a1 + seq!["--client-id"@, p.client_id@];
    let a3 = a2 + seq!["--merchant-id"@, m@];
    let a4 = a3 + seq!["--yes"@];
    assert(keys_revoke_argv(profile, m, p) == a4);
    assert(keys_revoke_argv(profile, m, p).take(11) == base_argv(profile) + seq!["keys"@, "revoke"@] + seq!["--client-id"@, p.client_id@] + seq!["--merchant-id"@, m@] + seq!["--yes"@]) by {
        assert(a4.take(11) =~= a4);
    }
    assert(keys_revoke_argv(profile, m, p).len() == 11) by {
        assert(a0.len() == 4);
        assert(a1.len() == a0.len() + 2);
        assert(a2.len() == a1.len() + 2);
        assert(a3.len() == a2.len() + 2);
        assert(a4.len() == a3.len() + 1);
    }
}

impl FluteServer {
    /// List ISV API keys: for the given merchant id, else the pinned one, else without a merchant filter. Safe to retry.
    pub fn keys_list(&self, p: KeysList) -> (res: ToolPlan)
        ensures
            runs(res, keys_list_argv(self.config.profile, self.config.merchant_id, p)),
    {
        let KeysList { merchant_id } = p;
        let mut args = self.base_args();
        push_lit(&mut args, "keys");
        push_lit(&mut args, "list");
        push_flag(&mut args, "--merchant-id", self.merchant_or_pinned(merchant_id));
        assert(args.deep_view() =~= keys_list_argv(self.config.profile, self.config.merchant_id, p));
        ToolPlan::Run { args, on_empty: None }
    }

    /// Create an ISV API key. NOT idempotent; the merchant id is required.
    pub fn keys_create(&self, p: KeyCreate) -> (res: ToolPlan)
        ensures
            guarded(self.config) ==> refuses(res, "keys_create"@),
            !guarded(self.config) && merchant_for(p.merchant_id, self.config.merchant_id) is None ==> refuses_without_merchant(res),
            !guarded(self.config) ==> (merchant_for(p.merchant_id, self.config.merchant_id) matches Some(m) ==> runs(res, keys_create_argv(self.config.profile, m, p))),
    {
        if let Some(e) = self.guard_write("keys_create") {
            return ToolPlan::Refuse(e);
        }
        let KeyCreate { name, merchant_id } = p;
        let m = match self.merchant_id_for(merchant_id) {
            Ok(m) => m,
            Err(e) => return ToolPlan::Refuse(e),
        };
        let mut args = self.base_args();
        push_lit(&mut args, "keys");
        push_lit(&mut args, "create");
        push_pair(&mut args, "--merchant-id", m);
        push_pair(&mut args, "--name", name);
        assert(args.deep_view() =~= keys_create_argv(self.config.profile, m, p));
        ToolPlan::Run { args, on_empty: None }
    }

    /// Revoke an ISV API key; the merchant id is required. An empty success is answered with an `api_token_revoked` envelope.
    pub fn keys_revoke(&self, p: KeyRevoke) -> (res: ToolPlan)
        ensures
            guarded(self.config) ==> refuses(res, "keys_revoke"@),
            !guarded(self.config) && merchant_for(p.merchant_id, self.config.merchant_id) is None ==> refuses_without_merchant(res),
            !guarded(self.config) ==> (merchant_for(p.merchant_id, self.config.merchant_id) matches Some(m) ==> runs_with_ack(res, keys_revoke_argv(self.config.profile, m, p), keys_revoke_ack(self.config.profile, p))),
    {
        if let Some(e) = self.guard_write("keys_revoke") {
            return ToolPlan::Refuse(e);
        }
        let KeyRevoke { client_id, merchant_id } = p;
        let m = match self.merchant_id_for(merchant_id) {
            Ok(m) => m,
            Err(e) => return ToolPlan::Refuse(e),
        };
        let client_id_copy = client_id.clone();
        let mut args = self.base_args();
        push_lit(&mut args, "keys");
        push_lit(&mut args, "revoke");
        push_pair(&mut args, "--client-id", client_id);
        push_pair(&mut args, "--merchant-id", m);
        push_lit(&mut args, "--yes");
        assert(args.deep_view() =~= keys_revoke_argv(self.config.profile, m, p));
        let mut data: Vec<(String, Json)> = Vec::new();
        data.push((String::from_str("client_id"), Json::Str(client_id_copy)));
        data.push((String::from_str("revoked"), Json::Bool(true)));
        let data = json_object(data);
        proof {
            assert(data@->Object_0 =~= seq![("client_id"@, JsonV::Str(p.client_id@)), ("revoked"@, JsonV::Bool(true))]);
        }
        let ack = ack_envelope("api_token_revoked", data, self.config.profile.as_cli_str());
        ToolPlan::Run { args, on_empty: Some(ack) }
    }
}

} // verus!
