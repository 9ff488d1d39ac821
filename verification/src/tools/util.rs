//! Health, version and authentication-status tools.
use vstd::prelude::*;

use crate::config::{profile_str, Profile};
use crate::json::{json_get, member_lookup, Json, JsonV};
use crate::server::{base_argv, push_lit, runs, FluteServer, ToolPlan};
use crate::tools::{json_object, Empty};
use crate::error::FluteError;
use crate::json::{as_bool, as_str, get, json_bool, json_str, json_text, members_view};
use crate::tools::{error_payload, flute_err_to_result, ToolResult};

verus! {

/// The value of `key` in the `data` object of the CLI's `auth status` answer.
pub open spec fn auth_field(v: JsonV, key: Seq<char>) -> Option<JsonV> {
    match json_get(v, "data"@) {
        Some(d) => json_get(d, key),
        None => None,
    }
}

/// Whether the answer reports working credentials: the live `authenticated`
/// flag, or the legacy `has_credentials` flag of an older CLI when the first
/// is absent; false when the one present is not a boolean.
pub open spec fn auth_authenticated(v: JsonV) -> bool {
    let f = match auth_field(v, "authenticated"@) {
        Some(x) => Some(x),
        None => auth_field(v, "has_credentials"@),
    };
    match f {
        Some(x) => match json_bool(x) {
            Some(b) => b,
            None => false,
        },
        None => false,
    }
}

/// The member `key` of the report: present only when the answer carries a
/// string for it.
pub open spec fn forwarded_text(v: JsonV, key: Seq<char>) -> Seq<(Seq<char>, JsonV)> {
    match auth_field(v, key) {
        Some(x) => match json_str(x) {
            Some(s) => seq![(key, JsonV::Str(s))],
            None => seq![],
        },
        None => seq![],
    }
}

/// The `auth_status` report: `authenticated` and the pinned `profile`, plus
/// `api_base_url`, `client_id` and `merchant_id` when the CLI reported them as
/// strings. Nothing else of the answer is passed on.
pub open spec fn auth_report(profile: Profile, v: JsonV) -> JsonV {
    JsonV::Object(
        seq![
            ("authenticated"@, JsonV::Bool(auth_authenticated(v))),
            ("profile"@, JsonV::Str(profile_str(profile))),
        ] + forwarded_text(v, "api_base_url"@) + forwarded_text(v, "client_id"@) + forwarded_text(
            v,
            "merchant_id"@,
        ),
    )
}

/// The `auth_status` report states the pinned profile; its `authenticated` is
/// the CLI's live `authenticated` flag, an older CLI's `has_credentials` only
/// when `authenticated` is absent, and false when the flag found is not a
/// boolean or there is none; `api_base_url`, `client_id` and `merchant_id`
/// are passed on exactly when the CLI reported them as strings.
pub proof fn lemma_auth_report_values(profile: Profile, v: JsonV)
    ensures
        json_get(auth_report(profile, v), "profile"@) == Some(JsonV::Str(profile_str(profile))),
        auth_field(v, "authenticated"@) matches Some(JsonV::Bool(b)) ==> json_get(
            auth_report(profile, v),
            "authenticated"@,
        ) == Some(JsonV::Bool(b)),
        auth_field(v, "authenticated"@) matches Some(x) ==> (!(x is Bool) ==> json_get(
            auth_report(profile, v),
            "authenticated"@,
        ) == Some(JsonV::Bool(false))),
        auth_field(v, "authenticated"@) is None ==> (auth_field(v, "has_credentials"@) matches Some(
            JsonV::Bool(b),
        ) ==> json_get(auth_report(profile, v), "authenticated"@) == Some(JsonV::Bool(b))),
        auth_field(v, "authenticated"@) is None ==> (auth_field(v, "has_credentials"@) is None
            ==> json_get(auth_report(profile, v), "authenticated"@) == Some(JsonV::Bool(false))),
        auth_field(v, "api_base_url"@) matches Some(JsonV::Str(s)) ==> json_get(
            auth_report(profile, v),
            "api_base_url"@,
        ) == Some(JsonV::Str(s)),
        auth_field(v, "client_id"@) matches Some(JsonV::Str(s)) ==> json_get(
            auth_report(profile, v),
            "client_id"@,
        ) == Some(JsonV::Str(s)),
        auth_field(v, "merchant_id"@) matches Some(JsonV::Str(s)) ==> json_get(
            auth_report(profile, v),
            "merchant_id"@,
        ) == Some(JsonV::Str(s)),
        !(auth_field(v, "client_id"@) matches Some(JsonV::Str(_))) ==> json_get(
            auth_report(profile, v),
            "client_id"@,
        ) is None,
{
    reveal_strlit("authenticated");
    reveal_strlit("profile");
    reveal_strlit("api_base_url");
    reveal_strlit("client_id");
    reveal_strlit("merchant_id");
    assert("authenticated"@.len() == 13);
    assert("profile"@.len() == 7);
    assert("api_base_url"@.len() == 12);
    assert("client_id"@.len() == 9);
    assert("merchant_id"@.len() == 11);
    reveal_with_fuel(member_lookup, 6);
    let f1 = forwarded_text(v, "api_base_url"@);
    let f2 = forwarded_text(v, "client_id"@);
    let f3 = forwarded_text(v, "merchant_id"@);
    let m = auth_report(profile, v)->Object_0;
    assert(m.drop_first().drop_first() =~= f1 + f2 + f3);
}

/// The members an `auth_status` report may carry.
pub open spec fn auth_report_key(k: Seq<char>) -> bool {
    k == "authenticated"@ || k == "profile"@ || k == "api_base_url"@ || k == "client_id"@ || k
        == "merchant_id"@
}

/// An `auth_status` report carries `authenticated` and `profile`, and besides
/// them at most `api_base_url`, `client_id` and `merchant_id`, each a string
/// the CLI reported under that name: whatever else the CLI printed, a secret
/// among it, is never passed on.
pub proof fn lemma_auth_report_keys(profile: Profile, v: JsonV)
    ensures
        auth_report(profile, v) matches JsonV::Object(m) && 2 <= m.len() <= 5 && forall|i: int|
            0 <= i < m.len() ==> #[trigger] auth_report_key(m[i].0),
        forall|i: int|
            2 <= i < auth_report(profile, v)->Object_0.len() ==> auth_field(
                v,
                #[trigger] auth_report(profile, v)->Object_0[i].0,
            ) == Some(auth_report(profile, v)->Object_0[i].1),
{
    let f1 = forwarded_text(v, "api_base_url"@);
    let f2 = forwarded_text(v, "client_id"@);
    let f3 = forwarded_text(v, "merchant_id"@);
    let head = seq![
        ("authenticated"@, JsonV::Bool(auth_authenticated(v))),
        ("profile"@, JsonV::Str(profile_str(profile))),
    ];
    let m = auth_report(profile, v)->Object_0;
    assert(m == head + f1 + f2 + f3);
    assert forall|i: int| 0 <= i < m.len() implies #[trigger] auth_report_key(m[i].0) && (2 <= i
        ==> auth_field(v, m[i].0) == Some(m[i].1)) by {
        if i < 2 {
        } else if i < 2 + f1.len() {
            assert(m[i] == f1[i - 2]);
        } else if i < 2 + f1.len() + f2.len() {
            assert(m[i] == f2[i - 2 - f1.len()]);
        } else {
            assert(m[i] == f3[i - 2 - f1.len() - f2.len()]);
        }
    }
}

fn push_forwarded(out: &mut Vec<(String, Json)>, data: Option<&Json>, key: &str, Ghost(v): Ghost<JsonV>)
    requires
        data matches Some(d) ==> json_get(v, "data"@) == Some(d@),
        data is None ==> json_get(v, "data"@) is None,
    ensures
        final(out)@.len() == old(out)@.len() + forwarded_text(v, key@).len(),
        forall|i: int| 0 <= i < old(out)@.len() ==> #[trigger] final(out)@[i] == old(out)@[i],
        forall|i: int|
            0 <= i < forwarded_text(v, key@).len() ==> (final(out)@[old(out)@.len() + i].0@,
            final(out)@[old(out)@.len() + i].1@) == #[trigger] forwarded_text(v, key@)[i],
{
    if let Some(d) = data {
        if let Some(x) = get(d, key) {
            if let Some(s) = as_str(x) {
                out.push((String::from_str(key), Json::Str(s.clone())));
            }
        }
    }
}

/// The arguments `ping` runs the CLI with.
pub open spec fn ping_argv(profile: Profile, p: Empty) -> Seq<Seq<char>> {
    base_argv(profile)
        + seq!["ping"@]
}

/// `ping_argv` passes each parameter under its own flag: the fixed words come
/// first, and every given field adds exactly its own `--flag value`, holding
/// that field's value whatever the other fields are; nothing else is added.
pub proof fn lemma_ping_argv_fields(profile: Profile, p: Empty)
    ensures
        ping_argv(profile, p).take(5) == base_argv(profile) + seq!["ping"@],
        ping_argv(profile, p).len() == 5,
{
    let a0 = base_argv(profile);
    let a1 = a0 + seq!["ping"@];
    assert(ping_argv(profile, p) == a1);
    assert(ping_argv(profile, p).take(5) == base_argv(profile) + seq!["ping"@]) by {
        assert(a1.take(5) =~= a1);
    }
    assert(ping_argv(profile, p).len() == 5) by {
        assert(a0.len() == 4);
        assert(a1.len() == a0.len() + 1);
    }
}

/// The arguments `version` runs the CLI with.
pub open spec fn version_argv(profile: Profile, p: Empty) -> Seq<Seq<char>> {
    base_argv(profile)
        + seq!["version"@]
}

/// `version_argv` passes each parameter under its own flag: the fixed words come
/// first, and every given field adds exactly its own `--flag value`, holding
/// that field's value whatever the other fields are; nothing else is added.
pub proof fn lemma_version_argv_fields(profile: Profile, p: Empty)
    ensures
        version_argv(profile, p).take(5) == base_argv(profile) + seq!["version"@],
        version_argv(profile, p).len() == 5,
{
    let a0 = base_argv(profile);
    let a1 = a0 + seq!["version"@];
    assert(version_argv(profile, p) == a1);
    assert(version_argv(profile, p).take(5) == base_argv(profile) + seq!["version"@]) by {
        assert(a1.take(5) =~= a1);
    }
    assert(version_argv(profile, p).len() == 5) by {
        assert(a0.len() == 4);
        assert(a1.len() == a0.len() + 1);
    }
}

/// The arguments `auth_status` runs the CLI with.
pub open spec fn auth_status_argv(profile: Profile, p: Empty) -> Seq<Seq<char>> {
    base_argv(profile)
        + seq!["auth"@, "status"@]
}

/// `auth_status_argv` passes each parameter under its own flag: the fixed words come
/// first, and every given field adds exactly its own `--flag value`, holding
/// that field's value whatever the other fields are; nothing else is added.
pub proof fn lemma_auth_status_argv_fields(profile: Profile, p: Empty)
    ensures
        auth_status_argv(profile, p).take(6) == base_argv(profile) + seq!["auth"@, "status"@],
        auth_status_argv(profile, p).len() == 6,
{
    let a0 = base_argv(profile);
    let a1 = a0 + seq!["auth"@, "status"@];
    assert(auth_status_argv(profile, p) == a1);
    assert(auth_status_argv(profile, p).take(6) == base_argv(profile) + seq!["auth"@, "status"@]) by {
        assert(a1.take(6) =~= a1);
    }
    assert(auth_status_argv(profile, p).len() == 6) by {
        assert(a0.len() == 4);
        assert(a1.len() == a0.len() + 2);
    }
}

impl FluteServer {
    /// The `auth_status` answer built from what `flute auth status` printed.
    pub fn auth_status_report(&self, v: &Json) -> (res: Json)
        ensures
            res@ == auth_report(self.config.profile, v@),
    {
        let data = get(v, "data");
        let flag_value = match data {
            Some(d) => match get(d, "authenticated") {
                Some(x) => Some(x),
                None => get(d, "has_credentials"),
            },
            None => None,
        };
        let authenticated = match flag_value {
            Some(x) => match as_bool(x) {
                Some(b) => b,
                None => false,
            },
            None => false,
        };
        let mut out: Vec<(String, Json)> = Vec::new();
        out.push((String::from_str("authenticated"), Json::Bool(authenticated)));
        out.push((String::from_str("profile"), json_text(self.config.profile.as_cli_str())));
        let ghost head = out@;
        push_forwarded(&mut out, data, "api_base_url", Ghost(v@));
        let ghost a = out@;
        push_forwarded(&mut out, data, "client_id", Ghost(v@));
        let ghost b = out@;
        push_forwarded(&mut out, data, "merchant_id", Ghost(v@));
        let res = json_object(out);
        proof {
            let expected = auth_report(self.config.profile, v@)->Object_0;
            assert(members_view(out@).len() == expected.len());
            assert forall|i: int| 0 <= i < expected.len() implies members_view(out@)[i]
                == expected[i] by {
                let f1 = forwarded_text(v@, "api_base_url"@);
                let f2 = forwarded_text(v@, "client_id"@);
                if i >= 2 + f1.len() + f2.len() {
                    assert(out@[i] == out@[b.len() + (i - b.len())]);
                } else if i >= 2 + f1.len() {
                    assert(out@[i] == b[i]);
                    assert(b[i] == b[a.len() + (i - a.len())]);
                } else if i >= 2 {
                    assert(out@[i] == b[i]);
                    assert(b[i] == a[i]);
                    assert(a[i] == a[head.len() + (i - head.len())]);
                } else {
                    assert(out@[i] == b[i]);
                    assert(b[i] == a[i]);
                    assert(a[i] == head[i]);
                }
            }
            assert(members_view(out@) =~= expected);
        }
        res
    }

    /// The answer to `auth_status` once the CLI call is over: the report on
    /// success, the error payload on failure.
    pub fn finish_auth_status(&self, outcome: Result<Json, FluteError>) -> (res: ToolResult)
        ensures
            outcome matches Ok(v) ==> res.is_error == Some(false) && res.content@ == auth_report(
                self.config.profile,
                v@,
            ),
            outcome matches Err(e) ==> res.is_error == Some(true) && res.content@ == error_payload(e),
    {
        match outcome {
            Ok(v) => ToolResult { is_error: Some(false), content: self.auth_status_report(&v) },
            Err(e) => flute_err_to_result(e),
        }
    }

    /// API health check. Pure read; safe to retry.
    pub fn ping(&self, p: Empty) -> (res: ToolPlan)
        ensures
            runs(res, ping_argv(self.config.profile, p)),
    {
        let mut args = self.base_args();
        push_lit(&mut args, "ping");
        assert(args.deep_view() =~= ping_argv(self.config.profile, p));
        ToolPlan::Run { args, on_empty: None }
    }

    /// The CLI version and active profile. Safe to retry.
    pub fn version(&self, p: Empty) -> (res: ToolPlan)
        ensures
            runs(res, version_argv(self.config.profile, p)),
    {
        let mut args = self.base_args();
        push_lit(&mut args, "version");
        assert(args.deep_view() =~= version_argv(self.config.profile, p));
        ToolPlan::Run { args, on_empty: None }
    }

    /// Live authentication check for the active profile. Safe to retry.
    pub fn auth_status(&self, p: Empty) -> (res: ToolPlan)
        ensures
            runs(res, auth_status_argv(self.config.profile, p)),
    {
        let mut args = self.base_args();
        push_lit(&mut args, "auth");
        push_lit(&mut args, "status");
        assert(args.deep_view() =~= auth_status_argv(self.config.profile, p));
        ToolPlan::Run { args, on_empty: None }
    }
}

} // verus!
