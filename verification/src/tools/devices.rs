//! Mobile payment device tools.
use vstd::prelude::*;

use crate::config::Profile;
use crate::server::{
    base_argv, flag, push_flag, push_lit, push_pair, push_word, runs, write_plan, FluteServer,
    ToolPlan,
};
use crate::server::{
    given, has_pair, lemma_flag_len, lemma_flag_pair, lemma_take_concat, lemma_has_pair_concat,
};
use crate::tools::{Empty, Id};

verus! {

/// Parameters of `devices_register`.
#[derive(Debug, Default)]
pub struct DeviceRegister {
    pub id: String,
    pub name: Option<String>,
}

/// Parameters of `devices_ttp_jwt`.
#[derive(Debug, Default)]
pub struct DeviceId {
    pub device_id: String,
}

/// The arguments `devices_list` runs the CLI with.
pub open spec fn devices_list_argv(profile: Profile, p: Empty) -> Seq<Seq<char>> {
    base_argv(profile)
        + seq!["devices"@, "list"@]
}

/// `devices_list_argv` passes each parameter under its own flag: the fixed words come
/// first, and every given field adds exactly its own `--flag value`, holding
/// that field's value whatever the other fields are; nothing else is added.
pub proof fn lemma_devices_list_argv_fields(profile: Profile, p: Empty)
    ensures
        devices_list_argv(profile, p).take(6) == base_argv(profile) + seq!["devices"@, "list"@],
        devices_list_argv(profile, p).len() == 6,
{
    let a0 = base_argv(profile);
    let a1 = a0 + seq!["devices"@, "list"@];
    assert(devices_list_argv(profile, p) == a1);
    assert(devices_list_argv(profile, p).take(6) == base_argv(profile) + seq!["devices"@, "list"@]) by {
        assert(a1.take(6) =~= a1);
    }
    assert(devices_list_argv(profile, p).len() == 6) by {
        assert(a0.len() == 4);
        assert(a1.len() == a0.len() + 2);
    }
}

/// The arguments `devices_get` runs the CLI with.
pub open spec fn devices_get_argv(profile: Profile, p: Id) -> Seq<Seq<char>> {
    base_argv(profile)
        + seq!["devices"@, "get"@, p.id@]
}

/// `devices_get_argv` passes each parameter under its own flag: the fixed words come
/// first, and every given field adds exactly its own `--flag value`, holding
/// that field's value whatever the other fields are; nothing else is added.
pub proof fn lemma_devices_get_argv_fields(profile: Profile, p: Id)
    ensures
        devices_get_argv(profile, p).take(7) == base_argv(profile) + seq!["devices"@, "get"@, p.id@],
        devices_get_argv(profile, p).len() == 7,
{
    let a0 = base_argv(profile);
    let a1 = a0 + seq!["devices"@, "get"@, p.id@];
    assert(devices_get_argv(profile, p) == a1);
    assert(devices_get_argv(profile, p).take(7) == base_argv(profile) + seq!["devices"@, "get"@, p.id@]) by {
        assert(a1.take(7) =~= a1);
    }
    assert(devices_get_argv(profile, p).len() == 7) by {
        assert(a0.len() == 4);
        assert(a1.len() == a0.len() + 3);
    }
}

/// The arguments `devices_ttp_jwt` runs the CLI with.
pub open spec fn devices_ttp_jwt_argv(profile: Profile, p: DeviceId) -> Seq<Seq<char>> {
    base_argv(profile)
        + seq!["devices"@, "ttp-jwt"@]
        + seq!["--device-id"@, p.device_id@]
}

/// `devices_ttp_jwt_argv` passes each parameter under its own flag: the fixed words come
/// first, and every given field adds exactly its own `--flag value`, holding
/// that field's value whatever the other fields are; nothing else is added.
pub proof fn lemma_devices_ttp_jwt_argv_fields(profile: Profile, p: DeviceId)
    ensures
        devices_ttp_jwt_argv(profile, p).take(8) == base_argv(profile) + seq!["devices"@, "ttp-jwt"@] + seq!["--device-id"@, p.device_id@],
        devices_ttp_jwt_argv(profile, p).len() == 8,
{
    let a0 = base_argv(profile);
    let a1 = a0 + seq!["devices"@, "ttp-jwt"@];
    let a2 = a1 + seq!["--device-id"@, p.device_id@];
    assert(devices_ttp_jwt_argv(profile, p) == a2);
    assert(devices_ttp_jwt_argv(profile, p).take(8) == base_argv(profile) + seq!["devices"@, "ttp-jwt"@] + seq!["--device-id"@, p.device_id@]) by {
        assert(a2.take(8) =~= a2);
    }
    assert(devices_ttp_jwt_argv(profile, p).len() == 8) by {
        assert(a0.len() == 4);
        assert(a1.len() == a0.len() + 2);
        assert(a2.len() == a1.len() + 2);
    }
}

/// The arguments `devices_register` runs the CLI with.
pub open spec fn devices_register_argv(profile: Profile, p: DeviceRegister) -> Seq<Seq<char>> {
    base_argv(profile)
        + seq!["devices"@, "register"@, p.id@]
        + flag("--name"@, p.name)
}

/// `devices_register_argv` passes each parameter under its own flag: the fixed words come
/// first, and every given field adds exactly its own `--flag value`, holding
/// that field's value whatever the other fields are; nothing else is added.
pub proof fn lemma_devices_register_argv_fields(profile: Profile, p: DeviceRegister)
    ensures
        devices_register_argv(profile, p).take(7) == base_argv(profile) + seq!["devices"@, "register"@, p.id@],
        devices_register_argv(profile, p).len() == 7 + 2 * given(p.name),
        p.name matches Some(v) ==> has_pair(devices_register_argv(profile, p), "--name"@, v@),
{
    let a0 = base_argv(profile);
    let a1 = a0 + seq!["devices"@, "register"@, p.id@];
    let a2 = a1 + flag("--name"@, p.name);
    assert(devices_register_argv(profile, p) == a2);
    assert(devices_register_argv(profile, p).take(7) == base_argv(profile) + seq!["devices"@, "register"@, p.id@]) by {
        lemma_take_concat(a1, flag("--name"@, p.name), 7);
        assert(a1.take(7) =~= a1);
    }
    assert(devices_register_argv(profile, p).len() == 7 + 2 * given(p.name)) by {
        assert(a0.len() == 4);
        assert(a1.len() == a0.len() + 3);
        lemma_flag_len("--name"@, p.name);
        assert(a2.len() == a1.len() + 2 * given(p.name));
    }
    assert(p.name matches Some(v) ==> has_pair(devices_register_argv(profile, p), "--name"@, v@)) by {
        match p.name {
        Some(v) => {
            lemma_flag_pair("--name"@, p.name);
            lemma_has_pair_concat(a1, flag("--name"@, p.name), "--name"@, v@);
        },
        None => {},
    }
    }
}

/// The arguments `devices_ttp_activate` runs the CLI with.
pub open spec fn devices_ttp_activate_argv(profile: Profile, p: Id) -> Seq<Seq<char>> {
    base_argv(profile)
        + seq!["devices"@, "ttp-activate"@, p.id@]
}

/// `devices_ttp_activate_argv` passes each parameter under its own flag: the fixed words come
/// first, and every given field adds exactly its own `--flag value`, holding
/// that field's value whatever the other fields are; nothing else is added.
pub proof fn lemma_devices_ttp_activate_argv_fields(profile: Profile, p: Id)
    ensures
        devices_ttp_activate_argv(profile, p).take(7) == base_argv(profile) + seq!["devices"@, "ttp-activate"@, p.id@],
        devices_ttp_activate_argv(profile, p).len() == 7,
{
    let a0 = base_argv(profile);
    let a1 = a0 + seq!["devices"@, "ttp-activate"@, p.id@];
    assert(devices_ttp_activate_argv(profile, p) == a1);
    assert(devices_ttp_activate_argv(profile, p).take(7) == base_argv(profile) + seq!["devices"@, "ttp-activate"@, p.id@]) by {
        assert(a1.take(7) =~= a1);
    }
    assert(devices_ttp_activate_argv(profile, p).len() == 7) by {
        assert(a0.len() == 4);
        assert(a1.len() == a0.len() + 3);
    }
}

impl FluteServer {
    /// List mobile payment devices. Safe to retry.
    pub fn devices_list(&self, p: Empty) -> (res: ToolPlan)
        ensures
            runs(res, devices_list_argv(self.config.profile, p)),
    {
        let mut args = self.base_args();
        push_lit(&mut args, "devices");
        push_lit(&mut args, "list");
        assert(args.deep_view() =~= devices_list_argv(self.config.profile, p));
        ToolPlan::Run { args, on_empty: None }
    }

    /// Get a device by id. Safe to retry.
    pub fn devices_get(&self, p: Id) -> (res: ToolPlan)
        ensures
            runs(res, devices_get_argv(self.config.profile, p)),
    {
        let Id { id } = p;
        let mut args = self.base_args();
        push_lit(&mut args, "devices");
        push_lit(&mut args, "get");
        push_word(&mut args, id);
        assert(args.deep_view() =~= devices_get_argv(self.config.profile, p));
        ToolPlan::Run { args, on_empty: None }
    }

    /// Mint a Tap-to-Pay JWT for a device. Idempotent read.
    pub fn devices_ttp_jwt(&self, p: DeviceId) -> (res: ToolPlan)
        ensures
            runs(res, devices_ttp_jwt_argv(self.config.profile, p)),
    {
        let DeviceId { device_id } = p;
        let mut args = self.base_args();
        push_lit(&mut args, "devices");
        push_lit(&mut args, "ttp-jwt");
        push_pair(&mut args, "--device-id", device_id);
        assert(args.deep_view() =~= devices_ttp_jwt_argv(self.config.profile, p));
        ToolPlan::Run { args, on_empty: None }
    }

    /// Register a device. NOT idempotent.
    pub fn devices_register(&self, p: DeviceRegister) -> (res: ToolPlan)
        ensures
            write_plan(self.config, res, "devices_register"@, devices_register_argv(self.config.profile, p)),
    {
        if let Some(e) = self.guard_write("devices_register") {
            return ToolPlan::Refuse(e);
        }
        let DeviceRegister { id, name } = p;
        let mut args = self.base_args();
        push_lit(&mut args, "devices");
        push_lit(&mut args, "register");
        push_word(&mut args, id);
        push_flag(&mut args, "--name", name);
        assert(args.deep_view() =~= devices_register_argv(self.config.profile, p));
        ToolPlan::Run { args, on_empty: None }
    }

    /// Activate Tap-to-Pay on a device. NOT idempotent.
    pub fn devices_ttp_activate(&self, p: Id) -> (res: ToolPlan)
        ensures
            write_plan(self.config, res, "devices_ttp_activate"@, devices_ttp_activate_argv(self.config.profile, p)),
    {
        if let Some(e) = self.guard_write("devices_ttp_activate") {
            return ToolPlan::Refuse(e);
        }
        let Id { id } = p;
        let mut args = self.base_args();
        push_lit(&mut args, "devices");
        push_lit(&mut args, "ttp-activate");
        push_word(&mut args, id);
        assert(args.deep_view() =~= devices_ttp_activate_argv(self.config.profile, p));
        ToolPlan::Run { args, on_empty: None }
    }
}

} // verus!
