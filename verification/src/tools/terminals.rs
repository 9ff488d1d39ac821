//! POS terminal tools.
use vstd::prelude::*;

use crate::config::Profile;
use crate::server::{base_argv, push_lit, push_word, runs, FluteServer, ToolPlan};
use crate::tools::{Empty, Id};

verus! {

/// The arguments `terminals_list` runs the CLI with.
pub open spec fn terminals_list_argv(profile: Profile, p: Empty) -> Seq<Seq<char>> {
    base_argv(profile)
        + seq!["terminals"@, "list"@]
}

/// `terminals_list_argv` passes each parameter under its own flag: the fixed words come
/// first, and every given field adds exactly its own `--flag value`, holding
/// that field's value whatever the other fields are; nothing else is added.
pub proof fn lemma_terminals_list_argv_fields(profile: Profile, p: Empty)
    ensures
        terminals_list_argv(profile, p).take(6) == base_argv(profile) + seq!["terminals"@, "list"@],
        terminals_list_argv(profile, p).len() == 6,
{
    let a0 = base_argv(profile);
    let a1 = a0 + seq!["terminals"@, "list"@];
    assert(terminals_list_argv(profile, p) == a1);
    assert(terminals_list_argv(profile, p).take(6) == base_argv(profile) + seq!["terminals"@, "list"@]) by {
        assert(a1.take(6) =~= a1);
    }
    assert(terminals_list_argv(profile, p).len() == 6) by {
        assert(a0.len() == 4);
        assert(a1.len() == a0.len() + 2);
    }
}

/// The arguments `terminals_status` runs the CLI with.
pub open spec fn terminals_status_argv(profile: Profile, p: Id) -> Seq<Seq<char>> {
    base_argv(profile)
        + seq!["terminals"@, "status"@, p.id@]
}

/// `terminals_status_argv` passes each parameter under its own flag: the fixed words come
/// first, and every given field adds exactly its own `--flag value`, holding
/// that field's value whatever the other fields are; nothing else is added.
pub proof fn lemma_terminals_status_argv_fields(profile: Profile, p: Id)
    ensures
        terminals_status_argv(profile, p).take(7) == base_argv(profile) + seq!["terminals"@, "status"@, p.id@],
        terminals_status_argv(profile, p).len() == 7,
{
    let a0 = base_argv(profile);
    let a1 = a0 + seq!["terminals"@, "status"@, p.id@];
    assert(terminals_status_argv(profile, p) == a1);
    assert(terminals_status_argv(profile, p).take(7) == base_argv(profile) + seq!["terminals"@, "status"@, p.id@]) by {
        assert(a1.take(7) =~= a1);
    }
    assert(terminals_status_argv(profile, p).len() == 7) by {
        assert(a0.len() == 4);
        assert(a1.len() == a0.len() + 3);
    }
}

impl FluteServer {
    /// List POS terminals. Safe to retry.
    pub fn terminals_list(&self, p: Empty) -> (res: ToolPlan)
        ensures
            runs(res, terminals_list_argv(self.config.profile, p)),
    {
        let mut args = self.base_args();
        push_lit(&mut args, "terminals");
        push_lit(&mut args, "list");
        assert(args.deep_view() =~= terminals_list_argv(self.config.profile, p));
        ToolPlan::Run { args, on_empty: None }
    }

    /// Get a terminal's status by id. Safe to retry.
    pub fn terminals_status(&self, p: Id) -> (res: ToolPlan)
        ensures
            runs(res, terminals_status_argv(self.config.profile, p)),
    {
        let Id { id } = p;
        let mut args = self.base_args();
        push_lit(&mut args, "terminals");
        push_lit(&mut args, "status");
        push_word(&mut args, id);
        assert(args.deep_view() =~= terminals_status_argv(self.config.profile, p));
        ToolPlan::Run { args, on_empty: None }
    }
}

} // verus!
