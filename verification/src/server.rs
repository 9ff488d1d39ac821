//! The server's decisions: the arguments every tool starts from, the
//! production write guard, the merchant id the key tools use, and how a
//! finished CLI call is answered.
use vstd::prelude::*;

use crate::config::{
    config_from_env, is_truthy, non_empty, profile_from, profile_str, BinaryProbe, Config, EnvVars,
    Profile,
};
use crate::error::FluteError;
use crate::json::{Json, JsonV};
use crate::text::{decimal, push_decimal};
use crate::tools::{error_payload, flute_err_to_result, ToolResult};

verus! {

/// The arguments every call starts with: the pinned profile and JSON output.
pub open spec fn base_argv(p: Profile) -> Seq<Seq<char>> {
    seq!["--profile"@, profile_str(p), "--output"@, "json"@]
}

/// Every call pins the configured profile and asks for JSON output: the
/// arguments start with `--profile <name> --output json`, where the sandbox
/// is named `sandbox` and production `production`.
pub proof fn lemma_base_argv(p: Profile)
    ensures
        base_argv(p).len() == 4,
        base_argv(p)[0] == "--profile"@,
        base_argv(p)[1] == profile_str(p),
        base_argv(p)[2] == "--output"@,
        base_argv(p)[3] == "json"@,
        p == Profile::Sandbox ==> profile_str(p) == "sandbox"@,
        p == Profile::Production ==> profile_str(p) == "production"@,
{
}

/// `--name value` when a value is given, nothing otherwise.
pub open spec fn flag(name: Seq<char>, value: Option<String>) -> Seq<Seq<char>> {
    match value {
        Some(v) => seq![name, v@],
        None => seq![],
    }
}

/// `--name n` in decimal when a number is given, nothing otherwise.
pub open spec fn num_flag(name: Seq<char>, value: Option<u32>) -> Seq<Seq<char>> {
    match value {
        Some(n) => seq![name, decimal(n as nat)],
        None => seq![],
    }
}

/// `--name` alone when the switch is explicitly on, nothing otherwise.
pub open spec fn switch(name: Seq<char>, on: Option<bool>) -> Seq<Seq<char>> {
    if on == Some(true) {
        seq![name]
    } else {
        seq![]
    }
}

/// Somewhere in `argv` the word `name` is immediately followed by `value`.
#[verifier::opaque]
pub open spec fn has_pair(argv: Seq<Seq<char>>, name: Seq<char>, value: Seq<char>) -> bool {
    exists|i: int|
        #![trigger argv[i]]
        0 <= i && i + 1 < argv.len() && argv[i] == name && argv[i + 1] == value
}

/// The word `w` occurs in `argv`.
#[verifier::opaque]
pub open spec fn has_word(argv: Seq<Seq<char>>, w: Seq<char>) -> bool {
    exists|i: int| #![trigger argv[i]] 0 <= i < argv.len() && argv[i] == w
}

/// 1 when an optional parameter was given, 0 otherwise.
pub open spec fn given<T>(o: Option<T>) -> nat {
    match o {
        Some(_) => 1,
        None => 0,
    }
}

/// A pair found in either part of a concatenation is found in the whole.
pub broadcast proof fn lemma_has_pair_concat(
    x: Seq<Seq<char>>,
    y: Seq<Seq<char>>,
    name: Seq<char>,
    value: Seq<char>,
)
    ensures
        has_pair(x, name, value) || has_pair(y, name, value) ==> #[trigger] has_pair(
            x + y,
            name,
            value,
        ),
{
    reveal(has_pair);
    if has_pair(x, name, value) {
        let i = choose|i: int|
            #![trigger x[i]]
            0 <= i && i + 1 < x.len() && x[i] == name && x[i + 1] == value;
        assert((x + y)[i] == x[i]);
        assert((x + y)[i + 1] == x[i + 1]);
    } else if has_pair(y, name, value) {
        let i = choose|i: int|
            #![trigger y[i]]
            0 <= i && i + 1 < y.len() && y[i] == name && y[i + 1] == value;
        assert((x + y)[x.len() + i] == y[i]);
        assert((x + y)[x.len() + i + 1] == y[i + 1]);
    }
}

/// A word found in either part of a concatenation is found in the whole.
pub broadcast proof fn lemma_has_word_concat(x: Seq<Seq<char>>, y: Seq<Seq<char>>, w: Seq<char>)
    ensures
        has_word(x, w) || has_word(y, w) ==> #[trigger] has_word(x + y, w),
{
    reveal(has_word);
    if has_word(x, w) {
        let i = choose|i: int| #![trigger x[i]] 0 <= i < x.len() && x[i] == w;
        assert((x + y)[i] == x[i]);
    } else if has_word(y, w) {
        let i = choose|i: int| #![trigger y[i]] 0 <= i < y.len() && y[i] == w;
        assert((x + y)[x.len() + i] == y[i]);
    }
}

/// A flag takes two words when its value is given and none otherwise.
pub proof fn lemma_flag_len(name: Seq<char>, value: Option<String>)
    ensures
        flag(name, value).len() == 2 * given(value),
{
}

/// A numeric flag takes two words when its number is given and none otherwise.
pub proof fn lemma_num_flag_len(name: Seq<char>, value: Option<u32>)
    ensures
        num_flag(name, value).len() == 2 * given(value),
{
}

/// A switch takes one word when it is on and none otherwise.
pub proof fn lemma_switch_len(name: Seq<char>, on: Option<bool>)
    ensures
        switch(name, on).len() == (if on == Some(true) { 1int } else { 0int }),
{
}

/// Appending leaves the first `k` words of a sequence as they were.
pub proof fn lemma_take_concat(x: Seq<Seq<char>>, y: Seq<Seq<char>>, k: int)
    requires
        0 <= k <= x.len(),
    ensures
        (x + y).take(k) == x.take(k),
{
    assert((x + y).take(k) =~= x.take(k));
}

/// Each word of `argv` occurs in it.
pub proof fn lemma_has_word_at(argv: Seq<Seq<char>>, i: int)
    requires
        0 <= i < argv.len(),
    ensures
        has_word(argv, argv[i]),
{
    reveal(has_word);
}

/// The two words `name value` hold the pair.
pub proof fn lemma_has_pair_two(name: Seq<char>, value: Seq<char>)
    ensures
        has_pair(seq![name, value], name, value),
{
    reveal(has_pair);
    assert(seq![name, value][0] == name);
    assert(seq![name, value][1] == value);
}

/// The flag of a given optional value holds the pair `name value`.
pub broadcast proof fn lemma_flag_pair(name: Seq<char>, value: Option<String>)
    ensures
        value matches Some(v) ==> has_pair(#[trigger] flag(name, value), name, v@),
{
    if let Some(v) = value {
        lemma_has_pair_two(name, v@);
    }
}

/// The flag of a given number holds the pair `name n` with `n` in decimal.
pub broadcast proof fn lemma_num_flag_pair(name: Seq<char>, value: Option<u32>)
    ensures
        value matches Some(n) ==> has_pair(#[trigger] num_flag(name, value), name, decimal(n as nat)),
{
    if let Some(n) = value {
        lemma_has_pair_two(name, decimal(n as nat));
    }
}

/// An explicitly set switch holds its word.
pub broadcast proof fn lemma_switch_word(name: Seq<char>, on: Option<bool>)
    ensures
        on == Some(true) ==> has_word(#[trigger] switch(name, on), name),
{
    reveal(has_word);
    if on == Some(true) {
        assert(switch(name, on)[0] == name);
    }
}

/// Appends one word.
pub fn push_word(args: &mut Vec<String>, w: String)
    ensures
        final(args).deep_view() == old(args).deep_view().push(w@),
{
    args.push(w);
    assert(args.deep_view() =~= old(args).deep_view().push(w@));
}

/// Appends one literal word.
pub fn push_lit(args: &mut Vec<String>, w: &str)
    ensures
        final(args).deep_view() == old(args).deep_view().push(w@),
{
    push_word(args, String::from_str(w));
}

/// Appends `name value`.
pub fn push_pair(args: &mut Vec<String>, name: &str, value: String)
    ensures
        final(args).deep_view() == old(args).deep_view() + seq![name@, value@],
{
    push_lit(args, name);
    push_word(args, value);
    assert(args.deep_view() =~= old(args).deep_view() + seq![name@, value@]);
}

/// Appends `name n`, with `n` in decimal.
pub fn push_num(args: &mut Vec<String>, name: &str, n: u32)
    ensures
        final(args).deep_view() == old(args).deep_view() + seq![name@, decimal(n as nat)],
{
    let mut s = String::new();
    push_decimal(&mut s, n as u64);
    assert(s@ =~= decimal(n as nat));
    push_pair(args, name, s);
}

/// Appends `name value` when a value is given.
pub fn push_flag(args: &mut Vec<String>, name: &str, value: Option<String>)
    ensures
        final(args).deep_view() == old(args).deep_view() + flag(name@, value),
{
    match value {
        Some(v) => push_pair(args, name, v),
        None => {
            assert(args.deep_view() =~= old(args).deep_view() + flag(name@, value));
        },
    }
}

/// Appends `name n` when a number is given.
pub fn push_num_flag(args: &mut Vec<String>, name: &str, value: Option<u32>)
    ensures
        final(args).deep_view() == old(args).deep_view() + num_flag(name@, value),
{
    match value {
        Some(n) => push_num(args, name, n),
        None => {
            assert(args.deep_view() =~= old(args).deep_view() + num_flag(name@, value));
        },
    }
}

/// Appends `name` when the switch is explicitly on.
pub fn push_switch(args: &mut Vec<String>, name: &str, on: Option<bool>)
    ensures
        final(args).deep_view() == old(args).deep_view() + switch(name@, on),
{
    if on == Some(true) {
        push_lit(args, name);
        assert(args.deep_view() =~= old(args).deep_view() + switch(name@, on));
    } else {
        assert(args.deep_view() =~= old(args).deep_view() + switch(name@, on));
    }
}

/// What a tool does: run the CLI with `args` (answering with `on_empty` when
/// the command succeeds with an empty body), or refuse without running it.
#[derive(Debug)]
pub enum ToolPlan {
    Run { args: Vec<String>, on_empty: Option<Json> },
    Refuse(FluteError),
}

/// The plan runs the CLI with exactly `argv`, forwarding whatever it answers.
pub open spec fn runs(plan: ToolPlan, argv: Seq<Seq<char>>) -> bool {
    plan matches ToolPlan::Run { args, on_empty } && args.deep_view() == argv && on_empty is None
}

/// The plan runs the CLI with exactly `argv`, answering an empty success with `ack`.
pub open spec fn runs_with_ack(plan: ToolPlan, argv: Seq<Seq<char>>, ack: JsonV) -> bool {
    plan matches ToolPlan::Run { args, on_empty } && args.deep_view() == argv && (on_empty matches Some(
        j,
    ) && j@ == ack)
}

/// A production instance refuses writes unless they were explicitly allowed.
pub open spec fn guarded(c: Config) -> bool {
    c.profile == Profile::Production && !c.allow_prod_writes
}

/// The message a refused write is answered with.
pub open spec fn refusal_text(tool: Seq<char>) -> Seq<char> {
    "refusing "@ + tool
        + " on production profile; set FLUTE_MCP_ALLOW_PROD_WRITES=1 to enable writes"@
}

/// What a plan's description promises: a plan that runs `argv` runs the CLI
/// with exactly those words (answering an empty success with `ack` when it
/// has one), and a write planned on a guarded instance is refused without
/// running anything, with a message naming the tool, while on any other
/// instance it runs exactly its arguments.
pub proof fn lemma_plan_shapes(
    c: Config,
    plan: ToolPlan,
    tool: Seq<char>,
    argv: Seq<Seq<char>>,
    ack: JsonV,
)
    ensures
        runs(plan, argv) ==> plan is Run,
        (runs(plan, argv) ==> (plan matches ToolPlan::Run { args, on_empty } ==> args.deep_view()
            == argv && on_empty is None)),
        runs_with_ack(plan, argv, ack) ==> plan is Run,
        (runs_with_ack(plan, argv, ack) ==> (plan matches ToolPlan::Run { args, on_empty } ==> (
        args.deep_view() == argv && on_empty is Some && on_empty->0@ == ack))),
        refuses(plan, tool) ==> plan is Refuse,
        (refuses(plan, tool) ==> (plan matches ToolPlan::Refuse(e) ==> (e is Client
            && e->Client_message@.take(9) == "refusing "@ && e->Client_message@.subrange(
            9,
            9 + tool.len() as int,
        ) == tool))),
        write_plan(c, plan, tool, argv) && guarded(c) ==> refuses(plan, tool),
        write_plan(c, plan, tool, argv) && !guarded(c) ==> runs(plan, argv),
{
    reveal_strlit("refusing ");
    if refuses(plan, tool) {
        let m = refusal_text(tool);
        assert(m.take(9) =~= "refusing "@);
        assert(m.subrange(9, 9 + tool.len() as int) =~= tool);
    }
}

/// The write guard of a configured instance is up exactly when its profile
/// is production and `FLUTE_MCP_ALLOW_PROD_WRITES` is not truthy: only
/// `1`/`true`/`yes`/`on` lift it, and a sandbox instance never has it.
pub proof fn lemma_guard_from_env(env: EnvVars, probe: BinaryProbe)
    requires
        config_from_env(env, probe) is Ok,
    ensures
        guarded(config_from_env(env, probe)->Ok_0) <==> (profile_from(env.profile) == Some(
            Profile::Production,
        ) && !is_truthy(env.allow_prod_writes)),
{
}

/// The plan refuses the write `tool` with a `client` error.
pub open spec fn refuses(plan: ToolPlan, tool: Seq<char>) -> bool {
    plan matches ToolPlan::Refuse(FluteError::Client { message }) && message@ == refusal_text(tool)
}

/// A refused write is answered, without running the CLI, with the flat
/// `{kind: "client", message}` error payload naming the tool.
pub proof fn lemma_refusal_answer(plan: ToolPlan, tool: Seq<char>)
    requires
        refuses(plan, tool),
    ensures
        plan matches ToolPlan::Refuse(e) && error_payload(e) == JsonV::Object(
            seq![("kind"@, JsonV::Str("client"@)), ("message"@, JsonV::Str(refusal_text(tool)))],
        ),
{
}

/// A write tool refuses on a guarded instance and otherwise runs `argv`.
pub open spec fn write_plan(c: Config, plan: ToolPlan, tool: Seq<char>, argv: Seq<Seq<char>>) -> bool {
    if guarded(c) {
        refuses(plan, tool)
    } else {
        runs(plan, argv)
    }
}

/// The merchant id a key tool uses: the per-call one when given and not
/// empty, else the pinned one.
pub open spec fn merchant_for(override_id: Option<String>, pinned: Option<String>) -> Option<String> {
    match non_empty(override_id) {
        Some(m) => Some(m),
        None => pinned,
    }
}

/// A key tool uses the per-call merchant id when it is given and not empty,
/// whatever is pinned, and the pinned one otherwise.
pub proof fn lemma_merchant_for(override_id: Option<String>, pinned: Option<String>)
    ensures
        override_id matches Some(m) ==> (m@.len() > 0 ==> merchant_for(override_id, pinned) == Some(
            m,
        )),
        override_id matches Some(m) ==> (m@.len() == 0 ==> merchant_for(override_id, pinned)
            == pinned),
        override_id is None ==> merchant_for(override_id, pinned) == pinned,
{
}

/// `n` when given, otherwise `default`.
pub open spec fn unwrap_or_u32(n: Option<u32>, default: u32) -> u32 {
    match n {
        Some(v) => v,
        None => default,
    }
}

/// The text of `s` when given, otherwise `default`.
pub open spec fn text_or(s: Option<String>, default: Seq<char>) -> Seq<char> {
    match s {
        Some(v) => v@,
        None => default,
    }
}

/// The plan refuses a key tool call for want of a merchant id.
pub open spec fn refuses_without_merchant(plan: ToolPlan) -> bool {
    plan matches ToolPlan::Refuse(FluteError::Client { message }) && message@
        == merchant_required_text()
}

/// The message of the error a key tool answers with when no merchant id is known.
pub open spec fn merchant_required_text() -> Seq<char> {
    "merchant_id required: pass `merchant_id` or set FLUTE_MERCHANT_ID"@
}

/// The server's decision-making half: it holds the pinned configuration and
/// plans every tool call.
#[derive(Debug)]
pub struct FluteServer {
    pub config: Config,
}

impl FluteServer {
    /// A server pinned to `config`.
    pub fn new(config: Config) -> (res: Self)
        ensures
            res.config == config,
    {
        FluteServer { config }
    }

    /// The arguments every call starts with.
    pub fn base_args(&self) -> (res: Vec<String>)
        ensures
            res.deep_view() == base_argv(self.config.profile),
    {
        let mut args: Vec<String> = Vec::new();
        push_lit(&mut args, "--profile");
        push_lit(&mut args, self.config.profile.as_cli_str());
        push_lit(&mut args, "--output");
        push_lit(&mut args, "json");
        assert(args.deep_view() =~= base_argv(self.config.profile));
        args
    }

    /// The error a write must be refused with on a guarded production
    /// instance; `None` when the write may proceed.
    pub fn guard_write(&self, tool: &str) -> (res: Option<FluteError>)
        ensures
            guarded(self.config) ==> (res matches Some(FluteError::Client { message })
                && message@ == refusal_text(tool@)),
            !guarded(self.config) ==> res is None,
    {
        if self.config.profile == Profile::Production && !self.config.allow_prod_writes {
            let mut m = String::from_str("refusing ");
            m.append(tool);
            m.append(" on production profile; set FLUTE_MCP_ALLOW_PROD_WRITES=1 to enable writes");
            Some(FluteError::Client { message: m })
        } else {
            None
        }
    }

    /// The plan of a write tool: refused on a guarded instance, otherwise run.
    pub fn plan_write(&self, tool: &str, args: Vec<String>) -> (res: ToolPlan)
        ensures
            write_plan(self.config, res, tool@, args.deep_view()),
    {
        match self.guard_write(tool) {
            Some(e) => ToolPlan::Refuse(e),
            None => ToolPlan::Run { args, on_empty: None },
        }
    }

    /// The per-call merchant id when given and not empty, else the pinned one.
    pub fn merchant_or_pinned(&self, override_id: Option<String>) -> (res: Option<String>)
        ensures
            res == merchant_for(override_id, self.config.merchant_id),
    {
        match override_id {
            Some(m) if !m.as_str().is_empty() => Some(m),
            _ => match &self.config.merchant_id {
                Some(m) => Some(m.clone()),
                None => None,
            },
        }
    }

    /// The merchant id a key tool uses: the per-call override when given and
    /// not empty, else the pinned `FLUTE_MERCHANT_ID`, else a `client` error.
    pub fn merchant_id_for(&self, override_id: Option<String>) -> (res: Result<String, FluteError>)
        ensures
            merchant_for(override_id, self.config.merchant_id) matches Some(m) ==> res == Ok::<
                String,
                FluteError,
            >(m),
            merchant_for(override_id, self.config.merchant_id) is None ==> (res matches Err(
                FluteError::Client { message },
            ) && message@ == merchant_required_text()),
    {
        match self.merchant_or_pinned(override_id) {
            Some(m) => Ok(m),
            None => Err(
                    FluteError::Client {
                        message: String::from_str(
                            "merchant_id required: pass `merchant_id` or set FLUTE_MERCHANT_ID",
                        ),
                    },
                ),
        }
    }
}

/// How a tool answers once the CLI call is over: it forwards what the CLI
/// printed (`None` for an empty body), or answers with a result of its own.
#[derive(Debug)]
pub enum Reply<V> {
    Forward(Option<V>),
    Answer(ToolResult),
}

/// The answer to a finished call: an error becomes its error payload; an
/// empty success becomes `on_empty` when the tool has one; anything else is
/// forwarded unchanged.
pub fn finish<V>(outcome: Result<Option<V>, FluteError>, on_empty: Option<Json>) -> (res: Reply<V>)
    ensures
        outcome matches Err(e) ==> (res matches Reply::Answer(r) && r.is_error == Some(true)
            && r.content@ == error_payload(e)),
        outcome matches Ok(None) ==> match on_empty {
            Some(ack) => (res matches Reply::Answer(r) && r.is_error == Some(false) && r.content
                == ack),
            None => res matches Reply::Forward(None),
        },
        outcome matches Ok(Some(v)) ==> res == Reply::Forward(Some(v)),
{
    match outcome {
        Err(e) => Reply::Answer(flute_err_to_result(e)),
        Ok(None) => match on_empty {
            Some(ack) => Reply::Answer(ToolResult { is_error: Some(false), content: ack }),
            None => Reply::Forward(None),
        },
        Ok(Some(v)) => Reply::Forward(Some(v)),
    }
}

} // verus!
