use vstd::prelude::*;

use crate::config::{
    bootstrap_command_setting, digit_value, digits_value, is_digit, port_value, resolve_auth_override, resolve_bootstrap_command, StackEnv,
    StackStartup,
};
use crate::error::StackError;
use crate::workspace::{resolve_workspace_root, workspace_root_of, DirProbe};

verus! {

pub open spec fn digit_char(d: nat) -> char {
    seq!['0', '1', '2', '3', '4', '5', '6', '7', '8', '9'][d as int]
}

/// Decimal digits of `n`, without sign or leading zeros.
pub open spec fn decimal_text(n: nat) -> Seq<char>
    decreases n,
{
    if n < 10 {
        seq![digit_char(n)]
    } else {
        decimal_text(n / 10).push(digit_char(n % 10))
    }
}

proof fn lemma_decimal_text_digits(n: nat)
    ensures
        decimal_text(n).len() > 0,
        forall|i: int| 0 <= i < decimal_text(n).len() ==> is_digit(#[trigger] decimal_text(n)[i]),
        digits_value(decimal_text(n)) == n,
    decreases n,
{
    let digits = seq!['0', '1', '2', '3', '4', '5', '6', '7', '8', '9'];
    assert(forall|d: int| 0 <= d < 10 ==> is_digit(#[trigger] digits[d]) && digit_value(digits[d]) == d);
    if n >= 10 {
        lemma_decimal_text_digits(n / 10);
        let t = decimal_text(n);
        assert(t.drop_last() =~= decimal_text(n / 10));
        assert(digit_value(t.last()) == n % 10);
        assert((n / 10) * 10 + n % 10 == n);
        assert(digits_value(t) == digits_value(t.drop_last()) * 10 + digit_value(t.last()));
        assert(digits_value(t.drop_last()) == n / 10);
    } else {
        assert(decimal_text(n).drop_last() =~= Seq::<char>::empty());
        assert(digit_value(decimal_text(n).last()) == n);
        assert(digits_value(Seq::<char>::empty()) == 0);
        assert(digits_value(decimal_text(n)) == digits_value(decimal_text(n).drop_last()) * 10
            + digit_value(decimal_text(n).last()));
    }
}

/// The port written into `PORT` for the started process reads back as the
/// same port under the rules by which port variables are read.
pub proof fn lemma_port_text_round_trip(port: u16)
    ensures
        port_value(decimal_text(port as nat)) == Some(port),
{
    lemma_decimal_text_digits(port as nat);
    let t = decimal_text(port as nat);
    assert(is_digit(t[0]));
}

/// Relies on `u16`'s `Display` through `ToString`: the plain decimal digits.
#[verifier::external_body]
fn port_text(port: u16) -> (r: String)
    ensures
        r@ == decimal_text(port as nat),
{
    port.to_string()
}

/// How to start the bootstrap process. Standard input is closed, standard
/// output and error are inherited.
pub struct SpawnPlan {
    pub program: String,
    pub args: Vec<String>,
    pub current_dir: String,
    /// Variables added to the inherited environment, in order.
    pub env: Vec<(String, String)>,
}

pub open spec fn texts(v: Seq<String>) -> Seq<Seq<char>> {
    v.map_values(|s: String| s@)
}

pub open spec fn pair_texts(v: Seq<(String, String)>) -> Seq<(Seq<char>, Seq<char>)> {
    v.map_values(|p: (String, String)| (p.0@, p.1@))
}

/// The variables given to the bootstrap process: `PORT`, `HOST`, and the
/// authentication override only when it is set.
pub open spec fn spawn_env(startup: StackStartup, env: StackEnv) -> Seq<(Seq<char>, Seq<char>)> {
    let base = seq![("PORT"@, decimal_text(startup.server_port as nat)), ("HOST"@, startup.host@)];
    match env.disable_auth {
        Some(a) => base.push(("BAO_DISABLE_AUTH"@, a@)),
        None => base,
    }
}

pub open spec fn is_plan_for(
    plan: SpawnPlan,
    root: Seq<char>,
    startup: StackStartup,
    env: StackEnv,
) -> bool {
    &&& plan.program@ == bootstrap_command_setting(env)
    &&& texts(plan.args@) == seq!["run"@, "dev"@]
    &&& plan.current_dir@ == root
    &&& pair_texts(plan.env@) == spawn_env(startup, env)
}

/// The plan that runs the dev target of the workspace at `root`.
pub fn bootstrap_plan(root: String, startup: &StackStartup, env: &StackEnv) -> (r: SpawnPlan)
    ensures
        is_plan_for(r, root@, *startup, *env),
{
    let args = vec!["run".to_owned(), "dev".to_owned()];
    let mut vars: Vec<(String, String)> = Vec::new();
    vars.push(("PORT".to_owned(), port_text(startup.server_port)));
    vars.push(("HOST".to_owned(), startup.host.clone()));
    if let Some(a) = resolve_auth_override(env) {
        vars.push(("BAO_DISABLE_AUTH".to_owned(), a));
    }
    let r = SpawnPlan {
        program: resolve_bootstrap_command(env),
        args,
        current_dir: root,
        env: vars,
    };
    assert(texts(r.args@) =~= seq!["run"@, "dev"@]);
    assert(pair_texts(r.env@) =~= spawn_env(*startup, *env));
    r
}

/// Decides whether the stack must be started. With both services ready,
/// nothing is started; else the workspace root is found and the bootstrap
/// process is planned there.
pub fn ensure_stack_running(
    services_ready: bool,
    startup: &StackStartup,
    env: &StackEnv,
    ancestors: &Vec<DirProbe>,
    cwd: &Option<DirProbe>,
) -> (r: Result<Option<SpawnPlan>, StackError>)
    ensures
        services_ready ==> r is Ok && r->Ok_0 is None,
        !services_ready ==> match workspace_root_of(env.workspace_root, ancestors@, *cwd) {
            Some(root) => r is Ok && r->Ok_0 is Some && is_plan_for(
                r->Ok_0->Some_0,
                root,
                *startup,
                *env,
            ),
            None => r is Err && r->Err_0 is WorkspaceNotFound,
        },
{
    if services_ready {
        return Ok(None);
    }
    match resolve_workspace_root(&env.workspace_root, ancestors, cwd) {
        Ok(root) => Ok(Some(bootstrap_plan(root, startup, env))),
        Err(e) => Err(e),
    }
}

} // verus!
