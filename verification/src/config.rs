//! Client configuration: how the app-server child is launched, which
//! compatibility guard applies, initialize capabilities and hooks.
use vstd::prelude::*;
use crate::compat::CompatibilityGuard;
use crate::hooks::{HookRef, RuntimeHookConfig};
use crate::json::{JsonValue, spec_get, spec_as_text};

verus! {

/// Capability switches sent with `initialize`.
#[derive(Clone, Copy, Debug, PartialEq, Eq, Structural)]
pub struct InitializeCapabilities {
    pub experimental_api: bool,
}

impl InitializeCapabilities {
    pub fn new() -> (r: Self)
        ensures
            !r.experimental_api,
    {
        InitializeCapabilities { experimental_api: false }
    }

    pub fn enable_experimental_api(self) -> (r: Self)
        ensures
            r.experimental_api,
    {
        InitializeCapabilities { experimental_api: true }
    }
}

impl Default for InitializeCapabilities {
    fn default() -> (r: Self)
        ensures
            !r.experimental_api,
    {
        InitializeCapabilities::new()
    }
}

/// Parameters of `initialize`: the client's name and version, and the
/// capability switches.
pub open spec fn initialize_wire(caps: InitializeCapabilities, v: JsonValue) -> bool {
    &&& spec_get(v, "clientInfo"@) matches Some(info) && spec_as_text(spec_get(info, "name"@)) == Some(
        "codexus"@,
    ) && spec_as_text(spec_get(info, "version"@)) == Some("1.0.0"@)
    &&& spec_get(v, "capabilities"@) matches Some(c) && spec_get(c, "experimentalApi"@) == Some(
        JsonValue::Bool(caps.experimental_api),
    )
}

pub fn initialize_params(caps: &InitializeCapabilities) -> (r: JsonValue)
    ensures
        initialize_wire(*caps, r),
{
    proof {
        reveal_strlit("clientInfo");
        reveal_strlit("capabilities");
        reveal_strlit("name");
        reveal_strlit("version");
        assert("clientInfo"@.len() == 10 && "capabilities"@.len() == 12);
        assert("name"@.len() == 4 && "version"@.len() == 7);
    }
    let info = JsonValue::object().with("name", JsonValue::text("codexus")).with("version", JsonValue::text("1.0.0"));
    let capabilities = JsonValue::object().with("experimentalApi", JsonValue::Bool(caps.experimental_api));
    JsonValue::object().with("clientInfo", info).with("capabilities", capabilities)
}

/// Value of variable `k` in an environment override list.
pub open spec fn env_get(env: Seq<(String, String)>, k: Seq<char>) -> Option<Seq<char>>
    decreases env.len(),
{
    if env.len() == 0 {
        None
    } else if env.last().0@ == k {
        Some(env.last().1@)
    } else {
        env_get(env.drop_last(), k)
    }
}

/// No variable occurs twice.
pub open spec fn env_unique(env: Seq<(String, String)>) -> bool {
    forall|i: int, j: int| 0 <= i < j < env.len() ==> env[i].0@ != env[j].0@
}

#[derive(Debug)]
pub struct ClientConfig {
    pub cli_bin: String,
    pub process_env: Vec<(String, String)>,
    pub process_cwd: Option<String>,
    pub app_server_args: Vec<String>,
    pub compatibility_guard: CompatibilityGuard,
    pub initialize_capabilities: InitializeCapabilities,
    pub hooks: RuntimeHookConfig,
}

proof fn lemma_env_get_set_last(env: Seq<(String, String)>, i: int, key: String, value: String)
    requires
        0 <= i < env.len(),
        env[i].0@ == key@,
        forall|j: int| i < j < env.len() ==> #[trigger] env[j].0@ != key@,
    ensures
        env_unique(env) ==> env_unique(env.update(i, (key, value))),
        env_get(env.update(i, (key, value)), key@) == Some(value@),
        forall|k: Seq<char>| k != key@ ==> env_get(env.update(i, (key, value)), k) == env_get(env, k),
    decreases env.len(),
{
    let u = env.update(i, (key, value));
    if env_unique(env) {
        assert forall|a: int, b: int| 0 <= a < b < u.len() implies u[a].0@ != u[b].0@ by {
            assert(env[a].0@ != env[b].0@);
        }
    }
    if i == env.len() - 1 {
        assert(u.drop_last() == env.drop_last());
        assert forall|k: Seq<char>| k != key@ implies env_get(u, k) == env_get(env, k) by {
            assert(u.last() == (key, value));
            assert(env.last() == env[i]);
            assert(env_get(u, k) == env_get(u.drop_last(), k));
            assert(env_get(env, k) == env_get(env.drop_last(), k));
        }
    } else {
        let d = env.drop_last();
        assert forall|j: int| i < j < d.len() implies #[trigger] d[j].0@ != key@ by {
            assert(d[j] == env[j]);
        }
        lemma_env_get_set_last(d, i, key, value);
        assert(u.drop_last() == d.update(i, (key, value)));
        assert(u.last() == env.last());
        assert(env.last().0@ != key@) by {
            assert(env[env.len() - 1].0@ != key@);
        }
        assert forall|k: Seq<char>| k != key@ implies env_get(u, k) == env_get(env, k) by {
            if u.last().0@ != k {
                assert(env_get(u, k) == env_get(u.drop_last(), k));
                assert(env_get(env, k) == env_get(env.drop_last(), k));
                assert(env_get(u.drop_last(), k) == env_get(env.drop_last(), k));
            }
        }
    }
}

proof fn lemma_env_get_absent(env: Seq<(String, String)>, k: Seq<char>)
    requires
        forall|j: int| 0 <= j < env.len() ==> env[j].0@ != k,
    ensures
        env_get(env, k) is None,
    decreases env.len(),
{
    if env.len() > 0 {
        lemma_env_get_absent(env.drop_last(), k);
    }
}

/// Set one variable: the last entry of that name takes the new value, or
/// the variable is added. Lookups go by the last entry of a name.
pub fn env_insert(env: &mut Vec<(String, String)>, key: String, value: String)
    ensures
        env_unique(old(env)@) ==> env_unique(final(env)@),
        env_get(final(env)@, key@) == Some(value@),
        forall|k: Seq<char>| k != key@ ==> env_get(final(env)@, k) == env_get(old(env)@, k),
{
    let mut i: usize = env.len();
    while i > 0
        invariant
            i <= env@.len(),
            env@ == old(env)@,
            forall|j: int| i <= j < env@.len() ==> #[trigger] env@[j].0@ != key@,
        decreases i,
    {
        if env[i - 1].0 == key {
            proof {
                lemma_env_get_set_last(env@, i - 1, key, value);
            }
            env.set(i - 1, (key, value));
            return;
        }
        i -= 1;
    }
    let ghost before = env@;
    env.push((key, value));
    proof {
        assert(env@.drop_last() == before);
        lemma_env_get_absent(before, key@);
        if env_unique(before) {
            assert forall|a: int, b: int| 0 <= a < b < env@.len() implies env@[a].0@ != env@[b].0@ by {
                if b == env@.len() - 1 {
                    assert(before[a].0@ != key@);
                } else {
                    assert(before[a].0@ != before[b].0@);
                }
            }
        }
    }
}

impl ClientConfig {
    /// Launch `codex` with no overrides, the default guard and capabilities,
    /// and no hooks.
    pub fn new() -> (r: Self)
        ensures
            r.cli_bin@ == "codex"@,
            r.process_env@.len() == 0,
            r.process_cwd is None,
            r.app_server_args@.len() == 0,
            r.compatibility_guard.require_initialize_user_agent,
            r.compatibility_guard.min_codex_version == Some(
                crate::compat::SemVerTriplet { major: 0, minor: 104, patch: 0 },
            ),
            !r.initialize_capabilities.experimental_api,
            crate::hooks::config_empty(r.hooks),
    {
        ClientConfig {
            cli_bin: "codex".to_owned(),
            process_env: Vec::new(),
            process_cwd: None,
            app_server_args: Vec::new(),
            compatibility_guard: CompatibilityGuard::default(),
            initialize_capabilities: InitializeCapabilities::new(),
            hooks: RuntimeHookConfig::new(),
        }
    }

    pub fn with_cli_bin(self, cli_bin: String) -> (r: Self)
        ensures
            r == (ClientConfig { cli_bin, ..self }),
    {
        ClientConfig { cli_bin, ..self }
    }

    /// Replace the environment overrides; of two entries for one variable the
    /// later wins.
    pub fn with_process_envs(self, process_env: Vec<(String, String)>) -> (r: Self)
        ensures
            env_unique(r.process_env@),
            forall|k: Seq<char>| env_get(r.process_env@, k) == env_get(process_env@, k),
            r == (ClientConfig { process_env: r.process_env, ..self }),
    {
        let mut env: Vec<(String, String)> = Vec::new();
        let ghost all = process_env@;
        let mut rest = process_env;
        let mut i: usize = 0;
        assert(all.len() == rest.len());
        while rest.len() > 0
            invariant
                i <= all.len(),
                all.len() <= usize::MAX,
                rest@ == all.skip(i as int),
                env_unique(env@),
                forall|k: Seq<char>| env_get(env@, k) == env_get(all.take(i as int), k),
            decreases rest.len(),
        {
            let (key, value) = rest.remove(0);
            proof {
                assert(all[i as int] == (key, value));
                assert(all.take(i + 1).drop_last() == all.take(i as int));
                assert(all.take(i + 1).last() == all[i as int]);
                assert(rest@ == all.skip(i + 1));
            }
            env_insert(&mut env, key, value);
            i += 1;
        }
        proof {
            assert(all.take(i as int) == all);
        }
        ClientConfig { process_env: env, ..self }
    }

    /// Set one environment override; lookups go by the last entry of a
    /// name, as the process launch applies them in order.
    pub fn with_process_env(self, key: String, value: String) -> (r: Self)
        ensures
            env_unique(self.process_env@) ==> env_unique(r.process_env@),
            env_get(r.process_env@, key@) == Some(value@),
            forall|k: Seq<char>| k != key@ ==> env_get(r.process_env@, k) == env_get(self.process_env@, k),
            r == (ClientConfig { process_env: r.process_env, ..self }),
    {
        let mut s = self;
        env_insert(&mut s.process_env, key, value);
        s
    }

    pub fn with_process_cwd(self, process_cwd: String) -> (r: Self)
        ensures
            r == (ClientConfig { process_cwd: Some(process_cwd), ..self }),
    {
        ClientConfig { process_cwd: Some(process_cwd), ..self }
    }

    pub fn with_app_server_args(self, args: Vec<String>) -> (r: Self)
        ensures
            r == (ClientConfig { app_server_args: args, ..self }),
    {
        ClientConfig { app_server_args: args, ..self }
    }

    pub fn with_app_server_arg(self, arg: String) -> (r: Self)
        ensures
            r.app_server_args@ == self.app_server_args@.push(arg),
            r == (ClientConfig { app_server_args: r.app_server_args, ..self }),
    {
        let mut s = self;
        s.app_server_args.push(arg);
        s
    }

    pub fn with_compatibility_guard(self, guard: CompatibilityGuard) -> (r: Self)
        ensures
            r == (ClientConfig { compatibility_guard: guard, ..self }),
    {
        ClientConfig { compatibility_guard: guard, ..self }
    }

    /// Turn the compatibility checks off.
    pub fn without_compatibility_guard(self) -> (r: Self)
        ensures
            r == (ClientConfig {
                compatibility_guard: CompatibilityGuard {
                    require_initialize_user_agent: false,
                    min_codex_version: None,
                },
                ..self
            }),
    {
        ClientConfig {
            compatibility_guard: CompatibilityGuard {
                require_initialize_user_agent: false,
                min_codex_version: None,
            },
            ..self
        }
    }

    pub fn with_initialize_capabilities(self, initialize_capabilities: InitializeCapabilities) -> (r: Self)
        ensures
            r == (ClientConfig { initialize_capabilities, ..self }),
    {
        ClientConfig { initialize_capabilities, ..self }
    }

    pub fn enable_experimental_api(self) -> (r: Self)
        ensures
            r == (ClientConfig {
                initialize_capabilities: InitializeCapabilities { experimental_api: true },
                ..self
            }),
    {
        let caps = self.initialize_capabilities.enable_experimental_api();
        ClientConfig { initialize_capabilities: caps, ..self }
    }

    pub fn with_hooks(self, hooks: RuntimeHookConfig) -> (r: Self)
        ensures
            r == (ClientConfig { hooks, ..self }),
    {
        ClientConfig { hooks, ..self }
    }

    pub fn with_pre_hook(self, hook: HookRef) -> (r: Self)
        ensures
            r.hooks.pre_hooks@ == self.hooks.pre_hooks@.push(hook),
            r.hooks.post_hooks == self.hooks.post_hooks,
            r.hooks.pre_tool_use_hooks == self.hooks.pre_tool_use_hooks,
            r == (ClientConfig { hooks: r.hooks, ..self }),
    {
        let mut s = self;
        s.hooks.pre_hooks.push(hook);
        s
    }

    pub fn with_post_hook(self, hook: HookRef) -> (r: Self)
        ensures
            r.hooks.post_hooks@ == self.hooks.post_hooks@.push(hook),
            r.hooks.pre_hooks == self.hooks.pre_hooks,
            r.hooks.pre_tool_use_hooks == self.hooks.pre_tool_use_hooks,
            r == (ClientConfig { hooks: r.hooks, ..self }),
    {
        let mut s = self;
        s.hooks.post_hooks.push(hook);
        s
    }

    /// Register a pre-tool-use hook; with one installed, approvals are routed
    /// through the hooks and the approval policy is escalated.
    pub fn with_pre_tool_use_hook(self, hook: HookRef) -> (r: Self)
        ensures
            r.hooks.pre_tool_use_hooks@ == self.hooks.pre_tool_use_hooks@.push(hook),
            r.hooks.pre_hooks == self.hooks.pre_hooks,
            r.hooks.post_hooks == self.hooks.post_hooks,
            r == (ClientConfig { hooks: r.hooks, ..self }),
    {
        let mut s = self;
        s.hooks.pre_tool_use_hooks.push(hook);
        s
    }
}

impl Default for ClientConfig {
    fn default() -> (r: Self)
        ensures
            r.cli_bin@ == "codex"@,
            r.process_env@.len() == 0,
            r.process_cwd is None,
            r.app_server_args@.len() == 0,
            !r.initialize_capabilities.experimental_api,
    {
        ClientConfig::new()
    }
}

} // verus!
