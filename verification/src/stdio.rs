//! Spawning a server and talking to it over its standard streams.
use crate::client::McpClient;
use crate::env::{
    create_env_for_mcp_server, default_env_names, default_env_vars, env_or_empty, server_env, EnvMap,
    Platform,
};
use std::time::Duration;
use vstd::prelude::*;

verus! {

/// What a standard stream of the server is connected to.
#[derive(Debug, Clone, Copy, PartialEq, Eq)]
pub enum Stream {
    /// The client.
    Piped,
    /// Whatever the client's own stream is connected to.
    Inherited,
}

/// A server to be spawned. `A` is the type of a program's name and arguments.
pub struct StdioLaunch<A> {
    pub program: A,
    pub args: Vec<A>,
    /// Whether the server also gets the variables of the client that are not in `env`.
    pub keep_own_env: bool,
    pub env: EnvMap,
    pub stdin: Stream,
    pub stdout: Stream,
    pub stderr: Stream,
    /// Whether the server is killed when the client lets go of it.
    pub kill_on_drop: bool,
    /// How long the initialization may take.
    pub timeout: Duration,
}

impl McpClient {
    /// Decides how to spawn a server: in an environment of its own, with its input and output
    /// connected to the client, and no longer than the client lives.
    pub fn spawn_stdio<A>(
        platform: Platform,
        own_env: &EnvMap,
        program: A,
        args: Vec<A>,
        env: Option<EnvMap>,
        timeout: Duration,
    ) -> (launch: StdioLaunch<A>)
        ensures
            launch.program == program,
            launch.args == args,
            !launch.keep_own_env,
            launch.env@ == server_env(platform, own_env@, env_or_empty(env)),
            launch.stdin is Piped,
            launch.stdout is Piped,
            launch.stderr is Inherited,
            launch.kill_on_drop,
            launch.timeout == timeout,
    {
        StdioLaunch {
            program,
            args,
            keep_own_env: false,
            env: create_env_for_mcp_server(platform, own_env, env),
            stdin: Stream::Piped,
            stdout: Stream::Piped,
            stderr: Stream::Inherited,
            kill_on_drop: true,
            timeout,
        }
    }
}

/// A spawned server runs the program with the arguments that are given and sees nothing of the
/// client's environment but what it is given.
pub proof fn law_launch_keeps_what_is_given<A>(
    platform: Platform,
    own_env: EnvMap,
    program: A,
    args: Vec<A>,
    env: Option<EnvMap>,
    timeout: Duration,
    launch: StdioLaunch<A>,
)
    requires
        call_ensures(
            McpClient::spawn_stdio::<A>,
            (platform, &own_env, program, args, env, timeout),
            launch,
        ),
    ensures
        launch.program == program,
        launch.args@ == args@,
        launch.timeout == timeout,
        !launch.keep_own_env,
        launch.kill_on_drop,
        launch.stdin is Piped && launch.stdout is Piped && launch.stderr is Inherited,
{
}

/// A spawned server finds each variable that is configured for it. Of the other names it finds the
/// default ones that the client has, with the client's values, and no more.
pub proof fn law_launched_server_finds_its_variables<A>(
    platform: Platform,
    own_env: EnvMap,
    program: A,
    args: Vec<A>,
    env: Option<EnvMap>,
    timeout: Duration,
    launch: StdioLaunch<A>,
    names: Vec<&'static str>,
    name: &str,
    own: Option<&String>,
    value: Option<&String>,
)
    requires
        call_ensures(
            McpClient::spawn_stdio::<A>,
            (platform, &own_env, program, args, env, timeout),
            launch,
        ),
        call_ensures(default_env_vars, (platform,), names),
        call_ensures(EnvMap::get, (&own_env, name), own),
        call_ensures(EnvMap::get, (&launch.env, name), value),
    ensures
        match env {
            Some(env) if env@.contains_key(name@) => value matches Some(value) && value@
                == env@[name@],
            _ => {
                &&& value is Some <==> own is Some && exists|i: int|
                    0 <= i < names@.len() && (#[trigger] names@[i])@ == name@
                &&& value is Some ==> value->Some_0@ == own->Some_0@
            },
        },
{
    let all = default_env_names(platform);
    assert(names@.map_values(|name: &'static str| name@) == all);
    assert(forall|i: int| 0 <= i < names@.len() ==> all[i] == (#[trigger] names@[i])@);
    if all.contains(name@) {
        let i = choose|i: int| 0 <= i < all.len() && all[i] == name@;
        assert(names@[i]@ == name@);
    }
}

} // verus!
