//! What the command line asks for.
use crate::client::McpClient;
use crate::env::{
    law_extra_env_wins, law_last_pair_wins, law_variables_come_from_pairs, lemma_present, pairs_map,
    server_env, EnvMap, Platform,
};
use crate::header::{
    collect_headers, header_fields, inserted_fields, law_fields_come_from_headers,
    law_last_header_wins, lemma_few_names_fit, surely_fits, surely_overflows, Header,
};
use crate::stdio::StdioLaunch;
use crate::text::{joined, lemma_split_at_first, split_once, splits_at_first};
use reqwest::header::{HeaderMap, HeaderValue};
use std::time::Duration;
use vstd::prelude::*;

verus! {

/// The seconds that a connection may take to be established, unless the user says otherwise.
pub const DEFAULT_TIMEOUT_SECS: u64 = 10;

/// What is said when the tools cannot be listed.
pub const LIST_FAILURE_CONTEXT: &'static str = "tools/list request failed";

/// A text without an equals sign, where `NAME=VALUE` was expected.
#[derive(Debug)]
pub struct KeyValError {
    pub got: String,
}

impl KeyValError {
    /// The error in words.
    pub fn message(&self) -> (text: String)
        ensures
            text@ == "expected NAME=VALUE, got "@ + self.got@,
    {
        joined("expected NAME=VALUE, got ", self.got.as_str())
    }
}

/// What a text gives when it is read as `NAME=VALUE`.
pub open spec fn reads_as_key_val(
    text: Seq<char>,
    pair: Result<(String, String), KeyValError>,
) -> bool {
    match pair {
        Ok((key, value)) => splits_at_first(text, '=', key@, value@),
        Err(error) => !text.contains('=') && error.got@ == text,
    }
}

/// Reads `NAME=VALUE`. The name ends at the first equals sign; the value may hold further ones.
pub fn parse_key_val(s: &str) -> (pair: Result<(String, String), KeyValError>)
    ensures
        reads_as_key_val(s@, pair),
        pair is Ok <==> s@.contains('='),
        pair matches Ok((key, value)) ==> s@ == key@ + seq!['='] + value@ && !key@.contains('='),
        pair matches Err(error) ==> error.got@ == s@,
{
    match split_once(s, '=') {
        Some((key, value)) => {
            proof {
                assert(s@[key@.len() as int] == '=');
            }
            Ok((key.to_owned(), value.to_owned()))
        },
        None => Err(KeyValError { got: s.to_owned() }),
    }
}

/// A name without an equals sign and any value are read back from `NAME=VALUE` as they were
/// written.
pub proof fn law_written_key_val_is_read_back(
    key: Seq<char>,
    value: Seq<char>,
    pair: Result<(String, String), KeyValError>,
)
    requires
        !key.contains('='),
        reads_as_key_val(key + seq!['='] + value, pair),
    ensures
        pair matches Ok((k, v)) && k@ == key && v@ == value,
{
    let text = key + seq!['='] + value;
    assert(text[key.len() as int] == '=');
    lemma_split_at_first(text, '=', key, value);
    match pair {
        Ok((k, v)) => {
            lemma_split_at_first(text, '=', k@, v@);
        },
        Err(_) => {},
    }
}

/// What was given on the command line. `A` is the type of the program's arguments.
pub struct CliOptions<A> {
    /// The server to connect to over HTTP, in place of a program to spawn.
    pub http: Option<String>,
    /// The headers for a connection over HTTP.
    pub headers: Vec<Header>,
    /// The extra variables for a spawned program.
    pub env: Vec<(String, String)>,
    /// The program to spawn, followed by its arguments.
    pub args: Vec<A>,
}

/// How to reach the server.
pub enum Connection<A> {
    Http { url: String, headers: HeaderMap<HeaderValue> },
    Stdio { program: A, args: Vec<A>, env: EnvMap },
}

impl<A> Connection<A> {
    /// What is said of a connection of this kind that fails.
    pub fn failure_context(&self) -> (text: String)
        ensures
            text@ == (match self {
                Connection::Http { .. } => "failed to connect to HTTP MCP server"@,
                Connection::Stdio { .. } => "failed to spawn subprocess"@,
            }),
    {
        match self {
            Connection::Http { .. } => "failed to connect to HTTP MCP server".to_owned(),
            Connection::Stdio { .. } => "failed to spawn subprocess".to_owned(),
        }
    }
}

/// Why the command line cannot be followed.
#[derive(Debug)]
pub enum CliError {
    /// There is neither a server to connect to nor a program to spawn.
    Usage,
    /// There are more headers than a header map can hold; `reason` is what the map says of it.
    TooManyHeaders { reason: String },
}

impl CliError {
    /// What `message` says.
    pub open spec fn message_text(self) -> Seq<char> {
        match self {
            CliError::Usage =>
                "Usage: codex-mcp-client <program> [args..]\n\nExample: codex-mcp-client codex-mcp-server"@,
            CliError::TooManyHeaders { reason } => "size overflows MAX_SIZE: "@ + reason@,
        }
    }

    /// The error in words.
    pub fn message(&self) -> (text: String)
        ensures
            text@ == self.message_text(),
    {
        match self {
            CliError::Usage =>
                "Usage: codex-mcp-client <program> [args..]\n\nExample: codex-mcp-client codex-mcp-server".to_owned(),
            CliError::TooManyHeaders { reason } => joined(
                "size overflows MAX_SIZE: ",
                reason.as_str(),
            ),
        }
    }
}

/// Decides how to reach the server. A server to connect to goes before a program to spawn; only
/// one of the two is looked at.
pub fn plan_connection<A>(options: CliOptions<A>) -> (plan: Result<Connection<A>, CliError>)
    ensures
        match options.http {
            Some(url) => match plan {
                Ok(Connection::Http { url: planned, headers }) => {
                    &&& planned == url
                    &&& header_fields(headers) == inserted_fields(options.headers@)
                    &&& !surely_overflows(options.headers@)
                },
                Err(CliError::TooManyHeaders { reason }) => {
                    &&& reason@ == "MaxSizeReached"@
                    &&& !surely_fits(options.headers@)
                },
                _ => false,
            },
            None => match plan {
                Ok(Connection::Stdio { program, args, env }) => {
                    &&& options.args@.len() > 0
                    &&& program == options.args@[0]
                    &&& args@ == options.args@.drop_first()
                    &&& env@ == pairs_map(options.env@)
                },
                Err(CliError::Usage) => options.args@.len() == 0,
                _ => false,
            },
        },
{
    match options.http {
        Some(url) => match collect_headers(&options.headers) {
            Ok(headers) => Ok(Connection::Http { url, headers }),
            Err(error) => Err(CliError::TooManyHeaders { reason: error.reason }),
        },
        None => {
            let mut args = options.args;
            if args.len() == 0 {
                return Err(CliError::Usage);
            }
            let program = args.remove(0);
            proof {
                assert(args@ =~= options.args@.drop_first());
            }
            Ok(Connection::Stdio { program, args, env: EnvMap::from_pairs(options.env) })
        },
    }
}

/// A variable that is written as `NAME=VALUE` reaches the spawned server, whatever the client's own
/// environment says, provided that no later one has the same name.
pub proof fn law_written_variable_reaches_the_server(
    platform: Platform,
    own_env: Map<Seq<char>, Seq<char>>,
    pairs: Seq<(String, String)>,
    at: int,
    key: Seq<char>,
    value: Seq<char>,
)
    requires
        0 <= at < pairs.len(),
        !key.contains('='),
        reads_as_key_val(key + seq!['='] + value, Ok(pairs[at])),
        forall|j: int| at < j < pairs.len() ==> (#[trigger] pairs[j]).0@ != key,
    ensures
        server_env(platform, own_env, pairs_map(pairs)).contains_key(key),
        server_env(platform, own_env, pairs_map(pairs))[key] == value,
{
    law_written_key_val_is_read_back(key, value, Ok(pairs[at]));
    law_last_pair_wins(pairs, at);
    law_extra_env_wins(platform, own_env, pairs_map(pairs), key);
}

/// A text is read as the name and the value around its first equals sign; a text without one is
/// refused, and handed back as it is.
pub proof fn law_key_val_is_its_text(s: &str, pair: Result<(String, String), KeyValError>)
    requires
        call_ensures(parse_key_val, (s,), pair),
    ensures
        match pair {
            Ok((key, value)) => {
                &&& s@ == key@.push('=') + value@
                &&& forall|i: int| 0 <= i < key@.len() ==> #[trigger] key@[i] != '='
            },
            Err(error) => {
                &&& error.got@ == s@
                &&& forall|i: int| 0 <= i < s@.len() ==> #[trigger] s@[i] != '='
            },
        },
{
    match pair {
        Ok((key, value)) => {
            assert(s@ =~= key@.push('=') + value@);
            assert forall|i: int| 0 <= i < key@.len() implies #[trigger] key@[i] != '=' by {
                assert(key@.contains(key@[i]));
            }
        },
        Err(_) => {
            assert forall|i: int| 0 <= i < s@.len() implies #[trigger] s@[i] != '=' by {
                assert(s@.contains(s@[i]));
            }
        },
    }
}

/// What is read as `NAME=VALUE` has an equals sign, and is the name, that sign and the value.
pub proof fn law_key_val_needs_an_equals_sign(
    text: Seq<char>,
    pair: Result<(String, String), KeyValError>,
)
    requires
        reads_as_key_val(text, pair),
    ensures
        !text.contains('=') ==> (pair matches Err(error) && error.got@ == text),
        pair matches Ok((key, value)) ==> text == key@ + seq!['='] + value@,
        pair is Err ==> !text.contains('='),
{
    if let Ok((key, value)) = pair {
        assert(text[key@.len() as int] == '=');
    }
}

/// What is said of a text that is not `NAME=VALUE` ends with that text.
pub proof fn law_key_val_message(error: KeyValError, text: String)
    requires
        call_ensures(KeyValError::message, (&error,), text),
    ensures
        text@ == "expected NAME=VALUE, got "@ + error.got@,
{
}

/// What is said of a command line that cannot be followed does not depend on it, save for what the
/// header map says at the end.
pub proof fn law_cli_message(error: CliError, text: String)
    requires
        call_ensures(CliError::message, (&error,), text),
    ensures
        error is Usage ==> text@
            == "Usage: codex-mcp-client <program> [args..]\n\nExample: codex-mcp-client codex-mcp-server"@,
        error matches CliError::TooManyHeaders { reason } ==> text@ == "size overflows MAX_SIZE: "@
            + reason@,
{
}

/// What is said of a connection that fails tells the two kinds apart.
pub proof fn law_failure_context<A>(connection: Connection<A>, text: String)
    requires
        call_ensures(Connection::<A>::failure_context, (&connection,), text),
    ensures
        connection is Http ==> text@ == "failed to connect to HTTP MCP server"@,
        connection is Stdio ==> text@ == "failed to spawn subprocess"@,
{
}

/// Where there is no server to connect to, the first argument is the program and the others are its
/// arguments, in their order; without a first one nothing is planned. The variables of the program
/// are those of the command line, of which the last one with a name counts.
pub proof fn law_program_is_planned<A>(
    options: CliOptions<A>,
    plan: Result<Connection<A>, CliError>,
    name: &str,
)
    requires
        call_ensures(plan_connection::<A>, (options,), plan),
        options.http is None,
    ensures
        match plan {
            Ok(Connection::Stdio { program, args, env }) => {
                &&& options.args@ == seq![program] + args@
                &&& forall|value: Option<&String>| #[trigger]
                    call_ensures(EnvMap::get, (&env, name), value) ==> match value {
                        Some(value) => exists|i: int|
                            0 <= i < options.env@.len() && (#[trigger] options.env@[i]).0@ == name@
                                && options.env@[i].1@ == value@ && (forall|j: int|
                                i < j < options.env@.len() ==> (#[trigger] options.env@[j]).0@
                                    != name@),
                        None => forall|i: int|
                            0 <= i < options.env@.len() ==> (#[trigger] options.env@[i]).0@
                                != name@,
                    }
            },
            Ok(Connection::Http { .. }) => false,
            Err(error) => error is Usage && options.args@ == Seq::<A>::empty(),
        },
{
    match plan {
        Ok(Connection::Stdio { program, args, env }) => {
            assert(options.args@ =~= seq![program] + args@);
            assert forall|i: int|
                0 <= i < options.env@.len() && (#[trigger] options.env@[i]).0@
                    == name@ implies pairs_map(options.env@).contains_key(name@) by {
                lemma_present(options.env@, i);
            }
            if pairs_map(options.env@).contains_key(name@) {
                law_variables_come_from_pairs(options.env@, name@);
            }
        },
        _ => {
            assert(options.args@ =~= Seq::<A>::empty());
        },
    }
}

/// Where there is a server to connect to, it is planned under its address, and the arguments and
/// variables of a program do not matter. The last header with a name gives that name its value,
/// and no other names have one. With no more than 6553 names before the last header there is a plan.
pub proof fn law_server_is_planned<A>(
    options: CliOptions<A>,
    plan: Result<Connection<A>, CliError>,
    names: Set<Seq<char>>,
)
    requires
        call_ensures(plan_connection::<A>, (options,), plan),
        options.http is Some,
        names.finite(),
        forall|i: int| 0 <= i < options.headers@.len() - 1 ==> names.contains(
            (#[trigger] options.headers@[i])@.0,
        ),
    ensures
        match plan {
            Ok(Connection::Http { url, headers }) => {
                &&& url@ == options.http->Some_0@
                &&& forall|name: Seq<char>| #[trigger]
                    header_fields(headers).contains_key(name) ==> exists|i: int|
                        0 <= i < options.headers@.len() && (#[trigger] options.headers@[i])@.0
                            == name
                &&& forall|i: int|
                    0 <= i < options.headers@.len() && (forall|j: int|
                        i < j < options.headers@.len() ==> (#[trigger] options.headers@[j])@.0
                            != options.headers@[i]@.0) ==> header_fields(headers).contains_key(
                        (#[trigger] options.headers@[i])@.0,
                    ) && header_fields(headers)[options.headers@[i]@.0] == seq![
                        options.headers@[i]@.1,
                    ]
            },
            Ok(Connection::Stdio { .. }) => false,
            Err(CliError::TooManyHeaders { reason }) => names.len() > 6553 && reason@
                == "MaxSizeReached"@,
            Err(CliError::Usage) => false,
        },
{
    assert forall|i: int|
        0 <= i < options.headers@.len() && (forall|j: int|
            i < j < options.headers@.len() ==> (#[trigger] options.headers@[j])@.0
                != options.headers@[i]@.0) implies inserted_fields(options.headers@).contains_key(
        (#[trigger] options.headers@[i])@.0,
    ) && inserted_fields(options.headers@)[options.headers@[i]@.0] == seq![
        options.headers@[i]@.1,
    ] by {
        law_last_header_wins(options.headers@, i);
    }
    assert forall|name: Seq<char>| #[trigger]
        inserted_fields(options.headers@).contains_key(name) implies exists|i: int|
        0 <= i < options.headers@.len() && (#[trigger] options.headers@[i])@.0 == name by {
        law_fields_come_from_headers(options.headers@, name);
    }
    if names.len() <= 6553 {
        lemma_few_names_fit(options.headers@, names);
    }
}

/// A variable that is written on the command line as `NAME=VALUE` is the one that the spawned
/// program finds, whatever the client's own environment says, provided that no later one has the
/// same name.
pub proof fn law_written_variable_is_found<A>(
    s: &str,
    key: &str,
    value: Seq<char>,
    options: CliOptions<A>,
    at: int,
    program: A,
    args: Vec<A>,
    env: EnvMap,
    platform: Platform,
    own_env: EnvMap,
    timeout: Duration,
    launch: StdioLaunch<A>,
    found: Option<&String>,
)
    requires
        s@ == key@ + seq!['='] + value,
        !key@.contains('='),
        options.http is None,
        0 <= at < options.env@.len(),
        call_ensures(parse_key_val, (s,), Ok(options.env@[at])),
        forall|j: int| at < j < options.env@.len() ==> (#[trigger] options.env@[j]).0@ != key@,
        call_ensures(
            plan_connection::<A>,
            (options,),
            Ok(Connection::Stdio { program, args, env }),
        ),
        call_ensures(
            McpClient::spawn_stdio::<A>,
            (platform, &own_env, program, args, Some(env), timeout),
            launch,
        ),
        call_ensures(EnvMap::get, (&launch.env, key), found),
    ensures
        found matches Some(found) && found@ == value,
{
    law_written_key_val_is_read_back(key@, value, Ok(options.env@[at]));
    law_last_pair_wins(options.env@, at);
}

} // verus!
