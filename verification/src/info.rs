//! How the client introduces itself.
use crate::text::joined;
use vstd::prelude::*;

verus! {

/// The version of the protocol that the client is written for.
pub const MCP_SCHEMA_VERSION: &'static str = "2025-06-18";

/// What the client can do for a server that handles elicitation.
#[derive(Debug, Clone, Copy, PartialEq, Eq)]
pub struct ElicitationCapability {
    /// Whether answers are checked against the schema that the server asks for.
    pub schema_validation: Option<bool>,
}

/// What the client offers to do for the server.
#[derive(Debug, Clone, Copy, PartialEq, Eq)]
pub struct ClientCapabilities {
    pub experimental: bool,
    pub roots: bool,
    pub sampling: bool,
    pub elicitation: Option<ElicitationCapability>,
}

/// Which program the client is.
#[derive(Debug)]
pub struct Implementation {
    pub name: String,
    pub title: Option<String>,
    pub version: String,
    /// Where pictures of the program are found.
    pub icons: Option<Vec<String>>,
    pub website_url: Option<String>,
}

/// What the client tells the server at the start.
#[derive(Debug)]
pub struct ClientInfo {
    pub protocol_version: String,
    pub capabilities: ClientCapabilities,
    pub client_info: Implementation,
}

/// The protocol version that a JSON text holds, if it is one.
pub uninterp spec fn protocol_version_in(json: Seq<char>) -> Option<Seq<char>>;

/// The characters that stand for themselves between the quotes of a JSON string.
pub open spec fn is_plain_json_char(c: char) -> bool {
    c >= ' ' && c != '"' && c != '\\'
}

/// All characters of `text` stand for themselves in a JSON string.
pub open spec fn is_plain_json(text: Seq<char>) -> bool {
    forall|i: int| 0 <= i < text.len() ==> is_plain_json_char(#[trigger] text[i])
}

/// One of the characters U+0000 to U+001F, which JSON does not allow in a string, is in `text`.
pub open spec fn has_control_char(text: Seq<char>) -> bool {
    exists|i: int| 0 <= i < text.len() && (#[trigger] text[i]) < ' '
}

/// `text` between quotes.
pub open spec fn quoted(text: Seq<char>) -> Seq<char> {
    seq!['"'] + text + seq!['"']
}

/// `text` without its first and its last character.
pub open spec fn inner(text: Seq<char>) -> Seq<char> {
    text.subrange(1, text.len() - 1)
}

/// `text` begins and ends with a quote.
pub open spec fn is_quoted(text: Seq<char>) -> bool {
    text.len() >= 2 && text.first() == '"' && text.last() == '"'
}

/// Calls `serde_json::from_str` for a `ProtocolVersion`, whose result is named
/// `protocol_version_in`. Every JSON string is a version: between the quotes, characters that
/// stand for themselves are taken as they are. The characters U+0000 to U+001F are not allowed
/// there, and a quote only in an escape sequence. How escape sequences are read is left to the name.
#[verifier::external_body]
fn read_protocol_version(json: &str) -> (version: Option<String>)
    ensures
        version.deep_view() == protocol_version_in(json@),
        is_quoted(json@) && is_plain_json(inner(json@)) ==> version.deep_view() == Some(
            inner(json@),
        ),
        is_quoted(json@) && has_control_char(inner(json@)) ==> version is None,
        is_quoted(json@) && inner(json@).contains('"') && !inner(json@).contains('\\')
            ==> version is None,
{
    serde_json::from_str::<rmcp::model::ProtocolVersion>(json).ok().map(
        |version| version.to_string(),
    )
}

/// Reads `ProtocolVersion::LATEST`, the version that is taken where none can be read.
#[verifier::external_body]
fn latest_protocol_version() -> (version: String)
    ensures
        version@ == "2025-03-26"@,
{
    rmcp::model::ProtocolVersion::LATEST.to_string()
}

/// The version that was read, or the latest one where none was.
pub open spec fn version_or_latest(version: Option<Seq<char>>) -> Seq<char> {
    match version {
        Some(version) => version,
        None => "2025-03-26"@,
    }
}

/// Takes the latest version where none was read.
pub fn protocol_version_or_latest(version: Option<String>) -> (chosen: String)
    ensures
        chosen@ == version_or_latest(version.deep_view()),
{
    match version {
        Some(version) => version,
        None => latest_protocol_version(),
    }
}

/// The protocol version with the given name. A name that is no JSON string when it is put between
/// quotes gives the latest version.
pub fn parse_protocol_version(version: &str) -> (parsed: String)
    ensures
        parsed@ == version_or_latest(protocol_version_in(quoted(version@))),
        is_plain_json(version@) ==> parsed@ == version@,
        has_control_char(version@) ==> parsed@ == "2025-03-26"@,
        version@.contains('"') && !version@.contains('\\') ==> parsed@ == "2025-03-26"@,
{
    let json = joined("\"", version).concat("\"");
    proof {
        reveal_strlit("\"");
        assert("\""@ =~= seq!['"']);
        assert(json@ =~= quoted(version@));
        assert(inner(json@) =~= version@);
    }
    protocol_version_or_latest(read_protocol_version(json.as_str()))
}

/// `info` introduces the program in its given version: it speaks the protocol version that it is
/// written for, and it offers to handle elicitation and nothing else.
pub open spec fn introduces_codex(info: ClientInfo, version: Seq<char>) -> bool {
    &&& info.protocol_version@ == "2025-06-18"@
    &&& info.capabilities == ClientCapabilities {
        experimental: false,
        roots: false,
        sampling: false,
        elicitation: Some(ElicitationCapability { schema_validation: None }),
    }
    &&& info.client_info.name@ == "codex-mcp-client"@
    &&& info.client_info.title.deep_view() == Some("Codex"@)
    &&& info.client_info.version@ == version
    &&& info.client_info.icons is None
    &&& info.client_info.website_url is None
}

/// How the client introduces itself to every server. `version` is the version of the program.
pub fn codex_client_info(version: &str) -> (info: ClientInfo)
    ensures
        introduces_codex(info, version@),
{
    proof {
        reveal_strlit("2025-06-18");
    }
    ClientInfo {
        protocol_version: parse_protocol_version(MCP_SCHEMA_VERSION),
        capabilities: ClientCapabilities {
            experimental: false,
            roots: false,
            sampling: false,
            elicitation: Some(ElicitationCapability { schema_validation: None }),
        },
        client_info: Implementation {
            name: "codex-mcp-client".to_owned(),
            title: Some("Codex".to_owned()),
            version: version.to_owned(),
            icons: None,
            website_url: None,
        },
    }
}

/// Two introductions say the same.
pub open spec fn same_info(one: ClientInfo, other: ClientInfo) -> bool {
    &&& one.protocol_version@ == other.protocol_version@
    &&& one.capabilities == other.capabilities
    &&& one.client_info.name@ == other.client_info.name@
    &&& one.client_info.title.deep_view() == other.client_info.title.deep_view()
    &&& one.client_info.version@ == other.client_info.version@
    &&& one.client_info.icons.deep_view() == other.client_info.icons.deep_view()
    &&& one.client_info.website_url.deep_view() == other.client_info.website_url.deep_view()
}

fn copy_text(text: &Option<String>) -> (copy: Option<String>)
    ensures
        copy.deep_view() == text.deep_view(),
{
    match text {
        Some(text) => Some(text.clone()),
        None => None,
    }
}

fn copy_texts(texts: &Option<Vec<String>>) -> (copy: Option<Vec<String>>)
    ensures
        copy.deep_view() == texts.deep_view(),
{
    match texts {
        Some(texts) => {
            let mut copy: Vec<String> = Vec::new();
            for i in 0..texts.len()
                invariant
                    copy@ == texts@.take(i as int),
            {
                copy.push(texts[i].clone());
            }
            proof {
                assert(copy@ =~= texts@);
                assert(copy.deep_view() =~= texts.deep_view());
            }
            Some(copy)
        },
        None => None,
    }
}

impl Clone for ClientInfo {
    fn clone(&self) -> (copy: Self)
        ensures
            same_info(copy, *self),
            copy.protocol_version@ == self.protocol_version@,
            copy.capabilities == self.capabilities,
            copy.client_info.name@ == self.client_info.name@,
            copy.client_info.version@ == self.client_info.version@,
    {
        ClientInfo {
            protocol_version: self.protocol_version.clone(),
            capabilities: self.capabilities,
            client_info: Implementation {
                name: self.client_info.name.clone(),
                title: copy_text(&self.client_info.title),
                version: self.client_info.version.clone(),
                icons: copy_texts(&self.client_info.icons),
                website_url: copy_text(&self.client_info.website_url),
            },
        }
    }
}

/// A copy of an introduction differs from it in nothing.
pub proof fn law_copied_info_says_the_same(info: ClientInfo, copy: ClientInfo)
    requires
        call_ensures(<ClientInfo as Clone>::clone, (&info,), copy),
    ensures
        copy.protocol_version@ == info.protocol_version@,
        copy.capabilities.experimental == info.capabilities.experimental,
        copy.capabilities.roots == info.capabilities.roots,
        copy.capabilities.sampling == info.capabilities.sampling,
        copy.capabilities.elicitation == info.capabilities.elicitation,
        copy.client_info.name@ == info.client_info.name@,
        copy.client_info.title.deep_view() == info.client_info.title.deep_view(),
        copy.client_info.version@ == info.client_info.version@,
        copy.client_info.icons.deep_view() == info.client_info.icons.deep_view(),
        copy.client_info.website_url.deep_view() == info.client_info.website_url.deep_view(),
{
}

/// Of two introductions that say the same, both introduce a program in a version or neither does.
pub proof fn law_same_info_introduces_the_same(
    one: ClientInfo,
    other: ClientInfo,
    version: Seq<char>,
)
    requires
        same_info(one, other),
    ensures
        same_info(other, one),
        one.capabilities == other.capabilities,
        introduces_codex(one, version) <==> introduces_codex(other, version),
{
}

/// The program introduces itself under one name and with the version that it is given. It offers to
/// handle elicitation, without a check of the answers, and nothing else, and it speaks the protocol
/// version that it is written for.
pub proof fn law_introduction_is_complete(version: &str, info: ClientInfo)
    requires
        call_ensures(codex_client_info, (version,), info),
    ensures
        info.client_info.version@ == version@,
        info.client_info.name@ == "codex-mcp-client"@,
        info.client_info.title matches Some(title) && title@ == "Codex"@,
        info.client_info.icons is None,
        info.client_info.website_url is None,
        !info.capabilities.experimental,
        !info.capabilities.roots,
        !info.capabilities.sampling,
        info.capabilities.elicitation matches Some(elicitation)
            && elicitation.schema_validation is None,
        info.protocol_version@ == MCP_SCHEMA_VERSION@,
        info.protocol_version@ == "2025-06-18"@,
{
}

/// A version that was read is taken as it is, and only where none was read the latest one is taken.
pub proof fn law_read_version_is_taken(version: Option<String>, chosen: String)
    requires
        call_ensures(protocol_version_or_latest, (version,), chosen),
    ensures
        version matches Some(read) ==> chosen@ == read@,
        version is None ==> chosen@ == "2025-03-26"@,
{
}

/// A version in which every character stands for itself is parsed as itself.
pub proof fn law_plain_version_is_kept(version: &str, parsed: String)
    requires
        call_ensures(parse_protocol_version, (version,), parsed),
        forall|i: int|
            0 <= i < version@.len() ==> #[trigger] version@[i] >= ' ' && version@[i] != '"'
                && version@[i] != '\\',
    ensures
        parsed@ == version@,
{
}

/// A version with a character from U+0000 to U+001F, or with a quote and without a backslash that
/// could go before it, gives the latest version.
pub proof fn law_broken_version_gives_the_latest(version: &str, parsed: String, at: int)
    requires
        call_ensures(parse_protocol_version, (version,), parsed),
        0 <= at < version@.len(),
        version@[at] < ' ' || version@[at] == '"' && (forall|i: int|
            0 <= i < version@.len() ==> #[trigger] version@[i] != '\\'),
    ensures
        parsed@ == "2025-03-26"@,
{
    if version@[at] == '"' {
        assert(version@.contains('"'));
    }
}

/// What is parsed is what the version means between quotes, as JSON, and the latest version where
/// that is no version.
pub proof fn law_version_is_parsed_between_quotes(version: &str, parsed: String)
    requires
        call_ensures(parse_protocol_version, (version,), parsed),
    ensures
        match protocol_version_in(seq!['"'] + version@ + seq!['"']) {
            Some(read) => parsed@ == read,
            None => parsed@ == "2025-03-26"@,
        },
{
}

} // verus!
