//! The fixed tool and resource declarations the server exposes.
//!
//! Exactly two tools are callable — listing conversations and sending a
//! message — and exactly one static resource is readable: an overview
//! document. All descriptors are built once at startup and never
//! change.

use vstd::prelude::*;

verus! {

/// One named parameter of a tool's input schema.
#[derive(Debug)]
pub struct ToolParam {
    pub name: String,
    pub value_type: String,
    pub description: String,
}

/// The mathematical value of a `ToolParam`.
pub struct ToolParamView {
    pub name: Seq<char>,
    pub value_type: Seq<char>,
    pub description: Seq<char>,
}

impl View for ToolParam {
    type V = ToolParamView;

    open spec fn view(&self) -> ToolParamView {
        ToolParamView {
            name: self.name@,
            value_type: self.value_type@,
            description: self.description@,
        }
    }
}

impl DeepView for ToolParam {
    type V = ToolParamView;

    open spec fn deep_view(&self) -> ToolParamView {
        self.view()
    }
}

/// A callable operation: its unique name, its documentation, its input
/// schema (named parameters and the required set), and its annotation
/// flags.
#[derive(Debug)]
pub struct ToolDescriptor {
    pub name: String,
    pub title: String,
    pub description: String,
    pub read_only: bool,
    pub destructive: bool,
    pub params: Vec<ToolParam>,
    pub required: Vec<String>,
}

/// The mathematical value of a `ToolDescriptor`.
pub struct ToolDescriptorView {
    pub name: Seq<char>,
    pub title: Seq<char>,
    pub description: Seq<char>,
    pub read_only: bool,
    pub destructive: bool,
    pub params: Seq<ToolParamView>,
    pub required: Seq<Seq<char>>,
}

impl View for ToolDescriptor {
    type V = ToolDescriptorView;

    open spec fn view(&self) -> ToolDescriptorView {
        ToolDescriptorView {
            name: self.name@,
            title: self.title@,
            description: self.description@,
            read_only: self.read_only,
            destructive: self.destructive,
            params: self.params.deep_view(),
            required: self.required.deep_view(),
        }
    }
}

impl DeepView for ToolDescriptor {
    type V = ToolDescriptorView;

    open spec fn deep_view(&self) -> ToolDescriptorView {
        self.view()
    }
}

/// A readable static document: its unique URI, its documentation, and
/// its mime type.
#[derive(Debug)]
pub struct ResourceDescriptor {
    pub name: String,
    pub title: String,
    pub description: String,
    pub mime_type: String,
    pub uri: String,
}

/// The mathematical value of a `ResourceDescriptor`.
pub struct ResourceDescriptorView {
    pub name: Seq<char>,
    pub title: Seq<char>,
    pub description: Seq<char>,
    pub mime_type: Seq<char>,
    pub uri: Seq<char>,
}

impl View for ResourceDescriptor {
    type V = ResourceDescriptorView;

    open spec fn view(&self) -> ResourceDescriptorView {
        ResourceDescriptorView {
            name: self.name@,
            title: self.title@,
            description: self.description@,
            mime_type: self.mime_type@,
            uri: self.uri@,
        }
    }
}

/// A resource together with its fixed body text.
#[derive(Debug)]
pub struct ResourceEntry {
    pub descriptor: ResourceDescriptor,
    pub body: String,
}

/// The mathematical value of a `ResourceEntry`.
pub struct ResourceEntryView {
    pub descriptor: ResourceDescriptorView,
    pub body: Seq<char>,
}

impl View for ResourceEntry {
    type V = ResourceEntryView;

    open spec fn view(&self) -> ResourceEntryView {
        ResourceEntryView { descriptor: self.descriptor@, body: self.body@ }
    }
}

impl DeepView for ResourceEntry {
    type V = ResourceEntryView;

    open spec fn deep_view(&self) -> ResourceEntryView {
        self.view()
    }
}

/// The name of the conversation-listing tool.
pub open spec fn list_conversations_tool_name() -> Seq<char> {
    "signal_list_conversations"@
}

/// The name of the message-sending tool.
pub open spec fn send_message_tool_name() -> Seq<char> {
    "signal_send_message"@
}

/// The URI of the overview resource.
pub open spec fn overview_uri() -> Seq<char> {
    "resource://signal/overview"@
}

/// The descriptor of the conversation-listing tool: zero arguments,
/// read-only, non-destructive.
pub open spec fn list_conversations_tool_spec() -> ToolDescriptorView {
    ToolDescriptorView {
        name: list_conversations_tool_name(),
        title: "List Signal Conversations"@,
        description: "Return known Signal contacts and groups using signal-cli listContacts/listGroups."@,
        read_only: true,
        destructive: false,
        params: Seq::empty(),
        required: Seq::empty(),
    }
}

/// The descriptor of the message-sending tool: two required string
/// arguments, neither read-only nor destructive.
pub open spec fn send_message_tool_spec() -> ToolDescriptorView {
    ToolDescriptorView {
        name: send_message_tool_name(),
        title: "Send Signal Message"@,
        description: "Send a Signal message using signal-cli"@,
        read_only: false,
        destructive: false,
        params: seq![
            ToolParamView {
                name: "recipient"@,
                value_type: "string"@,
                description: "Signal recipient in E.164 form or group ID"@,
            },
            ToolParamView {
                name: "message"@,
                value_type: "string"@,
                description: "Message body to send"@,
            },
        ],
        required: seq!["recipient"@, "message"@],
    }
}

/// The body of the overview resource: fixed markdown documentation, not
/// derived from live state.
pub open spec fn overview_body() -> Seq<char> {
    "# Signal MCP Server Overview\n\nThis MCP server bridges a linked Signal account via `signal-cli`.\n\n## Current Tools\n\n- `signal_list_conversations` — lists known contacts and group chats using `signal-cli listContacts`/`listGroups`.\n- `signal_send_message` — sends a text message to a phone number or group ID via `signal-cli send`.\n\n## Configuration\n\nProvide a `config.toml` (or `SIGNAL_MCP__*` environment variables) with:\n\n```\naccount = \"+1XXXXXXXXXX\"\nsignal_cli_path = \"/path/to/signal-cli\"\nstorage = \"./var\"\n```\n\nThe Signal account must already be linked or registered using `signal-cli`.\n\n## Roadmap Highlights\n\n- Fetch and normalize conversation/message history.\n- Stream live events from `signal-cli jsonRpc` and expose MCP notifications.\n- Attachment handling, search, health checks, and richer telemetry."@
}

/// The descriptor of the overview resource.
pub open spec fn overview_resource_spec() -> ResourceEntryView {
    ResourceEntryView {
        descriptor: ResourceDescriptorView {
            name: "signal.overview"@,
            title: "Signal MCP Overview"@,
            description: "Overview of available Signal MCP capabilities and configuration."@,
            mime_type: "text/markdown"@,
            uri: overview_uri(),
        },
        body: overview_body(),
    }
}

/// Builds the conversation-listing tool descriptor.
pub fn build_list_conversations_tool() -> (r: ToolDescriptor)
    ensures
        r@ == list_conversations_tool_spec(),
{
    let r = ToolDescriptor {
        name: String::from_str("signal_list_conversations"),
        title: String::from_str("List Signal Conversations"),
        description: String::from_str(
            "Return known Signal contacts and groups using signal-cli listContacts/listGroups.",
        ),
        read_only: true,
        destructive: false,
        params: Vec::new(),
        required: Vec::new(),
    };
    proof {
        assert(r.params.deep_view() =~= Seq::<ToolParamView>::empty());
        assert(r.required.deep_view() =~= Seq::<Seq<char>>::empty());
    }
    r
}

/// Builds the message-sending tool descriptor.
pub fn build_send_message_tool() -> (r: ToolDescriptor)
    ensures
        r@ == send_message_tool_spec(),
{
    let mut params: Vec<ToolParam> = Vec::new();
    params.push(
        ToolParam {
            name: String::from_str("recipient"),
            value_type: String::from_str("string"),
            description: String::from_str("Signal recipient in E.164 form or group ID"),
        },
    );
    params.push(
        ToolParam {
            name: String::from_str("message"),
            value_type: String::from_str("string"),
            description: String::from_str("Message body to send"),
        },
    );
    let mut required: Vec<String> = Vec::new();
    required.push(String::from_str("recipient"));
    required.push(String::from_str("message"));
    let r = ToolDescriptor {
        name: String::from_str("signal_send_message"),
        title: String::from_str("Send Signal Message"),
        description: String::from_str("Send a Signal message using signal-cli"),
        read_only: false,
        destructive: false,
        params,
        required,
    };
    proof {
        assert(r.params.deep_view() =~= send_message_tool_spec().params);
        assert(r.required.deep_view() =~= send_message_tool_spec().required);
    }
    r
}

/// Builds the overview resource and its body.
pub fn build_overview_resource() -> (r: ResourceEntry)
    ensures
        r@ == overview_resource_spec(),
{
    ResourceEntry {
        descriptor: ResourceDescriptor {
            name: String::from_str("signal.overview"),
            title: String::from_str("Signal MCP Overview"),
            description: String::from_str(
                "Overview of available Signal MCP capabilities and configuration.",
            ),
            mime_type: String::from_str("text/markdown"),
            uri: String::from_str("resource://signal/overview"),
        },
        body: String::from_str(
            "# Signal MCP Server Overview\n\nThis MCP server bridges a linked Signal account via `signal-cli`.\n\n## Current Tools\n\n- `signal_list_conversations` — lists known contacts and group chats using `signal-cli listContacts`/`listGroups`.\n- `signal_send_message` — sends a text message to a phone number or group ID via `signal-cli send`.\n\n## Configuration\n\nProvide a `config.toml` (or `SIGNAL_MCP__*` environment variables) with:\n\n```\naccount = \"+1XXXXXXXXXX\"\nsignal_cli_path = \"/path/to/signal-cli\"\nstorage = \"./var\"\n```\n\nThe Signal account must already be linked or registered using `signal-cli`.\n\n## Roadmap Highlights\n\n- Fetch and normalize conversation/message history.\n- Stream live events from `signal-cli jsonRpc` and expose MCP notifications.\n- Attachment handling, search, health checks, and richer telemetry.",
        ),
    }
}

/// The overview body is real documentation: it is not empty.
pub proof fn lemma_overview_body_nonempty()
    ensures
        overview_body().len() > 0,
{
    reveal_strlit(
        "# Signal MCP Server Overview\n\nThis MCP server bridges a linked Signal account via `signal-cli`.\n\n## Current Tools\n\n- `signal_list_conversations` — lists known contacts and group chats using `signal-cli listContacts`/`listGroups`.\n- `signal_send_message` — sends a text message to a phone number or group ID via `signal-cli send`.\n\n## Configuration\n\nProvide a `config.toml` (or `SIGNAL_MCP__*` environment variables) with:\n\n```\naccount = \"+1XXXXXXXXXX\"\nsignal_cli_path = \"/path/to/signal-cli\"\nstorage = \"./var\"\n```\n\nThe Signal account must already be linked or registered using `signal-cli`.\n\n## Roadmap Highlights\n\n- Fetch and normalize conversation/message history.\n- Stream live events from `signal-cli jsonRpc` and expose MCP notifications.\n- Attachment handling, search, health checks, and richer telemetry.",
    );
}

/// The supported tools, resolved once from a requested name.
#[derive(Clone, Copy, PartialEq, Eq, Structural, Debug)]
pub enum ToolKind {
    ListConversations,
    SendMessage,
}

/// Which tool a requested name resolves to, if any.
pub open spec fn lookup_tool_spec(name: Seq<char>) -> Option<ToolKind> {
    if name == list_conversations_tool_name() {
        Some(ToolKind::ListConversations)
    } else if name == send_message_tool_name() {
        Some(ToolKind::SendMessage)
    } else {
        None
    }
}

/// Resolves a requested tool name to the matching tool, or to nothing
/// when the registry has no tool of that name.
pub fn lookup_tool(name: &String) -> (r: Option<ToolKind>)
    ensures
        r == lookup_tool_spec(name@),
{
    let list_name = String::from_str("signal_list_conversations");
    if *name == list_name {
        return Some(ToolKind::ListConversations);
    }
    let send_name = String::from_str("signal_send_message");
    if *name == send_name {
        return Some(ToolKind::SendMessage);
    }
    None
}

} // verus!
