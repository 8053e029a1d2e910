//! The server's identity, capabilities, and startup wiring.

use vstd::prelude::*;

use crate::settings::Settings;
use crate::signal_cli::SignalCli;

verus! {

/// What the server declares it can do: tools and resources are served,
/// neither list ever changes, and resources cannot be subscribed to.
pub struct Capabilities {
    pub tools: bool,
    pub tools_list_changed: bool,
    pub resources: bool,
    pub resources_list_changed: bool,
    pub resources_subscribe: bool,
}

/// Identity and guidance handed to the protocol client at
/// initialization. The host adds the transport's protocol version when
/// it converts this into the wire shape.
pub struct ServerDetails {
    pub name: String,
    pub version: String,
    pub title: String,
    pub instructions: String,
}

/// The instruction text shown to clients for a given account.
pub open spec fn instructions_text(account: Seq<char>) -> Seq<char> {
    "Expose Signal conversations for account "@ + account
        + ". Use `signal_list_conversations` to fetch metadata, `signal_send_message` to send messages, or read `resource://signal/overview` for setup guidance."@
}

/// The long-lived server value: its immutable settings and the adapter
/// built from them.
pub struct Server {
    pub settings: Settings,
    pub signal_cli: SignalCli,
}

impl Server {
    /// Wires the server up from its settings: the adapter takes the
    /// configured executable path and account.
    pub fn new(settings: Settings) -> (r: Server)
        ensures
            r.settings.account@ == settings.account@,
            r.settings.signal_cli_path@ == settings.signal_cli_path@,
            r.settings.storage@ == settings.storage@,
            r.signal_cli.executable@ == settings.signal_cli_path@,
            r.signal_cli.account@ == settings.account@,
    {
        let signal_cli = SignalCli::new(settings.signal_cli_path.clone(), settings.account.clone());
        Server { settings, signal_cli }
    }

    /// The fixed capability declaration.
    pub fn server_capabilities(&self) -> (r: Capabilities)
        ensures
            r == (Capabilities {
                tools: true,
                tools_list_changed: false,
                resources: true,
                resources_list_changed: false,
                resources_subscribe: false,
            }),
    {
        Capabilities {
            tools: true,
            tools_list_changed: false,
            resources: true,
            resources_list_changed: false,
            resources_subscribe: false,
        }
    }

    /// The instruction text for this server's account.
    pub fn server_instructions(&self) -> (r: String)
        ensures
            r@ == instructions_text(self.settings.account@),
    {
        let mut s = String::from_str("Expose Signal conversations for account ");
        s.append(self.settings.account.as_str());
        s.append(
            ". Use `signal_list_conversations` to fetch metadata, `signal_send_message` to send messages, or read `resource://signal/overview` for setup guidance.",
        );
        s
    }

    /// The identity handed to the client: fixed name, this crate's
    /// version, and the instructions for the configured account.
    pub fn build_server_details(&self) -> (r: ServerDetails)
        ensures
            r.name@ == "signal-mcp-server"@,
            r.version@ == "0.1.0"@,
            r.title@ == "Signal MCP Server"@,
            r.instructions@ == instructions_text(self.settings.account@),
    {
        ServerDetails {
            name: String::from_str("signal-mcp-server"),
            version: String::from_str("0.1.0"),
            title: String::from_str("Signal MCP Server"),
            instructions: self.server_instructions(),
        }
    }
}

} // verus!
