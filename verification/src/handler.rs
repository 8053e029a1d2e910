//! The protocol request handler.
//!
//! Each of the four inbound request kinds is independent and stateless.
//! Every kind first requires the capability precondition to have held —
//! the host asks its runtime and hands the answer in — and then either
//! returns the fixed declarations, plans a tool call, or reads a
//! resource.

use vstd::prelude::*;

use crate::dispatch::{
    plan_call, plan_call_spec, ArgValue, CallPlan, CallPlanView, RpcFailure, ToolError,
    INVALID_PARAMS_CODE,
};
use crate::signal_cli::SignalCli;
use crate::tools::{
    build_list_conversations_tool, build_overview_resource, build_send_message_tool,
    lemma_overview_body_nonempty, list_conversations_tool_spec, overview_body, overview_resource_spec,
    overview_uri, send_message_tool_spec, ResourceEntry, ResourceEntryView, ToolDescriptor,
};

verus! {

/// The handler: the adapter it calls into and the fixed tool and
/// resource declarations it serves. Built once; read-only afterwards.
pub struct SignalMcpHandler {
    pub signal_cli: SignalCli,
    pub tools: Vec<ToolDescriptor>,
    pub resources: Vec<ResourceEntry>,
}

/// A successfully read resource, as returned to the protocol client:
/// the requested URI echoed back, a fixed markdown mime type, and the
/// body text.
#[derive(Debug)]
pub struct ReadOutcome {
    pub uri: String,
    pub mime_type: String,
    pub text: String,
}

/// What reading a URI from the resource list yields: the body of the
/// first entry with that URI, or the text naming the unknown URI.
pub open spec fn read_resource_spec(resources: Seq<ResourceEntryView>, uri: Seq<char>) -> Result<
    Seq<char>,
    Seq<char>,
>
    decreases resources.len(),
{
    if resources.len() == 0 {
        Err(unknown_resource_text(uri))
    } else if resources[0].descriptor.uri == uri {
        Ok(resources[0].body)
    } else {
        read_resource_spec(resources.drop_first(), uri)
    }
}

/// The error text for a URI no resource is registered under.
pub open spec fn unknown_resource_text(uri: Seq<char>) -> Seq<char> {
    "Unknown resource URI: "@ + uri
}

/// If the first `i` entries have other URIs and the `i`th matches, the
/// read yields the `i`th body.
proof fn lemma_read_resource_found(resources: Seq<ResourceEntryView>, uri: Seq<char>, i: int)
    requires
        0 <= i < resources.len(),
        forall|j: int| 0 <= j < i ==> resources[j].descriptor.uri != uri,
        resources[i].descriptor.uri == uri,
    ensures
        read_resource_spec(resources, uri) == Ok::<Seq<char>, Seq<char>>(resources[i].body),
    decreases i,
{
    if i > 0 {
        lemma_read_resource_found(resources.drop_first(), uri, i - 1);
    }
}

/// If no entry has the URI, the read fails with the text naming it.
proof fn lemma_read_resource_none(resources: Seq<ResourceEntryView>, uri: Seq<char>)
    requires
        forall|j: int| 0 <= j < resources.len() ==> resources[j].descriptor.uri != uri,
    ensures
        read_resource_spec(resources, uri) == Err::<Seq<char>, Seq<char>>(
            unknown_resource_text(uri),
        ),
    decreases resources.len(),
{
    if resources.len() > 0 {
        lemma_read_resource_none(resources.drop_first(), uri);
    }
}

impl SignalMcpHandler {
    /// Builds the handler around an adapter, declaring the two tools
    /// and the one resource.
    pub fn new(signal_cli: SignalCli) -> (r: SignalMcpHandler)
        ensures
            r.signal_cli.executable@ == signal_cli.executable@,
            r.signal_cli.account@ == signal_cli.account@,
            r.tools.deep_view() == seq![list_conversations_tool_spec(), send_message_tool_spec()],
            r.resources.deep_view() == seq![overview_resource_spec()],
    {
        let mut tools: Vec<ToolDescriptor> = Vec::new();
        tools.push(build_list_conversations_tool());
        tools.push(build_send_message_tool());
        let mut resources: Vec<ResourceEntry> = Vec::new();
        resources.push(build_overview_resource());
        proof {
            assert(tools.deep_view() =~= seq![
                list_conversations_tool_spec(),
                send_message_tool_spec(),
            ]);
            assert(resources.deep_view() =~= seq![overview_resource_spec()]);
        }
        SignalMcpHandler { signal_cli, tools, resources }
    }

    /// Answers a list-tools request: the full fixed tool list verbatim,
    /// unless the capability precondition already failed.
    pub fn handle_list_tools<'a>(&'a self, capability: Result<(), RpcFailure>) -> (r: Result<
        &'a Vec<ToolDescriptor>,
        RpcFailure,
    >)
        ensures
            r is Ok <==> capability is Ok,
            r is Ok ==> r->Ok_0 == &self.tools,
            capability matches Err(e) ==> r is Err && r->Err_0@ == e@,
    {
        match capability {
            Err(e) => Err(e),
            Ok(_) => Ok(&self.tools),
        }
    }

    /// Answers a list-resources request: the full fixed resource list
    /// verbatim, unless the capability precondition already failed.
    pub fn handle_list_resources<'a>(&'a self, capability: Result<(), RpcFailure>) -> (r: Result<
        &'a Vec<ResourceEntry>,
        RpcFailure,
    >)
        ensures
            r is Ok <==> capability is Ok,
            r is Ok ==> r->Ok_0 == &self.resources,
            capability matches Err(e) ==> r is Err && r->Err_0@ == e@,
    {
        match capability {
            Err(e) => Err(e),
            Ok(_) => Ok(&self.resources),
        }
    }

    /// Answers a call-tool request up to its subprocess work: a failed
    /// capability precondition becomes a tool-call error — the caller
    /// must see a failed tool invocation, not a transport failure —
    /// and otherwise the call is planned from its name and arguments.
    pub fn handle_call_tool(
        &self,
        capability: Result<(), RpcFailure>,
        name: &String,
        args: &Vec<(String, ArgValue)>,
    ) -> (r: CallPlan)
        ensures
            capability is Ok ==> r@ == plan_call_spec(name@, args.deep_view()),
            capability matches Err(e) ==> r@ == (CallPlanView::Reject { message: e.message@ }),
    {
        match capability {
            Err(e) => CallPlan::Reject { error: ToolError { message: e.message } },
            Ok(_) => plan_call(name, args),
        }
    }

    /// Answers a read-resource request: the body of the resource under
    /// the requested URI as a markdown document, or an
    /// invalid-parameters failure naming the URI. A failed capability
    /// precondition stays a protocol-level failure.
    pub fn handle_read_resource(&self, capability: Result<(), RpcFailure>, uri: &String) -> (r:
        Result<ReadOutcome, RpcFailure>)
        ensures
            capability matches Err(e) ==> r matches Err(e2) && e2@ == e@,
            capability is Ok ==> {
                &&& r is Ok <==> read_resource_spec(self.resources.deep_view(), uri@) is Ok
                &&& r is Ok ==> r->Ok_0.text@ == read_resource_spec(
                    self.resources.deep_view(),
                    uri@,
                )->Ok_0 && r->Ok_0.uri@ == uri@ && r->Ok_0.mime_type@ == "text/markdown"@
                &&& r is Err ==> r->Err_0@.message == unknown_resource_text(uri@)
                    && r->Err_0@.code == INVALID_PARAMS_CODE
            },
    {
        match capability {
            Err(e) => Err(e),
            Ok(_) => self.read_resource(uri),
        }
    }

    /// Looks the URI up in the resource list and shapes the document or
    /// the invalid-parameters failure.
    fn read_resource(&self, uri: &String) -> (r: Result<ReadOutcome, RpcFailure>)
        ensures
            r is Ok <==> read_resource_spec(self.resources.deep_view(), uri@) is Ok,
            r is Ok ==> r->Ok_0.text@ == read_resource_spec(self.resources.deep_view(), uri@)->Ok_0
                && r->Ok_0.uri@ == uri@ && r->Ok_0.mime_type@ == "text/markdown"@,
            r is Err ==> r->Err_0@.message == unknown_resource_text(uri@) && r->Err_0@.code
                == INVALID_PARAMS_CODE,
    {
        let ghost dv = self.resources.deep_view();
        let n = self.resources.len();
        let mut i: usize = 0;
        while i < n
            invariant
                n == self.resources@.len(),
                dv == self.resources.deep_view(),
                dv.len() == n,
                i <= n,
                forall|j: int| 0 <= j < i ==> dv[j].descriptor.uri != uri@,
            decreases n - i,
        {
            if self.resources[i].descriptor.uri == *uri {
                proof {
                    assert(dv[i as int].descriptor.uri == uri@);
                    lemma_read_resource_found(dv, uri@, i as int);
                }
                return Ok(
                    ReadOutcome {
                        uri: uri.clone(),
                        mime_type: String::from_str("text/markdown"),
                        text: self.resources[i].body.clone(),
                    },
                );
            }
            proof {
                assert(dv[i as int].descriptor.uri == self.resources@[i as int].descriptor.uri@);
            }
            i = i + 1;
        }
        proof {
            lemma_read_resource_none(dv, uri@);
        }
        let mut m = String::from_str("Unknown resource URI: ");
        m.append(uri.as_str());
        Err(RpcFailure { code: INVALID_PARAMS_CODE, message: m })
    }
}

/// Law: against the registry as built, reading the fixed overview URI
/// always succeeds with the overview's non-empty markdown body, and
/// reading any other URI fails with a text ending in the requested URI.
pub proof fn lemma_overview_always_resolves(resources: Seq<ResourceEntryView>, uri: Seq<char>)
    requires
        resources == seq![overview_resource_spec()],
    ensures
        uri == overview_uri() ==> read_resource_spec(resources, uri) == Ok::<Seq<char>, Seq<char>>(
            overview_body(),
        ) && overview_body().len() > 0,
        uri != overview_uri() ==> (read_resource_spec(resources, uri) matches Err(m) && m.len()
            >= uri.len() && m.subrange(m.len() - uri.len(), m.len() as int) == uri),
{
    lemma_overview_body_nonempty();
    assert(resources[0] == overview_resource_spec());
    if uri == overview_uri() {
        lemma_read_resource_found(resources, uri, 0);
    } else {
        assert(forall|j: int| 0 <= j < resources.len() ==> resources[j].descriptor.uri != uri);
        lemma_read_resource_none(resources, uri);
        let m = unknown_resource_text(uri);
        assert(m.subrange(("Unknown resource URI: "@).len() as int, m.len() as int) =~= uri);
    }
}

} // verus!
