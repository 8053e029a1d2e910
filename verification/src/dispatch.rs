//! Routing tool calls and shaping their results.
//!
//! A call is dispatched in two halves, because the adapter's work runs
//! in a subprocess outside the library: `plan_call` decides from the
//! tool name and arguments what has to run (or rejects the call before
//! anything runs), and the `finish_*` functions turn the adapter's
//! results into the text or error the caller sees.

use vstd::prelude::*;

use crate::signal_cli::{cli_error_text, ChatEntry, ChatEntryView, CliError};
use crate::text::{trim_text, trimmed};
use crate::tools::{lookup_tool, lookup_tool_spec, ToolKind};

verus! {

/// A failed tool invocation, reported to the caller as a tool-call
/// error result, never as a transport failure.
#[derive(Debug)]
pub struct ToolError {
    pub message: String,
}

impl View for ToolError {
    type V = Seq<char>;

    open spec fn view(&self) -> Seq<char> {
        self.message@
    }
}

/// A protocol-level error: a numeric code and a message.
#[derive(Debug)]
pub struct RpcFailure {
    pub code: i64,
    pub message: String,
}

/// The mathematical value of an `RpcFailure`.
pub struct RpcFailureView {
    pub code: i64,
    pub message: Seq<char>,
}

impl View for RpcFailure {
    type V = RpcFailureView;

    open spec fn view(&self) -> RpcFailureView {
        RpcFailureView { code: self.code, message: self.message@ }
    }
}

/// The protocol's code for a request with invalid parameters.
pub const INVALID_PARAMS_CODE: i64 = -32602;

/// One argument value as handed over the protocol: a JSON string, or a
/// value of any other JSON type, whose contents the dispatch rules
/// never read.
#[derive(Debug)]
pub enum ArgValue {
    Text(String),
    Other,
}

/// The mathematical value of an `ArgValue`.
pub enum ArgValueView {
    Text(Seq<char>),
    Other,
}

impl View for ArgValue {
    type V = ArgValueView;

    open spec fn view(&self) -> ArgValueView {
        match self {
            ArgValue::Text(s) => ArgValueView::Text(s@),
            ArgValue::Other => ArgValueView::Other,
        }
    }
}

impl DeepView for ArgValue {
    type V = ArgValueView;

    open spec fn deep_view(&self) -> ArgValueView {
        self.view()
    }
}

/// The arguments of the message-sending tool.
#[derive(Debug)]
pub struct SendMessageArgs {
    pub recipient: String,
    pub message: String,
}

/// The mathematical value of a `SendMessageArgs`.
pub struct SendMessageArgsView {
    pub recipient: Seq<char>,
    pub message: Seq<char>,
}

impl View for SendMessageArgs {
    type V = SendMessageArgsView;

    open spec fn view(&self) -> SendMessageArgsView {
        SendMessageArgsView { recipient: self.recipient@, message: self.message@ }
    }
}

/// The value bound to a key in an argument list: the first entry with
/// that key, as in a JSON object read front to back.
pub open spec fn arg_lookup(args: Seq<(Seq<char>, ArgValueView)>, key: Seq<char>) -> Option<
    ArgValueView,
>
    decreases args.len(),
{
    if args.len() == 0 {
        None
    } else if args[0].0 == key {
        Some(args[0].1)
    } else {
        arg_lookup(args.drop_first(), key)
    }
}

/// The error text for an argument list missing a required field.
pub open spec fn missing_field_text(key: Seq<char>) -> Seq<char> {
    "missing field `"@ + key + "`"@
}

/// The error text for a required field that is not a string.
pub open spec fn invalid_field_text(key: Seq<char>) -> Seq<char> {
    "invalid type for field `"@ + key + "`: expected a string"@
}

/// What deserializing the send arguments yields: both required string
/// fields, or the text naming the first missing or non-string field,
/// `recipient` checked before `message`.
pub open spec fn send_args_spec(args: Seq<(Seq<char>, ArgValueView)>) -> Result<
    SendMessageArgsView,
    Seq<char>,
> {
    match arg_lookup(args, "recipient"@) {
        None => Err(missing_field_text("recipient"@)),
        Some(ArgValueView::Other) => Err(invalid_field_text("recipient"@)),
        Some(ArgValueView::Text(recipient)) => match arg_lookup(args, "message"@) {
            None => Err(missing_field_text("message"@)),
            Some(ArgValueView::Other) => Err(invalid_field_text("message"@)),
            Some(ArgValueView::Text(message)) => Ok(SendMessageArgsView { recipient, message }),
        },
    }
}

/// If the first `i` keys differ from `key` and the `i`th matches, the
/// lookup returns the `i`th value.
proof fn lemma_arg_lookup_first(args: Seq<(Seq<char>, ArgValueView)>, key: Seq<char>, i: int)
    requires
        0 <= i < args.len(),
        forall|j: int| 0 <= j < i ==> args[j].0 != key,
        args[i].0 == key,
    ensures
        arg_lookup(args, key) == Some(args[i].1),
    decreases i,
{
    if i > 0 {
        lemma_arg_lookup_first(args.drop_first(), key, i - 1);
    }
}

/// If no key matches, the lookup returns nothing.
proof fn lemma_arg_lookup_none(args: Seq<(Seq<char>, ArgValueView)>, key: Seq<char>)
    requires
        forall|j: int| 0 <= j < args.len() ==> args[j].0 != key,
    ensures
        arg_lookup(args, key) is None,
    decreases args.len(),
{
    if args.len() > 0 {
        lemma_arg_lookup_none(args.drop_first(), key);
    }
}

/// Finds the first entry with the given key: its index, or nothing.
fn find_arg(args: &Vec<(String, ArgValue)>, key: &str) -> (r: Option<usize>)
    ensures
        match r {
            Some(i) => arg_lookup(args.deep_view(), key@) == Some(args.deep_view()[i as int].1)
                && i < args@.len(),
            None => arg_lookup(args.deep_view(), key@) is None,
        },
{
    let ghost dv = args.deep_view();
    let n = args.len();
    let key_string = String::from_str(key);
    let mut i: usize = 0;
    while i < n
        invariant
            n == args@.len(),
            dv == args.deep_view(),
            dv.len() == n,
            key_string@ == key@,
            i <= n,
            forall|j: int| 0 <= j < i ==> dv[j].0 != key@,
        decreases n - i,
    {
        if args[i].0 == key_string {
            proof {
                assert(dv[i as int].0 == key@);
                lemma_arg_lookup_first(dv, key@, i as int);
            }
            return Some(i);
        }
        proof {
            assert(dv[i as int].0 == args@[i as int].0@);
        }
        i = i + 1;
    }
    proof {
        lemma_arg_lookup_none(dv, key@);
    }
    None
}

/// Deserializes the send arguments out of an argument list, rejecting
/// a list whose required fields are missing or not strings.
pub fn parse_send_args(args: &Vec<(String, ArgValue)>) -> (r: Result<SendMessageArgs, ToolError>)
    ensures
        r is Ok <==> send_args_spec(args.deep_view()) is Ok,
        r is Ok ==> r->Ok_0@ == send_args_spec(args.deep_view())->Ok_0,
        r is Err ==> r->Err_0@ == send_args_spec(args.deep_view())->Err_0,
{
    let recipient = match find_arg(args, "recipient") {
        None => {
            let mut m = String::from_str("missing field `");
            m.append("recipient");
            m.append("`");
            return Err(ToolError { message: m });
        },
        Some(i) => match &args[i].1 {
            ArgValue::Other => {
                let mut m = String::from_str("invalid type for field `");
                m.append("recipient");
                m.append("`: expected a string");
                return Err(ToolError { message: m });
            },
            ArgValue::Text(s) => s.clone(),
        },
    };
    let message = match find_arg(args, "message") {
        None => {
            let mut m = String::from_str("missing field `");
            m.append("message");
            m.append("`");
            return Err(ToolError { message: m });
        },
        Some(i) => match &args[i].1 {
            ArgValue::Other => {
                let mut m = String::from_str("invalid type for field `");
                m.append("message");
                m.append("`: expected a string");
                return Err(ToolError { message: m });
            },
            ArgValue::Text(s) => s.clone(),
        },
    };
    Ok(SendMessageArgs { recipient, message })
}

/// What the dispatcher decides to do with a call, before any
/// subprocess runs.
#[derive(Debug)]
pub enum CallPlan {
    /// Run the two listing subprocesses and report the chat list.
    RunListChats,
    /// Run the send subprocess with these arguments.
    RunSend { recipient: String, message: String },
    /// Answer with a tool-call error; nothing runs.
    Reject { error: ToolError },
}

/// The mathematical value of a `CallPlan`.
pub enum CallPlanView {
    RunListChats,
    RunSend { recipient: Seq<char>, message: Seq<char> },
    Reject { message: Seq<char> },
}

impl View for CallPlan {
    type V = CallPlanView;

    open spec fn view(&self) -> CallPlanView {
        match self {
            CallPlan::RunListChats => CallPlanView::RunListChats,
            CallPlan::RunSend { recipient, message } => CallPlanView::RunSend {
                recipient: recipient@,
                message: message@,
            },
            CallPlan::Reject { error } => CallPlanView::Reject { message: error@ },
        }
    }
}

/// The error text for a tool name the registry does not know.
pub open spec fn unknown_tool_text(name: Seq<char>) -> Seq<char> {
    "Unknown tool: "@ + name
}

/// The error text for a send whose message is empty after trimming.
pub open spec fn empty_message_text() -> Seq<char> {
    "message text must not be empty"@
}

/// What a call of the given tool name and arguments leads to: the
/// listing run, the send run with its deserialized arguments, or a
/// rejection — for an unknown name, ill-shaped arguments, or a message
/// that is empty after trimming, in that order of checks.
pub open spec fn plan_call_spec(name: Seq<char>, args: Seq<(Seq<char>, ArgValueView)>) -> CallPlanView {
    match lookup_tool_spec(name) {
        None => CallPlanView::Reject { message: unknown_tool_text(name) },
        Some(ToolKind::ListConversations) => CallPlanView::RunListChats,
        Some(ToolKind::SendMessage) => match send_args_spec(args) {
            Err(m) => CallPlanView::Reject { message: m },
            Ok(a) => if trimmed(a.message).len() == 0 {
                CallPlanView::Reject { message: empty_message_text() }
            } else {
                CallPlanView::RunSend { recipient: a.recipient, message: a.message }
            },
        },
    }
}

/// Decides what a call runs, validating before anything is spawned.
pub fn plan_call(name: &String, args: &Vec<(String, ArgValue)>) -> (r: CallPlan)
    ensures
        r@ == plan_call_spec(name@, args.deep_view()),
{
    match lookup_tool(name) {
        None => {
            let mut m = String::from_str("Unknown tool: ");
            m.append(name.as_str());
            CallPlan::Reject { error: ToolError { message: m } }
        },
        Some(ToolKind::ListConversations) => CallPlan::RunListChats,
        Some(ToolKind::SendMessage) => match parse_send_args(args) {
            Err(e) => CallPlan::Reject { error: e },
            Ok(a) => {
                let t = trim_text(a.message.as_str());
                if t.as_str().is_empty() {
                    CallPlan::Reject {
                        error: ToolError {
                            message: String::from_str("message text must not be empty"),
                        },
                    }
                } else {
                    CallPlan::RunSend { recipient: a.recipient, message: a.message }
                }
            },
        },
    }
}

/// The line shown for one chat entry: its identifier and its display
/// name, or a fixed placeholder where none is known.
pub open spec fn chat_line(c: ChatEntryView) -> Seq<char> {
    c.id + " — "@ + chat_label(c.name)
}

/// The display name shown for a chat entry.
pub open spec fn chat_label(name: Option<Seq<char>>) -> Seq<char> {
    match name {
        Some(n) => n,
        None => "<unnamed>"@,
    }
}

/// The chat lines joined by newlines, in order.
pub open spec fn chat_lines(chats: Seq<ChatEntryView>) -> Seq<char>
    decreases chats.len(),
{
    if chats.len() == 0 {
        Seq::empty()
    } else if chats.len() == 1 {
        chat_line(chats[0])
    } else {
        chat_lines(chats.drop_last()) + "\n"@ + chat_line(chats.last())
    }
}

/// The text answering a conversation listing: one line per entry, or a
/// fixed line when no conversation was found.
pub open spec fn list_conversations_text(chats: Seq<ChatEntryView>) -> Seq<char> {
    if chats.len() == 0 {
        "No Signal conversations found."@
    } else {
        chat_lines(chats)
    }
}

/// Renders one chat entry's line.
fn format_chat_line(entry: &ChatEntry) -> (r: String)
    ensures
        r@ == chat_line(entry@),
{
    let mut line = entry.id.clone();
    line.append(" — ");
    match &entry.name {
        Some(n) => line.append(n.as_str()),
        None => line.append("<unnamed>"),
    }
    line
}

/// Renders the text answering a conversation listing.
pub fn format_conversations(chats: &Vec<ChatEntry>) -> (r: String)
    ensures
        r@ == list_conversations_text(chats.deep_view()),
{
    let ghost dv = chats.deep_view();
    let n = chats.len();
    if n == 0 {
        return String::from_str("No Signal conversations found.");
    }
    let mut text = format_chat_line(&chats[0]);
    proof {
        assert(dv.take(1) =~= seq![dv[0]]);
        assert(chats[0 as int]@ == dv[0]);
    }
    let mut i: usize = 1;
    while i < n
        invariant
            n == chats@.len(),
            dv == chats.deep_view(),
            dv.len() == n,
            1 <= i <= n,
            text@ == chat_lines(dv.take(i as int)),
        decreases n - i,
    {
        text.append("\n");
        let line = format_chat_line(&chats[i]);
        text.append(line.as_str());
        proof {
            assert(chats[i as int]@ == dv[i as int]);
            assert(dv.take(i as int + 1).drop_last() =~= dv.take(i as int));
            assert(dv.take(i as int + 1).last() == dv[i as int]);
        }
        i = i + 1;
    }
    proof {
        assert(dv.take(n as int) =~= dv);
    }
    text
}

/// What finishing a conversation listing yields: the listing text on
/// success, else a tool-call error naming the failed operation.
pub open spec fn list_tool_outcome(res: Result<Seq<ChatEntryView>, crate::signal_cli::CliErrorView>) -> Result<
    Seq<char>,
    Seq<char>,
> {
    match res {
        Ok(chats) => Ok(list_conversations_text(chats)),
        Err(e) => Err("signal-cli listChats failed: "@ + cli_error_text(e)),
    }
}

/// Turns the adapter's chat list (or failure) into the tool result.
pub fn finish_list_conversations(res: Result<Vec<ChatEntry>, CliError>) -> (r: Result<
    String,
    ToolError,
>)
    ensures
        r is Ok <==> res is Ok,
        r is Ok ==> r->Ok_0@ == list_tool_outcome(
            Ok(res->Ok_0.deep_view()),
        )->Ok_0,
        r is Err ==> r->Err_0@ == list_tool_outcome(
            Err::<Seq<ChatEntryView>, crate::signal_cli::CliErrorView>(res->Err_0@),
        )->Err_0,
{
    match res {
        Ok(chats) => Ok(format_conversations(&chats)),
        Err(e) => {
            let mut m = String::from_str("signal-cli listChats failed: ");
            let detail = e.message();
            m.append(detail.as_str());
            Err(ToolError { message: m })
        },
    }
}

/// The confirmation text for a delivered message: the recipient and
/// the raw receipt, plus an explicit note when the receipt is empty —
/// never just a blank line.
pub open spec fn send_confirmation(recipient: Seq<char>, receipt: Seq<char>) -> Seq<char> {
    let base = "Message delivered to "@ + recipient + "\nsignal-cli response: "@ + receipt;
    if receipt.len() == 0 {
        base + "\nNo response payload from signal-cli"@
    } else {
        base
    }
}

/// What finishing a send yields: the confirmation on success, else a
/// tool-call error carrying the adapter's cause text.
pub open spec fn send_tool_outcome(
    recipient: Seq<char>,
    res: Result<Seq<char>, crate::signal_cli::CliErrorView>,
) -> Result<Seq<char>, Seq<char>> {
    match res {
        Ok(receipt) => Ok(send_confirmation(recipient, receipt)),
        Err(e) => Err("signal-cli send failed: "@ + cli_error_text(e)),
    }
}

/// Turns the adapter's send receipt (or failure) into the tool result.
pub fn finish_send(recipient: &String, res: Result<String, CliError>) -> (r: Result<
    String,
    ToolError,
>)
    ensures
        r is Ok <==> res is Ok,
        r is Ok ==> r->Ok_0@ == send_tool_outcome(recipient@, Ok(res->Ok_0@))->Ok_0,
        r is Err ==> r->Err_0@ == send_tool_outcome(
            recipient@,
            Err::<Seq<char>, crate::signal_cli::CliErrorView>(res->Err_0@),
        )->Err_0,
{
    match res {
        Ok(receipt) => {
            let mut s = String::from_str("Message delivered to ");
            s.append(recipient.as_str());
            s.append("\nsignal-cli response: ");
            s.append(receipt.as_str());
            if receipt.as_str().is_empty() {
                s.append("\nNo response payload from signal-cli");
            }
            Ok(s)
        },
        Err(e) => {
            let mut m = String::from_str("signal-cli send failed: ");
            let detail = e.message();
            m.append(detail.as_str());
            Err(ToolError { message: m })
        },
    }
}

/// Law: a send call whose message is empty after trimming is rejected
/// by the plan itself, so no subprocess is ever planned for it.
pub proof fn lemma_empty_message_rejected(name: Seq<char>, args: Seq<(Seq<char>, ArgValueView)>)
    requires
        lookup_tool_spec(name) == Some(ToolKind::SendMessage),
        send_args_spec(args) matches Ok(a) && trimmed(a.message).len() == 0,
    ensures
        plan_call_spec(name, args) == (CallPlanView::Reject { message: empty_message_text() }),
{
}

/// Law: a call of a tool name the registry does not know is rejected
/// with an error whose text ends in the requested name.
pub proof fn lemma_unknown_tool_error_names_tool(
    name: Seq<char>,
    args: Seq<(Seq<char>, ArgValueView)>,
)
    requires
        lookup_tool_spec(name) is None,
    ensures
        plan_call_spec(name, args) matches CallPlanView::Reject { message } && message.len()
            >= name.len() && message.subrange(
            message.len() - name.len(),
            message.len() as int,
        ) == name,
{
    let prefix = "Unknown tool: "@;
    let message = unknown_tool_text(name);
    assert(message.subrange(prefix.len() as int, message.len() as int) =~= name);
}

/// Law: a successful send with an empty receipt is confirmed with the
/// explicit note, appended after the response line.
pub proof fn lemma_empty_receipt_noted(recipient: Seq<char>)
    ensures
        send_confirmation(recipient, Seq::empty()) == "Message delivered to "@ + recipient
            + "\nsignal-cli response: "@ + Seq::<char>::empty()
            + "\nNo response payload from signal-cli"@,
{
}

} // verus!
