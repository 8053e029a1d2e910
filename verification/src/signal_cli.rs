//! Adapter for the external `signal-cli` command-line messaging client.
//!
//! Every operation is one fresh subprocess. The library builds the
//! exact argument list for each operation and interprets the captured
//! outcome (exit status, standard output and error bytes) as domain
//! values; spawning the subprocess itself is left to the host.

use vstd::prelude::*;

use crate::json::{json_string_records, parse_string_records};
use crate::text::{lossy_text, trim_text, trimmed, utf8_lossy};

verus! {

/// Handle on the external command-line client: where the executable
/// lives and which account it is invoked for. Stateless; shared
/// read-only across calls.
#[derive(Debug, Clone)]
pub struct SignalCli {
    pub executable: String,
    pub account: String,
}

/// One conversation as reported by the external tool: a phone number
/// or group identifier, and a display name where one is known.
#[derive(Debug, Clone)]
pub struct ChatEntry {
    pub id: String,
    pub name: Option<String>,
}

/// The mathematical value of a `ChatEntry`.
pub struct ChatEntryView {
    pub id: Seq<char>,
    pub name: Option<Seq<char>>,
}

impl View for ChatEntry {
    type V = ChatEntryView;

    open spec fn view(&self) -> ChatEntryView {
        ChatEntryView { id: self.id@, name: crate::json::opt_text(self.name) }
    }
}

impl DeepView for ChatEntry {
    type V = ChatEntryView;

    open spec fn deep_view(&self) -> ChatEntryView {
        self.view()
    }
}

/// What the host captured from one finished subprocess: whether it
/// exited with status zero, and its standard output and error bytes.
#[derive(Debug, Clone)]
pub struct ProcessOutcome {
    pub success: bool,
    pub stdout: Vec<u8>,
    pub stderr: Vec<u8>,
}

/// The mathematical value of a `ProcessOutcome`.
pub struct ProcessOutcomeView {
    pub success: bool,
    pub stdout: Seq<u8>,
    pub stderr: Seq<u8>,
}

impl View for ProcessOutcome {
    type V = ProcessOutcomeView;

    open spec fn view(&self) -> ProcessOutcomeView {
        ProcessOutcomeView { success: self.success, stdout: self.stdout@, stderr: self.stderr@ }
    }
}

/// The three operations the adapter runs through the external tool.
#[derive(Clone, Copy, PartialEq, Eq, Structural, Debug)]
pub enum CliOp {
    ListContacts,
    ListGroups,
    Send,
}

/// The subcommand name of an operation, as it appears in the argument
/// list and in error messages.
pub open spec fn op_name(op: CliOp) -> Seq<char> {
    match op {
        CliOp::ListContacts => "listContacts"@,
        CliOp::ListGroups => "listGroups"@,
        CliOp::Send => "send"@,
    }
}

/// Why an adapter operation failed. Each variant keeps the cause text
/// it was built from, so no information is lost across layers.
#[derive(Debug)]
pub enum CliError {
    /// The subprocess could not be started at all.
    LaunchFailed { op: CliOp, detail: String },
    /// The subprocess exited with a non-zero status; carries its
    /// trimmed standard-error text.
    CommandFailed { op: CliOp, stderr: String },
    /// The subprocess succeeded but its standard output was not the
    /// expected JSON shape; carries the parser's message.
    ParseFailed { op: CliOp, cause: String },
}

/// The mathematical value of a `CliError`.
pub enum CliErrorView {
    LaunchFailed { op: CliOp, detail: Seq<char> },
    CommandFailed { op: CliOp, stderr: Seq<char> },
    ParseFailed { op: CliOp, cause: Seq<char> },
}

impl View for CliError {
    type V = CliErrorView;

    open spec fn view(&self) -> CliErrorView {
        match self {
            CliError::LaunchFailed { op, detail } => CliErrorView::LaunchFailed {
                op: *op,
                detail: detail@,
            },
            CliError::CommandFailed { op, stderr } => CliErrorView::CommandFailed {
                op: *op,
                stderr: stderr@,
            },
            CliError::ParseFailed { op, cause } => CliErrorView::ParseFailed {
                op: *op,
                cause: cause@,
            },
        }
    }
}

impl DeepView for CliError {
    type V = CliErrorView;

    open spec fn deep_view(&self) -> CliErrorView {
        self.view()
    }
}

/// The user-visible text of an adapter error.
pub open spec fn cli_error_text(e: CliErrorView) -> Seq<char> {
    match e {
        CliErrorView::LaunchFailed { op, detail } => "failed to execute signal-cli "@ + op_name(op)
            + ": "@ + detail,
        CliErrorView::CommandFailed { op, stderr } => "signal-cli "@ + op_name(op) + " failed: "@
            + stderr,
        CliErrorView::ParseFailed { op, cause } => "failed to parse signal-cli "@ + op_name(op)
            + " response: "@ + cause,
    }
}

impl CliError {
    /// Renders the error as the text shown to the caller.
    pub fn message(&self) -> (r: String)
        ensures
            r@ == cli_error_text(self@),
    {
        match self {
            CliError::LaunchFailed { op, detail } => {
                let mut s = String::from_str("failed to execute signal-cli ");
                s.append(op_name_text(*op));
                s.append(": ");
                s.append(detail.as_str());
                s
            },
            CliError::CommandFailed { op, stderr } => {
                let mut s = String::from_str("signal-cli ");
                s.append(op_name_text(*op));
                s.append(" failed: ");
                s.append(stderr.as_str());
                s
            },
            CliError::ParseFailed { op, cause } => {
                let mut s = String::from_str("failed to parse signal-cli ");
                s.append(op_name_text(*op));
                s.append(" response: ");
                s.append(cause.as_str());
                s
            },
        }
    }
}

/// The subcommand name of an operation as a string slice.
pub fn op_name_text(op: CliOp) -> (r: &'static str)
    ensures
        r@ == op_name(op),
{
    match op {
        CliOp::ListContacts => "listContacts",
        CliOp::ListGroups => "listGroups",
        CliOp::Send => "send",
    }
}

/// The entry a contact record yields: one whose `number` field is
/// absent yields nothing; otherwise the number is the identifier and
/// the trimmed `name` field is the display name, treated as absent
/// when empty after trimming.
pub open spec fn contact_entry_of(r: (Option<Seq<char>>, Option<Seq<char>>)) -> Option<
    ChatEntryView,
> {
    match r.0 {
        Some(number) => Some(ChatEntryView { id: number, name: trimmed_name(r.1) }),
        None => None,
    }
}

/// A contact's display name: the trimmed `name` field, absent when the
/// field is absent or empty after trimming.
pub open spec fn trimmed_name(name: Option<Seq<char>>) -> Option<Seq<char>> {
    match name {
        Some(n) => if trimmed(n).len() > 0 {
            Some(trimmed(n))
        } else {
            None
        },
        None => None,
    }
}

/// The entries a contact record list yields, in source order.
pub open spec fn contact_entries(recs: Seq<(Option<Seq<char>>, Option<Seq<char>>)>) -> Seq<
    ChatEntryView,
> {
    recs.filter_map(|r: (Option<Seq<char>>, Option<Seq<char>>)| contact_entry_of(r))
}

/// A group's display name: the trimmed `name` field if non-empty, else
/// the group's own identifier. Unlike contacts, a group always gets a
/// display name.
pub open spec fn group_display_name(id: Seq<char>, name: Option<Seq<char>>) -> Seq<char> {
    match name {
        Some(n) => if trimmed(n).len() > 0 {
            trimmed(n)
        } else {
            id
        },
        None => id,
    }
}

/// The entry a group record yields: one whose `id` field is absent
/// yields nothing; otherwise the identifier plus its display name.
pub open spec fn group_entry_of(r: (Option<Seq<char>>, Option<Seq<char>>)) -> Option<
    ChatEntryView,
> {
    match r.0 {
        Some(id) => Some(ChatEntryView { id: id, name: Some(group_display_name(id, r.1)) }),
        None => None,
    }
}

/// The entries a group record list yields, in source order.
pub open spec fn group_entries(recs: Seq<(Option<Seq<char>>, Option<Seq<char>>)>) -> Seq<
    ChatEntryView,
> {
    recs.filter_map(|r: (Option<Seq<char>>, Option<Seq<char>>)| group_entry_of(r))
}

/// What interpreting the contact-listing subprocess outcome yields: the
/// trimmed standard-error text as a failure when the exit status was
/// non-zero, a parse failure when the output is not a JSON array, and
/// the contact entries otherwise.
pub open spec fn contacts_outcome(out: ProcessOutcomeView) -> Result<Seq<ChatEntryView>, CliErrorView> {
    if !out.success {
        Err(
            CliErrorView::CommandFailed {
                op: CliOp::ListContacts,
                stderr: trimmed(utf8_lossy(out.stderr)),
            },
        )
    } else {
        match json_string_records(out.stdout, "number"@, "name"@) {
            Ok(recs) => Ok(contact_entries(recs)),
            Err(cause) => Err(CliErrorView::ParseFailed { op: CliOp::ListContacts, cause: cause }),
        }
    }
}

/// What interpreting the group-listing subprocess outcome yields.
pub open spec fn groups_outcome(out: ProcessOutcomeView) -> Result<Seq<ChatEntryView>, CliErrorView> {
    if !out.success {
        Err(
            CliErrorView::CommandFailed {
                op: CliOp::ListGroups,
                stderr: trimmed(utf8_lossy(out.stderr)),
            },
        )
    } else {
        match json_string_records(out.stdout, "id"@, "name"@) {
            Ok(recs) => Ok(group_entries(recs)),
            Err(cause) => Err(CliErrorView::ParseFailed { op: CliOp::ListGroups, cause: cause }),
        }
    }
}

/// What interpreting the send subprocess outcome yields: the trimmed
/// standard output as an opaque receipt (legitimately possibly empty),
/// or the trimmed standard-error text as a failure.
pub open spec fn send_outcome(out: ProcessOutcomeView) -> Result<Seq<char>, CliErrorView> {
    if !out.success {
        Err(CliErrorView::CommandFailed { op: CliOp::Send, stderr: trimmed(utf8_lossy(out.stderr)) })
    } else {
        Ok(trimmed(utf8_lossy(out.stdout)))
    }
}

impl SignalCli {
    /// A handle for a given executable path and account.
    pub fn new(executable: String, account: String) -> (r: SignalCli)
        ensures
            r.executable@ == executable@,
            r.account@ == account@,
    {
        SignalCli { executable, account }
    }

    /// The argument list for the contact-listing subcommand.
    pub fn list_contacts_command(&self) -> (r: Vec<String>)
        ensures
            r.deep_view() == seq!["--account"@, self.account@, "-o"@, "json"@, "listContacts"@],
    {
        let mut args: Vec<String> = Vec::new();
        args.push(String::from_str("--account"));
        args.push(self.account.clone());
        args.push(String::from_str("-o"));
        args.push(String::from_str("json"));
        args.push(String::from_str("listContacts"));
        proof {
            assert(args.deep_view() =~= seq![
                "--account"@,
                self.account@,
                "-o"@,
                "json"@,
                "listContacts"@,
            ]);
        }
        args
    }

    /// The argument list for the group-listing subcommand.
    pub fn list_groups_command(&self) -> (r: Vec<String>)
        ensures
            r.deep_view() == seq!["--account"@, self.account@, "-o"@, "json"@, "listGroups"@],
    {
        let mut args: Vec<String> = Vec::new();
        args.push(String::from_str("--account"));
        args.push(self.account.clone());
        args.push(String::from_str("-o"));
        args.push(String::from_str("json"));
        args.push(String::from_str("listGroups"));
        proof {
            assert(args.deep_view() =~= seq![
                "--account"@,
                self.account@,
                "-o"@,
                "json"@,
                "listGroups"@,
            ]);
        }
        args
    }

    /// The argument list for the send subcommand: the message body and
    /// the recipient, in that order.
    pub fn send_command(&self, recipient: &str, message: &str) -> (r: Vec<String>)
        ensures
            r.deep_view() == seq!["--account"@, self.account@, "send"@, "-m"@, message@, recipient@],
    {
        let mut args: Vec<String> = Vec::new();
        args.push(String::from_str("--account"));
        args.push(self.account.clone());
        args.push(String::from_str("send"));
        args.push(String::from_str("-m"));
        args.push(String::from_str(message));
        args.push(String::from_str(recipient));
        proof {
            assert(args.deep_view() =~= seq![
                "--account"@,
                self.account@,
                "send"@,
                "-m"@,
                message@,
                recipient@,
            ]);
        }
        args
    }

    /// Interprets the captured contact-listing outcome.
    pub fn contacts_from_output(out: &ProcessOutcome) -> (r: Result<Vec<ChatEntry>, CliError>)
        ensures
            r is Ok <==> contacts_outcome(out@) is Ok,
            r is Ok ==> r->Ok_0.deep_view() == contacts_outcome(out@)->Ok_0,
            r is Err ==> r->Err_0@ == contacts_outcome(out@)->Err_0,
    {
        if !out.success {
            let text = lossy_text(out.stderr.as_slice());
            let stderr = trim_text(text.as_str());
            return Err(CliError::CommandFailed { op: CliOp::ListContacts, stderr });
        }
        match parse_string_records(out.stdout.as_slice(), "number", "name") {
            Err(cause) => Err(CliError::ParseFailed { op: CliOp::ListContacts, cause }),
            Ok(recs) => Ok(entries_of_contacts(&recs)),
        }
    }

    /// Interprets the captured group-listing outcome.
    pub fn groups_from_output(out: &ProcessOutcome) -> (r: Result<Vec<ChatEntry>, CliError>)
        ensures
            r is Ok <==> groups_outcome(out@) is Ok,
            r is Ok ==> r->Ok_0.deep_view() == groups_outcome(out@)->Ok_0,
            r is Err ==> r->Err_0@ == groups_outcome(out@)->Err_0,
    {
        if !out.success {
            let text = lossy_text(out.stderr.as_slice());
            let stderr = trim_text(text.as_str());
            return Err(CliError::CommandFailed { op: CliOp::ListGroups, stderr });
        }
        match parse_string_records(out.stdout.as_slice(), "id", "name") {
            Err(cause) => Err(CliError::ParseFailed { op: CliOp::ListGroups, cause }),
            Ok(recs) => Ok(entries_of_groups(&recs)),
        }
    }

    /// Interprets the captured send outcome.
    pub fn send_receipt_from_output(out: &ProcessOutcome) -> (r: Result<String, CliError>)
        ensures
            r is Ok <==> send_outcome(out@) is Ok,
            r is Ok ==> r->Ok_0@ == send_outcome(out@)->Ok_0,
            r is Err ==> r->Err_0@ == send_outcome(out@)->Err_0,
    {
        if !out.success {
            let text = lossy_text(out.stderr.as_slice());
            let stderr = trim_text(text.as_str());
            return Err(CliError::CommandFailed { op: CliOp::Send, stderr });
        }
        let text = lossy_text(out.stdout.as_slice());
        Ok(trim_text(text.as_str()))
    }

    /// Appends the group entries after the contact entries: the full
    /// chat list holds all contacts first, then all groups, each part
    /// in its source order.
    pub fn combine_chats(contacts: Vec<ChatEntry>, groups: Vec<ChatEntry>) -> (r: Vec<ChatEntry>)
        ensures
            r.deep_view() == contacts.deep_view() + groups.deep_view(),
    {
        let ghost contacts_elems = contacts@;
        let ghost groups_elems = groups@;
        let ghost combined = contacts.deep_view() + groups.deep_view();
        let mut all = contacts;
        let mut rest = groups;
        all.append(&mut rest);
        proof {
            assert(all@ == contacts_elems + groups_elems);
            assert forall|j: int| 0 <= j < all.deep_view().len() implies all.deep_view()[j]
                == combined[j] by {
                if j < contacts_elems.len() {
                    assert(all@[j] == contacts_elems[j]);
                } else {
                    assert(all@[j] == groups_elems[j - contacts_elems.len()]);
                }
            }
            assert(all.deep_view() =~= combined);
        }
        all
    }
}

/// Builds the chat entries of a contact record list.
fn entries_of_contacts(recs: &Vec<(Option<String>, Option<String>)>) -> (r: Vec<ChatEntry>)
    ensures
        r.deep_view() == contact_entries(crate::json::records_view(recs@)),
{
    let ghost rv = crate::json::records_view(recs@);
    let mut entries: Vec<ChatEntry> = Vec::new();
    let n = recs.len();
    let mut i: usize = 0;
    proof {
        assert(rv.take(0) =~= Seq::empty());
        assert(entries.deep_view() =~= Seq::<ChatEntryView>::empty());
        assert(contact_entries(rv.take(0)) =~= Seq::<ChatEntryView>::empty());
    }
    while i < n
        invariant
            n == recs@.len(),
            rv == crate::json::records_view(recs@),
            rv.len() == n,
            i <= n,
            entries.deep_view() =~= contact_entries(rv.take(i as int)),
        decreases n - i,
    {
        proof {
            assert(rv[i as int] == crate::json::record_view(recs@[i as int]));
        }
        match &recs[i].0 {
            None => {
                proof {
                    lemma_contact_entries_take_succ(rv, i as int);
                }
            },
            Some(number) => {
                let name = match &recs[i].1 {
                    None => None,
                    Some(raw) => {
                        let t = trim_text(raw.as_str());
                        if t.as_str().is_empty() {
                            None
                        } else {
                            Some(t)
                        }
                    },
                };
                let entry = ChatEntry { id: number.clone(), name };
                proof {
                    assert(entry@ == contact_entry_of(rv[i as int])->Some_0);
                    lemma_contact_entries_take_succ(rv, i as int);
                }
                entries.push(entry);
                proof {
                    assert(entries.deep_view() =~= contact_entries(rv.take(i as int))
                        + seq![contact_entry_of(rv[i as int])->Some_0]);
                }
            },
        }
        i = i + 1;
    }
    proof {
        assert(rv.take(n as int) =~= rv);
    }
    entries
}

/// Builds the chat entries of a group record list.
fn entries_of_groups(recs: &Vec<(Option<String>, Option<String>)>) -> (r: Vec<ChatEntry>)
    ensures
        r.deep_view() == group_entries(crate::json::records_view(recs@)),
{
    let ghost rv = crate::json::records_view(recs@);
    let mut entries: Vec<ChatEntry> = Vec::new();
    let n = recs.len();
    let mut i: usize = 0;
    proof {
        assert(rv.take(0) =~= Seq::empty());
        assert(entries.deep_view() =~= Seq::<ChatEntryView>::empty());
        assert(group_entries(rv.take(0)) =~= Seq::<ChatEntryView>::empty());
    }
    while i < n
        invariant
            n == recs@.len(),
            rv == crate::json::records_view(recs@),
            rv.len() == n,
            i <= n,
            entries.deep_view() =~= group_entries(rv.take(i as int)),
        decreases n - i,
    {
        proof {
            assert(rv[i as int] == crate::json::record_view(recs@[i as int]));
        }
        match &recs[i].0 {
            None => {
                proof {
                    lemma_group_entries_take_succ(rv, i as int);
                }
            },
            Some(id) => {
                let display = match &recs[i].1 {
                    None => id.clone(),
                    Some(raw) => {
                        let t = trim_text(raw.as_str());
                        if t.as_str().is_empty() {
                            id.clone()
                        } else {
                            t
                        }
                    },
                };
                let entry = ChatEntry { id: id.clone(), name: Some(display) };
                proof {
                    assert(entry@ == group_entry_of(rv[i as int])->Some_0);
                    lemma_group_entries_take_succ(rv, i as int);
                }
                entries.push(entry);
                proof {
                    assert(entries.deep_view() =~= group_entries(rv.take(i as int))
                        + seq![group_entry_of(rv[i as int])->Some_0]);
                }
            },
        }
        i = i + 1;
    }
    proof {
        assert(rv.take(n as int) =~= rv);
    }
    entries
}

/// One step of the contact-entry recursion: extending the prefix by a
/// record adds its entry, or nothing when the record yields none.
proof fn lemma_contact_entries_take_succ(recs: Seq<(Option<Seq<char>>, Option<Seq<char>>)>, i: int)
    requires
        0 <= i < recs.len(),
    ensures
        contact_entries(recs.take(i + 1)) =~= contact_entries(recs.take(i)) + match contact_entry_of(
            recs[i],
        ) {
            Some(e) => seq![e],
            None => Seq::<ChatEntryView>::empty(),
        },
{
    recs.lemma_filter_map_take_succ(
        |r: (Option<Seq<char>>, Option<Seq<char>>)| contact_entry_of(r),
        i,
    );
}

/// One step of the group-entry recursion.
proof fn lemma_group_entries_take_succ(recs: Seq<(Option<Seq<char>>, Option<Seq<char>>)>, i: int)
    requires
        0 <= i < recs.len(),
    ensures
        group_entries(recs.take(i + 1)) =~= group_entries(recs.take(i)) + match group_entry_of(
            recs[i],
        ) {
            Some(e) => seq![e],
            None => Seq::<ChatEntryView>::empty(),
        },
{
    recs.lemma_filter_map_take_succ(
        |r: (Option<Seq<char>>, Option<Seq<char>>)| group_entry_of(r),
        i,
    );
}

/// Law: a contact record whose `number` field is absent is omitted —
/// the entry list of a record list equals that of the list with such a
/// record removed, so the remaining entries keep their relative order.
pub proof fn lemma_contact_without_number_omitted(
    recs: Seq<(Option<Seq<char>>, Option<Seq<char>>)>,
    i: int,
)
    requires
        0 <= i < recs.len(),
        recs[i].0 is None,
    ensures
        contact_entries(recs) =~= contact_entries(recs.remove(i)),
    decreases recs.len(),
{
    let f = |r: (Option<Seq<char>>, Option<Seq<char>>)| contact_entry_of(r);
    if i == recs.len() - 1 {
        assert(recs.remove(i) =~= recs.drop_last());
        assert(recs.filter_map(f) == recs.drop_last().filter_map(f));
    } else {
        let shorter = recs.drop_last();
        lemma_contact_without_number_omitted(shorter, i);
        assert(recs.remove(i).drop_last() =~= shorter.remove(i));
        assert(recs.remove(i).last() == recs.last());
        assert(recs.remove(i).len() > 0);
        match f(recs.last()) {
            Some(e) => {
                assert(recs.filter_map(f) == shorter.filter_map(f) + seq![e]);
                assert(recs.remove(i).filter_map(f) == recs.remove(i).drop_last().filter_map(f)
                    + seq![e]);
            },
            None => {
                assert(recs.filter_map(f) == shorter.filter_map(f));
                assert(recs.remove(i).filter_map(f) == recs.remove(i).drop_last().filter_map(f));
            },
        }
    }
}

/// Law: the display name of every group entry equals the trimmed
/// `name` field if that is non-empty, else the group's own identifier.
pub proof fn lemma_group_display_name(r: (Option<Seq<char>>, Option<Seq<char>>))
    requires
        r.0 is Some,
    ensures
        group_entry_of(r)->Some_0.name == Some(
            if r.1 is Some && trimmed(r.1->Some_0).len() > 0 {
                trimmed(r.1->Some_0)
            } else {
                r.0->Some_0
            },
        ),
{
}

/// Law: in a combined chat list, every contact entry stands before
/// every group entry, and each part keeps its source order.
pub proof fn lemma_contacts_precede_groups(contacts: Seq<ChatEntryView>, groups: Seq<ChatEntryView>)
    ensures
        forall|i: int| 0 <= i < contacts.len() ==> (contacts + groups)[i] == contacts[i],
        forall|j: int|
            0 <= j < groups.len() ==> (contacts + groups)[contacts.len() + j] == groups[j],
{
}

} // verus!
