use vstd::prelude::*;

use crate::handle::{Handle, HandleView};
use crate::mail::entries::{
    InAck, InMail, InMailView, OutAck, PendingAck, PendingAckView, PendingMail, PendingMailView,
};
use crate::mail::outmail::{OutMail, OutMailView};
use crate::protocol::{DirectMessageProtocol, MessageView};
use crate::signal_protocol::{SignalProtocol, SignalView};

verus! {

/// Address of an entry on the source chain or the DHT (its hash, as a string).
pub type Address = String;

/// Address of an agent (its public key, as a string).
pub type AgentAddress = Address;

/// Errors of the zome API.
#[derive(Debug, PartialEq, Eq)]
pub enum ZomeApiError {
    Internal(String),
    FunctionNotImplemented,
    HashNotFound,
    ValidationFailed(String),
    Timeout,
}

pub type ZomeApiResult<T> = Result<T, ZomeApiError>;

/// The entry types this zome defines.
#[derive(Debug, PartialEq, Eq)]
pub enum EntryKind {
    Handle,
    InMail,
    OutMail,
    InAck,
    OutAck,
    PendingAck,
    PendingMail,
}

impl EntryKind {
    pub open spec fn spec_name(self) -> Seq<char> {
        match self {
            EntryKind::Handle => "handle"@,
            EntryKind::InMail => "inmail"@,
            EntryKind::OutMail => "outmail"@,
            EntryKind::InAck => "inack"@,
            EntryKind::OutAck => "outack"@,
            EntryKind::PendingAck => "pending_ack"@,
            EntryKind::PendingMail => "pendingmail"@,
        }
    }

    /// The entry type name under which entries of this kind are committed.
    pub fn name(&self) -> (res: &'static str)
        ensures
            res@ == self.spec_name(),
    {
        match self {
            EntryKind::Handle => "handle",
            EntryKind::InMail => "inmail",
            EntryKind::OutMail => "outmail",
            EntryKind::InAck => "inack",
            EntryKind::OutAck => "outack",
            EntryKind::PendingAck => "pending_ack",
            EntryKind::PendingMail => "pendingmail",
        }
    }
}

/// The link types this zome uses.
#[derive(Debug, PartialEq, Eq, Structural, Clone, Copy)]
pub enum LinkKind {
    Handle,
    Member,
    Acknowledgment,
    AcknowledgmentEncrypted,
    AcknowledgmentPrivate,
    ReceiptEncrypted,
    ReceiptPrivate,
    Pending,
    AckInbox,
}

impl LinkKind {
    pub open spec fn spec_name(self) -> Seq<char> {
        match self {
            LinkKind::Handle => "handle"@,
            LinkKind::Member => "member"@,
            LinkKind::Acknowledgment => "acknowledgment"@,
            LinkKind::AcknowledgmentEncrypted => "acknowledgment_encrypted"@,
            LinkKind::AcknowledgmentPrivate => "acknowledgment_private"@,
            LinkKind::ReceiptEncrypted => "receipt_encrypted"@,
            LinkKind::ReceiptPrivate => "receipt_private"@,
            LinkKind::Pending => "pending"@,
            LinkKind::AckInbox => "ack_inbox"@,
        }
    }

    /// The link type name under which links of this kind are stored.
    pub fn name(&self) -> (res: &'static str)
        ensures
            res@ == self.spec_name(),
    {
        match self {
            LinkKind::Handle => "handle",
            LinkKind::Member => "member",
            LinkKind::Acknowledgment => "acknowledgment",
            LinkKind::AcknowledgmentEncrypted => "acknowledgment_encrypted",
            LinkKind::AcknowledgmentPrivate => "acknowledgment_private",
            LinkKind::ReceiptEncrypted => "receipt_encrypted",
            LinkKind::ReceiptPrivate => "receipt_private",
            LinkKind::Pending => "pending",
            LinkKind::AckInbox => "ack_inbox",
        }
    }
}

/// The content of an entry, decoded by its entry type.
#[derive(Debug, PartialEq, Eq)]
pub enum AppEntry {
    Handle(Handle),
    InMail(InMail),
    OutMail(OutMail),
    InAck(InAck),
    OutAck(OutAck),
    PendingAck(PendingAck),
    PendingMail(PendingMail),
    /// An entry of a type this zome does not define, by its type name.
    Other(String),
}

/// An entry together with its address.
#[derive(Debug, PartialEq, Eq)]
pub struct Entry {
    pub address: Address,
    pub content: AppEntry,
}

/// A request of a zome function to the Holochain host.
#[derive(Debug, PartialEq, Eq)]
pub enum HostCall {
    /// The targets of the links of `kind` from `base`.
    GetLinks { base: Address, kind: LinkKind },
    /// The number of links of `kind` from `base`.
    CountLinks { base: Address, kind: LinkKind },
    /// The latest version of the entry stored at `address`, if any, with
    /// that version's own address.
    GetEntry { address: Address },
    /// The InMail stored at `address`.
    GetInMail { address: Address },
    /// Commit `entry` to the source chain; answers its address.
    CommitEntry { entry: AppEntry },
    /// Commit `entry` as the new version of the entry at `old_address`; answers its address.
    UpdateEntry { entry: AppEntry, old_address: Address },
    /// Link `base` to `target`; answers the link's address.
    LinkEntries { base: Address, target: Address, kind: LinkKind, tag: String },
    /// Remove the link from `base` to `target`.
    RemoveLink { base: Address, target: Address, kind: LinkKind, tag: String },
    /// Mark the entry at `address` as deleted.
    RemoveEntry { address: Address },
    /// Send `message` to the agent `to` and wait for its answer.
    Send { to: AgentAddress, message: DirectMessageProtocol },
    /// Emit `signal` to the user interface under `name`.
    EmitSignal { name: String, signal: SignalProtocol },
    /// The address of this agent's Handle entry, if it has one.
    GetMyHandleEntry,
    /// The PendingAck stored at `address`, with its author.
    GetPendingAck { address: Address },
    /// Commit an InAck for the mail at `outmail_address`, acknowledged by `from`; answers its address.
    CommitInAck { outmail_address: Address, from: AgentAddress },
}

/// The host's answer to a `HostCall`.
#[derive(Debug, PartialEq, Eq)]
pub enum HostReply {
    /// Answers `GetLinks`.
    Links(ZomeApiResult<Vec<Address>>),
    /// Answers `CountLinks`.
    LinkCount(ZomeApiResult<usize>),
    /// Answers `GetEntry`.
    Entry(ZomeApiResult<Option<Entry>>),
    /// Answers `GetInMail`.
    InMail(ZomeApiResult<InMail>),
    /// Answers `CommitEntry`, `UpdateEntry`, `LinkEntries` and `CommitInAck`.
    Address(ZomeApiResult<Address>),
    /// Answers `RemoveLink`, `RemoveEntry` and `EmitSignal`.
    Unit(ZomeApiResult<()>),
    /// Answers `Send`: the transport's error, or the answer as parsed
    /// (`Err` holds the text of the parse error).
    Answer(ZomeApiResult<Result<DirectMessageProtocol, String>>),
    /// Answers `GetMyHandleEntry`.
    MyHandle(Option<Address>),
    /// Answers `GetPendingAck`.
    PendingAck(ZomeApiResult<(AgentAddress, PendingAck)>),
}

/// What a zome function does next: ask the host, or return its result.
#[derive(Debug, PartialEq, Eq)]
pub enum Action<R> {
    Call(HostCall),
    Return(R),
}

/// A zome API error, as values.
pub enum ErrorView {
    Internal(Seq<char>),
    FunctionNotImplemented,
    HashNotFound,
    ValidationFailed(Seq<char>),
    Timeout,
}

impl View for ZomeApiError {
    type V = ErrorView;

    open spec fn view(&self) -> ErrorView {
        match self {
            ZomeApiError::Internal(s) => ErrorView::Internal(s@),
            ZomeApiError::FunctionNotImplemented => ErrorView::FunctionNotImplemented,
            ZomeApiError::HashNotFound => ErrorView::HashNotFound,
            ZomeApiError::ValidationFailed(s) => ErrorView::ValidationFailed(s@),
            ZomeApiError::Timeout => ErrorView::Timeout,
        }
    }
}

/// The content of an entry, as values.
pub enum AppEntryView {
    Handle(HandleView),
    InMail(InMailView),
    OutMail(OutMailView),
    InAck,
    OutAck,
    PendingAck(PendingAckView),
    PendingMail(PendingMailView),
    Other(Seq<char>),
}

impl View for AppEntry {
    type V = AppEntryView;

    open spec fn view(&self) -> AppEntryView {
        match self {
            AppEntry::Handle(h) => AppEntryView::Handle(h@),
            AppEntry::InMail(m) => AppEntryView::InMail(m@),
            AppEntry::OutMail(m) => AppEntryView::OutMail(m@),
            AppEntry::InAck(_) => AppEntryView::InAck,
            AppEntry::OutAck(_) => AppEntryView::OutAck,
            AppEntry::PendingAck(p) => AppEntryView::PendingAck(p@),
            AppEntry::PendingMail(p) => AppEntryView::PendingMail(p@),
            AppEntry::Other(t) => AppEntryView::Other(t@),
        }
    }
}

pub struct EntryView {
    pub address: Seq<char>,
    pub content: AppEntryView,
}

impl View for Entry {
    type V = EntryView;

    open spec fn view(&self) -> EntryView {
        EntryView { address: self.address@, content: self.content@ }
    }
}

/// A host call, as values.
pub enum CallView {
    GetLinks { base: Seq<char>, kind: LinkKind },
    CountLinks { base: Seq<char>, kind: LinkKind },
    GetEntry { address: Seq<char> },
    GetInMail { address: Seq<char> },
    CommitEntry { entry: AppEntryView },
    UpdateEntry { entry: AppEntryView, old_address: Seq<char> },
    LinkEntries { base: Seq<char>, target: Seq<char>, kind: LinkKind, tag: Seq<char> },
    RemoveLink { base: Seq<char>, target: Seq<char>, kind: LinkKind, tag: Seq<char> },
    RemoveEntry { address: Seq<char> },
    Send { to: Seq<char>, message: MessageView },
    EmitSignal { name: Seq<char>, signal: SignalView },
    GetMyHandleEntry,
    GetPendingAck { address: Seq<char> },
    CommitInAck { outmail_address: Seq<char>, from: Seq<char> },
}

impl View for HostCall {
    type V = CallView;

    open spec fn view(&self) -> CallView {
        match self {
            HostCall::GetLinks { base, kind } => CallView::GetLinks { base: base@, kind: *kind },
            HostCall::CountLinks { base, kind } => CallView::CountLinks { base: base@, kind: *kind },
            HostCall::GetEntry { address } => CallView::GetEntry { address: address@ },
            HostCall::GetInMail { address } => CallView::GetInMail { address: address@ },
            HostCall::CommitEntry { entry } => CallView::CommitEntry { entry: entry@ },
            HostCall::UpdateEntry { entry, old_address } => CallView::UpdateEntry {
                entry: entry@,
                old_address: old_address@,
            },
            HostCall::LinkEntries { base, target, kind, tag } => CallView::LinkEntries {
                base: base@,
                target: target@,
                kind: *kind,
                tag: tag@,
            },
            HostCall::RemoveLink { base, target, kind, tag } => CallView::RemoveLink {
                base: base@,
                target: target@,
                kind: *kind,
                tag: tag@,
            },
            HostCall::RemoveEntry { address } => CallView::RemoveEntry { address: address@ },
            HostCall::Send { to, message } => CallView::Send { to: to@, message: message@ },
            HostCall::EmitSignal { name, signal } => CallView::EmitSignal {
                name: name@,
                signal: signal@,
            },
            HostCall::GetMyHandleEntry => CallView::GetMyHandleEntry,
            HostCall::GetPendingAck { address } => CallView::GetPendingAck { address: address@ },
            HostCall::CommitInAck { outmail_address, from } => CallView::CommitInAck {
                outmail_address: outmail_address@,
                from: from@,
            },
        }
    }
}

/// The view of a result, given the view of its value.
pub open spec fn result_view<T, V>(r: ZomeApiResult<T>, f: spec_fn(T) -> V) -> Result<V, ErrorView> {
    match r {
        Ok(t) => Ok(f(t)),
        Err(e) => Err(e@),
    }
}

/// A host reply, as values.
pub enum ReplyView {
    Links(Result<Seq<Seq<char>>, ErrorView>),
    LinkCount(Result<usize, ErrorView>),
    Entry(Result<Option<EntryView>, ErrorView>),
    InMail(Result<InMailView, ErrorView>),
    Address(Result<Seq<char>, ErrorView>),
    Unit(Result<(), ErrorView>),
    Answer(Result<Result<MessageView, Seq<char>>, ErrorView>),
    MyHandle(Option<Seq<char>>),
    PendingAck(Result<(Seq<char>, PendingAckView), ErrorView>),
}

impl View for HostReply {
    type V = ReplyView;

    open spec fn view(&self) -> ReplyView {
        match self {
            HostReply::Links(r) => ReplyView::Links(result_view(*r, |v: Vec<Address>| v.deep_view())),
            HostReply::LinkCount(r) => ReplyView::LinkCount(result_view(*r, |n: usize| n)),
            HostReply::Entry(r) => ReplyView::Entry(
                result_view(
                    *r,
                    |e: Option<Entry>|
                        match e {
                            Some(e) => Some(e@),
                            None => None,
                        },
                ),
            ),
            HostReply::InMail(r) => ReplyView::InMail(result_view(*r, |m: InMail| m@)),
            HostReply::Address(r) => ReplyView::Address(result_view(*r, |a: Address| a@)),
            HostReply::Unit(r) => ReplyView::Unit(result_view(*r, |u: ()| u)),
            HostReply::Answer(r) => ReplyView::Answer(
                result_view(
                    *r,
                    |p: Result<DirectMessageProtocol, String>|
                        match p {
                            Ok(m) => Ok(m@),
                            Err(t) => Err(t@),
                        },
                ),
            ),
            HostReply::MyHandle(h) => ReplyView::MyHandle(
                match h {
                    Some(a) => Some(a@),
                    None => None,
                },
            ),
            HostReply::PendingAck(r) => ReplyView::PendingAck(
                result_view(*r, |p: (AgentAddress, PendingAck)| (p.0@, p.1@)),
            ),
        }
    }
}

/// What a zome function does next, as values.
pub enum ActionView<V> {
    Call(CallView),
    Return(V),
}

/// The view of an action, given the view of the result.
pub open spec fn action_view<R, V>(a: Action<R>, f: spec_fn(R) -> V) -> ActionView<V> {
    match a {
        Action::Call(c) => ActionView::Call(c@),
        Action::Return(r) => ActionView::Return(f(r)),
    }
}

/// A copy of a list of addresses.
pub(crate) fn clone_addresses(v: &Vec<Address>) -> (res: Vec<Address>)
    ensures
        res@ == v@,
{
    let mut res: Vec<Address> = Vec::new();
    let mut i: usize = 0;
    while i < v.len()
        invariant
            i <= v.len(),
            res@ == v@.subrange(0, i as int),
        decreases v.len() - i,
    {
        res.push(v[i].clone());
        i = i + 1;
    }
    assert(res@ =~= v@);
    res
}

/// Seconds since the Unix epoch by the system clock: `std::time::SystemTime::elapsed`
/// applied to `UNIX_EPOCH`, converted to whole seconds; `None` where the clock
/// stands before the epoch. Nothing is promised of the value, which depends on
/// the clock.
#[verifier::external_body]
fn clock_seconds() -> Option<u64> {
    match std::time::UNIX_EPOCH.elapsed() {
        Ok(elapsed) => Some(elapsed.as_secs()),
        Err(_) => None,
    }
}

/// The current date, in seconds since the Unix epoch; a clock that stands
/// before the epoch dates everything at the epoch itself.
pub(crate) fn snapmail_now() -> u64 {
    match clock_seconds() {
        Some(seconds) => seconds,
        None => 0,
    }
}

} // verus!
