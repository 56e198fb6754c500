pub mod find_agent;

use vstd::pervasive::unreached;
use vstd::prelude::*;

use crate::dna::{declares, link_definition, EntryDefinition, LinkDirection, Sharing};
use crate::host::{
    action_view, result_view, Action, ActionView, Address, AppEntry, AppEntryView, CallView, Entry,
    EntryKind, EntryView, ErrorView, HostCall, HostReply, LinkKind, ReplyView, ZomeApiResult,
};

verus! {

/// Entry representing the username of an Agent.
#[derive(Debug, PartialEq, Eq)]
pub struct Handle {
    pub name: String,
}

pub struct HandleView {
    pub name: Seq<char>,
}

impl View for Handle {
    type V = HandleView;

    open spec fn view(&self) -> HandleView {
        HandleView { name: self.name@ }
    }
}

/// Definition of the Handle entry type.
pub fn handle_def() -> (res: EntryDefinition)
    ensures
        res.name@ == EntryKind::Handle.spec_name(),
        res.description@ == "Entry for an Agent's public username"@,
        res.sharing == Sharing::Public,
        res.links.len() == 2,
        declares(res.links[0], LinkDirection::From, "%agent_id"@, "handle"@),
        declares(res.links[1], LinkDirection::From, "%dna"@, "member"@),
{
    let mut links = Vec::new();
    links.push(link_definition(LinkDirection::From, "%agent_id", "handle"));
    links.push(link_definition(LinkDirection::From, "%dna", "member"));
    EntryDefinition {
        name: EntryKind::Handle.name().to_string(),
        description: "Entry for an Agent's public username".to_string(),
        sharing: Sharing::Public,
        links,
    }
}

impl Handle {
    pub fn new(name: String) -> (res: Self)
        ensures
            res.name == name,
    {
        Self { name }
    }
}

/// `get_handle` in progress: looks up the latest handle of this agent.
#[derive(Debug, PartialEq, Eq)]
pub enum GetHandle {
    /// Waiting for the `handle` links of the agent.
    ListingLinks,
    /// Waiting for the latest version of the entry behind the link.
    FetchingEntry,
    Finished,
}

pub enum GetHandleView {
    ListingLinks,
    FetchingEntry,
    Finished,
}

impl View for GetHandle {
    type V = GetHandleView;

    open spec fn view(&self) -> GetHandleView {
        match self {
            GetHandle::ListingLinks => GetHandleView::ListingLinks,
            GetHandle::FetchingEntry => GetHandleView::FetchingEntry,
            GetHandle::Finished => GetHandleView::Finished,
        }
    }
}

pub open spec fn entry_option_view(e: Option<Entry>) -> Option<EntryView> {
    match e {
        Some(e) => Some(e@),
        None => None,
    }
}

pub open spec fn get_handle_action_view(a: Action<Option<Entry>>) -> ActionView<Option<EntryView>> {
    action_view(a, |e: Option<Entry>| entry_option_view(e))
}

impl GetHandleView {
    /// `reply` answers the call this state waits for, and is one the lookup
    /// can go on with: the agent has at most one `handle` link, and the entry
    /// behind it is there.
    pub open spec fn accepts(self, reply: ReplyView) -> bool {
        match (self, reply) {
            (GetHandleView::ListingLinks, ReplyView::Links(Ok(links))) => links.len() <= 1,
            (GetHandleView::FetchingEntry, ReplyView::Entry(Ok(Some(_)))) => true,
            _ => false,
        }
    }

    /// The state and action that follow `reply`.
    pub open spec fn next(self, reply: ReplyView) -> (Self, ActionView<Option<EntryView>>) {
        match (self, reply) {
            (GetHandleView::ListingLinks, ReplyView::Links(Ok(links))) => if links.len() == 0 {
                (GetHandleView::Finished, ActionView::Return(None))
            } else {
                (
                    GetHandleView::FetchingEntry,
                    ActionView::Call(CallView::GetEntry { address: links[0] }),
                )
            },
            (GetHandleView::FetchingEntry, ReplyView::Entry(Ok(Some(entry)))) => (
                GetHandleView::Finished,
                ActionView::Return(Some(entry)),
            ),
            _ => arbitrary(),
        }
    }
}

/// Start `get_handle` for the agent whose initial entry is at
/// `agent_initial_hash`: first ask for its `handle` links.
pub fn get_handle(agent_initial_hash: Address) -> (res: (GetHandle, Action<Option<Entry>>))
    ensures
        res.0@ == GetHandleView::ListingLinks,
        get_handle_action_view(res.1) == ActionView::<Option<EntryView>>::Call(
            CallView::GetLinks { base: agent_initial_hash@, kind: LinkKind::Handle },
        ),
{
    (GetHandle::ListingLinks, Action::Call(HostCall::GetLinks { base: agent_initial_hash, kind: LinkKind::Handle }))
}

impl GetHandle {
    /// Whether `reply` is one `step` accepts.
    pub fn is_acceptable(&self, reply: &HostReply) -> (res: bool)
        ensures
            res == self@.accepts(reply@),
    {
        match self {
            GetHandle::ListingLinks => match reply {
                HostReply::Links(Ok(links)) => {
                    proof {
                        assert(links.deep_view().len() == links.len());
                    }
                    links.len() <= 1
                },
                _ => false,
            },
            GetHandle::FetchingEntry => matches!(reply, HostReply::Entry(Ok(Some(_)))),
            GetHandle::Finished => false,
        }
    }

    /// Take the host's `reply` to the last call: the next state, and the next
    /// call or the handle entry.
    pub fn step(self, reply: HostReply) -> (res: (GetHandle, Action<Option<Entry>>))
        requires
            self@.accepts(reply@),
        ensures
            (res.0@, get_handle_action_view(res.1)) == self@.next(reply@),
    {
        match self {
            GetHandle::ListingLinks => match reply {
                HostReply::Links(Ok(links)) => {
                    proof {
                        assert(links.deep_view().len() == links.len());
                    }
                    if links.len() == 0 {
                        (GetHandle::Finished, Action::Return(None))
                    } else {
                        proof {
                            assert(links.deep_view()[0] == links@[0]@);
                        }
                        let address = links[0].clone();
                        (GetHandle::FetchingEntry, Action::Call(HostCall::GetEntry { address }))
                    }
                },
                _ => unreached(),
            },
            GetHandle::FetchingEntry => match reply {
                HostReply::Entry(Ok(Some(entry))) => (GetHandle::Finished, Action::Return(Some(entry))),
                _ => unreached(),
            },
            GetHandle::Finished => unreached(),
        }
    }
}

/// `set_handle` in progress: gives this agent a handle, or a new one.
#[derive(Debug, PartialEq, Eq)]
pub enum SetHandle {
    /// Looking up the current handle.
    Reading { name: String, agent_initial_hash: Address, current: GetHandle },
    /// Waiting for the update of the current handle entry to the new name.
    Updating,
    /// Waiting for the commit of the agent's first handle entry.
    CommittingFirst { agent_initial_hash: Address },
    /// Waiting for the `handle` link from the agent to its first handle entry
    /// at `address`.
    Linking { address: Address },
    Finished,
}

pub enum SetHandleView {
    Reading { name: Seq<char>, agent_initial_hash: Seq<char>, current: GetHandleView },
    Updating,
    CommittingFirst { agent_initial_hash: Seq<char> },
    Linking { address: Seq<char> },
    Finished,
}

impl View for SetHandle {
    type V = SetHandleView;

    open spec fn view(&self) -> SetHandleView {
        match self {
            SetHandle::Reading { name, agent_initial_hash, current } => SetHandleView::Reading {
                name: name@,
                agent_initial_hash: agent_initial_hash@,
                current: current@,
            },
            SetHandle::Updating => SetHandleView::Updating,
            SetHandle::CommittingFirst { agent_initial_hash } => SetHandleView::CommittingFirst {
                agent_initial_hash: agent_initial_hash@,
            },
            SetHandle::Linking { address } => SetHandleView::Linking { address: address@ },
            SetHandle::Finished => SetHandleView::Finished,
        }
    }
}

/// The result of `set_handle`, as values.
pub type SetHandleResultView = Result<Seq<char>, ErrorView>;

pub open spec fn set_handle_action_view(a: Action<ZomeApiResult<Address>>) -> ActionView<SetHandleResultView> {
    action_view(a, |r: ZomeApiResult<Address>| result_view(r, |a: Address| a@))
}

/// The handle entry that `set_handle` writes for `name`.
pub open spec fn handle_entry(name: Seq<char>) -> AppEntryView {
    AppEntryView::Handle(HandleView { name })
}

impl SetHandleView {
    /// `reply` answers the call this state waits for, and is one `set_handle`
    /// can go on with (the current handle entry, if any, is a Handle).
    pub open spec fn accepts(self, reply: ReplyView) -> bool {
        match (self, reply) {
            (SetHandleView::Reading { current, .. }, reply) => {
                &&& current.accepts(reply)
                &&& match (current, reply) {
                    (GetHandleView::FetchingEntry, ReplyView::Entry(Ok(Some(entry)))) =>
                        entry.content is Handle,
                    _ => true,
                }
            },
            (SetHandleView::Updating, ReplyView::Address(_)) => true,
            (SetHandleView::CommittingFirst { .. }, ReplyView::Address(_)) => true,
            (SetHandleView::Linking { .. }, ReplyView::Address(_)) => true,
            _ => false,
        }
    }

    /// The state and action that follow `reply`.
    pub open spec fn next(self, reply: ReplyView) -> (Self, ActionView<SetHandleResultView>) {
        match (self, reply) {
            (SetHandleView::Reading { name, agent_initial_hash, current }, reply) => {
                let (current, action) = current.next(reply);
                match action {
                    ActionView::Call(call) => (
                        SetHandleView::Reading { name, agent_initial_hash, current },
                        ActionView::Call(call),
                    ),
                    ActionView::Return(None) => (
                        SetHandleView::CommittingFirst { agent_initial_hash },
                        ActionView::Call(CallView::CommitEntry { entry: handle_entry(name) }),
                    ),
                    ActionView::Return(Some(entry)) => match entry.content {
                        AppEntryView::Handle(handle) => if handle.name == name {
                            (SetHandleView::Finished, ActionView::Return(Ok(entry.address)))
                        } else {
                            (
                                SetHandleView::Updating,
                                ActionView::Call(
                                    CallView::UpdateEntry {
                                        entry: handle_entry(name),
                                        old_address: entry.address,
                                    },
                                ),
                            )
                        },
                        _ => arbitrary(),
                    },
                }
            },
            (SetHandleView::Updating, ReplyView::Address(r)) => (
                SetHandleView::Finished,
                ActionView::Return(r),
            ),
            (SetHandleView::CommittingFirst { .. }, ReplyView::Address(Err(e))) => (
                SetHandleView::Finished,
                ActionView::Return(Err(e)),
            ),
            (SetHandleView::CommittingFirst { agent_initial_hash }, ReplyView::Address(Ok(address))) => (
                SetHandleView::Linking { address },
                ActionView::Call(
                    CallView::LinkEntries {
                        base: agent_initial_hash,
                        target: address,
                        kind: LinkKind::Handle,
                        tag: Seq::empty(),
                    },
                ),
            ),
            // The handle entry is committed: its address is the result,
            // whatever the link answers.
            (SetHandleView::Linking { address }, ReplyView::Address(_)) => (
                SetHandleView::Finished,
                ActionView::Return(Ok(address)),
            ),
            _ => arbitrary(),
        }
    }

    /// The result that `set_handle` returns when it stands in this state, has
    /// just produced `action`, and the host answers `replies`; `None` if the
    /// replies run out or one is not accepted.
    pub open spec fn resume(self, action: ActionView<SetHandleResultView>, replies: Seq<ReplyView>) -> Option<
        SetHandleResultView,
    >
        decreases replies.len(),
    {
        match action {
            ActionView::Return(r) => Some(r),
            ActionView::Call(_) => if replies.len() == 0 || !self.accepts(replies[0]) {
                None
            } else {
                let (s, a) = self.next(replies[0]);
                s.resume(a, replies.drop_first())
            },
        }
    }
}

/// Start `set_handle` with the new handle `name`, for the agent whose initial
/// entry is at `agent_initial_hash`: first look up its current handle.
pub fn set_handle(name: String, agent_initial_hash: Address) -> (res: (SetHandle, Action<ZomeApiResult<Address>>))
    ensures
        res.0@ == (SetHandleView::Reading {
            name: name@,
            agent_initial_hash: agent_initial_hash@,
            current: GetHandleView::ListingLinks,
        }),
        set_handle_action_view(res.1) == ActionView::<SetHandleResultView>::Call(
            CallView::GetLinks { base: agent_initial_hash@, kind: LinkKind::Handle },
        ),
{
    let (current, action) = get_handle(agent_initial_hash.clone());
    match action {
        Action::Call(call) => (SetHandle::Reading { name, agent_initial_hash, current }, Action::Call(call)),
        Action::Return(_) => unreached(),
    }
}

impl SetHandle {
    /// Whether `reply` is one `step` accepts.
    pub fn is_acceptable(&self, reply: &HostReply) -> (res: bool)
        ensures
            res == self@.accepts(reply@),
    {
        match self {
            SetHandle::Reading { current, .. } => {
                current.is_acceptable(reply) && match (current, reply) {
                    (GetHandle::FetchingEntry, HostReply::Entry(Ok(Some(entry)))) => matches!(
                        entry.content,
                        AppEntry::Handle(_)
                    ),
                    _ => true,
                }
            },
            SetHandle::Updating => matches!(reply, HostReply::Address(_)),
            SetHandle::CommittingFirst { .. } => matches!(reply, HostReply::Address(_)),
            SetHandle::Linking { .. } => matches!(reply, HostReply::Address(_)),
            SetHandle::Finished => false,
        }
    }

    /// Take the host's `reply` to the last call: the next state, and the next
    /// call or the address of the handle entry.
    pub fn step(self, reply: HostReply) -> (res: (SetHandle, Action<ZomeApiResult<Address>>))
        requires
            self@.accepts(reply@),
        ensures
            (res.0@, set_handle_action_view(res.1)) == self@.next(reply@),
    {
        match self {
            SetHandle::Reading { name, agent_initial_hash, current } => {
                let (current, action) = current.step(reply);
                match action {
                    Action::Call(call) => (
                        SetHandle::Reading { name, agent_initial_hash, current },
                        Action::Call(call),
                    ),
                    Action::Return(None) => {
                        let entry = AppEntry::Handle(Handle::new(name));
                        (SetHandle::CommittingFirst { agent_initial_hash }, Action::Call(HostCall::CommitEntry { entry }))
                    },
                    Action::Return(Some(entry)) => match entry.content {
                        AppEntry::Handle(current_handle) => {
                            if current_handle.name == name {
                                (SetHandle::Finished, Action::Return(Ok(entry.address)))
                            } else {
                                let new_entry = AppEntry::Handle(Handle::new(name));
                                (
                                    SetHandle::Updating,
                                    Action::Call(
                                        HostCall::UpdateEntry { entry: new_entry, old_address: entry.address },
                                    ),
                                )
                            }
                        },
                        _ => unreached(),
                    },
                }
            },
            SetHandle::Updating => match reply {
                HostReply::Address(r) => (SetHandle::Finished, Action::Return(r)),
                _ => unreached(),
            },
            SetHandle::CommittingFirst { agent_initial_hash } => match reply {
                HostReply::Address(Err(e)) => (SetHandle::Finished, Action::Return(Err(e))),
                HostReply::Address(Ok(address)) => {
                    let target = address.clone();
                    (
                        SetHandle::Linking { address },
                        Action::Call(
                            HostCall::LinkEntries {
                                base: agent_initial_hash,
                                target,
                                kind: LinkKind::Handle,
                                tag: String::new(),
                            },
                        ),
                    )
                },
                _ => unreached(),
            },
            SetHandle::Linking { address } => match reply {
                HostReply::Address(_) => (SetHandle::Finished, Action::Return(Ok(address))),
                _ => unreached(),
            },
            SetHandle::Finished => unreached(),
        }
    }
}

/// `get_handle` finds no handle exactly when the agent has no `handle` link;
/// otherwise it fetches the entry behind the link.
pub proof fn lemma_get_handle_none_iff_no_link(links: Seq<Seq<char>>)
    requires
        links.len() <= 1,
    ensures
        GetHandleView::ListingLinks.accepts(ReplyView::Links(Ok(links))),
        (GetHandleView::ListingLinks.next(ReplyView::Links(Ok(links))).1 == ActionView::<
            Option<EntryView>,
        >::Return(None)) == (links.len() == 0),
        links.len() == 1 ==> GetHandleView::ListingLinks.next(ReplyView::Links(Ok(links))).1
            == ActionView::<Option<EntryView>>::Call(CallView::GetEntry { address: links[0] }),
{
}

/// Setting the handle that the agent already has writes nothing and
/// returns the address of the current handle entry.
pub proof fn lemma_set_same_handle_writes_nothing(
    name: Seq<char>,
    agent_initial_hash: Seq<char>,
    link_target: Seq<char>,
    current_address: Seq<char>,
    later: Seq<ReplyView>,
)
    ensures
        (SetHandleView::Reading { name, agent_initial_hash, current: GetHandleView::ListingLinks }).resume(
            ActionView::Call(CallView::GetLinks { base: agent_initial_hash, kind: LinkKind::Handle }),
            seq![
                ReplyView::Links(Ok(seq![link_target])),
                ReplyView::Entry(Ok(Some(EntryView { address: current_address, content: handle_entry(name) }))),
            ] + later,
        ) == Some(Ok::<Seq<char>, ErrorView>(current_address)),
{
    reveal_with_fuel(SetHandleView::resume, 3);
    let entry = EntryView { address: current_address, content: handle_entry(name) };
    let replies = seq![ReplyView::Links(Ok(seq![link_target])), ReplyView::Entry(Ok(Some(entry)))] + later;
    assert(replies.drop_first() =~= seq![ReplyView::Entry(Ok(Some(entry)))] + later);
}

/// An agent without a handle gets its first one by a commit of the handle
/// entry and a `handle` link from the agent to it; `set_handle` returns the
/// commit's error, or else the entry's address whatever the link answers.
pub proof fn lemma_first_handle_is_committed_and_linked(
    name: Seq<char>,
    agent_initial_hash: Seq<char>,
    committed: Result<Seq<char>, ErrorView>,
    linked: Result<Seq<char>, ErrorView>,
)
    ensures
        (SetHandleView::Reading { name, agent_initial_hash, current: GetHandleView::ListingLinks }).next(
            ReplyView::Links(Ok(Seq::empty())),
        ) == (SetHandleView::CommittingFirst { agent_initial_hash }, ActionView::<SetHandleResultView>::Call(
            CallView::CommitEntry { entry: handle_entry(name) },
        )),
        committed matches Ok(address) ==> (SetHandleView::CommittingFirst { agent_initial_hash }).next(
            ReplyView::Address(committed),
        ) == (SetHandleView::Linking { address }, ActionView::<SetHandleResultView>::Call(
            CallView::LinkEntries {
                base: agent_initial_hash,
                target: address,
                kind: LinkKind::Handle,
                tag: Seq::empty(),
            },
        )),
        (SetHandleView::Reading { name, agent_initial_hash, current: GetHandleView::ListingLinks }).resume(
            ActionView::Call(CallView::GetLinks { base: agent_initial_hash, kind: LinkKind::Handle }),
            seq![ReplyView::Links(Ok(Seq::empty())), ReplyView::Address(committed), ReplyView::Address(linked)],
        ) == Some(committed),
{
    reveal_with_fuel(SetHandleView::resume, 4);
    let replies = seq![ReplyView::Links(Ok(Seq::empty())), ReplyView::Address(committed), ReplyView::Address(linked)];
    assert(replies.drop_first() =~= seq![ReplyView::Address(committed), ReplyView::Address(linked)]);
    assert(replies.drop_first().drop_first() =~= seq![ReplyView::Address(linked)]);
}

/// A different name updates the current handle entry, and writes nothing
/// else; `set_handle` returns what the update returns.
pub proof fn lemma_new_handle_updates_the_entry(
    name: Seq<char>,
    old_name: Seq<char>,
    agent_initial_hash: Seq<char>,
    link_target: Seq<char>,
    current_address: Seq<char>,
    updated: Result<Seq<char>, ErrorView>,
)
    requires
        old_name != name,
    ensures
        (SetHandleView::Reading { name, agent_initial_hash, current: GetHandleView::FetchingEntry }).next(
            ReplyView::Entry(Ok(Some(EntryView { address: current_address, content: handle_entry(old_name) }))),
        ) == (SetHandleView::Updating, ActionView::<SetHandleResultView>::Call(
            CallView::UpdateEntry { entry: handle_entry(name), old_address: current_address },
        )),
        (SetHandleView::Reading { name, agent_initial_hash, current: GetHandleView::ListingLinks }).resume(
            ActionView::Call(CallView::GetLinks { base: agent_initial_hash, kind: LinkKind::Handle }),
            seq![
                ReplyView::Links(Ok(seq![link_target])),
                ReplyView::Entry(
                    Ok(Some(EntryView { address: current_address, content: handle_entry(old_name) })),
                ),
                ReplyView::Address(updated),
            ],
        ) == Some(updated),
{
    reveal_with_fuel(SetHandleView::resume, 4);
    let entry = EntryView { address: current_address, content: handle_entry(old_name) };
    let replies = seq![
        ReplyView::Links(Ok(seq![link_target])),
        ReplyView::Entry(Ok(Some(entry))),
        ReplyView::Address(updated),
    ];
    assert(replies.drop_first() =~= seq![ReplyView::Entry(Ok(Some(entry))), ReplyView::Address(updated)]);
    assert(replies.drop_first().drop_first() =~= seq![ReplyView::Address(updated)]);
}

} // verus!
