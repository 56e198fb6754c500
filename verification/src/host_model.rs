use vstd::prelude::*;

use crate::handle::{handle_entry, GetHandleView, SetHandleResultView, SetHandleView};
use crate::host::{ActionView, AppEntryView, CallView, EntryView, ErrorView, LinkKind, ReplyView};
use crate::mail::entries::InMailView;
use crate::mail::functions::acknowledge_mail::{AckResultView, AcknowledgeMailView};
use crate::protocol::MessageView;

verus! {

/// A model of the host that the zome's functions read back what they wrote
/// from: entries stored at their content address, updates that make a later
/// version the one a lookup finds, links, and a fixed answer of the
/// addressee to direct messages. Every read finds what is stored and every
/// write succeeds.
pub struct HostModel {
    /// The address at which an entry is stored: a function of its content.
    pub address_of: spec_fn(AppEntryView) -> Seq<char>,
    /// The entry stored at each address.
    pub entries: Map<Seq<char>, AppEntryView>,
    /// For an entry that was updated, the address of its latest version.
    pub latest: Map<Seq<char>, Seq<char>>,
    /// The targets of the links of each kind from each base, in order.
    pub links: Map<(Seq<char>, LinkKind), Seq<Seq<char>>>,
    /// What the addressee of a direct message answers.
    pub peer_answer: Result<Result<MessageView, Seq<char>>, ErrorView>,
}

impl HostModel {
    /// The targets of the links of `kind` from `base`.
    pub open spec fn targets(self, base: Seq<char>, kind: LinkKind) -> Seq<Seq<char>> {
        if self.links.contains_key((base, kind)) {
            self.links[(base, kind)]
        } else {
            Seq::empty()
        }
    }

    /// The entry stored at `address`, if any.
    pub open spec fn entry_at(self, address: Seq<char>) -> Option<AppEntryView> {
        if self.entries.contains_key(address) {
            Some(self.entries[address])
        } else {
            None
        }
    }

    /// The address of the latest version of the entry at `address`.
    pub open spec fn latest_of(self, address: Seq<char>) -> Seq<char> {
        if self.latest.contains_key(address) {
            self.latest[address]
        } else {
            address
        }
    }

    /// The latest version of the entry at `address`, with its own address.
    pub open spec fn lookup(self, address: Seq<char>) -> Option<EntryView> {
        match self.entry_at(self.latest_of(address)) {
            Some(content) => Some(EntryView { address: self.latest_of(address), content }),
            None => None,
        }
    }

    /// This host with `entry` stored at `address`.
    pub open spec fn store(self, address: Seq<char>, entry: AppEntryView) -> Self {
        HostModel {
            address_of: self.address_of,
            entries: self.entries.insert(address, entry),
            latest: self.latest,
            links: self.links,
            peer_answer: self.peer_answer,
        }
    }

    /// This host where the entry at `new` is the latest version of every
    /// entry whose latest version was the one at `old`.
    pub open spec fn supersede(self, old: Seq<char>, new: Seq<char>) -> Self {
        HostModel {
            address_of: self.address_of,
            entries: self.entries,
            latest: Map::new(
                |x: Seq<char>| self.latest.contains_key(x) || x == old,
                |x: Seq<char>|
                    if self.latest_of(x) == old {
                        new
                    } else {
                        self.latest[x]
                    },
            ),
            links: self.links,
            peer_answer: self.peer_answer,
        }
    }

    /// This host with a link of `kind` from `base` to `target` added.
    pub open spec fn link(self, base: Seq<char>, target: Seq<char>, kind: LinkKind) -> Self {
        HostModel {
            address_of: self.address_of,
            entries: self.entries,
            latest: self.latest,
            links: self.links.insert((base, kind), self.targets(base, kind).push(target)),
            peer_answer: self.peer_answer,
        }
    }

    /// What performing `call` leaves and answers. A new link is answered
    /// with its target's address; the calls that no law here makes are left
    /// open.
    pub open spec fn answer(self, call: CallView) -> (Self, ReplyView) {
        match call {
            CallView::GetLinks { base, kind } => (self, ReplyView::Links(Ok(self.targets(base, kind)))),
            CallView::CountLinks { base, kind } => (
                self,
                ReplyView::LinkCount(Ok(self.targets(base, kind).len() as usize)),
            ),
            CallView::GetEntry { address } => (self, ReplyView::Entry(Ok(self.lookup(address)))),
            CallView::GetInMail { address } => (
                self,
                ReplyView::InMail(
                    match self.lookup(address) {
                        Some(EntryView { content: AppEntryView::InMail(inmail), .. }) => Ok(inmail),
                        _ => Err(ErrorView::HashNotFound),
                    },
                ),
            ),
            CallView::CommitEntry { entry } => {
                let address = (self.address_of)(entry);
                (self.store(address, entry), ReplyView::Address(Ok(address)))
            },
            CallView::UpdateEntry { entry, old_address } => {
                let address = (self.address_of)(entry);
                (self.store(address, entry).supersede(old_address, address), ReplyView::Address(Ok(address)))
            },
            CallView::LinkEntries { base, target, kind, .. } => (
                self.link(base, target, kind),
                ReplyView::Address(Ok(target)),
            ),
            CallView::Send { .. } => (self, ReplyView::Answer(self.peer_answer)),
            _ => (self, arbitrary()),
        }
    }
}

/// `get_handle`, standing in `state` after `action`, run on `host` for at
/// most `fuel` calls: the host it leaves, and the result if it returns.
pub open spec fn run_get_handle(
    host: HostModel,
    state: GetHandleView,
    action: ActionView<Option<EntryView>>,
    fuel: nat,
) -> (HostModel, Option<Option<EntryView>>)
    decreases fuel,
{
    match action {
        ActionView::Return(r) => (host, Some(r)),
        ActionView::Call(call) => if fuel == 0 {
            (host, None)
        } else {
            let (host, reply) = host.answer(call);
            if !state.accepts(reply) {
                (host, None)
            } else {
                let (state, action) = state.next(reply);
                run_get_handle(host, state, action, (fuel - 1) as nat)
            }
        },
    }
}

/// `set_handle`, standing in `state` after `action`, run on `host` for at
/// most `fuel` calls: the host it leaves, and the result if it returns.
pub open spec fn run_set_handle(
    host: HostModel,
    state: SetHandleView,
    action: ActionView<SetHandleResultView>,
    fuel: nat,
) -> (HostModel, Option<SetHandleResultView>)
    decreases fuel,
{
    match action {
        ActionView::Return(r) => (host, Some(r)),
        ActionView::Call(call) => if fuel == 0 {
            (host, None)
        } else {
            let (host, reply) = host.answer(call);
            if !state.accepts(reply) {
                (host, None)
            } else {
                let (state, action) = state.next(reply);
                run_set_handle(host, state, action, (fuel - 1) as nat)
            }
        },
    }
}

/// `set_handle(name)` from its start, on `host`.
pub open spec fn set_handle_on(host: HostModel, name: Seq<char>, agent: Seq<char>) -> (
    HostModel,
    Option<SetHandleResultView>,
) {
    run_set_handle(
        host,
        SetHandleView::Reading { name, agent_initial_hash: agent, current: GetHandleView::ListingLinks },
        ActionView::Call(CallView::GetLinks { base: agent, kind: LinkKind::Handle }),
        5,
    )
}

/// `get_handle` from its start, on `host`.
pub open spec fn get_handle_on(host: HostModel, agent: Seq<char>) -> (HostModel, Option<Option<EntryView>>) {
    run_get_handle(
        host,
        GetHandleView::ListingLinks,
        ActionView::Call(CallView::GetLinks { base: agent, kind: LinkKind::Handle }),
        3,
    )
}

/// The agent has no handle yet, or one handle link to an entry whose
/// latest version is a Handle.
pub open spec fn has_at_most_one_handle(host: HostModel, agent: Seq<char>) -> bool {
    let targets = host.targets(agent, LinkKind::Handle);
    ||| targets.len() == 0
    ||| targets.len() == 1 && host.lookup(targets[0]) matches Some(
        EntryView { content: AppEntryView::Handle(_), .. },
    )
}

/// A handle that was set is read back, and setting it again writes nothing:
/// `set_handle(name)` returns the address of the handle entry for `name`;
/// then `get_handle` reads back that entry, and a second `set_handle(name)`
/// leaves the host as it is and returns the same address. (Entries are
/// stored at their content address, and no earlier handle entry for `name`
/// was replaced by an update.)
pub proof fn lemma_set_handle_is_read_back(host: HostModel, name: Seq<char>, agent: Seq<char>)
    requires
        has_at_most_one_handle(host, agent),
        forall|x: Seq<char>| #[trigger] host.entries.contains_key(x) ==> (host.address_of)(host.entries[x]) == x,
        forall|e1: AppEntryView, e2: AppEntryView|
            #[trigger] (host.address_of)(e1) == #[trigger] (host.address_of)(e2) ==> e1 == e2,
        host.latest_of((host.address_of)(handle_entry(name))) == (host.address_of)(handle_entry(name)),
    ensures
        ({
            let address = (host.address_of)(handle_entry(name));
            let (after, result) = set_handle_on(host, name, agent);
            &&& result == Some(Ok::<Seq<char>, ErrorView>(address))
            &&& get_handle_on(after, agent) == (after, Some(Some(EntryView { address, content: handle_entry(name) })))
            &&& set_handle_on(after, name, agent) == (after, Some(Ok::<Seq<char>, ErrorView>(address)))
        }),
{
    reveal_with_fuel(run_set_handle, 6);
    reveal_with_fuel(run_get_handle, 4);
    let address = (host.address_of)(handle_entry(name));
    let targets = host.targets(agent, LinkKind::Handle);
    if targets.len() == 0 {
        let stored = host.store(address, handle_entry(name));
        assert(stored.targets(agent, LinkKind::Handle) == targets);
        let after = stored.link(agent, address, LinkKind::Handle);
        assert(after.targets(agent, LinkKind::Handle) =~= seq![address]);
        assert(after.lookup(address) == Some(EntryView { address, content: handle_entry(name) }));
        assert(set_handle_on(host, name, agent).0 == after);
    } else {
        let link_target = targets[0];
        assert(targets =~= seq![link_target]);
        let current = host.lookup(link_target)->0;
        let old_handle = current.content->Handle_0;
        if old_handle.name == name {
            assert(current.content == handle_entry(name));
            assert(host.entries.contains_key(current.address));
            assert(current.address == address);
            assert(set_handle_on(host, name, agent).0 == host);
        } else {
            assert(current.content != handle_entry(name));
            assert(host.entries.contains_key(current.address));
            assert(current.address != address);
            let after = host.store(address, handle_entry(name)).supersede(current.address, address);
            assert(after.targets(agent, LinkKind::Handle) == targets);
            assert(after.latest_of(link_target) == address);
            assert(after.lookup(link_target) == Some(EntryView { address, content: handle_entry(name) }));
            assert(set_handle_on(host, name, agent).0 == after);
        }
    }
}

/// `acknowledge_mail`, standing in `state` after `action`, run on `host` for
/// at most `fuel` calls: the host it leaves, and the result if it returns.
pub open spec fn run_acknowledge_mail(
    host: HostModel,
    state: AcknowledgeMailView,
    action: ActionView<AckResultView>,
    fuel: nat,
) -> (HostModel, Option<AckResultView>)
    decreases fuel,
{
    match action {
        ActionView::Return(r) => (host, Some(r)),
        ActionView::Call(call) => if fuel == 0 {
            (host, None)
        } else {
            let (host, reply) = host.answer(call);
            if !state.accepts(reply) {
                (host, None)
            } else {
                let (state, action) = state.next(reply);
                run_acknowledge_mail(host, state, action, (fuel - 1) as nat)
            }
        },
    }
}

/// `acknowledge_mail(inmail_address)` from its start, on `host`, for `agent`.
pub open spec fn acknowledge_mail_on(host: HostModel, inmail_address: Seq<char>, agent: Seq<char>) -> (
    HostModel,
    Option<AckResultView>,
) {
    run_acknowledge_mail(
        host,
        AcknowledgeMailView::FetchingInMail { inmail_address, agent_address: agent },
        ActionView::Call(CallView::GetInMail { address: inmail_address }),
        8,
    )
}

/// A mail that has an `acknowledgment` link is refused, and the host is
/// left as it was.
pub proof fn lemma_acknowledged_mail_is_refused(
    host: HostModel,
    inmail_address: Seq<char>,
    agent: Seq<char>,
    inmail: InMailView,
)
    requires
        host.lookup(inmail_address) matches Some(EntryView { content: AppEntryView::InMail(m), .. }) && m
            == inmail,
        0 < host.targets(inmail_address, LinkKind::Acknowledgment).len() <= usize::MAX,
    ensures
        acknowledge_mail_on(host, inmail_address, agent) == (host, Some(
            Err::<Seq<char>, ErrorView>(ErrorView::Internal("Mail has already been acknowledged"@)),
        )),
{
    reveal_with_fuel(run_acknowledge_mail, 3);
}

/// Each mail is acknowledged at most once: on a host where the InMail has
/// no `acknowledgment` link yet, `acknowledge_mail` returns the address of
/// its OutAck, whatever the author answers; a second `acknowledge_mail` of
/// the same mail is then refused and writes nothing. (The addresses of the
/// entries it writes differ from the InMail's, as content addresses of
/// other entries do.)
pub proof fn lemma_mail_is_acknowledged_once(
    host: HostModel,
    inmail_address: Seq<char>,
    agent: Seq<char>,
    inmail: InMailView,
)
    requires
        host.entry_at(inmail_address) == Some(AppEntryView::InMail(inmail)),
        host.latest_of(inmail_address) == inmail_address,
        host.targets(inmail_address, LinkKind::Acknowledgment).len() == 0,
        forall|e: AppEntryView| !(e is InMail) ==> #[trigger] (host.address_of)(e) != inmail_address,
    ensures
        ({
            let (after, first) = acknowledge_mail_on(host, inmail_address, agent);
            &&& first == Some(Ok::<Seq<char>, ErrorView>((host.address_of)(AppEntryView::OutAck)))
            &&& acknowledge_mail_on(after, inmail_address, agent) == (after, Some(
                Err::<Seq<char>, ErrorView>(ErrorView::Internal("Mail has already been acknowledged"@)),
            ))
        }),
{
    reveal_with_fuel(run_acknowledge_mail, 9);
    let outack = (host.address_of)(AppEntryView::OutAck);
    let h1 = host.store(outack, AppEntryView::OutAck);
    assert(h1.entry_at(inmail_address) == Some(AppEntryView::InMail(inmail)));
    let h2 = h1.link(inmail_address, outack, LinkKind::Acknowledgment);
    assert(h2.targets(inmail_address, LinkKind::Acknowledgment) =~= seq![outack]);
    assert(h2.entry_at(inmail_address) == Some(AppEntryView::InMail(inmail)));
    let (after, first) = acknowledge_mail_on(host, inmail_address, agent);
    assert(first == Some(Ok::<Seq<char>, ErrorView>(outack)));
    assert(after.entry_at(inmail_address) == Some(AppEntryView::InMail(inmail)));
    assert(after.latest_of(inmail_address) == inmail_address);
    assert(after.targets(inmail_address, LinkKind::Acknowledgment).len() == 1);
    lemma_acknowledged_mail_is_refused(after, inmail_address, agent, inmail);
}

} // verus!
