use vstd::pervasive::unreached;
use vstd::prelude::*;

use crate::host::{
    action_view, result_view, Action, ActionView, Address, CallView, ErrorView, HostCall, HostReply,
    LinkKind, ReplyView, ZomeApiError, ZomeApiResult,
};
use crate::mail::entries::PendingAckView;

verus! {

/// Where the processing of one pending acknowledgement stands.
#[derive(Debug, PartialEq, Eq)]
pub enum AckItemStage {
    /// Waiting for the PendingAck behind the current `ack_inbox` link.
    Fetching,
    /// Waiting for the commit of the InAck for the acknowledged mail.
    CommittingInAck { outmail_address: Address },
    /// Waiting for the removal of the current `ack_inbox` link.
    RemovingLink,
    /// Waiting for the deletion of the PendingAck.
    RemovingEntry,
}

/// `check_incoming_ack` in progress: turns the PendingAcks linked from this
/// agent's handle into InAcks, and returns the addresses of the OutMails for
/// which a new InAck was committed; then it removes the PendingAck's link
/// and entry.
#[derive(Debug, PartialEq, Eq)]
pub enum CheckIncomingAck {
    /// Waiting for the address of this agent's handle.
    FindingHandle,
    /// Waiting for the `ack_inbox` links of the handle.
    ListingLinks { handle: Address },
    /// Processing the pending ack behind `links[index]`; `updated` holds the
    /// mails acknowledged so far.
    Scanning {
        handle: Address,
        links: Vec<Address>,
        index: usize,
        updated: Vec<Address>,
        stage: AckItemStage,
    },
    Finished,
}

pub enum AckItemStageView {
    Fetching,
    CommittingInAck { outmail_address: Seq<char> },
    RemovingLink,
    RemovingEntry,
}

pub enum CheckIncomingAckView {
    FindingHandle,
    ListingLinks { handle: Seq<char> },
    Scanning {
        handle: Seq<char>,
        links: Seq<Seq<char>>,
        index: nat,
        updated: Seq<Seq<char>>,
        stage: AckItemStageView,
    },
    Finished,
}

impl View for AckItemStage {
    type V = AckItemStageView;

    open spec fn view(&self) -> AckItemStageView {
        match self {
            AckItemStage::Fetching => AckItemStageView::Fetching,
            AckItemStage::CommittingInAck { outmail_address } => AckItemStageView::CommittingInAck {
                outmail_address: outmail_address@,
            },
            AckItemStage::RemovingLink => AckItemStageView::RemovingLink,
            AckItemStage::RemovingEntry => AckItemStageView::RemovingEntry,
        }
    }
}

impl View for CheckIncomingAck {
    type V = CheckIncomingAckView;

    open spec fn view(&self) -> CheckIncomingAckView {
        match self {
            CheckIncomingAck::FindingHandle => CheckIncomingAckView::FindingHandle,
            CheckIncomingAck::ListingLinks { handle } => CheckIncomingAckView::ListingLinks {
                handle: handle@,
            },
            CheckIncomingAck::Scanning { handle, links, index, updated, stage } =>
                CheckIncomingAckView::Scanning {
                handle: handle@,
                links: links.deep_view(),
                index: *index as nat,
                updated: updated.deep_view(),
                stage: stage@,
            },
            CheckIncomingAck::Finished => CheckIncomingAckView::Finished,
        }
    }
}

/// The result of `check_incoming_ack`, as values.
pub type CheckResultView = Result<Seq<Seq<char>>, ErrorView>;

pub open spec fn check_result_view(r: ZomeApiResult<Vec<Address>>) -> CheckResultView {
    result_view(r, |v: Vec<Address>| v.deep_view())
}

pub open spec fn check_action_view(a: Action<ZomeApiResult<Vec<Address>>>) -> ActionView<CheckResultView> {
    action_view(a, |r: ZomeApiResult<Vec<Address>>| check_result_view(r))
}

impl CheckIncomingAckView {
    pub open spec fn wf(self) -> bool {
        match self {
            CheckIncomingAckView::Scanning { links, index, .. } => index < links.len(),
            _ => true,
        }
    }

    /// `reply` answers the call this state waits for.
    pub open spec fn accepts(self, reply: ReplyView) -> bool {
        &&& self.wf()
        &&& match (self, reply) {
            (CheckIncomingAckView::FindingHandle, ReplyView::MyHandle(_)) => true,
            (CheckIncomingAckView::ListingLinks { .. }, ReplyView::Links(_)) => true,
            (CheckIncomingAckView::Scanning { stage, .. }, reply) => match (stage, reply) {
                (AckItemStageView::Fetching, ReplyView::PendingAck(_)) => true,
                (AckItemStageView::CommittingInAck { .. }, ReplyView::Address(_)) => true,
                (AckItemStageView::RemovingLink, ReplyView::Unit(_)) => true,
                (AckItemStageView::RemovingEntry, ReplyView::Unit(_)) => true,
                _ => false,
            },
            _ => false,
        }
    }

    /// Go on with the pending ack behind `links[index]`, or return the
    /// acknowledged mails when none is left.
    pub open spec fn scan(
        handle: Seq<char>,
        links: Seq<Seq<char>>,
        index: nat,
        updated: Seq<Seq<char>>,
    ) -> (Self, ActionView<CheckResultView>) {
        if index < links.len() {
            (
                CheckIncomingAckView::Scanning {
                    handle,
                    links,
                    index,
                    updated,
                    stage: AckItemStageView::Fetching,
                },
                ActionView::Call(CallView::GetPendingAck { address: links[index as int] }),
            )
        } else {
            (CheckIncomingAckView::Finished, ActionView::Return(Ok(updated)))
        }
    }

    /// The state and action that follow `reply`.
    pub open spec fn next(self, reply: ReplyView) -> (Self, ActionView<CheckResultView>) {
        match (self, reply) {
            (CheckIncomingAckView::FindingHandle, ReplyView::MyHandle(None)) => (
                CheckIncomingAckView::Finished,
                ActionView::Return(
                    Err(ErrorView::Internal("This agent does not have a Handle set up"@)),
                ),
            ),
            (CheckIncomingAckView::FindingHandle, ReplyView::MyHandle(Some(handle))) => (
                CheckIncomingAckView::ListingLinks { handle },
                ActionView::Call(CallView::GetLinks { base: handle, kind: LinkKind::AckInbox }),
            ),
            (CheckIncomingAckView::ListingLinks { .. }, ReplyView::Links(Err(e))) => (
                CheckIncomingAckView::Finished,
                ActionView::Return(Err(e)),
            ),
            (CheckIncomingAckView::ListingLinks { handle }, ReplyView::Links(Ok(links))) =>
                Self::scan(handle, links, 0, Seq::empty()),
            (CheckIncomingAckView::Scanning { handle, links, index, updated, stage }, reply) =>
                match (stage, reply) {
                (AckItemStageView::Fetching, ReplyView::PendingAck(Ok((author, pending)))) => (
                    CheckIncomingAckView::Scanning {
                        handle,
                        links,
                        index,
                        updated,
                        stage: AckItemStageView::CommittingInAck {
                            outmail_address: pending.outmail_address,
                        },
                    },
                    ActionView::Call(
                        CallView::CommitInAck {
                            outmail_address: pending.outmail_address,
                            from: author,
                        },
                    ),
                ),
                (
                    AckItemStageView::CommittingInAck { outmail_address },
                    ReplyView::Address(Ok(_)),
                ) => (
                    CheckIncomingAckView::Scanning {
                        handle,
                        links,
                        index,
                        updated: updated.push(outmail_address),
                        stage: AckItemStageView::RemovingLink,
                    },
                    ActionView::Call(
                        CallView::RemoveLink {
                            base: handle,
                            target: links[index as int],
                            kind: LinkKind::AckInbox,
                            tag: Seq::empty(),
                        },
                    ),
                ),
                (AckItemStageView::RemovingLink, ReplyView::Unit(Ok(_))) => (
                    CheckIncomingAckView::Scanning {
                        handle,
                        links,
                        index,
                        updated,
                        stage: AckItemStageView::RemovingEntry,
                    },
                    ActionView::Call(CallView::RemoveEntry { address: links[index as int] }),
                ),
                // The pending ack could not be fetched or acknowledged, its link
                // could not be removed, or it is done: go on with the next one.
                _ => Self::scan(handle, links, index + 1, updated),
            },
            _ => arbitrary(),
        }
    }
}

/// Start `check_incoming_ack`: first ask for this agent's handle.
pub fn check_incoming_ack() -> (res: (CheckIncomingAck, Action<ZomeApiResult<Vec<Address>>>))
    ensures
        res.0@ == CheckIncomingAckView::FindingHandle,
        check_action_view(res.1) == ActionView::<CheckResultView>::Call(CallView::GetMyHandleEntry),
{
    (CheckIncomingAck::FindingHandle, Action::Call(HostCall::GetMyHandleEntry))
}

fn scan(handle: Address, links: Vec<Address>, index: usize, updated: Vec<Address>) -> (res: (
    CheckIncomingAck,
    Action<ZomeApiResult<Vec<Address>>>,
))
    requires
        index <= links.len(),
    ensures
        (res.0@, check_action_view(res.1)) == CheckIncomingAckView::scan(
            handle@,
            links.deep_view(),
            index as nat,
            updated.deep_view(),
        ),
{
    if index < links.len() {
        let address = links[index].clone();
        (
            CheckIncomingAck::Scanning { handle, links, index, updated, stage: AckItemStage::Fetching },
            Action::Call(HostCall::GetPendingAck { address }),
        )
    } else {
        (CheckIncomingAck::Finished, Action::Return(Ok(updated)))
    }
}

impl CheckIncomingAck {
    /// Whether `reply` answers the call this state waits for.
    pub fn is_acceptable(&self, reply: &HostReply) -> (res: bool)
        ensures
            res == self@.accepts(reply@),
    {
        match self {
            CheckIncomingAck::FindingHandle => matches!(reply, HostReply::MyHandle(_)),
            CheckIncomingAck::ListingLinks { .. } => matches!(reply, HostReply::Links(_)),
            CheckIncomingAck::Scanning { links, index, stage, .. } => {
                *index < links.len() && match stage {
                    AckItemStage::Fetching => matches!(reply, HostReply::PendingAck(_)),
                    AckItemStage::CommittingInAck { .. } => matches!(reply, HostReply::Address(_)),
                    AckItemStage::RemovingLink => matches!(reply, HostReply::Unit(_)),
                    AckItemStage::RemovingEntry => matches!(reply, HostReply::Unit(_)),
                }
            },
            CheckIncomingAck::Finished => false,
        }
    }

    /// Take the host's `reply` to the last call: the next state, and the next
    /// call or the result.
    pub fn step(self, reply: HostReply) -> (res: (CheckIncomingAck, Action<ZomeApiResult<Vec<Address>>>))
        requires
            self@.accepts(reply@),
        ensures
            (res.0@, check_action_view(res.1)) == self@.next(reply@),
    {
        match self {
            CheckIncomingAck::FindingHandle => match reply {
                HostReply::MyHandle(None) => {
                    let message = "This agent does not have a Handle set up".to_string();
                    (CheckIncomingAck::Finished, Action::Return(Err(ZomeApiError::Internal(message))))
                },
                HostReply::MyHandle(Some(handle)) => {
                    let base = handle.clone();
                    (
                        CheckIncomingAck::ListingLinks { handle },
                        Action::Call(HostCall::GetLinks { base, kind: LinkKind::AckInbox }),
                    )
                },
                _ => unreached(),
            },
            CheckIncomingAck::ListingLinks { handle } => match reply {
                HostReply::Links(Err(e)) => (CheckIncomingAck::Finished, Action::Return(Err(e))),
                HostReply::Links(Ok(links)) => {
                    let updated: Vec<Address> = Vec::new();
                    assert(updated.deep_view() =~= Seq::<Seq<char>>::empty());
                    scan(handle, links, 0, updated)
                },
                _ => unreached(),
            },
            CheckIncomingAck::Scanning { .. } => step_scanning(self, reply),
            CheckIncomingAck::Finished => unreached(),
        }
    }
}

fn step_scanning(state: CheckIncomingAck, reply: HostReply) -> (res: (
    CheckIncomingAck,
    Action<ZomeApiResult<Vec<Address>>>,
))
    requires
        state is Scanning,
        state@.accepts(reply@),
    ensures
        (res.0@, check_action_view(res.1)) == state@.next(reply@),
{
    let (handle, links, index, updated, stage) = match state {
        CheckIncomingAck::Scanning { handle, links, index, updated, stage } => (
            handle,
            links,
            index,
            updated,
            stage,
        ),
        _ => unreached(),
    };
    proof {
        assert(links.deep_view().len() == links.len());
        assert(links.deep_view()[index as int] == links@[index as int]@);
    }
    match stage {
        AckItemStage::Fetching => match reply {
            HostReply::PendingAck(Ok((author, pending))) => {
                let outmail_address = pending.outmail_address;
                let stage = AckItemStage::CommittingInAck { outmail_address: outmail_address.clone() };
                (
                    CheckIncomingAck::Scanning { handle, links, index, updated, stage },
                    Action::Call(HostCall::CommitInAck { outmail_address, from: author }),
                )
            },
            HostReply::PendingAck(Err(_)) => scan(handle, links, index + 1, updated),
            _ => unreached(),
        },
        AckItemStage::CommittingInAck { outmail_address } => match reply {
            HostReply::Address(Ok(_)) => {
                let base = handle.clone();
                let target = links[index].clone();
                let tag = String::new();
                let mut updated = updated;
                let ghost before = updated.deep_view();
                let ghost acknowledged = outmail_address@;
                updated.push(outmail_address);
                assert(updated.deep_view() =~= before.push(acknowledged));
                (
                    CheckIncomingAck::Scanning {
                        handle,
                        links,
                        index,
                        updated,
                        stage: AckItemStage::RemovingLink,
                    },
                    Action::Call(HostCall::RemoveLink { base, target, kind: LinkKind::AckInbox, tag }),
                )
            },
            HostReply::Address(Err(_)) => scan(handle, links, index + 1, updated),
            _ => unreached(),
        },
        AckItemStage::RemovingLink => match reply {
            HostReply::Unit(Ok(_)) => {
                let address = links[index].clone();
                (
                    CheckIncomingAck::Scanning {
                        handle,
                        links,
                        index,
                        updated,
                        stage: AckItemStage::RemovingEntry,
                    },
                    Action::Call(HostCall::RemoveEntry { address }),
                )
            },
            HostReply::Unit(Err(_)) => scan(handle, links, index + 1, updated),
            _ => unreached(),
        },
        AckItemStage::RemovingEntry => scan(handle, links, index + 1, updated),
    }
}

/// What the host answers about one pending acknowledgement, in order.
pub enum PendingAckOutcome {
    /// The PendingAck could not be fetched.
    NotFetched { error: ErrorView },
    /// The PendingAck was fetched, but its InAck could not be committed.
    NotCommitted { author: Seq<char>, pending: PendingAckView, error: ErrorView },
    /// The InAck was committed, but the `ack_inbox` link could not be removed.
    NotUnlinked { author: Seq<char>, pending: PendingAckView, inack: Seq<char>, error: ErrorView },
    /// The InAck was committed and the link removed; `removed` answers the
    /// deletion of the PendingAck.
    Unlinked {
        author: Seq<char>,
        pending: PendingAckView,
        inack: Seq<char>,
        removed: Result<(), ErrorView>,
    },
}

/// The replies that make up `outcome`.
pub open spec fn outcome_replies(outcome: PendingAckOutcome) -> Seq<ReplyView> {
    match outcome {
        PendingAckOutcome::NotFetched { error } => seq![ReplyView::PendingAck(Err(error))],
        PendingAckOutcome::NotCommitted { author, pending, error } => seq![
            ReplyView::PendingAck(Ok((author, pending))),
            ReplyView::Address(Err(error)),
        ],
        PendingAckOutcome::NotUnlinked { author, pending, inack, error } => seq![
            ReplyView::PendingAck(Ok((author, pending))),
            ReplyView::Address(Ok(inack)),
            ReplyView::Unit(Err(error)),
        ],
        PendingAckOutcome::Unlinked { author, pending, inack, removed } => seq![
            ReplyView::PendingAck(Ok((author, pending))),
            ReplyView::Address(Ok(inack)),
            ReplyView::Unit(Ok(())),
            ReplyView::Unit(removed),
        ],
    }
}

/// The replies that make up `outcomes`, one after the other.
pub open spec fn outcomes_replies(outcomes: Seq<PendingAckOutcome>) -> Seq<ReplyView>
    decreases outcomes.len(),
{
    if outcomes.len() == 0 {
        Seq::empty()
    } else {
        outcome_replies(outcomes[0]) + outcomes_replies(outcomes.drop_first())
    }
}

/// The mails of the pending acks for which a new InAck was committed, in order.
pub open spec fn acknowledged_mails(outcomes: Seq<PendingAckOutcome>) -> Seq<Seq<char>>
    decreases outcomes.len(),
{
    if outcomes.len() == 0 {
        Seq::empty()
    } else {
        let rest = acknowledged_mails(outcomes.drop_first());
        match outcomes[0] {
            PendingAckOutcome::NotUnlinked { pending, .. } => seq![pending.outmail_address] + rest,
            PendingAckOutcome::Unlinked { pending, .. } => seq![pending.outmail_address] + rest,
            _ => rest,
        }
    }
}

impl CheckIncomingAckView {
    /// The result that `check_incoming_ack` returns when it stands in this
    /// state, has just produced `action`, and the host answers `replies`;
    /// `None` if the replies run out or one does not answer its call.
    pub open spec fn resume(self, action: ActionView<CheckResultView>, replies: Seq<ReplyView>) -> Option<
        CheckResultView,
    >
        decreases replies.len(),
    {
        match action {
            ActionView::Return(r) => Some(r),
            ActionView::Call(_) => if replies.len() == 0 || !self.accepts(replies[0]) {
                None
            } else {
                let (s, a) = self.next(replies[0]);
                s.resume(a, replies.drop_first())
            },
        }
    }
}

impl CheckIncomingAckView {
    /// The host calls that `check_incoming_ack` makes, in order, when it
    /// stands in this state, has just produced `action`, and the host answers
    /// `replies`; it stops at a reply that does not answer its call.
    pub open spec fn calls(self, action: ActionView<CheckResultView>, replies: Seq<ReplyView>) -> Seq<CallView>
        decreases replies.len(),
    {
        match action {
            ActionView::Return(_) => Seq::empty(),
            ActionView::Call(call) => if replies.len() == 0 || !self.accepts(replies[0]) {
                seq![call]
            } else {
                let (s, a) = self.next(replies[0]);
                seq![call] + s.calls(a, replies.drop_first())
            },
        }
    }
}

/// The calls made for the pending ack behind the `ack_inbox` link `link` of
/// `handle`, when the host answers with `outcome`: fetch the PendingAck; if
/// that succeeds, commit an InAck for its mail and author; if that succeeds,
/// remove that same link; if that succeeds, delete the PendingAck at `link`.
pub open spec fn outcome_calls(handle: Seq<char>, link: Seq<char>, outcome: PendingAckOutcome) -> Seq<
    CallView,
> {
    let fetch = CallView::GetPendingAck { address: link };
    let unlink = CallView::RemoveLink { base: handle, target: link, kind: LinkKind::AckInbox, tag: Seq::empty() };
    let delete = CallView::RemoveEntry { address: link };
    match outcome {
        PendingAckOutcome::NotFetched { .. } => seq![fetch],
        PendingAckOutcome::NotCommitted { author, pending, .. } => seq![
            fetch,
            CallView::CommitInAck { outmail_address: pending.outmail_address, from: author },
        ],
        PendingAckOutcome::NotUnlinked { author, pending, .. } => seq![
            fetch,
            CallView::CommitInAck { outmail_address: pending.outmail_address, from: author },
            unlink,
        ],
        PendingAckOutcome::Unlinked { author, pending, .. } => seq![
            fetch,
            CallView::CommitInAck { outmail_address: pending.outmail_address, from: author },
            unlink,
            delete,
        ],
    }
}

/// The calls made for the pending acks behind `links`, one after the other,
/// when the host answers with `outcomes`.
pub open spec fn outcomes_calls(handle: Seq<char>, links: Seq<Seq<char>>, outcomes: Seq<PendingAckOutcome>) -> Seq<
    CallView,
>
    decreases outcomes.len(),
{
    if outcomes.len() == 0 {
        Seq::empty()
    } else {
        outcome_calls(handle, links[0], outcomes[0]) + outcomes_calls(
            handle,
            links.drop_first(),
            outcomes.drop_first(),
        )
    }
}

proof fn lemma_scan_calls(
    handle: Seq<char>,
    links: Seq<Seq<char>>,
    index: nat,
    updated: Seq<Seq<char>>,
    outcomes: Seq<PendingAckOutcome>,
)
    requires
        links.len() == outcomes.len(),
        index <= links.len(),
    ensures
        ({
            let (s, a) = CheckIncomingAckView::scan(handle, links, index, updated);
            s.calls(a, outcomes_replies(outcomes.skip(index as int))) == outcomes_calls(
                handle,
                links.skip(index as int),
                outcomes.skip(index as int),
            )
        }),
    decreases links.len() - index,
{
    reveal_with_fuel(CheckIncomingAckView::calls, 5);
    let remaining = outcomes.skip(index as int);
    let remaining_links = links.skip(index as int);
    if index == links.len() {
        assert(remaining =~= Seq::<PendingAckOutcome>::empty());
    } else {
        let rest = outcomes.skip(index + 1 as int);
        assert(remaining.drop_first() =~= rest);
        assert(remaining_links.drop_first() =~= links.skip(index + 1 as int));
        assert(remaining_links[0] == links[index as int]);
        let tail = outcomes_replies(rest);
        let replies = outcomes_replies(remaining);
        assert(replies == outcome_replies(remaining[0]) + tail);
        let link = links[index as int];
        let later = outcomes_calls(handle, links.skip(index + 1 as int), rest);
        lemma_scan_calls(handle, links, (index + 1) as nat, updated, outcomes);
        match remaining[0] {
            PendingAckOutcome::NotFetched { error } => {
                assert(replies.drop_first() =~= tail);
                assert(outcome_calls(handle, link, remaining[0]) + later =~= seq![
                    CallView::GetPendingAck { address: link },
                ] + later);
            },
            PendingAckOutcome::NotCommitted { author, pending, error } => {
                assert(replies.drop_first() =~= seq![ReplyView::Address(Err(error))] + tail);
                assert(replies.drop_first().drop_first() =~= tail);
                assert(outcome_calls(handle, link, remaining[0]) + later =~= seq![
                    CallView::GetPendingAck { address: link },
                ] + (seq![CallView::CommitInAck { outmail_address: pending.outmail_address, from: author }]
                    + later));
            },
            PendingAckOutcome::NotUnlinked { author, pending, inack, error } => {
                assert(replies.drop_first() =~= seq![
                    ReplyView::Address(Ok(inack)),
                    ReplyView::Unit(Err(error)),
                ] + tail);
                assert(replies.drop_first().drop_first() =~= seq![ReplyView::Unit(Err(error))] + tail);
                assert(replies.drop_first().drop_first().drop_first() =~= tail);
                let pushed = updated.push(pending.outmail_address);
                lemma_scan_calls(handle, links, (index + 1) as nat, pushed, outcomes);
                assert(outcome_calls(handle, link, remaining[0]) + later =~= seq![
                    CallView::GetPendingAck { address: link },
                ] + (seq![CallView::CommitInAck { outmail_address: pending.outmail_address, from: author }]
                    + (seq![
                    CallView::RemoveLink {
                        base: handle,
                        target: link,
                        kind: LinkKind::AckInbox,
                        tag: Seq::empty(),
                    },
                ] + later)));
            },
            PendingAckOutcome::Unlinked { author, pending, inack, removed } => {
                assert(replies.drop_first() =~= seq![
                    ReplyView::Address(Ok(inack)),
                    ReplyView::Unit(Ok(())),
                    ReplyView::Unit(removed),
                ] + tail);
                assert(replies.drop_first().drop_first() =~= seq![
                    ReplyView::Unit(Ok(())),
                    ReplyView::Unit(removed),
                ] + tail);
                assert(replies.drop_first().drop_first().drop_first() =~= seq![ReplyView::Unit(removed)] + tail);
                assert(replies.drop_first().drop_first().drop_first().drop_first() =~= tail);
                let pushed = updated.push(pending.outmail_address);
                lemma_scan_calls(handle, links, (index + 1) as nat, pushed, outcomes);
                assert(outcome_calls(handle, link, remaining[0]) + later =~= seq![
                    CallView::GetPendingAck { address: link },
                ] + (seq![CallView::CommitInAck { outmail_address: pending.outmail_address, from: author }]
                    + (seq![
                    CallView::RemoveLink {
                        base: handle,
                        target: link,
                        kind: LinkKind::AckInbox,
                        tag: Seq::empty(),
                    },
                ] + (seq![CallView::RemoveEntry { address: link }] + later))));
            },
        }
    }
}

proof fn lemma_scan_resume(
    handle: Seq<char>,
    links: Seq<Seq<char>>,
    index: nat,
    updated: Seq<Seq<char>>,
    outcomes: Seq<PendingAckOutcome>,
)
    requires
        links.len() == outcomes.len(),
        index <= links.len(),
    ensures
        ({
            let (s, a) = CheckIncomingAckView::scan(handle, links, index, updated);
            s.resume(a, outcomes_replies(outcomes.skip(index as int))) == Some(
                Ok::<Seq<Seq<char>>, ErrorView>(updated + acknowledged_mails(outcomes.skip(index as int))),
            )
        }),
    decreases links.len() - index,
{
    reveal_with_fuel(CheckIncomingAckView::resume, 5);
    let remaining = outcomes.skip(index as int);
    if index == links.len() {
        assert(remaining =~= Seq::<PendingAckOutcome>::empty());
        assert(updated + Seq::<Seq<char>>::empty() =~= updated);
    } else {
        let rest = outcomes.skip(index + 1 as int);
        assert(remaining.drop_first() =~= rest);
        let tail = outcomes_replies(rest);
        let replies = outcomes_replies(remaining);
        assert(replies == outcome_replies(remaining[0]) + tail);
        let s0 = CheckIncomingAckView::Scanning {
            handle,
            links,
            index,
            updated,
            stage: AckItemStageView::Fetching,
        };
        let a0 = ActionView::<CheckResultView>::Call(CallView::GetPendingAck { address: links[index as int] });
        assert(CheckIncomingAckView::scan(handle, links, index, updated) == (s0, a0));
        match remaining[0] {
            PendingAckOutcome::NotFetched { error } => {
                assert(replies.drop_first() =~= tail);
                lemma_scan_resume(handle, links, (index + 1) as nat, updated, outcomes);
            },
            PendingAckOutcome::NotCommitted { author, pending, error } => {
                assert(replies.drop_first() =~= seq![ReplyView::Address(Err(error))] + tail);
                assert(replies.drop_first().drop_first() =~= tail);
                lemma_scan_resume(handle, links, (index + 1) as nat, updated, outcomes);
            },
            PendingAckOutcome::NotUnlinked { author, pending, inack, error } => {
                assert(replies.drop_first() =~= seq![
                    ReplyView::Address(Ok(inack)),
                    ReplyView::Unit(Err(error)),
                ] + tail);
                assert(replies.drop_first().drop_first() =~= seq![ReplyView::Unit(Err(error))] + tail);
                assert(replies.drop_first().drop_first().drop_first() =~= tail);
                let pushed = updated.push(pending.outmail_address);
                lemma_scan_resume(handle, links, (index + 1) as nat, pushed, outcomes);
                assert(pushed + acknowledged_mails(rest) =~= updated + (seq![pending.outmail_address]
                    + acknowledged_mails(rest)));
            },
            PendingAckOutcome::Unlinked { author, pending, inack, removed } => {
                assert(replies.drop_first() =~= seq![
                    ReplyView::Address(Ok(inack)),
                    ReplyView::Unit(Ok(())),
                    ReplyView::Unit(removed),
                ] + tail);
                assert(replies.drop_first().drop_first() =~= seq![
                    ReplyView::Unit(Ok(())),
                    ReplyView::Unit(removed),
                ] + tail);
                assert(replies.drop_first().drop_first().drop_first() =~= seq![ReplyView::Unit(removed)] + tail);
                assert(replies.drop_first().drop_first().drop_first().drop_first() =~= tail);
                let pushed = updated.push(pending.outmail_address);
                lemma_scan_resume(handle, links, (index + 1) as nat, pushed, outcomes);
                assert(pushed + acknowledged_mails(rest) =~= updated + (seq![pending.outmail_address]
                    + acknowledged_mails(rest)));
            },
        }
    }
}

/// `check_incoming_ack`, for a handle whose `ack_inbox` links lead to pending
/// acks with the given outcomes, returns the OutMail addresses of exactly the
/// pending acks for which a new InAck was committed, in the order of the
/// links (whether or not their link and PendingAck could then be removed).
pub proof fn lemma_check_incoming_ack_returns_acknowledged(
    handle: Seq<char>,
    links: Seq<Seq<char>>,
    outcomes: Seq<PendingAckOutcome>,
)
    requires
        links.len() == outcomes.len(),
    ensures
        CheckIncomingAckView::FindingHandle.resume(
            ActionView::Call(CallView::GetMyHandleEntry),
            seq![ReplyView::MyHandle(Some(handle)), ReplyView::Links(Ok(links))] + outcomes_replies(
                outcomes,
            ),
        ) == Some(Ok::<Seq<Seq<char>>, ErrorView>(acknowledged_mails(outcomes))),
{
    reveal_with_fuel(CheckIncomingAckView::resume, 3);
    let replies = seq![ReplyView::MyHandle(Some(handle)), ReplyView::Links(Ok(links))]
        + outcomes_replies(outcomes);
    assert(replies.drop_first() =~= seq![ReplyView::Links(Ok(links))] + outcomes_replies(outcomes));
    assert(replies.drop_first().drop_first() =~= outcomes_replies(outcomes));
    assert(outcomes.skip(0) =~= outcomes);
    lemma_scan_resume(handle, links, 0, Seq::empty(), outcomes);
    assert(Seq::<Seq<char>>::empty() + acknowledged_mails(outcomes) =~= acknowledged_mails(outcomes));
}

/// Without a handle, `check_incoming_ack` fails at once, without touching
/// any link or entry.
pub proof fn lemma_check_incoming_ack_needs_handle()
    ensures
        CheckIncomingAckView::FindingHandle.next(ReplyView::MyHandle(None)) == (
            CheckIncomingAckView::Finished,
            ActionView::<CheckResultView>::Return(
                Err(ErrorView::Internal("This agent does not have a Handle set up"@)),
            ),
        ),
{
}

/// The host calls of `check_incoming_ack`, for a handle whose `ack_inbox`
/// links lead to pending acks with the given outcomes: it asks for the
/// handle and its `ack_inbox` links, then takes the links in order. For each
/// it fetches the PendingAck behind it; once an InAck is committed for that
/// PendingAck, it removes the `ack_inbox` link of that same pending ack and
/// then deletes that same PendingAck. Nothing else is removed.
pub proof fn lemma_check_incoming_ack_calls(
    handle: Seq<char>,
    links: Seq<Seq<char>>,
    outcomes: Seq<PendingAckOutcome>,
)
    requires
        links.len() == outcomes.len(),
    ensures
        CheckIncomingAckView::FindingHandle.calls(
            ActionView::Call(CallView::GetMyHandleEntry),
            seq![ReplyView::MyHandle(Some(handle)), ReplyView::Links(Ok(links))] + outcomes_replies(
                outcomes,
            ),
        ) == seq![
            CallView::GetMyHandleEntry,
            CallView::GetLinks { base: handle, kind: LinkKind::AckInbox },
        ] + outcomes_calls(handle, links, outcomes),
{
    reveal_with_fuel(CheckIncomingAckView::calls, 3);
    let replies = seq![ReplyView::MyHandle(Some(handle)), ReplyView::Links(Ok(links))]
        + outcomes_replies(outcomes);
    assert(replies.drop_first() =~= seq![ReplyView::Links(Ok(links))] + outcomes_replies(outcomes));
    assert(replies.drop_first().drop_first() =~= outcomes_replies(outcomes));
    assert(outcomes.skip(0) =~= outcomes);
    assert(links.skip(0) =~= links);
    lemma_scan_calls(handle, links, 0, Seq::empty(), outcomes);
    let later = outcomes_calls(handle, links, outcomes);
    assert(seq![CallView::GetMyHandleEntry] + (seq![
        CallView::GetLinks { base: handle, kind: LinkKind::AckInbox },
    ] + later) =~= seq![
        CallView::GetMyHandleEntry,
        CallView::GetLinks { base: handle, kind: LinkKind::AckInbox },
    ] + later);
}

} // verus!
