use vstd::pervasive::unreached;
use vstd::prelude::*;

use crate::host::{
    action_view, result_view, Action, ActionView, Address, AgentAddress, AppEntry, AppEntryView,
    CallView, ErrorView, HostCall, HostReply, LinkKind, ReplyView, ZomeApiError, ZomeApiResult,
};
use crate::mail::entries::{InMailView, OutAck, PendingAck, PendingAckView};
use crate::protocol::{AckMessage, AckMessageView, DirectMessageProtocol, MessageView};

verus! {

/// `acknowledge_mail` in progress: writes an OutAck for a received mail and
/// delivers the acknowledgement to the mail's author, directly if it is
/// online, else through a PendingAck on the DHT.
#[derive(Debug, PartialEq, Eq)]
pub enum AcknowledgeMail {
    /// Waiting for the InMail.
    FetchingInMail { inmail_address: Address, agent_address: AgentAddress },
    /// Waiting for the number of `acknowledgment` links of the InMail.
    CountingAcks {
        inmail_address: Address,
        agent_address: AgentAddress,
        outmail_address: Address,
        from: AgentAddress,
    },
    /// Waiting for the commit of the OutAck.
    CommittingOutAck {
        inmail_address: Address,
        agent_address: AgentAddress,
        outmail_address: Address,
        from: AgentAddress,
    },
    /// Waiting for the link from the InMail to the OutAck.
    LinkingOutAck {
        agent_address: AgentAddress,
        outmail_address: Address,
        from: AgentAddress,
        outack_address: Address,
    },
    /// Waiting for the answer to the acknowledgement sent directly to the author.
    SendingAck {
        agent_address: AgentAddress,
        outmail_address: Address,
        from: AgentAddress,
        outack_address: Address,
    },
    /// Waiting for the commit of the PendingAck.
    CommittingPendingAck { agent_address: AgentAddress, from: AgentAddress, outack_address: Address },
    /// Waiting for the link from the OutAck to the PendingAck.
    LinkingPendingAck {
        agent_address: AgentAddress,
        from: AgentAddress,
        outack_address: Address,
        pending_ack_address: Address,
    },
    /// Waiting for the link from the author to the PendingAck.
    LinkingAckInbox { outack_address: Address },
    Finished,
}

pub enum AcknowledgeMailView {
    FetchingInMail { inmail_address: Seq<char>, agent_address: Seq<char> },
    CountingAcks {
        inmail_address: Seq<char>,
        agent_address: Seq<char>,
        outmail_address: Seq<char>,
        from: Seq<char>,
    },
    CommittingOutAck {
        inmail_address: Seq<char>,
        agent_address: Seq<char>,
        outmail_address: Seq<char>,
        from: Seq<char>,
    },
    LinkingOutAck {
        agent_address: Seq<char>,
        outmail_address: Seq<char>,
        from: Seq<char>,
        outack_address: Seq<char>,
    },
    SendingAck {
        agent_address: Seq<char>,
        outmail_address: Seq<char>,
        from: Seq<char>,
        outack_address: Seq<char>,
    },
    CommittingPendingAck { agent_address: Seq<char>, from: Seq<char>, outack_address: Seq<char> },
    LinkingPendingAck {
        agent_address: Seq<char>,
        from: Seq<char>,
        outack_address: Seq<char>,
        pending_ack_address: Seq<char>,
    },
    LinkingAckInbox { outack_address: Seq<char> },
    Finished,
}

impl View for AcknowledgeMail {
    type V = AcknowledgeMailView;

    open spec fn view(&self) -> AcknowledgeMailView {
        match self {
            AcknowledgeMail::FetchingInMail { inmail_address, agent_address } =>
                AcknowledgeMailView::FetchingInMail {
                inmail_address: inmail_address@,
                agent_address: agent_address@,
            },
            AcknowledgeMail::CountingAcks { inmail_address, agent_address, outmail_address, from } =>
                AcknowledgeMailView::CountingAcks {
                inmail_address: inmail_address@,
                agent_address: agent_address@,
                outmail_address: outmail_address@,
                from: from@,
            },
            AcknowledgeMail::CommittingOutAck {
                inmail_address,
                agent_address,
                outmail_address,
                from,
            } => AcknowledgeMailView::CommittingOutAck {
                inmail_address: inmail_address@,
                agent_address: agent_address@,
                outmail_address: outmail_address@,
                from: from@,
            },
            AcknowledgeMail::LinkingOutAck { agent_address, outmail_address, from, outack_address } =>
                AcknowledgeMailView::LinkingOutAck {
                agent_address: agent_address@,
                outmail_address: outmail_address@,
                from: from@,
                outack_address: outack_address@,
            },
            AcknowledgeMail::SendingAck { agent_address, outmail_address, from, outack_address } =>
                AcknowledgeMailView::SendingAck {
                agent_address: agent_address@,
                outmail_address: outmail_address@,
                from: from@,
                outack_address: outack_address@,
            },
            AcknowledgeMail::CommittingPendingAck { agent_address, from, outack_address } =>
                AcknowledgeMailView::CommittingPendingAck {
                agent_address: agent_address@,
                from: from@,
                outack_address: outack_address@,
            },
            AcknowledgeMail::LinkingPendingAck {
                agent_address,
                from,
                outack_address,
                pending_ack_address,
            } => AcknowledgeMailView::LinkingPendingAck {
                agent_address: agent_address@,
                from: from@,
                outack_address: outack_address@,
                pending_ack_address: pending_ack_address@,
            },
            AcknowledgeMail::LinkingAckInbox { outack_address } =>
                AcknowledgeMailView::LinkingAckInbox { outack_address: outack_address@ },
            AcknowledgeMail::Finished => AcknowledgeMailView::Finished,
        }
    }
}

/// The result of `acknowledge_mail`, as values.
pub type AckResultView = Result<Seq<char>, ErrorView>;

pub open spec fn ack_result_view(r: ZomeApiResult<Address>) -> AckResultView {
    result_view(r, |a: Address| a@)
}

pub open spec fn ack_action_view(a: Action<ZomeApiResult<Address>>) -> ActionView<AckResultView> {
    action_view(a, |r: ZomeApiResult<Address>| ack_result_view(r))
}

/// Whether the author's answer to a direct acknowledgement means that it was
/// received: `Ok` only for a `Success` answer; the transport's error, the
/// text of a parse error, or "Failed" otherwise.
pub open spec fn direct_ack_outcome(answer: Result<Result<MessageView, Seq<char>>, ErrorView>) -> Result<
    (),
    ErrorView,
> {
    match answer {
        Err(e) => Err(e),
        Ok(Err(text)) => Err(ErrorView::Internal(text)),
        Ok(Ok(MessageView::Success(_))) => Ok(()),
        Ok(Ok(_)) => Err(ErrorView::Internal("Failed"@)),
    }
}

impl AcknowledgeMailView {
    /// `reply` answers the call this state waits for.
    pub open spec fn accepts(self, reply: ReplyView) -> bool {
        match (self, reply) {
            (AcknowledgeMailView::FetchingInMail { .. }, ReplyView::InMail(_)) => true,
            (AcknowledgeMailView::CountingAcks { .. }, ReplyView::LinkCount(_)) => true,
            (AcknowledgeMailView::CommittingOutAck { .. }, ReplyView::Address(_)) => true,
            (AcknowledgeMailView::LinkingOutAck { .. }, ReplyView::Address(_)) => true,
            (AcknowledgeMailView::SendingAck { .. }, ReplyView::Answer(_)) => true,
            (AcknowledgeMailView::CommittingPendingAck { .. }, ReplyView::Address(_)) => true,
            (AcknowledgeMailView::LinkingPendingAck { .. }, ReplyView::Address(_)) => true,
            (AcknowledgeMailView::LinkingAckInbox { .. }, ReplyView::Address(_)) => true,
            _ => false,
        }
    }

    /// The state and action that follow `reply`.
    pub open spec fn next(self, reply: ReplyView) -> (Self, ActionView<AckResultView>) {
        match (self, reply) {
            (AcknowledgeMailView::FetchingInMail { .. }, ReplyView::InMail(Err(e))) => (
                AcknowledgeMailView::Finished,
                ActionView::Return(Err(e)),
            ),
            (
                AcknowledgeMailView::FetchingInMail { inmail_address, agent_address },
                ReplyView::InMail(Ok(inmail)),
            ) => (
                AcknowledgeMailView::CountingAcks {
                    inmail_address,
                    agent_address,
                    outmail_address: inmail.outmail_address,
                    from: inmail.from,
                },
                ActionView::Call(
                    CallView::CountLinks { base: inmail_address, kind: LinkKind::Acknowledgment },
                ),
            ),
            (AcknowledgeMailView::CountingAcks { .. }, ReplyView::LinkCount(Err(e))) => (
                AcknowledgeMailView::Finished,
                ActionView::Return(Err(e)),
            ),
            (
                AcknowledgeMailView::CountingAcks {
                    inmail_address,
                    agent_address,
                    outmail_address,
                    from,
                },
                ReplyView::LinkCount(Ok(count)),
            ) => if count > 0 {
                (
                    AcknowledgeMailView::Finished,
                    ActionView::Return(
                        Err(ErrorView::Internal("Mail has already been acknowledged"@)),
                    ),
                )
            } else {
                (
                    AcknowledgeMailView::CommittingOutAck {
                        inmail_address,
                        agent_address,
                        outmail_address,
                        from,
                    },
                    ActionView::Call(CallView::CommitEntry { entry: AppEntryView::OutAck }),
                )
            },
            (AcknowledgeMailView::CommittingOutAck { .. }, ReplyView::Address(Err(e))) => (
                AcknowledgeMailView::Finished,
                ActionView::Return(Err(e)),
            ),
            (
                AcknowledgeMailView::CommittingOutAck {
                    inmail_address,
                    agent_address,
                    outmail_address,
                    from,
                },
                ReplyView::Address(Ok(outack_address)),
            ) => (
                AcknowledgeMailView::LinkingOutAck {
                    agent_address,
                    outmail_address,
                    from,
                    outack_address,
                },
                ActionView::Call(
                    CallView::LinkEntries {
                        base: inmail_address,
                        target: outack_address,
                        kind: LinkKind::Acknowledgment,
                        tag: Seq::empty(),
                    },
                ),
            ),
            (AcknowledgeMailView::LinkingOutAck { .. }, ReplyView::Address(Err(e))) => (
                AcknowledgeMailView::Finished,
                ActionView::Return(Err(e)),
            ),
            (
                AcknowledgeMailView::LinkingOutAck {
                    agent_address,
                    outmail_address,
                    from,
                    outack_address,
                },
                ReplyView::Address(Ok(_)),
            ) => (
                AcknowledgeMailView::SendingAck {
                    agent_address,
                    outmail_address,
                    from,
                    outack_address,
                },
                ActionView::Call(
                    CallView::Send {
                        to: from,
                        message: MessageView::Ack(AckMessageView { outmail_address }),
                    },
                ),
            ),
            (
                AcknowledgeMailView::SendingAck {
                    agent_address,
                    outmail_address,
                    from,
                    outack_address,
                },
                ReplyView::Answer(answer),
            ) => if direct_ack_outcome(answer) is Ok {
                (AcknowledgeMailView::Finished, ActionView::Return(Ok(outack_address)))
            } else {
                (
                    AcknowledgeMailView::CommittingPendingAck { agent_address, from, outack_address },
                    ActionView::Call(
                        CallView::CommitEntry {
                            entry: AppEntryView::PendingAck(PendingAckView { outmail_address }),
                        },
                    ),
                )
            },
            (
                AcknowledgeMailView::CommittingPendingAck { outack_address, .. },
                ReplyView::Address(Err(_)),
            ) => (AcknowledgeMailView::Finished, ActionView::Return(Ok(outack_address))),
            (
                AcknowledgeMailView::CommittingPendingAck { agent_address, from, outack_address },
                ReplyView::Address(Ok(pending_ack_address)),
            ) => (
                AcknowledgeMailView::LinkingPendingAck {
                    agent_address,
                    from,
                    outack_address,
                    pending_ack_address,
                },
                ActionView::Call(
                    CallView::LinkEntries {
                        base: outack_address,
                        target: pending_ack_address,
                        kind: LinkKind::Pending,
                        tag: Seq::empty(),
                    },
                ),
            ),
            (
                AcknowledgeMailView::LinkingPendingAck { outack_address, .. },
                ReplyView::Address(Err(_)),
            ) => (AcknowledgeMailView::Finished, ActionView::Return(Ok(outack_address))),
            (
                AcknowledgeMailView::LinkingPendingAck {
                    agent_address,
                    from,
                    outack_address,
                    pending_ack_address,
                },
                ReplyView::Address(Ok(_)),
            ) => (
                AcknowledgeMailView::LinkingAckInbox { outack_address },
                ActionView::Call(
                    CallView::LinkEntries {
                        base: from,
                        target: pending_ack_address,
                        kind: LinkKind::AckInbox,
                        tag: agent_address,
                    },
                ),
            ),
            (AcknowledgeMailView::LinkingAckInbox { outack_address }, ReplyView::Address(_)) => (
                AcknowledgeMailView::Finished,
                ActionView::Return(Ok(outack_address)),
            ),
            _ => arbitrary(),
        }
    }

    /// The result that `acknowledge_mail` returns when it stands in this
    /// state, has just produced `action`, and the host answers `replies`;
    /// `None` if the replies run out or one does not answer its call.
    pub open spec fn resume(self, action: ActionView<AckResultView>, replies: Seq<ReplyView>) -> Option<
        AckResultView,
    >
        decreases replies.len(),
    {
        match action {
            ActionView::Return(r) => Some(r),
            ActionView::Call(_) => if replies.len() == 0 || !self.accepts(replies[0]) {
                None
            } else {
                let (s, a) = self.next(replies[0]);
                s.resume(a, replies.drop_first())
            },
        }
    }
}

impl AcknowledgeMailView {
    /// The host calls that `acknowledge_mail` makes, in order, when it stands
    /// in this state, has just produced `action`, and the host answers
    /// `replies`; it stops at a reply that does not answer its call.
    pub open spec fn calls(self, action: ActionView<AckResultView>, replies: Seq<ReplyView>) -> Seq<CallView>
        decreases replies.len(),
    {
        match action {
            ActionView::Return(_) => Seq::empty(),
            ActionView::Call(call) => if replies.len() == 0 || !self.accepts(replies[0]) {
                seq![call]
            } else {
                let (s, a) = self.next(replies[0]);
                seq![call] + s.calls(a, replies.drop_first())
            },
        }
    }
}

/// Whether the author's answer to the acknowledgement sent to it directly
/// means that it was received (see `direct_ack_outcome`).
pub fn acknowledge_mail_direct(answer: ZomeApiResult<Result<DirectMessageProtocol, String>>) -> (res:
    ZomeApiResult<()>)
    ensures
        result_view(res, |u: ()| u) == direct_ack_outcome(
            result_view(
                answer,
                |p: Result<DirectMessageProtocol, String>|
                    match p {
                        Ok(m) => Ok(m@),
                        Err(t) => Err(t@),
                    },
            ),
        ),
{
    match answer {
        Err(e) => Err(e),
        Ok(Err(text)) => Err(ZomeApiError::Internal(text)),
        Ok(Ok(DirectMessageProtocol::Success(_))) => Ok(()),
        Ok(Ok(_)) => Err(ZomeApiError::Internal("Failed".to_string())),
    }
}

/// Start `acknowledge_mail` for the InMail at `inmail_address`, on behalf of
/// the agent `agent_address`: first fetch the InMail.
pub fn acknowledge_mail(inmail_address: Address, agent_address: AgentAddress) -> (res: (
    AcknowledgeMail,
    Action<ZomeApiResult<Address>>,
))
    ensures
        res.0@ == (AcknowledgeMailView::FetchingInMail {
            inmail_address: inmail_address@,
            agent_address: agent_address@,
        }),
        ack_action_view(res.1) == ActionView::<AckResultView>::Call(
            CallView::GetInMail { address: inmail_address@ },
        ),
{
    let address = inmail_address.clone();
    (
        AcknowledgeMail::FetchingInMail { inmail_address, agent_address },
        Action::Call(HostCall::GetInMail { address }),
    )
}

impl AcknowledgeMail {
    /// Whether `reply` answers the call this state waits for.
    pub fn is_acceptable(&self, reply: &HostReply) -> (res: bool)
        ensures
            res == self@.accepts(reply@),
    {
        match self {
            AcknowledgeMail::FetchingInMail { .. } => matches!(reply, HostReply::InMail(_)),
            AcknowledgeMail::CountingAcks { .. } => matches!(reply, HostReply::LinkCount(_)),
            AcknowledgeMail::CommittingOutAck { .. } => matches!(reply, HostReply::Address(_)),
            AcknowledgeMail::LinkingOutAck { .. } => matches!(reply, HostReply::Address(_)),
            AcknowledgeMail::SendingAck { .. } => matches!(reply, HostReply::Answer(_)),
            AcknowledgeMail::CommittingPendingAck { .. } => matches!(reply, HostReply::Address(_)),
            AcknowledgeMail::LinkingPendingAck { .. } => matches!(reply, HostReply::Address(_)),
            AcknowledgeMail::LinkingAckInbox { .. } => matches!(reply, HostReply::Address(_)),
            AcknowledgeMail::Finished => false,
        }
    }

    /// Take the host's `reply` to the last call: the next state, and the next
    /// call or the result.
    pub fn step(self, reply: HostReply) -> (res: (AcknowledgeMail, Action<ZomeApiResult<Address>>))
        requires
            self@.accepts(reply@),
        ensures
            (res.0@, ack_action_view(res.1)) == self@.next(reply@),
    {
        match self {
            AcknowledgeMail::FetchingInMail { inmail_address, agent_address } => match reply {
                HostReply::InMail(Err(e)) => (AcknowledgeMail::Finished, Action::Return(Err(e))),
                HostReply::InMail(Ok(inmail)) => {
                    let base = inmail_address.clone();
                    (
                        AcknowledgeMail::CountingAcks {
                            inmail_address,
                            agent_address,
                            outmail_address: inmail.outmail_address,
                            from: inmail.from,
                        },
                        Action::Call(HostCall::CountLinks { base, kind: LinkKind::Acknowledgment }),
                    )
                },
                _ => unreached(),
            },
            AcknowledgeMail::CountingAcks { inmail_address, agent_address, outmail_address, from } =>
                match reply {
                HostReply::LinkCount(Err(e)) => (AcknowledgeMail::Finished, Action::Return(Err(e))),
                HostReply::LinkCount(Ok(count)) => {
                    if count > 0 {
                        let message = "Mail has already been acknowledged".to_string();
                        (
                            AcknowledgeMail::Finished,
                            Action::Return(Err(ZomeApiError::Internal(message))),
                        )
                    } else {
                        (
                            AcknowledgeMail::CommittingOutAck {
                                inmail_address,
                                agent_address,
                                outmail_address,
                                from,
                            },
                            Action::Call(HostCall::CommitEntry { entry: AppEntry::OutAck(OutAck::new()) }),
                        )
                    }
                },
                _ => unreached(),
            },
            AcknowledgeMail::CommittingOutAck {
                inmail_address,
                agent_address,
                outmail_address,
                from,
            } => match reply {
                HostReply::Address(Err(e)) => (AcknowledgeMail::Finished, Action::Return(Err(e))),
                HostReply::Address(Ok(outack_address)) => {
                    let target = outack_address.clone();
                    (
                        AcknowledgeMail::LinkingOutAck {
                            agent_address,
                            outmail_address,
                            from,
                            outack_address,
                        },
                        Action::Call(
                            HostCall::LinkEntries {
                                base: inmail_address,
                                target,
                                kind: LinkKind::Acknowledgment,
                                tag: String::new(),
                            },
                        ),
                    )
                },
                _ => unreached(),
            },
            AcknowledgeMail::LinkingOutAck { agent_address, outmail_address, from, outack_address } =>
                match reply {
                HostReply::Address(Err(e)) => (AcknowledgeMail::Finished, Action::Return(Err(e))),
                HostReply::Address(Ok(_)) => {
                    let to = from.clone();
                    let message = DirectMessageProtocol::Ack(
                        AckMessage { outmail_address: outmail_address.clone() },
                    );
                    (
                        AcknowledgeMail::SendingAck {
                            agent_address,
                            outmail_address,
                            from,
                            outack_address,
                        },
                        Action::Call(HostCall::Send { to, message }),
                    )
                },
                _ => unreached(),
            },
            AcknowledgeMail::SendingAck { agent_address, outmail_address, from, outack_address } =>
                match reply {
                HostReply::Answer(answer) => {
                    if acknowledge_mail_direct(answer).is_ok() {
                        (AcknowledgeMail::Finished, Action::Return(Ok(outack_address)))
                    } else {
                        let entry = AppEntry::PendingAck(PendingAck::new(outmail_address));
                        (
                            AcknowledgeMail::CommittingPendingAck { agent_address, from, outack_address },
                            Action::Call(HostCall::CommitEntry { entry }),
                        )
                    }
                },
                _ => unreached(),
            },
            AcknowledgeMail::CommittingPendingAck { agent_address, from, outack_address } =>
                match reply {
                HostReply::Address(Err(_)) => (
                    AcknowledgeMail::Finished,
                    Action::Return(Ok(outack_address)),
                ),
                HostReply::Address(Ok(pending_ack_address)) => {
                    let base = outack_address.clone();
                    let target = pending_ack_address.clone();
                    (
                        AcknowledgeMail::LinkingPendingAck {
                            agent_address,
                            from,
                            outack_address,
                            pending_ack_address,
                        },
                        Action::Call(
                            HostCall::LinkEntries { base, target, kind: LinkKind::Pending, tag: String::new() },
                        ),
                    )
                },
                _ => unreached(),
            },
            AcknowledgeMail::LinkingPendingAck {
                agent_address,
                from,
                outack_address,
                pending_ack_address,
            } => match reply {
                HostReply::Address(Err(_)) => (
                    AcknowledgeMail::Finished,
                    Action::Return(Ok(outack_address)),
                ),
                HostReply::Address(Ok(_)) => (
                    AcknowledgeMail::LinkingAckInbox { outack_address },
                    Action::Call(
                        HostCall::LinkEntries {
                            base: from,
                            target: pending_ack_address,
                            kind: LinkKind::AckInbox,
                            tag: agent_address,
                        },
                    ),
                ),
                _ => unreached(),
            },
            AcknowledgeMail::LinkingAckInbox { outack_address } => match reply {
                HostReply::Address(_) => (AcknowledgeMail::Finished, Action::Return(Ok(outack_address))),
                _ => unreached(),
            },
            AcknowledgeMail::Finished => unreached(),
        }
    }
}

/// A mail that already has an `acknowledgment` link is refused:
/// `acknowledge_mail` fails with "Mail has already been acknowledged" as soon
/// as the links are counted, so it commits, links and sends nothing.
pub proof fn lemma_acknowledge_mail_refuses_acknowledged(
    inmail_address: Seq<char>,
    agent_address: Seq<char>,
    inmail: InMailView,
    count: usize,
    later: Seq<ReplyView>,
)
    requires
        count > 0,
    ensures
        (AcknowledgeMailView::FetchingInMail { inmail_address, agent_address }).resume(
            ActionView::Call(CallView::GetInMail { address: inmail_address }),
            seq![ReplyView::InMail(Ok(inmail)), ReplyView::LinkCount(Ok(count))] + later,
        ) == Some(Err::<Seq<char>, ErrorView>(ErrorView::Internal("Mail has already been acknowledged"@))),
{
    reveal_with_fuel(AcknowledgeMailView::resume, 3);
    let replies = seq![ReplyView::InMail(Ok(inmail)), ReplyView::LinkCount(Ok(count))] + later;
    assert(replies.drop_first() =~= seq![ReplyView::LinkCount(Ok(count))] + later);
}

/// Once its OutAck is committed and linked to the InMail, `acknowledge_mail`
/// returns the OutAck's address, whatever the author answers to the direct
/// acknowledgement and whatever the host answers to the writes of the
/// PendingAck and its links.
pub proof fn lemma_acknowledge_mail_returns_outack(
    inmail_address: Seq<char>,
    agent_address: Seq<char>,
    inmail: InMailView,
    outack_address: Seq<char>,
    link_address: Seq<char>,
    answer: Result<Result<MessageView, Seq<char>>, ErrorView>,
    fallback: Seq<Result<Seq<char>, ErrorView>>,
)
    requires
        fallback.len() == 3,
    ensures
        (AcknowledgeMailView::FetchingInMail { inmail_address, agent_address }).resume(
            ActionView::Call(CallView::GetInMail { address: inmail_address }),
            seq![
                ReplyView::InMail(Ok(inmail)),
                ReplyView::LinkCount(Ok(0)),
                ReplyView::Address(Ok(outack_address)),
                ReplyView::Address(Ok(link_address)),
                ReplyView::Answer(answer),
                ReplyView::Address(fallback[0]),
                ReplyView::Address(fallback[1]),
                ReplyView::Address(fallback[2]),
            ],
        ) == Some(Ok::<Seq<char>, ErrorView>(outack_address)),
{
    reveal_with_fuel(AcknowledgeMailView::resume, 9);
    let replies = seq![
        ReplyView::InMail(Ok(inmail)),
        ReplyView::LinkCount(Ok(0)),
        ReplyView::Address(Ok(outack_address)),
        ReplyView::Address(Ok(link_address)),
        ReplyView::Answer(answer),
        ReplyView::Address(fallback[0]),
        ReplyView::Address(fallback[1]),
        ReplyView::Address(fallback[2]),
    ];
    let r1 = replies.drop_first();
    let r2 = r1.drop_first();
    let r3 = r2.drop_first();
    let r4 = r3.drop_first();
    let r5 = r4.drop_first();
    let r6 = r5.drop_first();
    let r7 = r6.drop_first();
    assert(r1[0] == ReplyView::LinkCount(Ok(0)));
    assert(r2[0] == ReplyView::Address(Ok(outack_address)));
    assert(r3[0] == ReplyView::Address(Ok(link_address)));
    assert(r4[0] == ReplyView::Answer(answer));
    assert(r5[0] == ReplyView::Address(fallback[0]));
    assert(r6[0] == ReplyView::Address(fallback[1]));
    assert(r7[0] == ReplyView::Address(fallback[2]));
}

/// After the direct acknowledgement, a PendingAck for the OutMail is
/// committed exactly when the author did not answer `Success`; otherwise
/// `acknowledge_mail` returns the OutAck's address at once.
pub proof fn lemma_pending_ack_only_when_direct_fails(
    agent_address: Seq<char>,
    outmail_address: Seq<char>,
    from: Seq<char>,
    outack_address: Seq<char>,
    answer: Result<Result<MessageView, Seq<char>>, ErrorView>,
)
    ensures
        (AcknowledgeMailView::SendingAck { agent_address, outmail_address, from, outack_address }).next(
            ReplyView::Answer(answer),
        ).1 == if direct_ack_outcome(answer) is Ok {
            ActionView::<AckResultView>::Return(Ok(outack_address))
        } else {
            ActionView::<AckResultView>::Call(
                CallView::CommitEntry {
                    entry: AppEntryView::PendingAck(PendingAckView { outmail_address }),
                },
            )
        },
{
}

/// If the host cannot count the `acknowledgment` links of the InMail,
/// `acknowledge_mail` fails with the host's error right there: it has fetched
/// the InMail and counted its links, and makes no other call (no OutAck, no
/// link, no message), whatever the host would answer next.
pub proof fn lemma_acknowledge_mail_stops_when_count_fails(
    inmail_address: Seq<char>,
    agent_address: Seq<char>,
    inmail: InMailView,
    error: ErrorView,
    later: Seq<ReplyView>,
)
    ensures
        ({
            let start = AcknowledgeMailView::FetchingInMail { inmail_address, agent_address };
            let first = ActionView::<AckResultView>::Call(CallView::GetInMail { address: inmail_address });
            let replies = seq![ReplyView::InMail(Ok(inmail)), ReplyView::LinkCount(Err(error))] + later;
            &&& start.resume(first, replies) == Some(Err::<Seq<char>, ErrorView>(error))
            &&& start.calls(first, replies) == seq![
                CallView::GetInMail { address: inmail_address },
                CallView::CountLinks { base: inmail_address, kind: LinkKind::Acknowledgment },
            ]
        }),
{
    reveal_with_fuel(AcknowledgeMailView::resume, 3);
    reveal_with_fuel(AcknowledgeMailView::calls, 3);
    let replies = seq![ReplyView::InMail(Ok(inmail)), ReplyView::LinkCount(Err(error))] + later;
    assert(replies.drop_first() =~= seq![ReplyView::LinkCount(Err(error))] + later);
    let start = AcknowledgeMailView::FetchingInMail { inmail_address, agent_address };
    let first = ActionView::<AckResultView>::Call(CallView::GetInMail { address: inmail_address });
    assert(start.calls(first, replies) =~= seq![
        CallView::GetInMail { address: inmail_address },
        CallView::CountLinks { base: inmail_address, kind: LinkKind::Acknowledgment },
    ]);
}

/// An InMail is acknowledged only when it is known to have no
/// acknowledgment yet: whatever the host answers, `acknowledge_mail` commits
/// an OutAck only after the InMail was fetched and the host counted zero
/// `acknowledgment` links on it.
pub proof fn lemma_outack_only_after_zero_count(
    inmail_address: Seq<char>,
    agent_address: Seq<char>,
    replies: Seq<ReplyView>,
)
    ensures
        (AcknowledgeMailView::FetchingInMail { inmail_address, agent_address }).calls(
            ActionView::Call(CallView::GetInMail { address: inmail_address }),
            replies,
        ).contains(CallView::CommitEntry { entry: AppEntryView::OutAck }) ==> {
            &&& replies.len() >= 2
            &&& replies[0] matches ReplyView::InMail(Ok(_))
            &&& replies[1] == ReplyView::LinkCount(Ok(0))
        },
{
    reveal_with_fuel(AcknowledgeMailView::calls, 3);
    let start = AcknowledgeMailView::FetchingInMail { inmail_address, agent_address };
    let get = CallView::GetInMail { address: inmail_address };
    let count = CallView::CountLinks { base: inmail_address, kind: LinkKind::Acknowledgment };
    let outack = CallView::CommitEntry { entry: AppEntryView::OutAck };
    let calls = start.calls(ActionView::Call(get), replies);
    if replies.len() == 0 || !start.accepts(replies[0]) {
        assert(calls =~= seq![get]);
        assert(!calls.contains(outack)) by {
            if calls.contains(outack) {
                let i = choose|i: int| 0 <= i < calls.len() && calls[i] == outack;
                assert(calls[i] == get);
            }
        }
    } else {
        match replies[0] {
            ReplyView::InMail(Err(e)) => {
                assert(calls =~= seq![get]);
                assert(!calls.contains(outack)) by {
                    if calls.contains(outack) {
                        let i = choose|i: int| 0 <= i < calls.len() && calls[i] == outack;
                        assert(calls[i] == get);
                    }
                }
            },
            ReplyView::InMail(Ok(inmail)) => {
                let r1 = replies.drop_first();
                let (s1, a1) = start.next(replies[0]);
                assert(a1 == ActionView::<AckResultView>::Call(count));
                let stops = r1.len() == 0 || !s1.accepts(r1[0]) || match r1[0] {
                    ReplyView::LinkCount(Ok(n)) => n > 0,
                    _ => true,
                };
                if stops {
                    assert(calls =~= seq![get, count]);
                    assert(!calls.contains(outack)) by {
                        if calls.contains(outack) {
                            let i = choose|i: int| 0 <= i < calls.len() && calls[i] == outack;
                            assert(calls[i] == get || calls[i] == count);
                        }
                    }
                } else {
                    assert(r1[0] == replies[1]);
                }
            },
            _ => {},
        }
    }
}

} // verus!
