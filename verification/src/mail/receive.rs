use vstd::pervasive::unreached;
use vstd::prelude::*;

use crate::host::{
    action_view, ErrorView, snapmail_now, Action, ActionView, AgentAddress, AppEntry, AppEntryView, CallView,
    HostCall, HostReply, ReplyView,
};
use crate::mail::entries::{InMail, InMailView, Mail, MailView};
use crate::protocol::{AckMessage, DirectMessageProtocol, MailMessage, MailMessageView, MessageView};
use crate::signal_protocol::{
    InMailState, MailItem, MailItemView, MailState, ReceivedAck, ReceivedAckView, SignalProtocol,
    SignalView,
};

verus! {

/// `receive_direct_mail` in progress: stores a mail received by direct
/// message as an InMail and tells the user interface.
#[derive(Debug, PartialEq, Eq)]
pub enum ReceiveDirectMail {
    /// Waiting for the commit of the InMail.
    CommittingInMail { from: AgentAddress, mail: Mail },
    /// Waiting for the emission of the `received_mail` signal.
    Signalling,
    Finished,
}

pub enum ReceiveDirectMailView {
    CommittingInMail { from: Seq<char>, mail: MailView },
    Signalling,
    Finished,
}

impl View for ReceiveDirectMail {
    type V = ReceiveDirectMailView;

    open spec fn view(&self) -> ReceiveDirectMailView {
        match self {
            ReceiveDirectMail::CommittingInMail { from, mail } =>
                ReceiveDirectMailView::CommittingInMail { from: from@, mail: mail@ },
            ReceiveDirectMail::Signalling => ReceiveDirectMailView::Signalling,
            ReceiveDirectMail::Finished => ReceiveDirectMailView::Finished,
        }
    }
}

/// `receive_direct_ack` in progress: stores an acknowledgement received by
/// direct message as an InAck and tells the user interface.
#[derive(Debug, PartialEq, Eq)]
pub enum ReceiveDirectAck {
    /// Waiting for the commit of the InAck.
    CommittingInAck { from: AgentAddress, outmail_address: AgentAddress },
    /// Waiting for the emission of the `received_ack` signal.
    Signalling,
    Finished,
}

pub enum ReceiveDirectAckView {
    CommittingInAck { from: Seq<char>, outmail_address: Seq<char> },
    Signalling,
    Finished,
}

impl View for ReceiveDirectAck {
    type V = ReceiveDirectAckView;

    open spec fn view(&self) -> ReceiveDirectAckView {
        match self {
            ReceiveDirectAck::CommittingInAck { from, outmail_address } =>
                ReceiveDirectAckView::CommittingInAck {
                from: from@,
                outmail_address: outmail_address@,
            },
            ReceiveDirectAck::Signalling => ReceiveDirectAckView::Signalling,
            ReceiveDirectAck::Finished => ReceiveDirectAckView::Finished,
        }
    }
}

pub open spec fn answer_action_view(a: Action<DirectMessageProtocol>) -> ActionView<MessageView> {
    action_view(a, |m: DirectMessageProtocol| m@)
}

impl ReceiveDirectMailView {
    /// `reply` answers the call this state waits for.
    pub open spec fn accepts(self, reply: ReplyView) -> bool {
        match (self, reply) {
            (ReceiveDirectMailView::CommittingInMail { .. }, ReplyView::Address(_)) => true,
            (ReceiveDirectMailView::Signalling, ReplyView::Unit(_)) => true,
            _ => false,
        }
    }

    /// The state and action that follow `reply`, when the clock reads `now`.
    pub open spec fn next(self, reply: ReplyView, now: u64) -> (Self, ActionView<MessageView>) {
        match (self, reply) {
            (ReceiveDirectMailView::CommittingInMail { .. }, ReplyView::Address(Err(_))) => (
                ReceiveDirectMailView::Finished,
                ActionView::Return(MessageView::Failure("Failed committing InMail"@)),
            ),
            (ReceiveDirectMailView::CommittingInMail { from, mail }, ReplyView::Address(Ok(address))) => (
                ReceiveDirectMailView::Signalling,
                ActionView::Call(
                    CallView::EmitSignal {
                        name: "received_mail"@,
                        signal: SignalView::ReceivedMail(
                            MailItemView {
                                address,
                                author: from,
                                mail,
                                state: MailState::In(InMailState::Arrived),
                                bcc: Seq::empty(),
                                date: now as i64,
                            },
                        ),
                    },
                ),
            ),
            (ReceiveDirectMailView::Signalling, ReplyView::Unit(_)) => (
                ReceiveDirectMailView::Finished,
                ActionView::Return(MessageView::Success(Seq::empty())),
            ),
            _ => arbitrary(),
        }
    }
}

impl ReceiveDirectAckView {
    /// `reply` answers the call this state waits for.
    pub open spec fn accepts(self, reply: ReplyView) -> bool {
        match (self, reply) {
            (ReceiveDirectAckView::CommittingInAck { .. }, ReplyView::Address(_)) => true,
            (ReceiveDirectAckView::Signalling, ReplyView::Unit(_)) => true,
            _ => false,
        }
    }

    /// The state and action that follow `reply`.
    pub open spec fn next(self, reply: ReplyView) -> (Self, ActionView<MessageView>) {
        match (self, reply) {
            (ReceiveDirectAckView::CommittingInAck { .. }, ReplyView::Address(Err(_))) => (
                ReceiveDirectAckView::Finished,
                ActionView::Return(MessageView::Failure("Failed committing InAck"@)),
            ),
            (
                ReceiveDirectAckView::CommittingInAck { from, outmail_address },
                ReplyView::Address(Ok(_)),
            ) => (
                ReceiveDirectAckView::Signalling,
                ActionView::Call(
                    CallView::EmitSignal {
                        name: "received_ack"@,
                        signal: SignalView::ReceivedAck(
                            ReceivedAckView { from, for_mail: outmail_address },
                        ),
                    },
                ),
            ),
            (ReceiveDirectAckView::Signalling, ReplyView::Unit(_)) => (
                ReceiveDirectAckView::Finished,
                ActionView::Return(MessageView::Success(Seq::empty())),
            ),
            _ => arbitrary(),
        }
    }
}

/// The InMail that `receive_direct_mail` commits for `mail` from `from`,
/// received at `date`, as values.
pub open spec fn received_inmail(from: Seq<char>, mail: MailMessageView, date: u64) -> AppEntryView {
    AppEntryView::InMail(
        InMailView { mail: mail.mail, from, date_received: date, outmail_address: mail.outmail_address },
    )
}

/// Start `receive_direct_mail` for the mail `mail_msg` sent by `from`,
/// received at `now`: commit the InMail.
pub fn receive_direct_mail_at(from: AgentAddress, mail_msg: MailMessage, now: u64) -> (res: (
    ReceiveDirectMail,
    Action<DirectMessageProtocol>,
))
    ensures
        res.0@ == (ReceiveDirectMailView::CommittingInMail { from: from@, mail: mail_msg.mail@ }),
        answer_action_view(res.1) == ActionView::<MessageView>::Call(
            CallView::CommitEntry { entry: received_inmail(from@, mail_msg@, now) },
        ),
{
    let mail = mail_msg.mail.clone();
    let inmail = InMail::from_direct_at(from.clone(), mail_msg, now);
    (
        ReceiveDirectMail::CommittingInMail { from, mail },
        Action::Call(HostCall::CommitEntry { entry: AppEntry::InMail(inmail) }),
    )
}

/// Start `receive_direct_mail` for the mail `mail_msg` sent by `from`: commit
/// the InMail, dated by the clock.
pub fn receive_direct_mail(from: AgentAddress, mail_msg: MailMessage) -> (res: (
    ReceiveDirectMail,
    Action<DirectMessageProtocol>,
))
    ensures
        res.0@ == (ReceiveDirectMailView::CommittingInMail { from: from@, mail: mail_msg.mail@ }),
        exists|date: u64|
            answer_action_view(res.1) == ActionView::<MessageView>::Call(
                CallView::CommitEntry { entry: received_inmail(from@, mail_msg@, date) },
            ),
{
    let now = snapmail_now();
    receive_direct_mail_at(from, mail_msg, now)
}

impl ReceiveDirectMail {
    /// Whether `reply` answers the call this state waits for.
    pub fn is_acceptable(&self, reply: &HostReply) -> (res: bool)
        ensures
            res == self@.accepts(reply@),
    {
        match self {
            ReceiveDirectMail::CommittingInMail { .. } => matches!(reply, HostReply::Address(_)),
            ReceiveDirectMail::Signalling => matches!(reply, HostReply::Unit(_)),
            ReceiveDirectMail::Finished => false,
        }
    }

    /// Take the host's `reply` to the last call, at `now`: the next state,
    /// and the next call or the answer to the sender.
    pub fn step_at(self, reply: HostReply, now: u64) -> (res: (ReceiveDirectMail, Action<DirectMessageProtocol>))
        requires
            self@.accepts(reply@),
        ensures
            (res.0@, answer_action_view(res.1)) == self@.next(reply@, now),
    {
        match self {
            ReceiveDirectMail::CommittingInMail { from, mail } => match reply {
                HostReply::Address(Err(_)) => (
                    ReceiveDirectMail::Finished,
                    Action::Return(DirectMessageProtocol::Failure("Failed committing InMail".to_string())),
                ),
                HostReply::Address(Ok(address)) => {
                    let item = MailItem {
                        address,
                        author: from,
                        mail,
                        state: MailState::In(InMailState::Arrived),
                        bcc: Vec::new(),
                        date: now as i64,
                    };
                    assert(item.bcc.deep_view() =~= Seq::<Seq<char>>::empty());
                    (
                        ReceiveDirectMail::Signalling,
                        Action::Call(
                            HostCall::EmitSignal {
                                name: "received_mail".to_string(),
                                signal: SignalProtocol::ReceivedMail(item),
                            },
                        ),
                    )
                },
                _ => unreached(),
            },
            ReceiveDirectMail::Signalling => (
                ReceiveDirectMail::Finished,
                Action::Return(DirectMessageProtocol::Success(String::new())),
            ),
            ReceiveDirectMail::Finished => unreached(),
        }
    }

    /// Take the host's `reply` to the last call: the next state, and the next
    /// call or the answer to the sender. The signal is dated by the clock.
    pub fn step(self, reply: HostReply) -> (res: (ReceiveDirectMail, Action<DirectMessageProtocol>))
        requires
            self@.accepts(reply@),
        ensures
            exists|now: u64| (res.0@, answer_action_view(res.1)) == self@.next(reply@, now),
    {
        let now = snapmail_now();
        self.step_at(reply, now)
    }
}

/// Start `receive_direct_ack` for the acknowledgement `ack_msg` sent by
/// `from`: commit the InAck.
pub fn receive_direct_ack(from: AgentAddress, ack_msg: AckMessage) -> (res: (
    ReceiveDirectAck,
    Action<DirectMessageProtocol>,
))
    ensures
        res.0@ == (ReceiveDirectAckView::CommittingInAck {
            from: from@,
            outmail_address: ack_msg.outmail_address@,
        }),
        answer_action_view(res.1) == ActionView::<MessageView>::Call(
            CallView::CommitInAck { outmail_address: ack_msg.outmail_address@, from: from@ },
        ),
{
    let outmail_address = ack_msg.outmail_address;
    let call = HostCall::CommitInAck { outmail_address: outmail_address.clone(), from: from.clone() };
    (ReceiveDirectAck::CommittingInAck { from, outmail_address }, Action::Call(call))
}

impl ReceiveDirectAck {
    /// Whether `reply` answers the call this state waits for.
    pub fn is_acceptable(&self, reply: &HostReply) -> (res: bool)
        ensures
            res == self@.accepts(reply@),
    {
        match self {
            ReceiveDirectAck::CommittingInAck { .. } => matches!(reply, HostReply::Address(_)),
            ReceiveDirectAck::Signalling => matches!(reply, HostReply::Unit(_)),
            ReceiveDirectAck::Finished => false,
        }
    }

    /// Take the host's `reply` to the last call: the next state, and the next
    /// call or the answer to the sender.
    pub fn step(self, reply: HostReply) -> (res: (ReceiveDirectAck, Action<DirectMessageProtocol>))
        requires
            self@.accepts(reply@),
        ensures
            (res.0@, answer_action_view(res.1)) == self@.next(reply@),
    {
        match self {
            ReceiveDirectAck::CommittingInAck { from, outmail_address } => match reply {
                HostReply::Address(Err(_)) => (
                    ReceiveDirectAck::Finished,
                    Action::Return(DirectMessageProtocol::Failure("Failed committing InAck".to_string())),
                ),
                HostReply::Address(Ok(_)) => {
                    let signal = SignalProtocol::ReceivedAck(ReceivedAck { from, for_mail: outmail_address });
                    (
                        ReceiveDirectAck::Signalling,
                        Action::Call(HostCall::EmitSignal { name: "received_ack".to_string(), signal }),
                    )
                },
                _ => unreached(),
            },
            ReceiveDirectAck::Signalling => (
                ReceiveDirectAck::Finished,
                Action::Return(DirectMessageProtocol::Success(String::new())),
            ),
            ReceiveDirectAck::Finished => unreached(),
        }
    }
}

/// What `receive` makes of a direct message.
#[derive(Debug, PartialEq, Eq)]
pub enum Reception {
    /// A mail: `receive_direct_mail`, started.
    Mail(ReceiveDirectMail, Action<DirectMessageProtocol>),
    /// An acknowledgement: `receive_direct_ack`, started.
    Ack(ReceiveDirectAck, Action<DirectMessageProtocol>),
    /// Any other message, answered at once.
    Answered(DirectMessageProtocol),
}

/// The answer that `receive` gives at once to `msg`, if it does not start a
/// mail or acknowledgement reception.
pub open spec fn immediate_answer(msg: MessageView) -> Option<MessageView> {
    match msg {
        MessageView::Mail(_) => None,
        MessageView::Ack(_) => None,
        MessageView::Ping => Some(MessageView::Success(Seq::empty())),
        _ => Some(MessageView::Failure("Unexpected protocol"@)),
    }
}

/// Handle the direct message `msg` sent by `from`: start the reception of a
/// mail or an acknowledgement, answer `Success` to a ping, and refuse any
/// other message.
pub fn receive(from: AgentAddress, msg: DirectMessageProtocol) -> (res: Reception)
    ensures
        (res is Answered) == (immediate_answer(msg@) is Some),
        res matches Reception::Answered(answer) ==> answer@ == immediate_answer(msg@).unwrap(),
        msg matches DirectMessageProtocol::Mail(mail_msg) ==> (res matches Reception::Mail(state, action)
            && state@ == (ReceiveDirectMailView::CommittingInMail { from: from@, mail: mail_msg.mail@ })
            && exists|date: u64|
            answer_action_view(action) == ActionView::<MessageView>::Call(
                CallView::CommitEntry { entry: received_inmail(from@, mail_msg@, date) },
            )),
        msg matches DirectMessageProtocol::Ack(ack_msg) ==> (res matches Reception::Ack(state, action)
            && state@ == (ReceiveDirectAckView::CommittingInAck {
            from: from@,
            outmail_address: ack_msg.outmail_address@,
        }) && answer_action_view(action) == ActionView::<MessageView>::Call(
            CallView::CommitInAck { outmail_address: ack_msg.outmail_address@, from: from@ },
        )),
{
    match msg {
        DirectMessageProtocol::Mail(mail_msg) => {
            let (state, action) = receive_direct_mail(from, mail_msg);
            Reception::Mail(state, action)
        },
        DirectMessageProtocol::Ack(ack_msg) => {
            let (state, action) = receive_direct_ack(from, ack_msg);
            Reception::Ack(state, action)
        },
        DirectMessageProtocol::Ping => Reception::Answered(DirectMessageProtocol::Success(String::new())),
        _ => Reception::Answered(DirectMessageProtocol::Failure("Unexpected protocol".to_string())),
    }
}

/// A received mail is answered `Success` once its InMail is committed, after
/// the user interface is signalled with the InMail's address, the sender and
/// the mail, whether or not the signal could be emitted; when the commit
/// fails it is answered "Failed committing InMail" and nothing is signalled.
pub proof fn lemma_receive_direct_mail_answers(
    from: Seq<char>,
    mail: MailView,
    address: Seq<char>,
    error: ErrorView,
    emitted: Result<(), ErrorView>,
    now: u64,
    later_now: u64,
)
    ensures
        (ReceiveDirectMailView::CommittingInMail { from, mail }).next(ReplyView::Address(Err(error)), now)
            == (ReceiveDirectMailView::Finished, ActionView::Return(
            MessageView::Failure("Failed committing InMail"@),
        )),
        ({
            let (signalling, action) = (ReceiveDirectMailView::CommittingInMail { from, mail }).next(
                ReplyView::Address(Ok(address)),
                now,
            );
            &&& action matches ActionView::Call(
                CallView::EmitSignal { name, signal: SignalView::ReceivedMail(item) },
            )
            &&& name == "received_mail"@
            &&& item.address == address
            &&& item.author == from
            &&& item.mail == mail
            &&& item.state == MailState::In(InMailState::Arrived)
            &&& signalling.next(ReplyView::Unit(emitted), later_now) == (
                ReceiveDirectMailView::Finished,
                ActionView::Return(MessageView::Success(Seq::empty())),
            )
        }),
{
}

/// A received acknowledgement is answered `Success` once its InAck is
/// committed, after the user interface is signalled with the sender and the
/// acknowledged mail, whether or not the signal could be emitted; when the
/// commit fails it is answered "Failed committing InAck" and nothing is
/// signalled.
pub proof fn lemma_receive_direct_ack_answers(
    from: Seq<char>,
    outmail_address: Seq<char>,
    inack_address: Seq<char>,
    error: ErrorView,
    emitted: Result<(), ErrorView>,
)
    ensures
        (ReceiveDirectAckView::CommittingInAck { from, outmail_address }).next(
            ReplyView::Address(Err(error)),
        ) == (ReceiveDirectAckView::Finished, ActionView::Return(
            MessageView::Failure("Failed committing InAck"@),
        )),
        (ReceiveDirectAckView::CommittingInAck { from, outmail_address }).next(
            ReplyView::Address(Ok(inack_address)),
        ) == (ReceiveDirectAckView::Signalling, ActionView::<MessageView>::Call(
            CallView::EmitSignal {
                name: "received_ack"@,
                signal: SignalView::ReceivedAck(ReceivedAckView { from, for_mail: outmail_address }),
            },
        )),
        ReceiveDirectAckView::Signalling.next(ReplyView::Unit(emitted)) == (
            ReceiveDirectAckView::Finished,
            ActionView::Return(MessageView::Success(Seq::empty())),
        ),
{
}

} // verus!
