use vstd::prelude::*;

use crate::host::{Address, AgentAddress};
use crate::mail::entries::{Mail, MailView};

verus! {

/// State of a received mail.
#[derive(Debug, PartialEq, Eq, Structural)]
pub enum InMailState {
    Arrived,
}

/// State of a mail, as shown to the user interface.
#[derive(Debug, PartialEq, Eq, Structural)]
pub enum MailState {
    In(InMailState),
}

/// A mail as shown to the user interface.
#[derive(Debug, PartialEq, Eq)]
pub struct MailItem {
    pub address: Address,
    pub author: AgentAddress,
    pub mail: Mail,
    pub state: MailState,
    pub bcc: Vec<AgentAddress>,
    pub date: i64,
}

/// An acknowledgement received for one of our mails.
#[derive(Debug, PartialEq, Eq)]
pub struct ReceivedAck {
    pub from: AgentAddress,
    pub for_mail: Address,
}

/// Signals emitted to the user interface.
#[derive(Debug, PartialEq, Eq)]
pub enum SignalProtocol {
    ReceivedMail(MailItem),
    ReceivedAck(ReceivedAck),
}

pub struct MailItemView {
    pub address: Seq<char>,
    pub author: Seq<char>,
    pub mail: MailView,
    pub state: MailState,
    pub bcc: Seq<Seq<char>>,
    pub date: i64,
}

pub struct ReceivedAckView {
    pub from: Seq<char>,
    pub for_mail: Seq<char>,
}

/// A signal, as values.
pub enum SignalView {
    ReceivedMail(MailItemView),
    ReceivedAck(ReceivedAckView),
}

impl View for MailItem {
    type V = MailItemView;

    open spec fn view(&self) -> MailItemView {
        MailItemView {
            address: self.address@,
            author: self.author@,
            mail: self.mail@,
            state: self.state,
            bcc: self.bcc.deep_view(),
            date: self.date,
        }
    }
}

impl View for ReceivedAck {
    type V = ReceivedAckView;

    open spec fn view(&self) -> ReceivedAckView {
        ReceivedAckView { from: self.from@, for_mail: self.for_mail@ }
    }
}

impl View for SignalProtocol {
    type V = SignalView;

    open spec fn view(&self) -> SignalView {
        match self {
            SignalProtocol::ReceivedMail(item) => SignalView::ReceivedMail(item@),
            SignalProtocol::ReceivedAck(ack) => SignalView::ReceivedAck(ack@),
        }
    }
}

} // verus!
