use vstd::prelude::*;

use crate::host::Address;
use crate::mail::entries::{Mail, MailView};

verus! {

/// Direct message carrying a mail to one of its recipients.
#[derive(Debug, PartialEq, Eq)]
pub struct MailMessage {
    pub outmail_address: Address,
    pub mail: Mail,
}

/// Direct message acknowledging the reception of a mail.
#[derive(Debug, PartialEq, Eq)]
pub struct AckMessage {
    pub outmail_address: Address,
}

/// Messages exchanged directly between two agents.
#[derive(Debug, PartialEq, Eq)]
pub enum DirectMessageProtocol {
    Failure(String),
    Success(String),
    Mail(MailMessage),
    Ack(AckMessage),
    Ping,
}

pub struct MailMessageView {
    pub outmail_address: Seq<char>,
    pub mail: MailView,
}

pub struct AckMessageView {
    pub outmail_address: Seq<char>,
}

/// A direct message, as values.
pub enum MessageView {
    Failure(Seq<char>),
    Success(Seq<char>),
    Mail(MailMessageView),
    Ack(AckMessageView),
    Ping,
}

impl View for MailMessage {
    type V = MailMessageView;

    open spec fn view(&self) -> MailMessageView {
        MailMessageView { outmail_address: self.outmail_address@, mail: self.mail@ }
    }
}

impl View for AckMessage {
    type V = AckMessageView;

    open spec fn view(&self) -> AckMessageView {
        AckMessageView { outmail_address: self.outmail_address@ }
    }
}

impl View for DirectMessageProtocol {
    type V = MessageView;

    open spec fn view(&self) -> MessageView {
        match self {
            DirectMessageProtocol::Failure(s) => MessageView::Failure(s@),
            DirectMessageProtocol::Success(s) => MessageView::Success(s@),
            DirectMessageProtocol::Mail(m) => MessageView::Mail(m@),
            DirectMessageProtocol::Ack(a) => MessageView::Ack(a@),
            DirectMessageProtocol::Ping => MessageView::Ping,
        }
    }
}

} // verus!
