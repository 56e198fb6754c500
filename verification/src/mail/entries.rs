use vstd::prelude::*;

use crate::dna::{declares, link_definition, EntryDefinition, LinkDirection, Sharing};
use crate::host::{clone_addresses, snapmail_now, Address, AgentAddress, EntryKind};
use crate::protocol::MailMessage;

verus! {

/// The content of a mail.
#[derive(Debug, PartialEq, Eq)]
pub struct Mail {
    pub date_sent: u64,
    pub subject: String,
    pub payload: String,
    pub to: Vec<AgentAddress>,
    pub cc: Vec<AgentAddress>,
}

/// The content of a mail, as values.
pub struct MailView {
    pub date_sent: u64,
    pub subject: Seq<char>,
    pub payload: Seq<char>,
    pub to: Seq<Seq<char>>,
    pub cc: Seq<Seq<char>>,
}

impl View for Mail {
    type V = MailView;

    open spec fn view(&self) -> MailView {
        MailView {
            date_sent: self.date_sent,
            subject: self.subject@,
            payload: self.payload@,
            to: self.to.deep_view(),
            cc: self.cc.deep_view(),
        }
    }
}

impl Clone for Mail {
    fn clone(&self) -> (res: Self)
        ensures
            res@ == self@,
    {
        Mail {
            date_sent: self.date_sent,
            subject: self.subject.clone(),
            payload: self.payload.clone(),
            to: clone_addresses(&self.to),
            cc: clone_addresses(&self.cc),
        }
    }
}

/// Entry representing a received mail. It is private.
#[derive(Debug, PartialEq, Eq)]
pub struct InMail {
    pub mail: Mail,
    pub from: AgentAddress,
    pub date_received: u64,
    pub outmail_address: Address,
}

/// Entry representing a mail waiting on the DHT for its recipient.
#[derive(Debug, PartialEq, Eq)]
pub struct PendingMail {
    pub mail: Mail,
    pub outmail_address: Address,
}

/// Entry for a received Acknowledgement Receipt.
#[derive(Debug, PartialEq, Eq, Structural)]
pub struct InAck {}

/// Entry for an Acknowledgement Receipt this agent sent.
#[derive(Debug, PartialEq, Eq, Structural)]
pub struct OutAck {}

/// Entry for an Acknowledgement Receipt waiting on the DHT for the mail's author.
#[derive(Debug, PartialEq, Eq)]
pub struct PendingAck {
    pub outmail_address: Address,
}

pub struct InMailView {
    pub mail: MailView,
    pub from: Seq<char>,
    pub date_received: u64,
    pub outmail_address: Seq<char>,
}

pub struct PendingMailView {
    pub mail: MailView,
    pub outmail_address: Seq<char>,
}

pub struct PendingAckView {
    pub outmail_address: Seq<char>,
}

impl View for InMail {
    type V = InMailView;

    open spec fn view(&self) -> InMailView {
        InMailView {
            mail: self.mail@,
            from: self.from@,
            date_received: self.date_received,
            outmail_address: self.outmail_address@,
        }
    }
}

impl View for PendingMail {
    type V = PendingMailView;

    open spec fn view(&self) -> PendingMailView {
        PendingMailView { mail: self.mail@, outmail_address: self.outmail_address@ }
    }
}

impl View for PendingAck {
    type V = PendingAckView;

    open spec fn view(&self) -> PendingAckView {
        PendingAckView { outmail_address: self.outmail_address@ }
    }
}

/// Definition of the InMail entry type.
pub fn inmail_def() -> (res: EntryDefinition)
    ensures
        res.name@ == EntryKind::InMail.spec_name(),
        res.description@ == "Entry for a received mail"@,
        res.sharing == Sharing::Private,
        res.links.len() == 2,
        declares(res.links[0], LinkDirection::To, "ackreceipt_encrypted"@, "acknowledgment_encrypted"@),
        declares(res.links[1], LinkDirection::To, "ackreceipt_private"@, "acknowledgment_private"@),
{
    let mut links = Vec::new();
    links.push(link_definition(LinkDirection::To, "ackreceipt_encrypted", "acknowledgment_encrypted"));
    links.push(link_definition(LinkDirection::To, "ackreceipt_private", "acknowledgment_private"));
    EntryDefinition {
        name: EntryKind::InMail.name().to_string(),
        description: "Entry for a received mail".to_string(),
        sharing: Sharing::Private,
        links,
    }
}

/// Definition of the InAck entry type.
pub fn inack_def() -> (res: EntryDefinition)
    ensures
        res.name@ == EntryKind::InAck.spec_name(),
        res.description@ == "Entry for a received Acknowledgement Receipt"@,
        res.sharing == Sharing::Private,
        res.links.len() == 0,
{
    EntryDefinition {
        name: EntryKind::InAck.name().to_string(),
        description: "Entry for a received Acknowledgement Receipt".to_string(),
        sharing: Sharing::Private,
        links: Vec::new(),
    }
}

impl InMail {
    pub fn new(mail: Mail, from: AgentAddress, date_received: u64, outmail_address: Address) -> (res: Self)
        ensures
            res == (InMail { mail, from, date_received, outmail_address }),
    {
        Self { mail, from, date_received, outmail_address }
    }

    /// The InMail for a mail received by direct message, received at `now`.
    pub fn from_direct_at(from: AgentAddress, dm: MailMessage, now: u64) -> (res: Self)
        ensures
            res == (InMail { mail: dm.mail, from, date_received: now, outmail_address: dm.outmail_address }),
    {
        Self::new(dm.mail, from, now, dm.outmail_address)
    }

    /// The InMail for a mail received by direct message, dated by the clock.
    pub fn from_direct(from: AgentAddress, dm: MailMessage) -> (res: Self)
        ensures
            res.mail == dm.mail,
            res.from == from,
            res.outmail_address == dm.outmail_address,
    {
        let received_date = snapmail_now();
        Self::from_direct_at(from, dm, received_date)
    }

    /// The InMail for a mail picked up from the DHT, received at `now`.
    pub fn from_pending_at(pending: PendingMail, from: AgentAddress, now: u64) -> (res: Self)
        ensures
            res == (InMail {
                mail: pending.mail,
                from,
                date_received: now,
                outmail_address: pending.outmail_address,
            }),
    {
        Self::new(pending.mail, from, now, pending.outmail_address)
    }

    /// The InMail for a mail picked up from the DHT, dated by the clock.
    pub fn from_pending(pending: PendingMail, from: AgentAddress) -> (res: Self)
        ensures
            res.mail == pending.mail,
            res.from == from,
            res.outmail_address == pending.outmail_address,
    {
        let received_date = snapmail_now();
        Self::from_pending_at(pending, from, received_date)
    }
}

impl InAck {
    pub fn new() -> (res: Self)
        ensures
            res == (InAck {}),
    {
        Self {}
    }
}

impl OutAck {
    pub fn new() -> (res: Self)
        ensures
            res == (OutAck {}),
    {
        Self {}
    }
}

impl PendingAck {
    pub fn new(outmail_address: Address) -> (res: Self)
        ensures
            res.outmail_address == outmail_address,
    {
        Self { outmail_address }
    }
}

} // verus!
