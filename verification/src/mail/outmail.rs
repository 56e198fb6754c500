use vstd::prelude::*;

use crate::dna::{declares, link_definition, EntryDefinition, LinkDirection, Sharing};
use crate::host::{snapmail_now, AgentAddress, EntryKind};
use crate::mail::entries::{Mail, MailView};

verus! {

/// Entry representing an authored mail. It is private.
#[derive(Debug, PartialEq, Eq)]
pub struct OutMail {
    pub mail: Mail,
    pub bcc: Vec<AgentAddress>,
}

pub struct OutMailView {
    pub mail: MailView,
    pub bcc: Seq<Seq<char>>,
}

impl View for OutMail {
    type V = OutMailView;

    open spec fn view(&self) -> OutMailView {
        OutMailView { mail: self.mail@, bcc: self.bcc.deep_view() }
    }
}

/// Entry definition
pub fn outmail_def() -> (res: EntryDefinition)
    ensures
        res.name@ == EntryKind::OutMail.spec_name(),
        res.description@ == "Entry for a mail authored by this agent"@,
        res.sharing == Sharing::Private,
        res.links.len() == 3,
        declares(res.links[0], LinkDirection::To, "ackreceipt_encrypted"@, "receipt_encrypted"@),
        declares(res.links[1], LinkDirection::To, "ackreceipt_private"@, "receipt_private"@),
        declares(res.links[2], LinkDirection::To, "pendingmail"@, "pending"@),
{
    let mut links = Vec::new();
    links.push(link_definition(LinkDirection::To, "ackreceipt_encrypted", "receipt_encrypted"));
    links.push(link_definition(LinkDirection::To, "ackreceipt_private", "receipt_private"));
    links.push(link_definition(LinkDirection::To, "pendingmail", "pending"));
    EntryDefinition {
        name: EntryKind::OutMail.name().to_string(),
        description: "Entry for a mail authored by this agent".to_string(),
        sharing: Sharing::Private,
        links,
    }
}

impl OutMail {
    pub fn new(mail: Mail, bcc: Vec<AgentAddress>) -> (res: Self)
        ensures
            res == (OutMail { mail, bcc }),
    {
        Self { mail, bcc }
    }

    /// A new mail to `to` and `cc`, blind copied to `bcc`, dated `date_sent`.
    pub fn create_at(
        date_sent: u64,
        subject: String,
        payload: String,
        to: Vec<AgentAddress>,
        cc: Vec<AgentAddress>,
        bcc: Vec<AgentAddress>,
    ) -> (res: Self)
        requires
            to.len() + cc.len() != 0,
        ensures
            res == (OutMail { mail: Mail { date_sent, subject, payload, to, cc }, bcc }),
    {
        let mail = Mail { date_sent, subject, payload, to, cc };
        OutMail::new(mail, bcc)
    }

    /// A new mail to `to` and `cc`, blind copied to `bcc`, dated by the clock.
    /// There must be a recipient in `to` or `cc`.
    pub fn create(
        subject: String,
        payload: String,
        to: Vec<AgentAddress>,
        cc: Vec<AgentAddress>,
        bcc: Vec<AgentAddress>,
    ) -> (res: Self)
        requires
            to.len() + cc.len() != 0,
        ensures
            res.mail.subject == subject,
            res.mail.payload == payload,
            res.mail.to == to,
            res.mail.cc == cc,
            res.bcc == bcc,
    {
        let date_sent = snapmail_now();
        OutMail::create_at(date_sent, subject, payload, to, cc, bcc)
    }
}

} // verus!
