use snapmail::dna::{LinkDirection, Sharing};
use snapmail::handle::{handle_def, Handle};
use snapmail::host::{EntryKind, LinkKind};
use snapmail::mail::entries::{inack_def, inmail_def, InAck, InMail, Mail, OutAck, PendingAck, PendingMail};
use snapmail::mail::outmail::{outmail_def, OutMail};
use snapmail::protocol::MailMessage;

fn s(text: &str) -> String {
    text.to_string()
}

fn sample_mail() -> Mail {
    Mail {
        date_sent: 1_580_000_000,
        subject: s("Hello"),
        payload: s("How are you?"),
        to: vec![s("agent_bob")],
        cc: vec![s("agent_carol"), s("agent_dave")],
    }
}

#[test]
fn handle_new_keeps_name() {
    let handle = Handle::new(s("alice"));
    assert_eq!(handle.name, "alice");
}

#[test]
fn handle_definition_is_public_with_agent_and_dna_links() {
    let def = handle_def();
    assert_eq!(def.name, "handle");
    assert_eq!(def.description, "Entry for an Agent's public username");
    assert_eq!(def.sharing, Sharing::Public);
    assert_eq!(def.links.len(), 2);
    assert_eq!(def.links[0].direction, LinkDirection::From);
    assert_eq!(def.links[0].other_type, "%agent_id");
    assert_eq!(def.links[0].link_type, "handle");
    assert_eq!(def.links[1].direction, LinkDirection::From);
    assert_eq!(def.links[1].other_type, "%dna");
    assert_eq!(def.links[1].link_type, "member");
}

#[test]
fn inmail_definition_is_private_with_acknowledgment_links() {
    let def = inmail_def();
    assert_eq!(def.name, "inmail");
    assert_eq!(def.description, "Entry for a received mail");
    assert_eq!(def.sharing, Sharing::Private);
    assert_eq!(def.links.len(), 2);
    assert_eq!(def.links[0].direction, LinkDirection::To);
    assert_eq!(def.links[0].other_type, "ackreceipt_encrypted");
    assert_eq!(def.links[0].link_type, "acknowledgment_encrypted");
    assert_eq!(def.links[1].other_type, "ackreceipt_private");
    assert_eq!(def.links[1].link_type, "acknowledgment_private");
}

#[test]
fn inack_definition_is_private_without_links() {
    let def = inack_def();
    assert_eq!(def.name, "inack");
    assert_eq!(def.description, "Entry for a received Acknowledgement Receipt");
    assert_eq!(def.sharing, Sharing::Private);
    assert!(def.links.is_empty());
}

#[test]
fn outmail_definition_is_private_with_receipt_and_pending_links() {
    let def = outmail_def();
    assert_eq!(def.name, "outmail");
    assert_eq!(def.description, "Entry for a mail authored by this agent");
    assert_eq!(def.sharing, Sharing::Private);
    assert_eq!(def.links.len(), 3);
    assert_eq!(def.links[0].other_type, "ackreceipt_encrypted");
    assert_eq!(def.links[0].link_type, "receipt_encrypted");
    assert_eq!(def.links[1].other_type, "ackreceipt_private");
    assert_eq!(def.links[1].link_type, "receipt_private");
    assert_eq!(def.links[2].direction, LinkDirection::To);
    assert_eq!(def.links[2].other_type, "pendingmail");
    assert_eq!(def.links[2].link_type, "pending");
}

#[test]
fn entry_and_link_kind_names() {
    assert_eq!(EntryKind::Handle.name(), "handle");
    assert_eq!(EntryKind::InMail.name(), "inmail");
    assert_eq!(EntryKind::OutMail.name(), "outmail");
    assert_eq!(EntryKind::InAck.name(), "inack");
    assert_eq!(EntryKind::OutAck.name(), "outack");
    assert_eq!(EntryKind::PendingAck.name(), "pending_ack");
    assert_eq!(EntryKind::PendingMail.name(), "pendingmail");
    assert_eq!(LinkKind::Handle.name(), "handle");
    assert_eq!(LinkKind::Member.name(), "member");
    assert_eq!(LinkKind::Acknowledgment.name(), "acknowledgment");
    assert_eq!(LinkKind::AcknowledgmentEncrypted.name(), "acknowledgment_encrypted");
    assert_eq!(LinkKind::AcknowledgmentPrivate.name(), "acknowledgment_private");
    assert_eq!(LinkKind::ReceiptEncrypted.name(), "receipt_encrypted");
    assert_eq!(LinkKind::ReceiptPrivate.name(), "receipt_private");
    assert_eq!(LinkKind::Pending.name(), "pending");
    assert_eq!(LinkKind::AckInbox.name(), "ack_inbox");
}

#[test]
fn mail_clone_is_equal() {
    let mail = sample_mail();
    assert_eq!(mail.clone(), mail);
}

#[test]
fn outmail_new_keeps_fields() {
    let outmail = OutMail::new(sample_mail(), vec![s("agent_eve")]);
    assert_eq!(outmail.mail, sample_mail());
    assert_eq!(outmail.bcc, vec![s("agent_eve")]);
}

#[test]
fn outmail_create_at_builds_the_mail() {
    let outmail = OutMail::create_at(
        42,
        s("Subject"),
        s("Body"),
        vec![s("agent_bob")],
        vec![],
        vec![s("agent_eve")],
    );
    assert_eq!(outmail.mail.date_sent, 42);
    assert_eq!(outmail.mail.subject, "Subject");
    assert_eq!(outmail.mail.payload, "Body");
    assert_eq!(outmail.mail.to, vec![s("agent_bob")]);
    assert!(outmail.mail.cc.is_empty());
    assert_eq!(outmail.bcc, vec![s("agent_eve")]);
}

#[test]
fn outmail_create_dates_by_the_clock() {
    let outmail = OutMail::create(s("Subject"), s("Body"), vec![], vec![s("agent_carol")], vec![]);
    assert_eq!(outmail.mail.subject, "Subject");
    assert_eq!(outmail.mail.payload, "Body");
    assert!(outmail.mail.to.is_empty());
    assert_eq!(outmail.mail.cc, vec![s("agent_carol")]);
    assert!(outmail.bcc.is_empty());
    // The clock has passed 2020-01-01 on any machine this runs on.
    assert!(outmail.mail.date_sent > 1_577_836_800);
}

#[test]
fn inmail_new_keeps_fields() {
    let inmail = InMail::new(sample_mail(), s("agent_alice"), 7, s("outmail_1"));
    assert_eq!(inmail.mail, sample_mail());
    assert_eq!(inmail.from, "agent_alice");
    assert_eq!(inmail.date_received, 7);
    assert_eq!(inmail.outmail_address, "outmail_1");
}

#[test]
fn inmail_from_direct_takes_mail_and_outmail() {
    let dm = MailMessage { outmail_address: s("outmail_1"), mail: sample_mail() };
    let inmail = InMail::from_direct(s("agent_alice"), dm);
    assert_eq!(inmail.mail, sample_mail());
    assert_eq!(inmail.from, "agent_alice");
    assert_eq!(inmail.outmail_address, "outmail_1");
    assert!(inmail.date_received > 1_577_836_800);
}

#[test]
fn inmail_from_pending_takes_mail_and_outmail() {
    let pending = PendingMail { mail: sample_mail(), outmail_address: s("outmail_2") };
    let inmail = InMail::from_pending(pending, s("agent_alice"));
    assert_eq!(inmail.mail, sample_mail());
    assert_eq!(inmail.from, "agent_alice");
    assert_eq!(inmail.outmail_address, "outmail_2");
    assert!(inmail.date_received > 1_577_836_800);
}

#[test]
fn ack_entries_new() {
    assert_eq!(InAck::new(), InAck {});
    assert_eq!(OutAck::new(), OutAck {});
    assert_eq!(PendingAck::new(s("outmail_3")).outmail_address, "outmail_3");
}

#[test]
fn inmail_from_direct_at_and_from_pending_at_take_the_date() {
    let dm = MailMessage { outmail_address: s("outmail_1"), mail: sample_mail() };
    assert_eq!(
        InMail::from_direct_at(s("agent_alice"), dm, 99),
        InMail::new(sample_mail(), s("agent_alice"), 99, s("outmail_1"))
    );
    let pending = PendingMail { mail: sample_mail(), outmail_address: s("outmail_2") };
    assert_eq!(
        InMail::from_pending_at(pending, s("agent_bob"), 100),
        InMail::new(sample_mail(), s("agent_bob"), 100, s("outmail_2"))
    );
}
