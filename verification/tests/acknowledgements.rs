use snapmail::host::{Action, Address, AppEntry, HostCall, HostReply, LinkKind, ZomeApiError, ZomeApiResult};
use snapmail::mail::entries::{InMail, Mail, OutAck, PendingAck};
use snapmail::mail::functions::acknowledge_mail::{acknowledge_mail, acknowledge_mail_direct, AcknowledgeMail};
use snapmail::mail::functions::check_incoming_ack::{check_incoming_ack, CheckIncomingAck};
use snapmail::protocol::{AckMessage, DirectMessageProtocol};

fn s(text: &str) -> String {
    text.to_string()
}

fn internal(text: &str) -> ZomeApiError {
    ZomeApiError::Internal(s(text))
}

/// Runs `check_incoming_ack` on `replies`; returns the calls made and the result.
fn run_check(replies: Vec<HostReply>) -> (Vec<HostCall>, Option<ZomeApiResult<Vec<Address>>>) {
    let (mut state, mut action) = check_incoming_ack();
    let mut calls = Vec::new();
    for reply in replies {
        match action {
            Action::Return(r) => return (calls, Some(r)),
            Action::Call(call) => calls.push(call),
        }
        assert!(state.is_acceptable(&reply));
        let (next, next_action) = state.step(reply);
        state = next;
        action = next_action;
    }
    match action {
        Action::Return(r) => (calls, Some(r)),
        Action::Call(call) => {
            calls.push(call);
            (calls, None)
        },
    }
}

fn found(author: &str, outmail: &str) -> HostReply {
    HostReply::PendingAck(Ok((s(author), PendingAck { outmail_address: s(outmail) })))
}

#[test]
fn check_incoming_ack_without_handle_fails() {
    let (calls, result) = run_check(vec![HostReply::MyHandle(None)]);
    assert_eq!(calls, vec![HostCall::GetMyHandleEntry]);
    assert_eq!(result, Some(Err(internal("This agent does not have a Handle set up"))));
}

#[test]
fn check_incoming_ack_passes_on_link_error() {
    let (calls, result) = run_check(vec![
        HostReply::MyHandle(Some(s("handle_1"))),
        HostReply::Links(Err(ZomeApiError::Timeout)),
    ]);
    assert_eq!(calls[1], HostCall::GetLinks { base: s("handle_1"), kind: LinkKind::AckInbox });
    assert_eq!(result, Some(Err(ZomeApiError::Timeout)));
}

#[test]
fn check_incoming_ack_with_no_pending_acks_returns_nothing() {
    let (_, result) = run_check(vec![HostReply::MyHandle(Some(s("handle_1"))), HostReply::Links(Ok(vec![]))]);
    assert_eq!(result, Some(Ok(vec![])));
}

#[test]
fn check_incoming_ack_returns_mails_with_a_new_inack() {
    let links = vec![s("pa_1"), s("pa_2"), s("pa_3"), s("pa_4"), s("pa_5")];
    let (calls, result) = run_check(vec![
        HostReply::MyHandle(Some(s("handle_1"))),
        HostReply::Links(Ok(links)),
        // pa_1: fully processed, deletion of the PendingAck fails
        found("agent_bob", "outmail_1"),
        HostReply::Address(Ok(s("inack_1"))),
        HostReply::Unit(Ok(())),
        HostReply::Unit(Err(ZomeApiError::HashNotFound)),
        // pa_2: cannot be fetched
        HostReply::PendingAck(Err(ZomeApiError::HashNotFound)),
        // pa_3: InAck commit fails
        found("agent_carol", "outmail_3"),
        HostReply::Address(Err(internal("commit failed"))),
        // pa_4: link removal fails
        found("agent_dave", "outmail_4"),
        HostReply::Address(Ok(s("inack_4"))),
        HostReply::Unit(Err(internal("no link"))),
        // pa_5: fully processed
        found("agent_eve", "outmail_5"),
        HostReply::Address(Ok(s("inack_5"))),
        HostReply::Unit(Ok(())),
        HostReply::Unit(Ok(())),
    ]);
    assert_eq!(result, Some(Ok(vec![s("outmail_1"), s("outmail_4"), s("outmail_5")])));
    assert_eq!(calls[2], HostCall::GetPendingAck { address: s("pa_1") });
    assert_eq!(calls[3], HostCall::CommitInAck { outmail_address: s("outmail_1"), from: s("agent_bob") });
    assert_eq!(
        calls[4],
        HostCall::RemoveLink { base: s("handle_1"), target: s("pa_1"), kind: LinkKind::AckInbox, tag: s("") }
    );
    assert_eq!(calls[5], HostCall::RemoveEntry { address: s("pa_1") });
    assert_eq!(calls[6], HostCall::GetPendingAck { address: s("pa_2") });
    assert_eq!(calls[7], HostCall::GetPendingAck { address: s("pa_3") });
    assert_eq!(calls[9], HostCall::GetPendingAck { address: s("pa_4") });
    assert_eq!(calls[12], HostCall::GetPendingAck { address: s("pa_5") });
    assert_eq!(calls.len(), 16);
}

#[test]
fn check_incoming_ack_refuses_mismatched_reply() {
    let (state, _) = check_incoming_ack();
    assert!(!state.is_acceptable(&HostReply::Unit(Ok(()))));
    assert!(state.is_acceptable(&HostReply::MyHandle(None)));
    assert!(!CheckIncomingAck::Finished.is_acceptable(&HostReply::MyHandle(None)));
}

fn sample_inmail() -> InMail {
    InMail {
        mail: Mail { date_sent: 1, subject: s("Hi"), payload: s("..."), to: vec![s("agent_me")], cc: vec![] },
        from: s("agent_alice"),
        date_received: 2,
        outmail_address: s("outmail_9"),
    }
}

/// Runs `acknowledge_mail` on `replies`; returns the calls made and the result.
fn run_ack(replies: Vec<HostReply>) -> (Vec<HostCall>, Option<ZomeApiResult<Address>>) {
    let (mut state, mut action) = acknowledge_mail(s("inmail_1"), s("agent_me"));
    let mut calls = Vec::new();
    for reply in replies {
        match action {
            Action::Return(r) => return (calls, Some(r)),
            Action::Call(call) => calls.push(call),
        }
        assert!(state.is_acceptable(&reply));
        let (next, next_action) = state.step(reply);
        state = next;
        action = next_action;
    }
    match action {
        Action::Return(r) => (calls, Some(r)),
        Action::Call(call) => {
            calls.push(call);
            (calls, None)
        },
    }
}

#[test]
fn acknowledge_mail_refuses_already_acknowledged_mail() {
    let (calls, result) = run_ack(vec![HostReply::InMail(Ok(sample_inmail())), HostReply::LinkCount(Ok(1))]);
    assert_eq!(result, Some(Err(internal("Mail has already been acknowledged"))));
    assert_eq!(
        calls,
        vec![
            HostCall::GetInMail { address: s("inmail_1") },
            HostCall::CountLinks { base: s("inmail_1"), kind: LinkKind::Acknowledgment },
        ]
    );
}

#[test]
fn acknowledge_mail_fails_without_inmail() {
    let (_, result) = run_ack(vec![HostReply::InMail(Err(internal("No entry at this address")))]);
    assert_eq!(result, Some(Err(internal("No entry at this address"))));
}

#[test]
fn acknowledge_mail_passes_on_outack_commit_error() {
    let (_, result) = run_ack(vec![
        HostReply::InMail(Ok(sample_inmail())),
        HostReply::LinkCount(Ok(0)),
        HostReply::Address(Err(ZomeApiError::ValidationFailed(s("bad")))),
    ]);
    assert_eq!(result, Some(Err(ZomeApiError::ValidationFailed(s("bad")))));
}

#[test]
fn acknowledge_mail_direct_success_returns_outack() {
    let (calls, result) = run_ack(vec![
        HostReply::InMail(Ok(sample_inmail())),
        HostReply::LinkCount(Ok(0)),
        HostReply::Address(Ok(s("outack_1"))),
        HostReply::Address(Ok(s("link_1"))),
        HostReply::Answer(Ok(Ok(DirectMessageProtocol::Success(s(""))))),
    ]);
    assert_eq!(result, Some(Ok(s("outack_1"))));
    assert_eq!(calls[2], HostCall::CommitEntry { entry: AppEntry::OutAck(OutAck {}) });
    assert_eq!(
        calls[3],
        HostCall::LinkEntries {
            base: s("inmail_1"),
            target: s("outack_1"),
            kind: LinkKind::Acknowledgment,
            tag: s(""),
        }
    );
    assert_eq!(
        calls[4],
        HostCall::Send {
            to: s("agent_alice"),
            message: DirectMessageProtocol::Ack(AckMessage { outmail_address: s("outmail_9") }),
        }
    );
    assert_eq!(calls.len(), 5);
}

#[test]
fn acknowledge_mail_falls_back_to_pending_ack() {
    let (calls, result) = run_ack(vec![
        HostReply::InMail(Ok(sample_inmail())),
        HostReply::LinkCount(Ok(0)),
        HostReply::Address(Ok(s("outack_1"))),
        HostReply::Address(Ok(s("link_1"))),
        HostReply::Answer(Err(ZomeApiError::Timeout)),
        HostReply::Address(Ok(s("pending_1"))),
        HostReply::Address(Ok(s("link_2"))),
        HostReply::Address(Ok(s("link_3"))),
    ]);
    assert_eq!(result, Some(Ok(s("outack_1"))));
    assert_eq!(
        calls[5],
        HostCall::CommitEntry { entry: AppEntry::PendingAck(PendingAck { outmail_address: s("outmail_9") }) }
    );
    assert_eq!(
        calls[6],
        HostCall::LinkEntries { base: s("outack_1"), target: s("pending_1"), kind: LinkKind::Pending, tag: s("") }
    );
    assert_eq!(
        calls[7],
        HostCall::LinkEntries {
            base: s("agent_alice"),
            target: s("pending_1"),
            kind: LinkKind::AckInbox,
            tag: s("agent_me"),
        }
    );
    assert_eq!(calls.len(), 8);
}

#[test]
fn acknowledge_mail_ignores_pending_ack_failure() {
    let (calls, result) = run_ack(vec![
        HostReply::InMail(Ok(sample_inmail())),
        HostReply::LinkCount(Ok(0)),
        HostReply::Address(Ok(s("outack_1"))),
        HostReply::Address(Ok(s("link_1"))),
        HostReply::Answer(Ok(Ok(DirectMessageProtocol::Failure(s("busy"))))),
        HostReply::Address(Err(internal("commit failed"))),
    ]);
    assert_eq!(result, Some(Ok(s("outack_1"))));
    assert_eq!(calls.len(), 6);
}

#[test]
fn acknowledge_mail_direct_outcomes() {
    assert_eq!(acknowledge_mail_direct(Ok(Ok(DirectMessageProtocol::Success(s("ok"))))), Ok(()));
    assert_eq!(acknowledge_mail_direct(Err(ZomeApiError::Timeout)), Err(ZomeApiError::Timeout));
    assert_eq!(
        acknowledge_mail_direct(Ok(Err(s("expected value at line 1 column 1")))),
        Err(internal("expected value at line 1 column 1"))
    );
    assert_eq!(acknowledge_mail_direct(Ok(Ok(DirectMessageProtocol::Ping))), Err(internal("Failed")));
    assert_eq!(
        acknowledge_mail_direct(Ok(Ok(DirectMessageProtocol::Failure(s("no"))))),
        Err(internal("Failed"))
    );
}

#[test]
fn acknowledge_mail_refuses_mismatched_reply() {
    let (state, _) = acknowledge_mail(s("inmail_1"), s("agent_me"));
    assert!(!state.is_acceptable(&HostReply::LinkCount(Ok(0))));
    assert!(state.is_acceptable(&HostReply::InMail(Err(ZomeApiError::HashNotFound))));
    assert!(!AcknowledgeMail::Finished.is_acceptable(&HostReply::Address(Ok(s("x")))));
}
