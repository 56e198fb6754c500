use snapmail::handle::find_agent::find_agent;
use snapmail::handle::{get_handle, set_handle, GetHandle, Handle, SetHandle};
use snapmail::host::{Action, Address, AppEntry, Entry, HostCall, HostReply, LinkKind, ZomeApiError, ZomeApiResult};
use snapmail::mail::entries::{Mail, PendingAck, PendingMail};
use snapmail::mail::receive::{receive, receive_direct_ack, receive_direct_mail, receive_direct_mail_at, Reception};
use snapmail::mail::utils::{
    get_entry_and_author, get_pending_ack, get_pending_mail, ChainHeader, EntryResultItem, GetEntryResultType,
    Provenance,
};
use snapmail::protocol::{AckMessage, DirectMessageProtocol, MailMessage};
use snapmail::signal_protocol::{InMailState, MailState, ReceivedAck, SignalProtocol};

fn s(text: &str) -> String {
    text.to_string()
}

fn sample_mail() -> Mail {
    Mail { date_sent: 5, subject: s("Hi"), payload: s("Hello Bob"), to: vec![s("agent_bob")], cc: vec![] }
}

fn handle_entry(name: &str) -> AppEntry {
    AppEntry::Handle(Handle { name: s(name) })
}

fn stored(address: &str, content: AppEntry) -> HostReply {
    HostReply::Entry(Ok(Some(Entry { address: s(address), content })))
}

fn run_set_handle(name: &str, replies: Vec<HostReply>) -> (Vec<HostCall>, Option<ZomeApiResult<Address>>) {
    let (mut state, mut action) = set_handle(s(name), s("agent_initial"));
    let mut calls = Vec::new();
    for reply in replies {
        match action {
            Action::Return(r) => return (calls, Some(r)),
            Action::Call(call) => calls.push(call),
        }
        assert!(state.is_acceptable(&reply));
        let (next, next_action) = state.step(reply);
        state = next;
        action = next_action;
    }
    match action {
        Action::Return(r) => (calls, Some(r)),
        Action::Call(call) => {
            calls.push(call);
            (calls, None)
        },
    }
}

#[test]
fn get_handle_without_link_is_none() {
    let (state, action) = get_handle(s("agent_initial"));
    assert_eq!(action, Action::Call(HostCall::GetLinks { base: s("agent_initial"), kind: LinkKind::Handle }));
    let (_, action) = state.step(HostReply::Links(Ok(vec![])));
    assert_eq!(action, Action::Return(None));
}

#[test]
fn get_handle_returns_linked_entry() {
    let (state, _) = get_handle(s("agent_initial"));
    let (state, action) = state.step(HostReply::Links(Ok(vec![s("handle_1")])));
    assert_eq!(action, Action::Call(HostCall::GetEntry { address: s("handle_1") }));
    let (_, action) = state.step(stored("handle_2", handle_entry("alice")));
    assert_eq!(action, Action::Return(Some(Entry { address: s("handle_2"), content: handle_entry("alice") })));
}

#[test]
fn get_handle_refuses_two_links_and_missing_entry() {
    let (state, _) = get_handle(s("agent_initial"));
    assert!(!state.is_acceptable(&HostReply::Links(Ok(vec![s("h1"), s("h2")]))));
    assert!(!state.is_acceptable(&HostReply::Links(Err(ZomeApiError::Timeout))));
    let fetching = GetHandle::FetchingEntry;
    assert!(!fetching.is_acceptable(&HostReply::Entry(Ok(None))));
    assert!(fetching.is_acceptable(&stored("h1", AppEntry::Other(s("agent_id")))));
}

#[test]
fn set_handle_first_time_commits_and_links() {
    let (calls, result) = run_set_handle(
        "alice",
        vec![
            HostReply::Links(Ok(vec![])),
            HostReply::Address(Ok(s("handle_1"))),
            HostReply::Address(Ok(s("link_1"))),
        ],
    );
    assert_eq!(result, Some(Ok(s("handle_1"))));
    assert_eq!(calls[1], HostCall::CommitEntry { entry: handle_entry("alice") });
    assert_eq!(
        calls[2],
        HostCall::LinkEntries {
            base: s("agent_initial"),
            target: s("handle_1"),
            kind: LinkKind::Handle,
            tag: s(""),
        }
    );
    assert_eq!(calls.len(), 3);
}

#[test]
fn set_handle_first_time_returns_commit_address_whatever_the_link_answers() {
    let (calls, result) = run_set_handle(
        "alice",
        vec![
            HostReply::Links(Ok(vec![])),
            HostReply::Address(Ok(s("handle_1"))),
            HostReply::Address(Err(ZomeApiError::Timeout)),
        ],
    );
    assert_eq!(result, Some(Ok(s("handle_1"))));
    assert_eq!(calls.len(), 3);
}

#[test]
fn set_handle_first_time_passes_on_commit_error() {
    let (calls, result) =
        run_set_handle("alice", vec![HostReply::Links(Ok(vec![])), HostReply::Address(Err(ZomeApiError::Timeout))]);
    assert_eq!(result, Some(Err(ZomeApiError::Timeout)));
    assert_eq!(calls.len(), 2);
}

#[test]
fn set_same_handle_writes_nothing() {
    let (calls, result) = run_set_handle(
        "alice",
        vec![HostReply::Links(Ok(vec![s("handle_1")])), stored("handle_2", handle_entry("alice"))],
    );
    assert_eq!(result, Some(Ok(s("handle_2"))));
    assert_eq!(calls.len(), 2);
}

#[test]
fn set_new_handle_only_updates() {
    let (calls, result) = run_set_handle(
        "bob",
        vec![
            HostReply::Links(Ok(vec![s("handle_1")])),
            stored("handle_2", handle_entry("alice")),
            HostReply::Address(Ok(s("handle_3"))),
        ],
    );
    assert_eq!(result, Some(Ok(s("handle_3"))));
    assert_eq!(calls.len(), 3);
    assert_eq!(calls[1], HostCall::GetEntry { address: s("handle_1") });
    assert_eq!(calls[2], HostCall::UpdateEntry { entry: handle_entry("bob"), old_address: s("handle_2") });
}

#[test]
fn set_handle_passes_on_update_error() {
    let (calls, result) = run_set_handle(
        "bob",
        vec![
            HostReply::Links(Ok(vec![s("handle_1")])),
            stored("handle_1", handle_entry("alice")),
            HostReply::Address(Err(ZomeApiError::ValidationFailed(s("no")))),
        ],
    );
    assert_eq!(result, Some(Err(ZomeApiError::ValidationFailed(s("no")))));
    assert_eq!(calls.len(), 3);
}

#[test]
fn set_handle_refuses_non_handle_entry() {
    let state = SetHandle::Reading {
        name: s("bob"),
        agent_initial_hash: s("agent_initial"),
        current: GetHandle::FetchingEntry,
    };
    assert!(!state.is_acceptable(&stored("h1", AppEntry::Other(s("dna")))));
    assert!(state.is_acceptable(&stored("h1", handle_entry("x"))));
}

fn item(author: &str, entry: AppEntry) -> EntryResultItem {
    EntryResultItem {
        entry: Some(entry),
        headers: vec![ChainHeader { provenances: vec![Provenance { source: s(author) }] }],
    }
}

#[test]
fn find_agent_lists_authors_of_matching_handles() {
    let members = vec![
        Ok(GetEntryResultType::Single(item("agent_1", handle_entry("alice")))),
        Err(ZomeApiError::Timeout),
        Ok(GetEntryResultType::Single(item("agent_2", handle_entry("bob")))),
        Ok(GetEntryResultType::All(vec![
            item("agent_3", handle_entry("alice")),
            item("agent_4", handle_entry("bob")),
        ])),
    ];
    assert_eq!(find_agent(s("alice"), members), Ok(vec![s("agent_1"), s("agent_3")]));
}

#[test]
fn find_agent_without_match_is_empty() {
    let members = vec![Ok(GetEntryResultType::Single(item("agent_2", handle_entry("bob"))))];
    assert_eq!(find_agent(s("carol"), members), Ok(vec![]));
    assert_eq!(find_agent(s("carol"), vec![]), Ok(vec![]));
}

#[test]
fn entry_and_author_of_single_result() {
    let result = Ok(GetEntryResultType::Single(item("agent_1", handle_entry("alice"))));
    assert_eq!(get_entry_and_author(result), Ok((s("agent_1"), Some(handle_entry("alice")))));
    assert_eq!(get_entry_and_author(Err(ZomeApiError::HashNotFound)), Err(ZomeApiError::HashNotFound));
}

#[test]
fn pending_mail_and_ack_of_results() {
    let pending_mail = PendingMail { mail: sample_mail(), outmail_address: s("outmail_1") };
    let result = Ok(GetEntryResultType::Single(item("agent_1", AppEntry::PendingMail(pending_mail))));
    let (author, pending) = get_pending_mail(result).unwrap();
    assert_eq!(author, "agent_1");
    assert_eq!(pending.outmail_address, "outmail_1");
    assert_eq!(pending.mail, sample_mail());
    assert_eq!(get_pending_mail(Err(ZomeApiError::Timeout)).unwrap_err(), ZomeApiError::Timeout);

    let pending_ack = PendingAck { outmail_address: s("outmail_2") };
    let result = Ok(GetEntryResultType::Single(item("agent_2", AppEntry::PendingAck(pending_ack))));
    assert_eq!(get_pending_ack(result), Ok((s("agent_2"), PendingAck { outmail_address: s("outmail_2") })));
    assert_eq!(get_pending_ack(Err(ZomeApiError::Timeout)), Err(ZomeApiError::Timeout));
}

#[test]
fn receive_answers_ping_and_refuses_other_messages() {
    match receive(s("agent_alice"), DirectMessageProtocol::Ping) {
        Reception::Answered(answer) => assert_eq!(answer, DirectMessageProtocol::Success(s(""))),
        _ => panic!("ping must be answered at once"),
    }
    match receive(s("agent_alice"), DirectMessageProtocol::Success(s("x"))) {
        Reception::Answered(answer) => assert_eq!(answer, DirectMessageProtocol::Failure(s("Unexpected protocol"))),
        _ => panic!("unexpected message must be refused"),
    }
    match receive(s("agent_alice"), DirectMessageProtocol::Failure(s("x"))) {
        Reception::Answered(answer) => assert_eq!(answer, DirectMessageProtocol::Failure(s("Unexpected protocol"))),
        _ => panic!("unexpected message must be refused"),
    }
}

#[test]
fn receive_direct_mail_commits_signals_and_succeeds() {
    let dm = MailMessage { outmail_address: s("outmail_1"), mail: sample_mail() };
    let (state, action) = match receive(s("agent_alice"), DirectMessageProtocol::Mail(dm)) {
        Reception::Mail(state, action) => (state, action),
        _ => panic!("a mail starts its reception"),
    };
    match action {
        Action::Call(HostCall::CommitEntry { entry: AppEntry::InMail(inmail) }) => {
            assert_eq!(inmail.mail, sample_mail());
            assert_eq!(inmail.from, "agent_alice");
            assert_eq!(inmail.outmail_address, "outmail_1");
        },
        other => panic!("unexpected action {:?}", other),
    }
    let (state, action) = state.step(HostReply::Address(Ok(s("inmail_1"))));
    match action {
        Action::Call(HostCall::EmitSignal { name, signal: SignalProtocol::ReceivedMail(item) }) => {
            assert_eq!(name, "received_mail");
            assert_eq!(item.address, "inmail_1");
            assert_eq!(item.author, "agent_alice");
            assert_eq!(item.mail, sample_mail());
            assert_eq!(item.state, MailState::In(InMailState::Arrived));
            assert!(item.bcc.is_empty());
            assert!(item.date > 1_577_836_800);
        },
        other => panic!("unexpected action {:?}", other),
    }
    let (_, action) = state.step(HostReply::Unit(Err(ZomeApiError::Timeout)));
    assert_eq!(action, Action::Return(DirectMessageProtocol::Success(s(""))));
}

#[test]
fn receive_direct_mail_commit_failure() {
    let dm = MailMessage { outmail_address: s("outmail_1"), mail: sample_mail() };
    let (state, _) = receive_direct_mail(s("agent_alice"), dm);
    let (_, action) = state.step(HostReply::Address(Err(ZomeApiError::Timeout)));
    assert_eq!(action, Action::Return(DirectMessageProtocol::Failure(s("Failed committing InMail"))));
}

#[test]
fn receive_direct_ack_commits_signals_and_succeeds() {
    let ack = AckMessage { outmail_address: s("outmail_7") };
    let (state, action) = match receive(s("agent_bob"), DirectMessageProtocol::Ack(ack)) {
        Reception::Ack(state, action) => (state, action),
        _ => panic!("an acknowledgement starts its reception"),
    };
    assert_eq!(
        action,
        Action::Call(HostCall::CommitInAck { outmail_address: s("outmail_7"), from: s("agent_bob") })
    );
    let (state, action) = state.step(HostReply::Address(Ok(s("inack_1"))));
    assert_eq!(
        action,
        Action::Call(HostCall::EmitSignal {
            name: s("received_ack"),
            signal: SignalProtocol::ReceivedAck(ReceivedAck { from: s("agent_bob"), for_mail: s("outmail_7") }),
        })
    );
    let (_, action) = state.step(HostReply::Unit(Ok(())));
    assert_eq!(action, Action::Return(DirectMessageProtocol::Success(s(""))));
}

#[test]
fn receive_direct_ack_commit_failure() {
    let (state, _) = receive_direct_ack(s("agent_bob"), AckMessage { outmail_address: s("outmail_7") });
    assert!(state.is_acceptable(&HostReply::Address(Err(ZomeApiError::Timeout))));
    assert!(!state.is_acceptable(&HostReply::Unit(Ok(()))));
    let (_, action) = state.step(HostReply::Address(Err(ZomeApiError::Timeout)));
    assert_eq!(action, Action::Return(DirectMessageProtocol::Failure(s("Failed committing InAck"))));
}

#[test]
fn find_agent_passes_over_failed_lookups() {
    let with_errors = vec![
        Err(ZomeApiError::Timeout),
        Ok(GetEntryResultType::Single(item("agent_1", handle_entry("alice")))),
        Err(ZomeApiError::HashNotFound),
        Ok(GetEntryResultType::Single(item("agent_2", handle_entry("alice")))),
    ];
    let without_errors = vec![
        Ok(GetEntryResultType::Single(item("agent_1", handle_entry("alice")))),
        Ok(GetEntryResultType::Single(item("agent_2", handle_entry("alice")))),
    ];
    assert_eq!(find_agent(s("alice"), with_errors), find_agent(s("alice"), without_errors));
    assert_eq!(find_agent(s("alice"), vec![Err(ZomeApiError::Timeout)]), Ok(vec![]));
}

#[test]
fn receive_direct_mail_at_dates_inmail_and_signal() {
    let dm = MailMessage { outmail_address: s("outmail_1"), mail: sample_mail() };
    let (state, action) = receive_direct_mail_at(s("agent_alice"), dm, 1234);
    match action {
        Action::Call(HostCall::CommitEntry { entry: AppEntry::InMail(inmail) }) => {
            assert_eq!(inmail.date_received, 1234);
            assert_eq!(inmail.outmail_address, "outmail_1");
        },
        other => panic!("unexpected action {:?}", other),
    }
    let (_, action) = state.step_at(HostReply::Address(Ok(s("inmail_1"))), 5678);
    match action {
        Action::Call(HostCall::EmitSignal { signal: SignalProtocol::ReceivedMail(item), .. }) => {
            assert_eq!(item.date, 5678);
            assert_eq!(item.address, "inmail_1");
        },
        other => panic!("unexpected action {:?}", other),
    }
}
