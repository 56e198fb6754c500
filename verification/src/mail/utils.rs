use vstd::pervasive::unreached;
use vstd::prelude::*;

use crate::host::{AgentAddress, AppEntry, ZomeApiResult};
use crate::mail::entries::{PendingAck, PendingMail};

verus! {

/// The signature of an agent on a header.
#[derive(Debug, PartialEq, Eq)]
pub struct Provenance {
    /// The agent that signed.
    pub source: AgentAddress,
}

/// A header of an entry on a source chain.
#[derive(Debug, PartialEq, Eq)]
pub struct ChainHeader {
    pub provenances: Vec<Provenance>,
}

/// One version of an entry, with its headers.
#[derive(Debug, PartialEq, Eq)]
pub struct EntryResultItem {
    pub entry: Option<AppEntry>,
    pub headers: Vec<ChainHeader>,
}

/// What the host returns when asked for an entry with its headers: the
/// latest version alone, or all versions.
#[derive(Debug, PartialEq, Eq)]
pub enum GetEntryResultType {
    Single(EntryResultItem),
    All(Vec<EntryResultItem>),
}

/// `item` has a header with a provenance.
pub open spec fn has_author(item: EntryResultItem) -> bool {
    &&& item.headers.len() > 0
    &&& item.headers@[0].provenances.len() > 0
}

/// The author of `item`: the signer of the first provenance of its first header.
pub open spec fn item_author(item: EntryResultItem) -> Seq<char> {
    item.headers@[0].provenances@[0].source@
}

/// `result` is a single version of an entry, with its author.
pub open spec fn is_single_authored(result: ZomeApiResult<GetEntryResultType>) -> bool {
    result matches Ok(found) ==> (found matches GetEntryResultType::Single(item) && has_author(item))
}

/// The item of a single entry result.
pub open spec fn single_item(found: GetEntryResultType) -> EntryResultItem {
    match found {
        GetEntryResultType::Single(item) => item,
        GetEntryResultType::All(_) => arbitrary(),
    }
}

fn author_of(item: &EntryResultItem) -> (res: AgentAddress)
    requires
        has_author(*item),
    ensures
        res@ == item_author(*item),
{
    item.headers[0].provenances[0].source.clone()
}

/// The author and the entry of the entry lookup `result`, or its error. The
/// entry must be of a single-author type, looked up in its latest version.
pub fn get_entry_and_author(result: ZomeApiResult<GetEntryResultType>) -> (res: ZomeApiResult<
    (AgentAddress, Option<AppEntry>),
>)
    requires
        is_single_authored(result),
    ensures
        match result {
            Err(e) => res == Err::<(AgentAddress, Option<AppEntry>), _>(e),
            Ok(found) => res matches Ok((author, entry)) && author@ == item_author(single_item(found))
                && entry == single_item(found).entry,
        },
{
    match result {
        Err(e) => Err(e),
        Ok(GetEntryResultType::Single(item)) => {
            let author = author_of(&item);
            Ok((author, item.entry))
        },
        Ok(GetEntryResultType::All(_)) => unreached(),
    }
}

/// The PendingMail of the entry lookup `result`, with its author, or the
/// lookup's error.
pub fn get_pending_mail(result: ZomeApiResult<GetEntryResultType>) -> (res: ZomeApiResult<
    (AgentAddress, PendingMail),
>)
    requires
        is_single_authored(result),
        result matches Ok(found) ==> single_item(found).entry matches Some(AppEntry::PendingMail(_)),
    ensures
        match result {
            Err(e) => res == Err::<(AgentAddress, PendingMail), _>(e),
            Ok(found) => res matches Ok((author, pending)) && author@ == item_author(single_item(found))
                && single_item(found).entry == Some(AppEntry::PendingMail(pending)),
        },
{
    let (author, entry) = get_entry_and_author(result)?;
    match entry {
        Some(AppEntry::PendingMail(pending)) => Ok((author, pending)),
        _ => unreached(),
    }
}

/// The PendingAck of the entry lookup `result`, with its author, or the
/// lookup's error.
pub fn get_pending_ack(result: ZomeApiResult<GetEntryResultType>) -> (res: ZomeApiResult<
    (AgentAddress, PendingAck),
>)
    requires
        is_single_authored(result),
        result matches Ok(found) ==> single_item(found).entry matches Some(AppEntry::PendingAck(_)),
    ensures
        match result {
            Err(e) => res == Err::<(AgentAddress, PendingAck), _>(e),
            Ok(found) => res matches Ok((author, pending)) && author@ == item_author(single_item(found))
                && single_item(found).entry == Some(AppEntry::PendingAck(pending)),
        },
{
    let (author, entry) = get_entry_and_author(result)?;
    match entry {
        Some(AppEntry::PendingAck(pending)) => Ok((author, pending)),
        _ => unreached(),
    }
}

} // verus!
