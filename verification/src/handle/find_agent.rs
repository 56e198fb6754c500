use vstd::prelude::*;

use crate::host::{AgentAddress, AppEntry, ZomeApiResult};
use crate::mail::utils::{has_author, item_author, EntryResultItem, GetEntryResultType};

verus! {

/// The latest version in an entry lookup.
pub open spec fn latest_item(found: GetEntryResultType) -> EntryResultItem {
    match found {
        GetEntryResultType::Single(item) => item,
        GetEntryResultType::All(items) => items@[0],
    }
}

/// `found` is a handle entry with its author.
pub open spec fn is_handle_record(found: GetEntryResultType) -> bool {
    &&& found matches GetEntryResultType::All(items) ==> items.len() > 0
    &&& has_author(latest_item(found))
    &&& latest_item(found).entry matches Some(AppEntry::Handle(_))
}

/// The name of the handle entry `found`.
pub open spec fn record_name(found: GetEntryResultType) -> Seq<char> {
    match latest_item(found).entry {
        Some(AppEntry::Handle(handle)) => handle.name@,
        _ => arbitrary(),
    }
}

/// The authors of the handle entries named `name` among the lookups
/// `members`, in order; lookups that failed are passed over.
pub open spec fn agents_named(members: Seq<ZomeApiResult<GetEntryResultType>>, name: Seq<char>) -> Seq<
    Seq<char>,
>
    decreases members.len(),
{
    if members.len() == 0 {
        Seq::empty()
    } else {
        let earlier = agents_named(members.drop_last(), name);
        match members.last() {
            Ok(found) => if record_name(found) == name {
                earlier.push(item_author(latest_item(found)))
            } else {
                earlier
            },
            Err(_) => earlier,
        }
    }
}

/// All agents whose handle is `handle`, given the lookups of the handle
/// entries of the members.
pub fn find_agent(handle: String, members: Vec<ZomeApiResult<GetEntryResultType>>) -> (res: ZomeApiResult<
    Vec<AgentAddress>,
>)
    requires
        forall|i: int|
            0 <= i < members.len() ==> (#[trigger] members@[i] matches Ok(found) ==> is_handle_record(
                found,
            )),
    ensures
        res matches Ok(agents) && agents.deep_view() == agents_named(members@, handle@),
{
    let mut agent_list: Vec<AgentAddress> = Vec::new();
    let mut i: usize = 0;
    while i < members.len()
        invariant
            i <= members.len(),
            forall|j: int|
                0 <= j < members.len() ==> (#[trigger] members@[j] matches Ok(found) ==> is_handle_record(
                    found,
                )),
            agent_list.deep_view() == agents_named(members@.subrange(0, i as int), handle@),
        decreases members.len() - i,
    {
        let ghost before = agent_list.deep_view();
        assert(members@.subrange(0, i + 1).drop_last() =~= members@.subrange(0, i as int));
        if let Ok(found) = &members[i] {
            let item = match found {
                GetEntryResultType::Single(item) => item,
                GetEntryResultType::All(items) => &items[0],
            };
            if let Some(AppEntry::Handle(handle_entry)) = &item.entry {
                if handle_entry.name == handle {
                    let author = item.headers[0].provenances[0].source.clone();
                    agent_list.push(author);
                    assert(agent_list.deep_view() =~= before.push(item_author(*item)));
                }
            }
        }
        i = i + 1;
    }
    assert(members@.subrange(0, members.len() as int) =~= members@);
    Ok(agent_list)
}

/// `find_agent` goes through the member lookups in order. With no lookups it
/// finds nobody. A lookup that failed adds nobody. A successful lookup whose
/// latest version (the single item, or the first item of a history) is a
/// handle adds the author of that version exactly when the handle's name is
/// the one searched for, whatever older versions of the entry are named.
pub proof fn lemma_agents_named_by_latest_version(
    members: Seq<ZomeApiResult<GetEntryResultType>>,
    found: ZomeApiResult<GetEntryResultType>,
    name: Seq<char>,
)
    ensures
        agents_named(Seq::empty(), name) == Seq::<Seq<char>>::empty(),
        ({
            let before = agents_named(members, name);
            let after = agents_named(members.push(found), name);
            match found {
                Err(_) => after == before,
                Ok(GetEntryResultType::Single(item)) => match item.entry {
                    Some(AppEntry::Handle(h)) => after == if h.name@ == name {
                        before.push(item.headers@[0].provenances@[0].source@)
                    } else {
                        before
                    },
                    _ => true,
                },
                Ok(GetEntryResultType::All(items)) => match items@[0].entry {
                    Some(AppEntry::Handle(h)) => after == if h.name@ == name {
                        before.push(items@[0].headers@[0].provenances@[0].source@)
                    } else {
                        before
                    },
                    _ => true,
                },
            }
        }),
{
    assert(members.push(found).drop_last() =~= members);
    assert(members.push(found).last() == found);
}

/// The lookups of `members` that succeeded, in order.
pub open spec fn found_members(members: Seq<ZomeApiResult<GetEntryResultType>>) -> Seq<
    ZomeApiResult<GetEntryResultType>,
> {
    members.filter(|member: ZomeApiResult<GetEntryResultType>| member is Ok)
}

/// Failed member lookups are passed over: `find_agent` finds the same
/// agents among all lookups as among the successful ones alone.
pub proof fn lemma_failed_lookups_are_passed_over(
    members: Seq<ZomeApiResult<GetEntryResultType>>,
    name: Seq<char>,
)
    ensures
        agents_named(members, name) == agents_named(found_members(members), name),
    decreases members.len(),
{
    reveal_with_fuel(Seq::filter, 1);
    if members.len() > 0 {
        let earlier = members.drop_last();
        lemma_failed_lookups_are_passed_over(earlier, name);
        let found = found_members(members);
        if members.last() is Ok {
            assert(found == found_members(earlier).push(members.last()));
            assert(found.drop_last() =~= found_members(earlier));
        } else {
            assert(found == found_members(earlier));
        }
    }
}

} // verus!
