use vstd::prelude::*;

verus! {

/// Who can see the entries of a type.
#[derive(Debug, PartialEq, Eq)]
pub enum Sharing {
    Public,
    Private,
}

/// Whether a link goes from entries of the defined type, or to them.
#[derive(Debug, PartialEq, Eq)]
pub enum LinkDirection {
    To,
    From,
}

/// A link type that an entry definition declares.
#[derive(Debug, PartialEq, Eq)]
pub struct LinkDefinition {
    pub direction: LinkDirection,
    /// The entry type at the other end of the link.
    pub other_type: String,
    pub link_type: String,
}

/// The definition of an entry type of this zome. Entries and links of the
/// types defined here are accepted by their validation without condition.
#[derive(Debug, PartialEq, Eq)]
pub struct EntryDefinition {
    pub name: String,
    pub description: String,
    pub sharing: Sharing,
    pub links: Vec<LinkDefinition>,
}

/// `link` declares a link in `direction` with entries of type `other`, of type `link_type`.
pub open spec fn declares(link: LinkDefinition, direction: LinkDirection, other: Seq<char>, link_type: Seq<char>) -> bool {
    &&& link.direction == direction
    &&& link.other_type@ == other
    &&& link.link_type@ == link_type
}

pub(crate) fn link_definition(direction: LinkDirection, other_type: &str, link_type: &str) -> (res: LinkDefinition)
    ensures
        declares(res, direction, other_type@, link_type@),
{
    LinkDefinition { direction, other_type: other_type.to_string(), link_type: link_type.to_string() }
}

} // verus!
