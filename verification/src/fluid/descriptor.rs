//! Descriptors and what they have in common.

use vstd::prelude::*;
use vstd::string::*;

pub mod database;
pub mod flow;
pub mod table;

verus! {

/// The three kinds of resource a descriptor can ask for.
#[derive(Clone, Copy, Debug, PartialEq, Eq, Structural)]
pub enum DescriptorKind {
    Database,
    Table,
    Flow,
}

impl DescriptorKind {
    /// The tag under which descriptors of this kind are stored and announced.
    pub open spec fn tag(self) -> Seq<char> {
        match self {
            DescriptorKind::Database => "database"@,
            DescriptorKind::Table => "table"@,
            DescriptorKind::Flow => "flow"@,
        }
    }

    /// The kind that a tag names, if it names one.
    pub open spec fn from_tag(tag: Seq<char>) -> Option<DescriptorKind> {
        if tag == "database"@ {
            Some(DescriptorKind::Database)
        } else if tag == "flow"@ {
            Some(DescriptorKind::Flow)
        } else if tag == "table"@ {
            Some(DescriptorKind::Table)
        } else {
            None
        }
    }

    /// Writes the tag of this kind.
    pub fn name(&self) -> (r: String)
        ensures
            r@ == self.tag(),
    {
        match self {
            DescriptorKind::Database => String::from_str("database"),
            DescriptorKind::Table => String::from_str("table"),
            DescriptorKind::Flow => String::from_str("flow"),
        }
    }

    /// Reads a tag; any text but the three tags gives `None`.
    pub fn parse(tag: &str) -> (r: Option<DescriptorKind>)
        ensures
            r == DescriptorKind::from_tag(tag@),
    {
        let given = String::from_str(tag);
        if given == String::from_str("database") {
            Some(DescriptorKind::Database)
        } else if given == String::from_str("flow") {
            Some(DescriptorKind::Flow)
        } else if given == String::from_str("table") {
            Some(DescriptorKind::Table)
        } else {
            None
        }
    }

    /// Reading the tag of a kind gives that kind back.
    pub proof fn lemma_tag_round_trip(kind: DescriptorKind)
        ensures
            DescriptorKind::from_tag(kind.tag()) == Some(kind),
    {
        reveal_strlit("database");
        reveal_strlit("table");
        reveal_strlit("flow");
        assert("table"@.len() == 5);
        assert("flow"@.len() == 4);
    }
}

/// A descriptor that can say which resource it is about.
pub trait IdentifiableDescriptor {
    /// The identifier that the client gave the descriptor.
    spec fn spec_id(&self) -> Seq<char>;

    /// The kind of resource that the descriptor asks for.
    spec fn spec_kind(&self) -> DescriptorKind;

    fn id(&self) -> (r: String)
        ensures
            r@ == self.spec_id(),
    ;

    fn kind(&self) -> (r: String)
        ensures
            r@ == self.spec_kind().tag(),
    ;
}

} // verus!
