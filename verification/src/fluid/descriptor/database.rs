//! The descriptor of a logical database.

use vstd::prelude::*;
use vstd::string::*;
use super::DescriptorKind;
use super::IdentifiableDescriptor;

verus! {

/// A request for a logical database.
#[derive(Clone, Debug, PartialEq, Eq)]
pub struct DatabaseDescriptor {
    pub id: String,
    pub name: String,
    pub summary: String,
}

/// A database descriptor as a mathematical value.
pub ghost struct DatabaseDescriptorView {
    pub id: Seq<char>,
    pub name: Seq<char>,
    pub summary: Seq<char>,
}

impl View for DatabaseDescriptor {
    type V = DatabaseDescriptorView;

    open spec fn view(&self) -> DatabaseDescriptorView {
        DatabaseDescriptorView { id: self.id@, name: self.name@, summary: self.summary@ }
    }
}

impl DeepView for DatabaseDescriptor {
    type V = DatabaseDescriptorView;

    open spec fn deep_view(&self) -> DatabaseDescriptorView {
        self.view()
    }
}

impl IdentifiableDescriptor for DatabaseDescriptor {
    open spec fn spec_id(&self) -> Seq<char> {
        self.id@
    }

    open spec fn spec_kind(&self) -> DescriptorKind {
        DescriptorKind::Database
    }

    fn id(&self) -> (r: String) {
        self.id.clone()
    }

    fn kind(&self) -> (r: String) {
        String::from_str("database")
    }
}

} // verus!
