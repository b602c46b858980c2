//! What each backend is asked to do, and how its answers are read.

use vstd::prelude::*;
use vstd::string::*;

pub mod glue;
pub mod s3;
pub mod waterwheel;

verus! {

/// The version that resources are tagged with.
pub const APP_VERSION: &'static str = "0.0.1";

/// A label on a remote resource.
#[derive(Clone, Debug, PartialEq, Eq)]
pub struct Tag {
    pub key: String,
    pub value: String,
}

/// A label as a mathematical value.
pub ghost struct TagView {
    pub key: Seq<char>,
    pub value: Seq<char>,
}

impl View for Tag {
    type V = TagView;

    open spec fn view(&self) -> TagView {
        TagView { key: self.key@, value: self.value@ }
    }
}

impl DeepView for Tag {
    type V = TagView;

    open spec fn deep_view(&self) -> TagView {
        self.view()
    }
}

/// What a backend said when asked for a resource by name.
#[derive(Clone, Debug, PartialEq, Eq)]
pub enum Lookup<T> {
    /// The resource is there; this is what the backend holds of it.
    Found(T),
    /// The backend knows no such resource.
    NotFound,
    /// The backend could not say; the text says why.
    Failed(String),
}

/// The three labels that mark a resource as made by this service, for the
/// provisioner named `subprovisioner`.
pub open spec fn identifying_tags(subprovisioner: Seq<char>) -> Seq<TagView> {
    seq![
        TagView { key: "provisioner"@, value: "basin"@ },
        TagView { key: "subprovisioner"@, value: subprovisioner },
        TagView { key: "version"@, value: APP_VERSION@ },
    ]
}

/// Writes the identifying labels for the provisioner named `subprovisioner`.
pub fn identifying_tag_set(subprovisioner: &str) -> (r: Vec<Tag>)
    ensures
        r.deep_view() == identifying_tags(subprovisioner@),
{
    let mut tags: Vec<Tag> = Vec::new();
    tags.push(Tag { key: String::from_str("provisioner"), value: String::from_str("basin") });
    tags.push(
        Tag { key: String::from_str("subprovisioner"), value: String::from_str(subprovisioner) },
    );
    tags.push(Tag { key: String::from_str("version"), value: String::from_str(APP_VERSION) });
    tags
}

/// Reads a lookup: only `NotFound` means that the resource is not there; a
/// lookup that failed is an error.
pub fn looked_up<T>(reply: Lookup<T>) -> (r: Result<Option<T>, String>)
    ensures
        reply matches Lookup::Found(record) ==> r == Ok::<Option<T>, String>(Some(record)),
        reply is NotFound ==> r == Ok::<Option<T>, String>(None),
        reply matches Lookup::Failed(cause) ==> r == Err::<Option<T>, String>(cause),
{
    match reply {
        Lookup::Found(record) => Ok(Some(record)),
        Lookup::NotFound => Ok(None),
        Lookup::Failed(cause) => Err(cause),
    }
}

} // verus!
