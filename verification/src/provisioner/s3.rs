//! The object store: buckets.

use vstd::prelude::*;
use vstd::string::*;
use crate::provisioner::looked_up;
use crate::provisioner::identifying_tag_set;
use crate::provisioner::identifying_tags;
use crate::provisioner::Lookup;
use crate::provisioner::Tag;
use crate::provisioner::TagView;

verus! {

/// What the object store said to a request to create a bucket.
#[derive(Clone, Debug, PartialEq, Eq)]
pub enum CreateBucketReply {
    Created,
    /// The bucket is there already and belongs to the caller.
    AlreadyOwnedByYou,
    Failed(String),
}

/// What to send to make a bucket: first the request to create `bucket`,
/// then, once that went through, `tag_set` as the bucket's labels.
#[derive(Clone, Debug, PartialEq, Eq)]
pub struct CreateBucketRequest {
    pub bucket: String,
    pub tag_set: Vec<Tag>,
}

/// A request to create a bucket as a mathematical value.
pub ghost struct CreateBucketRequestView {
    pub bucket: Seq<char>,
    pub tag_set: Seq<TagView>,
}

impl View for CreateBucketRequest {
    type V = CreateBucketRequestView;

    open spec fn view(&self) -> CreateBucketRequestView {
        CreateBucketRequestView { bucket: self.bucket@, tag_set: self.tag_set.deep_view() }
    }
}

/// The requests that make the bucket `bucket` and put the identifying
/// labels on it.
pub open spec fn create_bucket_request(bucket: Seq<char>) -> CreateBucketRequestView {
    CreateBucketRequestView { bucket, tag_set: identifying_tags("s3"@) }
}

/// Says what to ask of the object store and reads its answers.
#[derive(Clone, Copy, Debug)]
pub struct S3Provisioner {}

impl S3Provisioner {
    /// A provisioner; it keeps nothing between calls.
    pub fn new() -> (r: S3Provisioner) {
        S3Provisioner {  }
    }

    /// Reads the answer to a look at a bucket: `NotFound` means that the
    /// bucket does not exist, any other failure is handed on.
    pub fn bucket_exists(&self, reply: Lookup<()>) -> (r: Result<bool, String>)
        ensures
            reply is Found ==> r == Ok::<bool, String>(true),
            reply is NotFound ==> r == Ok::<bool, String>(false),
            reply matches Lookup::Failed(cause) ==> r == Err::<bool, String>(cause),
    {
        match looked_up(reply) {
            Ok(found) => Ok(found.is_some()),
            Err(cause) => Err(cause),
        }
    }

    /// The requests that make the bucket `name` and label it.
    pub fn create_bucket(&self, name: &str) -> (r: CreateBucketRequest)
        ensures
            r@ == create_bucket_request(name@),
    {
        CreateBucketRequest { bucket: String::from_str(name), tag_set: identifying_tag_set("s3") }
    }

    /// Reads the answer to a request to create a bucket. A bucket that the
    /// caller owns already counts as created; any other failure is an error.
    pub fn bucket_created(&self, reply: CreateBucketReply) -> (r: Result<(), String>)
        ensures
            reply is Created || reply is AlreadyOwnedByYou ==> r is Ok,
            reply matches CreateBucketReply::Failed(cause) ==> r == Err::<(), String>(cause),
    {
        match reply {
            CreateBucketReply::Created => Ok(()),
            CreateBucketReply::AlreadyOwnedByYou => Ok(()),
            CreateBucketReply::Failed(cause) => Err(cause),
        }
    }

    /// Brings an existing bucket up to date. There is nothing to bring up
    /// to date yet, so this always succeeds and asks for nothing.
    pub fn update_bucket(&self, name: &str) -> (r: Result<(), String>)
        ensures
            r is Ok,
    {
        Ok(())
    }
}

} // verus!
