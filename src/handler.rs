//! The bucket handler: a configured client together with the bucket it works
//! on and the region that bucket lives in.
use aws_sdk_s3::types::BucketLocationConstraint;
use aws_sdk_s3::Client;
use vstd::prelude::*;
use vstd::string::StringExecFns;

verus! {

#[verifier::external_type_specification]
#[verifier::external_body]
pub struct ExClient(Client);

#[verifier::external_type_specification]
#[verifier::external_body]
pub struct ExBucketLocationConstraint(BucketLocationConstraint);

/// The location constraint that the storage SDK derives from a region name.
pub uninterp spec fn constraint_for(region: Seq<char>) -> BucketLocationConstraint;

/// Relies on `From<&str> for aws_sdk_s3::types::BucketLocationConstraint`:
/// it maps each region name to its constraint and never fails.
#[verifier::external_body]
fn location_constraint_for(region: &str) -> (r: BucketLocationConstraint)
    ensures
        r == constraint_for(region@),
{
    BucketLocationConstraint::from(region)
}

/// A client for the storage service, the bucket it acts on, and the region
/// the bucket is created in. All three are fixed for the handler's life.
pub struct AwsS3BucketHandler {
    client: Client,
    bucket_name: String,
    region: String,
}

impl AwsS3BucketHandler {
    /// The name of the bucket that every operation acts on.
    pub closed spec fn spec_bucket_name(&self) -> Seq<char> {
        self.bucket_name@
    }

    /// The region that the bucket is created in.
    pub closed spec fn spec_region(&self) -> Seq<char> {
        self.region@
    }

    /// A handler over a client already configured for `region`.
    pub fn new(client: Client, bucket_name: &str, region: String) -> (r: Self)
        ensures
            r.spec_bucket_name() == bucket_name@,
            r.spec_region() == region@,
    {
        AwsS3BucketHandler { client, bucket_name: String::from_str(bucket_name), region }
    }

    pub fn client(&self) -> &Client {
        &self.client
    }

    pub fn bucket_name(&self) -> (r: &str)
        ensures
            r@ == self.spec_bucket_name(),
    {
        self.bucket_name.as_str()
    }

    pub fn region(&self) -> (r: &str)
        ensures
            r@ == self.spec_region(),
    {
        self.region.as_str()
    }

    /// The location constraint that a new bucket is created with: the one
    /// that the handler's region names.
    pub fn location_constraint(&self) -> (r: BucketLocationConstraint)
        ensures
            r == constraint_for(self.spec_region()),
    {
        location_constraint_for(self.region.as_str())
    }
}

} // verus!
