//! The human-readable status lines that the bucket operations report.
use vstd::prelude::*;
use vstd::string::StringExecFns;

verus! {

/// The line logged before a bucket is created.
pub open spec fn create_bucket_line(bucket: Seq<char>) -> Seq<char> {
    "About to create bucket with name "@ + bucket
}

/// The line logged for each bucket that a listing returns.
pub open spec fn bucket_listing_line(name: Seq<char>) -> Seq<char> {
    "Bucket name: "@ + name
}

/// The line logged once a local file has been stored under a key.
pub open spec fn upload_line(path: Seq<char>, blob: Seq<char>, bucket: Seq<char>) -> Seq<char> {
    "Uploaded file "@ + path + " with object name "@ + blob + " to bucket "@ + bucket
}

/// The line logged once an object has been fetched into a local file.
pub open spec fn download_line(path: Seq<char>, blob: Seq<char>, bucket: Seq<char>) -> Seq<char> {
    "Downloaded file "@ + path + " with object name "@ + blob + " from bucket "@ + bucket
}

/// The line logged once an object has been removed.
pub open spec fn delete_blob_line(blob: Seq<char>, bucket: Seq<char>) -> Seq<char> {
    "Object "@ + blob + " deleted from "@ + bucket + " bucket."@
}

/// The line logged once a bucket has been removed.
pub open spec fn delete_bucket_line(bucket: Seq<char>) -> Seq<char> {
    "Bucket "@ + bucket + " deleted"@
}

/// The line logged for each required environment variable that is absent.
pub open spec fn missing_var_line(name: Seq<char>) -> Seq<char> {
    name + " is not set."@
}

pub fn create_bucket_message(bucket_name: &str) -> (r: String)
    ensures
        r@ == create_bucket_line(bucket_name@),
{
    let mut r = String::from_str("About to create bucket with name ");
    r.append(bucket_name);
    r
}

pub fn bucket_listing_message(name: &str) -> (r: String)
    ensures
        r@ == bucket_listing_line(name@),
{
    let mut r = String::from_str("Bucket name: ");
    r.append(name);
    r
}

/// The name a listed bucket is reported under: its name, or the empty string
/// where the listing gave none.
pub open spec fn listed_name(name: Option<String>) -> Seq<char> {
    match name {
        Some(n) => n@,
        None => Seq::empty(),
    }
}

/// One line for each bucket of a listing, in the listing's order.
pub fn bucket_listing_messages(names: &[Option<String>]) -> (r: Vec<String>)
    ensures
        r@.len() == names@.len(),
        forall|i: int|
            0 <= i < names@.len() ==> #[trigger] r@[i]@ == bucket_listing_line(
                listed_name(names@[i]),
            ),
{
    let mut r: Vec<String> = Vec::new();
    let mut i: usize = 0;
    while i < names.len()
        invariant
            i <= names@.len(),
            r@.len() == i,
            forall|j: int|
                0 <= j < i ==> #[trigger] r@[j]@ == bucket_listing_line(listed_name(names@[j])),
        decreases names@.len() - i,
    {
        let line = match &names[i] {
            Some(n) => bucket_listing_message(n.as_str()),
            None => {
                proof {
                    reveal_strlit("");
                }
                assert(""@ =~= Seq::<char>::empty());
                bucket_listing_message("")
            },
        };
        r.push(line);
        i = i + 1;
    }
    r
}

pub fn upload_message(upload_file_path: &str, blob_name: &str, bucket_name: &str) -> (r: String)
    ensures
        r@ == upload_line(upload_file_path@, blob_name@, bucket_name@),
{
    let mut r = String::from_str("Uploaded file ");
    r.append(upload_file_path);
    r.append(" with object name ");
    r.append(blob_name);
    r.append(" to bucket ");
    r.append(bucket_name);
    r
}

pub fn download_message(download_file_path: &str, blob_name: &str, bucket_name: &str) -> (r:
    String)
    ensures
        r@ == download_line(download_file_path@, blob_name@, bucket_name@),
{
    let mut r = String::from_str("Downloaded file ");
    r.append(download_file_path);
    r.append(" with object name ");
    r.append(blob_name);
    r.append(" from bucket ");
    r.append(bucket_name);
    r
}

pub fn delete_blob_message(blob_name: &str, bucket_name: &str) -> (r: String)
    ensures
        r@ == delete_blob_line(blob_name@, bucket_name@),
{
    let mut r = String::from_str("Object ");
    r.append(blob_name);
    r.append(" deleted from ");
    r.append(bucket_name);
    r.append(" bucket.");
    r
}

pub fn delete_bucket_message(bucket_name: &str) -> (r: String)
    ensures
        r@ == delete_bucket_line(bucket_name@),
{
    let mut r = String::from_str("Bucket ");
    r.append(bucket_name);
    r.append(" deleted");
    r
}

pub fn missing_var_message(env_var_name: &str) -> (r: String)
    ensures
        r@ == missing_var_line(env_var_name@),
{
    let mut r = String::from_str(env_var_name);
    r.append(" is not set.");
    r
}

} // verus!
