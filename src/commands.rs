use vstd::prelude::*;

use crate::path::{file_name, file_name_of};
use crate::session::{
    begin, opt_text, Next, Request, Session, SessionModel, Step, StepModel, Upload, UploadModel,
};
use crate::listing::texts;

verus! {

fn begin_with(s: Session) -> (r: (Session, Step))
    ensures
        (r.0@, r.1@) == begin(s@),
{
    let step = Step { print: Vec::new(), next: Next::Send(Request::ListBuckets) };
    assert(texts(step.print@) =~= seq![]);
    (s, step)
}

/// Starts listing all buckets: their number, an empty line, then one name a line.
pub fn list_buckets() -> (r: (Session, Step))
    ensures
        (r.0@, r.1@) == begin(SessionModel::ListingBuckets),
{
    begin_with(Session::ListingBuckets)
}

/// Starts creating `bucket` in `region`, unless a bucket of that name exists.
pub fn create_bucket(bucket: &str, region: &str) -> (r: (Session, Step))
    ensures
        (r.0@, r.1@) == begin(
            SessionModel::CheckingForCreate { bucket: bucket@, region: region@, upload: None },
        ),
{
    begin_with(
        Session::CheckingForCreate {
            bucket: String::from_str(bucket),
            region: String::from_str(region),
            upload: None,
        },
    )
}

/// Starts deleting `bucket`, which must exist and be empty.
pub fn delete_bucket(bucket: &str) -> (r: (Session, Step))
    ensures
        (r.0@, r.1@) == begin(SessionModel::CheckingForBucketDelete { bucket: bucket@ }),
{
    begin_with(Session::CheckingForBucketDelete { bucket: String::from_str(bucket) })
}

/// Starts listing the keys of `bucket`, which must exist.
pub fn list_objects(bucket: &str) -> (r: (Session, Step))
    ensures
        (r.0@, r.1@) == begin(SessionModel::CheckingForListing { bucket: bucket@ }),
{
    begin_with(Session::CheckingForListing { bucket: String::from_str(bucket) })
}

/// Starts uploading the file at `filepath` to `bucket` under `key`, the
/// path's file name where it has one; the bucket is created first if it is
/// missing.
pub fn upload_object_as(bucket: &str, filepath: &str, key: Option<String>) -> (r: (
    Session,
    Step,
))
    ensures
        (r.0@, r.1@) == begin(
            SessionModel::CheckingForUpload {
                bucket: bucket@,
                upload: UploadModel { filepath: filepath@, key: opt_text(key) },
            },
        ),
{
    let upload = Upload { filepath: String::from_str(filepath), key };
    begin_with(Session::CheckingForUpload { bucket: String::from_str(bucket), upload })
}

/// Starts uploading the file at `filepath` to `bucket`, under the path's file
/// name; the bucket is created first if it is missing.
pub fn upload_object(bucket: &str, filepath: &str) -> (r: (Session, Step))
    ensures
        (r.0@, r.1@) == begin(
            SessionModel::CheckingForUpload {
                bucket: bucket@,
                upload: UploadModel { filepath: filepath@, key: file_name_of(filepath@) },
            },
        ),
{
    let key = file_name(filepath);
    upload_object_as(bucket, filepath, key)
}

/// Starts deleting `key` from `bucket`; both must exist.
pub fn delete_object(bucket: &str, key: &str) -> (r: (Session, Step))
    ensures
        (r.0@, r.1@) == begin(
            SessionModel::CheckingForObjectDelete { bucket: bucket@, key: key@ },
        ),
{
    begin_with(
        Session::CheckingForObjectDelete {
            bucket: String::from_str(bucket),
            key: String::from_str(key),
        },
    )
}

} // verus!
