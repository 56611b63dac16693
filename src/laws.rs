use vstd::prelude::*;

use crate::lines::{
    bucket_already_exists_text, bucket_created_text, bucket_not_empty_text, found_buckets_text,
    key_missing_text, object_deleted_text, uploaded_text,
};
use crate::path::file_name_of;
use crate::session::{
    abort, begin, end, mutates, next, NextModel, ReplyModel, RequestModel, SessionModel, UploadModel,
};

verus! {

/// Listing the buckets prints their number, an empty line, and their names,
/// and ends in success.
pub proof fn listing_prints_count_and_names(names: Seq<Seq<char>>)
    ensures
        ({
            let s0 = begin(SessionModel::ListingBuckets);
            &&& s0.1.next == NextModel::Send(RequestModel::ListBuckets)
            &&& next(s0.0, ReplyModel::Buckets(names)) == end(
                seq![found_buckets_text(names.len()), seq![]] + names,
                true,
            )
        }),
{
}

/// When the service fails a request, the session prints nothing, sends no
/// further request, and ends on the service's error.
pub proof fn service_failure_prints_nothing(s: SessionModel, m: Seq<char>)
    requires
        !(s is Finished),
    ensures
        next(s, ReplyModel::Failed(m)) == abort(m),
        abort(m).1.print.len() == 0,
{
}

/// Creating a bucket whose name is already listed fails, and the only request
/// the session sends, the bucket listing, changes nothing.
pub proof fn creating_existing_bucket_is_rejected(
    bucket: Seq<char>,
    region: Seq<char>,
    names: Seq<Seq<char>>,
)
    requires
        names.contains(bucket),
    ensures
        ({
            let s0 = begin(SessionModel::CheckingForCreate { bucket, region, upload: None });
            &&& s0.1.next == NextModel::Send(RequestModel::ListBuckets)
            &&& !mutates(RequestModel::ListBuckets)
            &&& next(s0.0, ReplyModel::Buckets(names)) == end(
                seq![bucket_already_exists_text(bucket)],
                false,
            )
        }),
{
}

/// Deleting a bucket that holds objects fails after listing them, without
/// sending a deletion.
pub proof fn deleting_non_empty_bucket_is_rejected(
    bucket: Seq<char>,
    names: Seq<Seq<char>>,
    keys: Seq<Seq<char>>,
)
    requires
        names.contains(bucket),
        keys.len() > 0,
    ensures
        ({
            let s0 = begin(SessionModel::CheckingForBucketDelete { bucket });
            let s1 = next(s0.0, ReplyModel::Buckets(names));
            &&& s1.1.next == NextModel::Send(RequestModel::ListObjects { bucket })
            &&& next(s1.0, ReplyModel::Objects(keys)) == end(
                seq![bucket_not_empty_text(bucket)],
                false,
            )
        }),
{
}

/// Uploading to a bucket that is not listed asks for the region, creates the
/// bucket there, then puts the file under its file name, and ends in success
/// once the put is done.
pub proof fn upload_to_missing_bucket_creates_it_first(
    bucket: Seq<char>,
    filepath: Seq<char>,
    region: Seq<char>,
    names: Seq<Seq<char>>,
)
    requires
        !names.contains(bucket),
        file_name_of(filepath) is Some,
    ensures
        ({
            let key = file_name_of(filepath).unwrap();
            let s0 = begin(
                SessionModel::CheckingForUpload {
                    bucket,
                    upload: UploadModel { filepath, key: file_name_of(filepath) },
                },
            );
            let s1 = next(s0.0, ReplyModel::Buckets(names));
            let s2 = next(s1.0, ReplyModel::Region(region));
            let s3 = next(s2.0, ReplyModel::Buckets(names));
            let s4 = next(s3.0, ReplyModel::Done);
            &&& s1.1.next == NextModel::Send(RequestModel::BucketRegion)
            &&& s2.1.next == NextModel::Send(RequestModel::ListBuckets)
            &&& s3.1.next == NextModel::Send(RequestModel::CreateBucket { bucket, region })
            &&& s4.1.print == seq![bucket_created_text(bucket, region)]
            &&& s4.1.next == NextModel::Send(RequestModel::PutObject { bucket, key, filepath })
            &&& next(s4.0, ReplyModel::Done) == end(seq![uploaded_text(key, bucket)], true)
        }),
{
}

/// Deleting a key that the bucket holds sends one deletion, of that key in
/// that bucket, and ends in success once it is done.
pub proof fn deleting_present_key_deletes_it(
    bucket: Seq<char>,
    key: Seq<char>,
    names: Seq<Seq<char>>,
    keys: Seq<Seq<char>>,
)
    requires
        names.contains(bucket),
        keys.contains(key),
    ensures
        ({
            let s0 = begin(SessionModel::CheckingForObjectDelete { bucket, key });
            let s1 = next(s0.0, ReplyModel::Buckets(names));
            let s2 = next(s1.0, ReplyModel::Objects(keys));
            &&& s1.1.next == NextModel::Send(RequestModel::ListObjects { bucket })
            &&& s2.1.next == NextModel::Send(RequestModel::DeleteObject { bucket, key })
            &&& next(s2.0, ReplyModel::Done) == end(seq![object_deleted_text(key, bucket)], true)
        }),
{
}

/// Deleting a key that the bucket does not hold fails without a deletion.
pub proof fn deleting_absent_key_is_rejected(
    bucket: Seq<char>,
    key: Seq<char>,
    names: Seq<Seq<char>>,
    keys: Seq<Seq<char>>,
)
    requires
        names.contains(bucket),
        !keys.contains(key),
    ensures
        ({
            let s0 = begin(SessionModel::CheckingForObjectDelete { bucket, key });
            let s1 = next(s0.0, ReplyModel::Buckets(names));
            next(s1.0, ReplyModel::Objects(keys)) == end(seq![key_missing_text(key, bucket)], false)
        }),
{
}

} // verus!
