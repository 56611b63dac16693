use s3cli::lines::decimal_string;
use s3cli::{
    bucket_exists, create_bucket, delete_bucket, delete_object, list_buckets, list_objects,
    upload_object, upload_object_as, Next, Reply, Request, Session, Step,
};

fn strings(v: &[&str]) -> Vec<String> {
    v.iter().map(|s| s.to_string()).collect()
}

fn printed(step: &Step) -> Vec<&str> {
    step.print.iter().map(|s| s.as_str()).collect()
}

fn asks_bucket_listing(step: &Step) -> bool {
    matches!(step.next, Next::Send(Request::ListBuckets))
}

fn exits(step: &Step, ok: bool) -> bool {
    matches!(step.next, Next::Exit(x) if x == ok)
}

#[test]
fn empty_bucket_listing_prints_zero_count() {
    let (s, st) = list_buckets();
    assert!(asks_bucket_listing(&st));
    assert!(st.print.is_empty());
    let (s, st) = s.step(Reply::Buckets(vec![]));
    assert_eq!(printed(&st), vec!["Found 0 buckets.", ""]);
    assert!(exits(&st, true));
    assert!(matches!(s, Session::Finished));
}

#[test]
fn bucket_listing_prints_count_and_names() {
    let (s, _) = list_buckets();
    let (_, st) = s.step(Reply::Buckets(strings(&["alpha", "beta"])));
    assert_eq!(printed(&st), vec!["Found 2 buckets.", "", "alpha", "beta"]);
    assert!(exits(&st, true));
}

#[test]
fn bucket_listing_count_has_two_digits() {
    let names: Vec<String> = (0..12).map(|i| format!("b{}", i)).collect();
    let (s, _) = list_buckets();
    let (_, st) = s.step(Reply::Buckets(names));
    assert_eq!(st.print.len(), 14);
    assert_eq!(st.print[0], "Found 12 buckets.");
    assert_eq!(st.print[13], "b11");
}

#[test]
fn decimal_strings() {
    assert_eq!(decimal_string(0), "0");
    assert_eq!(decimal_string(7), "7");
    assert_eq!(decimal_string(105), "105");
    assert_eq!(decimal_string(usize::MAX), usize::MAX.to_string());
}

#[test]
fn bucket_exists_scans_names() {
    let names = strings(&["a", "bb", "c"]);
    assert!(bucket_exists(&names, "bb"));
    assert!(!bucket_exists(&names, "b"));
    assert!(!bucket_exists(&vec![], "a"));
}

#[test]
fn creating_existing_bucket_is_rejected() {
    let (s, st) = create_bucket("b", "us-west-2");
    assert!(asks_bucket_listing(&st));
    let (s, st) = s.step(Reply::Buckets(strings(&["a", "b"])));
    assert_eq!(printed(&st), vec!["Bucket b already exists."]);
    assert!(exits(&st, false));
    assert!(matches!(s, Session::Finished));
}

#[test]
fn creating_new_bucket() {
    let (s, _) = create_bucket("b", "eu-west-1");
    let (s, st) = s.step(Reply::Buckets(strings(&["a"])));
    assert!(st.print.is_empty());
    match &st.next {
        Next::Send(Request::CreateBucket { bucket, region }) => {
            assert_eq!(bucket, "b");
            assert_eq!(region, "eu-west-1");
        }
        _ => panic!("expected a bucket creation"),
    }
    let (_, st) = s.step(Reply::Done);
    assert_eq!(printed(&st), vec!["Creating bucket named: b in region: eu-west-1"]);
    assert!(exits(&st, true));
}

#[test]
fn deleting_non_empty_bucket_is_rejected() {
    let (s, _) = delete_bucket("b");
    let (s, st) = s.step(Reply::Buckets(strings(&["b"])));
    assert!(matches!(&st.next, Next::Send(Request::ListObjects { bucket }) if bucket == "b"));
    let (_, st) = s.step(Reply::Objects(strings(&["k"])));
    assert_eq!(printed(&st), vec!["Bucket b is not empty. Cannot delete."]);
    assert!(exits(&st, false));
}

#[test]
fn deleting_missing_bucket_is_rejected() {
    let (s, _) = delete_bucket("b");
    let (_, st) = s.step(Reply::Buckets(strings(&["a"])));
    assert_eq!(printed(&st), vec!["Bucket b does not exist."]);
    assert!(exits(&st, false));
}

#[test]
fn deleting_empty_bucket() {
    let (s, _) = delete_bucket("b");
    let (s, _) = s.step(Reply::Buckets(strings(&["b"])));
    let (s, st) = s.step(Reply::Objects(vec![]));
    assert!(matches!(&st.next, Next::Send(Request::DeleteBucket { bucket }) if bucket == "b"));
    let (_, st) = s.step(Reply::Done);
    assert_eq!(printed(&st), vec!["Empty bucket b deleted."]);
    assert!(exits(&st, true));
}

#[test]
fn listing_objects() {
    let (s, _) = list_objects("b");
    let (s, st) = s.step(Reply::Buckets(strings(&["b"])));
    assert!(matches!(&st.next, Next::Send(Request::ListObjects { bucket }) if bucket == "b"));
    let (_, st) = s.step(Reply::Objects(strings(&["x.txt", "y.txt"])));
    assert_eq!(printed(&st), vec!["Found 2 objects in bucket b", "x.txt", "y.txt"]);
    assert!(exits(&st, true));
}

#[test]
fn listing_objects_of_missing_bucket_is_rejected() {
    let (s, _) = list_objects("b");
    let (_, st) = s.step(Reply::Buckets(vec![]));
    assert_eq!(printed(&st), vec!["Bucket b does not exist."]);
    assert!(exits(&st, false));
}

#[test]
fn upload_to_missing_bucket_creates_it_first() {
    let (s, st) = upload_object("b", "dir/sub/photo.png");
    assert!(asks_bucket_listing(&st));
    let (s, st) = s.step(Reply::Buckets(strings(&["a"])));
    assert!(matches!(st.next, Next::Send(Request::BucketRegion)));
    let (s, st) = s.step(Reply::Region("us-west-2".to_string()));
    assert!(asks_bucket_listing(&st));
    let (s, st) = s.step(Reply::Buckets(strings(&["a"])));
    assert!(matches!(&st.next,
        Next::Send(Request::CreateBucket { bucket, region }) if bucket == "b" && region == "us-west-2"));
    let (s, st) = s.step(Reply::Done);
    assert_eq!(printed(&st), vec!["Creating bucket named: b in region: us-west-2"]);
    match &st.next {
        Next::Send(Request::PutObject { bucket, key, filepath }) => {
            assert_eq!(bucket, "b");
            assert_eq!(key, "photo.png");
            assert_eq!(filepath, "dir/sub/photo.png");
        }
        _ => panic!("expected an upload"),
    }
    let (_, st) = s.step(Reply::Done);
    assert_eq!(printed(&st), vec!["Uploaded photo.png to b"]);
    assert!(exits(&st, true));
}

#[test]
fn upload_to_existing_bucket_puts_at_once() {
    let (s, _) = upload_object("b", "/tmp/notes.txt");
    let (s, st) = s.step(Reply::Buckets(strings(&["b"])));
    assert!(st.print.is_empty());
    assert!(matches!(&st.next,
        Next::Send(Request::PutObject { bucket, key, .. }) if bucket == "b" && key == "notes.txt"));
    let (_, st) = s.step(Reply::Unreadable("no such file".to_string()));
    assert_eq!(printed(&st), vec!["Got an error uploading object:", "no such file"]);
    assert!(exits(&st, false));
}

#[test]
fn upload_of_path_without_file_name_fails() {
    let (s, _) = upload_object("b", "dir/..");
    let (_, st) = s.step(Reply::Buckets(strings(&["b"])));
    assert_eq!(printed(&st), vec!["No file name in path dir/.."]);
    assert!(exits(&st, false));
}

#[test]
fn upload_with_given_key() {
    let (s, _) = upload_object_as("b", "a/b.txt", Some("other".to_string()));
    let (_, st) = s.step(Reply::Buckets(strings(&["b"])));
    assert!(matches!(&st.next, Next::Send(Request::PutObject { key, .. }) if key == "other"));
}

#[test]
fn deleting_present_key() {
    let (s, _) = delete_object("b", "k2");
    let (s, st) = s.step(Reply::Buckets(strings(&["b"])));
    assert!(matches!(&st.next, Next::Send(Request::ListObjects { bucket }) if bucket == "b"));
    let (s, st) = s.step(Reply::Objects(strings(&["k1", "k2", "k3"])));
    assert!(matches!(&st.next,
        Next::Send(Request::DeleteObject { bucket, key }) if bucket == "b" && key == "k2"));
    let (_, st) = s.step(Reply::Done);
    assert_eq!(printed(&st), vec!["Object k2 deleted from bucket b."]);
    assert!(exits(&st, true));
}

#[test]
fn deleting_absent_key_is_rejected() {
    let (s, _) = delete_object("b", "k9");
    let (s, _) = s.step(Reply::Buckets(strings(&["b"])));
    let (_, st) = s.step(Reply::Objects(strings(&["k1", "k2"])));
    assert_eq!(printed(&st), vec!["Key k9 does not exist in bucket b"]);
    assert!(exits(&st, false));
}

#[test]
fn service_failure_ends_the_session() {
    let (s, _) = delete_object("b", "k");
    let (s, st) = s.step(Reply::Failed("access denied".to_string()));
    assert!(st.print.is_empty());
    assert!(matches!(&st.next, Next::Abort(m) if m == "access denied"));
    let (_, st) = s.step(Reply::Done);
    assert_eq!(printed(&st), vec!["Unexpected reply from the storage service."]);
    assert!(exits(&st, false));
}

#[test]
fn mismatched_reply_is_unexpected() {
    let (s, _) = list_buckets();
    let (_, st) = s.step(Reply::Done);
    assert_eq!(printed(&st), vec!["Unexpected reply from the storage service."]);
    assert!(exits(&st, false));
}

#[test]
fn failed_bucket_listing_prints_nothing() {
    let (s, _) = list_buckets();
    let (s, st) = s.step(Reply::Failed("timed out".to_string()));
    assert!(st.print.is_empty());
    assert!(matches!(&st.next, Next::Abort(m) if m == "timed out"));
    assert!(matches!(s, Session::Finished));
}

#[test]
fn failed_listing_before_create_sends_no_creation() {
    let (s, _) = create_bucket("b", "us-west-2");
    let (_, st) = s.step(Reply::Failed("timed out".to_string()));
    assert!(st.print.is_empty());
    assert!(matches!(&st.next, Next::Abort(m) if m == "timed out"));
}

#[test]
fn failed_put_prints_nothing() {
    let (s, _) = upload_object("b", "dir/a.txt");
    let (s, _) = s.step(Reply::Buckets(strings(&["b"])));
    let (_, st) = s.step(Reply::Failed("slow down".to_string()));
    assert!(st.print.is_empty());
    assert!(matches!(&st.next, Next::Abort(m) if m == "slow down"));
}
