use vstd::prelude::*;

verus! {

/// The character of a decimal digit.
pub open spec fn digit_char(d: nat) -> char {
    if d == 0 { '0' }
    else if d == 1 { '1' }
    else if d == 2 { '2' }
    else if d == 3 { '3' }
    else if d == 4 { '4' }
    else if d == 5 { '5' }
    else if d == 6 { '6' }
    else if d == 7 { '7' }
    else if d == 8 { '8' }
    else { '9' }
}

/// `n` written in decimal, without leading zeros.
pub open spec fn decimal(n: nat) -> Seq<char>
    decreases n,
{
    if n < 10 {
        seq![digit_char(n)]
    } else {
        decimal(n / 10).push(digit_char(n % 10))
    }
}

fn digit_str(d: usize) -> (r: &'static str)
    requires
        d < 10,
    ensures
        r@ == seq![digit_char(d as nat)],
{
    proof {
        reveal_strlit("0");
        reveal_strlit("1");
        reveal_strlit("2");
        reveal_strlit("3");
        reveal_strlit("4");
        reveal_strlit("5");
        reveal_strlit("6");
        reveal_strlit("7");
        reveal_strlit("8");
        reveal_strlit("9");
    }
    if d == 0 { "0" }
    else if d == 1 { "1" }
    else if d == 2 { "2" }
    else if d == 3 { "3" }
    else if d == 4 { "4" }
    else if d == 5 { "5" }
    else if d == 6 { "6" }
    else if d == 7 { "7" }
    else if d == 8 { "8" }
    else { "9" }
}

/// Writes `n` in decimal.
pub fn decimal_string(n: usize) -> (r: String)
    ensures
        r@ == decimal(n as nat),
    decreases n,
{
    if n < 10 {
        String::from_str(digit_str(n))
    } else {
        let mut s = decimal_string(n / 10);
        s.append(digit_str(n % 10));
        s
    }
}

/// The head of a bucket listing.
pub open spec fn found_buckets_text(n: nat) -> Seq<char> {
    "Found "@ + decimal(n) + " buckets."@
}

/// The head of an object listing.
pub open spec fn found_objects_text(n: nat, bucket: Seq<char>) -> Seq<char> {
    "Found "@ + decimal(n) + " objects in bucket "@ + bucket
}

pub open spec fn bucket_already_exists_text(bucket: Seq<char>) -> Seq<char> {
    "Bucket "@ + bucket + " already exists."@
}

pub open spec fn bucket_missing_text(bucket: Seq<char>) -> Seq<char> {
    "Bucket "@ + bucket + " does not exist."@
}

pub open spec fn bucket_not_empty_text(bucket: Seq<char>) -> Seq<char> {
    "Bucket "@ + bucket + " is not empty. Cannot delete."@
}

pub open spec fn bucket_created_text(bucket: Seq<char>, region: Seq<char>) -> Seq<char> {
    "Creating bucket named: "@ + bucket + " in region: "@ + region
}

pub open spec fn bucket_deleted_text(bucket: Seq<char>) -> Seq<char> {
    "Empty bucket "@ + bucket + " deleted."@
}

pub open spec fn uploaded_text(key: Seq<char>, bucket: Seq<char>) -> Seq<char> {
    "Uploaded "@ + key + " to "@ + bucket
}

pub open spec fn upload_error_text() -> Seq<char> {
    "Got an error uploading object:"@
}

pub open spec fn no_file_name_text(filepath: Seq<char>) -> Seq<char> {
    "No file name in path "@ + filepath
}

pub open spec fn key_missing_text(key: Seq<char>, bucket: Seq<char>) -> Seq<char> {
    "Key "@ + key + " does not exist in bucket "@ + bucket
}

pub open spec fn object_deleted_text(key: Seq<char>, bucket: Seq<char>) -> Seq<char> {
    "Object "@ + key + " deleted from bucket "@ + bucket + "."@
}

pub open spec fn unexpected_reply_text() -> Seq<char> {
    "Unexpected reply from the storage service."@
}

fn joined(parts: &[&str]) -> (r: String)
    ensures
        r@ == parts@.fold_left(Seq::<char>::empty(), |acc: Seq<char>, p: &str| acc + p@),
{
    let mut r = String::new();
    let mut i: usize = 0;
    while i < parts.len()
        invariant
            i <= parts.len(),
            r@ == parts@.take(i as int).fold_left(
                Seq::<char>::empty(),
                |acc: Seq<char>, p: &str| acc + p@,
            ),
        decreases parts.len() - i,
    {
        r.append(parts[i]);
        assert(parts@.take(i + 1).drop_last() == parts@.take(i as int));
        i = i + 1;
    }
    assert(parts@.take(parts.len() as int) == parts@);
    r
}

pub fn found_buckets_line(n: usize) -> (r: String)
    ensures
        r@ == found_buckets_text(n as nat),
{
    let d = decimal_string(n);
    let r = joined(&["Found ", d.as_str(), " buckets."]);
    assert(r@ == found_buckets_text(n as nat)) by {
        reveal_with_fuel(Seq::fold_left, 4);
    }
    r
}

pub fn found_objects_line(n: usize, bucket: &str) -> (r: String)
    ensures
        r@ == found_objects_text(n as nat, bucket@),
{
    let d = decimal_string(n);
    let r = joined(&["Found ", d.as_str(), " objects in bucket ", bucket]);
    assert(r@ == found_objects_text(n as nat, bucket@)) by {
        reveal_with_fuel(Seq::fold_left, 5);
    }
    r
}

pub fn bucket_already_exists_line(bucket: &str) -> (r: String)
    ensures
        r@ == bucket_already_exists_text(bucket@),
{
    let r = joined(&["Bucket ", bucket, " already exists."]);
    assert(r@ == bucket_already_exists_text(bucket@)) by {
        reveal_with_fuel(Seq::fold_left, 4);
    }
    r
}

pub fn bucket_missing_line(bucket: &str) -> (r: String)
    ensures
        r@ == bucket_missing_text(bucket@),
{
    let r = joined(&["Bucket ", bucket, " does not exist."]);
    assert(r@ == bucket_missing_text(bucket@)) by {
        reveal_with_fuel(Seq::fold_left, 4);
    }
    r
}

pub fn bucket_not_empty_line(bucket: &str) -> (r: String)
    ensures
        r@ == bucket_not_empty_text(bucket@),
{
    let r = joined(&["Bucket ", bucket, " is not empty. Cannot delete."]);
    assert(r@ == bucket_not_empty_text(bucket@)) by {
        reveal_with_fuel(Seq::fold_left, 4);
    }
    r
}

pub fn bucket_created_line(bucket: &str, region: &str) -> (r: String)
    ensures
        r@ == bucket_created_text(bucket@, region@),
{
    let r = joined(&["Creating bucket named: ", bucket, " in region: ", region]);
    assert(r@ == bucket_created_text(bucket@, region@)) by {
        reveal_with_fuel(Seq::fold_left, 5);
    }
    r
}

pub fn bucket_deleted_line(bucket: &str) -> (r: String)
    ensures
        r@ == bucket_deleted_text(bucket@),
{
    let r = joined(&["Empty bucket ", bucket, " deleted."]);
    assert(r@ == bucket_deleted_text(bucket@)) by {
        reveal_with_fuel(Seq::fold_left, 4);
    }
    r
}

pub fn uploaded_line(key: &str, bucket: &str) -> (r: String)
    ensures
        r@ == uploaded_text(key@, bucket@),
{
    let r = joined(&["Uploaded ", key, " to ", bucket]);
    assert(r@ == uploaded_text(key@, bucket@)) by {
        reveal_with_fuel(Seq::fold_left, 5);
    }
    r
}

pub fn no_file_name_line(filepath: &str) -> (r: String)
    ensures
        r@ == no_file_name_text(filepath@),
{
    let r = joined(&["No file name in path ", filepath]);
    assert(r@ == no_file_name_text(filepath@)) by {
        reveal_with_fuel(Seq::fold_left, 3);
    }
    r
}

pub fn key_missing_line(key: &str, bucket: &str) -> (r: String)
    ensures
        r@ == key_missing_text(key@, bucket@),
{
    let r = joined(&["Key ", key, " does not exist in bucket ", bucket]);
    assert(r@ == key_missing_text(key@, bucket@)) by {
        reveal_with_fuel(Seq::fold_left, 5);
    }
    r
}

pub fn object_deleted_line(key: &str, bucket: &str) -> (r: String)
    ensures
        r@ == object_deleted_text(key@, bucket@),
{
    let r = joined(&["Object ", key, " deleted from bucket ", bucket, "."]);
    assert(r@ == object_deleted_text(key@, bucket@)) by {
        reveal_with_fuel(Seq::fold_left, 6);
    }
    r
}

pub fn upload_error_line() -> (r: String)
    ensures
        r@ == upload_error_text(),
{
    String::from_str("Got an error uploading object:")
}

pub fn unexpected_reply_line() -> (r: String)
    ensures
        r@ == unexpected_reply_text(),
{
    String::from_str("Unexpected reply from the storage service.")
}

} // verus!
