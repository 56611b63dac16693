use vstd::prelude::*;

use crate::lines::{
    bucket_already_exists_line, bucket_already_exists_text, bucket_created_line,
    bucket_created_text, bucket_deleted_line, bucket_deleted_text, bucket_missing_line,
    bucket_missing_text, bucket_not_empty_line, bucket_not_empty_text, found_buckets_line,
    found_buckets_text, found_objects_line, found_objects_text, key_missing_line,
    key_missing_text, no_file_name_line, no_file_name_text, object_deleted_line,
    object_deleted_text, unexpected_reply_line, unexpected_reply_text, upload_error_line,
    upload_error_text, uploaded_line, uploaded_text,
};
use crate::listing::{bucket_exists, contains_text, texts};

verus! {

/// A request to the storage service.
pub enum Request {
    /// The names of all buckets.
    ListBuckets,
    /// The region that new buckets go to.
    BucketRegion,
    /// The keys of all objects in a bucket.
    ListObjects { bucket: String },
    CreateBucket { bucket: String, region: String },
    DeleteBucket { bucket: String },
    /// Store the contents of the file at `filepath` under `key`.
    PutObject { bucket: String, key: String, filepath: String },
    DeleteObject { bucket: String, key: String },
}

pub enum RequestModel {
    ListBuckets,
    BucketRegion,
    ListObjects { bucket: Seq<char> },
    CreateBucket { bucket: Seq<char>, region: Seq<char> },
    DeleteBucket { bucket: Seq<char> },
    PutObject { bucket: Seq<char>, key: Seq<char>, filepath: Seq<char> },
    DeleteObject { bucket: Seq<char>, key: Seq<char> },
}

impl View for Request {
    type V = RequestModel;

    open spec fn view(&self) -> RequestModel {
        match self {
            Request::ListBuckets => RequestModel::ListBuckets,
            Request::BucketRegion => RequestModel::BucketRegion,
            Request::ListObjects { bucket } => RequestModel::ListObjects { bucket: bucket@ },
            Request::CreateBucket { bucket, region } => RequestModel::CreateBucket {
                bucket: bucket@,
                region: region@,
            },
            Request::DeleteBucket { bucket } => RequestModel::DeleteBucket { bucket: bucket@ },
            Request::PutObject { bucket, key, filepath } => RequestModel::PutObject {
                bucket: bucket@,
                key: key@,
                filepath: filepath@,
            },
            Request::DeleteObject { bucket, key } => RequestModel::DeleteObject {
                bucket: bucket@,
                key: key@,
            },
        }
    }
}

/// Whether a request changes what the service stores.
pub open spec fn mutates(req: RequestModel) -> bool {
    match req {
        RequestModel::CreateBucket { .. } => true,
        RequestModel::DeleteBucket { .. } => true,
        RequestModel::PutObject { .. } => true,
        RequestModel::DeleteObject { .. } => true,
        _ => false,
    }
}

/// What the service answered to the last request.
pub enum Reply {
    Buckets(Vec<String>),
    Objects(Vec<String>),
    Region(String),
    /// The change that was asked for has been made.
    Done,
    /// The service could not carry out the request; the message says why.
    Failed(String),
    /// The file to upload could not be read; the message says why.
    Unreadable(String),
}

pub enum ReplyModel {
    Buckets(Seq<Seq<char>>),
    Objects(Seq<Seq<char>>),
    Region(Seq<char>),
    Done,
    Failed(Seq<char>),
    Unreadable(Seq<char>),
}

impl View for Reply {
    type V = ReplyModel;

    open spec fn view(&self) -> ReplyModel {
        match self {
            Reply::Buckets(v) => ReplyModel::Buckets(texts(v@)),
            Reply::Objects(v) => ReplyModel::Objects(texts(v@)),
            Reply::Region(r) => ReplyModel::Region(r@),
            Reply::Done => ReplyModel::Done,
            Reply::Failed(m) => ReplyModel::Failed(m@),
            Reply::Unreadable(m) => ReplyModel::Unreadable(m@),
        }
    }
}

/// What to do after printing: send a request, end with success or failure,
/// or end because the service failed, with the service's error, which is
/// reported apart from the printed lines.
pub enum Next {
    Send(Request),
    Exit(bool),
    Abort(String),
}

pub enum NextModel {
    Send(RequestModel),
    Exit(bool),
    Abort(Seq<char>),
}

impl View for Next {
    type V = NextModel;

    open spec fn view(&self) -> NextModel {
        match self {
            Next::Send(req) => NextModel::Send(req@),
            Next::Exit(ok) => NextModel::Exit(*ok),
            Next::Abort(m) => NextModel::Abort(m@),
        }
    }
}

/// Lines to print, then what comes next.
pub struct Step {
    pub print: Vec<String>,
    pub next: Next,
}

pub struct StepModel {
    pub print: Seq<Seq<char>>,
    pub next: NextModel,
}

impl View for Step {
    type V = StepModel;

    open spec fn view(&self) -> StepModel {
        StepModel { print: texts(self.print@), next: self.next@ }
    }
}

/// A file to upload, and the key it goes under, if its path has a file name.
pub struct Upload {
    pub filepath: String,
    pub key: Option<String>,
}

pub struct UploadModel {
    pub filepath: Seq<char>,
    pub key: Option<Seq<char>>,
}

pub open spec fn opt_text(o: Option<String>) -> Option<Seq<char>> {
    match o {
        Some(s) => Some(s@),
        None => None,
    }
}

impl View for Upload {
    type V = UploadModel;

    open spec fn view(&self) -> UploadModel {
        UploadModel { filepath: self.filepath@, key: opt_text(self.key) }
    }
}

pub open spec fn opt_upload(o: Option<Upload>) -> Option<UploadModel> {
    match o {
        Some(u) => Some(u@),
        None => None,
    }
}

/// Where a command stands, and the reply it waits for.
pub enum Session {
    Finished,
    /// Waits for the bucket names, to print them.
    ListingBuckets,
    /// Waits for the bucket names, to check that `bucket` is there.
    CheckingForListing { bucket: String },
    /// Waits for the keys of `bucket`, to print them.
    ListingObjects { bucket: String },
    /// Waits for the bucket names, to check that `bucket` is not there; then
    /// creates it, and uploads to it if `upload` is set.
    CheckingForCreate { bucket: String, region: String, upload: Option<Upload> },
    Creating { bucket: String, region: String, upload: Option<Upload> },
    /// Waits for the bucket names, to learn whether `bucket` must be created.
    CheckingForUpload { bucket: String, upload: Upload },
    FindingRegion { bucket: String, upload: Upload },
    Uploading { bucket: String, key: String },
    CheckingForBucketDelete { bucket: String },
    /// Waits for the keys of `bucket`, to check that it is empty.
    CheckingEmpty { bucket: String },
    DeletingBucket { bucket: String },
    CheckingForObjectDelete { bucket: String, key: String },
    /// Waits for the keys of `bucket`, to check that `key` is there.
    CheckingKey { bucket: String, key: String },
    DeletingObject { bucket: String, key: String },
}

pub enum SessionModel {
    Finished,
    ListingBuckets,
    CheckingForListing { bucket: Seq<char> },
    ListingObjects { bucket: Seq<char> },
    CheckingForCreate { bucket: Seq<char>, region: Seq<char>, upload: Option<UploadModel> },
    Creating { bucket: Seq<char>, region: Seq<char>, upload: Option<UploadModel> },
    CheckingForUpload { bucket: Seq<char>, upload: UploadModel },
    FindingRegion { bucket: Seq<char>, upload: UploadModel },
    Uploading { bucket: Seq<char>, key: Seq<char> },
    CheckingForBucketDelete { bucket: Seq<char> },
    CheckingEmpty { bucket: Seq<char> },
    DeletingBucket { bucket: Seq<char> },
    CheckingForObjectDelete { bucket: Seq<char>, key: Seq<char> },
    CheckingKey { bucket: Seq<char>, key: Seq<char> },
    DeletingObject { bucket: Seq<char>, key: Seq<char> },
}

impl View for Session {
    type V = SessionModel;

    open spec fn view(&self) -> SessionModel {
        match self {
            Session::Finished => SessionModel::Finished,
            Session::ListingBuckets => SessionModel::ListingBuckets,
            Session::CheckingForListing { bucket } => SessionModel::CheckingForListing {
                bucket: bucket@,
            },
            Session::ListingObjects { bucket } => SessionModel::ListingObjects { bucket: bucket@ },
            Session::CheckingForCreate { bucket, region, upload } =>
                SessionModel::CheckingForCreate {
                    bucket: bucket@,
                    region: region@,
                    upload: opt_upload(*upload),
                },
            Session::Creating { bucket, region, upload } => SessionModel::Creating {
                bucket: bucket@,
                region: region@,
                upload: opt_upload(*upload),
            },
            Session::CheckingForUpload { bucket, upload } => SessionModel::CheckingForUpload {
                bucket: bucket@,
                upload: upload@,
            },
            Session::FindingRegion { bucket, upload } => SessionModel::FindingRegion {
                bucket: bucket@,
                upload: upload@,
            },
            Session::Uploading { bucket, key } => SessionModel::Uploading {
                bucket: bucket@,
                key: key@,
            },
            Session::CheckingForBucketDelete { bucket } => SessionModel::CheckingForBucketDelete {
                bucket: bucket@,
            },
            Session::CheckingEmpty { bucket } => SessionModel::CheckingEmpty { bucket: bucket@ },
            Session::DeletingBucket { bucket } => SessionModel::DeletingBucket { bucket: bucket@ },
            Session::CheckingForObjectDelete { bucket, key } =>
                SessionModel::CheckingForObjectDelete { bucket: bucket@, key: key@ },
            Session::CheckingKey { bucket, key } => SessionModel::CheckingKey {
                bucket: bucket@,
                key: key@,
            },
            Session::DeletingObject { bucket, key } => SessionModel::DeletingObject {
                bucket: bucket@,
                key: key@,
            },
        }
    }
}

/// Stay at `s` and send `req`, printing nothing.
pub open spec fn ask(s: SessionModel, req: RequestModel) -> (SessionModel, StepModel) {
    (s, StepModel { print: seq![], next: NextModel::Send(req) })
}

/// Print `print` and end, successfully or not.
pub open spec fn end(print: Seq<Seq<char>>, ok: bool) -> (SessionModel, StepModel) {
    (SessionModel::Finished, StepModel { print, next: NextModel::Exit(ok) })
}

/// Every command begins by listing the buckets.
pub open spec fn begin(s: SessionModel) -> (SessionModel, StepModel) {
    ask(s, RequestModel::ListBuckets)
}

/// Print nothing and end on the service's error `m`.
pub open spec fn abort(m: Seq<char>) -> (SessionModel, StepModel) {
    (SessionModel::Finished, StepModel { print: seq![], next: NextModel::Abort(m) })
}

pub open spec fn unexpected() -> (SessionModel, StepModel) {
    end(seq![unexpected_reply_text()], false)
}

/// After printing `print`, upload the file under its key, or fail if its path
/// has no file name.
pub open spec fn put(print: Seq<Seq<char>>, bucket: Seq<char>, u: UploadModel) -> (
    SessionModel,
    StepModel,
) {
    match u.key {
        Some(key) => (
            SessionModel::Uploading { bucket, key },
            StepModel {
                print,
                next: NextModel::Send(RequestModel::PutObject { bucket, key, filepath: u.filepath }),
            },
        ),
        None => end(print.push(no_file_name_text(u.filepath)), false),
    }
}

/// The decision that a session takes on a reply.
pub open spec fn next(s: SessionModel, r: ReplyModel) -> (SessionModel, StepModel) {
    match (s, r) {
        (SessionModel::Finished, _) => unexpected(),
        (SessionModel::Uploading { bucket, key }, ReplyModel::Done) => end(
            seq![uploaded_text(key, bucket)],
            true,
        ),
        (SessionModel::Uploading { .. }, ReplyModel::Unreadable(m)) => end(
            seq![upload_error_text(), m],
            false,
        ),
        (_, ReplyModel::Failed(m)) => abort(m),
        (SessionModel::ListingBuckets, ReplyModel::Buckets(names)) => end(
            seq![found_buckets_text(names.len()), seq![]] + names,
            true,
        ),
        (SessionModel::CheckingForListing { bucket }, ReplyModel::Buckets(names)) => if names.contains(
            bucket,
        ) {
            ask(SessionModel::ListingObjects { bucket }, RequestModel::ListObjects { bucket })
        } else {
            end(seq![bucket_missing_text(bucket)], false)
        },
        (SessionModel::ListingObjects { bucket }, ReplyModel::Objects(keys)) => end(
            seq![found_objects_text(keys.len(), bucket)] + keys,
            true,
        ),
        (
            SessionModel::CheckingForCreate { bucket, region, upload },
            ReplyModel::Buckets(names),
        ) => if names.contains(bucket) {
            end(seq![bucket_already_exists_text(bucket)], false)
        } else {
            ask(
                SessionModel::Creating { bucket, region, upload },
                RequestModel::CreateBucket { bucket, region },
            )
        },
        (SessionModel::Creating { bucket, region, upload }, ReplyModel::Done) => match upload {
            Some(u) => put(seq![bucket_created_text(bucket, region)], bucket, u),
            None => end(seq![bucket_created_text(bucket, region)], true),
        },
        (SessionModel::CheckingForUpload { bucket, upload }, ReplyModel::Buckets(names)) => if names.contains(
            bucket,
        ) {
            put(seq![], bucket, upload)
        } else {
            ask(SessionModel::FindingRegion { bucket, upload }, RequestModel::BucketRegion)
        },
        (SessionModel::FindingRegion { bucket, upload }, ReplyModel::Region(region)) => begin(
            SessionModel::CheckingForCreate { bucket, region, upload: Some(upload) },
        ),
        (SessionModel::CheckingForBucketDelete { bucket }, ReplyModel::Buckets(names)) => if names.contains(
            bucket,
        ) {
            ask(SessionModel::CheckingEmpty { bucket }, RequestModel::ListObjects { bucket })
        } else {
            end(seq![bucket_missing_text(bucket)], false)
        },
        (SessionModel::CheckingEmpty { bucket }, ReplyModel::Objects(keys)) => if keys.len() == 0 {
            ask(SessionModel::DeletingBucket { bucket }, RequestModel::DeleteBucket { bucket })
        } else {
            end(seq![bucket_not_empty_text(bucket)], false)
        },
        (SessionModel::DeletingBucket { bucket }, ReplyModel::Done) => end(
            seq![bucket_deleted_text(bucket)],
            true,
        ),
        (SessionModel::CheckingForObjectDelete { bucket, key }, ReplyModel::Buckets(names)) => if names.contains(
            bucket,
        ) {
            ask(SessionModel::CheckingKey { bucket, key }, RequestModel::ListObjects { bucket })
        } else {
            end(seq![bucket_missing_text(bucket)], false)
        },
        (SessionModel::CheckingKey { bucket, key }, ReplyModel::Objects(keys)) => if keys.contains(
            key,
        ) {
            ask(
                SessionModel::DeletingObject { bucket, key },
                RequestModel::DeleteObject { bucket, key },
            )
        } else {
            end(seq![key_missing_text(key, bucket)], false)
        },
        (SessionModel::DeletingObject { bucket, key }, ReplyModel::Done) => end(
            seq![object_deleted_text(key, bucket)],
            true,
        ),
        _ => unexpected(),
    }
}

fn ask_for(s: Session, req: Request) -> (r: (Session, Step))
    ensures
        (r.0@, r.1@) == ask(s@, req@),
{
    let step = Step { print: Vec::new(), next: Next::Send(req) };
    assert(texts(step.print@) =~= seq![]);
    (s, step)
}

fn end_with(print: Vec<String>, ok: bool) -> (r: (Session, Step))
    ensures
        (r.0@, r.1@) == end(texts(print@), ok),
{
    (Session::Finished, Step { print, next: Next::Exit(ok) })
}

fn one(a: String) -> (r: Vec<String>)
    ensures
        texts(r@) == seq![a@],
{
    let mut v: Vec<String> = Vec::new();
    v.push(a);
    assert(texts(v@) =~= seq![a@]);
    v
}

fn two(a: String, b: String) -> (r: Vec<String>)
    ensures
        texts(r@) == seq![a@, b@],
{
    let mut v: Vec<String> = Vec::new();
    v.push(a);
    v.push(b);
    assert(texts(v@) =~= seq![a@, b@]);
    v
}

/// `head` followed by copies of `rest`.
fn followed_by(head: Vec<String>, rest: &Vec<String>) -> (r: Vec<String>)
    ensures
        texts(r@) == texts(head@) + texts(rest@),
{
    let mut r = head;
    let mut i: usize = 0;
    while i < rest.len()
        invariant
            i <= rest.len(),
            texts(r@) =~= texts(head@) + texts(rest@).take(i as int),
        decreases rest.len() - i,
    {
        let ghost before = r@;
        r.push(rest[i].clone());
        assert(texts(r@) =~= texts(before).push(rest@[i as int]@));
        assert(texts(rest@).take(i + 1) =~= texts(rest@).take(i as int).push(rest@[i as int]@));
        i = i + 1;
    }
    assert(texts(rest@).take(rest.len() as int) =~= texts(rest@));
    r
}

fn abort_with(m: String) -> (r: (Session, Step))
    ensures
        (r.0@, r.1@) == abort(m@),
{
    let step = Step { print: Vec::new(), next: Next::Abort(m) };
    assert(texts(step.print@) =~= seq![]);
    (Session::Finished, step)
}

fn unexpected_reply() -> (r: (Session, Step))
    ensures
        (r.0@, r.1@) == unexpected(),
{
    end_with(one(unexpected_reply_line()), false)
}

fn put_file(print: Vec<String>, bucket: String, u: Upload) -> (r: (Session, Step))
    ensures
        (r.0@, r.1@) == put(texts(print@), bucket@, u@),
{
    match u.key {
        Some(key) => {
            let req = Request::PutObject {
                bucket: bucket.clone(),
                key: key.clone(),
                filepath: u.filepath,
            };
            (Session::Uploading { bucket, key }, Step { print, next: Next::Send(req) })
        },
        None => {
            let mut lines = print;
            lines.push(no_file_name_line(u.filepath.as_str()));
            assert(texts(lines@) =~= texts(print@).push(no_file_name_text(u.filepath@)));
            end_with(lines, false)
        },
    }
}

impl Session {
    /// Takes the decision on `reply`: the session that follows, what to print,
    /// and whether to send another request or to end.
    pub fn step(self, reply: Reply) -> (r: (Session, Step))
        ensures
            (r.0@, r.1@) == next(self@, reply@),
    {
        match self {
            Session::Finished => unexpected_reply(),
            Session::ListingBuckets => match reply {
                Reply::Buckets(names) => {
                    let head = two(found_buckets_line(names.len()), String::new());
                    end_with(followed_by(head, &names), true)
                },
                Reply::Failed(m) => abort_with(m),
                _ => unexpected_reply(),
            },
            Session::CheckingForListing { bucket } => match reply {
                Reply::Buckets(names) => {
                    if bucket_exists(&names, bucket.as_str()) {
                        let req = Request::ListObjects { bucket: bucket.clone() };
                        ask_for(Session::ListingObjects { bucket }, req)
                    } else {
                        end_with(one(bucket_missing_line(bucket.as_str())), false)
                    }
                },
                Reply::Failed(m) => abort_with(m),
                _ => unexpected_reply(),
            },
            Session::ListingObjects { bucket } => match reply {
                Reply::Objects(keys) => {
                    let head = one(found_objects_line(keys.len(), bucket.as_str()));
                    end_with(followed_by(head, &keys), true)
                },
                Reply::Failed(m) => abort_with(m),
                _ => unexpected_reply(),
            },
            Session::CheckingForCreate { bucket, region, upload } => match reply {
                Reply::Buckets(names) => {
                    if bucket_exists(&names, bucket.as_str()) {
                        end_with(one(bucket_already_exists_line(bucket.as_str())), false)
                    } else {
                        let req = Request::CreateBucket {
                            bucket: bucket.clone(),
                            region: region.clone(),
                        };
                        ask_for(Session::Creating { bucket, region, upload }, req)
                    }
                },
                Reply::Failed(m) => abort_with(m),
                _ => unexpected_reply(),
            },
            Session::Creating { bucket, region, upload } => match reply {
                Reply::Done => {
                    let print = one(bucket_created_line(bucket.as_str(), region.as_str()));
                    match upload {
                        Some(u) => put_file(print, bucket, u),
                        None => end_with(print, true),
                    }
                },
                Reply::Failed(m) => abort_with(m),
                _ => unexpected_reply(),
            },
            Session::CheckingForUpload { bucket, upload } => match reply {
                Reply::Buckets(names) => {
                    if bucket_exists(&names, bucket.as_str()) {
                        let print: Vec<String> = Vec::new();
                        assert(texts(print@) =~= seq![]);
                        put_file(print, bucket, upload)
                    } else {
                        ask_for(Session::FindingRegion { bucket, upload }, Request::BucketRegion)
                    }
                },
                Reply::Failed(m) => abort_with(m),
                _ => unexpected_reply(),
            },
            Session::FindingRegion { bucket, upload } => match reply {
                Reply::Region(region) => ask_for(
                    Session::CheckingForCreate { bucket, region, upload: Some(upload) },
                    Request::ListBuckets,
                ),
                Reply::Failed(m) => abort_with(m),
                _ => unexpected_reply(),
            },
            Session::Uploading { bucket, key } => match reply {
                Reply::Done => end_with(one(uploaded_line(key.as_str(), bucket.as_str())), true),
                Reply::Failed(m) => abort_with(m),
                Reply::Unreadable(m) => end_with(two(upload_error_line(), m), false),
                _ => unexpected_reply(),
            },
            Session::CheckingForBucketDelete { bucket } => match reply {
                Reply::Buckets(names) => {
                    if bucket_exists(&names, bucket.as_str()) {
                        let req = Request::ListObjects { bucket: bucket.clone() };
                        ask_for(Session::CheckingEmpty { bucket }, req)
                    } else {
                        end_with(one(bucket_missing_line(bucket.as_str())), false)
                    }
                },
                Reply::Failed(m) => abort_with(m),
                _ => unexpected_reply(),
            },
            Session::CheckingEmpty { bucket } => match reply {
                Reply::Objects(keys) => {
                    if keys.len() == 0 {
                        let req = Request::DeleteBucket { bucket: bucket.clone() };
                        ask_for(Session::DeletingBucket { bucket }, req)
                    } else {
                        end_with(one(bucket_not_empty_line(bucket.as_str())), false)
                    }
                },
                Reply::Failed(m) => abort_with(m),
                _ => unexpected_reply(),
            },
            Session::DeletingBucket { bucket } => match reply {
                Reply::Done => end_with(one(bucket_deleted_line(bucket.as_str())), true),
                Reply::Failed(m) => abort_with(m),
                _ => unexpected_reply(),
            },
            Session::CheckingForObjectDelete { bucket, key } => match reply {
                Reply::Buckets(names) => {
                    if bucket_exists(&names, bucket.as_str()) {
                        let req = Request::ListObjects { bucket: bucket.clone() };
                        ask_for(Session::CheckingKey { bucket, key }, req)
                    } else {
                        end_with(one(bucket_missing_line(bucket.as_str())), false)
                    }
                },
                Reply::Failed(m) => abort_with(m),
                _ => unexpected_reply(),
            },
            Session::CheckingKey { bucket, key } => match reply {
                Reply::Objects(keys) => {
                    if contains_text(&keys, key.as_str()) {
                        let req = Request::DeleteObject { bucket: bucket.clone(), key: key.clone() };
                        ask_for(Session::DeletingObject { bucket, key }, req)
                    } else {
                        end_with(one(key_missing_line(key.as_str(), bucket.as_str())), false)
                    }
                },
                Reply::Failed(m) => abort_with(m),
                _ => unexpected_reply(),
            },
            Session::DeletingObject { bucket, key } => match reply {
                Reply::Done => end_with(
                    one(object_deleted_line(key.as_str(), bucket.as_str())),
                    true,
                ),
                Reply::Failed(m) => abort_with(m),
                _ => unexpected_reply(),
            },
        }
    }
}

} // verus!
