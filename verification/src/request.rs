//! The five operations of a run, what they act on, and the request that each
//! one sends.

use vstd::prelude::*;

verus! {

/// The name of a bucket. Nothing is checked of it here: the backend decides
/// whether the name is acceptable and whether the bucket exists.
#[derive(Debug, PartialEq, Eq)]
pub struct BucketRef {
    pub name: String,
}

impl View for BucketRef {
    type V = Seq<char>;

    open spec fn view(&self) -> Seq<char> {
        self.name@
    }
}

/// A stored object: the bucket that holds it, and its key in that bucket.
#[derive(Debug, PartialEq, Eq)]
pub struct ObjectRef {
    pub bucket: String,
    pub key: String,
}

impl View for ObjectRef {
    type V = (Seq<char>, Seq<char>);

    open spec fn view(&self) -> (Seq<char>, Seq<char>) {
        (self.bucket@, self.key@)
    }
}

/// What a run acts on: one bucket, one object in it, the local file that is
/// uploaded and the local file that receives the download.
#[derive(Debug, PartialEq, Eq)]
pub struct Targets {
    pub bucket: String,
    pub source_path: String,
    pub key: String,
    pub output_path: String,
}

/// The mathematical content of [`Targets`].
pub struct TargetsModel {
    pub bucket: Seq<char>,
    pub source_path: Seq<char>,
    pub key: Seq<char>,
    pub output_path: Seq<char>,
}

impl View for Targets {
    type V = TargetsModel;

    open spec fn view(&self) -> TargetsModel {
        TargetsModel {
            bucket: self.bucket@,
            source_path: self.source_path@,
            key: self.key@,
            output_path: self.output_path@,
        }
    }
}

impl TargetsModel {
    /// The targets of the stock run.
    pub open spec fn stock() -> TargetsModel {
        TargetsModel {
            bucket: "test-bucket"@,
            source_path: "Cargo.toml"@,
            key: "test/test2"@,
            output_path: "./dump.txt"@,
        }
    }
}

impl Default for Targets {
    /// The targets of the stock run: the bucket `test-bucket`, the object
    /// `test/test2`, read from `Cargo.toml` and written back to `./dump.txt`.
    fn default() -> (targets: Targets)
        ensures
            targets@ == TargetsModel::stock(),
    {
        Targets {
            bucket: String::from_str("test-bucket"),
            source_path: String::from_str("Cargo.toml"),
            key: String::from_str("test/test2"),
            output_path: String::from_str("./dump.txt"),
        }
    }
}

/// How many operations a run has.
pub const STEPS: usize = 5;

/// One operation of a run.
#[derive(Debug, Clone, Copy, PartialEq, Eq, Structural)]
pub enum Step {
    ListBuckets,
    DeleteBucket,
    CreateBucket,
    Upload,
    Download,
}

/// The operation at a place in the run, counted from 0: list, delete,
/// create, upload, download. There is none from place 5 on.
pub open spec fn step_at(position: int) -> Option<Step> {
    if position == 0 {
        Some(Step::ListBuckets)
    } else if position == 1 {
        Some(Step::DeleteBucket)
    } else if position == 2 {
        Some(Step::CreateBucket)
    } else if position == 3 {
        Some(Step::Upload)
    } else if position == 4 {
        Some(Step::Download)
    } else {
        None
    }
}

impl Step {
    /// The place of the operation in the run, counted from 0.
    pub open spec fn spec_position(self) -> int {
        match self {
            Step::ListBuckets => 0,
            Step::DeleteBucket => 1,
            Step::CreateBucket => 2,
            Step::Upload => 3,
            Step::Download => 4,
        }
    }

    /// The operation that follows, if any.
    pub open spec fn spec_next(self) -> Option<Step> {
        step_at(self.spec_position() + 1)
    }

    /// The request that the operation sends for the given targets.
    pub open spec fn spec_request(self, targets: TargetsModel) -> RequestModel {
        match self {
            Step::ListBuckets => RequestModel::ListBuckets,
            Step::DeleteBucket => RequestModel::DeleteBucket(targets.bucket),
            Step::CreateBucket => RequestModel::CreateBucket(targets.bucket),
            Step::Upload => RequestModel::Upload {
                source_path: targets.source_path,
                object: (targets.bucket, targets.key),
            },
            Step::Download => RequestModel::Download {
                object: (targets.bucket, targets.key),
                output_path: targets.output_path,
            },
        }
    }

    /// The operation at a place in the run, counted from 0.
    pub fn at(position: usize) -> (step: Option<Step>)
        ensures
            step == step_at(position as int),
    {
        if position == 0 {
            Some(Step::ListBuckets)
        } else if position == 1 {
            Some(Step::DeleteBucket)
        } else if position == 2 {
            Some(Step::CreateBucket)
        } else if position == 3 {
            Some(Step::Upload)
        } else if position == 4 {
            Some(Step::Download)
        } else {
            None
        }
    }

    /// The place of the operation in the run, counted from 0.
    pub fn position(self) -> (place: usize)
        ensures
            place == self.spec_position(),
            place < STEPS,
            step_at(place as int) == Some(self),
    {
        match self {
            Step::ListBuckets => 0,
            Step::DeleteBucket => 1,
            Step::CreateBucket => 2,
            Step::Upload => 3,
            Step::Download => 4,
        }
    }

    /// Builds the request that the operation sends for the given targets.
    pub(crate) fn request(self, targets: &Targets) -> (request: Request)
        ensures
            request@ == self.spec_request(targets@),
    {
        match self {
            Step::ListBuckets => Request::ListBuckets,
            Step::DeleteBucket => Request::DeleteBucket(BucketRef { name: targets.bucket.clone() }),
            Step::CreateBucket => Request::CreateBucket(BucketRef { name: targets.bucket.clone() }),
            Step::Upload => Request::Upload {
                source_path: targets.source_path.clone(),
                object: ObjectRef { bucket: targets.bucket.clone(), key: targets.key.clone() },
            },
            Step::Download => Request::Download {
                object: ObjectRef { bucket: targets.bucket.clone(), key: targets.key.clone() },
                output_path: targets.output_path.clone(),
            },
        }
    }
}

/// What is asked of the backend, with everything the call needs.
#[derive(Debug, PartialEq, Eq)]
pub enum Request {
    /// List the buckets that the credentials can see.
    ListBuckets,
    /// Delete the bucket.
    DeleteBucket(BucketRef),
    /// Create the bucket.
    CreateBucket(BucketRef),
    /// Store the whole content of the local file at `source_path` as `object`.
    Upload { source_path: String, object: ObjectRef },
    /// Fetch `object` and write its body to the local file at `output_path`.
    Download { object: ObjectRef, output_path: String },
}

/// The mathematical content of a [`Request`].
pub enum RequestModel {
    ListBuckets,
    DeleteBucket(Seq<char>),
    CreateBucket(Seq<char>),
    Upload { source_path: Seq<char>, object: (Seq<char>, Seq<char>) },
    Download { object: (Seq<char>, Seq<char>), output_path: Seq<char> },
}

impl View for Request {
    type V = RequestModel;

    open spec fn view(&self) -> RequestModel {
        match self {
            Request::ListBuckets => RequestModel::ListBuckets,
            Request::DeleteBucket(bucket) => RequestModel::DeleteBucket(bucket@),
            Request::CreateBucket(bucket) => RequestModel::CreateBucket(bucket@),
            Request::Upload { source_path, object } => RequestModel::Upload {
                source_path: source_path@,
                object: object@,
            },
            Request::Download { object, output_path } => RequestModel::Download {
                object: object@,
                output_path: output_path@,
            },
        }
    }
}

} // verus!
