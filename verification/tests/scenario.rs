use s3_runner::body::Drain;
use s3_runner::config::{Environment, Lookup, Variable};
use s3_runner::outcome::TransferResult;
use s3_runner::request::{Request, Step, Targets};
use s3_runner::runner::prepare;

/// A backend and a file system that live in memory.
struct World {
    buckets: Vec<String>,
    objects: Vec<(String, String, Vec<u8>)>,
    files: Vec<(String, Vec<u8>)>,
    chunk_size: usize,
    calls: usize,
}

fn fresh_world(chunk_size: usize) -> World {
    World {
        buckets: Vec::new(),
        objects: Vec::new(),
        files: vec![("Cargo.toml".to_string(), b"[package]\nname = \"demo\"\n".to_vec())],
        chunk_size,
        calls: 0,
    }
}

fn file<'a>(world: &'a World, path: &str) -> Option<&'a Vec<u8>> {
    world.files.iter().find(|(name, _)| name == path).map(|(_, bytes)| bytes)
}

fn perform(world: &mut World, request: Request) -> TransferResult {
    world.calls += 1;
    match request {
        Request::ListBuckets => {
            let entries: Vec<Option<String>> = world.buckets.iter().cloned().map(Some).collect();
            TransferResult::listing(&entries)
        }
        Request::DeleteBucket(bucket) => {
            match world.buckets.iter().position(|name| *name == bucket.name) {
                Some(at) => {
                    world.buckets.remove(at);
                    TransferResult::Acknowledged("deleted".to_string())
                }
                None => TransferResult::Failed("NoSuchBucket".to_string()),
            }
        }
        Request::CreateBucket(bucket) => {
            world.buckets.push(bucket.name);
            TransferResult::Acknowledged("created".to_string())
        }
        Request::Upload { source_path, object } => {
            let bytes = match file(world, &source_path) {
                Some(bytes) => bytes.clone(),
                None => return TransferResult::Failed("no such file".to_string()),
            };
            if !world.buckets.contains(&object.bucket) {
                return TransferResult::Failed("NoSuchBucket".to_string());
            }
            world.objects.push((object.bucket, object.key, bytes));
            TransferResult::Acknowledged("stored".to_string())
        }
        Request::Download { object, output_path } => {
            let stored = world
                .objects
                .iter()
                .find(|(bucket, key, _)| *bucket == object.bucket && *key == object.key)
                .map(|(_, _, bytes)| bytes.clone());
            let mut drain = Drain::new();
            match stored {
                None => drain.fail("NoSuchKey".to_string()),
                Some(bytes) => {
                    let mut sink = Vec::new();
                    for chunk in bytes.chunks(world.chunk_size) {
                        if let Some(write) = drain.accept(chunk) {
                            sink.extend_from_slice(write);
                        }
                    }
                    drain.close();
                    world.files.push((output_path, sink));
                }
            }
            drain.conclude("fetched".to_string()).unwrap()
        }
    }
}

fn credentials() -> Environment {
    let mut env = Environment::unset();
    env.set(Variable::AccessKeyId, Lookup::Text("AKIAEXAMPLE".to_string()));
    env.set(Variable::SecretAccessKey, Lookup::Text("s3cr3t".to_string()));
    env.set(Variable::EndpointUrl, Lookup::Text("http://localhost:9000".to_string()));
    env
}

fn run_once(world: &mut World) -> Vec<String> {
    let mut run = prepare(&credentials(), Targets::default()).ok().unwrap();
    let mut lines = Vec::new();
    while let Some(request) = run.request() {
        let result = perform(world, request);
        lines.push(run.complete(&result).unwrap());
    }
    assert_eq!(run.exit_code(), 0);
    lines
}

#[test]
fn a_run_against_a_fresh_backend() {
    let mut world = fresh_world(5);
    let lines = run_once(&mut world);
    assert_eq!(
        lines,
        vec![
            "Buckets: []".to_string(),
            "Error: NoSuchBucket".to_string(),
            "Bucket: created".to_string(),
            "Upload: stored".to_string(),
            "Download: fetched".to_string(),
        ]
    );
    assert_eq!(world.calls, 5);
    assert_eq!(world.buckets, vec!["test-bucket".to_string()]);
    assert_eq!(file(&world, "./dump.txt"), file(&world, "Cargo.toml"));
    assert_eq!(file(&world, "./dump.txt").unwrap(), &b"[package]\nname = \"demo\"\n".to_vec());
}

#[test]
fn the_download_is_the_same_for_every_chunk_size() {
    for chunk_size in [1usize, 2, 3, 8, 24, 25, 1024] {
        let mut world = fresh_world(chunk_size);
        run_once(&mut world);
        assert_eq!(file(&world, "./dump.txt"), file(&world, "Cargo.toml"));
    }
}

#[test]
fn a_second_run_finds_the_bucket_of_the_first() {
    let mut world = fresh_world(4);
    run_once(&mut world);
    let lines = run_once(&mut world);
    assert_eq!(lines[0], "Buckets: [test-bucket]");
    assert_eq!(lines[1], "Bucket: deleted");
    assert_eq!(lines[2], "Bucket: created");
}

#[test]
fn a_missing_source_file_fails_the_upload_and_the_download_only() {
    let mut world = fresh_world(4);
    world.files.clear();
    let lines = run_once(&mut world);
    assert_eq!(
        lines,
        vec![
            "Buckets: []".to_string(),
            "Error: NoSuchBucket".to_string(),
            "Bucket: created".to_string(),
            "Error: no such file".to_string(),
            "Error: NoSuchKey".to_string(),
        ]
    );
    assert_eq!(world.calls, 5);
    assert_eq!(file(&world, "./dump.txt"), None);
}

#[test]
fn without_credentials_nothing_is_sent() {
    let mut world = fresh_world(4);
    let mut env = credentials();
    env.set(Variable::AccessKeyId, Lookup::Unset);
    match prepare(&env, Targets::default()) {
        Ok(mut run) => {
            while let Some(request) = run.request() {
                let result = perform(&mut world, request);
                run.complete(&result);
            }
        }
        Err(fault) => assert_eq!(fault.message(), "AWS_ACCESS_KEY_ID must be set"),
    }
    assert_eq!(world.calls, 0);
    assert_eq!(Step::at(world.calls), Some(Step::ListBuckets));
}
