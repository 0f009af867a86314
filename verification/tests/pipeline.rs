//! End-to-end runs of the download state machine against a simulated disk
//! and network.

use std::collections::HashMap;

use modrinth_downloader::download::{
    run_verdict, Action, Decision, DownloadTask, Downloader, Event, LocalFile, Outcome, TaskState,
};
use modrinth_downloader::hash::hash_bytes;
use modrinth_downloader::registry::{Error, Hashes, ModFile, Version};

struct FakeWorld {
    title: Result<String, Error>,
    versions: Result<Vec<Version>, Error>,
    disk: HashMap<String, Vec<u8>>,
    net: HashMap<String, Vec<u8>>,
}

fn mk_file(url: &str, filename: &str, sha512: &str, primary: bool) -> ModFile {
    ModFile {
        hashes: Hashes {
            sha512: sha512.to_string(),
        },
        url: url.to_string(),
        filename: filename.to_string(),
        primary,
    }
}

fn mk_version(name: &str, files: Vec<ModFile>) -> Version {
    Version {
        name: name.to_string(),
        files,
    }
}

/// Drives one identifier's task to completion, performing the requested
/// actions against the fake world.
fn run(d: &Downloader, world: &mut FakeWorld, mod_id: &str) -> DownloadTask {
    let (mut task, mut action) = d.begin(mod_id.to_string());
    loop {
        let event = match action {
            Action::ResolveTitle => Event::TitleResolved {
                result: world.title.clone(),
            },
            Action::ListVersions { .. } => Event::VersionsListed {
                result: match &world.versions {
                    Ok(v) => Ok(v.iter().map(|x| x.clone()).collect()),
                    Err(e) => Err(e.clone()),
                },
            },
            Action::ProbeLocal { path } => Event::LocalProbed {
                result: Ok(match world.disk.get(&path) {
                    None => LocalFile::Absent,
                    Some(bytes) => LocalFile::Present {
                        hash: hash_bytes(bytes),
                    },
                }),
            },
            Action::DeleteLocal { path } => {
                world.disk.remove(&path);
                Event::StaleDeleted { result: Ok(()) }
            }
            Action::Fetch { url, path } => match world.net.get(&url) {
                Some(bytes) => {
                    world.disk.insert(path, bytes.clone());
                    Event::FileFetched { result: Ok(()) }
                }
                None => Event::FileFetched {
                    result: Err(Error::Transport),
                },
            },
            Action::HashWritten { path } => Event::WrittenHashed {
                result: Ok(hash_bytes(world.disk.get(&path).expect("written file"))),
            },
            Action::Report => break,
        };
        action = d.step(&mut task, event);
    }
    task
}

fn downloader() -> Downloader {
    Downloader::new(
        "/mods".to_string(),
        "1.20.1".to_string(),
        "fabric".to_string(),
    )
}

fn world_with(bytes: &[u8], url: &str) -> FakeWorld {
    let declared = hash_bytes(bytes);
    FakeWorld {
        title: Ok("Sodium".to_string()),
        versions: Ok(vec![mk_version(
            "sodium-1.0",
            vec![mk_file(url, "sodium-1.0.jar", &declared, true)],
        )]),
        disk: HashMap::new(),
        net: HashMap::from([(url.to_string(), bytes.to_vec())]),
    }
}

#[test]
fn fresh_download_writes_and_verifies() {
    let d = downloader();
    let mut world = world_with(b"new mod bytes", "https://cdn.example/sodium.jar");
    let task = run(&d, &mut world, "sodium");
    assert!(matches!(
        task.state,
        TaskState::Finished {
            outcome: Outcome::Downloaded
        }
    ));
    assert_eq!(
        world.disk.get("/mods/sodium.jar").map(|b| b.as_slice()),
        Some(b"new mod bytes".as_slice())
    );
}

#[test]
fn second_run_skips_and_leaves_file_untouched() {
    let d = downloader();
    let mut world = world_with(b"new mod bytes", "https://cdn.example/sodium.jar");
    let first = run(&d, &mut world, "sodium");
    assert!(matches!(
        first.state,
        TaskState::Finished {
            outcome: Outcome::Downloaded
        }
    ));
    let bytes_after_first = world.disk.get("/mods/sodium.jar").unwrap().clone();
    let hash_after_first = hash_bytes(&bytes_after_first);

    let second = run(&d, &mut world, "sodium");
    assert!(matches!(
        second.state,
        TaskState::Finished {
            outcome: Outcome::Skipped
        }
    ));
    let bytes_after_second = world.disk.get("/mods/sodium.jar").unwrap();
    assert_eq!(*bytes_after_second, bytes_after_first);
    assert_eq!(hash_bytes(bytes_after_second), hash_after_first);
}

#[test]
fn stale_file_is_deleted_and_replaced() {
    let d = downloader();
    let mut world = world_with(b"version two", "https://cdn.example/sodium.jar");
    world
        .disk
        .insert("/mods/sodium.jar".to_string(), b"version one".to_vec());

    let task = run(&d, &mut world, "sodium");
    assert!(matches!(
        task.state,
        TaskState::Finished {
            outcome: Outcome::Downloaded
        }
    ));
    let written = world.disk.get("/mods/sodium.jar").unwrap();
    assert_eq!(*written, b"version two".to_vec());
    assert_eq!(hash_bytes(written), hash_bytes(b"version two"));
    assert_eq!(world.disk.len(), 1);
}

#[test]
fn empty_version_list_fails_without_download() {
    let d = downloader();
    let mut world = world_with(b"bytes", "https://cdn.example/sodium.jar");
    world.versions = Ok(vec![]);
    let task = run(&d, &mut world, "sodium");
    match task.state {
        TaskState::Finished {
            outcome: Outcome::Failed { error },
        } => match error {
            Error::NoMatchingVersion { title } => assert_eq!(title, "Sodium"),
            other => panic!("expected NoMatchingVersion, got {:?}", other),
        },
        other => panic!("expected failure, got {:?}", other),
    }
    assert!(world.disk.is_empty());
}

#[test]
fn corrupted_write_is_a_fatal_integrity_violation() {
    let d = downloader();
    let mut world = world_with(b"intended bytes", "https://cdn.example/sodium.jar");
    // the network delivers different bytes than the version declares
    world.net.insert(
        "https://cdn.example/sodium.jar".to_string(),
        b"tampered bytes".to_vec(),
    );
    let task = run(&d, &mut world, "sodium");
    match task.state {
        TaskState::Finished {
            outcome: Outcome::Failed { error },
        } => {
            assert!(matches!(error, Error::IntegrityViolation));
            assert!(error.is_fatal());
        }
        other => panic!("expected integrity failure, got {:?}", other),
    }
}

#[test]
fn one_failing_identifier_leaves_siblings_unaffected() {
    let d = downloader();

    let mut good = world_with(b"alpha bytes", "https://cdn.example/alpha.jar");
    let mut missing = world_with(b"beta bytes", "https://cdn.example/beta.jar");
    missing.title = Err(Error::NotFound);
    let mut current = world_with(b"gamma bytes", "https://cdn.example/gamma.jar");
    current
        .disk
        .insert("/mods/gamma.jar".to_string(), b"gamma bytes".to_vec());

    let good_task = run(&d, &mut good, "alpha");
    let missing_task = run(&d, &mut missing, "beta");
    let current_task = run(&d, &mut current, "gamma");

    assert!(matches!(
        good_task.state,
        TaskState::Finished {
            outcome: Outcome::Downloaded
        }
    ));
    assert!(matches!(
        missing_task.state,
        TaskState::Finished {
            outcome: Outcome::Failed {
                error: Error::NotFound
            }
        }
    ));
    assert!(matches!(
        current_task.state,
        TaskState::Finished {
            outcome: Outcome::Skipped
        }
    ));
}

#[test]
fn primary_file_is_fetched_regardless_of_position() {
    let d = downloader();
    let primary_bytes = b"primary artifact";
    let declared = hash_bytes(primary_bytes);
    let mut world = FakeWorld {
        title: Ok("Lithium".to_string()),
        versions: Ok(vec![mk_version(
            "lithium-1.0",
            vec![
                mk_file("https://cdn.example/extra.jar", "extra.jar", "ffff", false),
                mk_file(
                    "https://cdn.example/lithium.jar",
                    "lithium.jar",
                    &declared,
                    true,
                ),
            ],
        )]),
        disk: HashMap::new(),
        net: HashMap::from([(
            "https://cdn.example/lithium.jar".to_string(),
            primary_bytes.to_vec(),
        )]),
    };
    let task = run(&d, &mut world, "lithium");
    assert!(matches!(
        task.state,
        TaskState::Finished {
            outcome: Outcome::Downloaded
        }
    ));
    assert_eq!(
        *world.disk.get("/mods/lithium.jar").unwrap(),
        primary_bytes.to_vec()
    );
}

#[test]
fn without_primary_flag_the_first_file_is_fetched() {
    let d = downloader();
    let first_bytes = b"first artifact";
    let declared = hash_bytes(first_bytes);
    let mut world = FakeWorld {
        title: Ok("Lithium".to_string()),
        versions: Ok(vec![mk_version(
            "lithium-1.0",
            vec![
                mk_file(
                    "https://cdn.example/first.jar",
                    "first.jar",
                    &declared,
                    false,
                ),
                mk_file("https://cdn.example/second.jar", "second.jar", "ffff", false),
            ],
        )]),
        disk: HashMap::new(),
        net: HashMap::from([(
            "https://cdn.example/first.jar".to_string(),
            first_bytes.to_vec(),
        )]),
    };
    let task = run(&d, &mut world, "lithium");
    assert!(matches!(
        task.state,
        TaskState::Finished {
            outcome: Outcome::Downloaded
        }
    ));
    assert_eq!(
        *world.disk.get("/mods/lithium.jar").unwrap(),
        first_bytes.to_vec()
    );
}

#[test]
fn version_without_files_fails_as_decode_error() {
    let d = downloader();
    let mut world = world_with(b"bytes", "https://cdn.example/sodium.jar");
    world.versions = Ok(vec![mk_version("empty", vec![])]);
    let task = run(&d, &mut world, "sodium");
    assert!(matches!(
        task.state,
        TaskState::Finished {
            outcome: Outcome::Failed {
                error: Error::Decode
            }
        }
    ));
}

#[test]
fn fetch_failure_after_delete_leaves_no_file_and_is_not_fatal() {
    let d = downloader();
    let mut world = world_with(b"new bytes", "https://cdn.example/sodium.jar");
    world
        .disk
        .insert("/mods/sodium.jar".to_string(), b"stale bytes".to_vec());
    world.net.clear();
    let task = run(&d, &mut world, "sodium");
    match task.state {
        TaskState::Finished {
            outcome: Outcome::Failed { error },
        } => {
            assert!(matches!(error, Error::Transport));
            assert!(!error.is_fatal());
        }
        other => panic!("expected transport failure, got {:?}", other),
    }
    // the stale file was deleted before the fetch and is not restored
    assert!(world.disk.is_empty());
}

#[test]
fn probe_io_error_fails_only_this_identifier() {
    let d = downloader();
    let (mut task, action) = d.begin("sodium".to_string());
    assert!(matches!(action, Action::ResolveTitle));
    let action = d.step(
        &mut task,
        Event::TitleResolved {
            result: Ok("Sodium".to_string()),
        },
    );
    match &action {
        Action::ListVersions {
            loader,
            game_version,
        } => {
            assert_eq!(loader, "fabric");
            assert_eq!(game_version, "1.20.1");
        }
        other => panic!("expected a version listing, got {:?}", other),
    }
    let declared = hash_bytes(b"bytes");
    let action = d.step(
        &mut task,
        Event::VersionsListed {
            result: Ok(vec![mk_version(
                "sodium-1.0",
                vec![mk_file("https://cdn.example/s.jar", "s.jar", &declared, true)],
            )]),
        },
    );
    assert!(matches!(action, Action::ProbeLocal { .. }));
    let action = d.step(
        &mut task,
        Event::LocalProbed {
            result: Err(Error::Io),
        },
    );
    assert!(matches!(action, Action::Report));
    assert!(matches!(
        task.state,
        TaskState::Finished {
            outcome: Outcome::Failed { error: Error::Io }
        }
    ));
}

#[test]
fn should_download_judges_by_hash_alone() {
    let d = downloader();
    let declared = hash_bytes(b"current bytes");
    assert!(matches!(
        d.should_download(&LocalFile::Absent, &declared),
        Decision::Fetch
    ));
    assert!(matches!(
        d.should_download(
            &LocalFile::Present {
                hash: hash_bytes(b"current bytes")
            },
            &declared
        ),
        Decision::Skip
    ));
    assert!(matches!(
        d.should_download(
            &LocalFile::Present {
                hash: hash_bytes(b"older bytes")
            },
            &declared
        ),
        Decision::DeleteThenFetch
    ));
}

#[test]
fn only_an_integrity_violation_fails_the_whole_run() {
    let clean = vec![
        Outcome::Downloaded,
        Outcome::Skipped,
        Outcome::Failed {
            error: Error::Transport,
        },
        Outcome::Failed {
            error: Error::NotFound,
        },
    ];
    assert!(!run_verdict(&clean));

    let tainted = vec![
        Outcome::Downloaded,
        Outcome::Failed {
            error: Error::IntegrityViolation,
        },
        Outcome::Skipped,
    ];
    assert!(run_verdict(&tainted));

    assert!(!run_verdict(&vec![]));
}

#[test]
fn destination_path_is_identifier_dot_jar_under_mod_path() {
    let d = downloader();
    assert_eq!(
        d.destination_path(&"sodium".to_string()),
        "/mods/sodium.jar"
    );
}
