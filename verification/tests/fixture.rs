use psql_copy_harness::fixture::{FixtureLife, FixturePhase, Provision, TestEnvironment};
use psql_copy_harness::scenario::{fixture_plan, Encoding};

#[test]
fn the_environment_names_one_snapshot_per_encoding() {
    let env = TestEnvironment::at("/tmp/.tmpAbC", "/tmp/.tmpAbC/0f1e");
    assert_eq!(env.temp_dir, "/tmp/.tmpAbC");
    assert_eq!(env.file_path_text, "/tmp/.tmpAbC/0f1e.text");
    assert_eq!(env.file_path_binary, "/tmp/.tmpAbC/0f1e.binary");
    assert_eq!(env.file_path_csv, "/tmp/.tmpAbC/0f1e.csv");
    assert_eq!(env.snapshot(Encoding::Text), "/tmp/.tmpAbC/0f1e.text");
    assert_eq!(env.snapshot(Encoding::Binary), "/tmp/.tmpAbC/0f1e.binary");
    assert_eq!(env.snapshot(Encoding::Csv), "/tmp/.tmpAbC/0f1e.csv");
}

#[test]
fn snapshots_of_one_environment_are_different_files() {
    let env = TestEnvironment::at("", "");
    assert_ne!(env.file_path_text, env.file_path_binary);
    assert_ne!(env.file_path_text, env.file_path_csv);
    assert_ne!(env.file_path_binary, env.file_path_csv);
}

#[test]
fn the_environment_is_built_on_the_first_request_only() {
    let mut life = FixtureLife::new();
    assert_eq!(life.phase(), FixturePhase::Absent);
    assert_eq!(life.acquire("src", "/s/src"), Provision::Build(fixture_plan("src", "/s/src")));
    assert_eq!(life.phase(), FixturePhase::Ready);
    assert_eq!(life.acquire("src", "/s/src"), Provision::Reuse);
    assert_eq!(life.acquire("other", "/s/other"), Provision::Reuse);
    assert_eq!(life.phase(), FixturePhase::Ready);
}

#[test]
fn the_scratch_directory_is_removed_once_and_only_if_built() {
    let mut never_built = FixtureLife::new();
    assert!(!never_built.release());
    assert_eq!(never_built.phase(), FixturePhase::Absent);
    let mut life = FixtureLife::new();
    life.acquire("src", "/s/src");
    assert!(life.release());
    assert_eq!(life.phase(), FixturePhase::Removed);
    assert!(!life.release());
    assert_eq!(life.acquire("src", "/s/src"), Provision::Gone);
    assert_eq!(life.phase(), FixturePhase::Removed);
}
