use memo::command::{Command, CommandRun, Effect, Observation, Turn};
use memo::error::Problem;
use memo::marker::{MarkerCreation, MarkerProbe};
use memo::store::{Kind, Selection};

fn store() -> Selection {
    Selection {
        kind: Kind::Default,
        path: b"/s/default".to_vec(),
        selector: b"default".to_vec(),
    }
}

fn perform(turn: Turn) -> (CommandRun, Effect) {
    match turn {
        Turn::Perform(run, effect) => (run, effect),
        Turn::Print(bytes) => panic!("printed {:?}", String::from_utf8_lossy(&bytes)),
        Turn::Fail(error) => panic!("failed {error:?}"),
    }
}

fn printed(turn: Turn) -> Vec<u8> {
    match turn {
        Turn::Print(bytes) => bytes,
        _ => panic!("expected a report"),
    }
}

fn failed(turn: Turn) -> Problem {
    match turn {
        Turn::Fail(error) => error.problem,
        _ => panic!("expected a failure"),
    }
}

fn inspects(effect: &Effect) -> bool {
    matches!(effect, Effect::InspectMarker(p) if p == b"/s/default/FORMAT_VERSION")
}

#[test]
fn where_only_inspects_and_reports() {
    let (run, effect) = perform(CommandRun::begin(Command::Where, store()));
    assert!(inspects(&effect));
    let report = printed(run.resume(Observation::Marker(MarkerProbe::Missing)));
    assert_eq!(
        report,
        b"kind: default\npath: /s/default\nselector: default\ninitialized: false\n".to_vec()
    );

    let (run, _) = perform(CommandRun::begin(Command::Where, store()));
    let report = printed(run.resume(Observation::Marker(MarkerProbe::Contents(b"1\n".to_vec()))));
    assert!(report.ends_with(b"initialized: true\n"));

    let (run, _) = perform(CommandRun::begin(Command::Where, store()));
    let turn = run.resume(Observation::Marker(MarkerProbe::Contents(b"2\n".to_vec())));
    assert_eq!(failed(turn), Problem::MarkerMalformed);

    let (run, _) = perform(CommandRun::begin(Command::Where, store()));
    let (_, effect) = perform(run.resume(Observation::StoreDir(Ok(()))));
    assert!(inspects(&effect));
}

#[test]
fn init_creates_directory_then_marker_then_reports() {
    let (run, effect) = perform(CommandRun::begin(Command::Init, store()));
    assert!(inspects(&effect));
    let (run, effect) = perform(run.resume(Observation::Marker(MarkerProbe::Missing)));
    assert!(matches!(&effect, Effect::CreateStoreDir(p) if p == b"/s/default"));
    let (run, effect) = perform(run.resume(Observation::StoreDir(Ok(()))));
    match &effect {
        Effect::CreateMarker { path, contents } => {
            assert_eq!(path, b"/s/default/FORMAT_VERSION");
            assert_eq!(contents, b"1\n");
        }
        _ => panic!("expected the marker's creation"),
    }
    let report = printed(run.resume(Observation::NewMarker(MarkerCreation::Written(Ok(())))));
    assert!(report.ends_with(b"initialized: true\n"));
}

#[test]
fn init_again_and_init_failures() {
    let (run, _) = perform(CommandRun::begin(Command::Init, store()));
    let valid = MarkerProbe::Contents(b"1\n".to_vec());
    let (run, _) = perform(run.resume(Observation::Marker(valid)));
    let (run, _) = perform(run.resume(Observation::StoreDir(Ok(()))));
    let present = MarkerCreation::AlreadyPresent(MarkerProbe::Contents(b"1\n".to_vec()));
    assert!(printed(run.resume(Observation::NewMarker(present))).ends_with(b"initialized: true\n"));

    let (run, _) = perform(CommandRun::begin(Command::Init, store()));
    let turn = run.resume(Observation::Marker(MarkerProbe::NotFile));
    assert_eq!(failed(turn), Problem::MarkerNotFile);

    let (run, _) = perform(CommandRun::begin(Command::Init, store()));
    let (run, _) = perform(run.resume(Observation::Marker(MarkerProbe::Missing)));
    let turn = run.resume(Observation::StoreDir(Err("denied".into())));
    assert_eq!(failed(turn), Problem::StoreNotCreated);

    let (run, _) = perform(CommandRun::begin(Command::Init, store()));
    let (run, _) = perform(run.resume(Observation::Marker(MarkerProbe::Missing)));
    let (run, _) = perform(run.resume(Observation::StoreDir(Ok(()))));
    let turn = run.resume(Observation::NewMarker(MarkerCreation::Refused("denied".into())));
    assert_eq!(failed(turn), Problem::MarkerNotCreated);
}
