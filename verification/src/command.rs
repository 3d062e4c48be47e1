//! The commands `where` and `init` on a selected store, as a machine: the
//! caller performs each effect on the file system and hands back what it
//! observed.
//!
//! `where` only inspects the format marker and reports; it never creates
//! anything. `init` inspects the marker (a malformed one fails), creates the
//! store's directory, creates the marker holding `1\n` unless one is there,
//! and reports the store as initialized.
use vstd::prelude::*;
use crate::error::{Failure, Problem, StoreError, failure_because};
use crate::marker::{
    MarkerCreation, MarkerProbe, creation_outcome, format_v1, marker_contents, marker_created,
    marker_initialized, marker_of, marker_path, marker_status, print_selection, report,
    store_created,
};
use crate::bytes::lit;
use crate::store::{KindView, Selection, SelectionView};
use crate::text::shown;

verus! {

/// A command on the selected store.
#[derive(Clone, Copy, Debug, PartialEq, Eq, Structural)]
pub enum Command {
    /// Show the selected store without creating it.
    Where,
    /// Initialize the selected store.
    Init,
}

/// Where a command stands.
#[derive(Clone, Copy, Debug, PartialEq, Eq, Structural)]
pub enum Phase {
    /// Waiting for the inspection of the format marker.
    Inspecting,
    /// Waiting for the creation of the store's directory.
    CreatingDir,
    /// Waiting for the creation of the format marker.
    CreatingMarker,
}

/// An effect on the file system for the caller to perform.
pub enum Effect {
    /// Inspect the format marker at this path; answered by `Observation::Marker`.
    InspectMarker(Vec<u8>),
    /// Create this directory and its parents; answered by `Observation::StoreDir`.
    CreateStoreDir(Vec<u8>),
    /// Create the file at `path` if it does not exist yet and write
    /// `contents` into it; answered by `Observation::NewMarker`.
    CreateMarker { path: Vec<u8>, contents: Vec<u8> },
}

pub enum EffectView {
    InspectMarker(Seq<u8>),
    CreateStoreDir(Seq<u8>),
    CreateMarker(Seq<u8>, Seq<u8>),
}

impl View for Effect {
    type V = EffectView;

    open spec fn view(&self) -> EffectView {
        match self {
            Effect::InspectMarker(p) => EffectView::InspectMarker(p@),
            Effect::CreateStoreDir(p) => EffectView::CreateStoreDir(p@),
            Effect::CreateMarker { path, contents } => EffectView::CreateMarker(path@, contents@),
        }
    }
}

/// What the caller observed while performing an effect.
pub enum Observation {
    Marker(MarkerProbe),
    StoreDir(Result<(), String>),
    NewMarker(MarkerCreation),
}

/// A command between two effects.
pub struct CommandRun {
    command: Command,
    selection: Selection,
    phase: Phase,
}

/// What a command does next: an effect to perform, the report to print, or
/// its failure.
pub enum Turn {
    Perform(CommandRun, Effect),
    Print(Vec<u8>),
    Fail(StoreError),
}

pub enum TurnView {
    Perform(Command, SelectionView, Phase, EffectView),
    Print(Seq<u8>),
    Fail(Failure),
}

impl CommandRun {
    pub closed spec fn command(self) -> Command {
        self.command
    }

    pub closed spec fn target(self) -> SelectionView {
        self.selection@
    }

    pub closed spec fn phase(self) -> Phase {
        self.phase
    }
}

impl View for Turn {
    type V = TurnView;

    open spec fn view(&self) -> TurnView {
        match self {
            Turn::Perform(run, effect) => TurnView::Perform(
                run.command(),
                run.target(),
                run.phase(),
                effect@,
            ),
            Turn::Print(bytes) => TurnView::Print(bytes@),
            Turn::Fail(e) => TurnView::Fail(e@),
        }
    }
}

/// The effect a command waits on in a phase.
pub open spec fn pending_effect(phase: Phase, selection: SelectionView) -> EffectView {
    match phase {
        Phase::Inspecting => EffectView::InspectMarker(marker_of(selection.path)),
        Phase::CreatingDir => EffectView::CreateStoreDir(selection.path),
        Phase::CreatingMarker => EffectView::CreateMarker(marker_of(selection.path), format_v1()),
    }
}

/// What a command does after observing `observation` in `phase`. An
/// observation that does not answer the pending effect leaves the command
/// where it is, still waiting on that effect.
pub open spec fn next_turn(
    command: Command,
    selection: SelectionView,
    phase: Phase,
    observation: Observation,
) -> TurnView {
    let stay = TurnView::Perform(command, selection, phase, pending_effect(phase, selection));
    match (phase, observation) {
        (Phase::Inspecting, Observation::Marker(probe)) => match marker_status(
            selection.path,
            probe,
        ) {
            Err(e) => TurnView::Fail(e),
            Ok(initialized) => match command {
                Command::Where => TurnView::Print(report(selection, initialized)),
                Command::Init => TurnView::Perform(
                    command,
                    selection,
                    Phase::CreatingDir,
                    pending_effect(Phase::CreatingDir, selection),
                ),
            },
        },
        (Phase::CreatingDir, Observation::StoreDir(created)) => match created {
            Err(cause) => TurnView::Fail(
                failure_because(Problem::StoreNotCreated, selection.path, cause@),
            ),
            Ok(()) => TurnView::Perform(
                command,
                selection,
                Phase::CreatingMarker,
                pending_effect(Phase::CreatingMarker, selection),
            ),
        },
        (Phase::CreatingMarker, Observation::NewMarker(creation)) => match creation_outcome(
            selection.path,
            creation,
        ) {
            Err(e) => TurnView::Fail(e),
            Ok(()) => TurnView::Print(report(selection, true)),
        },
        _ => stay,
    }
}

impl CommandRun {
    /// Starts `command` on `selection`: first the format marker is inspected.
    pub fn begin(command: Command, selection: Selection) -> (t: Turn)
        ensures
            t@ == TurnView::Perform(
                command,
                selection@,
                Phase::Inspecting,
                pending_effect(Phase::Inspecting, selection@),
            ),
    {
        let marker = marker_path(&selection.path);
        Turn::Perform(
            CommandRun { command, selection, phase: Phase::Inspecting },
            Effect::InspectMarker(marker),
        )
    }

    /// The command after the caller observed `observation`.
    pub fn resume(self, observation: Observation) -> (t: Turn)
        ensures
            t@ == next_turn(self.command(), self.target(), self.phase(), observation),
    {
        match (self.phase, observation) {
            (Phase::Inspecting, Observation::Marker(probe)) => {
                match marker_initialized(&self.selection.path, probe) {
                    Err(e) => Turn::Fail(e),
                    Ok(initialized) => match self.command {
                        Command::Where => Turn::Print(print_selection(&self.selection, initialized)),
                        Command::Init => {
                            let path = crate::bytes::copy(&self.selection.path);
                            Turn::Perform(
                                CommandRun {
                                    command: self.command,
                                    selection: self.selection,
                                    phase: Phase::CreatingDir,
                                },
                                Effect::CreateStoreDir(path),
                            )
                        },
                    },
                }
            },
            (Phase::CreatingDir, Observation::StoreDir(created)) => {
                match store_created(&self.selection.path, created) {
                    Err(e) => Turn::Fail(e),
                    Ok(()) => {
                        let path = marker_path(&self.selection.path);
                        Turn::Perform(
                            CommandRun {
                                command: self.command,
                                selection: self.selection,
                                phase: Phase::CreatingMarker,
                            },
                            Effect::CreateMarker { path, contents: marker_contents() },
                        )
                    },
                }
            },
            (Phase::CreatingMarker, Observation::NewMarker(creation)) => {
                match marker_created(&self.selection.path, creation) {
                    Err(e) => Turn::Fail(e),
                    Ok(()) => Turn::Print(print_selection(&self.selection, true)),
                }
            },
            (phase, _) => {
                let effect = match phase {
                    Phase::Inspecting => Effect::InspectMarker(marker_path(&self.selection.path)),
                    Phase::CreatingDir => Effect::CreateStoreDir(
                        crate::bytes::copy(&self.selection.path),
                    ),
                    Phase::CreatingMarker => Effect::CreateMarker {
                        path: marker_path(&self.selection.path),
                        contents: marker_contents(),
                    },
                };
                Turn::Perform(self, effect)
            },
        }
    }
}

/// `where` creates nothing: whatever it observes, its only effect is the
/// inspection of the format marker, after which it prints or fails.
pub proof fn lemma_where_creates_nothing(selection: SelectionView, observation: Observation)
    ensures
        next_turn(Command::Where, selection, Phase::Inspecting, observation) matches TurnView::Perform(
            c,
            s,
            phase,
            effect,
        ) ==> c == Command::Where && phase == Phase::Inspecting && effect is InspectMarker,
{
}

/// The order of `init`: the marker is inspected first and a malformed one
/// fails before anything is created; then the store's directory is created;
/// then the marker holding `1\n`; and a finished `init` reports the store as
/// initialized.
pub proof fn lemma_init_order(selection: SelectionView, phase: Phase, observation: Observation)
    ensures
        next_turn(Command::Init, selection, phase, observation) matches TurnView::Perform(
            c,
            s,
            next,
            effect,
        ) ==> c == Command::Init && s == selection && effect == pending_effect(next, selection) && (
        next == phase || (phase == Phase::Inspecting && next == Phase::CreatingDir) || (phase
            == Phase::CreatingDir && next == Phase::CreatingMarker)),
        next_turn(Command::Init, selection, phase, observation) matches TurnView::Print(bytes)
            ==> bytes == report(selection, true),
        phase == Phase::Inspecting ==> (observation matches Observation::Marker(probe)
            && marker_status(selection.path, probe) is Err ==> next_turn(
            Command::Init,
            selection,
            phase,
            observation,
        ) is Fail),
{
}


/// `where` prints the report of the selection it was given, whatever the
/// marker says: its class, its own directory as shown, its selector, and
/// whether the marker made it initialized.
pub proof fn lemma_where_reports_selection(selection: SelectionView, probe: MarkerProbe)
    ensures
        marker_status(selection.path, probe) matches Ok(initialized) ==> next_turn(
            Command::Where,
            selection,
            Phase::Inspecting,
            Observation::Marker(probe),
        ) == TurnView::Print(
            lit("kind: "@) + match selection.kind {
                KindView::Default => lit("default"@),
                KindView::Project => lit("project"@),
                KindView::Named(name) => lit("named:"@) + name,
            } + lit("\n"@) + lit("path: "@) + shown(selection.path) + lit("\n"@) + lit(
                "selector: "@,
            ) + selection.selector + lit("\n"@) + lit("initialized: "@) + (if initialized {
                lit("true"@)
            } else {
                lit("false"@)
            }) + lit("\n"@),
        ),
        marker_status(selection.path, probe) matches Err(e) ==> next_turn(
            Command::Where,
            selection,
            Phase::Inspecting,
            Observation::Marker(probe),
        ) == TurnView::Fail(e),
{
}

/// A finished `init` prints the report of the selection it was given, as
/// initialized.
pub proof fn lemma_init_reports_selection(selection: SelectionView, creation: MarkerCreation)
    ensures
        creation_outcome(selection.path, creation) is Ok ==> next_turn(
            Command::Init,
            selection,
            Phase::CreatingMarker,
            Observation::NewMarker(creation),
        ) == TurnView::Print(
            lit("kind: "@) + match selection.kind {
                KindView::Default => lit("default"@),
                KindView::Project => lit("project"@),
                KindView::Named(name) => lit("named:"@) + name,
            } + lit("\n"@) + lit("path: "@) + shown(selection.path) + lit("\n"@) + lit(
                "selector: "@,
            ) + selection.selector + lit("\n"@) + lit("initialized: "@) + lit("true"@) + lit(
                "\n"@,
            ),
        ),
{
}

} // verus!
