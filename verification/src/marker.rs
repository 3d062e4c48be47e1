//! The format marker of a store and the report of a selection.
//!
//! A store is initialized when its `FORMAT_VERSION` file is a regular file
//! holding exactly `1\n`. A missing marker means an uninitialized store; any
//! other marker is an error.
use vstd::prelude::*;
use crate::bytes::{append, ascii, lit};
use crate::error::{Failure, Problem, StoreError, failure, failure_because};
use crate::path::{join, path_join};
use crate::text::shown;
use vstd::string::StringSliceAdditionalSpecFns;
use crate::store::{Kind, KindView, Selection, SelectionView, unit_view};

verus! {

/// The path of the format marker of a store.
pub open spec fn marker_of(store: Seq<u8>) -> Seq<u8> {
    join(store, lit("FORMAT_VERSION"@))
}

/// The content of the format marker of version 1.
pub open spec fn format_v1() -> Seq<u8> {
    lit("1\n"@)
}

/// The path of the format marker of `store`.
pub fn marker_path(store: &[u8]) -> (r: Vec<u8>)
    ensures
        r@ == marker_of(store@),
{
    proof {
        reveal_strlit("FORMAT_VERSION");
    }
    path_join(store, ascii("FORMAT_VERSION").as_slice())
}

/// The bytes that `init` writes into a new format marker.
pub fn marker_contents() -> (r: Vec<u8>)
    ensures
        r@ == format_v1(),
{
    proof {
        reveal_strlit("1\n");
    }
    ascii("1\n")
}

/// What inspecting the format marker gave: nothing there, an error while
/// looking, something that is not a regular file, a file that could not be
/// read, or the file's bytes.
pub enum MarkerProbe {
    Missing,
    Uninspectable(String),
    NotFile,
    Unreadable(String),
    Contents(Vec<u8>),
}

/// Whether the store is initialized, from what inspecting its marker gave.
pub open spec fn marker_status(store: Seq<u8>, probe: MarkerProbe) -> Result<bool, Failure> {
    let marker = marker_of(store);
    match probe {
        MarkerProbe::Missing => Ok(false),
        MarkerProbe::Uninspectable(cause) => Err(
            failure_because(Problem::MarkerUninspectable, marker, cause@),
        ),
        MarkerProbe::NotFile => Err(failure(Problem::MarkerNotFile, marker)),
        MarkerProbe::Unreadable(cause) => Err(failure_because(Problem::ReadFailed, marker, cause@)),
        MarkerProbe::Contents(bytes) => if bytes@ == format_v1() {
            Ok(true)
        } else {
            Err(failure(Problem::MarkerMalformed, marker))
        },
    }
}

pub open spec fn bool_view(r: Result<bool, StoreError>) -> Result<bool, Failure> {
    match r {
        Ok(b) => Ok(b),
        Err(e) => Err(e@),
    }
}

/// Whether the store at `store` is initialized: false where it has no
/// marker, true where the marker is a regular file holding exactly `1\n`, a
/// failure otherwise.
pub fn marker_initialized(store: &[u8], probe: MarkerProbe) -> (r: Result<bool, StoreError>)
    ensures
        bool_view(r) == marker_status(store@, probe),
{
    let marker = marker_path(store);
    match probe {
        MarkerProbe::Missing => Ok(false),
        MarkerProbe::Uninspectable(cause) => Err(
            StoreError::because(Problem::MarkerUninspectable, &marker, cause),
        ),
        MarkerProbe::NotFile => Err(StoreError::new(Problem::MarkerNotFile, &marker)),
        MarkerProbe::Unreadable(cause) => Err(
            StoreError::because(Problem::ReadFailed, &marker, cause),
        ),
        MarkerProbe::Contents(bytes) => {
            if crate::bytes::same(&bytes, marker_contents().as_slice()) {
                Ok(true)
            } else {
                Err(StoreError::new(Problem::MarkerMalformed, &marker))
            }
        },
    }
}

/// The outcome of creating the store's directory, the I/O error's message on
/// failure.
pub fn store_created(store: &[u8], created: Result<(), String>) -> (r: Result<(), StoreError>)
    ensures
        unit_view(r) == match created {
            Ok(()) => Ok(()),
            Err(cause) => Err(failure_because(Problem::StoreNotCreated, store@, cause@)),
        },
{
    match created {
        Ok(()) => Ok(()),
        Err(cause) => Err(StoreError::because(Problem::StoreNotCreated, store, cause)),
    }
}

/// What creating the format marker exclusively gave: a new marker, with the
/// outcome of writing `1\n` into it; a marker already there, with what
/// inspecting it gave; or another I/O error.
pub enum MarkerCreation {
    Written(Result<(), String>),
    AlreadyPresent(MarkerProbe),
    Refused(String),
}

/// The outcome of creating the format marker: success when it was written,
/// or was there already and is a valid marker (or has gone again).
pub open spec fn creation_outcome(store: Seq<u8>, creation: MarkerCreation) -> Result<(), Failure> {
    match creation {
        MarkerCreation::Written(Ok(())) => Ok(()),
        MarkerCreation::Written(Err(cause)) => Err(
            failure_because(Problem::MarkerNotWritten, Seq::empty(), cause@),
        ),
        MarkerCreation::AlreadyPresent(probe) => match marker_status(store, probe) {
            Ok(_) => Ok(()),
            Err(e) => Err(e),
        },
        MarkerCreation::Refused(cause) => Err(
            failure_because(Problem::MarkerNotCreated, marker_of(store), cause@),
        ),
    }
}

/// The outcome of creating the format marker of `store`.
pub fn marker_created(store: &[u8], creation: MarkerCreation) -> (r: Result<(), StoreError>)
    ensures
        unit_view(r) == creation_outcome(store@, creation),
{
    match creation {
        MarkerCreation::Written(Ok(())) => Ok(()),
        MarkerCreation::Written(Err(cause)) => {
            let none: Vec<u8> = Vec::new();
            Err(StoreError::because(Problem::MarkerNotWritten, &none, cause))
        },
        MarkerCreation::AlreadyPresent(probe) => match marker_initialized(store, probe) {
            Ok(_) => Ok(()),
            Err(e) => Err(e),
        },
        MarkerCreation::Refused(cause) => Err(
            StoreError::because(Problem::MarkerNotCreated, &marker_path(store), cause),
        ),
    }
}

/// How a report names the class of a store.
pub open spec fn kind_label(kind: KindView) -> Seq<u8> {
    match kind {
        KindView::Default => lit("default"@),
        KindView::Project => lit("project"@),
        KindView::Named(name) => lit("named:"@) + name,
    }
}

/// The report of a selection: four lines giving the class, the path (as
/// shown: invalid UTF-8 replaced by U+FFFD, as `Path::display` shows it), the
/// selector that names the store to `--store` from any directory, and
/// whether the store is initialized.
pub open spec fn report(selection: SelectionView, initialized: bool) -> Seq<u8> {
    lit("kind: "@) + kind_label(selection.kind) + lit("\n"@) + lit("path: "@) + shown(
        selection.path,
    ) + lit("\n"@) + lit("selector: "@) + selection.selector + lit("\n"@) + lit(
        "initialized: "@,
    ) + (if initialized {
        lit("true"@)
    } else {
        lit("false"@)
    }) + lit("\n"@)
}

/// The report of `selection`, as the bytes to print.
pub fn print_selection(selection: &Selection, initialized: bool) -> (r: Vec<u8>)
    ensures
        r@ == report(selection@, initialized),
{
    proof {
        reveal_strlit("kind: ");
        reveal_strlit("default");
        reveal_strlit("project");
        reveal_strlit("named:");
        reveal_strlit("\n");
        reveal_strlit("path: ");
        reveal_strlit("selector: ");
        reveal_strlit("initialized: ");
        reveal_strlit("true");
        reveal_strlit("false");
    }
    let mut out = ascii("kind: ");
    match &selection.kind {
        Kind::Default => append(&mut out, ascii("default").as_slice()),
        Kind::Project => append(&mut out, ascii("project").as_slice()),
        Kind::Named(name) => {
            append(&mut out, ascii("named:").as_slice());
            append(&mut out, name.as_str().as_bytes());
        },
    }
    append(&mut out, ascii("\n").as_slice());
    append(&mut out, ascii("path: ").as_slice());
    let path = crate::text::lossy_text(&selection.path);
    append(&mut out, path.as_str().as_bytes());
    append(&mut out, ascii("\n").as_slice());
    append(&mut out, ascii("selector: ").as_slice());
    append(&mut out, &selection.selector);
    append(&mut out, ascii("\n").as_slice());
    append(&mut out, ascii("initialized: ").as_slice());
    if initialized {
        append(&mut out, ascii("true").as_slice());
    } else {
        append(&mut out, ascii("false").as_slice());
    }
    append(&mut out, ascii("\n").as_slice());
    out
}


/// `init` is idempotent: the marker it writes is one that every later
/// inspection accepts as initialized, and a second `init` that finds it
/// there succeeds without writing; any other content is refused both by the
/// inspection and by a second `init`.
pub proof fn lemma_init_idempotent(store: Seq<u8>, probe: MarkerProbe)
    requires
        probe matches MarkerProbe::Contents(_),
    ensures
        probe matches MarkerProbe::Contents(bytes) && bytes@ == format_v1() ==> {
            &&& marker_status(store, probe) == Ok::<bool, Failure>(true)
            &&& creation_outcome(store, MarkerCreation::AlreadyPresent(probe)) == Ok::<(), Failure>(())
        },
        probe matches MarkerProbe::Contents(bytes) && bytes@ != format_v1() ==> {
            &&& marker_status(store, probe) == Err::<bool, Failure>(
                failure(Problem::MarkerMalformed, marker_of(store)),
            )
            &&& creation_outcome(store, MarkerCreation::AlreadyPresent(probe)) == Err::<(), Failure>(
                failure(Problem::MarkerMalformed, marker_of(store)),
            )
        },
{
}


/// A store is initialized exactly when its marker holds the two bytes `1`
/// and a line feed; a missing marker means not initialized; other contents
/// fail, naming `FORMAT_VERSION` in the store.
pub proof fn lemma_marker_contents(store: Seq<u8>, probe: MarkerProbe)
    ensures
        probe is Missing ==> marker_status(store, probe) == Ok::<bool, Failure>(false),
        probe matches MarkerProbe::Contents(bytes) && bytes@ == seq![49u8, 10u8] ==> marker_status(
            store,
            probe,
        ) == Ok::<bool, Failure>(true),
        probe matches MarkerProbe::Contents(bytes) && bytes@ != seq![49u8, 10u8] ==> marker_status(
            store,
            probe,
        ) == Err::<bool, Failure>(
            Failure {
                problem: Problem::MarkerMalformed,
                path: join(store, lit("FORMAT_VERSION"@)),
                cause: None,
            },
        ),
{
    reveal_strlit("1\n");
    assert(format_v1() =~= seq![49u8, 10u8]);
}

} // verus!
