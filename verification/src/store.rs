//! Which store a command works on, where it lives, and its format marker.
//!
//! The data root holds three physically separate classes of store:
//! `default/` for the user store, `projects/<id>/` for the store of a
//! repository and `named/<name>/` for an explicitly named store.
use vstd::prelude::*;
use vstd::utf8::encode_utf8;
use crate::bytes::{ascii, lit};
use crate::config::{env_root, opt_view};
use crate::error::{Failure, Problem, StoreError, failure};
use crate::path::{is_absolute, join, path_join};
use crate::project::{hex_byte, is_project_id, project_id_of};

verus! {

/// A byte allowed in a store name: an ASCII letter or digit, `-` or `_`.
pub open spec fn name_byte(b: u8) -> bool {
    ||| 48 <= b <= 57
    ||| 65 <= b <= 90
    ||| 97 <= b <= 122
    ||| b == 45
    ||| b == 95
}

/// A valid store name: nonempty, not one of the reserved `default` and
/// `project`, and made of letters, digits, `-` and `_` only.
pub open spec fn valid_store_name(name: Seq<u8>) -> bool {
    &&& name.len() > 0
    &&& name != lit("default"@)
    &&& name != lit("project"@)
    &&& forall|i: int| 0 <= i < name.len() ==> name_byte(#[trigger] name[i])
}

pub open spec fn unit_view(r: Result<(), StoreError>) -> Result<(), Failure> {
    match r {
        Ok(()) => Ok(()),
        Err(e) => Err(e@),
    }
}

/// Checks a store name; the failure names it.
pub fn validate_name(name: &str) -> (r: Result<(), StoreError>)
    ensures
        unit_view(r) == if valid_store_name(encode_utf8(name@)) {
            Ok(())
        } else {
            Err(failure(Problem::InvalidStoreName, encode_utf8(name@)))
        },
{
    proof {
        reveal_strlit("default");
        reveal_strlit("project");
    }
    let bytes = name.as_bytes();
    assert(bytes@ == encode_utf8(name@));
    let mut ok = bytes.len() > 0 && !crate::bytes::same(bytes, ascii("default").as_slice())
        && !crate::bytes::same(bytes, ascii("project").as_slice());
    let mut i: usize = 0;
    while i < bytes.len()
        invariant
            0 <= i <= bytes@.len(),
            ok ==> forall|j: int| 0 <= j < i ==> name_byte(#[trigger] bytes@[j]),
            !ok ==> !valid_store_name(bytes@),
            ok ==> (bytes@.len() > 0 && bytes@ != lit("default"@) && bytes@ != lit("project"@)),
        decreases bytes@.len() - i,
    {
        let b = bytes[i];
        if !((48 <= b && b <= 57) || (65 <= b && b <= 90) || (97 <= b && b <= 122) || b == 45
            || b == 95) {
            ok = false;
        }
        i = i + 1;
    }
    if ok {
        Ok(())
    } else {
        Err(StoreError::new(Problem::InvalidStoreName, bytes))
    }
}

/// The class of a store; a named store carries its name.
#[derive(Debug, PartialEq, Eq)]
pub enum Kind {
    Default,
    Project,
    Named(String),
}

/// The mathematical value of a `Kind`: a name by its UTF-8 bytes.
pub enum KindView {
    Default,
    Project,
    Named(Seq<u8>),
}
impl View for Kind {
    type V = KindView;

    open spec fn view(&self) -> KindView {
        match self {
            Kind::Default => KindView::Default,
            Kind::Project => KindView::Project,
            Kind::Named(name) => KindView::Named(encode_utf8(name@)),
        }
    }
}

/// The store a command works on: its class, its directory, and the
/// selector that names it to `--store` from any directory (`default`, the
/// store's name, or `project:` followed by the project id).
#[derive(Debug)]
pub struct Selection {
    pub kind: Kind,
    pub path: Vec<u8>,
    pub selector: Vec<u8>,
}

pub struct SelectionView {
    pub kind: KindView,
    pub path: Seq<u8>,
    pub selector: Seq<u8>,
}

impl View for Selection {
    type V = SelectionView;

    open spec fn view(&self) -> SelectionView {
        SelectionView { kind: self.kind@, path: self.path@, selector: self.selector@ }
    }
}

pub open spec fn request_view(requested: Option<&str>) -> Option<Seq<u8>> {
    match requested {
        Some(s) => Some(encode_utf8(s@)),
        None => None,
    }
}

pub open spec fn repository_view(r: Result<Option<Vec<u8>>, StoreError>) -> Result<Option<Seq<u8>>, Failure> {
    match r {
        Ok(Some(identity)) => Ok(Some(identity@)),
        Ok(None) => Ok(None),
        Err(e) => Err(e@),
    }
}

/// The project id that a `project:<id>` selector pins, if `requested` is one.
pub open spec fn pinned_project(requested: Seq<u8>) -> Option<Seq<u8>> {
    let prefix = lit("project:"@);
    if requested.len() >= prefix.len() && requested.take(prefix.len() as int) == prefix
        && is_project_id(requested.skip(prefix.len() as int)) {
        Some(requested.skip(prefix.len() as int))
    } else {
        None
    }
}

/// The default store under `root`.
pub open spec fn default_selection(root: Seq<u8>) -> SelectionView {
    SelectionView {
        kind: KindView::Default,
        path: join(root, lit("default"@)),
        selector: lit("default"@),
    }
}

/// The store named `name` under `root`.
pub open spec fn named_selection(root: Seq<u8>, name: Seq<u8>) -> SelectionView {
    SelectionView {
        kind: KindView::Named(name),
        path: join(join(root, lit("named"@)), name),
        selector: name,
    }
}

/// The project store with the project id `id` under `root`.
pub open spec fn project_selection(root: Seq<u8>, id: Seq<u8>) -> SelectionView {
    SelectionView {
        kind: KindView::Project,
        path: join(join(root, lit("projects"@)), id),
        selector: lit("project:"@) + id,
    }
}

/// Whether selecting a store looks at the repository of the working
/// directory: for `--store project`, and with no store named while
/// automatic project selection is on.
pub open spec fn repository_needed(requested: Option<Seq<u8>>, auto: bool) -> bool {
    match requested {
        Some(r) => r == lit("project"@),
        None => auto,
    }
}

/// The store selected under `root`, given the `--store` value (if any),
/// whether project stores are selected automatically, and what the search
/// for the working directory's repository found.
pub open spec fn selection_of(
    root: Seq<u8>,
    requested: Option<Seq<u8>>,
    auto: bool,
    repository: Result<Option<Seq<u8>>, Failure>,
) -> Result<SelectionView, Failure> {
    match requested {
        Some(r) => if r == lit("default"@) {
            Ok(default_selection(root))
        } else if r == lit("project"@) {
            match repository {
                Err(e) => Err(e),
                Ok(None) => Err(failure(Problem::ProjectNeedsRepository, Seq::empty())),
                Ok(Some(identity)) => Ok(project_selection(root, project_id_of(identity))),
            }
        } else {
            match pinned_project(r) {
                Some(id) => Ok(project_selection(root, id)),
                None => if valid_store_name(r) {
                    Ok(named_selection(root, r))
                } else {
                    Err(failure(Problem::InvalidStoreName, r))
                },
            }
        },
        None => if auto {
            match repository {
                Err(e) => Err(e),
                Ok(Some(identity)) => Ok(project_selection(root, project_id_of(identity))),
                Ok(None) => Ok(default_selection(root)),
            }
        } else {
            Ok(default_selection(root))
        },
    }
}

/// A selection that is one of the three forms under `root`, with a valid
/// name or a project id.
pub open spec fn placed(root: Seq<u8>, s: SelectionView) -> bool {
    match s.kind {
        KindView::Default => s == default_selection(root),
        KindView::Named(name) => valid_store_name(name) && s == named_selection(root, name),
        KindView::Project => exists|id: Seq<u8>|
            is_project_id(id) && s == #[trigger] project_selection(root, id),
    }
}

pub open spec fn selection_result_view(r: Result<Selection, StoreError>) -> Result<SelectionView, Failure> {
    match r {
        Ok(s) => Ok(s@),
        Err(e) => Err(e@),
    }
}

impl StoreError {
    /// A copy of this failure.
    pub fn duplicate(&self) -> (e: StoreError)
        ensures
            e@ == self@,
    {
        StoreError {
            problem: self.problem,
            path: crate::bytes::copy(&self.path),
            cause: match &self.cause {
                Some(c) => Some(c.clone()),
                None => None,
            },
        }
    }
}

/// Whether `select` looks at the repository for this request.
pub fn needs_repository(requested: Option<&str>, auto: bool) -> (r: bool)
    ensures
        r == repository_needed(request_view(requested), auto),
{
    proof {
        reveal_strlit("project");
    }
    match requested {
        Some(name) => crate::bytes::same(name.as_bytes(), ascii("project").as_slice()),
        None => auto,
    }
}

/// The project id of a `project:<id>` selector.
fn pinned_project_id(requested: &[u8]) -> (r: Option<Vec<u8>>)
    ensures
        match r {
            Some(id) => pinned_project(requested@) == Some(id@),
            None => pinned_project(requested@) is None,
        },
{
    proof {
        reveal_strlit("project:");
    }
    let prefix = ascii("project:");
    if requested.len() != 72 {
        return None;
    }
    let mut head: Vec<u8> = Vec::new();
    let mut id: Vec<u8> = Vec::new();
    let mut i: usize = 0;
    while i < 72
        invariant
            requested@.len() == 72,
            0 <= i <= 72,
            i <= 8 ==> head@ == requested@.take(i as int) && id@.len() == 0,
            i > 8 ==> head@ == requested@.take(8) && id@ == requested@.subrange(8, i as int),
        decreases 72 - i,
    {
        if i < 8 {
            head.push(requested[i]);
            assert(head@ =~= requested@.take(i + 1));
        } else {
            id.push(requested[i]);
            assert(id@ =~= requested@.subrange(8, i + 1));
        }
        i = i + 1;
    }
    assert(id@ =~= requested@.skip(8));
    if !crate::bytes::same(&head, &prefix) {
        return None;
    }
    let mut j: usize = 0;
    while j < 64
        invariant
            id@.len() == 64,
            requested@.len() == 72,
            id@ == requested@.skip(8),
            head@ == requested@.take(8),
            head@ == lit("project:"@),
            lit("project:"@).len() == 8,
            0 <= j <= 64,
            forall|k: int| 0 <= k < j ==> hex_byte(#[trigger] id@[k]),
        decreases 64 - j,
    {
        let b = id[j];
        if !((48 <= b && b <= 57) || (97 <= b && b <= 102)) {
            return None;
        }
        j = j + 1;
    }
    Some(id)
}

/// Selects the store under the data root `root`: an explicit `--store`
/// (`default`, `project`, `project:<id>` or a name) wins; with none, the
/// repository's project store where automatic selection is on and the
/// working directory is in a repository, else the default store.
/// `repository` is what the search for the working directory's repository
/// gave; it is looked at only where `needs_repository` holds.
pub fn select(
    root: &[u8],
    requested: Option<&str>,
    auto: bool,
    repository: &Result<Option<Vec<u8>>, StoreError>,
) -> (r: Result<Selection, StoreError>)
    ensures
        selection_result_view(r) == selection_of(
            root@,
            request_view(requested),
            auto,
            repository_view(*repository),
        ),
        r matches Ok(s) ==> placed(root@, s@),
{
    proof {
        reveal_strlit("default");
        reveal_strlit("project");
    }
    match requested {
        Some(name) => {
            let bytes = name.as_bytes();
            if crate::bytes::same(bytes, ascii("default").as_slice()) {
                Ok(default_store(root))
            } else if crate::bytes::same(bytes, ascii("project").as_slice()) {
                match repository {
                    Err(e) => Err(e.duplicate()),
                    Ok(None) => {
                        let none: Vec<u8> = Vec::new();
                        Err(StoreError::new(Problem::ProjectNeedsRepository, &none))
                    },
                    Ok(Some(identity)) => Ok(
                        project_store(root, crate::project::project_id(identity)),
                    ),
                }
            } else {
                match pinned_project_id(bytes) {
                    Some(id) => Ok(project_store(root, id)),
                    None => match validate_name(name) {
                        Err(e) => Err(e),
                        Ok(()) => Ok(named_store(root, name)),
                    },
                }
            }
        },
        None => if auto {
            match repository {
                Err(e) => Err(e.duplicate()),
                Ok(Some(identity)) => Ok(
                    project_store(root, crate::project::project_id(identity)),
                ),
                Ok(None) => Ok(default_store(root)),
            }
        } else {
            Ok(default_store(root))
        },
    }
}

/// The default store.
fn default_store(root: &[u8]) -> (r: Selection)
    ensures
        r@ == default_selection(root@),
        placed(root@, r@),
{
    proof {
        reveal_strlit("default");
    }
    Selection {
        kind: Kind::Default,
        path: path_join(root, ascii("default").as_slice()),
        selector: ascii("default"),
    }
}

/// The store named `name`, a valid name.
fn named_store(root: &[u8], name: &str) -> (r: Selection)
    requires
        valid_store_name(encode_utf8(name@)),
    ensures
        r@ == named_selection(root@, encode_utf8(name@)),
        placed(root@, r@),
{
    proof {
        reveal_strlit("named");
    }
    let named = path_join(root, ascii("named").as_slice());
    Selection {
        kind: Kind::Named(name.to_owned()),
        path: path_join(&named, name.as_bytes()),
        selector: crate::bytes::copy(name.as_bytes()),
    }
}

/// The project store with the project id `id`.
fn project_store(root: &[u8], id: Vec<u8>) -> (r: Selection)
    requires
        is_project_id(id@),
    ensures
        r@ == project_selection(root@, id@),
        placed(root@, r@),
{
    proof {
        reveal_strlit("projects");
        reveal_strlit("project:");
    }
    let projects = path_join(root, ascii("projects").as_slice());
    let mut selector = ascii("project:");
    crate::bytes::append(&mut selector, &id);
    Selection { kind: Kind::Project, path: path_join(&projects, &id), selector }
}

/// Checks a data directory given on the command line or in
/// `MEMO_DATA_DIR`: it must not be empty.
pub fn parse_data_dir(value: &str) -> (r: Result<Vec<u8>, StoreError>)
    ensures
        crate::error::result_view(r) == if value@.len() == 0 {
            Err(failure(Problem::EmptyDataDir, Seq::empty()))
        } else {
            Ok(encode_utf8(value@))
        },
{
    if value.is_empty() {
        let none: Vec<u8> = Vec::new();
        Err(StoreError::new(Problem::EmptyDataDir, &none))
    } else {
        Ok(crate::bytes::copy(value.as_bytes()))
    }
}

/// The root of all stores: the override where given, else
/// `${XDG_DATA_HOME:-$HOME/.local/share}/memo/stores` with unusable values
/// treated as unset; a relative override is taken from `cwd`.
pub open spec fn data_root(
    override_path: Option<Seq<u8>>,
    xdg_data: Option<Seq<u8>>,
    home: Option<Seq<u8>>,
    cwd: Seq<u8>,
) -> Result<Seq<u8>, Failure> {
    let chosen = match override_path {
        Some(p) => Some(p),
        None => match env_root(xdg_data) {
            Some(x) => Some(join(x, lit("memo/stores"@))),
            None => match env_root(home) {
                Some(h) => Some(join(join(h, lit(".local/share"@)), lit("memo/stores"@))),
                None => None,
            },
        },
    };
    match chosen {
        None => Err(failure(Problem::NoDataRoot, Seq::empty())),
        Some(p) => Ok(
            if is_absolute(p) {
                p
            } else {
                join(cwd, p)
            },
        ),
    }
}

/// The root of all stores, from the override, the values of
/// `XDG_DATA_HOME` and `HOME`, and the working directory.
pub fn absolute_data_root(
    override_path: Option<&[u8]>,
    xdg_data: Option<&[u8]>,
    home: Option<&[u8]>,
    cwd: &[u8],
) -> (r: Result<Vec<u8>, StoreError>)
    ensures
        crate::error::result_view(r) == data_root(
            opt_view(override_path),
            opt_view(xdg_data),
            opt_view(home),
            cwd@,
        ),
{
    proof {
        reveal_strlit("memo/stores");
        reveal_strlit(".local/share");
    }
    let chosen = match override_path {
        Some(p) => Some(crate::bytes::copy(p)),
        None => match crate::config::absolute_env_path(xdg_data) {
            Some(x) => Some(path_join(&x, ascii("memo/stores").as_slice())),
            None => match crate::config::absolute_env_path(home) {
                Some(h) => {
                    let share = path_join(&h, ascii(".local/share").as_slice());
                    Some(path_join(&share, ascii("memo/stores").as_slice()))
                },
                None => None,
            },
        },
    };
    match chosen {
        None => {
            let none: Vec<u8> = Vec::new();
            Err(StoreError::new(Problem::NoDataRoot, &none))
        },
        Some(p) => if crate::path::path_is_absolute(&p) {
            Ok(p)
        } else {
            Ok(path_join(cwd, &p))
        },
    }
}


/// A store is selected without the repository's result wherever
/// `needs_repository` is false: `--store default`, `--store project:<id>`,
/// a named store, or no store named with automatic selection off.
pub proof fn lemma_select_without_repository(
    root: Seq<u8>,
    requested: Option<Seq<u8>>,
    auto: bool,
    first: Result<Option<Seq<u8>>, Failure>,
    second: Result<Option<Seq<u8>>, Failure>,
)
    requires
        !repository_needed(requested, auto),
    ensures
        selection_of(root, requested, auto, first) == selection_of(root, requested, auto, second),
{
}

/// An explicit `--store` wins over automatic project selection: the setting
/// plays no part once a store is named.
pub proof fn lemma_explicit_store_wins(
    root: Seq<u8>,
    name: Seq<u8>,
    repository: Result<Option<Seq<u8>>, Failure>,
)
    ensures
        selection_of(root, Some(name), true, repository) == selection_of(
            root,
            Some(name),
            false,
            repository,
        ),
{
}

/// Outside any repository, and wherever automatic selection is off, no
/// store named means the default store, `default/` under the root.
pub proof fn lemma_default_fallback(root: Seq<u8>, auto: bool, repository: Result<Option<Seq<u8>>, Failure>)
    requires
        !auto || repository == Ok::<Option<Seq<u8>>, Failure>(None),
    ensures
        selection_of(root, None, auto, repository) == Ok::<SelectionView, Failure>(
            default_selection(root),
        ),
{
}

/// A valid store name is one path component that cannot climb out of
/// `named/`: it holds neither `/` nor `.`, nor the `:` of a selector.
pub proof fn lemma_valid_name_is_one_component(name: Seq<u8>)
    requires
        valid_store_name(name),
    ensures
        forall|i: int|
            0 <= i < name.len() ==> #[trigger] name[i] != 47 && name[i] != 46 && name[i] != 58,
{
}

/// A selection's selector selects it again, from any directory and whatever
/// the working directory's repository and the automatic setting are: a
/// project store is pinned by `project:<id>`.
pub proof fn lemma_selector_reselects(
    root: Seq<u8>,
    s: SelectionView,
    auto: bool,
    repository: Result<Option<Seq<u8>>, Failure>,
)
    requires
        placed(root, s),
    ensures
        selection_of(root, Some(s.selector), auto, repository) == Ok::<SelectionView, Failure>(s),
{
    reveal_strlit("default");
    reveal_strlit("project");
    reveal_strlit("project:");
    match s.kind {
        KindView::Default => {},
        KindView::Named(name) => {
            if pinned_project(name) is Some {
                assert(name.take(8)[7] == lit("project:"@)[7]);
                assert(name[7] == 58);
            }
        },
        KindView::Project => {
            let id = choose|id: Seq<u8>| is_project_id(id) && s == #[trigger] project_selection(root, id);
            let sel = lit("project:"@) + id;
            assert(sel.len() == 72);
            assert(sel.take(8) =~= lit("project:"@));
            assert(sel.skip(8) =~= id);
        },
    }
}

/// What `join` puts before a relative path.
pub open spec fn join_prefix(base: Seq<u8>) -> Seq<u8> {
    if base.len() == 0 || base.last() == crate::path::sep() {
        base
    } else {
        base + seq![crate::path::sep()]
    }
}

proof fn lemma_join_relative(base: Seq<u8>, rel: Seq<u8>)
    requires
        !is_absolute(rel),
    ensures
        join(base, rel) == join_prefix(base) + rel,
{
    if !(base.len() == 0 || base.last() == crate::path::sep()) {
        assert(base + seq![crate::path::sep()] + rel =~= (base + seq![crate::path::sep()]) + rel);
    }
}

proof fn lemma_join_twice(base: Seq<u8>, first: Seq<u8>, second: Seq<u8>)
    requires
        first.len() > 0,
        !is_absolute(first),
        first.last() != crate::path::sep(),
        !is_absolute(second),
    ensures
        join(join(base, first), second) == join_prefix(base) + (first + seq![crate::path::sep()]
            + second),
{
    lemma_join_relative(base, first);
    let mid = join(base, first);
    assert(mid.last() == first.last());
    lemma_join_relative(mid, second);
    assert(join_prefix(mid) == mid + seq![crate::path::sep()]);
    assert(join_prefix(mid) + second =~= join_prefix(base) + (first + seq![crate::path::sep()]
        + second));
}

proof fn lemma_cancel_prefix(p: Seq<u8>, x: Seq<u8>, y: Seq<u8>)
    requires
        p + x == p + y,
    ensures
        x == y,
{
    assert((p + x).len() == p.len() + x.len());
    assert((p + y).len() == p.len() + y.len());
    assert forall|i: int| 0 <= i < x.len() implies x[i] == y[i] by {
        assert((p + x)[p.len() + i] == x[i]);
        assert((p + y)[p.len() + i] == y[i]);
    }
    assert(x =~= y);
}

/// `inner` lies inside the directory `outer`.
pub open spec fn inside(outer: Seq<u8>, inner: Seq<u8>) -> bool {
    inner.len() > outer.len() && inner.take(outer.len() + 1int) == outer.push(crate::path::sep())
}

pub open spec fn sep_free(s: Seq<u8>) -> bool {
    forall|i: int| 0 <= i < s.len() ==> #[trigger] s[i] != crate::path::sep()
}

/// The directory of a store class, after the root.
pub open spec fn class_dir(kind: KindView) -> Seq<u8> {
    match kind {
        KindView::Default => lit("default"@),
        KindView::Named(_) => lit("named"@) + seq![crate::path::sep()],
        KindView::Project => lit("projects"@) + seq![crate::path::sep()],
    }
}

/// The last component of a store directory inside its class directory.
pub open spec fn leaf(s: SelectionView) -> Seq<u8> {
    match s.kind {
        KindView::Default => Seq::empty(),
        KindView::Named(name) => name,
        KindView::Project => s.selector.skip(8),
    }
}

/// The selection of a class with a given last component.
pub open spec fn rebuilt(root: Seq<u8>, kind: KindView, last: Seq<u8>) -> SelectionView {
    match kind {
        KindView::Default => default_selection(root),
        KindView::Named(_) => named_selection(root, last),
        KindView::Project => project_selection(root, last),
    }
}

proof fn lemma_placed_path(root: Seq<u8>, s: SelectionView)
    requires
        placed(root, s),
    ensures
        s.path == join_prefix(root) + (class_dir(s.kind) + leaf(s)),
        sep_free(leaf(s)),
        class_dir(s.kind).len() > 0,
        class_dir(s.kind)[0] == match s.kind {
            KindView::Default => 100u8,
            KindView::Named(_) => 110u8,
            KindView::Project => 112u8,
        },
        s.kind is Default ==> leaf(s).len() == 0,
        s == rebuilt(root, s.kind, leaf(s)),
{
    reveal_strlit("default");
    reveal_strlit("named");
    reveal_strlit("projects");
    reveal_strlit("project:");
    match s.kind {
        KindView::Default => {
            lemma_join_relative(root, lit("default"@));
            assert(lit("default"@) + Seq::<u8>::empty() =~= lit("default"@));
        },
        KindView::Named(name) => {
            lemma_join_twice(root, lit("named"@), name);
            assert(lit("named"@) + seq![crate::path::sep()] + name =~= class_dir(s.kind) + name);
        },
        KindView::Project => {
            let id = choose|id: Seq<u8>| is_project_id(id) && s == #[trigger] project_selection(root, id);
            assert((lit("project:"@) + id).skip(8) =~= id);
            assert(id[0] != 47);
            lemma_join_twice(root, lit("projects"@), id);
            assert(lit("projects"@) + seq![crate::path::sep()] + id =~= class_dir(s.kind) + id);
        },
    }
}

/// The three classes of store are physically separate, and no store lies
/// inside another: two store directories under one root are equal only for
/// the same store, and neither is ever inside the other.
pub proof fn lemma_stores_apart(root: Seq<u8>, s1: SelectionView, s2: SelectionView)
    requires
        placed(root, s1),
        placed(root, s2),
    ensures
        s1.path == s2.path ==> s1 == s2,
        !inside(s1.path, s2.path),
{
    lemma_placed_path(root, s1);
    lemma_placed_path(root, s2);
    let p = join_prefix(root);
    let x = class_dir(s1.kind) + leaf(s1);
    let y = class_dir(s2.kind) + leaf(s2);
    if s1.path == s2.path {
        lemma_cancel_prefix(p, x, y);
        assert(x[0] == y[0]);
        lemma_same_class(s1.kind, s2.kind);
        lemma_cancel_prefix(class_dir(s1.kind), leaf(s1), leaf(s2));
    }
    if inside(s1.path, s2.path) {
        let n = p.len() as int;
        assert(s2.path.take(s1.path.len() + 1int)[n] == s1.path.push(crate::path::sep())[n]);
        assert(y[0] == x[0]);
        lemma_same_class(s1.kind, s2.kind);
        let t = class_dir(s1.kind);
        let k: int = n + t.len() + leaf(s1).len();
        assert(s2.path.take(s1.path.len() + 1int)[k] == s1.path.push(crate::path::sep())[k]);
        assert(s2.path[k] == crate::path::sep());
        assert(leaf(s2)[leaf(s1).len() as int] == s2.path[k]);
    }
}

proof fn lemma_same_class(k1: KindView, k2: KindView)
    requires
        class_dir(k1).len() > 0,
        class_dir(k2).len() > 0,
        class_dir(k1)[0] == match k1 {
            KindView::Default => 100u8,
            KindView::Named(_) => 110u8,
            KindView::Project => 112u8,
        },
        class_dir(k2)[0] == match k2 {
            KindView::Default => 100u8,
            KindView::Named(_) => 110u8,
            KindView::Project => 112u8,
        },
        class_dir(k1)[0] == class_dir(k2)[0],
    ensures
        class_dir(k1) == class_dir(k2),
        (k1 is Default) == (k2 is Default),
        (k1 is Named) == (k2 is Named),
        (k1 is Project) == (k2 is Project),
{
}

/// A data root taken from the environment is absolute and does not depend
/// on the working directory: relative `XDG_DATA_HOME` or `HOME` values are
/// never resolved against it.
pub proof fn lemma_env_root_ignores_cwd(
    xdg_data: Option<Seq<u8>>,
    home: Option<Seq<u8>>,
    cwd1: Seq<u8>,
    cwd2: Seq<u8>,
)
    ensures
        data_root(None, xdg_data, home, cwd1) == data_root(None, xdg_data, home, cwd2),
        data_root(None, xdg_data, home, cwd1) matches Ok(root) ==> is_absolute(root),
{
    reveal_strlit("memo/stores");
    reveal_strlit(".local/share");
    let stores = lit("memo/stores"@);
    let share = lit(".local/share"@);
    assert(!is_absolute(stores));
    assert(!is_absolute(share));
    if let Some(x) = env_root(xdg_data) {
        lemma_join_relative(x, stores);
        assert(join(x, stores)[0] == x[0]);
    } else if let Some(h) = env_root(home) {
        lemma_join_relative(h, share);
        let mid = join(h, share);
        assert(mid[0] == h[0]);
        lemma_join_relative(mid, stores);
        assert(join(mid, stores)[0] == mid[0]);
    }
}


/// Any nonempty name made only of ASCII letters, digits, `-` and `_` that is
/// neither `default` nor `project` is a valid store name, whatever its
/// length, and `--store` with it selects `named/<name>` under the root, with
/// the name as its selector.
pub proof fn lemma_plain_names_are_accepted(
    root: Seq<u8>,
    name: Seq<u8>,
    auto: bool,
    repository: Result<Option<Seq<u8>>, Failure>,
)
    requires
        name.len() > 0,
        name != lit("default"@),
        name != lit("project"@),
        forall|i: int|
            0 <= i < name.len() ==> {
                let b = #[trigger] name[i];
                (48 <= b <= 57) || (65 <= b <= 90) || (97 <= b <= 122) || b == 45 || b == 95
            },
    ensures
        valid_store_name(name),
        selection_of(root, Some(name), auto, repository) == Ok::<SelectionView, Failure>(
            SelectionView {
                kind: KindView::Named(name),
                path: join(join(root, lit("named"@)), name),
                selector: name,
            },
        ),
{
    reveal_strlit("project:");
    if pinned_project(name) is Some {
        assert(name.take(8)[7] == lit("project:"@)[7]);
        assert(name[7] == 58);
    }
}

/// A name with a byte other than an ASCII letter, digit, `-` or `_` (and
/// not a `project:<id>` selector), the empty name, and the reserved names
/// select no store: the failure is `InvalidStoreName` for that name.
pub proof fn lemma_other_names_are_refused(
    root: Seq<u8>,
    name: Seq<u8>,
    auto: bool,
    repository: Result<Option<Seq<u8>>, Failure>,
)
    requires
        name != lit("default"@),
        name != lit("project"@),
        pinned_project(name) is None,
        name.len() == 0 || exists|i: int|
            0 <= i < name.len() && {
                let b = #[trigger] name[i];
                !((48 <= b <= 57) || (65 <= b <= 90) || (97 <= b <= 122) || b == 45 || b == 95)
            },
    ensures
        selection_of(root, Some(name), auto, repository) == Err::<SelectionView, Failure>(
            Failure { problem: Problem::InvalidStoreName, path: name, cause: None },
        ),
{
}

/// A relative override of the data root is taken from the working
/// directory, whatever the environment holds; an absolute one is the root
/// itself.
pub proof fn lemma_override_root(
    over: Seq<u8>,
    xdg_data: Option<Seq<u8>>,
    home: Option<Seq<u8>>,
    cwd: Seq<u8>,
)
    ensures
        over.len() > 0 && over[0] == 47 ==> data_root(Some(over), xdg_data, home, cwd) == Ok::<
            Seq<u8>,
            Failure,
        >(over),
        !(over.len() > 0 && over[0] == 47) ==> data_root(Some(over), xdg_data, home, cwd) == Ok::<
            Seq<u8>,
            Failure,
        >(join(cwd, over)),
        !(over.len() > 0 && over[0] == 47) && cwd.len() > 0 && cwd.last() != 47
            ==> data_root(Some(over), xdg_data, home, cwd) == Ok::<Seq<u8>, Failure>(
            cwd + seq![47u8] + over,
        ),
{
}

/// Without an override the root is `$XDG_DATA_HOME/memo/stores` where that
/// is a nonempty absolute path, else `$HOME/.local/share/memo/stores` where
/// that is one, else there is none; the working directory plays no part.
pub proof fn lemma_environment_root(
    xdg_data: Option<Seq<u8>>,
    home: Option<Seq<u8>>,
    cwd: Seq<u8>,
)
    ensures
        xdg_data matches Some(x) && x.len() > 0 && x[0] == 47 ==> data_root(
            None,
            xdg_data,
            home,
            cwd,
        ) == Ok::<Seq<u8>, Failure>(join(xdg_data.unwrap(), lit("memo/stores"@))),
        !(xdg_data matches Some(x) && x.len() > 0 && x[0] == 47) && (home matches Some(h) && h.len()
            > 0 && h[0] == 47) ==> data_root(None, xdg_data, home, cwd) == Ok::<Seq<u8>, Failure>(
            join(join(home.unwrap(), lit(".local/share"@)), lit("memo/stores"@)),
        ),
        !(xdg_data matches Some(x) && x.len() > 0 && x[0] == 47) && !(home matches Some(h)
            && h.len() > 0 && h[0] == 47) ==> data_root(None, xdg_data, home, cwd) == Err::<
            Seq<u8>,
            Failure,
        >(Failure { problem: Problem::NoDataRoot, path: Seq::empty(), cause: None }),
{
    lemma_env_root_ignores_cwd(xdg_data, home, cwd, cwd);
}


/// The stores that `select` gives, spelled out: `--store default` (and no
/// store named outside a repository or with automatic selection off) gives
/// `default/` under the root; `--store project` (and no store named inside a
/// repository with automatic selection on) gives `projects/<id>` for the
/// repository's project id; `--store project:<id>` gives `projects/<id>`
/// wherever the command runs.
pub proof fn lemma_select_forms(
    root: Seq<u8>,
    requested: Option<Seq<u8>>,
    auto: bool,
    repository: Result<Option<Seq<u8>>, Failure>,
)
    ensures
        requested == Some(lit("default"@)) || (requested is None && (!auto || repository == Ok::<
            Option<Seq<u8>>,
            Failure,
        >(None))) ==> selection_of(root, requested, auto, repository) == Ok::<
            SelectionView,
            Failure,
        >(
            SelectionView {
                kind: KindView::Default,
                path: join(root, lit("default"@)),
                selector: lit("default"@),
            },
        ),
        (requested == Some(lit("project"@)) || (requested is None && auto)) ==> (repository matches Ok(
            Some(identity),
        ) ==> selection_of(root, requested, auto, repository) == Ok::<SelectionView, Failure>(
            SelectionView {
                kind: KindView::Project,
                path: join(join(root, lit("projects"@)), project_id_of(identity)),
                selector: lit("project:"@) + project_id_of(identity),
            },
        )),
        requested == Some(lit("project"@)) && repository == Ok::<Option<Seq<u8>>, Failure>(None)
            ==> selection_of(root, requested, auto, repository) == Err::<SelectionView, Failure>(
            Failure { problem: Problem::ProjectNeedsRepository, path: Seq::empty(), cause: None },
        ),
        (requested == Some(lit("project"@)) || (requested is None && auto)) ==> (repository matches Err(
            e,
        ) ==> selection_of(root, requested, auto, repository) == Err::<SelectionView, Failure>(e)),
        forall|id: Seq<u8>|
            #![trigger lit("project:"@) + id]
            id.len() == 64 && (forall|i: int|
                0 <= i < 64 ==> {
                    let b = #[trigger] id[i];
                    (48 <= b <= 57) || (97 <= b <= 102)
                }) && requested == Some(lit("project:"@) + id) ==> selection_of(
                root,
                requested,
                auto,
                repository,
            ) == Ok::<SelectionView, Failure>(
                SelectionView {
                    kind: KindView::Project,
                    path: join(join(root, lit("projects"@)), id),
                    selector: lit("project:"@) + id,
                },
            ),
{
    reveal_strlit("default");
    reveal_strlit("project");
    reveal_strlit("project:");
    assert forall|id: Seq<u8>|
        #![trigger lit("project:"@) + id]
        id.len() == 64 && (forall|i: int|
            0 <= i < 64 ==> {
                let b = #[trigger] id[i];
                (48 <= b <= 57) || (97 <= b <= 102)
            }) && requested == Some(lit("project:"@) + id) implies selection_of(
        root,
        requested,
        auto,
        repository,
    ) == Ok::<SelectionView, Failure>(
        SelectionView {
            kind: KindView::Project,
            path: join(join(root, lit("projects"@)), id),
            selector: lit("project:"@) + id,
        },
    ) by {
        let sel = lit("project:"@) + id;
        assert(sel.len() == 72);
        assert(sel.take(8) =~= lit("project:"@));
        assert(sel.skip(8) =~= id);
        assert(is_project_id(id));
    }
}

} // verus!

