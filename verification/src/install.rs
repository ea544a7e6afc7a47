//! The link-installation decision procedure.
//!
//! The shell around the library performs the filesystem calls; everything it
//! must decide — how a source path turns into a resolved source, which link
//! name and final path are used, whether an occupied destination may be
//! overwritten, and which outcome an invocation ends with — is computed here
//! from plain values.

use crate::error::{EXIT_GENERIC, EXIT_IO};
use crate::names::{
    append_bytes, copy_range, ext_helper, lemma_rfind_properties, rfind_byte, spec_reconcile,
    spec_rfind,
};
use vstd::prelude::*;

verus! {

/// Why an invocation failed.
#[derive(Debug, Clone, Copy, PartialEq, Eq, Structural)]
pub enum ErrorKind {
    /// The source argument does not resolve to an existing filesystem entry.
    InvalidPath,
    /// The resolved source has no usable final name component.
    UnusableSource,
    /// The running executable's own location cannot be determined.
    EnvironmentUnavailable,
    /// The operating-system call creating or replacing the link failed.
    LinkCreationFailed,
}

/// How an invocation that reached the conflict check ended.
#[derive(Debug, Clone, Copy, PartialEq, Eq, Structural)]
pub enum LinkOutcome {
    /// The destination was free and the link was created.
    Created,
    /// The destination was occupied, `force` was given, and the entry was
    /// replaced by the link.
    OverwrittenExisting,
    /// The destination was occupied, `force` was not given, and nothing was
    /// changed.
    RejectedExisting,
}

/// What the conflict check tells the shell to do.
#[derive(Debug, Clone, Copy, PartialEq, Eq, Structural)]
pub enum ConflictDecision {
    /// The destination is free: create the link.
    CreateNew,
    /// The destination is occupied and may be overwritten: remove the entry,
    /// then create the link.
    Overwrite,
    /// The destination is occupied and must be left alone.
    Reject,
}

/// One invocation's input, as it comes from the command line.
#[derive(Debug, PartialEq, Eq)]
pub struct LinkRequest {
    /// The path of the executable to link, as given by the user.
    pub source_path: Vec<u8>,
    /// An optional name for the link, distinct from the source's own name.
    pub alias: Option<Vec<u8>>,
    /// Whether an occupied destination may be overwritten.
    pub force: bool,
    /// Whether the shell prints diagnostic lines for intermediate steps.
    pub verbose: bool,
}

/// A source path after canonicalization, with its final name component.
#[derive(Debug, PartialEq, Eq)]
pub struct ResolvedSource {
    /// The absolute, symlink-resolved path of the source.
    pub absolute_path: Vec<u8>,
    /// The final path component of `absolute_path`.
    pub base_name: Vec<u8>,
}

impl ResolvedSource {
    /// The base name is the non-empty final component of the absolute path.
    pub open spec fn wf(&self, sep: u8) -> bool {
        &&& self.base_name@.len() > 0
        &&& self.base_name@ == spec_base_name(self.absolute_path@, sep)
    }
}

/// Where the link goes: the hosting directory, the chosen link name, and the
/// two joined into the path of the entry to create.
#[derive(Debug, PartialEq, Eq)]
pub struct InstallTarget {
    /// The directory holding the running executable.
    pub directory: Vec<u8>,
    /// The name the link is created under.
    pub link_name: Vec<u8>,
    /// `directory` and `link_name` joined by the platform's separator.
    pub final_path: Vec<u8>,
}

impl InstallTarget {
    /// The final path is the directory and the link name, joined.
    pub open spec fn wf(&self, sep: u8) -> bool {
        self.final_path@ == spec_join(self.directory@, self.link_name@, sep)
    }
}

/// An optional byte string, seen abstractly.
pub open spec fn view_opt(o: Option<Vec<u8>>) -> Option<Seq<u8>> {
    match o {
        None => None,
        Some(v) => Some(v@),
    }
}

/// The final component of `path`: everything after the last separator, or
/// all of `path` when it holds none.
pub open spec fn spec_base_name(path: Seq<u8>, sep: u8) -> Seq<u8> {
    match spec_rfind(path, sep) {
        None => path,
        Some(i) => path.subrange(i + 1, path.len() as int),
    }
}

/// `dir` and `name` joined by `sep`; a directory already ending in `sep`
/// (a filesystem root) gets no second one.
pub open spec fn spec_join(dir: Seq<u8>, name: Seq<u8>, sep: u8) -> Seq<u8> {
    if dir.len() > 0 && dir[dir.len() - 1] == sep {
        dir + name
    } else {
        dir + seq![sep] + name
    }
}

/// What resolving a source yields: the canonical path with its base name, or
/// the error owed for this input.
pub open spec fn spec_resolve(canonical: Option<Seq<u8>>, sep: u8) -> Result<
    (Seq<u8>, Seq<u8>),
    ErrorKind,
> {
    match canonical {
        None => Err(ErrorKind::InvalidPath),
        Some(p) => {
            let base = spec_base_name(p, sep);
            if base.len() == 0 {
                Err(ErrorKind::UnusableSource)
            } else {
                Ok((p, base))
            }
        },
    }
}

/// The name the link is created under: the source's own base name when no
/// alias was given, the reconciled alias otherwise.
pub open spec fn spec_link_name(base: Seq<u8>, alias: Option<Seq<u8>>, ext_semantics: bool) -> Seq<
    u8,
> {
    match alias {
        None => base,
        Some(a) => spec_reconcile(base, a, ext_semantics),
    }
}

/// The final component of `path`, as a fresh vector.
pub fn base_name_of(path: &Vec<u8>, sep: u8) -> (r: Vec<u8>)
    ensures
        r@ == spec_base_name(path@, sep),
{
    match rfind_byte(path, sep) {
        None => {
            let r = copy_range(path, 0, path.len());
            proof {
                assert(path@.subrange(0, path@.len() as int) =~= path@);
            }
            r
        },
        Some(i) => {
            proof {
                lemma_rfind_properties(path@, sep);
            }
            let n = path.len();
            assert(i + 1 <= n);
            copy_range(path, i + 1, n)
        },
    }
}

/// Turns the result of canonicalizing the user's source path into a resolved
/// source. `None` stands for a path that did not resolve; a resolved path
/// whose final component is empty is unusable.
pub fn resolve_source(canonical: Option<Vec<u8>>, sep: u8) -> (r: Result<ResolvedSource, ErrorKind>)
    ensures
        match r {
            Ok(src) => {
                &&& spec_resolve(view_opt(canonical), sep) == Ok::<_, ErrorKind>(
                    (src.absolute_path@, src.base_name@),
                )
                &&& src.wf(sep)
            },
            Err(k) => spec_resolve(view_opt(canonical), sep) == Err::<(Seq<u8>, Seq<u8>),
                ErrorKind,
            >(k),
        },
        canonical is None ==> r == Err::<ResolvedSource, ErrorKind>(ErrorKind::InvalidPath),
{
    match canonical {
        None => Err(ErrorKind::InvalidPath),
        Some(p) => {
            let base = base_name_of(&p, sep);
            if base.len() == 0 {
                Err(ErrorKind::UnusableSource)
            } else {
                Ok(ResolvedSource { absolute_path: p, base_name: base })
            }
        },
    }
}

/// Resolving the same source path twice in the same invocation yields the
/// same resolved source.
pub proof fn lemma_resolution_deterministic(
    canonical: Option<Seq<u8>>,
    sep: u8,
    r1: Result<(Seq<u8>, Seq<u8>), ErrorKind>,
    r2: Result<(Seq<u8>, Seq<u8>), ErrorKind>,
)
    requires
        r1 == spec_resolve(canonical, sep),
        r2 == spec_resolve(canonical, sep),
    ensures
        r1 == r2,
{
}

/// Chooses the link's name. With no alias the source's base name is used
/// unchanged on every platform; with one, the alias is reconciled with the
/// source's extension.
pub fn determine_link_name(base_name: &Vec<u8>, alias: &Option<Vec<u8>>, ext_semantics: bool) -> (r:
    Vec<u8>)
    ensures
        r@ == spec_link_name(base_name@, view_opt(*alias), ext_semantics),
        alias is None ==> r@ == base_name@,
{
    match alias {
        None => {
            let r = copy_range(base_name, 0, base_name.len());
            proof {
                assert(base_name@.subrange(0, base_name@.len() as int) =~= base_name@);
            }
            r
        },
        Some(a) => ext_helper(base_name, a, ext_semantics),
    }
}

/// `dir` and `name` joined by `sep`, as a fresh vector.
pub fn join_path(dir: &Vec<u8>, name: &Vec<u8>, sep: u8) -> (r: Vec<u8>)
    ensures
        r@ == spec_join(dir@, name@, sep),
{
    if dir.len() > 0 && dir[dir.len() - 1] == sep {
        append_bytes(dir, name)
    } else {
        let mut d = copy_range(dir, 0, dir.len());
        proof {
            assert(dir@.subrange(0, dir@.len() as int) =~= dir@);
        }
        d.push(sep);
        proof {
            assert(d@ =~= dir@ + seq![sep]);
        }
        append_bytes(&d, name)
    }
}

/// Builds the install target from the hosting directory and the chosen link
/// name.
pub fn make_target(directory: Vec<u8>, link_name: Vec<u8>, sep: u8) -> (t: InstallTarget)
    ensures
        t.directory == directory,
        t.link_name == link_name,
        t.wf(sep),
{
    let final_path = join_path(&directory, &link_name, sep);
    InstallTarget { directory, link_name, final_path }
}

/// What the whole planning phase yields: the hosting directory with the
/// chosen link name, or the error owed for these inputs.
pub open spec fn spec_plan(
    canonical: Option<Seq<u8>>,
    exe_dir: Option<Seq<u8>>,
    alias: Option<Seq<u8>>,
    ext_semantics: bool,
    sep: u8,
) -> Result<(Seq<u8>, Seq<u8>), ErrorKind> {
    match spec_resolve(canonical, sep) {
        Err(k) => Err(k),
        Ok((abs, base)) => match exe_dir {
            None => Err(ErrorKind::EnvironmentUnavailable),
            Some(d) => Ok((d, spec_link_name(base, alias, ext_semantics))),
        },
    }
}

/// The planning phase of one invocation: resolve the source, take the
/// hosting directory, choose the link name, and build the target — or fail
/// with the error owed for these inputs.
///
/// `canonical` is the result of canonicalizing the user's source path;
/// `exe_dir` the directory of the running executable, when it could be
/// determined.
pub fn plan_install(
    canonical: Option<Vec<u8>>,
    exe_dir: Option<Vec<u8>>,
    alias: &Option<Vec<u8>>,
    ext_semantics: bool,
    sep: u8,
) -> (r: Result<InstallTarget, ErrorKind>)
    ensures
        match r {
            Ok(t) => {
                &&& spec_plan(
                    view_opt(canonical),
                    view_opt(exe_dir),
                    view_opt(*alias),
                    ext_semantics,
                    sep,
                ) == Ok::<_, ErrorKind>((t.directory@, t.link_name@))
                &&& t.wf(sep)
            },
            Err(k) => spec_plan(
                view_opt(canonical),
                view_opt(exe_dir),
                view_opt(*alias),
                ext_semantics,
                sep,
            ) == Err::<(Seq<u8>, Seq<u8>), ErrorKind>(k),
        },
        canonical is None ==> r == Err::<InstallTarget, ErrorKind>(ErrorKind::InvalidPath),
{
    let source = match resolve_source(canonical, sep) {
        Ok(src) => src,
        Err(k) => {
            return Err(k);
        },
    };
    let directory = match exe_dir {
        Some(d) => d,
        None => {
            return Err(ErrorKind::EnvironmentUnavailable);
        },
    };
    let link_name = determine_link_name(&source.base_name, alias, ext_semantics);
    Ok(make_target(directory, link_name, sep))
}

/// The conflict policy: a free destination is filled, an occupied one is
/// overwritten only under `force`, and otherwise left untouched.
pub fn decide_conflict(occupied: bool, force: bool) -> (d: ConflictDecision)
    ensures
        !occupied ==> d == ConflictDecision::CreateNew,
        occupied && force ==> d == ConflictDecision::Overwrite,
        occupied && !force ==> d == ConflictDecision::Reject,
{
    if !occupied {
        ConflictDecision::CreateNew
    } else if force {
        ConflictDecision::Overwrite
    } else {
        ConflictDecision::Reject
    }
}

/// Whether a decision asks the shell to touch the filesystem at all. A
/// rejected conflict performs no mutation.
pub fn needs_os_action(d: &ConflictDecision) -> (b: bool)
    ensures
        b == (*d != ConflictDecision::Reject),
{
    match d {
        ConflictDecision::Reject => false,
        _ => true,
    }
}

/// Maps a decision and the success of the shell's link-creation call to the
/// invocation's outcome. For a rejected conflict no call was made and the
/// outcome is `RejectedExisting` whatever `link_created` holds.
pub fn outcome_of(d: &ConflictDecision, link_created: bool) -> (r: Result<LinkOutcome, ErrorKind>)
    ensures
        *d == ConflictDecision::Reject ==> r == Ok::<LinkOutcome, ErrorKind>(
            LinkOutcome::RejectedExisting,
        ),
        *d == ConflictDecision::CreateNew && link_created ==> r == Ok::<LinkOutcome, ErrorKind>(
            LinkOutcome::Created,
        ),
        *d == ConflictDecision::Overwrite && link_created ==> r == Ok::<LinkOutcome, ErrorKind>(
            LinkOutcome::OverwrittenExisting,
        ),
        *d != ConflictDecision::Reject && !link_created ==> r == Err::<LinkOutcome, ErrorKind>(
            ErrorKind::LinkCreationFailed,
        ),
{
    match d {
        ConflictDecision::Reject => Ok(LinkOutcome::RejectedExisting),
        ConflictDecision::CreateNew => {
            if link_created {
                Ok(LinkOutcome::Created)
            } else {
                Err(ErrorKind::LinkCreationFailed)
            }
        },
        ConflictDecision::Overwrite => {
            if link_created {
                Ok(LinkOutcome::OverwrittenExisting)
            } else {
                Err(ErrorKind::LinkCreationFailed)
            }
        },
    }
}

/// The process exit code reserved for each failure: environment and I/O
/// failures share one code, everything user-correctable the other.
pub open spec fn spec_exit_code(kind: ErrorKind) -> i32 {
    match kind {
        ErrorKind::UnusableSource => EXIT_GENERIC,
        _ => EXIT_IO,
    }
}

/// The exit code the process ends with for a failure of kind `kind`.
pub fn exit_code(kind: &ErrorKind) -> (code: i32)
    ensures
        code == spec_exit_code(*kind),
{
    match kind {
        ErrorKind::UnusableSource => EXIT_GENERIC,
        _ => EXIT_IO,
    }
}

} // verus!
