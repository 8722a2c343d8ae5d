//! The served resource root: a single-version directory of installed packs
//! (block definitions, generators, device manifests, vendored library sources)
//! that the helper serves to the editor and from which `compile` resolves
//! `{pack, lib}` library references.
//!
//! The filesystem is probed at the edge: a [`PathProbe`] reports what
//! canonicalizing a path found. This module decides, from that report, whether
//! a root or a library directory is acceptable, and in particular that a
//! library reference never resolves outside the root. Paths are joined and
//! compared by `std::path`, under the conventions of the target the helper is
//! built for.

use vstd::prelude::*;
use crate::error::{Error, ErrorView};
use crate::text::owned;
use crate::ws::protocol::LibRef;

verus! {

/// What canonicalizing a path found on disk.
#[derive(Debug, Clone)]
pub enum PathProbe {
    /// The path could not be canonicalized; holds the I/O error's text.
    Unreadable(String),
    /// The path's canonical (absolute, symlink-free) form, and whether it is a
    /// directory.
    Resolved { canonical: String, is_dir: bool },
}

pub enum ProbeView {
    Unreadable(Seq<char>),
    Resolved(Seq<char>, bool),
}

impl View for PathProbe {
    type V = ProbeView;

    open spec fn view(&self) -> ProbeView {
        match self {
            PathProbe::Unreadable(e) => ProbeView::Unreadable(e@),
            PathProbe::Resolved { canonical, is_dir } => ProbeView::Resolved(canonical@, *is_dir),
        }
    }
}

/// What `Path::join` gives for two paths, under the path conventions of the
/// target the helper is built for.
pub uninterp spec fn spec_path_join(base: Seq<char>, p: Seq<char>) -> Seq<char>;

/// `Path::new(base).join(p)`, as a string. On every target an absolute `p`
/// replaces `base` and a relative one is appended after a separator; which
/// paths are absolute, and the separator, follow the target's conventions
/// (`/` on Unix; `\`, `/`, drive and verbatim prefixes on Windows), so the
/// result is named rather than stated. Joining two UTF-8 strings gives UTF-8,
/// so the conversion back loses nothing.
#[verifier::external_body]
pub(crate) fn join(base: &String, p: &String) -> (r: String)
    ensures
        r@ == spec_path_join(base@, p@),
{
    std::path::Path::new(base.as_str()).join(p.as_str()).to_string_lossy().into_owned()
}

/// What `Path::starts_with` answers for two paths, under the path conventions
/// of the target the helper is built for.
pub uninterp spec fn spec_path_starts_with(path: Seq<char>, base: Seq<char>) -> bool;

/// `Path::new(path).starts_with(base)`: whether `base` is a prefix of `path`,
/// comparing whole components only. How a path splits into components (root,
/// prefixes, separators) follows the target's conventions, so the answer is
/// named rather than stated.
#[verifier::external_body]
pub(crate) fn path_starts_with(path: &String, base: &String) -> (r: bool)
    ensures
        r == spec_path_starts_with(path@, base@),
{
    std::path::Path::new(path.as_str()).starts_with(base.as_str())
}

/// The directory of installed packs the helper serves, by its canonical path.
#[derive(Debug, Clone)]
pub struct ResourceRoot {
    root: String,
}

impl View for ResourceRoot {
    type V = Seq<char>;

    closed spec fn view(&self) -> Seq<char> {
        self.root@
    }
}

/// The outcome of validating a configured root from what probing it found.
pub open spec fn spec_new_root(path: Seq<char>, probe: ProbeView) -> Result<Seq<char>, ErrorView> {
    match probe {
        ProbeView::Unreadable(e) => Err(
            ErrorView::Resource("resource root "@ + path + " is unreadable: "@ + e),
        ),
        ProbeView::Resolved(canonical, is_dir) => if is_dir {
            Ok(canonical)
        } else {
            Err(ErrorView::Resource("resource root "@ + canonical + " is not a directory"@))
        },
    }
}

/// The path a `{pack, lib}` reference names before canonicalization.
pub open spec fn spec_lib_candidate(root: Seq<char>, pack: Seq<char>, lib: Seq<char>) -> Seq<char> {
    spec_path_join(spec_path_join(root, pack), lib)
}

/// The outcome of resolving a `{pack, lib}` reference from what probing its
/// candidate path found: it must exist, stay within the root, and be a directory.
pub open spec fn spec_resolve_lib(
    root: Seq<char>,
    pack: Seq<char>,
    lib: Seq<char>,
    probe: ProbeView,
) -> Result<Seq<char>, ErrorView> {
    match probe {
        ProbeView::Unreadable(e) => Err(
            ErrorView::Resource("library "@ + lib + " of pack "@ + pack + " is not available: "@ + e),
        ),
        ProbeView::Resolved(canonical, is_dir) => if !spec_path_starts_with(canonical, root) {
            Err(ErrorView::Resource("library "@ + lib + " of pack "@ + pack + " escapes the resource root"@))
        } else if !is_dir {
            Err(ErrorView::Resource("library "@ + lib + " of pack "@ + pack + " is not a directory"@))
        } else {
            Ok(canonical)
        },
    }
}

pub open spec fn result_view(r: Result<String, Error>) -> Result<Seq<char>, ErrorView> {
    match r {
        Ok(s) => Ok(s@),
        Err(e) => Err(e@),
    }
}

fn cat3(a: &str, b: &String, c: &str) -> (r: String)
    ensures
        r@ == a@ + b@ + c@,
{
    let mut s = owned(a);
    s.append(b.as_str());
    s.append(c);
    s
}

fn lib_message(lib: &String, pack: &String, tail: &str) -> (r: String)
    ensures
        r@ == "library "@ + lib@ + " of pack "@ + pack@ + tail@,
{
    let mut s = cat3("library ", lib, " of pack ");
    s.append(pack.as_str());
    s.append(tail);
    s
}

/// Resolve a list of references in order: the directories of all of them, or
/// the error of the first that fails.
pub open spec fn spec_resolve_all(root: Seq<char>, refs: Seq<(LibRef, PathProbe)>) -> Result<Seq<Seq<char>>, ErrorView>
    decreases refs.len(),
{
    if refs.len() == 0 {
        Ok(Seq::empty())
    } else {
        match spec_resolve_all(root, refs.drop_last()) {
            Err(e) => Err(e),
            Ok(dirs) => match spec_resolve_lib(root, refs.last().0.pack@, refs.last().0.lib@, refs.last().1@) {
                Ok(d) => Ok(dirs.push(d)),
                Err(e) => Err(e),
            },
        }
    }
}

/// Once a prefix of the references fails, every longer prefix fails the same
/// way.
proof fn lemma_resolve_all_error_sticks(root: Seq<char>, refs: Seq<(LibRef, PathProbe)>, i: int, j: int)
    requires
        0 <= i <= j <= refs.len(),
        spec_resolve_all(root, refs.take(i)) is Err,
    ensures
        spec_resolve_all(root, refs.take(j)) == spec_resolve_all(root, refs.take(i)),
    decreases j - i,
{
    if i < j {
        lemma_resolve_all_error_sticks(root, refs, i, j - 1);
        assert(refs.take(j).drop_last() =~= refs.take(j - 1));
    }
}

impl ResourceRoot {
    /// Validate the configured root from what canonicalizing `path` found:
    /// fail with an actionable message if it is missing or is not a directory,
    /// otherwise keep its canonical path.
    pub fn new(path: &String, probe: PathProbe) -> (r: Result<ResourceRoot, Error>)
        ensures
            match (r, spec_new_root(path@, probe@)) {
                (Ok(root), Ok(p)) => root@ == p,
                (Err(e), Err(ev)) => e@ == ev,
                _ => false,
            },
    {
        match probe {
            PathProbe::Unreadable(e) => {
                let mut m = cat3("resource root ", path, " is unreadable: ");
                m.append(e.as_str());
                Err(Error::Resource(m))
            },
            PathProbe::Resolved { canonical, is_dir } => {
                if is_dir {
                    Ok(ResourceRoot { root: canonical })
                } else {
                    Err(Error::Resource(cat3("resource root ", &canonical, " is not a directory")))
                }
            },
        }
    }

    /// The canonical root directory, for the static-file route to serve from.
    pub fn path(&self) -> (r: &String)
        ensures
            r@ == self@,
    {
        &self.root
    }

    /// The path a `{pack, lib}` reference names: `<root>/<pack>/<lib>`, to be
    /// canonicalized and then resolved with [`ResourceRoot::resolve_lib_dir`].
    pub fn lib_dir_candidate(&self, pack: &String, lib: &String) -> (r: String)
        ensures
            r@ == spec_lib_candidate(self@, pack@, lib@),
    {
        join(&join(&self.root, pack), lib)
    }

    /// Resolve every `{pack, lib}` reference, each paired with what probing its
    /// candidate path found, in order: all their directories, or the first
    /// failure.
    pub fn resolve_lib_dirs(&self, refs: &[(LibRef, PathProbe)]) -> (r: Result<Vec<String>, Error>)
        ensures
            match (r, spec_resolve_all(self@, refs@)) {
                (Ok(dirs), Ok(ds)) => dirs@.map_values(|d: String| d@) == ds,
                (Err(e), Err(ev)) => e@ == ev,
                _ => false,
            },
    {
        let mut dirs: Vec<String> = Vec::new();
        let n = refs.len();
        proof {
            assert(refs@.take(0) =~= Seq::<(LibRef, PathProbe)>::empty());
            assert(dirs@.map_values(|d: String| d@) =~= Seq::<Seq<char>>::empty());
        }
        for i in 0..n
            invariant
                n == refs@.len(),
                spec_resolve_all(self@, refs@.take(i as int)) == Ok::<Seq<Seq<char>>, ErrorView>(
                    dirs@.map_values(|d: String| d@),
                ),
        {
            let (lib_ref, probe) = &refs[i];
            let one = self.resolve_lib_dir(&lib_ref.pack, &lib_ref.lib, probe);
            proof {
                assert(refs@.take(i + 1).drop_last() =~= refs@.take(i as int));
                assert(refs@.take(i + 1).last() == refs@[i as int]);
            }
            match one {
                Ok(d) => {
                    let ghost before = dirs@;
                    dirs.push(d);
                    proof {
                        assert(dirs@.map_values(|d: String| d@) =~= before.map_values(|d: String| d@).push(d@));
                    }
                },
                Err(e) => {
                    proof {
                        lemma_resolve_all_error_sticks(self@, refs@, i + 1, n as int);
                        assert(refs@.take(n as int) =~= refs@);
                    }
                    return Err(e);
                },
            }
        }
        proof {
            assert(refs@.take(n as int) =~= refs@);
        }
        Ok(dirs)
    }

    /// Resolve a `{pack, lib}` reference from what canonicalizing its candidate
    /// path found. The library directory must exist, lie within the root (whole
    /// path components), and be a directory.
    pub fn resolve_lib_dir(&self, pack: &String, lib: &String, probe: &PathProbe) -> (r: Result<String, Error>)
        ensures
            result_view(r) == spec_resolve_lib(self@, pack@, lib@, probe@),
    {
        match probe {
            PathProbe::Unreadable(e) => {
                let mut m = lib_message(lib, pack, " is not available: ");
                m.append(e.as_str());
                Err(Error::Resource(m))
            },
            PathProbe::Resolved { canonical, is_dir } => {
                if !path_starts_with(canonical, &self.root) {
                    Err(Error::Resource(lib_message(lib, pack, " escapes the resource root")))
                } else if !*is_dir {
                    Err(Error::Resource(lib_message(lib, pack, " is not a directory")))
                } else {
                    Ok(canonical.clone())
                }
            },
        }
    }
}

/// The root is what canonicalizing its path found: an accepted root is the
/// canonical path the probe reported, and the probe found a directory there.
pub proof fn lemma_root_is_probed_directory(path: Seq<char>, probe: ProbeView)
    ensures
        spec_new_root(path, probe) matches Ok(root) ==> probe == ProbeView::Resolved(root, true),
{
}

/// Rebuilding the root from its own path gives the same root, as long as
/// canonicalizing that path again finds the same directory (a canonical
/// directory canonicalizes to itself while the filesystem is unchanged).
pub proof fn lemma_rebuild_root_from_its_path(path: Seq<char>, probe: ProbeView)
    ensures
        spec_new_root(path, probe) matches Ok(root) ==> spec_new_root(root, ProbeView::Resolved(root, true))
            == Ok::<Seq<char>, ErrorView>(root),
{
}

/// A library reference never escapes the root: whatever the reference and
/// whatever canonicalization found, a resolved directory lies within the root,
/// whole path components compared, as `Path::starts_with` compares them.
pub proof fn lemma_resolved_lib_stays_within_root(
    root: Seq<char>,
    pack: Seq<char>,
    lib: Seq<char>,
    probe: ProbeView,
)
    ensures
        spec_resolve_lib(root, pack, lib, probe) matches Ok(dir) ==> spec_path_starts_with(dir, root)
            && probe == ProbeView::Resolved(dir, true),
{
}

} // verus!
