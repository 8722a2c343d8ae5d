//! `Compile` translation: build arduino-cli's `CompileRequest`, map its
//! `CompileResponse` stream onto [`CompileEvent`]s, and locate the flashable
//! binary in the build directory the final result names. Backs the WS `compile`
//! request.
//!
//! arduino-cli compiles a sketch directory (not raw source), so the caller
//! materializes the source first and passes its path here.

use vstd::prelude::*;
use crate::error::{Error, ErrorView};
use crate::grpc::cli::{CompileMessage, CompileRequest, CompileResponse, Instance};
use crate::grpc::stream::{Frame, FrameStep};
use crate::text::{chars_of, decode_lossy, lossy_text, owned, spec_utf8_lossy};
use crate::ws::protocol::{Artifact, ArtifactView, CompileOptions};

verus! {

/// One translated step of a compile.
#[derive(Debug, Clone)]
pub enum CompileEvent {
    /// A stdout/stderr chunk from the compiler.
    Log(String),
    /// Compiler progress; `percent_bits` is the bit pattern of the `f32` percent.
    Progress { phase: String, percent_bits: u32 },
    /// Terminal success: the located build artifact.
    Done(Artifact),
}

pub enum CompileEventView {
    Log(Seq<char>),
    Progress(Seq<char>, u32),
    Done(ArtifactView),
}

impl View for CompileEvent {
    type V = CompileEventView;

    open spec fn view(&self) -> CompileEventView {
        match self {
            CompileEvent::Log(t) => CompileEventView::Log(t@),
            CompileEvent::Progress { phase, percent_bits } => CompileEventView::Progress(phase@, *percent_bits),
            CompileEvent::Done(a) => CompileEventView::Done(a@),
        }
    }
}

pub open spec fn strings_view(v: Seq<String>) -> Seq<Seq<char>> {
    v.map_values(|s: String| s@)
}

/// Assemble the `CompileRequest`: `library` carries both the editor-supplied
/// library paths and the resolved vendored library directories, in that order;
/// absent warnings become the empty string.
pub fn compile_request(
    instance: Instance,
    fqbn: &str,
    sketch_path: &str,
    opts: &CompileOptions,
    lib_dirs: &[String],
) -> (r: CompileRequest)
    ensures
        r.instance == Some(instance),
        r.fqbn@ == fqbn@,
        r.sketch_path@ == sketch_path@,
        r.verbose == opts.verbose,
        r.warnings@ == match opts.warnings {
            Some(w) => w@,
            None => Seq::empty(),
        },
        strings_view(r.library@) == strings_view(opts.libraries@) + strings_view(lib_dirs@),
        strings_view(r.build_properties@) == strings_view(opts.build_properties@),
{
    let mut library: Vec<String> = Vec::new();
    let n = opts.libraries.len();
    for i in 0..n
        invariant
            n == opts.libraries@.len(),
            strings_view(library@) == strings_view(opts.libraries@.take(i as int)),
    {
        let item = opts.libraries[i].clone();
        proof {
            assert(opts.libraries@.take(i + 1) =~= opts.libraries@.take(i as int).push(item));
        }
        let ghost before = library@;
        library.push(item);
        proof {
            assert(strings_view(library@) =~= strings_view(before).push(item@));
            assert(strings_view(opts.libraries@.take(i + 1)) =~= strings_view(opts.libraries@.take(i as int)).push(item@));
        }
    }
    proof {
        assert(opts.libraries@.take(n as int) =~= opts.libraries@);
    }
    let m = lib_dirs.len();
    for j in 0..m
        invariant
            m == lib_dirs@.len(),
            strings_view(library@) == strings_view(opts.libraries@) + strings_view(lib_dirs@.take(j as int)),
    {
        let item = lib_dirs[j].clone();
        proof {
            assert(lib_dirs@.take(j + 1) =~= lib_dirs@.take(j as int).push(item));
        }
        let ghost before = library@;
        library.push(item);
        proof {
            assert(strings_view(library@) =~= strings_view(before).push(item@));
            assert(strings_view(lib_dirs@.take(j + 1)) =~= strings_view(lib_dirs@.take(j as int)).push(item@));
            assert(strings_view(library@) =~= strings_view(opts.libraries@) + strings_view(lib_dirs@.take(j + 1)));
        }
    }
    proof {
        assert(lib_dirs@.take(m as int) =~= lib_dirs@);
    }
    let mut build_properties: Vec<String> = Vec::new();
    let k = opts.build_properties.len();
    for i in 0..k
        invariant
            k == opts.build_properties@.len(),
            strings_view(build_properties@) == strings_view(opts.build_properties@.take(i as int)),
    {
        let item = opts.build_properties[i].clone();
        proof {
            assert(opts.build_properties@.take(i + 1) =~= opts.build_properties@.take(i as int).push(item));
        }
        let ghost before = build_properties@;
        build_properties.push(item);
        proof {
            assert(strings_view(build_properties@) =~= strings_view(before).push(item@));
            assert(strings_view(opts.build_properties@.take(i + 1)) =~= strings_view(opts.build_properties@.take(i as int)).push(item@));
        }
    }
    proof {
        assert(opts.build_properties@.take(k as int) =~= opts.build_properties@);
    }
    let warnings = match &opts.warnings {
        Some(w) => w.clone(),
        None => String::new(),
    };
    CompileRequest {
        instance: Some(instance),
        fqbn: owned(fqbn),
        sketch_path: owned(sketch_path),
        verbose: opts.verbose,
        warnings,
        library,
        build_properties,
    }
}

/// A progress phase: the task name, or the freeform message when the name is
/// empty.
pub open spec fn spec_phase(name: Seq<char>, message: Seq<char>) -> Seq<char> {
    if name.len() == 0 {
        message
    } else {
        name
    }
}

/// What one response asks of the caller.
#[derive(Debug, Clone)]
pub enum Translation {
    /// An empty frame: nothing to surface.
    Empty,
    /// Surface this event.
    Event(CompileEvent),
    /// The build finished in this directory: locate its artifact
    /// ([`find_artifact`]) and surface [`artifact_event`].
    LocateArtifact(String),
}

/// Map one `CompileResponse`: text output becomes a log chunk (lossy UTF-8),
/// progress keeps its percent and takes [`spec_phase`] as its phase, and the
/// final result asks for the artifact in its build directory.
pub fn translate(resp: CompileResponse) -> (r: Translation)
    ensures
        match resp.message {
            Some(CompileMessage::OutStream(b)) => r matches Translation::Event(e) && e@
                == CompileEventView::Log(spec_utf8_lossy(b@)) && e@ == CompileEventView::Log(lossy_text(b@)),
            Some(CompileMessage::ErrStream(b)) => r matches Translation::Event(e) && e@
                == CompileEventView::Log(spec_utf8_lossy(b@)) && e@ == CompileEventView::Log(lossy_text(b@)),
            Some(CompileMessage::Progress(p)) => r matches Translation::Event(e) && e@
                == CompileEventView::Progress(spec_phase(p.name@, p.message@), p.percent_bits),
            Some(CompileMessage::Result { build_path }) => r matches Translation::LocateArtifact(d) && d@
                == build_path@,
            None => r is Empty,
        },
{
    match resp.message {
        Some(CompileMessage::OutStream(bytes)) => Translation::Event(CompileEvent::Log(decode_lossy(bytes.as_slice()))),
        Some(CompileMessage::ErrStream(bytes)) => Translation::Event(CompileEvent::Log(decode_lossy(bytes.as_slice()))),
        Some(CompileMessage::Progress(progress)) => {
            let phase = if progress.name.as_str().is_empty() {
                progress.message
            } else {
                progress.name
            };
            Translation::Event(CompileEvent::Progress { phase, percent_bits: progress.percent_bits })
        },
        Some(CompileMessage::Result { build_path }) => Translation::LocateArtifact(build_path),
        None => Translation::Empty,
    }
}

/// The event for a finished build: the located artifact, or a `daemon` error
/// naming the build directory when it holds no flashable binary.
pub fn artifact_event(build_path: &String, found: Option<Artifact>) -> (r: Result<CompileEvent, Error>)
    ensures
        match found {
            Some(a) => r matches Ok(CompileEvent::Done(x)) && x@ == a@,
            None => r matches Err(e) && e@ == ErrorView::Daemon(
                "compile produced no flashable artifact in "@ + build_path@,
            ),
        },
{
    match found {
        Some(artifact) => Ok(CompileEvent::Done(artifact)),
        None => {
            let mut m = owned("compile produced no flashable artifact in ");
            m.append(build_path.as_str());
            Err(Error::Daemon(m))
        },
    }
}

/// The event a compile message carries directly: text output becomes a log
/// chunk (lossy UTF-8) and progress keeps its percent with [`spec_phase`] as its
/// phase. The final result carries none by itself (its artifact is looked up).
pub open spec fn spec_message_event(m: CompileMessage) -> Option<CompileEventView> {
    match m {
        CompileMessage::OutStream(b) => Some(CompileEventView::Log(lossy_text(b@))),
        CompileMessage::ErrStream(b) => Some(CompileEventView::Log(lossy_text(b@))),
        CompileMessage::Progress(p) => Some(CompileEventView::Progress(spec_phase(p.name@, p.message@), p.percent_bits)),
        CompileMessage::Result { .. } => None,
    }
}

/// What reading one frame of the `Compile` stream produces.
#[derive(Debug)]
pub enum CompileStep {
    Step(FrameStep<CompileEvent>),
    /// The build finished in this directory: locate its artifact
    /// ([`find_artifact`]) and surface [`artifact_event`].
    LocateArtifact(String),
}

/// Read one frame of the `Compile` stream. A message becomes its event (empty
/// frames are skipped, the final result asks for its artifact); a failed status
/// becomes a `grpc` error; a clean end ends.
pub fn frame_step(frame: Frame<CompileResponse>) -> (r: CompileStep)
    ensures
        match frame {
            Frame::Message(resp) => match resp.message {
                Some(CompileMessage::Result { build_path }) => r matches CompileStep::LocateArtifact(d) && d@
                    == build_path@,
                None => r matches CompileStep::Step(FrameStep::Skip),
                Some(m) => r matches CompileStep::Step(FrameStep::Emit(Ok(e))) && spec_message_event(m) == Some(e@),
            },
            Frame::End => r matches CompileStep::Step(FrameStep::End),
            Frame::Failed(s) => r matches CompileStep::Step(FrameStep::Emit(Err(e))) && e@ == ErrorView::Grpc(s@),
        },
        match frame {
            Frame::Message(resp) => match resp.message {
                Some(CompileMessage::OutStream(b)) => r matches CompileStep::Step(
                    FrameStep::Emit(Ok(CompileEvent::Log(t))),
                ) && t@ == spec_utf8_lossy(b@),
                Some(CompileMessage::ErrStream(b)) => r matches CompileStep::Step(
                    FrameStep::Emit(Ok(CompileEvent::Log(t))),
                ) && t@ == spec_utf8_lossy(b@),
                _ => true,
            },
            _ => true,
        },
{
    match frame {
        Frame::Message(resp) => match translate(resp) {
            Translation::Event(event) => CompileStep::Step(FrameStep::Emit(Ok(event))),
            Translation::Empty => CompileStep::Step(FrameStep::Skip),
            Translation::LocateArtifact(dir) => CompileStep::LocateArtifact(dir),
        },
        Frame::End => CompileStep::Step(FrameStep::End),
        Frame::Failed(status) => CompileStep::Step(FrameStep::Emit(Err(Error::Grpc(status)))),
    }
}

/// One entry of a build directory: its file name and its full path.
#[derive(Debug, Clone)]
pub struct DirEntry {
    pub name: String,
    pub path: String,
}

/// `s` ends with `suffix`.
pub open spec fn ends_with(s: Seq<char>, suffix: Seq<char>) -> bool {
    suffix.len() <= s.len() && s.subrange(s.len() - suffix.len(), s.len() as int) == suffix
}

/// The index of the first entry whose name ends with `suffix`, from `i` on.
pub open spec fn first_with_suffix(entries: Seq<DirEntry>, suffix: Seq<char>, i: int) -> Option<int>
    decreases entries.len() - i,
{
    if i < 0 || i >= entries.len() {
        None
    } else if ends_with(entries[i].name@, suffix) {
        Some(i)
    } else {
        first_with_suffix(entries, suffix, i + 1)
    }
}

/// The artifact a build directory yields: the first `*.ino.hex` (AVR), else the
/// first `*.ino.bin` (ESP), else none. The `.ino.<ext>` suffix passes over
/// merged variants such as `*.ino.with_bootloader.hex`.
pub open spec fn spec_find_artifact(entries: Seq<DirEntry>) -> Option<ArtifactView> {
    match first_with_suffix(entries, ".ino.hex"@, 0) {
        Some(i) => Some(ArtifactView { format: "hex"@, path: entries[i].path@ }),
        None => match first_with_suffix(entries, ".ino.bin"@, 0) {
            Some(i) => Some(ArtifactView { format: "bin"@, path: entries[i].path@ }),
            None => None,
        },
    }
}

/// Whether a name ends with a suffix.
pub fn name_ends_with(name: &String, suffix: &str) -> (r: bool)
    ensures
        r == ends_with(name@, suffix@),
{
    let n = chars_of(name.as_str());
    let s = chars_of(suffix);
    if s.len() > n.len() {
        return false;
    }
    let nl = n.len();
    let off = nl - s.len();
    for i in 0..s.len()
        invariant
            off + s@.len() == nl,
            nl == n@.len(),
            n@ == name@,
            s@ == suffix@,
            forall|j: int| 0 <= j < i ==> n@[off + j] == s@[j],
    {
        if n[off + i] != s[i] {
            proof {
                assert(n@.subrange(off as int, n@.len() as int)[i as int] != s@[i as int]);
            }
            return false;
        }
    }
    proof {
        assert(n@.subrange(off as int, n@.len() as int) =~= s@);
    }
    true
}

/// The first entry whose name ends with `suffix`.
fn find_binary(entries: &[DirEntry], suffix: &str) -> (r: Option<usize>)
    ensures
        r matches Some(i) ==> i < entries@.len(),
        match r {
            Some(i) => first_with_suffix(entries@, suffix@, 0) == Some(i as int),
            None => first_with_suffix(entries@, suffix@, 0) is None,
        },
{
    let n = entries.len();
    for i in 0..n
        invariant
            n == entries@.len(),
            first_with_suffix(entries@, suffix@, 0) == first_with_suffix(entries@, suffix@, i as int),
    {
        if name_ends_with(&entries[i].name, suffix) {
            return Some(i);
        }
    }
    None
}

/// Locate the flashable binary among a build directory's entries (in the order
/// the directory lists them), preferring an AVR `.ino.hex`, then an ESP
/// `.ino.bin`.
pub fn find_artifact(entries: &[DirEntry]) -> (r: Option<Artifact>)
    ensures
        match r {
            Some(a) => spec_find_artifact(entries@) == Some(a@),
            None => spec_find_artifact(entries@) is None,
        },
{
    match find_binary(entries, ".ino.hex") {
        Some(i) => Some(Artifact { format: owned("hex"), path: entries[i].path.clone() }),
        None => match find_binary(entries, ".ino.bin") {
            Some(i) => Some(Artifact { format: owned("bin"), path: entries[i].path.clone() }),
            None => None,
        },
    }
}

proof fn lemma_first_with_suffix_found(entries: Seq<DirEntry>, suffix: Seq<char>, i: int, k: int)
    requires
        0 <= k <= i < entries.len(),
        ends_with(entries[i].name@, suffix),
        forall|j: int| k <= j < i ==> !ends_with(#[trigger] entries[j].name@, suffix),
    ensures
        first_with_suffix(entries, suffix, k) == Some(i),
    decreases i - k,
{
    if k < i {
        lemma_first_with_suffix_found(entries, suffix, i, k + 1);
    }
}

proof fn lemma_first_with_suffix_absent(entries: Seq<DirEntry>, suffix: Seq<char>, k: int)
    requires
        0 <= k,
        forall|j: int| k <= j < entries.len() ==> !ends_with(#[trigger] entries[j].name@, suffix),
    ensures
        first_with_suffix(entries, suffix, k) is None,
    decreases entries.len() - k,
{
    if k < entries.len() {
        lemma_first_with_suffix_absent(entries, suffix, k + 1);
    }
}

proof fn lemma_first_with_suffix_sound(entries: Seq<DirEntry>, suffix: Seq<char>, k: int)
    requires
        0 <= k,
    ensures
        first_with_suffix(entries, suffix, k) matches Some(i) ==> k <= i < entries.len() && ends_with(
            entries[i].name@,
            suffix,
        ),
        first_with_suffix(entries, suffix, k) is None ==> forall|j: int|
            k <= j < entries.len() ==> !ends_with(#[trigger] entries[j].name@, suffix),
    decreases entries.len() - k,
{
    if k < entries.len() {
        lemma_first_with_suffix_sound(entries, suffix, k + 1);
    }
}

/// An AVR build is flashed from its hex image: when some entry's name ends
/// with `.ino.hex`, the artifact is the first such entry, in `hex` format.
pub proof fn lemma_artifact_prefers_first_ino_hex(entries: Seq<DirEntry>, i: int)
    requires
        0 <= i < entries.len(),
        entries[i].name@.len() >= 8,
        entries[i].name@.subrange(entries[i].name@.len() - 8, entries[i].name@.len() as int) == ".ino.hex"@,
        forall|j: int| 0 <= j < i ==> !(#[trigger] entries[j].name@.len() >= 8 && entries[j].name@.subrange(
            entries[j].name@.len() - 8,
            entries[j].name@.len() as int,
        ) == ".ino.hex"@),
    ensures
        spec_find_artifact(entries) == Some(ArtifactView { format: "hex"@, path: entries[i].path@ }),
{
    reveal_strlit(".ino.hex");
    lemma_first_with_suffix_found(entries, ".ino.hex"@, i, 0);
}

/// Without a hex image, the sketch's own binary is flashed: the artifact is the
/// first entry whose name ends with `.ino.bin`, in `bin` format. Other `.bin`
/// files of the build (such as `*.ino.bootloader.bin` or `*.ino.partitions.bin`)
/// do not end with `.ino.bin` and are never chosen.
pub proof fn lemma_artifact_falls_back_to_first_ino_bin(entries: Seq<DirEntry>, i: int)
    requires
        forall|j: int| 0 <= j < entries.len() ==> !(#[trigger] entries[j].name@.len() >= 8 && entries[j].name@.subrange(
            entries[j].name@.len() - 8,
            entries[j].name@.len() as int,
        ) == ".ino.hex"@),
        0 <= i < entries.len(),
        entries[i].name@.len() >= 8,
        entries[i].name@.subrange(entries[i].name@.len() - 8, entries[i].name@.len() as int) == ".ino.bin"@,
        forall|j: int| 0 <= j < i ==> !(#[trigger] entries[j].name@.len() >= 8 && entries[j].name@.subrange(
            entries[j].name@.len() - 8,
            entries[j].name@.len() as int,
        ) == ".ino.bin"@),
    ensures
        spec_find_artifact(entries) == Some(ArtifactView { format: "bin"@, path: entries[i].path@ }),
{
    reveal_strlit(".ino.hex");
    reveal_strlit(".ino.bin");
    lemma_first_with_suffix_absent(entries, ".ino.hex"@, 0);
    lemma_first_with_suffix_found(entries, ".ino.bin"@, i, 0);
}

/// Only a sketch image is ever flashed: a found artifact is the path of an
/// entry whose name ends with `.ino.hex` (format `hex`) or `.ino.bin` (format
/// `bin`), and nothing is found when no name ends with either.
pub proof fn lemma_artifact_is_a_sketch_image(entries: Seq<DirEntry>)
    ensures
        spec_find_artifact(entries) matches Some(a) ==> exists|i: int|
            0 <= i < entries.len() && #[trigger] entries[i].path@ == a.path && entries[i].name@.len() >= 8 && (
            (a.format == "hex"@ && entries[i].name@.subrange(
                entries[i].name@.len() - 8,
                entries[i].name@.len() as int,
            ) == ".ino.hex"@) || (a.format == "bin"@ && entries[i].name@.subrange(
                entries[i].name@.len() - 8,
                entries[i].name@.len() as int,
            ) == ".ino.bin"@)),
        (forall|j: int| 0 <= j < entries.len() ==> !(#[trigger] entries[j].name@.len() >= 8 && (entries[j].name@.subrange(
            entries[j].name@.len() - 8,
            entries[j].name@.len() as int,
        ) == ".ino.hex"@ || entries[j].name@.subrange(
            entries[j].name@.len() - 8,
            entries[j].name@.len() as int,
        ) == ".ino.bin"@))) ==> spec_find_artifact(entries) is None,
{
    reveal_strlit(".ino.hex");
    reveal_strlit(".ino.bin");
    lemma_first_with_suffix_sound(entries, ".ino.hex"@, 0);
    lemma_first_with_suffix_sound(entries, ".ino.bin"@, 0);
    if let Some(a) = spec_find_artifact(entries) {
        match first_with_suffix(entries, ".ino.hex"@, 0) {
            Some(i) => {
                assert(entries[i].path@ == a.path);
            },
            None => {
                let i = first_with_suffix(entries, ".ino.bin"@, 0)->0;
                assert(entries[i].path@ == a.path);
            },
        }
    }
    if forall|j: int| 0 <= j < entries.len() ==> !(#[trigger] entries[j].name@.len() >= 8 && (entries[j].name@.subrange(
        entries[j].name@.len() - 8,
        entries[j].name@.len() as int,
    ) == ".ino.hex"@ || entries[j].name@.subrange(
        entries[j].name@.len() - 8,
        entries[j].name@.len() as int,
    ) == ".ino.bin"@)) {
        lemma_first_with_suffix_absent(entries, ".ino.hex"@, 0);
        lemma_first_with_suffix_absent(entries, ".ino.bin"@, 0);
    }
}

/// Compiler output that is valid UTF-8 reaches the editor as exactly its UTF-8
/// decoding.
pub proof fn lemma_compile_log_is_exact_utf8(m: CompileMessage, b: Vec<u8>)
    requires
        m == CompileMessage::OutStream(b) || m == CompileMessage::ErrStream(b),
        vstd::utf8::valid_utf8(b@),
    ensures
        spec_message_event(m) == Some(CompileEventView::Log(vstd::utf8::decode_utf8(b@))),
{
}

} // verus!
