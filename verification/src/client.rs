//! What the desktop client uploads of a project folder.

use vstd::prelude::*;
use crate::codec::{base64_decoding, base64_text, decodes_to, decode_contents, encode_contents};
use std::io::Cursor;
use zip::ZipArchive;
use crate::text::{chars_of, joined, same_text, string_of};
use crate::validation::{is_path_safe, is_safe_path};

verus! {

broadcast use vstd::string::group_string_axioms;

/// A path component whose subtree is never uploaded: hidden entries, build
/// outputs, version control and dependency folders.
pub open spec fn is_skipped_name(name: Seq<char>) -> bool {
    ||| name.len() > 0 && name[0] == '.'
    ||| name == "target"@
    ||| name == "build"@
    ||| name == ".git"@
    ||| name == "node_modules"@
    ||| name == "dist"@
    ||| name == "__pycache__"@
}

/// The only components that keep their subtree out of an upload are hidden
/// ones (starting with `.`) and `target`, `build`, `.git`, `node_modules`,
/// `dist` and `__pycache__`; every other folder, such as `src` or `include`,
/// is uploaded.
pub proof fn law_skipped_names(name: Seq<char>)
    ensures
        is_skipped_name(name) <==> ((name.len() > 0 && name[0] == '.') || name == "target"@
            || name == "build"@ || name == "node_modules"@ || name == "dist"@ || name
            == "__pycache__"@),
{
    reveal_strlit(".git");
    if name == ".git"@ {
        assert(name[0] == '.');
    }
}

/// A non-empty path none of whose components is hidden or one of the skipped
/// folder names is uploaded, under itself with its backslashes turned into
/// slashes.
pub proof fn law_unskipped_paths_are_uploaded(components: Seq<String>, rel: Seq<char>)
    requires
        rel.len() > 0,
        forall|i: int| 0 <= i < components.len() ==> {
            let n = #[trigger] components[i]@;
            &&& !(n.len() > 0 && n[0] == '.')
            &&& n != "target"@ && n != "build"@ && n != "node_modules"@ && n != "dist"@
            &&& n != "__pycache__"@
        },
    ensures
        upload_path(components, rel) == Some(with_forward_slashes(rel)),
{
    assert forall|i: int| 0 <= i < components.len() implies !is_skipped_name(
        #[trigger] components[i]@,
    ) by {
        law_skipped_names(components[i]@);
    }
}

/// Whether a path component excludes its subtree from the upload.
pub fn is_skipped_component(name: &str) -> (r: bool)
    ensures
        r == is_skipped_name(name@),
{
    let c = chars_of(name);
    (c.len() > 0 && c[0] == '.') || same_text(name, "target") || same_text(name, "build")
        || same_text(name, ".git") || same_text(name, "node_modules") || same_text(name, "dist")
        || same_text(name, "__pycache__")
}

/// A relative path with every backslash turned into a slash.
pub open spec fn with_forward_slashes(rel: Seq<char>) -> Seq<char> {
    rel.map_values(|c: char| if c == '\\' { '/' } else { c })
}

/// Two different relative paths without backslashes are uploaded under
/// different paths: turning backslashes into slashes merges no two of them.
pub proof fn law_distinct_paths_stay_distinct(a: Seq<char>, b: Seq<char>)
    requires
        a != b,
        !a.contains('\\'),
        !b.contains('\\'),
    ensures
        with_forward_slashes(a) != with_forward_slashes(b),
{
    if a.len() == b.len() {
        assert(!(a =~= b));
        let i = choose|i: int| 0 <= i < a.len() && a[i] != b[i];
        assert(a[i] != '\\' && b[i] != '\\');
        assert(with_forward_slashes(a)[i] == a[i]);
        assert(with_forward_slashes(b)[i] == b[i]);
    } else {
        assert(with_forward_slashes(a).len() == a.len());
        assert(with_forward_slashes(b).len() == b.len());
    }
}

/// The upload path of an entry with relative path `rel`, made of
/// `components`: none when a component is skipped or the path is empty.
pub open spec fn upload_path(components: Seq<String>, rel: Seq<char>) -> Option<Seq<char>> {
    if exists|i: int| 0 <= i < components.len() && is_skipped_name(#[trigger] components[i]@) {
        None
    } else if rel.len() == 0 {
        None
    } else {
        Some(with_forward_slashes(rel))
    }
}

/// The path under which an entry of the project folder is uploaded, if it is.
pub fn project_path(components: &Vec<String>, rel: &str) -> (r: Option<String>)
    ensures
        r matches Some(p) ==> upload_path(components@, rel@) == Some(p@),
        r is None ==> upload_path(components@, rel@) is None,
{
    let n = components.len();
    for i in 0..n
        invariant
            n == components@.len(),
            forall|j: int| 0 <= j < i ==> !is_skipped_name(#[trigger] components@[j]@),
    {
        if is_skipped_component(components[i].as_str()) {
            return None;
        }
    }
    let c = chars_of(rel);
    if c.len() == 0 {
        return None;
    }
    let mut out: Vec<char> = Vec::new();
    let m = c.len();
    for i in 0..m
        invariant
            m == c@.len(),
            c@ == rel@,
            out@ == with_forward_slashes(c@.take(i as int)),
    {
        let ch = if c[i] == '\\' {
            '/'
        } else {
            c[i]
        };
        out.push(ch);
        assert(with_forward_slashes(c@.take(i + 1)) =~= with_forward_slashes(c@.take(i as int)).push(ch));
    }
    assert(c@.take(m as int) =~= c@);
    Some(string_of(out.as_slice()))
}

/// One file of the project as it is uploaded.
pub struct ProjectFileEntry {
    pub path: String,
    pub content: String,
}

/// A project file with its contents in Base64, ready to upload.
pub fn project_file(path: String, data: &[u8]) -> (e: ProjectFileEntry)
    ensures
        e.path@ == path@,
        e.content@ == base64_text(data@),
        decodes_to(e.content@, data@),
{
    ProjectFileEntry { path, content: encode_contents(data) }
}


/// `zip::ZipArchive`, carried opaquely.
#[verifier::external_type_specification]
#[verifier::external_body]
#[verifier::reject_recursive_types(R)]
pub struct ExZipArchive<R>(ZipArchive<R>);

/// `std::io::Cursor`, carried opaquely.
#[verifier::external_type_specification]
#[verifier::external_body]
#[verifier::reject_recursive_types(T)]
pub struct ExCursor<T>(Cursor<T>);

/// What `ZipArchive::new` makes of `bytes`: the number of entries
/// (`ZipArchive::len`), or the `Display` text of its error.
pub uninterp spec fn zip_opening(bytes: Seq<u8>) -> Result<nat, Seq<char>>;

/// What `ZipArchive::by_index` gives for entry `index` of the archive in
/// `bytes`: the entry's name and whether it is a directory, or the `Display`
/// text of its error.
pub uninterp spec fn zip_entry_header(bytes: Seq<u8>, index: int) -> Result<(Seq<char>, bool), Seq<char>>;

/// The contents of entry `index` of the archive in `bytes`, as reading the
/// entry that `ZipArchive::by_index` gives yields them, or the `Display` text
/// of the error met.
pub uninterp spec fn zip_entry_data(bytes: Seq<u8>, index: int) -> Result<Seq<u8>, Seq<char>>;

/// The bytes an opened archive reads from.
pub uninterp spec fn archive_bytes(a: ZipArchive<Cursor<Vec<u8>>>) -> Seq<u8>;

/// `ZipArchive::new` over the bytes in a `Cursor`, its error turned into its
/// `Display` text. Claimed: the archive reads from `bytes`, and the outcome is
/// `zip_opening(bytes)`.
#[verifier::external_body]
fn open_zip(bytes: Vec<u8>) -> (r: Result<ZipArchive<Cursor<Vec<u8>>>, String>)
    ensures
        r matches Ok(a) ==> (archive_bytes(a) == bytes@ && zip_opening(bytes@) is Ok),
        r matches Err(e) ==> (zip_opening(bytes@) matches Err(m) && m == e@),
{
    match ZipArchive::new(Cursor::new(bytes)) {
        Ok(a) => Ok(a),
        Err(e) => Err(e.to_string()),
    }
}

/// The number of entries that opening the archive in `bytes` finds, or 0
/// where it cannot be opened.
pub open spec fn entry_count(bytes: Seq<u8>) -> nat {
    match zip_opening(bytes) {
        Ok(n) => n,
        Err(_) => 0,
    }
}

/// `ZipArchive::len`. Claimed: the number of entries that opening the
/// archive's bytes found.
#[verifier::external_body]
fn zip_len(a: &ZipArchive<Cursor<Vec<u8>>>) -> (r: usize)
    ensures
        r == entry_count(archive_bytes(*a)),
{
    a.len()
}

/// `ZipArchive::by_index`, giving the entry's name (`ZipFile::name`) and
/// whether it is a directory (`ZipFile::is_dir`), its error turned into its
/// `Display` text. Claimed: the outcome is `zip_entry_header` of the bytes and
/// index, and the archive still reads from the same bytes.
#[verifier::external_body]
fn zip_header(a: &mut ZipArchive<Cursor<Vec<u8>>>, i: usize) -> (r: Result<(String, bool), String>)
    ensures
        archive_bytes(*final(a)) == archive_bytes(*old(a)),
        r matches Ok(h) ==> (zip_entry_header(archive_bytes(*old(a)), i as int) matches Ok(x)
            && x.0 == h.0@ && x.1 == h.1),
        r matches Err(e) ==> (zip_entry_header(archive_bytes(*old(a)), i as int) matches Err(m)
            && m == e@),
{
    match a.by_index(i) {
        Ok(f) => Ok((f.name().to_string(), f.is_dir())),
        Err(e) => Err(e.to_string()),
    }
}

/// `ZipArchive::by_index`, then reading the whole entry
/// (`std::io::Read::read_to_end`); either error turned into its `Display` text.
/// Claimed: the outcome is `zip_entry_data` of the bytes and index, and the
/// archive still reads from the same bytes.
#[verifier::external_body]
fn zip_data(a: &mut ZipArchive<Cursor<Vec<u8>>>, i: usize) -> (r: Result<Vec<u8>, String>)
    ensures
        archive_bytes(*final(a)) == archive_bytes(*old(a)),
        r matches Ok(d) ==> (zip_entry_data(archive_bytes(*old(a)), i as int) matches Ok(x) && x
            == d@),
        r matches Err(e) ==> (zip_entry_data(archive_bytes(*old(a)), i as int) matches Err(m) && m
            == e@),
{
    let mut f = match a.by_index(i) {
        Ok(f) => f,
        Err(e) => return Err(e.to_string()),
    };
    let mut data: Vec<u8> = Vec::new();
    match std::io::Read::read_to_end(&mut f, &mut data) {
        Ok(_) => Ok(data),
        Err(e) => Err(e.to_string()),
    }
}

/// The names of the file entries (not directories) among the first `n`
/// entries of the archive in `bytes`, in archive order.
pub open spec fn file_names(bytes: Seq<u8>, n: int) -> Seq<Seq<char>>
    decreases n,
{
    if n <= 0 {
        seq![]
    } else {
        let prev = file_names(bytes, n - 1);
        match zip_entry_header(bytes, n - 1) {
            Ok(h) => if h.1 {
                prev
            } else {
                prev.push(h.0)
            },
            Err(_) => prev,
        }
    }
}

/// A list of names, as texts.
pub open spec fn names_view(v: Vec<String>) -> Seq<Seq<char>> {
    v@.map_values(|s: String| s@)
}

/// Where an extraction stands.
pub enum ExtractStage {
    AwaitOutputDir,
    AwaitDir,
    AwaitParentDir,
    AwaitCreate,
    AwaitWrite,
}

/// The directory, below the destination, that a build's output is unpacked into.
pub open spec fn output_dir_name() -> Seq<char> {
    "build-output"@
}

/// The error that ends an extraction at an entry whose name is not a safe
/// relative path.
pub open spec fn unsafe_entry_message(name: Seq<char>) -> Seq<char> {
    "Unsafe path in archive: "@ + name
}

/// What an extraction asks the client to do next: make the output directory
/// `dir` below the destination; then, for each entry, named by a safe
/// relative path below that output directory, make its directory, or make
/// its parent directory, create the file and write its contents.
pub enum ExtractAction {
    CreateOutputDir { dir: String },
    CreateDir { name: String },
    CreateParentDir { name: String },
    CreateFile { name: String },
    WriteFile { name: String, data: Vec<u8> },
}

/// Every entry name that the action carries is a safe relative path.
pub open spec fn action_names_safe(a: ExtractAction) -> bool {
    match a {
        ExtractAction::CreateOutputDir { .. } => true,
        ExtractAction::CreateDir { name } => is_safe_path(name@),
        ExtractAction::CreateParentDir { name } => is_safe_path(name@),
        ExtractAction::CreateFile { name } => is_safe_path(name@),
        ExtractAction::WriteFile { name, .. } => is_safe_path(name@),
    }
}

/// An extraction of a build output archive in progress.
pub struct ExtractJob {
    archive: ZipArchive<Cursor<Vec<u8>>>,
    count: usize,
    next: usize,
    current: String,
    pending: Vec<u8>,
    extracted: Vec<String>,
    stage: ExtractStage,
}

/// The state of an extraction: the archive's bytes and number of entries,
/// the entry it is at and that entry's name, the contents about to be
/// written, the names of the files extracted so far, and where it stands.
pub struct ExtractView {
    pub bytes: Seq<u8>,
    pub count: nat,
    pub next: int,
    pub current: Seq<char>,
    pub pending: Seq<u8>,
    pub extracted: Seq<Seq<char>>,
    pub stage: ExtractStage,
}

impl View for ExtractJob {
    type V = ExtractView;

    closed spec fn view(&self) -> ExtractView {
        ExtractView {
            bytes: archive_bytes(self.archive),
            count: self.count as nat,
            next: self.next as int,
            current: self.current@,
            pending: self.pending@,
            extracted: names_view(self.extracted),
            stage: self.stage,
        }
    }
}

/// What comes of a step of an extraction: more work, or the names of the
/// files extracted (or the error met).
pub enum ExtractStep {
    Perform(ExtractJob, ExtractAction),
    Finished(Result<Vec<String>, String>),
}

/// The step ends the extraction with the error `m`.
pub open spec fn extract_fails(s: ExtractStep, m: Seq<char>) -> bool {
    s matches ExtractStep::Finished(Err(e)) && e@ == m
}

/// The step asks for no action that names an unsafe path.
pub open spec fn step_names_safe(s: ExtractStep) -> bool {
    s matches ExtractStep::Perform(_, a) ==> action_names_safe(a)
}

/// The step takes up entry `i` of the archive: it ends when there is none
/// left, with the names extracted; it fails on an entry that cannot be read
/// or whose name is not a safe relative path; it makes a directory entry's
/// directory, or a file entry's parent directory.
pub open spec fn entry_step(
    bytes: Seq<u8>,
    count: nat,
    i: int,
    extracted: Seq<Seq<char>>,
    s: ExtractStep,
) -> bool {
    if i >= count {
        s matches ExtractStep::Finished(Ok(names)) && names_view(names) == extracted
    } else {
        match zip_entry_header(bytes, i) {
            Err(m) => extract_fails(s, m),
            Ok(h) => if !is_safe_path(h.0) {
                extract_fails(s, unsafe_entry_message(h.0))
            } else {
                s matches ExtractStep::Perform(j, a) && j@.bytes == bytes && j@.count == count
                    && j@.next == i && j@.current == h.0 && j@.extracted == extracted && if h.1 {
                    j@.stage is AwaitDir && (a matches ExtractAction::CreateDir { name } && name@
                        == h.0)
                } else {
                    j@.stage is AwaitParentDir && (a matches ExtractAction::CreateParentDir {
                        name,
                    } && name@ == h.0)
                }
            },
        }
    }
}

/// The step moves on within entry `v.next`, to `stage`, the rest of the
/// state unchanged.
pub open spec fn same_entry(v: ExtractView, j: ExtractView, stage: ExtractStage) -> bool {
    j.stage == stage && j.bytes == v.bytes && j.count == v.count && j.next == v.next && j.current
        == v.current && j.extracted == v.extracted
}

/// One step of an extraction, taking the outcome of the work last asked for.
pub open spec fn extract_step(v: ExtractView, outcome: Result<(), String>, s: ExtractStep) -> bool {
    match outcome {
        Err(e) => extract_fails(s, e@),
        Ok(_) => match v.stage {
            ExtractStage::AwaitOutputDir => entry_step(v.bytes, v.count, 0, v.extracted, s),
            ExtractStage::AwaitDir => entry_step(v.bytes, v.count, v.next + 1, v.extracted, s),
            ExtractStage::AwaitParentDir => s matches ExtractStep::Perform(
                j,
                ExtractAction::CreateFile { name },
            ) && name@ == v.current && same_entry(v, j@, ExtractStage::AwaitCreate),
            ExtractStage::AwaitCreate => match zip_entry_data(v.bytes, v.next) {
                Err(m) => extract_fails(s, m),
                Ok(data) => s matches ExtractStep::Perform(j, ExtractAction::WriteFile { name, data: d })
                    && name@ == v.current && d@ == data && same_entry(v, j@, ExtractStage::AwaitWrite),
            },
            ExtractStage::AwaitWrite => entry_step(
                v.bytes,
                v.count,
                v.next + 1,
                v.extracted.push(v.current),
                s,
            ),
        },
    }
}

/// Takes up entry `i`.
fn take_up_entry(
    archive: ZipArchive<Cursor<Vec<u8>>>,
    count: usize,
    i: usize,
    extracted: Vec<String>,
) -> (s: ExtractStep)
    requires
        zip_opening(archive_bytes(archive)) == Ok::<nat, Seq<char>>(count as nat),
        i <= count,
        names_view(extracted) == file_names(archive_bytes(archive), i as int),
    ensures
        entry_step(archive_bytes(archive), count as nat, i as int, names_view(extracted), s),
        step_names_safe(s),
{
    if i == count {
        return ExtractStep::Finished(Ok(extracted));
    }
    let mut archive = archive;
    match zip_header(&mut archive, i) {
        Err(e) => ExtractStep::Finished(Err(e)),
        Ok((name, is_dir)) => {
            if !is_path_safe(name.as_str()) {
                return ExtractStep::Finished(Err(joined("Unsafe path in archive: ", name.as_str())));
            }
            let action = if is_dir {
                ExtractAction::CreateDir { name: name.clone() }
            } else {
                ExtractAction::CreateParentDir { name: name.clone() }
            };
            let stage = if is_dir {
                ExtractStage::AwaitDir
            } else {
                ExtractStage::AwaitParentDir
            };
            let j = ExtractJob {
                archive,
                count,
                next: i,
                current: name,
                pending: Vec::new(),
                extracted,
                stage,
            };
            ExtractStep::Perform(j, action)
        },
    }
}

/// Starts extracting a build output archive sent as Base64 text: text that
/// does not decode, or bytes that are no archive, end it at once; otherwise
/// the output directory is made first.
pub fn extract_zip(data: &str) -> (s: ExtractStep)
    ensures
        base64_decoding(data@) matches Err(m) ==> extract_fails(s, m),
        base64_decoding(data@) matches Ok(bytes) ==> match zip_opening(bytes) {
            Err(m) => extract_fails(s, m),
            Ok(n) => s matches ExtractStep::Perform(j, ExtractAction::CreateOutputDir { dir })
                && dir@ == output_dir_name() && j@.bytes == bytes && j@.count == n && j@.next == 0
                && j@.extracted == Seq::<Seq<char>>::empty() && j@.stage is AwaitOutputDir,
        },
        step_names_safe(s),
{
    let bytes = match decode_contents(data) {
        Ok(b) => b,
        Err(e) => return ExtractStep::Finished(Err(e)),
    };
    let archive = match open_zip(bytes) {
        Ok(a) => a,
        Err(e) => return ExtractStep::Finished(Err(e)),
    };
    let count = zip_len(&archive);
    let extracted: Vec<String> = Vec::new();
    assert(names_view(extracted) =~= Seq::<Seq<char>>::empty());
    let j = ExtractJob {
        archive,
        count,
        next: 0,
        current: String::new(),
        pending: Vec::new(),
        extracted,
        stage: ExtractStage::AwaitOutputDir,
    };
    ExtractStep::Perform(j, ExtractAction::CreateOutputDir { dir: "build-output".to_owned() })
}

impl ExtractJob {
    #[verifier::type_invariant]
    spec fn wf(self) -> bool {
        let bytes = archive_bytes(self.archive);
        &&& zip_opening(bytes) == Ok::<nat, Seq<char>>(self.count as nat)
        &&& self.next <= self.count
        &&& self.stage is AwaitOutputDir ==> self.next == 0
        &&& names_view(self.extracted) == file_names(bytes, self.next as int)
        &&& !(self.stage is AwaitOutputDir) ==> {
            &&& self.next < self.count
            &&& zip_entry_header(bytes, self.next as int) matches Ok(h)
            &&& h.0 == self.current@
            &&& h.1 == (self.stage is AwaitDir)
            &&& is_safe_path(self.current@)
        }
        &&& self.stage is AwaitWrite ==> (zip_entry_data(bytes, self.next as int) matches Ok(d)
            && d == self.pending@)
    }

    /// Takes the outcome of the work last asked for and decides the next step.
    pub fn resume(self, outcome: Result<(), String>) -> (s: ExtractStep)
        ensures
            extract_step(self@, outcome, s),
            step_names_safe(s),
            s matches ExtractStep::Finished(Ok(names)) ==> names_view(names) == file_names(
                self@.bytes,
                self@.count as int,
            ),
    {
        proof {
            use_type_invariant(&self);
        }
        let ghost v = self@;
        if let Err(e) = outcome {
            return ExtractStep::Finished(Err(e));
        }
        let ExtractJob { archive, count, next, current, pending, extracted, stage } = self;
        match stage {
            ExtractStage::AwaitOutputDir => take_up_entry(archive, count, 0, extracted),
            ExtractStage::AwaitDir => {
                proof {
                    assert(file_names(v.bytes, next + 1) == file_names(v.bytes, next as int));
                }
                take_up_entry(archive, count, next + 1, extracted)
            },
            ExtractStage::AwaitParentDir => {
                let action = ExtractAction::CreateFile { name: current.clone() };
                let j = ExtractJob {
                    archive,
                    count,
                    next,
                    current,
                    pending,
                    extracted,
                    stage: ExtractStage::AwaitCreate,
                };
                ExtractStep::Perform(j, action)
            },
            ExtractStage::AwaitCreate => {
                let mut archive = archive;
                match zip_data(&mut archive, next) {
                    Err(e) => ExtractStep::Finished(Err(e)),
                    Ok(data) => {
                        let action = ExtractAction::WriteFile { name: current.clone(), data: data.clone() };
                        let j = ExtractJob {
                            archive,
                            count,
                            next,
                            current,
                            pending: data,
                            extracted,
                            stage: ExtractStage::AwaitWrite,
                        };
                        ExtractStep::Perform(j, action)
                    },
                }
            },
            ExtractStage::AwaitWrite => {
                let ghost before = extracted;
                let mut extracted = extracted;
                extracted.push(current);
                proof {
                    assert(names_view(extracted) =~= names_view(before).push(v.current));
                    assert(file_names(v.bytes, next + 1) == file_names(v.bytes, next as int).push(
                        v.current,
                    ));
                }
                take_up_entry(archive, count, next + 1, extracted)
            },
        }
    }
}

} // verus!
