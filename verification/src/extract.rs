//! The extractor: from the entries of an archive to the steps that rebuild
//! the tree under a destination root.

use crate::codec::archive_source;
use crate::codec::container_accepted;
use crate::codec::entry_opens;
use crate::codec::entry_reads;
use crate::codec::entry_content;
use crate::codec::entry_enclosed_name;
use crate::codec::entry_name;
use crate::codec::io_error_text;
use crate::codec::join_path;
use crate::codec::joined_path;
use crate::codec::name_is_enclosed;
use crate::codec::open_reader;
use crate::codec::parent_path;
use crate::codec::path_parent;
use crate::codec::reader_by_index;
use crate::codec::reader_len;
use crate::codec::stored_entries;
use crate::codec::zip_error_text;
use crate::error::ArchiveError;
use crate::names::is_directory_name;
use crate::names::is_refused_name;
use crate::names::spec_is_refused_name;
use crate::names::spec_is_directory_name;
use crate::names::text_view;
use std::io::Cursor;
use vstd::prelude::*;
use zip::ZipArchive;

verus! {

/// One thing to do on disk for one archive entry.
#[derive(Clone, Debug, PartialEq, Eq)]
pub enum ExtractStep {
    /// Create the directory and all its missing ancestors; do nothing where
    /// it exists already.
    MakeDir { path: String },
    /// Make sure that the parent directory chain exists, then create or
    /// truncate the file and write the content into it.
    WriteFile { path: String, parent: Option<String>, content: Vec<u8> },
}

/// The mathematical value of an `ExtractStep`.
pub enum StepView {
    MakeDir { path: Seq<char> },
    WriteFile { path: Seq<char>, parent: Option<Seq<char>>, content: Seq<u8> },
}

impl View for ExtractStep {
    type V = StepView;

    open spec fn view(&self) -> StepView {
        match *self {
            ExtractStep::MakeDir { path } => StepView::MakeDir { path: path@ },
            ExtractStep::WriteFile { path, parent, content } => StepView::WriteFile {
                path: path@,
                parent: match parent {
                    Some(p) => Some(p@),
                    None => None,
                },
                content: content@,
            },
        }
    }
}

/// The view of an optional step.
pub open spec fn step_view(step: Option<ExtractStep>) -> Option<StepView> {
    match step {
        Some(s) => Some(s@),
        None => None,
    }
}

/// The views of a sequence of steps, in order.
pub open spec fn step_views(steps: Seq<ExtractStep>) -> Seq<StepView> {
    Seq::new(steps.len(), |i: int| steps[i]@)
}

/// The step for one entry, given what the codec said of its name: no step
/// where the codec found no safe destination, nor where the name is empty,
/// starts at the root or holds a `..` component, whatever the codec said; a
/// directory for a name that ends in `/`; otherwise a file with the entry's
/// content. The output path is the safe relative path joined onto the
/// destination root.
pub open spec fn spec_plan_entry(
    dest: Seq<char>,
    name: Seq<char>,
    enclosed: Option<Seq<char>>,
    content: Seq<u8>,
) -> Option<StepView> {
    match enclosed {
        None => None,
        Some(relative) => {
            let path = joined_path(dest, relative);
            if name.len() == 0 || spec_is_refused_name(name) {
                None
            } else if spec_is_directory_name(name) {
                Some(StepView::MakeDir { path })
            } else {
                Some(StepView::WriteFile { path, parent: parent_path(path), content })
            }
        },
    }
}

/// The step for one stored entry: `spec_plan_entry` with the codec's own
/// judgement of the entry's name.
pub open spec fn planned_step(dest: Seq<char>, entry: (Seq<char>, Seq<u8>)) -> Option<StepView> {
    spec_plan_entry(
        dest,
        entry.0,
        if name_is_enclosed(entry.0) {
            Some(entry.0)
        } else {
            None
        },
        entry.1,
    )
}

/// Whether an entry of this name is extracted as a file, so that its
/// content is read.
pub open spec fn becomes_file(name: Seq<char>) -> bool {
    name_is_enclosed(name) && name.len() > 0 && !spec_is_refused_name(name)
        && !spec_is_directory_name(name)
}

/// Whether the step for the entry at a position of the archive made of
/// these bytes can be decided: the codec can take the entry out, and can
/// read its content where the entry becomes a file.
pub open spec fn step_succeeds(bytes: Seq<u8>, index: int) -> bool {
    entry_opens(bytes, index) && (becomes_file(stored_entries(bytes)[index].0) ==> entry_reads(
        bytes,
        index,
    ))
}

/// The whole plan for an archive: first the destination root is created,
/// then come the steps of the entries.
pub open spec fn extraction_plan(dest: Seq<char>, entries: Seq<(Seq<char>, Seq<u8>)>) -> Seq<
    StepView,
> {
    seq![StepView::MakeDir { path: dest }] + planned_steps(dest, entries)
}

/// The steps for a sequence of entries: each entry's step in container
/// order, entries without a safe destination left out.
pub open spec fn planned_steps(dest: Seq<char>, entries: Seq<(Seq<char>, Seq<u8>)>) -> Seq<
    StepView,
>
    decreases entries.len(),
{
    if entries.len() == 0 {
        Seq::empty()
    } else {
        match planned_step(dest, entries.last()) {
            Some(step) => planned_steps(dest, entries.drop_last()).push(step),
            None => planned_steps(dest, entries.drop_last()),
        }
    }
}

/// Decides what to do for one entry. `name` is the entry's stored name,
/// `enclosed` the safe relative path that the codec derived from it, if any,
/// and `content` the entry's bytes, which only a file step keeps.
pub fn plan_entry(dest: &str, name: &str, enclosed: Option<&str>, content: Vec<u8>) -> (step:
    Option<ExtractStep>)
    ensures
        step_view(step) == spec_plan_entry(dest@, name@, text_view(enclosed), content@),
        enclosed is None ==> step is None,
{
    match enclosed {
        None => None,
        Some(relative) => {
            if name.is_empty() || is_refused_name(name) {
                None
            } else if is_directory_name(name) {
                Some(ExtractStep::MakeDir { path: join_path(dest, relative) })
            } else {
                let path = join_path(dest, relative);
                let parent = path_parent(path.as_str());
                Some(ExtractStep::WriteFile { path, parent, content })
            }
        },
    }
}

/// The step that creates the destination root, which comes before the
/// steps of the entries.
pub fn root_step(dest: &str) -> (step: ExtractStep)
    ensures
        step@ == (StepView::MakeDir { path: dest@ }),
{
    ExtractStep::MakeDir { path: dest.to_owned() }
}

/// An archive opened for reading from bytes held in memory.
pub struct ArchiveReader {
    archive: ZipArchive<Cursor<Vec<u8>>>,
}

impl ArchiveReader {
    /// The bytes that the archive was opened from.
    pub closed spec fn source(&self) -> Seq<u8> {
        archive_source(self.archive)
    }

    /// The archive's entries: stored name and content, in container order.
    pub open spec fn entries(&self) -> Seq<(Seq<char>, Seq<u8>)> {
        stored_entries(self.source())
    }

    /// Parses the container's index. Succeeds exactly where the codec
    /// accepts the bytes as a container, and fails with a format error
    /// elsewhere.
    pub fn open(bytes: Vec<u8>) -> (r: Result<ArchiveReader, ArchiveError>)
        ensures
            r is Ok <==> container_accepted(bytes@),
            r is Ok ==> r->Ok_0.source() == bytes@,
            r is Err ==> r->Err_0 is Format,
    {
        match open_reader(bytes) {
            Ok(archive) => Ok(ArchiveReader { archive }),
            Err(error) => Err(ArchiveError::Format(zip_error_text(&error))),
        }
    }

    /// The number of entries.
    pub fn len(&self) -> (n: usize)
        ensures
            n == self.entries().len(),
    {
        reader_len(&self.archive)
    }

    /// Reads the entry at `index` and decides its step under `dest`. The
    /// result is `Ok(None)` for an entry that is skipped. It succeeds exactly
    /// where the codec can take the entry out and, for an entry that becomes
    /// a file, read its content; it never does for an index past the last
    /// entry. Content is read only for an entry that becomes a file.
    pub fn step(&mut self, index: usize, dest: &str) -> (r: Result<
        Option<ExtractStep>,
        ArchiveError,
    >)
        ensures
            final(self).source() == old(self).source(),
            r is Ok <==> step_succeeds(old(self).source(), index as int),
            index >= old(self).entries().len() ==> r is Err,
            r is Err ==> r->Err_0 is Io,
            r is Ok ==> index < old(self).entries().len() && step_view(r->Ok_0) == planned_step(
                dest@,
                old(self).entries()[index as int],
            ),
    {
        let mut file = match reader_by_index(&mut self.archive, index) {
            Ok(file) => file,
            Err(error) => {
                return Err(ArchiveError::Io(zip_error_text(&error)));
            },
        };
        let name = entry_name(&file);
        let enclosed = entry_enclosed_name(&file);
        match enclosed {
            None => Ok(None),
            Some(relative) => {
                if name.as_str().is_empty() || is_refused_name(name.as_str()) || is_directory_name(
                    name.as_str(),
                ) {
                    Ok(plan_entry(dest, name.as_str(), Some(relative.as_str()), Vec::new()))
                } else {
                    match entry_content(&mut file) {
                        Ok(content) => Ok(
                            plan_entry(dest, name.as_str(), Some(relative.as_str()), content),
                        ),
                        Err(error) => Err(ArchiveError::Io(io_error_text(&error))),
                    }
                }
            },
        }
    }
}

/// Plans the extraction of a whole archive held in memory: the creation of
/// the destination root, then the steps of all entries in container order,
/// skipped entries left out. It succeeds exactly where the codec accepts the
/// container and the step of every entry can be decided.
pub fn plan_extraction(bytes: Vec<u8>, dest: &str) -> (r: Result<Vec<ExtractStep>, ArchiveError>)
    ensures
        r is Ok <==> container_accepted(bytes@) && forall|i: int|
            0 <= i < stored_entries(bytes@).len() ==> #[trigger] step_succeeds(bytes@, i),
        r is Ok ==> step_views(r->Ok_0@) == extraction_plan(dest@, stored_entries(bytes@)),
        r is Err ==> (r->Err_0 is Format <==> !container_accepted(bytes@)) && (r->Err_0 is Format
            || r->Err_0 is Io),
{
    let ghost source = bytes@;
    let mut reader = match ArchiveReader::open(bytes) {
        Ok(reader) => reader,
        Err(error) => {
            return Err(error);
        },
    };
    let ghost entries = reader.entries();
    let n: usize = reader.len();
    let mut steps: Vec<ExtractStep> = Vec::new();
    steps.push(root_step(dest));
    assert(step_views(steps@) == seq![StepView::MakeDir { path: dest@ }]);
    assert(planned_steps(dest@, entries.take(0)) == Seq::<StepView>::empty());
    let mut i: usize = 0;
    while i < n
        invariant
            i <= n,
            n == entries.len(),
            reader.source() == source,
            source == bytes@,
            entries == stored_entries(source),
            container_accepted(source),
            forall|j: int| 0 <= j < i ==> #[trigger] step_succeeds(source, j),
            step_views(steps@) == extraction_plan(dest@, entries.take(i as int)),
        decreases n - i,
    {
        let ghost before = steps@;
        match reader.step(i, dest) {
            Err(error) => {
                assert(!step_succeeds(source, i as int));
                return Err(error);
            },
            Ok(None) => {},
            Ok(Some(step)) => {
                steps.push(step);
                assert(step_views(steps@) == step_views(before).push(step@));
            },
        }
        assert(entries.take(i + 1).drop_last() == entries.take(i as int));
        i = i + 1;
    }
    assert(entries.take(n as int) == entries);
    Ok(steps)
}

} // verus!
