//! The packer: from the nodes of a source tree to the entries of an archive.

use crate::codec::add_directory_accepted;
use crate::codec::finish_accepted;
use crate::codec::finished_container;
use crate::codec::io_error_text;
use crate::codec::relative_to;
use crate::codec::spec_append_to_last;
use crate::codec::spec_directory_entry_name;
use crate::codec::start_file_accepted;
use crate::codec::strip_prefix;
use crate::codec::write_accepted;
use crate::codec::writer_add_directory;
use crate::codec::writer_calls;
use crate::codec::writer_config;
use crate::codec::writer_finish;
use crate::codec::writer_new;
use crate::codec::writer_start_file;
use crate::codec::writer_write_all;
use crate::codec::written_entries;
use crate::codec::zip_error_text;
use crate::codec::ArchiveWriter;
use crate::codec::WriterCall;
use crate::config::Compression;
use crate::config::EntryConfig;
use crate::error::ArchiveError;
use crate::names::is_directory_name;
use crate::names::spec_is_directory_name;
use crate::names::text_view;
use vstd::prelude::*;
use vstd::string::StringExecFns;

verus! {

/// A node met while walking the source tree.
#[derive(Clone, Debug, PartialEq, Eq)]
pub struct SourceNode {
    /// The node's path as the walk gave it, or `None` where that path is not
    /// representable as text.
    pub path: Option<String>,
    /// Whether the node is a regular file; any other node counts as a
    /// directory.
    pub is_file: bool,
    /// The file's bytes; unused for a directory.
    pub content: Vec<u8>,
}

impl SourceNode {
    /// The node's path as a sequence of characters.
    pub open spec fn path_view(&self) -> Option<Seq<char>> {
        match self.path {
            Some(p) => Some(p@),
            None => None,
        }
    }
}

/// An entry that the packer writes for a node.
#[derive(Clone, Debug, PartialEq, Eq)]
pub enum PackEntry {
    /// A file entry under exactly this name.
    File { name: String },
    /// A directory marker for this relative path.
    Directory { name: String },
}

/// The mathematical value of a `PackEntry`.
pub enum PackEntryView {
    File { name: Seq<char> },
    Directory { name: Seq<char> },
}

impl View for PackEntry {
    type V = PackEntryView;

    open spec fn view(&self) -> PackEntryView {
        match *self {
            PackEntry::File { name } => PackEntryView::File { name: name@ },
            PackEntry::Directory { name } => PackEntryView::Directory { name: name@ },
        }
    }
}

/// The view of an optional entry.
pub open spec fn entry_view(entry: Option<PackEntry>) -> Option<PackEntryView> {
    match entry {
        Some(e) => Some(e@),
        None => None,
    }
}

/// The view of a decision on a node.
pub open spec fn decision_view(decision: Result<Option<PackEntry>, ArchiveError>) -> Result<
    Option<PackEntryView>,
    ArchiveError,
> {
    match decision {
        Ok(entry) => Ok(entry_view(entry)),
        Err(error) => Err(error),
    }
}

/// The entry for a node with the given path relative to the source root: a
/// file entry for a file, a directory marker for a directory below the root,
/// nothing for the root itself.
pub open spec fn spec_entry_for(relative: Seq<char>, is_file: bool) -> Option<PackEntryView> {
    if is_file {
        Some(PackEntryView::File { name: relative })
    } else if relative.len() > 0 {
        Some(PackEntryView::Directory { name: relative })
    } else {
        None
    }
}

/// The decision for a node: a path error where the node's path is no text or
/// does not lie under the root, otherwise the entry for its relative path.
pub open spec fn spec_classify_node(
    root: Seq<char>,
    path: Option<Seq<char>>,
    is_file: bool,
) -> Result<Option<PackEntryView>, ArchiveError> {
    match path {
        None => Err(ArchiveError::PathNotText),
        Some(p) => match relative_to(p, root) {
            None => Err(ArchiveError::PathPrefix),
            Some(relative) => Ok(spec_entry_for(relative, is_file)),
        },
    }
}

/// The name of the marker for a directory: the directory's relative path,
/// closed by `/` unless it ends in one already.
pub open spec fn spec_marker_name(name: Seq<char>) -> Seq<char> {
    if spec_is_directory_name(name) {
        name
    } else {
        name.push('/')
    }
}

/// What the archive records for an entry: a file under its name with its
/// content, a directory under its marker name, without content.
pub open spec fn entry_record(entry: PackEntryView, content: Seq<u8>) -> (Seq<char>, Seq<u8>) {
    match entry {
        PackEntryView::File { name } => (name, content),
        PackEntryView::Directory { name } => (spec_marker_name(name), Seq::empty()),
    }
}

/// The calls that writing an entry makes on the codec.
pub open spec fn entry_calls(entry: PackEntryView, content: Seq<u8>) -> Seq<WriterCall> {
    match entry {
        PackEntryView::File { name } => seq![WriterCall::StartFile(name), WriterCall::Write(content)],
        PackEntryView::Directory { name } => seq![
            WriterCall::AddDirectory(spec_marker_name(name)),
        ],
    }
}

/// Whether the codec, with this configuration and after these calls, takes
/// an entry: for a file its start and then its content, for a directory its
/// marker.
pub open spec fn entry_accepted(
    config: EntryConfig,
    earlier: Seq<WriterCall>,
    entry: PackEntryView,
    content: Seq<u8>,
) -> bool {
    match entry {
        PackEntryView::File { name } => start_file_accepted(config, earlier, name)
            && write_accepted(config, earlier.push(WriterCall::StartFile(name)), content),
        PackEntryView::Directory { name } => add_directory_accepted(
            config,
            earlier,
            spec_marker_name(name),
        ),
    }
}

/// The records that a node adds to the archive: one, or none for the root
/// and for a node with a path error.
pub open spec fn node_records(root: Seq<char>, node: SourceNode) -> Seq<(Seq<char>, Seq<u8>)> {
    match spec_classify_node(root, node.path_view(), node.is_file) {
        Ok(Some(entry)) => seq![entry_record(entry, node.content@)],
        _ => Seq::empty(),
    }
}

/// The calls that a node makes on the codec.
pub open spec fn node_calls(root: Seq<char>, node: SourceNode) -> Seq<WriterCall> {
    match spec_classify_node(root, node.path_view(), node.is_file) {
        Ok(Some(entry)) => entry_calls(entry, node.content@),
        _ => Seq::empty(),
    }
}

/// Whether a node is packed: it has no path error, and the codec takes its
/// entry where it has one.
pub open spec fn node_accepted(
    config: EntryConfig,
    earlier: Seq<WriterCall>,
    root: Seq<char>,
    node: SourceNode,
) -> bool {
    match spec_classify_node(root, node.path_view(), node.is_file) {
        Ok(Some(entry)) => entry_accepted(config, earlier, entry, node.content@),
        Ok(None) => true,
        Err(_) => false,
    }
}

/// The records of a sequence of nodes, in visiting order.
pub open spec fn tree_records(root: Seq<char>, nodes: Seq<SourceNode>) -> Seq<
    (Seq<char>, Seq<u8>),
>
    decreases nodes.len(),
{
    if nodes.len() == 0 {
        Seq::empty()
    } else {
        tree_records(root, nodes.drop_last()) + node_records(root, nodes.last())
    }
}

/// The calls that a sequence of nodes makes on the codec, in visiting order.
pub open spec fn tree_calls(root: Seq<char>, nodes: Seq<SourceNode>) -> Seq<WriterCall>
    decreases nodes.len(),
{
    if nodes.len() == 0 {
        Seq::empty()
    } else {
        node_calls(root, nodes[0]) + tree_calls(root, nodes.skip(1))
    }
}

/// Whether every node of a sequence is packed, each after the calls of the
/// nodes before it.
pub open spec fn tree_accepted(
    config: EntryConfig,
    earlier: Seq<WriterCall>,
    root: Seq<char>,
    nodes: Seq<SourceNode>,
) -> bool
    decreases nodes.len(),
{
    if nodes.len() == 0 {
        true
    } else {
        node_accepted(config, earlier, root, nodes[0]) && tree_accepted(
            config,
            earlier + node_calls(root, nodes[0]),
            root,
            nodes.skip(1),
        )
    }
}

/// The configuration that a writer keeps of the one it is given: of the
/// permissions the lower nine bits.
pub open spec fn kept_config(config: EntryConfig) -> EntryConfig {
    EntryConfig { compression: config.compression, permissions: config.permissions & 0o777 }
}

/// The fixed configuration: stored, mode 0755.
pub open spec fn fixed_config() -> EntryConfig {
    EntryConfig { compression: Compression::Stored, permissions: 0o755 }
}

/// Decides the entry for a node from its path relative to the source root.
pub fn entry_for(relative: String, is_file: bool) -> (entry: Option<PackEntry>)
    ensures
        entry_view(entry) == spec_entry_for(relative@, is_file),
{
    if is_file {
        Some(PackEntry::File { name: relative })
    } else if !relative.as_str().is_empty() {
        Some(PackEntry::Directory { name: relative })
    } else {
        None
    }
}

/// Decides what the packer writes for a visited node: strips the source root
/// from the node's path and picks the entry for what is left.
pub fn classify_node(root: &str, path: Option<&str>, is_file: bool) -> (r: Result<
    Option<PackEntry>,
    ArchiveError,
>)
    ensures
        decision_view(r) == spec_classify_node(root@, text_view(path), is_file),
{
    match path {
        None => Err(ArchiveError::PathNotText),
        Some(p) => match strip_prefix(p, root) {
            None => Err(ArchiveError::PathPrefix),
            Some(relative) => Ok(entry_for(relative, is_file)),
        },
    }
}

/// An archive under construction in memory.
pub struct Packer {
    writer: ArchiveWriter,
}

impl Packer {
    /// The records accepted so far: stored name and content, in order.
    pub closed spec fn entries(&self) -> Seq<(Seq<char>, Seq<u8>)> {
        written_entries(self.writer)
    }

    /// The configuration that file entries are started with. A directory
    /// marker takes its permissions and is always stored.
    pub closed spec fn config(&self) -> EntryConfig {
        writer_config(self.writer)
    }

    /// The calls made on the codec so far.
    pub closed spec fn calls(&self) -> Seq<WriterCall> {
        writer_calls(self.writer)
    }

    /// The bytes of the container that finalizing this archive gives, or
    /// `None` where the codec fails to finalize it.
    pub closed spec fn container(&self) -> Option<Seq<u8>> {
        finished_container(self.writer)
    }

    /// Starts an empty archive. Of the permissions in `config` the lower
    /// nine bits are kept.
    pub fn new(config: EntryConfig) -> (packer: Packer)
        ensures
            packer.entries() == Seq::<(Seq<char>, Seq<u8>)>::empty(),
            packer.calls() == Seq::<WriterCall>::empty(),
            packer.config() == kept_config(config),
    {
        Packer { writer: writer_new(config) }
    }

    /// Starts a file entry named exactly `name`, without content yet.
    pub fn start_file(&mut self, name: &str) -> (r: Result<(), ArchiveError>)
        ensures
            final(self).config() == old(self).config(),
            final(self).calls() == old(self).calls().push(WriterCall::StartFile(name@)),
            r is Ok <==> start_file_accepted(old(self).config(), old(self).calls(), name@),
            r is Ok ==> final(self).entries() == old(self).entries().push(
                (name@, Seq::<u8>::empty()),
            ),
            r is Err ==> r->Err_0 is Io,
    {
        match writer_start_file(&mut self.writer, name) {
            Ok(()) => Ok(()),
            Err(error) => Err(ArchiveError::Io(zip_error_text(&error))),
        }
    }

    /// Writes bytes into the file entry started last. Fails where no file
    /// entry is open.
    pub fn write(&mut self, bytes: &[u8]) -> (r: Result<(), ArchiveError>)
        ensures
            final(self).config() == old(self).config(),
            final(self).calls() == old(self).calls().push(WriterCall::Write(bytes@)),
            r is Ok <==> write_accepted(old(self).config(), old(self).calls(), bytes@),
            r is Ok ==> final(self).entries() == spec_append_to_last(
                old(self).entries(),
                bytes@,
            ),
            r is Err ==> r->Err_0 is Io,
    {
        match writer_write_all(&mut self.writer, bytes) {
            Ok(()) => Ok(()),
            Err(error) => Err(ArchiveError::Io(io_error_text(&error))),
        }
    }

    /// Adds a directory marker for `name`: the name, closed by `/` unless it
    /// ends in one already.
    pub fn add_directory(&mut self, name: &str) -> (r: Result<(), ArchiveError>)
        ensures
            final(self).config() == old(self).config(),
            final(self).calls() == old(self).calls().push(
                WriterCall::AddDirectory(spec_marker_name(name@)),
            ),
            r is Ok <==> add_directory_accepted(
                old(self).config(),
                old(self).calls(),
                spec_marker_name(name@),
            ),
            r is Ok ==> final(self).entries() == old(self).entries().push(
                (spec_marker_name(name@), Seq::<u8>::empty()),
            ),
            r is Err ==> r->Err_0 is Io,
    {
        let result = if is_directory_name(name) {
            writer_add_directory(&mut self.writer, name)
        } else {
            let marker = String::from_str(name).concat("/");
            proof {
                reveal_strlit("/");
                assert(marker@ == name@.push('/'));
                assert(marker@.last() == '/');
            }
            writer_add_directory(&mut self.writer, marker.as_str())
        };
        match result {
            Ok(()) => Ok(()),
            Err(error) => Err(ArchiveError::Io(zip_error_text(&error))),
        }
    }

    /// Writes one entry: a file with its whole content, or a directory
    /// marker. It succeeds exactly where the codec takes the entry.
    pub fn add_entry(&mut self, entry: &PackEntry, content: &[u8]) -> (r: Result<
        (),
        ArchiveError,
    >)
        ensures
            final(self).config() == old(self).config(),
            r is Ok <==> entry_accepted(old(self).config(), old(self).calls(), entry@, content@),
            r is Ok ==> final(self).calls() == old(self).calls() + entry_calls(entry@, content@),
            r is Ok ==> final(self).entries() == old(self).entries().push(
                entry_record(entry@, content@),
            ),
            r is Err ==> r->Err_0 is Io,
    {
        match entry {
            PackEntry::File { name } => {
                match self.start_file(name.as_str()) {
                    Ok(()) => {},
                    Err(error) => {
                        return Err(error);
                    },
                }
                let r = self.write(content);
                proof {
                    let started = old(self).entries().push((name@, Seq::<u8>::empty()));
                    assert(started.drop_last() == old(self).entries());
                    assert(Seq::<u8>::empty() + content@ == content@);
                    assert(old(self).calls().push(WriterCall::StartFile(name@)).push(
                        WriterCall::Write(content@),
                    ) == old(self).calls() + entry_calls(entry@, content@));
                }
                r
            },
            PackEntry::Directory { name } => {
                let r = self.add_directory(name.as_str());
                proof {
                    assert(old(self).calls().push(
                        WriterCall::AddDirectory(spec_marker_name(name@)),
                    ) == old(self).calls() + entry_calls(entry@, content@));
                }
                r
            },
        }
    }

    /// Classifies a node and writes its entry, if it has one. It succeeds
    /// exactly where the node has no path error and the codec takes its
    /// entry.
    pub fn add_node(&mut self, root: &str, node: &SourceNode) -> (r: Result<(), ArchiveError>)
        ensures
            final(self).config() == old(self).config(),
            r is Ok <==> node_accepted(old(self).config(), old(self).calls(), root@, *node),
            spec_classify_node(root@, node.path_view(), node.is_file) matches Err(error) ==> r
                == Err::<(), ArchiveError>(error) && final(self).entries() == old(self).entries()
                && final(self).calls() == old(self).calls(),
            spec_classify_node(root@, node.path_view(), node.is_file) is Ok && r is Err
                ==> r->Err_0 is Io,
            r is Ok ==> final(self).calls() == old(self).calls() + node_calls(root@, *node),
            r is Ok ==> final(self).entries() == old(self).entries() + node_records(root@, *node),
    {
        let path = match &node.path {
            Some(p) => Some(p.as_str()),
            None => None,
        };
        match classify_node(root, path, node.is_file) {
            Err(error) => Err(error),
            Ok(None) => {
                assert(self.entries() + Seq::<(Seq<char>, Seq<u8>)>::empty() == self.entries());
                assert(self.calls() + Seq::<WriterCall>::empty() == self.calls());
                Ok(())
            },
            Ok(Some(entry)) => {
                let r = self.add_entry(&entry, node.content.as_slice());
                assert(old(self).entries() + seq![entry_record(entry@, node.content@)] == old(
                    self,
                ).entries().push(entry_record(entry@, node.content@)));
                r
            },
        }
    }

    /// Writes the entries of all nodes, in order, stopping at the first
    /// failure. It succeeds exactly where every node is packed, each after
    /// the nodes before it.
    pub fn add_tree(&mut self, root: &str, nodes: &Vec<SourceNode>) -> (r: Result<
        (),
        ArchiveError,
    >)
        ensures
            final(self).config() == old(self).config(),
            r is Ok <==> tree_accepted(old(self).config(), old(self).calls(), root@, nodes@),
            r is Ok ==> final(self).calls() == old(self).calls() + tree_calls(root@, nodes@),
            r is Ok ==> final(self).entries() == old(self).entries() + tree_records(
                root@,
                nodes@,
            ),
            r is Err ==> r->Err_0 is Io || exists|i: int|
                0 <= i < nodes@.len() && (#[trigger] spec_classify_node(
                    root@,
                    nodes@[i].path_view(),
                    nodes@[i].is_file,
                )) == Err::<Option<PackEntryView>, ArchiveError>(r->Err_0),
    {
        let mut i: usize = 0;
        assert(nodes@.skip(0) == nodes@);
        assert(old(self).calls() + tree_calls(root@, nodes@) == self.calls() + tree_calls(
            root@,
            nodes@.skip(0),
        ));
        while i < nodes.len()
            invariant
                i <= nodes@.len(),
                self.config() == old(self).config(),
                self.entries() == old(self).entries() + tree_records(root@, nodes@.take(i as int)),
                tree_accepted(old(self).config(), old(self).calls(), root@, nodes@)
                    <==> tree_accepted(self.config(), self.calls(), root@, nodes@.skip(i as int)),
                old(self).calls() + tree_calls(root@, nodes@) == self.calls() + tree_calls(
                    root@,
                    nodes@.skip(i as int),
                ),
            decreases nodes@.len() - i,
        {
            let ghost rest = nodes@.skip(i as int);
            let ghost calls_before = self.calls();
            proof {
                assert(rest[0] == nodes@[i as int]);
                assert(rest.skip(1) == nodes@.skip(i + 1));
            }
            match self.add_node(root, &nodes[i]) {
                Ok(()) => {},
                Err(error) => {
                    return Err(error);
                },
            }
            proof {
                assert(nodes@.take(i + 1).drop_last() == nodes@.take(i as int));
                assert(nodes@.take(i + 1).last() == nodes@[i as int]);
                assert(self.entries() == old(self).entries() + tree_records(
                    root@,
                    nodes@.take(i + 1),
                ));
                assert(calls_before + tree_calls(root@, rest) == calls_before + node_calls(
                    root@,
                    nodes@[i as int],
                ) + tree_calls(root@, nodes@.skip(i + 1)));
            }
            i = i + 1;
        }
        assert(nodes@.take(nodes@.len() as int) == nodes@);
        assert(self.calls() + tree_calls(root@, nodes@.skip(i as int)) == self.calls());
        Ok(())
    }

    /// Finalizes the container and hands back its bytes: the container of
    /// this archive where the codec can finalize it, an i/o error where it
    /// cannot.
    pub fn finish(self) -> (r: Result<Vec<u8>, ArchiveError>)
        ensures
            r is Ok <==> self.container() is Some,
            r is Ok <==> finish_accepted(self.config(), self.calls()),
            r is Ok ==> r->Ok_0@ == self.container()->Some_0,
            r is Err ==> r->Err_0 is Io,
    {
        match writer_finish(self.writer) {
            Ok(bytes) => Ok(bytes),
            Err(error) => Err(ArchiveError::Io(zip_error_text(&error))),
        }
    }
}

/// Packs a tree held in memory with the fixed configuration: classifies
/// every node against `root`, writes its entry, and finalizes the archive.
/// It succeeds exactly where every node is packed and the codec can finalize
/// the archive. The bytes are then the container of an archive that was
/// made with the fixed configuration and holds the records of the tree. It
/// fails with a path error only where some node has that path error.
pub fn pack_tree(root: &str, nodes: &Vec<SourceNode>) -> (r: Result<Vec<u8>, ArchiveError>)
    ensures
        r is Ok <==> tree_accepted(fixed_config(), Seq::<WriterCall>::empty(), root@, nodes@)
            && finish_accepted(fixed_config(), tree_calls(root@, nodes@)),
        r is Ok ==> exists|packer: Packer|
            packer.config() == fixed_config() && packer.calls() == tree_calls(root@, nodes@)
                && #[trigger] packer.entries() == tree_records(root@, nodes@)
                && packer.container() == Some(r->Ok_0@),
        r is Err ==> r->Err_0 is Io || exists|i: int|
            0 <= i < nodes@.len() && (#[trigger] spec_classify_node(
                root@,
                nodes@[i].path_view(),
                nodes@[i].is_file,
            )) == Err::<Option<PackEntryView>, ArchiveError>(r->Err_0),
{
    let mut packer = Packer::new(EntryConfig::fixed());
    proof {
        assert(0o755u32 & 0o777u32 == 0o755u32) by (bit_vector);
        assert(packer.config() == fixed_config());
    }
    match packer.add_tree(root, nodes) {
        Ok(()) => {
            proof {
                assert(Seq::<WriterCall>::empty() + tree_calls(root@, nodes@) == tree_calls(
                    root@,
                    nodes@,
                ));
                assert(Seq::<(Seq<char>, Seq<u8>)>::empty() + tree_records(root@, nodes@)
                    == tree_records(root@, nodes@));
            }
            let ghost full = packer;
            let r = packer.finish();
            proof {
                if r is Ok {
                    assert(full.entries() == tree_records(root@, nodes@));
                    assert(full.container() == Some(r->Ok_0@));
                }
            }
            r
        },
        Err(error) => Err(error),
    }
}

} // verus!
