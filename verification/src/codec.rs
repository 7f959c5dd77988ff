//! The archive codec and the path functions of std that the library calls.
//!
//! Nothing in this file is proved: each contract states what the called
//! function's source or documentation shows, and the rest of the library is
//! verified against these contracts.


use crate::config::Compression;
use crate::config::EntryConfig;
use std::io::Cursor;
use std::io::Read;
use std::io::Write;
use std::path::Path;
use vstd::prelude::*;
use zip::read::ZipFile;
use zip::result::ZipError;
use zip::write::SimpleFileOptions;
use zip::CompressionMethod;
use zip::ZipArchive;
use zip::ZipWriter;

verus! {

/// `std::io::Cursor`, carried through as an opaque value.
#[verifier::external_type_specification]
#[verifier::external_body]
#[verifier::reject_recursive_types(T)]
pub struct ExCursor<T>(std::io::Cursor<T>);

/// `std::io::Error`, carried through as an opaque value.
#[verifier::external_type_specification]
#[verifier::external_body]
pub struct ExIoError(std::io::Error);

/// `zip::result::ZipError`, carried through as an opaque value.
#[verifier::external_type_specification]
#[verifier::external_body]
pub struct ExZipError(zip::result::ZipError);

/// `zip::ZipArchive`, an opened archive; what it holds is named by
/// `archive_entries`.
#[verifier::external_type_specification]
#[verifier::external_body]
#[verifier::reject_recursive_types(R)]
pub struct ExZipArchive<R>(zip::ZipArchive<R>);

/// One entry taken out of an opened archive, ready to be read. It holds a
/// `zip::read::ZipFile` over the archive's in-memory cursor.
#[verifier::external_body]
pub struct EntryReader<'a> {
    inner: ZipFile<'a, Cursor<Vec<u8>>>,
}

/// An archive under construction in memory. It holds a `zip::ZipWriter` over
/// a cursor, and the `zip::write::SimpleFileOptions` that every entry is
/// written with.
#[verifier::external_body]
pub struct ArchiveWriter {
    inner: ZipWriter<Cursor<Vec<u8>>>,
    options: SimpleFileOptions,
}

/// One call made on an archive writer.
pub enum WriterCall {
    /// A file entry was started under this name.
    StartFile(Seq<char>),
    /// These bytes were written into the entry started last.
    Write(Seq<u8>),
    /// A directory entry was added under this name.
    AddDirectory(Seq<char>),
}

/// Whether `zip` accepts a byte string as an archive container.
pub uninterp spec fn container_accepted(bytes: Seq<u8>) -> bool;

/// The entries that `zip` keeps of a byte string that it accepts as an
/// archive: the stored name and decompressed content of each entry of its
/// index (of two entries with one name the index keeps one), in container
/// order.
pub uninterp spec fn stored_entries(bytes: Seq<u8>) -> Seq<(Seq<char>, Seq<u8>)>;

/// Whether `zip` can take the entry at a position out of the archive that
/// it made of a byte string.
pub uninterp spec fn entry_opens(bytes: Seq<u8>, index: int) -> bool;

/// Whether the content of the entry at a position of the archive made of a
/// byte string can be read to its end.
pub uninterp spec fn entry_reads(bytes: Seq<u8>, index: int) -> bool;

/// The bytes that an archive was opened from.
pub uninterp spec fn archive_source(archive: ZipArchive<Cursor<Vec<u8>>>) -> Seq<u8>;

/// Whether reading an entry to its end succeeds, as the entry stands.
pub uninterp spec fn reads_to_end(file: EntryReader) -> bool;

/// The stored name of an entry that was taken out of an archive.
pub uninterp spec fn file_name(file: EntryReader) -> Seq<char>;

/// The decompressed bytes of an entry that have not been read yet.
pub uninterp spec fn unread_bytes(file: EntryReader) -> Seq<u8>;

/// Whether `zip` judges an entry name to stay inside the directory that it
/// is extracted into, on the platform the library is built for.
pub uninterp spec fn name_is_enclosed(name: Seq<char>) -> bool;

/// What `std::path::Path::join` makes of a base path and a path joined onto
/// it, on the platform the library is built for.
pub uninterp spec fn joined_path(base: Seq<char>, rest: Seq<char>) -> Seq<char>;

/// What `std::path::Path::parent` gives for a path, on the platform the
/// library is built for.
pub uninterp spec fn parent_path(path: Seq<char>) -> Option<Seq<char>>;

/// What `std::path::Path::strip_prefix` leaves of a path below a base, on the
/// platform the library is built for; `None` where the base is no prefix.
pub uninterp spec fn relative_to(path: Seq<char>, base: Seq<char>) -> Option<Seq<char>>;

/// The entries that a writer has accepted so far: each entry's stored name
/// and the content written into it, in the order they were started.
pub uninterp spec fn written_entries(writer: ArchiveWriter) -> Seq<(Seq<char>, Seq<u8>)>;

/// The configuration held in the options that a writer starts its entries
/// with.
pub uninterp spec fn writer_config(writer: ArchiveWriter) -> EntryConfig;

/// The calls made on a writer since it was created, failed ones included.
pub uninterp spec fn writer_calls(writer: ArchiveWriter) -> Seq<WriterCall>;

/// Whether `zip` starts a file entry of this name on a writer with this
/// configuration after these calls.
pub uninterp spec fn start_file_accepted(
    config: EntryConfig,
    earlier: Seq<WriterCall>,
    name: Seq<char>,
) -> bool;

/// Whether `zip` takes these bytes on a writer with this configuration
/// after these calls.
pub uninterp spec fn write_accepted(
    config: EntryConfig,
    earlier: Seq<WriterCall>,
    bytes: Seq<u8>,
) -> bool;

/// Whether `zip` adds a directory entry of this name on a writer with this
/// configuration after these calls.
pub uninterp spec fn add_directory_accepted(
    config: EntryConfig,
    earlier: Seq<WriterCall>,
    name: Seq<char>,
) -> bool;

/// Whether `zip` can finish a writer with this configuration after these
/// calls.
pub uninterp spec fn finish_accepted(config: EntryConfig, earlier: Seq<WriterCall>) -> bool;

/// The bytes of the whole container that `zip` makes of a writer when it is
/// finished, or `None` where finishing fails. Finishing reads nothing but
/// the writer's own state.
pub uninterp spec fn finished_container(writer: ArchiveWriter) -> Option<Seq<u8>>;

/// The name under which `zip::ZipWriter::add_directory` stores a directory:
/// the given name, with `/` appended unless it already ends in `/` or `\`.
pub open spec fn spec_directory_entry_name(name: Seq<char>) -> Seq<char> {
    if name.len() > 0 && (name.last() == '/' || name.last() == '\\') {
        name
    } else {
        name.push('/')
    }
}

/// What `std::io::Write::write_all` on a `zip::ZipWriter` does to the
/// accepted entries when it succeeds: nothing for an empty buffer, otherwise
/// the bytes are appended to the content of the entry started last.
pub open spec fn spec_append_to_last(entries: Seq<(Seq<char>, Seq<u8>)>, bytes: Seq<u8>) -> Seq<
    (Seq<char>, Seq<u8>),
> {
    if bytes.len() == 0 || entries.len() == 0 {
        entries
    } else {
        entries.drop_last().push((entries.last().0, entries.last().1 + bytes))
    }
}

/// `zip::ZipArchive::new` over an in-memory cursor. Whether the bytes parse
/// is decided by the bytes alone; when they do, the archive is the one made
/// of these bytes.
#[verifier::external_body]
pub(crate) fn open_reader(bytes: Vec<u8>) -> (r: Result<ZipArchive<Cursor<Vec<u8>>>, ZipError>)
    ensures
        r is Ok <==> container_accepted(bytes@),
        r is Ok ==> archive_source(r->Ok_0) == bytes@,
{
    ZipArchive::new(Cursor::new(bytes))
}

/// `zip::ZipArchive::len`: the number of entries in the central directory.
#[verifier::external_body]
pub(crate) fn reader_len(archive: &ZipArchive<Cursor<Vec<u8>>>) -> (n: usize)
    ensures
        n == stored_entries(archive_source(*archive)).len(),
{
    archive.len()
}

/// `zip::ZipArchive::by_index`: looks the entry up by its position in the
/// central directory and prepares its content for reading. Whether it
/// succeeds is decided by the archive's bytes and the position. When it
/// succeeds the position was in range, and the entry carries the name stored
/// there and has all of its content unread. The archive stays the one made
/// of its bytes.
#[verifier::external_body]
pub(crate) fn reader_by_index<'a>(
    archive: &'a mut ZipArchive<Cursor<Vec<u8>>>,
    index: usize,
) -> (r: Result<EntryReader<'a>, ZipError>)
    ensures
        archive_source(*final(archive)) == archive_source(*old(archive)),
        r is Ok <==> entry_opens(archive_source(*old(archive)), index as int),
        r is Ok ==> index < stored_entries(archive_source(*old(archive))).len(),
        r is Ok ==> file_name(r->Ok_0) == stored_entries(
            archive_source(*old(archive)),
        )[index as int].0,
        r is Ok ==> unread_bytes(r->Ok_0) == stored_entries(
            archive_source(*old(archive)),
        )[index as int].1,
        r is Ok ==> reads_to_end(r->Ok_0) == entry_reads(
            archive_source(*old(archive)),
            index as int,
        ),
{
    archive.by_index(index).map(|inner| EntryReader { inner })
}

/// `zip::read::ZipFile::name`: the entry's stored name.
#[verifier::external_body]
pub(crate) fn entry_name(file: &EntryReader) -> (name: String)
    ensures
        name@ == file_name(*file),
{
    file.inner.name().to_string()
}

/// `zip::read::ZipFile::enclosed_name`: `None` when the stored name holds a
/// NUL, is absolute, or climbs above its starting directory; otherwise the
/// stored name itself, unchanged, as a path.
#[verifier::external_body]
pub(crate) fn entry_enclosed_name(file: &EntryReader) -> (path: Option<String>)
    ensures
        path is Some <==> name_is_enclosed(file_name(*file)),
        path is Some ==> path->Some_0@ == file_name(*file),
{
    file.inner.enclosed_name().map(|p| p.to_string_lossy().into_owned())
}

/// `std::io::Read::read_to_end` on an entry: all of its content that was
/// still unread, or the error that reading met.
#[verifier::external_body]
pub(crate) fn entry_content(file: &mut EntryReader) -> (r: Result<Vec<u8>, std::io::Error>)
    ensures
        r is Ok <==> reads_to_end(*old(file)),
        r is Ok ==> r->Ok_0@ == unread_bytes(*old(file)),
{
    let mut content = Vec::new();
    file.inner.read_to_end(&mut content).map(|_| content)
}

/// `std::path::Path::join`, on text.
#[verifier::external_body]
pub(crate) fn join_path(base: &str, rest: &str) -> (path: String)
    ensures
        path@ == joined_path(base@, rest@),
{
    Path::new(base).join(rest).to_string_lossy().into_owned()
}

/// `std::path::Path::parent`, on text.
#[verifier::external_body]
pub(crate) fn path_parent(path: &str) -> (parent: Option<String>)
    ensures
        parent is Some <==> parent_path(path@) is Some,
        parent is Some ==> parent->Some_0@ == parent_path(path@)->Some_0,
{
    Path::new(path).parent().map(|p| p.to_string_lossy().into_owned())
}

/// `std::path::Path::strip_prefix`, on text.
#[verifier::external_body]
pub(crate) fn strip_prefix(path: &str, base: &str) -> (rest: Option<String>)
    ensures
        rest is Some <==> relative_to(path@, base@) is Some,
        rest is Some ==> rest->Some_0@ == relative_to(path@, base@)->Some_0,
{
    Path::new(path).strip_prefix(base).ok().map(|p| p.to_string_lossy().into_owned())
}

/// `zip::ZipWriter::new` over an empty in-memory cursor, together with the
/// options built by `SimpleFileOptions::default`, `compression_method` and
/// `unix_permissions` from the given configuration. Of the permissions the
/// options keep the lower nine bits. No call was made and no entry is
/// accepted yet.
#[verifier::external_body]
pub(crate) fn writer_new(config: EntryConfig) -> (writer: ArchiveWriter)
    ensures
        written_entries(writer) == Seq::<(Seq<char>, Seq<u8>)>::empty(),
        writer_calls(writer) == Seq::<WriterCall>::empty(),
        writer_config(writer) == (EntryConfig {
            compression: config.compression,
            permissions: config.permissions & 0o777,
        }),
{
    let method = match config.compression {
        Compression::Stored => CompressionMethod::Stored,
        Compression::Deflated => CompressionMethod::Deflated,
    };
    let options = SimpleFileOptions::default().compression_method(method).unix_permissions(
        config.permissions,
    );
    ArchiveWriter { inner: ZipWriter::new(Cursor::new(Vec::new())), options }
}

/// `zip::ZipWriter::start_file` with the writer's options. It may fail (a
/// name already used, a name too long); whether it does is decided by the
/// options and the calls made before. When it succeeds a new entry with the
/// given name and no content yet is the last one.
#[verifier::external_body]
pub(crate) fn writer_start_file(writer: &mut ArchiveWriter, name: &str) -> (r: Result<
    (),
    ZipError,
>)
    ensures
        writer_config(*final(writer)) == writer_config(*old(writer)),
        writer_calls(*final(writer)) == writer_calls(*old(writer)).push(
            WriterCall::StartFile(name@),
        ),
        r is Ok <==> start_file_accepted(
            writer_config(*old(writer)),
            writer_calls(*old(writer)),
            name@,
        ),
        r is Ok ==> written_entries(*final(writer)) == written_entries(*old(writer)).push(
            (name@, Seq::<u8>::empty()),
        ),
{
    writer.inner.start_file(name, writer.options)
}

/// `std::io::Write::write_all` on the `zip::ZipWriter`. It fails when no
/// file entry is open; when it succeeds the bytes went to the entry started
/// last.
#[verifier::external_body]
pub(crate) fn writer_write_all(writer: &mut ArchiveWriter, bytes: &[u8]) -> (r: Result<
    (),
    std::io::Error,
>)
    ensures
        writer_config(*final(writer)) == writer_config(*old(writer)),
        writer_calls(*final(writer)) == writer_calls(*old(writer)).push(WriterCall::Write(bytes@)),
        r is Ok <==> write_accepted(
            writer_config(*old(writer)),
            writer_calls(*old(writer)),
            bytes@,
        ),
        r is Ok ==> written_entries(*final(writer)) == spec_append_to_last(
            written_entries(*old(writer)),
            bytes@,
        ),
{
    writer.inner.write_all(bytes)
}

/// `zip::ZipWriter::add_directory` with the writer's options, of which it
/// keeps the permissions: a directory is always stored, with the directory
/// bit added. It may fail as `start_file` does; when it succeeds a new entry
/// without content is the last one, stored under the name with a closing
/// `/`.
#[verifier::external_body]
pub(crate) fn writer_add_directory(writer: &mut ArchiveWriter, name: &str) -> (r: Result<
    (),
    ZipError,
>)
    ensures
        writer_config(*final(writer)) == writer_config(*old(writer)),
        writer_calls(*final(writer)) == writer_calls(*old(writer)).push(
            WriterCall::AddDirectory(name@),
        ),
        r is Ok <==> add_directory_accepted(
            writer_config(*old(writer)),
            writer_calls(*old(writer)),
            name@,
        ),
        r is Ok ==> written_entries(*final(writer)) == written_entries(*old(writer)).push(
            (spec_directory_entry_name(name@), Seq::<u8>::empty()),
        ),
{
    writer.inner.add_directory(name, writer.options)
}

/// `zip::ZipWriter::finish`: closes the last entry, writes the central
/// directory and hands back the bytes of the whole container. What comes
/// back is decided by the writer alone: the container's bytes where it
/// succeeds, an error where it does not.
#[verifier::external_body]
pub(crate) fn writer_finish(writer: ArchiveWriter) -> (r: Result<Vec<u8>, ZipError>)
    ensures
        r is Ok <==> finished_container(writer) is Some,
        r is Ok <==> finish_accepted(writer_config(writer), writer_calls(writer)),
        r is Ok ==> r->Ok_0@ == finished_container(writer)->Some_0,
{
    writer.inner.finish().map(|cursor| cursor.into_inner())
}

/// The text of a `zip::result::ZipError`, as its `Display` impl writes it.
#[verifier::external_body]
pub(crate) fn zip_error_text(error: &ZipError) -> (text: String)
{
    error.to_string()
}

/// The text of a `std::io::Error`, as its `Display` impl writes it.
#[verifier::external_body]
pub(crate) fn io_error_text(error: &std::io::Error) -> (text: String)
{
    error.to_string()
}

} // verus!
