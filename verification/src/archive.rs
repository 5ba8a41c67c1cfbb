use vstd::prelude::*;
use vstd::string::StrSliceExecFns;
use std::io::{Cursor, Read, Write};
use zip::write::FileOptions;
use zip::{CompressionMethod, ZipArchive, ZipWriter};

verus! {

/// One entry of a directory tree: its path relative to the root, whether it
/// is a directory, and, for a file, its contents.
pub struct Entry {
    pub name: String,
    pub is_dir: bool,
    pub contents: Vec<u8>,
}

/// An entry as plain values: name, directory flag, contents.
pub type EntryView = (Seq<char>, bool, Seq<u8>);

impl View for Entry {
    type V = EntryView;

    open spec fn view(&self) -> EntryView {
        (self.name@, self.is_dir, self.contents@)
    }
}

/// The views of a list of entries, in order.
pub open spec fn views(entries: Seq<Entry>) -> Seq<EntryView> {
    entries.map_values(|e: Entry| e@)
}

/// An archive under construction in memory: a `ZipWriter` of the crate zip
/// over a byte buffer. Opaque to the verifier; what it holds is spoken of
/// through `written_entries`.
#[verifier::external_body]
pub struct ArchiveWriter {
    inner: ZipWriter<Cursor<Vec<u8>>>,
}

/// `ZipArchive` of the crate zip: an archive opened for reading. Opaque to the
/// verifier.
#[verifier::external_type_specification]
#[verifier::external_body]
#[verifier::reject_recursive_types(R)]
pub struct ExZipArchive<R>(ZipArchive<R>);

/// `std::io::Cursor`: the in-memory reader that an archive is opened on. Opaque
/// to the verifier.
#[verifier::external_type_specification]
#[verifier::external_body]
#[verifier::reject_recursive_types(T)]
pub struct ExCursor<T>(Cursor<T>);

/// The entries that a writer has taken so far, in order, each under the name
/// that the archive keeps it by.
pub uninterp spec fn written_entries(w: ArchiveWriter) -> Seq<EntryView>;

/// Whether `ZipWriter::start_file`, on a writer in memory that holds these
/// entries, takes a new file of this name.
pub uninterp spec fn start_file_accepted(held: Seq<EntryView>, name: Seq<char>) -> bool;

/// Whether `write_all`, on a writer in memory that holds these entries, the
/// last of them a file just started, takes these bytes as that file's contents.
pub uninterp spec fn contents_accepted(held: Seq<EntryView>, contents: Seq<u8>) -> bool;

/// Whether `ZipWriter::add_directory`, on a writer in memory that holds these
/// entries, takes a new directory of this name.
pub uninterp spec fn directory_accepted(held: Seq<EntryView>, name: Seq<char>) -> bool;

/// The bytes of the finished archive that holds the given entries, each file
/// deflated and written in one piece; nothing where finishing fails.
pub uninterp spec fn zip_encoding(entries: Seq<EntryView>) -> Option<Seq<u8>>;

/// The bytes that a reader was opened on.
pub uninterp spec fn archive_source(a: ZipArchive<Cursor<Vec<u8>>>) -> Seq<u8>;

/// The number of entries that the central directory of an archive lists, or
/// nothing where the bytes are not read as an archive.
pub uninterp spec fn zip_count(bytes: Seq<u8>) -> Option<nat>;

/// The entry of an archive at an index, read with the empty password and
/// decompressed in full, or nothing where it cannot be.
pub uninterp spec fn zip_entry(bytes: Seq<u8>, index: nat) -> Option<EntryView>;

/// A name that ends in a slash or a backslash.
pub open spec fn ends_with_separator(name: Seq<char>) -> bool {
    name.len() > 0 && (name.last() == '/' || name.last() == '\\')
}

/// The name under which an archive keeps a directory: the name given, with a
/// slash added unless it ends in a slash or backslash already.
pub open spec fn dir_name(name: Seq<char>) -> Seq<char> {
    if ends_with_separator(name) {
        name
    } else {
        name.push('/')
    }
}

/// Calls `ZipWriter::new` of the crate zip on an empty buffer in memory.
/// Trusted, not proved: the new writer holds no entry.
#[verifier::external_body]
fn new_writer() -> (w: ArchiveWriter)
    ensures
        written_entries(w) == Seq::<EntryView>::empty(),
{
    ArchiveWriter { inner: ZipWriter::new(Cursor::new(Vec::new())) }
}

/// Calls `ZipWriter::start_file` of the crate zip with the default options and
/// deflate. The writer is handed back only where the call succeeds. Trusted,
/// not proved: whether it succeeds is the named answer for what the writer
/// holds and the name; on success the writer holds one more entry, a file of
/// that name, empty so far.
#[verifier::external_body]
fn start_file(w: ArchiveWriter, name: &str) -> (r: Result<ArchiveWriter, String>)
    ensures
        r is Ok <==> start_file_accepted(written_entries(w), name@),
        r matches Ok(next) ==> written_entries(next) == written_entries(w).push(
            (name@, false, Seq::<u8>::empty()),
        ),
{
    let mut w = w;
    let options = FileOptions::default().compression_method(CompressionMethod::Deflated);
    match w.inner.start_file(name, options) {
        Ok(()) => Ok(w),
        Err(e) => Err(e.to_string()),
    }
}

/// Calls `write_all` on a `ZipWriter` of the crate zip. The writer is handed
/// back only where the call succeeds. Trusted, not proved: whether it succeeds
/// is the named answer for what the writer holds and the bytes; on success the
/// file started last holds the bytes given.
#[verifier::external_body]
fn write_contents(w: ArchiveWriter, contents: &[u8]) -> (r: Result<ArchiveWriter, String>)
    requires
        written_entries(w).len() > 0,
        !written_entries(w).last().1,
        written_entries(w).last().2.len() == 0,
    ensures
        r is Ok <==> contents_accepted(written_entries(w), contents@),
        r matches Ok(next) ==> written_entries(next) == written_entries(w).drop_last().push(
            (written_entries(w).last().0, false, contents@),
        ),
{
    let mut w = w;
    match w.inner.write_all(contents) {
        Ok(()) => Ok(w),
        Err(e) => Err(e.to_string()),
    }
}

/// Calls `ZipWriter::add_directory` of the crate zip with the default options.
/// The writer is handed back only where the call succeeds. Trusted, not
/// proved: whether it succeeds is the named answer for what the writer holds
/// and the name; on success the writer holds one more entry, a directory
/// kept under that name with a slash at its end, added where the name given
/// ends in neither a slash nor a backslash.
#[verifier::external_body]
fn add_directory(w: ArchiveWriter, name: &str) -> (r: Result<ArchiveWriter, String>)
    ensures
        r is Ok <==> directory_accepted(written_entries(w), name@),
        r matches Ok(next) ==> written_entries(next) == written_entries(w).push(
            (dir_name(name@), true, Seq::<u8>::empty()),
        ),
{
    let mut w = w;
    let options = FileOptions::default().compression_method(CompressionMethod::Deflated);
    match w.inner.add_directory(name, options) {
        Ok(()) => Ok(w),
        Err(e) => Err(e.to_string()),
    }
}

/// Calls `ZipWriter::finish` of the crate zip and takes the buffer out.
/// Trusted, not proved: it succeeds exactly where the entries that the writer
/// held have a named encoding, and the bytes are then that encoding.
#[verifier::external_body]
fn finish(w: ArchiveWriter) -> (r: Result<Vec<u8>, String>)
    ensures
        r is Ok <==> zip_encoding(written_entries(w)) is Some,
        r matches Ok(bytes) ==> zip_encoding(written_entries(w)) == Some(bytes@),
{
    let mut w = w;
    match w.inner.finish() {
        Ok(cursor) => Ok(cursor.into_inner()),
        Err(e) => Err(e.to_string()),
    }
}

/// Calls `ZipArchive::new` of the crate zip on a buffer in memory. Trusted,
/// not proved: it succeeds exactly where the bytes have a named count of
/// entries, and the reader then stands on those bytes.
#[verifier::external_body]
fn open_archive(bytes: &[u8]) -> (r: Result<ZipArchive<Cursor<Vec<u8>>>, String>)
    ensures
        r is Ok <==> zip_count(bytes@) is Some,
        r matches Ok(a) ==> archive_source(a) == bytes@,
{
    ZipArchive::new(Cursor::new(bytes.to_vec())).map_err(|e| e.to_string())
}

/// Calls `ZipArchive::len` of the crate zip. Trusted, not proved: the result
/// is the named count of entries of the bytes that the reader stands on.
#[verifier::external_body]
fn entry_count(a: &ZipArchive<Cursor<Vec<u8>>>) -> (n: usize)
    ensures
        zip_count(archive_source(*a)) == Some(n as nat),
{
    a.len()
}

/// Calls `ZipArchive::by_index_decrypt` of the crate zip with the empty
/// password, then `name`, `is_dir` and `read_to_end` on the file it gives. An
/// entry that asks for another password is an error like any other. Trusted,
/// not proved: the reader stands on the same bytes afterwards; it succeeds
/// exactly where the bytes have a named entry at that index, and gives that
/// entry; and an entry counts as a directory exactly where its name ends in a
/// slash or backslash.
#[verifier::external_body]
fn read_entry(a: &mut ZipArchive<Cursor<Vec<u8>>>, index: usize) -> (r: Result<Entry, String>)
    ensures
        archive_source(*final(a)) == archive_source(*old(a)),
        r is Ok <==> zip_entry(archive_source(*old(a)), index as nat) is Some,
        r matches Ok(e) ==> zip_entry(archive_source(*old(a)), index as nat) == Some(e@),
        r matches Ok(e) ==> e.is_dir == ends_with_separator(e.name@),
{
    let mut file = match a.by_index_decrypt(index, &[]) {
        Ok(Ok(file)) => file,
        Ok(Err(e)) => return Err(e.to_string()),
        Err(e) => return Err(e.to_string()),
    };
    let name = file.name().to_string();
    let is_dir = file.is_dir();
    let mut contents = Vec::new();
    file.read_to_end(&mut contents).map_err(|e| e.to_string())?;
    Ok(Entry { name, is_dir, contents })
}

/// What one entry of a tree adds to an archive: a file goes in with its
/// contents, a directory with its name alone, closed by a slash, and the root
/// itself, the directory with the empty name, is left out.
pub open spec fn packed_one(e: EntryView) -> Seq<EntryView> {
    if !e.1 {
        seq![(e.0, false, e.2)]
    } else if e.0.len() > 0 {
        seq![(dir_name(e.0), true, Seq::<u8>::empty())]
    } else {
        Seq::<EntryView>::empty()
    }
}

/// The entries that packing a tree puts into the archive, in the tree's order.
pub open spec fn packed(entries: Seq<EntryView>) -> Seq<EntryView>
    decreases entries.len(),
{
    if entries.len() == 0 {
        Seq::<EntryView>::empty()
    } else {
        packed(entries.drop_last()) + packed_one(entries.last())
    }
}

/// The entries that unpacking gives: every entry that the archive lists, in
/// order; nothing where the bytes are no archive or any entry cannot be read.
pub open spec fn unpacked(bytes: Seq<u8>) -> Option<Seq<EntryView>> {
    match zip_count(bytes) {
        None => None,
        Some(n) => if forall|i: nat| i < n ==> (#[trigger] zip_entry(bytes, i)) is Some {
            Some(Seq::new(n, |i: int| zip_entry(bytes, i as nat).unwrap()))
        } else {
            None
        },
    }
}

/// What a writer holds after it was offered one more entry of a tree, or
/// nothing where it refused the entry or had refused one before. A file is
/// started and then written in one piece; a directory is added by its name;
/// the root is passed over.
pub open spec fn offered(held: Option<Seq<EntryView>>, e: EntryView) -> Option<Seq<EntryView>> {
    match held {
        None => None,
        Some(h) => if !e.1 {
            if start_file_accepted(h, e.0) && contents_accepted(
                h.push((e.0, false, Seq::<u8>::empty())),
                e.2,
            ) {
                Some(h + packed_one(e))
            } else {
                None
            }
        } else if e.0.len() > 0 {
            if directory_accepted(h, e.0) {
                Some(h + packed_one(e))
            } else {
                None
            }
        } else {
            Some(h)
        },
    }
}

/// What a writer holds after it was offered the entries of a tree in order,
/// or nothing where it refused one of them.
pub open spec fn accepted(entries: Seq<EntryView>) -> Option<Seq<EntryView>>
    decreases entries.len(),
{
    if entries.len() == 0 {
        Some(Seq::<EntryView>::empty())
    } else {
        offered(accepted(entries.drop_last()), entries.last())
    }
}

/// The archive of a tree: the encoding of what the writer holds once it has
/// taken every entry; nothing where the writer refuses an entry or the
/// archive cannot be finished.
pub open spec fn pack_spec(entries: Seq<EntryView>) -> Option<Seq<u8>> {
    match accepted(entries) {
        None => None,
        Some(held) => zip_encoding(held),
    }
}

/// A writer that took every entry of a tree holds exactly what packing puts
/// into the archive.
pub proof fn lemma_accepted_is_packed(entries: Seq<EntryView>)
    ensures
        accepted(entries) matches Some(held) ==> held == packed(entries),
    decreases entries.len(),
{
    if entries.len() > 0 {
        lemma_accepted_is_packed(entries.drop_last());
    }
}

/// Once the writer has refused an entry, nothing that follows is taken: a tree
/// whose first `k` entries are not all accepted is not accepted.
pub proof fn lemma_refusal_is_final(entries: Seq<EntryView>, k: int)
    requires
        0 <= k <= entries.len(),
        accepted(entries.take(k)) is None,
    ensures
        accepted(entries) is None,
    decreases entries.len(),
{
    if k == entries.len() {
        assert(entries.take(k) =~= entries);
    } else {
        assert(entries.drop_last().take(k) =~= entries.take(k));
        lemma_refusal_is_final(entries.drop_last(), k);
    }
}

/// Packs the entries of a directory tree into one archive. Files carry their
/// contents, directories their names, empty ones too; the root is left out.
/// The entries are offered to the archive writer in the order given, and the
/// first refusal ends the packing with that error: so the archive is produced
/// exactly where the writer takes every entry and finishes, and it is then
/// the encoding of exactly the packed entries.
pub fn zip_folder(entries: &Vec<Entry>) -> (r: Result<Vec<u8>, String>)
    ensures
        r is Ok <==> pack_spec(views(entries@)) is Some,
        r matches Ok(bytes) ==> pack_spec(views(entries@)) == Some(bytes@),
        r matches Ok(bytes) ==> zip_encoding(packed(views(entries@))) == Some(bytes@),
{
    let mut writer = new_writer();
    let mut i: usize = 0;
    assert(views(entries@).take(0) =~= Seq::<EntryView>::empty());
    while i < entries.len()
        invariant
            i <= entries.len(),
            accepted(views(entries@).take(i as int)) == Some(written_entries(writer)),
        decreases entries.len() - i,
    {
        let entry = &entries[i];
        let ghost before = views(entries@).take(i as int);
        let ghost upto = views(entries@).take(i + 1);
        let ghost held = written_entries(writer);
        proof {
            assert(upto.drop_last() =~= before);
            assert(upto.last() == entry@);
            assert(accepted(upto) == offered(Some(held), entry@));
        }
        if !entry.is_dir {
            writer = match start_file(writer, entry.name.as_str()) {
                Ok(next) => next,
                Err(e) => {
                    proof {
                        lemma_refusal_is_final(views(entries@), i + 1);
                    }
                    return Err(e);
                },
            };
            writer = match write_contents(writer, entry.contents.as_slice()) {
                Ok(next) => next,
                Err(e) => {
                    proof {
                        lemma_refusal_is_final(views(entries@), i + 1);
                    }
                    return Err(e);
                },
            };
        } else if entry.name.as_str().unicode_len() > 0 {
            writer = match add_directory(writer, entry.name.as_str()) {
                Ok(next) => next,
                Err(e) => {
                    proof {
                        lemma_refusal_is_final(views(entries@), i + 1);
                    }
                    return Err(e);
                },
            };
        }
        assert(written_entries(writer) =~= held + packed_one(entry@));
        i = i + 1;
    }
    proof {
        assert(views(entries@).take(i as int) =~= views(entries@));
        lemma_accepted_is_packed(views(entries@));
    }
    finish(writer)
}

/// Unpacks an archive into the entries it lists, in order. It gives entries
/// exactly where the bytes are an archive whose every entry can be read, and
/// then all of them; otherwise an error and no entry at all. An entry is a
/// directory exactly where its name ends in a slash or backslash.
pub fn unzip_to_folder(bytes: &[u8]) -> (r: Result<Vec<Entry>, String>)
    ensures
        r is Ok <==> unpacked(bytes@) is Some,
        r matches Ok(entries) ==> Some(views(entries@)) == unpacked(bytes@),
        r matches Ok(entries) ==> forall|i: int|
            0 <= i < entries@.len() ==> (#[trigger] entries@[i]).is_dir == ends_with_separator(
                entries@[i].name@,
            ),
{
    let ghost source = bytes@;
    let mut archive = match open_archive(bytes) {
        Ok(archive) => archive,
        Err(e) => {
            return Err(e);
        },
    };
    let n = entry_count(&archive);
    let mut entries: Vec<Entry> = Vec::new();
    let mut i: usize = 0;
    while i < n
        invariant
            i <= n,
            source == bytes@,
            archive_source(archive) == source,
            zip_count(source) == Some(n as nat),
            entries@.len() == i,
            forall|k: int|
                0 <= k < i ==> zip_entry(source, k as nat) == Some((#[trigger] entries@[k])@),
            forall|k: int|
                0 <= k < i ==> (#[trigger] entries@[k]).is_dir == ends_with_separator(
                    entries@[k].name@,
                ),
        decreases n - i,
    {
        match read_entry(&mut archive, i) {
            Ok(entry) => {
                entries.push(entry);
            },
            Err(e) => {
                proof {
                    let at = i as nat;
                    assert(zip_entry(source, at) is None && at < n);
                    assert(unpacked(source) is None);
                }
                return Err(e);
            },
        }
        i = i + 1;
    }
    proof {
        assert forall|k: nat| k < n implies (#[trigger] zip_entry(source, k)) is Some by {
            assert(zip_entry(source, k) == Some(entries@[k as int]@));
        }
        assert(views(entries@) =~= Seq::new(n as nat, |k: int| zip_entry(source, k as nat).unwrap()));
    }
    Ok(entries)
}

/// What a revealed payload turns out to be. A container does not record
/// whether it protects a file or a directory, so the payload is tried as an
/// archive: one that reads as an archive counts as a directory, whatever it
/// was before it was protected.
pub enum Payload {
    /// The payload is an archive, and these are its entries.
    Directory(Vec<Entry>),
    /// The payload is no archive: these bytes are the file itself.
    Opaque(Vec<u8>),
}

/// Tells a directory from a file among revealed payloads. The payload is a
/// directory exactly where it unpacks in full, and then comes back as its
/// entries; otherwise it comes back as it is.
pub fn classify_payload(payload: Vec<u8>) -> (p: Payload)
    ensures
        p is Directory <==> unpacked(payload@) is Some,
        p matches Payload::Directory(entries) ==> Some(views(entries@)) == unpacked(payload@),
        p matches Payload::Opaque(bytes) ==> bytes@ == payload@,
{
    match unzip_to_folder(payload.as_slice()) {
        Ok(entries) => Payload::Directory(entries),
        Err(_) => Payload::Opaque(payload),
    }
}

} // verus!
