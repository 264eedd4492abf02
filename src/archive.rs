use vstd::prelude::*;

verus! {

/// A zip archive being written into memory: the entries begun so far.
/// Verus cannot declare `zip::ZipWriter` itself (its type parameter is
/// bound by `std::io` traits), so the writer is held here, out of sight.
#[verifier::external_body]
pub struct ZipBuffer {
    inner: zip::ZipWriter<std::io::Cursor<Vec<u8>>>,
}

/// The entries begun in an archive being written, in order: name and the
/// bytes written to it.
pub uninterp spec fn zip_entries(w: ZipBuffer) -> Seq<(Seq<char>, Seq<u8>)>;

/// Whether no operation on an archive being written has failed, so that
/// its buffer holds nothing but its entries.
pub uninterp spec fn zip_intact(w: ZipBuffer) -> bool;

/// The bytes of the finished archive of these entries, each written in
/// one piece, as `zip` writes it with the default options (whose timestamp
/// is fixed in this build, which leaves out zip's `time` feature).
pub uninterp spec fn zip_archive_bytes(entries: Seq<(Seq<char>, Seq<u8>)>) -> Seq<u8>;

/// The longest entry name, in characters, that is always short enough:
/// `zip` needs the name's UTF-8 form to fit in 16 bits, and a character
/// takes at most four bytes.
pub const MAX_NAME_CHARS: usize = 16383;

/// The most bytes an entry holds for which `zip` never asks for its
/// large-file option: within 32 bits even once deflated, as deflate output
/// stays within twice its input.
pub const MAX_ENTRY_BYTES: usize = 2147483648;

/// Every entry is small enough to finish without the large-file option.
pub open spec fn entries_within_limit(e: Seq<(Seq<char>, Seq<u8>)>) -> bool {
    forall|k: int| 0 <= k < e.len() ==> (#[trigger] e[k]).1.len() <= MAX_ENTRY_BYTES
}

/// No entry has this name.
pub open spec fn name_is_new(e: Seq<(Seq<char>, Seq<u8>)>, name: Seq<char>) -> bool {
    forall|k: int| 0 <= k < e.len() ==> (#[trigger] e[k]).0 != name
}

/// Relies on `zip::ZipWriter::new`: a writer of a new archive into an
/// empty in-memory buffer.
#[verifier::external_body]
fn archive_writer() -> (w: ZipBuffer)
    ensures
        zip_entries(w) == Seq::<(Seq<char>, Seq<u8>)>::empty(),
        zip_intact(w),
{
    ZipBuffer { inner: zip::ZipWriter::new(std::io::Cursor::new(Vec::new())) }
}

/// Relies on `zip::ZipWriter::start_file`: finishes the entry in progress
/// and begins an empty entry of this name with the default options; it
/// refuses a name already taken, and an entry in progress that needs the
/// large-file option. Writing to memory does not fail otherwise.
#[verifier::external_body]
fn archive_start_entry(w: &mut ZipBuffer, name: &str) -> (ok: bool)
    requires
        name@.len() <= MAX_NAME_CHARS,
    ensures
        ok && zip_intact(*old(w)) ==> zip_intact(*final(w)) && zip_entries(*final(w)) == zip_entries(
            *old(w),
        ).push((name@, Seq::<u8>::empty())),
        zip_intact(*old(w)) && name_is_new(zip_entries(*old(w)), name@) && entries_within_limit(
            zip_entries(*old(w)),
        ) ==> ok,
{
    w.inner.start_file(name, zip::write::FileOptions::<zip::write::ExtendedFileOptions>::default()).is_ok()
}

/// Relies on the `std::io::Write::write_all` of `zip::ZipWriter`: writes
/// the bytes to the entry in progress; `false` where writing fails, which
/// writing to memory does only past the large-file limit.
#[verifier::external_body]
fn archive_write(w: &mut ZipBuffer, data: &Vec<u8>) -> (ok: bool)
    ensures
        ({
            let e = zip_entries(*old(w));
            ok && zip_intact(*old(w)) && e.len() > 0 && e.last().1.len() == 0 ==> zip_intact(
                *final(w),
            ) && zip_entries(*final(w)) == e.update(e.len() - 1, (e.last().0, data@))
        }),
        ({
            let e = zip_entries(*old(w));
            zip_intact(*old(w)) && e.len() > 0 && e.last().1.len() == 0 && data@.len()
                <= MAX_ENTRY_BYTES ==> ok
        }),
{
    std::io::Write::write_all(&mut w.inner, data.as_slice()).is_ok()
}

/// Relies on `zip::ZipWriter::finish`: finishes the entry in progress,
/// writes the archive's directory and hands back the buffer; `None` where
/// that fails, which in memory it does only for an entry that needs the
/// large-file option.
#[verifier::external_body]
fn archive_finish(w: ZipBuffer) -> (r: Option<Vec<u8>>)
    ensures
        r matches Some(b) ==> zip_intact(w) ==> b@ == zip_archive_bytes(zip_entries(w)),
        zip_intact(w) && entries_within_limit(zip_entries(w)) ==> r is Some,
{
    match w.inner.finish() {
        Ok(c) => Some(c.into_inner()),
        Err(_) => None,
    }
}

/// Why an archive could not be produced.
#[derive(Clone, Copy, PartialEq, Eq, Structural)]
pub enum ArchiveError {
    /// The archive could not be completed.
    FinishFailed,
}

impl ArchiveError {
    /// The message shown for this error.
    pub fn message(&self) -> (r: &'static str)
        ensures
            r@ == "Failed to create zip archive."@,
    {
        "Failed to create zip archive."
    }
}

/// Named files as archive entries: name and bytes.
pub open spec fn file_entries(files: Seq<(String, Vec<u8>)>) -> Seq<(Seq<char>, Seq<u8>)> {
    files.map_values(|f: (String, Vec<u8>)| (f.0@, f.1@))
}

/// Files that always pack: names of at most `MAX_NAME_CHARS` characters,
/// no two alike, and at most `MAX_ENTRY_BYTES` bytes each.
pub open spec fn packable(e: Seq<(Seq<char>, Seq<u8>)>) -> bool {
    &&& entries_within_limit(e)
    &&& forall|k: int| 0 <= k < e.len() ==> (#[trigger] e[k]).0.len() <= MAX_NAME_CHARS
    &&& forall|i: int, j: int| 0 <= i < j < e.len() ==> e[i].0 != e[j].0
}

/// A finished archive, and the files that could not be packed into it.
pub struct PackedArchive {
    pub bytes: Vec<u8>,
    pub skipped: Vec<String>,
}

/// Packs named files into a zip archive, in order. A file whose entry
/// cannot be begun or written, or whose name is longer than
/// `MAX_NAME_CHARS`, is passed over and named in `skipped`, and the others
/// are still packed; only a failure to complete the archive is an error.
/// Where nothing was passed over, the archive holds exactly the given
/// files; files with distinct names within the limits always pack so.
pub fn mods_archive(files: &Vec<(String, Vec<u8>)>) -> (r: Result<PackedArchive, ArchiveError>)
    ensures
        r matches Ok(p) ==> (p.skipped@.len() == 0 ==> p.bytes@ == zip_archive_bytes(
            file_entries(files@),
        )),
        r matches Err(e) ==> e == ArchiveError::FinishFailed,
        packable(file_entries(files@)) ==> (r matches Ok(p) && p.skipped@.len() == 0
            && p.bytes@ == zip_archive_bytes(file_entries(files@))),
{
    let mut w = archive_writer();
    let mut skipped: Vec<String> = Vec::new();
    let ghost all = file_entries(files@);
    let ghost good = packable(all);
    let mut i: usize = 0;
    while i < files.len()
        invariant
            i <= files@.len(),
            all == file_entries(files@),
            good == packable(all),
            skipped@.len() == 0 ==> zip_intact(w) && zip_entries(w) == all.take(i as int),
            good ==> skipped@.len() == 0,
        decreases files@.len() - i,
    {
        let (name, data) = &files[i];
        assert(all[i as int] == (name@, data@));
        proof {
            if good {
                assert forall|k: int| 0 <= k < all.take(i as int).len() implies (#[trigger] all.take(
                    i as int,
                )[k]).0 != name@ by {
                    assert(all.take(i as int)[k] == all[k]);
                }
                assert forall|k: int| 0 <= k < all.take(i as int).len() implies (#[trigger] all.take(
                    i as int,
                )[k]).1.len() <= MAX_ENTRY_BYTES by {
                    assert(all.take(i as int)[k] == all[k]);
                }
            }
        }
        if name.unicode_len() > MAX_NAME_CHARS {
            skipped.push(name.clone());
        } else if archive_start_entry(&mut w, name.as_str()) {
            if archive_write(&mut w, data) {
                proof {
                    if skipped@.len() == 0 {
                        assert(zip_entries(w) =~= all.take(i + 1));
                    }
                }
            } else {
                skipped.push(name.clone());
            }
        } else {
            skipped.push(name.clone());
        }
        i = i + 1;
    }
    assert(all.take(files@.len() as int) =~= all);
    match archive_finish(w) {
        Some(bytes) => Ok(PackedArchive { bytes, skipped }),
        None => Err(ArchiveError::FinishFailed),
    }
}

} // verus!
