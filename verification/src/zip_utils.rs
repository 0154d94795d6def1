//! Reader for ZIP containers held in memory.
//!
//! The central directory is found by a linear search for its record
//! signature, not through the end-of-central-directory record. Archives with
//! unusual trailing data are therefore accepted, and a payload that happens to
//! hold the signature bytes is mistaken for a record.

use std::io::Read;
use vstd::prelude::*;
use vstd::slice::{slice_subrange, slice_to_vec};

verus! {

/// Length of the fixed part of a central-directory record.
pub const CENTRAL_HEADER_LEN: usize = 46;

/// Length of the fixed part of a local file header.
pub const LOCAL_HEADER_LEN: usize = 30;

/// One file recorded in the central directory of an archive.
#[derive(Debug, Clone, PartialEq, Eq)]
pub struct ZipEntry {
    /// Archive-relative path, separated by `/`; a directory if it ends with `/`.
    pub file_name: String,
    pub compressed_size: u32,
    /// 0 is stored, 8 is deflate; nothing else can be extracted.
    pub compression_method: u16,
    /// Where in the archive the local header of this entry is said to begin.
    pub local_header_offset: u32,
}

/// What a `ZipEntry` holds, as mathematical values.
pub struct ZipEntryView {
    pub file_name: Seq<char>,
    pub compressed_size: u32,
    pub compression_method: u16,
    pub local_header_offset: u32,
}

impl View for ZipEntry {
    type V = ZipEntryView;

    open spec fn view(&self) -> ZipEntryView {
        ZipEntryView {
            file_name: self.file_name@,
            compressed_size: self.compressed_size,
            compression_method: self.compression_method,
            local_header_offset: self.local_header_offset,
        }
    }
}

/// Why an archive's central directory could not be read.
#[derive(Debug, Clone, Copy, PartialEq, Eq, Structural)]
pub enum ParseError {
    /// A record signature was found, but the buffer ends before the record does.
    TruncatedHeader,
}

/// The two-byte little-endian number at `at`.
pub open spec fn le_u16_at(buf: Seq<u8>, at: int) -> int {
    buf[at] as int + 256 * (buf[at + 1] as int)
}

/// The four-byte little-endian number at `at`.
pub open spec fn le_u32_at(buf: Seq<u8>, at: int) -> int {
    buf[at] as int + 256 * (buf[at + 1] as int) + 65536 * (buf[at + 2] as int) + 16777216 * (
    buf[at + 3] as int)
}

/// The bytes `PK`, `third`, `fourth` stand at `at`.
pub open spec fn signature_at(buf: Seq<u8>, at: int, third: u8, fourth: u8) -> bool {
    &&& 0 <= at
    &&& at + 4 <= buf.len()
    &&& buf[at] == 0x50
    &&& buf[at + 1] == 0x4b
    &&& buf[at + 2] == third
    &&& buf[at + 3] == fourth
}

/// A central-directory record signature (`PK\x01\x02`) stands at `at`.
pub open spec fn central_signature_at(buf: Seq<u8>, at: int) -> bool {
    signature_at(buf, at, 0x01, 0x02)
}

/// A local file header signature (`PK\x03\x04`) stands at `at`.
pub open spec fn local_signature_at(buf: Seq<u8>, at: int) -> bool {
    signature_at(buf, at, 0x03, 0x04)
}

fn read_u16_le(buf: &[u8], at: usize) -> (value: u16)
    requires
        at + 2 <= buf@.len(),
    ensures
        value == le_u16_at(buf@, at as int),
{
    let low: u16 = buf[at] as u16;
    let high: u16 = buf[at + 1] as u16;
    low + high * 256
}

fn read_u32_le(buf: &[u8], at: usize) -> (value: u32)
    requires
        at + 4 <= buf@.len(),
    ensures
        value == le_u32_at(buf@, at as int),
{
    let b0: u32 = buf[at] as u32;
    let b1: u32 = buf[at + 1] as u32;
    let b2: u32 = buf[at + 2] as u32;
    let b3: u32 = buf[at + 3] as u32;
    b0 + b1 * 256 + b2 * 65536 + b3 * 16777216
}

fn has_signature(buf: &[u8], at: usize, third: u8, fourth: u8) -> (found: bool)
    requires
        at <= buf@.len(),
    ensures
        found == signature_at(buf@, at as int, third, fourth),
{
    buf.len() - at >= 4 && buf[at] == 0x50 && buf[at + 1] == 0x4b && buf[at + 2] == third && buf[at
        + 3] == fourth
}

/// What `String::from_utf8_lossy` makes of `bytes`: the text they encode, with
/// U+FFFD in place of each run of bytes that is not UTF-8.
pub uninterp spec fn utf8_lossy(bytes: Seq<u8>) -> Seq<char>;

/// Decodes a file name permissively, by `String::from_utf8_lossy`; the call
/// never fails. Trusted: the result is the text named `utf8_lossy`.
#[verifier::external_body]
fn decode_name(bytes: &[u8]) -> (name: String)
    ensures
        name@ == utf8_lossy(bytes@),
{
    String::from_utf8_lossy(bytes).into_owned()
}

/// Length of the file name that the record at `at` announces.
pub open spec fn central_name_len(buf: Seq<u8>, at: int) -> int {
    le_u16_at(buf, at + 28)
}

/// Length of the whole record at `at`: the fixed header, then file name,
/// extra field and comment.
pub open spec fn central_record_len(buf: Seq<u8>, at: int) -> int {
    CENTRAL_HEADER_LEN as int + le_u16_at(buf, at + 28) + le_u16_at(buf, at + 30) + le_u16_at(
        buf,
        at + 32,
    )
}

/// The raw bytes of the file name in the record at `at`.
pub open spec fn central_name_bytes(buf: Seq<u8>, at: int) -> Seq<u8> {
    buf.subrange(at + CENTRAL_HEADER_LEN as int, at + CENTRAL_HEADER_LEN as int + central_name_len(buf, at))
}

/// The entry that the record at `at` describes, once its name is decoded to
/// `file_name`.
pub open spec fn central_fields(buf: Seq<u8>, at: int, file_name: Seq<char>) -> ZipEntryView {
    ZipEntryView {
        file_name,
        compressed_size: le_u32_at(buf, at + 20) as u32,
        compression_method: le_u16_at(buf, at + 10) as u16,
        local_header_offset: le_u32_at(buf, at + 42) as u32,
    }
}

/// The entry that the record at `at` describes.
pub open spec fn central_record(buf: Seq<u8>, at: int) -> ZipEntryView {
    central_fields(buf, at, utf8_lossy(central_name_bytes(buf, at)))
}

/// The record whose signature stands at `at` lies wholly inside the buffer.
pub open spec fn central_record_fits(buf: Seq<u8>, at: int) -> bool {
    &&& at + CENTRAL_HEADER_LEN as int <= buf.len()
    &&& at + central_record_len(buf, at) <= buf.len()
}

/// The entries found by scanning `buf` from `at` on: each signature starts a
/// record, the scan resumes behind that record, and a record that does not fit
/// ends the scan with an error.
pub open spec fn parse_from(buf: Seq<u8>, at: int) -> Result<Seq<ZipEntryView>, ParseError>
    decreases buf.len() - at,
{
    if at < 0 || at + 4 > buf.len() {
        Ok(Seq::empty())
    } else if !central_signature_at(buf, at) {
        parse_from(buf, at + 1)
    } else if !central_record_fits(buf, at) {
        Err(ParseError::TruncatedHeader)
    } else {
        match parse_from(buf, at + central_record_len(buf, at)) {
            Ok(rest) => Ok(seq![central_record(buf, at)] + rest),
            Err(e) => Err(e),
        }
    }
}

/// The entries of the archive `buf`, in the order of their records.
pub open spec fn parse_spec(buf: Seq<u8>) -> Result<Seq<ZipEntryView>, ParseError> {
    parse_from(buf, 0)
}

/// The views of a sequence of entries.
pub open spec fn entry_views(entries: Seq<ZipEntry>) -> Seq<ZipEntryView> {
    entries.map_values(|e: ZipEntry| e@)
}

/// `found` in front of what the rest of the scan gives.
pub open spec fn after_entries(
    found: Seq<ZipEntryView>,
    rest: Result<Seq<ZipEntryView>, ParseError>,
) -> Result<Seq<ZipEntryView>, ParseError> {
    match rest {
        Ok(more) => Ok(found + more),
        Err(e) => Err(e),
    }
}

/// Builds the entry of the central-directory record at `at` from its fixed
/// fields and the already decoded file name.
pub fn central_entry(buffer: &[u8], at: usize, file_name: String) -> (entry: ZipEntry)
    requires
        at + CENTRAL_HEADER_LEN <= buffer@.len(),
    ensures
        entry@ == central_fields(buffer@, at as int, file_name@),
{
    proof {
        vstd::slice::axiom_spec_len(buffer);
    }
    ZipEntry {
        file_name,
        compressed_size: read_u32_le(buffer, at + 20),
        compression_method: read_u16_le(buffer, at + 10),
        local_header_offset: read_u32_le(buffer, at + 42),
    }
}

/// Lists the entries of an archive by scanning it for central-directory
/// records.
///
/// Entries come in the order of their records. A buffer without any record
/// signature gives an empty list. A signature whose record runs past the end
/// of the buffer gives `TruncatedHeader`.
pub fn parse_central_directory(buffer: &[u8]) -> (result: Result<Vec<ZipEntry>, ParseError>)
    ensures
        match result {
            Ok(entries) => parse_spec(buffer@) == Ok::<Seq<ZipEntryView>, ParseError>(
                entry_views(entries@),
            ),
            Err(e) => parse_spec(buffer@) == Err::<Seq<ZipEntryView>, ParseError>(e),
        },
        result matches Ok(entries) ==> entries@.len() == parse_spec(buffer@)->Ok_0.len(),
{
    let mut entries: Vec<ZipEntry> = Vec::new();
    let len: usize = buffer.len();
    let mut i: usize = 0;
    assert(entry_views(entries@) + Seq::<ZipEntryView>::empty() =~= Seq::<ZipEntryView>::empty());
    while len - i >= 4
        invariant
            i <= len,
            len == buffer@.len(),
            parse_spec(buffer@) == after_entries(
                entry_views(entries@),
                parse_from(buffer@, i as int),
            ),
        decreases len - i,
    {
        if has_signature(buffer, i, 0x01, 0x02) {
            if len - i < CENTRAL_HEADER_LEN {
                return Err(ParseError::TruncatedHeader);
            }
            let name_len: usize = read_u16_le(buffer, i + 28) as usize;
            let extra_len: usize = read_u16_le(buffer, i + 30) as usize;
            let comment_len: usize = read_u16_le(buffer, i + 32) as usize;
            let trailer: usize = name_len + extra_len + comment_len;
            if len - i - CENTRAL_HEADER_LEN < trailer {
                return Err(ParseError::TruncatedHeader);
            }
            let start: usize = i + CENTRAL_HEADER_LEN;
            let file_name = decode_name(slice_subrange(buffer, start, start + name_len));
            let entry = central_entry(buffer, i, file_name);
            proof {
                let ghost before = entry_views(entries@);
                let ghost rest = parse_from(buffer@, i as int + central_record_len(buffer@, i as int));
                assert(entry@ == central_record(buffer@, i as int));
                assert(entry_views(entries@.push(entry)) =~= before + seq![entry@]);
                if rest is Ok {
                    assert((before + seq![entry@]) + rest->Ok_0 =~= before + (seq![entry@]
                        + rest->Ok_0));
                }
            }
            entries.push(entry);
            i = start + trailer;
        } else {
            i = i + 1;
        }
    }
    proof {
        assert(entry_views(entries@) + Seq::<ZipEntryView>::empty() =~= entry_views(entries@));
    }
    Ok(entries)
}

/// Why one entry could not be extracted. Other entries are not affected.
#[derive(Debug, Clone, Copy, PartialEq, Eq, Structural)]
pub enum ExtractError {
    /// The local header does not fit in the buffer at the recorded offset, or
    /// its signature is not there.
    InvalidLocalHeader,
    /// The payload would run past the end of the buffer.
    TruncatedPayload,
    /// The entry uses a compression method other than stored and deflate.
    UnsupportedCompression(u16),
    /// The payload is not a complete, valid deflate stream.
    CorruptPayload,
}

/// What extracting one entry asks of the file system, below the destination
/// directory and at the path that the entry names.
#[derive(Debug, Clone, PartialEq, Eq)]
pub enum Extraction {
    /// Create this directory and its parents; write no file.
    Directory,
    /// Create the parents of this file and write exactly these bytes to it,
    /// replacing what it held.
    File(Vec<u8>),
}

/// An `Extraction`, as mathematical values.
pub enum ExtractionView {
    Directory,
    File(Seq<u8>),
}

impl View for Extraction {
    type V = ExtractionView;

    open spec fn view(&self) -> ExtractionView {
        match self {
            Extraction::Directory => ExtractionView::Directory,
            Extraction::File(bytes) => ExtractionView::File(bytes@),
        }
    }
}

/// The view of the result of an extraction.
pub open spec fn outcome_view(outcome: Result<Extraction, ExtractError>) -> Result<
    ExtractionView,
    ExtractError,
> {
    match outcome {
        Ok(extraction) => Ok(extraction@),
        Err(e) => Err(e),
    }
}

/// Where the payload begins behind the local header at `offset`: behind the
/// fixed header and the file name and extra field whose lengths the local
/// header itself gives.
pub open spec fn payload_start(buf: Seq<u8>, offset: int) -> int {
    offset + LOCAL_HEADER_LEN as int + le_u16_at(buf, offset + 26) + le_u16_at(buf, offset + 28)
}

/// The byte range `(start, end)` of the payload of `entry` in `buf`.
pub open spec fn locate_spec(entry: ZipEntryView, buf: Seq<u8>) -> Result<(int, int), ExtractError> {
    let offset = entry.local_header_offset as int;
    if offset + LOCAL_HEADER_LEN as int > buf.len() || !local_signature_at(buf, offset) {
        Err(ExtractError::InvalidLocalHeader)
    } else if payload_start(buf, offset) + entry.compressed_size > buf.len() {
        Err(ExtractError::TruncatedPayload)
    } else {
        Ok((payload_start(buf, offset), payload_start(buf, offset) + entry.compressed_size))
    }
}

/// The name denotes a directory: it ends with `/`.
pub open spec fn directory_name(name: Seq<char>) -> bool {
    name.len() > 0 && name.last() == '/'
}

/// What flate2's `DeflateDecoder`, read to its end, makes of the raw deflate
/// stream `data`: the expanded bytes, or `None` where it reports an error.
pub uninterp spec fn inflated(data: Seq<u8>) -> Option<Seq<u8>>;

/// What is to be written for a payload that was run through the decoder.
pub open spec fn inflated_outcome_spec(decoded: Option<Seq<u8>>) -> Result<
    ExtractionView,
    ExtractError,
> {
    match decoded {
        Some(bytes) => Ok(ExtractionView::File(bytes)),
        None => Err(ExtractError::CorruptPayload),
    }
}

/// What is to be done with a payload that was located: nothing is read of it
/// for a directory; otherwise the compression method decides.
pub open spec fn unpack_spec(name: Seq<char>, method: u16, payload: Seq<u8>) -> Result<
    ExtractionView,
    ExtractError,
> {
    if directory_name(name) {
        Ok(ExtractionView::Directory)
    } else if method == 0 {
        Ok(ExtractionView::File(payload))
    } else if method == 8 {
        inflated_outcome_spec(inflated(payload))
    } else {
        Err(ExtractError::UnsupportedCompression(method))
    }
}

/// What extracting `entry` from `buf` gives.
pub open spec fn extract_spec(entry: ZipEntryView, buf: Seq<u8>) -> Result<
    ExtractionView,
    ExtractError,
> {
    match locate_spec(entry, buf) {
        Ok((start, end)) => unpack_spec(
            entry.file_name,
            entry.compression_method,
            buf.subrange(start, end),
        ),
        Err(e) => Err(e),
    }
}

/// The error type of `std::io`, in which the decoder reports a stream that
/// it refuses. Nothing is read of such a value.
#[verifier::external_type_specification]
#[verifier::external_body]
pub struct ExIoError(std::io::Error);

/// Expands a raw deflate stream with flate2's `DeflateDecoder`, read to its
/// end. Trusted: the outcome depends on `data` alone and is the one named
/// `inflated`, an error of the decoder standing for `None`.
#[verifier::external_body]
fn inflate(data: &[u8]) -> (decoded: Result<Vec<u8>, std::io::Error>)
    ensures
        match decoded {
            Ok(bytes) => inflated(data@) == Some(bytes@),
            Err(_) => inflated(data@) is None,
        },
{
    let mut bytes: Vec<u8> = Vec::new();
    match flate2::read::DeflateDecoder::new(data).read_to_end(&mut bytes) {
        Ok(_) => Ok(bytes),
        Err(e) => Err(e),
    }
}

/// Finds the payload of `entry` in `buffer` through the entry's local header.
///
/// The lengths of file name and extra field are read from the local header,
/// where they may differ from those of the central directory. Returns the
/// range `(start, end)` of the payload.
pub fn locate_payload(entry: &ZipEntry, buffer: &[u8]) -> (result: Result<
    (usize, usize),
    ExtractError,
>)
    ensures
        match result {
            Ok((start, end)) => locate_spec(entry@, buffer@) == Ok::<(int, int), ExtractError>(
                (start as int, end as int),
            ),
            Err(e) => locate_spec(entry@, buffer@) == Err::<(int, int), ExtractError>(e),
        },
{
    let len: usize = buffer.len();
    let offset: usize = entry.local_header_offset as usize;
    if len < LOCAL_HEADER_LEN || offset > len - LOCAL_HEADER_LEN {
        return Err(ExtractError::InvalidLocalHeader);
    }
    if !has_signature(buffer, offset, 0x03, 0x04) {
        return Err(ExtractError::InvalidLocalHeader);
    }
    let name_len: usize = read_u16_le(buffer, offset + 26) as usize;
    let extra_len: usize = read_u16_le(buffer, offset + 28) as usize;
    let header_end: usize = offset + LOCAL_HEADER_LEN;
    if len - header_end < name_len + extra_len {
        return Err(ExtractError::TruncatedPayload);
    }
    let start: usize = header_end + name_len + extra_len;
    let size: usize = entry.compressed_size as usize;
    if len - start < size {
        return Err(ExtractError::TruncatedPayload);
    }
    Ok((start, start + size))
}

/// Whether an entry of this name is a directory.
pub fn is_directory_name(name: &str) -> (directory: bool)
    ensures
        directory == directory_name(name@),
{
    let count: usize = name.unicode_len();
    count > 0 && name.get_char(count - 1) == '/'
}

/// Turns what the deflate decoder returned into the outcome of the
/// extraction: the expanded bytes are to be written, and a stream that the
/// decoder refused is a corrupt payload.
pub fn inflated_outcome(decoded: Result<Vec<u8>, std::io::Error>) -> (outcome: Result<
    Extraction,
    ExtractError,
>)
    ensures
        match decoded {
            Ok(bytes) => outcome_view(outcome) == inflated_outcome_spec(Some(bytes@)),
            Err(_) => outcome_view(outcome) == inflated_outcome_spec(None),
        },
{
    match decoded {
        Ok(bytes) => Ok(Extraction::File(bytes)),
        Err(_) => Err(ExtractError::CorruptPayload),
    }
}

/// Decides what extracting `entry` from the archive `buffer` writes.
///
/// The local header is checked first and the payload located through it. An
/// entry whose name ends with `/` is then a directory, whatever its size and
/// method. Any other entry is a file: stored bytes are taken as they are,
/// deflated bytes are expanded, and another method is refused before anything
/// is written. The file name is joined to the destination unchanged: a name
/// that holds `..` is not refused here.
pub fn extract_file(entry: &ZipEntry, buffer: &[u8]) -> (outcome: Result<Extraction, ExtractError>)
    ensures
        outcome_view(outcome) == extract_spec(entry@, buffer@),
{
    let (start, end) = match locate_payload(entry, buffer) {
        Ok(range) => range,
        Err(e) => {
            return Err(e);
        },
    };
    if is_directory_name(entry.file_name.as_str()) {
        return Ok(Extraction::Directory);
    }
    let payload = slice_subrange(buffer, start, end);
    if entry.compression_method == 0 {
        Ok(Extraction::File(slice_to_vec(payload)))
    } else if entry.compression_method == 8 {
        inflated_outcome(inflate(payload))
    } else {
        Err(ExtractError::UnsupportedCompression(entry.compression_method))
    }
}

/// The entries of an archive, each with the outcome of its extraction.
#[derive(Debug, Clone, PartialEq, Eq)]
pub struct Unzipped {
    /// The entries, in the order of the central directory.
    pub entries: Vec<ZipEntry>,
    /// For each entry, at the same index, what extracting it gives.
    pub outcomes: Vec<Result<Extraction, ExtractError>>,
}

impl Unzipped {
    /// Every entry of `buf` is there, in order, and beside each stands the
    /// outcome of its own extraction.
    pub open spec fn unpacks(&self, buf: Seq<u8>) -> bool {
        &&& parse_spec(buf) == Ok::<Seq<ZipEntryView>, ParseError>(entry_views(self.entries@))
        &&& self.outcomes@.len() == self.entries@.len()
        &&& forall|i: int|
            0 <= i < self.entries@.len() ==> outcome_view(#[trigger] self.outcomes@[i])
                == extract_spec(self.entries@[i]@, buf)
    }
}

/// Parses an archive and extracts every entry of it.
///
/// An archive that cannot be parsed gives the parse error and nothing else.
/// Otherwise each entry is extracted on its own: an entry that fails leaves
/// its error at its index and the entries behind it are still extracted.
pub fn unzip_file(buffer: &[u8]) -> (result: Result<Unzipped, ParseError>)
    ensures
        match result {
            Ok(unzipped) => unzipped.unpacks(buffer@),
            Err(e) => parse_spec(buffer@) == Err::<Seq<ZipEntryView>, ParseError>(e),
        },
{
    let entries = match parse_central_directory(buffer) {
        Ok(entries) => entries,
        Err(e) => {
            return Err(e);
        },
    };
    let mut outcomes: Vec<Result<Extraction, ExtractError>> = Vec::new();
    let mut i: usize = 0;
    while i < entries.len()
        invariant
            i <= entries@.len(),
            outcomes@.len() == i,
            forall|k: int|
                0 <= k < i ==> outcome_view(#[trigger] outcomes@[k]) == extract_spec(
                    entries@[k]@,
                    buffer@,
                ),
        decreases entries@.len() - i,
    {
        let outcome = extract_file(&entries[i], buffer);
        outcomes.push(outcome);
        i = i + 1;
    }
    Ok(Unzipped { entries, outcomes })
}

/// The law of the scan on a buffer that holds no record signature at or
/// behind `at`.
proof fn lemma_scan_without_signature(buf: Seq<u8>, at: int)
    requires
        forall|i: int| at <= i ==> !central_signature_at(buf, i),
    ensures
        parse_from(buf, at) == Ok::<Seq<ZipEntryView>, ParseError>(Seq::empty()),
    decreases buf.len() - at,
{
    if 0 <= at && at + 4 <= buf.len() {
        lemma_scan_without_signature(buf, at + 1);
    }
}

/// A buffer in which the record signature occurs nowhere parses to an empty
/// list of entries, not to an error.
pub proof fn lemma_no_signature_gives_no_entries(buf: Seq<u8>)
    requires
        forall|i: int| !central_signature_at(buf, i),
    ensures
        parse_spec(buf) == Ok::<Seq<ZipEntryView>, ParseError>(Seq::empty()),
{
    lemma_scan_without_signature(buf, 0);
}

/// The scan from `from` reaches `at` unchanged when no signature stands in
/// between.
proof fn lemma_scan_skips_to(buf: Seq<u8>, from: int, at: int)
    requires
        0 <= from <= at,
        at + 4 <= buf.len(),
        forall|i: int| from <= i < at ==> !central_signature_at(buf, i),
    ensures
        parse_from(buf, from) == parse_from(buf, at),
    decreases at - from,
{
    if from < at {
        lemma_scan_skips_to(buf, from + 1, at);
    }
}

/// Where the first record signature of a buffer has fewer than 46 bytes
/// from its start to the end of the buffer, or announces a name, extra field
/// and comment that run past the end, parsing gives `TruncatedHeader`.
pub proof fn lemma_truncated_record_is_rejected(buf: Seq<u8>, at: int)
    requires
        central_signature_at(buf, at),
        forall|i: int| 0 <= i < at ==> !central_signature_at(buf, i),
        !central_record_fits(buf, at),
    ensures
        parse_spec(buf) == Err::<Seq<ZipEntryView>, ParseError>(ParseError::TruncatedHeader),
{
    lemma_scan_skips_to(buf, 0, at);
}

/// The entry is well formed in `buf`: its local header stands at the recorded
/// offset, and `payload` is what lies behind that header, in the recorded
/// size.
pub open spec fn payload_of(entry: ZipEntryView, buf: Seq<u8>, payload: Seq<u8>) -> bool {
    let offset = entry.local_header_offset as int;
    &&& offset + LOCAL_HEADER_LEN as int <= buf.len()
    &&& local_signature_at(buf, offset)
    &&& payload.len() == entry.compressed_size
    &&& payload_start(buf, offset) + payload.len() <= buf.len()
    &&& payload == buf.subrange(
        payload_start(buf, offset),
        payload_start(buf, offset) + payload.len(),
    )
}

/// A well-formed stored entry is written as a file of exactly the bytes of
/// its payload, as many as its recorded size.
pub proof fn lemma_stored_entry_gives_its_payload(
    entry: ZipEntryView,
    buf: Seq<u8>,
    payload: Seq<u8>,
)
    requires
        payload_of(entry, buf, payload),
        entry.compression_method == 0,
        !directory_name(entry.file_name),
    ensures
        extract_spec(entry, buf) == Ok::<ExtractionView, ExtractError>(
            ExtractionView::File(payload),
        ),
        payload.len() == entry.compressed_size,
{
}

/// A well-formed deflated entry is written as a file of what the decoder
/// makes of its payload, and fails as corrupt where the decoder refuses it.
pub proof fn lemma_deflated_entry_gives_inflated_payload(
    entry: ZipEntryView,
    buf: Seq<u8>,
    payload: Seq<u8>,
)
    requires
        payload_of(entry, buf, payload),
        entry.compression_method == 8,
        !directory_name(entry.file_name),
    ensures
        extract_spec(entry, buf) == match inflated(payload) {
            Some(bytes) => Ok::<ExtractionView, ExtractError>(ExtractionView::File(bytes)),
            None => Err::<ExtractionView, ExtractError>(ExtractError::CorruptPayload),
        },
{
}

/// A file entry whose method is neither stored nor deflate is refused with
/// its method, and nothing is to be written for it.
pub proof fn lemma_unsupported_method_writes_nothing(entry: ZipEntryView, buf: Seq<u8>)
    requires
        locate_spec(entry, buf) is Ok,
        entry.compression_method != 0,
        entry.compression_method != 8,
        !directory_name(entry.file_name),
    ensures
        extract_spec(entry, buf) == Err::<ExtractionView, ExtractError>(
            ExtractError::UnsupportedCompression(entry.compression_method),
        ),
{
}

/// An entry whose name ends with `/` and whose local header and payload
/// range are in order gives a directory and no file, whatever its size and
/// compression method.
pub proof fn lemma_directory_entry_writes_no_file(entry: ZipEntryView, buf: Seq<u8>)
    requires
        locate_spec(entry, buf) is Ok,
        directory_name(entry.file_name),
    ensures
        extract_spec(entry, buf) == Ok::<ExtractionView, ExtractError>(ExtractionView::Directory),
{
}

/// Extraction never reads outside the buffer: an entry whose local header
/// or payload would pass the end of the buffer fails, and only that entry.
pub proof fn lemma_extraction_stays_in_bounds(entry: ZipEntryView, buf: Seq<u8>)
    requires
        extract_spec(entry, buf) is Ok,
    ensures
        entry.local_header_offset + LOCAL_HEADER_LEN as int <= buf.len(),
        payload_start(buf, entry.local_header_offset as int) + entry.compressed_size <= buf.len(),
{
}

/// `buf` is an archive of one entry: a local header at its start, then the
/// payload, then at `directory_at` the one central-directory record, which
/// points back to the start and gives the size of the payload. The record
/// signature occurs nowhere else.
pub open spec fn single_entry_archive(buf: Seq<u8>, directory_at: int, payload: Seq<u8>) -> bool {
    &&& local_signature_at(buf, 0)
    &&& LOCAL_HEADER_LEN as int <= directory_at
    &&& payload_start(buf, 0) + payload.len() == directory_at
    &&& payload == buf.subrange(payload_start(buf, 0), directory_at)
    &&& central_signature_at(buf, directory_at)
    &&& central_record_fits(buf, directory_at)
    &&& le_u32_at(buf, directory_at + 42) == 0
    &&& le_u32_at(buf, directory_at + 20) == payload.len()
    &&& forall|i: int| 0 <= i < directory_at ==> !central_signature_at(buf, i)
    &&& forall|i: int|
        directory_at + central_record_len(buf, directory_at) <= i ==> !central_signature_at(buf, i)
}

/// An archive of one entry is read back as it was written: parsing gives
/// that one entry, and extracting the entry gives a file of exactly the bytes
/// of the payload where it is stored, and of what the decoder makes of the
/// payload where it is deflated.
pub proof fn lemma_single_entry_archive_is_read_back(
    buf: Seq<u8>,
    directory_at: int,
    payload: Seq<u8>,
)
    requires
        single_entry_archive(buf, directory_at, payload),
    ensures
        parse_spec(buf) == Ok::<Seq<ZipEntryView>, ParseError>(
            seq![central_record(buf, directory_at)],
        ),
        payload_of(central_record(buf, directory_at), buf, payload),
        !directory_name(central_record(buf, directory_at).file_name) ==> extract_spec(
            central_record(buf, directory_at),
            buf,
        ) == unpack_spec(
            central_record(buf, directory_at).file_name,
            central_record(buf, directory_at).compression_method,
            payload,
        ),
        !directory_name(central_record(buf, directory_at).file_name) && central_record(
            buf,
            directory_at,
        ).compression_method == 0 ==> extract_spec(central_record(buf, directory_at), buf) == Ok::<
            ExtractionView,
            ExtractError,
        >(ExtractionView::File(payload)),
{
    let behind = directory_at + central_record_len(buf, directory_at);
    lemma_scan_skips_to(buf, 0, directory_at);
    lemma_scan_without_signature(buf, behind);
    assert(seq![central_record(buf, directory_at)] + Seq::<ZipEntryView>::empty() =~= seq![
        central_record(buf, directory_at),
    ]);
}

} // verus!
