//! The registry's bulk dump as it arrives: a ZIP archive whose entries are
//! read as forward-only streams of XML events.

use crate::error::{XmlFault, XmlFaultView, ZipFault};
use quick_xml::events::Event;
use vstd::prelude::*;
use vstd::string::*;

verus! {

broadcast use vstd::string::group_string_axioms;

/// One event of an XML stream, reduced to what the ingestion reads of it.
#[derive(Debug, Clone, Eq, PartialEq)]
pub enum XmlEvent {
    /// The XML declaration, `<?xml ...?>`.
    Decl,
    /// An opening tag, with the element's name.
    Start(String),
    /// A self-closing tag, with the element's name.
    Empty(String),
    /// Character data between tags, trimmed and with its entities resolved.
    Text(String),
    /// A closing tag, with the element's name.
    End(String),
    /// The end of the stream.
    Eof,
    /// Any other event (comment, CDATA section, processing instruction,
    /// document type), with a rendering of it for diagnosis.
    Other(String),
}

/// Plain-value model of an [`XmlEvent`].
pub enum XmlEventView {
    Decl,
    Start(Seq<char>),
    Empty(Seq<char>),
    Text(Seq<char>),
    End(Seq<char>),
    Eof,
    Other(Seq<char>),
}

impl View for XmlEvent {
    type V = XmlEventView;

    open spec fn view(&self) -> XmlEventView {
        match self {
            XmlEvent::Decl => XmlEventView::Decl,
            XmlEvent::Start(name) => XmlEventView::Start(name@),
            XmlEvent::Empty(name) => XmlEventView::Empty(name@),
            XmlEvent::Text(text) => XmlEventView::Text(text@),
            XmlEvent::End(name) => XmlEventView::End(name@),
            XmlEvent::Eof => XmlEventView::Eof,
            XmlEvent::Other(shown) => XmlEventView::Other(shown@),
        }
    }
}

/// What one read of an XML stream yields: an event, or the fault that ends
/// the stream.
pub type XmlRead = Result<XmlEvent, XmlFault>;

/// Plain-value model of an [`XmlRead`].
pub type XmlReadView = Result<XmlEventView, XmlFaultView>;

/// The model of what a read yielded.
pub open spec fn read_view(read: XmlRead) -> XmlReadView {
    match read {
        Ok(event) => Ok(event@),
        Err(fault) => Err(fault@),
    }
}

/// The models of a list of reads, in order.
pub open spec fn reads_view(reads: Seq<XmlRead>) -> Seq<XmlReadView> {
    Seq::new(reads.len(), |i: int| read_view(reads[i]))
}

/// What one read of an XML stream is, before its text is decoded.
#[derive(Debug, Clone, Copy, Eq, PartialEq, Structural)]
pub enum XmlKind {
    /// The XML declaration.
    Decl,
    /// An opening tag.
    Start,
    /// A self-closing tag.
    Empty,
    /// Character data.
    Text,
    /// A closing tag.
    End,
    /// The end of the stream.
    Eof,
    /// A comment, a CDATA section, a processing instruction or a document
    /// type.
    Other,
    /// A fault of the reader.
    Fault,
}

/// Plain-value model of an event as the XML reader yields it. Character
/// data comes with the outcome of resolving its entities, which may fail.
pub enum RawEventView {
    Decl,
    Start(Seq<char>),
    Empty(Seq<char>),
    Text(Result<Seq<char>, XmlFaultView>),
    End(Seq<char>),
    Eof,
    Other(Seq<char>),
}

/// Plain-value model of one read of the XML reader: an event, or the fault
/// of the reader.
pub type RawReadView = Result<RawEventView, XmlFaultView>;

/// The kind of a read.
pub open spec fn kind_of(read: RawReadView) -> XmlKind {
    match read {
        Ok(RawEventView::Decl) => XmlKind::Decl,
        Ok(RawEventView::Start(_)) => XmlKind::Start,
        Ok(RawEventView::Empty(_)) => XmlKind::Empty,
        Ok(RawEventView::Text(_)) => XmlKind::Text,
        Ok(RawEventView::End(_)) => XmlKind::End,
        Ok(RawEventView::Eof) => XmlKind::Eof,
        Ok(RawEventView::Other(_)) => XmlKind::Other,
        Err(_) => XmlKind::Fault,
    }
}

/// What a read of the reader gives the ingestion: character data whose
/// entities cannot be resolved is a fault of the stream.
pub open spec fn decode_spec(read: RawReadView) -> XmlReadView {
    match read {
        Ok(RawEventView::Decl) => Ok(XmlEventView::Decl),
        Ok(RawEventView::Start(name)) => Ok(XmlEventView::Start(name)),
        Ok(RawEventView::Empty(name)) => Ok(XmlEventView::Empty(name)),
        Ok(RawEventView::Text(Ok(text))) => Ok(XmlEventView::Text(text)),
        Ok(RawEventView::Text(Err(fault))) => Err(fault),
        Ok(RawEventView::End(name)) => Ok(XmlEventView::End(name)),
        Ok(RawEventView::Eof) => Ok(XmlEventView::Eof),
        Ok(RawEventView::Other(shown)) => Ok(XmlEventView::Other(shown)),
        Err(fault) => Err(fault),
    }
}

/// What a list of reads of the reader gives the ingestion, in order.
pub open spec fn decoded(reads: Seq<RawReadView>) -> Seq<XmlReadView> {
    Seq::new(reads.len(), |i: int| decode_spec(reads[i]))
}

/// Whether a read ends its stream: the end of input, or a fault of the
/// reader.
pub open spec fn ends_stream(read: RawReadView) -> bool {
    read is Err || read == Ok::<RawEventView, XmlFaultView>(RawEventView::Eof)
}

/// Plain-value model of one entry of a ZIP archive.
pub struct ZipEntryView {
    /// The entry's name.
    pub name: Seq<char>,
    /// Why the entry cannot be opened, if it cannot.
    pub fault: Option<Seq<char>>,
    /// What reading the opened entry as XML yields, up to and including the
    /// read that ends the stream.
    pub reads: Seq<RawReadView>,
}

/// The archive reader of the zip crate, `zip::ZipArchive`; nothing of its
/// inside is known here.
#[verifier::external_type_specification]
#[verifier::external_body]
#[verifier::reject_recursive_types(R)]
pub struct ExZipArchive<R>(zip::ZipArchive<R>);

/// The in-memory reader of the standard library, `std::io::Cursor`; nothing
/// of its inside is known here.
#[verifier::external_type_specification]
#[verifier::external_body]
#[verifier::reject_recursive_types(T)]
pub struct ExCursor<T>(std::io::Cursor<T>);

/// The byte buffer of the bytes crate, `bytes::Bytes`; nothing of its inside
/// is known here.
#[verifier::external_type_specification]
#[verifier::external_body]
pub struct ExBytes(bytes::Bytes);

/// The entries of an opened archive, in the order of its central directory.
pub uninterp spec fn archive_entries(zip: zip::ZipArchive<std::io::Cursor<bytes::Bytes>>) -> Seq<
    ZipEntryView,
>;

/// What opening `bytes` as a ZIP archive gives: its entries, or the reason
/// why it is no readable archive.
pub uninterp spec fn zip_directory(bytes: Seq<u8>) -> Result<Seq<ZipEntryView>, Seq<char>>;

/// An opened archive entry, read as a stream of XML events with surrounding
/// whitespace trimmed from text.
///
/// Holds quick-xml's `Reader` over a buffered `zip::read::ZipFile`, which
/// decompresses the entry as it is read, the buffer each event is read into,
/// and the outcome of the last read.
#[verifier::external_body]
pub struct EntryStream<'a> {
    inner: quick_xml::Reader<
        std::io::BufReader<zip::read::ZipFile<'a, std::io::Cursor<bytes::Bytes>>>,
    >,
    buf: Vec<u8>,
    current: Result<Event<'static>, quick_xml::Error>,
}

/// What the stream has yet to yield: its reads up to and including the one
/// that ends it.
pub uninterp spec fn pending_reads(stream: EntryStream<'_>) -> Seq<RawReadView>;

/// What the stream yielded last.
pub uninterp spec fn current_read(stream: EntryStream<'_>) -> RawReadView;

/// Opens `bytes` as a ZIP archive.
///
/// Wraps `zip::ZipArchive::new` over an in-memory cursor, which reads the
/// central directory of the archive. Its outcome is a function of the bytes,
/// named [`zip_directory`]; a failure is reported by its message.
#[verifier::external_body]
pub(crate) fn open_archive(bytes: Vec<u8>) -> (r: Result<
    zip::ZipArchive<std::io::Cursor<bytes::Bytes>>,
    ZipFault,
>)
    ensures
        match r {
            Ok(zip) => zip_directory(bytes@) == Ok::<Seq<ZipEntryView>, Seq<char>>(
                archive_entries(zip),
            ),
            Err(fault) => zip_directory(bytes@) == Err::<Seq<ZipEntryView>, Seq<char>>(
                fault.detail@,
            ),
        },
{
    match zip::ZipArchive::new(std::io::Cursor::new(bytes::Bytes::from(bytes))) {
        Ok(zip) => Ok(zip),
        Err(e) => Err(ZipFault { detail: e.to_string() }),
    }
}

/// The number of entries of an archive.
///
/// Wraps `zip::ZipArchive::len`, the number of files in the archive's
/// central directory.
#[verifier::external_body]
pub(crate) fn archive_len(zip: &zip::ZipArchive<std::io::Cursor<bytes::Bytes>>) -> (n: usize)
    ensures
        n == archive_entries(*zip).len(),
{
    zip.len()
}

/// Opens the entry at `index` and returns its name with the stream that
/// reads it.
///
/// Wraps `zip::ZipArchive::by_index`, which finds the entry's data and sets
/// up its decompression or fails with the reason, and `ZipFile::name`. The
/// stream is quick-xml's `Reader::from_reader` over the buffered entry, with
/// `trim_text` switched on. Opening an entry leaves the archive's directory
/// as it was.
#[verifier::external_body]
pub(crate) fn open_entry<'a>(
    zip: &'a mut zip::ZipArchive<std::io::Cursor<bytes::Bytes>>,
    index: usize,
) -> (r: Result<(String, EntryStream<'a>), ZipFault>)
    requires
        index < archive_entries(*old(zip)).len(),
    ensures
        archive_entries(*final(zip)) == archive_entries(*old(zip)),
        match r {
            Ok((name, stream)) => {
                &&& archive_entries(*old(zip))[index as int].fault is None
                &&& name@ == archive_entries(*old(zip))[index as int].name
                &&& pending_reads(stream) == archive_entries(*old(zip))[index as int].reads
            },
            Err(fault) => archive_entries(*old(zip))[index as int].fault == Some(fault.detail@),
        },
{
    match zip.by_index(index) {
        Ok(file) => {
            let name = file.name().to_string();
            let mut inner = quick_xml::Reader::from_reader(std::io::BufReader::new(file));
            inner.config_mut().trim_text(true);
            Ok((name, EntryStream { inner, buf: Vec::new(), current: Ok(Event::Eof) }))
        },
        Err(e) => Err(ZipFault { detail: e.to_string() }),
    }
}

/// Opens the entry at `index` of an archive and returns its name with the
/// stream that reads it as XML. An archive has no entry at an index that is
/// not below the number of its entries; an entry that cannot be opened is
/// reported with the reason. The archive's directory is left as it was.
pub fn entry_stream<'a>(
    zip: &'a mut zip::ZipArchive<std::io::Cursor<bytes::Bytes>>,
    index: usize,
) -> (r: Result<(String, EntryStream<'a>), ZipFault>)
    ensures
        archive_entries(*final(zip)) == archive_entries(*old(zip)),
        match r {
            Ok((name, stream)) => {
                &&& index < archive_entries(*old(zip)).len()
                &&& archive_entries(*old(zip))[index as int].fault is None
                &&& name@ == archive_entries(*old(zip))[index as int].name
                &&& pending_reads(stream) == archive_entries(*old(zip))[index as int].reads
            },
            Err(fault) => if index < archive_entries(*old(zip)).len() {
                archive_entries(*old(zip))[index as int].fault == Some(fault.detail@)
            } else {
                fault.detail@ == "the archive has no such entry"@
            },
        },
{
    if index < archive_len(zip) {
        open_entry(zip, index)
    } else {
        Err(ZipFault { detail: "the archive has no such entry".to_owned() })
    }
}

/// Lets the stream yield its next read.
///
/// Wraps quick-xml's `Reader::read_event_into`. The read is the first of
/// those the stream had yet to yield; unless it ends the stream, the rest
/// remain. A stream always has a read to yield, and since every event but
/// the end of input consumes part of a finite entry, it has finitely many.
#[verifier::external_body]
fn advance(stream: &mut EntryStream<'_>)
    ensures
        pending_reads(*old(stream)).len() > 0,
        current_read(*final(stream)) == pending_reads(*old(stream))[0],
        !ends_stream(pending_reads(*old(stream))[0]) ==> pending_reads(*final(stream))
            == pending_reads(*old(stream)).drop_first(),
{
    stream.buf.clear();
    stream.current = match stream.inner.read_event_into(&mut stream.buf) {
        Ok(event) => Ok(event.into_owned()),
        Err(e) => Err(e),
    };
}

/// The kind of the last read.
///
/// Tells the variants of quick-xml's `Event` apart; comments, CDATA
/// sections, processing instructions and document types count as other
/// events.
#[verifier::external_body]
fn current_kind(stream: &EntryStream<'_>) -> (r: XmlKind)
    ensures
        r == kind_of(current_read(*stream)),
{
    match &stream.current {
        Ok(Event::Decl(_)) => XmlKind::Decl,
        Ok(Event::Start(_)) => XmlKind::Start,
        Ok(Event::Empty(_)) => XmlKind::Empty,
        Ok(Event::Text(_)) => XmlKind::Text,
        Ok(Event::End(_)) => XmlKind::End,
        Ok(Event::Eof) => XmlKind::Eof,
        Ok(_) => XmlKind::Other,
        Err(_) => XmlKind::Fault,
    }
}

/// The element name of the last read, if that was a tag.
///
/// Wraps `BytesStart::name` and `BytesEnd::name`, read as UTF-8 with
/// invalid sequences replaced.
#[verifier::external_body]
fn current_name(stream: &EntryStream<'_>) -> (r: String)
    ensures
        match current_read(*stream) {
            Ok(RawEventView::Start(name)) => r@ == name,
            Ok(RawEventView::Empty(name)) => r@ == name,
            Ok(RawEventView::End(name)) => r@ == name,
            _ => true,
        },
{
    match &stream.current {
        Ok(Event::Start(e)) | Ok(Event::Empty(e)) => {
            String::from_utf8_lossy(e.name().as_ref()).into_owned()
        },
        Ok(Event::End(e)) => String::from_utf8_lossy(e.name().as_ref()).into_owned(),
        _ => String::new(),
    }
}

/// The character data of the last read, if that was character data: its
/// text with the entities resolved, or the fault of resolving them.
///
/// Wraps `BytesText::unescape`; a fault is reported by its message and the
/// reader's position.
#[verifier::external_body]
fn current_text(stream: &EntryStream<'_>) -> (r: Result<String, XmlFault>)
    ensures
        match current_read(*stream) {
            Ok(RawEventView::Text(Ok(text))) => r matches Ok(t) && t@ == text,
            Ok(RawEventView::Text(Err(fault))) => r matches Err(f) && f@ == fault,
            _ => true,
        },
{
    match &stream.current {
        Ok(Event::Text(e)) => match e.unescape() {
            Ok(text) => Ok(text.into_owned()),
            Err(x) => Err(
                XmlFault { detail: x.to_string(), position: stream.inner.buffer_position() },
            ),
        },
        _ => Ok(String::new()),
    }
}

/// A rendering of the last read for diagnosis, if that was another event.
///
/// Wraps the debug formatting of what `read_event_into` returned: the event
/// is shown through `Event::borrow`, as borrowing from the read buffer, which
/// is how the reader handed it out.
#[verifier::external_body]
fn current_shown(stream: &EntryStream<'_>) -> (r: String)
    ensures
        current_read(*stream) matches Ok(RawEventView::Other(shown)) ==> r@ == shown,
{
    match &stream.current {
        Ok(event) => format!("{:?}", Ok::<Event, quick_xml::Error>(event.borrow())),
        Err(_) => String::new(),
    }
}

/// The fault of the last read, if the reader failed.
///
/// Reports a `quick_xml::Error` by its message and by
/// `Reader::error_position`.
#[verifier::external_body]
fn current_fault(stream: &EntryStream<'_>) -> (r: XmlFault)
    ensures
        current_read(*stream) matches Err(fault) ==> r@ == fault,
{
    match &stream.current {
        Err(e) => XmlFault { detail: e.to_string(), position: stream.inner.error_position() },
        Ok(_) => XmlFault { detail: String::new(), position: 0 },
    }
}

/// Reads the next event of the stream and decodes it, as [`decode_spec`]
/// says of the first of the reads the stream had yet to yield. Unless that
/// read ends the stream, the rest remain.
pub fn next_read(stream: &mut EntryStream<'_>) -> (r: XmlRead)
    ensures
        pending_reads(*old(stream)).len() > 0,
        read_view(r) == decode_spec(pending_reads(*old(stream))[0]),
        !ends_stream(pending_reads(*old(stream))[0]) ==> pending_reads(*final(stream))
            == pending_reads(*old(stream)).drop_first(),
{
    advance(stream);
    match current_kind(stream) {
        XmlKind::Decl => Ok(XmlEvent::Decl),
        XmlKind::Start => Ok(XmlEvent::Start(current_name(stream))),
        XmlKind::Empty => Ok(XmlEvent::Empty(current_name(stream))),
        XmlKind::Text => match current_text(stream) {
            Ok(text) => Ok(XmlEvent::Text(text)),
            Err(fault) => Err(fault),
        },
        XmlKind::End => Ok(XmlEvent::End(current_name(stream))),
        XmlKind::Eof => Ok(XmlEvent::Eof),
        XmlKind::Other => Ok(XmlEvent::Other(current_shown(stream))),
        XmlKind::Fault => Err(current_fault(stream)),
    }
}

} // verus!
