//! The ingestion of the registry's bulk dump: from the reads of an XML
//! stream, one at a time, to validated records, or to the error that aborts
//! the whole batch.
//!
//! The ingestion holds one record's worth of texts at a time beside the
//! records it has built; it never holds the document.

use crate::endpoints::archive::{
    archive_entries, archive_len, decoded, next_read, open_archive, open_entry, pending_reads,
    read_view, reads_view, zip_directory, EntryStream, XmlEvent, XmlEventView, XmlRead, XmlReadView,
    ZipEntryView,
};
use crate::endpoints::corp_code_meta::{
    complete_slots, empty_slots, fill_slot, is_field, is_record_field, CorpCodeMeta,
    CorpCodeMetaOptional, CorpCodeMetaView, SlotsView,
};
use crate::error::{
    texts_of, MyValidationError, OpenDartError, OpenDartErrorView, UnexpectedZipContentError,
};
use crate::text::{ends_with, is_suffix, same_text};
use vstd::prelude::*;
use vstd::string::*;

verus! {

broadcast use vstd::string::group_string_axioms;

/// A record that is built from the four texts of one `<list>` block.
pub trait RegistryRecord: Sized {
    /// Plain-value model of the record.
    type Model;

    /// The model of this record.
    spec fn model(&self) -> Self::Model;

    /// The record that the raw texts `meta` give, or the error that rejects
    /// them.
    spec fn of_meta(meta: CorpCodeMetaView) -> Result<Self::Model, OpenDartErrorView>;

    /// Builds the record from raw texts, as [`Self::of_meta`] says.
    fn try_from_meta(meta: CorpCodeMeta) -> (r: Result<Self, OpenDartError>)
        ensures
            match r {
                Ok(record) => Self::of_meta(meta@) == Ok::<Self::Model, OpenDartErrorView>(
                    record.model(),
                ),
                Err(e) => Self::of_meta(meta@) == Err::<Self::Model, OpenDartErrorView>(e@),
            },
    ;
}

/// The models of a list of records, in order.
pub open spec fn records_view<R: RegistryRecord>(records: Seq<R>) -> Seq<R::Model> {
    Seq::new(records.len(), |i: int| records[i].model())
}

/// The model of the outcome of an ingestion.
pub open spec fn records_result_view<R: RegistryRecord>(r: Result<Vec<R>, OpenDartError>) -> Result<
    Seq<R::Model>,
    OpenDartErrorView,
> {
    match r {
        Ok(records) => Ok(records_view(records@)),
        Err(e) => Err(e@),
    }
}

/// Where the ingestion stands between two reads of the stream.
pub struct IngestView<M> {
    /// Whether the root element has been opened.
    pub rooted: bool,
    /// The name of the element opened last; empty before the first.
    pub field: Seq<char>,
    /// The slots of the `<list>` block being read.
    pub slots: SlotsView,
    /// The records of the blocks that were closed, in order.
    pub records: Seq<M>,
}

/// What one read does to the ingestion.
pub enum StepView<M> {
    /// The ingestion goes on from this state.
    Continue(IngestView<M>),
    /// The stream has ended and these are its records.
    Finished(Seq<M>),
    /// The ingestion is aborted with this error.
    Failed(OpenDartErrorView),
}

/// The state before the first read.
pub open spec fn initial_state<M>() -> IngestView<M> {
    IngestView { rooted: false, field: Seq::empty(), slots: empty_slots(), records: Seq::empty() }
}

/// The error that rejects `value` with the constraint `message`.
pub open spec fn invalid(value: Seq<char>, message: Seq<char>) -> OpenDartErrorView {
    OpenDartErrorView::MyValidation { value, message }
}

/// The error that reports an element that a `<list>` block does not have,
/// or text outside the elements of a `<list>` block.
pub open spec fn unexpected_field(name: Seq<char>) -> OpenDartErrorView {
    invalid(name, "Unexpected field while parsing xml."@)
}

/// The error that reports an event the dump should not hold.
pub open spec fn unexpected_event(shown: Seq<char>) -> OpenDartErrorView {
    invalid(shown, "Unexpected event while parsing xml."@)
}

/// What closing a `<list>` block does: its slots are completed to raw texts
/// and the record is built from them, the record joins the records and the
/// slots are emptied; a block that does not give a record aborts the
/// ingestion.
pub open spec fn close_record<R: RegistryRecord>(state: IngestView<R::Model>) -> StepView<
    R::Model,
> {
    match complete_slots(state.slots) {
        Err(e) => StepView::Failed(e),
        Ok(meta) => match R::of_meta(meta) {
            Err(e) => StepView::Failed(e),
            Ok(record) => StepView::Continue(
                IngestView { slots: empty_slots(), records: state.records.push(record), ..state },
            ),
        },
    }
}

/// Whether the element `name` may be opened: it is the root of the
/// document, or `list`, or an element of a `<list>` block.
pub open spec fn may_open(rooted: bool, name: Seq<char>) -> bool {
    !rooted || name == "list"@ || is_record_field(name)
}

/// What the read `read` does to the ingestion in the state `state`.
///
/// - The declaration is passed over.
/// - An opening tag makes its element the current one. The element must be
///   the root of the document, which is the first element to be opened and
///   may have any name, or `list`, or an element of a `<list>` block; any
///   other element aborts the ingestion.
/// - Text goes into the slot of the current element; if that is no element of
///   a `<list>` block, the ingestion is aborted.
/// - A self-closing tag puts the empty text into the slot of its element; if
///   that is no element of a `<list>` block, the ingestion is aborted.
/// - The closing tag of `list` closes the record; any other closing tag is
///   passed over. No closing tag changes the current element.
/// - The end of the stream finishes the ingestion with the records so far.
/// - Any other event, and a fault of the stream, aborts the ingestion.
pub open spec fn step_spec<R: RegistryRecord>(
    state: IngestView<R::Model>,
    read: XmlReadView,
) -> StepView<R::Model> {
    match read {
        Err(fault) => StepView::Failed(OpenDartErrorView::QuickXml(fault)),
        Ok(XmlEventView::Decl) => StepView::Continue(state),
        Ok(XmlEventView::Start(name)) => if may_open(state.rooted, name) {
            StepView::Continue(IngestView { rooted: true, field: name, ..state })
        } else {
            StepView::Failed(unexpected_field(name))
        },
        Ok(XmlEventView::Empty(name)) => if is_record_field(name) {
            StepView::Continue(
                IngestView { slots: fill_slot(state.slots, name, Seq::empty()), ..state },
            )
        } else {
            StepView::Failed(unexpected_field(name))
        },
        Ok(XmlEventView::Text(text)) => if is_record_field(state.field) {
            StepView::Continue(
                IngestView { slots: fill_slot(state.slots, state.field, text), ..state },
            )
        } else {
            StepView::Failed(unexpected_field(state.field))
        },
        Ok(XmlEventView::End(name)) => if name == "list"@ {
            close_record::<R>(state)
        } else {
            StepView::Continue(state)
        },
        Ok(XmlEventView::Eof) => StepView::Finished(state.records),
        Ok(XmlEventView::Other(shown)) => StepView::Failed(unexpected_event(shown)),
    }
}

/// The outcome of the ingestion that starts in `state` and is fed `reads` in
/// order: the first read that finishes or aborts it decides, and reads
/// after it are not looked at. Reads that run out end the stream.
pub open spec fn run_spec<R: RegistryRecord>(
    state: IngestView<R::Model>,
    reads: Seq<XmlReadView>,
) -> Result<Seq<R::Model>, OpenDartErrorView>
    decreases reads.len(),
{
    if reads.len() == 0 {
        Ok(state.records)
    } else {
        match step_spec::<R>(state, reads[0]) {
            StepView::Continue(next) => run_spec::<R>(next, reads.drop_first()),
            StepView::Finished(records) => Ok(records),
            StepView::Failed(e) => Err(e),
        }
    }
}

/// The records that a stream of reads denotes, or the error that aborts its
/// ingestion.
pub open spec fn ingest_spec<R: RegistryRecord>(reads: Seq<XmlReadView>) -> Result<
    Seq<R::Model>,
    OpenDartErrorView,
> {
    run_spec::<R>(initial_state(), reads)
}

/// The state of an ingestion between two reads of the stream.
pub struct Ingest<R> {
    rooted: bool,
    current_field: String,
    current_item: CorpCodeMetaOptional,
    items: Vec<R>,
}

/// What one read did to an ingestion.
pub enum Step<R> {
    /// The ingestion goes on from this state.
    Continue(Ingest<R>),
    /// The stream has ended and these are its records.
    Finished(Vec<R>),
    /// The ingestion is aborted with this error.
    Failed(OpenDartError),
}

impl<R: RegistryRecord> Step<R> {
    /// The model of what the read did.
    pub open spec fn model(&self) -> StepView<R::Model> {
        match self {
            Step::Continue(state) => StepView::Continue(state.model()),
            Step::Finished(records) => StepView::Finished(records_view(records@)),
            Step::Failed(e) => StepView::Failed(e@),
        }
    }
}

impl<R: RegistryRecord> Ingest<R> {
    /// The model of this state.
    pub closed spec fn model(&self) -> IngestView<R::Model> {
        IngestView {
            rooted: self.rooted,
            field: self.current_field@,
            slots: self.current_item@,
            records: records_view(self.items@),
        }
    }

    /// The state before the first read.
    pub fn new() -> (r: Self)
        ensures
            r.model() == initial_state::<R::Model>(),
    {
        let r = Ingest {
            rooted: false,
            current_field: String::new(),
            current_item: CorpCodeMetaOptional::new(),
            items: Vec::new(),
        };
        assert(r.model().records =~= Seq::empty());
        r
    }

    /// Feeds one read of the stream to the ingestion, as [`step_spec`] says.
    pub fn step(self, read: XmlRead) -> (r: Step<R>)
        ensures
            r.model() == step_spec::<R>(self.model(), read_view(read)),
    {
        let Ingest { rooted, current_field, mut current_item, mut items } = self;
        match read {
            Err(fault) => Step::Failed(OpenDartError::QuickXml(fault)),
            Ok(XmlEvent::Decl) => Step::Continue(
                Ingest { rooted, current_field, current_item, items },
            ),
            Ok(XmlEvent::Start(name)) => {
                if !rooted || same_text(name.as_str(), "list") || is_field(name.as_str()) {
                    Step::Continue(
                        Ingest { rooted: true, current_field: name, current_item, items },
                    )
                } else {
                    Step::Failed(Self::unexpected(name.as_str()))
                }
            },
            Ok(XmlEvent::Empty(name)) => {
                if current_item.fill(name.as_str(), String::new()) {
                    Step::Continue(Ingest { rooted, current_field, current_item, items })
                } else {
                    Step::Failed(Self::unexpected(name.as_str()))
                }
            },
            Ok(XmlEvent::Text(text)) => {
                if current_item.fill(current_field.as_str(), text) {
                    Step::Continue(Ingest { rooted, current_field, current_item, items })
                } else {
                    Step::Failed(Self::unexpected(current_field.as_str()))
                }
            },
            Ok(XmlEvent::End(name)) => {
                if same_text(name.as_str(), "list") {
                    let meta = match CorpCodeMeta::try_from(current_item) {
                        Ok(meta) => meta,
                        Err(e) => {
                            return Step::Failed(e);
                        },
                    };
                    let record = match R::try_from_meta(meta) {
                        Ok(record) => record,
                        Err(e) => {
                            return Step::Failed(e);
                        },
                    };
                    let ghost before = items@;
                    items.push(record);
                    assert(records_view(items@) =~= records_view(before).push(record.model()));
                    Step::Continue(
                        Ingest {
                            rooted,
                            current_field,
                            current_item: CorpCodeMetaOptional::new(),
                            items,
                        },
                    )
                } else {
                    Step::Continue(Ingest { rooted, current_field, current_item, items })
                }
            },
            Ok(XmlEvent::Eof) => Step::Finished(items),
            Ok(XmlEvent::Other(shown)) => Step::Failed(
                OpenDartError::MyValidation(
                    MyValidationError::new(shown.as_str(), "Unexpected event while parsing xml."),
                ),
            ),
        }
    }

    /// The error that reports the element `name` as out of place.
    fn unexpected(name: &str) -> (e: OpenDartError)
        ensures
            e@ == unexpected_field(name@),
    {
        OpenDartError::MyValidation(
            MyValidationError::new(name, "Unexpected field while parsing xml."),
        )
    }

    /// Ends the ingestion where it stands and gives the records so far.
    pub fn finish(self) -> (r: Vec<R>)
        ensures
            records_view(r@) == self.model().records,
    {
        self.items
    }
}

/// The fault of the first of the entries before `upto` that cannot be
/// opened, if there is one.
pub open spec fn first_fault(entries: Seq<ZipEntryView>, upto: int) -> Option<Seq<char>>
    decreases upto,
{
    if upto <= 0 {
        None
    } else {
        match first_fault(entries, upto - 1) {
            Some(fault) => Some(fault),
            None => entries[upto - 1].fault,
        }
    }
}

/// The names of the entries, in order.
pub open spec fn entry_names(entries: Seq<ZipEntryView>) -> Seq<Seq<char>> {
    Seq::new(entries.len(), |i: int| entries[i].name)
}

/// The records that an archive with these entries denotes, or the error
/// that rejects it.
///
/// - An entry that cannot be opened rejects the archive with its fault.
/// - The archive must hold exactly one entry, and its name must end in
///   `.xml`; otherwise it is rejected with the names of all its entries.
/// - The records are then those of the entry's XML stream.
pub open spec fn from_entries_spec<R: RegistryRecord>(entries: Seq<ZipEntryView>) -> Result<
    Seq<R::Model>,
    OpenDartErrorView,
> {
    match first_fault(entries, entries.len() as int) {
        Some(fault) => Err(OpenDartErrorView::Zip(fault)),
        None => if entries.len() != 1 || !is_suffix(".xml"@, entries[0].name) {
            Err(OpenDartErrorView::UnexpectedZipContent(entry_names(entries)))
        } else {
            ingest_spec::<R>(decoded(entries[0].reads))
        },
    }
}

/// The records that the bytes of an archive denote, or the error that
/// rejects them: bytes that are no readable archive are rejected with the
/// reason, and an archive is judged by its entries.
pub open spec fn from_bytes_spec<R: RegistryRecord>(
    directory: Result<Seq<ZipEntryView>, Seq<char>>,
) -> Result<Seq<R::Model>, OpenDartErrorView> {
    match directory {
        Ok(entries) => from_entries_spec::<R>(entries),
        Err(fault) => Err(OpenDartErrorView::Zip(fault)),
    }
}

/// Once an entry before `upto` cannot be opened, the first such entry stays
/// the same however many more entries are looked at.
proof fn lemma_first_fault_stays(entries: Seq<ZipEntryView>, upto: int, more: int)
    requires
        first_fault(entries, upto) is Some,
        upto <= more,
    ensures
        first_fault(entries, more) == first_fault(entries, upto),
    decreases more - upto,
{
    if upto < more {
        lemma_first_fault_stays(entries, upto, more - 1);
    }
}

/// Reads the records of a registry archive, as [`from_entries_spec`] says
/// of the archive's entries. The archive's directory is left as it was.
pub fn records_from_zip<R: RegistryRecord>(
    zip: &mut zip::ZipArchive<std::io::Cursor<bytes::Bytes>>,
) -> (r: Result<Vec<R>, OpenDartError>)
    ensures
        records_result_view(r) == from_entries_spec::<R>(archive_entries(*old(zip))),
        archive_entries(*final(zip)) == archive_entries(*old(zip)),
{
    let ghost entries = archive_entries(*zip);
    let n = archive_len(zip);
    if n != 1 {
        let mut files: Vec<String> = Vec::new();
        let mut i: usize = 0;
        while i < n
            invariant
                entries == archive_entries(*old(zip)),
                archive_entries(*zip) == entries,
                n == entries.len(),
                0 <= i <= n,
                first_fault(entries, i as int) is None,
                files@.len() == i,
                forall|j: int| 0 <= j < i ==> (#[trigger] files@[j])@ == entries[j].name,
            decreases n - i,
        {
            match open_entry(zip, i) {
                Ok((name, _stream)) => {
                    files.push(name);
                },
                Err(fault) => {
                    proof {
                        lemma_first_fault_stays(entries, i + 1, n as int);
                    }
                    return Err(OpenDartError::Zip(fault));
                },
            }
            i = i + 1;
        }
        assert(texts_of(files@) =~= entry_names(entries));
        return Err(OpenDartError::UnexpectedZipContent(UnexpectedZipContentError { files }));
    }
    assert(first_fault(entries, 1) == entries[0].fault) by {
        assert(first_fault(entries, 0) is None);
    }
    match open_entry(zip, 0) {
        Err(fault) => Err(OpenDartError::Zip(fault)),
        Ok((name, mut stream)) => {
            if !ends_with(name.as_str(), ".xml") {
                let mut files: Vec<String> = Vec::new();
                files.push(name);
                assert(texts_of(files@) =~= entry_names(entries));
                return Err(
                    OpenDartError::UnexpectedZipContent(UnexpectedZipContentError { files }),
                );
            }
            records_from_reader(&mut stream)
        },
    }
}

/// Reads the records of a registry archive from its bytes, as
/// [`from_bytes_spec`] says of what opening the bytes as an archive gives.
pub fn records_from_bytes<R: RegistryRecord>(bytes: Vec<u8>) -> (r: Result<Vec<R>, OpenDartError>)
    ensures
        records_result_view(r) == from_bytes_spec::<R>(zip_directory(bytes@)),
{
    match open_archive(bytes) {
        Ok(mut zip) => records_from_zip(&mut zip),
        Err(fault) => Err(OpenDartError::Zip(fault)),
    }
}

/// Reads the records of an opened archive entry: feeds the stream's reads
/// to the ingestion until one finishes or aborts it. The outcome is what
/// [`ingest_spec`] says of the reads the stream had yet to yield.
pub fn records_from_reader<R: RegistryRecord>(stream: &mut EntryStream<'_>) -> (r: Result<
    Vec<R>,
    OpenDartError,
>)
    ensures
        records_result_view(r) == ingest_spec::<R>(decoded(pending_reads(*old(stream)))),
{
    let ghost all = decoded(pending_reads(*stream));
    let mut state: Ingest<R> = Ingest::new();
    loop
        invariant
            all == decoded(pending_reads(*old(stream))),
            run_spec::<R>(state.model(), decoded(pending_reads(*stream))) == ingest_spec::<R>(all),
        decreases pending_reads(*stream).len(),
    {
        let ghost before = pending_reads(*stream);
        let read = next_read(stream);
        proof {
            assert(decoded(before)[0] == read_view(read));
            assert(decoded(before).drop_first() =~= decoded(before.drop_first()));
        }
        match state.step(read) {
            Step::Continue(next) => {
                state = next;
            },
            Step::Finished(records) => {
                return Ok(records);
            },
            Step::Failed(e) => {
                return Err(e);
            },
        }
    }
}

/// Builds the records from reads that were taken from a stream before, as
/// [`ingest_spec`] says of them.
pub fn records_from_reads<R: RegistryRecord>(reads: Vec<XmlRead>) -> (r: Result<
    Vec<R>,
    OpenDartError,
>)
    ensures
        records_result_view(r) == ingest_spec::<R>(reads_view(reads@)),
{
    let ghost all = reads_view(reads@);
    let mut state: Ingest<R> = Ingest::new();
    assert(all.skip(0) =~= all);
    for read in it: reads.into_iter()
        invariant
            it.seq() == reads@,
            all == reads_view(reads@),
            run_spec::<R>(state.model(), all.skip(it.index() as int)) == ingest_spec::<R>(all),
    {
        proof {
            let rest = all.skip(it.index() as int);
            assert(rest[0] == read_view(read));
            assert(rest.drop_first() =~= all.skip(it.index() + 1));
        }
        match state.step(read) {
            Step::Continue(next) => {
                state = next;
            },
            Step::Finished(records) => {
                return Ok(records);
            },
            Step::Failed(e) => {
                return Err(e);
            },
        }
    }
    Ok(state.finish())
}

/// Records are only ever appended: whatever an ingestion gives starts with
/// the records it had built before, in their order.
pub proof fn lemma_records_are_appended<R: RegistryRecord>(
    state: IngestView<R::Model>,
    reads: Seq<XmlReadView>,
)
    ensures
        run_spec::<R>(state, reads) matches Ok(records) ==> state.records.is_prefix_of(records),
    decreases reads.len(),
{
    if reads.len() > 0 {
        match step_spec::<R>(state, reads[0]) {
            StepView::Continue(next) => {
                lemma_records_are_appended::<R>(next, reads.drop_first());
                assert(state.records.is_prefix_of(next.records));
            },
            StepView::Finished(records) => {},
            StepView::Failed(e) => {},
        }
    }
}

/// An ingestion that was aborted stays aborted: no read that follows the
/// reads that aborted it changes the error, and no records are given.
pub proof fn lemma_failure_is_final<R: RegistryRecord>(
    state: IngestView<R::Model>,
    reads: Seq<XmlReadView>,
    more: Seq<XmlReadView>,
)
    requires
        run_spec::<R>(state, reads) is Err,
    ensures
        run_spec::<R>(state, reads + more) == run_spec::<R>(state, reads),
    decreases reads.len(),
{
    if reads.len() > 0 {
        assert((reads + more)[0] == reads[0]);
        assert((reads + more).drop_first() =~= reads.drop_first() + more);
        match step_spec::<R>(state, reads[0]) {
            StepView::Continue(next) => {
                lemma_failure_is_final::<R>(next, reads.drop_first(), more);
            },
            StepView::Finished(records) => {},
            StepView::Failed(e) => {},
        }
    }
}

/// The end of the stream ends the ingestion: reads after it change nothing.
pub proof fn lemma_end_is_final<R: RegistryRecord>(
    state: IngestView<R::Model>,
    reads: Seq<XmlReadView>,
    more: Seq<XmlReadView>,
)
    requires
        reads.len() > 0,
        reads.last() == Ok::<XmlEventView, crate::error::XmlFaultView>(XmlEventView::Eof),
    ensures
        run_spec::<R>(state, reads + more) == run_spec::<R>(state, reads),
    decreases reads.len(),
{
    assert((reads + more)[0] == reads[0]);
    assert((reads + more).drop_first() =~= reads.drop_first() + more);
    match step_spec::<R>(state, reads[0]) {
        StepView::Continue(next) => {
            if reads.len() > 1 {
                assert(reads.drop_first().last() == reads.last());
                lemma_end_is_final::<R>(next, reads.drop_first(), more);
            }
        },
        StepView::Finished(records) => {},
        StepView::Failed(e) => {},
    }
}

/// A self-closing tag of an element of a `<list>` block does to the slots
/// what empty text for that element does.
pub proof fn lemma_empty_tag_is_empty_text<R: RegistryRecord>(
    state: IngestView<R::Model>,
    name: Seq<char>,
)
    requires
        is_record_field(name),
    ensures
        step_spec::<R>(state, Ok(XmlEventView::Empty(name))) == StepView::Continue(
            IngestView { slots: fill_slot(state.slots, name, Seq::empty()), ..state },
        ),
        step_spec::<R>(IngestView { field: name, ..state }, Ok(XmlEventView::Text(Seq::empty())))
            == StepView::Continue(
            IngestView { field: name, slots: fill_slot(state.slots, name, Seq::empty()), ..state },
        ),
{
}

/// A `<list>` block that lacks a required element aborts the ingestion when
/// it is closed, whatever the state and whatever follows.
pub proof fn lemma_incomplete_record_aborts<R: RegistryRecord>(
    state: IngestView<R::Model>,
    more: Seq<XmlReadView>,
)
    requires
        state.slots.corp_code is None || state.slots.corp_name is None
            || state.slots.modify_date is None,
    ensures
        complete_slots(state.slots) is Err,
        run_spec::<R>(state, seq![Ok(XmlEventView::End("list"@))] + more) == Err::<
            Seq<R::Model>,
            OpenDartErrorView,
        >(complete_slots(state.slots)->Err_0),
{
    let reads = seq![Ok::<XmlEventView, crate::error::XmlFaultView>(XmlEventView::End("list"@))]
        + more;
    assert(reads[0] == Ok::<XmlEventView, crate::error::XmlFaultView>(XmlEventView::End("list"@)));
}

/// An archive that does not hold exactly one entry is rejected with the
/// names of all its entries, in order, provided each entry can be opened.
pub proof fn lemma_wrong_entry_count<R: RegistryRecord>(entries: Seq<ZipEntryView>)
    requires
        entries.len() != 1,
        forall|i: int| 0 <= i < entries.len() ==> (#[trigger] entries[i]).fault is None,
    ensures
        from_entries_spec::<R>(entries) == Err::<Seq<R::Model>, OpenDartErrorView>(
            OpenDartErrorView::UnexpectedZipContent(entry_names(entries)),
        ),
{
    lemma_no_fault(entries, entries.len() as int);
}

/// Entries that can all be opened have no first fault.
proof fn lemma_no_fault(entries: Seq<ZipEntryView>, upto: int)
    requires
        upto <= entries.len(),
        forall|i: int| 0 <= i < entries.len() ==> (#[trigger] entries[i]).fault is None,
    ensures
        first_fault(entries, upto) is None,
    decreases upto,
{
    if upto > 0 {
        lemma_no_fault(entries, upto - 1);
    }
}

/// The state that feeding `reads` to the ingestion in the state `state`
/// leads to, if none of them finishes or aborts it.
pub open spec fn after_spec<R: RegistryRecord>(
    state: IngestView<R::Model>,
    reads: Seq<XmlReadView>,
) -> Option<IngestView<R::Model>>
    decreases reads.len(),
{
    if reads.len() == 0 {
        Some(state)
    } else {
        match step_spec::<R>(state, reads[0]) {
            StepView::Continue(next) => after_spec::<R>(next, reads.drop_first()),
            _ => None,
        }
    }
}

/// The ingestion goes on after reads that neither finish nor abort it as
/// if it had started in the state they lead to.
pub proof fn lemma_run_goes_on<R: RegistryRecord>(
    state: IngestView<R::Model>,
    reads: Seq<XmlReadView>,
    rest: Seq<XmlReadView>,
)
    requires
        after_spec::<R>(state, reads) is Some,
    ensures
        run_spec::<R>(state, reads + rest) == run_spec::<R>(
            after_spec::<R>(state, reads)->0,
            rest,
        ),
    decreases reads.len(),
{
    if reads.len() == 0 {
        assert(reads + rest =~= rest);
    } else {
        assert((reads + rest)[0] == reads[0]);
        assert((reads + rest).drop_first() =~= reads.drop_first() + rest);
        match step_spec::<R>(state, reads[0]) {
            StepView::Continue(next) => {
                lemma_run_goes_on::<R>(next, reads.drop_first(), rest);
            },
            _ => {},
        }
    }
}

/// The reads of an element that holds `text`.
pub open spec fn element_reads(name: Seq<char>, text: Seq<char>) -> Seq<XmlReadView> {
    seq![
        Ok(XmlEventView::Start(name)),
        Ok(XmlEventView::Text(text)),
        Ok(XmlEventView::End(name)),
    ]
}

/// The reads of the four elements of a `<list>` block that holds the texts
/// `meta`, without the tags of the block itself.
pub open spec fn field_reads(meta: CorpCodeMetaView) -> Seq<XmlReadView> {
    element_reads("corp_code"@, meta.corp_code) + element_reads("corp_name"@, meta.corp_name)
        + element_reads("stock_code"@, meta.stock_code) + element_reads(
        "modify_date"@,
        meta.modify_date,
    )
}

/// An element of a `<list>` block puts its text into its slot and is the
/// current element afterwards.
proof fn lemma_element_fills_its_slot<R: RegistryRecord>(
    state: IngestView<R::Model>,
    name: Seq<char>,
    text: Seq<char>,
)
    requires
        is_record_field(name),
    ensures
        after_spec::<R>(state, element_reads(name, text)) == Some(
            IngestView {
                rooted: true,
                field: name,
                slots: fill_slot(state.slots, name, text),
                ..state
            },
        ),
{
    reveal_strlit("list");
    reveal_strlit("corp_code");
    reveal_strlit("corp_name");
    reveal_strlit("stock_code");
    reveal_strlit("modify_date");
    assert(name.len() != "list"@.len());
    reveal_with_fuel(after_spec, 4);
    let reads = element_reads(name, text);
    assert(reads.drop_first().drop_first().drop_first() =~= Seq::<XmlReadView>::empty());
}

/// The four elements of a block fill the four slots with their texts.
proof fn lemma_fields_fill_the_slots<R: RegistryRecord>(
    state: IngestView<R::Model>,
    meta: CorpCodeMetaView,
)
    requires
        state.slots == empty_slots(),
    ensures
        after_spec::<R>(state, field_reads(meta)) == Some(
            IngestView {
                rooted: true,
                field: "modify_date"@,
                slots: SlotsView {
                    corp_code: Some(meta.corp_code),
                    corp_name: Some(meta.corp_name),
                    stock_code: Some(meta.stock_code),
                    modify_date: Some(meta.modify_date),
                },
                records: state.records,
            },
        ),
{
    reveal_strlit("corp_code");
    reveal_strlit("corp_name");
    reveal_strlit("stock_code");
    reveal_strlit("modify_date");
    assert("corp_code"@[5] != "corp_name"@[5]);
    assert("corp_code"@.len() != "stock_code"@.len());
    assert("corp_code"@.len() != "modify_date"@.len());
    assert("stock_code"@.len() != "modify_date"@.len());
    let a = element_reads("corp_code"@, meta.corp_code);
    let b = element_reads("corp_name"@, meta.corp_name);
    let c = element_reads("stock_code"@, meta.stock_code);
    let d = element_reads("modify_date"@, meta.modify_date);
    lemma_element_fills_its_slot::<R>(state, "corp_code"@, meta.corp_code);
    let s1 = after_spec::<R>(state, a)->0;
    lemma_element_fills_its_slot::<R>(s1, "corp_name"@, meta.corp_name);
    let s2 = after_spec::<R>(s1, b)->0;
    lemma_element_fills_its_slot::<R>(s2, "stock_code"@, meta.stock_code);
    let s3 = after_spec::<R>(s2, c)->0;
    lemma_element_fills_its_slot::<R>(s3, "modify_date"@, meta.modify_date);
    lemma_after_of_both::<R>(state, a, b);
    lemma_after_of_both::<R>(state, a + b, c);
    lemma_after_of_both::<R>(state, a + b + c, d);
}

/// Feeding two lists of reads one after the other leads where feeding them
/// as one list leads.
proof fn lemma_after_of_both<R: RegistryRecord>(
    state: IngestView<R::Model>,
    first: Seq<XmlReadView>,
    second: Seq<XmlReadView>,
)
    requires
        after_spec::<R>(state, first) is Some,
    ensures
        after_spec::<R>(state, first + second) == after_spec::<R>(
            after_spec::<R>(state, first)->0,
            second,
        ),
    decreases first.len(),
{
    if first.len() == 0 {
        assert(first + second =~= second);
    } else {
        assert((first + second)[0] == first[0]);
        assert((first + second).drop_first() =~= first.drop_first() + second);
        match step_spec::<R>(state, first[0]) {
            StepView::Continue(next) => {
                lemma_after_of_both::<R>(next, first.drop_first(), second);
            },
            _ => {},
        }
    }
}

/// A well-formed `<list>` block gives exactly its record: after the block
/// is closed, the ingestion goes on with the record of the block's texts
/// appended to the records it had, or it is aborted with the error that
/// rejects those texts.
pub proof fn lemma_block_gives_its_record<R: RegistryRecord>(
    state: IngestView<R::Model>,
    meta: CorpCodeMetaView,
    rest: Seq<XmlReadView>,
)
    requires
        state.slots == empty_slots(),
    ensures
        run_spec::<R>(
            state,
            seq![Ok(XmlEventView::Start("list"@))] + field_reads(meta) + seq![
                Ok(XmlEventView::End("list"@)),
            ] + rest,
        ) == match R::of_meta(meta) {
            Ok(record) => run_spec::<R>(
                IngestView {
                    rooted: true,
                    field: "modify_date"@,
                    slots: empty_slots(),
                    records: state.records.push(record),
                },
                rest,
            ),
            Err(e) => Err(e),
        },
{
    let open = seq![Ok::<XmlEventView, crate::error::XmlFaultView>(XmlEventView::Start("list"@))];
    let close = seq![Ok::<XmlEventView, crate::error::XmlFaultView>(XmlEventView::End("list"@))];
    let opened = IngestView { rooted: true, field: "list"@, ..state };
    reveal_with_fuel(after_spec, 2);
    assert(open.drop_first() =~= Seq::<XmlReadView>::empty());
    assert(after_spec::<R>(state, open) == Some(opened));
    lemma_fields_fill_the_slots::<R>(opened, meta);
    lemma_after_of_both::<R>(state, open, field_reads(meta));
    let filled = after_spec::<R>(state, open + field_reads(meta))->0;
    lemma_run_goes_on::<R>(state, open + field_reads(meta), close + rest);
    assert(open + field_reads(meta) + close + rest =~= (open + field_reads(meta)) + (close + rest));
    assert((close + rest)[0] == close[0]);
    assert((close + rest).drop_first() =~= rest);
}

/// The reads of one well-formed `<list>` block that holds the texts `meta`.
pub open spec fn block_reads(meta: CorpCodeMetaView) -> Seq<XmlReadView> {
    seq![Ok(XmlEventView::Start("list"@))] + field_reads(meta) + seq![
        Ok(XmlEventView::End("list"@)),
    ]
}

/// The reads of well-formed `<list>` blocks that hold the texts `metas`,
/// one block after the other.
pub open spec fn blocks_reads(metas: Seq<CorpCodeMetaView>) -> Seq<XmlReadView>
    decreases metas.len(),
{
    if metas.len() == 0 {
        Seq::empty()
    } else {
        block_reads(metas[0]) + blocks_reads(metas.drop_first())
    }
}

/// The records that the texts `metas` give, in order.
pub open spec fn records_of<R: RegistryRecord>(metas: Seq<CorpCodeMetaView>) -> Seq<R::Model> {
    Seq::new(metas.len(), |i: int| R::of_meta(metas[i])->Ok_0)
}

/// A stream of well-formed `<list>` blocks gives one record for each block,
/// in the order of the blocks, after the records the ingestion had:
/// provided the texts of every block give a record.
pub proof fn lemma_blocks_give_their_records<R: RegistryRecord>(
    state: IngestView<R::Model>,
    metas: Seq<CorpCodeMetaView>,
)
    requires
        state.slots == empty_slots(),
        forall|i: int| 0 <= i < metas.len() ==> R::of_meta(#[trigger] metas[i]) is Ok,
    ensures
        run_spec::<R>(state, blocks_reads(metas) + seq![Ok(XmlEventView::Eof)]) == Ok::<
            Seq<R::Model>,
            OpenDartErrorView,
        >(state.records + records_of::<R>(metas)),
    decreases metas.len(),
{
    let end = seq![Ok::<XmlEventView, crate::error::XmlFaultView>(XmlEventView::Eof)];
    if metas.len() == 0 {
        assert(blocks_reads(metas) + end =~= end);
        assert(state.records + records_of::<R>(metas) =~= state.records);
    } else {
        let tail = metas.drop_first();
        let rest = blocks_reads(tail) + end;
        let record = R::of_meta(metas[0])->Ok_0;
        let next = IngestView {
            rooted: true,
            field: "modify_date"@,
            slots: empty_slots(),
            records: state.records.push(record),
        };
        lemma_block_gives_its_record::<R>(state, metas[0], rest);
        assert(blocks_reads(metas) + end =~= seq![
            Ok::<XmlEventView, crate::error::XmlFaultView>(XmlEventView::Start("list"@)),
        ] + field_reads(metas[0]) + seq![
            Ok::<XmlEventView, crate::error::XmlFaultView>(XmlEventView::End("list"@)),
        ] + rest);
        assert forall|i: int| 0 <= i < tail.len() implies R::of_meta(#[trigger] tail[i]) is Ok by {
            assert(tail[i] == metas[i + 1]);
        }
        lemma_blocks_give_their_records::<R>(next, tail);
        assert(next.records + records_of::<R>(tail) =~= state.records + records_of::<R>(metas)) by {
            assert forall|i: int| 0 <= i < tail.len() implies records_of::<R>(tail)[i]
                == records_of::<R>(metas)[i + 1] by {
                assert(tail[i] == metas[i + 1]);
            }
        }
    }
}

} // verus!
