//! The raw record of the registry dump: the four texts of one `<list>`
//! block, before they are validated.

use crate::endpoints::archive::{
    archive_entries, decoded, pending_reads, reads_view, EntryStream, XmlRead,
};
use crate::endpoints::ingest::{
    from_entries_spec, ingest_spec, records_from_reader, records_from_reads, records_from_zip,
    records_view, RegistryRecord,
};
use crate::error::{MyValidationError, OpenDartError, OpenDartErrorView};
use crate::text::{optional_text, same_text};
use vstd::prelude::*;
use vstd::std_specs::iter::IteratorSpec;
use vstd::string::*;

verus! {

broadcast use vstd::string::group_string_axioms;

/// The four slots that collect the texts of one `<list>` block while it is
/// being read. A slot is filled when its element was seen.
#[derive(Debug, Clone, Default, Eq, PartialEq, Ord, PartialOrd, Hash)]
pub struct CorpCodeMetaOptional {
    pub corp_code: Option<String>,
    pub corp_name: Option<String>,
    pub stock_code: Option<String>,
    pub modify_date: Option<String>,
}

/// Plain-value model of the slots.
pub struct SlotsView {
    pub corp_code: Option<Seq<char>>,
    pub corp_name: Option<Seq<char>>,
    pub stock_code: Option<Seq<char>>,
    pub modify_date: Option<Seq<char>>,
}

impl View for CorpCodeMetaOptional {
    type V = SlotsView;

    open spec fn view(&self) -> SlotsView {
        SlotsView {
            corp_code: optional_text(self.corp_code),
            corp_name: optional_text(self.corp_name),
            stock_code: optional_text(self.stock_code),
            modify_date: optional_text(self.modify_date),
        }
    }
}

/// The slots with none filled.
pub open spec fn empty_slots() -> SlotsView {
    SlotsView { corp_code: None, corp_name: None, stock_code: None, modify_date: None }
}

/// Whether `name` is one of the four elements of a `<list>` block.
pub open spec fn is_record_field(name: Seq<char>) -> bool {
    name == "corp_code"@ || name == "corp_name"@ || name == "stock_code"@ || name
        == "modify_date"@
}

/// The slots after `text` was put into the slot of the element `name`; the
/// slots unchanged when `name` is no element of a `<list>` block.
pub open spec fn fill_slot(slots: SlotsView, name: Seq<char>, text: Seq<char>) -> SlotsView {
    if name == "corp_code"@ {
        SlotsView { corp_code: Some(text), ..slots }
    } else if name == "corp_name"@ {
        SlotsView { corp_name: Some(text), ..slots }
    } else if name == "stock_code"@ {
        SlotsView { stock_code: Some(text), ..slots }
    } else if name == "modify_date"@ {
        SlotsView { modify_date: Some(text), ..slots }
    } else {
        slots
    }
}

/// Whether `name` is one of the four elements of a `<list>` block.
pub fn is_field(name: &str) -> (r: bool)
    ensures
        r == is_record_field(name@),
{
    same_text(name, "corp_code") || same_text(name, "corp_name") || same_text(name, "stock_code")
        || same_text(name, "modify_date")
}

impl CorpCodeMetaOptional {
    /// Slots with none filled.
    pub fn new() -> (r: Self)
        ensures
            r@ == empty_slots(),
    {
        CorpCodeMetaOptional {
            corp_code: None,
            corp_name: None,
            stock_code: None,
            modify_date: None,
        }
    }

    /// Puts `text` into the slot of the element `name`, replacing what the
    /// slot held. Returns whether `name` is an element of a `<list>` block;
    /// if it is not, the slots stay as they were.
    pub fn fill(&mut self, name: &str, text: String) -> (known: bool)
        ensures
            known == is_record_field(name@),
            final(self)@ == fill_slot(old(self)@, name@, text@),
    {
        if same_text(name, "corp_code") {
            self.corp_code = Some(text);
            true
        } else if same_text(name, "corp_name") {
            self.corp_name = Some(text);
            true
        } else if same_text(name, "stock_code") {
            self.stock_code = Some(text);
            true
        } else if same_text(name, "modify_date") {
            self.modify_date = Some(text);
            true
        } else {
            false
        }
    }
}

/// The raw record of one `<list>` block: its four texts as they were read.
/// The ingestion gives a raw record only if its company code, its company
/// name and its modification date are not empty; beyond that the texts are
/// not validated.
#[derive(Debug, Clone, Eq, PartialEq, Ord, PartialOrd, Hash)]
pub struct CorpCodeMeta {
    pub corp_code: String,
    pub corp_name: String,
    pub stock_code: String,
    pub modify_date: String,
}

/// Plain-value model of a [`CorpCodeMeta`].
pub struct CorpCodeMetaView {
    pub corp_code: Seq<char>,
    pub corp_name: Seq<char>,
    pub stock_code: Seq<char>,
    pub modify_date: Seq<char>,
}

impl View for CorpCodeMeta {
    type V = CorpCodeMetaView;

    open spec fn view(&self) -> CorpCodeMetaView {
        CorpCodeMetaView {
            corp_code: self.corp_code@,
            corp_name: self.corp_name@,
            stock_code: self.stock_code@,
            modify_date: self.modify_date@,
        }
    }
}

/// The error that reports a `<list>` block without the element `field`.
pub open spec fn missing_field(field: Seq<char>) -> OpenDartErrorView {
    OpenDartErrorView::MyValidation { value: field, message: "Missing field while parsing xml."@ }
}

/// The raw record that filled slots give. The company code, the company
/// name and the modification date must be there, and the first of them that
/// is not is reported; a stock code that is not there is empty.
pub open spec fn complete_slots(slots: SlotsView) -> Result<CorpCodeMetaView, OpenDartErrorView> {
    if slots.corp_code is None {
        Err(missing_field("corp_code"@))
    } else if slots.corp_name is None {
        Err(missing_field("corp_name"@))
    } else if slots.modify_date is None {
        Err(missing_field("modify_date"@))
    } else {
        Ok(
            CorpCodeMetaView {
                corp_code: slots.corp_code->0,
                corp_name: slots.corp_name->0,
                stock_code: match slots.stock_code {
                    Some(text) => text,
                    None => Seq::empty(),
                },
                modify_date: slots.modify_date->0,
            },
        )
    }
}

/// The error that reports a `<list>` block whose element `field` is empty.
pub open spec fn empty_field(field: Seq<char>) -> OpenDartErrorView {
    OpenDartErrorView::MyValidation { value: field, message: "Empty field while parsing xml."@ }
}

/// The raw record that the texts of a closed `<list>` block give. The
/// company code, the company name and the modification date must not be
/// empty, and the first of them that is empty is reported; the stock code
/// may be empty. Texts that pass are taken as they are.
pub open spec fn accept_meta(meta: CorpCodeMetaView) -> Result<
    CorpCodeMetaView,
    OpenDartErrorView,
> {
    if meta.corp_code.len() == 0 {
        Err(empty_field("corp_code"@))
    } else if meta.corp_name.len() == 0 {
        Err(empty_field("corp_name"@))
    } else if meta.modify_date.len() == 0 {
        Err(empty_field("modify_date"@))
    } else {
        Ok(meta)
    }
}

/// The model of the outcome of completing slots.
pub open spec fn meta_result_view(r: Result<CorpCodeMeta, OpenDartError>) -> Result<
    CorpCodeMetaView,
    OpenDartErrorView,
> {
    match r {
        Ok(meta) => Ok(meta@),
        Err(e) => Err(e@),
    }
}

impl CorpCodeMeta {
    /// Completes the slots of one `<list>` block to a raw record, as
    /// [`complete_slots`] says.
    pub fn try_from(optional: CorpCodeMetaOptional) -> (r: Result<Self, OpenDartError>)
        ensures
            meta_result_view(r) == complete_slots(optional@),
    {
        let CorpCodeMetaOptional { corp_code, corp_name, stock_code, modify_date } = optional;
        let corp_code = match corp_code {
            Some(text) => text,
            None => {
                return Err(Self::missing("corp_code"));
            },
        };
        let corp_name = match corp_name {
            Some(text) => text,
            None => {
                return Err(Self::missing("corp_name"));
            },
        };
        let stock_code = match stock_code {
            Some(text) => text,
            None => String::new(),
        };
        let modify_date = match modify_date {
            Some(text) => text,
            None => {
                return Err(Self::missing("modify_date"));
            },
        };
        Ok(CorpCodeMeta { corp_code, corp_name, stock_code, modify_date })
    }

    fn empty(field: &str) -> (e: OpenDartError)
        ensures
            e@ == empty_field(field@),
    {
        OpenDartError::MyValidation(MyValidationError::new(field, "Empty field while parsing xml."))
    }

    fn missing(field: &str) -> (e: OpenDartError)
        ensures
            e@ == missing_field(field@),
    {
        OpenDartError::MyValidation(
            MyValidationError::new(field, "Missing field while parsing xml."),
        )
    }
}

impl RegistryRecord for CorpCodeMeta {
    type Model = CorpCodeMetaView;

    open spec fn model(&self) -> CorpCodeMetaView {
        self@
    }

    /// Raw texts are taken as they are, once they are there, as
    /// [`accept_meta`] says.
    open spec fn of_meta(meta: CorpCodeMetaView) -> Result<CorpCodeMetaView, OpenDartErrorView> {
        accept_meta(meta)
    }

    fn try_from_meta(meta: CorpCodeMeta) -> (r: Result<Self, OpenDartError>) {
        if meta.corp_code.as_str().is_empty() {
            Err(Self::empty("corp_code"))
        } else if meta.corp_name.as_str().is_empty() {
            Err(Self::empty("corp_name"))
        } else if meta.modify_date.as_str().is_empty() {
            Err(Self::empty("modify_date"))
        } else {
            Ok(meta)
        }
    }
}

/// The raw records of a registry dump, in file order.
#[derive(Debug, Clone, Eq, PartialEq, Ord, PartialOrd, Hash)]
pub struct CorpMetas(Vec<CorpCodeMeta>);

impl View for CorpMetas {
    type V = Seq<CorpCodeMetaView>;

    closed spec fn view(&self) -> Seq<CorpCodeMetaView> {
        records_view(self.0@)
    }
}

/// The model of the outcome of reading the raw records.
pub open spec fn metas_result_view(r: Result<CorpMetas, OpenDartError>) -> Result<
    Seq<CorpCodeMetaView>,
    OpenDartErrorView,
> {
    match r {
        Ok(metas) => Ok(metas@),
        Err(e) => Err(e@),
    }
}

impl CorpMetas {
    /// The raw records `items`, in their order.
    pub fn new(items: Vec<CorpCodeMeta>) -> (r: Self)
        ensures
            r@ == records_view(items@),
    {
        CorpMetas(items)
    }

    /// Reads the raw records of a registry archive, as
    /// [`from_entries_spec`] says of the archive's entries. The archive's
    /// directory is left as it was.
    pub fn from_zip(zip: &mut zip::ZipArchive<std::io::Cursor<bytes::Bytes>>) -> (r: Result<
        Self,
        OpenDartError,
    >)
        ensures
            metas_result_view(r) == from_entries_spec::<CorpCodeMeta>(archive_entries(*old(zip))),
            archive_entries(*final(zip)) == archive_entries(*old(zip)),
    {
        match records_from_zip(zip) {
            Ok(items) => Ok(CorpMetas(items)),
            Err(e) => Err(e),
        }
    }

    /// Reads the raw records of an opened archive entry, as [`ingest_spec`]
    /// says of the reads the stream had yet to yield.
    pub fn from_reader(stream: &mut EntryStream<'_>) -> (r: Result<Self, OpenDartError>)
        ensures
            metas_result_view(r) == ingest_spec::<CorpCodeMeta>(
                decoded(pending_reads(*old(stream))),
            ),
    {
        match records_from_reader(stream) {
            Ok(items) => Ok(CorpMetas(items)),
            Err(e) => Err(e),
        }
    }

    /// Builds the raw records from reads that were taken from a stream
    /// before, as [`ingest_spec`] says of them.
    pub fn from_reads(reads: Vec<XmlRead>) -> (r: Result<Self, OpenDartError>)
        ensures
            metas_result_view(r) == ingest_spec::<CorpCodeMeta>(reads_view(reads@)),
    {
        match records_from_reads(reads) {
            Ok(items) => Ok(CorpMetas(items)),
            Err(e) => Err(e),
        }
    }

    /// An iterator over the raw records, in the order of the dump: it
    /// yields the records [`Self::items`], whose models are the view of
    /// this list.
    pub fn iter(&self) -> (r: std::slice::Iter<'_, CorpCodeMeta>)
        ensures
            r.remaining() == self.items().as_ref(),
            records_view(self.items()) == self@,
    {
        self.0.iter()
    }

    /// The raw records as a sequence, in the order of the dump.
    pub closed spec fn items(&self) -> Seq<CorpCodeMeta> {
        self.0@
    }

    /// Gives up the raw records, in the order of the dump.
    pub fn into_inner(self) -> (r: Vec<CorpCodeMeta>)
        ensures
            records_view(r@) == self@,
    {
        self.0
    }
}

} // verus!
