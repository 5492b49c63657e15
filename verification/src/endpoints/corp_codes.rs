//! The registry of company codes: the records of the bulk dump, and the
//! pipeline that turns the dump's ZIP archive into them.

use crate::endpoints::archive::{
    archive_entries, decoded, pending_reads, reads_view, zip_directory, EntryStream, XmlRead,
};
use crate::endpoints::corp_code_meta::{CorpCodeMeta, CorpCodeMetaView};
use crate::endpoints::ingest::{
    from_bytes_spec, from_entries_spec, ingest_spec, invalid, records_from_bytes,
    records_from_reader, records_from_reads, records_from_zip, records_view, RegistryRecord,
};
use crate::error::{OpenDartError, OpenDartErrorView};
use crate::types::date::{date_of, date_message, DateView};
use crate::types::{CorpCode, CorpName, Date, StockCode};
use vstd::prelude::*;
use vstd::std_specs::iter::IteratorSpec;
use vstd::string::*;

verus! {

broadcast use vstd::string::group_string_axioms;

/// One company of the registry: its code, its name, its stock code (empty
/// for a company that is not listed) and the day its entry last changed.
#[derive(Debug, Clone, Eq, PartialEq, Ord, PartialOrd, Hash)]
pub struct CorpInfo {
    corp_code: CorpCode,
    corp_name: CorpName,
    stock_code: StockCode,
    modify_date: Date,
}

/// Plain-value model of a [`CorpInfo`].
pub struct CorpInfoView {
    pub corp_code: Seq<char>,
    pub corp_name: Seq<char>,
    pub stock_code: Seq<char>,
    pub modify_date: DateView,
}

impl View for CorpInfo {
    type V = CorpInfoView;

    closed spec fn view(&self) -> CorpInfoView {
        CorpInfoView {
            corp_code: self.corp_code@,
            corp_name: self.corp_name@,
            stock_code: self.stock_code@,
            modify_date: self.modify_date@,
        }
    }
}

/// The company that a raw record denotes. Its four texts are validated in
/// the order company code, company name, stock code, modification date, and
/// the first that fails is reported.
pub open spec fn validate_meta(meta: CorpCodeMetaView) -> Result<CorpInfoView, OpenDartErrorView> {
    if !CorpCode::accepts(meta.corp_code) {
        Err(invalid(meta.corp_code, CorpCode::message(meta.corp_code)))
    } else if !CorpName::accepts(meta.corp_name) {
        Err(invalid(meta.corp_name, "empty string is not allowed"@))
    } else if !StockCode::accepts(meta.stock_code) {
        Err(invalid(meta.stock_code, "stock_code must be 6 digits"@))
    } else if date_of(meta.modify_date) is None {
        Err(invalid(meta.modify_date, date_message()))
    } else {
        Ok(
            CorpInfoView {
                corp_code: meta.corp_code,
                corp_name: meta.corp_name,
                stock_code: meta.stock_code,
                modify_date: date_of(meta.modify_date)->0,
            },
        )
    }
}

/// The model of the outcome of building one company.
pub open spec fn info_result_view(r: Result<CorpInfo, OpenDartError>) -> Result<
    CorpInfoView,
    OpenDartErrorView,
> {
    match r {
        Ok(info) => Ok(info@),
        Err(e) => Err(e@),
    }
}

impl CorpInfo {
    /// Validates a raw record, as [`validate_meta`] says.
    pub fn try_from(value: CorpCodeMeta) -> (r: Result<Self, OpenDartError>)
        ensures
            info_result_view(r) == validate_meta(value@),
    {
        let corp_code = match CorpCode::try_new(value.corp_code.as_str()) {
            Ok(code) => code,
            Err(e) => {
                return Err(OpenDartError::MyValidation(e));
            },
        };
        let corp_name = match CorpName::try_new(value.corp_name.as_str()) {
            Ok(name) => name,
            Err(e) => {
                return Err(OpenDartError::MyValidation(e));
            },
        };
        let stock_code = match StockCode::try_new(value.stock_code.as_str()) {
            Ok(code) => code,
            Err(e) => {
                return Err(OpenDartError::MyValidation(e));
            },
        };
        let modify_date = match Date::from_str(value.modify_date.as_str()) {
            Ok(date) => date,
            Err(e) => {
                return Err(OpenDartError::MyValidation(e));
            },
        };
        Ok(CorpInfo { corp_code, corp_name, stock_code, modify_date })
    }

    /// The company's registry code.
    pub fn corp_code(&self) -> (r: &CorpCode)
        ensures
            r@ == self@.corp_code,
    {
        &self.corp_code
    }

    /// The company's name.
    pub fn corp_name(&self) -> (r: &CorpName)
        ensures
            r@ == self@.corp_name,
    {
        &self.corp_name
    }

    /// The company's stock code, empty if it is not listed.
    pub fn stock_code(&self) -> (r: &StockCode)
        ensures
            r@ == self@.stock_code,
    {
        &self.stock_code
    }

    /// The day the company's entry last changed.
    pub fn modify_date(&self) -> (r: &Date)
        ensures
            r@ == self@.modify_date,
    {
        &self.modify_date
    }
}

impl RegistryRecord for CorpInfo {
    type Model = CorpInfoView;

    open spec fn model(&self) -> CorpInfoView {
        self@
    }

    open spec fn of_meta(meta: CorpCodeMetaView) -> Result<CorpInfoView, OpenDartErrorView> {
        validate_meta(meta)
    }

    fn try_from_meta(meta: CorpCodeMeta) -> (r: Result<Self, OpenDartError>) {
        CorpInfo::try_from(meta)
    }
}

/// The companies of the registry, in the order of the dump: neither sorted
/// nor deduplicated.
#[derive(Debug, Clone, Eq, PartialEq, Ord, PartialOrd, Hash)]
pub struct CorpInfos(Vec<CorpInfo>);

impl View for CorpInfos {
    type V = Seq<CorpInfoView>;

    closed spec fn view(&self) -> Seq<CorpInfoView> {
        records_view(self.0@)
    }
}

/// The model of the outcome of reading the companies.
pub open spec fn infos_result_view(r: Result<CorpInfos, OpenDartError>) -> Result<
    Seq<CorpInfoView>,
    OpenDartErrorView,
> {
    match r {
        Ok(infos) => Ok(infos@),
        Err(e) => Err(e@),
    }
}

impl CorpInfos {
    /// The companies `items`, in their order.
    pub fn new(items: Vec<CorpInfo>) -> (r: Self)
        ensures
            r@ == records_view(items@),
    {
        CorpInfos(items)
    }

    /// Reads the companies of a registry archive, as [`from_entries_spec`]
    /// says of the archive's entries. The archive's directory is left as it
    /// was.
    pub fn from_zip(zip: &mut zip::ZipArchive<std::io::Cursor<bytes::Bytes>>) -> (r: Result<
        Self,
        OpenDartError,
    >)
        ensures
            infos_result_view(r) == from_entries_spec::<CorpInfo>(archive_entries(*old(zip))),
            archive_entries(*final(zip)) == archive_entries(*old(zip)),
    {
        match records_from_zip(zip) {
            Ok(items) => Ok(CorpInfos(items)),
            Err(e) => Err(e),
        }
    }

    /// Reads the companies of a registry archive from its bytes, as
    /// [`from_bytes_spec`] says of what opening the bytes as an archive gives.
    pub fn from_bytes(bytes: Vec<u8>) -> (r: Result<Self, OpenDartError>)
        ensures
            infos_result_view(r) == from_bytes_spec::<CorpInfo>(zip_directory(bytes@)),
    {
        match records_from_bytes(bytes) {
            Ok(items) => Ok(CorpInfos(items)),
            Err(e) => Err(e),
        }
    }

    /// Reads the companies of an opened archive entry, as [`ingest_spec`]
    /// says of the reads the stream had yet to yield.
    pub fn from_reader(stream: &mut EntryStream<'_>) -> (r: Result<Self, OpenDartError>)
        ensures
            infos_result_view(r) == ingest_spec::<CorpInfo>(decoded(pending_reads(*old(stream)))),
    {
        match records_from_reader(stream) {
            Ok(items) => Ok(CorpInfos(items)),
            Err(e) => Err(e),
        }
    }

    /// Builds the companies from reads that were taken from a stream
    /// before, as [`ingest_spec`] says of them.
    pub fn from_reads(reads: Vec<XmlRead>) -> (r: Result<Self, OpenDartError>)
        ensures
            infos_result_view(r) == ingest_spec::<CorpInfo>(reads_view(reads@)),
    {
        match records_from_reads(reads) {
            Ok(items) => Ok(CorpInfos(items)),
            Err(e) => Err(e),
        }
    }

    /// An iterator over the companies, in the order of the dump: it yields
    /// the companies [`Self::items`], whose models are the view of this
    /// list.
    pub fn iter(&self) -> (r: std::slice::Iter<'_, CorpInfo>)
        ensures
            r.remaining() == self.items().as_ref(),
            records_view(self.items()) == self@,
    {
        self.0.iter()
    }

    /// The companies as a sequence, in the order of the dump.
    pub closed spec fn items(&self) -> Seq<CorpInfo> {
        self.0@
    }

    /// The number of companies.
    pub fn len(&self) -> (n: usize)
        ensures
            n == self@.len(),
    {
        self.0.len()
    }

    /// The company at `index`, in the order of the dump.
    pub fn get(&self, index: usize) -> (r: Option<&CorpInfo>)
        ensures
            r is Some <==> index < self@.len(),
            r matches Some(info) ==> info@ == self@[index as int],
    {
        if index < self.0.len() {
            Some(&self.0[index])
        } else {
            None
        }
    }

    /// Gives up the companies, in the order of the dump.
    pub fn into_inner(self) -> (r: Vec<CorpInfo>)
        ensures
            records_view(r@) == self@,
    {
        self.0
    }
}

} // verus!
