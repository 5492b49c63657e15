use open_dart::endpoints::archive::{entry_stream, next_read, XmlEvent, XmlRead};
use open_dart::endpoints::corp_codes::{CorpInfo, CorpInfos};
use open_dart::endpoints::corp_code_meta::{CorpCodeMeta, CorpMetas};
use open_dart::error::{MyValidationError, XmlFault};
use open_dart::types::{CorpCode, CorpName, Date, StockCode};
use open_dart::OpenDartError;
use std::io::{Cursor, Write};
use zip::write::FileOptions;
use zip::{ZipArchive, ZipWriter};

const XML_CONTENT: &str = r#"<?xml version="1.0" encoding="UTF-8"?>

<result>
    <list>
        <corp_code>00126380</corp_code>
        <corp_name>삼성전자(주)</corp_name>
        <stock_code>005930</stock_code>
        <modify_date>20210531</modify_date>
    </list>
    <list>
        <corp_code>00164779</corp_code>
        <corp_name>삼성전자서비스(주)</corp_name>
        <stock_code>012057</stock_code>
        <modify_date>20210531</modify_date>
    </list>
</result>"#;

fn create_mock_zip_bytes(file_count: u64) -> bytes::Bytes {
    let mut buf = Vec::new();
    let mut writer = ZipWriter::new(Cursor::new(&mut buf));
    for i in 0..file_count {
        writer
            .start_file::<&str, ()>(format!("test{}.xml", i).as_str(), FileOptions::default())
            .unwrap();
        writer.write_all(XML_CONTENT.as_bytes()).unwrap();
    }
    writer.finish().unwrap();

    buf.into()
}

fn zip_of(entries: &[(&str, &str)]) -> Vec<u8> {
    let mut buf = Vec::new();
    let mut writer = ZipWriter::new(Cursor::new(&mut buf));
    for (name, content) in entries {
        writer.start_file::<&str, ()>(name, FileOptions::default()).unwrap();
        writer.write_all(content.as_bytes()).unwrap();
    }
    writer.finish().unwrap();
    buf
}

fn info(corp_code: &str, corp_name: &str, stock_code: &str, modify_date: &str) -> CorpInfo {
    CorpInfo::try_from(CorpCodeMeta {
        corp_code: corp_code.to_string(),
        corp_name: corp_name.to_string(),
        stock_code: stock_code.to_string(),
        modify_date: modify_date.to_string(),
    })
    .expect("a valid record")
}

fn expected_infos() -> CorpInfos {
    CorpInfos::new(vec![
        info("00126380", "삼성전자(주)", "005930", "20210531"),
        info("00164779", "삼성전자서비스(주)", "012057", "20210531"),
    ])
}

fn invalid(value: &str, message: &str) -> OpenDartError {
    OpenDartError::MyValidation(MyValidationError {
        value: value.to_string(),
        message: message.to_string(),
    })
}

#[test]
fn corp_codes_read_xml_from_zip_works() {
    let zip = create_mock_zip_bytes(1);

    let cursor = Cursor::new(zip);
    let mut zip = ZipArchive::new(cursor).unwrap();
    let corp_infos = CorpInfos::from_zip(&mut zip).unwrap();

    assert_eq!(corp_infos, expected_infos());
    let first = corp_infos.get(0).unwrap();
    assert_eq!(first.corp_code(), &CorpCode::try_new("00126380").unwrap());
    assert_eq!(first.corp_name(), &CorpName::try_new("삼성전자(주)").unwrap());
    assert_eq!(first.stock_code(), &StockCode::try_new("005930").unwrap());
    assert_eq!(first.modify_date(), &Date::from_str("20210531").unwrap());
}

#[test]
fn corp_codes_read_xml_should_error_when_there_are_more_than_one_file() {
    let zip = create_mock_zip_bytes(2);

    let cursor = Cursor::new(zip);
    let mut zip = ZipArchive::new(cursor).unwrap();

    let corp_infos = CorpInfos::from_zip(&mut zip);
    assert!(corp_infos.is_err());
}

#[test]
fn corp_code_read_xml_from_zip_works() {
    let zip = create_mock_zip_bytes(1);

    let cursor = Cursor::new(zip);
    let mut zip = ZipArchive::new(cursor).unwrap();
    let corp_infos = CorpInfos::from_zip(&mut zip).unwrap();

    assert_eq!(corp_infos, expected_infos());
}

#[test]
fn corp_code_read_xml_should_error_when_there_are_more_than_one_file() {
    let zip = create_mock_zip_bytes(2);

    let cursor = Cursor::new(zip);
    let mut zip = ZipArchive::new(cursor).unwrap();

    let corp_infos = CorpInfos::from_zip(&mut zip);
    assert!(corp_infos.is_err());
}

#[test]
fn one_xml_entry_gives_its_records_in_order() {
    let corp_infos = CorpInfos::from_bytes(zip_of(&[("CORPCODE.xml", XML_CONTENT)])).unwrap();
    assert_eq!(corp_infos.len(), 2);
    let names: Vec<String> = corp_infos.iter().map(|c| c.corp_name().to_string()).collect();
    assert_eq!(names, vec!["삼성전자(주)".to_string(), "삼성전자서비스(주)".to_string()]);
    let second = corp_infos.get(1).unwrap();
    assert_eq!(second.corp_code().as_wire(), "00164779");
    assert_eq!(second.stock_code().as_wire(), "012057");
    assert_eq!(second.modify_date().as_wire(), "20210531");
    assert!(corp_infos.get(2).is_none());
}

#[test]
fn an_archive_without_entries_is_rejected_with_no_names() {
    let error = CorpInfos::from_bytes(zip_of(&[])).unwrap_err();
    match error {
        OpenDartError::UnexpectedZipContent(e) => assert!(e.files.is_empty()),
        other => panic!("unexpected error: {:?}", other),
    }
}

#[test]
fn an_archive_with_two_entries_is_rejected_with_their_names() {
    let bytes = zip_of(&[("a.xml", XML_CONTENT), ("manifest.txt", "x")]);
    let error = CorpInfos::from_bytes(bytes).unwrap_err();
    match error {
        OpenDartError::UnexpectedZipContent(e) => {
            assert_eq!(e.files, vec!["a.xml".to_string(), "manifest.txt".to_string()])
        }
        other => panic!("unexpected error: {:?}", other),
    }
}

#[test]
fn an_entry_that_is_not_xml_is_rejected_with_its_name() {
    for name in ["CORPCODE.json", "xml", ".XML", "CORPCODE.xml.bak"] {
        let error = CorpInfos::from_bytes(zip_of(&[(name, XML_CONTENT)])).unwrap_err();
        match error {
            OpenDartError::UnexpectedZipContent(e) => assert_eq!(e.files, vec![name.to_string()]),
            other => panic!("unexpected error: {:?}", other),
        }
    }
    assert!(CorpInfos::from_bytes(zip_of(&[(".xml", XML_CONTENT)])).is_ok());
}

#[test]
fn bytes_that_are_no_archive_are_rejected() {
    let error = CorpInfos::from_bytes(b"not a zip archive".to_vec()).unwrap_err();
    assert!(matches!(error, OpenDartError::Zip(_)));
}

#[test]
fn a_record_without_a_name_aborts_the_ingestion() {
    let xml = r#"<result>
    <list>
        <corp_code>00126380</corp_code>
        <stock_code>005930</stock_code>
        <modify_date>20210531</modify_date>
    </list>
    <list>
        <corp_code>00164779</corp_code>
        <corp_name>삼성전자서비스(주)</corp_name>
        <stock_code>012057</stock_code>
        <modify_date>20210531</modify_date>
    </list>
</result>"#;
    let error = CorpInfos::from_bytes(zip_of(&[("c.xml", xml)])).unwrap_err();
    assert_eq!(error, invalid("corp_name", "Missing field while parsing xml."));
}

#[test]
fn a_self_closing_stock_code_is_an_empty_stock_code() {
    let xml = r#"<result><list><corp_code>00434003</corp_code><corp_name>다코</corp_name><stock_code/><modify_date>20170630</modify_date></list></result>"#;
    let corp_infos = CorpInfos::from_bytes(zip_of(&[("c.xml", xml)])).unwrap();
    assert_eq!(corp_infos, CorpInfos::new(vec![info("00434003", "다코", "", "20170630")]));
    assert_eq!(corp_infos.get(0).unwrap().stock_code(), &StockCode::try_new("").unwrap());
}

#[test]
fn a_missing_stock_code_is_an_empty_stock_code() {
    let xml = r#"<result><list><corp_code>00434003</corp_code><corp_name>다코</corp_name><modify_date>20170630</modify_date></list></result>"#;
    let corp_infos = CorpInfos::from_bytes(zip_of(&[("c.xml", xml)])).unwrap();
    assert_eq!(corp_infos, CorpInfos::new(vec![info("00434003", "다코", "", "20170630")]));
}

#[test]
fn text_is_trimmed_and_its_entities_are_resolved() {
    let xml = r#"<result><list><corp_code> 00434003 </corp_code><corp_name>A &amp; B &lt;C&gt;</corp_name><stock_code> </stock_code><modify_date>20170630</modify_date></list></result>"#;
    let corp_infos = CorpInfos::from_bytes(zip_of(&[("c.xml", xml)])).unwrap();
    assert_eq!(corp_infos, CorpInfos::new(vec![info("00434003", "A & B <C>", "", "20170630")]));
}

#[test]
fn invalid_fields_abort_the_ingestion() {
    let cases = [
        ("<corp_code>1234</corp_code><corp_name>n</corp_name><modify_date>20170630</modify_date>",
            invalid("1234", "CorpCode must be 8 digits")),
        ("<corp_code/><corp_name>n</corp_name><modify_date>20170630</modify_date>",
            invalid("", "Empty value is not allowed for CorpCode")),
        ("<corp_code>00434003</corp_code><corp_name/><modify_date>20170630</modify_date>",
            invalid("", "empty string is not allowed")),
        ("<corp_code>00434003</corp_code><corp_name>n</corp_name><stock_code>12</stock_code><modify_date>20170630</modify_date>",
            invalid("12", "stock_code must be 6 digits")),
        ("<corp_code>00434003</corp_code><corp_name>n</corp_name><modify_date>20170631</modify_date>",
            invalid("20170631", "date must be a calendar day in the form YYYYMMDD")),
        ("<corp_name>n</corp_name><modify_date>20170630</modify_date>",
            invalid("corp_code", "Missing field while parsing xml.")),
        ("<corp_code>00434003</corp_code><corp_name>n</corp_name>",
            invalid("modify_date", "Missing field while parsing xml.")),
        ("<corp_code>00434003</corp_code><ceo_nm>x</ceo_nm>",
            invalid("ceo_nm", "Unexpected field while parsing xml.")),
        ("<corp_code>00434003</corp_code><ceo_nm/>",
            invalid("ceo_nm", "Unexpected field while parsing xml.")),
    ];
    for (fields, expected) in cases {
        let xml = format!("<result><list>{}</list></result>", fields);
        let error = CorpInfos::from_bytes(zip_of(&[("c.xml", xml.as_str())])).unwrap_err();
        assert_eq!(error, expected, "{}", fields);
    }
}

#[test]
fn an_unknown_element_aborts_the_ingestion_as_soon_as_it_is_opened() {
    let xml = "<result><list><corp_code>00434003</corp_code><ceo_nm></ceo_nm></list></result>";
    let error = CorpInfos::from_bytes(zip_of(&[("c.xml", xml)])).unwrap_err();
    assert_eq!(error, invalid("ceo_nm", "Unexpected field while parsing xml."));
    let xml = "<result><page><list></list></page></result>";
    let error = CorpInfos::from_bytes(zip_of(&[("c.xml", xml)])).unwrap_err();
    assert_eq!(error, invalid("page", "Unexpected field while parsing xml."));
    let reads = vec![start("anything"), start("list"), start("other")];
    assert_eq!(
        CorpMetas::from_reads(reads),
        Err(invalid("other", "Unexpected field while parsing xml."))
    );
    let xml = "<dump><list></list></dump>";
    let error = CorpInfos::from_bytes(zip_of(&[("c.xml", xml)])).unwrap_err();
    assert_eq!(error, invalid("corp_code", "Missing field while parsing xml."));
}

#[test]
fn text_outside_a_field_aborts_the_ingestion() {
    let error = CorpInfos::from_bytes(zip_of(&[("c.xml", "<result>stray</result>")])).unwrap_err();
    assert_eq!(error, invalid("result", "Unexpected field while parsing xml."));
    let error = CorpInfos::from_bytes(zip_of(&[("c.xml", "stray")])).unwrap_err();
    assert_eq!(error, invalid("", "Unexpected field while parsing xml."));
}

#[test]
fn other_events_abort_the_ingestion() {
    let error =
        CorpInfos::from_bytes(zip_of(&[("c.xml", "<result><!-- note --></result>")])).unwrap_err();
    match error {
        OpenDartError::MyValidation(e) => {
            assert_eq!(e.message, "Unexpected event while parsing xml.");
            assert_eq!(e.value, r#"Ok(Comment(BytesText { content: Borrowed(" note ") }))"#);
        }
        other => panic!("unexpected error: {:?}", other),
    }
}

#[test]
fn malformed_xml_aborts_the_ingestion() {
    let xml = "<result><list><corp_code>00434003</corp_name></list></result>";
    let error = CorpInfos::from_bytes(zip_of(&[("c.xml", xml)])).unwrap_err();
    assert!(matches!(error, OpenDartError::QuickXml(_)), "{:?}", error);
    let xml = "<result><list><corp_code>00434003</corp_code><corp_name>&nope;</corp_name></list></result>";
    let error = CorpInfos::from_bytes(zip_of(&[("c.xml", xml)])).unwrap_err();
    assert!(matches!(error, OpenDartError::QuickXml(_)), "{:?}", error);
}

#[test]
fn an_empty_document_has_no_records() {
    let corp_infos = CorpInfos::from_bytes(zip_of(&[("c.xml", "")])).unwrap();
    assert_eq!(corp_infos.len(), 0);
    let corp_infos = CorpInfos::from_bytes(zip_of(&[("c.xml", "<result></result>")])).unwrap();
    assert!(corp_infos.into_inner().is_empty());
}

fn start(name: &str) -> XmlRead {
    Ok(XmlEvent::Start(name.to_string()))
}

fn end(name: &str) -> XmlRead {
    Ok(XmlEvent::End(name.to_string()))
}

fn text(value: &str) -> XmlRead {
    Ok(XmlEvent::Text(value.to_string()))
}

fn record_reads(corp_code: &str) -> Vec<XmlRead> {
    vec![
        start("list"),
        start("corp_code"),
        text(corp_code),
        end("corp_code"),
        start("corp_name"),
        text("다코"),
        end("corp_name"),
        Ok(XmlEvent::Empty("stock_code".to_string())),
        start("modify_date"),
        text("20170630"),
        end("modify_date"),
        end("list"),
    ]
}

#[test]
fn reads_are_ingested_in_order() {
    let mut reads = vec![Ok(XmlEvent::Decl), start("result")];
    reads.extend(record_reads("00434003"));
    reads.extend(record_reads("00434004"));
    reads.push(end("result"));
    reads.push(Ok(XmlEvent::Eof));
    let corp_infos = CorpInfos::from_reads(reads).unwrap();
    assert_eq!(
        corp_infos,
        CorpInfos::new(vec![
            info("00434003", "다코", "", "20170630"),
            info("00434004", "다코", "", "20170630"),
        ])
    );
}

#[test]
fn reads_after_the_end_are_not_looked_at() {
    let mut reads = record_reads("00434003");
    reads.push(Ok(XmlEvent::Eof));
    reads.extend(record_reads("bad"));
    reads.push(Err(XmlFault { detail: "late".to_string(), position: 7 }));
    let corp_infos = CorpInfos::from_reads(reads).unwrap();
    assert_eq!(corp_infos, CorpInfos::new(vec![info("00434003", "다코", "", "20170630")]));
}

#[test]
fn a_fault_of_the_stream_aborts_the_ingestion() {
    let mut reads = record_reads("00434003");
    let fault = XmlFault { detail: "ill-formed".to_string(), position: 42 };
    reads.push(Err(fault.clone()));
    reads.extend(record_reads("00434004"));
    assert_eq!(CorpInfos::from_reads(reads), Err(OpenDartError::QuickXml(fault)));
}

#[test]
fn a_bad_record_aborts_the_ingestion_whatever_follows() {
    let mut reads = record_reads("bad");
    reads.extend(record_reads("00434004"));
    reads.push(Ok(XmlEvent::Eof));
    assert_eq!(CorpInfos::from_reads(reads), Err(invalid("bad", "CorpCode must be 8 digits")));
}

#[test]
fn reads_that_run_out_end_the_stream() {
    assert_eq!(CorpInfos::from_reads(Vec::new()), Ok(CorpInfos::new(Vec::new())));
    let corp_infos = CorpInfos::from_reads(record_reads("00434003")).unwrap();
    assert_eq!(corp_infos.len(), 1);
}

#[test]
fn later_text_replaces_earlier_text_of_a_field() {
    let reads = vec![
        start("corp_code"),
        text("00000001"),
        text("00434003"),
        start("corp_name"),
        text("다코"),
        start("modify_date"),
        text("20170630"),
        end("list"),
        Ok(XmlEvent::Eof),
    ];
    let corp_infos = CorpInfos::from_reads(reads).unwrap();
    assert_eq!(corp_infos, CorpInfos::new(vec![info("00434003", "다코", "", "20170630")]));
}

fn meta(corp_code: &str, corp_name: &str, stock_code: &str, modify_date: &str) -> CorpCodeMeta {
    CorpCodeMeta {
        corp_code: corp_code.to_string(),
        corp_name: corp_name.to_string(),
        stock_code: stock_code.to_string(),
        modify_date: modify_date.to_string(),
    }
}

#[test]
fn corp_code_meta_read_xml_from_zip_works() {
    let zip = create_mock_zip_bytes(1);

    let cursor = Cursor::new(zip);
    let mut zip = ZipArchive::new(cursor).unwrap();
    let corp_infos = CorpMetas::from_zip(&mut zip).unwrap();

    assert_eq!(
        corp_infos,
        CorpMetas::new(vec![
            CorpCodeMeta {
                corp_code: "00126380".to_string(),
                corp_name: "삼성전자(주)".to_string(),
                stock_code: "005930".to_string(),
                modify_date: "20210531".to_string(),
            },
            CorpCodeMeta {
                corp_code: "00164779".to_string(),
                corp_name: "삼성전자서비스(주)".to_string(),
                stock_code: "012057".to_string(),
                modify_date: "20210531".to_string(),
            }
        ])
    );
}

#[test]
fn corp_code_meta_read_xml_should_error_when_there_are_more_than_one_file() {
    let zip = create_mock_zip_bytes(2);

    let cursor = Cursor::new(zip);
    let mut zip = ZipArchive::new(cursor).unwrap();

    let corp_infos = CorpMetas::from_zip(&mut zip);
    assert!(corp_infos.is_err());
}

#[test]
fn a_raw_record_with_an_empty_required_element_aborts_the_ingestion() {
    let xml = "<result><list><corp_code>00126380</corp_code><corp_name/><stock_code>005930</stock_code><modify_date>20210531</modify_date></list></result>";
    let bytes = zip_of(&[("c.xml", xml)]);
    let mut zip = ZipArchive::new(Cursor::new(bytes.into())).unwrap();
    let (_, mut stream) = entry_stream(&mut zip, 0).unwrap();
    let result = CorpMetas::from_reader(&mut stream);
    assert!(result.is_err());
    assert_eq!(result, Err(invalid("corp_name", "Empty field while parsing xml.")));
    drop(stream);
    assert_eq!(
        CorpMetas::from_zip(&mut zip),
        Err(invalid("corp_name", "Empty field while parsing xml."))
    );

    let cases = [
        ("<corp_code/><corp_name/><modify_date/>", "corp_code"),
        ("<corp_code>1</corp_code><corp_name/><modify_date/>", "corp_name"),
        ("<corp_code>1</corp_code><corp_name>n</corp_name><modify_date/>", "modify_date"),
        ("<corp_code/><corp_name>n</corp_name><modify_date>d</modify_date>", "corp_code"),
    ];
    for (fields, field) in cases {
        let xml = format!("<result><list>{}</list><list></list></result>", fields);
        let bytes = zip_of(&[("c.xml", xml.as_str())]);
        let mut zip = ZipArchive::new(Cursor::new(bytes.into())).unwrap();
        assert_eq!(
            CorpMetas::from_zip(&mut zip),
            Err(invalid(field, "Empty field while parsing xml.")),
            "{}",
            fields
        );
    }

    let reads = vec![
        Ok(XmlEvent::Empty("corp_code".to_string())),
        Ok(XmlEvent::Empty("corp_name".to_string())),
        Ok(XmlEvent::Empty("modify_date".to_string())),
        end("list"),
        Ok(XmlEvent::Eof),
    ];
    assert_eq!(
        CorpMetas::from_reads(reads),
        Err(invalid("corp_code", "Empty field while parsing xml."))
    );

    let xml = "<result><list><corp_code>1</corp_code><corp_name>n</corp_name><stock_code/><modify_date>d</modify_date></list></result>";
    let bytes = zip_of(&[("c.xml", xml)]);
    let mut zip = ZipArchive::new(Cursor::new(bytes.into())).unwrap();
    assert_eq!(CorpMetas::from_zip(&mut zip), Ok(CorpMetas::new(vec![meta("1", "n", "", "d")])));
}

#[test]
fn raw_records_must_be_complete_but_are_not_validated_further() {
    let mut reads = record_reads("bad");
    reads.push(Ok(XmlEvent::Eof));
    let metas = CorpMetas::from_reads(reads).unwrap();
    assert_eq!(metas, CorpMetas::new(vec![meta("bad", "다코", "", "20170630")]));
    let names: Vec<&str> = metas.iter().map(|m| m.corp_name.as_str()).collect();
    assert_eq!(names, vec!["다코"]);

    let reads = vec![start("corp_code"), text("1"), start("corp_name"), text("n"), end("list")];
    assert_eq!(
        CorpMetas::from_reads(reads),
        Err(invalid("modify_date", "Missing field while parsing xml."))
    );
}

#[test]
fn an_archive_can_be_read_twice() {
    let zip = create_mock_zip_bytes(1);
    let mut zip = ZipArchive::new(Cursor::new(zip)).unwrap();
    let first = CorpInfos::from_zip(&mut zip).unwrap();
    let second = CorpInfos::from_zip(&mut zip).unwrap();
    assert_eq!(first, second);
    assert_eq!(CorpMetas::from_zip(&mut zip).unwrap().into_inner().len(), 2);
}

fn protect_entry(bytes: &mut [u8], entry: usize) {
    let mut seen = 0;
    for at in 0..bytes.len() - 10 {
        if &bytes[at..at + 4] == b"PK\x01\x02" {
            if seen == entry {
                bytes[at + 8] |= 1;
                return;
            }
            seen += 1;
        }
    }
    panic!("the archive has no such entry");
}

#[test]
fn an_entry_that_cannot_be_opened_rejects_the_archive() {
    let mut bytes = zip_of(&[("c.xml", XML_CONTENT)]);
    protect_entry(&mut bytes, 0);
    let error = CorpInfos::from_bytes(bytes).unwrap_err();
    match error {
        OpenDartError::Zip(fault) => assert!(fault.detail.contains("Password"), "{}", fault.detail),
        other => panic!("unexpected error: {:?}", other),
    }

    let mut bytes = zip_of(&[("a.xml", XML_CONTENT), ("b.xml", XML_CONTENT), ("c.xml", "")]);
    protect_entry(&mut bytes, 1);
    let error = CorpMetas::from_zip(&mut ZipArchive::new(Cursor::new(bytes.into())).unwrap());
    assert!(matches!(error, Err(OpenDartError::Zip(_))), "{:?}", error);
}

#[test]
fn an_entry_can_be_read_by_hand() {
    let bytes = zip_of(&[("a.xml", "<result><list/></result>"), ("b.xml", XML_CONTENT)]);
    let mut zip = ZipArchive::new(Cursor::new(bytes.into())).unwrap();

    let (name, mut stream) = entry_stream(&mut zip, 0).unwrap();
    assert_eq!(name, "a.xml");
    assert_eq!(next_read(&mut stream), Ok(XmlEvent::Start("result".to_string())));
    assert_eq!(next_read(&mut stream), Ok(XmlEvent::Empty("list".to_string())));
    assert_eq!(next_read(&mut stream), Ok(XmlEvent::End("result".to_string())));
    assert_eq!(next_read(&mut stream), Ok(XmlEvent::Eof));
    drop(stream);

    let (name, mut stream) = entry_stream(&mut zip, 1).unwrap();
    assert_eq!(name, "b.xml");
    assert_eq!(CorpInfos::from_reader(&mut stream), Ok(expected_infos()));
    drop(stream);

    let (_, mut stream) = entry_stream(&mut zip, 1).unwrap();
    assert_eq!(next_read(&mut stream), Ok(XmlEvent::Decl));
    assert_eq!(CorpMetas::from_reader(&mut stream).unwrap().into_inner().len(), 2);
    drop(stream);

    let error = entry_stream(&mut zip, 2).err().unwrap();
    assert_eq!(error.detail, "the archive has no such entry");
}
