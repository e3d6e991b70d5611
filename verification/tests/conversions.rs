use moro_host::excel::{
    convert_html_to_text, processed_file_name, text_of_pieces, ProcessOutcome, ProcessResult,
};
use moro_host::image_converter::{
    base64_payload, decode_image_text, ConversionResult, ImageData, ImageSource,
    DATA_MARKER, DEFAULT_ICON_SIZE,
};

#[test]
fn icon_size_defaults_to_32() {
    assert_eq!(DEFAULT_ICON_SIZE, 32);
    let plain = ImageData::new(Some("a.png".to_string()), None, "a.ico".to_string(), None);
    assert_eq!(plain.icon_size(), 32);
    let sized = ImageData::new(Some("a.png".to_string()), None, "a.ico".to_string(), Some(64));
    assert_eq!(sized.icon_size(), 64);
    assert_eq!(sized.output_path(), "a.ico");
}

#[test]
fn base64_payload_takes_what_follows_the_marker() {
    assert_eq!(DATA_MARKER, "base64,");
    assert_eq!(base64_payload("data:image/png;base64,aGk="), "aGk=");
    assert_eq!(base64_payload("aGk="), "aGk=");
    assert_eq!(base64_payload("base64,"), "");
    assert_eq!(base64_payload("x base64,one base64,two"), "one ");
    assert_eq!(base64_payload("base64,base64,z"), "");
}

#[test]
fn decode_image_text_decodes_the_payload() {
    assert_eq!(decode_image_text("data:image/png;base64,aGk="), Ok(vec![104, 105]));
    assert_eq!(decode_image_text("aGVsbG8="), Ok(b"hello".to_vec()));
    assert_eq!(decode_image_text(""), Ok(vec![]));
}

#[test]
fn decode_image_text_says_why_it_failed() {
    assert_eq!(
        decode_image_text("!!!"),
        Err("无法解码 Base64 数据: Invalid symbol 33, offset 0.".to_string())
    );
    assert!(decode_image_text("aGk").is_err());
}

#[test]
fn source_prefers_the_path() {
    let both = ImageData::new(
        Some("in.png".to_string()),
        Some("aGk=".to_string()),
        "out.ico".to_string(),
        None,
    );
    assert_eq!(both.source(), Ok(ImageSource::File("in.png".to_string())));
    let encoded = ImageData::new(None, Some("data:x;base64,aGk=".to_string()), "out.ico".to_string(), None);
    assert_eq!(encoded.source(), Ok(ImageSource::Bytes(vec![104, 105])));
}

#[test]
fn source_needs_a_path_or_data() {
    let neither = ImageData::new(None, None, "out.ico".to_string(), Some(16));
    assert_eq!(neither.source(), Err("必须提供图片路径或Base64编码的图片数据".to_string()));
    let broken = ImageData::new(None, Some("***".to_string()), "out.ico".to_string(), None);
    assert!(broken.source().unwrap_err().starts_with("无法解码 Base64 数据: "));
}

#[test]
fn conversion_result_reports_the_icon() {
    let result = ConversionResult::converted("out.ico");
    assert!(result.success());
    assert_eq!(result.message(), "图片成功转换为.ico格式");
    assert_eq!(result.output_path(), "out.ico");
}

#[test]
fn plain_cells_stay_as_they_are() {
    assert_eq!(convert_html_to_text("  plain text  "), "  plain text  ");
    assert_eq!(convert_html_to_text(""), "");
    assert_eq!(convert_html_to_text("a & b"), "a & b");
}

#[test]
fn markup_is_reduced_to_its_text() {
    assert_eq!(convert_html_to_text("<p>Hello</p>"), "Hello");
    assert_eq!(convert_html_to_text("<b>Hello</b> <i>world</i>"), "Hello   world");
    assert_eq!(convert_html_to_text("  <div> a<br>b </div> "), "a b");
    assert_eq!(convert_html_to_text("1 < 2"), "1 < 2");
    assert_eq!(convert_html_to_text("a &amp; b > c"), "a & b > c");
    assert_eq!(convert_html_to_text("<br>"), "");
}

#[test]
fn text_of_pieces_joins_with_blanks_and_trims() {
    let pieces = |v: Vec<&str>| v.into_iter().map(|s| s.to_string()).collect::<Vec<String>>();
    assert_eq!(text_of_pieces(&pieces(vec![])), "");
    assert_eq!(text_of_pieces(&pieces(vec![" a "])), "a");
    assert_eq!(text_of_pieces(&pieces(vec!["a", "b", "c"])), "a b c");
    assert_eq!(text_of_pieces(&pieces(vec!["", "a", ""])), "a");
}

#[test]
fn processed_file_name_adds_the_suffix() {
    assert_eq!(processed_file_name("report"), "report-processed.xlsx");
    assert_eq!(processed_file_name(""), "-processed.xlsx");
}

#[test]
fn process_result_reports_each_outcome() {
    let missing = ProcessResult::from_outcome(ProcessOutcome::Missing);
    assert!(!missing.success());
    assert_eq!(missing.message(), "文件不存在");
    assert_eq!(missing.output_path(), None);
    let unreadable = ProcessResult::from_outcome(ProcessOutcome::Unreadable("bad zip".to_string()));
    assert_eq!(unreadable.message(), "无法打开 Excel 文件: bad zip");
    assert!(!unreadable.success());
    let no_sheet = ProcessResult::from_outcome(ProcessOutcome::NoSheet);
    assert_eq!(no_sheet.message(), "无法读取工作表");
    let not_saved = ProcessResult::from_outcome(ProcessOutcome::SaveFailed("denied".to_string()));
    assert_eq!(not_saved.message(), "保存文件失败: denied");
    assert_eq!(not_saved.output_path(), None);
    let saved = ProcessResult::from_outcome(ProcessOutcome::Saved("/d/r-processed.xlsx".to_string()));
    assert!(saved.success());
    assert_eq!(saved.message(), "处理成功");
    assert_eq!(saved.output_path(), Some("/d/r-processed.xlsx"));
}
