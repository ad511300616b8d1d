use qrgen::exporter::{ExportError, ExportFormat};
use qrgen::generator::{
    Generator, OutputConfig, ProcessingConfig, QrConfig, ReaderOptions, RecordOutcome,
};
use qrgen::symbol::{Mask, QrCodeEcc, Version};
use std::io::Cursor;
use std::path::PathBuf;

fn default_generator() -> Generator {
    Generator::new(
        Vec::new(),
        QrConfig::new(Version::new(1), Version::new(2), QrCodeEcc::High, None),
        Default::default(),
        Default::default(),
    )
}

/// Builds the reader of a source as the options of the generator ask.
fn csv_reader<R: std::io::Read>(gen: &Generator, reader: R) -> csv::Reader<R> {
    let options = gen.reader_options();
    csv::ReaderBuilder::new()
        .has_headers(options.has_headers)
        .trim(if options.trim { csv::Trim::All } else { csv::Trim::None })
        .flexible(options.flexible)
        .from_reader(reader)
}

fn row(fields: &[&str]) -> Vec<String> {
    fields.iter().map(|field| field.to_string()).collect()
}

fn generator(max_version: u8, format: ExportFormat, scale: u8) -> Generator {
    Generator::new(
        vec![PathBuf::from("input.csv")],
        QrConfig::new(Version::new(1), Version::new(max_version), QrCodeEcc::High, None),
        OutputConfig::new(PathBuf::from("out"), 4, format, scale),
        ProcessingConfig::new(2, false),
    )
}

#[test]
fn ensure_csv_is_flexible_and_reads_header() {
    let gen = default_generator();
    let buff = Cursor::new("file_name,qr_data\nfile_name,qr_data,extra");

    let reader = csv_reader(&gen, buff);
    let all_ok = reader.into_records().all(|r| r.is_ok());

    assert!(all_ok);
}

#[test]
fn ensure_csv_skips_header() {
    let mut gen = default_generator();
    gen.proc_conf.has_headers = true;
    let buff = Cursor::new("file_name,qr_data\nfile_name,qr_data,extra");

    let reader = csv_reader(&gen, buff);
    let count = reader.into_records().count();

    assert_eq!(1, count);
}

#[test]
fn emsure_csv_trims() {
    let gen = default_generator();
    let buff = Cursor::new("  file_name, qr_data ");

    let mut reader = csv_reader(&gen, buff);
    let record = reader.records().next().unwrap().unwrap();

    assert_eq!("file_name", record[0].to_string());
    assert_eq!("qr_data", record[1].to_string());
}

#[test]
fn the_reader_trims_and_is_flexible_whatever_the_header() {
    let mut gen = default_generator();
    assert_eq!(
        ReaderOptions { has_headers: false, trim: true, flexible: true },
        gen.reader_options()
    );
    gen.proc_conf.has_headers = true;
    assert_eq!(
        ReaderOptions { has_headers: true, trim: true, flexible: true },
        gen.reader_options()
    );
}

#[test]
fn the_defaults_are_empty() {
    let gen = default_generator();
    assert_eq!(0, gen.proc_conf.chunk_size);
    assert!(!gen.proc_conf.has_headers);
    assert_eq!(PathBuf::new(), gen.out_conf.output);
    assert_eq!(0, gen.out_conf.border);
    assert_eq!(0, gen.out_conf.scale);
    assert_eq!(ExportFormat::SVG, gen.out_conf.format);
    assert!(gen.files.is_empty());
    assert_eq!(1, gen.qr_conf.qr_version_min.value());
    assert_eq!(2, gen.qr_conf.qr_version_max.value());
}

#[test]
fn a_row_with_one_field_is_skipped_and_not_failed() {
    let gen = generator(40, ExportFormat::SVG, 8);
    assert!(!Generator::is_eligible(&row(&["only"])));
    assert!(!Generator::is_eligible(&row(&[])));
    assert!(Generator::is_eligible(&row(&["name", "data"])));
    assert!(Generator::is_eligible(&row(&["name", "data", "extra"])));
    assert!(matches!(gen.process_record(&row(&["only"])), RecordOutcome::Skipped));
    assert!(matches!(gen.process_record(&row(&[])), RecordOutcome::Skipped));
}

#[test]
fn the_payload_is_encoded_as_the_encoder_encodes_it() {
    let gen = Generator::new(
        Vec::new(),
        QrConfig::new(Version::new(2), Version::new(9), QrCodeEcc::Low, Some(Mask::new(3))),
        OutputConfig::new(PathBuf::from("out"), 4, ExportFormat::SVG, 8),
        ProcessingConfig::new(1, false),
    );
    for payload in ["0123456789", "HELLO WORLD", "Hello, world!", "", "\u{e9}t\u{e9}"].iter() {
        let chars: Vec<char> = payload.chars().collect();
        let expected = qrcodegen::QrCode::encode_segments_advanced(
            &qrcodegen::QrSegment::make_segments(&chars),
            qrcodegen::QrCodeEcc::Low,
            qrcodegen::Version::new(2),
            qrcodegen::Version::new(9),
            Some(qrcodegen::Mask::new(3)),
            true,
        )
        .unwrap();
        let code = gen.encode(&row(&["name", payload])).unwrap();
        assert!(expected == code);
        assert_eq!(3, code.mask().value());
        assert!(code.version().value() >= 2);
    }
}

#[test]
fn each_level_reaches_the_encoder() {
    let levels = [
        (QrCodeEcc::Low, qrcodegen::QrCodeEcc::Low),
        (QrCodeEcc::Medium, qrcodegen::QrCodeEcc::Medium),
        (QrCodeEcc::Quartile, qrcodegen::QrCodeEcc::Quartile),
        (QrCodeEcc::High, qrcodegen::QrCodeEcc::High),
    ];
    // A payload that fills version one at the low level leaves no room to
    // raise the level.
    let payload = "12345678901234567890123456789012345678901";
    for &(level, expected) in levels.iter() {
        let gen = Generator::new(
            Vec::new(),
            QrConfig::new(Version::new(1), Version::new(40), level, None),
            OutputConfig::new(PathBuf::from("out"), 4, ExportFormat::SVG, 8),
            ProcessingConfig::new(1, false),
        );
        let code = gen.encode(&row(&["name", payload])).unwrap();
        let chars: Vec<char> = payload.chars().collect();
        let direct = qrcodegen::QrCode::encode_segments_advanced(
            &qrcodegen::QrSegment::make_segments(&chars),
            expected,
            qrcodegen::Version::new(1),
            qrcodegen::Version::new(40),
            None,
            true,
        )
        .unwrap();
        assert!(direct == code);
        assert!(code.error_correction_level() >= expected);
    }
}

#[test]
fn a_payload_too_long_for_the_versions_fails_to_encode() {
    let gen = generator(1, ExportFormat::SVG, 8);
    let long = "a payload that will not fit into a symbol of version one";
    assert!(gen.encode(&row(&["name", long])).is_err());
    assert!(gen.encode(&row(&["name", "short"])).is_ok());
}

#[test]
fn one_failed_record_leaves_the_rest_of_the_batch_alone() {
    let gen = generator(1, ExportFormat::PNG, 2);
    let batch = vec![
        row(&["first", "one"]),
        row(&["second", "a payload that will not fit into a symbol of version one"]),
        row(&["third", "three"]),
    ];
    let outcomes: Vec<RecordOutcome> = batch.iter().map(|r| gen.process_record(r)).collect();
    match &outcomes[0] {
        RecordOutcome::Exported { path, bytes } => {
            assert_eq!(&PathBuf::from("out").join("first.png"), path);
            assert_eq!(&[137u8, 80, 78, 71][..], &bytes[..4]);
        }
        other => panic!("unexpected outcome {:?}", other),
    }
    assert!(matches!(outcomes[1], RecordOutcome::EncodeFailed(_)));
    match &outcomes[2] {
        RecordOutcome::Exported { path, bytes } => {
            assert_eq!(&PathBuf::from("out").join("third.png"), path);
            assert!(!bytes.is_empty());
        }
        other => panic!("unexpected outcome {:?}", other),
    }
}

#[test]
fn a_record_is_exported_in_the_configured_format() {
    let gen = generator(40, ExportFormat::SVG, 8);
    match gen.process_record(&row(&["name", "payload", "ignored"])) {
        RecordOutcome::Exported { path, bytes } => {
            assert_eq!(PathBuf::from("out").join("name.svg"), path);
            let chars: Vec<char> = "payload".chars().collect();
            let code = qrcodegen::QrCode::encode_segments_advanced(
                &qrcodegen::QrSegment::make_segments(&chars),
                qrcodegen::QrCodeEcc::High,
                qrcodegen::Version::new(1),
                qrcodegen::Version::new(40),
                None,
                true,
            )
            .unwrap();
            assert_eq!(code.to_svg_string(4).into_bytes(), bytes);
        }
        other => panic!("unexpected outcome {:?}", other),
    }
}

#[test]
fn a_record_too_large_to_draw_fails_to_export() {
    let gen = Generator::new(
        Vec::new(),
        QrConfig::new(Version::new(1), Version::new(40), QrCodeEcc::High, None),
        OutputConfig::new(PathBuf::from("out"), 255, ExportFormat::PNG, 255),
        ProcessingConfig::new(1, false),
    );
    assert!(matches!(
        gen.process_record(&row(&["name", "payload"])),
        RecordOutcome::ExportFailed(ExportError::OutOfBounds)
    ));
}

#[test]
fn the_output_configuration_is_copied_whole() {
    let conf = OutputConfig::new(PathBuf::from("dir"), 3, ExportFormat::PNG, 9);
    let copy = conf.clone();
    assert_eq!(conf.output, copy.output);
    assert_eq!(conf.border, copy.border);
    assert_eq!(conf.format, copy.format);
    assert_eq!(conf.scale, copy.scale);
}

#[test]
fn an_encoded_symbol_is_exported_under_the_first_field() {
    let gen = generator(40, ExportFormat::SVG, 8);
    let code = qrcodegen::QrCode::encode_text("given", qrcodegen::QrCodeEcc::Low).unwrap();
    let expected = code.to_svg_string(4).into_bytes();
    match gen.export_encoded(&row(&["label", "anything"]), Ok(code)) {
        RecordOutcome::Exported { path, bytes } => {
            assert_eq!(PathBuf::from("out").join("label.svg"), path);
            assert_eq!(expected, bytes);
        }
        other => panic!("unexpected outcome {:?}", other),
    }
}

#[test]
fn a_failure_to_encode_is_handed_on() {
    let gen = generator(40, ExportFormat::PNG, 8);
    let long: Vec<char> = std::iter::repeat('x').take(8000).collect();
    let failure = qrcodegen::QrCode::encode_segments(
        &qrcodegen::QrSegment::make_segments(&long),
        qrcodegen::QrCodeEcc::High,
    )
    .err()
    .unwrap();
    let message = failure.to_string();
    match gen.export_encoded(&row(&["label", "anything"]), Err(failure)) {
        RecordOutcome::EncodeFailed(e) => assert_eq!(message, e.to_string()),
        other => panic!("unexpected outcome {:?}", other),
    }
}
