use filler::name::{Country, CountryNames, NameConfig};
use filler::pipeline::{run_request, GenCommand, GenerationRequest, RenderedOutput, Sink};
use filler::{Error, OutputFormat};

fn request(kind: GenCommand, count: u32, destination: Option<&str>, format: Option<OutputFormat>) -> GenerationRequest {
    GenerationRequest {
        kind,
        count,
        destination: destination.map(String::from),
        format,
        country: None,
    }
}

fn japan_catalog() -> NameConfig {
    NameConfig {
        usa: None,
        japan: Some(CountryNames {
            first_names: vec![String::from("Haruki")],
            surnames: vec![String::from("Murakami")],
        }),
    }
}

#[test]
fn empty_path() {
    let req = request(GenCommand::Dates, 10, Some(""), Some(OutputFormat::Json));
    let err = run_request(&req, false, None).err().unwrap();
    assert!(matches!(err, Error::InvalidPath));
}

#[test]
fn folder_as_path_fails() {
    // A destination that names an existing directory is rejected before any
    // generation work; the caller reports the directory check's outcome.
    let req = request(GenCommand::Dates, 10, Some("temp/test.json"), Some(OutputFormat::Json));
    let err = run_request(&req, true, None).err().unwrap();
    assert!(matches!(err, Error::InvalidPath));
}

#[test]
fn extensionless_path_fails() {
    let req = request(GenCommand::Uuids, 1, Some("temp/test-output"), Some(OutputFormat::Json));
    let err = run_request(&req, false, None).err().unwrap();
    assert!(matches!(err, Error::InvalidPath));
}

#[test]
fn gen_uuids() {
    let req = request(GenCommand::Uuids, 100, Some("out.json"), Some(OutputFormat::Json));
    let out: RenderedOutput = run_request(&req, false, None).unwrap();
    assert!(matches!(out.format, OutputFormat::Json));
    match &out.sink {
        Sink::File(p) => assert_eq!(p, "out.json"),
        Sink::Stdout => panic!("expected a file sink"),
    }
    let value: serde_json::Value = serde_json::from_str(&out.text).unwrap();
    let data = value.get("data").unwrap().as_array().unwrap();
    assert_eq!(data.len(), 100);
    for entry in data {
        let id = uuid::Uuid::parse_str(entry.as_str().unwrap()).unwrap();
        assert_eq!(id.get_version_num(), 4);
    }
}

#[test]
fn gen_dates_within_default_range() {
    let req = request(GenCommand::Dates, 25, None, Some(OutputFormat::Json));
    let out = run_request(&req, false, None).unwrap();
    assert!(matches!(out.sink, Sink::Stdout));
    let value: serde_json::Value = serde_json::from_str(&out.text).unwrap();
    let data = value.get("data").unwrap().as_array().unwrap();
    assert_eq!(data.len(), 25);
    let start = chrono::NaiveDate::from_ymd_opt(1900, 1, 1).unwrap();
    let end = chrono::NaiveDate::from_ymd_opt(2100, 12, 31).unwrap();
    for entry in data {
        let date =
            chrono::NaiveDate::parse_from_str(entry.as_str().unwrap(), "%Y-%m-%d").unwrap();
        assert!(date >= start);
        assert!(date < end);
    }
}

#[test]
fn gen_names_needs_catalog() {
    let req = request(GenCommand::Names, 5, None, Some(OutputFormat::Json));
    let err = run_request(&req, false, None).err().unwrap();
    assert!(matches!(err, Error::ConfigError));

    let missing = NameConfig { usa: None, japan: None };
    let err = run_request(&req, false, Some(missing)).err().unwrap();
    assert!(matches!(err, Error::ConfigError));
}

#[test]
fn gen_names_from_catalog() {
    let req = request(GenCommand::Names, 4, None, Some(OutputFormat::Json));
    let out = run_request(&req, false, Some(japan_catalog())).unwrap();
    let value: serde_json::Value = serde_json::from_str(&out.text).unwrap();
    let data = value.get("data").unwrap().as_array().unwrap();
    assert_eq!(data.len(), 4);
    for entry in data {
        assert_eq!(entry.as_str().unwrap(), "Haruki Murakami");
    }
}

#[test]
fn zero_count_yields_empty_data() {
    let req = request(GenCommand::Dates, 0, None, Some(OutputFormat::Json));
    let out = run_request(&req, false, None).unwrap();
    assert_eq!(out.text, "{\"data\":[]}");
    let value: serde_json::Value = serde_json::from_str(&out.text).unwrap();
    assert_eq!(value.get("data").unwrap().as_array().unwrap().len(), 0);
}

#[test]
fn format_inferred_from_extension() {
    let cases = [
        ("batch.json", OutputFormat::Json),
        ("batch.yaml", OutputFormat::Yaml),
        ("batch.yml", OutputFormat::Yaml),
        ("batch.toml", OutputFormat::Toml),
        ("batch.bin", OutputFormat::Text),
        ("dir.d/batch.json", OutputFormat::Json),
    ];
    for (path, expected) in cases {
        let req = request(GenCommand::Uuids, 1, Some(path), None);
        let out = run_request(&req, false, None).unwrap();
        assert_eq!(out.format, expected, "for {path}");
    }
}

#[test]
fn explicit_format_wins_over_extension() {
    let req = request(GenCommand::Uuids, 1, Some("batch.json"), Some(OutputFormat::Toml));
    let out = run_request(&req, false, None).unwrap();
    assert_eq!(out.format, OutputFormat::Toml);
}

#[test]
fn default_format_is_text() {
    assert_eq!(OutputFormat::default(), OutputFormat::Text);
    let req = request(GenCommand::Uuids, 2, None, None);
    let out = run_request(&req, false, None).unwrap();
    assert_eq!(out.format, OutputFormat::Text);
    assert!(out.text.starts_with('['));
    assert!(out.text.ends_with(']'));
}

#[test]
fn toml_output_parses() {
    let req = request(GenCommand::Dates, 3, Some("batch.toml"), None);
    let out = run_request(&req, false, None).unwrap();
    let value: toml::Table = out.text.parse().unwrap();
    let data = value.get("data").unwrap().as_array().unwrap();
    assert_eq!(data.len(), 3);
    for entry in data {
        assert!(chrono::NaiveDate::parse_from_str(entry.as_str().unwrap(), "%Y-%m-%d").is_ok());
    }
}

#[test]
fn country_can_be_selected() {
    let catalog = NameConfig {
        usa: Some(CountryNames {
            first_names: vec![String::from("Ann")],
            surnames: vec![String::from("Lee")],
        }),
        japan: None,
    };
    let mut req = request(GenCommand::Names, 2, None, Some(OutputFormat::Json));
    req.country = Some(Country::Usa);
    let out = run_request(&req, false, Some(catalog.clone())).unwrap();
    let value: serde_json::Value = serde_json::from_str(&out.text).unwrap();
    for entry in value.get("data").unwrap().as_array().unwrap() {
        assert_eq!(entry.as_str().unwrap(), "Ann Lee");
    }

    // The same catalog cannot serve the default country: its pool is missing.
    req.country = None;
    let err = run_request(&req, false, Some(catalog)).err().unwrap();
    assert!(matches!(err, Error::ConfigError));
}

#[test]
fn yaml_output_shape() {
    let req = request(GenCommand::Names, 2, Some("batch.yaml"), None);
    let out = run_request(&req, false, Some(japan_catalog())).unwrap();
    assert_eq!(out.text, "data:\n- \"Haruki Murakami\"\n- \"Haruki Murakami\"\n");
    let empty = request(GenCommand::Names, 0, Some("batch.yml"), None);
    let out = run_request(&empty, false, Some(japan_catalog())).unwrap();
    assert_eq!(out.text, "data: []\n");
}
