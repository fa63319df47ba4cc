use fetchfile::filename::derive_filename_from_url;
use fetchfile::filename::derive_filename_with_clock;
use fetchfile::stamp::fallback_filename;
use fetchfile::stamp::year_low_digits;
use fetchfile::stamp::ClockParts;
use fetchfile::DownloadError;

fn clock() -> ClockParts {
    ClockParts { year: 2024, month: 1, day: 2, hour: 3, minute: 4, second: 5 }
}

fn assert_fallback_shape(name: &str) {
    let chars: Vec<char> = name.chars().collect();
    assert_eq!(chars.len(), 28);
    assert!(name.starts_with("download_"));
    assert!(name.ends_with(".bin"));
    for j in 9..17 {
        assert!(chars[j].is_ascii_digit());
    }
    assert_eq!(chars[17], '_');
    for j in 18..24 {
        assert!(chars[j].is_ascii_digit());
    }
}

#[test]
fn segment_with_dot_names_the_file() {
    let name = derive_filename_from_url("https://example.com/data.json").unwrap();
    assert_eq!(name, "data.json");
}

#[test]
fn nested_path_takes_last_segment() {
    let name = derive_filename_from_url("https://example.com/a/b/model.tar.gz").unwrap();
    assert_eq!(name, "model.tar.gz");
}

#[test]
fn trailing_slash_skips_empty_segment() {
    let name = derive_filename_from_url("https://example.com/data.json/").unwrap();
    assert_eq!(name, "data.json");
}

#[test]
fn root_url_falls_back_to_timestamp_name() {
    let name = derive_filename_from_url("https://example.com/").unwrap();
    assert_fallback_shape(&name);
}

#[test]
fn dotless_segment_falls_back_to_timestamp_name() {
    let name = derive_filename_from_url("https://example.com/models").unwrap();
    assert_fallback_shape(&name);
}

#[test]
fn invalid_url_is_rejected() {
    let r = derive_filename_from_url("not a url");
    assert_eq!(r, Err(DownloadError::InvalidUrl));
}

#[test]
fn fixed_clock_gives_exact_fallback_name() {
    let name = derive_filename_with_clock("https://example.com/", &clock()).unwrap();
    assert_eq!(name, "download_20240102_030405.bin");
}

#[test]
fn fixed_clock_prefers_dotted_segment() {
    let name = derive_filename_with_clock("https://example.com/weights.safetensors", &clock())
        .unwrap();
    assert_eq!(name, "weights.safetensors");
}

#[test]
fn fallback_filename_formats_all_fields() {
    let now = ClockParts { year: 987, month: 12, day: 31, hour: 23, minute: 59, second: 59 };
    assert_eq!(fallback_filename(&now), "download_09871231_235959.bin");
}

#[test]
fn year_reduces_modulo_ten_thousand() {
    assert_eq!(year_low_digits(2024), 2024);
    assert_eq!(year_low_digits(12345), 2345);
    assert_eq!(year_low_digits(0), 0);
    assert_eq!(year_low_digits(-1), 9999);
}

#[test]
fn segments_agree_with_url_crate() {
    let url = "https://example.com/one/two/three.bin";
    let parsed = url::Url::parse(url).unwrap();
    let last = parsed.path_segments().unwrap().last().unwrap();
    let name = derive_filename_from_url(url).unwrap();
    assert_eq!(name, last);
}

#[test]
fn explicit_filename_is_used_verbatim() {
    let path =
        fetchfile::filename::resolve_output_path("https://example.com/a.json", "dl", Some("out.bin"))
            .unwrap();
    assert_eq!(path, "dl/out.bin");
}

#[test]
fn resolved_path_joins_directory_and_derived_name() {
    let path =
        fetchfile::filename::resolve_output_path("https://example.com/data.json", "dl", None)
            .unwrap();
    assert_eq!(path, "dl/data.json");
}

#[test]
fn resolve_rejects_invalid_url_without_explicit_name() {
    let r = fetchfile::filename::resolve_output_path("not a url", "dl", None);
    assert_eq!(r, Err(DownloadError::InvalidUrl));
}
