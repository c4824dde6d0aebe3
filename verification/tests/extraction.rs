use moanmyip::base_url;
use moanmyip::error::Error;
use moanmyip::extract::get_audio_clip_url;
use moanmyip::extract::get_ip_address;
use moanmyip::html::Document;

fn page(body: &str) -> Document {
    Document::from_text(format!("<html><head></head><body>{}</body></html>", body))
}

#[test]
fn ip_is_trimmed() {
    let doc = page(r#"<div class="content"><div class="ip">  1.2.3.4  </div></div>"#);
    let ip = get_ip_address(&doc).unwrap();
    assert_eq!(ip, "1.2.3.4");
}

#[test]
fn ip_text_parts_are_single_spaced() {
    let doc = page(r#"<div class="content"><span class="ip"> 1.2<b>.3</b>.4 </span></div>"#);
    let ip = get_ip_address(&doc).unwrap();
    assert_eq!(ip, "1.2 .3 .4");
}

#[test]
fn ip_first_match_wins() {
    let doc = page(
        r#"<div class="content"><p class="ip">1.1.1.1</p><p class="ip">2.2.2.2</p></div>"#,
    );
    let ip = get_ip_address(&doc).unwrap();
    assert_eq!(ip, "1.1.1.1");
}

#[test]
fn ip_empty_element_extracts_empty_text() {
    let doc = page(r#"<div class="content"><div class="ip"></div></div>"#);
    let ip = get_ip_address(&doc).unwrap();
    assert_eq!(ip, "");
}

#[test]
fn ip_missing_markup_is_reported() {
    let doc = page(r#"<div class="content"><div class="address">1.2.3.4</div></div>"#);
    let r = get_ip_address(&doc);
    assert!(matches!(r, Err(Error::ExternalIpMissingError)));
}

#[test]
fn ip_class_outside_container_is_ignored() {
    let doc = page(r#"<div class="ip">1.2.3.4</div>"#);
    let r = get_ip_address(&doc);
    assert!(matches!(r, Err(Error::ExternalIpMissingError)));
}

#[test]
fn audio_url_is_resolved_against_base() {
    let doc = page(r#"<div id="audio-container"><audio src="/clip123.mp3"></audio></div>"#);
    let url = get_audio_clip_url(&doc, "https://www.moanmyip.com").unwrap();
    assert_eq!(url, "https://www.moanmyip.com/clip123.mp3");
}

#[test]
fn audio_absolute_src_keeps_its_host() {
    let doc = page(
        r#"<div id="audio-container"><audio src="https://cdn.example.com/a.mp3"></audio></div>"#,
    );
    let url = get_audio_clip_url(&doc, base_url()).unwrap();
    assert_eq!(url, "https://cdn.example.com/a.mp3");
}

#[test]
fn audio_first_match_wins() {
    let doc = page(
        r#"<div id="audio-container"><audio src="/first.mp3"></audio><audio src="/second.mp3"></audio></div>"#,
    );
    let url = get_audio_clip_url(&doc, base_url()).unwrap();
    assert_eq!(url, "https://www.moanmyip.com/first.mp3");
}

#[test]
fn audio_without_src_is_reported() {
    let doc = page(r#"<div id="audio-container"><audio></audio></div>"#);
    let r = get_audio_clip_url(&doc, base_url());
    assert!(matches!(r, Err(Error::AudioClipSrcMissingError)));
}

#[test]
fn audio_container_missing_is_reported() {
    let doc = page(r#"<audio src="/clip123.mp3"></audio>"#);
    let r = get_audio_clip_url(&doc, base_url());
    assert!(matches!(r, Err(Error::AudioClipSrcMissingError)));
}

#[test]
fn bad_base_url_is_reported() {
    let doc = page(r#"<div id="audio-container"><audio src="/clip123.mp3"></audio></div>"#);
    let r = get_audio_clip_url(&doc, "not a url");
    assert!(matches!(r, Err(Error::UrlParseError { .. })));
}

#[test]
fn mock_page_yields_ip_and_clip_url() {
    let doc = page(
        r#"<div class="content"><div class="ip">8.8.8.8</div></div><div id="audio-container"><audio src="/clip123.mp3"></audio></div>"#,
    );
    assert_eq!(get_ip_address(&doc).unwrap(), "8.8.8.8");
    assert_eq!(
        get_audio_clip_url(&doc, base_url()).unwrap(),
        "https://www.moanmyip.com/clip123.mp3"
    );
}

#[test]
fn mock_page_without_ip_markup_fails_before_any_ip() {
    let doc = page(r#"<div id="audio-container"><audio src="/clip123.mp3"></audio></div>"#);
    let r = get_ip_address(&doc);
    assert!(matches!(r, Err(Error::ExternalIpMissingError)));
}

#[test]
fn base_url_is_fixed() {
    assert_eq!(base_url(), "https://www.moanmyip.com");
}

#[test]
fn document_keeps_its_text() {
    let doc = Document::from_text(String::from("<p>hello</p>"));
    assert_eq!(doc.text(), "<p>hello</p>");
}

#[test]
fn error_descriptions_are_fixed() {
    assert_eq!(
        Error::ExternalIpMissingError.description(),
        "external IP address could not be extracted"
    );
    assert_eq!(Error::AudioClipSrcMissingError.description(), "audio clip could not be extracted");
    assert_eq!(Error::ReqwestError.description(), "HTTP error");
    assert_eq!(Error::IoError.description(), "I/O error");
}
