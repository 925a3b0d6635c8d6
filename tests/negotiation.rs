use swyh_stream::format::{content_type, framing, negotiate, Framing, StreamerConfig, StreamingFormat};
use swyh_stream::request::{bare_ip, plan_request, recognize_path, str_eq_ignore_case, HttpMethod, RequestPlan};

fn cfg(format: Option<StreamingFormat>, bits: Option<u16>) -> StreamerConfig {
    StreamerConfig { streaming_format: format, bits_per_sample: bits, use_wave_format: false }
}

fn media(plan: &RequestPlan) -> (StreamingFormat, u16, String, Framing) {
    match plan {
        RequestPlan::Stream(m) | RequestPlan::Head(m) => {
            (m.format, m.bits_per_sample, m.content_type.clone(), m.framing)
        }
        _ => panic!("no media in this plan"),
    }
}

#[test]
fn flac_path_overrides_lpcm_config() {
    let c = cfg(Some(StreamingFormat::Lpcm), Some(16));
    let p = plan_request(HttpMethod::Get, "/stream/swyh.flac", &c, 44100);
    let (f, b, ct, _) = media(&p);
    assert_eq!(f, StreamingFormat::Flac);
    assert_eq!(b, 24);
    assert_eq!(ct, "audio/flac");
}

#[test]
fn wav_path_with_lpcm_config() {
    let c = cfg(Some(StreamingFormat::Lpcm), Some(16));
    let p = plan_request(HttpMethod::Get, "/stream/swyh.wav", &c, 44100);
    let (f, b, ct, fr) = media(&p);
    assert_eq!(f, StreamingFormat::Wav);
    assert_eq!(b, 16);
    assert_eq!(ct, "audio/vnd.wave;codec=1");
    assert_eq!(fr.stream_len, (u32::MAX - 1) as u64);
    assert_eq!(fr.chunk_threshold, u32::MAX as u64);
    assert_eq!(p.status(), Some(200));
}

#[test]
fn unknown_path_is_not_found() {
    let c = cfg(None, None);
    for m in [HttpMethod::Get, HttpMethod::Head, HttpMethod::Post, HttpMethod::Other] {
        let p = plan_request(m, "/foo", &c, 44100);
        assert!(matches!(p, RequestPlan::NotFound));
        assert_eq!(p.status(), Some(404));
    }
}

#[test]
fn recognized_paths_and_defaults() {
    // a configuration whose format differs from every path's
    let c = cfg(Some(StreamingFormat::Lpcm), Some(24));
    let cases = [
        ("/stream/swyh.wav", StreamingFormat::Wav, 16u16),
        ("/stream/swyh.flac", StreamingFormat::Flac, 24u16),
        ("/stream/swyh.rf64", StreamingFormat::Rf64, 16u16),
    ];
    for (path, f, b) in cases {
        assert_eq!(recognize_path(path), Some(f));
        let (pf, pb, _, _) = media(&plan_request(HttpMethod::Get, path, &c, 48000));
        assert_eq!((pf, pb), (f, b));
    }
    let c = cfg(Some(StreamingFormat::Flac), Some(24));
    assert_eq!(recognize_path("/stream/swyh.raw"), Some(StreamingFormat::Lpcm));
    let (pf, pb, _, _) = media(&plan_request(HttpMethod::Get, "/stream/swyh.raw", &c, 48000));
    assert_eq!((pf, pb), (StreamingFormat::Lpcm, 16));
}

#[test]
fn path_matching_ignores_ascii_case() {
    assert_eq!(recognize_path("/STREAM/Swyh.FLAC"), Some(StreamingFormat::Flac));
    assert_eq!(recognize_path("/stream/swyh.mp3"), None);
    assert_eq!(recognize_path("/stream/swyh.wav/"), None);
    assert_eq!(recognize_path(""), None);
    assert!(str_eq_ignore_case("aBc", "AbC"));
    assert!(!str_eq_ignore_case("abc", "abd"));
}

#[test]
fn same_format_keeps_configured_bits() {
    let c = cfg(Some(StreamingFormat::Lpcm), Some(24));
    assert_eq!(negotiate(StreamingFormat::Lpcm, &c), (StreamingFormat::Lpcm, 24));
    let c = cfg(None, None);
    assert_eq!(negotiate(StreamingFormat::Flac, &c), (StreamingFormat::Flac, 16));
    assert_eq!(negotiate(StreamingFormat::Lpcm, &c), (StreamingFormat::Lpcm, 16));
}

#[test]
fn path_format_always_wins() {
    let all = [StreamingFormat::Lpcm, StreamingFormat::Wav, StreamingFormat::Rf64, StreamingFormat::Flac];
    for conf in all {
        for req in all {
            let (f, b) = negotiate(req, &cfg(Some(conf), Some(24)));
            assert_eq!(f, req);
            if req != conf {
                assert_eq!(b, if req == StreamingFormat::Flac { 24 } else { 16 });
            } else {
                assert_eq!(b, 24);
            }
        }
    }
}

#[test]
fn content_type_table() {
    assert_eq!(content_type(StreamingFormat::Flac, 16, 44100), "audio/flac");
    assert_eq!(content_type(StreamingFormat::Flac, 24, 44100), "audio/flac");
    assert_eq!(content_type(StreamingFormat::Wav, 16, 44100), "audio/vnd.wave;codec=1");
    assert_eq!(content_type(StreamingFormat::Rf64, 24, 48000), "audio/vnd.wave;codec=1");
    assert_eq!(content_type(StreamingFormat::Lpcm, 16, 44100), "audio/L16;rate=44100;channels=2");
    assert_eq!(content_type(StreamingFormat::Lpcm, 24, 48000), "audio/L24;rate=48000;channels=2");
    assert_eq!(content_type(StreamingFormat::Lpcm, 16, 0), "audio/L16;rate=0;channels=2");
}

#[test]
fn framing_never_chunks() {
    let w = framing(StreamingFormat::Wav);
    assert_eq!((w.stream_len, w.chunk_threshold), (4294967294, 4294967295));
    for f in [StreamingFormat::Lpcm, StreamingFormat::Rf64, StreamingFormat::Flac] {
        let r = framing(f);
        assert_eq!(r.stream_len, (i64::MAX - 1) as u64);
        assert_eq!(r.chunk_threshold, i64::MAX as u64);
    }
}

#[test]
fn headers_by_method() {
    let c = cfg(None, None);
    let base = vec![
        ("Server".to_string(), "swyh-rs tiny-http".to_string()),
        ("icy-name".to_string(), "swyh-rs".to_string()),
        ("Connection".to_string(), "close".to_string()),
        ("Accept-Ranges".to_string(), "none".to_string()),
    ];
    let post = plan_request(HttpMethod::Post, "/stream/swyh.raw", &c, 44100);
    assert!(matches!(post, RequestPlan::Acknowledge));
    assert_eq!(post.response_headers(), base);
    assert_eq!(post.status(), Some(200));
    let head = plan_request(HttpMethod::Head, "/stream/swyh.raw", &c, 44100);
    let mut full = base.clone();
    full.push(("Content-Type".to_string(), "audio/L16;rate=44100;channels=2".to_string()));
    full.push(("TransferMode.dlna.org".to_string(), "Streaming".to_string()));
    assert_eq!(head.response_headers(), full);
    let get = plan_request(HttpMethod::Get, "/stream/swyh.raw", &c, 44100);
    assert_eq!(get.response_headers(), full);
    let other = plan_request(HttpMethod::Other, "/stream/swyh.raw", &c, 44100);
    assert!(matches!(other, RequestPlan::Unanswered));
    assert_eq!(other.status(), None);
}

#[test]
fn bare_ip_strips_port() {
    assert_eq!(bare_ip("192.168.1.5:50123"), "192.168.1.5");
    assert_eq!(bare_ip("192.168.1.5"), "192.168.1.5");
    assert_eq!(bare_ip("[fe80::1]:8080"), "[fe80::1]");
    assert_eq!(bare_ip(""), "");
}
