use imgproxy::pipeline::{
    after_primary_fetch, after_proxy_fetch, favicon_after_fallback, favicon_after_primary,
    favicon_plan, plan_source, FaviconStep, ImgStep,
};
use imgproxy::types::{classify_response, FetchOutcome, MimeType, PipelineError};

#[test]
fn plan_source_passes_http_urls_through() {
    let r = plan_source("https://host/a.png", None);
    assert_eq!(r.unwrap(), "https://host/a.png");
    let r = plan_source("http://host/a.png", Some(String::from("https://fallback/x")));
    assert_eq!(r.unwrap(), "http://host/a.png");
}

#[test]
fn plan_source_normalizes_protocol_relative_urls() {
    let r = plan_source("//host/a.png", None);
    assert_eq!(r.unwrap(), "https://host/a.png");
}

#[test]
fn plan_source_substitutes_the_configured_fallback() {
    let r = plan_source("ftp://host/x", Some(String::from("https://fallback/x")));
    assert_eq!(r.unwrap(), "https://fallback/x");
}

#[test]
fn plan_source_rejects_non_http_without_fallback() {
    let r = plan_source("ftp://host/x", None);
    assert_eq!(r.unwrap_err(), PipelineError::BadRequest);
    let r = plan_source("", None);
    assert_eq!(r.unwrap_err(), PipelineError::BadRequest);
}

#[test]
fn primary_success_carries_the_bytes() {
    let step = after_primary_fetch("https://host/a.png", FetchOutcome::Success(vec![1, 2, 3]));
    match step {
        ImgStep::Fetched(b) => assert_eq!(b, vec![1, 2, 3]),
        ImgStep::TryProxy(_) => panic!("a successful fetch must not retry"),
    }
}

#[test]
fn primary_404_directs_exactly_one_proxy_fetch() {
    // A non-2xx primary response leads to a single fallback fetch against
    // the configured proxy, carrying the original URL encoded as the query
    // value; a second failure then ends the pipeline.
    let step = after_primary_fetch("https://host/a.png", FetchOutcome::HttpStatus(404));
    match step {
        ImgStep::Fetched(_) => panic!("a 404 must not carry bytes onward"),
        ImgStep::TryProxy(u) => assert_eq!(
            u,
            "https://expander.iavian.net/proxy?url=https%3A%2F%2Fhost%2Fa.png"
        ),
    }
    let end = after_proxy_fetch(FetchOutcome::HttpStatus(404));
    assert_eq!(end.unwrap_err(), PipelineError::UpstreamUnavailable);
}

#[test]
fn primary_transport_failure_also_tries_the_proxy() {
    let step = after_primary_fetch("http://host/b", FetchOutcome::Transport);
    assert!(matches!(step, ImgStep::TryProxy(_)));
}

#[test]
fn proxy_success_carries_the_bytes() {
    let r = after_proxy_fetch(FetchOutcome::Success(vec![9, 9]));
    assert_eq!(r.unwrap(), vec![9, 9]);
}

#[test]
fn proxy_transport_failure_is_terminal() {
    let r = after_proxy_fetch(FetchOutcome::Transport);
    assert_eq!(r.unwrap_err(), PipelineError::UpstreamUnavailable);
}

#[test]
fn short_domain_is_rejected_before_any_fetch() {
    // A two-character domain never reaches a provider.
    let r = favicon_plan("ab");
    assert_eq!(r.unwrap_err(), PipelineError::BadRequest);
    let r = favicon_plan("");
    assert_eq!(r.unwrap_err(), PipelineError::BadRequest);
}

#[test]
fn valid_domain_plans_the_primary_provider_fetch() {
    let r = favicon_plan("abc");
    assert_eq!(
        r.unwrap(),
        "https://t0.gstatic.com/faviconV2?client=SOCIAL&type=FAVICON&size=12&fallback_opts=TYPE,SIZE,URL&url=http://abc"
    );
}

#[test]
fn favicon_primary_success_is_served_as_icon() {
    let step = favicon_after_primary("example.com", FetchOutcome::Success(vec![4, 5]));
    match step {
        FaviconStep::Done(p) => {
            assert_eq!(p.bytes, vec![4, 5]);
            assert_eq!(p.mime, MimeType::Icon);
        }
        FaviconStep::TryFallback(_) => panic!("a successful primary fetch must be served"),
    }
}

#[test]
fn favicon_primary_failure_tries_the_extractor() {
    let step = favicon_after_primary("example.com", FetchOutcome::HttpStatus(500));
    match step {
        FaviconStep::Done(_) => panic!("a failed primary fetch must not be served"),
        FaviconStep::TryFallback(u) => {
            assert_eq!(u, "https://www.faviconextractor.com/favicon/example.com");
        }
    }
}

#[test]
fn favicon_fallback_success_is_served_as_png() {
    let r = favicon_after_fallback(FetchOutcome::Success(vec![7]));
    let p = r.unwrap();
    assert_eq!(p.bytes, vec![7]);
    assert_eq!(p.mime, MimeType::Png);
}

#[test]
fn favicon_double_failure_is_terminal() {
    let r = favicon_after_fallback(FetchOutcome::Transport);
    assert_eq!(r.unwrap_err(), PipelineError::UpstreamUnavailable);
    let r = favicon_after_fallback(FetchOutcome::HttpStatus(404));
    assert_eq!(r.unwrap_err(), PipelineError::UpstreamUnavailable);
}

#[test]
fn response_classification_follows_the_2xx_rule() {
    assert!(matches!(
        classify_response(200, vec![1]),
        FetchOutcome::Success(b) if b == vec![1]
    ));
    assert!(matches!(
        classify_response(299, vec![]),
        FetchOutcome::Success(_)
    ));
    assert!(matches!(
        classify_response(199, vec![1]),
        FetchOutcome::HttpStatus(199)
    ));
    assert!(matches!(
        classify_response(300, vec![1]),
        FetchOutcome::HttpStatus(300)
    ));
    assert!(matches!(
        classify_response(404, vec![1]),
        FetchOutcome::HttpStatus(404)
    ));
}

#[test]
fn mime_types_render_their_content_type() {
    assert_eq!(MimeType::Jpeg.as_str(), "image/jpeg");
    assert_eq!(MimeType::Png.as_str(), "image/png");
    assert_eq!(MimeType::Icon.as_str(), "image/x-icon");
}
