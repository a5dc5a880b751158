use isletmap::scrape::scrape_candidates;

#[test]
fn extracts_screenshot_path() {
    let body = "<html><body><img src=\"/screenshot/abc.png\" foo=\"bar\"></body></html>";
    let candidates = scrape_candidates(body);
    assert_eq!(candidates, vec!["/screenshot/abc.png".to_string()]);
}

#[test]
fn no_marker_means_no_candidates() {
    let body = "<html><body>nothing embedded here</body></html>";
    let candidates = scrape_candidates(body);
    assert!(candidates.is_empty());
}

#[test]
fn marker_without_delimiter_yields_nothing() {
    let body = "<img src=\"/screenshot/abc.png\">";
    let candidates = scrape_candidates(body);
    assert!(candidates.is_empty());
}

#[test]
fn paths_without_screenshot_prefix_are_filtered() {
    let body = "<img src=\"/banner/logo.png\" alt=\"x\">";
    let candidates = scrape_candidates(body);
    assert!(candidates.is_empty());
}

#[test]
fn one_candidate_per_line_in_page_order() {
    let body = "<p>intro</p>\n<img src=\"/screenshot/one.png\" a=\"1\">\nplain line\n<img src=\"/screenshot/two.png\" b=\"2\">";
    let candidates = scrape_candidates(body);
    assert_eq!(
        candidates,
        vec!["/screenshot/one.png".to_string(), "/screenshot/two.png".to_string()]
    );
}

#[test]
fn only_first_marker_of_a_line_counts() {
    let body = "<img src=\"/screenshot/first.png\" x=\"y\"><img src=\"/screenshot/second.png\" x=\"y\">";
    let candidates = scrape_candidates(body);
    assert_eq!(candidates, vec!["/screenshot/first.png".to_string()]);
}

#[test]
fn text_before_marker_is_ignored() {
    let body = "leading text <img src=\"/screenshot/abc.png\" trailing";
    let candidates = scrape_candidates(body);
    assert_eq!(candidates, vec!["/screenshot/abc.png".to_string()]);
}

#[test]
fn empty_body_yields_nothing() {
    let candidates = scrape_candidates("");
    assert!(candidates.is_empty());
}
