use isletmap::catalog::{Catalog, CatalogItem, RemotePolicy};
use isletmap::gate::Pixel;
use isletmap::pipeline::{image_requests, image_url, on_entry_interaction, page_request, Display, ImageData};
use isletmap::selection::{Highlight, Interaction, SelectionState};

fn uniform(red: u16, green: u16, blue: u16, count: usize) -> Vec<Pixel> {
    vec![Pixel { red, green, blue }; count]
}

#[test]
fn no_remote_data_makes_no_request() {
    let request = page_request(&RemotePolicy::NoRemoteData, "https://x");
    assert_eq!(request, None);
}

#[test]
fn remote_key_builds_page_url() {
    let policy = RemotePolicy::RemoteKey("K1".to_string());
    let request = page_request(&policy, "https://x");
    assert_eq!(request, Some("https://x/game/K1".to_string()));
}

#[test]
fn image_url_appends_path() {
    let url = image_url("https://x", "/screenshot/img1.png");
    assert_eq!(url, "https://x/screenshot/img1.png");
}

#[test]
fn page_without_marker_requests_nothing() {
    let urls = image_requests("https://x", "<html><body>bare</body></html>");
    assert!(urls.is_empty());
}

#[test]
fn scraped_paths_become_image_urls() {
    let body = "<img src=\"/screenshot/one.png\" a=\"1\">\n<img src=\"/screenshot/two.png\" b=\"2\">";
    let urls = image_requests("https://x", body);
    assert_eq!(
        urls,
        vec![
            "https://x/screenshot/one.png".to_string(),
            "https://x/screenshot/two.png".to_string(),
        ]
    );
}

fn two_item_catalog() -> Catalog {
    let items = vec![
        CatalogItem {
            label: "ashfall".to_string(),
            glyph: "🌋".to_string(),
            policy: RemotePolicy::RemoteKey("K1".to_string()),
        },
        CatalogItem {
            label: "cinderholm".to_string(),
            glyph: "🔥".to_string(),
            policy: RemotePolicy::NoRemoteData,
        },
    ];
    Catalog::new(items).unwrap()
}

#[test]
fn pressing_keyed_item_issues_page_fetch() {
    let catalog = two_item_catalog();
    let mut selection = SelectionState::new();
    let cmd = on_entry_interaction(&mut selection, &catalog, "https://x", 7, 0, &Interaction::Pressed);
    assert_eq!(cmd.cleared, None);
    assert_eq!(cmd.highlight, Highlight::Selected);
    assert_eq!(cmd.fetch, Some("https://x/game/K1".to_string()));
}

#[test]
fn pressing_item_without_remote_data_fetches_nothing() {
    let catalog = two_item_catalog();
    let mut selection = SelectionState::new();
    let cmd = on_entry_interaction(&mut selection, &catalog, "https://x", 8, 1, &Interaction::Pressed);
    assert_eq!(cmd.highlight, Highlight::Selected);
    assert_eq!(cmd.fetch, None);
}

#[test]
fn repeated_press_fetches_only_once() {
    let catalog = two_item_catalog();
    let mut selection = SelectionState::new();
    let first = on_entry_interaction(&mut selection, &catalog, "https://x", 7, 0, &Interaction::Pressed);
    assert!(first.fetch.is_some());
    let second = on_entry_interaction(&mut selection, &catalog, "https://x", 7, 0, &Interaction::Pressed);
    assert_eq!(second.fetch, None);
    assert_eq!(second.cleared, None);
}

#[test]
fn hovering_keyed_item_fetches_nothing() {
    let catalog = two_item_catalog();
    let mut selection = SelectionState::new();
    let cmd = on_entry_interaction(&mut selection, &catalog, "https://x", 7, 0, &Interaction::Hovered);
    assert_eq!(cmd.highlight, Highlight::Hovered);
    assert_eq!(cmd.fetch, None);
}

#[test]
fn fresh_display_shows_nothing() {
    let display = Display::new();
    assert!(display.current().is_none());
}

#[test]
fn accepted_image_replaces_display() {
    let mut display = Display::new();
    let accepted = display.try_commit(ImageData { pixels: uniform(300, 300, 600, 4) });
    assert!(accepted);
    let shown = display.current().as_ref().unwrap();
    assert_eq!(shown.pixels.len(), 4);
    assert_eq!(shown.pixels[0], Pixel { red: 300, green: 300, blue: 600 });
}

#[test]
fn rejected_image_leaves_previous_display() {
    let mut display = Display::new();
    assert!(display.try_commit(ImageData { pixels: uniform(100, 100, 900, 1) }));
    let rejected = display.try_commit(ImageData { pixels: uniform(900, 200, 500, 1) });
    assert!(!rejected);
    let shown = display.current().as_ref().unwrap();
    assert_eq!(shown.pixels[0], Pixel { red: 100, green: 100, blue: 900 });
}

#[test]
fn end_to_end_selection_to_display() {
    // Stage A: the selected item resolves to remote key "K1".
    let policy = RemotePolicy::RemoteKey("K1".to_string());
    let page_url = page_request(&policy, "https://x").unwrap();
    assert_eq!(page_url, "https://x/game/K1");

    // Stage B: the fetched page embeds one screenshot path.
    let body = "<html>\n<img src=\"/screenshot/img1.png\" alt=\"view\">\n</html>";
    let urls = image_requests("https://x", body);
    assert_eq!(urls, vec!["https://x/screenshot/img1.png".to_string()]);

    // Stages C and D: the fetched image decodes to bluish pixels, passes the
    // gate and replaces the display.
    let decoded = ImageData { pixels: uniform(200, 250, 650, 9) };
    let mut display = Display::new();
    let accepted = display.try_commit(decoded);
    assert!(accepted);
    let shown = display.current().as_ref().unwrap();
    assert_eq!(shown.pixels.len(), 9);
    assert_eq!(shown.pixels[0], Pixel { red: 200, green: 250, blue: 650 });
}
