use quickosdl::app::{Action, Page, PageView};
use quickosdl::catalog::WebSource;
use quickosdl::download::{
    choose_file_name, percent_label, resolve_file_name, Download, DownloadError, DownloadPage,
    DownloadStatus, GaugeColor,
};
use quickosdl::keys::{KeyCode, KeyEvent};

fn source(url: &str) -> WebSource {
    WebSource {
        url: url.to_string(),
        checksum: None,
        file_name: None,
    }
}

fn two_units() -> DownloadPage {
    DownloadPage::new(vec![source("https://a/one.iso"), source("https://a/two.iso")])
}

fn any_key() -> KeyEvent {
    KeyEvent::new(KeyCode::Char('x'))
}

#[test]
fn a_new_batch_has_one_unit_in_progress_per_source() {
    let page = two_units();
    assert_eq!(page.len(), 2);
    assert!(page.is_in_progress(0));
    assert!(page.is_in_progress(1));
    assert!(!page.is_in_progress(2));
    assert_eq!(page.source(1).unwrap().url, "https://a/two.iso");
    assert!(page.source(2).is_none());
    let views = page.draw();
    assert_eq!((views[0].filled, views[0].whole), (0, 1));
    assert_eq!(views[0].label, "0.00% (0 bytes/0 bytes)");
    assert!(page.keybinds().is_empty());
}

#[test]
fn a_unit_at_400_of_1000_bytes_beside_a_complete_one_keeps_the_batch_open() {
    let mut page = two_units();
    page.observe(0, 400, 1000);
    page.observe(1, 2048, 2048);
    page.collect(1, Ok(()));
    let views = page.draw();
    assert_eq!((views[0].filled, views[0].whole), (400, 1000));
    assert_eq!(views[0].label, "40.00% (400 bytes/1000 bytes)");
    assert_eq!(views[0].color, GaugeColor::Blue);
    assert_eq!(views[0].label_color, GaugeColor::White);
    assert_eq!((views[1].filled, views[1].whole), (1, 1));
    assert_eq!(views[1].label, "Download complete (2.00 KiB)");
    assert_eq!(views[1].color, GaugeColor::Green);
    assert_eq!(views[1].label_color, GaugeColor::Black);
    assert!(page.handle_key(&any_key()).is_none());
    assert!(page.is_in_progress(0));
    assert!(!page.is_cancelled(0));
}

#[test]
fn the_batch_completes_once_every_unit_is_complete() {
    let mut page = two_units();
    page.collect(0, Ok(()));
    assert!(page.handle_key(&any_key()).is_none());
    page.collect(1, Ok(()));
    assert!(matches!(
        page.handle_key(&any_key()),
        Some(Action::NextPage(Page::Complete(_)))
    ));
    assert!(matches!(
        page.handle_key(&KeyEvent::new(KeyCode::Null)),
        Some(Action::NextPage(Page::Complete(_)))
    ));
}

#[test]
fn one_failure_stops_the_others_and_opens_the_error_page() {
    let mut page = DownloadPage::new(vec![
        source("https://a/one.iso"),
        source("https://a/two.iso"),
        source("https://a/three.iso"),
    ]);
    page.collect(2, Ok(()));
    page.collect(
        1,
        Err(DownloadError::Filesystem("File exists (os error 17)".to_string())),
    );
    assert_eq!(page.keybinds().len(), 1);
    assert_eq!(page.keybinds()[0].action, "Exit downloads");
    assert!(!page.is_cancelled(0));
    match page.handle_key(&KeyEvent::new(KeyCode::Null)) {
        Some(Action::NextPage(Page::Error(errors))) => {
            assert_eq!(
                errors.draw(),
                vec![
                    "Error:".to_string(),
                    "File exists (os error 17)".to_string(),
                    String::new(),
                    "Press any key to exit.".to_string(),
                ]
            );
        }
        _ => panic!("expected the error page"),
    }
    assert!(page.is_cancelled(0));
    assert!(!page.is_cancelled(1));
    assert!(!page.is_cancelled(2));
    let views = page.draw();
    assert_eq!(views[1].label, "Download Failed: File exists (os error 17)");
    assert_eq!(views[1].color, GaugeColor::Red);
    assert_eq!((views[1].filled, views[1].whole), (1, 1));
}

#[test]
fn every_failure_is_listed_in_the_order_of_the_units() {
    let mut page = two_units();
    page.collect(0, Err(DownloadError::Network("timed out".to_string())));
    page.collect(
        1,
        Err(DownloadError::NonMatchingChecksum("aa".to_string(), "bb".to_string())),
    );
    match page.handle_key(&any_key()) {
        Some(Action::NextPage(page)) => match page.draw(80) {
            PageView::Errors(lines) => assert_eq!(
                lines[1..3],
                [
                    "timed out".to_string(),
                    "Checksum aa does not match expected value bb".to_string()
                ]
            ),
            _ => panic!("expected error lines"),
        },
        _ => panic!("expected the error page"),
    }
}

#[test]
fn a_settled_unit_keeps_its_status() {
    let mut unit = Download::new();
    unit.collect(Ok(()));
    unit.collect(Err(DownloadError::Network("late".to_string())));
    assert!(matches!(unit.status, DownloadStatus::Complete));
    assert_eq!(unit.ratio(), (1, 1));
}

#[test]
fn the_fraction_grows_with_the_counter_and_ends_at_one() {
    let mut page = two_units();
    let mut last = (0u128, 1u128);
    for (current, total) in [(0u64, 0u64), (0, 1000), (10, 1000), (10, 1000), (999, 1000)] {
        page.observe(0, current, total);
        let view = &page.draw()[0];
        let now = (view.filled as u128, view.whole as u128);
        assert!(last.0 * now.1 <= now.0 * last.1);
        last = now;
    }
    page.collect(0, Err(DownloadError::Network("reset".to_string())));
    let view = &page.draw()[0];
    assert_eq!((view.filled, view.whole), (1, 1));
}

#[test]
fn observing_a_unit_that_does_not_exist_changes_nothing() {
    let mut page = two_units();
    page.observe(5, 1, 2);
    page.collect(5, Ok(()));
    assert!(page.is_in_progress(0) && page.is_in_progress(1));
    assert_eq!(page.draw()[0].label, "0.00% (0 bytes/0 bytes)");
}

#[test]
fn percentages_are_rounded_to_two_decimals() {
    assert_eq!(percent_label(400, 1000), "40.00%");
    assert_eq!(percent_label(1, 3), "33.33%");
    assert_eq!(percent_label(2, 3), "66.67%");
    assert_eq!(percent_label(0, 0), "0.00%");
    assert_eq!(percent_label(5, 0), "0.00%");
    assert_eq!(percent_label(1000, 1000), "100.00%");
    assert_eq!(percent_label(1, 20000), "0.01%");
    assert_eq!(percent_label(u64::MAX, 1), "1844674407370955161500.00%");
}

#[test]
fn a_file_is_named_by_its_source_or_by_the_last_path_segment() {
    let mut named = source("https://example.org/dir/file.iso");
    named.file_name = Some("custom.iso".to_string());
    assert_eq!(
        resolve_file_name(&named, "https://mirror.example.org/other.iso"),
        Some("custom.iso".to_string())
    );
    let plain = source("https://example.org/dir/file.iso");
    assert_eq!(
        resolve_file_name(&plain, "https://mirror.example.org/a/b/image.iso?token=1"),
        Some("image.iso".to_string())
    );
    assert_eq!(
        resolve_file_name(&plain, "https://example.org"),
        Some(String::new())
    );
    assert_eq!(resolve_file_name(&plain, "mailto:someone@example.org"), None);
    assert_eq!(resolve_file_name(&plain, "no url at all"), None);
}

#[test]
fn choose_file_name_prefers_the_name_of_the_source() {
    assert_eq!(
        choose_file_name(Some("a".to_string()), Some("b".to_string())),
        Some("a".to_string())
    );
    assert_eq!(choose_file_name(None, Some("b".to_string())), Some("b".to_string()));
    assert_eq!(choose_file_name(Some("a".to_string()), None), Some("a".to_string()));
    assert_eq!(choose_file_name(None, None), None);
}
