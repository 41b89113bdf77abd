use quickosdl::app::{Action, App, Page, PageView};
use quickosdl::arch_selection::ArchSelection;
use quickosdl::catalog::{Arch, Catalog, Config, DiskImages, Source, WebSource, OS};
use quickosdl::complete::CompletePage;
use quickosdl::download::{DownloadError, DownloadPage};
use quickosdl::download_options::{extract_sources, sources_to_urls, DownloadOptions};
use quickosdl::edition_selection::EditionSelection;
use quickosdl::error_display::ErrorDisplay;
use quickosdl::keys::{KeyCode, KeyEvent};
use quickosdl::os_selection::OSSelection;
use quickosdl::release_selection::{configs_of_release, ReleaseSelection};
use quickosdl::url_list::UrlList;

fn press(c: char) -> KeyEvent {
    KeyEvent::new(KeyCode::Char(c))
}

fn enter() -> KeyEvent {
    KeyEvent::new(KeyCode::Enter)
}

fn web(url: &str) -> Source {
    Source::Web(WebSource {
        url: url.to_string(),
        checksum: Some("ab".repeat(32)),
        file_name: None,
    })
}

fn config(release: &str, edition: Option<&str>) -> Config {
    Config {
        arch: Arch::X86_64,
        release: release.to_string(),
        edition: edition.map(|e| e.to_string()),
        disk_images: DiskImages::Unspecified,
        iso: vec![web(&format!("https://example.org/{}.iso", release))],
        img: Vec::new(),
    }
}

fn five_configs() -> Vec<Config> {
    vec![
        config("24.04", Some("desktop")),
        config("24.04", Some("server")),
        config("22.04", None),
        config("24.04", Some("minimal")),
        config("20.04", Some("desktop")),
    ]
}

fn entries(view: PageView) -> Vec<String> {
    match view {
        PageView::List(list) => list.entries.into_iter().map(|e| e.join("\n")).collect(),
        _ => panic!("expected a list"),
    }
}

fn title_text(app: &App) -> String {
    app.title().iter().map(|s| s.content.as_str()).collect()
}

#[test]
fn the_wizard_starts_with_every_architecture() {
    let app = App::new();
    assert_eq!(app.depth(), 1);
    assert_eq!(app.current_page().page_name(), "Arch");
    assert_eq!(
        entries(app.current_page().draw(40)),
        vec!["x86_64".to_string(), "aarch64".to_string(), "riscv64".to_string()]
    );
    assert_eq!(title_text(&app), " QuickOSDL: Start -> Arch ");
}

#[test]
fn selecting_aarch64_opens_a_loading_os_page_that_ignores_j() {
    let mut app = App::new();
    assert!(!app.handle_key(&press('j'), &Catalog::Loading));
    assert!(!app.handle_key(&enter(), &Catalog::Loading));
    assert_eq!(app.depth(), 2);
    match app.current_page() {
        Page::OSSelection(page) => {
            assert_eq!(page.selected_arch(), Arch::AArch64);
            assert!(page.is_loading());
        }
        _ => panic!("expected the choice of an operating system"),
    }
    assert!(!app.handle_key(&press('j'), &Catalog::Loading));
    assert_eq!(app.depth(), 2);
    assert!(matches!(app.current_page().draw(40), PageView::Loading));
    let binds = app.current_page().keybinds();
    assert_eq!(binds.len(), 2);
    assert_eq!(binds[0].keys, vec!["q"]);
    assert_eq!(binds[1].keys, vec!["h"]);
    assert_eq!(title_text(&app), " QuickOSDL: Start -> Arch -> OS ");
}

#[test]
fn back_returns_to_the_previous_page_and_quit_ends_the_program() {
    let mut app = App::new();
    app.handle_key(&enter(), &Catalog::Loading);
    assert_eq!(app.depth(), 2);
    assert!(!app.handle_key(&press('h'), &Catalog::Loading));
    assert_eq!(app.depth(), 1);
    assert_eq!(app.current_page().page_name(), "Arch");
    assert!(!app.handle_key(&press('h'), &Catalog::Loading));
    assert_eq!(app.depth(), 1);
    assert!(app.handle_key(&press('q'), &Catalog::Loading));
}

#[test]
fn popping_the_only_page_changes_nothing() {
    let mut app = App::new();
    app.pop_page();
    assert_eq!(app.depth(), 1);
    app.push_page(Page::Complete(CompletePage::new()));
    assert_eq!(app.depth(), 2);
    assert_eq!(title_text(&app), " QuickOSDL: Start -> Arch -> Complete ");
    app.pop_page();
    assert_eq!(app.depth(), 1);
    assert!(app.page(0).is_some());
    assert!(app.page(1).is_none());
}

#[test]
fn quit_and_back_are_typed_while_searching() {
    let mut page = ArchSelection::new();
    assert!(page.handle_key(&press('/')).is_none());
    assert!(page.handle_key(&press('q')).is_none());
    assert!(page.handle_key(&press('h')).is_none());
    assert_eq!(page.draw(40).search_text, "qh\u{2588}");
    assert_eq!(page.keybinds().len(), 3);
    page.handle_key(&KeyEvent::new(KeyCode::Esc));
    assert!(matches!(page.handle_key(&press('q')), Some(Action::Exit)));
    assert_eq!(page.keybinds().len(), 5);
}

#[test]
fn a_failed_catalog_opens_the_error_page_with_its_message() {
    let mut page = OSSelection::new(Arch::X86_64);
    let catalog = Catalog::Failed("could not reach the catalog".to_string());
    match page.handle_key(&press('j'), &catalog) {
        Some(Action::NextPage(Page::Error(errors))) => {
            assert_eq!(errors.draw()[1], "could not reach the catalog");
        }
        _ => panic!("expected the error page"),
    }
    assert!(page.is_loading());
}

#[test]
fn a_loading_os_page_reacts_to_back_and_quit_only() {
    let mut page = OSSelection::new(Arch::X86_64);
    assert!(page.handle_key(&enter(), &Catalog::Loading).is_none());
    assert!(matches!(
        page.handle_key(&press('h'), &Catalog::Loading),
        Some(Action::PrevPage)
    ));
    assert!(matches!(
        page.handle_key(&press('q'), &Catalog::Loading),
        Some(Action::Exit)
    ));
    assert!(page.draw(40).is_none());
}

#[test]
fn the_catalog_is_narrowed_to_the_architecture_on_arrival() {
    let mut other_arch = config("1", None);
    other_arch.arch = Arch::Riscv64;
    let mut custom_disk = config("2", None);
    custom_disk.disk_images = DiskImages::Custom;
    let mut local_source = config("3", None);
    local_source.img = vec![Source::Other];
    let mut default_disk = config("4", None);
    default_disk.disk_images = DiskImages::SingleDefault;
    let catalog = Catalog::Ready(vec![
        OS {
            name: "alpha".to_string(),
            pretty_name: "Alpha".to_string(),
            description: None,
            releases: vec![other_arch, custom_disk, local_source],
        },
        OS {
            name: "beta".to_string(),
            pretty_name: "Beta".to_string(),
            description: None,
            releases: vec![config("1", None), default_disk, config("5", None)],
        },
        OS {
            name: "gamma".to_string(),
            pretty_name: "Gamma".to_string(),
            description: None,
            releases: Vec::new(),
        },
    ]);
    let mut page = OSSelection::new(Arch::X86_64);
    assert!(page.handle_key(&enter(), &catalog).is_none());
    assert!(!page.is_loading());
    let view = page.draw(40).unwrap();
    assert_eq!(view.entries, vec![vec!["Beta".to_string()]]);
    assert_eq!(page.keybinds().len(), 6);
    match page.handle_key(&enter(), &catalog) {
        Some(Action::NextPage(Page::ReleaseSelection(releases))) => {
            assert_eq!(
                releases.draw(40).entries,
                vec![
                    vec!["1".to_string()],
                    vec!["4".to_string()],
                    vec!["5".to_string()]
                ]
            );
        }
        _ => panic!("expected the choice of a release"),
    }
}

#[test]
fn os_items_are_filtered_by_name_not_by_pretty_name() {
    let catalog = Catalog::Ready(vec![OS {
        name: "popos".to_string(),
        pretty_name: "Pop!_OS".to_string(),
        description: None,
        releases: vec![config("1", None)],
    }]);
    let mut page = OSSelection::new(Arch::X86_64);
    page.handle_key(&KeyEvent::new(KeyCode::Null), &catalog);
    page.handle_key(&press('/'), &catalog);
    page.handle_key(&press('!'), &catalog);
    assert_eq!(
        page.draw(40).unwrap().entries,
        vec![vec!["Nothing to see here".to_string()]]
    );
    page.handle_key(&KeyEvent::new(KeyCode::Backspace), &catalog);
    page.handle_key(&press('P'), &catalog);
    page.handle_key(&press('O'), &catalog);
    page.handle_key(&press('P'), &catalog);
    page.handle_key(&press('O'), &catalog);
    assert_eq!(page.draw(40).unwrap().entries, vec![vec!["Pop!_OS".to_string()]]);
}

#[test]
fn release_labels_are_distinct_in_first_seen_order() {
    let page = ReleaseSelection::new(five_configs());
    assert_eq!(
        page.draw(40).entries,
        vec![
            vec!["24.04".to_string()],
            vec!["22.04".to_string()],
            vec!["20.04".to_string()]
        ]
    );
    assert_eq!(page.keybinds().len(), 6);
}

#[test]
fn a_release_with_one_configuration_skips_the_edition_page() {
    let mut page = ReleaseSelection::new(five_configs());
    page.handle_key(&press('j'));
    match page.handle_key(&enter()) {
        Some(Action::NextPage(Page::DownloadOptions(options))) => {
            assert_eq!(
                options.draw(40).entries,
                vec![vec!["Download now".to_string()], vec!["List URLs".to_string()]]
            );
        }
        _ => panic!("expected the download options"),
    }
}

#[test]
fn a_release_with_several_configurations_opens_the_edition_page() {
    let mut page = ReleaseSelection::new(five_configs());
    match page.handle_key(&enter()) {
        Some(Action::NextPage(Page::EditionSelection(editions))) => {
            assert_eq!(
                editions.draw(40).entries,
                vec![
                    vec!["desktop".to_string()],
                    vec!["server".to_string()],
                    vec!["minimal".to_string()]
                ]
            );
        }
        _ => panic!("expected the choice of an edition"),
    }
}

#[test]
fn configs_of_release_keeps_the_matching_ones_in_order() {
    let configs = five_configs();
    let remaining = configs_of_release(&configs, &"24.04".to_string());
    let editions: Vec<Option<String>> = remaining.into_iter().map(|c| c.edition).collect();
    assert_eq!(
        editions,
        vec![
            Some("desktop".to_string()),
            Some("server".to_string()),
            Some("minimal".to_string())
        ]
    );
    assert!(configs_of_release(&configs, &"1.0".to_string()).is_empty());
}

#[test]
fn an_edition_without_a_label_is_shown_as_none() {
    let mut page = EditionSelection::new(vec![config("1", None), config("1", Some("kde"))]);
    assert_eq!(
        page.draw(40).entries,
        vec![vec!["None".to_string()], vec!["kde".to_string()]]
    );
    page.handle_key(&press('j'));
    assert!(matches!(
        page.handle_key(&enter()),
        Some(Action::NextPage(Page::DownloadOptions(_)))
    ));
    assert!(matches!(page.handle_key(&press('h')), Some(Action::PrevPage)));
}

#[test]
fn only_network_sources_are_extracted_iso_first() {
    let mut chosen = config("1", None);
    chosen.iso = vec![Source::Other, web("https://example.org/a.iso")];
    chosen.img = vec![web("https://example.org/b.img"), Source::Other];
    let sources = extract_sources(&chosen);
    assert_eq!(sources.len(), 2);
    assert_eq!(sources[0].checksum, Some("ab".repeat(32)));
    assert_eq!(
        sources_to_urls(sources),
        vec![
            "https://example.org/a.iso".to_string(),
            "https://example.org/b.img".to_string()
        ]
    );
}

#[test]
fn download_now_opens_the_batch_and_list_urls_the_listing() {
    let mut chosen = config("1", None);
    chosen.img = vec![web("https://example.org/b.img")];
    let mut page = DownloadOptions::new(chosen);
    match page.handle_key(&enter()) {
        Some(Action::NextPage(Page::Download(batch))) => {
            assert_eq!(batch.len(), 2);
            assert_eq!(batch.source(0).unwrap().url, "https://example.org/1.iso");
            assert_eq!(batch.source(1).unwrap().url, "https://example.org/b.img");
        }
        _ => panic!("expected the download page"),
    }
    page.handle_key(&press('j'));
    match page.handle_key(&press('l')) {
        Some(Action::NextPage(Page::UrlList(urls))) => {
            assert_eq!(
                urls.draw(80).entries,
                vec![
                    vec!["https://example.org/1.iso".to_string()],
                    vec!["https://example.org/b.img".to_string()]
                ]
            );
        }
        _ => panic!("expected the list of URLs"),
    }
}

#[test]
fn the_url_list_is_a_dead_end() {
    let mut page = UrlList::new(vec!["https://example.org/a.iso".to_string()]);
    assert!(page.handle_key(&enter()).is_none());
    assert!(page.handle_key(&press('l')).is_none());
    assert!(matches!(page.handle_key(&press('h')), Some(Action::PrevPage)));
    assert!(matches!(page.handle_key(&press('q')), Some(Action::Exit)));
    assert_eq!(page.keybinds().len(), 6);
}

#[test]
fn the_final_pages_end_the_program_on_any_key_but_the_tick() {
    let mut complete = CompletePage::new();
    assert!(complete.handle_key(&KeyEvent::new(KeyCode::Null)).is_none());
    assert!(matches!(complete.handle_key(&press(' ')), Some(Action::Exit)));
    assert_eq!(complete.draw(), "Complete! Press any key to exit.");
    assert_eq!(complete.keybinds()[0].keys, vec!["Any key"]);
    assert_eq!(complete.keybinds()[0].action, "Exit");
    let mut error = ErrorDisplay::new(vec!["boom".to_string()]);
    assert!(error.handle_key(&KeyEvent::new(KeyCode::Null)).is_none());
    assert!(matches!(error.handle_key(&enter()), Some(Action::Exit)));
    assert_eq!(error.keybinds().len(), 1);
}

#[test]
fn the_whole_path_leads_from_architecture_to_download() {
    let catalog = Catalog::Ready(vec![OS {
        name: "ubuntu".to_string(),
        pretty_name: "Ubuntu".to_string(),
        description: Some("A popular distribution.".to_string()),
        releases: five_configs(),
    }]);
    let mut app = App::new();
    app.handle_key(&enter(), &catalog);
    app.handle_key(&KeyEvent::new(KeyCode::Null), &catalog);
    app.handle_key(&enter(), &catalog);
    assert_eq!(app.current_page().page_name(), "Release");
    app.handle_key(&enter(), &catalog);
    assert_eq!(app.current_page().page_name(), "Edition");
    app.handle_key(&press('j'), &catalog);
    app.handle_key(&enter(), &catalog);
    assert_eq!(app.current_page().page_name(), "Download Options");
    app.handle_key(&enter(), &catalog);
    assert_eq!(app.current_page().page_name(), "Download");
    assert_eq!(
        title_text(&app),
        " QuickOSDL: Start -> Arch -> OS -> Release -> Edition -> Download Options -> Download "
    );
    let screen = app.draw(120);
    assert!(matches!(screen.page, PageView::Gauges(_)));
    assert_eq!(screen.footer.length(), 0);
    assert!(!app.handle_key(&KeyEvent::new(KeyCode::Null), &catalog));
    assert_eq!(app.depth(), 6);
    app.observe_download(0, 10, 10);
    app.collect_download(0, Ok(()));
    assert!(!app.handle_key(&KeyEvent::new(KeyCode::Null), &catalog));
    assert_eq!(app.current_page().page_name(), "Complete");
    assert!(!app.handle_key(&KeyEvent::new(KeyCode::Null), &catalog));
    assert!(app.handle_key(&press('x'), &catalog));
}

#[test]
fn the_screen_holds_title_page_and_footer() {
    let app = App::new();
    let screen = app.draw(200);
    assert_eq!(screen.title.len(), 5);
    assert!(screen.title[1].bold);
    assert_eq!(screen.title[1].content, "QuickOSDL");
    assert!(matches!(screen.page, PageView::List(_)));
    assert_eq!(screen.footer.length(), 6);
}

#[test]
fn the_app_passes_counters_and_results_to_the_batch_on_top() {
    let mut app = App::new();
    app.observe_download(0, 1, 2);
    app.collect_download(0, Ok(()));
    assert_eq!(app.current_page().page_name(), "Arch");
    let batch = DownloadPage::new(vec![WebSource {
        url: "https://example.org/a.iso".to_string(),
        checksum: None,
        file_name: None,
    }]);
    app.push_page(Page::Download(batch));
    app.observe_download(0, 512, 1024);
    match app.current_page().draw(80) {
        PageView::Gauges(views) => {
            assert_eq!((views[0].filled, views[0].whole), (512, 1024));
            assert_eq!(views[0].label, "50.00% (512 bytes/1.00 KiB)");
        }
        _ => panic!("expected gauges"),
    }
    app.collect_download(0, Err(DownloadError::Network("refused".to_string())));
    assert!(!app.handle_key(&KeyEvent::new(KeyCode::Null), &Catalog::Loading));
    assert_eq!(app.depth(), 3);
    assert_eq!(app.current_page().page_name(), "Error");
    assert!(app.handle_key(&press('x'), &Catalog::Loading));
}
