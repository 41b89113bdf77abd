use quickosdl::catalog::{Arch, Config, DiskImages, Source, WebSource, OS};
use quickosdl::os_selection::offered_list;
use quickosdl::searchable_list::SearchableItem;

fn os(description: Option<&str>) -> OS {
    OS {
        name: "debian".to_string(),
        pretty_name: "Debian".to_string(),
        description: description.map(|d| d.to_string()),
        releases: Vec::new(),
    }
}

fn release(arch: Arch, label: &str) -> Config {
    Config {
        arch,
        release: label.to_string(),
        edition: None,
        disk_images: DiskImages::Unspecified,
        iso: vec![Source::Web(WebSource {
            url: "https://example.org/x.iso".to_string(),
            checksum: None,
            file_name: None,
        })],
        img: Vec::new(),
    }
}

#[test]
fn an_os_without_description_is_one_row() {
    assert_eq!(os(None).to_list_item(20), vec!["Debian".to_string()]);
    assert_eq!(os(None).to_filter(), "debian");
}

#[test]
fn a_short_description_is_one_indented_row_without_its_last_character() {
    assert_eq!(
        os(Some("A universal system.")).to_list_item(40),
        vec!["Debian".to_string(), "   A universal system".to_string()]
    );
}

#[test]
fn a_long_description_is_wrapped_at_spaces() {
    let rows = os(Some("The universal operating system for everyone.")).to_list_item(20);
    assert_eq!(
        rows,
        vec![
            "Debian".to_string(),
            "   The universal".to_string(),
            "   operating system".to_string(),
            "   for everyone".to_string(),
        ]
    );
}

#[test]
fn a_description_without_spaces_is_not_wrapped() {
    let rows = os(Some("abcdefghijklmnopqrstuvwxyz")).to_list_item(10);
    assert_eq!(
        rows,
        vec!["Debian".to_string(), "   abcdefghijklmnopqrstuvwxy".to_string()]
    );
}

#[test]
fn a_narrow_width_does_not_break_wrapping() {
    let rows = os(Some("ab cd")).to_list_item(2);
    assert_eq!(rows, vec!["Debian".to_string(), "   ab c".to_string()]);
    let rows = os(Some("ab cd")).to_list_item(0);
    assert_eq!(rows, vec!["Debian".to_string(), "   ab c".to_string()]);
}

#[test]
fn a_description_is_measured_in_characters() {
    let rows = os(Some("caf\u{e9} na\u{ef}ve \u{fc}ber alles gut.")).to_list_item(12);
    assert_eq!(
        rows,
        vec![
            "Debian".to_string(),
            "   caf\u{e9}".to_string(),
            "   na\u{ef}ve".to_string(),
            "   \u{fc}ber".to_string(),
            "   alles gut".to_string(),
        ]
    );
}

#[test]
fn offered_list_drops_systems_left_without_a_release() {
    let mut first = os(None);
    first.releases = vec![release(Arch::AArch64, "12"), release(Arch::X86_64, "11")];
    let mut second = os(None);
    second.name = "other".to_string();
    second.releases = vec![release(Arch::X86_64, "1")];
    let list = offered_list(&vec![first, second], &Arch::AArch64);
    assert_eq!(list.len(), 1);
    assert_eq!(list[0].name, "debian");
    assert_eq!(list[0].releases.len(), 1);
    assert_eq!(list[0].releases[0].release, "12");
}

#[test]
fn architectures_are_named_in_lower_case() {
    let names: Vec<String> = Arch::all().iter().map(|a| a.to_string()).collect();
    assert_eq!(names, vec!["x86_64", "aarch64", "riscv64"]);
}
