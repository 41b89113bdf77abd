use quickosdl::keybinds::{render_keybind, FinishedKeybinds, KeyBind};

#[test]
fn single_key_holds_one_key() {
    let bind = KeyBind::single_key("q", "Exit");
    assert_eq!(bind.keys, vec!["q"]);
    assert_eq!(bind.action, "Exit");
}

#[test]
fn rendered_width_counts_brackets_separators_and_action() {
    let bind = KeyBind::new(vec!["j", "Down"], "Select next item");
    let (spans, width) = render_keybind(&bind);
    let text: String = spans.iter().map(|s| s.content).collect();
    assert_eq!(text, "[j / Down]: Select next item");
    assert_eq!(width as usize, text.len());
    assert!(spans[1].bold);
    assert!(!spans[2].bold);
}

#[test]
fn footer_sets_first_binding_off_and_gives_each_a_line() {
    let binds = vec![
        KeyBind::single_key("q", "Exit"),
        KeyBind::single_key("h", "Previous page"),
    ];
    let footer = FinishedKeybinds::new(binds, 80);
    assert_eq!(footer.length(), 3);
    let lines = footer.draw();
    let texts: Vec<String> = lines
        .iter()
        .map(|l| l.iter().map(|s| s.content).collect())
        .collect();
    assert_eq!(texts, vec![" ", "[q]: Exit", "[h]: Previous page"]);
}

#[test]
fn footer_gives_a_binding_wider_than_the_frame_its_own_line() {
    let binds = vec![KeyBind::single_key("Backspace", "Remove last character")];
    let footer = FinishedKeybinds::new(binds, 10);
    assert_eq!(footer.length(), 1);
}
