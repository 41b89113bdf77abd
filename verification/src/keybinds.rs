//! Key bindings and the footer that lists them.

use vstd::prelude::*;

verus! {

/// One entry of the footer: the keys and what they do.
pub struct KeyBind {
    pub keys: Vec<&'static str>,
    pub action: &'static str,
}

impl KeyBind {
    pub fn new(keys: Vec<&'static str>, action: &'static str) -> (bind: Self)
        ensures
            bind.keys == keys,
            bind.action == action,
    {
        KeyBind { keys, action }
    }

    pub fn single_key(key: &'static str, action: &'static str) -> (bind: Self)
        ensures
            bind.keys@ == seq![key],
            bind.action == action,
    {
        let mut keys: Vec<&'static str> = Vec::new();
        keys.push(key);
        KeyBind { keys, action }
    }

    /// The bytes that the first `n` keys take, each key but the last of the
    /// entry followed by a separator of three.
    pub open spec fn keys_width(&self, n: nat) -> nat
        decreases n,
    {
        if n == 0 {
            0
        } else {
            self.keys_width((n - 1) as nat) + self.keys@[n - 1].len() as nat + if n
                < self.keys@.len() {
                3nat
            } else {
                0nat
            }
        }
    }

    /// The columns that the entry takes, counted in bytes, in the 16 bits of
    /// a terminal width.
    pub open spec fn width(&self) -> u16 {
        ((4 + self.keys_width(self.keys@.len()) + self.action.len() as nat) % 65536) as u16
    }

    /// The spans of the first `n` keys: each key in bold, each but the last
    /// of the entry followed by a separator.
    pub open spec fn key_spans(&self, n: nat) -> Seq<Span>
        decreases n,
    {
        if n == 0 {
            Seq::empty()
        } else {
            let before = self.key_spans((n - 1) as nat).push(Span::bold(self.keys@[n - 1]));
            if n < self.keys@.len() {
                before.push(Span::raw(" / "))
            } else {
                before
            }
        }
    }

    /// The entry as spans: the keys in brackets, then the action.
    pub open spec fn spans(&self) -> Seq<Span> {
        seq![Span::raw("[")] + self.key_spans(self.keys@.len()) + seq![
            Span::raw("]: "),
            Span::bold(self.action),
        ]
    }
}

/// What an entry says: its keys and its action.
pub open spec fn bind_view(bind: KeyBind) -> (Seq<&'static str>, &'static str) {
    (bind.keys@, bind.action)
}

/// What a sequence of entries says, in order.
pub open spec fn bind_views(binds: Seq<KeyBind>) -> Seq<(Seq<&'static str>, &'static str)> {
    binds.map_values(|b: KeyBind| bind_view(b))
}

/// An entry with two keys.
pub fn two_keys(first: &'static str, second: &'static str, action: &'static str) -> (bind: KeyBind)
    ensures
        bind_view(bind) == (seq![first, second], action),
{
    let mut keys: Vec<&'static str> = Vec::new();
    keys.push(first);
    keys.push(second);
    KeyBind { keys, action }
}

/// An entry with three keys.
pub fn three_keys(
    first: &'static str,
    second: &'static str,
    third: &'static str,
    action: &'static str,
) -> (bind: KeyBind)
    ensures
        bind_view(bind) == (seq![first, second, third], action),
{
    let mut keys: Vec<&'static str> = Vec::new();
    keys.push(first);
    keys.push(second);
    keys.push(third);
    KeyBind { keys, action }
}

/// A run of text in one style.
#[derive(Clone, Copy, Debug)]
pub struct Span {
    pub content: &'static str,
    pub bold: bool,
}

impl Span {
    /// Plain text.
    pub open spec fn raw(content: &'static str) -> Span {
        Span { content, bold: false }
    }

    /// Bold text.
    pub open spec fn bold(content: &'static str) -> Span {
        Span { content, bold: true }
    }
}

/// The spans of a key binding and the columns that they take.
pub fn render_keybind(keybind: &KeyBind) -> (rendered: (Vec<Span>, u16))
    ensures
        rendered.0@ == keybind.spans(),
        rendered.1 == keybind.width(),
{
    let mut length: u32 = 4;
    let mut spans: Vec<Span> = Vec::new();
    spans.push(Span { content: "[", bold: false });
    let count: usize = keybind.keys.len();
    let mut i: usize = 0;
    while i < count
        invariant
            i <= count,
            count == keybind.keys@.len(),
            length < 65536,
            length == (4 + keybind.keys_width(i as nat)) % 65536,
            spans@ == seq![Span::raw("[")] + keybind.key_spans(i as nat),
        decreases count - i,
    {
        let key: &'static str = keybind.keys[i];
        let ghost wide = keybind.keys_width(i as nat);
        let ghost long = key.len() as nat;
        let key_len: usize = key.len();
        length = (length + (key_len % 65536) as u32) % 65536;
        assert(length == (4 + wide + long) % 65536);
        spans.push(Span { content: key, bold: true });
        if i + 1 < count {
            length = (length + 3) % 65536;
            spans.push(Span { content: " / ", bold: false });
            assert(length == (4 + wide + long + 3) % 65536);
        }
        i += 1;
        assert(keybind.keys_width(i as nat) == wide + long + if i < count {
            3nat
        } else {
            0nat
        });
        assert(spans@ =~= seq![Span::raw("[")] + keybind.key_spans(i as nat));
    }
    spans.push(Span { content: "]: ", bold: false });
    spans.push(Span { content: keybind.action, bold: true });
    let ghost wide = keybind.keys_width(count as nat);
    let action_len: usize = keybind.action.len();
    length = (length + (action_len % 65536) as u32) % 65536;
    assert(length == (4 + wide + keybind.action.len() as nat) % 65536);
    assert(spans@ =~= keybind.spans());
    (spans, length as u16)
}

/// The lines laid out so far and the line that is being filled.
pub struct Layout {
    pub lines: Seq<Seq<Span>>,
    pub line: Seq<Span>,
}

/// The layout after one more key binding is placed in a footer of `width`
/// columns. A binding wider than the footer gets a line of its own at once.
/// The first binding, if it fits with a column to spare on either side, is
/// set off by a line of one space. Any other binding closes the line that was
/// being filled and starts the next.
pub open spec fn placed(layout: Layout, bind: KeyBind, width: u16) -> Layout {
    if bind.width() > width {
        Layout { lines: layout.lines.push(bind.spans()), line: layout.line }
    } else if layout.lines.len() == 0 && 1 + bind.width() < width {
        Layout {
            lines: layout.lines.push(seq![Span::raw(" ")]),
            line: layout.line + bind.spans(),
        }
    } else {
        Layout { lines: layout.lines.push(layout.line), line: bind.spans() }
    }
}

/// The layout after the first `n` key bindings are placed.
pub open spec fn laid_out(binds: Seq<KeyBind>, width: u16, n: nat) -> Layout
    decreases n,
{
    if n == 0 {
        Layout { lines: Seq::empty(), line: Seq::empty() }
    } else {
        placed(laid_out(binds, width, (n - 1) as nat), binds[n - 1], width)
    }
}

/// The lines of the footer for `binds` in `width` columns: the lines laid
/// out, then the line that was being filled, unless it is empty.
pub open spec fn footer_lines(binds: Seq<KeyBind>, width: u16) -> Seq<Seq<Span>> {
    let layout = laid_out(binds, width, binds.len());
    if layout.line.len() > 0 {
        layout.lines.push(layout.line)
    } else {
        layout.lines
    }
}

/// The views of a sequence of lines, in order.
pub open spec fn lines_view(lines: Seq<Vec<Span>>) -> Seq<Seq<Span>> {
    lines.map_values(|l: Vec<Span>| l@)
}

/// The footer: the key bindings of a page, laid out in lines.
pub struct FinishedKeybinds {
    lines: Vec<Vec<Span>>,
}

impl FinishedKeybinds {
    /// The lines of the footer.
    pub closed spec fn lines(&self) -> Seq<Seq<Span>> {
        lines_view(self.lines@)
    }

    pub fn new(keybinds: Vec<KeyBind>, width: u16) -> (footer: Self)
        ensures
            footer.lines() == footer_lines(keybinds@, width),
    {
        let mut line: Vec<Span> = Vec::new();
        let mut lines: Vec<Vec<Span>> = Vec::new();
        let mut i: usize = 0;
        while i < keybinds.len()
            invariant
                i <= keybinds@.len(),
                lines_view(lines@) == laid_out(keybinds@, width, i as nat).lines,
                line@ == laid_out(keybinds@, width, i as nat).line,
            decreases keybinds@.len() - i,
        {
            let ghost before = lines@;
            let (mut bind, length) = render_keybind(&keybinds[i]);
            if length > width {
                lines.push(bind);
                assert(lines_view(lines@) =~= lines_view(before).push(keybinds@[i as int].spans()));
            } else if lines.len() == 0 && (length as u32) + 1 < width as u32 {
                let mut gap: Vec<Span> = Vec::new();
                gap.push(Span { content: " ", bold: false });
                lines.push(gap);
                line.append(&mut bind);
                assert(lines_view(lines@) =~= lines_view(before).push(seq![Span::raw(" ")]));
            } else {
                let ghost filled = line@;
                lines.push(line);
                line = bind;
                assert(lines_view(lines@) =~= lines_view(before).push(filled));
            }
            i += 1;
        }
        if line.len() > 0 {
            let ghost before = lines@;
            let ghost filled = line@;
            lines.push(line);
            assert(lines_view(lines@) =~= lines_view(before).push(filled));
        }
        FinishedKeybinds { lines }
    }

    /// The number of lines, in the 16 bits of a terminal height.
    pub fn length(&self) -> (rows: u16)
        ensures
            rows == self.lines().len() % 65536,
    {
        (self.lines.len() % 65536) as u16
    }

    /// The lines to paint, top to bottom.
    pub fn draw(self) -> (lines: Vec<Vec<Span>>)
        ensures
            lines_view(lines@) == self.lines(),
    {
        self.lines
    }
}

} // verus!
