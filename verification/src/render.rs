use crate::types::FileItem;
use vstd::prelude::*;
use vstd::string::StringExecFns;

verus! {

/// A button under a message: what it shows, and what the transport sends
/// back when it is pressed.
#[derive(Debug, Clone)]
pub struct Button {
    pub text: String,
    pub callback_data: String,
}

/// A button as text.
pub struct ButtonText {
    pub text: Seq<char>,
    pub callback_data: Seq<char>,
}

impl View for Button {
    type V = ButtonText;

    open spec fn view(&self) -> ButtonText {
        ButtonText { text: self.text@, callback_data: self.callback_data@ }
    }
}

/// A message for the user: its text, and the rows of buttons under it.
#[derive(Debug, Clone)]
pub struct Message {
    pub text: String,
    pub keyboard: Vec<Vec<Button>>,
}

/// The sign that stands before the name of an entry.
pub open spec fn icon(is_directory: bool) -> Seq<char> {
    if is_directory {
        "\u{1f4c1}"@
    } else {
        "\u{1f4c4}"@
    }
}

/// The sign and the name of an entry.
pub open spec fn item_label(item: FileItem) -> Seq<char> {
    icon(item.is_directory) + " "@ + item.name@
}

/// The line of the listing for one entry.
pub open spec fn item_line(item: FileItem) -> Seq<char> {
    item_label(item) + "\n"@
}

/// The button for one entry: pressing it enters a directory or downloads a
/// file.
pub open spec fn item_button(item: FileItem) -> ButtonText {
    ButtonText {
        text: item_label(item),
        callback_data: if item.is_directory {
            "/cd "@ + item.name@
        } else {
            "/download "@ + item.name@
        },
    }
}

/// The button that leads to the parent directory.
pub open spec fn up_button() -> ButtonText {
    ButtonText { text: "\u{2b06}\u{fe0f} .."@, callback_data: "/cd .."@ }
}

/// The text of a listing: one line for each entry, in their order.
pub open spec fn listing_text(items: Seq<FileItem>) -> Seq<char>
    decreases items.len(),
{
    if items.len() == 0 {
        Seq::empty()
    } else {
        listing_text(items.drop_last()) + item_line(items.last())
    }
}

/// The buttons of the first `count` entries, two to a row; the last row
/// holds one where `count` is odd.
pub open spec fn button_rows(items: Seq<FileItem>, count: int) -> Seq<Seq<ButtonText>> {
    Seq::new(
        ((count + 1) / 2) as nat,
        |row: int|
            Seq::new(
                (if 2 * row + 2 <= count {
                    2int
                } else {
                    1int
                }) as nat,
                |column: int| item_button(items[2 * row + column]),
            ),
    )
}

/// The rows of buttons under a listing: the buttons of the entries, two to a
/// row, and under them the way up where there is one.
pub open spec fn listing_keyboard(items: Seq<FileItem>, has_parent: bool) -> Seq<Seq<ButtonText>> {
    if has_parent {
        button_rows(items, items.len() as int).push(seq![up_button()])
    } else {
        button_rows(items, items.len() as int)
    }
}

/// A row of buttons as text.
pub open spec fn row_view(row: Seq<Button>) -> Seq<ButtonText> {
    Seq::new(row.len(), |column: int| row[column]@)
}

/// Rows of buttons as text.
pub open spec fn keyboard_view(rows: Seq<Vec<Button>>) -> Seq<Seq<ButtonText>> {
    Seq::new(rows.len(), |row: int| row_view(rows[row]@))
}

/// The text shown for a directory without entries.
pub open spec fn empty_directory_text() -> Seq<char> {
    "\u{1f4c1} Directory is empty"@
}

/// The button for one entry.
pub fn button_for(item: &FileItem) -> (button: Button)
    ensures
        button@ == item_button(*item),
{
    if item.is_directory {
        Button {
            text: String::from_str("\u{1f4c1}").concat(" ").concat(item.name.as_str()),
            callback_data: String::from_str("/cd ").concat(item.name.as_str()),
        }
    } else {
        Button {
            text: String::from_str("\u{1f4c4}").concat(" ").concat(item.name.as_str()),
            callback_data: String::from_str("/download ").concat(item.name.as_str()),
        }
    }
}

/// The line of the listing for one entry.
pub fn line_for(item: &FileItem) -> (line: String)
    ensures
        line@ == item_line(*item),
{
    let sign = if item.is_directory {
        "\u{1f4c1}"
    } else {
        "\u{1f4c4}"
    };
    String::from_str(sign).concat(" ").concat(item.name.as_str()).concat("\n")
}

/// The buttons of the entries from `first` on, `width` of them, as one row.
pub open spec fn button_row(items: Seq<FileItem>, first: int, width: int) -> Seq<ButtonText> {
    Seq::new(width as nat, |column: int| item_button(items[first + column]))
}

/// Rows of buttons with one more row under them are, as text, the rows as
/// text with that row as text under them.
proof fn lemma_keyboard_with_row(before: Seq<Vec<Button>>, row: Vec<Button>)
    ensures
        keyboard_view(before.push(row)) == keyboard_view(before).push(row_view(row@)),
{
    let after = before.push(row);
    assert forall|r: int| 0 <= r < after.len() implies keyboard_view(after)[r] == keyboard_view(
        before,
    ).push(row_view(row@))[r] by {
        if r < before.len() {
            assert(after[r] == before[r]);
        }
    }
    assert(keyboard_view(after) =~= keyboard_view(before).push(row_view(row@)));
}

/// The rows of the first `count` entries are the full rows of the first
/// `full` of them with one more row under them, of the one or two entries
/// that follow.
proof fn lemma_button_rows_grow(items: Seq<FileItem>, full: int, count: int)
    requires
        0 <= full,
        full % 2 == 0,
        full < count <= full + 2,
    ensures
        button_rows(items, count) == button_rows(items, full).push(
            button_row(items, full, count - full),
        ),
{
    let grown = button_rows(items, full).push(button_row(items, full, count - full));
    assert(button_rows(items, count).len() == grown.len());
    assert forall|r: int| 0 <= r < grown.len() implies button_rows(items, count)[r] =~= grown[r] by {
        if r < full / 2 {
            assert(button_rows(items, full)[r] =~= button_rows(items, count)[r]);
        }
    }
    assert(button_rows(items, count) =~~= grown);
}

/// Presents a listing: a text with one line for each entry, and under it a
/// button for each entry, two to a row, then the way up where `has_parent`
/// says there is one. A directory without entries is presented by a text
/// alone.
pub fn render_listing(items: &Vec<FileItem>, has_parent: bool) -> (message: Message)
    ensures
        items@.len() == 0 ==> message.text@ == empty_directory_text() && message.keyboard@.len()
            == 0,
        items@.len() > 0 ==> message.text@ == listing_text(items@) && keyboard_view(
            message.keyboard@,
        ) == listing_keyboard(items@, has_parent),
{
    if items.len() == 0 {
        return Message {
            text: String::from_str("\u{1f4c1} Directory is empty"),
            keyboard: Vec::new(),
        };
    }
    let mut response = String::new();
    let mut keyboard: Vec<Vec<Button>> = Vec::new();
    let mut current_row: Vec<Button> = Vec::new();
    let mut at: usize = 0;
    assert(items@.take(0) =~= Seq::<FileItem>::empty());
    assert(keyboard_view(keyboard@) =~~= button_rows(items@, 0));
    while at < items.len()
        invariant
            at <= items.len(),
            response@ == listing_text(items@.take(at as int)),
            current_row.len() == at % 2,
            keyboard_view(keyboard@) == button_rows(items@, at - at % 2),
            row_view(current_row@) == button_row(items@, at - at % 2, (at % 2) as int),
        decreases items.len() - at,
    {
        let item = &items[at];
        let line = line_for(item);
        response.append(line.as_str());
        proof {
            let taken = items@.take(at + 1);
            assert(taken.drop_last() =~= items@.take(at as int));
            assert(taken.last() == items@[at as int]);
        }
        let ghost held = current_row@;
        current_row.push(button_for(item));
        assert(row_view(current_row@) =~= button_row(
            items@,
            at - at % 2,
            at % 2 + 1,
        )) by {
            assert forall|column: int| 0 <= column < current_row@.len() implies row_view(
                current_row@,
            )[column] == button_row(items@, at - at % 2, at % 2 + 1)[column] by {
                if column < held.len() {
                    assert(row_view(held)[column] == button_row(
                        items@,
                        at - at % 2,
                        (at % 2) as int,
                    )[column]);
                }
            }
        }
        if current_row.len() == 2 {
            proof {
                lemma_keyboard_with_row(keyboard@, current_row);
                lemma_button_rows_grow(items@, at - 1, at + 1);
            }
            keyboard.push(current_row);
            current_row = Vec::new();
            assert(row_view(current_row@) =~= button_row(items@, at + 1, 0));
        }
        at += 1;
    }
    if current_row.len() > 0 {
        proof {
            lemma_keyboard_with_row(keyboard@, current_row);
            lemma_button_rows_grow(items@, at - 1, at as int);
        }
        keyboard.push(current_row);
    }
    assert(items@.take(at as int) =~= items@);
    if has_parent {
        let mut row: Vec<Button> = Vec::new();
        row.push(
            Button {
                text: String::from_str("\u{2b06}\u{fe0f} .."),
                callback_data: String::from_str("/cd .."),
            },
        );
        proof {
            lemma_keyboard_with_row(keyboard@, row);
            assert(row_view(row@) =~= seq![up_button()]);
        }
        keyboard.push(row);
    }
    Message { text: response, keyboard }
}

/// What came of running a command: it ran and ended well or badly, with
/// what it printed, or it could not be run at all.
#[derive(Debug)]
pub enum Execution {
    Finished { success: bool, stdout: Vec<u8>, stderr: Vec<u8> },
    Failed(String),
}

/// A text for the user, and whether it is to be read as markup.
#[derive(Debug, Clone)]
pub struct Formatted {
    pub text: String,
    pub markdown: bool,
}

/// What `String::from_utf8_lossy` gives for the bytes: their text, with a
/// replacement character wherever they are not valid UTF-8.
pub uninterp spec fn lossy_text(bytes: Seq<u8>) -> Seq<char>;

/// The text of bytes that a command printed. Calls `String::from_utf8_lossy`,
/// whose result is a function of the bytes alone.
#[verifier::external_body]
fn decode_lossy(bytes: &Vec<u8>) -> (text: String)
    ensures
        text@ == lossy_text(bytes@),
{
    String::from_utf8_lossy(bytes).into_owned()
}

/// What the user is told of a command that was run: what it printed on
/// standard output where it ended well, what it printed on standard error
/// where it did not, and the reason where it could not be run.
pub open spec fn execution_text(execution: Execution) -> Seq<char> {
    match execution {
        Execution::Finished { success, stdout, stderr } => if success {
            "\u{2705} Command executed successfully:\n```\n"@ + lossy_text(stdout@) + "\n```"@
        } else {
            "\u{274c} Command failed:\n```\n"@ + lossy_text(stderr@) + "\n```"@
        },
        Execution::Failed(reason) => "\u{274c} Failed to execute command: "@ + reason@,
    }
}

/// Presents what came of running a command. What a command printed is sent
/// as markup; the reason it could not be run is sent as plain text.
pub fn render_execution(execution: &Execution) -> (reply: Formatted)
    ensures
        reply.text@ == execution_text(*execution),
        reply.markdown == (*execution is Finished),
{
    match execution {
        Execution::Finished { success, stdout, stderr } => {
            let text = if *success {
                let printed = decode_lossy(stdout);
                String::from_str("\u{2705} Command executed successfully:\n```\n").concat(
                    printed.as_str(),
                ).concat("\n```")
            } else {
                let printed = decode_lossy(stderr);
                String::from_str("\u{274c} Command failed:\n```\n").concat(
                    printed.as_str(),
                ).concat("\n```")
            };
            Formatted { text, markdown: true }
        },
        Execution::Failed(reason) => Formatted {
            text: String::from_str("\u{274c} Failed to execute command: ").concat(
                reason.as_str(),
            ),
            markdown: false,
        },
    }
}

/// Whether a character has a meaning in markup and must be escaped to stand
/// for itself.
pub open spec fn needs_escape(c: char) -> bool {
    c == '.' || c == '!' || c == '-' || c == '(' || c == ')' || c == '+' || c == '=' || c == '{'
        || c == '}' || c == '[' || c == ']' || c == '>' || c == '#'
}

/// A text with a backslash before every character that needs one.
pub open spec fn escaped(text: Seq<char>) -> Seq<char>
    decreases text.len(),
{
    if text.len() == 0 {
        Seq::empty()
    } else if needs_escape(text.last()) {
        escaped(text.drop_last()).push('\\').push(text.last())
    } else {
        escaped(text.drop_last()).push(text.last())
    }
}

/// Escapes a text for markup: every character that has a meaning there gets
/// a backslash before it, and every other character stays as it is.
pub fn escape_text(text: &str) -> (safe: String)
    ensures
        safe@ == escaped(text@),
{
    let length = text.unicode_len();
    let mut safe = String::new();
    let mut at: usize = 0;
    assert(text@.take(0) =~= Seq::<char>::empty());
    while at < length
        invariant
            at <= length,
            length == text@.len(),
            safe@ == escaped(text@.take(at as int)),
        decreases length - at,
    {
        let c = text.get_char(at);
        let piece = text.substring_char(at, at + 1);
        proof {
            let taken = text@.take(at + 1);
            assert(taken.drop_last() =~= text@.take(at as int));
            assert(taken.last() == c);
            assert(piece@ =~= seq![c]);
        }
        let ghost before = safe@;
        if c == '.' || c == '!' || c == '-' || c == '(' || c == ')' || c == '+' || c == '='
            || c == '{' || c == '}' || c == '[' || c == ']' || c == '>' || c == '#' {
            proof {
                reveal_strlit("\\");
            }
            safe.append("\\");
            safe.append(piece);
            assert(safe@ =~= before.push('\\').push(c));
        } else {
            safe.append(piece);
            assert(safe@ =~= before.push(c));
        }
        at += 1;
    }
    assert(text@.take(at as int) =~= text@);
    safe
}

} // verus!
