//! The rich-text messages that the client shows to the player.

use vstd::prelude::*;
use vstd::string::*;

verus! {

/// The colors and styles in which the server can ask for text to be shown.
#[derive(Clone, Copy, Debug, PartialEq, Eq, Structural)]
pub enum TextColor {
    Bold,
    Underline,
    Black,
    Red,
    Green,
    Yellow,
    Blue,
    Magenta,
    Cyan,
    White,
    BlackBg,
    RedBg,
    GreenBg,
    YellowBg,
    BlueBg,
    MagentaBg,
    CyanBg,
    WhiteBg,
}

/// One component of a message: its text, and what that text refers to.
#[derive(Debug)]
pub enum RichText {
    /// The name of a player in this multiworld.
    Player(String),
    /// A name to be shown like a player's.
    PlayerName(String),
    /// The name of an item.
    Item(String),
    /// The name of a location.
    Location(String),
    /// The name of an entrance.
    EntranceName(String),
    /// Text with a color of its own.
    Color { text: String, color: TextColor },
    /// Plain text.
    Text(String),
}

/// The mathematical form of [RichText].
pub enum RichTextView {
    Player(Seq<char>),
    PlayerName(Seq<char>),
    Item(Seq<char>),
    Location(Seq<char>),
    EntranceName(Seq<char>),
    Color { text: Seq<char>, color: TextColor },
    Text(Seq<char>),
}

impl View for RichText {
    type V = RichTextView;

    open spec fn view(&self) -> RichTextView {
        match self {
            RichText::Player(text) => RichTextView::Player(text@),
            RichText::PlayerName(text) => RichTextView::PlayerName(text@),
            RichText::Item(text) => RichTextView::Item(text@),
            RichText::Location(text) => RichTextView::Location(text@),
            RichText::EntranceName(text) => RichTextView::EntranceName(text@),
            RichText::Color { text, color } => RichTextView::Color { text: text@, color: *color },
            RichText::Text(text) => RichTextView::Text(text@),
        }
    }
}

impl RichTextView {
    /// The text of this component, without its meaning or color.
    pub open spec fn text(self) -> Seq<char> {
        match self {
            RichTextView::Player(text) => text,
            RichTextView::PlayerName(text) => text,
            RichTextView::Item(text) => text,
            RichTextView::Location(text) => text,
            RichTextView::EntranceName(text) => text,
            RichTextView::Color { text, .. } => text,
            RichTextView::Text(text) => text,
        }
    }
}

impl RichText {
    /// The text of this component, without its meaning or color.
    pub fn text(&self) -> (text: &str)
        ensures
            text@ == self@.text(),
    {
        match self {
            RichText::Player(text) => text.as_str(),
            RichText::PlayerName(text) => text.as_str(),
            RichText::Item(text) => text.as_str(),
            RichText::Location(text) => text.as_str(),
            RichText::EntranceName(text) => text.as_str(),
            RichText::Color { text, .. } => text.as_str(),
            RichText::Text(text) => text.as_str(),
        }
    }

    /// Plain text.
    pub fn plain(text: &str) -> (part: RichText)
        ensures
            part@ == RichTextView::Text(text@),
    {
        RichText::Text(text.to_owned())
    }

    /// Text in the given color.
    pub fn colored(text: &str, color: TextColor) -> (part: RichText)
        ensures
            part@ == (RichTextView::Color { text: text@, color }),
    {
        RichText::Color { text: text.to_owned(), color }
    }
}

/// What gave rise to a message.
#[derive(Debug)]
pub enum PrintKind {
    /// A player received an item.
    ItemSend { sender: String, receiver: String },
    /// A player used the `!getitem` command.
    ItemCheat { sender: String, receiver: String },
    /// A player hinted.
    Hint { sender: String, receiver: String },
    /// A player connected.
    Join,
    /// A player disconnected.
    Part,
    /// A player sent a chat message.
    Chat,
    /// The server broadcast a message.
    ServerChat,
    /// The client triggered a tutorial message.
    Tutorial,
    /// A player changed their tags.
    TagsChanged,
    /// Someone entered an `!` command.
    CommandResult,
    /// The client entered an `!admin` command.
    AdminCommandResult,
    /// A player reached their goal.
    Goal,
    /// A player released the remaining items in their world.
    Release,
    /// A player collected the remaining items for their world.
    Collect,
    /// The server countdown progressed.
    Countdown,
    /// Anything else, such as a message that this client wrote.
    Unknown,
}

/// The mathematical form of [PrintKind].
pub enum PrintKindView {
    ItemSend { sender: Seq<char>, receiver: Seq<char> },
    ItemCheat { sender: Seq<char>, receiver: Seq<char> },
    Hint { sender: Seq<char>, receiver: Seq<char> },
    Join,
    Part,
    Chat,
    ServerChat,
    Tutorial,
    TagsChanged,
    CommandResult,
    AdminCommandResult,
    Goal,
    Release,
    Collect,
    Countdown,
    Unknown,
}

impl View for PrintKind {
    type V = PrintKindView;

    open spec fn view(&self) -> PrintKindView {
        match self {
            PrintKind::ItemSend { sender, receiver } => PrintKindView::ItemSend {
                sender: sender@,
                receiver: receiver@,
            },
            PrintKind::ItemCheat { sender, receiver } => PrintKindView::ItemCheat {
                sender: sender@,
                receiver: receiver@,
            },
            PrintKind::Hint { sender, receiver } => PrintKindView::Hint {
                sender: sender@,
                receiver: receiver@,
            },
            PrintKind::Join => PrintKindView::Join,
            PrintKind::Part => PrintKindView::Part,
            PrintKind::Chat => PrintKindView::Chat,
            PrintKind::ServerChat => PrintKindView::ServerChat,
            PrintKind::Tutorial => PrintKindView::Tutorial,
            PrintKind::TagsChanged => PrintKindView::TagsChanged,
            PrintKind::CommandResult => PrintKindView::CommandResult,
            PrintKind::AdminCommandResult => PrintKindView::AdminCommandResult,
            PrintKind::Goal => PrintKindView::Goal,
            PrintKind::Release => PrintKindView::Release,
            PrintKind::Collect => PrintKindView::Collect,
            PrintKind::Countdown => PrintKindView::Countdown,
            PrintKind::Unknown => PrintKindView::Unknown,
        }
    }
}

/// A message to show to the player.
#[derive(Debug)]
pub struct Print {
    pub kind: PrintKind,
    pub data: Vec<RichText>,
}

/// The mathematical form of [Print].
pub struct PrintView {
    pub kind: PrintKindView,
    pub data: Seq<RichTextView>,
}

/// The components of a message in their mathematical form.
pub open spec fn parts_view(parts: Seq<RichText>) -> Seq<RichTextView> {
    Seq::new(parts.len(), |i: int| parts[i]@)
}

impl View for Print {
    type V = PrintView;

    open spec fn view(&self) -> PrintView {
        PrintView { kind: self.kind@, data: parts_view(self.data@) }
    }
}

/// The text of several components, one after the other.
pub open spec fn parts_text(parts: Seq<RichTextView>) -> Seq<char>
    decreases parts.len(),
{
    if parts.len() == 0 {
        Seq::empty()
    } else {
        parts_text(parts.drop_last()) + parts.last().text()
    }
}

impl PrintView {
    /// The text of this message, without colors.
    pub open spec fn text(self) -> Seq<char> {
        parts_text(self.data)
    }

    /// A message of this client's own, made of `data`.
    pub open spec fn of_parts(data: Seq<RichTextView>) -> PrintView {
        PrintView { kind: PrintKindView::Unknown, data }
    }

    /// A message of this client's own that is just `text`.
    pub open spec fn of_text(text: Seq<char>) -> PrintView {
        PrintView::of_parts(seq![RichTextView::Text(text)])
    }
}

impl Print {
    /// The text of this message, without colors.
    pub fn text(&self) -> (text: String)
        ensures
            text@ == self@.text(),
    {
        let mut text: String = String::new();
        let mut i: usize = 0;
        let ghost parts = self@.data;
        proof {
            assert(text@ =~= Seq::<char>::empty());
            assert(parts.take(0) =~= Seq::<RichTextView>::empty());
        }
        while i < self.data.len()
            invariant
                i <= self.data@.len(),
                parts == parts_view(self.data@),
                text@ == parts_text(parts.take(i as int)),
            decreases self.data@.len() - i,
        {
            text.append(self.data[i].text());
            assert(parts.take(i + 1).drop_last() =~= parts.take(i as int));
            i = i + 1;
        }
        assert(parts.take(parts.len() as int) =~= parts);
        text
    }

    /// A message of this client's own, made of `data`.
    pub fn from_parts(data: Vec<RichText>) -> (print: Print)
        ensures
            print@ == PrintView::of_parts(parts_view(data@)),
    {
        Print { kind: PrintKind::Unknown, data }
    }

    /// A message of this client's own that is just `text`.
    pub fn message(text: String) -> (print: Print)
        ensures
            print@ == PrintView::of_text(text@),
    {
        let print: Print = Print::from_parts(vec![RichText::Text(text)]);
        assert(print@.data =~= seq![RichTextView::Text(text@)]);
        print
    }
}

/// The text of a message grows by the text of each component that is added.
pub proof fn law_text_of_parts(parts: Seq<RichTextView>, part: RichTextView)
    ensures
        parts_text(Seq::<RichTextView>::empty()) == Seq::<char>::empty(),
        parts_text(parts.push(part)) == parts_text(parts) + part.text(),
        (PrintView { kind: PrintKindView::Unknown, data: parts.push(part) }).text() == parts_text(
            parts,
        ) + part.text(),
{
    assert(parts.push(part).drop_last() =~= parts);
}

/// The text of two lots of components is that of the one and then the other.
pub proof fn law_texts_add_up(a: Seq<RichTextView>, b: Seq<RichTextView>)
    ensures
        parts_text(a + b) == parts_text(a) + parts_text(b),
    decreases b.len(),
{
    if b.len() == 0 {
        assert(a + b =~= a);
        assert(parts_text(a) + Seq::<char>::empty() =~= parts_text(a));
    } else {
        law_texts_add_up(a, b.drop_last());
        assert((a + b).drop_last() =~= a + b.drop_last());
        assert(parts_text(a + b) =~= parts_text(a) + parts_text(b));
    }
}

/// A component shows exactly the text that it carries, whatever it refers to
/// and however it is colored.
pub proof fn law_components_show_their_text(text: Seq<char>, color: TextColor)
    ensures
        RichTextView::Player(text).text() == text,
        RichTextView::PlayerName(text).text() == text,
        RichTextView::Item(text).text() == text,
        RichTextView::Location(text).text() == text,
        RichTextView::EntranceName(text).text() == text,
        RichTextView::Text(text).text() == text,
        (RichTextView::Color { text, color }).text() == text,
        PrintView::of_text(text).text() == text,
        PrintView::of_text(text).kind == PrintKindView::Unknown,
{
    let part = RichTextView::Text(text);
    law_text_of_parts(Seq::empty(), part);
    assert(Seq::<RichTextView>::empty().push(part) =~= seq![part]);
    assert(Seq::<char>::empty() + text =~= text);
}

} // verus!
