//! Plain values for what the bot shows: embeds, buttons, select menus and modals.
//!
//! Every type has a view over character sequences, and contracts speak of views.

use vstd::prelude::*;

use crate::ids::{DiscordChannelId, DiscordRoleId};

verus! {

/// The characters of each string.
pub open spec fn views(ls: Seq<String>) -> Seq<Seq<char>> {
    Seq::new(ls.len(), |i: int| ls[i]@)
}

/// The characters of an optional string.
pub open spec fn opt_view(s: Option<String>) -> Option<Seq<char>> {
    match s {
        Some(s) => Some(s@),
        None => None,
    }
}

/// The characters of an optional borrowed string.
pub open spec fn opt_str_view(s: Option<&str>) -> Option<Seq<char>> {
    match s {
        Some(s) => Some(s@),
        None => None,
    }
}

/// Borrow an optional string.
pub fn as_opt_str(s: &Option<String>) -> (r: Option<&str>)
    ensures
        opt_str_view(r) == opt_view(*s),
{
    match s {
        Some(v) => Some(v.as_str()),
        None => None,
    }
}

/// Copy an optional string.
pub fn clone_opt(s: &Option<String>) -> (r: Option<String>)
    ensures
        opt_view(r) == opt_view(*s),
{
    match s {
        Some(v) => Some(v.clone()),
        None => None,
    }
}

/// Whether two optional strings hold the same characters.
pub fn same_opt(a: &Option<String>, b: &Option<String>) -> (r: bool)
    ensures
        r == (opt_view(*a) == opt_view(*b)),
{
    match (a, b) {
        (Some(x), Some(y)) => *x == *y,
        (None, None) => true,
        _ => false,
    }
}

/// Lines joined by single newlines.
pub open spec fn lines_text(ls: Seq<Seq<char>>) -> Seq<char>
    decreases ls.len(),
{
    if ls.len() == 0 {
        Seq::empty()
    } else if ls.len() == 1 {
        ls[0]
    } else {
        lines_text(ls.drop_last()) + "\n"@ + ls.last()
    }
}

/// Join lines with single newlines.
pub fn join_lines(ls: &Vec<String>) -> (r: String)
    ensures
        r@ == lines_text(views(ls@)),
{
    if ls.len() == 0 {
        return String::new();
    }
    let mut out = ls[0].clone();
    let mut i: usize = 1;
    assert(views(ls@).take(1) =~= seq![ls@[0]@]);
    while i < ls.len()
        invariant
            1 <= i <= ls.len(),
            out@ == lines_text(views(ls@).take(i as int)),
        decreases ls.len() - i,
    {
        let ghost next = views(ls@).take(i + 1);
        assert(next.drop_last() =~= views(ls@).take(i as int));
        out.append("\n");
        out.append(ls[i].as_str());
        i += 1;
    }
    assert(views(ls@).take(ls@.len() as int) =~= views(ls@));
    out
}

/// One named value inside an embed.
#[derive(Debug, Clone, PartialEq, Eq)]
pub struct Field {
    pub name: String,
    pub value: String,
    pub inline: bool,
}

/// What a field shows.
#[verifier::ext_equal]
pub struct FieldView {
    pub name: Seq<char>,
    pub value: Seq<char>,
    pub inline: bool,
}

impl View for Field {
    type V = FieldView;

    open spec fn view(&self) -> FieldView {
        FieldView { name: self.name@, value: self.value@, inline: self.inline }
    }
}

/// A rich message card.
#[derive(Debug, Clone, PartialEq, Eq)]
pub struct Embed {
    pub author: Option<String>,
    pub author_icon: Option<String>,
    pub title: Option<String>,
    pub description: Option<String>,
    pub colour: Option<u32>,
    pub thumbnail: Option<String>,
    pub footer: Option<String>,
    pub fields: Vec<Field>,
}

/// What an embed shows.
#[verifier::ext_equal]
pub struct EmbedView {
    pub author: Option<Seq<char>>,
    pub author_icon: Option<Seq<char>>,
    pub title: Option<Seq<char>>,
    pub description: Option<Seq<char>>,
    pub colour: Option<u32>,
    pub thumbnail: Option<Seq<char>>,
    pub footer: Option<Seq<char>>,
    pub fields: Seq<FieldView>,
}

impl View for Embed {
    type V = EmbedView;

    open spec fn view(&self) -> EmbedView {
        EmbedView {
            author: opt_view(self.author),
            author_icon: opt_view(self.author_icon),
            title: opt_view(self.title),
            description: opt_view(self.description),
            colour: self.colour,
            thumbnail: opt_view(self.thumbnail),
            footer: opt_view(self.footer),
            fields: self.fields@.map_values(|f: Field| f@),
        }
    }
}

impl EmbedView {
    pub open spec fn empty() -> EmbedView {
        EmbedView {
            author: None,
            author_icon: None,
            title: None,
            description: None,
            colour: None,
            thumbnail: None,
            footer: None,
            fields: Seq::empty(),
        }
    }

    pub open spec fn author(self, name: Seq<char>, icon: Option<Seq<char>>) -> EmbedView {
        EmbedView { author: Some(name), author_icon: icon, ..self }
    }

    pub open spec fn title(self, s: Seq<char>) -> EmbedView {
        EmbedView { title: Some(s), ..self }
    }

    pub open spec fn description(self, s: Seq<char>) -> EmbedView {
        EmbedView { description: Some(s), ..self }
    }

    pub open spec fn colour(self, c: u32) -> EmbedView {
        EmbedView { colour: Some(c), ..self }
    }

    pub open spec fn thumbnail(self, s: Seq<char>) -> EmbedView {
        EmbedView { thumbnail: Some(s), ..self }
    }

    pub open spec fn footer(self, s: Seq<char>) -> EmbedView {
        EmbedView { footer: Some(s), ..self }
    }

    pub open spec fn field(self, name: Seq<char>, value: Seq<char>, inline: bool) -> EmbedView {
        EmbedView { fields: self.fields.push(FieldView { name, value, inline }), ..self }
    }
}

impl Embed {
    /// An embed with nothing in it.
    pub fn new() -> (r: Embed)
        ensures
            r@ == EmbedView::empty(),
    {
        let r = Embed {
            author: None,
            author_icon: None,
            title: None,
            description: None,
            colour: None,
            thumbnail: None,
            footer: None,
            fields: Vec::new(),
        };
        assert(r@.fields =~= Seq::<FieldView>::empty());
        r
    }

    pub fn author(self, name: String, icon: Option<String>) -> (r: Embed)
        ensures
            r@ == self@.author(name@, opt_view(icon)),
    {
        Embed { author: Some(name), author_icon: icon, ..self }
    }

    pub fn title(self, s: String) -> (r: Embed)
        ensures
            r@ == self@.title(s@),
    {
        Embed { title: Some(s), ..self }
    }

    pub fn description(self, s: String) -> (r: Embed)
        ensures
            r@ == self@.description(s@),
    {
        Embed { description: Some(s), ..self }
    }

    pub fn colour(self, c: u32) -> (r: Embed)
        ensures
            r@ == self@.colour(c),
    {
        Embed { colour: Some(c), ..self }
    }

    pub fn thumbnail(self, s: String) -> (r: Embed)
        ensures
            r@ == self@.thumbnail(s@),
    {
        Embed { thumbnail: Some(s), ..self }
    }

    pub fn footer(self, s: String) -> (r: Embed)
        ensures
            r@ == self@.footer(s@),
    {
        Embed { footer: Some(s), ..self }
    }

    pub fn field(self, name: &str, value: String, inline: bool) -> (r: Embed)
        ensures
            r@ == self@.field(name@, value@, inline),
    {
        let mut out = self;
        let f = Field { name: name.to_owned(), value, inline };
        out.fields.push(f);
        assert(out@.fields =~= self@.fields.push(f@));
        out
    }
}

/// A button's colour role.
#[derive(Debug, Clone, Copy, PartialEq, Eq, Structural)]
pub enum Style {
    /// Blurple: an action, an edit or a call to action.
    Primary,
    /// Grey: neutral, back, or an off toggle.
    Secondary,
    /// Green: an on toggle or an approval.
    Success,
    /// Red: a destructive or last-resort action.
    Danger,
}

/// A clickable button.
#[derive(Debug, Clone, PartialEq, Eq)]
pub enum Button {
    /// Sends an interaction carrying `id`.
    Press { id: String, label: String, style: Style, disabled: bool },
    /// Opens `url` in the browser.
    Link { url: String, label: String },
}

/// What a button shows.
pub enum ButtonView {
    Press { id: Seq<char>, label: Seq<char>, style: Style, disabled: bool },
    Link { url: Seq<char>, label: Seq<char> },
}

impl View for Button {
    type V = ButtonView;

    open spec fn view(&self) -> ButtonView {
        match self {
            Button::Press { id, label, style, disabled } => ButtonView::Press {
                id: id@,
                label: label@,
                style: *style,
                disabled: *disabled,
            },
            Button::Link { url, label } => ButtonView::Link { url: url@, label: label@ },
        }
    }
}

/// An enabled button.
pub open spec fn press_view(id: Seq<char>, label: Seq<char>, style: Style) -> ButtonView {
    ButtonView::Press { id, label, style, disabled: false }
}

/// An enabled button.
pub fn press(id: &str, label: &str, style: Style) -> (r: Button)
    ensures
        r@ == press_view(id@, label@, style),
{
    Button::Press { id: id.to_owned(), label: label.to_owned(), style, disabled: false }
}

impl Button {
    /// A copy that shows the same.
    pub fn copy(&self) -> (r: Button)
        ensures
            r@ == self@,
    {
        match self {
            Button::Press { id, label, style, disabled } => Button::Press {
                id: id.clone(),
                label: label.clone(),
                style: *style,
                disabled: *disabled,
            },
            Button::Link { url, label } => Button::Link { url: url.clone(), label: label.clone() },
        }
    }
}

/// One entry of a drop-down.
#[derive(Debug, Clone, PartialEq, Eq)]
pub struct Choice {
    pub label: String,
    pub value: String,
    /// Whether it is the one shown as chosen.
    pub selected: bool,
}

/// What an entry of a drop-down shows.
pub struct ChoiceView {
    pub label: Seq<char>,
    pub value: Seq<char>,
    pub selected: bool,
}

impl View for Choice {
    type V = ChoiceView;

    open spec fn view(&self) -> ChoiceView {
        ChoiceView { label: self.label@, value: self.value@, selected: self.selected }
    }
}

/// One row of controls under a message.
#[derive(Debug, Clone, PartialEq, Eq)]
pub enum Row {
    Buttons(Vec<Button>),
    RoleSelect { id: String, placeholder: String, role: Option<DiscordRoleId> },
    ChannelSelect { id: String, placeholder: String, channel: Option<DiscordChannelId> },
    Choices { id: String, placeholder: String, options: Vec<Choice> },
}

/// What a row shows.
pub enum RowView {
    Buttons(Seq<ButtonView>),
    RoleSelect { id: Seq<char>, placeholder: Seq<char>, role: Option<DiscordRoleId> },
    ChannelSelect { id: Seq<char>, placeholder: Seq<char>, channel: Option<DiscordChannelId> },
    Choices { id: Seq<char>, placeholder: Seq<char>, options: Seq<ChoiceView> },
}

/// The views of a run of buttons.
pub open spec fn button_views(bs: Seq<Button>) -> Seq<ButtonView> {
    bs.map_values(|b: Button| b@)
}

impl View for Row {
    type V = RowView;

    open spec fn view(&self) -> RowView {
        match self {
            Row::Buttons(bs) => RowView::Buttons(button_views(bs@)),
            Row::RoleSelect { id, placeholder, role } => RowView::RoleSelect {
                id: id@,
                placeholder: placeholder@,
                role: *role,
            },
            Row::ChannelSelect { id, placeholder, channel } => RowView::ChannelSelect {
                id: id@,
                placeholder: placeholder@,
                channel: *channel,
            },
            Row::Choices { id, placeholder, options } => RowView::Choices {
                id: id@,
                placeholder: placeholder@,
                options: options@.map_values(|o: Choice| o@),
            },
        }
    }
}

/// A row of one button.
pub fn row1(b1: Button) -> (r: Row)
    ensures
        r@ == RowView::Buttons(seq![b1@]),
{
    let bs = vec![b1];
    assert(button_views(bs@) =~= seq![b1@]);
    Row::Buttons(bs)
}

/// A row of two buttons.
pub fn row2(b1: Button, b2: Button) -> (r: Row)
    ensures
        r@ == RowView::Buttons(seq![b1@, b2@]),
{
    let bs = vec![b1, b2];
    assert(button_views(bs@) =~= seq![b1@, b2@]);
    Row::Buttons(bs)
}

/// A row of three buttons.
pub fn row3(b1: Button, b2: Button, b3: Button) -> (r: Row)
    ensures
        r@ == RowView::Buttons(seq![b1@, b2@, b3@]),
{
    let bs = vec![b1, b2, b3];
    assert(button_views(bs@) =~= seq![b1@, b2@, b3@]);
    Row::Buttons(bs)
}

/// A row of four buttons.
pub fn row4(b1: Button, b2: Button, b3: Button, b4: Button) -> (r: Row)
    ensures
        r@ == RowView::Buttons(seq![b1@, b2@, b3@, b4@]),
{
    let bs = vec![b1, b2, b3, b4];
    assert(button_views(bs@) =~= seq![b1@, b2@, b3@, b4@]);
    Row::Buttons(bs)
}

/// The views of a stack of rows.
pub open spec fn row_views(rs: Seq<Row>) -> Seq<RowView> {
    rs.map_values(|r: Row| r@)
}

/// One text box of a modal.
#[derive(Debug, Clone, PartialEq, Eq)]
pub struct Input {
    pub id: String,
    pub label: String,
    pub paragraph: bool,
    pub placeholder: Option<String>,
    pub value: Option<String>,
    pub required: bool,
    pub min_length: Option<u16>,
    pub max_length: Option<u16>,
}

/// What a text box shows.
#[verifier::ext_equal]
pub struct InputView {
    pub id: Seq<char>,
    pub label: Seq<char>,
    pub paragraph: bool,
    pub placeholder: Option<Seq<char>>,
    pub value: Option<Seq<char>>,
    pub required: bool,
    pub min_length: Option<u16>,
    pub max_length: Option<u16>,
}

impl View for Input {
    type V = InputView;

    open spec fn view(&self) -> InputView {
        InputView {
            id: self.id@,
            label: self.label@,
            paragraph: self.paragraph,
            placeholder: opt_view(self.placeholder),
            value: opt_view(self.value),
            required: self.required,
            min_length: self.min_length,
            max_length: self.max_length,
        }
    }
}

/// A pop-up form; each text box sits on its own row.
#[derive(Debug, Clone, PartialEq, Eq)]
pub struct Modal {
    pub id: String,
    pub title: String,
    pub inputs: Vec<Input>,
}

/// What a modal shows.
#[verifier::ext_equal]
pub struct ModalView {
    pub id: Seq<char>,
    pub title: Seq<char>,
    pub inputs: Seq<InputView>,
}

impl View for Modal {
    type V = ModalView;

    open spec fn view(&self) -> ModalView {
        ModalView {
            id: self.id@,
            title: self.title@,
            inputs: self.inputs@.map_values(|i: Input| i@),
        }
    }
}

/// One filled-in text box of a submitted modal.
#[derive(Debug, Clone, PartialEq, Eq)]
pub struct Answer {
    pub id: String,
    pub value: Option<String>,
}

/// The first non-absent value submitted under `id`, or nothing.
pub open spec fn answer_text(answers: Seq<Answer>, id: Seq<char>) -> Seq<char>
    decreases answers.len(),
{
    if answers.len() == 0 {
        Seq::empty()
    } else if answers[0].id@ == id && answers[0].value is Some {
        answers[0].value.unwrap()@
    } else {
        answer_text(answers.drop_first(), id)
    }
}

/// Read the value typed into the named text box; empty when there is none.
pub fn read_input(answers: &Vec<Answer>, id: &str) -> (r: String)
    ensures
        r@ == answer_text(answers@, id@),
{
    let mut i: usize = 0;
    assert(answers@.skip(0) =~= answers@);
    while i < answers.len()
        invariant
            0 <= i <= answers.len(),
            answer_text(answers@, id@) == answer_text(answers@.skip(i as int), id@),
        decreases answers.len() - i,
    {
        assert(answers@.skip(i as int).drop_first() =~= answers@.skip(i + 1));
        if crate::text::same(answers[i].id.as_str(), id) {
            if let Some(v) = &answers[i].value {
                return v.clone();
            }
        }
        i += 1;
    }
    String::new()
}

/// Joined lines are the lines with a newline between each and the next.
pub proof fn law_lines_are_joined_by_newlines(ls: Seq<Seq<char>>, line: Seq<char>)
    ensures
        lines_text(Seq::empty()) == Seq::<char>::empty(),
        lines_text(seq![line]) == line,
        ls.len() > 0 ==> lines_text(ls.push(line)) == lines_text(ls) + "\n"@ + line,
{
    assert(ls.push(line).drop_last() =~= ls);
}

/// What was typed into a box is read from that box: the first filled-in one under its id.
pub proof fn law_a_box_is_read_under_its_id(answers: Seq<Answer>, id: Seq<char>, i: int)
    requires
        0 <= i < answers.len(),
        answers[i].id@ == id,
        answers[i].value is Some,
        forall|j: int|
            0 <= j < i ==> !((#[trigger] answers[j]).id@ == id && answers[j].value is Some),
    ensures
        answer_text(answers, id) == answers[i].value->0@,
    decreases i,
{
    if i > 0 {
        let rest = answers.drop_first();
        assert forall|j: int| 0 <= j < i - 1 implies !((#[trigger] rest[j]).id@ == id
            && rest[j].value is Some) by {
            assert(rest[j] == answers[j + 1]);
        }
        law_a_box_is_read_under_its_id(rest, id, i - 1);
    }
}

/// A box that was not filled in reads as empty.
pub proof fn law_an_empty_box_reads_as_nothing(answers: Seq<Answer>, id: Seq<char>)
    requires
        forall|j: int|
            0 <= j < answers.len() ==> !((#[trigger] answers[j]).id@ == id
                && answers[j].value is Some),
    ensures
        answer_text(answers, id) == Seq::<char>::empty(),
    decreases answers.len(),
{
    if answers.len() > 0 {
        let rest = answers.drop_first();
        assert forall|j: int| 0 <= j < rest.len() implies !((#[trigger] rest[j]).id@ == id
            && rest[j].value is Some) by {
            assert(rest[j] == answers[j + 1]);
        }
        law_an_empty_box_reads_as_nothing(rest, id);
    }
}

} // verus!
