//! `/help`: a private embed with a topic menu for the invoker.

use vstd::prelude::*;

use crate::render::help::{help_embed, topics_for, Topic};
use crate::ui::{Choice, Embed, Row};

#[allow(unused_imports)]
use crate::render::help::{allowed_topics, help_view};
#[allow(unused_imports)]
use crate::ui::{ChoiceView, EmbedView, RowView};

#[allow(unused_imports)]
use crate::render::help::{law_moderator_topic_is_for_moderators, law_topic_id_round_trips};

verus! {

/// The menu's id.
pub const MENU_ID: &'static str = "help_topic";

/// How long the menu may sit idle, in seconds, before it is given up. The window starts anew
/// on every selection.
pub const NAV_IDLE_SECS: u64 = 900;

/// One entry of the menu.
pub open spec fn topic_choice(topic: Topic, current: Topic) -> ChoiceView {
    ChoiceView {
        label: topic.label_words(),
        value: topic.id_words(),
        selected: topic == current,
    }
}

/// The menu over these topics.
pub open spec fn menu_view(topics: Seq<Topic>, current: Topic) -> RowView {
    RowView::Choices {
        id: MENU_ID@,
        placeholder: "Pick a topic"@,
        options: topics.map_values(|t: Topic| topic_choice(t, current)),
    }
}

/// Build the menu over these topics, with the current one shown as chosen.
pub fn menu_row(topics: &Vec<Topic>, current: Topic) -> (r: Row)
    ensures
        r@ == menu_view(topics@, current),
{
    let mut options: Vec<Choice> = Vec::new();
    let mut i: usize = 0;
    while i < topics.len()
        invariant
            i <= topics.len(),
            options.len() == i,
            forall|j: int|
                0 <= j < i ==> (#[trigger] options@[j])@ == topic_choice(topics@[j], current),
        decreases topics.len() - i,
    {
        let t = topics[i];
        options.push(
            Choice {
                label: t.label().to_owned(),
                value: t.id().to_owned(),
                selected: t == current,
            },
        );
        i += 1;
    }
    assert(options@.map_values(|o: Choice| o@) =~= topics@.map_values(
        |t: Topic| topic_choice(t, current),
    ));
    Row::Choices { id: MENU_ID.to_owned(), placeholder: "Pick a topic".to_owned(), options }
}

/// The help message: one topic's card above the menu.
#[derive(Debug, Clone, PartialEq, Eq)]
pub struct HelpPage {
    pub topic: Topic,
    pub embed: Embed,
    pub row: Row,
}

/// The topic a selection shows: the chosen one where the invoker may see it, else their
/// membership.
pub open spec fn shown_topic(value: Option<Seq<char>>, is_moderator: bool) -> Topic {
    match value {
        Some(v) => match Topic::named(v) {
            Some(t) => if allowed_topics(is_moderator).contains(t) {
                t
            } else {
                Topic::MyMembership
            },
            None => Topic::MyMembership,
        },
        None => Topic::MyMembership,
    }
}

fn is_allowed(topics: &Vec<Topic>, topic: Topic) -> (r: bool)
    ensures
        r == topics@.contains(topic),
{
    let mut i: usize = 0;
    while i < topics.len()
        invariant
            i <= topics.len(),
            forall|j: int| 0 <= j < i ==> #[trigger] topics@[j] != topic,
        decreases topics.len() - i,
    {
        if topics[i] == topic {
            assert(topics@[i as int] == topic);
            return true;
        }
        i += 1;
    }
    false
}

fn page(topics: &Vec<Topic>, topic: Topic, accent: u32) -> (r: HelpPage)
    ensures
        r.topic == topic,
        r.embed@ == help_view(topic, accent),
        r.row@ == menu_view(topics@, topic),
{
    HelpPage { topic, embed: help_embed(topic, accent), row: menu_row(topics, topic) }
}

/// Open the help menu.
pub fn help(is_moderator: bool, accent: u32) -> (r: HelpPage)
    ensures
        r.topic == Topic::MyMembership,
        r.embed@ == help_view(Topic::MyMembership, accent),
        r.row@ == menu_view(allowed_topics(is_moderator), Topic::MyMembership),
{
    let topics = topics_for(is_moderator);
    page(&topics, Topic::MyMembership, accent)
}

/// Redraw after a selection. The permission is checked anew: the id is never trusted.
pub fn select(value: Option<&str>, is_moderator: bool, accent: u32) -> (r: HelpPage)
    ensures
        r.topic == shown_topic(crate::ui::opt_str_view(value), is_moderator),
        r.embed@ == help_view(r.topic, accent),
        r.row@ == menu_view(allowed_topics(is_moderator), r.topic),
{
    let topics = topics_for(is_moderator);
    let chosen = match value {
        Some(v) => match Topic::from_id(v) {
            Some(t) => {
                if is_allowed(&topics, t) {
                    t
                } else {
                    Topic::MyMembership
                }
            },
            None => Topic::MyMembership,
        },
        None => Topic::MyMembership,
    };
    page(&topics, chosen, accent)
}

/// Whatever is selected, whoever is no moderator is never shown the moderator topic.
pub proof fn law_selection_respects_the_gate(value: Option<Seq<char>>, is_moderator: bool)
    ensures
        allowed_topics(is_moderator).contains(shown_topic(value, is_moderator)),
{
    assert(allowed_topics(is_moderator)[1] == Topic::MyMembership);
}

/// Help opens on the member's own topic, and a selection shows the topic it names, where the
/// invoker may see it; the card shown is that topic's, and the menu marks it, and no other,
/// as chosen.
pub proof fn law_the_topic_chosen_is_shown(
    value: Option<&str>,
    topic: Topic,
    is_moderator: bool,
    accent: u32,
    opened: HelpPage,
    page: HelpPage,
    i: int,
)
    requires
        call_ensures(help, (is_moderator, accent), opened),
        call_ensures(select, (value, is_moderator, accent), page),
    ensures
        opened.topic == Topic::MyMembership && opened.embed@ == help_view(
            Topic::MyMembership,
            accent,
        ),
        value is Some && value->0@ == topic.id_words() && (is_moderator || topic
            != Topic::ForModerators) ==> page.topic == topic,
        value is None ==> page.topic == Topic::MyMembership,
        page.topic == Topic::ForModerators ==> is_moderator,
        page.embed@ == help_view(page.topic, accent),
        (page.row@ matches RowView::Choices { id, placeholder, options } && id == MENU_ID@
            && placeholder == "Pick a topic"@
            && options.len() == allowed_topics(is_moderator).len() && (0 <= i < options.len()
            ==> options[i].label == allowed_topics(is_moderator)[i].label_words()
            && options[i].value == allowed_topics(is_moderator)[i].id_words() && (
        options[i].selected <==> allowed_topics(is_moderator)[i] == page.topic))),
{
    law_topic_id_round_trips(topic, topic.id_words());
    law_moderator_topic_is_for_moderators(is_moderator, topic);
    law_moderator_topic_is_for_moderators(is_moderator, page.topic);
    law_selection_respects_the_gate(crate::ui::opt_str_view(value), is_moderator);
}

} // verus!
