//! The help navigator's topics and their embeds.

use vstd::prelude::*;

use crate::text::same;
use crate::ui::Embed;

#[allow(unused_imports)]
use crate::ui::EmbedView;

verus! {

/// Help topics. The moderator topic is only ever offered to moderators.
#[derive(Debug, Clone, Copy, PartialEq, Eq, Structural)]
pub enum Topic {
    GettingVerified,
    MyMembership,
    ForModerators,
}

impl Topic {
    /// What the menu calls it.
    pub open spec fn label_words(self) -> Seq<char> {
        match self {
            Topic::GettingVerified => "Getting verified"@,
            Topic::MyMembership => "My membership"@,
            Topic::ForModerators => "For moderators"@,
        }
    }

    /// How a selection names it.
    pub open spec fn id_words(self) -> Seq<char> {
        match self {
            Topic::GettingVerified => "getting_verified"@,
            Topic::MyMembership => "my_membership"@,
            Topic::ForModerators => "for_moderators"@,
        }
    }

    pub fn label(self) -> (r: &'static str)
        ensures
            r@ == self.label_words(),
    {
        match self {
            Topic::GettingVerified => "Getting verified",
            Topic::MyMembership => "My membership",
            Topic::ForModerators => "For moderators",
        }
    }

    pub fn id(self) -> (r: &'static str)
        ensures
            r@ == self.id_words(),
    {
        match self {
            Topic::GettingVerified => "getting_verified",
            Topic::MyMembership => "my_membership",
            Topic::ForModerators => "for_moderators",
        }
    }

    /// The topic with this id.
    pub open spec fn named(s: Seq<char>) -> Option<Topic> {
        if s == Topic::GettingVerified.id_words() {
            Some(Topic::GettingVerified)
        } else if s == Topic::MyMembership.id_words() {
            Some(Topic::MyMembership)
        } else if s == Topic::ForModerators.id_words() {
            Some(Topic::ForModerators)
        } else {
            None
        }
    }

    /// The topic with this id, if there is one.
    pub fn from_id(s: &str) -> (r: Option<Topic>)
        ensures
            r == Topic::named(s@),
    {
        if same(s, Topic::GettingVerified.id()) {
            Some(Topic::GettingVerified)
        } else if same(s, Topic::MyMembership.id()) {
            Some(Topic::MyMembership)
        } else if same(s, Topic::ForModerators.id()) {
            Some(Topic::ForModerators)
        } else {
            None
        }
    }
}

/// A topic's id names that topic and no other text names any.
pub proof fn law_topic_id_round_trips(topic: Topic, s: Seq<char>)
    ensures
        Topic::named(topic.id_words()) == Some(topic),
        Topic::named(s) == Some(topic) ==> s == topic.id_words(),
{
    reveal_strlit("getting_verified");
    reveal_strlit("my_membership");
    reveal_strlit("for_moderators");
    assert("getting_verified"@.len() == 16);
    assert("my_membership"@.len() == 13);
    assert("for_moderators"@.len() == 14);
}

/// The topics an invoker may see.
pub open spec fn allowed_topics(is_moderator: bool) -> Seq<Topic> {
    if is_moderator {
        seq![Topic::GettingVerified, Topic::MyMembership, Topic::ForModerators]
    } else {
        seq![Topic::GettingVerified, Topic::MyMembership]
    }
}

/// The topics an invoker may see: the moderator topic only for a moderator.
pub fn topics_for(is_moderator: bool) -> (r: Vec<Topic>)
    ensures
        r@ == allowed_topics(is_moderator),
{
    let mut topics = vec![Topic::GettingVerified, Topic::MyMembership];
    if is_moderator {
        topics.push(Topic::ForModerators);
    }
    assert(topics@ =~= allowed_topics(is_moderator));
    topics
}

/// Whoever is no moderator never sees the moderator topic; every other topic is for all.
pub proof fn law_moderator_topic_is_for_moderators(is_moderator: bool, topic: Topic)
    ensures
        allowed_topics(is_moderator).contains(topic) <==> is_moderator || topic
            != Topic::ForModerators,
{
    let all = allowed_topics(is_moderator);
    assert(all[0] == Topic::GettingVerified && all[1] == Topic::MyMembership);
    if is_moderator {
        assert(all[2] == Topic::ForModerators);
    }
}

/// A topic's card.
pub open spec fn help_view(topic: Topic, accent: u32) -> EmbedView {
    let (title, body) = match topic {
        Topic::GettingVerified => (
            "\u{1f4cb} Help \u{b7} Getting verified"@,
            "If I don't recognise you yet, head to the verification channel and tap **Verify**."@,
        ),
        Topic::MyMembership => (
            "\u{1f4cb} Help \u{b7} My membership"@,
            "**/membership-card** - your status, dues, and renewal date.\nOr right-click your name \u{2192} *Apps* \u{2192} **Membership Card**."@,
        ),
        Topic::ForModerators => (
            "\u{1f4cb} Help \u{b7} For moderators"@,
            "Moderator lookup tools are coming soon - you'll be able to pull up any current member's card from here."@,
        ),
    };
    EmbedView::empty().title(title).description(body).colour(accent)
}

/// Build the embed for one topic.
pub fn help_embed(topic: Topic, accent: u32) -> (r: Embed)
    ensures
        r@ == help_view(topic, accent),
{
    let (title, body) = match topic {
        Topic::GettingVerified => (
            "\u{1f4cb} Help \u{b7} Getting verified",
            "If I don't recognise you yet, head to the verification channel and tap **Verify**.",
        ),
        Topic::MyMembership => (
            "\u{1f4cb} Help \u{b7} My membership",
            "**/membership-card** - your status, dues, and renewal date.\nOr right-click your name \u{2192} *Apps* \u{2192} **Membership Card**.",
        ),
        Topic::ForModerators => (
            "\u{1f4cb} Help \u{b7} For moderators",
            "Moderator lookup tools are coming soon - you'll be able to pull up any current member's card from here.",
        ),
    };
    Embed::new().title(title.to_owned()).description(body.to_owned()).colour(accent)
}

/// Every topic has a card and a name of its own.
pub proof fn law_topics_have_their_own_cards(a: Topic, b: Topic, accent: u32)
    ensures
        a != b ==> help_view(a, accent) != help_view(b, accent),
        a != b ==> a.label_words() != b.label_words(),
        help_view(Topic::GettingVerified, accent).title == Some(
            "\u{1f4cb} Help \u{b7} Getting verified"@,
        ),
        help_view(Topic::MyMembership, accent).title == Some(
            "\u{1f4cb} Help \u{b7} My membership"@,
        ),
        help_view(Topic::ForModerators, accent).title == Some(
            "\u{1f4cb} Help \u{b7} For moderators"@,
        ),
        help_view(Topic::GettingVerified, accent).description == Some(
            "If I don't recognise you yet, head to the verification channel and tap **Verify**."@,
        ),
        help_view(Topic::MyMembership, accent).description == Some(
            "**/membership-card** - your status, dues, and renewal date.\nOr right-click your name \u{2192} *Apps* \u{2192} **Membership Card**."@,
        ),
        help_view(Topic::ForModerators, accent).description == Some(
            "Moderator lookup tools are coming soon - you'll be able to pull up any current member's card from here."@,
        ),
        help_view(a, accent).colour == Some(accent),
        Topic::GettingVerified.label_words() == "Getting verified"@,
        Topic::MyMembership.label_words() == "My membership"@,
        Topic::ForModerators.label_words() == "For moderators"@,
{
    reveal_strlit("Getting verified");
    reveal_strlit("My membership");
    reveal_strlit("For moderators");
    reveal_strlit("\u{1f4cb} Help \u{b7} Getting verified");
    reveal_strlit("\u{1f4cb} Help \u{b7} My membership");
    reveal_strlit("\u{1f4cb} Help \u{b7} For moderators");
    assert("Getting verified"@[0] == 'G' && "My membership"@[0] == 'M' && "For moderators"@[0]
        == 'F');
    assert("\u{1f4cb} Help \u{b7} Getting verified"@[9] == 'G');
    assert("\u{1f4cb} Help \u{b7} My membership"@[9] == 'M');
    assert("\u{1f4cb} Help \u{b7} For moderators"@[9] == 'F');
}

} // verus!
