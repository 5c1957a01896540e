//! The conversation of a channel, as the model is told of it when there is no
//! session: what each one wrote, oldest first, with the name of the writer.

use vstd::prelude::*;
use vstd::string::StringExecFns;
use crate::composer::MODEL_ROLE;
use crate::gemini::api::{new_content_pb, turn};
use crate::proto::message::{ContentModel, ContentPb};
use crate::views::seq_view;

verus! {

/// The role under which everyone but the bot speaks.
pub const USER_ROLE: &'static str = "user";

/// The view of a message of the channel.
pub struct MessageModel {
    pub author: Seq<char>,
    pub from_bot: bool,
    pub content: Seq<char>,
}

/// A message of the channel: who wrote it, whether that was the bot, and what
/// it says.
#[derive(Debug, PartialEq, Eq)]
pub struct ChannelMessage {
    pub author: String,
    pub from_bot: bool,
    pub content: String,
}

impl View for ChannelMessage {
    type V = MessageModel;

    open spec fn view(&self) -> MessageModel {
        MessageModel { author: self.author@, from_bot: self.from_bot, content: self.content@ }
    }
}

/// What someone wrote, with the name of the writer before it.
pub open spec fn attributed(author: Seq<char>, content: Seq<char>) -> Seq<char> {
    "USER "@ + author + ": \""@ + content + "\""@
}

/// What a user wrote, as the model is told of it.
pub open spec fn told_of_user(message: MessageModel) -> ContentModel {
    turn(USER_ROLE@, attributed(message.author, message.content))
}

/// What the model is told of a message: the bot's own are turns of the model, as
/// they are; those of others are turns of the user, with the writer's name.
pub open spec fn told(message: MessageModel) -> ContentModel {
    if message.from_bot {
        turn(MODEL_ROLE@, message.content)
    } else {
        told_of_user(message)
    }
}

/// What the model is told of a channel whose messages before the latest are
/// `earlier`, newest first: those messages oldest first, and then the latest,
/// which a user wrote.
pub open spec fn context(earlier: Seq<MessageModel>, latest: MessageModel) -> Seq<ContentModel> {
    Seq::new(earlier.len(), |i: int| told(earlier[earlier.len() - 1 - i])).push(
        told_of_user(latest),
    )
}

/// What someone wrote, with the name of the writer before it.
pub fn attribute(author: &str, content: &str) -> (text: String)
    ensures
        text@ == attributed(author@, content@),
{
    "USER ".to_string().concat(author).concat(": \"").concat(content).concat("\"")
}

/// What the model is told of a message.
pub fn content_of(message: &ChannelMessage) -> (content: ContentPb)
    ensures
        content@ == told(message@),
{
    if message.from_bot {
        new_content_pb(MODEL_ROLE.to_string(), message.content.clone())
    } else {
        new_content_pb(
            USER_ROLE.to_string(),
            attribute(message.author.as_str(), message.content.as_str()),
        )
    }
}

/// What the model is told of a channel whose messages before the latest are
/// `earlier`, newest first.
pub fn channel_contents(earlier: &Vec<ChannelMessage>, latest: &ChannelMessage) -> (contents: Vec<
    ContentPb,
>)
    ensures
        seq_view(contents@) == context(seq_view(earlier@), latest@),
{
    let mut contents: Vec<ContentPb> = Vec::new();
    let mut left: usize = earlier.len();
    while left > 0
        invariant
            left <= earlier@.len(),
            contents@.len() == earlier@.len() - left,
            forall|i: int|
                0 <= i < contents@.len() ==> contents@[i]@ == told(
                    earlier@[earlier@.len() - 1 - i]@,
                ),
        decreases left,
    {
        left -= 1;
        contents.push(content_of(&earlier[left]));
    }
    contents.push(
        new_content_pb(
            USER_ROLE.to_string(),
            attribute(latest.author.as_str(), latest.content.as_str()),
        ),
    );
    contents
}

} // verus!
