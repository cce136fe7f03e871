//! Tags: the labels that a bot gives its match by chat. A chat message
//! that begins with `Tag:` carries a tag; the tags of a bot are kept in the
//! order in which they were first sent, each once.

use vstd::prelude::*;
use crate::proto::{chat_views, text_views};
use crate::text::{chars_of, has_prefix, same_text, starts_with, string_of, tail_from};

verus! {

/// The text that marks a chat message as a tag.
pub open spec fn tag_prefix() -> Seq<char> {
    "Tag:"@
}

/// The tag that a chat message carries: what follows the tag prefix.
pub open spec fn tag_of(message: Seq<char>) -> Option<Seq<char>> {
    if has_prefix(message, tag_prefix()) {
        Some(message.subrange(tag_prefix().len() as int, message.len() as int))
    } else {
        None
    }
}

/// `tags` with `tag` added at the end, unless it is among them.
pub open spec fn with_tag(tags: Seq<Seq<char>>, tag: Seq<char>) -> Seq<Seq<char>> {
    if tags.contains(tag) {
        tags
    } else {
        tags.push(tag)
    }
}

/// `tags` with the tags of the chat entries `chat` added, one after the
/// other.
pub open spec fn with_chat(tags: Seq<Seq<char>>, chat: Seq<Option<Seq<char>>>) -> Seq<Seq<char>>
    decreases chat.len(),
{
    if chat.len() == 0 {
        tags
    } else {
        let before = with_chat(tags, chat.drop_last());
        match chat.last() {
            Some(message) => match tag_of(message) {
                Some(tag) => with_tag(before, tag),
                None => before,
            },
            None => before,
        }
    }
}

/// Executable form of [`tag_of`].
pub fn chat_tag(message: &str) -> (tag: Option<String>)
    ensures
        match tag {
            Some(t) => tag_of(message@) == Some(t@),
            None => tag_of(message@) is None,
        },
{
    let text = chars_of(message);
    let prefix = chars_of("Tag:");
    if starts_with(&text, &prefix) {
        Some(string_of(&tail_from(&text, prefix.len())))
    } else {
        None
    }
}

/// Adds `tag` to `tags` unless it is among them.
pub fn add_tag(tags: &mut Vec<String>, tag: String)
    requires
        old(tags).deep_view().no_duplicates(),
    ensures
        final(tags).deep_view() == with_tag(old(tags).deep_view(), tag@),
        final(tags).deep_view().no_duplicates(),
{
    let wanted = chars_of(tag.as_str());
    let mut i: usize = 0;
    while i < tags.len()
        invariant
            i <= tags.len(),
            *tags == *old(tags),
            old(tags).deep_view().no_duplicates(),
            wanted@ == tag@,
            forall|k: int| 0 <= k < i ==> tags.deep_view()[k] != tag@,
        decreases tags.len() - i,
    {
        let have = chars_of(tags[i].as_str());
        if same_text(&have, &wanted) {
            assert(tags.deep_view()[i as int] == tag@);
            assert(tags.deep_view().contains(tag@));
            return ;
        }
        i += 1;
    }
    assert(!tags.deep_view().contains(tag@));
    let ghost before = tags.deep_view();
    tags.push(tag);
    assert(tags.deep_view() =~= before.push(tag@));
}

/// A copy of `tags`.
pub fn copy_tags(tags: &Vec<String>) -> (copy: Vec<String>)
    ensures
        copy.deep_view() == tags.deep_view(),
{
    let mut copy: Vec<String> = Vec::new();
    let mut i: usize = 0;
    while i < tags.len()
        invariant
            i <= tags.len(),
            copy.deep_view() == tags.deep_view().take(i as int),
        decreases tags.len() - i,
    {
        let ghost before = copy.deep_view();
        copy.push(tags[i].clone());
        assert(copy.deep_view() =~= before.push(tags[i as int]@));
        assert(tags.deep_view().take(i + 1) =~= tags.deep_view().take(i as int).push(
            tags[i as int]@,
        ));
        i += 1;
    }
    assert(tags.deep_view().take(tags.len() as int) =~= tags.deep_view());
    copy
}

/// Adds the tags of the chat entries `chat` to `tags`, one after the other.
pub fn add_chat_tags(tags: &mut Vec<String>, chat: &Vec<Option<String>>)
    requires
        old(tags).deep_view().no_duplicates(),
    ensures
        final(tags).deep_view() == with_chat(old(tags).deep_view(), text_views(chat@)),
        final(tags).deep_view().no_duplicates(),
{
    let mut i: usize = 0;
    while i < chat.len()
        invariant
            i <= chat.len(),
            tags.deep_view() == with_chat(old(tags).deep_view(), text_views(chat@).take(i as int)),
            tags.deep_view().no_duplicates(),
        decreases chat.len() - i,
    {
        assert(text_views(chat@).take(i + 1).drop_last() =~= text_views(chat@).take(i as int));
        match &chat[i] {
            Some(message) => match chat_tag(message.as_str()) {
                Some(tag) => add_tag(tags, tag),
                None => {},
            },
            None => {},
        }
        i += 1;
    }
    assert(text_views(chat@).take(chat.len() as int) =~= text_views(chat@));
}

/// Tags stay in the order in which they were sent: the tags that a bot had
/// before a request come first among its tags after the request, and no tag
/// occurs twice.
pub proof fn with_chat_extends(tags: Seq<Seq<char>>, chat: Seq<Option<Seq<char>>>)
    requires
        tags.no_duplicates(),
    ensures
        with_chat(tags, chat).no_duplicates(),
        tags.is_prefix_of(with_chat(tags, chat)),
    decreases chat.len(),
{
    if chat.len() > 0 {
        with_chat_extends(tags, chat.drop_last());
    }
}

/// The message of the chat body of an action, given the chat bodies that
/// were sent for it, in the order sent: an action has one chat body, into
/// which the bodies sent merge, so its message is the last that was sent.
pub open spec fn merged_message(bodies: Seq<Option<Seq<char>>>) -> Option<Seq<char>>
    decreases bodies.len(),
{
    if bodies.len() == 0 {
        None
    } else {
        match bodies.last() {
            Some(message) => Some(message),
            None => merged_message(bodies.drop_last()),
        }
    }
}

/// The chat message of each action, given the chat bodies sent for each.
pub open spec fn action_messages(chats: Seq<Seq<Option<Seq<char>>>>) -> Seq<Option<Seq<char>>> {
    chats.map_values(|bodies: Seq<Option<Seq<char>>>| merged_message(bodies))
}

/// Executable form of [`merged_message`].
pub fn merge_bodies(bodies: &Vec<Option<String>>) -> (message: Option<String>)
    ensures
        match message {
            Some(m) => merged_message(text_views(bodies@)) == Some(m@),
            None => merged_message(text_views(bodies@)) is None,
        },
{
    let mut i: usize = bodies.len();
    assert(text_views(bodies@).take(i as int) =~= text_views(bodies@));
    while i > 0
        invariant
            i <= bodies.len(),
            merged_message(text_views(bodies@)) == merged_message(
                text_views(bodies@).take(i as int),
            ),
        decreases i,
    {
        let ghost taken = text_views(bodies@).take(i as int);
        assert(taken.last() == text_views(bodies@)[i - 1]);
        assert(taken.drop_last() =~= text_views(bodies@).take(i - 1));
        match &bodies[i - 1] {
            Some(message) => {
                return Some(message.clone());
            },
            None => {},
        }
        i -= 1;
    }
    None
}

/// Executable form of [`action_messages`].
pub fn merge_chats(chats: &Vec<Vec<Option<String>>>) -> (messages: Vec<Option<String>>)
    ensures
        text_views(messages@) == action_messages(chat_views(chats@)),
{
    let mut messages: Vec<Option<String>> = Vec::new();
    let mut i: usize = 0;
    while i < chats.len()
        invariant
            i <= chats.len(),
            text_views(messages@) == action_messages(chat_views(chats@)).take(i as int),
        decreases chats.len() - i,
    {
        let ghost before = text_views(messages@);
        let message = merge_bodies(&chats[i]);
        messages.push(message);
        assert(text_views(messages@) =~= before.push(
            action_messages(chat_views(chats@))[i as int],
        ));
        assert(action_messages(chat_views(chats@)).take(i + 1) =~= action_messages(
            chat_views(chats@),
        ).take(i as int).push(action_messages(chat_views(chats@))[i as int]));
        i += 1;
    }
    assert(action_messages(chat_views(chats@)).take(chats.len() as int) =~= action_messages(
        chat_views(chats@),
    ));
    messages
}

} // verus!
