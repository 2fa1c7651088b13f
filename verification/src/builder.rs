//! The builder: one text that grows by appending, fragment after fragment.
use vstd::prelude::*;
use vstd::string::*;
use vstd::std_specs::convert::IntoSpec;
use crate::model::channel_token;
use crate::model::emoji_token;
use crate::model::role_token;
use crate::model::user_token;
use crate::model::ChannelId;
use crate::model::Emoji;
use crate::model::Mentionable;
use crate::model::RoleId;
use crate::model::UserId;

verus! {

/// Builds the text of a message out of literal text and mentions.
///
/// The builder holds the text written so far. Each appending method takes
/// the builder and gives it back with one fragment more at the end, so that
/// calls chain; `build` gives the text out. What was written is never
/// removed or rewritten.
pub struct MessageBuilder(pub String);

impl View for MessageBuilder {
    type V = Seq<char>;

    /// The text written so far.
    open spec fn view(&self) -> Seq<char> {
        self.0@
    }
}

impl MessageBuilder {
    /// A builder with no text.
    pub fn new() -> (builder: MessageBuilder)
        ensures
            builder@ == Seq::<char>::empty(),
    {
        MessageBuilder::default()
    }

    /// Gives out the text written so far, and ends the builder.
    pub fn build(self) -> (text: String)
        ensures
            text == self.0,
            text@ == self@,
    {
        self.0
    }

    /// The text written so far, as a string of its own: the text that
    /// `build` gives out. The builder stays as it is.
    pub fn to_string(&self) -> (text: String)
        ensures
            text == self.0,
            text@ == self@,
    {
        self.0.clone()
    }

    /// Appends `content` as it stands: nothing is escaped, trimmed or put in
    /// between.
    pub fn push(self, content: &str) -> (builder: MessageBuilder)
        ensures
            builder@ == self@ + content@,
            self@.is_prefix_of(builder@),
    {
        let mut text = self.0;
        text.append(content);
        MessageBuilder(text)
    }

    /// Appends the token by which `item` mentions itself.
    pub fn mention<M: Mentionable>(self, item: M) -> (builder: MessageBuilder)
        ensures
            builder@ == self@ + item.mention_text(),
            self@.is_prefix_of(builder@),
    {
        let token = item.mention();
        self.push(token.as_str())
    }

    /// Appends the mention of the channel that `channel` converts into:
    /// always the token of some channel, and where the conversion is
    /// specified, the token of the channel that it names.
    pub fn channel<C: Into<ChannelId>>(self, channel: C) -> (builder: MessageBuilder)
        ensures
            exists|id: u64| builder@ == self@ + #[trigger] channel_token(id),
            C::obeys_into_spec() ==> builder@ == self@ + channel_token(channel.into_spec().0),
            self@.is_prefix_of(builder@),
    {
        let id: ChannelId = channel.into();
        let token = id.to_string();
        self.push(token.as_str())
    }

    /// Appends the text that shows `emoji`.
    pub fn emoji(self, emoji: Emoji) -> (builder: MessageBuilder)
        ensures
            builder@ == self@ + emoji_token(emoji.name@, emoji.id.0),
            self@.is_prefix_of(builder@),
    {
        let token = emoji.to_string();
        self.push(token.as_str())
    }

    /// Appends the mention of the role that `role` converts into: always the
    /// token of some role, and where the conversion is specified, the token
    /// of the role that it names.
    pub fn role<R: Into<RoleId>>(self, role: R) -> (builder: MessageBuilder)
        ensures
            exists|id: u64| builder@ == self@ + #[trigger] role_token(id),
            R::obeys_into_spec() ==> builder@ == self@ + role_token(role.into_spec().0),
            self@.is_prefix_of(builder@),
    {
        let id: RoleId = role.into();
        let token = id.to_string();
        self.push(token.as_str())
    }

    /// Appends the mention of the user that `user` converts into: always the
    /// token of some user, and where the conversion is specified, the token
    /// of the user that it names.
    pub fn user<U: Into<UserId>>(self, user: U) -> (builder: MessageBuilder)
        ensures
            exists|id: u64| builder@ == self@ + #[trigger] user_token(id),
            U::obeys_into_spec() ==> builder@ == self@ + user_token(user.into_spec().0),
            self@.is_prefix_of(builder@),
    {
        let id: UserId = user.into();
        let token = id.to_string();
        self.push(token.as_str())
    }
}

impl Default for MessageBuilder {
    /// A builder with no text.
    fn default() -> (builder: MessageBuilder)
        ensures
            builder@ == Seq::<char>::empty(),
    {
        MessageBuilder(String::new())
    }
}

} // verus!
