//! The entities that a message can refer to, and the text by which each is
//! mentioned.
use vstd::prelude::*;
use vstd::string::*;
use vstd::std_specs::convert::FromSpecImpl;
use crate::decimal::decimal;
use crate::decimal::push_decimal;

verus! {

/// The token by which a user is mentioned: `<@`, the id in decimal, `>`.
pub open spec fn user_token(id: u64) -> Seq<char> {
    seq!['<', '@'] + decimal(id as nat) + seq!['>']
}

/// The token by which a role is mentioned: `<@&`, the id in decimal, `>`.
pub open spec fn role_token(id: u64) -> Seq<char> {
    seq!['<', '@', '&'] + decimal(id as nat) + seq!['>']
}

/// The token by which a channel is mentioned: `<#`, the id in decimal, `>`.
pub open spec fn channel_token(id: u64) -> Seq<char> {
    seq!['<', '#'] + decimal(id as nat) + seq!['>']
}

/// The text that shows a custom emoji inline: `<:`, its name, `:`, its id in
/// decimal, `>`.
pub open spec fn emoji_token(name: Seq<char>, id: u64) -> Seq<char> {
    seq!['<', ':'] + name + seq![':'] + decimal(id as nat) + seq!['>']
}

/// Writes `opening`, then `id` in decimal, then `>`.
fn bracketed(opening: &str, id: u64) -> (text: String)
    ensures
        text@ == opening@ + decimal(id as nat) + seq!['>'],
{
    proof {
        reveal_strlit(">");
    }
    let mut text = String::from_str(opening);
    push_decimal(&mut text, id);
    text.append(">");
    assert(text@ =~= opening@ + decimal(id as nat) + seq!['>']);
    text
}

/// Something that can be referred to inside a message by a token of its own.
pub trait Mentionable {
    /// The token, as a sequence of characters.
    spec fn mention_text(&self) -> Seq<char>;

    /// Writes the token out.
    fn mention(&self) -> (token: String)
        ensures
            token@ == self.mention_text(),
    ;
}

/// Identifies a channel.
#[derive(Clone, Copy, Debug, PartialEq, Eq, Structural, Hash)]
pub struct ChannelId(pub u64);

/// Identifies a role.
#[derive(Clone, Copy, Debug, PartialEq, Eq, Structural, Hash)]
pub struct RoleId(pub u64);

/// Identifies a user.
#[derive(Clone, Copy, Debug, PartialEq, Eq, Structural, Hash)]
pub struct UserId(pub u64);

/// Identifies a custom emoji.
#[derive(Clone, Copy, Debug, PartialEq, Eq, Structural, Hash)]
pub struct EmojiId(pub u64);

/// A channel of a guild.
#[derive(Clone, Debug)]
pub struct GuildChannel {
    pub id: ChannelId,
    pub name: String,
}

/// A role of a guild.
#[derive(Clone, Debug)]
pub struct Role {
    pub id: RoleId,
    pub name: String,
}

/// A user.
#[derive(Clone, Debug)]
pub struct User {
    pub id: UserId,
    pub name: String,
}

/// A custom emoji.
#[derive(Clone, Debug)]
pub struct Emoji {
    pub id: EmojiId,
    pub name: String,
}

impl ChannelId {
    /// The channel's mention token, `<#ID>`.
    pub fn to_string(&self) -> (text: String)
        ensures
            text@ == channel_token(self.0),
    {
        proof {
            reveal_strlit("<#");
        }
        let text = bracketed("<#", self.0);
        assert(text@ =~= channel_token(self.0));
        text
    }
}

impl RoleId {
    /// The role's mention token, `<@&ID>`.
    pub fn to_string(&self) -> (text: String)
        ensures
            text@ == role_token(self.0),
    {
        proof {
            reveal_strlit("<@&");
        }
        let text = bracketed("<@&", self.0);
        assert(text@ =~= role_token(self.0));
        text
    }
}

impl UserId {
    /// The user's mention token, `<@ID>`.
    pub fn to_string(&self) -> (text: String)
        ensures
            text@ == user_token(self.0),
    {
        proof {
            reveal_strlit("<@");
        }
        let text = bracketed("<@", self.0);
        assert(text@ =~= user_token(self.0));
        text
    }
}

impl Emoji {
    /// The text that makes a client render the emoji, `<:NAME:ID>`.
    pub fn to_string(&self) -> (text: String)
        ensures
            text@ == emoji_token(self.name@, self.id.0),
    {
        proof {
            reveal_strlit("<:");
            reveal_strlit(":");
        }
        let mut opening = String::from_str("<:");
        opening.append(self.name.as_str());
        opening.append(":");
        let text = bracketed(opening.as_str(), self.id.0);
        assert(text@ =~= emoji_token(self.name@, self.id.0));
        text
    }
}

impl From<u64> for ChannelId {
    fn from(id: u64) -> (r: ChannelId) {
        ChannelId(id)
    }
}

impl FromSpecImpl<u64> for ChannelId {
    open spec fn obeys_from_spec() -> bool {
        true
    }

    open spec fn from_spec(id: u64) -> ChannelId {
        ChannelId(id)
    }
}

impl From<GuildChannel> for ChannelId {
    fn from(channel: GuildChannel) -> (r: ChannelId) {
        channel.id
    }
}

impl FromSpecImpl<GuildChannel> for ChannelId {
    open spec fn obeys_from_spec() -> bool {
        true
    }

    open spec fn from_spec(channel: GuildChannel) -> ChannelId {
        channel.id
    }
}

impl From<u64> for RoleId {
    fn from(id: u64) -> (r: RoleId) {
        RoleId(id)
    }
}

impl FromSpecImpl<u64> for RoleId {
    open spec fn obeys_from_spec() -> bool {
        true
    }

    open spec fn from_spec(id: u64) -> RoleId {
        RoleId(id)
    }
}

impl From<Role> for RoleId {
    fn from(role: Role) -> (r: RoleId) {
        role.id
    }
}

impl FromSpecImpl<Role> for RoleId {
    open spec fn obeys_from_spec() -> bool {
        true
    }

    open spec fn from_spec(role: Role) -> RoleId {
        role.id
    }
}

impl From<u64> for UserId {
    fn from(id: u64) -> (r: UserId) {
        UserId(id)
    }
}

impl FromSpecImpl<u64> for UserId {
    open spec fn obeys_from_spec() -> bool {
        true
    }

    open spec fn from_spec(id: u64) -> UserId {
        UserId(id)
    }
}

impl From<User> for UserId {
    fn from(user: User) -> (r: UserId) {
        user.id
    }
}

impl FromSpecImpl<User> for UserId {
    open spec fn obeys_from_spec() -> bool {
        true
    }

    open spec fn from_spec(user: User) -> UserId {
        user.id
    }
}

impl Mentionable for ChannelId {
    open spec fn mention_text(&self) -> Seq<char> {
        channel_token(self.0)
    }

    fn mention(&self) -> (token: String) {
        self.to_string()
    }
}

impl Mentionable for GuildChannel {
    open spec fn mention_text(&self) -> Seq<char> {
        channel_token(self.id.0)
    }

    fn mention(&self) -> (token: String) {
        self.id.to_string()
    }
}

impl Mentionable for RoleId {
    open spec fn mention_text(&self) -> Seq<char> {
        role_token(self.0)
    }

    fn mention(&self) -> (token: String) {
        self.to_string()
    }
}

impl Mentionable for Role {
    open spec fn mention_text(&self) -> Seq<char> {
        role_token(self.id.0)
    }

    fn mention(&self) -> (token: String) {
        self.id.to_string()
    }
}

impl Mentionable for UserId {
    open spec fn mention_text(&self) -> Seq<char> {
        user_token(self.0)
    }

    fn mention(&self) -> (token: String) {
        self.to_string()
    }
}

impl Mentionable for User {
    open spec fn mention_text(&self) -> Seq<char> {
        user_token(self.id.0)
    }

    fn mention(&self) -> (token: String) {
        self.id.to_string()
    }
}

impl Mentionable for Emoji {
    open spec fn mention_text(&self) -> Seq<char> {
        emoji_token(self.name@, self.id.0)
    }

    fn mention(&self) -> (token: String) {
        self.to_string()
    }
}

} // verus!
