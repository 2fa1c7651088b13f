use message_builder::builder::MessageBuilder;
use message_builder::model::ChannelId;
use message_builder::model::Emoji;
use message_builder::model::EmojiId;
use message_builder::model::GuildChannel;
use message_builder::model::Mentionable;
use message_builder::model::Role;
use message_builder::model::RoleId;
use message_builder::model::User;
use message_builder::model::UserId;

fn some_user() -> User {
    User { id: UserId(114941315417899012), name: String::from("zeyla") }
}

fn some_emoji() -> Emoji {
    Emoji { id: EmojiId(302516740095606785), name: String::from("smugAnimeFace") }
}

#[test]
fn new_builder_is_empty() {
    assert_eq!(MessageBuilder::new().build(), "");
    assert_eq!(MessageBuilder::new().0, "");
}

#[test]
fn default_builder_is_empty() {
    assert_eq!(MessageBuilder::default().build(), "");
}

#[test]
fn push_keeps_content() {
    let content = MessageBuilder::new().push("test").0;
    assert_eq!(content, "test");
}

#[test]
fn push_appends_in_order() {
    let message = MessageBuilder::new().push("test");
    assert_eq!(message.push("ing").0, "testing");
    assert_eq!(MessageBuilder::new().push("ab").push("cd").build(), "abcd");
    assert_eq!(MessageBuilder::new().push("cd").push("ab").build(), "cdab");
}

#[test]
fn push_inserts_no_separator() {
    assert_eq!(MessageBuilder::new().push("a").push("").push("b").build(), "ab");
    assert_eq!(MessageBuilder::new().push("").build(), "");
}

#[test]
fn push_does_not_escape() {
    let text = MessageBuilder::new().push(" <@1> *x* \n\u{e9}\u{1f600} ").build();
    assert_eq!(text, " <@1> *x* \n\u{e9}\u{1f600} ");
}

#[test]
fn to_string_matches_build() {
    let builder = MessageBuilder::new().push("Hi ").user(7u64);
    let shown = builder.to_string();
    let again = builder.to_string();
    assert_eq!(shown, again);
    assert_eq!(shown, "Hi <@7>");
    assert_eq!(builder.build(), shown);
}

#[test]
fn channel_by_raw_id() {
    assert_eq!(MessageBuilder::new().channel(123u64).build(), "<#123>");
}

#[test]
fn channel_by_id_or_entity() {
    let entity = GuildChannel { id: ChannelId(123), name: String::from("general") };
    let by_entity = MessageBuilder::new().channel(entity).build();
    let by_id = MessageBuilder::new().channel(ChannelId(123)).build();
    let by_number = MessageBuilder::new().channel(123u64).build();
    assert_eq!(by_entity, "<#123>");
    assert_eq!(by_id, by_entity);
    assert_eq!(by_number, by_entity);
}

#[test]
fn user_by_raw_id() {
    assert_eq!(MessageBuilder::new().user(42u64).build(), "<@42>");
}

#[test]
fn user_by_entity() {
    let user = User { id: UserId(42), name: String::from("someone") };
    assert_eq!(MessageBuilder::new().user(user).build(), "<@42>");
}

#[test]
fn role_by_raw_id_and_entity() {
    assert_eq!(MessageBuilder::new().role(5u64).build(), "<@&5>");
    let role = Role { id: RoleId(5), name: String::from("mods") };
    assert_eq!(MessageBuilder::new().role(role).build(), "<@&5>");
}

#[test]
fn emoji_is_shown_by_name_and_id() {
    let emoji = Emoji { id: EmojiId(9001), name: String::from("thonk") };
    assert_eq!(MessageBuilder::new().emoji(emoji).build(), "<:thonk:9001>");
}

#[test]
fn mention_after_push() {
    let user = some_user();
    let expected = format!("Hi {}", user.mention());
    assert_eq!(MessageBuilder::new().push("Hi ").mention(user).build(), expected);
    assert_eq!(expected, "Hi <@114941315417899012>");
}

#[test]
fn mention_is_not_deduplicated() {
    let text = MessageBuilder::new().mention(UserId(1)).mention(UserId(1)).build();
    assert_eq!(text, "<@1><@1>");
}

#[test]
fn message_with_user_and_emoji() {
    let user = some_user();
    let emoji = some_emoji();
    let expected = format!(
        "{}{}{}{}",
        "You sent a message, ",
        user.mention(),
        "! ",
        emoji.to_string()
    );
    let content = MessageBuilder::new()
        .push("You sent a message, ")
        .mention(user)
        .push("! ")
        .mention(emoji)
        .build();
    assert_eq!(content, expected);
    assert_eq!(
        content,
        "You sent a message, <@114941315417899012>! <:smugAnimeFace:302516740095606785>"
    );
}

#[test]
fn all_kinds_chain() {
    let text = MessageBuilder::new()
        .channel(1u64)
        .push(" ")
        .role(2u64)
        .push(" ")
        .user(3u64)
        .push(" ")
        .emoji(Emoji { id: EmojiId(4), name: String::from("e") })
        .build();
    assert_eq!(text, "<#1> <@&2> <@3> <:e:4>");
}
