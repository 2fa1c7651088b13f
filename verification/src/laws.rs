//! What holds of every chain of calls on a builder. Each law speaks of the
//! functions themselves: of whatever they may return on the given
//! arguments.
use vstd::prelude::*;
use crate::builder::MessageBuilder;
use crate::model::channel_token;
use crate::model::role_token;
use crate::model::user_token;
use crate::model::ChannelId;
use crate::model::GuildChannel;
use crate::model::Mentionable;
use crate::model::Role;
use crate::model::RoleId;
use crate::model::User;
use crate::model::UserId;

verus! {

/// A new builder, built at once, gives the empty text.
pub proof fn lemma_new_builds_empty(fresh: MessageBuilder, text: String)
    requires
        call_ensures(MessageBuilder::new, (), fresh),
        call_ensures(MessageBuilder::build, (fresh,), text),
    ensures
        text@ == Seq::<char>::empty(),
        text@.len() == 0,
{
}

/// Pushing `a` and then `b` onto a new builder gives `a` followed by `b`:
/// in the order of the calls, with no separator.
pub proof fn lemma_push_push(
    fresh: MessageBuilder,
    first: MessageBuilder,
    second: MessageBuilder,
    text: String,
    a: &str,
    b: &str,
)
    requires
        call_ensures(MessageBuilder::new, (), fresh),
        call_ensures(MessageBuilder::push, (fresh, a), first),
        call_ensures(MessageBuilder::push, (first, b), second),
        call_ensures(MessageBuilder::build, (second,), text),
    ensures
        text@ == a@ + b@,
{
    assert(text@ =~= a@ + b@);
}

/// Looking at the text of a builder before building it shows the very text
/// that building it gives out.
pub proof fn lemma_to_string_matches_build(builder: MessageBuilder, shown: String, built: String)
    requires
        call_ensures(MessageBuilder::to_string, (&builder,), shown),
        call_ensures(MessageBuilder::build, (builder,), built),
    ensures
        shown == built,
        shown@ == built@,
{
}

/// Pushing `a` onto a new builder and then mentioning `item` gives `a`
/// followed by the token that `item` writes for itself: nothing is
/// reordered, nothing dropped.
pub proof fn lemma_push_mention<M: Mentionable>(
    fresh: MessageBuilder,
    first: MessageBuilder,
    second: MessageBuilder,
    text: String,
    a: &str,
    item: M,
    token: String,
)
    requires
        call_ensures(MessageBuilder::new, (), fresh),
        call_ensures(MessageBuilder::push, (fresh, a), first),
        call_ensures(MessageBuilder::mention::<M>, (first, item), second),
        call_ensures(MessageBuilder::build, (second,), text),
        call_ensures(M::mention, (&item,), token),
    ensures
        text@ == a@ + token@,
{
    assert(text@ =~= a@ + token@);
}

/// A channel is mentioned in the same way whether it is given as a bare id
/// or as the entity that carries this id: by the channel token of the id.
pub proof fn lemma_channel_by_id_or_entity(
    before: MessageBuilder,
    id: u64,
    entity: GuildChannel,
    by_id: MessageBuilder,
    by_entity: MessageBuilder,
)
    requires
        entity.id == ChannelId(id),
        call_ensures(MessageBuilder::channel::<u64>, (before, id), by_id),
        call_ensures(MessageBuilder::channel::<GuildChannel>, (before, entity), by_entity),
    ensures
        by_id@ == before@ + channel_token(id),
        by_entity@ == by_id@,
{
}

/// A role is mentioned in the same way whether it is given as a bare id or
/// as the entity that carries this id: by the role token of the id.
pub proof fn lemma_role_by_id_or_entity(
    before: MessageBuilder,
    id: u64,
    entity: Role,
    by_id: MessageBuilder,
    by_entity: MessageBuilder,
)
    requires
        entity.id == RoleId(id),
        call_ensures(MessageBuilder::role::<u64>, (before, id), by_id),
        call_ensures(MessageBuilder::role::<Role>, (before, entity), by_entity),
    ensures
        by_id@ == before@ + role_token(id),
        by_entity@ == by_id@,
{
}

/// A user is mentioned in the same way whether it is given as a bare id or
/// as the entity that carries this id: by the user token of the id.
pub proof fn lemma_user_by_id_or_entity(
    before: MessageBuilder,
    id: u64,
    entity: User,
    by_id: MessageBuilder,
    by_entity: MessageBuilder,
)
    requires
        entity.id == UserId(id),
        call_ensures(MessageBuilder::user::<u64>, (before, id), by_id),
        call_ensures(MessageBuilder::user::<User>, (before, entity), by_entity),
    ensures
        by_id@ == before@ + user_token(id),
        by_entity@ == by_id@,
{
}

} // verus!
