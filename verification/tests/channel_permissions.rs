use coding_companion::commands::CommandError;
use coding_companion::permissions::{
    lock_permissions, overwrite_for_role, permission_set, unlock_permissions, Permission,
};
use coding_companion::reply::Tint;
use coding_companion::util::{apply_permissions, invalid_arguments, ChannelLookup};
use serenity::model::Permissions;

#[test]
fn lock_keeps_channel_readable_but_silent() {
    let p = lock_permissions();
    assert!(p.allows(Permission::ViewChannel));
    assert!(p.allows(Permission::ReadMessageHistory));
    assert!(!p.allows(Permission::SendMessages));
    assert_eq!(p.bits(), 0x10400);
}

#[test]
fn unlock_lets_everyone_post() {
    let p = unlock_permissions();
    assert!(p.allows(Permission::SendMessages));
    assert!(p.allows(Permission::ViewChannel));
    assert_eq!(lock_permissions().bits() & !p.bits(), 0);
}

#[test]
fn permission_set_of_nothing_is_empty() {
    assert_eq!(permission_set(&Vec::new()).bits(), 0);
    assert_eq!(
        permission_set(&vec![Permission::AddReactions, Permission::AddReactions]).bits(),
        Permissions::ADD_REACTIONS.bits()
    );
}

#[test]
fn overwrite_denies_everything_else() {
    let allow = lock_permissions();
    let o = overwrite_for_role(allow, 99);
    assert_eq!(o.role_id, 99);
    assert_eq!(o.allow, allow.bits());
    assert_eq!(o.deny, (!Permissions::from_bits_truncate(allow.bits())).bits());
    assert_eq!(o.allow & o.deny, 0);
    assert_eq!(o.allow | o.deny, Permissions::all().bits());
}

#[test]
fn apply_permissions_outside_guild_channel_fails() {
    assert_eq!(
        apply_permissions(ChannelLookup::NotGuildChannel, lock_permissions()).err(),
        Some(CommandError::NotGuildChannel)
    );
}

#[test]
fn apply_permissions_uncached_guild_does_nothing() {
    assert!(matches!(apply_permissions(ChannelLookup::GuildUncached, lock_permissions()), Ok(None)));
}

#[test]
fn apply_permissions_without_role_fails() {
    assert_eq!(
        apply_permissions(ChannelLookup::GuildCached { role_id: None }, lock_permissions()).err(),
        Some(CommandError::RoleNotFound)
    );
}

#[test]
fn apply_permissions_targets_role() {
    match apply_permissions(ChannelLookup::GuildCached { role_id: Some(5) }, unlock_permissions()) {
        Ok(Some(o)) => {
            assert_eq!(o.role_id, 5);
            assert_eq!(o.allow, unlock_permissions().bits());
            assert_eq!(o.deny, Permissions::all().bits() & !unlock_permissions().bits());
        }
        _ => panic!("expected an overwrite"),
    }
}

#[test]
fn invalid_arguments_reply() {
    let r = invalid_arguments();
    assert!(r.with_source);
    assert!(r.ephemeral);
    assert_eq!(r.title.as_deref(), Some("Invalid arguments!"));
    assert_eq!(r.description, "Please make sure you provided the correct arguments for the command!");
    assert_eq!(r.tint, Tint::Red);
}
