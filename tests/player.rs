use runecast_protocol::player::{PlayerContext, PlayerIdentity};

#[test]
fn test_player_identity_new() {
    let identity = PlayerIdentity::new(123, "TestUser", Some("http://avatar.url".to_string()));
    assert_eq!(identity.user_id, 123);
    assert_eq!(identity.username, "TestUser");
    assert_eq!(identity.avatar_url, Some("http://avatar.url".to_string()));
}

#[test]
fn test_player_context_new() {
    let ctx = PlayerContext::new(123, "TestUser", None, false);
    assert_eq!(ctx.user_id(), 123);
    assert_eq!(ctx.username(), "TestUser");
    assert_eq!(ctx.avatar_url(), None);
    assert!(!ctx.is_admin);
    assert!(!ctx.in_lobby());
    assert!(!ctx.in_game());
}

#[test]
fn test_player_context_state_mutations() {
    let mut ctx = PlayerContext::new(123, "TestUser", None, false);

    ctx.set_lobby(Some("lobby-1".to_string()));
    assert!(ctx.in_lobby());
    assert_eq!(ctx.lobby_id, Some("lobby-1".to_string()));

    ctx.set_game(Some("game-1".to_string()), false);
    assert!(ctx.in_game());
    assert!(ctx.is_playing());
    assert!(!ctx.is_spectating);

    ctx.set_game(Some("game-1".to_string()), true);
    assert!(ctx.in_game());
    assert!(!ctx.is_playing());
    assert!(ctx.is_spectating);

    ctx.set_game(None, false);
    assert!(!ctx.in_game());

    ctx.set_lobby(None);
    assert!(!ctx.in_lobby());
}

#[test]
fn test_player_context_from_identity() {
    let identity = PlayerIdentity::new(456, "FromIdentity", Some("http://example.com".to_string()));
    let ctx = PlayerContext::from_identity(identity.clone(), true);

    assert_eq!(ctx.user_id(), 456);
    assert_eq!(ctx.username(), "FromIdentity");
    assert_eq!(ctx.avatar_url(), Some("http://example.com"));
    assert!(ctx.is_admin);
    assert!(!ctx.in_lobby());
    assert!(!ctx.in_game());
    assert!(!ctx.is_spectating);
}

#[test]
fn player_context_keeps_identity_across_moves() {
    let identity = PlayerIdentity::new(7, "Seven", None);
    let mut ctx = PlayerContext::from_identity(identity.clone(), false);
    ctx.set_lobby(Some("l".to_string()));
    ctx.set_game(Some("g".to_string()), true);
    assert_eq!(ctx.identity, identity);
    assert_eq!(ctx.lobby_id, Some("l".to_string()));
    assert_eq!(ctx.avatar_url(), None);
}
