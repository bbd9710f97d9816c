use serenity::builder::{CreateCommandOption, EditCommand, InstallationContext, InteractionContext};
use serenity::model::{
    format_icon_url, format_splash_url, GuildId, GuildInfo, InviteGuild, Permissions,
};
use serenity::secrets::{SecretString, Token, TokenError};

#[test]
fn icon_url_plain_hash_is_webp() {
    let url = format_icon_url(123456789, b"abcdef0123");
    assert_eq!(
        String::from_utf8(url).unwrap(),
        "https://cdn.discordapp.com/icons/123456789/abcdef0123.webp?size=1024"
    );
}

#[test]
fn icon_url_animated_hash_is_gif() {
    let url = format_icon_url(5, b"a_animhash");
    assert_eq!(
        String::from_utf8(url).unwrap(),
        "https://cdn.discordapp.com/icons/5/a_animhash.gif?size=1024"
    );
}

#[test]
fn splash_url_format() {
    let url = format_splash_url(42, b"splashhash");
    assert_eq!(
        String::from_utf8(url).unwrap(),
        "https://cdn.discordapp.com/splashes/42/splashhash.webp?size=4096"
    );
}

#[test]
fn guild_info_icon_url() {
    let mut info = GuildInfo {
        id: GuildId::new(7),
        name: "g".to_owned(),
        icon: Some("hash".to_owned()),
        owner: false,
        permissions: Permissions::empty(),
        features: Vec::new(),
    };
    let url = info.icon_url().expect("icon set");
    assert_eq!(
        String::from_utf8(url).unwrap(),
        "https://cdn.discordapp.com/icons/7/hash.webp?size=1024"
    );
    info.icon = None;
    assert!(info.icon_url().is_none());
}

#[test]
fn invite_guild_splash_url() {
    let guild = InviteGuild {
        id: GuildId::new(9),
        name: "g".to_owned(),
        splash: Some("sp".to_owned()),
    };
    let url = guild.splash_url().expect("splash set");
    assert_eq!(
        String::from_utf8(url).unwrap(),
        "https://cdn.discordapp.com/splashes/9/sp.webp?size=4096"
    );
}

#[test]
fn secret_string_round_trip() {
    let s = SecretString::new("hunter2".to_owned());
    assert_eq!(s.expose_secret(), "hunter2");
}

#[test]
fn token_accepts_three_part_tokens() {
    let t = Token::parse("Mjg4NzYwMjQxMzYzODc3ODg4.C_ikow.j3VupLBuE1QWZng3TMGH0z_UAwg").unwrap();
    assert_eq!(
        t.expose_secret(),
        "Bot Mjg4NzYwMjQxMzYzODc3ODg4.C_ikow.j3VupLBuE1QWZng3TMGH0z_UAwg"
    );
}

#[test]
fn token_rejects_malformed_tokens() {
    assert!(matches!(
        Token::parse("Mjg4NzYwMjQxMzYzODc3ODg4"),
        Err(TokenError::InvalidToken)
    ));
    assert!(matches!(Token::parse(""), Err(TokenError::InvalidToken)));
    assert!(matches!(Token::parse("a..b"), Err(TokenError::InvalidToken)));
    assert!(matches!(Token::parse("a.b.c.d"), Err(TokenError::InvalidToken)));
    assert!(matches!(Token::parse(".a.b.c"), Err(TokenError::InvalidToken)));
    assert!(matches!(Token::parse("a.b.c."), Err(TokenError::InvalidToken)));
}

#[test]
fn token_strips_prefixes_and_whitespace() {
    let t = Token::parse("  Bot abc.def.ghi \n").unwrap();
    assert_eq!(t.expose_secret(), "Bot abc.def.ghi");
    let t = Token::parse("Bearer abc.def.ghi").unwrap();
    assert_eq!(t.expose_secret(), "Bot abc.def.ghi");
    let t = Token::parse("abc.def.ghi").unwrap();
    assert_eq!(t.expose_secret(), "Bot abc.def.ghi");
}

#[test]
fn token_caps_stored_secret_at_128_bytes() {
    let long = format!("{}.{}.{}", "a".repeat(120), "b".repeat(120), "c".repeat(120));
    let t = Token::parse(&long).unwrap();
    let secret = t.expose_secret();
    assert!(secret.starts_with("Bot "));
    assert_eq!(secret.len(), 4 + 128);
    assert_eq!(&secret[4..124], &"a".repeat(120));
}

#[test]
fn edit_command_builds_with_all_fields() {
    let cmd = EditCommand::new()
        .name("birthday")
        .name_localized("el", "localized-name")
        .description("Wish a friend a happy birthday")
        .description_localized("el", "localized-description")
        .add_option(CreateCommandOption::new(3, "who".to_owned(), "the friend".to_owned()))
        .default_member_permissions(Permissions::from_bits_retain(8))
        .dm_permission(true)
        .add_integration_type(InstallationContext::Guild)
        .add_context(InteractionContext::BotDm)
        .nsfw(false);
    let shown = format!("{:?}", cmd);
    assert!(shown.contains("birthday"));
    assert!(shown.contains("localized-name"));
    assert!(shown.contains("who"));
}

#[test]
fn edit_command_set_options_replaces() {
    let cmd = EditCommand::new()
        .add_option(CreateCommandOption::new(1, "old".to_owned(), "o".to_owned()))
        .set_options(vec![CreateCommandOption::new(2, "only".to_owned(), "n".to_owned())]);
    let shown = format!("{:?}", cmd);
    assert!(shown.contains("only"));
    assert!(!shown.contains("\"old\""));
}

#[test]
fn edit_command_contexts_and_integrations() {
    let cmd = EditCommand::new()
        .integration_types(vec![InstallationContext::User])
        .contexts(vec![InteractionContext::Guild, InteractionContext::PrivateChannel]);
    let shown = format!("{:?}", cmd);
    assert!(shown.contains("User"));
    assert!(shown.contains("PrivateChannel"));
}
