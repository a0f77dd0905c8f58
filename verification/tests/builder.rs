//! Tests of the bot builder's validation order and field collection.

use oxbow::builder::Bot;
use oxbow::builder::BotBuildError;
use oxbow::builder::BotBuilder;

fn build_err(builder: BotBuilder) -> BotBuildError {
    match builder.build() {
        Err(e) => e,
        Ok(_) => panic!("expected the build to fail"),
    }
}

#[test]
fn build_reports_missing_values_in_order() {
    assert_eq!(build_err(Bot::builder()), BotBuildError::NoClientId);

    assert_eq!(
        build_err(
            Bot::builder()
                .twitch_credentials("id".into(), "secret".into())
                .twitch_name("botname".into())
        ),
        BotBuildError::NoChannels
    );

    assert_eq!(
        build_err(
            Bot::builder()
                .twitch_credentials("id".into(), "secret".into())
                .twitch_name("botname".into())
                .add_channel("#foo".into())
        ),
        BotBuildError::NoPrefix
    );
}

#[test]
fn build_collects_all_fields() {
    let bot = Bot::the_builder()
        .twitch_credentials("id".into(), "secret".into())
        .twitch_name("botname".into())
        .add_channel("#foo".into())
        .extend_channels(vec!["#bar".into(), "#baz".into()])
        .prefix('!')
        .build();
    let bot = match bot {
        Ok(b) => b,
        Err(_) => panic!("a fully configured builder should build"),
    };

    assert_eq!(bot.client_id, "id");
    assert_eq!(bot.client_secret, "secret");
    assert_eq!(bot.twitch_name, "botname");
    assert_eq!(bot.channels, vec!["#foo".to_string(), "#bar".into(), "#baz".into()]);
    assert_eq!(bot.prefix, '!');
}
