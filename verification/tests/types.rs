use derust::types::channel::CreatePrivateChannelBody;
use derust::types::user::{PremiumType, User};
use derust::types::{Snowflake, Timestamp};
use derust::{API_URL, GATEWAY_URL};

#[test]
fn base_urls() {
    assert_eq!(API_URL, "https://discord.com/api/v6");
    assert_eq!(GATEWAY_URL, "wss://gateway.discord.gg");
}

#[test]
fn timestamp_needs_nanoseconds_below_one_second() {
    assert_eq!(Timestamp::new(0, 0), Some(Timestamp { seconds: 0, nanoseconds: 0 }));
    assert_eq!(
        Timestamp::new(-5, 999_999_999),
        Some(Timestamp { seconds: -5, nanoseconds: 999_999_999 })
    );
    assert_eq!(Timestamp::new(1, 1_000_000_000), None);
    assert_eq!(Timestamp::new(1, u32::MAX), None);
}

#[test]
fn private_channel_body_names_the_user() {
    let user = User {
        id: Snowflake(1234567890123),
        username: String::from("someone"),
        discriminator: String::from("0420"),
        avatar: String::new(),
        verified: false,
        email: String::new(),
        flags: 0,
        premium_type: PremiumType::Nitro,
        public_flags: 0,
    };
    assert_eq!(
        user.create_private_channel(),
        CreatePrivateChannelBody { recipient_id: Snowflake(1234567890123) }
    );
}
