use tweet_nab::models::ScrapedExtendedEntities;
use tweet_nab::models::ScrapedExtendedMedia;
use tweet_nab::models::ScrapedTweet;
use tweet_nab::models::ScrapedUser;
use tweet_nab::models::ScrapedVariant;
use tweet_nab::models::ScrapedVideoInfo;
use tweet_nab::normalize::normalize;
use tweet_nab::normalize::NormalizeError;

fn tweet_with_media(media: Vec<ScrapedExtendedMedia>) -> ScrapedTweet {
    ScrapedTweet {
        full_text: "hello".to_string(),
        user: ScrapedUser { screen_name: "someone".to_string() },
        extended_entities: Some(ScrapedExtendedEntities { media }),
    }
}

fn variant(bitrate: Option<u32>, url: &str) -> ScrapedVariant {
    ScrapedVariant {
        bitrate,
        content_type: "video/mp4".to_string(),
        url: url.to_string(),
    }
}

fn video_entity(variants: Vec<ScrapedVariant>) -> ScrapedExtendedMedia {
    ScrapedExtendedMedia {
        media_type: "video".to_string(),
        video_info: Some(ScrapedVideoInfo { variants }),
        media_url_https: "https://example/video-thumb.jpg".to_string(),
    }
}

#[test]
fn highest_bitrate_variant_wins() {
    let t = tweet_with_media(vec![video_entity(vec![
        variant(Some(500), "A"),
        variant(Some(1200), "B"),
        variant(None, "C"),
    ])]);
    let n = normalize(&t).unwrap();
    assert_eq!(n.types, vec!["mp4".to_string()]);
    assert_eq!(n.media, vec!["B".to_string()]);
}

#[test]
fn photo_gets_original_quality_suffix() {
    let t = tweet_with_media(vec![ScrapedExtendedMedia {
        media_type: "photo".to_string(),
        video_info: None,
        media_url_https: "https://example/img.jpg".to_string(),
    }]);
    let n = normalize(&t).unwrap();
    assert_eq!(n.types, vec!["jpg".to_string()]);
    assert_eq!(n.media, vec!["https://example/img.jpg:orig".to_string()]);
}

#[test]
fn animated_gif_counts_as_video() {
    let mut e = video_entity(vec![variant(Some(700), "G")]);
    e.media_type = "animated_gif".to_string();
    let t = tweet_with_media(vec![e]);
    let n = normalize(&t).unwrap();
    assert_eq!(n.types, vec!["mp4".to_string()]);
    assert_eq!(n.media, vec!["G".to_string()]);
}

#[test]
fn unknown_kind_gets_tag_but_no_url() {
    let t = tweet_with_media(vec![
        ScrapedExtendedMedia {
            media_type: "hologram".to_string(),
            video_info: None,
            media_url_https: "https://example/h".to_string(),
        },
        ScrapedExtendedMedia {
            media_type: "photo".to_string(),
            video_info: None,
            media_url_https: "https://example/p.jpg".to_string(),
        },
    ]);
    let n = normalize(&t).unwrap();
    assert_eq!(n.types, vec!["unknown".to_string(), "jpg".to_string()]);
    assert_eq!(n.media, vec!["https://example/p.jpg:orig".to_string()]);
}

#[test]
fn video_without_variant_list_fails() {
    let t = tweet_with_media(vec![ScrapedExtendedMedia {
        media_type: "video".to_string(),
        video_info: None,
        media_url_https: "https://example/v".to_string(),
    }]);
    assert_eq!(normalize(&t).unwrap_err(), NormalizeError::MissingVariants);
}

#[test]
fn video_with_empty_variant_list_fails() {
    let t = tweet_with_media(vec![video_entity(vec![])]);
    assert_eq!(normalize(&t).unwrap_err(), NormalizeError::MissingVariants);
}

#[test]
fn media_order_is_preserved() {
    let t = tweet_with_media(vec![
        ScrapedExtendedMedia {
            media_type: "photo".to_string(),
            video_info: None,
            media_url_https: "https://example/1.jpg".to_string(),
        },
        video_entity(vec![variant(Some(64), "low"), variant(Some(256), "high")]),
        ScrapedExtendedMedia {
            media_type: "photo".to_string(),
            video_info: None,
            media_url_https: "https://example/2.jpg".to_string(),
        },
    ]);
    let n = normalize(&t).unwrap();
    assert_eq!(
        n.types,
        vec!["jpg".to_string(), "mp4".to_string(), "jpg".to_string()]
    );
    assert_eq!(
        n.media,
        vec![
            "https://example/1.jpg:orig".to_string(),
            "high".to_string(),
            "https://example/2.jpg:orig".to_string()
        ]
    );
}

#[test]
fn tweet_without_media_keeps_author_and_text() {
    let t = ScrapedTweet {
        full_text: "just words".to_string(),
        user: ScrapedUser { screen_name: "writer".to_string() },
        extended_entities: None,
    };
    let n = normalize(&t).unwrap();
    assert_eq!(n.username, "writer".to_string());
    assert_eq!(n.text, "just words".to_string());
    assert!(n.types.is_empty());
    assert!(n.media.is_empty());
}

#[test]
fn normalize_is_repeatable() {
    let t = tweet_with_media(vec![video_entity(vec![
        variant(Some(500), "A"),
        variant(Some(1200), "B"),
    ])]);
    let n1 = normalize(&t).unwrap();
    let n2 = normalize(&t).unwrap();
    assert_eq!(n1.username, n2.username);
    assert_eq!(n1.text, n2.text);
    assert_eq!(n1.types, n2.types);
    assert_eq!(n1.media, n2.media);
}

#[test]
fn bitrate_tie_picks_a_maximal_variant() {
    let t = tweet_with_media(vec![video_entity(vec![
        variant(Some(900), "first"),
        variant(Some(900), "second"),
        variant(Some(100), "third"),
    ])]);
    let n = normalize(&t).unwrap();
    assert!(n.media[0] == "first".to_string() || n.media[0] == "second".to_string());
}
