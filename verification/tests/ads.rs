use healthdesk::ads::{
    fallback_ad_at, fallback_ads, html_escape, is_valid_hex_color, random_fallback_ad,
    sanitize_ad, sanitize_url, Ad,
};

fn ad(title: &str, description: &str, image: &str, click: &str, bg: &str, fg: &str, id: &str) -> Ad {
    Ad {
        title: title.to_string(),
        description: description.to_string(),
        image_url: image.to_string(),
        click_url: click.to_string(),
        bg_color: bg.to_string(),
        text_color: fg.to_string(),
        ad_id: id.to_string(),
    }
}

#[test]
fn escapes_markup_characters() {
    assert_eq!(html_escape(""), "");
    assert_eq!(html_escape("plain text"), "plain text");
    assert_eq!(html_escape("&"), "&amp;");
    assert_eq!(html_escape("<b>\"Tom & Jerry's\"</b>"),
        "&lt;b&gt;&quot;Tom &amp; Jerry&#x27;s&quot;&lt;/b&gt;");
    assert_eq!(html_escape("&amp;"), "&amp;amp;");
    assert_eq!(html_escape("zasadę <"), "zasadę &lt;");
}

#[test]
fn hex_colours() {
    assert!(is_valid_hex_color("#1a1f2b"));
    assert!(is_valid_hex_color("#FFFFFF"));
    assert!(is_valid_hex_color("#09afAF"));
    assert!(!is_valid_hex_color("1a1f2b#"));
    assert!(!is_valid_hex_color("#1a1f2"));
    assert!(!is_valid_hex_color("#1a1f2b0"));
    assert!(!is_valid_hex_color("#1a1f2g"));
    assert!(!is_valid_hex_color("#1a1f2G"));
    assert!(!is_valid_hex_color("#1a1f/b"));
    assert!(!is_valid_hex_color("#1a1f:b"));
    assert!(!is_valid_hex_color("#1a1f@b"));
    assert!(!is_valid_hex_color("#1a1f`b"));
    assert!(!is_valid_hex_color(""));
    assert!(!is_valid_hex_color("#ęęęęęę"));
    assert!(!is_valid_hex_color("#€abc"));
    assert!(!is_valid_hex_color("red"));
}

#[test]
fn only_web_addresses_pass() {
    assert_eq!(sanitize_url("https://healthdesk.app/pro"), "https://healthdesk.app/pro");
    assert_eq!(sanitize_url("http://a.b/?x=1&y=<2>"), "http://a.b/?x=1&amp;y=&lt;2&gt;");
    assert_eq!(sanitize_url("javascript:alert(1)"), "");
    assert_eq!(sanitize_url("ftp://a.b"), "");
    assert_eq!(sanitize_url("HTTPS://a.b"), "");
    assert_eq!(sanitize_url(" https://a.b"), "");
    assert_eq!(sanitize_url("http:/"), "");
    assert_eq!(sanitize_url(""), "");
}

#[test]
fn sanitizes_every_field_but_the_identifier() {
    let mut a = ad("<T>", "a & b", "data:x", "https://x.y/'", "blue", "#00ff00", "<id>");
    sanitize_ad(&mut a);
    assert_eq!(a, ad("&lt;T&gt;", "a &amp; b", "", "https://x.y/&#x27;", "#1a1f2b", "#00ff00", "<id>"));
    let mut a = ad("T", "D", "http://i", "nope", "#ABCDEF", "white", "7");
    sanitize_ad(&mut a);
    assert_eq!(a, ad("T", "D", "http://i", "", "#ABCDEF", "#ffffff", "7"));
}

#[test]
fn builtin_ads_in_english() {
    for lang in ["en", "de", "", "p", "PL"] {
        assert_eq!(
            fallback_ads(lang),
            vec![
                ad("HealthDesk Pro", "Upgrade for advanced features", "",
                    "https://healthdesk.app/pro", "#1a1f2b", "#ffffff", "fallback_1"),
                ad("Stay Healthy", "Take regular breaks for better health", "",
                    "https://healthdesk.app", "#1a1f2b", "#ffffff", "fallback_2"),
                ad("Eye Care Tips", "Follow the 20-20-20 rule daily", "",
                    "https://healthdesk.app/tips", "#1a1f2b", "#ffffff", "fallback_3"),
            ]
        );
    }
}

#[test]
fn builtin_ads_in_polish() {
    for lang in ["pl", "pl_PL", "plx"] {
        assert_eq!(
            fallback_ads(lang),
            vec![
                ad("HealthDesk Pro", "Ulepsz do wersji z zaawansowanymi funkcjami", "",
                    "https://healthdesk.app/pro", "#1a1f2b", "#ffffff", "fallback_1"),
                ad("Dbaj o zdrowie", "Rób regularne przerwy dla lepszego zdrowia", "",
                    "https://healthdesk.app", "#1a1f2b", "#ffffff", "fallback_2"),
                ad("Dbaj o wzrok", "Stosuj zasadę 20-20-20 każdego dnia", "",
                    "https://healthdesk.app/tips", "#1a1f2b", "#ffffff", "fallback_3"),
            ]
        );
    }
}

#[test]
fn builtin_ad_by_index() {
    let all = fallback_ads("en");
    assert_eq!(fallback_ad_at("en", 0), Some(all[0].clone()));
    assert_eq!(fallback_ad_at("en", 1), Some(all[1].clone()));
    assert_eq!(fallback_ad_at("en", 2), Some(all[2].clone()));
    assert_eq!(fallback_ad_at("en", 3), None);
    assert_eq!(fallback_ad_at("en", usize::MAX), None);
}

#[test]
fn random_builtin_ad_is_one_of_the_three() {
    let all = fallback_ads("pl");
    let mut seen = [false; 3];
    for _ in 0..400 {
        let picked = random_fallback_ad("pl");
        let at = all.iter().position(|a| *a == picked);
        assert!(at.is_some());
        seen[at.unwrap()] = true;
    }
    // Each of the three comes up: the pick is not a constant.
    assert_eq!(seen, [true, true, true]);
}
