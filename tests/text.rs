use vocab_review::decimal::{format_index, parse_index};
use vocab_review::render::{
    delete_cookie_js, hitcount, makrdown_parse_clean, play_audio_without_control, robots,
    toggle_active_js, toggle_js,
};
use vocab_review::text::{str_contains, str_eq};
use vocab_review::types::{PanelRankType, ServerAcceptLangauge};

#[test]
fn index_text_round_trips() {
    for n in [0u64, 7, 10, 99, 1234567890, u64::MAX] {
        assert_eq!(format_index(n), n.to_string());
        assert_eq!(parse_index(&format_index(n)), n);
    }
    assert_eq!(parse_index("0042"), 42);
    assert_eq!(parse_index("4 2"), 0);
    assert_eq!(parse_index("+42"), 42);
    assert_eq!(parse_index("+"), 0);
    assert_eq!(parse_index("-42"), 0);
    assert_eq!(parse_index("٣"), 0);
}

#[test]
fn hit_count_text() {
    assert_eq!(hitcount(0), "0");
    assert_eq!(hitcount(305), "305");
}

#[test]
fn script_snippets() {
    assert_eq!(
        toggle_js("notification", "is-hidden"),
        "document.getElementById('notification').classList.toggle('is-hidden');"
    );
    assert_eq!(
        toggle_active_js("menu"),
        "document.getElementById('menu').classList.toggle('is-active');"
    );
    assert_eq!(
        delete_cookie_js("_flash", "/"),
        "document.cookie ='_flash=; expires=Thu, 01 Jan 1970 00:00:00 UTC; path=/;' ;"
    );
    assert_eq!(
        play_audio_without_control("/prounciation?vocab=cat"),
        "(function(){new Audio('/prounciation?vocab=cat').play();}())"
    );
    assert_eq!(robots(), "\n    User-agent: *\n    Allow: /\n    ");
}

#[test]
fn markdown_is_rendered_and_cleaned() {
    assert_eq!(makrdown_parse_clean("**bold**"), "<p><strong>bold</strong></p>\n");
    let out = makrdown_parse_clean("~~gone~~ <script>alert(1)</script>");
    assert!(out.contains("<del>gone</del>"), "{}", out);
    assert!(!out.contains("script"), "{}", out);
    assert_eq!(makrdown_parse_clean(""), "");
}

#[test]
fn string_comparisons() {
    assert!(str_eq("abc", "abc"));
    assert!(!str_eq("abc", "abd"));
    assert!(!str_eq("abc", "ab"));
    assert!(str_contains("en-US,zh;q=0.5", "zh"));
    assert!(str_contains("x", ""));
    assert!(!str_contains("z", "zh"));
}

#[test]
fn languages_from_ids_and_headers() {
    assert_eq!(ServerAcceptLangauge::from("zh"), ServerAcceptLangauge::SimpliedChinese);
    assert_eq!(ServerAcceptLangauge::from("jp"), ServerAcceptLangauge::Japananese);
    assert_eq!(ServerAcceptLangauge::from("en"), ServerAcceptLangauge::English);
    assert_eq!(ServerAcceptLangauge::from("fr"), ServerAcceptLangauge::English);
    assert_eq!(ServerAcceptLangauge::from_param("jp"), ServerAcceptLangauge::Japananese);
    assert_eq!(
        ServerAcceptLangauge::from_request(Some("zh-CN,zh;q=0.9")),
        ServerAcceptLangauge::SimpliedChinese
    );
    assert_eq!(
        ServerAcceptLangauge::from_request(Some("ja-jp,jp")),
        ServerAcceptLangauge::Japananese
    );
    assert_eq!(
        ServerAcceptLangauge::from_request(Some("jp,zh")),
        ServerAcceptLangauge::SimpliedChinese
    );
    assert_eq!(ServerAcceptLangauge::from_request(Some("fr-FR")), ServerAcceptLangauge::English);
    assert_eq!(ServerAcceptLangauge::from_request(None), ServerAcceptLangauge::English);
    assert_eq!(ServerAcceptLangauge::default(), ServerAcceptLangauge::English);
    for l in [
        ServerAcceptLangauge::SimpliedChinese,
        ServerAcceptLangauge::Japananese,
        ServerAcceptLangauge::English,
    ] {
        assert_eq!(ServerAcceptLangauge::from(&l.to_string()), l);
    }
    assert_eq!(ServerAcceptLangauge::SimpliedChinese.to_string(), "zh");
}

#[test]
fn rank_names() {
    assert_eq!(PanelRankType::MostRecent.label(), "Most Recent");
    assert_eq!(PanelRankType::MostReview.label(), "Most Reviewed");
    assert_eq!(PanelRankType::MostLike.label(), "Most Liked");
    for r in PanelRankType::all() {
        assert_eq!(PanelRankType::from_label(r.label()), Some(r));
    }
    assert_eq!(PanelRankType::from_label("Most Viewed"), None);
    assert_eq!(PanelRankType::all().len(), 3);
}
