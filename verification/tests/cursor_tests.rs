//! The listing cursor, URL building and text helpers, exercised on concrete
//! values.

use roux::request::UrlBuf;
use roux::util::cursor::FeedOption;
use roux::util::cursor::TimePeriod;
use roux::util::text::str_contains;
use roux::util::text::u32_to_string;
use roux::util::url::build_oauth;
use roux::util::url::build_url;

#[test]
fn test_cursor_applied_to_base() {
    // limit and after present, everything else absent
    let options = FeedOption::new().limit(25).after("t3_abc");
    let mut url = UrlBuf::new("https://x/r/y/hot.json");
    options.build_url(&mut url);

    assert_eq!(url.base, "https://x/r/y/hot.json");
    let pairs: Vec<(String, String)> = url.query.clone();
    assert_eq!(pairs.len(), 2);
    assert_eq!(pairs[0], ("limit".to_string(), "25".to_string()));
    assert_eq!(pairs[1], ("after".to_string(), "t3_abc".to_string()));
    for (k, _) in &pairs {
        assert_ne!(k, "before");
        assert_ne!(k, "count");
        assert_ne!(k, "t");
    }
    assert_eq!(url.to_url_string(), "https://x/r/y/hot.json?limit=25&after=t3_abc");
}

#[test]
fn test_cursor_field_order() {
    let options = FeedOption::new()
        .after("t3_a")
        .before("t3_b")
        .count(7)
        .limit(100)
        .period(TimePeriod::ThisMonth);
    let mut url = UrlBuf::new("https://host/path");
    options.build_url(&mut url);
    let keys: Vec<&str> = url.query.iter().map(|p| p.0.as_str()).collect();
    assert_eq!(keys, vec!["limit", "after", "before", "count", "t"]);
    assert_eq!(
        url.to_url_string(),
        "https://host/path?limit=100&after=t3_a&before=t3_b&count=7&t=month"
    );
}

#[test]
fn test_cursor_empty() {
    let options = FeedOption::new();
    assert!(options.after.is_none());
    assert!(options.before.is_none());
    assert!(options.count.is_none());
    assert!(options.limit.is_none());
    assert!(options.period.is_none());
    let mut url = UrlBuf::new("https://host/path");
    options.build_url(&mut url);
    assert_eq!(url.query.len(), 0);
    assert_eq!(url.to_url_string(), "https://host/path");
}

#[test]
fn test_time_period_tokens() {
    assert_eq!(TimePeriod::ThisHour.token(), "hour");
    assert_eq!(TimePeriod::ThisDay.token(), "day");
    assert_eq!(TimePeriod::ThisWeek.token(), "week");
    assert_eq!(TimePeriod::ThisMonth.token(), "month");
    assert_eq!(TimePeriod::ThisYear.token(), "year");
    assert_eq!(TimePeriod::AllTime.token(), "all");
}

#[test]
fn test_u32_rendering() {
    assert_eq!(u32_to_string(0), "0");
    assert_eq!(u32_to_string(7), "7");
    assert_eq!(u32_to_string(25), "25");
    assert_eq!(u32_to_string(1000), "1000");
    assert_eq!(u32_to_string(u32::MAX), "4294967295");
}

#[test]
fn test_build_url_hosts() {
    assert_eq!(build_url("api/v1/access_token"), "https://www.reddit.com/api/v1/access_token/.json");
    assert_eq!(build_oauth("api/submit"), "https://oauth.reddit.com/api/submit/.json");
}

#[test]
fn test_join_segments() {
    let base = UrlBuf::new("https://www.reddit.com/r/rust/");
    let joined = base.join_segments(&["about", "moderators", ".json"]);
    assert_eq!(joined.base, "https://www.reddit.com/r/rust/about/moderators/.json");

    let bare = UrlBuf::new("https://www.reddit.com/user");
    let joined = bare.join_segments(&["spez", "overview", ".json"]);
    assert_eq!(joined.base, "https://www.reddit.com/user/spez/overview/.json");
}

#[test]
fn test_str_contains() {
    assert!(str_contains("r/rust/comments/abc.json", "comments/"));
    assert!(!str_contains("r/rust/comments.json", "comments/"));
    assert!(str_contains("anything", ""));
    assert!(!str_contains("short", "much longer pattern"));
    assert!(str_contains("aaab", "aab"));
}
