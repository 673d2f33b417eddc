use mihomo_tui::config::profile::{Profile, ProfileTraffics};
use mihomo_tui::config::profile::decimal_string;
use mihomo_tui::config::userinfo::parse_subscription_userinfo;

fn profile_with_traffic(used: Option<u64>, total: Option<u64>) -> Profile {
    let mut p = Profile::default();
    p.traffics = Some(ProfileTraffics { used, total });
    p
}

#[test]
fn header_parsing_reference_case() {
    let info = parse_subscription_userinfo("upload=100;download=50;total=1000;expire=1700000000");
    assert_eq!(info.used, Some(150));
    assert_eq!(info.total, Some(1000));
    assert_eq!(info.expire, Some(1700000000));

    let p = profile_with_traffic(info.used, info.total);
    assert_eq!(p.get_used_str(), Some("15.0%".to_string()));
}

#[test]
fn header_parsing_empty_and_garbage() {
    let info = parse_subscription_userinfo("");
    assert_eq!(info.used, None);
    assert_eq!(info.total, None);
    assert_eq!(info.expire, None);

    let info = parse_subscription_userinfo("nonsense;;;=;a=b=c;upload");
    assert_eq!(info.used, None);
    assert_eq!(info.total, None);
    assert_eq!(info.expire, None);
}

#[test]
fn header_parsing_accumulates_every_upload_and_download() {
    let info = parse_subscription_userinfo("upload=1;download=2;upload=4");
    assert_eq!(info.used, Some(7));
}

#[test]
fn header_parsing_trims_around_items_only() {
    let info = parse_subscription_userinfo("  upload=5 ; total=10  ");
    assert_eq!(info.used, Some(5));
    assert_eq!(info.total, Some(10));

    // Spaces inside an item, around the `=`, make the value unparseable.
    let info = parse_subscription_userinfo("upload = 5");
    assert_eq!(info.used, None);
}

#[test]
fn header_parsing_ignores_unparseable_values() {
    let info = parse_subscription_userinfo("upload=abc;total=12x;expire=99999999999999999999999");
    assert_eq!(info.used, None);
    assert_eq!(info.total, None);
    assert_eq!(info.expire, None);

    // The largest value that fits is kept; one past it is ignored.
    let info = parse_subscription_userinfo("total=18446744073709551615;expire=18446744073709551616");
    assert_eq!(info.total, Some(u64::MAX));
    assert_eq!(info.expire, None);
}

#[test]
fn header_parsing_last_total_wins() {
    let info = parse_subscription_userinfo("total=1;total=2");
    assert_eq!(info.total, Some(2));
}

#[test]
fn header_parsing_saturates_used() {
    let header = format!("upload={};download={}", u64::MAX, 5);
    let info = parse_subscription_userinfo(&header);
    assert_eq!(info.used, Some(u64::MAX));
}

#[test]
fn decimal_formatting_is_exact() {
    assert_eq!(decimal_string(0), "0");
    assert_eq!(decimal_string(7), "7");
    assert_eq!(decimal_string(1000), "1000");
    assert_eq!(decimal_string(340_282_366_920_938_463_463_374_607_431_768_211_455), u128::MAX.to_string());
}

#[test]
fn used_str_needs_both_numbers_and_nonzero_total() {
    assert_eq!(Profile::default().get_used_str(), None);
    assert_eq!(profile_with_traffic(Some(1), None).get_used_str(), None);
    assert_eq!(profile_with_traffic(None, Some(1)).get_used_str(), None);
    assert_eq!(profile_with_traffic(Some(1), Some(0)).get_used_str(), None);
}

#[test]
fn used_str_rounds_to_one_decimal() {
    // 1/3 = 33.33..% -> 33.3%; 2/3 = 66.66..% -> 66.7%.
    assert_eq!(profile_with_traffic(Some(1), Some(3)).get_used_str(), Some("33.3%".to_string()));
    assert_eq!(profile_with_traffic(Some(2), Some(3)).get_used_str(), Some("66.7%".to_string()));
    // More used than the budget is shown as over 100%.
    assert_eq!(profile_with_traffic(Some(3), Some(2)).get_used_str(), Some("150.0%".to_string()));
    assert_eq!(profile_with_traffic(Some(0), Some(7)).get_used_str(), Some("0.0%".to_string()));
}
