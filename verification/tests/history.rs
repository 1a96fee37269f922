use usage_monitor::history::{get_downsample_bucket_minutes, get_range_hours};

#[test]
fn converts_1h_correctly() {
    assert_eq!(get_range_hours("1h") as f64, 1.0);
}

#[test]
fn converts_6h_correctly() {
    assert_eq!(get_range_hours("6h") as f64, 6.0);
}

#[test]
fn converts_24h_correctly() {
    assert_eq!(get_range_hours("24h") as f64, 24.0);
}

#[test]
fn converts_7d_correctly() {
    assert_eq!(get_range_hours("7d") as f64, 168.0);
}

#[test]
fn converts_30d_correctly() {
    assert_eq!(get_range_hours("30d") as f64, 720.0);
}

#[test]
fn defaults_to_24h_for_unknown() {
    assert_eq!(get_range_hours("invalid") as f64, 24.0);
    assert_eq!(get_range_hours("") as f64, 24.0);
    assert_eq!(get_range_hours("1w") as f64, 24.0);
}

#[test]
fn returns_none_for_1h() {
    assert_eq!(get_downsample_bucket_minutes("1h"), None);
}

#[test]
fn returns_none_for_6h() {
    assert_eq!(get_downsample_bucket_minutes("6h"), None);
}

#[test]
fn returns_none_for_24h() {
    assert_eq!(get_downsample_bucket_minutes("24h"), None);
}

#[test]
fn returns_60_minutes_for_7d() {
    assert_eq!(get_downsample_bucket_minutes("7d"), Some(60));
}

#[test]
fn returns_240_minutes_for_30d() {
    assert_eq!(get_downsample_bucket_minutes("30d"), Some(240));
}

#[test]
fn returns_none_for_unknown() {
    assert_eq!(get_downsample_bucket_minutes("invalid"), None);
    assert_eq!(get_downsample_bucket_minutes(""), None);
    assert_eq!(get_downsample_bucket_minutes("1w"), None);
}

#[test]
fn max_data_points_for_7d() {
    let bucket_minutes = get_downsample_bucket_minutes("7d").unwrap();
    let hours = get_range_hours("7d");
    let max_points = (hours * 60) / bucket_minutes;
    assert_eq!(max_points, 168);
}

#[test]
fn max_data_points_for_30d() {
    let bucket_minutes = get_downsample_bucket_minutes("30d").unwrap();
    let hours = get_range_hours("30d");
    let max_points = (hours * 60) / bucket_minutes;
    assert_eq!(max_points, 180);
}

#[test]
fn no_downsampling_preserves_full_resolution() {
    assert!(get_downsample_bucket_minutes("24h").is_none());
    assert!(get_downsample_bucket_minutes("6h").is_none());
    assert!(get_downsample_bucket_minutes("1h").is_none());
}

#[test]
fn bucket_size_increases_with_range() {
    let bucket_7d = get_downsample_bucket_minutes("7d");
    let bucket_30d = get_downsample_bucket_minutes("30d");

    assert!(bucket_7d.is_some());
    assert!(bucket_30d.is_some());
    assert!(bucket_30d.unwrap() > bucket_7d.unwrap());
}

#[test]
fn bucket_calculation_60_minutes() {
    let bucket_minutes = get_downsample_bucket_minutes("7d").unwrap() as u64;
    assert_eq!(bucket_minutes, 60u64);
    let bucket_seconds = bucket_minutes * 60;

    let ts1 = 1704067200 + (5 * 60);
    let ts2 = 1704067200 + (55 * 60);
    let ts3 = 1704067200 + (65 * 60);

    let bucket1 = (ts1 / bucket_seconds) * bucket_seconds;
    let bucket2 = (ts2 / bucket_seconds) * bucket_seconds;
    let bucket3 = (ts3 / bucket_seconds) * bucket_seconds;

    assert_eq!(bucket1, bucket2);
    assert_ne!(bucket1, bucket3);
}

#[test]
fn bucket_calculation_240_minutes() {
    let bucket_minutes = get_downsample_bucket_minutes("30d").unwrap() as u64;
    assert_eq!(bucket_minutes, 240u64);
    let bucket_seconds = bucket_minutes * 60;

    let base = 1704067200u64;

    let ts1 = base + (1 * 3600);
    let ts2 = base + (3 * 3600);
    let ts3 = base + (5 * 3600);

    let bucket1 = (ts1 / bucket_seconds) * bucket_seconds;
    let bucket2 = (ts2 / bucket_seconds) * bucket_seconds;
    let bucket3 = (ts3 / bucket_seconds) * bucket_seconds;

    assert_eq!(bucket1, bucket2);
    assert_ne!(bucket1, bucket3);
}

#[test]
fn averaging_preserves_range() {
    let values = vec![10.0, 20.0, 30.0, 40.0, 50.0];
    let avg: f64 = values.iter().sum::<f64>() / values.len() as f64;

    assert_eq!(avg, 30.0);
    assert!(avg >= 10.0 && avg <= 50.0);
}

#[test]
fn range_names_are_matched_whole() {
    assert_eq!(get_range_hours("7"), 24);
    assert_eq!(get_range_hours("7d "), 24);
    assert_eq!(get_range_hours("30D"), 24);
    assert_eq!(get_downsample_bucket_minutes("7dd"), None);
    assert_eq!(get_downsample_bucket_minutes("30"), None);
}
