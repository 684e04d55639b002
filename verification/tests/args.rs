use creatorpack_shell::args::{build_args, RunRequest};
use creatorpack_shell::decimal::u32_to_decimal;

fn request(
    file: &str,
    template: &str,
    minutes: u32,
    smart: bool,
    highlights: bool,
    brand: Option<&str>,
) -> RunRequest {
    RunRequest {
        file: file.to_string(),
        template: template.to_string(),
        minutes,
        smart,
        highlights,
        brand: brand.map(|b| b.to_string()),
    }
}

#[test]
fn builds_smart_args() {
    let req = request("a.mp4", "t1", 5, true, false, None);
    let args = build_args(&req);
    assert_eq!(
        args,
        vec![
            "run".to_string(),
            "--file".to_string(),
            "a.mp4".to_string(),
            "--template".to_string(),
            "t1".to_string(),
            "--minutes".to_string(),
            "5".to_string(),
            "--smart".to_string(),
        ]
    );
}

#[test]
fn builds_minimal_args() {
    let req = request("clip.mov", "basic", 12, false, false, None);
    let args = build_args(&req);
    assert_eq!(
        args,
        vec![
            "run".to_string(),
            "--file".to_string(),
            "clip.mov".to_string(),
            "--template".to_string(),
            "basic".to_string(),
            "--minutes".to_string(),
            "12".to_string(),
        ]
    );
}

#[test]
fn builds_full_args_with_brand_last() {
    let req = request("v.mp4", "promo", 90, true, true, Some("acme"));
    let args = build_args(&req);
    assert_eq!(
        args,
        vec![
            "run".to_string(),
            "--file".to_string(),
            "v.mp4".to_string(),
            "--template".to_string(),
            "promo".to_string(),
            "--minutes".to_string(),
            "90".to_string(),
            "--smart".to_string(),
            "--highlights".to_string(),
            "--brand".to_string(),
            "acme".to_string(),
        ]
    );
}

#[test]
fn builds_highlights_without_smart() {
    let req = request("v.mp4", "promo", 1, false, true, None);
    let args = build_args(&req);
    assert_eq!(args.len(), 8);
    assert_eq!(args[7], "--highlights".to_string());
    assert!(!args.contains(&"--smart".to_string()));
}

#[test]
fn renders_minutes_zero() {
    assert_eq!(u32_to_decimal(0), "0".to_string());
}

#[test]
fn renders_minutes_max() {
    assert_eq!(u32_to_decimal(4294967295), "4294967295".to_string());
}

#[test]
fn renders_round_minutes() {
    assert_eq!(u32_to_decimal(100), "100".to_string());
    assert_eq!(u32_to_decimal(37), "37".to_string());
}
