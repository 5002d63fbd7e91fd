use fmtsize::{ByteSizeFormatter, Conventional, Decimal, FmtSize, Format};

fn conventional(size: u64) -> String {
    size.fmt_size(Conventional).to_string()
}

fn decimal(size: u64) -> String {
    size.fmt_size(Decimal).to_string()
}

fn has_size_shape(t: &str) -> bool {
    let (number, unit) = match t.split_once(' ') {
        Some(parts) => parts,
        None => return false,
    };
    let (whole, frac) = match number.split_once('.') {
        Some(parts) => parts,
        None => return false,
    };
    !whole.is_empty()
        && whole.chars().all(|c| c.is_ascii_digit())
        && frac.len() == 2
        && frac.chars().all(|c| c.is_ascii_digit())
        && (unit == "KB" || unit == "MB" || unit == "GB")
}

#[test]
fn it_works() {
    let expected = "1.00 MB";
    let actual = 1_048_576.fmt_size(Conventional).to_string();
    assert_eq!(expected, actual);
}

#[test]
fn reference_scenario_megabytes() {
    assert_eq!(conventional(492_752_310), "469.93 MB");
}

#[test]
fn zero_is_kilobytes() {
    assert_eq!(conventional(0), "0.00 KB");
    assert_eq!(decimal(0), "0.00 KB");
}

#[test]
fn conventional_bucket_boundaries() {
    assert!(conventional((1 << 20) - 1).ends_with(" KB"));
    assert!(conventional(1 << 20).ends_with(" MB"));
    assert!(conventional((1 << 30) - 1).ends_with(" MB"));
    assert!(conventional(1 << 30).ends_with(" GB"));
}

#[test]
fn decimal_bucket_boundaries() {
    assert!(decimal(999_999).ends_with(" KB"));
    assert!(decimal(1_000_000).ends_with(" MB"));
    assert!(decimal(999_999_999).ends_with(" MB"));
    assert!(decimal(1_000_000_000).ends_with(" GB"));
}

#[test]
fn strategies_share_labels() {
    assert!(decimal(1_000_000).ends_with(" MB"));
    assert!(conventional(1_048_576).ends_with(" MB"));
    assert_eq!(Conventional.name(5), Decimal.name(5));
    assert_eq!(Conventional.name(2_000_000), Decimal.name(2_000_000));
    assert_eq!(Conventional.name(u64::MAX), Decimal.name(u64::MAX));
}

#[test]
fn rendering_twice_is_identical() {
    let f: ByteSizeFormatter<Decimal> = 123_456_789.fmt_size(Decimal);
    let first = f.to_string();
    let second = f.to_string();
    assert_eq!(first, second);
    assert_eq!(first, "123.46 MB");
}

#[test]
fn every_size_has_the_shape() {
    let sizes: [u64; 10] = [
        0,
        1,
        1023,
        1024,
        999_999,
        1_000_000,
        1 << 30,
        1_000_000_000,
        123_456_789_012,
        u64::MAX,
    ];
    for s in sizes {
        assert!(has_size_shape(&conventional(s)), "{}", conventional(s));
        assert!(has_size_shape(&decimal(s)), "{}", decimal(s));
    }
}

#[test]
fn divisors_follow_buckets() {
    assert_eq!(Conventional.divisor(0), 1024);
    assert_eq!(Conventional.divisor((1 << 20) - 1), 1024);
    assert_eq!(Conventional.divisor(1 << 20), 1 << 20);
    assert_eq!(Conventional.divisor(u64::MAX), 1 << 30);
    assert_eq!(Decimal.divisor(999_999), 1000);
    assert_eq!(Decimal.divisor(1_000_000), 1_000_000);
    assert_eq!(Decimal.divisor(1_000_000_000), 1_000_000_000);
}

#[test]
fn names_follow_buckets() {
    assert_eq!(Conventional.name(0), "KB");
    assert_eq!(Conventional.name(1 << 20), "MB");
    assert_eq!(Conventional.name(1 << 30), "GB");
    assert_eq!(Decimal.name(999_999), "KB");
    assert_eq!(Decimal.name(1_000_000), "MB");
    assert_eq!(Decimal.name(1_000_000_000), "GB");
}

#[test]
fn exact_quotients() {
    assert_eq!(conventional(1024), "1.00 KB");
    assert_eq!(conventional(1536), "1.50 KB");
    assert_eq!(conventional(1 << 30), "1.00 GB");
    assert_eq!(decimal(1_000), "1.00 KB");
    assert_eq!(decimal(1_500_000_000), "1.50 GB");
    assert_eq!(decimal(999_999), "1000.00 KB");
}

#[test]
fn rounds_to_hundredths() {
    // 1 / 1024 = 0.0009765625
    assert_eq!(conventional(1), "0.00 KB");
    // 5 / 1000 = 0.005, a tie: even neighbour kept
    assert_eq!(decimal(5), "0.00 KB");
    // 15 / 1000 = 0.015, a tie: rounds up to the even neighbour
    assert_eq!(decimal(15), "0.02 KB");
    // 1023 / 1024 = 0.99902...
    assert_eq!(conventional(1023), "1.00 KB");
    // 10 / 1024 = 0.009765625
    assert_eq!(conventional(10), "0.01 KB");
}

#[test]
fn largest_size() {
    assert_eq!(conventional(u64::MAX), "17179869184.00 GB");
    assert_eq!(decimal(u64::MAX), "18446744073.71 GB");
}

#[test]
fn gigabytes_do_not_scale_further() {
    assert_eq!(decimal(5_000_000_000_000), "5000.00 GB");
}
