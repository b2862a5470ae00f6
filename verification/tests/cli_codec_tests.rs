use kanyu_shell::cli::{read_args, usage, CliItem, DemoFlag};
use kanyu_shell::codec::{base64_encode, premultiply_rgba, unpremultiply_rgba};

fn args(v: &[&str]) -> Vec<String> {
    v.iter().map(|s| s.to_string()).collect()
}

#[test]
fn cli_reads_options_in_order() {
    let items = read_args(&args(&[
        "--load", "a.shp", "--theme", "dark", "--dock-demo", "--load", "b.kyu", "--delay", "3",
        "--zoom", "1.25", "--screenshot", "out.png",
    ]));
    assert_eq!(items.len(), 7);
    assert!(matches!(&items[0], CliItem::Load(p) if p == "a.shp"));
    assert!(matches!(&items[1], CliItem::Theme(t) if t == "dark"));
    assert!(matches!(&items[2], CliItem::Flag(DemoFlag::DockDemo)));
    assert!(matches!(&items[3], CliItem::Load(p) if p == "b.kyu"));
    assert!(matches!(&items[4], CliItem::Delay(d) if d == "3"));
    assert!(matches!(&items[5], CliItem::Zoom(z) if z == "1.25"));
    assert!(matches!(&items[6], CliItem::Screenshot(s) if s == "out.png"));
    assert!(read_args(&args(&[])).is_empty());
}

#[test]
fn cli_stops_at_help_version_and_errors() {
    let items = read_args(&args(&["--calc-demo", "-h", "--bogus"]));
    assert_eq!(items.len(), 2);
    assert!(matches!(items[1], CliItem::Help));
    let items = read_args(&args(&["--version", "--load"]));
    assert!(matches!(items[..], [CliItem::Version]));
    let items = read_args(&args(&["--expand-layers", "--load"]));
    assert!(matches!(&items[1], CliItem::Fail(m) if m == "--load 缺少文件路径"));
    let items = read_args(&args(&["--zoom"]));
    assert!(matches!(&items[0], CliItem::Fail(m) if m == "--zoom 缺少倍率（如 1.25）"));
    let items = read_args(&args(&["--frob", "--load", "x"]));
    assert_eq!(items.len(), 1);
    assert!(matches!(&items[0], CliItem::Fail(m) if m == "未知参数 '--frob'"));
}

#[test]
fn cli_usage_text() {
    let u = usage();
    assert!(u.starts_with("用法: kanyu-shell [--load"));
    assert!(u.contains("[--theme light|dark] \\\n              [--screenshot <out.png> [--delay <秒>]]\n支持格式"));
    assert!(u.ends_with("（.kyu 为堪舆工程）"));
}

#[test]
fn base64_rfc4648_vectors() {
    let cases = [
        ("", ""),
        ("f", "Zg=="),
        ("fo", "Zm8="),
        ("foo", "Zm9v"),
        ("foob", "Zm9vYg=="),
        ("fooba", "Zm9vYmE="),
        ("foobar", "Zm9vYmFy"),
    ];
    for (plain, coded) in cases {
        assert_eq!(base64_encode(plain.as_bytes()), coded);
    }
    assert_eq!(base64_encode(&[0xff, 0xfe, 0xfd, 0x00]), "//79AA==");
    let all: Vec<u8> = (0..=255).collect();
    assert_eq!(base64_encode(&all).len(), 4 * ((all.len() + 2) / 3));
}

#[test]
fn premultiply_and_back() {
    let mut px = vec![200, 100, 0, 255, 200, 100, 50, 128, 10, 20, 30, 0, 7, 9];
    premultiply_rgba(&mut px);
    assert_eq!(px, vec![200, 100, 0, 255, 100, 50, 25, 128, 0, 0, 0, 0, 7, 9]);
    unpremultiply_rgba(&mut px);
    assert_eq!(px, vec![200, 100, 0, 255, 199, 100, 50, 128, 0, 0, 0, 0, 7, 9]);
    let mut bright = vec![250, 3, 0, 1];
    unpremultiply_rgba(&mut bright);
    assert_eq!(bright, vec![255, 255, 0, 1]);
}
