use desktop_shell::commands::config::{normalize_backend_url, ValidationError};
use desktop_shell::text::{chars_of, decimal_string, is_whitespace, same_text};

fn by_std(raw: &str) -> Result<String, ValidationError> {
    let trimmed = raw.trim();
    if trimmed.is_empty() {
        return Err(ValidationError::EmptyAddress);
    }
    if !trimmed.starts_with("http://") && !trimmed.starts_with("https://") {
        return Err(ValidationError::UnsupportedScheme);
    }
    Ok(trimmed.trim_end_matches('/').to_string())
}

#[test]
fn plain_address_is_kept() {
    assert_eq!(
        normalize_backend_url("http://192.168.50.50:5000"),
        Ok("http://192.168.50.50:5000".to_string())
    );
    assert_eq!(normalize_backend_url("https://example.com"), Ok("https://example.com".to_string()));
}

#[test]
fn surrounding_white_space_is_dropped() {
    assert_eq!(normalize_backend_url("  http://a.b  "), Ok("http://a.b".to_string()));
    assert_eq!(normalize_backend_url("\t\nhttps://a.b/\r\n"), Ok("https://a.b".to_string()));
    assert_eq!(
        normalize_backend_url("\u{3000}http://a.b\u{a0}\u{2003}"),
        Ok("http://a.b".to_string())
    );
}

#[test]
fn every_trailing_slash_is_stripped() {
    assert_eq!(normalize_backend_url("https://example.com/"), Ok("https://example.com".to_string()));
    assert_eq!(normalize_backend_url("https://example.com///"), Ok("https://example.com".to_string()));
    assert_eq!(normalize_backend_url("http://h/api/v1/"), Ok("http://h/api/v1".to_string()));
}

#[test]
fn inner_characters_are_untouched() {
    assert_eq!(normalize_backend_url("http://a b/ /"), Ok("http://a b/ ".to_string()));
    assert_eq!(normalize_backend_url("http://主机/路径/"), Ok("http://主机/路径".to_string()));
}

#[test]
fn bare_scheme_loses_its_slashes() {
    assert_eq!(normalize_backend_url("http://"), Ok("http:".to_string()));
    assert_eq!(normalize_backend_url("https:///"), Ok("https:".to_string()));
}

#[test]
fn empty_after_trimming_is_refused() {
    assert_eq!(normalize_backend_url(""), Err(ValidationError::EmptyAddress));
    assert_eq!(normalize_backend_url("   "), Err(ValidationError::EmptyAddress));
    assert_eq!(normalize_backend_url(" \t\r\n\u{2028}\u{85}"), Err(ValidationError::EmptyAddress));
}

#[test]
fn other_schemes_are_refused() {
    assert_eq!(normalize_backend_url("ftp://x"), Err(ValidationError::UnsupportedScheme));
    assert_eq!(normalize_backend_url("example.com"), Err(ValidationError::UnsupportedScheme));
    assert_eq!(normalize_backend_url("HTTP://example.com"), Err(ValidationError::UnsupportedScheme));
    assert_eq!(normalize_backend_url("http:/example.com"), Err(ValidationError::UnsupportedScheme));
    assert_eq!(normalize_backend_url("http:/"), Err(ValidationError::UnsupportedScheme));
    assert_eq!(normalize_backend_url("/"), Err(ValidationError::UnsupportedScheme));
    assert_eq!(normalize_backend_url("\u{200b}http://x"), Err(ValidationError::UnsupportedScheme));
}

#[test]
fn one_more_slash_changes_nothing() {
    for a in ["http://a.b", "https://a.b/", " http://a.b//", "http://a.b/c", "http://"] {
        let longer = format!("{a}/");
        assert_eq!(normalize_backend_url(&longer), normalize_backend_url(a));
    }
}

#[test]
fn normalizing_twice_changes_nothing() {
    for a in ["http://a.b", "  https://a.b/  ", "http://a.b///", "https://h:8443/x/y/"] {
        let once = normalize_backend_url(a).unwrap();
        assert_eq!(normalize_backend_url(&once), Ok(once.clone()));
    }
}

#[test]
fn agrees_with_the_standard_string_methods() {
    let samples = [
        "",
        " ",
        "http://x",
        " https://x/ ",
        "http://x / ",
        "http:// /",
        "https://",
        "\u{1680}http://x//\u{205f}",
        "\u{180e}http://x",
        "x http://y",
        "http://x/\u{feff}",
        "//http://x//",
    ];
    for s in samples {
        assert_eq!(normalize_backend_url(s), by_std(s), "for {s:?}");
    }
}

#[test]
fn white_space_is_what_unicode_says() {
    let mut code: u32 = 0;
    while code <= 0x10FFFF {
        if let Some(c) = char::from_u32(code) {
            assert_eq!(is_whitespace(c), c.is_whitespace(), "for U+{code:04X}");
        }
        code += 1;
    }
}

#[test]
fn characters_come_out_in_order() {
    assert_eq!(chars_of(""), Vec::<char>::new());
    assert_eq!(chars_of("a/é路"), vec!['a', '/', 'é', '路']);
}

#[test]
fn same_text_compares_whole_strings() {
    assert!(same_text("", ""));
    assert!(same_text("tray_show", "tray_show"));
    assert!(!same_text("tray_show", "tray_shop"));
    assert!(!same_text("tray", "tray_show"));
    assert!(!same_text("tray_show", "tray"));
}

#[test]
fn decimal_numerals_are_exact() {
    assert_eq!(decimal_string(0), "0");
    assert_eq!(decimal_string(7), "7");
    assert_eq!(decimal_string(10), "10");
    assert_eq!(decimal_string(404), "404");
    assert_eq!(decimal_string(65535), "65535");
    let mut n: u16 = 0;
    loop {
        assert_eq!(decimal_string(n), format!("{n}"));
        if n == u16::MAX {
            break;
        }
        n += 1;
    }
}

#[test]
fn validation_messages() {
    assert_eq!(ValidationError::EmptyAddress.message(), "后端地址不能为空");
    assert_eq!(
        ValidationError::UnsupportedScheme.message(),
        "仅支持 http:// 或 https:// 开头的地址"
    );
}
