use tauri_plugin_screenshot_hd::route::{route, Route};
use tauri_plugin_screenshot_hd::target::{
    begins_with, find_first, param_value, parse_number, path_of, query_of, same_bytes, wait_of,
};

/// The delay of a target, read with the standard library alone.
fn wait_by_std(url: &str) -> Option<u64> {
    let query = url.split('?').nth(1)?;
    let param = query.split('&').find(|p| p.starts_with("wait="))?;
    param[5..].parse().ok()
}

/// The path of a target, read with the standard library alone.
fn path_by_std(url: &str) -> &str {
    url.split('?').next().unwrap_or(url)
}

const TARGETS: [&str; 40] = [
    "",
    "/",
    "?",
    "??",
    "/screenshot",
    "/screenshot?",
    "/screenshot?wait=5",
    "/screenshot/",
    "/Screenshot",
    "/eval",
    "/eval?",
    "/eval?wait=50",
    "/eval?wait=0",
    "/eval?wait=007",
    "/eval?wait=+12",
    "/eval?wait=-12",
    "/eval?wait=",
    "/eval?wait=+",
    "/eval?wait=12ms",
    "/eval?wait= 12",
    "/eval?wait=1.5",
    "/eval?wait=18446744073709551615",
    "/eval?wait=18446744073709551616",
    "/eval?wait=000000000000000000000018446744073709551615",
    "/eval?wait=99999999999999999999999999",
    "/eval?a=1&wait=20",
    "/eval?a=1&wait=20&b=2",
    "/eval?wait=x&wait=20",
    "/eval?wait=20&wait=x",
    "/eval?await=20",
    "/eval?xwait=20&wait=30",
    "/eval?WAIT=20",
    "/eval?wait",
    "/eval?&&wait=7&&",
    "/eval?a=1?wait=20",
    "/eval?wait=20?wait=30",
    "/eval??wait=20",
    "/eval&wait=20",
    "/évaluer?wait=3",
    "/eval?é=1&wait=4",
];

#[test]
fn find_first_gives_the_first_position_or_the_length() {
    assert_eq!(find_first(b"a?b?c", b'?'), 1);
    assert_eq!(find_first(b"?", b'?'), 0);
    assert_eq!(find_first(b"abc", b'?'), 3);
    assert_eq!(find_first(b"", b'?'), 0);
}

#[test]
fn begins_with_compares_the_head() {
    assert!(begins_with(b"wait=5", b"wait="));
    assert!(begins_with(b"wait=", b"wait="));
    assert!(begins_with(b"anything", b""));
    assert!(!begins_with(b"wait", b"wait="));
    assert!(!begins_with(b"await=5", b"wait="));
    assert!(!begins_with(b"", b"w"));
}

#[test]
fn same_bytes_is_equality() {
    assert!(same_bytes(b"/eval", b"/eval"));
    assert!(same_bytes(b"", b""));
    assert!(!same_bytes(b"/eval", b"/evaL"));
    assert!(!same_bytes(b"/eval", b"/eval/"));
    assert!(!same_bytes(b"/eval/", b"/eval"));
}

#[test]
fn path_is_what_stands_before_the_first_question_mark() {
    assert_eq!(path_of(b"/eval?wait=50"), b"/eval");
    assert_eq!(path_of(b"/screenshot"), b"/screenshot");
    assert_eq!(path_of(b"?x"), b"");
    assert_eq!(path_of(b"/a?b?c"), b"/a");
    assert_eq!(path_of(b""), b"");
}

#[test]
fn path_agrees_with_the_standard_library() {
    for target in TARGETS {
        assert_eq!(path_of(target.as_bytes()), path_by_std(target).as_bytes(), "{target:?}");
    }
}

#[test]
fn query_stands_between_the_first_two_question_marks() {
    assert_eq!(query_of(b"/eval?wait=50"), Some(&b"wait=50"[..]));
    assert_eq!(query_of(b"/eval?a=1?wait=50"), Some(&b"a=1"[..]));
    assert_eq!(query_of(b"/eval?"), Some(&b""[..]));
    assert_eq!(query_of(b"/eval??x"), Some(&b""[..]));
    assert_eq!(query_of(b"/eval"), None);
    assert_eq!(query_of(b""), None);
}

#[test]
fn query_agrees_with_the_standard_library() {
    for target in TARGETS {
        let expected = target.split('?').nth(1).map(|q| q.as_bytes());
        assert_eq!(query_of(target.as_bytes()), expected, "{target:?}");
    }
}

#[test]
fn param_value_takes_the_first_piece_with_the_prefix() {
    assert_eq!(param_value(b"wait=5", b"wait="), Some(&b"5"[..]));
    assert_eq!(param_value(b"a=1&wait=5&wait=6", b"wait="), Some(&b"5"[..]));
    assert_eq!(param_value(b"wait=&wait=6", b"wait="), Some(&b""[..]));
    assert_eq!(param_value(b"await=5", b"wait="), None);
    assert_eq!(param_value(b"", b"wait="), None);
    assert_eq!(param_value(b"&&", b"wait="), None);
    assert_eq!(param_value(b"a&b", b""), Some(&b"a"[..]));
}

#[test]
fn parse_number_reads_decimal_numbers() {
    assert_eq!(parse_number(b"0"), Some(0));
    assert_eq!(parse_number(b"50"), Some(50));
    assert_eq!(parse_number(b"007"), Some(7));
    assert_eq!(parse_number(b"+12"), Some(12));
    assert_eq!(parse_number(b"18446744073709551615"), Some(u64::MAX));
}

#[test]
fn parse_number_refuses_what_is_no_number() {
    assert_eq!(parse_number(b""), None);
    assert_eq!(parse_number(b"+"), None);
    assert_eq!(parse_number(b"-"), None);
    assert_eq!(parse_number(b"-1"), None);
    assert_eq!(parse_number(b"++1"), None);
    assert_eq!(parse_number(b"1+"), None);
    assert_eq!(parse_number(b" 1"), None);
    assert_eq!(parse_number(b"1 "), None);
    assert_eq!(parse_number(b"12ms"), None);
    assert_eq!(parse_number(b"0x10"), None);
    assert_eq!(parse_number(b"1.5"), None);
    assert_eq!(parse_number("١٢".as_bytes()), None);
}

#[test]
fn parse_number_refuses_what_does_not_fit() {
    assert_eq!(parse_number(b"18446744073709551616"), None);
    assert_eq!(parse_number(b"18446744073709551620"), None);
    assert_eq!(parse_number(b"28446744073709551615"), None);
    assert_eq!(parse_number(b"99999999999999999999999999999999"), None);
    assert_eq!(parse_number(b"184467440737095516150"), None);
    assert_eq!(parse_number(b"18446744073709551616x"), None);
}

#[test]
fn parse_number_agrees_with_the_standard_library() {
    let texts = [
        "", "0", "1", "9", "10", "99", "100", "+0", "+1", "-0", "-1", "+", "-", "++1", "+-1", "1+1",
        "0000", "00001", "4294967295", "4294967296", "18446744073709551614",
        "18446744073709551615", "18446744073709551616", "18446744073709551625",
        "+18446744073709551615", "+18446744073709551616", "000018446744073709551615",
        "1844674407370955161", "18446744073709551615 ", "1_000", "1e3", "٣", "１２", "12a", "a12",
        "/", ":", "0/", "0:",
    ];
    for text in texts {
        assert_eq!(parse_number(text.as_bytes()), text.parse::<u64>().ok(), "{text:?}");
    }
    for n in 0..2000u64 {
        let text = format!("{n}");
        assert_eq!(parse_number(text.as_bytes()), Some(n));
    }
}

#[test]
fn wait_is_read_from_the_first_wait_parameter() {
    assert_eq!(wait_of(b"/eval?wait=50"), Some(50));
    assert_eq!(wait_of(b"/eval?a=1&wait=20&b=2"), Some(20));
    assert_eq!(wait_of(b"/eval?wait=20&wait=30"), Some(20));
    assert_eq!(wait_of(b"/eval?wait=0"), Some(0));
    assert_eq!(wait_of(b"/anything?wait=9"), Some(9));
}

#[test]
fn wait_is_absent_without_a_number() {
    assert_eq!(wait_of(b"/eval"), None);
    assert_eq!(wait_of(b"/eval?"), None);
    assert_eq!(wait_of(b"/eval?wait="), None);
    assert_eq!(wait_of(b"/eval?wait=soon"), None);
    assert_eq!(wait_of(b"/eval?wait=-5"), None);
    assert_eq!(wait_of(b"/eval?await=5"), None);
    assert_eq!(wait_of(b"/eval?wait=x&wait=20"), None);
    assert_eq!(wait_of(b"/eval?a=1?wait=20"), None);
    assert_eq!(wait_of(b"/eval&wait=20"), None);
}

#[test]
fn wait_agrees_with_the_standard_library() {
    for target in TARGETS {
        assert_eq!(wait_of(target.as_bytes()), wait_by_std(target), "{target:?}");
    }
}

#[test]
fn route_matches_the_path_exactly() {
    assert_eq!(route(b"/screenshot"), Route::Screenshot);
    assert_eq!(route(b"/screenshot?anything=1"), Route::Screenshot);
    assert_eq!(route(b"/eval"), Route::Eval { wait: None });
    assert_eq!(route(b"/eval?wait=50"), Route::Eval { wait: Some(50) });
    assert_eq!(route(b"/eval?wait=abc"), Route::Eval { wait: None });
    assert_eq!(route(b"/does-not-exist"), Route::Usage);
    assert_eq!(route(b"/screenshot/"), Route::Usage);
    assert_eq!(route(b"/Screenshot"), Route::Usage);
    assert_eq!(route(b"/eval/x"), Route::Usage);
    assert_eq!(route(b"screenshot"), Route::Usage);
    assert_eq!(route(b"/"), Route::Usage);
    assert_eq!(route(b""), Route::Usage);
}

#[test]
fn route_agrees_with_the_standard_library() {
    for target in TARGETS {
        let expected = match path_by_std(target) {
            "/screenshot" => Route::Screenshot,
            "/eval" => Route::Eval { wait: wait_by_std(target) },
            _ => Route::Usage,
        };
        assert_eq!(route(target.as_bytes()), expected, "{target:?}");
    }
}
