use growtopia_login::credentials::LoginCredentials;
use growtopia_login::launch::LaunchPlan;
use growtopia_login::meta::{parse_meta, MetaRequest};
use growtopia_login::text::{chars_of, contains, position_of, stands_at, string_of};

fn chars(s: &str) -> Vec<char> {
    s.chars().collect()
}

const FIXED: [&str; 5] = [
    "--disable-blink-features=AutomationControlled",
    "--disable-web-security",
    "--no-sandbox",
    "--disable-dev-shm-usage",
    "--disable-features=IsolateOrigins,site-per-process",
];

#[test]
fn default_credentials_are_empty() {
    let creds = LoginCredentials::default();
    assert_eq!(creds.email, "");
    assert_eq!(creds.password, "");
    assert_eq!(creds.recovery_email, None);
    assert_eq!(creds.proxy, None);
    assert!(!creds.headless);
}

#[test]
fn launch_without_proxy_has_the_fixed_flags() {
    let mut creds = LoginCredentials::default();
    let plan = LaunchPlan::for_credentials(&creds);
    assert!(plan.show_window);
    assert_eq!(plan.arguments, FIXED);
    creds.headless = true;
    creds.proxy = Some(String::new());
    let plan = LaunchPlan::for_credentials(&creds);
    assert!(!plan.show_window);
    assert_eq!(plan.arguments, FIXED);
}

#[test]
fn launch_with_proxy_appends_its_flag() {
    let mut creds = LoginCredentials::default();
    creds.proxy = Some("socks5://127.0.0.1:9050".to_string());
    let plan = LaunchPlan::for_credentials(&creds);
    assert_eq!(plan.arguments.len(), 6);
    assert_eq!(&plan.arguments[..5], &FIXED);
    assert_eq!(plan.arguments[5], "--proxy-server=socks5://127.0.0.1:9050");
}

#[test]
fn meta_request_is_fixed() {
    let request = MetaRequest::new();
    assert_eq!(request.method, "POST");
    assert_eq!(request.url, "https://www.growtopia1.com/growtopia/server_data.php");
    assert_eq!(request.body, "version=5.11&platform=0&protocol=216");
    assert_eq!(
        request.headers,
        vec![
            ("Host", "www.growtopia1.com"),
            ("User-Agent", "UbiServices_SDK_2022.Release.9_PC64_ansi_static"),
            ("Accept", "*/*"),
            ("Content-Type", "application/x-www-form-urlencoded"),
            ("Cache-Control", "no-cache"),
            ("Content-Length", "36"),
        ]
    );
    assert_eq!(request.body.len(), 36);
}

#[test]
fn meta_value_is_read_from_the_answer() {
    let answer = "server|213.179.209.168\nport|17198\ntype|1\nmeta|defined_meta_4711\nRTENDMARKERBS1001";
    assert_eq!(parse_meta(answer), Some("defined_meta_4711".to_string()));
    assert_eq!(parse_meta("meta|abc def"), Some("abc".to_string()));
    assert_eq!(parse_meta("meta|abc\r\nnext"), Some("abc".to_string()));
    assert_eq!(parse_meta("xmeta|a|b meta|second"), Some("a|b".to_string()));
}

#[test]
fn meta_value_may_be_absent() {
    assert_eq!(parse_meta(""), None);
    assert_eq!(parse_meta("server|1.2.3.4\nport|1"), None);
    assert_eq!(parse_meta("meta|"), None);
    assert_eq!(parse_meta("meta| x"), None);
    assert_eq!(parse_meta("meta|\nmeta|late"), Some("late".to_string()));
    assert_eq!(parse_meta("META|upper"), None);
}

#[test]
fn text_is_searched() {
    assert!(contains(&chars("hello world"), &chars("o w")));
    assert!(contains(&chars("hello"), &chars("")));
    assert!(contains(&chars(""), &chars("")));
    assert!(contains(&chars("hello"), &chars("hello")));
    assert!(contains(&chars("hello"), &chars("llo")));
    assert!(!contains(&chars("hello"), &chars("hellox")));
    assert!(!contains(&chars("hello"), &chars("lol")));
    assert!(stands_at(&chars("hello"), &chars("ll"), 2));
    assert!(!stands_at(&chars("hello"), &chars("ll"), 1));
    assert_eq!(position_of(&chars("a=b=c"), '='), 1);
    assert_eq!(position_of(&chars("abc"), '='), 3);
    assert_eq!(position_of(&chars(""), '='), 0);
}

#[test]
fn text_moves_between_strings_and_characters() {
    let sample = "gr\u{f6}\u{df}e \u{1f600} token";
    assert_eq!(chars_of(sample), chars(sample));
    assert_eq!(string_of(&chars(sample)), sample);
    assert_eq!(string_of(&chars_of("")), "");
}
