use rise_code::traits::{UnwrapAndLog, UnwrapAndLogOr, UnwrapAndLogRes};

#[test]
fn unwrap_with_default() {
    assert_eq!(Some(5u32).unwrap_log("missing"), 5);
    assert_eq!(None::<u32>.unwrap_log("missing"), 0);
    assert_eq!(None::<String>.unwrap_log("missing"), "");
}

#[test]
fn unwrap_with_fallback() {
    assert_eq!(Some("a").unwrap_log_or("missing", "b"), "a");
    assert_eq!(None.unwrap_log_or("missing", "b"), "b");
}

#[test]
fn unwrap_ok_result() {
    let r: Result<u8, String> = Ok(3);
    assert_eq!(r.unwrap_log(), 3);
}
