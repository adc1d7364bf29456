use sd_listen_fds::{decode, parse_u32, Error, OwnedFd, SD_LISTEN_FDS_START};

const PID: u32 = 4242;

fn numbers_and_names(entries: Vec<(Option<String>, OwnedFd)>) -> Vec<(Option<String>, u32)> {
    entries
        .into_iter()
        .map(|(name, fd)| (name, fd.into_raw()))
        .collect()
}

#[test]
fn absent_pid_gives_nothing() {
    let r = decode(None, PID, Some("3"), Some("a:b")).unwrap();
    assert!(r.is_empty());
    let r = decode(None, PID, Some("abc"), None).unwrap();
    assert!(r.is_empty());
}

#[test]
fn other_pid_gives_nothing() {
    let r = decode(Some("4243"), PID, Some("3"), Some("a:b")).unwrap();
    assert!(r.is_empty());
    let r = decode(Some("1"), PID, Some("abc"), None).unwrap();
    assert!(r.is_empty());
}

#[test]
fn absent_count_gives_nothing() {
    let r = decode(Some("4242"), PID, None, Some("a:b")).unwrap();
    assert!(r.is_empty());
}

#[test]
fn three_unnamed_descriptors() {
    let r = numbers_and_names(decode(Some("4242"), PID, Some("3"), None).unwrap());
    assert_eq!(r, vec![(None, 3), (None, 4), (None, 5)]);
}

#[test]
fn short_name_list_leaves_the_rest_unnamed() {
    let r = numbers_and_names(decode(Some("4242"), PID, Some("3"), Some("a:b")).unwrap());
    assert_eq!(
        r,
        vec![(Some("a".to_string()), 3), (Some("b".to_string()), 4), (None, 5)]
    );
}

#[test]
fn long_name_list_is_truncated() {
    let r = numbers_and_names(decode(Some("4242"), PID, Some("2"), Some("x:y:z")).unwrap());
    assert_eq!(r, vec![(Some("x".to_string()), 3), (Some("y".to_string()), 4)]);
}

#[test]
fn empty_name_list_names_nothing() {
    let r = numbers_and_names(decode(Some("4242"), PID, Some("2"), Some("")).unwrap());
    assert_eq!(r, vec![(None, 3), (None, 4)]);
}

#[test]
fn empty_pieces_are_empty_names() {
    let r = numbers_and_names(decode(Some("4242"), PID, Some("3"), Some("a::")).unwrap());
    assert_eq!(
        r,
        vec![
            (Some("a".to_string()), 3),
            (Some(String::new()), 4),
            (Some(String::new()), 5)
        ]
    );
}

#[test]
fn zero_count_gives_nothing() {
    let r = decode(Some("4242"), PID, Some("0"), Some("a")).unwrap();
    assert!(r.is_empty());
}

#[test]
fn plus_sign_is_accepted() {
    let r = numbers_and_names(decode(Some("+4242"), PID, Some("+1"), Some("web")).unwrap());
    assert_eq!(r, vec![(Some("web".to_string()), 3)]);
}

#[test]
fn non_numeric_count_is_malformed() {
    assert_eq!(
        decode(Some("4242"), PID, Some("abc"), None).err(),
        Some(Error::MalformedEnv)
    );
}

#[test]
fn non_numeric_pid_is_malformed() {
    assert_eq!(decode(Some("abc"), PID, Some("3"), None).err(), Some(Error::MalformedEnv));
    assert_eq!(decode(Some(""), PID, Some("3"), None).err(), Some(Error::MalformedEnv));
    assert_eq!(decode(Some("-1"), PID, None, None).err(), Some(Error::MalformedEnv));
}

#[test]
fn overflowing_count_is_malformed() {
    let just_over = (u32::MAX - SD_LISTEN_FDS_START + 1).to_string();
    assert_eq!(
        decode(Some("4242"), PID, Some(&just_over), None).err(),
        Some(Error::MalformedEnv)
    );
    assert_eq!(
        decode(Some("4242"), PID, Some("4294967295"), None).err(),
        Some(Error::MalformedEnv)
    );
    assert_eq!(
        decode(Some("4242"), PID, Some("4294967296"), None).err(),
        Some(Error::MalformedEnv)
    );
}

#[test]
fn parse_u32_values() {
    assert_eq!(parse_u32("0"), Some(0));
    assert_eq!(parse_u32("007"), Some(7));
    assert_eq!(parse_u32("+12"), Some(12));
    assert_eq!(parse_u32("4294967295"), Some(u32::MAX));
    assert_eq!(parse_u32("4294967296"), None);
    assert_eq!(parse_u32("99999999999"), None);
    assert_eq!(parse_u32(""), None);
    assert_eq!(parse_u32("+"), None);
    assert_eq!(parse_u32("-0"), None);
    assert_eq!(parse_u32("12a"), None);
    assert_eq!(parse_u32(" 1"), None);
}

#[test]
fn parse_u32_agrees_with_std() {
    for s in ["0", "+0", "42", "+", "", "-5", "4294967295", "4294967296", "1_0", "٣"] {
        assert_eq!(parse_u32(s), s.parse::<u32>().ok(), "{}", s);
    }
}

#[test]
fn error_message() {
    assert_eq!(
        Error::MalformedEnv.message(),
        "malformed socket activation environment"
    );
}
