use rconlogger::text::{find_first_sep, first_segment, last_segment, split_string};

#[test]
fn split_keeps_every_piece_in_order() {
    assert_eq!(split_string("a,b,c", ','), vec!["a", "b", "c"]);
    assert_eq!(split_string("abc", ','), vec!["abc"]);
    assert_eq!(split_string("", ','), vec![""]);
    assert_eq!(split_string("a,", ','), vec!["a", ""]);
    assert_eq!(split_string(",a", ','), vec!["", "a"]);
    assert_eq!(split_string("a,,b", ','), vec!["a", "", "b"]);
}

#[test]
fn first_and_last_segments() {
    assert_eq!(find_first_sep("host:1:2", ':'), 4);
    assert_eq!(find_first_sep("host", ':'), 4);
    assert_eq!(first_segment("host:1:2", ':'), "host");
    assert_eq!(first_segment("host", ':'), "host");
    assert_eq!(last_segment("host:1:2", ':'), "2");
    assert_eq!(last_segment("host:", ':'), "");
}
