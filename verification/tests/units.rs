use pttcrawler::board::{all_boards, board_of_chars, board_str, is_board_name, BoardName};
use pttcrawler::dates::{
    days_in_month, is_leap_year, parse_header_date, resolve_reply_date, weekday, DateTime,
};
use pttcrawler::text::{chars_to_string, str_chars, trim_chars};
use pttcrawler::TW_TIME_OFFSET_SECS;

fn chars(s: &str) -> Vec<char> {
    s.chars().collect()
}

#[test]
fn test_tw_offset_is_utc_plus_eight() {
    assert_eq!(TW_TIME_OFFSET_SECS, 8 * 3600);
}

#[test]
fn test_is_leap_year() {
    assert!(is_leap_year(2008));
    assert!(is_leap_year(2000));
    assert!(!is_leap_year(1900));
    assert!(!is_leap_year(2007));
}

#[test]
fn test_days_in_month() {
    assert_eq!(days_in_month(2007, 2), 28);
    assert_eq!(days_in_month(2008, 2), 29);
    assert_eq!(days_in_month(2007, 6), 30);
    assert_eq!(days_in_month(2007, 12), 31);
}

#[test]
fn test_weekday() {
    // 0 = Monday .. 6 = Sunday
    assert_eq!(weekday(2007, 6, 14), 3);
    assert_eq!(weekday(2007, 3, 10), 5);
    assert_eq!(weekday(2005, 6, 20), 0);
    assert_eq!(weekday(2000, 1, 1), 5);
}

#[test]
fn test_parse_header_date_exact() {
    let dt = parse_header_date(&chars("Thu Jun 14 14:18:43 2007")).unwrap();
    assert_eq!(
        dt,
        DateTime {
            year: 2007,
            month: 6,
            day: 14,
            hour: 14,
            min: 18,
            sec: 43
        }
    );
}

#[test]
fn test_parse_header_date_rejects_wrong_weekday() {
    assert_eq!(parse_header_date(&chars("Fri Jun 14 14:18:43 2007")), None);
}

#[test]
fn test_parse_header_date_rejects_impossible_day() {
    assert_eq!(parse_header_date(&chars("Sat Jun 31 10:00:00 2006")), None);
}

#[test]
fn test_parse_header_date_rejects_trailing_text() {
    assert_eq!(
        parse_header_date(&chars("Thu Jun 14 14:18:43 2007 extra")),
        None
    );
}

#[test]
fn test_resolve_reply_date_plain() {
    let at = DateTime {
        year: 2007,
        month: 6,
        day: 14,
        hour: 14,
        min: 18,
        sec: 43,
    };
    assert_eq!(
        resolve_reply_date(&at, 7, 1, 23, 59),
        Some(DateTime {
            year: 2007,
            month: 7,
            day: 1,
            hour: 23,
            min: 59,
            sec: 0
        })
    );
    assert_eq!(resolve_reply_date(&at, 13, 1, 0, 0), None);
    assert_eq!(resolve_reply_date(&at, 6, 31, 0, 0), None);
    assert_eq!(resolve_reply_date(&at, 6, 15, 24, 0), None);
}

#[test]
fn test_resolve_reply_date_leap_rollover_never_backward() {
    let at = DateTime {
        year: 2005,
        month: 1,
        day: 1,
        hour: 0,
        min: 0,
        sec: 0,
    };
    // 2004 was a leap year, but the stamp rolls forward to 2008, never back
    assert_eq!(
        resolve_reply_date(&at, 2, 29, 6, 30),
        Some(DateTime {
            year: 2008,
            month: 2,
            day: 29,
            hour: 6,
            min: 30,
            sec: 0
        })
    );
    let leap = DateTime {
        year: 2008,
        month: 3,
        day: 1,
        hour: 0,
        min: 0,
        sec: 0,
    };
    // an article already dated in a leap year keeps its own year
    assert_eq!(resolve_reply_date(&leap, 2, 29, 0, 0).unwrap().year, 2008);
}

#[test]
fn test_board_parse_and_render() {
    assert_eq!(board_of_chars(&chars("Soft_Job")), BoardName::SoftJob);
    assert_eq!(board_of_chars(&chars("Gossiping")), BoardName::Gossiping);
    assert_eq!(board_of_chars(&chars("Boy-Girl")), BoardName::BoyGirl);
    assert_eq!(board_of_chars(&chars("no_such_board")), BoardName::Unknown);
    assert_eq!(board_str(&BoardName::SoftJob), "Soft_Job");
    assert_eq!(board_str(&BoardName::BasketballTW), "basketballTW");
    assert_eq!(board_str(&BoardName::Unknown), "Unknown");
}

#[test]
fn test_board_name_recognition() {
    assert!(is_board_name(&chars("Gossiping")));
    assert!(is_board_name(&chars("Unknown")));
    assert!(!is_board_name(&chars("gossiping")));
    assert!(!is_board_name(&chars("")));
}

#[test]
fn test_all_boards_lists_every_variant_once() {
    let boards = all_boards();
    assert_eq!(boards.len(), 109);
    assert_eq!(boards[0], BoardName::AllTogether);
    assert_eq!(boards[boards.len() - 1], BoardName::Unknown);
    for (i, b) in boards.iter().enumerate() {
        for other in boards.iter().skip(i + 1) {
            assert_ne!(b, other);
        }
    }
}

#[test]
fn test_trim_and_string_round_trip() {
    let t = trim_chars(&chars("  推 文  "));
    assert_eq!(chars_to_string(&t), "推 文".to_string());
    assert_eq!(chars_to_string(&str_chars("Soft_Job 板試閱")), "Soft_Job 板試閱");
}
