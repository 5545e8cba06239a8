use pttcrawler::article::{Ipv4, ReplyType};
use pttcrawler::board::BoardName;
use pttcrawler::dates::DateTime;
use pttcrawler::document::{Document, PushNode, Span};
use pttcrawler::parser::{
    is_article_exist, parse, parse_author, parse_board, parse_content, parse_date, parse_id,
    parse_ip, parse_replies, parse_title, Error,
};

fn empty_document() -> Document {
    Document {
        canonical_href: None,
        og_title: None,
        meta_values: Vec::new(),
        spans: Vec::new(),
        f2_texts: Vec::new(),
        bbs_contents: Vec::new(),
        main_content: String::new(),
        pushes: Vec::new(),
    }
}

fn modern_document() -> Document {
    let mut doc = empty_document();
    doc.canonical_href = Some("https://www.ptt.cc/bbs/Soft_Job/M.1181801925.A.86E.html".to_string());
    doc.og_title = Some("[公告] Soft_Job 板試閱".to_string());
    doc.meta_values = vec![
        "Junchoon (裘髯客)".to_string(),
        "Soft_Job".to_string(),
        "[公告] Soft_Job 板試閱".to_string(),
        "Thu Jun 14 14:18:43 2007".to_string(),
    ];
    doc.main_content =
        "作者: Junchoon (裘髯客) 看板: Soft_Job\n板規試行\n※ 發信站: 批踢踢實業坊(ptt.cc)\n".to_string();
    doc.f2_texts = vec!["※ 發信站: 批踢踢實業坊(ptt.cc) [來自: 125.232.236.105]".to_string()];
    doc
}

fn push_node(tag: &str, author: &str, content: &str, stamp: &str) -> PushNode {
    PushNode {
        text: format!("{} {} {} {}", tag, author, content, stamp),
        tag: tag.to_string(),
        author_id: author.to_string(),
        content: content.to_string(),
        ip_datetime: stamp.to_string(),
    }
}

#[test]
fn test_deleted_article() {
    let mut doc = empty_document();
    doc.bbs_contents = vec!["404 - Not Found.".to_string()];

    assert!(match parse(&doc) {
        Ok(_) => false,
        Err(e) => match e {
            Error::DeletedArticle => true,
            _ => false,
        },
    });
}

#[test]
fn test_parse_id() {
    let doc = modern_document();

    assert_eq!(parse_id(&doc).unwrap(), "M.1181801925.A.86E".to_string());
}

#[test]
fn test_parse_title_with_category() {
    let doc = modern_document();

    assert_eq!(
        parse_title(&doc).unwrap(),
        (Some("公告".to_string()), "Soft_Job 板試閱".to_string())
    );
}

#[test]
fn test_parse_title_without_category() {
    let mut doc = empty_document();
    doc.og_title = Some("搶頭香".to_string());

    assert_eq!(parse_title(&doc).unwrap(), (None, "搶頭香".to_string()));
}

#[test]
fn test_parse_title_not_in_html_meta() {
    let mut doc = empty_document();
    doc.spans = vec![Span {
        text: " 標題 ".to_string(),
        next_text: "[名人] 有沒有人有希特勒的八卦阿".to_string(),
    }];

    assert_eq!(
        parse_title(&doc).unwrap(),
        (
            Some("名人".to_string()),
            "有沒有人有希特勒的八卦阿".to_string()
        )
    );
}

#[test]
fn test_parse_title_within_content() {
    let mut doc = empty_document();
    doc.main_content =
        "看板: Gossiping\n標題: Re: 有沒有俄國人的八卦？\n時間: Sat Mar 10 00:07:48 2007\n".to_string();

    assert_eq!(
        parse_title(&doc).unwrap(),
        (None, "Re: 有沒有俄國人的八卦？".to_string())
    );
}

#[test]
fn test_parse_author() {
    let doc = modern_document();

    assert_eq!(
        parse_author(&doc).unwrap(),
        ("Junchoon".to_string(), Some("裘髯客".to_string()))
    );
}

#[test]
fn test_parse_author_with_non_chinese() {
    let mut doc = empty_document();
    doc.meta_values = vec!["eggimage (雞蛋非人哉啊....)".to_string()];

    assert_eq!(
        parse_author(&doc).unwrap(),
        ("eggimage".to_string(), Some("雞蛋非人哉啊....".to_string()))
    );
}

#[test]
fn test_parse_author_not_in_html_meta() {
    let mut doc = empty_document();
    doc.spans = vec![Span {
        text: "作者".to_string(),
        next_text: "MOTHERGOOSE".to_string(),
    }];

    assert_eq!(parse_author(&doc).unwrap(), ("MOTHERGOOSE".to_string(), None));
}

#[test]
fn test_parse_author_within_content() {
    let mut doc = empty_document();
    doc.main_content = "作者: julysecond (還是台灣好)\n看板: Gossiping\n".to_string();

    assert_eq!(
        parse_author(&doc).unwrap(),
        ("julysecond".to_string(), Some("還是台灣好".to_string()))
    );
}

#[test]
fn test_parse_board() {
    let doc = modern_document();

    assert_eq!(parse_board(&doc).unwrap(), BoardName::SoftJob);
}

#[test]
fn test_parse_board_not_in_html_meta() {
    let mut doc = empty_document();
    doc.spans = vec![Span {
        text: "看板".to_string(),
        next_text: "Gossiping".to_string(),
    }];

    assert_eq!(parse_board(&doc).unwrap(), BoardName::Gossiping);
}

#[test]
fn test_parse_date() {
    let doc = modern_document();
    let article_date = DateTime {
        year: 2007,
        month: 6,
        day: 14,
        hour: 14,
        min: 18,
        sec: 43,
    };

    assert_eq!(parse_date(&doc).unwrap(), article_date);
}

#[test]
fn test_parse_date_with_abnormal_location() {
    let mut doc = empty_document();
    doc.main_content = "板規\n發文時間 Thu Jun 14 20:27:24 2007 左右\n".to_string();
    let article_date = DateTime {
        year: 2007,
        month: 6,
        day: 14,
        hour: 20,
        min: 27,
        sec: 24,
    };

    assert_eq!(parse_date(&doc).unwrap(), article_date);
}

#[test]
fn test_parse_date_within_content() {
    let mut doc = empty_document();
    doc.main_content =
        "作者: julysecond (還是台灣好)\n時間: Sat Mar 10 00:07:48 2007\n內文\n".to_string();
    let article_date = DateTime {
        year: 2007,
        month: 3,
        day: 10,
        hour: 0,
        min: 7,
        sec: 48,
    };

    assert_eq!(parse_date(&doc).unwrap(), article_date);
}

#[test]
fn test_parse_replies() {
    let mut doc = empty_document();
    doc.pushes = vec![
        push_node("推", "alice", ": 推一個", "06/14 15:00"),
        push_node("推", "bob", ": 好文", "06/14 15:05"),
        push_node("→", "carol", ": 補充", "06/14 15:06"),
        push_node("噓", "dave", ": 不同意", "06/14 16:00"),
        push_node("推", "erin", ": 收藏", "06/14 18:30"),
    ];
    let article_date = Some(DateTime {
        year: 2007,
        month: 6,
        day: 14,
        hour: 14,
        min: 18,
        sec: 43,
    });

    assert_eq!(parse_replies(&doc, &article_date).len(), 5)
}

#[test]
fn test_parse_replies_with_warning_message() {
    let mut doc = empty_document();
    for i in 0..1491 {
        doc.pushes.push(push_node(
            if i % 3 == 0 { "推" } else { "→" },
            &format!("user{}", i),
            ": 卦呢",
            "06/20 08:00",
        ));
    }
    doc.pushes.push(PushNode {
        text: "檔案過大！部分文章無法顯示".to_string(),
        tag: String::new(),
        author_id: String::new(),
        content: String::new(),
        ip_datetime: String::new(),
    });
    let article_date = Some(DateTime {
        year: 2005,
        month: 6,
        day: 20,
        hour: 7,
        min: 11,
        sec: 31,
    });

    assert_eq!(parse_replies(&doc, &article_date).len(), 1491)
}

#[test]
fn test_parse_replies_with_invalid_date() {
    let mut doc = empty_document();
    for i in 0..6 {
        doc.pushes
            .push(push_node("推", &format!("user{}", i), ": 哈哈", "03/32"));
    }
    let article_date = Some(DateTime {
        year: 2006,
        month: 4,
        day: 1,
        hour: 18,
        min: 9,
        sec: 31,
    });

    let replies = parse_replies(&doc, &article_date);

    for i in 0..=5 {
        assert_eq!(replies[i].date, None);
    }
}

#[test]
fn test_parse_article_without_reply() {
    let doc = empty_document();
    let article_date = Some(DateTime {
        year: 2007,
        month: 6,
        day: 14,
        hour: 14,
        min: 53,
        sec: 44,
    });

    assert_eq!(parse_replies(&doc, &article_date).len(), 0)
}

#[test]
fn test_parse_ip() {
    let doc = modern_document();

    assert_eq!(
        parse_ip(&doc).unwrap(),
        Ipv4 {
            a: 125,
            b: 232,
            c: 236,
            d: 105
        }
    );
}

#[test]
fn test_parse_ip2() {
    let mut doc = empty_document();
    doc.f2_texts = vec![
        "※ 編輯: somebody".to_string(),
        "From: 138.130.212.179".to_string(),
    ];

    assert_eq!(
        parse_ip(&doc).unwrap(),
        Ipv4 {
            a: 138,
            b: 130,
            c: 212,
            d: 179
        }
    );
}

#[test]
fn test_parse_ip3() {
    let mut doc = empty_document();
    doc.main_content = "內文\n※ 發信站: 批踢踢實業坊(ptt.cc) 來自: 140.118.229.94\n".to_string();

    assert_eq!(
        parse_ip(&doc).unwrap(),
        Ipv4 {
            a: 140,
            b: 118,
            c: 229,
            d: 94
        }
    );
}

#[test]
fn test_parse_invalid_ip() {
    let mut doc = empty_document();
    doc.f2_texts = vec!["來自: 326.100.1.1".to_string()];

    assert_eq!(
        parse_ip(&doc),
        Err(Error::FieldNotFound("ip".to_string()))
    );
}

#[test]
fn test_parse_malformed_content() {
    let mut doc = empty_document();
    doc.main_content = "標頭\n內文沒有結尾標記".to_string();

    assert_eq!(parse_content(&doc), Err(Error::InvalidFormat));
}

#[test]
fn test_existence_check() {
    let mut doc = empty_document();
    doc.bbs_contents = vec!["一切正常".to_string()];
    assert!(is_article_exist(&doc));
    doc.bbs_contents.push("本文 404 - Not Found. 已刪除".to_string());
    assert!(!is_article_exist(&doc));
}

#[test]
fn test_parse_content_strips_header_and_signature() {
    let mut doc = empty_document();
    doc.main_content = "作者標頭列\n正文第一行\n正文第二行\n※ 發信站: 批踢踢實業坊\n".to_string();

    assert_eq!(
        parse_content(&doc).unwrap(),
        "正文第一行\n正文第二行".to_string()
    );
}

fn full_document() -> Document {
    let mut doc = modern_document();
    doc.main_content =
        "作者 Junchoon (裘髯客) 標題 [公告] Soft_Job 板試閱\n板規內容第一行\n板規內容第二行\n※ 發信站: 批踢踢實業坊(ptt.cc)\n來自: 125.232.236.105\n"
            .to_string();
    doc.pushes = vec![
        push_node("推", "alice", ": 推一個", "118.166.116.44 06/14 15:00"),
        push_node("噓", "bob", ": 噓一個", "06/14 15:05"),
        push_node("→", "carol", ": 補充", "06/15"),
        push_node("推", "dave", ": 好", "06/15 01:00"),
    ];
    doc
}

#[test]
fn test_parse_full_article() {
    let doc = full_document();
    let article = parse(&doc).unwrap();

    assert_eq!(article.meta.id, "M.1181801925.A.86E".to_string());
    assert_eq!(article.meta.board, BoardName::SoftJob);
    assert_eq!(article.meta.category, "公告".to_string());
    assert_eq!(article.meta.title, "Soft_Job 板試閱".to_string());
    assert_eq!(article.meta.author_id, "Junchoon".to_string());
    assert_eq!(article.meta.author_name, Some("裘髯客".to_string()));
    assert_eq!(
        article.meta.date,
        Some(DateTime {
            year: 2007,
            month: 6,
            day: 14,
            hour: 14,
            min: 18,
            sec: 43
        })
    );
    assert_eq!(
        article.meta.ip,
        Some(Ipv4 {
            a: 125,
            b: 232,
            c: 236,
            d: 105
        })
    );
    assert_eq!(
        article.content,
        "板規內容第一行\n板規內容第二行".to_string()
    );
    assert_eq!(article.replies.len(), 4);
    assert_eq!(
        article.replies[0].ip,
        Some(Ipv4 {
            a: 118,
            b: 166,
            c: 116,
            d: 44
        })
    );
    assert_eq!(article.replies[2].date.unwrap().hour, 0);
    assert_eq!(article.replies[2].date.unwrap().min, 0);
}

#[test]
fn test_parse_idempotent() {
    let doc = full_document();

    let first = parse(&doc).unwrap();
    let second = parse(&doc).unwrap();

    assert_eq!(first, second);
}

#[test]
fn test_tally_matches_replies() {
    let doc = full_document();
    let article = parse(&doc).unwrap();

    let push = article
        .replies
        .iter()
        .filter(|r| r.reply_type == ReplyType::Push)
        .count();
    let neutral = article
        .replies
        .iter()
        .filter(|r| r.reply_type == ReplyType::Neutral)
        .count();
    let boo = article
        .replies
        .iter()
        .filter(|r| r.reply_type == ReplyType::Boo)
        .count();
    assert_eq!(article.reply_count.push as usize, push);
    assert_eq!(article.reply_count.neutral as usize, neutral);
    assert_eq!(article.reply_count.boo as usize, boo);
    assert_eq!((push, neutral, boo), (2, 1, 1));
}

#[test]
fn test_leap_day_reply_rolls_forward() {
    let mut doc = empty_document();
    doc.pushes = vec![push_node("推", "alice", ": 生日快樂", "02/29 12:30")];
    let article_date = Some(DateTime {
        year: 2007,
        month: 6,
        day: 14,
        hour: 14,
        min: 18,
        sec: 43,
    });

    let replies = parse_replies(&doc, &article_date);

    assert_eq!(
        replies[0].date,
        Some(DateTime {
            year: 2008,
            month: 2,
            day: 29,
            hour: 12,
            min: 30,
            sec: 0
        })
    );
}

#[test]
fn test_reply_invalid_octet_keeps_reply_without_ip() {
    let mut doc = empty_document();
    doc.pushes = vec![push_node("推", "alice", ": 哈", "326.1.2.3 06/14 15:00")];
    let article_date = Some(DateTime {
        year: 2007,
        month: 6,
        day: 14,
        hour: 14,
        min: 18,
        sec: 43,
    });

    let replies = parse_replies(&doc, &article_date);

    assert_eq!(replies.len(), 1);
    assert_eq!(replies[0].ip, None);
    assert_eq!(replies[0].date.unwrap().day, 14);
}

#[test]
fn test_reply_stamp_found_in_content_is_stripped() {
    let mut doc = empty_document();
    doc.pushes = vec![PushNode {
        text: "推 old 推文 118.166.116.44 06/14".to_string(),
        tag: "推".to_string(),
        author_id: "old".to_string(),
        content: ": 舊式推文 118.166.116.44 06/14".to_string(),
        ip_datetime: "  ".to_string(),
    }];
    let article_date = Some(DateTime {
        year: 2007,
        month: 6,
        day: 14,
        hour: 14,
        min: 18,
        sec: 43,
    });

    let replies = parse_replies(&doc, &article_date);

    assert_eq!(replies.len(), 1);
    assert_eq!(replies[0].content, "舊式推文".to_string());
    assert_eq!(
        replies[0].ip,
        Some(Ipv4 {
            a: 118,
            b: 166,
            c: 116,
            d: 44
        })
    );
}

#[test]
fn test_unparseable_tag_drops_reply_only() {
    let mut doc = empty_document();
    doc.pushes = vec![
        push_node("??", "alice", ": 奇怪", "06/14 15:00"),
        push_node("推", "bob", ": 正常", "06/14 15:01"),
    ];
    let article_date = None;

    let replies = parse_replies(&doc, &article_date);

    assert_eq!(replies.len(), 1);
    assert_eq!(replies[0].author_id, "bob".to_string());
    assert_eq!(replies[0].date, None);
}

#[test]
fn test_reply_stamp_last_octet_gives_back_digits_to_the_date() {
    let mut doc = empty_document();
    doc.pushes = vec![push_node("推", "alice", ": 哈", "1.2.3.4407/14")];
    let article_date = Some(DateTime {
        year: 2007,
        month: 6,
        day: 14,
        hour: 14,
        min: 18,
        sec: 43,
    });

    let replies = parse_replies(&doc, &article_date);

    assert_eq!(replies.len(), 1);
    assert_eq!(
        replies[0].ip,
        Some(Ipv4 {
            a: 1,
            b: 2,
            c: 3,
            d: 44
        })
    );
    let date = replies[0].date.unwrap();
    assert_eq!((date.month, date.day), (7, 14));
}

#[test]
fn test_reply_stamp_without_origin_reads_time() {
    let mut doc = empty_document();
    doc.pushes = vec![push_node("→", "bob", ": 哈", "07/14 14:23")];
    let article_date = Some(DateTime {
        year: 2007,
        month: 6,
        day: 14,
        hour: 14,
        min: 18,
        sec: 43,
    });

    let replies = parse_replies(&doc, &article_date);

    assert_eq!(replies[0].ip, None);
    assert_eq!(
        replies[0].date,
        Some(DateTime {
            year: 2007,
            month: 7,
            day: 14,
            hour: 14,
            min: 23,
            sec: 0
        })
    );
}

#[test]
fn test_title_prefers_structured_markup_over_marker() {
    let mut doc = empty_document();
    doc.og_title = Some("[公告] 結構化標題".to_string());
    doc.main_content = "標頭\n標題: 內文裡的標題\n".to_string();

    assert_eq!(
        parse_title(&doc).unwrap(),
        (Some("公告".to_string()), "結構化標題".to_string())
    );
}
