use pttcrawler::article::Article;
use pttcrawler::board::BoardName;
use pttcrawler::crawler::{
    adjust_board_range, compose_page_url, extract_article_urls, is_supported_url,
    page_count_of_listing, Accumulator, Anchor, Error, Listing, PageRange, Row, RowNode,
};

fn empty_listing() -> Listing {
    Listing {
        wide_links: Vec::new(),
        title_rows: Vec::new(),
    }
}

fn anchor_row(text: &str, href: &str) -> Row {
    Row {
        children: vec![
            RowNode {
                is_anchor: false,
                text: "12".to_string(),
                href: String::new(),
            },
            RowNode {
                is_anchor: true,
                text: text.to_string(),
                href: href.to_string(),
            },
        ],
    }
}

#[test]
fn test_compose_page_url() {
    assert_eq!(
        compose_page_url(&BoardName::Gossiping, 38992),
        "https://www.ptt.cc/bbs/Gossiping/index38992.html".to_string()
    );
    assert_eq!(
        compose_page_url(&BoardName::SoftJob, 0),
        "https://www.ptt.cc/bbs/Soft_Job/index0.html".to_string()
    );
}

#[test]
fn test_crawl_not_ptt_url() {
    assert!(!is_supported_url("https://www.google.com"));
}

#[test]
fn test_crawl_invalid_ptt_url() {
    // the bare site has no article path, so the first segment check fails
    assert!(!is_supported_url("https://www.ptt.cc"));
}

#[test]
fn test_supported_ptt_url() {
    assert!(is_supported_url(
        "https://www.ptt.cc/bbs/Gossiping/M.1181801925.A.86E.html"
    ));
    assert!(is_supported_url("https://www.ptt.cc/bbs/Soft_Job/index1.html"));
    assert!(!is_supported_url("https://www.ptt.cc/bbs/NoSuchBoard/index1.html"));
    assert!(!is_supported_url("https://www.ptt.cc/man/Gossiping/index1.html"));
}

#[test]
fn test_page_count_without_prev_link() {
    let listing = empty_listing();

    assert_eq!(page_count_of_listing(&listing).unwrap(), 1);
}

#[test]
fn test_page_count_from_prev_link() {
    let mut listing = empty_listing();
    listing.wide_links = vec![
        Anchor {
            text: "最舊".to_string(),
            href: "/bbs/Gossiping/index1.html".to_string(),
        },
        Anchor {
            text: "‹ 上頁".to_string(),
            href: "/bbs/Gossiping/index38992.html".to_string(),
        },
    ];

    assert_eq!(page_count_of_listing(&listing).unwrap(), 38993);
}

#[test]
fn test_page_count_with_unreadable_link() {
    let mut listing = empty_listing();
    listing.wide_links = vec![Anchor {
        text: "‹ 上頁".to_string(),
        href: "/bbs/Gossiping/latest.html".to_string(),
    }];

    assert!(matches!(
        page_count_of_listing(&listing),
        Err(Error::InvalidResponse)
    ));
}

#[test]
fn test_extract_article_urls_keeps_listing_order() {
    let mut listing = empty_listing();
    listing.title_rows = vec![
        anchor_row("[公告] 一", "/bbs/Gossiping/M.1.A.html"),
        Row {
            children: vec![RowNode {
                is_anchor: true,
                text: "   ".to_string(),
                href: "/bbs/Gossiping/M.2.A.html".to_string(),
            }],
        },
        Row { children: vec![] },
        anchor_row("問卦 二", "/bbs/Gossiping/M.3.A.html"),
    ];

    let urls = extract_article_urls(&listing);

    assert_eq!(
        urls,
        vec![
            "https://www.ptt.cc/bbs/Gossiping/M.1.A.html".to_string(),
            "https://www.ptt.cc/bbs/Gossiping/M.3.A.html".to_string(),
        ]
    );
}

#[test]
fn test_partial_failure_aggregation() {
    let mut acc: Accumulator<String> = Accumulator::new();
    acc.absorb_page(Ok(vec!["p1a".to_string(), "p1b".to_string()]));
    acc.absorb_page(Err(Error::ConnectionError("timed out".to_string())));
    acc.absorb_page(Ok(vec!["p3a".to_string()]));

    let items = acc.finish().unwrap();

    assert_eq!(
        items,
        vec!["p1a".to_string(), "p1b".to_string(), "p3a".to_string()]
    );
}

#[test]
fn test_empty_crawl_reports_last_error() {
    let mut acc: Accumulator<Article> = Accumulator::new();
    acc.absorb_page(Err(Error::ConnectionError("refused".to_string())));
    acc.absorb_page(Err(Error::InvalidUrl));

    assert!(matches!(acc.finish(), Err(Error::InvalidUrl)));
}

#[test]
fn test_accumulator_item_failures_do_not_drop_items() {
    let mut acc: Accumulator<u32> = Accumulator::new();
    acc.absorb_item(Ok(1));
    acc.absorb_item(Err(Error::InvalidResponse));
    acc.absorb_item(Ok(3));

    assert_eq!(acc.finish().unwrap(), vec![1, 3]);
}

#[test]
fn test_adjust_board_range() {
    assert_eq!(
        adjust_board_range(10, None),
        Ok(PageRange { start: 1, end: 10 })
    );
    assert_eq!(
        adjust_board_range(10, Some(vec![3])),
        Ok(PageRange { start: 3, end: 10 })
    );
    assert_eq!(
        adjust_board_range(10, Some(vec![7, 2])),
        Ok(PageRange { start: 2, end: 7 })
    );
    assert_eq!(adjust_board_range(10, Some(vec![2, 11])), Err(()));
}
