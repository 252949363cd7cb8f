use noveler::chapter::Book;
use noveler::chapter::Chapter;
use noveler::error::NovelError;
use noveler::extract::apply_patterns;
use noveler::extract::check_patterns;
use noveler::extract::page_url;
use noveler::extract::Replacement;
use noveler::extract::select_attr;
use noveler::extract::select_each_text;
use noveler::extract::select_targets;
use noveler::extract::select_links;
use noveler::extract::select_text;
use noveler::extract::select_text_without;
use noveler::extract::site_base;
use noveler::fetch::decode_body;
use noveler::selector::Selector;
use noveler::fetch::Encoding;
use noveler::sites::book_dir;
use noveler::sites::czbooks::Czbooks;
use noveler::sites::hjwzw::Hjwzw;
use noveler::sites::novel543::Novel543;
use noveler::sites::piaotia::Piaotia;
use noveler::sites::qbtr::Qbtr;
use noveler::sites::uukanshu::UUkanshu;
use noveler::sites::Site;
use noveler::sites::SiteKind;

fn chapter(text: &str) -> Chapter {
    Chapter { order: "00001".to_string(), title: "題".to_string(), text: text.to_string() }
}

#[test]
fn sites_are_chosen_by_the_start_of_the_address() {
    assert_eq!(SiteKind::for_url("https://tw.hjwzw.com/Book/Chapter/48386"), Some(SiteKind::Hjwzw));
    assert_eq!(SiteKind::for_url("https://www.piaotia.com/html/14/14881/"), Some(SiteKind::Piaotia));
    assert_eq!(SiteKind::for_url("https://uukanshu.cc/book/1/"), Some(SiteKind::UUkanshu));
    assert_eq!(SiteKind::for_url("https://czbooks.net/n/uilla7"), Some(SiteKind::Czbooks));
    assert_eq!(
        SiteKind::for_url("https://www.novel543.com/0413188175/dir"),
        Some(SiteKind::Novel543)
    );
    assert_eq!(SiteKind::for_url("https://www.qbtr.cc/tongren/3655.html"), Some(SiteKind::Qbtr));
    assert_eq!(SiteKind::for_url("https://tw.uukanshu.com/b/239329/"), None);
    assert_eq!(SiteKind::for_url("http://czbooks.net/n/uilla7"), None);
    assert_eq!(SiteKind::for_url("https://czbooks.net"), None);
    assert_eq!(SiteKind::for_url(""), None);
}

#[test]
fn each_site_has_its_limit_and_delay() {
    assert_eq!(SiteKind::Hjwzw.concurrency_limit(), 10);
    assert_eq!(SiteKind::Piaotia.concurrency_limit(), 10);
    assert_eq!(SiteKind::UUkanshu.concurrency_limit(), 10);
    assert_eq!(SiteKind::Qbtr.concurrency_limit(), 10);
    assert_eq!(SiteKind::Czbooks.concurrency_limit(), 1);
    assert_eq!(SiteKind::Novel543.concurrency_limit(), 1);
    assert_eq!(SiteKind::Hjwzw.delay_millis(), 0);
    assert_eq!(SiteKind::Czbooks.delay_millis(), 1000);
    assert_eq!(SiteKind::Novel543.delay_millis(), 1000);
}

#[test]
fn site_names() {
    assert_eq!(Czbooks::new().unwrap().to_string(), "小說狂人");
    assert_eq!(Hjwzw::new("https://tw.hjwzw.com/Book/Chapter/1").unwrap().to_string(), "黃金屋");
    assert_eq!(Novel543::new("https://www.novel543.com/1/dir").unwrap().to_string(), "稷下書院");
    assert_eq!(Piaotia::new("https://www.piaotia.com/html/1/").unwrap().to_string(), "飄天");
    assert_eq!(Qbtr::new("https://www.qbtr.cc/t/1.html").unwrap().to_string(), "全本同人");
    assert_eq!(UUkanshu::new("https://uukanshu.cc/book/1/").unwrap().to_string(), "UU看書");
}

#[test]
fn a_site_base_has_neither_path_nor_query() {
    assert_eq!(
        site_base("https://tw.hjwzw.com/Book/Chapter/35728?x=1").unwrap(),
        "https://tw.hjwzw.com/"
    );
    assert_eq!(site_base("https://h.example:8080/a/b").unwrap(), "https://h.example:8080/");
    assert_eq!(page_url("HTTPS://Example.com/a/../b").unwrap(), "https://example.com/b");
}

#[test]
fn a_text_that_is_no_url_is_a_parse_error() {
    assert_eq!(
        site_base("not a url"),
        Err(NovelError::ParseError("relative URL without a base".to_string()))
    );
    assert_eq!(
        page_url("not a url"),
        Err(NovelError::ParseError("relative URL without a base".to_string()))
    );
    assert!(matches!(Hjwzw::new("/Book/1"), Err(NovelError::ParseError(_))));
    assert!(matches!(Piaotia::new(""), Err(NovelError::ParseError(_))));
}

#[test]
fn a_url_without_a_hierarchy_cannot_be_a_base() {
    assert_eq!(
        site_base("mailto:someone@example.com"),
        Err(NovelError::CannotBeABase("mailto:someone@example.com".to_string()))
    );
    assert!(matches!(Qbtr::new("data:text/plain,x"), Err(NovelError::CannotBeABase(_))));
    assert!(matches!(UUkanshu::new("mailto:a@b.c"), Err(NovelError::CannotBeABase(_))));
    assert!(matches!(Novel543::new("mailto:a@b.c"), Err(NovelError::CannotBeABase(_))));
}

const CONTENTS: &str = r#"<html><head><title>t</title><meta name="author" content="某作者"></head>
<body><div class="title"><h1>某書最新章节</h1></div>
<div class="centent"><ul><li><a href="/b/1.html">one</a></li><li><a href="2.html">two</a></li></ul></div>
<div class="read_chapterDetail"><p> first </p><p>second</p></div>
<div id="contentbox" class="uu_cont">keep<div id="Pan_Ad1">AD</div>this</div>
</body></html>"#;

const BROKEN_LINKS: &str = r#"<html><body><div class="centent"><ul><li><a href="1.html">one</a></li><li><a>none</a></li></ul></div></body></html>"#;

#[test]
fn texts_of_all_found_elements_are_joined() {
    assert_eq!(select_text(CONTENTS, Selector::QbtrParagraphs).unwrap(), " first second");
    assert_eq!(select_text(CONTENTS, Selector::PiaotiaTitle).unwrap(), "某書最新章节");
    assert_eq!(select_text(CONTENTS, Selector::CzbooksTitle).unwrap(), "");
    assert_eq!(
        select_each_text(CONTENTS, Selector::QbtrParagraphs).unwrap(),
        vec![" first ".to_string(), "second".to_string()]
    );
}

#[test]
fn the_attribute_is_that_of_the_first_found_element() {
    assert_eq!(
        select_attr(CONTENTS, Selector::PiaotiaChapterLinks, "href").unwrap(),
        Some("/b/1.html".to_string())
    );
    assert_eq!(
        select_attr(CONTENTS, Selector::PiaotiaAuthor, "content").unwrap(),
        Some("某作者".to_string())
    );
    assert_eq!(select_attr(CONTENTS, Selector::QbtrParagraphs, "href").unwrap(), None);
    assert_eq!(select_attr(CONTENTS, Selector::CzbooksTitle, "href").unwrap(), None);
    assert_eq!(
        select_targets(BROKEN_LINKS, Selector::PiaotiaChapterLinks).unwrap(),
        vec![Some("1.html".to_string()), None]
    );
}

#[test]
fn removed_elements_do_not_count_for_the_text() {
    assert_eq!(select_text(CONTENTS, Selector::UUkanshuText).unwrap(), "keepADthis");
    assert_eq!(
        select_text_without(CONTENTS, Selector::HjwzwAdvertisement, Selector::UUkanshuText)
            .unwrap(),
        "keepthis"
    );
}

#[test]
fn links_are_resolved_against_the_base() {
    assert_eq!(
        select_links(CONTENTS, Selector::PiaotiaChapterLinks, "https://h.example/a/b/").unwrap(),
        vec!["https://h.example/b/1.html".to_string(), "https://h.example/a/b/2.html".to_string()]
    );
}

#[test]
fn a_link_without_a_target_is_not_found() {
    assert_eq!(
        select_links(BROKEN_LINKS, Selector::PiaotiaChapterLinks, "https://h.example/"),
        Err(NovelError::NotFound("href".to_string()))
    );
}

#[test]
fn a_base_that_is_no_url_is_a_parse_error() {
    assert!(matches!(
        select_links(CONTENTS, Selector::PiaotiaChapterLinks, "nonsense"),
        Err(NovelError::ParseError(_))
    ));
}

#[test]
fn every_selector_has_its_text() {
    assert_eq!(Selector::CzbooksTitle.text(), "span.title");
    assert_eq!(
        Selector::HjwzwAuthor.text(),
        "body > div:first-child > table:nth-of-type(7) tr:nth-child(2) a:first-child"
    );
    assert_eq!(Selector::Novel543CurrentPage.text(), "head > link:nth-last-of-type(1)");
    assert_eq!(Selector::PiaotiaHeading.text(), "H1");
    assert_eq!(Selector::QbtrParagraphs.text(), "div.read_chapterDetail > p");
    assert_eq!(Selector::UUkanshuChapterLinks.text(), "ul#chapterList a");
}

#[test]
fn gbk_bytes_are_decoded() {
    let bytes: Vec<u8> = vec![0xd6, 0xd0, 0xce, 0xc4, 0x41];
    assert_eq!(decode_body(&bytes, Encoding::Gbk), "中文A");
    assert_eq!(decode_body(&Vec::new(), Encoding::Gbk), "");
}

#[test]
fn only_two_sites_need_an_encoding() {
    assert_eq!(
        Piaotia::new("https://www.piaotia.com/html/1/").unwrap().need_encoding(),
        Some(Encoding::Gbk)
    );
    assert_eq!(Qbtr::new("https://www.qbtr.cc/t/1.html").unwrap().need_encoding(), Some(Encoding::Gbk));
    let site = Site::open(SiteKind::Czbooks, "https://czbooks.net/n/x").unwrap();
    assert_eq!(site.need_encoding(), None);
    let site = Site::open(SiteKind::Qbtr, "https://www.qbtr.cc/t/1.html").unwrap();
    assert_eq!(site.need_encoding(), Some(Encoding::Gbk));
}

const CZBOOKS: &str = r#"<html><head></head><body>
<span class="title">《射手凶猛》</span><span class="author"><a>初四兮</a></span>
<ul class="nav chapter-list"><li><a href="//czbooks.net/n/uilla7/und20">1</a></li><li><a href="//czbooks.net/n/uilla7/ui5kpm">2</a></li></ul>
<div class="name"> 《射手凶猛》第1章 老地方 </div><div class="content">a　b

c</div>
</body></html>"#;

#[test]
fn czbooks_reads_a_book_and_a_chapter() {
    let novel = Czbooks::new().unwrap();
    assert_eq!(
        novel.get_book_info(CZBOOKS).unwrap(),
        Book { name: "射手凶猛".to_string(), author: "初四兮".to_string() }
    );
    let urls = novel.get_chapter_urls_sorted(CZBOOKS).unwrap();
    assert_eq!(urls.first().unwrap(), "https://czbooks.net/n/uilla7/und20");
    assert_eq!(urls.last().unwrap(), "https://czbooks.net/n/uilla7/ui5kpm");
    let read = novel.get_chapter(CZBOOKS, "00001").unwrap();
    assert_eq!(read.order, "00001");
    assert_eq!(read.title, "《射手凶猛》第1章 老地方");
    assert_eq!(read.text, "a\u{3000}b\n\nc");
    assert_eq!(novel.process_chapter(read).text, "ab\nc");
    assert_eq!(novel.get_next_page(CZBOOKS).unwrap(), None);
}

#[test]
fn czbooks_fails_on_a_link_without_a_target() {
    let novel = Czbooks::new().unwrap();
    let html = r#"<ul class="nav chapter-list"><li><a href="//h/1">1</a></li><li><a>2</a></li></ul>"#;
    assert_eq!(novel.get_chapter_urls_sorted(html), Err(NovelError::NotFound("href".to_string())));
    let html = r#"<ul class="nav chapter-list"><li><a href="//[/1">1</a></li></ul>"#;
    assert!(matches!(novel.get_chapter_urls_sorted(html), Err(NovelError::ParseError(_))));
}

const HJWZW: &str = r#"<html><body><div><table></table><table></table><table></table><table></table><table></table><table></table><table><tr><td><h1> 第一章 黃山真君 </h1></td></tr><tr><td><a href="/a">作者 / 圣騎士的傳說</a><a href="/b">x</a><div>1</div><div>2</div><div>3</div><div>line one
line two
 正文一 <div id="Pan_Ad1">AD</div>
正文二

</div></td></tr></table></div><div id="tbchapterlist"><a href="/Book/Read/35728,20025406">1</a><a href="/Book/Read/35728,18955259">2</a></div></body></html>"#;

#[test]
fn hjwzw_reads_a_book_and_a_chapter() {
    let novel = Hjwzw::new("https://tw.hjwzw.com/Book/Chapter/35728").unwrap();
    let book = novel.get_book_info(HJWZW).unwrap();
    assert_eq!(book.name, " 第一章 黃山真君 ");
    assert_eq!(book.author, "圣騎士的傳說");
    let urls = novel.get_chapter_urls_sorted(HJWZW).unwrap();
    assert_eq!(urls.first().unwrap(), "https://tw.hjwzw.com/Book/Read/35728,20025406");
    assert_eq!(urls.last().unwrap(), "https://tw.hjwzw.com/Book/Read/35728,18955259");
    let read = novel.get_chapter(HJWZW, "00001").unwrap();
    assert_eq!(read.title, "第一章 黃山真君");
    assert_eq!(read.text, "line one\nline two\n 正文一 \n正文二\n\n");
    assert_eq!(novel.process_chapter(read).text, "正文一\n正文二");
    assert_eq!(novel.get_next_page(HJWZW).unwrap(), None);
}

const NOVEL543: &str = r#"<html><head><link rel="a" href="https://x/y"><link rel="canonical" href="https://www.novel543.com/0413188175/8001_316.html"></head><body>
<h1 class="title is-2">我的大寶劍 章節列表</h1><h2 class="title is-4">作者 / 學霸殿下</h2>
<ul class="flex one two-700 three-900 all"><li><a href="/0413188175/8001_1.html">1</a></li><li><a href="/0413188175/8001_1250.html">2</a></li></ul>
<div id="chapterWarp"><div class="chapter-content px-3"><h1> 第一章 (1/2) </h1><div> 一句。 二㱕句。㱕。尾 </div></div></div>
<div id="read"><div><div class="warp my-5 foot-nav"><a href="/1">a</a><a href="/2">b</a><a href="/3">c</a><a href="/4">d</a><a href="/0413188175/8001_316_2.html">next</a></div></div></div>
</body></html>"#;

#[test]
fn novel543_reads_a_book_a_chapter_and_its_next_page() {
    let novel = Novel543::new("https://www.novel543.com/0413188175/dir").unwrap();
    assert_eq!(
        novel.get_book_info(NOVEL543).unwrap(),
        Book { name: "我的大寶劍".to_string(), author: "學霸殿下".to_string() }
    );
    let urls = novel.get_chapter_urls_sorted(NOVEL543).unwrap();
    assert_eq!(urls.first().unwrap(), "https://www.novel543.com/0413188175/8001_1.html");
    assert_eq!(urls.last().unwrap(), "https://www.novel543.com/0413188175/8001_1250.html");
    let read = novel.get_chapter(NOVEL543, "00001").unwrap();
    assert_eq!(read.title, "第一章 (1/2)");
    assert_eq!(novel.process_chapter(read).text, "一句。\n二句。\n。\n尾");
    assert_eq!(
        novel.get_next_page(NOVEL543).unwrap(),
        Some("https://www.novel543.com/0413188175/8001_316_2.html".to_string())
    );
}

#[test]
fn novel543_has_no_next_page_where_the_next_link_leads_elsewhere() {
    let novel = Novel543::new("https://www.novel543.com/0413188175/dir").unwrap();
    let html = NOVEL543.replace("/0413188175/8001_316_2.html", "/0413188175/8001_317.html");
    assert_eq!(novel.get_next_page(&html).unwrap(), None);
}

#[test]
fn novel543_names_what_it_does_not_find() {
    let novel = Novel543::new("https://www.novel543.com/0413188175/dir").unwrap();
    assert_eq!(
        novel.get_next_page("<html><head></head><body></body></html>"),
        Err(NovelError::NotFound("curr_page href".to_string()))
    );
    let html = r#"<html><head><link href="https://www.novel543.com/1/2.html"></head><body></body></html>"#;
    assert_eq!(novel.get_next_page(html), Err(NovelError::NotFound("next_page href".to_string())));
    let html = NOVEL543.replace("https://www.novel543.com/0413188175/8001_316.html", "https://other.example/1/2.html");
    assert_eq!(
        novel.get_next_page(&html),
        Err(NovelError::NotFound("curr_page relative".to_string()))
    );
    let html = NOVEL543.replace("https://www.novel543.com/0413188175/8001_316.html", "8001_316.html");
    assert!(matches!(novel.get_next_page(&html), Err(NovelError::ParseError(_))));
}

const PIAOTIA: &str = r#"<html><head><meta name="author" content="某作者"></head><body><div class="title"><h1>某書最新章节</h1></div><div class="centent"><ul><li><a href="1.html">1</a></li><li><a href="2.html">2</a></li></ul></div></body></html>"#;

const PIAOTIA_CHAPTER: &str =
    r#"<html><head></head><body><H1> 射手凶猛 第一章 </H1><br>正文</body></html>"#;

#[test]
fn piaotia_reads_a_book_and_a_chapter() {
    let novel = Piaotia::new("https://www.piaotia.com/html/14/14881/").unwrap();
    assert_eq!(
        novel.get_book_info(PIAOTIA).unwrap(),
        Book { name: "某書".to_string(), author: "某作者".to_string() }
    );
    let urls = novel.get_chapter_urls_sorted(PIAOTIA).unwrap();
    assert_eq!(
        urls,
        vec![
            "https://www.piaotia.com/html/14/14881/1.html".to_string(),
            "https://www.piaotia.com/html/14/14881/2.html".to_string()
        ]
    );
    let read = novel.get_chapter(PIAOTIA_CHAPTER, "00001").unwrap();
    assert_eq!(read.title, "第一章");
    assert_eq!(read.text, " 射手凶猛 第一章 正文");
    let text = "頭 返回书页\n 正文一 \u{a0}\u{a0}正文二\n（快捷键 ←）尾";
    assert_eq!(novel.process_chapter(chapter(text)).text, "正文一\n正文二");
    assert_eq!(novel.get_next_page(PIAOTIA).unwrap(), None);
}

#[test]
fn piaotia_needs_the_author() {
    let novel = Piaotia::new("https://www.piaotia.com/html/14/14881/").unwrap();
    let html = r#"<html><head></head><body><div class="title"><h1>x</h1></div></body></html>"#;
    assert_eq!(
        novel.get_book_info(html),
        Err(NovelError::NotFound("author content".to_string()))
    );
}

const QBTR: &str = r#"<html><body><div class="infos"><h1>某書</h1></div><div class="date"><span>作者：某人</span></div><div class="book_list clearfix"><ul><li><a href="/tongren/1/1.html">1</a></li><li><a href="/tongren/1/2.html">2</a></li></ul></div><div class="read_chapterName tc"><h1> 第一章 </h1></div><div class="read_chapterDetail"><p> 一 </p><p>二</p><p> 三</p><p>四 </p></div></body></html>"#;

#[test]
fn qbtr_reads_a_book_and_a_chapter() {
    let novel = Qbtr::new("https://www.qbtr.cc/tongren/3655.html").unwrap();
    assert_eq!(
        novel.get_book_info(QBTR).unwrap(),
        Book { name: "某書".to_string(), author: "某人".to_string() }
    );
    let urls = novel.get_chapter_urls_sorted(QBTR).unwrap();
    assert_eq!(urls.first().unwrap(), "https://www.qbtr.cc/tongren/1/1.html");
    assert_eq!(urls.last().unwrap(), "https://www.qbtr.cc/tongren/1/2.html");
    let read = novel.get_chapter(QBTR, "00007").unwrap();
    assert_eq!(read.order, "00007");
    assert_eq!(read.title, "第一章");
    assert_eq!(read.text, "一\n二\n三\n四");
    assert_eq!(novel.process_chapter(read).text, "三\n四");
    assert_eq!(novel.get_next_page(QBTR).unwrap(), None);
}

const UUKANSHU: &str = r#"<html><body><dl><dd class="jieshao_content"><h1><a>某書最新章節</a></h1><h2><a>某人</a></h2></dd></dl><ul id="chapterList"><li><a href="/b/1/3.html">3</a></li><li><a href="/b/1/2.html">2</a></li><li><a href="/b/1/1.html">1</a></li></ul><h1 id="timu"> 第一章 </h1><div id="contentbox" class="uu_cont">x</div></body></html>"#;

#[test]
fn uukanshu_reads_a_book_and_lists_its_chapters_first_to_last() {
    let novel = UUkanshu::new("https://uukanshu.cc/book/1/").unwrap();
    assert_eq!(
        novel.get_book_info(UUKANSHU).unwrap(),
        Book { name: "某書".to_string(), author: "某人".to_string() }
    );
    assert_eq!(
        novel.get_chapter_urls_sorted(UUKANSHU).unwrap(),
        vec![
            "https://uukanshu.cc/b/1/1.html".to_string(),
            "https://uukanshu.cc/b/1/2.html".to_string(),
            "https://uukanshu.cc/b/1/3.html".to_string()
        ]
    );
    let read = novel.get_chapter(UUKANSHU, "00001").unwrap();
    assert_eq!(read.title, "第一章");
    assert_eq!(read.text, "x");
    assert_eq!(novel.get_next_page(UUKANSHU).unwrap(), None);
}

#[test]
fn uukanshu_takes_out_its_advertisements() {
    let novel = UUkanshu::new("https://uukanshu.cc/book/1/").unwrap();
    let text = "一　UU看書  www.uukanshu.com 二\r\n請記住本書首發域名：。：三  四\n如果喜歡本書，請把網址發給您的朋友。尾";
    assert_eq!(novel.process_chapter(chapter(text)).text, "一\n二\n三\n四");
}

#[test]
fn a_site_reads_a_page_as_its_reader_does() {
    let site = Site::open(SiteKind::Novel543, "https://www.novel543.com/0413188175/dir").unwrap();
    assert_eq!(site.to_string(), "稷下書院");
    let (read, next) = site.process_url(NOVEL543, "00003").unwrap();
    assert_eq!(read.order, "00003");
    assert_eq!(read.title, "第一章 (1/2)");
    assert_eq!(read.text, "一句。\n二句。\n。\n尾");
    assert_eq!(next, Some("https://www.novel543.com/0413188175/8001_316_2.html".to_string()));
    let site = Site::open(SiteKind::Qbtr, "https://www.qbtr.cc/tongren/3655.html").unwrap();
    let (read, next) = site.process_url(QBTR, "00001").unwrap();
    assert_eq!(read.text, "三\n四");
    assert_eq!(next, None);
    assert_eq!(site.get_book_info(QBTR).unwrap().author, "某人");
    assert_eq!(site.get_chapter_urls_sorted(QBTR).unwrap().len(), 2);
}

#[test]
fn a_site_that_cannot_be_opened_gives_its_error() {
    assert!(matches!(Site::open(SiteKind::Hjwzw, "nonsense"), Err(NovelError::ParseError(_))));
    assert!(Site::open(SiteKind::Czbooks, "nonsense").is_ok());
}

#[test]
fn a_book_is_saved_under_the_site_and_its_own_name() {
    let site = Site::open(SiteKind::Czbooks, "https://czbooks.net/n/x").unwrap();
    let book = Book { name: "name".to_string(), author: "author".to_string() };
    assert_eq!(book_dir(&site, &book), vec!["temp", "小說狂人", "author_name"]);
}

#[test]
fn a_document_that_does_not_load_is_a_visdom_error() {
    let broken = "<html><body><p>x</p><!-- x";
    let error =
        NovelError::VisdomError("[line:1,col:21,index:20]the tag 'Comment' is not closed".to_string());
    assert_eq!(select_text(broken, Selector::QbtrParagraphs), Err(error.clone()));
    assert_eq!(select_each_text(broken, Selector::QbtrParagraphs), Err(error.clone()));
    assert_eq!(select_attr(broken, Selector::PiaotiaAuthor, "href"), Err(error.clone()));
    assert_eq!(select_targets(broken, Selector::PiaotiaChapterLinks), Err(error.clone()));
    assert_eq!(
        select_links(broken, Selector::PiaotiaChapterLinks, "https://h.example/"),
        Err(error.clone())
    );
    assert_eq!(
        select_text_without(broken, Selector::HjwzwAdvertisement, Selector::HjwzwText),
        Err(error.clone())
    );
    let novel = Czbooks::new().unwrap();
    assert_eq!(novel.get_book_info(broken), Err(error.clone()));
    assert_eq!(novel.get_chapter_urls_sorted(broken), Err(error.clone()));
    assert_eq!(novel.get_chapter(broken, "00001"), Err(error.clone()));
    let site = Site::open(SiteKind::Novel543, "https://www.novel543.com/1/dir").unwrap();
    assert_eq!(site.process_url(broken, "00001"), Err(error));
}

#[test]
fn a_pattern_that_does_not_compile_is_a_regex_error() {
    let good = Replacement { pattern: "a+".to_string(), replacement: "b".to_string() };
    let bad = Replacement { pattern: "(".to_string(), replacement: "".to_string() };
    assert_eq!(check_patterns(&vec![good.clone()]), Ok(()));
    assert_eq!(check_patterns(&Vec::new()), Ok(()));
    assert!(matches!(
        check_patterns(&vec![good.clone(), bad.clone()]),
        Err(NovelError::RegexError(_))
    ));
    assert_eq!(apply_patterns("caat".to_string(), &vec![bad, good]), "cbt");
}

#[test]
fn patterns_are_applied_one_after_another() {
    let first = Replacement { pattern: "a".to_string(), replacement: "b".to_string() };
    let second = Replacement { pattern: "b+".to_string(), replacement: "<$0>".to_string() };
    assert_eq!(apply_patterns("aab".to_string(), &vec![first.clone(), second.clone()]), "<bbb>");
    assert_eq!(apply_patterns("aab".to_string(), &vec![second, first]), "bb<b>");
    assert_eq!(apply_patterns("aab".to_string(), &Vec::new()), "aab");
}
