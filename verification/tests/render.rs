use hacker5news::render::{render_item, render_list, render_page, NO_LINK, PAGE_HEAD, PAGE_TAIL};
use hacker5news::story::StoryDetail;

fn story(title: &str, url: Option<&str>) -> StoryDetail {
    StoryDetail { title: title.to_string(), url: url.map(|u| u.to_string()) }
}

fn document_around(items: &str) -> String {
    format!(
        "<!DOCTYPE html>
<html>
<head>
    <title>Top 5 Hacker News</title>
    <style>
        body {{ 
            font-family: Arial, sans-serif; 
            max-width: 800px; 
            margin: 0 auto; 
            padding: 20px; 
        }}
        .header {{ 
            display: flex; 
            align-items: center; 
            margin-bottom: 30px; 
        }}
        .logo {{ 
            width: 40px; 
            height: 40px; 
            margin-right: 15px; 
        }}
        h1 {{ 
            margin: 0; 
            color: #ff6600; 
        }}
        ul {{ 
            list-style-type: none; 
            padding: 0; 
        }}
        li {{ 
            margin: 15px 0; 
            padding: 10px; 
            border-left: 3px solid #ff6600; 
            background-color: #f6f6ef; 
        }}
        a {{ 
            text-decoration: none; 
            color: #000; 
            font-weight: bold; 
        }}
        a:visited {{ 
            color: #828282; 
        }}
        a:hover {{ 
            color: #ff6600; 
        }}
        footer {{
            margin-top: 40px;
            text-align: center;
            color: #888;
            font-size: 0.95em;
        }}
        .github-link {{
            color: #24292f;
            text-decoration: none;
            display: inline-flex;
            align-items: center;
            gap: 6px;
        }}
        .github-link:hover {{
            color: #ff6600;
        }}
        .github-icon {{
            width: 18px;
            height: 18px;
            vertical-align: middle;
        }}
    </style>
    <link rel=\"icon\" href=\"https://news.ycombinator.com/y18.svg\">
</head>
<body>
    <div class=\"header\">
        <img src=\"https://news.ycombinator.com/y18.svg\" alt=\"Y Combinator\" class=\"logo\">
        <h1>Top 5 Hacker News Articles</h1>
    </div>
    <ul>
        {}
    </ul>
    <footer>
        <a class=\"github-link\" href=\"https://github.com/mateolafalce/hacker5news\" target=\"_blank\" rel=\"noopener\">
            <svg class=\"github-icon\" viewBox=\"0 0 16 16\" fill=\"currentColor\" aria-hidden=\"true\">
                <path d=\"M8 0C3.58 0 0 3.58 0 8c0 3.54 2.29 6.53 5.47 7.59.4.07.55-.17.55-.38
                0-.19-.01-.82-.01-1.49-2.01.37-2.53-.49-2.69-.94-.09-.23-.48-.94-.82-1.13-.28-.15-.68-.52
                -.01-.53.63-.01 1.08.58 1.23.82.72 1.21 1.87.87 2.33.66.07-.52.28-.87.51-1.07-1.78-.2
                -3.64-.89-3.64-3.95 0-.87.31-1.59.82-2.15-.08-.2-.36-1.02.08-2.12 0 0 .67-.21 2.2.82a7.65
                7.65 0 0 1 2-.27c.68 0 1.36.09 2 .27 1.53-1.04 2.2-.82 2.2-.82.44 1.1.16 1.92.08
                2.12.51.56.82 1.27.82 2.15 0 3.07-1.87 3.75-3.65 3.95.29.25.54.73.54 1.48 0 1.07-.01
                1.93-.01 2.2 0 .21.15.46.55.38A8.013 8.013 0 0 0 16 8c0-4.42-3.58-8-8-8z\"/>
            </svg>
            GitHub
        </a>
    </footer>
</body>
</html>",
        items
    )
}

#[test]
fn item_without_url_links_to_placeholder() {
    let markup = render_item(&story("Foo", None));
    assert_eq!(markup, "<li><a href=\"#\">Foo</a></li>");
}

#[test]
fn item_with_url_links_there() {
    let markup = render_item(&story("Rust 2.0", Some("https://example.com/rust")));
    assert_eq!(markup, "<li><a href=\"https://example.com/rust\">Rust 2.0</a></li>");
}

#[test]
fn item_title_is_taken_as_it_is() {
    let markup = render_item(&story("a < b & \"c\"", Some("https://example.com/?a=1&b=2")));
    assert_eq!(
        markup,
        "<li><a href=\"https://example.com/?a=1&b=2\">a < b & \"c\"</a></li>"
    );
}

#[test]
fn item_with_empty_title_and_empty_url() {
    let markup = render_item(&story("", Some("")));
    assert_eq!(markup, "<li><a href=\"\"></a></li>");
}

#[test]
fn item_keeps_non_ascii_text() {
    let markup = render_item(&story("Caf\u{e9} \u{2014} \u{65e5}\u{672c}", None));
    assert_eq!(markup, "<li><a href=\"#\">Caf\u{e9} \u{2014} \u{65e5}\u{672c}</a></li>");
}

#[test]
fn placeholder_target_is_a_hash() {
    assert_eq!(NO_LINK, "#");
}

#[test]
fn list_of_no_stories_is_empty() {
    assert_eq!(render_list(&Vec::new()), "");
}

#[test]
fn list_items_follow_the_stories_in_order() {
    let stories = vec![
        story("first", Some("https://a.example/")),
        story("second", None),
        story("third", Some("https://c.example/")),
    ];
    assert_eq!(
        render_list(&stories),
        "<li><a href=\"https://a.example/\">first</a></li>\
         <li><a href=\"#\">second</a></li>\
         <li><a href=\"https://c.example/\">third</a></li>"
    );
}

#[test]
fn list_is_the_items_joined_with_nothing_between() {
    let stories = vec![story("a", None), story("b", Some("u")), story("a", None)];
    let mut joined = String::new();
    for s in &stories {
        joined.push_str(&render_item(s));
    }
    assert_eq!(render_list(&stories), joined);
}

#[test]
fn page_without_stories_is_head_then_tail() {
    let page = render_page(&Vec::new());
    assert_eq!(page, format!("{}{}", PAGE_HEAD, PAGE_TAIL));
    assert_eq!(page, document_around(""));
    assert_eq!(page.matches("<li>").count(), 0);
    assert!(page.contains("<ul>\n        \n    </ul>"));
}

#[test]
fn page_is_the_document_around_the_items() {
    let stories = vec![story("Foo", None), story("Bar", Some("https://bar.example/"))];
    let page = render_page(&stories);
    assert_eq!(
        page,
        document_around(
            "<li><a href=\"#\">Foo</a></li><li><a href=\"https://bar.example/\">Bar</a></li>"
        )
    );
    assert_eq!(page, format!("{}{}{}", PAGE_HEAD, render_list(&stories), PAGE_TAIL));
}

#[test]
fn page_starts_with_doctype_and_ends_with_html() {
    let page = render_page(&vec![story("Foo", None)]);
    assert!(page.starts_with("<!DOCTYPE html>\n<html>\n<head>\n    <title>Top 5 Hacker News</title>"));
    assert!(page.ends_with("</body>\n</html>"));
    assert!(page.contains("<h1>Top 5 Hacker News Articles</h1>"));
}

#[test]
fn page_of_five_stories_has_five_items() {
    let mut stories = Vec::new();
    for i in 0u32..5u32 {
        stories.push(story(&format!("story {}", i), None));
    }
    let page = render_page(&stories);
    assert_eq!(page.matches("<li><a href=").count(), 5);
    let mut last: usize = 0;
    for i in 0u32..5u32 {
        let at = page.find(&format!(">story {}</a>", i)).unwrap();
        assert!(at > last);
        last = at;
    }
}

#[test]
fn rendering_twice_gives_the_same_bytes() {
    let stories = vec![story("Foo", None), story("Bar", Some("https://bar.example/"))];
    let first = render_page(&stories);
    let second = render_page(&stories);
    assert_eq!(first.as_bytes(), second.as_bytes());
    assert_eq!(render_page(&Vec::new()).as_bytes(), render_page(&Vec::new()).as_bytes());
}
