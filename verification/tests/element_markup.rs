use ryde::elements::body;
use ryde::elements::div;
use ryde::elements::doctype;
use ryde::elements::element;
use ryde::elements::head;
use ryde::elements::html;
use ryde::elements::input;
use ryde::elements::meta;
use ryde::elements::p;
use ryde::elements::render;
use ryde::elements::self_closing_element;
use ryde::elements::styles;
use ryde::elements::title;
use ryde::elements::Element;

#[test]
fn it_works() {
    let html = render(vec![doctype(), html(vec![head(()), body(())])]);
    assert_eq!(
        "<!DOCTYPE html><html><head></head><body></body></html>",
        html
    );
}

#[test]
fn it_escapes_correctly() {
    let html = render(vec![doctype(), html(vec![head(()), body("<div />")])]);
    assert_eq!(
        html,
        "<!DOCTYPE html><html><head></head><body>&lt;div /&gt;</body></html>",
    );
}

#[test]
fn it_escapes_more() {
    let html = render(vec![
        doctype(),
        html(vec![head(()), body("<script>alert('hello')</script>")]),
    ]);
    assert_eq!(
        html,
        "<!DOCTYPE html><html><head></head><body>&lt;script&gt;alert(&#39;hello&#39;)&lt;/script&gt;</body></html>",
    );
}

#[test]
fn it_renders_attributes() {
    let html = render(vec![
        doctype(),
        html(vec![head(()), body(div("hello").id("hello"))]),
    ]);
    assert_eq!(
        "<!DOCTYPE html><html><head></head><body><div id=\"hello\">hello</div></body></html>",
        html
    );
}

#[test]
fn it_renders_custom_self_closing_elements() {
    fn hx_close() -> Element {
        self_closing_element("hx-close")
    }
    let html = render(hx_close().id("id"));
    assert_eq!("<hx-close id=\"id\">", html);
}

fn readme_render_to_string(element: Element) -> String {
    render(vec![
        doctype(),
        html(vec![
            head(vec![title("title"), meta().charset("utf-8")]),
            body(element),
        ]),
    ])
}

#[test]
fn readme_works() {
    assert_eq!(
        readme_render_to_string(div("html")),
        "<!DOCTYPE html><html><head><title>title</title><meta charset=\"utf-8\"></head><body><div>html</div></body></html>"
    )
}

#[test]
fn bool_attr_works() {
    let html = render(input().type_("checkbox").checked());

    assert_eq!(html, r#"<input type="checkbox" checked>"#)
}

#[test]
fn multiple_attrs_spaced_correctly() {
    let html = render(input().type_("checkbox").checked().aria_label("label"));

    assert_eq!(
        html,
        r#"<input type="checkbox" checked aria-label="label">"#
    )
}

#[test]
fn readme1_works() {
    let element = input()
        .attr("hx-post", "/")
        .attr("hx-target", ".target")
        .attr("hx-swap", "outerHTML")
        .attr("hx-push-url", "false");
    let html = render(element);

    assert_eq!(
        html,
        r#"<input hx-post="/" hx-target=".target" hx-swap="outerHTML" hx-push-url="false">"#
    )
}

#[test]
fn readme2_works() {
    fn turbo_frame(children: Element) -> Element {
        element("turbo-frame", children)
    }
    let html = render(turbo_frame(div("inside turbo frame")).id("id"));

    assert_eq!(
        "<turbo-frame id=\"id\"><div>inside turbo frame</div></turbo-frame>",
        html
    );
}

#[test]
fn styles_dedup() {
    let p1 = p("").css((
        "color-red background-green",
        vec![
            ".color-red{color:red;}".into(),
            ".background-green{background:green;}".into(),
        ],
    ));
    let p2 = p("").css((
        "color-red background-blue",
        vec![
            ".color-red{color:red;}".into(),
            ".background-blue{background:blue;}".into(),
        ],
    ));
    let div1 = div(vec![p1, p2]).css(("color-red", vec![".color-red{color:red;}".into()]));
    let styles = styles(&div1);
    let mut styles = styles
        .split(".")
        .into_iter()
        .filter(|x| !x.is_empty())
        .map(|x| format!(".{}", x))
        .collect::<Vec<String>>();

    styles.sort();

    let mut expected: Vec<String> = vec![
        ".color-red{color:red;}".into(),
        ".background-blue{background:blue;}".into(),
        ".background-green{background:green;}".into(),
    ];

    expected.sort();

    assert_eq!(expected, styles);
}

#[test]
fn styles_keep_media_rules_last() {
    let inner = p("").css((
        "dark-color-red",
        vec!["@media(prefers-color-scheme:dark){.dark-color-red{color:red;}}".into()],
    ));
    let outer = div(inner).css(("color-red", vec![".color-red{color:red;}".into()]));
    let sheet = styles(&outer);
    assert_eq!(
        sheet,
        ".color-red{color:red;}@media(prefers-color-scheme:dark){.dark-color-red{color:red;}}"
    );
}

#[test]
fn class_list_renders_after_attrs() {
    let html = render(div("x").id("a").class("flex").class("grow"));
    assert_eq!(html, r#"<div id="a" class="flex grow">x</div>"#);
}

#[test]
fn danger_skips_escaping() {
    let html = render(ryde::elements::danger("<b>bold</b>"));
    assert_eq!(html, "<b>bold</b>");
}

#[test]
fn attr_values_are_escaped() {
    let html = render(div("x").attr("title", "a\"b<c>"));
    assert_eq!(html, r#"<div title="a&quot;b&lt;c&gt;">x</div>"#);
}
