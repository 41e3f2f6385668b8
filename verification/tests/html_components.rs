#![allow(non_snake_case)]

use ryde::html::Component;
use ryde::html::Elements;
use ryde::html::Render;

#[test]
fn html_it_works() {
    let mut buf = String::new();
    buf.push_str("<!DOCTYPE html><html lang=\"en\"><head></head><body>shtml</body></html>");
    let result = Component { html: buf };

    assert_eq!(
        result.html,
        r#"<!DOCTYPE html><html lang="en"><head></head><body>shtml</body></html>"#
    );
}

#[test]
fn it_works_with_blocks() {
    let x = 1;
    let result = {
        let mut buf = String::new();
        buf.push_str("<div>");
        x.render_to_string(&mut buf);
        buf.push_str("</div>");
        Component { html: buf }
    };

    assert_eq!(result.html, r#"<div>1</div>"#);
}

#[test]
fn it_works_with_attr_blocks() {
    let class = "flex items-center h-full";
    let result = {
        let mut buf = String::new();
        buf.push_str("<div class=\"");
        class.render_to_string(&mut buf);
        buf.push_str("\"></div>");
        Component { html: buf }
    };

    assert_eq!(result.html, r#"<div class="flex items-center h-full"></div>"#);
}

fn Hello(name: &str) -> Component {
    let mut buf = String::new();
    buf.push_str("<div>");
    name.render_to_string(&mut buf);
    buf.push_str("</div>");
    Component { html: buf }
}

#[test]
fn it_works_with_components() {
    let x = "<script>shtml</script>";
    let result = {
        let mut buf = String::new();
        Hello(x).render_to_string(&mut buf);
        Component { html: buf }
    };

    assert_eq!(result.html, r#"<div>&lt;script&gt;shtml&lt;/script&gt;</div>"#);
}

fn Hypermedia(target: &str) -> Component {
    let mut buf = String::new();
    buf.push_str("<div x-target=\"");
    target.render_to_string(&mut buf);
    buf.push_str("\"></div>");
    Component { html: buf }
}

#[test]
fn it_works_with_attrs() {
    let x = "body";
    let result = {
        let mut buf = String::new();
        Hypermedia(x).render_to_string(&mut buf);
        Component { html: buf }
    };

    assert_eq!(result.html, r#"<div x-target="body"></div>"#);
}

fn HelloElements(elements: Elements) -> Component {
    let mut buf = String::new();
    elements.render_to_string(&mut buf);
    Component { html: buf }
}

#[test]
fn it_works_with_escaped_components() {
    let x = "<script>alert(\"owned\")</script>";
    let result = {
        let mut buf = String::new();
        let children = {
            let mut inner = String::new();
            inner.push_str("<div>");
            x.render_to_string(&mut inner);
            inner.push_str("</div>");
            Component { html: inner }
        };
        HelloElements(children).render_to_string(&mut buf);
        Component { html: buf }
    };

    assert_eq!(
        result.html,
        r#"<div>&lt;script&gt;alert(&quot;owned&quot;)&lt;/script&gt;</div>"#
    );
}

fn Heading(class: &str, els: Elements) -> Component {
    let mut buf = String::new();
    buf.push_str("<h1 class=\"");
    class.render_to_string(&mut buf);
    buf.push_str("\">");
    els.render_to_string(&mut buf);
    buf.push_str("</h1>");
    Component { html: buf }
}

#[test]
fn it_works_with_components_with_attrs_and_children() {
    let result = {
        let mut buf = String::new();
        let children = {
            let mut inner = String::new();
            inner.push_str("<p>How now brown cow</p>");
            Component { html: inner }
        };
        Heading("text-7xl text-red-500", children).render_to_string(&mut buf);
        Component { html: buf }
    };

    assert_eq!(
        result.html,
        r#"<h1 class="text-7xl text-red-500"><p>How now brown cow</p></h1>"#
    );
}

fn HelloNamed(name: &str, elements: Elements) -> Component {
    let mut buf = String::new();
    elements.render_to_string(&mut buf);
    buf.push_str("<div>");
    name.render_to_string(&mut buf);
    buf.push_str("</div>");
    Component { html: buf }
}

#[test]
fn it_works_with_components_with_children() {
    let x = "shtml";
    let result = {
        let mut buf = String::new();
        let children = {
            let mut inner = String::new();
            inner.push_str("<span>mr.</span>");
            Component { html: inner }
        };
        HelloNamed(x, children).render_to_string(&mut buf);
        Component { html: buf }
    };

    assert_eq!(result.html, r#"<span>mr.</span><div>shtml</div>"#);
}

#[test]
fn it_works_for_tables() {
    let size: usize = 2;
    let mut rows = Vec::with_capacity(size);
    for _ in 0..size {
        let mut inner = Vec::with_capacity(size);
        for i in 0..size {
            inner.push(i);
        }
        rows.push(inner);
    }

    let component = {
        let mut buf = String::new();
        buf.push_str("<table>");
        rows.iter()
            .map(|cols| {
                let mut row_buf = String::new();
                row_buf.push_str("<tr>");
                cols.iter()
                    .map(|col| {
                        let mut cell_buf = String::new();
                        cell_buf.push_str("<td>");
                        col.render_to_string(&mut cell_buf);
                        cell_buf.push_str("</td>");
                        Component { html: cell_buf }
                    })
                    .collect::<Vec<_>>()
                    .render_to_string(&mut row_buf);
                row_buf.push_str("</tr>");
                Component { html: row_buf }
            })
            .collect::<Vec<_>>()
            .render_to_string(&mut buf);
        buf.push_str("</table>");
        Component { html: buf }
    };

    assert_eq!(
        component.html,
        "<table><tr><td>0</td><td>1</td></tr><tr><td>0</td><td>1</td></tr></table>"
    );
}

fn Table(rows: Elements) -> Component {
    let mut buf = String::new();
    buf.push_str("<table>");
    rows.render_to_string(&mut buf);
    buf.push_str("</table>");
    Component { html: buf }
}

fn Row(cols: Elements) -> Component {
    let mut buf = String::new();
    buf.push_str("<tr>");
    cols.render_to_string(&mut buf);
    buf.push_str("</tr>");
    Component { html: buf }
}

fn Col(i: Elements) -> Component {
    let mut buf = String::new();
    buf.push_str("<td>");
    i.render_to_string(&mut buf);
    buf.push_str("</td>");
    Component { html: buf }
}

#[test]
fn it_works_for_tables_with_components() {
    let size: usize = 2;
    let mut rows = Vec::with_capacity(size);
    for _ in 0..size {
        let mut inner = Vec::with_capacity(size);
        for i in 0..size {
            inner.push(i);
        }
        rows.push(inner);
    }

    let component = {
        let mut buf = String::new();
        let children = rows
            .iter()
            .map(|cols| {
                let mut row_buf = String::new();
                cols.iter()
                    .map(|i| {
                        let mut cell_buf = String::new();
                        let cell_children = {
                            let mut c = String::new();
                            i.render_to_string(&mut c);
                            Component { html: c }
                        };
                        Col(cell_children).render_to_string(&mut cell_buf);
                        Component { html: cell_buf }
                    })
                    .collect::<Vec<_>>()
                    .render_to_string(&mut row_buf);
                Row(Component { html: row_buf })
            })
            .collect::<Vec<_>>();
        let mut rows_buf = String::new();
        children.render_to_string(&mut rows_buf);
        Table(Component { html: rows_buf }).render_to_string(&mut buf);
        Component { html: buf }
    };

    assert_eq!(
        component.html,
        "<table><tr><td>0</td><td>1</td></tr><tr><td>0</td><td>1</td></tr></table>"
    );
}

fn Html(component: Elements) -> Component {
    let mut buf = String::new();
    buf.push_str("<!DOCTYPE html><html lang=\"en\">");
    component.render_to_string(&mut buf);
    buf.push_str("</html>");
    Component { html: buf }
}

fn Head(component: Elements) -> Component {
    let mut buf = String::new();
    buf.push_str("<head>");
    component.render_to_string(&mut buf);
    buf.push_str("</head>");
    Component { html: buf }
}

fn Body(component: Elements) -> Component {
    let mut buf = String::new();
    buf.push_str("<body>");
    component.render_to_string(&mut buf);
    buf.push_str("</body>");
    Component { html: buf }
}

#[test]
fn it_works_with_multiple_children_components() {
    let component = {
        let head_children = Component {
            html: String::from("<meta name=\"\" description=\"\"/><title>head</title>"),
        };
        let body_children = Component { html: String::from("<div>shtml</div>") };
        let mut inner = String::new();
        Head(head_children).render_to_string(&mut inner);
        Body(body_children).render_to_string(&mut inner);
        Html(Component { html: inner })
    };

    assert_eq!(
        component.html,
        "<!DOCTYPE html><html lang=\"en\"><head><meta name=\"\" description=\"\"/><title>head</title></head><body><div>shtml</div></body></html>"
    );
}

fn HStack(elements: Elements) -> Component {
    let mut buf = String::new();
    buf.push_str("<div class=\"flex gap-4\">");
    elements.render_to_string(&mut buf);
    buf.push_str("</div>");
    Component { html: buf }
}

#[test]
fn it_works_with_fragments() {
    let component = {
        let fragment = Component {
            html: String::from("<div>1</div><div>2</div><div>3</div>"),
        };
        HStack(fragment)
    };

    assert_eq!(
        component.html,
        r#"<div class="flex gap-4"><div>1</div><div>2</div><div>3</div></div>"#
    );
}

fn List(elements: Elements) -> Component {
    let mut buf = String::new();
    buf.push_str("<ul>");
    elements.render_to_string(&mut buf);
    buf.push_str("</ul>");
    Component { html: buf }
}

fn Item(elements: Elements) -> Component {
    let mut buf = String::new();
    buf.push_str("<li>");
    elements.render_to_string(&mut buf);
    buf.push_str("</li>");
    Component { html: buf }
}

#[test]
fn it_works_with_simple_loops() {
    let items = vec![1, 2, 3];

    let component = {
        let children = items
            .iter()
            .map(|i| {
                let mut c = String::new();
                i.render_to_string(&mut c);
                Item(Component { html: c })
            })
            .collect::<Vec<_>>();
        let mut buf = String::new();
        children.render_to_string(&mut buf);
        List(Component { html: buf })
    };

    assert_eq!(component.html, r#"<ul><li>1</li><li>2</li><li>3</li></ul>"#);
}

fn VStack(elements: Elements) -> Component {
    let mut buf = String::new();
    buf.push_str("<div class=\"flex flex-col gap-4\">");
    elements.render_to_string(&mut buf);
    buf.push_str("</div>");
    Component { html: buf }
}

#[test]
fn it_works_with_fragments_and_components() {
    let component = {
        let inner = Component { html: String::from("<div>1</div><div>2</div>") };
        let mut buf = String::new();
        VStack(inner).render_to_string(&mut buf);
        HStack(Component { html: buf })
    };

    assert_eq!(
        component.html,
        r#"<div class="flex gap-4"><div class="flex flex-col gap-4"><div>1</div><div>2</div></div></div>"#
    );
}

#[test]
fn escape_replaces_special_characters() {
    assert_eq!(
        ryde::html::escape("<a href=\"x\">'&'</a>"),
        "&lt;a href=&quot;x&quot;&gt;&#39;&amp;&#39;&lt;/a&gt;"
    );
    assert_eq!(ryde::html::escape(""), "");
    assert_eq!(ryde::html::escape("plain text"), "plain text");
}

#[test]
fn numbers_render_in_decimal() {
    let mut buf = String::new();
    (-42i64).render_to_string(&mut buf);
    buf.push_str(" ");
    (0u64).render_to_string(&mut buf);
    buf.push_str(" ");
    (9007usize).render_to_string(&mut buf);
    buf.push_str(" ");
    i64::MIN.render_to_string(&mut buf);
    assert_eq!(buf, "-42 0 9007 -9223372036854775808");
}
