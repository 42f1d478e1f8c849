use typstfmt::Config;
use typstfmt::Kind;
use typstfmt::Node;
use typstfmt::Renderer;
use typstfmt::Writer;
use typstfmt::erroneous;

#[test]
fn error_nodes_found_at_any_depth() {
    let clean = Node::inner(
        Kind::Markup,
        vec![Node::leaf(Kind::Text, String::from("hi"))],
    );
    assert!(!erroneous(&clean));

    let buried = Node::inner(
        Kind::Markup,
        vec![
            Node::leaf(Kind::Text, String::from("a")),
            Node::inner(
                Kind::Strong,
                vec![Node::leaf(Kind::Error, String::from("!"))],
            ),
        ],
    );
    assert!(erroneous(&buried));
}

#[test]
fn renderer_emits_leaf_text() {
    let n = Node::leaf(Kind::Text, String::from("hi"));
    let mut renderer = Renderer { writer: Writer::new(Config::default()) };
    renderer.render(&n);
    assert_eq!(renderer.finish(), "hi\n");
}

#[test]
fn renderer_collapses_space_run() {
    let n = Node::inner(
        Kind::Markup,
        vec![
            Node::leaf(Kind::Text, String::from("a")),
            Node::leaf(Kind::Space, String::from("   ")),
            Node::leaf(Kind::Text, String::from("b")),
        ],
    );
    let mut renderer = Renderer { writer: Writer::new(Config::default()) };
    renderer.render(&n);
    assert_eq!(renderer.finish(), "a b\n");
}

#[test]
fn renderer_keeps_space_run_without_spacing() {
    let n = Node::inner(
        Kind::Markup,
        vec![
            Node::leaf(Kind::Text, String::from("a")),
            Node::leaf(Kind::Space, String::from("   ")),
            Node::leaf(Kind::Text, String::from("b")),
        ],
    );
    let mut renderer = Renderer { writer: Writer::new(Config::no_changes()) };
    renderer.render(&n);
    assert_eq!(renderer.finish(), "a   b\n");
}
