use dot_graph::{new_edge, new_graph, new_node_string, new_subgraph, Statement, Stmt};

#[test]
fn dot_test_graph() {
    let node1 = new_node_string("node1");
    let node2 = new_node_string("node2");
    let edge = new_edge(&node1)
        .with_attribute("label", "edge1")
        .add_node(&node2);
    let graph = new_graph("test", true).add_stmt(Statement::Edge(&edge));
    assert_eq!(
        graph.string(),
        "digraph test \n { \n;\n;\n;\nnode1 -> node2[label = \"edge1\"];\n}"
    );
}

#[test]
fn lib_test_graph() {
    let node1 = new_node_string("node1");
    let node2 = new_node_string("node2").with_attribute("color", "blue");
    let edge = new_edge(&node1)
        .with_attribute("label", "edge1")
        .add_node(&node2)
        .with_attribute("color", "red")
        .with_attribute("label", "test");
    let graph = new_graph("test", true)
        .add_stmt(Statement::Edge(&edge))
        .add_stmt(Statement::Node(&node1))
        .add_stmt(Statement::Node(&node2));
    assert_eq!(
        graph.string(),
        "digraph test \n { \n;\n;\n;\n\
         node1 -> node2[color = \"blue\"][label = \"edge1\"color = \"red\"label = \"test\"];\n\
         node1;\n\
         node2[color = \"blue\"];\n}"
    );
}

#[test]
fn draw_scenario_document() {
    let node1 = new_node_string("node1");
    let node2 = new_node_string("node2");
    let edge = new_edge(&node1)
        .add_node(&node2)
        .with_attribute("label", "edge1");
    let graph = new_graph("test", true)
        .add_stmt(Statement::Node(&node1))
        .add_stmt(Statement::Edge(&edge));
    let text = graph.string();
    assert_eq!(
        text,
        "digraph test \n { \n;\n;\n;\nnode1;\nnode1 -> node2[label = \"edge1\"];\n}"
    );
    assert_eq!(text.as_bytes(), graph.string().as_bytes());
}

#[test]
fn new_graph_is_empty() {
    let graph = new_graph("g", false);
    assert_eq!(graph.name, "g");
    assert!(!graph.directed);
    assert!(graph.stmts.is_empty());
    assert!(graph.node_attributes.is_empty());
    assert!(graph.edge_attributes.is_empty());
    assert!(graph.graph_attributes.is_empty());
}

#[test]
fn empty_directed_graph() {
    let graph = new_graph("g", true);
    assert_eq!(graph.string(), "digraph g \n { \n;\n;\n;\n}");
}

#[test]
fn empty_undirected_graph() {
    let graph = new_graph("g", false);
    assert_eq!(graph.string(), "graph g \n { \n;\n;\n;\n}");
}

#[test]
fn empty_graph_name_is_accepted() {
    let graph = new_graph("", true);
    assert_eq!(graph.string(), "digraph  \n { \n;\n;\n;\n}");
}

#[test]
fn default_lines_stand_in_the_order_graph_edge_node() {
    let graph = new_graph("g", true)
        .with_node_attribute("shape", "box")
        .with_edge_attribute("color", "red")
        .with_graph_attribute("rankdir", "LR");
    assert_eq!(
        graph.string(),
        "digraph g \n { \n\
         graph [rankdir = \"LR\"];\n\
         edge [color = \"red\"];\n\
         node [shape = \"box\"];\n}"
    );
}

#[test]
fn an_empty_category_keeps_its_line() {
    let graph = new_graph("g", false).with_edge_attribute("color", "red");
    assert_eq!(
        graph.string(),
        "graph g \n { \n;\nedge [color = \"red\"];\n;\n}"
    );
}

#[test]
fn default_attributes_keep_their_order() {
    let graph = new_graph("g", true)
        .with_node_attribute("b", "1")
        .with_node_attribute("a", "2")
        .with_node_attribute("b", "3");
    assert_eq!(
        graph.string(),
        "digraph g \n { \n;\n;\nnode [b = \"1\"a = \"2\"b = \"3\"];\n}"
    );
}

#[test]
fn statements_keep_their_order() {
    let b = new_node_string("b");
    let a = new_node_string("a");
    let graph = new_graph("g", true)
        .add_stmt(Statement::Node(&b))
        .add_stmt(Statement::Node(&a))
        .add_stmt(Statement::Node(&b));
    assert_eq!(graph.stmts.len(), 3);
    assert_eq!(graph.string(), "digraph g \n { \n;\n;\n;\nb;\na;\nb;\n}");
}

#[test]
fn undirected_graph_uses_the_undirected_operator() {
    let a = new_node_string("a");
    let b = new_node_string("b");
    let edge = new_edge(&a).add_node(&b);
    let graph = new_graph("g", false).add_stmt(Statement::Edge(&edge));
    assert_eq!(graph.string(), "graph g \n { \n;\n;\n;\na -- b;\n}");
}

#[test]
fn rendering_twice_gives_the_same_bytes() {
    let a = new_node_string("a").with_attribute("k", "v");
    let b = new_node_string("b");
    let edge = new_edge(&a).add_node(&b).with_attribute("label", "x");
    let sub = new_subgraph("inner", false).add_stmt(Statement::Edge(&edge));
    let graph = new_graph("g", true)
        .with_graph_attribute("rankdir", "LR")
        .add_stmt(Statement::Node(&a))
        .add_stmt(Statement::SubGraph(&sub));
    let first = graph.string();
    let second = graph.string();
    assert_eq!(first.as_bytes(), second.as_bytes());
}

#[test]
fn new_subgraph_is_empty() {
    let sub = new_subgraph("s", true);
    assert_eq!(sub.name, "s");
    assert!(sub.directed);
    assert!(sub.stmts.is_empty());
    assert!(sub.node_attributes.is_empty());
    assert!(sub.edge_attributes.is_empty());
    assert!(sub.graph_attributes.is_empty());
}

#[test]
fn empty_subgraph() {
    let sub = new_subgraph("s", true);
    assert_eq!(sub.string(true), "subgraph s \n { \n;\n;\n;\n}");
    assert_eq!(sub.string(false), "subgraph s \n { \n;\n;\n;\n}");
}

#[test]
fn subgraph_default_lines() {
    let sub = new_subgraph("s", false)
        .with_graph_attribute("label", "box")
        .with_edge_attribute("color", "red")
        .with_node_attribute("shape", "circle");
    assert_eq!(
        sub.string(false),
        "subgraph s \n { \n\
         graph [label = \"box\"];\n\
         edge [color = \"red\"];\n\
         node [shape = \"circle\"];\n}"
    );
}

#[test]
fn subgraph_with_one_node_nested_in_a_directed_graph() {
    let n = new_node_string("n");
    let sub = new_subgraph("inner", true).add_stmt(Statement::Node(&n));
    let graph = new_graph("outer", true).add_stmt(Statement::SubGraph(&sub));
    let text = graph.string();
    assert_eq!(
        text,
        "digraph outer \n { \n;\n;\n;\nsubgraph inner \n { \n;\n;\n;\nn;\n};\n}"
    );
    let inner = sub.string(true);
    let at = text.find(&inner).unwrap();
    assert_eq!(&text[..at], "digraph outer \n { \n;\n;\n;\n");
    assert_eq!(&text[at + inner.len()..], ";\n}");
}

#[test]
fn nested_edge_takes_the_operator_of_the_root() {
    let a = new_node_string("a");
    let b = new_node_string("b");
    let edge = new_edge(&a).add_node(&b);
    let undirected_sub = new_subgraph("inner", false).add_stmt(Statement::Edge(&edge));
    let directed_root = new_graph("outer", true).add_stmt(Statement::SubGraph(&undirected_sub));
    assert_eq!(
        directed_root.string(),
        "digraph outer \n { \n;\n;\n;\nsubgraph inner \n { \n;\n;\n;\na -> b;\n};\n}"
    );
    let directed_sub = new_subgraph("inner", true).add_stmt(Statement::Edge(&edge));
    let undirected_root = new_graph("outer", false).add_stmt(Statement::SubGraph(&directed_sub));
    assert_eq!(
        undirected_root.string(),
        "graph outer \n { \n;\n;\n;\nsubgraph inner \n { \n;\n;\n;\na -- b;\n};\n}"
    );
}

#[test]
fn subgraph_text_does_not_depend_on_its_own_flag() {
    let a = new_node_string("a");
    let b = new_node_string("b");
    let edge = new_edge(&a).add_node(&b);
    let one = new_subgraph("s", true).add_stmt(Statement::Edge(&edge));
    let other = new_subgraph("s", false).add_stmt(Statement::Edge(&edge));
    assert_eq!(one.string(true), other.string(true));
    assert_eq!(one.string(false), other.string(false));
}

#[test]
fn subgraphs_nest_two_deep() {
    let a = new_node_string("a");
    let b = new_node_string("b");
    let edge = new_edge(&a).add_node(&b);
    let innermost = new_subgraph("c", false).add_stmt(Statement::Edge(&edge));
    let middle = new_subgraph("b", false)
        .add_stmt(Statement::SubGraph(&innermost))
        .add_stmt(Statement::Node(&a));
    let graph = new_graph("a", true).add_stmt(Statement::SubGraph(&middle));
    assert_eq!(
        graph.string(),
        "digraph a \n { \n;\n;\n;\n\
         subgraph b \n { \n;\n;\n;\n\
         subgraph c \n { \n;\n;\n;\na -> b;\n};\n\
         a;\n};\n}"
    );
}

#[test]
fn statement_renders_as_what_it_holds() {
    let a = new_node_string("a").with_attribute("k", "v");
    let b = new_node_string("b");
    let edge = new_edge(&a).add_node(&b);
    let sub = new_subgraph("s", false).add_stmt(Statement::Node(&b));
    assert_eq!(Statement::Node(&a).string(true), "a[k = \"v\"]");
    assert_eq!(Statement::Edge(&edge).string(true), "a[k = \"v\"] -> b");
    assert_eq!(Statement::Edge(&edge).string(false), "a[k = \"v\"] -- b");
    assert_eq!(Statement::SubGraph(&sub).string(true), sub.string(true));
}

#[test]
fn statement_and_subgraph_stmt_do_nothing() {
    let a = new_node_string("a");
    let sub = new_subgraph("s", false).add_stmt(Statement::Node(&a));
    sub.stmt();
    Statement::Node(&a).stmt();
    assert_eq!(sub.string(true), "subgraph s \n { \n;\n;\n;\na;\n}");
}
