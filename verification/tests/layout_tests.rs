use ezpz::layout::{
    ends_grid_row, grid_columns, render_plan, ComponentProperties, ComponentType, ContainerProperties, LayoutBuilder,
    LayoutError, LayoutNode, LayoutType, RenderError, RenderStep,
};

fn children_of(node: &LayoutNode) -> Vec<String> {
    match node {
        LayoutNode::Container { children, .. } => children.clone(),
        LayoutNode::Component { .. } => panic!("not a container"),
    }
}

#[test]
fn new_builder_has_a_vertical_root() {
    let b = LayoutBuilder::new();
    let d = b.build();
    assert_eq!(d.root_id(), "root");
    assert_eq!(d.node_count(), 1);
    match d.get("root").unwrap() {
        LayoutNode::Container { id, layout_type, children, properties } => {
            assert_eq!(id, "root");
            assert_eq!(*layout_type, LayoutType::Vertical);
            assert!(children.is_empty());
            assert!(properties.is_none());
        },
        _ => panic!("root is a container"),
    }
}

#[test]
fn added_nodes_are_listed_and_stored() {
    let mut b = LayoutBuilder::new();
    b.add_node("root", LayoutNode::container("row".to_string(), LayoutType::Horizontal)).unwrap();
    b.add_node("row", LayoutNode::component("search".to_string(), ComponentType::Search)).unwrap();
    b.add_node("row", LayoutNode::component("filter".to_string(), ComponentType::Filter)).unwrap();
    assert_eq!(children_of(b.get("root").unwrap()), vec!["row".to_string()]);
    assert_eq!(children_of(b.get("row").unwrap()), vec!["search".to_string(), "filter".to_string()]);
    assert!(matches!(b.get("filter").unwrap(), LayoutNode::Component { component_type: ComponentType::Filter, .. }));
    assert!(b.get("missing").is_none());
}

#[test]
fn refused_additions_change_nothing() {
    let mut b = LayoutBuilder::new();
    b.add_node("root", LayoutNode::component("table".to_string(), ComponentType::Data)).unwrap();
    assert_eq!(
        b.add_node("nowhere", LayoutNode::component("x".to_string(), ComponentType::Theme)),
        Err(LayoutError::ParentNotContainer)
    );
    assert_eq!(
        b.add_node("table", LayoutNode::component("y".to_string(), ComponentType::Theme)),
        Err(LayoutError::ParentNotContainer)
    );
    assert!(b.get("x").is_none() && b.get("y").is_none());
    assert_eq!(b.build().node_count(), 2);
    assert_eq!(LayoutError::ParentNotContainer.message(), "Parent node not found or is not a container");
}

#[test]
fn adding_an_existing_id_replaces_the_node() {
    let mut b = LayoutBuilder::new();
    b.add_node("root", LayoutNode::component("w".to_string(), ComponentType::Data)).unwrap();
    b.add_node("root", LayoutNode::component("w".to_string(), ComponentType::Theme)).unwrap();
    assert!(matches!(b.get("w").unwrap(), LayoutNode::Component { component_type: ComponentType::Theme, .. }));
    assert_eq!(children_of(b.get("root").unwrap()), vec!["w".to_string(), "w".to_string()]);
    assert_eq!(b.build().node_count(), 2);
}

#[test]
fn properties_are_set_on_the_right_kind_of_node() {
    let mut b = LayoutBuilder::new();
    b.add_node("root", LayoutNode::component("table".to_string(), ComponentType::Data)).unwrap();
    b.set_container_properties("root", ContainerProperties { columns: Some(3) }).unwrap();
    assert!(matches!(b.get("root").unwrap(), LayoutNode::Container { properties: Some(ContainerProperties { columns: Some(3) }), .. }));
    assert_eq!(b.set_container_properties("table", ContainerProperties { columns: None }), Err(LayoutError::NotContainer));
    assert_eq!(b.set_component_properties("root", ComponentProperties {}), Err(LayoutError::NotComponent));
    assert_eq!(b.set_component_properties("none", ComponentProperties {}), Err(LayoutError::NotComponent));
    b.set_component_properties("table", ComponentProperties {}).unwrap();
    assert!(matches!(b.get("table").unwrap(), LayoutNode::Component { properties: Some(_), .. }));
    assert_eq!(LayoutError::NotContainer.message(), "Node not found or is not a container");
    assert_eq!(LayoutError::NotComponent.message(), "Node not found or is not a component");
}

#[test]
fn grid_columns_default_to_two() {
    assert_eq!(grid_columns(&None), 2);
    assert_eq!(grid_columns(&Some(ContainerProperties { columns: None })), 2);
    assert_eq!(grid_columns(&Some(ContainerProperties { columns: Some(4) })), 4);
    assert!(!ends_grid_row(0, 2));
    assert!(ends_grid_row(1, 2));
    assert!(ends_grid_row(0, 1));
    assert!(ends_grid_row(5, 3));
}

#[test]
fn plan_of_a_grid() {
    let mut b = LayoutBuilder::new();
    b.add_node("root", LayoutNode::container("grid".to_string(), LayoutType::Grid)).unwrap();
    for (id, t) in [("a", ComponentType::Filter), ("b", ComponentType::Search), ("c", ComponentType::Data)] {
        b.add_node("grid", LayoutNode::component(id.to_string(), t)).unwrap();
    }
    b.add_node("root", LayoutNode::component("theme".to_string(), ComponentType::Theme)).unwrap();
    let d = b.build();
    let steps = render_plan(&d, "root", d.node_count() + 1).unwrap();
    assert_eq!(
        steps,
        vec![
            RenderStep::OpenVertical,
            RenderStep::OpenGrid(2),
            RenderStep::Component(ComponentType::Filter),
            RenderStep::Component(ComponentType::Search),
            RenderStep::EndRow,
            RenderStep::Component(ComponentType::Data),
            RenderStep::Close,
            RenderStep::Component(ComponentType::Theme),
            RenderStep::Close,
        ]
    );
}

#[test]
fn plan_skips_missing_children_and_missing_nodes() {
    let mut b = LayoutBuilder::new();
    let node = LayoutNode::Container {
        id: "row".to_string(),
        layout_type: LayoutType::Horizontal,
        children: vec!["ghost".to_string()],
        properties: None,
    };
    b.add_node("root", node).unwrap();
    let d = b.build();
    assert_eq!(
        render_plan(&d, "root", 10).unwrap(),
        vec![RenderStep::OpenVertical, RenderStep::OpenHorizontal, RenderStep::Close, RenderStep::Close]
    );
    assert_eq!(render_plan(&d, "nothing", 10).unwrap(), vec![]);
}

#[test]
fn plan_errors() {
    let mut b = LayoutBuilder::new();
    b.add_node("root", LayoutNode::container("a".to_string(), LayoutType::Vertical)).unwrap();
    b.add_node("a", LayoutNode::container("b".to_string(), LayoutType::Vertical)).unwrap();
    let looped = LayoutNode::Container {
        id: "a".to_string(),
        layout_type: LayoutType::Vertical,
        children: vec!["b".to_string()],
        properties: None,
    };
    b.add_node("b", looped).unwrap();
    let d = b.build();
    assert_eq!(render_plan(&d, "root", d.node_count() + 1), Err(RenderError::TooDeep));
    assert_eq!(render_plan(&d, "root", 0), Err(RenderError::TooDeep));

    let mut g = LayoutBuilder::new();
    g.set_container_properties("root", ContainerProperties { columns: Some(0) }).unwrap();
    let d = g.build();
    assert_eq!(render_plan(&d, "root", 5).unwrap(), vec![RenderStep::OpenVertical, RenderStep::Close]);
    let mut g = LayoutBuilder::new();
    g.add_node("root", LayoutNode::container("grid".to_string(), LayoutType::Grid)).unwrap();
    g.set_container_properties("grid", ContainerProperties { columns: Some(0) }).unwrap();
    assert_eq!(render_plan(&g.build(), "root", 5).unwrap(), vec![
        RenderStep::OpenVertical,
        RenderStep::OpenGrid(0),
        RenderStep::Close,
        RenderStep::Close
    ]);
    g.add_node("grid", LayoutNode::component("x".to_string(), ComponentType::Data)).unwrap();
    assert_eq!(render_plan(&g.build(), "root", 5), Err(RenderError::ZeroGridColumns));
}

#[test]
fn description_copy_is_equal() {
    let mut b = LayoutBuilder::new();
    b.add_node("root", LayoutNode::component("t".to_string(), ComponentType::Data)).unwrap();
    let d = b.build();
    let e = d.duplicate();
    assert_eq!(e.node_count(), d.node_count());
    assert_eq!(e.root_id(), d.root_id());
    assert!(e.get("t").unwrap().is_component());
}

fn open_count(steps: &[RenderStep]) -> Vec<i64> {
    let mut counts = vec![0];
    for s in steps {
        let w = match s {
            RenderStep::OpenHorizontal | RenderStep::OpenVertical | RenderStep::OpenGrid(_) => 1,
            RenderStep::Close => -1,
            _ => 0,
        };
        let last = *counts.last().unwrap();
        counts.push(last + w);
    }
    counts
}

#[test]
fn nested_plan_closes_what_it_opens() {
    let mut b = LayoutBuilder::new();
    b.add_node("root", LayoutNode::container("row".to_string(), LayoutType::Horizontal)).unwrap();
    b.add_node("row", LayoutNode::container("grid".to_string(), LayoutType::Grid)).unwrap();
    b.add_node("grid", LayoutNode::component("f".to_string(), ComponentType::Filter)).unwrap();
    b.add_node("grid", LayoutNode::component("s".to_string(), ComponentType::Search)).unwrap();
    b.add_node("row", LayoutNode::component("t".to_string(), ComponentType::Theme)).unwrap();
    let d = b.build();
    let steps = render_plan(&d, "root", d.node_count() + 1).unwrap();
    assert_eq!(
        steps,
        vec![
            RenderStep::OpenVertical,
            RenderStep::OpenHorizontal,
            RenderStep::OpenGrid(2),
            RenderStep::Component(ComponentType::Filter),
            RenderStep::Component(ComponentType::Search),
            RenderStep::EndRow,
            RenderStep::Close,
            RenderStep::Component(ComponentType::Theme),
            RenderStep::Close,
            RenderStep::Close,
        ]
    );
    let counts = open_count(&steps);
    assert!(counts.iter().all(|c| *c >= 0));
    assert_eq!(*counts.last().unwrap(), 0);
}

#[test]
fn more_fuel_gives_the_same_plan() {
    let mut b = LayoutBuilder::new();
    b.add_node("root", LayoutNode::container("col".to_string(), LayoutType::Vertical)).unwrap();
    b.add_node("col", LayoutNode::component("d".to_string(), ComponentType::Data)).unwrap();
    let d = b.build();
    let exact = render_plan(&d, "root", 3).unwrap();
    assert_eq!(exact, vec![RenderStep::OpenVertical, RenderStep::OpenVertical, RenderStep::Component(ComponentType::Data), RenderStep::Close, RenderStep::Close]);
    assert_eq!(render_plan(&d, "root", 4).unwrap(), exact);
    assert_eq!(render_plan(&d, "root", 100).unwrap(), exact);
    assert_eq!(render_plan(&d, "root", 2), Err(RenderError::TooDeep));
}

#[test]
fn node_count_fuel_is_enough_for_a_deep_chain() {
    let mut b = LayoutBuilder::new();
    let mut parent = "root".to_string();
    for i in 0..6 {
        let id = format!("c{i}");
        b.add_node(&parent, LayoutNode::container(id.clone(), LayoutType::Vertical)).unwrap();
        parent = id;
    }
    b.add_node(&parent, LayoutNode::component("leaf".to_string(), ComponentType::Search)).unwrap();
    let d = b.build();
    assert_eq!(d.node_count(), 8);
    let steps = render_plan(&d, "root", d.node_count() + 1).unwrap();
    assert_eq!(steps.len(), 7 * 2 + 1);
    assert_eq!(render_plan(&d, "root", 8).unwrap(), steps);
    assert_eq!(render_plan(&d, "root", 7), Err(RenderError::TooDeep));
}
