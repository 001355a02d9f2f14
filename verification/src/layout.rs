//! A layout tree of containers and components, built node by node and
//! looked up by node id.

use vstd::prelude::*;
use crate::text::str_equals;

verus! {

/// The kinds of component that a layout can place.
#[derive(Clone, Copy, Debug, PartialEq, Eq, Hash, Structural)]
pub enum ComponentType {
    Filter,
    Search,
    Layout,
    Theme,
    Data,
}

/// How a container arranges its children.
#[derive(Clone, Copy, Debug, PartialEq, Eq, Hash, Structural)]
pub enum LayoutType {
    Horizontal,
    Vertical,
    Grid,
}

/// Settings of a container.
#[derive(Clone, Copy, Debug, PartialEq, Eq, Structural)]
pub struct ContainerProperties {
    pub columns: Option<usize>,
}

/// Settings of a component (none yet).
#[derive(Clone, Copy, Debug, PartialEq, Eq, Structural)]
pub struct ComponentProperties {}

/// A node of the layout: a container of child ids, or a component.
#[allow(inconsistent_fields)]
#[derive(Debug)]
pub enum LayoutNode {
    Container {
        id: String,
        layout_type: LayoutType,
        children: Vec<String>,
        properties: Option<ContainerProperties>,
    },
    Component {
        id: String,
        component_type: ComponentType,
        properties: Option<ComponentProperties>,
    },
}

/// The mathematical value of a layout node.
#[allow(inconsistent_fields)]
pub enum NodeView {
    Container {
        id: Seq<char>,
        layout_type: LayoutType,
        children: Seq<Seq<char>>,
        properties: Option<ContainerProperties>,
    },
    Component {
        id: Seq<char>,
        component_type: ComponentType,
        properties: Option<ComponentProperties>,
    },
}

impl NodeView {
    /// The id of the node.
    pub open spec fn id(self) -> Seq<char> {
        match self {
            NodeView::Container { id, .. } => id,
            NodeView::Component { id, .. } => id,
        }
    }
}

/// The views of a list of strings.
pub open spec fn strings_view(v: Seq<String>) -> Seq<Seq<char>> {
    v.map_values(|s: String| s@)
}

impl View for LayoutNode {
    type V = NodeView;

    open spec fn view(&self) -> NodeView {
        match self {
            LayoutNode::Container { id, layout_type, children, properties } => NodeView::Container {
                id: id@,
                layout_type: *layout_type,
                children: strings_view(children@),
                properties: *properties,
            },
            LayoutNode::Component { id, component_type, properties } => NodeView::Component {
                id: id@,
                component_type: *component_type,
                properties: *properties,
            },
        }
    }
}

/// A container node with `child` added after its children; other nodes unchanged.
pub open spec fn with_child(n: NodeView, child: Seq<char>) -> NodeView {
    match n {
        NodeView::Container { id, layout_type, children, properties } => NodeView::Container {
            id,
            layout_type,
            children: children.push(child),
            properties,
        },
        _ => n,
    }
}

/// A container node with its properties set; other nodes unchanged.
pub open spec fn with_container_properties(n: NodeView, p: ContainerProperties) -> NodeView {
    match n {
        NodeView::Container { id, layout_type, children, .. } => NodeView::Container {
            id,
            layout_type,
            children,
            properties: Some(p),
        },
        _ => n,
    }
}

/// A component node with its properties set; other nodes unchanged.
pub open spec fn with_component_properties(n: NodeView, p: ComponentProperties) -> NodeView {
    match n {
        NodeView::Component { id, component_type, .. } => NodeView::Component {
            id,
            component_type,
            properties: Some(p),
        },
        _ => n,
    }
}

/// Copies a list of strings.
fn copy_strings(v: &Vec<String>) -> (r: Vec<String>)
    ensures
        strings_view(r@) == strings_view(v@),
{
    let mut r: Vec<String> = Vec::new();
    let mut i: usize = 0;
    while i < v.len()
        invariant
            i <= v.len(),
            r@.len() == i,
            forall|j: int| 0 <= j < i ==> r@[j]@ == v@[j]@,
        decreases v.len() - i,
    {
        r.push(v[i].clone());
        i = i + 1;
    }
    assert(strings_view(r@) =~= strings_view(v@));
    r
}

impl LayoutNode {
    /// A container with no children and no properties.
    pub fn container(id: String, layout_type: LayoutType) -> (r: LayoutNode)
        ensures
            r@ == (NodeView::Container { id: id@, layout_type, children: Seq::empty(), properties: None }),
    {
        let r = LayoutNode::Container { id, layout_type, children: Vec::new(), properties: None };
        assert(strings_view(Seq::<String>::empty()) =~= Seq::<Seq<char>>::empty());
        r
    }

    /// A component with no properties.
    pub fn component(id: String, component_type: ComponentType) -> (r: LayoutNode)
        ensures
            r@ == (NodeView::Component { id: id@, component_type, properties: None }),
    {
        LayoutNode::Component { id, component_type, properties: None }
    }

    /// The id of this node.
    pub fn id(&self) -> (r: &String)
        ensures
            r@ == self@.id(),
    {
        match self {
            LayoutNode::Container { id, .. } => id,
            LayoutNode::Component { id, .. } => id,
        }
    }

    /// Whether this node is a container.
    pub fn is_container(&self) -> (r: bool)
        ensures
            r == (self@ is Container),
    {
        match self {
            LayoutNode::Container { .. } => true,
            LayoutNode::Component { .. } => false,
        }
    }

    /// A copy of this node that, if it is a container, lists `child` after its children.
    pub fn with_child(&self, child: String) -> (r: LayoutNode)
        ensures
            r@ == with_child(self@, child@),
    {
        match self {
            LayoutNode::Container { id, layout_type, children, properties } => {
                let mut c = copy_strings(children);
                let ghost old_c = c@;
                c.push(child);
                proof {
                    assert(strings_view(c@) =~= strings_view(old_c).push(child@));
                }
                LayoutNode::Container { id: id.clone(), layout_type: *layout_type, children: c, properties: *properties }
            },
            LayoutNode::Component { .. } => self.duplicate(),
        }
    }

    /// Whether this node is a component.
    pub fn is_component(&self) -> (r: bool)
        ensures
            r == (self@ is Component),
    {
        match self {
            LayoutNode::Container { .. } => false,
            LayoutNode::Component { .. } => true,
        }
    }

    /// A copy of this node with its container properties set, if it is a container.
    pub fn with_container_properties(&self, p: ContainerProperties) -> (r: LayoutNode)
        ensures
            r@ == with_container_properties(self@, p),
    {
        match self {
            LayoutNode::Container { id, layout_type, children, .. } => LayoutNode::Container {
                id: id.clone(),
                layout_type: *layout_type,
                children: copy_strings(children),
                properties: Some(p),
            },
            LayoutNode::Component { .. } => self.duplicate(),
        }
    }

    /// A copy of this node with its component properties set, if it is a component.
    pub fn with_component_properties(&self, p: ComponentProperties) -> (r: LayoutNode)
        ensures
            r@ == with_component_properties(self@, p),
    {
        match self {
            LayoutNode::Component { id, component_type, .. } => LayoutNode::Component {
                id: id.clone(),
                component_type: *component_type,
                properties: Some(p),
            },
            LayoutNode::Container { .. } => self.duplicate(),
        }
    }

    /// A copy of this node.
    pub fn duplicate(&self) -> (r: LayoutNode)
        ensures
            r@ == self@,
    {
        match self {
            LayoutNode::Container { id, layout_type, children, properties } => LayoutNode::Container {
                id: id.clone(),
                layout_type: *layout_type,
                children: copy_strings(children),
                properties: *properties,
            },
            LayoutNode::Component { id, component_type, properties } => LayoutNode::Component {
                id: id.clone(),
                component_type: *component_type,
                properties: *properties,
            },
        }
    }
}

/// The views of a list of nodes.
pub open spec fn nodes_view(v: Seq<LayoutNode>) -> Seq<NodeView> {
    v.map_values(|n: LayoutNode| n@)
}

/// No two nodes of `s` share an id.
pub open spec fn unique_ids(s: Seq<NodeView>) -> bool {
    forall|i: int, j: int| 0 <= i < s.len() && 0 <= j < s.len() && i != j ==> s[i].id() != s[j].id()
}

/// The nodes of `s` keyed by their ids; a later node wins over an earlier one.
pub open spec fn nodes_map(s: Seq<NodeView>) -> Map<Seq<char>, NodeView>
    decreases s.len(),
{
    if s.len() == 0 {
        Map::empty()
    } else {
        nodes_map(s.drop_last()).insert(s.last().id(), s.last())
    }
}

proof fn lemma_map_contains(s: Seq<NodeView>, i: int)
    requires
        0 <= i < s.len(),
    ensures
        nodes_map(s).dom().contains(s[i].id()),
    decreases s.len(),
{
    if i < s.len() - 1 {
        lemma_map_contains(s.drop_last(), i);
    }
}

proof fn lemma_map_absent(s: Seq<NodeView>, k: Seq<char>)
    requires
        forall|j: int| 0 <= j < s.len() ==> s[j].id() != k,
    ensures
        !nodes_map(s).dom().contains(k),
    decreases s.len(),
{
    if s.len() > 0 {
        assert forall|j: int| 0 <= j < s.drop_last().len() implies s.drop_last()[j].id() != k by {
            assert(s.drop_last()[j] == s[j]);
        }
        lemma_map_absent(s.drop_last(), k);
    }
}

proof fn lemma_map_value(s: Seq<NodeView>, i: int)
    requires
        unique_ids(s),
        0 <= i < s.len(),
    ensures
        nodes_map(s).dom().contains(s[i].id()),
        nodes_map(s)[s[i].id()] == s[i],
    decreases s.len(),
{
    lemma_map_contains(s, i);
    if i < s.len() - 1 {
        assert(s[i].id() != s[s.len() - 1].id());
        assert(unique_ids(s.drop_last())) by {
            assert forall|a: int, b: int|
                0 <= a < s.drop_last().len() && 0 <= b < s.drop_last().len() && a != b implies
                s.drop_last()[a].id() != s.drop_last()[b].id() by {
                assert(s.drop_last()[a] == s[a] && s.drop_last()[b] == s[b]);
            }
        }
        lemma_map_value(s.drop_last(), i);
    }
}

proof fn lemma_unique_drop_last(s: Seq<NodeView>)
    requires
        unique_ids(s),
        s.len() > 0,
    ensures
        unique_ids(s.drop_last()),
{
    assert forall|a: int, b: int|
        0 <= a < s.drop_last().len() && 0 <= b < s.drop_last().len() && a != b implies
        s.drop_last()[a].id() != s.drop_last()[b].id() by {
        assert(s.drop_last()[a] == s[a] && s.drop_last()[b] == s[b]);
    }
}

proof fn lemma_map_update(s: Seq<NodeView>, i: int, v: NodeView)
    requires
        unique_ids(s),
        0 <= i < s.len(),
        v.id() == s[i].id(),
    ensures
        unique_ids(s.update(i, v)),
        nodes_map(s.update(i, v)) == nodes_map(s).insert(v.id(), v),
    decreases s.len(),
{
    let t = s.update(i, v);
    assert forall|a: int, b: int| 0 <= a < t.len() && 0 <= b < t.len() && a != b implies t[a].id() != t[b].id() by {
        assert(t[a].id() == s[a].id() && t[b].id() == s[b].id());
    }
    if i == s.len() - 1 {
        assert(t.drop_last() =~= s.drop_last());
        assert(nodes_map(t) =~= nodes_map(s).insert(v.id(), v));
    } else {
        assert(t.drop_last() =~= s.drop_last().update(i, v));
        lemma_unique_drop_last(s);
        assert(s.drop_last()[i] == s[i]);
        lemma_map_update(s.drop_last(), i, v);
        assert(s.last().id() != v.id());
        assert(t.last() == s.last());
        assert(nodes_map(t) =~= nodes_map(s).insert(v.id(), v));
    }
}

proof fn lemma_map_push(s: Seq<NodeView>, v: NodeView)
    requires
        unique_ids(s),
        !nodes_map(s).dom().contains(v.id()),
    ensures
        unique_ids(s.push(v)),
        nodes_map(s.push(v)) == nodes_map(s).insert(v.id(), v),
{
    let t = s.push(v);
    assert(t.drop_last() =~= s);
    assert forall|a: int, b: int| 0 <= a < t.len() && 0 <= b < t.len() && a != b implies t[a].id() != t[b].id() by {
        if a == s.len() {
            lemma_map_contains(s, b);
        } else if b == s.len() {
            lemma_map_contains(s, a);
        }
    }
}

proof fn lemma_map_len(s: Seq<NodeView>)
    requires
        unique_ids(s),
    ensures
        nodes_map(s).dom().finite(),
        nodes_map(s).dom().len() == s.len(),
    decreases s.len(),
{
    if s.len() > 0 {
        lemma_unique_drop_last(s);
        lemma_map_len(s.drop_last());
        let d = s.drop_last();
        assert forall|j: int| 0 <= j < d.len() implies d[j].id() != s.last().id() by {
            assert(d[j] == s[j]);
        }
        lemma_map_absent(d, s.last().id());
    }
}

/// Finds the position of the node with id `id`.
fn find_node(nodes: &Vec<LayoutNode>, id: &str) -> (r: Option<usize>)
    ensures
        match r {
            Some(i) => i < nodes@.len() && nodes@[i as int]@.id() == id@,
            None => forall|j: int| 0 <= j < nodes@.len() ==> nodes@[j]@.id() != id@,
        },
{
    let mut i: usize = 0;
    while i < nodes.len()
        invariant
            i <= nodes@.len(),
            forall|j: int| 0 <= j < i ==> nodes@[j]@.id() != id@,
        decreases nodes.len() - i,
    {
        let nid = nodes[i].id();
        if str_equals(nid.as_str(), id) {
            return Some(i);
        }
        i = i + 1;
    }
    None
}

/// The mathematical value of a layout: its nodes by id, and the id of its root.
pub struct LayoutView {
    pub nodes: Map<Seq<char>, NodeView>,
    pub root_id: Seq<char>,
}

/// Why a change to a layout was refused.
#[derive(Clone, Copy, Debug, PartialEq, Eq, Structural)]
pub enum LayoutError {
    /// The parent id names no node, or names a component.
    ParentNotContainer,
    /// The id names no node, or names a component.
    NotContainer,
    /// The id names no node, or names a container.
    NotComponent,
}

/// The text that reports the error `e`.
pub open spec fn spec_layout_error_message(e: LayoutError) -> Seq<char> {
    match e {
        LayoutError::ParentNotContainer => "Parent node not found or is not a container"@,
        LayoutError::NotContainer => "Node not found or is not a container"@,
        LayoutError::NotComponent => "Node not found or is not a component"@,
    }
}

impl LayoutError {
    /// The message that reports this error.
    pub fn message(&self) -> (r: &'static str)
        ensures
            r@ == spec_layout_error_message(*self),
    {
        match self {
            LayoutError::ParentNotContainer => "Parent node not found or is not a container",
            LayoutError::NotContainer => "Node not found or is not a container",
            LayoutError::NotComponent => "Node not found or is not a component",
        }
    }
}

/// Whether `m` holds a container under `k`.
pub open spec fn holds_container(m: Map<Seq<char>, NodeView>, k: Seq<char>) -> bool {
    m.dom().contains(k) && m[k] is Container
}

/// Whether `m` holds a component under `k`.
pub open spec fn holds_component(m: Map<Seq<char>, NodeView>, k: Seq<char>) -> bool {
    m.dom().contains(k) && m[k] is Component
}

/// The layout after `node` is added under the container `parent`: the
/// parent lists the node's id after its children, then the node is stored
/// under its id, replacing any node with that id. `None` when `parent`
/// names no container.
pub open spec fn spec_add_node(v: LayoutView, parent: Seq<char>, node: NodeView) -> Option<LayoutView> {
    if holds_container(v.nodes, parent) {
        Some(LayoutView {
            nodes: v.nodes.insert(parent, with_child(v.nodes[parent], node.id())).insert(node.id(), node),
            root_id: v.root_id,
        })
    } else {
        None
    }
}

/// The layout after the container `id` gets the properties `p`; `None`
/// when `id` names no container.
pub open spec fn spec_set_container_properties(v: LayoutView, id: Seq<char>, p: ContainerProperties) -> Option<LayoutView> {
    if holds_container(v.nodes, id) {
        Some(LayoutView { nodes: v.nodes.insert(id, with_container_properties(v.nodes[id], p)), root_id: v.root_id })
    } else {
        None
    }
}

/// The layout after the component `id` gets the properties `p`; `None`
/// when `id` names no component.
pub open spec fn spec_set_component_properties(v: LayoutView, id: Seq<char>, p: ComponentProperties) -> Option<LayoutView> {
    if holds_component(v.nodes, id) {
        Some(LayoutView { nodes: v.nodes.insert(id, with_component_properties(v.nodes[id], p)), root_id: v.root_id })
    } else {
        None
    }
}

/// The layout that a new builder starts from: a vertical container `root`
/// with no children, which is also the root.
pub open spec fn spec_initial_layout() -> LayoutView {
    LayoutView {
        nodes: Map::empty().insert(
            "root"@,
            NodeView::Container { id: "root"@, layout_type: LayoutType::Vertical, children: Seq::empty(), properties: None },
        ),
        root_id: "root"@,
    }
}

/// Builds a layout node by node.
pub struct LayoutBuilder {
    nodes: Vec<LayoutNode>,
    root_id: String,
}

impl View for LayoutBuilder {
    type V = LayoutView;

    closed spec fn view(&self) -> LayoutView {
        LayoutView { nodes: nodes_map(nodes_view(self.nodes@)), root_id: self.root_id@ }
    }
}

impl LayoutBuilder {
    #[verifier::type_invariant]
    closed spec fn inv(&self) -> bool {
        unique_ids(nodes_view(self.nodes@))
    }

    /// A builder holding only the root container.
    pub fn new() -> (r: LayoutBuilder)
        ensures
            r@ == spec_initial_layout(),
    {
        let root_id = "root".to_owned();
        let root = LayoutNode::container(root_id.clone(), LayoutType::Vertical);
        let mut nodes: Vec<LayoutNode> = Vec::new();
        nodes.push(root);
        let r = LayoutBuilder { nodes, root_id };
        proof {
            let s = nodes_view(r.nodes@);
            assert(s.drop_last() =~= Seq::<NodeView>::empty());
            assert(nodes_map(s.drop_last()) == Map::<Seq<char>, NodeView>::empty());
            assert(s.last() == r.nodes@[0]@);
            assert(nodes_map(s) =~= spec_initial_layout().nodes);
        }
        r
    }

    /// Adds `node` under the container `parent_id`.
    pub fn add_node(&mut self, parent_id: &str, node: LayoutNode) -> (r: Result<(), LayoutError>)
        ensures
            match spec_add_node(old(self)@, parent_id@, node@) {
                Some(v) => r is Ok && final(self)@ == v,
                None => r == Err::<(), LayoutError>(LayoutError::ParentNotContainer) && final(self)@ == old(self)@,
            },
    {
        proof {
            use_type_invariant(&*self);
        }
        let ghost s0 = nodes_view(self.nodes@);
        match locate(&self.nodes, parent_id) {
            None => Err(LayoutError::ParentNotContainer),
            Some(i) => {
                if !self.nodes[i].is_container() {
                    return Err(LayoutError::ParentNotContainer);
                }
                let child_id = node.id().clone();
                let updated = self.nodes[i].with_child(child_id);
                let mut nodes: Vec<LayoutNode> = Vec::new();
                std::mem::swap(&mut nodes, &mut self.nodes);
                nodes.set(i, updated);
                proof {
                    assert(nodes_view(nodes@) =~= s0.update(i as int, updated@));
                    lemma_map_update(s0, i as int, updated@);
                }
                let ghost s1 = nodes_view(nodes@);
                match locate(&nodes, node.id().as_str()) {
                    Some(j) => {
                        let ghost nv = node@;
                        nodes.set(j, node);
                        proof {
                            assert(nodes_view(nodes@) =~= s1.update(j as int, nv));
                            lemma_map_update(s1, j as int, nv);
                        }
                    },
                    None => {
                        let ghost nv = node@;
                        nodes.push(node);
                        proof {
                            assert(nodes_view(nodes@) =~= s1.push(nv));
                            lemma_map_push(s1, nv);
                        }
                    },
                }
                self.nodes = nodes;
                Ok(())
            },
        }
    }
}

/// Replaces the node at `i` by `n`, which has the same id.
fn replace_node(nodes: &mut Vec<LayoutNode>, i: usize, n: LayoutNode)
    requires
        unique_ids(nodes_view(old(nodes)@)),
        i < old(nodes)@.len(),
        n@.id() == old(nodes)@[i as int]@.id(),
    ensures
        unique_ids(nodes_view(final(nodes)@)),
        nodes_map(nodes_view(final(nodes)@)) == nodes_map(nodes_view(old(nodes)@)).insert(n@.id(), n@),
{
    let ghost s0 = nodes_view(nodes@);
    let ghost nv = n@;
    nodes.set(i, n);
    proof {
        assert(nodes_view(nodes@) =~= s0.update(i as int, nv));
        lemma_map_update(s0, i as int, nv);
    }
}

/// Copies a list of nodes.
fn copy_nodes(v: &Vec<LayoutNode>) -> (r: Vec<LayoutNode>)
    ensures
        nodes_view(r@) == nodes_view(v@),
{
    let mut r: Vec<LayoutNode> = Vec::new();
    let mut i: usize = 0;
    while i < v.len()
        invariant
            i <= v.len(),
            r@.len() == i,
            forall|j: int| 0 <= j < i ==> r@[j]@ == v@[j]@,
        decreases v.len() - i,
    {
        r.push(v[i].duplicate());
        i = i + 1;
    }
    assert(nodes_view(r@) =~= nodes_view(v@));
    r
}

/// The position of the node with id `id` in `nodes`, if any, with what
/// that means for the map of the nodes.
fn locate(nodes: &Vec<LayoutNode>, id: &str) -> (r: Option<usize>)
    requires
        unique_ids(nodes_view(nodes@)),
    ensures
        match r {
            Some(i) => i < nodes@.len() && nodes@[i as int]@.id() == id@
                && nodes_map(nodes_view(nodes@)).dom().contains(id@)
                && nodes_map(nodes_view(nodes@))[id@] == nodes@[i as int]@,
            None => !nodes_map(nodes_view(nodes@)).dom().contains(id@),
        },
{
    let ghost s = nodes_view(nodes@);
    let found = find_node(nodes, id);
    proof {
        match found {
            Some(i) => {
                assert(s[i as int] == nodes@[i as int]@);
                lemma_map_value(s, i as int);
            },
            None => {
                assert forall|j: int| 0 <= j < s.len() implies s[j].id() != id@ by {
                    assert(s[j] == nodes@[j]@);
                }
                lemma_map_absent(s, id@);
            },
        }
    }
    found
}

/// Looks up the node with id `id` in `nodes`.
fn lookup<'a>(nodes: &'a Vec<LayoutNode>, id: &str) -> (r: Option<&'a LayoutNode>)
    requires
        unique_ids(nodes_view(nodes@)),
    ensures
        match r {
            Some(n) => nodes_map(nodes_view(nodes@)).dom().contains(id@)
                && nodes_map(nodes_view(nodes@))[id@] == n@,
            None => !nodes_map(nodes_view(nodes@)).dom().contains(id@),
        },
{
    match locate(nodes, id) {
        Some(i) => Some(&nodes[i]),
        None => None,
    }
}

impl LayoutBuilder {
    /// Sets the properties of the container `id`.
    pub fn set_container_properties(&mut self, id: &str, properties: ContainerProperties) -> (r: Result<(), LayoutError>)
        ensures
            match spec_set_container_properties(old(self)@, id@, properties) {
                Some(v) => r is Ok && final(self)@ == v,
                None => r == Err::<(), LayoutError>(LayoutError::NotContainer) && final(self)@ == old(self)@,
            },
    {
        proof {
            use_type_invariant(&*self);
        }
        match locate(&self.nodes, id) {
            Some(i) => {
                if !self.nodes[i].is_container() {
                    return Err(LayoutError::NotContainer);
                }
                let updated = self.nodes[i].with_container_properties(properties);
                let mut nodes: Vec<LayoutNode> = Vec::new();
                std::mem::swap(&mut nodes, &mut self.nodes);
                replace_node(&mut nodes, i, updated);
                self.nodes = nodes;
                Ok(())
            },
            None => Err(LayoutError::NotContainer),
        }
    }

    /// Sets the properties of the component `id`.
    pub fn set_component_properties(&mut self, id: &str, properties: ComponentProperties) -> (r: Result<(), LayoutError>)
        ensures
            match spec_set_component_properties(old(self)@, id@, properties) {
                Some(v) => r is Ok && final(self)@ == v,
                None => r == Err::<(), LayoutError>(LayoutError::NotComponent) && final(self)@ == old(self)@,
            },
    {
        proof {
            use_type_invariant(&*self);
        }
        match locate(&self.nodes, id) {
            Some(i) => {
                if !self.nodes[i].is_component() {
                    return Err(LayoutError::NotComponent);
                }
                let updated = self.nodes[i].with_component_properties(properties);
                let mut nodes: Vec<LayoutNode> = Vec::new();
                std::mem::swap(&mut nodes, &mut self.nodes);
                replace_node(&mut nodes, i, updated);
                self.nodes = nodes;
                Ok(())
            },
            None => Err(LayoutError::NotComponent),
        }
    }

    /// The finished layout: a copy of the nodes and of the root id.
    pub fn build(&self) -> (r: LayoutDescription)
        ensures
            r@ == self@,
    {
        proof {
            use_type_invariant(self);
        }
        LayoutDescription { nodes: copy_nodes(&self.nodes), root_id: self.root_id.clone() }
    }

    /// The node with id `id`, if any.
    pub fn get(&self, id: &str) -> (r: Option<&LayoutNode>)
        ensures
            match r {
                Some(n) => self@.nodes.dom().contains(id@) && self@.nodes[id@] == n@,
                None => !self@.nodes.dom().contains(id@),
            },
    {
        proof {
            use_type_invariant(self);
        }
        lookup(&self.nodes, id)
    }
}

/// A finished layout.
pub struct LayoutDescription {
    nodes: Vec<LayoutNode>,
    root_id: String,
}

impl View for LayoutDescription {
    type V = LayoutView;

    closed spec fn view(&self) -> LayoutView {
        LayoutView { nodes: nodes_map(nodes_view(self.nodes@)), root_id: self.root_id@ }
    }
}

impl LayoutDescription {
    #[verifier::type_invariant]
    closed spec fn inv(&self) -> bool {
        unique_ids(nodes_view(self.nodes@))
    }

    /// The node with id `id`, if any.
    pub fn get(&self, id: &str) -> (r: Option<&LayoutNode>)
        ensures
            match r {
                Some(n) => self@.nodes.dom().contains(id@) && self@.nodes[id@] == n@,
                None => !self@.nodes.dom().contains(id@),
            },
    {
        proof {
            use_type_invariant(self);
        }
        lookup(&self.nodes, id)
    }

    /// The number of nodes.
    pub fn node_count(&self) -> (r: usize)
        ensures
            self@.nodes.dom().finite(),
            r == self@.nodes.dom().len(),
    {
        proof {
            use_type_invariant(self);
            lemma_map_len(nodes_view(self.nodes@));
        }
        self.nodes.len()
    }

    /// The id of the root node.
    pub fn root_id(&self) -> (r: &String)
        ensures
            r@ == self@.root_id,
    {
        &self.root_id
    }

    /// A copy of this layout.
    pub fn duplicate(&self) -> (r: LayoutDescription)
        ensures
            r@ == self@,
    {
        proof {
            use_type_invariant(self);
        }
        LayoutDescription { nodes: copy_nodes(&self.nodes), root_id: self.root_id.clone() }
    }
}

/// The number of columns of a grid container: the one set in its
/// properties, else two.
pub open spec fn spec_grid_columns(properties: Option<ContainerProperties>) -> usize {
    match properties {
        Some(p) => match p.columns {
            Some(c) => c,
            None => 2,
        },
        None => 2,
    }
}

/// The number of columns of a grid container.
pub fn grid_columns(properties: &Option<ContainerProperties>) -> (r: usize)
    ensures
        r == spec_grid_columns(*properties),
{
    match properties {
        Some(p) => match p.columns {
            Some(c) => c,
            None => 2,
        },
        None => 2,
    }
}

/// Whether a grid of `columns` columns ends a row after the child at
/// position `index` (counted from zero).
pub fn ends_grid_row(index: usize, columns: usize) -> (r: bool)
    requires
        columns > 0,
        index < usize::MAX,
    ensures
        r == ((index + 1) % (columns as int) == 0),
{
    (index + 1) % columns == 0
}

/// Adding a node stores it under its own id, and leaves the root id as it was.
pub proof fn law_added_node_is_stored(v: LayoutView, parent: Seq<char>, node: NodeView)
    ensures
        spec_add_node(v, parent, node) matches Some(w) ==> {
            &&& w.nodes.dom().contains(node.id())
            &&& w.nodes[node.id()] == node
            &&& w.root_id == v.root_id
        },
{
}

/// Adding a node under a parent of another id makes the parent list the
/// node's id after the children it had.
pub proof fn law_parent_lists_added_node(v: LayoutView, parent: Seq<char>, node: NodeView)
    requires
        node.id() != parent,
    ensures
        spec_add_node(v, parent, node) matches Some(w) ==> {
            &&& v.nodes[parent] matches NodeView::Container { children: before, .. }
            &&& w.nodes[parent] matches NodeView::Container { children: after, .. }
            &&& after == before.push(node.id())
        },
{
}

/// Adding a node changes no node but the parent and the node's own id.
pub proof fn law_add_node_leaves_other_nodes(v: LayoutView, parent: Seq<char>, node: NodeView, k: Seq<char>)
    requires
        k != parent,
        k != node.id(),
    ensures
        spec_add_node(v, parent, node) matches Some(w) ==> {
            &&& w.nodes.dom().contains(k) == v.nodes.dom().contains(k)
            &&& v.nodes.dom().contains(k) ==> w.nodes[k] == v.nodes[k]
        },
{
}

/// A node can be added exactly under a container.
pub proof fn law_add_node_needs_container(v: LayoutView, parent: Seq<char>, node: NodeView)
    ensures
        spec_add_node(v, parent, node) is Some <==> holds_container(v.nodes, parent),
{
}

/// Setting the same container properties twice is the same as setting them once.
pub proof fn law_set_container_properties_idempotent(v: LayoutView, id: Seq<char>, p: ContainerProperties)
    ensures
        spec_set_container_properties(v, id, p) matches Some(w) ==> spec_set_container_properties(w, id, p) == Some(w),
{
    if let Some(w) = spec_set_container_properties(v, id, p) {
        assert(w.nodes.insert(id, with_container_properties(w.nodes[id], p)) =~= w.nodes);
    }
}

/// Setting the same component properties twice is the same as setting them once.
pub proof fn law_set_component_properties_idempotent(v: LayoutView, id: Seq<char>, p: ComponentProperties)
    ensures
        spec_set_component_properties(v, id, p) matches Some(w) ==> spec_set_component_properties(w, id, p) == Some(w),
{
    if let Some(w) = spec_set_component_properties(v, id, p) {
        assert(w.nodes.insert(id, with_component_properties(w.nodes[id], p)) =~= w.nodes);
    }
}

/// One step of drawing a layout, in drawing order.
#[derive(Clone, Copy, Debug, PartialEq, Eq, Structural)]
pub enum RenderStep {
    /// Start a row of children.
    OpenHorizontal,
    /// Start a column of children.
    OpenVertical,
    /// Start a grid of children with the given number of columns.
    OpenGrid(usize),
    /// End the container that was started last.
    Close,
    /// End the current row of the grid that was started last.
    EndRow,
    /// Draw a component.
    Component(ComponentType),
}

/// Why a layout cannot be drawn.
#[derive(Clone, Copy, Debug, PartialEq, Eq, Structural)]
pub enum RenderError {
    /// Containers are nested deeper than allowed (which a cycle of
    /// containers always is).
    TooDeep,
    /// A grid with children has zero columns.
    ZeroGridColumns,
}

/// The step that starts a container.
pub open spec fn spec_open_step(layout_type: LayoutType, properties: Option<ContainerProperties>) -> RenderStep {
    match layout_type {
        LayoutType::Horizontal => RenderStep::OpenHorizontal,
        LayoutType::Vertical => RenderStep::OpenVertical,
        LayoutType::Grid => RenderStep::OpenGrid(spec_grid_columns(properties)),
    }
}

/// The steps that draw the node `id` of `v`, containers nested at most
/// `fuel` deep: an id that names no node draws nothing; a component draws
/// itself; a container opens, draws its children in order and closes.
pub open spec fn spec_render(v: LayoutView, id: Seq<char>, fuel: nat) -> Result<Seq<RenderStep>, RenderError>
    decreases fuel, 0nat,
{
    if fuel == 0 {
        Err(RenderError::TooDeep)
    } else if !v.nodes.dom().contains(id) {
        Ok(Seq::empty())
    } else {
        match v.nodes[id] {
            NodeView::Component { component_type, .. } => Ok(seq![RenderStep::Component(component_type)]),
            NodeView::Container { layout_type, children, properties, .. } => {
                match spec_render_children(
                    v,
                    children,
                    layout_type == LayoutType::Grid,
                    spec_grid_columns(properties),
                    children.len(),
                    (fuel - 1) as nat,
                ) {
                    Ok(inner) => Ok(seq![spec_open_step(layout_type, properties)] + inner + seq![RenderStep::Close]),
                    Err(e) => Err(e),
                }
            },
        }
    }
}

/// The steps that draw the first `n` of `children`; in a grid of
/// `columns` columns a row ends after every child whose position, counted
/// from one, is a multiple of `columns`.
pub open spec fn spec_render_children(
    v: LayoutView,
    children: Seq<Seq<char>>,
    grid: bool,
    columns: usize,
    n: nat,
    fuel: nat,
) -> Result<Seq<RenderStep>, RenderError>
    decreases fuel, n + 1,
{
    if n == 0 {
        Ok(Seq::empty())
    } else {
        match spec_render_children(v, children, grid, columns, (n - 1) as nat, fuel) {
            Err(e) => Err(e),
            Ok(before) => match spec_render(v, children[n - 1], fuel) {
                Err(e) => Err(e),
                Ok(child) => if !grid {
                    Ok(before + child)
                } else if columns == 0 {
                    Err(RenderError::ZeroGridColumns)
                } else if n % (columns as nat) == 0 {
                    Ok(before + child + seq![RenderStep::EndRow])
                } else {
                    Ok(before + child)
                },
            },
        }
    }
}

proof fn lemma_render_children_err(
    v: LayoutView,
    children: Seq<Seq<char>>,
    grid: bool,
    columns: usize,
    i: nat,
    n: nat,
    fuel: nat,
    e: RenderError,
)
    requires
        i <= n,
        spec_render_children(v, children, grid, columns, i, fuel) == Err::<Seq<RenderStep>, RenderError>(e),
    ensures
        spec_render_children(v, children, grid, columns, n, fuel) == Err::<Seq<RenderStep>, RenderError>(e),
    decreases n,
{
    if n > i {
        lemma_render_children_err(v, children, grid, columns, i, (n - 1) as nat, fuel, e);
    }
}

/// The steps that draw the node `id` of `layout`, containers nested at
/// most `fuel` deep.
pub fn render_plan(layout: &LayoutDescription, id: &str, fuel: usize) -> (r: Result<Vec<RenderStep>, RenderError>)
    ensures
        match r {
            Ok(steps) => spec_render(layout@, id@, fuel as nat) == Ok::<Seq<RenderStep>, RenderError>(steps@),
            Err(e) => spec_render(layout@, id@, fuel as nat) == Err::<Seq<RenderStep>, RenderError>(e),
        },
    decreases fuel,
{
    if fuel == 0 {
        return Err(RenderError::TooDeep);
    }
    match layout.get(id) {
        None => Ok(Vec::new()),
        Some(node) => match node {
            LayoutNode::Component { component_type, .. } => {
                let steps = vec![RenderStep::Component(*component_type)];
                proof {
                    assert(layout@.nodes[id@] == node@);
                    assert(steps@ =~= seq![RenderStep::Component(*component_type)]);
                }
                Ok(steps)
            },
            LayoutNode::Container { layout_type, children, properties, .. } => {
                let columns = grid_columns(properties);
                let grid = match layout_type {
                    LayoutType::Grid => true,
                    _ => false,
                };
                let open = match layout_type {
                    LayoutType::Horizontal => RenderStep::OpenHorizontal,
                    LayoutType::Vertical => RenderStep::OpenVertical,
                    LayoutType::Grid => RenderStep::OpenGrid(columns),
                };
                let ghost cs = strings_view(children@);
                let ghost f = (fuel - 1) as nat;
                proof {
                    assert(layout@.nodes[id@] == node@);
                    assert(spec_open_step(*layout_type, *properties) == open);
                }
                let mut out: Vec<RenderStep> = vec![open];
                let mut i: usize = 0;
                proof {
                    assert(out@ =~= seq![open] + Seq::<RenderStep>::empty());
                }
                while i < children.len()
                    invariant
                        i <= children@.len(),
                        cs == strings_view(children@),
                        f == fuel - 1,
                        fuel > 0,
                        layout@.nodes.dom().contains(id@),
                        layout@.nodes[id@] == node@,
                        node@ == (NodeView::Container {
                            id: node@.id(),
                            layout_type: *layout_type,
                            children: cs,
                            properties: *properties,
                        }),
                        grid == (*layout_type == LayoutType::Grid),
                        columns == spec_grid_columns(*properties),
                        spec_render_children(layout@, cs, grid, columns, i as nat, f) matches Ok(inner)
                            && out@ == seq![open] + inner,
                    decreases children@.len() - i,
                {
                    let ghost before = out@;
                    let ghost prior = spec_render_children(layout@, cs, grid, columns, i as nat, f);
                    proof {
                        assert(cs[i as int] == children@[i as int]@);
                    }
                    let child = render_plan(layout, children[i].as_str(), fuel - 1);
                    match child {
                        Err(e) => {
                            proof {
                                assert(spec_render_children(layout@, cs, grid, columns, (i + 1) as nat, f) == Err::<Seq<RenderStep>, RenderError>(e));
                                lemma_render_children_err(layout@, cs, grid, columns, (i + 1) as nat, cs.len(), f, e);
                            }
                            return Err(e);
                        },
                        Ok(mut steps) => {
                            let ghost child_steps = steps@;
                            out.append(&mut steps);
                            if grid {
                                if columns == 0 {
                                    proof {
                                        assert(spec_render_children(layout@, cs, grid, columns, (i + 1) as nat, f) == Err::<Seq<RenderStep>, RenderError>(RenderError::ZeroGridColumns));
                                        lemma_render_children_err(layout@, cs, grid, columns, (i + 1) as nat, cs.len(), f, RenderError::ZeroGridColumns);
                                    }
                                    return Err(RenderError::ZeroGridColumns);
                                }
                                if ends_grid_row(i, columns) {
                                    out.push(RenderStep::EndRow);
                                    proof {
                                        let inner = prior->Ok_0;
                                        assert(spec_render_children(layout@, cs, grid, columns, (i + 1) as nat, f) == Ok::<Seq<RenderStep>, RenderError>(inner + child_steps + seq![RenderStep::EndRow]));
                                        assert(out@ =~= seq![open] + (inner + child_steps + seq![RenderStep::EndRow]));
                                    }
                                } else {
                                    proof {
                                        let inner = prior->Ok_0;
                                        assert(spec_render_children(layout@, cs, grid, columns, (i + 1) as nat, f) == Ok::<Seq<RenderStep>, RenderError>(inner + child_steps));
                                        assert(out@ =~= seq![open] + (inner + child_steps));
                                    }
                                }
                            } else {
                                proof {
                                    let inner = prior->Ok_0;
                                    assert(spec_render_children(layout@, cs, grid, columns, (i + 1) as nat, f) == Ok::<Seq<RenderStep>, RenderError>(inner + child_steps));
                                    assert(out@ =~= seq![open] + (inner + child_steps));
                                }
                            }
                        },
                    }
                    i = i + 1;
                }
                let ghost pre_close = out@;
                out.push(RenderStep::Close);
                proof {
                    assert(i == cs.len());
                    let inner = spec_render_children(layout@, cs, grid, columns, cs.len(), f)->Ok_0;
                    assert(out@ =~= seq![open] + inner + seq![RenderStep::Close]);
                    assert(spec_render(layout@, id@, fuel as nat) == Ok::<Seq<RenderStep>, RenderError>(seq![open] + inner + seq![RenderStep::Close]));
                }
                Ok(out)
            },
        },
    }
}

/// How a step changes the number of open containers.
pub open spec fn step_weight(step: RenderStep) -> int {
    match step {
        RenderStep::OpenHorizontal | RenderStep::OpenVertical | RenderStep::OpenGrid(_) => 1,
        RenderStep::Close => -1,
        _ => 0,
    }
}

/// The number of containers left open after the steps `s`.
pub open spec fn open_count(s: Seq<RenderStep>) -> int
    decreases s.len(),
{
    if s.len() == 0 {
        0
    } else {
        open_count(s.drop_last()) + step_weight(s.last())
    }
}

/// The steps `s` close every container they open and never close one that
/// is not open.
pub open spec fn well_nested(s: Seq<RenderStep>) -> bool {
    &&& open_count(s) == 0
    &&& forall|i: int| 0 <= i <= s.len() ==> open_count(#[trigger] s.take(i)) >= 0
}

proof fn lemma_open_count_add(a: Seq<RenderStep>, b: Seq<RenderStep>)
    ensures
        open_count(a + b) == open_count(a) + open_count(b),
    decreases b.len(),
{
    if b.len() == 0 {
        assert(a + b =~= a);
    } else {
        assert((a + b).drop_last() =~= a + b.drop_last());
        lemma_open_count_add(a, b.drop_last());
    }
}

proof fn lemma_well_nested_add(a: Seq<RenderStep>, b: Seq<RenderStep>)
    requires
        well_nested(a),
        well_nested(b),
    ensures
        well_nested(a + b),
{
    lemma_open_count_add(a, b);
    assert forall|i: int| 0 <= i <= (a + b).len() implies open_count(#[trigger] (a + b).take(i)) >= 0 by {
        if i <= a.len() {
            assert((a + b).take(i) =~= a.take(i));
        } else {
            assert((a + b).take(i) =~= a + b.take(i - a.len()));
            lemma_open_count_add(a, b.take(i - a.len()));
            assert(open_count(b.take(i - a.len())) >= 0);
        }
    }
}

proof fn lemma_well_nested_single(step: RenderStep)
    requires
        step_weight(step) == 0,
    ensures
        well_nested(seq![step]),
{
    let s = seq![step];
    assert(s.drop_last() =~= Seq::<RenderStep>::empty());
    assert(open_count(Seq::<RenderStep>::empty()) == 0);
    assert(s.last() == step);
    assert(open_count(s) == 0);
    assert forall|i: int| 0 <= i <= s.len() implies open_count(#[trigger] s.take(i)) >= 0 by {
        if i == 0 {
            assert(s.take(i) =~= Seq::<RenderStep>::empty());
        } else {
            assert(s.take(i) =~= s);
        }
    }
}

proof fn lemma_well_nested_wrap(open: RenderStep, inner: Seq<RenderStep>)
    requires
        step_weight(open) == 1,
        well_nested(inner),
    ensures
        well_nested(seq![open] + inner + seq![RenderStep::Close]),
{
    let head = seq![open];
    let s = head + inner + seq![RenderStep::Close];
    assert(head.drop_last() =~= Seq::<RenderStep>::empty());
    assert(open_count(Seq::<RenderStep>::empty()) == 0);
    assert(head.last() == open);
    assert(open_count(head) == 1);
    lemma_open_count_add(head, inner);
    assert(s.drop_last() =~= head + inner);
    assert(open_count(s) == 0);
    assert forall|i: int| 0 <= i <= s.len() implies open_count(#[trigger] s.take(i)) >= 0 by {
        if i == 0 {
            assert(s.take(i) =~= Seq::<RenderStep>::empty());
        } else if i <= inner.len() + 1 {
            assert(s.take(i) =~= head + inner.take(i - 1));
            lemma_open_count_add(head, inner.take(i - 1));
            assert(open_count(inner.take(i - 1)) >= 0);
        } else {
            assert(s.take(i) =~= s);
        }
    }
}

proof fn lemma_render_nested(v: LayoutView, id: Seq<char>, fuel: nat)
    ensures
        spec_render(v, id, fuel) matches Ok(s) ==> well_nested(s),
    decreases fuel, 0nat,
{
    if fuel > 0 && v.nodes.dom().contains(id) {
        match v.nodes[id] {
            NodeView::Component { component_type, .. } => {
                lemma_well_nested_single(RenderStep::Component(component_type));
            },
            NodeView::Container { layout_type, children, properties, .. } => {
                let grid = layout_type == LayoutType::Grid;
                let columns = spec_grid_columns(properties);
                lemma_render_children_nested(v, children, grid, columns, children.len(), (fuel - 1) as nat);
                if let Ok(inner) = spec_render_children(v, children, grid, columns, children.len(), (fuel - 1) as nat) {
                    lemma_well_nested_wrap(spec_open_step(layout_type, properties), inner);
                }
            },
        }
    } else if fuel > 0 {
        assert(Seq::<RenderStep>::empty().take(0) =~= Seq::<RenderStep>::empty());
    }
}

proof fn lemma_render_children_nested(
    v: LayoutView,
    children: Seq<Seq<char>>,
    grid: bool,
    columns: usize,
    n: nat,
    fuel: nat,
)
    ensures
        spec_render_children(v, children, grid, columns, n, fuel) matches Ok(s) ==> well_nested(s),
    decreases fuel, n + 1,
{
    if n == 0 {
        assert(Seq::<RenderStep>::empty().take(0) =~= Seq::<RenderStep>::empty());
    } else {
        lemma_render_children_nested(v, children, grid, columns, (n - 1) as nat, fuel);
        lemma_render_nested(v, children[n - 1], fuel);
        if let Ok(before) = spec_render_children(v, children, grid, columns, (n - 1) as nat, fuel) {
            if let Ok(child) = spec_render(v, children[n - 1], fuel) {
                lemma_well_nested_add(before, child);
                if grid && columns != 0 && n % (columns as nat) == 0 {
                    lemma_well_nested_single(RenderStep::EndRow);
                    lemma_well_nested_add(before + child, seq![RenderStep::EndRow]);
                }
            }
        }
    }
}

/// A drawing plan closes every container it opens, in the reverse order of
/// opening, and never closes one that is not open.
pub proof fn law_render_plan_is_well_nested(v: LayoutView, id: Seq<char>, fuel: nat)
    ensures
        spec_render(v, id, fuel) matches Ok(s) ==> well_nested(s),
{
    lemma_render_nested(v, id, fuel);
}

proof fn lemma_render_fuel(v: LayoutView, id: Seq<char>, f: nat, g: nat)
    requires
        f <= g,
    ensures
        spec_render(v, id, f) is Ok ==> spec_render(v, id, g) == spec_render(v, id, f),
    decreases f, 0nat,
{
    if f > 0 && v.nodes.dom().contains(id) {
        if let NodeView::Container { layout_type, children, properties, .. } = v.nodes[id] {
            let grid = layout_type == LayoutType::Grid;
            let columns = spec_grid_columns(properties);
            lemma_render_children_fuel(v, children, grid, columns, children.len(), (f - 1) as nat, (g - 1) as nat);
        }
    }
}

proof fn lemma_render_children_fuel(
    v: LayoutView,
    children: Seq<Seq<char>>,
    grid: bool,
    columns: usize,
    n: nat,
    f: nat,
    g: nat,
)
    requires
        f <= g,
    ensures
        spec_render_children(v, children, grid, columns, n, f) is Ok ==> spec_render_children(v, children, grid, columns, n, g)
            == spec_render_children(v, children, grid, columns, n, f),
    decreases f, n + 1,
{
    if n > 0 {
        lemma_render_children_fuel(v, children, grid, columns, (n - 1) as nat, f, g);
        lemma_render_fuel(v, children[n - 1], f, g);
    }
}

/// Allowing containers to nest deeper does not change a drawing plan that
/// was found with a smaller allowance.
pub proof fn law_render_plan_stable_under_more_fuel(v: LayoutView, id: Seq<char>, f: nat, g: nat)
    requires
        f <= g,
    ensures
        spec_render(v, id, f) is Ok ==> spec_render(v, id, g) == spec_render(v, id, f),
{
    lemma_render_fuel(v, id, f, g);
}

/// `path` is a chain of distinct ids of nodes of `v`, whose nodes are finitely many.
pub open spec fn valid_path(v: LayoutView, path: Seq<Seq<char>>) -> bool {
    &&& v.nodes.dom().finite()
    &&& path.no_duplicates()
    &&& forall|j: int| 0 <= j < path.len() ==> v.nodes.dom().contains(#[trigger] path[j])
}

/// A chain of distinct node ids is no longer than the number of nodes.
proof fn lemma_path_bound(v: LayoutView, path: Seq<Seq<char>>)
    requires
        valid_path(v, path),
    ensures
        path.len() <= v.nodes.dom().len(),
{
    path.unique_seq_to_set();
    assert(path.to_set().subset_of(v.nodes.dom())) by {
        assert forall|x: Seq<char>| path.to_set().contains(x) implies v.nodes.dom().contains(x) by {
            let j = choose|j: int| 0 <= j < path.len() && path[j] == x;
            assert(v.nodes.dom().contains(path[j]));
        }
    }
    vstd::set_lib::lemma_len_subset(path.to_set(), v.nodes.dom());
}

/// A chain of distinct node ids is no longer than the number of nodes, and
/// shorter when some node is not on it.
pub proof fn lemma_path_len(v: LayoutView, path: Seq<Seq<char>>, k: Seq<char>)
    requires
        valid_path(v, path),
    ensures
        path.len() <= v.nodes.dom().len(),
        v.nodes.dom().contains(k) && !path.contains(k) ==> path.len() < v.nodes.dom().len(),
{
    lemma_path_bound(v, path);
    if v.nodes.dom().contains(k) && !path.contains(k) {
        lemma_push_valid(v, path, k);
        lemma_path_bound(v, path.push(k));
    }
}

/// No container reachable from `k` lies inside itself, where `path` lists
/// the containers already entered on the way to `k`.
pub open spec fn no_cycle_from(v: LayoutView, k: Seq<char>, path: Seq<Seq<char>>) -> bool
    decreases v.nodes.dom().len() - path.len(), 0int,
    when valid_path(v, path)
{
    if !v.nodes.dom().contains(k) {
        true
    } else if path.contains(k) {
        false
    } else {
        match v.nodes[k] {
            NodeView::Component { .. } => true,
            NodeView::Container { children, .. } => {
                proof {
                    lemma_path_len(v, path, k);
                }
                no_cycle_among(v, children, children.len(), path.push(k))
            },
        }
    }
}

/// No container reachable from the first `n` of `children` lies inside
/// itself, where `path` lists the containers already entered.
pub open spec fn no_cycle_among(v: LayoutView, children: Seq<Seq<char>>, n: nat, path: Seq<Seq<char>>) -> bool
    decreases v.nodes.dom().len() - path.len(), n + 1,
    when valid_path(v, path)
{
    if n == 0 {
        true
    } else {
        no_cycle_among(v, children, (n - 1) as nat, path) && no_cycle_from(v, children[n - 1], path)
    }
}

proof fn lemma_push_valid(v: LayoutView, path: Seq<Seq<char>>, k: Seq<char>)
    requires
        valid_path(v, path),
        v.nodes.dom().contains(k),
        !path.contains(k),
    ensures
        valid_path(v, path.push(k)),
{
    let longer = path.push(k);
    assert forall|a: int, b: int| 0 <= a < longer.len() && 0 <= b < longer.len() && a != b implies longer[a]
        != longer[b] by {
        if a < path.len() && b < path.len() {
        } else if a == path.len() {
            assert(longer[b] == path[b]);
        } else {
            assert(longer[a] == path[a]);
        }
    }
    assert forall|j: int| 0 <= j < longer.len() implies v.nodes.dom().contains(#[trigger] longer[j]) by {
        if j < path.len() {
            assert(longer[j] == path[j]);
        }
    }
}

proof fn lemma_acyclic_render(v: LayoutView, k: Seq<char>, path: Seq<Seq<char>>, fuel: nat)
    requires
        valid_path(v, path),
        no_cycle_from(v, k, path),
        fuel >= v.nodes.dom().len() - path.len() + 1,
    ensures
        spec_render(v, k, fuel) != Err::<Seq<RenderStep>, RenderError>(RenderError::TooDeep),
    decreases fuel, 0nat,
{
    lemma_path_len(v, path, k);
    if v.nodes.dom().contains(k) {
        if let NodeView::Container { layout_type, children, properties, .. } = v.nodes[k] {
            lemma_push_valid(v, path, k);
            lemma_acyclic_render_children(
                v,
                children,
                layout_type == LayoutType::Grid,
                spec_grid_columns(properties),
                children.len(),
                path.push(k),
                (fuel - 1) as nat,
            );
        }
    }
}

proof fn lemma_acyclic_render_children(
    v: LayoutView,
    children: Seq<Seq<char>>,
    grid: bool,
    columns: usize,
    n: nat,
    path: Seq<Seq<char>>,
    fuel: nat,
)
    requires
        valid_path(v, path),
        no_cycle_among(v, children, n, path),
        fuel >= v.nodes.dom().len() - path.len() + 1,
    ensures
        spec_render_children(v, children, grid, columns, n, fuel) != Err::<Seq<RenderStep>, RenderError>(
            RenderError::TooDeep,
        ),
    decreases fuel, n + 1,
{
    if n > 0 {
        lemma_acyclic_render_children(v, children, grid, columns, (n - 1) as nat, path, fuel);
        lemma_acyclic_render(v, children[n - 1], path, fuel);
    }
}

/// On a layout with no container reachable from `id` that lies inside
/// itself, one more than the number of nodes is enough nesting for the
/// drawing plan of `id`: it never fails as too deep.
pub proof fn law_render_plan_node_count_fuel_suffices(v: LayoutView, id: Seq<char>)
    requires
        v.nodes.dom().finite(),
        no_cycle_from(v, id, Seq::empty()),
    ensures
        spec_render(v, id, v.nodes.dom().len() + 1) != Err::<Seq<RenderStep>, RenderError>(RenderError::TooDeep),
{
    lemma_acyclic_render(v, id, Seq::empty(), v.nodes.dom().len() + 1);
}

/// Setting a container's properties changes nothing but those properties:
/// the container keeps its id, layout type and children, every other node
/// and the root stay as they were, and the new properties are `p`.
pub proof fn law_set_container_properties_keeps_the_rest(v: LayoutView, id: Seq<char>, p: ContainerProperties)
    ensures
        spec_set_container_properties(v, id, p) matches Some(w) ==> {
            &&& v.nodes[id] matches NodeView::Container { id: i0, layout_type: t0, children: c0, .. }
            &&& w.nodes[id] == (NodeView::Container { id: i0, layout_type: t0, children: c0, properties: Some(p) })
            &&& w.nodes.dom() == v.nodes.dom()
            &&& forall|k: Seq<char>| k != id && v.nodes.dom().contains(k) ==> #[trigger] w.nodes[k] == v.nodes[k]
            &&& w.root_id == v.root_id
        },
{
    if let Some(w) = spec_set_container_properties(v, id, p) {
        assert(w.nodes.dom() =~= v.nodes.dom());
    }
}

/// Setting a component's properties changes nothing but those properties:
/// the component keeps its id and type, every other node and the root stay
/// as they were, and the new properties are `p`.
pub proof fn law_set_component_properties_keeps_the_rest(v: LayoutView, id: Seq<char>, p: ComponentProperties)
    ensures
        spec_set_component_properties(v, id, p) matches Some(w) ==> {
            &&& v.nodes[id] matches NodeView::Component { id: i0, component_type: t0, .. }
            &&& w.nodes[id] == (NodeView::Component { id: i0, component_type: t0, properties: Some(p) })
            &&& w.nodes.dom() == v.nodes.dom()
            &&& forall|k: Seq<char>| k != id && v.nodes.dom().contains(k) ==> #[trigger] w.nodes[k] == v.nodes[k]
            &&& w.root_id == v.root_id
        },
{
    if let Some(w) = spec_set_component_properties(v, id, p) {
        assert(w.nodes.dom() =~= v.nodes.dom());
    }
}

/// A component node of any type is drawn as exactly one step that draws a
/// component of that type; an id that names no node draws nothing; with no
/// nesting allowance left nothing can be drawn.
pub proof fn law_render_component_and_missing(v: LayoutView, id: Seq<char>, fuel: nat)
    ensures
        fuel == 0 ==> spec_render(v, id, fuel) == Err::<Seq<RenderStep>, RenderError>(RenderError::TooDeep),
        fuel > 0 && !v.nodes.dom().contains(id) ==> spec_render(v, id, fuel) == Ok::<Seq<RenderStep>, RenderError>(
            Seq::empty(),
        ),
        fuel > 0 && v.nodes.dom().contains(id) ==> (v.nodes[id] matches NodeView::Component { component_type: t, .. }
            ==> spec_render(v, id, fuel) == Ok::<Seq<RenderStep>, RenderError>(seq![RenderStep::Component(t)])),
{
}

/// The position, counted from zero, of the `k`-th child (counted from one)
/// among the steps that draw the children of a grid of `c` columns: each
/// earlier full row adds one row-end step.
pub open spec fn grid_slot(k: int, c: int) -> int {
    k - 1 + (k - 1) / c
}

/// The type of the component that `k` names in `v`.
pub open spec fn component_type_of(v: LayoutView, k: Seq<char>) -> ComponentType {
    v.nodes[k]->Component_component_type
}

proof fn lemma_div_step(k: int, c: int)
    requires
        k >= 1,
        c > 0,
    ensures
        k / c == (k - 1) / c + (if k % c == 0 { 1int } else { 0int }),
        (k - 1) / c <= k / c,
{
    let q = (k - 1) / c;
    let r = (k - 1) % c;
    vstd::arithmetic::div_mod::lemma_fundamental_div_mod(k - 1, c);
    vstd::arithmetic::div_mod::lemma_mod_pos_bound(k - 1, c);
    assert(c * q == q * c) by (nonlinear_arith);
    if r + 1 < c {
        vstd::arithmetic::div_mod::lemma_fundamental_div_mod_converse(k, c, q, r + 1);
    } else {
        assert(k == (q + 1) * c + 0) by (nonlinear_arith)
            requires
                k - 1 == q * c + r,
                r + 1 == c,
        ;
        vstd::arithmetic::div_mod::lemma_fundamental_div_mod_converse(k, c, q + 1, 0);
    }
}

/// The steps `b` draw the first `m` of `children`, all components, as the
/// rows of a grid of `c` columns.
spec fn grid_shape(v: LayoutView, children: Seq<Seq<char>>, c: int, m: int, b: Seq<RenderStep>) -> bool {
    &&& b.len() == m + m / c
    &&& forall|k: int|
        1 <= k <= m ==> #[trigger] grid_slot(k, c) < b.len() && b[grid_slot(k, c)] == RenderStep::Component(
            component_type_of(v, children[k - 1]),
        )
    &&& forall|k: int|
        1 <= k <= m ==> ((k % c == 0) <==> (#[trigger] grid_slot(k, c) + 1 < b.len() && b[grid_slot(k, c) + 1]
            == RenderStep::EndRow))
}

proof fn lemma_grid_body(v: LayoutView, children: Seq<Seq<char>>, c: usize, m: nat, fuel: nat)
    requires
        c > 0,
        fuel >= 1,
        m <= children.len(),
        forall|i: int|
            0 <= i < children.len() ==> v.nodes.dom().contains(#[trigger] children[i]) && v.nodes[children[i]] is Component,
    ensures
        spec_render_children(v, children, true, c, m, fuel) matches Ok(b) && grid_shape(v, children, c as int, m as int, b),
    decreases m,
{
    let ci = c as int;
    if m == 0 {
        vstd::arithmetic::div_mod::lemma_fundamental_div_mod_converse(0, ci, 0, 0);
    } else {
        lemma_grid_body(v, children, c, (m - 1) as nat, fuel);
        let b0 = spec_render_children(v, children, true, c, (m - 1) as nat, fuel)->Ok_0;
        let mi = m as int;
        let ch = children[mi - 1];
        assert(v.nodes.dom().contains(ch) && v.nodes[ch] is Component);
        let t = component_type_of(v, ch);
        assert(spec_render(v, ch, fuel) == Ok::<Seq<RenderStep>, RenderError>(seq![RenderStep::Component(t)]));
        lemma_div_step(mi, ci);
        let len0 = b0.len() as int;
        assert(len0 == mi - 1 + (mi - 1) / ci);
        let b = if m % (c as nat) == 0 {
            b0 + seq![RenderStep::Component(t)] + seq![RenderStep::EndRow]
        } else {
            b0 + seq![RenderStep::Component(t)]
        };
        assert(m % (c as nat) == mi % ci);
        assert(spec_render_children(v, children, true, c, m, fuel) == Ok::<Seq<RenderStep>, RenderError>(b));
        assert(b.len() == mi + mi / ci);
        assert(b[len0] == RenderStep::Component(t));
        assert forall|k: int| 1 <= k <= mi implies #[trigger] grid_slot(k, ci) < b.len() && b[grid_slot(k, ci)]
            == RenderStep::Component(component_type_of(v, children[k - 1])) by {
            if k < mi {
                vstd::arithmetic::div_mod::lemma_div_is_ordered(k - 1, mi - 1, ci);
                assert(grid_slot(k, ci) < len0);
                assert(b[grid_slot(k, ci)] == b0[grid_slot(k, ci)]);
            } else {
                assert(grid_slot(k, ci) == len0);
            }
        }
        assert forall|k: int| 1 <= k <= mi implies ((k % ci == 0) <==> (#[trigger] grid_slot(k, ci) + 1 < b.len()
            && b[grid_slot(k, ci) + 1] == RenderStep::EndRow)) by {
            if k < mi {
                vstd::arithmetic::div_mod::lemma_div_is_ordered(k - 1, mi - 1, ci);
                let idx = grid_slot(k, ci) + 1;
                assert(idx <= len0);
                if idx < len0 {
                    assert(b[idx] == b0[idx]);
                } else {
                    assert(b[idx] == RenderStep::Component(t));
                }
            } else {
                assert(grid_slot(k, ci) + 1 == len0 + 1);
                if mi % ci == 0 {
                    assert(b[len0 + 1] == RenderStep::EndRow);
                }
            }
        }
    }
}

/// In a grid container of `c` columns (the columns set in its properties,
/// else two) whose children are all components, the plan opens the grid
/// with `c` columns, draws the `k`-th child's component at position
/// `grid_slot(k, c) + 1`, ends a row right after it exactly when `c`
/// divides `k`, and closes the grid: `n + n / c + 2` steps for `n` children.
pub proof fn law_grid_rows(
    v: LayoutView,
    id: Seq<char>,
    children: Seq<Seq<char>>,
    properties: Option<ContainerProperties>,
    c: usize,
    fuel: nat,
)
    requires
        v.nodes.dom().contains(id),
        v.nodes[id] matches NodeView::Container { layout_type: LayoutType::Grid, children: ch, properties: pr, .. }
            && ch == children && pr == properties,
        properties == Some(ContainerProperties { columns: Some(c) }) || (c == 2 && (properties is None || properties
            == Some(ContainerProperties { columns: None }))),
        c > 0,
        fuel >= 2,
        forall|i: int|
            0 <= i < children.len() ==> v.nodes.dom().contains(#[trigger] children[i]) && v.nodes[children[i]] is Component,
    ensures
        spec_render(v, id, fuel) matches Ok(s) && {
            let n = children.len() as int;
            &&& s.len() == n + n / (c as int) + 2
            &&& s[0] == RenderStep::OpenGrid(c)
            &&& s[s.len() - 1] == RenderStep::Close
            &&& forall|k: int|
                1 <= k <= n ==> s[#[trigger] grid_slot(k, c as int) + 1] == RenderStep::Component(
                    component_type_of(v, children[k - 1]),
                )
            &&& forall|k: int|
                1 <= k <= n ==> ((k % (c as int) == 0) <==> s[#[trigger] grid_slot(k, c as int) + 2]
                    == RenderStep::EndRow)
        },
{
    let f = (fuel - 1) as nat;
    lemma_grid_body(v, children, c, children.len(), f);
    let b = spec_render_children(v, children, true, c, children.len(), f)->Ok_0;
    assert(spec_grid_columns(properties) == c);
    let s = seq![RenderStep::OpenGrid(c)] + b + seq![RenderStep::Close];
    assert(spec_render(v, id, fuel) == Ok::<Seq<RenderStep>, RenderError>(s));
    let ci = c as int;
    let n = children.len() as int;
    assert forall|k: int| 1 <= k <= n implies s[#[trigger] grid_slot(k, ci) + 1] == RenderStep::Component(
        component_type_of(v, children[k - 1]),
    ) by {
        assert(grid_slot(k, ci) < b.len());
        assert(s[grid_slot(k, ci) + 1] == b[grid_slot(k, ci)]);
    }
    assert forall|k: int| 1 <= k <= n implies ((k % ci == 0) <==> s[#[trigger] grid_slot(k, ci) + 2]
        == RenderStep::EndRow) by {
        assert(grid_slot(k, ci) < b.len());
        if grid_slot(k, ci) + 1 < b.len() {
            assert(s[grid_slot(k, ci) + 2] == b[grid_slot(k, ci) + 1]);
        } else {
            assert(s[grid_slot(k, ci) + 2] == RenderStep::Close);
        }
    }
}

} // verus!
