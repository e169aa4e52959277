//! Processing graphs as plain data.
//!
//! A [`GraphPlan`] lists the nodes of a graph, with the settings each one is
//! created with, and the links between them. It says everything that is
//! needed to bring the graph up, so that whoever does so decides nothing.

use vstd::prelude::*;

use crate::camera::configuration::MultiviewMode;

verus! {

/// The value of a node's setting.
#[derive(PartialEq, Eq, Debug)]
pub enum Value {
    Int(i32),
    Bool(bool),
    /// A string that is handed over as it is.
    Text(String),
    /// A textual form that the node parses into the setting's own type.
    Parsed(String),
    /// Half of the number whose IEEE 754 binary32 encoding is `bits`, negated
    /// where `mirrored` is set.
    HalfOffset { bits: u32, mirrored: bool },
    Multiview(MultiviewMode),
}

pub enum ValueView {
    Int(i32),
    Bool(bool),
    Text(Seq<char>),
    Parsed(Seq<char>),
    HalfOffset { bits: u32, mirrored: bool },
    Multiview(MultiviewMode),
}

impl DeepView for Value {
    type V = ValueView;

    open spec fn deep_view(&self) -> ValueView {
        match *self {
            Value::Int(number) => ValueView::Int(number),
            Value::Bool(flag) => ValueView::Bool(flag),
            Value::Text(text) => ValueView::Text(text@),
            Value::Parsed(text) => ValueView::Parsed(text@),
            Value::HalfOffset { bits, mirrored } => ValueView::HalfOffset { bits, mirrored },
            Value::Multiview(mode) => ValueView::Multiview(mode),
        }
    }
}

/// One setting of a node: its name and the value to give it.
#[derive(PartialEq, Eq, Debug)]
pub struct Property {
    pub name: String,
    pub value: Value,
}

pub struct PropertyView {
    pub name: Seq<char>,
    pub value: ValueView,
}

impl DeepView for Property {
    type V = PropertyView;

    open spec fn deep_view(&self) -> PropertyView {
        PropertyView { name: self.name@, value: self.value.deep_view() }
    }
}

/// One processing stage: the factory that makes it, the name it is given, if
/// any, and its settings in the order in which they are applied.
#[derive(PartialEq, Eq, Debug)]
pub struct Node {
    pub factory: String,
    pub name: Option<String>,
    pub properties: Vec<Property>,
}

pub struct NodeView {
    pub factory: Seq<char>,
    pub name: Option<Seq<char>>,
    pub properties: Seq<PropertyView>,
}

impl DeepView for Node {
    type V = NodeView;

    open spec fn deep_view(&self) -> NodeView {
        NodeView {
            factory: self.factory@,
            name: match self.name {
                Some(name) => Some(name@),
                None => None,
            },
            properties: self.properties.deep_view(),
        }
    }
}

/// A node of the given factory, unnamed and with no settings.
pub open spec fn element(factory: Seq<char>) -> NodeView {
    NodeView { factory, name: None, properties: Seq::empty() }
}

impl NodeView {
    /// This node under the given name.
    pub open spec fn named(self, name: Seq<char>) -> NodeView {
        NodeView { name: Some(name), ..self }
    }

    /// This node with one more setting.
    pub open spec fn with(self, name: Seq<char>, value: ValueView) -> NodeView {
        NodeView { properties: self.properties.push(PropertyView { name, value }), ..self }
    }
}

impl NodeView {
    /// This node after its setting `name` was given `value`. A node that has
    /// no such setting is left as it is.
    pub open spec fn set(self, name: Seq<char>, value: ValueView) -> NodeView {
        NodeView {
            properties: self.properties.map_values(
                |property: PropertyView|
                    if property.name == name {
                        PropertyView { name, value }
                    } else {
                        property
                    },
            ),
            ..self
        }
    }
}

impl Node {
    /// A node of the given factory, unnamed and with no settings.
    pub fn new(factory: &str) -> (node: Node)
        ensures
            node.deep_view() == element(factory@),
    {
        let node = Node { factory: String::from_str(factory), name: None, properties: Vec::new() };
        assert(node.properties.deep_view() =~= Seq::empty());
        node
    }

    /// This node under the given name.
    pub fn named(self, name: &str) -> (node: Node)
        ensures
            node.deep_view() == self.deep_view().named(name@),
    {
        Node { factory: self.factory, name: Some(String::from_str(name)), properties: self.properties }
    }

    /// This node with one more setting.
    pub fn with(self, name: &str, value: Value) -> (node: Node)
        ensures
            node.deep_view() == self.deep_view().with(name@, value.deep_view()),
    {
        let Node { factory, name: label, mut properties } = self;
        let ghost before = properties.deep_view();
        let property = Property { name: String::from_str(name), value };
        properties.push(property);
        assert(properties.deep_view() =~= before.push(property.deep_view()));
        Node { factory, name: label, properties }
    }

    /// This node with one more setting, whose value the node parses from
    /// `text`.
    pub fn with_parsed(self, name: &str, text: &str) -> (node: Node)
        ensures
            node.deep_view() == self.deep_view().with(name@, ValueView::Parsed(text@)),
    {
        self.with(name, Value::Parsed(String::from_str(text)))
    }
}

/// The value of one field of a stream description.
#[derive(PartialEq, Eq, Debug)]
pub enum CapsValue {
    Int(i32),
    Text(String),
    Fraction(i32, i32),
}

pub enum CapsValueView {
    Int(i32),
    Text(Seq<char>),
    Fraction(i32, i32),
}

impl DeepView for CapsValue {
    type V = CapsValueView;

    open spec fn deep_view(&self) -> CapsValueView {
        match *self {
            CapsValue::Int(number) => CapsValueView::Int(number),
            CapsValue::Text(text) => CapsValueView::Text(text@),
            CapsValue::Fraction(numerator, denominator) => CapsValueView::Fraction(
                numerator,
                denominator,
            ),
        }
    }
}

/// One field of a stream description.
#[derive(PartialEq, Eq, Debug)]
pub struct CapsField {
    pub name: String,
    pub value: CapsValue,
}

pub struct CapsFieldView {
    pub name: Seq<char>,
    pub value: CapsValueView,
}

impl DeepView for CapsField {
    type V = CapsFieldView;

    open spec fn deep_view(&self) -> CapsFieldView {
        CapsFieldView { name: self.name@, value: self.value.deep_view() }
    }
}

/// A stream description that restricts what may flow over a link.
#[derive(PartialEq, Eq, Debug)]
pub enum Caps {
    /// The description in its textual form, to be parsed.
    Parsed(String),
    /// The description field by field.
    Fields { media_type: String, fields: Vec<CapsField> },
}

pub enum CapsView {
    Parsed(Seq<char>),
    Fields { media_type: Seq<char>, fields: Seq<CapsFieldView> },
}

impl DeepView for Caps {
    type V = CapsView;

    open spec fn deep_view(&self) -> CapsView {
        match *self {
            Caps::Parsed(text) => CapsView::Parsed(text@),
            Caps::Fields { media_type, fields } => CapsView::Fields {
                media_type: media_type@,
                fields: fields.deep_view(),
            },
        }
    }
}

/// A link from the output of one node to the input of another, both given by
/// their place in the plan's list of nodes.
#[derive(PartialEq, Eq, Debug)]
pub struct Link {
    pub from: usize,
    pub to: usize,
    pub filter: Option<Caps>,
}

pub struct LinkView {
    pub from: usize,
    pub to: usize,
    pub filter: Option<CapsView>,
}

impl DeepView for Link {
    type V = LinkView;

    open spec fn deep_view(&self) -> LinkView {
        LinkView {
            from: self.from,
            to: self.to,
            filter: match self.filter {
                Some(caps) => Some(caps.deep_view()),
                None => None,
            },
        }
    }
}

/// A link that lets anything through.
pub open spec fn plain_link(from: usize, to: usize) -> LinkView {
    LinkView { from, to, filter: None }
}

/// A link that lets through only what `caps` describes.
pub open spec fn filtered_link(from: usize, to: usize, caps: CapsView) -> LinkView {
    LinkView { from, to, filter: Some(caps) }
}

/// A whole graph: its nodes, and its links in the order in which they are
/// made.
#[derive(PartialEq, Eq, Debug)]
pub struct GraphPlan {
    pub nodes: Vec<Node>,
    pub links: Vec<Link>,
}

pub struct GraphPlanView {
    pub nodes: Seq<NodeView>,
    pub links: Seq<LinkView>,
}

impl View for GraphPlan {
    type V = GraphPlanView;

    open spec fn view(&self) -> GraphPlanView {
        GraphPlanView { nodes: self.nodes.deep_view(), links: self.links.deep_view() }
    }
}

/// A change of one setting of a node of a running graph, the node given by
/// its place in the graph's plan.
#[derive(PartialEq, Eq, Debug)]
pub struct Update {
    pub node: usize,
    pub property: Property,
}

pub struct UpdateView {
    pub node: usize,
    pub property: PropertyView,
}

impl DeepView for Update {
    type V = UpdateView;

    open spec fn deep_view(&self) -> UpdateView {
        UpdateView { node: self.node, property: self.property.deep_view() }
    }
}

impl Update {
    /// The change that gives the setting `name` of the node in place `node`
    /// the given value.
    pub fn new(node: usize, name: &str, value: Value) -> (update: Update)
        ensures
            update.deep_view() == (UpdateView {
                node,
                property: PropertyView { name: name@, value: value.deep_view() },
            }),
    {
        Update { node, property: Property { name: String::from_str(name), value } }
    }
}

impl GraphPlanView {
    /// The graph after one change was applied to it. A change to a node that
    /// the graph does not have changes nothing.
    pub open spec fn updated(self, update: UpdateView) -> GraphPlanView {
        if update.node < self.nodes.len() {
            GraphPlanView {
                nodes: self.nodes.update(
                    update.node as int,
                    self.nodes[update.node as int].set(
                        update.property.name,
                        update.property.value,
                    ),
                ),
                ..self
            }
        } else {
            self
        }
    }

    /// The graph after the changes were applied to it, first to last.
    pub open spec fn updated_all(self, updates: Seq<UpdateView>) -> GraphPlanView
        decreases updates.len(),
    {
        if updates.len() == 0 {
            self
        } else {
            self.updated(updates[0]).updated_all(updates.skip(1))
        }
    }

    /// Every link joins two different nodes of the plan.
    pub open spec fn well_linked(self) -> bool {
        forall|i: int|
            0 <= i < self.links.len() ==> {
                &&& (#[trigger] self.links[i]).from < self.nodes.len()
                &&& self.links[i].to < self.nodes.len()
                &&& self.links[i].from != self.links[i].to
            }
    }

    /// Whether some link starts or ends at the node in place `node`.
    pub open spec fn touches(self, node: int) -> bool {
        exists|i: int|
            0 <= i < self.links.len() && ((#[trigger] self.links[i]).from == node
                || self.links[i].to == node)
    }

    /// No node stands alone.
    pub open spec fn connected(self) -> bool {
        forall|node: int| 0 <= node < self.nodes.len() ==> self.touches(node)
    }
}

impl GraphPlan {
    /// The plan of a graph with nothing in it.
    pub fn new() -> (plan: GraphPlan)
        ensures
            plan@.nodes == Seq::<NodeView>::empty(),
            plan@.links == Seq::<LinkView>::empty(),
    {
        let plan = GraphPlan { nodes: Vec::new(), links: Vec::new() };
        assert(plan.nodes.deep_view() =~= Seq::empty());
        assert(plan.links.deep_view() =~= Seq::empty());
        plan
    }

    /// Adds a node and says at which place it stands.
    pub fn add(&mut self, node: Node) -> (place: usize)
        ensures
            place == old(self)@.nodes.len(),
            final(self)@.nodes == old(self)@.nodes.push(node.deep_view()),
            final(self)@.links == old(self)@.links,
    {
        let place = self.nodes.len();
        self.nodes.push(node);
        assert(self.nodes.deep_view() =~= old(self).nodes.deep_view().push(node.deep_view()));
        place
    }

    /// Adds a link that lets anything through.
    pub fn link(&mut self, from: usize, to: usize)
        ensures
            final(self)@.nodes == old(self)@.nodes,
            final(self)@.links == old(self)@.links.push(plain_link(from, to)),
    {
        let link = Link { from, to, filter: None };
        self.links.push(link);
        assert(self.links.deep_view() =~= old(self).links.deep_view().push(link.deep_view()));
    }

    /// Adds a link that lets through only what `caps` describes.
    pub fn link_filtered(&mut self, from: usize, to: usize, caps: Caps)
        ensures
            final(self)@.nodes == old(self)@.nodes,
            final(self)@.links == old(self)@.links.push(
                filtered_link(from, to, caps.deep_view()),
            ),
    {
        let link = Link { from, to, filter: Some(caps) };
        self.links.push(link);
        assert(self.links.deep_view() =~= old(self).links.deep_view().push(link.deep_view()));
    }
}

} // verus!
