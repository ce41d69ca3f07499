//! The accessibility domain: the AX tree and queries over it.
//!
//! AX values carry arbitrary JSON payloads; those stay as opaque
//! `serde_json::Value`s, carried through untouched.

use vstd::prelude::*;
use crate::errors::NoElementFound;
use crate::protocol::types::JsUInt;

verus! {

/// The opaque JSON payload type of AX values.  Relies on serde_json::Value
/// only as a carrier: nothing inside it is read here.
#[verifier::external_type_specification]
#[verifier::external_body]
pub struct ExValue(serde_json::Value);

/// An AX node id.
pub type AXNodeId = String;

/// The kind of an AX value.
pub enum AXValueType {
    Boolean,
    Tristate,
    BooleanOrUndefined,
    Idref,
    IdrefList,
    Integer,
    Node,
    NodeList,
    Number,
    String,
    ComputedString,
    Token,
    TokenList,
    DomRelation,
    Role,
    InternalRole,
    ValueUndefined,
}

/// A node related to an AX value source.
pub struct AXRelatedNode {
    pub backend_dom_node_id: JsUInt,
    pub id_ref: Option<String>,
    pub text: Option<String>,
}

/// Where an AX value came from.
pub enum AXValueSourceType {
    Attribute,
    Implicit,
    Style,
    Contents,
    Placeholder,
    RelatedElement,
}

/// The native markup source of an AX value.
pub enum AXValueNativeSourceType {
    Figcaption,
    Label,
    Labelfor,
    Labelwrapped,
    Legend,
    Tablecaption,
    Title,
    Other,
}

/// One source of an AX value.
pub struct AXValueSource {
    pub source_type: AXValueSourceType,
    pub value: Option<AXValue>,
    pub attribute: Option<String>,
    pub attribute_value: Option<serde_json::Value>,
    pub superseded: Option<bool>,
    pub native_source: Option<AXValueNativeSourceType>,
    pub native_source_value: Option<serde_json::Value>,
    pub invalid: Option<bool>,
    pub invalid_reason: Option<String>,
}

/// A computed AX value.
pub struct AXValue {
    pub value_type: AXValueType,
    pub value: Option<serde_json::Value>,
    pub related_nodes: Option<Vec<AXRelatedNode>>,
    pub sources: Option<Vec<AXValueSource>>,
}

/// The name of an AX property.
pub enum AXPropertyName {
    Busy,
    Disabled,
    Editable,
    Focusable,
    Focused,
    Hidden,
    HiddenRoot,
    Invalid,
    Keyshortcuts,
    Settable,
    Roledescription,
    Live,
    Atomic,
    Relevant,
    Root,
    Autocomplete,
    HasPopup,
    Level,
    Multiselectable,
    Orientation,
    Multiline,
    Readonly,
    Required,
    Valuemin,
    Valuemax,
    Valuetext,
    Checked,
    Expanded,
    Modal,
    Pressed,
    Selected,
    Activedescendant,
    Controls,
    Describedby,
    Details,
    Errormessage,
    Flowto,
    Labelledby,
    Owns,
}

/// One AX property of a node.
pub struct AXProperty {
    pub name: AXPropertyName,
    pub value: AXValue,
}

/// One node of the AX tree.
pub struct AXNode {
    pub node_id: AXNodeId,
    pub ignored: bool,
    pub role: Option<AXValue>,
    pub name: Option<AXValue>,
    pub description: Option<AXValue>,
    pub value: Option<AXValue>,
    pub properties: Option<Vec<AXProperty>>,
    pub parent_id: Option<AXNodeId>,
    pub child_ids: Option<Vec<AXNodeId>>,
    pub backend_dom_node_id: Option<JsUInt>,
    pub frame_id: Option<String>,
}

/// The load-complete event of the AX tree.
pub struct LoadCompleteEvent {
    pub params: LoadCompleteParams,
}

/// Its payload: the new root.
pub struct LoadCompleteParams {
    pub root: AXNode,
}

/// The nodes-updated event of the AX tree.
pub struct NodesUpdatedEvent {
    pub params: NodesUpdatedParams,
}

/// Its payload: the changed nodes.
pub struct NodesUpdatedParams {
    pub nodes: Vec<AXNode>,
}

/// Fetch part of the AX tree around a node.
pub struct GetPartialAXTree {
    pub node_id: Option<JsUInt>,
    pub backend_node_id: Option<JsUInt>,
    pub object_id: Option<String>,
    pub fetch_relatives: Option<bool>,
}

/// The reply: the nodes of the partial tree.
pub struct GetPartialAXTreeReturnObject {
    pub nodes: Vec<AXNode>,
}

/// The method name a [`GetPartialAXTree`] is sent under.
pub fn get_partial_ax_tree_method() -> (r: &'static str)
    ensures
        r@ == "Accessibility.getPartialAXTree"@,
{
    "Accessibility.getPartialAXTree"
}

/// Fetch the whole AX tree.
pub struct GetFullAXTree {
    pub max_depth: Option<JsUInt>,
    pub frame_id: Option<String>,
}

/// The reply: every node.
pub struct GetFullAXTreeReturnObject {
    pub nodes: Vec<AXNode>,
}

/// The method name a [`GetFullAXTree`] is sent under.
pub fn get_full_ax_tree_method() -> (r: &'static str)
    ensures
        r@ == "Accessibility.getFullAXTree"@,
{
    "Accessibility.getFullAXTree"
}

/// Enable the accessibility domain.
pub struct Enable {}

/// The (empty) reply to enabling.
pub struct EnableReturnObject {}

/// The method name an [`Enable`] is sent under.
pub fn enable_method() -> (r: &'static str)
    ensures
        r@ == "Accessibility.enable"@,
{
    "Accessibility.enable"
}

/// Disable the accessibility domain.
pub struct Disable {}

/// The (empty) reply to disabling.
pub struct DisableReturnObject {}

/// The method name a [`Disable`] is sent under.
pub fn disable_method() -> (r: &'static str)
    ensures
        r@ == "Accessibility.disable"@,
{
    "Accessibility.disable"
}

/// Query the AX tree for nodes with a given name and role.
pub struct QueryAXTree {
    pub node_id: Option<JsUInt>,
    pub backend_node_id: Option<JsUInt>,
    pub object_id: Option<String>,
    pub accessible_name: Option<String>,
    pub role: Option<String>,
}

/// The reply: the matching nodes.
pub struct QueryAXTreeReturnObject {
    pub nodes: Vec<AXNode>,
}

/// The method name a [`QueryAXTree`] is sent under.
pub fn query_ax_tree_method() -> (r: &'static str)
    ensures
        r@ == "Accessibility.queryAXTree"@,
{
    "Accessibility.queryAXTree"
}

/// Fetch the root AX node.
pub struct GetRootAXNode {
    pub frame_id: Option<String>,
}

/// The reply: the root.
pub struct GetRootAXNodeReturnObject {
    pub node: AXNode,
}

/// The method name a [`GetRootAXNode`] is sent under.
pub fn get_root_ax_node_method() -> (r: &'static str)
    ensures
        r@ == "Accessibility.getRootAXNode"@,
{
    "Accessibility.getRootAXNode"
}

/// Fetch the children of an AX node.
pub struct GetChildAXNodes {
    pub id: AXNodeId,
    pub frame_id: Option<String>,
}

/// The reply: the children.
pub struct GetChildAXNodesReturnObject {
    pub nodes: Vec<AXNode>,
}

/// The method name a [`GetChildAXNodes`] is sent under.
pub fn get_child_ax_nodes_method() -> (r: &'static str)
    ensures
        r@ == "Accessibility.getChildAXNodes"@,
{
    "Accessibility.getChildAXNodes"
}

/// Fetch an AX node with its ancestors.
pub struct GetAXNodeAndAncestors {
    pub node_id: Option<JsUInt>,
    pub backend_node_id: Option<JsUInt>,
    pub object_id: Option<String>,
}

/// The reply: the node and its ancestors.
pub struct GetAXNodeAndAncestorsReturnObject {
    pub nodes: Vec<AXNode>,
}

/// The method name a [`GetAXNodeAndAncestors`] is sent under.
pub fn get_ax_node_and_ancestors_method() -> (r: &'static str)
    ensures
        r@ == "Accessibility.getAXNodeAndAncestors"@,
{
    "Accessibility.getAXNodeAndAncestors"
}

/// The backing DOM node of the first node a role/name query returned: how
/// an element is found by role.  Absent nodes, or a first node without a
/// backing DOM node, mean the element is not there.
pub fn first_backend_node_id(nodes: &Vec<AXNode>) -> (r: Result<JsUInt, NoElementFound>)
    ensures
        nodes@.len() == 0 ==> r is Err,
        nodes@.len() > 0 ==> match nodes@[0].backend_dom_node_id {
            Some(id) => r == Ok::<JsUInt, NoElementFound>(id),
            None => r is Err,
        },
{
    if nodes.len() == 0 {
        return Err(NoElementFound {});
    }
    match nodes[0].backend_dom_node_id {
        Some(id) => Ok(id),
        None => Err(NoElementFound {}),
    }
}

} // verus!
