use vstd::prelude::*;

verus! {

#[verifier::external_type_specification]
#[verifier::external_body]
pub struct ExXmlError(roxmltree::Error);

/// One node of a parsed XML document, as the ONVIF logic reads it.
///
/// `id` is the node's identifier in its document, `parent` that of its parent node;
/// `name` and `namespace` are the local name and namespace URI of an element's tag
/// (empty and absent for other nodes); `text` is an element's first child text, or
/// the text of a text or comment node.
#[derive(Clone, Debug)]
pub struct XmlNode {
    pub id: usize,
    pub parent: Option<usize>,
    pub name: String,
    pub namespace: Option<String>,
    pub text: Option<String>,
}

/// The mathematical value of an [`XmlNode`].
pub struct XmlNodeView {
    pub id: usize,
    pub parent: Option<usize>,
    pub name: Seq<char>,
    pub namespace: Option<Seq<char>>,
    pub text: Option<Seq<char>>,
}

/// The text of an optional string.
pub open spec fn opt_text(s: Option<String>) -> Option<Seq<char>> {
    match s {
        Some(t) => Some(t@),
        None => None,
    }
}

impl View for XmlNode {
    type V = XmlNodeView;

    open spec fn view(&self) -> XmlNodeView {
        XmlNodeView {
            id: self.id,
            parent: self.parent,
            name: self.name@,
            namespace: opt_text(self.namespace),
            text: opt_text(self.text),
        }
    }
}

/// The values of a list of nodes.
pub open spec fn nodes_view(nodes: Seq<XmlNode>) -> Seq<XmlNodeView> {
    nodes.map_values(|n: XmlNode| n@)
}

/// What `roxmltree::Document::parse` makes of a text: `None` where it refuses the
/// text, otherwise all nodes of the document (the root node first) in document order.
pub uninterp spec fn xml_document_nodes(text: Seq<char>) -> Option<Seq<XmlNodeView>>;

/// Calls `roxmltree::Document::parse` and lists the document's nodes, walked by
/// `Document::descendants` (document order, root first). Claimed: the outcome is a
/// function of the text alone, named `xml_document_nodes`. The shape of the list
/// (which ids occur, which parents they name) is left to the name.
#[verifier::external_body]
pub(crate) fn parse_xml(text: &str) -> (r: Result<Vec<XmlNode>, roxmltree::Error>)
    ensures
        r is Ok <==> xml_document_nodes(text@) is Some,
        r matches Ok(nodes) ==> xml_document_nodes(text@) == Some(nodes_view(nodes@)),
{
    let doc = roxmltree::Document::parse(text)?;
    Ok(doc.descendants().map(|n| XmlNode {
        id: n.id().get_usize(),
        parent: n.parent().map(|p| p.id().get_usize()),
        name: n.tag_name().name().to_string(),
        namespace: n.tag_name().namespace().map(String::from),
        text: n.text().map(String::from),
    }).collect())
}

} // verus!
