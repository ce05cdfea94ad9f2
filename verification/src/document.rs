use vstd::prelude::*;

verus! {

/// One label declaration as found in the configuration document.  A field is
/// `None` when it is absent from the declaration or is not a string there.
pub struct LabelDecl {
    pub name: Option<String>,
    pub transform: Option<String>,
    pub except_uri: Option<String>,
}

/// One endpoint declaration as found in the configuration document.  A field
/// is `None` when it is absent from the declaration or is not a string there.
pub struct EndpointDecl {
    pub path: Option<String>,
    pub users: Option<String>,
}

/// One top-level section of the configuration document; a document is a
/// sequence of sections, each contributing label and endpoint declarations.
/// An absent `labels` or `endpoints` sequence reads as empty.
pub struct Section {
    pub labels: Vec<LabelDecl>,
    pub endpoints: Vec<EndpointDecl>,
}

} // verus!
