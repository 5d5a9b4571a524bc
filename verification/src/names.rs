//! Qualified identities: every declared construct is named by a subgraph
//! (a namespace partition of the declarative schema) together with a name
//! local to that subgraph, so the same local name may be reused by
//! different subgraphs without collision.

use vstd::prelude::*;

verus! {

/// A globally unique identity for a declared construct.
#[derive(Debug)]
pub struct QualifiedName {
    pub subgraph: String,
    pub name: String,
}

/// Mathematical model of a qualified name: both components as character
/// sequences.
#[verifier::ext_equal]
pub ghost struct QualifiedNameView {
    pub subgraph: Seq<char>,
    pub name: Seq<char>,
}

impl View for QualifiedName {
    type V = QualifiedNameView;

    open spec fn view(&self) -> QualifiedNameView {
        QualifiedNameView { subgraph: self.subgraph@, name: self.name@ }
    }
}

impl DeepView for QualifiedName {
    type V = QualifiedNameView;

    open spec fn deep_view(&self) -> QualifiedNameView {
        self@
    }
}

impl QualifiedName {
    /// Qualify a local name with the subgraph that declared it.
    pub fn new(subgraph: &str, name: &str) -> (r: QualifiedName)
        ensures
            r@ == (QualifiedNameView { subgraph: subgraph@, name: name@ }),
    {
        QualifiedName { subgraph: String::from_str(subgraph), name: String::from_str(name) }
    }
}

impl Clone for QualifiedName {
    fn clone(&self) -> (r: Self)
        ensures
            r == *self,
    {
        QualifiedName { subgraph: self.subgraph.clone(), name: self.name.clone() }
    }
}

impl PartialEq for QualifiedName {
    fn eq(&self, other: &Self) -> (r: bool)
        ensures
            r == (self@ == other@),
    {
        let r = self.subgraph == other.subgraph && self.name == other.name;
        proof {
            if r {
                assert(self@ =~= other@);
            }
        }
        r
    }
}

impl vstd::std_specs::cmp::PartialEqSpecImpl for QualifiedName {
    open spec fn obeys_eq_spec() -> bool {
        true
    }

    open spec fn eq_spec(&self, other: &Self) -> bool {
        self@ == other@
    }
}

impl Eq for QualifiedName {}

} // verus!
