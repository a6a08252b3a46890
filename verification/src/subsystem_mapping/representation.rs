//! The renderings of a graph that readers are served.

use vstd::prelude::*;
use vstd::std_specs::cmp::PartialEqSpecImpl;

verus! {

/// A graph as structured data and as an image, both as text.
#[derive(Debug)]
pub struct GraphRepresentation {
    json: String,
    svg: String,
}

/// What a [`GraphRepresentation`] says.
pub struct RepresentationModel {
    pub json: Seq<char>,
    pub svg: Seq<char>,
}

impl View for GraphRepresentation {
    type V = RepresentationModel;

    closed spec fn view(&self) -> RepresentationModel {
        RepresentationModel { json: self.json@, svg: self.svg@ }
    }
}

impl PartialEq for GraphRepresentation {
    fn eq(&self, other: &GraphRepresentation) -> (same: bool) {
        self.json == other.json && self.svg == other.svg
    }
}

impl PartialEqSpecImpl for GraphRepresentation {
    open spec fn obeys_eq_spec() -> bool {
        true
    }

    open spec fn eq_spec(&self, other: &GraphRepresentation) -> bool {
        self@ == other@
    }
}

impl Eq for GraphRepresentation {

}

impl GraphRepresentation {
    /// The two renderings of one graph, kept together.
    pub fn new(json: String, svg: String) -> (representation: GraphRepresentation)
        ensures
            representation@ == (RepresentationModel { json: json@, svg: svg@ }),
    {
        GraphRepresentation { json, svg }
    }

    /// A copy of the structured data.
    pub fn json(&self) -> (json: String)
        ensures
            json@ == self@.json,
    {
        self.json.clone()
    }

    /// A copy of the image.
    pub fn svg(&self) -> (svg: String)
        ensures
            svg@ == self@.svg,
    {
        self.svg.clone()
    }
}

} // verus!
