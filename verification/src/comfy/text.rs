use vstd::prelude::*;
use crate::comfy::{edge_view, EdgeRef};

verus! {

/// Up to four strings; the first is the positive prompt.
#[derive(Debug)]
pub struct TextString {
    pub text: String,
    pub text_b: String,
    pub text_c: String,
    pub text_d: String,
}

/// Joins up to four texts.
#[derive(Debug)]
pub struct TextConcat {
    /// `comma`, `space` or `none`.
    pub delimiter: String,
    pub text1: Option<EdgeRef>,
    /// The tagger's result.
    pub text2: Option<EdgeRef>,
    pub text3: Option<EdgeRef>,
    pub text4: Option<EdgeRef>,
}

impl TextString {
    /// Whether `self` is `before` with the first text set.
    pub open spec fn texted_of(&self, before: &TextString, text: Seq<char>) -> bool {
        &&& self.text@ == text
        &&& *self == (TextString { text: self.text, ..*before })
    }

    /// Sets the first text.
    pub fn set_text(&mut self, text: &str)
        ensures
            final(self).texted_of(old(self), text@),
    {
        self.text = text.to_owned();
    }
}

impl TextConcat {
    /// Whether `self` is `before` with the second text wired to output
    /// `slot` of the node `id`.
    pub open spec fn joined_of(&self, before: &TextConcat, id: Seq<char>, slot: usize) -> bool {
        &&& edge_view(self.text2) == Some((id, slot))
        &&& *self == (TextConcat { text2: self.text2, ..*before })
    }

    /// Wires the second text.
    pub fn set_text2(&mut self, edge: EdgeRef)
        ensures
            final(self).joined_of(old(self), edge.id@, edge.slot),
    {
        self.text2 = Some(edge);
    }
}

} // verus!
