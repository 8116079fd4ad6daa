use vstd::prelude::*;
use crate::comfy::str_eq;
use crate::lookup::{lemma_position_absent, lemma_position_at, position};

verus! {

/// The names that the graph model and the mutation engine go by: for each
/// role its backend class, and for each readable preprocessor name the
/// backend's name of that preprocessor. It is made once and only read
/// afterwards.
#[derive(Debug)]
pub struct Registry {
    /// Pairs of a role name and the name of its backend class.
    pub classes: Vec<(String, String)>,
    /// Pairs of a readable preprocessor name and the backend's name.
    pub preprocessors: Vec<(String, String)>,
}

/// The first components of the pairs.
pub open spec fn firsts(pairs: Seq<(String, String)>) -> Seq<Seq<char>> {
    Seq::new(pairs.len(), |i: int| pairs[i].0@)
}

/// The second components of the pairs.
pub open spec fn seconds(pairs: Seq<(String, String)>) -> Seq<Seq<char>> {
    Seq::new(pairs.len(), |i: int| pairs[i].1@)
}

/// What the first pair with the first component `key` holds as its second.
pub open spec fn forward(pairs: Seq<(String, String)>, key: Seq<char>) -> Option<Seq<char>> {
    let i = position(firsts(pairs), key);
    if i < pairs.len() {
        Some(pairs[i].1@)
    } else {
        None
    }
}

/// What the first pair with the second component `key` holds as its first.
pub open spec fn backward(pairs: Seq<(String, String)>, key: Seq<char>) -> Option<Seq<char>> {
    let i = position(seconds(pairs), key);
    if i < pairs.len() {
        Some(pairs[i].0@)
    } else {
        None
    }
}

/// What a looked-up name holds.
pub open spec fn name_view(r: Option<&str>) -> Option<Seq<char>> {
    match r {
        Some(s) => Some(s@),
        None => None,
    }
}

fn find_forward<'a>(pairs: &'a Vec<(String, String)>, key: &str) -> (r: Option<&'a str>)
    ensures
        name_view(r) == forward(pairs@, key@),
{
    let mut i: usize = 0;
    while i < pairs.len()
        invariant
            i <= pairs.len(),
            forall|j: int| 0 <= j < i ==> firsts(pairs@)[j] != key@,
        decreases pairs.len() - i,
    {
        if str_eq(pairs[i].0.as_str(), key) {
            proof {
                lemma_position_at(firsts(pairs@), key@, i as int);
            }
            return Some(pairs[i].1.as_str());
        }
        i += 1;
    }
    proof {
        lemma_position_absent(firsts(pairs@), key@);
    }
    None
}

fn find_backward<'a>(pairs: &'a Vec<(String, String)>, key: &str) -> (r: Option<&'a str>)
    ensures
        name_view(r) == backward(pairs@, key@),
{
    let mut i: usize = 0;
    while i < pairs.len()
        invariant
            i <= pairs.len(),
            forall|j: int| 0 <= j < i ==> seconds(pairs@)[j] != key@,
        decreases pairs.len() - i,
    {
        if str_eq(pairs[i].1.as_str(), key) {
            proof {
                lemma_position_at(seconds(pairs@), key@, i as int);
            }
            return Some(pairs[i].0.as_str());
        }
        i += 1;
    }
    proof {
        lemma_position_absent(seconds(pairs@), key@);
    }
    None
}

impl Registry {
    /// The registry of the given pairs. Where a name stands in several
    /// pairs, the first pair answers for it.
    pub fn new(classes: Vec<(String, String)>, preprocessors: Vec<(String, String)>) -> (r:
        Registry)
        ensures
            r.classes == classes,
            r.preprocessors == preprocessors,
    {
        Registry { classes, preprocessors }
    }

    /// The role that the backend class `class` has.
    pub open spec fn role_of(&self, class: Seq<char>) -> Option<Seq<char>> {
        backward(self.classes@, class)
    }

    /// The backend class of the role `role`.
    pub open spec fn class_of(&self, role: Seq<char>) -> Option<Seq<char>> {
        forward(self.classes@, role)
    }

    /// The backend's name of the preprocessor `name`; `name` itself where the
    /// registry does not list it.
    pub open spec fn preprocessor_of(&self, name: Seq<char>) -> Seq<char> {
        match forward(self.preprocessors@, name) {
            Some(s) => s,
            None => name,
        }
    }
}

/// From a role name to the name of its backend class.
pub fn my_class_map<'a>(registry: &'a Registry, role: &str) -> (r: Option<&'a str>)
    ensures
        name_view(r) == registry.class_of(role@),
{
    find_forward(&registry.classes, role)
}

/// From the name of a backend class to its role name.
pub fn comfy_class_map<'a>(registry: &'a Registry, class: &str) -> (r: Option<&'a str>)
    ensures
        name_view(r) == registry.role_of(class@),
{
    find_backward(&registry.classes, class)
}

/// From a readable preprocessor name to the backend's name of it.
pub fn preprocessor_map<'a>(registry: &'a Registry, name: &str) -> (r: Option<&'a str>)
    ensures
        name_view(r) == forward(registry.preprocessors@, name@),
{
    find_forward(&registry.preprocessors, name)
}

/// The backend's name of the preprocessor `name`; `name` itself where the
/// registry does not list it.
pub fn comfy_preprocessor<'a>(registry: &'a Registry, name: &'a str) -> (r: &'a str)
    ensures
        r@ == registry.preprocessor_of(name@),
{
    match preprocessor_map(registry, name) {
        Some(s) => s,
        None => name,
    }
}

} // verus!
