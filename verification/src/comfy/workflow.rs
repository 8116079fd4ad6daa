use vstd::prelude::*;
use crate::comfy::inputs::{Inputs, Shape};
use crate::comfy::node::Node;
use crate::comfy::registry::{comfy_class_map, Registry};
use crate::comfy::{str_eq, NODE_KSAMPLER};
use crate::error::AppError;
use crate::lookup::{
    distinct, lemma_position, lemma_position_absent, lemma_position_at, lemma_position_distinct,
    occurs, position,
};

verus! {

/// Which name of a node is its role key: the name by which the mutation
/// engine finds it. The choice is made once, when the graph is built.
#[derive(Clone, Copy, Debug, PartialEq, Eq, Structural)]
pub enum RoleKeyPolicy {
    /// The display title.
    Title,
    /// The name of the backend class.
    ClassName,
}

/// The role key of a node under a policy.
pub open spec fn role_key(node: Node, policy: RoleKeyPolicy) -> Seq<char> {
    match policy {
        RoleKeyPolicy::Title => node.meta.title@,
        RoleKeyPolicy::ClassName => node.class_type@,
    }
}

/// The role keys of the nodes, in their order.
pub open spec fn role_keys(nodes: Seq<Node>, policy: RoleKeyPolicy) -> Seq<Seq<char>> {
    Seq::new(nodes.len(), |i: int| role_key(nodes[i], policy))
}

/// The ids of the nodes, in their order.
pub open spec fn node_ids(nodes: Seq<Node>) -> Seq<Seq<char>> {
    Seq::new(nodes.len(), |i: int| nodes[i].id@)
}

/// Whether the registry knows the node's class and the payload has the shape
/// that the class's role names.
pub open spec fn class_fits(registry: &Registry, node: Node) -> bool {
    match registry.role_of(node.class_type@) {
        Some(role) => Shape::spec_from_name(role) == Some(node.inputs.spec_shape()),
        None => false,
    }
}

/// Whether node `i` can join the nodes before it: its class fits, and
/// neither its role key nor its id has been seen.
pub open spec fn admissible(
    registry: &Registry,
    policy: RoleKeyPolicy,
    nodes: Seq<Node>,
    i: int,
) -> bool {
    &&& class_fits(registry, nodes[i])
    &&& forall|j: int| 0 <= j < i ==> role_key(nodes[j], policy) != role_key(nodes[i], policy)
    &&& forall|j: int| 0 <= j < i ==> nodes[j].id@ != nodes[i].id@
}

/// Whether `e` is the error that node `i` is refused with: an unknown class
/// is a parse error on the class name; a payload of another shape than the
/// class's is a shape mismatch on the title; a role key seen before is a
/// duplicate role; an id seen before is a parse error on the id.
pub open spec fn refusal(
    registry: &Registry,
    policy: RoleKeyPolicy,
    nodes: Seq<Node>,
    i: int,
    e: AppError,
) -> bool {
    if registry.role_of(nodes[i].class_type@) is None {
        e.is_parse(nodes[i].class_type@)
    } else if !class_fits(registry, nodes[i]) {
        e.is_shape_mismatch(nodes[i].meta.title@)
    } else if exists|j: int| 0 <= j < i && role_key(nodes[j], policy) == role_key(nodes[i], policy) {
        e.is_duplicate_role(role_key(nodes[i], policy))
    } else {
        &&& exists|j: int| 0 <= j < i && nodes[j].id@ == nodes[i].id@
        &&& e.is_parse(nodes[i].id@)
    }
}

/// Whether node `i` is the first that cannot join, and `e` the error that it
/// is refused with.
pub open spec fn first_refused(
    registry: &Registry,
    policy: RoleKeyPolicy,
    nodes: Seq<Node>,
    i: int,
    e: AppError,
) -> bool {
    &&& 0 <= i < nodes.len()
    &&& forall|j: int| 0 <= j < i ==> admissible(registry, policy, nodes, j)
    &&& !admissible(registry, policy, nodes, i)
    &&& refusal(registry, policy, nodes, i, e)
}

/// The graph: its nodes, each found by its role key or by its id. The graph
/// alone owns the nodes; an edge reference names a node by its id.
#[derive(Debug)]
pub struct Workflow {
    pub nodes: Vec<Node>,
    pub policy: RoleKeyPolicy,
}

fn key_of<'a>(node: &'a Node, policy: RoleKeyPolicy) -> (r: &'a str)
    ensures
        r@ == role_key(*node, policy),
{
    match policy {
        RoleKeyPolicy::Title => node.meta.title.as_str(),
        RoleKeyPolicy::ClassName => node.class_type.as_str(),
    }
}

fn key_seen(nodes: &Vec<Node>, policy: RoleKeyPolicy, n: usize, key: &str) -> (r: bool)
    requires
        n <= nodes.len(),
    ensures
        r == exists|j: int| 0 <= j < n && role_key(nodes@[j], policy) == key@,
{
    let mut j: usize = 0;
    while j < n
        invariant
            j <= n <= nodes.len(),
            forall|k: int| 0 <= k < j ==> role_key(nodes@[k], policy) != key@,
        decreases n - j,
    {
        if str_eq(key_of(&nodes[j], policy), key) {
            return true;
        }
        j += 1;
    }
    false
}

fn id_seen(nodes: &Vec<Node>, n: usize, id: &str) -> (r: bool)
    requires
        n <= nodes.len(),
    ensures
        r == exists|j: int| 0 <= j < n && nodes@[j].id@ == id@,
{
    let mut j: usize = 0;
    while j < n
        invariant
            j <= n <= nodes.len(),
            forall|k: int| 0 <= k < j ==> nodes@[k].id@ != id@,
        decreases n - j,
    {
        if str_eq(nodes[j].id.as_str(), id) {
            return true;
        }
        j += 1;
    }
    false
}

impl Workflow {
    /// The role keys of the graph's nodes.
    pub open spec fn keys(&self) -> Seq<Seq<char>> {
        role_keys(self.nodes@, self.policy)
    }

    /// The ids of the graph's nodes.
    pub open spec fn ids(&self) -> Seq<Seq<char>> {
        node_ids(self.nodes@)
    }

    /// The invariant of a graph: no role key and no id occurs twice.
    pub open spec fn inv(&self) -> bool {
        &&& distinct(self.keys())
        &&& distinct(self.ids())
    }

    /// Whether a node has the role key `key`.
    pub open spec fn has(&self, key: Seq<char>) -> bool {
        occurs(self.keys(), key)
    }

    /// The place of the node with the role key `key`; the number of nodes
    /// where there is none.
    pub open spec fn index_of(&self, key: Seq<char>) -> int {
        position(self.keys(), key)
    }

    /// The node with the role key `key`.
    pub open spec fn node(&self, key: Seq<char>) -> Node
        recommends
            self.has(key),
    {
        self.nodes@[self.index_of(key)]
    }

    /// The shape of the node with the role key `key`, if there is one.
    pub open spec fn shape_at(&self, key: Seq<char>) -> Option<Shape> {
        if self.has(key) {
            Some(self.node(key).inputs.spec_shape())
        } else {
            None
        }
    }

    /// Whether `e` is the error that a step meets which needs the node with
    /// the role key `key` in the shape `shape`: not found, where no node has
    /// the key; a shape mismatch that names the node's title, where the
    /// node has another shape.
    pub open spec fn refused(&self, key: Seq<char>, shape: Shape, e: AppError) -> bool {
        match self.shape_at(key) {
            None => e.is_not_found(key),
            Some(s) => s != shape && e.is_shape_mismatch(self.node(key).meta.title@),
        }
    }

    /// Whether a node has the id `id`.
    pub open spec fn has_id(&self, id: Seq<char>) -> bool {
        occurs(self.ids(), id)
    }

    /// The place of the node with the id `id`; the number of nodes where
    /// there is none.
    pub open spec fn index_of_id(&self, id: Seq<char>) -> int {
        position(self.ids(), id)
    }

    /// Whether `self` is the graph that loading `nodes` gives: every node
    /// was admitted, and the graph holds them as they came, in their order.
    pub open spec fn loaded_from(
        &self,
        registry: &Registry,
        policy: RoleKeyPolicy,
        nodes: Seq<Node>,
    ) -> bool {
        &&& self.nodes@ == nodes
        &&& self.policy == policy
        &&& forall|i: int| 0 <= i < nodes.len() ==> admissible(registry, policy, nodes, i)
    }

    /// The nodes that the graph is written out as.
    pub open spec fn written(&self) -> Seq<Node> {
        self.nodes@
    }

    /// Whether `self` has the nodes of `before`, each as it was.
    pub open spec fn same_as(&self, before: &Workflow) -> bool {
        &&& self.policy == before.policy
        &&& self.nodes@ == before.nodes@
    }

    /// Whether `self` differs from `before` at most in the payload of the
    /// node at place `i`.
    pub open spec fn same_but_payload(&self, before: &Workflow, i: int) -> bool {
        &&& self.policy == before.policy
        &&& self.nodes@.len() == before.nodes@.len()
        &&& forall|j: int| 0 <= j < self.nodes@.len() && j != i ==> self.nodes@[j] == before.nodes@[j]
        &&& 0 <= i < self.nodes@.len() ==> {
            &&& self.nodes@[i].id == before.nodes@[i].id
            &&& self.nodes@[i].class_type == before.nodes@[i].class_type
            &&& self.nodes@[i].meta == before.nodes@[i].meta
            &&& self.nodes@[i].extra == before.nodes@[i].extra
            &&& self.nodes@[i].inputs.spec_shape() == before.nodes@[i].inputs.spec_shape()
        }
    }

    /// The payload of the node with the role key `key`.
    pub open spec fn payload(&self, key: Seq<char>) -> Inputs
        recommends
            self.has(key),
    {
        self.node(key).inputs
    }

    /// Whether `self` is `before` after a mutation that removed at most the
    /// nodes with the role keys `gone` and touched at most the payloads of
    /// those with the role keys `touched`: the other role keys are present
    /// as before, and no new one is; each node has kept its id, its class,
    /// its title, its unknown fields and its shape; and the nodes with
    /// untouched role keys are as they were.
    pub open spec fn evolved(
        &self,
        before: &Workflow,
        touched: Set<Seq<char>>,
        gone: Set<Seq<char>>,
    ) -> bool {
        &&& self.policy == before.policy
        &&& forall|key: Seq<char>| #[trigger] self.has(key) ==> before.has(key)
        &&& forall|key: Seq<char>| before.has(key) && !gone.contains(key) ==> #[trigger] self.has(key)
        &&& forall|key: Seq<char>|
            self.has(key) ==> {
                &&& (#[trigger] self.node(key)).id == before.node(key).id
                &&& self.node(key).class_type == before.node(key).class_type
                &&& self.node(key).meta == before.node(key).meta
                &&& self.node(key).extra == before.node(key).extra
                &&& self.node(key).inputs.spec_shape() == before.node(key).inputs.spec_shape()
            }
        &&& forall|key: Seq<char>|
            self.has(key) && !touched.contains(key) ==> #[trigger] self.node(key) == before.node(
                key,
            )
    }

    /// Whether the nodes of `self` that had other shapes than `shapes` in
    /// `before` are as they were there.
    pub open spec fn kept_but(&self, before: &Workflow, shapes: Set<Shape>) -> bool {
        forall|key: Seq<char>|
            self.has(key) && before.has(key) && !shapes.contains(
                before.node(key).inputs.spec_shape(),
            ) ==> #[trigger] self.node(key) == before.node(key)
    }

    /// Whether `self` is `before` after a mutation that removed no node and
    /// touched at most the payloads of the nodes with the role keys
    /// `touched`.
    pub open spec fn evolved_from(&self, before: &Workflow, touched: Set<Seq<char>>) -> bool {
        self.evolved(before, touched, Set::empty())
    }

    /// Whether `self` has the nodes of `before` under the same names, and
    /// those at other places than `places` as they were.
    pub open spec fn same_except(&self, before: &Workflow, places: Set<int>) -> bool {
        &&& self.same_names(before)
        &&& forall|j: int|
            0 <= j < self.nodes@.len() && !places.contains(j) ==> self.nodes@[j]
                == before.nodes@[j]
    }

    /// Whether `self` has the nodes of `before` under the same names: at
    /// most payloads differ, none has changed its shape, and the fields
    /// that a shape does not know are kept.
    pub open spec fn same_names(&self, before: &Workflow) -> bool {
        &&& self.policy == before.policy
        &&& self.nodes@.len() == before.nodes@.len()
        &&& forall|j: int|
            0 <= j < self.nodes@.len() ==> {
                &&& (#[trigger] self.nodes@[j]).id == before.nodes@[j].id
                &&& self.nodes@[j].class_type == before.nodes@[j].class_type
                &&& self.nodes@[j].meta == before.nodes@[j].meta
                &&& self.nodes@[j].extra == before.nodes@[j].extra
                &&& self.nodes@[j].inputs.spec_shape() == before.nodes@[j].inputs.spec_shape()
            }
    }

    /// Builds the graph of a graph file: `nodes` are the members of the
    /// file's JSON object, each with its key as its id, and they keep their
    /// order. Each node's class must be known to the registry and its
    /// payload must have the shape of that class; no role key and no id may
    /// occur twice. The first node that breaks a rule decides the error.
    pub fn from_json(registry: &Registry, policy: RoleKeyPolicy, nodes: Vec<Node>) -> (r: Result<
        Workflow,
        AppError,
    >)
        ensures
            match r {
                Ok(wf) => wf.loaded_from(registry, policy, nodes@) && wf.inv(),
                Err(e) => exists|i: int| first_refused(registry, policy, nodes@, i, e),
            },
    {
        let mut i: usize = 0;
        while i < nodes.len()
            invariant
                i <= nodes.len(),
                forall|j: int| 0 <= j < i ==> admissible(registry, policy, nodes@, j),
            decreases nodes.len() - i,
        {
            let node = &nodes[i];
            match comfy_class_map(registry, node.class_type.as_str()) {
                None => {
                    let e = AppError::Parse(node.class_type.clone());
                    assert(first_refused(registry, policy, nodes@, i as int, e));
                    return Err(e);
                },
                Some(role) => {
                    let fits = match Shape::from_name(role) {
                        Some(shape) => shape == node.inputs.shape(),
                        None => false,
                    };
                    if !fits {
                        let e = AppError::ShapeMismatch(node.meta.title.clone());
                        assert(first_refused(registry, policy, nodes@, i as int, e));
                        return Err(e);
                    }
                },
            }
            let key = key_of(node, policy);
            if key_seen(&nodes, policy, i, key) {
                let e = AppError::DuplicateRole(key.to_owned());
                assert(first_refused(registry, policy, nodes@, i as int, e));
                return Err(e);
            }
            if id_seen(&nodes, i, node.id.as_str()) {
                let e = AppError::Parse(node.id.clone());
                assert(first_refused(registry, policy, nodes@, i as int, e));
                return Err(e);
            }
            i += 1;
        }
        let ghost all = nodes@;
        let wf = Workflow { nodes, policy };
        proof {
            lemma_round_trip(registry, policy, all, wf);
        }
        Ok(wf)
    }

    /// The nodes of the graph, in their order: the members of the JSON
    /// object that the graph is written out as.
    pub fn to_json(&self) -> (r: &Vec<Node>)
        ensures
            r@ == self.written(),
    {
        &self.nodes
    }

    /// The place of the node with the role key `key`.
    pub fn find(&self, key: &str) -> (r: Option<usize>)
        ensures
            match r {
                Some(i) => self.has(key@) && i == self.index_of(key@),
                None => !self.has(key@),
            },
    {
        let mut i: usize = 0;
        while i < self.nodes.len()
            invariant
                i <= self.nodes.len(),
                forall|j: int| 0 <= j < i ==> self.keys()[j] != key@,
            decreases self.nodes.len() - i,
        {
            if str_eq(key_of(&self.nodes[i], self.policy), key) {
                proof {
                    lemma_position_at(self.keys(), key@, i as int);
                }
                return Some(i);
            }
            i += 1;
        }
        proof {
            lemma_position_absent(self.keys(), key@);
        }
        None
    }

    /// The place of the node with the id `id`.
    pub fn find_by_id(&self, id: &str) -> (r: Option<usize>)
        ensures
            match r {
                Some(i) => self.has_id(id@) && i == self.index_of_id(id@),
                None => !self.has_id(id@),
            },
    {
        let mut i: usize = 0;
        while i < self.nodes.len()
            invariant
                i <= self.nodes.len(),
                forall|j: int| 0 <= j < i ==> self.ids()[j] != id@,
            decreases self.nodes.len() - i,
        {
            if str_eq(self.nodes[i].id.as_str(), id) {
                proof {
                    lemma_position_at(self.ids(), id@, i as int);
                }
                return Some(i);
            }
            i += 1;
        }
        proof {
            lemma_position_absent(self.ids(), id@);
        }
        None
    }

    /// The place of the node with the role key `key`, which must have the
    /// shape `shape`.
    pub fn locate(&self, key: &str, shape: Shape) -> (r: Result<usize, AppError>)
        ensures
            match r {
                Ok(i) => self.shape_at(key@) == Some(shape) && i == self.index_of(key@) && i
                    < self.nodes@.len(),
                Err(e) => self.shape_at(key@) != Some(shape) && self.refused(key@, shape, e),
            },
    {
        match self.find(key) {
            Some(i) => {
                if self.nodes[i].inputs.shape() == shape {
                    Ok(i)
                } else {
                    Err(AppError::ShapeMismatch(self.nodes[i].meta.title.clone()))
                }
            },
            None => Err(AppError::NotFound(key.to_owned())),
        }
    }

    /// The place of the node with the role key `key`, if there is such a
    /// node; it must then have the shape `shape`.
    pub fn locate_opt(&self, key: &str, shape: Shape) -> (r: Result<Option<usize>, AppError>)
        ensures
            match r {
                Ok(Some(i)) => self.shape_at(key@) == Some(shape) && i == self.index_of(key@) && i
                    < self.nodes@.len(),
                Ok(None) => self.shape_at(key@) is None,
                Err(e) => self.shape_at(key@) is Some && self.shape_at(key@) != Some(shape)
                    && self.refused(key@, shape, e),
            },
    {
        match self.find(key) {
            Some(i) => {
                if self.nodes[i].inputs.shape() == shape {
                    Ok(Some(i))
                } else {
                    Err(AppError::ShapeMismatch(self.nodes[i].meta.title.clone()))
                }
            },
            None => Ok(None),
        }
    }

    /// The node with the role key `title`.
    pub fn get_node(&self, title: &str) -> (r: Result<&Node, AppError>)
        ensures
            match r {
                Ok(n) => self.has(title@) && *n == self.node(title@),
                Err(e) => !self.has(title@) && e.is_not_found(title@),
            },
    {
        match self.find(title) {
            Some(i) => Ok(&self.nodes[i]),
            None => Err(AppError::NotFound(title.to_owned())),
        }
    }

    /// The node with the role key `title`, to be changed in place.
    pub fn get_node_mut(&mut self, title: &str) -> (r: Result<&mut Node, AppError>)
        ensures
            match r {
                Ok(n) => {
                    &&& old(self).has(title@)
                    &&& *n == old(self).node(title@)
                    &&& final(self).policy == old(self).policy
                    &&& final(self).nodes@ == old(self).nodes@.update(
                        old(self).index_of(title@),
                        *final(n),
                    )
                },
                Err(e) => !old(self).has(title@) && e.is_not_found(title@) && *final(self) == *old(
                    self,
                ),
            },
    {
        match self.find(title) {
            Some(i) => Ok(&mut self.nodes[i]),
            None => Err(AppError::NotFound(title.to_owned())),
        }
    }

    /// The node with the id `id`.
    pub fn by_id(&self, id: &str) -> (r: Result<&Node, AppError>)
        ensures
            match r {
                Ok(n) => self.has_id(id@) && *n == self.nodes@[self.index_of_id(id@)],
                Err(e) => !self.has_id(id@) && e.is_not_found(id@),
            },
    {
        match self.find_by_id(id) {
            Some(i) => Ok(&self.nodes[i]),
            None => Err(AppError::NotFound(id.to_owned())),
        }
    }

    /// The node with the id `id`, to be changed in place.
    pub fn by_id_mut(&mut self, id: &str) -> (r: Result<&mut Node, AppError>)
        ensures
            match r {
                Ok(n) => {
                    &&& old(self).has_id(id@)
                    &&& *n == old(self).nodes@[old(self).index_of_id(id@)]
                    &&& final(self).policy == old(self).policy
                    &&& final(self).nodes@ == old(self).nodes@.update(
                        old(self).index_of_id(id@),
                        *final(n),
                    )
                },
                Err(e) => !old(self).has_id(id@) && e.is_not_found(id@) && *final(self) == *old(
                    self,
                ),
            },
    {
        match self.find_by_id(id) {
            Some(i) => Ok(&mut self.nodes[i]),
            None => Err(AppError::NotFound(id.to_owned())),
        }
    }

    /// Removes the node with the role key `title`; a graph without such a
    /// node is left as it is.
    pub fn rem_node(&mut self, title: &str)
        requires
            old(self).inv(),
        ensures
            final(self).inv(),
            final(self).policy == old(self).policy,
            old(self).has(title@) ==> final(self).nodes@ == old(self).nodes@.remove(
                old(self).index_of(title@),
            ),
            !old(self).has(title@) ==> final(self).nodes@ == old(self).nodes@,
            !final(self).has(title@),
            final(self).evolved(old(self), Set::empty(), set![title@]),
    {
        match self.find(title) {
            Some(i) => {
                let ghost before = self.nodes@;
                self.nodes.remove(i);
                proof {
                    lemma_position(role_keys(before, self.policy), title@);
                    let after = self.nodes@;
                    let p = self.policy;
                    assert forall|a: int, b: int| 0 <= a < b < after.len() implies role_keys(
                        after,
                        p,
                    )[a] != role_keys(after, p)[b] by {
                        let a0 = if a < i { a } else { a + 1 };
                        let b0 = if b < i { b } else { b + 1 };
                        assert(role_keys(before, p)[a0] != role_keys(before, p)[b0]);
                    }
                    assert forall|a: int, b: int| 0 <= a < b < after.len() implies node_ids(
                        after,
                    )[a] != node_ids(after)[b] by {
                        let a0 = if a < i { a } else { a + 1 };
                        let b0 = if b < i { b } else { b + 1 };
                        assert(node_ids(before)[a0] != node_ids(before)[b0]);
                    }
                    assert forall|j: int| 0 <= j < after.len() implies role_keys(after, p)[j]
                        != title@ by {
                        let j0 = if j < i { j } else { j + 1 };
                        assert(role_keys(before, p)[j0] != role_keys(before, p)[i as int]);
                    }
                    lemma_position_absent(role_keys(after, p), title@);
                    lemma_removed(self, old(self), i as int);
                }
            },
            None => {
                proof {
                    lemma_same_as(self, old(self), Set::empty());
                }
            },
        }
    }

    /// The id of the node with the role key `title`.
    pub fn get_node_id(&self, title: &str) -> (r: Result<&String, AppError>)
        ensures
            match r {
                Ok(id) => self.has(title@) && *id == self.node(title@).id,
                Err(e) => !self.has(title@) && e.is_not_found(title@),
            },
    {
        match self.find(title) {
            Some(i) => Ok(&self.nodes[i].id),
            None => Err(AppError::NotFound(title.to_owned())),
        }
    }

    /// Sets the noise seed of the sampler, the node with the role key
    /// `KSampler`.
    pub fn set_seed(&mut self, seed: i64) -> (r: Result<(), AppError>)
        ensures
            final(self).same_but_payload(old(self), old(self).index_of(NODE_KSAMPLER@)),
            match r {
                Ok(_) => {
                    &&& old(self).has(NODE_KSAMPLER@)
                    &&& old(self).node(NODE_KSAMPLER@).inputs matches Inputs::KSampler(k0)
                    &&& final(self).node(NODE_KSAMPLER@).inputs matches Inputs::KSampler(k1)
                    &&& k1 == (crate::comfy::sampler::KSampler { seed, ..k0 })
                },
                Err(e) => {
                    &&& final(self).same_as(old(self))
                    &&& if old(self).has(NODE_KSAMPLER@) {
                        !(old(self).node(NODE_KSAMPLER@).inputs is KSampler)
                            && e.is_shape_mismatch(old(self).node(NODE_KSAMPLER@).meta.title@)
                    } else {
                        e.is_not_found(NODE_KSAMPLER@)
                    }
                },
            },
    {
        match self.find(NODE_KSAMPLER) {
            Some(i) => {
                proof {
                    lemma_position(self.keys(), NODE_KSAMPLER@);
                }
                let done = match &mut self.nodes[i].inputs {
                    Inputs::KSampler(k) => {
                        k.seed = seed;
                        true
                    },
                    _ => false,
                };
                if done {
                    proof {
                        assert(self.keys() =~= old(self).keys());
                    }
                    Ok(())
                } else {
                    proof {
                        assert(self.nodes@ =~= old(self).nodes@);
                    }
                    Err(AppError::ShapeMismatch(self.nodes[i].meta.title.clone()))
                }
            },
            None => Err(AppError::NotFound(NODE_KSAMPLER.to_owned())),
        }
    }
}

/// Graphs with the same names find the same nodes: every role key and every
/// id has the same place and the same shape in both.
pub proof fn lemma_same_names(a: &Workflow, b: &Workflow)
    requires
        a.same_names(b),
    ensures
        a.keys() == b.keys(),
        a.ids() == b.ids(),
        a.inv() == b.inv(),
        forall|key: Seq<char>| #[trigger] a.shape_at(key) == b.shape_at(key),
        forall|key: Seq<char>| #[trigger] a.index_of(key) == b.index_of(key),
{
    assert(a.keys() =~= b.keys()) by {
        assert forall|i: int| 0 <= i < a.keys().len() implies a.keys()[i] == b.keys()[i] by {
            assert(a.nodes@[i].meta == b.nodes@[i].meta);
        }
    }
    assert(a.ids() =~= b.ids()) by {
        assert forall|i: int| 0 <= i < a.ids().len() implies a.ids()[i] == b.ids()[i] by {
            assert(a.nodes@[i].id == b.nodes@[i].id);
        }
    }
    assert forall|key: Seq<char>| #[trigger] a.shape_at(key) == b.shape_at(key) by {
        lemma_position(a.keys(), key);
        if a.has(key) {
            let i = a.index_of(key);
            assert(a.nodes@[i].inputs.spec_shape() == b.nodes@[i].inputs.spec_shape());
        }
    }
}

/// A mutation in place, seen by role key: where the nodes at other places
/// than `places` are as they were and the names are kept, the nodes with
/// other role keys than those at `places` are as they were.
pub proof fn lemma_in_place(a: &Workflow, b: &Workflow, places: Set<int>, touched: Set<Seq<char>>)
    requires
        a.same_except(b, places),
        b.inv(),
        forall|i: int|
            0 <= i < b.nodes@.len() && places.contains(i) ==> touched.contains(#[trigger] b.keys()[i]),
    ensures
        a.evolved_from(b, touched),
        a.inv(),
{
    lemma_same_names(a, b);
    assert forall|key: Seq<char>| a.has(key) implies {
        &&& (#[trigger] a.node(key)).id == b.node(key).id
        &&& a.node(key).class_type == b.node(key).class_type
        &&& a.node(key).meta == b.node(key).meta
        &&& a.node(key).extra == b.node(key).extra
        &&& a.node(key).inputs.spec_shape() == b.node(key).inputs.spec_shape()
    } by {
        lemma_position(b.keys(), key);
        assert(a.index_of(key) == b.index_of(key));
        assert(a.nodes@[b.index_of(key)].id == b.nodes@[b.index_of(key)].id);
    }
    assert forall|key: Seq<char>| a.has(key) && !touched.contains(key) implies #[trigger] a.node(
        key,
    ) == b.node(key) by {
        lemma_position(b.keys(), key);
        assert(a.index_of(key) == b.index_of(key));
        let i = b.index_of(key);
        assert(b.keys()[i] == key);
    }
    assert forall|key: Seq<char>| #[trigger] a.has(key) == b.has(key) by {
        assert(a.index_of(key) == b.index_of(key));
    }
}

/// A removal, seen by role key: the node with the removed key is gone, and
/// every other role key finds the node that it found before.
pub proof fn lemma_removed(a: &Workflow, b: &Workflow, i: int)
    requires
        b.inv(),
        0 <= i < b.nodes@.len(),
        a.policy == b.policy,
        a.nodes@ == b.nodes@.remove(i),
    ensures
        a.evolved(b, Set::empty(), set![b.keys()[i]]),
{
    let gone = b.keys()[i];
    assert(a.keys() =~= b.keys().remove(i));
    assert forall|key: Seq<char>| #[trigger] a.has(key) implies b.has(key) && a.node(key) == b.node(
        key,
    ) by {
        lemma_position(a.keys(), key);
        let q = a.index_of(key);
        let q0 = if q < i { q } else { q + 1 };
        assert(b.keys()[q0] == key);
        lemma_position(b.keys(), key);
        lemma_position_distinct(b.keys(), q0);
    }
    assert forall|key: Seq<char>| b.has(key) && !set![gone].contains(key) implies #[trigger] a.has(
        key,
    ) by {
        lemma_position(b.keys(), key);
        let p = b.index_of(key);
        let q = if p < i { p } else { p - 1 };
        assert(a.keys()[q] == key);
        lemma_position(a.keys(), key);
    }
}

/// A mutation of the payload of one located node, seen by role key.
pub proof fn lemma_touch(a: &Workflow, b: &Workflow, i: int, key: Seq<char>)
    requires
        b.inv(),
        b.has(key),
        i == b.index_of(key),
        a.same_except(b, set![i]),
    ensures
        a.evolved_from(b, set![key]),
        a.inv(),
        a.has(key),
        a.index_of(key) == i,
        a.node(key) == a.nodes@[i],
{
    lemma_position(b.keys(), key);
    lemma_same_names(a, b);
    lemma_in_place(a, b, set![i], set![key]);
    assert(a.index_of(key) == b.index_of(key));
}

/// A graph that is as it was has evolved, whatever counts as touched.
pub proof fn lemma_same_as(a: &Workflow, b: &Workflow, touched: Set<Seq<char>>)
    requires
        a.same_as(b),
    ensures
        a.evolved_from(b, touched),
        a.inv() == b.inv(),
        a.same_names(b),
{
    assert(a.keys() =~= b.keys());
    assert(a.ids() =~= b.ids());
}

/// Mutations compose: what evolved from a graph that evolved from another
/// has evolved from that one, under any sets that hold what either touched
/// and what either removed.
pub proof fn lemma_evolved_trans(
    a: &Workflow,
    b: &Workflow,
    c: &Workflow,
    t1: Set<Seq<char>>,
    g1: Set<Seq<char>>,
    t2: Set<Seq<char>>,
    g2: Set<Seq<char>>,
    t: Set<Seq<char>>,
    g: Set<Seq<char>>,
)
    requires
        a.evolved(b, t1, g1),
        b.evolved(c, t2, g2),
        t1.subset_of(t),
        t2.subset_of(t),
        g1.subset_of(g),
        g2.subset_of(g),
    ensures
        a.evolved(c, t, g),
{
    assert forall|key: Seq<char>| #[trigger] a.has(key) implies c.has(key) by {
        assert(b.has(key));
    }
    assert forall|key: Seq<char>| c.has(key) && !g.contains(key) implies #[trigger] a.has(key) by {
        assert(b.has(key));
    }
    assert forall|key: Seq<char>| a.has(key) implies {
        &&& (#[trigger] a.node(key)).id == c.node(key).id
        &&& a.node(key).class_type == c.node(key).class_type
        &&& a.node(key).meta == c.node(key).meta
        &&& a.node(key).extra == c.node(key).extra
        &&& a.node(key).inputs.spec_shape() == c.node(key).inputs.spec_shape()
    } by {
        assert(b.has(key));
        assert(b.node(key).id == c.node(key).id);
    }
    assert forall|key: Seq<char>| a.has(key) && !t.contains(key) implies #[trigger] a.node(key)
        == c.node(key) by {
        assert(b.has(key));
        assert(b.node(key) == c.node(key));
    }
}

/// What evolved has the shapes that were there: every role key that was not
/// removed finds a node of the shape that it found before, and a step that
/// needs a node in some shape is refused as it would have been.
pub proof fn lemma_evolved_shapes(
    a: &Workflow,
    b: &Workflow,
    touched: Set<Seq<char>>,
    gone: Set<Seq<char>>,
)
    requires
        a.evolved(b, touched, gone),
    ensures
        forall|key: Seq<char>| !gone.contains(key) ==> #[trigger] a.shape_at(key) == b.shape_at(key),
        forall|key: Seq<char>|
            gone.contains(key) ==> (#[trigger] a.shape_at(key)) is None || a.shape_at(key)
                == b.shape_at(key),
        forall|key: Seq<char>, shape: Shape, e: AppError|
            !gone.contains(key) ==> #[trigger] a.refused(key, shape, e) == b.refused(key, shape, e),
{
    assert forall|key: Seq<char>| !gone.contains(key) implies #[trigger] a.shape_at(key)
        == b.shape_at(key) by {
        if b.has(key) {
            assert(a.has(key));
            assert(a.node(key).inputs.spec_shape() == b.node(key).inputs.spec_shape());
        } else {
            if a.has(key) {
                assert(b.has(key));
            }
        }
    }
    assert forall|key: Seq<char>| gone.contains(key) implies (#[trigger] a.shape_at(key)) is None
        || a.shape_at(key) == b.shape_at(key) by {
        if a.has(key) {
            assert(b.has(key));
            assert(a.node(key).inputs.spec_shape() == b.node(key).inputs.spec_shape());
        }
    }
    assert forall|key: Seq<char>, shape: Shape, e: AppError| !gone.contains(key) implies #[trigger] a.refused(
        key,
        shape,
        e,
    ) == b.refused(key, shape, e) by {
        assert(a.shape_at(key) == b.shape_at(key));
        if a.has(key) {
            assert(a.node(key).meta == b.node(key).meta);
        }
    }
}

/// A mutation that touched only nodes of some shapes has kept the nodes of
/// other shapes.
pub proof fn lemma_kept_but(
    a: &Workflow,
    b: &Workflow,
    touched: Set<Seq<char>>,
    gone: Set<Seq<char>>,
    shapes: Set<Shape>,
)
    requires
        a.evolved(b, touched, gone),
        forall|key: Seq<char>|
            touched.contains(key) && b.has(key) ==> shapes.contains(
                #[trigger] b.node(key).inputs.spec_shape(),
            ),
    ensures
        a.kept_but(b, shapes),
{
    assert forall|key: Seq<char>|
        a.has(key) && b.has(key) && !shapes.contains(
            b.node(key).inputs.spec_shape(),
        ) implies #[trigger] a.node(key) == b.node(key) by {
        if touched.contains(key) {
            assert(shapes.contains(b.node(key).inputs.spec_shape()));
        }
    }
}

/// What was kept of the nodes of other shapes than some was kept of those of
/// other shapes than more.
pub proof fn lemma_kept_but_widen(a: &Workflow, b: &Workflow, s1: Set<Shape>, s2: Set<Shape>)
    requires
        a.kept_but(b, s1),
        s1.subset_of(s2),
    ensures
        a.kept_but(b, s2),
{
}

/// Keeping composes: what was kept by each of two mutations in turn was
/// kept by both, for any shapes that hold those of either.
pub proof fn lemma_kept_but_trans(
    a: &Workflow,
    b: &Workflow,
    c: &Workflow,
    s1: Set<Shape>,
    s2: Set<Shape>,
    s: Set<Shape>,
    touched: Set<Seq<char>>,
    gone: Set<Seq<char>>,
)
    requires
        a.kept_but(b, s1),
        b.kept_but(c, s2),
        a.evolved(b, touched, gone),
        s1.subset_of(s),
        s2.subset_of(s),
    ensures
        a.kept_but(c, s),
{
    assert forall|key: Seq<char>|
        a.has(key) && c.has(key) && !s.contains(c.node(key).inputs.spec_shape()) implies #[trigger] a.node(
            key,
        ) == c.node(key) by {
        assert(b.has(key));
        assert(b.node(key) == c.node(key));
        assert(a.node(key) == b.node(key));
    }
}

/// Having the same names is transitive.
pub proof fn lemma_same_names_trans(a: &Workflow, b: &Workflow, c: &Workflow)
    requires
        a.same_names(b),
        b.same_names(c),
    ensures
        a.same_names(c),
{
    assert forall|j: int| 0 <= j < a.nodes@.len() implies {
        &&& (#[trigger] a.nodes@[j]).id == c.nodes@[j].id
        &&& a.nodes@[j].class_type == c.nodes@[j].class_type
        &&& a.nodes@[j].meta == c.nodes@[j].meta
        &&& a.nodes@[j].extra == c.nodes@[j].extra
        &&& a.nodes@[j].inputs.spec_shape() == c.nodes@[j].inputs.spec_shape()
    } by {
        assert(b.nodes@[j].id == c.nodes@[j].id);
    }
}

/// Loading and writing out is lossless: the nodes that a loaded graph is
/// written out as are the nodes that it was loaded from, each field as it
/// was, in their order; and a loaded graph meets the invariant.
pub proof fn lemma_round_trip(
    registry: &Registry,
    policy: RoleKeyPolicy,
    nodes: Seq<Node>,
    wf: Workflow,
)
    requires
        wf.loaded_from(registry, policy, nodes),
    ensures
        wf.written() == nodes,
        wf.inv(),
{
    assert forall|a: int, b: int| 0 <= a < b < wf.keys().len() implies wf.keys()[a] != wf.keys()[b] by {
        assert(admissible(registry, policy, nodes, b));
    }
    assert forall|a: int, b: int| 0 <= a < b < wf.ids().len() implies wf.ids()[a] != wf.ids()[b] by {
        assert(admissible(registry, policy, nodes, b));
    }
}

} // verus!
