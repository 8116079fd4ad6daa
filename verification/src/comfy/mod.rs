use vstd::prelude::*;
use vstd::string::*;
use crate::lookup::{lemma_position_absent, lemma_position_at, position};

pub mod api;
pub mod control_net;
pub mod efficient;
pub mod image;
pub mod inputs;
pub mod ip_adapter;
pub mod latent;
pub mod lora;
pub mod node;
pub mod preprocessor;
pub mod registry;
pub mod sampler;
pub mod switch;
pub mod text;
pub mod vae;
pub mod workflow;

verus! {

pub const NODE_CTRLNET_STACK: &'static str = "CtrlnetStack";

pub const NODE_LORA_STACK: &'static str = "LoraStack";

pub const NODE_LORA_STACKER: &'static str = "LoraStacker";

pub const NODE_LOAD_IMAGE: &'static str = "LoadImage";

pub const NODE_LOAD_IMAGE_IPA: &'static str = "LoadImageIPA";

pub const NODE_SAVE_IMAGE: &'static str = "ImageSave";

pub const NODE_IMAGE_PREPROCESSOR: &'static str = "ImagePreprocessor";

pub const NODE_IMAGE_FILTER: &'static str = "ImageFilter";

pub const NODE_TILE_PREPROCESSOR: &'static str = "TilePreprocessor";

pub const NODE_EFFICIENT_LOADER: &'static str = "EfficientLoader";

pub const NODE_KSAMPLER: &'static str = "KSampler";

pub const NODE_LINEART_PREPROCESSOR: &'static str = "LineArtPreprocessor";

pub const NODE_LINEARTSTANDARD_PREPROCESSOR: &'static str = "LineartStandardPreprocessor";

pub const NODE_CANNY_PREPROCESSOR: &'static str = "CannyEdgePreprocessor";

pub const NODE_CROP_IMAGE: &'static str = "CropImage";

pub const NODE_REPEAT_LATENT: &'static str = "RepeatLatent";

pub const NODE_EMPTY_LATENT: &'static str = "EmptyLatent";

pub const NODE_EMPTY_IMAGE: &'static str = "EmptyImage";

pub const NODE_IMAGE_SCALESIDE: &'static str = "ImageScaleSide";

pub const NODE_TEXT_STRING: &'static str = "TextString";

pub const NODE_TEXT_CONCAT: &'static str = "TextConcat";

pub const NODE_IMAGE_TAGGER: &'static str = "Tagger";

/// A reference to one output of a node of the graph: the producer's id and
/// the number of its output slot. It owns nothing; the graph resolves it.
#[derive(Debug)]
pub struct EdgeRef {
    pub id: String,
    pub slot: usize,
}

impl View for EdgeRef {
    type V = (Seq<char>, usize);

    open spec fn view(&self) -> (Seq<char>, usize) {
        (self.id@, self.slot)
    }
}

impl Clone for EdgeRef {
    fn clone(&self) -> (r: Self)
        ensures
            r@ == self@,
    {
        EdgeRef { id: self.id.clone(), slot: self.slot }
    }
}

/// What an optional edge reference points at.
pub open spec fn edge_view(e: Option<EdgeRef>) -> Option<(Seq<char>, usize)> {
    match e {
        Some(r) => Some(r@),
        None => None,
    }
}

/// A copy of an optional edge reference.
pub fn clone_edge(e: &Option<EdgeRef>) -> (r: Option<EdgeRef>)
    ensures
        edge_view(r) == edge_view(*e),
{
    match e {
        Some(x) => Some(x.clone()),
        None => None,
    }
}

/// The reference to output `idx` of the node `id`.
pub fn create_input_id(id: &str, idx: usize) -> (r: EdgeRef)
    ensures
        r@ == (id@, idx),
{
    EdgeRef { id: id.to_owned(), slot: idx }
}

/// Whether two strings hold the same text.
pub fn str_eq(a: &str, b: &str) -> (r: bool)
    ensures
        r == (a@ == b@),
{
    let x: String = a.to_owned();
    let y: String = b.to_owned();
    x == y
}

/// Whether `s` begins with `prefix`.
pub open spec fn has_prefix(s: Seq<char>, prefix: Seq<char>) -> bool {
    prefix.len() <= s.len() && s.subrange(0, prefix.len() as int) == prefix
}

/// Whether `s` begins with `prefix`.
pub fn starts_with(s: &str, prefix: &str) -> (r: bool)
    ensures
        r == has_prefix(s@, prefix@),
{
    let n: usize = prefix.unicode_len();
    if s.unicode_len() < n {
        return false;
    }
    let mut i: usize = 0;
    while i < n
        invariant
            i <= n,
            n == prefix@.len(),
            n <= s@.len(),
            forall|j: int| 0 <= j < i ==> s@[j] == prefix@[j],
        decreases n - i,
    {
        if s.get_char(i) != prefix.get_char(i) {
            proof {
                assert(s@.subrange(0, n as int)[i as int] == s@[i as int]);
            }
            return false;
        }
        i += 1;
    }
    proof {
        assert(s@.subrange(0, n as int) =~= prefix@);
    }
    true
}

/// The part of a file's name before its first dot; the whole name where it
/// has no dot.
pub open spec fn stem_of(name: Seq<char>) -> Seq<char> {
    name.subrange(0, position(name, '.'))
}

/// The part of a file's name before its first dot.
pub fn stem(name: &str) -> (r: String)
    ensures
        r@ == stem_of(name@),
{
    let n: usize = name.unicode_len();
    let mut i: usize = 0;
    while i < n
        invariant
            i <= n,
            n == name@.len(),
            forall|j: int| 0 <= j < i ==> name@[j] != '.',
        decreases n - i,
    {
        if name.get_char(i) == '.' {
            proof {
                lemma_position_at(name@, '.', i as int);
            }
            return name.substring_char(0, i).to_owned();
        }
        i += 1;
    }
    proof {
        lemma_position_absent(name@, '.');
    }
    name.substring_char(0, n).to_owned()
}

} // verus!
