use gan::{
    comfy_class_map, comfy_preprocessor, create_input_id, my_class_map, preprocessor_map, starts_with,
    stem, AppError, CtrlnetStack, EdgeRef, EmptyLatent, Inputs, KSampler, LoadImage, Meta, Node,
    Registry, RoleKeyPolicy, Shape, Workflow, Fixed, NODE_KSAMPLER, NODE_LOAD_IMAGE,
};

fn pair(a: &str, b: &str) -> (String, String) {
    (a.to_string(), b.to_string())
}

fn registry() -> Registry {
    Registry::new(
        vec![
            pair("CtrlnetStack", "CR Multi-ControlNet Stack"),
            pair("LoraStack", "CR LoRA Stack"),
            pair("KSampler", "KSampler"),
            pair("LoadImage", "LoadImage"),
            pair("EmptyLatent", "EmptyLatentImage"),
            pair("Unheard", "SomethingElse"),
        ],
        vec![
            pair("anime_denoise", "Manga2Anime_LineArt_Preprocessor"),
            pair("canny", "CannyEdgePreprocessor"),
        ],
    )
}

fn node(id: &str, class: &str, title: &str, inputs: Inputs) -> Node {
    Node {
        inputs,
        class_type: class.to_string(),
        meta: Meta { title: title.to_string() },
        id: id.to_string(),
        extra: Vec::new(),
    }
}

fn sampler(seed: i64) -> Inputs {
    Inputs::KSampler(KSampler {
        seed,
        sampler_name: "euler".to_string(),
        scheduler: "normal".to_string(),
        model: Some(EdgeRef { id: "4".to_string(), slot: 0 }),
        positive: None,
        negative: None,
        latent_image: None,
        cfg: Fixed::new(7_000_000),
        denoise: Fixed::new(1_000_000),
        steps: 20,
    })
}

fn loader(image: &str) -> Inputs {
    Inputs::LoadImage(LoadImage { image: image.to_string(), upload: "image".to_string() })
}

fn latent() -> Inputs {
    Inputs::EmptyLatent(EmptyLatent { width: 512, height: 768, batch_size: 1 })
}

fn three_nodes() -> Vec<Node> {
    vec![
        node("3", "KSampler", "KSampler", sampler(1)),
        node("10", "LoadImage", "LoadImage", loader("a.png")),
        node("5", "EmptyLatentImage", "EmptyLatent", latent()),
    ]
}

fn load(nodes: Vec<Node>) -> Result<Workflow, AppError> {
    Workflow::from_json(&registry(), RoleKeyPolicy::Title, nodes)
}

#[test]
fn class_map_should_work() {
    let reg = registry();
    assert_eq!(my_class_map(&reg, "CtrlnetStack"), Some("CR Multi-ControlNet Stack"));
    assert_eq!(comfy_class_map(&reg, "CR LoRA Stack"), Some("LoraStack"));
}

#[test]
fn processor_map_should_work() {
    let reg = registry();
    assert_eq!(preprocessor_map(&reg, "anime_denoise"), Some("Manga2Anime_LineArt_Preprocessor"));
}

#[test]
fn registry_lookups_miss() {
    let reg = registry();
    assert_eq!(my_class_map(&reg, "CR LoRA Stack"), None);
    assert_eq!(comfy_class_map(&reg, "LoraStack"), None);
    assert_eq!(preprocessor_map(&reg, "unknown"), None);
    assert_eq!(comfy_preprocessor(&reg, "canny"), "CannyEdgePreprocessor");
    assert_eq!(comfy_preprocessor(&reg, "TilePreprocessor"), "TilePreprocessor");
}

#[test]
fn registry_first_pair_answers() {
    let reg = Registry::new(
        vec![pair("A", "x"), pair("A", "y"), pair("B", "x")],
        vec![pair("p", "1"), pair("p", "2")],
    );
    assert_eq!(my_class_map(&reg, "A"), Some("x"));
    assert_eq!(comfy_class_map(&reg, "x"), Some("A"));
    assert_eq!(comfy_class_map(&reg, "y"), Some("A"));
    assert_eq!(comfy_preprocessor(&reg, "p"), "1");
}

#[test]
fn shape_names() {
    assert_eq!(Shape::from_name("KSampler"), Some(Shape::KSampler));
    assert_eq!(Shape::from_name("CtrlnetStack"), Some(Shape::CtrlnetStack));
    assert_eq!(Shape::from_name("Tagger"), Some(Shape::Tagger));
    assert_eq!(Shape::from_name("LoadImage"), Some(Shape::LoadImage));
    assert_eq!(Shape::from_name("ksampler"), None);
    assert_eq!(Shape::from_name(""), None);
    assert_eq!(sampler(0).shape(), Shape::KSampler);
    assert_eq!(latent().shape(), Shape::EmptyLatent);
}

#[test]
fn text_helpers() {
    assert!(starts_with("land_tree.png", "land_"));
    assert!(!starts_with("island_tree.png", "land_"));
    assert!(!starts_with("lan", "land_"));
    assert!(starts_with("anything", ""));
    assert_eq!(stem("land_tree.png"), "land_tree");
    assert_eq!(stem("a.b.c"), "a");
    assert_eq!(stem("plain"), "plain");
    assert_eq!(stem(".hidden"), "");
    assert_eq!(stem("石膏像.png"), "石膏像");
    let e = create_input_id("12", 3);
    assert_eq!(e.id, "12");
    assert_eq!(e.slot, 3);
}

fn with_extras() -> Vec<Node> {
    let mut nodes = three_nodes();
    nodes[1].extra = vec![
        ("choose file to upload".to_string(), "\"image\"".to_string()),
        ("crop".to_string(), "[1,2,{\"a\":null}]".to_string()),
    ];
    nodes
}

#[test]
fn round_trip_keeps_unknown_fields() {
    let mut wf = load(with_extras()).unwrap();
    wf.set_seed(5).unwrap();
    wf.rem_node("EmptyLatent");
    let out = wf.to_json();
    assert_eq!(out.len(), 2);
    assert!(out[0].extra.is_empty());
    assert_eq!(out[1].extra, with_extras()[1].extra);
}

#[test]
fn round_trip_keeps_every_node() {
    let wf = load(three_nodes()).unwrap();
    assert!(matches!(wf.policy, RoleKeyPolicy::Title));
    let out = wf.to_json();
    let again = three_nodes();
    assert_eq!(out.len(), again.len());
    for (a, b) in out.iter().zip(again.iter()) {
        assert_eq!(a.id, b.id);
        assert_eq!(a.class_type, b.class_type);
        assert_eq!(a.meta.title, b.meta.title);
        assert_eq!(a.extra, b.extra);
        assert_eq!(format!("{:?}", a.inputs), format!("{:?}", b.inputs));
    }
}

#[test]
fn load_empty_graph() {
    let wf = load(Vec::new()).unwrap();
    assert!(wf.get_node(NODE_KSAMPLER).is_err());
    assert_eq!(wf.to_json().len(), 0);
}

#[test]
fn load_refuses_duplicate_role() {
    let mut nodes = three_nodes();
    nodes.push(node("11", "LoadImage", "LoadImage", loader("b.png")));
    match load(nodes) {
        Err(AppError::DuplicateRole(key)) => assert_eq!(key, "LoadImage"),
        other => panic!("{:?}", other),
    }
}

#[test]
fn load_refuses_unknown_class() {
    let mut nodes = three_nodes();
    nodes.insert(1, node("11", "Mystery", "Odd", loader("b.png")));
    match load(nodes) {
        Err(AppError::Parse(class)) => assert_eq!(class, "Mystery"),
        other => panic!("{:?}", other),
    }
}

#[test]
fn load_refuses_wrong_shape_for_class() {
    let mut nodes = three_nodes();
    nodes.push(node("11", "KSampler", "Second", loader("b.png")));
    match load(nodes) {
        Err(AppError::ShapeMismatch(title)) => assert_eq!(title, "Second"),
        other => panic!("{:?}", other),
    }
    // a class whose role names no shape fits no payload
    let nodes = vec![node("1", "SomethingElse", "T", latent())];
    match load(nodes) {
        Err(AppError::ShapeMismatch(title)) => assert_eq!(title, "T"),
        other => panic!("{:?}", other),
    }
}

#[test]
fn load_refuses_duplicate_id() {
    let mut nodes = three_nodes();
    nodes.push(node("3", "LoadImage", "Other", loader("b.png")));
    match load(nodes) {
        Err(AppError::Parse(id)) => assert_eq!(id, "3"),
        other => panic!("{:?}", other),
    }
}

#[test]
fn load_reports_the_first_fault() {
    let nodes = vec![
        node("1", "KSampler", "KSampler", sampler(1)),
        node("2", "KSampler", "KSampler", sampler(2)),
        node("3", "Mystery", "M", latent()),
    ];
    assert!(matches!(load(nodes), Err(AppError::DuplicateRole(_))));
}

#[test]
fn class_name_policy_keys_by_class() {
    let nodes = vec![
        node("1", "KSampler", "same title", sampler(1)),
        node("2", "LoadImage", "same title", loader("a.png")),
    ];
    let wf = Workflow::from_json(&registry(), RoleKeyPolicy::ClassName, nodes).unwrap();
    assert_eq!(wf.get_node("LoadImage").unwrap().id, "2");
    assert!(wf.get_node("same title").is_err());
    let nodes = vec![
        node("1", "KSampler", "a", sampler(1)),
        node("2", "KSampler", "b", sampler(2)),
    ];
    assert!(matches!(
        Workflow::from_json(&registry(), RoleKeyPolicy::ClassName, nodes),
        Err(AppError::DuplicateRole(_))
    ));
}

#[test]
fn find_by_role_and_by_id() {
    let mut wf = load(three_nodes()).unwrap();
    assert_eq!(wf.find(NODE_LOAD_IMAGE), Some(1));
    assert_eq!(wf.find("Nope"), None);
    assert_eq!(wf.find_by_id("5"), Some(2));
    assert_eq!(wf.find_by_id("LoadImage"), None);
    assert_eq!(wf.get_node(NODE_KSAMPLER).unwrap().id, "3");
    assert_eq!(wf.get_node_id(NODE_LOAD_IMAGE).unwrap(), "10");
    assert_eq!(wf.by_id("10").unwrap().meta.title, "LoadImage");
    match wf.get_node("Nope") {
        Err(AppError::NotFound(key)) => assert_eq!(key, "Nope"),
        other => panic!("{:?}", other),
    }
    assert!(matches!(wf.get_node_id("Nope"), Err(AppError::NotFound(_))));
    assert!(matches!(wf.by_id("77"), Err(AppError::NotFound(_))));
    assert!(matches!(wf.get_node_mut("Nope"), Err(AppError::NotFound(_))));
    assert!(matches!(wf.by_id_mut("77"), Err(AppError::NotFound(_))));
    wf.get_node_mut(NODE_LOAD_IMAGE).unwrap().load_image_mut().unwrap().image = "z.png".to_string();
    assert_eq!(wf.by_id("10").unwrap().load_image().unwrap().image, "z.png");
    wf.by_id_mut("5").unwrap().empty_latent_mut().unwrap().width = 64;
    assert_eq!(wf.get_node("EmptyLatent").unwrap().empty_latent().unwrap().width, 64);
    assert_eq!(wf.locate(NODE_KSAMPLER, Shape::KSampler).unwrap(), 0);
    assert!(matches!(wf.locate(NODE_KSAMPLER, Shape::LoadImage), Err(AppError::ShapeMismatch(_))));
    assert!(matches!(wf.locate("Nope", Shape::LoadImage), Err(AppError::NotFound(_))));
    assert_eq!(wf.locate_opt("Nope", Shape::LoadImage).unwrap(), None);
    assert_eq!(wf.locate_opt(NODE_LOAD_IMAGE, Shape::LoadImage).unwrap(), Some(1));
    assert!(matches!(
        wf.locate_opt(NODE_LOAD_IMAGE, Shape::KSampler),
        Err(AppError::ShapeMismatch(_))
    ));
}

#[test]
fn typed_access_is_checked() {
    let mut n = node("3", "KSampler", "KSampler", sampler(9));
    assert_eq!(n.k_sampler().unwrap().seed, 9);
    match n.load_image() {
        Err(AppError::ShapeMismatch(title)) => assert_eq!(title, "KSampler"),
        other => panic!("{:?}", other.map(|_| ())),
    }
    assert!(matches!(n.ctrlnet_stack_mut(), Err(AppError::ShapeMismatch(_))));
    n.k_sampler_mut().unwrap().steps = 5;
    assert_eq!(n.k_sampler().unwrap().steps, 5);
    *n.inputs_mut() = latent();
    assert!(n.k_sampler().is_err());
    assert_eq!(n.empty_latent().unwrap().height, 768);
}

#[test]
fn remove_is_best_effort() {
    let mut wf = load(three_nodes()).unwrap();
    wf.rem_node("Nope");
    assert_eq!(wf.nodes.len(), 3);
    wf.rem_node(NODE_LOAD_IMAGE);
    assert_eq!(wf.nodes.len(), 2);
    assert!(wf.get_node(NODE_LOAD_IMAGE).is_err());
    assert_eq!(wf.get_node("EmptyLatent").unwrap().id, "5");
    assert_eq!(wf.find(NODE_KSAMPLER), Some(0));
    wf.rem_node(NODE_LOAD_IMAGE);
    assert_eq!(wf.nodes.len(), 2);
}

#[test]
fn set_seed_touches_the_seed_only() {
    let mut wf = load(three_nodes()).unwrap();
    wf.set_seed(123_456).unwrap();
    let k = wf.get_node(NODE_KSAMPLER).unwrap().k_sampler().unwrap();
    assert_eq!(k.seed, 123_456);
    assert_eq!(k.steps, 20);
    assert_eq!(k.sampler_name, "euler");
    assert_eq!(k.model.as_ref().unwrap().id, "4");
    assert_eq!(wf.get_node(NODE_LOAD_IMAGE).unwrap().load_image().unwrap().image, "a.png");
}

#[test]
fn set_seed_needs_the_sampler() {
    let mut wf = load(vec![node("10", "LoadImage", "LoadImage", loader("a.png"))]).unwrap();
    match wf.set_seed(1) {
        Err(AppError::NotFound(key)) => assert_eq!(key, "KSampler"),
        other => panic!("{:?}", other),
    }
    let mut wf = load(vec![node("10", "LoadImage", "KSampler", loader("a.png"))]).unwrap();
    match wf.set_seed(1) {
        Err(AppError::ShapeMismatch(title)) => assert_eq!(title, "KSampler"),
        other => panic!("{:?}", other),
    }
    assert_eq!(wf.get_node("KSampler").unwrap().load_image().unwrap().image, "a.png");
}

#[test]
fn error_messages() {
    assert_eq!(AppError::NotFound("KSampler".to_string()).message(), "not found: KSampler");
    assert_eq!(AppError::Parse("X".to_string()).message(), "parse error: X");
    assert_eq!(AppError::ShapeMismatch("T".to_string()).message(), "shape mismatch: T");
    assert_eq!(AppError::DuplicateRole("T".to_string()).message(), "duplicate role: T");
    assert_eq!(AppError::MissingConfig("Canny".to_string()).message(), "missing config: Canny");
}

#[test]
fn default_stack_in_a_node() {
    let n = node("1", "CR Multi-ControlNet Stack", "CtrlnetStack", Inputs::CtrlnetStack(CtrlnetStack::default()));
    let wf = load(vec![n]).unwrap();
    assert_eq!(wf.get_node("CtrlnetStack").unwrap().ctrlnet_stack().unwrap().switch_1, "Off");
}
