#![allow(dead_code)]

use gan::{
    ACtrlnet, ACtrlnetStack, AEfficient, AIPAdapter, AImageFilter, AImageRembg, ALoadImage,
    ALoraStack, ALoraStacker, ASampler, ASaveImage, AppError, AutoCfg, CannyEdgePreprocessor,
    CnCfg, Ctrlnet, CtrlnetStack, EdgeRef, EfficientLoader, Fixed, Generator, IPAdapterApply,
    IdxControlNet, ImageFilter, ImagePreprocessor, ImageRembg, ImageSave, Inputs, KSampler,
    LineArtPreprocessor, LineartStandardPreprocessor, LoadImage, LoraStack, LoraStacker, Meta,
    Node, OpenposePreprocessor, Prompt, Registry, RoleKeyPolicy, TilePreprocessor, Workflow,
    rand_lora_cfg,
};

fn fx(micros: i64) -> Fixed {
    Fixed::new(micros)
}

fn s(text: &str) -> String {
    text.to_string()
}

fn strs(texts: &[&str]) -> Vec<String> {
    texts.iter().map(|t| t.to_string()).collect()
}

fn edge(id: &str) -> EdgeRef {
    EdgeRef { id: s(id), slot: 0 }
}

fn node(id: &str, class: &str, title: &str, inputs: Inputs) -> Node {
    Node {
        inputs,
        class_type: s(class),
        meta: Meta { title: s(title) },
        id: s(id),
        extra: Vec::new(),
    }
}

fn registry() -> Registry {
    let same = [
        "KSampler",
        "LoadImage",
        "ImageSave",
        "EfficientLoader",
        "CtrlnetStack",
        "LoraStack",
        "LoraStacker",
        "CannyEdgePreprocessor",
        "LineArtPreprocessor",
        "LineartStandardPreprocessor",
        "TilePreprocessor",
        "ImagePreprocessor",
        "OpenposePreprocessor",
        "ImageScaleSide",
        "CropImage",
        "RepeatLatent",
        "EmptyLatent",
        "EmptyImage",
        "TextString",
        "TextConcat",
        "Tagger",
        "ImageFilter",
        "ImageRembg",
        "IPAdapterApply",
    ];
    Registry::new(
        same.iter().map(|n| (s(n), s(n))).collect(),
        vec![
            (s("canny"), s("CannyEdgePreprocessor")),
            (s("realistic"), s("LineArtPreprocessor")),
            (s("standard"), s("LineartStandardPreprocessor")),
            (s("tile"), s("TilePreprocessor")),
            (s("pose"), s("OpenposePreprocessor")),
        ],
    )
}

fn generator() -> Generator {
    Generator::new(
        registry(),
        vec![
            (s("edge"), Ctrlnet { model: strs(&["canny_a", "canny_b"]), preprocessor: strs(&["canny"]) }),
            (s("line"), Ctrlnet { model: strs(&["lineart"]), preprocessor: strs(&["realistic", "standard"]) }),
            (s("tile"), Ctrlnet { model: strs(&["tile_m"]), preprocessor: strs(&["tile"]) }),
            (s("depth"), Ctrlnet { model: strs(&["depth_m"]), preprocessor: strs(&["depth_midas"]) }),
            (s("pose"), Ctrlnet { model: strs(&["pose_m"]), preprocessor: strs(&["pose"]) }),
            (s("bare"), Ctrlnet { model: Vec::new(), preprocessor: strs(&["canny"]) }),
            (s("blind"), Ctrlnet { model: strs(&["m"]), preprocessor: Vec::new() }),
        ],
    )
}

fn sampler() -> Inputs {
    Inputs::KSampler(KSampler {
        seed: 1,
        sampler_name: s("euler"),
        scheduler: s("normal"),
        model: Some(edge("4")),
        positive: Some(edge("4")),
        negative: None,
        latent_image: None,
        cfg: fx(7_000_000),
        denoise: fx(1_000_000),
        steps: 20,
    })
}

fn load_image(image: &str) -> Inputs {
    Inputs::LoadImage(LoadImage { image: s(image), upload: s("image") })
}

fn image_save() -> Inputs {
    Inputs::ImageSave(ImageSave {
        output_path: s("old/path"),
        filename_prefix: s("old"),
        filename_delimiter: s("_"),
        filename_number_padding: 4,
        filename_number_start: s("false"),
        extension: s("png"),
        quality: 100,
        lossless_webp: s("false"),
        overwrite_mode: s("false"),
        show_history: s("false"),
        show_history_by_prefix: s("true"),
        embed_workflow: s("true"),
        show_previews: s("true"),
        images: Some(edge("8")),
    })
}

fn efficient_loader() -> Inputs {
    Inputs::EfficientLoader(EfficientLoader {
        ckpt_name: s("old.ckpt"),
        vae_name: s("old.vae"),
        lora_name: s("None"),
        positive: Prompt::Text(s("old positive")),
        negative: s("old negative"),
        token_normalization: s("none"),
        weight_interpretation: s("comfy"),
        lora_stack: Some(edge("20")),
        cnet_stack: Some(edge("21")),
        lora_model_strength: fx(1_000_000),
        lora_clip_strength: fx(1_000_000),
        empty_latent_width: 64,
        empty_latent_height: 64,
        clip_skip: -1,
        batch_size: 1,
    })
}

fn canny() -> Inputs {
    Inputs::CannyEdgePreprocessor(CannyEdgePreprocessor {
        low_threshold: 1,
        high_threshold: 2,
        resolution: 64,
        image: edge("10"),
    })
}

fn ctrlnet_stack() -> Inputs {
    let mut stack = CtrlnetStack::default();
    stack.switch_2 = s("On");
    stack.controlnet_2 = s("stale");
    stack.controlnet_strength_3 = fx(250_000);
    Inputs::CtrlnetStack(stack)
}

fn sampler_entry() -> ASampler {
    ASampler {
        title: s("KSampler"),
        steps_min: 20,
        steps_max: 30,
        cfg_min: fx(7_000_000),
        cfg_max: fx(8_000_000),
        denoise_min: fx(500_000),
        denoise_max: fx(500_000),
        sampler_name: strs(&["euler", "dpmpp_2m"]),
        scheduler: strs(&["karras"]),
    }
}

fn efficient_entry() -> AEfficient {
    AEfficient {
        title: s("EfficientLoader"),
        positive: strs(&["a plaster bust", "a still life"]),
        negative: strs(&["blurry"]),
        width: 512,
        height: 768,
        batch_size: 2,
        vae_name: strs(&["vae_a", "vae_b"]),
        clip_skip: vec![-1, -2],
        ckpt_name: s("model.ckpt"),
        weight_interpretation: s("A1111"),
    }
}

fn cn_entry() -> ACtrlnetStack {
    ACtrlnetStack {
        title: s("CtrlnetStack"),
        canny_low_threshold: 0,
        canny_high_threshold: 0,
        tile_pyrup_iters: 0,
        switch_1: true,
        ctrl_type_1: strs(&["edge"]),
        processor_1: Vec::new(),
        start_min_1: fx(0),
        start_max_1: fx(0),
        end_min_1: fx(1_000_000),
        end_max_1: fx(1_000_000),
        strength_min_1: fx(400_000),
        strength_max_1: fx(600_000),
        resolution_1: vec![512],
        switch_2: false,
        ctrl_type_2: Vec::new(),
        processor_2: Vec::new(),
        start_min_2: fx(0),
        start_max_2: fx(0),
        end_min_2: fx(0),
        end_max_2: fx(0),
        strength_min_2: fx(0),
        strength_max_2: fx(0),
        resolution_2: Vec::new(),
        switch_3: false,
        ctrl_type_3: Vec::new(),
        processor_3: Vec::new(),
        start_min_3: fx(0),
        start_max_3: fx(0),
        end_min_3: fx(0),
        end_max_3: fx(0),
        strength_min_3: fx(0),
        strength_max_3: fx(0),
        resolution_3: Vec::new(),
    }
}

fn catalog() -> AutoCfg {
    AutoCfg {
        workflows: strs(&["template.json"]),
        total: 10,
        ct_per_params: 2,
        efficient: efficient_entry(),
        sampler: sampler_entry(),
        save_image: ASaveImage { title: s("ImageSave"), output_path: s("out/dir"), filename_prefix: s("plain.v1") },
        load_image: Some(ALoadImage { title: s("LoadImage"), images: strs(&["a.png", "land_b.png", "c.jpg"]) }),
        image_filter: None,
        ctrlnet_stack: None,
        lora_stack: None,
        lora_stacker: None,
        empty_image: None,
        image_rembg: None,
        ip_adapter: None,
        tagger: None,
    }
}

fn base_nodes() -> Vec<Node> {
    vec![
        node("3", "KSampler", "KSampler", sampler()),
        node("21", "CtrlnetStack", "CtrlnetStack", ctrlnet_stack()),
        node("10", "LoadImage", "LoadImage", load_image("old.png")),
        node("30", "CannyEdgePreprocessor", "CannyEdgePreprocessor", canny()),
        node("4", "EfficientLoader", "EfficientLoader", efficient_loader()),
        node("9", "ImageSave", "ImageSave", image_save()),
    ]
}

fn graph(nodes: Vec<Node>) -> Workflow {
    Workflow::from_json(&registry(), RoleKeyPolicy::Title, nodes).unwrap()
}

fn dump(wf: &Workflow, title: &str) -> String {
    format!("{:?}", wf.get_node(title).unwrap())
}

fn line_art() -> Inputs {
    Inputs::LineArtPreprocessor(LineArtPreprocessor { coarse: s("old"), resolution: 64, image: edge("10") })
}

fn line_art_standard() -> Inputs {
    Inputs::LineartStandardPreprocessor(LineartStandardPreprocessor {
        guassian_sigma: fx(6_000_000),
        intensity_threshold: 8,
        resolution: 64,
        image: Some(edge("10")),
    })
}

fn tile() -> Inputs {
    Inputs::TilePreprocessor(TilePreprocessor { pyrup_iters: 9, resolution: 64, image: Some(edge("10")) })
}

fn by_name() -> Inputs {
    Inputs::ImagePreprocessor(ImagePreprocessor { preprocessor: s("old"), resolution: 64, image: Some(edge("10")) })
}

fn openpose() -> Inputs {
    Inputs::OpenposePreprocessor(OpenposePreprocessor {
        detect_hand: s("enable"),
        detect_body: s("enable"),
        detect_face: s("enable"),
        resolution: 64,
        image: edge("10"),
    })
}

fn preprocessor_nodes() -> Vec<Node> {
    let mut nodes = base_nodes();
    nodes.push(node("31", "LineArtPreprocessor", "LineArtPreprocessor", line_art()));
    nodes.push(node("32", "LineartStandardPreprocessor", "LineartStandardPreprocessor", line_art_standard()));
    nodes.push(node("33", "TilePreprocessor", "TilePreprocessor", tile()));
    nodes.push(node("34", "ImagePreprocessor", "ImagePreprocessor", by_name()));
    nodes.push(node("35", "OpenposePreprocessor", "OpenposePreprocessor", openpose()));
    nodes
}

fn cfg_for(backend: &str, resolution: u16) -> CnCfg {
    CnCfg { preprocessor: s(backend), resolution, ..CnCfg::default() }
}

fn slot_entry<'a>(types: &'a Vec<String>, named: &'a Vec<String>, resolution: &'a Vec<u16>) -> ACtrlnet<'a> {
    ACtrlnet {
        ctrl_type: types,
        preprocessor: named,
        start_min: fx(0),
        start_max: fx(100_000),
        end_min: fx(900_000),
        end_max: fx(1_000_000),
        strength_min: fx(400_000),
        strength_max: fx(600_000),
        resolution,
    }
}

#[test]
fn slot_values_are_drawn_from_entry_and_table() {
    let gen = generator();
    let types = strs(&["edge", "line"]);
    let none = Vec::new();
    let res = vec![0u16, 640];
    let entry = slot_entry(&types, &none, &res);
    let (mut edge_seen, mut line_seen) = (false, false);
    for _ in 0..300 {
        let cfg = gen.rand_cn_cfg(&entry, (512, 768)).unwrap();
        assert!([400_000, 450_000, 500_000, 550_000, 600_000].contains(&cfg.weight.micros));
        assert!([0, 50_000, 100_000].contains(&cfg.start.micros));
        assert!([900_000, 950_000, 1_000_000].contains(&cfg.end.micros));
        assert!(cfg.resolution == 512 || cfg.resolution == 640);
        match cfg.my_name.as_str() {
            "canny" => {
                edge_seen = true;
                assert_eq!(cfg.preprocessor, "CannyEdgePreprocessor");
                assert!(cfg.model == "canny_a" || cfg.model == "canny_b");
            }
            "realistic" => {
                line_seen = true;
                assert_eq!(cfg.preprocessor, "LineArtPreprocessor");
                assert_eq!(cfg.model, "lineart");
            }
            "standard" => {
                line_seen = true;
                assert_eq!(cfg.preprocessor, "LineartStandardPreprocessor");
                assert_eq!(cfg.model, "lineart");
            }
            other => panic!("{}", other),
        }
    }
    assert!(edge_seen && line_seen);
    // a preprocessor that the entry names goes before those of the type; one
    // that the registry does not list keeps its name
    let named = strs(&["depth_midas"]);
    let types = strs(&["edge"]);
    let entry = slot_entry(&types, &named, &res);
    let cfg = gen.rand_cn_cfg(&entry, (512, 768)).unwrap();
    assert_eq!(cfg.my_name, "depth_midas");
    assert_eq!(cfg.preprocessor, "depth_midas");
}

#[test]
fn slot_values_need_the_table() {
    let gen = generator();
    let none = Vec::new();
    let res = vec![512u16];
    for missing in ["unheard", "bare", "blind"] {
        let types = strs(&[missing]);
        let entry = slot_entry(&types, &none, &res);
        match gen.rand_cn_cfg(&entry, (512, 768)) {
            Err(AppError::MissingConfig(t)) => assert_eq!(t, missing),
            other => panic!("{:?}", other),
        }
    }
    // a type without preprocessors will do where the entry names one
    let types = strs(&["blind"]);
    let named = strs(&["canny"]);
    let entry = slot_entry(&types, &named, &res);
    assert_eq!(gen.rand_cn_cfg(&entry, (1, 1)).unwrap().model, "m");
    assert!(gen.find_cn("edge").is_some());
    assert!(gen.find_cn("Edge").is_none());
}

#[test]
fn preprocessor_step_configures_by_role() {
    let gen = generator();
    let mut acn = cn_entry();
    for _ in 0..50 {
        let mut wf = graph(preprocessor_nodes());
        let id = gen.rand_preprocessor(&mut wf, &cfg_for("CannyEdgePreprocessor", 512), &acn).unwrap();
        assert_eq!(id, "30");
        let c = wf.get_node("CannyEdgePreprocessor").unwrap().canny_edge_preprocessor().unwrap();
        assert!([40, 60, 80, 100].contains(&c.low_threshold));
        assert_eq!(c.high_threshold, 2 * c.low_threshold);
        assert_eq!(c.resolution, 512);
        assert_eq!(c.image.id, "10");

        let id = gen.rand_preprocessor(&mut wf, &cfg_for("LineArtPreprocessor", 640), &acn).unwrap();
        assert_eq!(id, "31");
        let l = wf.get_node("LineArtPreprocessor").unwrap().line_art_preprocessor().unwrap();
        assert!(l.coarse == "enable" || l.coarse == "disable");
        assert_eq!(l.resolution, 640);

        let id = gen.rand_preprocessor(&mut wf, &cfg_for("LineartStandardPreprocessor", 704), &acn).unwrap();
        assert_eq!(id, "32");
        let l = wf.get_node("LineartStandardPreprocessor").unwrap().lineart_standard_preprocessor().unwrap();
        assert_eq!((l.resolution, l.intensity_threshold), (704, 8));

        let id = gen.rand_preprocessor(&mut wf, &cfg_for("TilePreprocessor", 768), &acn).unwrap();
        assert_eq!(id, "33");
        let t = wf.get_node("TilePreprocessor").unwrap().tile_preprocessor().unwrap();
        assert!((1..=3).contains(&t.pyrup_iters));
        assert_eq!(t.resolution, 768);

        // a backend name that is no class goes to the preprocessor chosen by name
        let id = gen.rand_preprocessor(&mut wf, &cfg_for("depth_midas", 832), &acn).unwrap();
        assert_eq!(id, "34");
        let p = wf.get_node("ImagePreprocessor").unwrap().image_preprocessor().unwrap();
        assert_eq!((p.preprocessor.as_str(), p.resolution), ("depth_midas", 832));

        // a preprocessor that the engine does not configure is found and left
        let before = dump(&wf, "OpenposePreprocessor");
        let id = gen.rand_preprocessor(&mut wf, &cfg_for("OpenposePreprocessor", 896), &acn).unwrap();
        assert_eq!(id, "35");
        assert_eq!(dump(&wf, "OpenposePreprocessor"), before);
    }
    acn.canny_low_threshold = 50;
    acn.canny_high_threshold = 180;
    acn.tile_pyrup_iters = 7;
    let mut wf = graph(preprocessor_nodes());
    gen.rand_preprocessor(&mut wf, &cfg_for("CannyEdgePreprocessor", 512), &acn).unwrap();
    let c = wf.get_node("CannyEdgePreprocessor").unwrap().canny_edge_preprocessor().unwrap();
    assert_eq!((c.low_threshold, c.high_threshold), (50, 180));
    gen.rand_preprocessor(&mut wf, &cfg_for("TilePreprocessor", 512), &acn).unwrap();
    assert_eq!(wf.get_node("TilePreprocessor").unwrap().tile_preprocessor().unwrap().pyrup_iters, 7);
}

#[test]
fn preprocessor_step_needs_its_node() {
    let gen = generator();
    let acn = cn_entry();
    let mut wf = graph(vec![node("3", "KSampler", "KSampler", sampler())]);
    match gen.rand_preprocessor(&mut wf, &cfg_for("CannyEdgePreprocessor", 1), &acn) {
        Err(AppError::NotFound(k)) => assert_eq!(k, "CannyEdgePreprocessor"),
        other => panic!("{:?}", other),
    }
    match gen.rand_preprocessor(&mut wf, &cfg_for("whatever", 1), &acn) {
        Err(AppError::NotFound(k)) => assert_eq!(k, "ImagePreprocessor"),
        other => panic!("{:?}", other),
    }
    let mut wf = graph(vec![node("3", "KSampler", "TilePreprocessor", sampler())]);
    match gen.rand_preprocessor(&mut wf, &cfg_for("TilePreprocessor", 1), &acn) {
        Err(AppError::ShapeMismatch(t)) => assert_eq!(t, "TilePreprocessor"),
        other => panic!("{:?}", other),
    }
    assert_eq!(wf.get_node("TilePreprocessor").unwrap().k_sampler().unwrap().seed, 1);
}

#[test]
fn control_net_step_wires_each_enabled_slot() {
    let gen = generator();
    let mut ac = catalog();
    let mut acn = cn_entry();
    acn.switch_3 = true;
    acn.ctrl_type_3 = strs(&["line", "tile"]);
    acn.resolution_3 = vec![0];
    acn.strength_min_3 = fx(900_000);
    acn.strength_max_3 = fx(900_000);
    ac.ctrlnet_stack = Some(acn);
    for _ in 0..100 {
        let mut wf = graph(preprocessor_nodes());
        gen.rand_cn(&mut wf, &ac, (512, 768)).unwrap();
        let stack = wf.get_node("CtrlnetStack").unwrap().ctrlnet_stack().unwrap();
        assert_eq!(stack.switch_1, "On");
        assert!(stack.controlnet_1 == "canny_a" || stack.controlnet_1 == "canny_b");
        assert!([400_000, 450_000, 500_000, 550_000, 600_000].contains(&stack.controlnet_strength_1.micros));
        assert_eq!(stack.start_percent_1, fx(0));
        assert_eq!(stack.end_percent_1, fx(1_000_000));
        let image = stack.image_1.as_ref().unwrap();
        assert_eq!((image.id.as_str(), image.slot), ("30", 0));
        assert_eq!(wf.get_node("CannyEdgePreprocessor").unwrap().id, image.id);
        // the slot that was on in the template is reset
        assert_eq!(stack.switch_2, "Off");
        assert_eq!(stack.controlnet_2, "None");
        assert_eq!(stack.controlnet_strength_2, fx(1_000_000));
        assert_eq!(stack.start_percent_2, fx(0));
        assert_eq!(stack.end_percent_2, fx(1_000_000));
        assert!(stack.image_2.is_none());
        assert_eq!(stack.switch_3, "On");
        assert_eq!(stack.controlnet_strength_3, fx(900_000));
        let image = stack.image_3.as_ref().unwrap();
        match stack.controlnet_3.as_str() {
            "lineart" => assert!(image.id == "31" || image.id == "32"),
            "tile_m" => assert_eq!(image.id, "33"),
            other => panic!("{}", other),
        }
        let at = wf.by_id(&image.id).unwrap();
        match &at.inputs {
            Inputs::LineArtPreprocessor(p) => assert_eq!(p.resolution, 512),
            Inputs::LineartStandardPreprocessor(p) => assert_eq!(p.resolution, 512),
            Inputs::TilePreprocessor(p) => assert_eq!(p.resolution, 512),
            other => panic!("{:?}", other),
        }
        let c = wf.get_node("CannyEdgePreprocessor").unwrap().canny_edge_preprocessor().unwrap();
        assert_eq!(c.resolution, 512);
    }
}

#[test]
fn control_net_step_is_idle_without_an_entry() {
    let gen = generator();
    let ac = catalog();
    let mut wf = graph(base_nodes());
    let before = format!("{:?}", wf);
    gen.rand_cn(&mut wf, &ac, (512, 768)).unwrap();
    assert_eq!(format!("{:?}", wf), before);
}

#[test]
fn control_net_step_resets_the_stack_with_every_slot_off() {
    let gen = generator();
    let mut ac = catalog();
    let mut acn = cn_entry();
    acn.switch_1 = false;
    ac.ctrlnet_stack = Some(acn);
    let mut nodes = base_nodes();
    if let Inputs::CtrlnetStack(stack) = &mut nodes[1].inputs {
        stack.image_2 = Some(edge("30"));
    }
    let mut wf = graph(nodes);
    let others = dump(&wf, "CannyEdgePreprocessor");
    gen.rand_cn(&mut wf, &ac, (512, 768)).unwrap();
    let stack = wf.get_node("CtrlnetStack").unwrap().ctrlnet_stack().unwrap();
    // the slot that the template had switched on is inert, its wiring kept
    assert_eq!(stack.switch_2, "Off");
    assert_eq!(stack.controlnet_2, "None");
    assert_eq!(stack.image_2.as_ref().unwrap().id, "30");
    // and no number of the template is left
    assert_eq!(stack.controlnet_strength_3, fx(1_000_000));
    let mut expected = CtrlnetStack::default();
    expected.image_2 = Some(edge("30"));
    assert_eq!(format!("{:?}", stack), format!("{:?}", expected));
    assert_eq!(dump(&wf, "CannyEdgePreprocessor"), others);
    // the stack is needed all the same
    let mut wf = graph(vec![node("3", "KSampler", "KSampler", sampler())]);
    match gen.rand_cn(&mut wf, &ac, (512, 768)) {
        Err(AppError::NotFound(k)) => assert_eq!(k, "CtrlnetStack"),
        other => panic!("{:?}", other),
    }
}

#[test]
fn control_net_step_errors() {
    let gen = generator();
    let mut ac = catalog();
    ac.ctrlnet_stack = Some(cn_entry());
    let mut wf = graph(vec![node("3", "KSampler", "KSampler", sampler())]);
    match gen.rand_cn(&mut wf, &ac, (512, 768)) {
        Err(AppError::NotFound(k)) => assert_eq!(k, "CtrlnetStack"),
        other => panic!("{:?}", other),
    }
    let mut wf = graph(vec![node("21", "CtrlnetStack", "CtrlnetStack", ctrlnet_stack())]);
    match gen.rand_cn(&mut wf, &ac, (512, 768)) {
        Err(AppError::NotFound(k)) => assert_eq!(k, "CannyEdgePreprocessor"),
        other => panic!("{:?}", other),
    }
    let mut acn = cn_entry();
    acn.ctrl_type_1 = strs(&["unheard"]);
    ac.ctrlnet_stack = Some(acn);
    let mut wf = graph(base_nodes());
    match gen.rand_cn(&mut wf, &ac, (512, 768)) {
        Err(AppError::MissingConfig(t)) => assert_eq!(t, "unheard"),
        other => panic!("{:?}", other),
    }
    let acn = ac.ctrlnet_stack.as_ref().unwrap();
    let mut wf = graph(base_nodes());
    let before = format!("{:?}", wf);
    assert!(gen.rand_cn_slot(&mut wf, acn, (1, 1), IdxControlNet::ControlNet1).is_err());
    assert_eq!(format!("{:?}", wf), before);
    assert!(gen.rand_cn2(&mut wf, acn, (1, 1)).is_ok());
    assert!(gen.rand_cn3(&mut wf, acn, (1, 1)).is_ok());
    assert!(gen.rand_cn1(&mut wf, acn, (1, 1)).is_err());
    assert_eq!(format!("{:?}", wf), before);
}

fn lora_entry() -> ALoraStack {
    ALoraStack {
        title: s("LoraStack"),
        switch_1: true,
        model_name_1: strs(&["ink", "oil"]),
        strength_min_1: fx(300_000),
        strength_max_1: fx(500_000),
        switch_2: false,
        model_name_2: Vec::new(),
        strength_min_2: fx(0),
        strength_max_2: fx(0),
        switch_3: true,
        model_name_3: strs(&["chalk"]),
        strength_min_3: fx(800_000),
        strength_max_3: fx(800_000),
    }
}

fn stacker_entry(lora_count: u8) -> ALoraStacker {
    ALoraStacker {
        title: s("LoraStacker"),
        lora_count,
        model_name_1: strs(&["one"]),
        strength_min_1: fx(100_000),
        strength_max_1: fx(100_000),
        model_name_2: strs(&["two_a", "two_b"]),
        strength_min_2: fx(200_000),
        strength_max_2: fx(400_000),
        model_name_3: strs(&["three"]),
        strength_min_3: fx(300_000),
        strength_max_3: fx(300_000),
        model_name_4: strs(&["four"]),
        strength_min_4: fx(400_000),
        strength_max_4: fx(400_000),
    }
}

fn lora_nodes() -> Vec<Node> {
    let mut stack = LoraStack::default();
    stack.switch_2 = s("On");
    stack.lora_name_2 = s("stale");
    stack.model_weight_2 = fx(123_000);
    let mut stacker = LoraStacker::default();
    stacker.lora_count = 4;
    stacker.lora_name_4 = s("stale");
    stacker.model_str_4 = fx(123_000);
    let mut nodes = base_nodes();
    nodes.push(node("20", "LoraStack", "LoraStack", Inputs::LoraStack(stack)));
    nodes.push(node("22", "LoraStacker", "LoraStacker", Inputs::LoraStacker(stacker)));
    nodes
}

#[test]
fn lora_values_are_drawn() {
    let names = strs(&["ink", "oil"]);
    for _ in 0..100 {
        let cfg = rand_lora_cfg(&names, fx(300_000), fx(500_000));
        assert!(cfg.lora_name == "ink" || cfg.lora_name == "oil");
        assert!([300_000, 350_000, 400_000, 450_000, 500_000].contains(&cfg.model_weight.micros));
        assert_eq!(cfg.clip_weight, cfg.model_weight);
    }
}

#[test]
fn lora_step_resets_then_enables() {
    let gen = generator();
    let mut ac = catalog();
    ac.lora_stack = Some(lora_entry());
    ac.lora_stacker = Some(stacker_entry(2));
    for _ in 0..50 {
        let mut wf = graph(lora_nodes());
        gen.rand_lora(&mut wf, &ac).unwrap();
        let st = wf.get_node("LoraStack").unwrap().lora_stack().unwrap();
        assert_eq!(st.switch_1, "On");
        assert!(st.lora_name_1 == "ink" || st.lora_name_1 == "oil");
        assert!([300_000, 350_000, 400_000, 450_000, 500_000].contains(&st.model_weight_1.micros));
        assert_eq!(st.clip_weight_1, st.model_weight_1);
        assert_eq!(st.switch_2, "Off");
        assert_eq!(st.lora_name_2, "None");
        assert_eq!(st.model_weight_2, fx(1_000_000));
        assert_eq!(st.switch_3, "On");
        assert_eq!(st.lora_name_3, "chalk");
        assert_eq!(st.model_weight_3, fx(800_000));
        let sk = wf.get_node("LoraStacker").unwrap().lora_stacker().unwrap();
        assert_eq!(sk.lora_count, 2);
        assert_eq!(sk.input_mode, "simple");
        assert_eq!(sk.lora_name_1, "one");
        assert_eq!((sk.lora_wt_1, sk.model_str_1, sk.clip_str_1), (fx(100_000), fx(100_000), fx(100_000)));
        assert!(sk.lora_name_2 == "two_a" || sk.lora_name_2 == "two_b");
        assert!([200_000, 250_000, 300_000, 350_000, 400_000].contains(&sk.lora_wt_2.micros));
        assert_eq!(sk.model_str_2, sk.lora_wt_2);
        assert_eq!(sk.lora_name_3, "None");
        assert_eq!(sk.lora_name_4, "None");
        assert_eq!(sk.model_str_4, fx(1_000_000));
    }
}

#[test]
fn lora_step_edge_cases() {
    let gen = generator();
    let mut ac = catalog();
    // no slot switched on: the stack is reset all the same
    let mut entry = lora_entry();
    entry.switch_1 = false;
    entry.switch_3 = false;
    ac.lora_stack = Some(entry);
    // more slots than a stacker has
    ac.lora_stacker = Some(stacker_entry(200));
    let mut wf = graph(lora_nodes());
    gen.rand_lora(&mut wf, &ac).unwrap();
    let st = wf.get_node("LoraStack").unwrap().lora_stack().unwrap();
    assert_eq!((st.switch_1.as_str(), st.switch_2.as_str(), st.switch_3.as_str()), ("Off", "Off", "Off"));
    let sk = wf.get_node("LoraStacker").unwrap().lora_stacker().unwrap();
    assert_eq!(sk.lora_count, 200);
    assert_eq!(sk.lora_name_3, "three");
    assert_eq!(sk.lora_name_4, "four");
    assert_eq!(sk.lora_wt_4, fx(400_000));
    // a catalog without LoRA entries leaves the nodes alone
    let ac = catalog();
    let mut wf = graph(lora_nodes());
    let before = format!("{:?}", wf);
    gen.rand_lora(&mut wf, &ac).unwrap();
    assert_eq!(format!("{:?}", wf), before);
    // the stacker is looked for before the stack is touched
    let mut ac = catalog();
    ac.lora_stack = Some(lora_entry());
    ac.lora_stacker = Some(stacker_entry(1));
    let nodes: Vec<Node> = lora_nodes().into_iter().filter(|n| n.meta.title != "LoraStacker").collect();
    let mut wf = graph(nodes);
    let before = format!("{:?}", wf);
    match gen.rand_lora(&mut wf, &ac) {
        Err(AppError::NotFound(k)) => assert_eq!(k, "LoraStacker"),
        other => panic!("{:?}", other),
    }
    assert_eq!(format!("{:?}", wf), before);
    let mut wf = graph(base_nodes());
    match gen.rand_lora(&mut wf, &ac) {
        Err(AppError::NotFound(k)) => assert_eq!(k, "LoraStack"),
        other => panic!("{:?}", other),
    }
}

#[test]
fn stacker_slot_by_number() {
    let gen = generator();
    let entry = stacker_entry(4);
    let mut sk = LoraStacker::default();
    gen.rand_loran(3, &entry, &mut sk);
    assert_eq!(sk.lora_name_3, "three");
    assert_eq!(sk.lora_name_1, "None");
    let before = format!("{:?}", sk);
    gen.rand_loran(0, &entry, &mut sk);
    gen.rand_loran(5, &entry, &mut sk);
    assert_eq!(format!("{:?}", sk), before);
    let mut st = LoraStack::default();
    let entry = lora_entry();
    gen.rand_lora2(&mut st, &entry);
    assert_eq!(st.switch_2, "Off");
    gen.rand_lora3(&mut st, &entry);
    assert_eq!(st.switch_3, "On");
    gen.rand_lora1(&mut st, &entry);
    assert_eq!(st.switch_1, "On");
}

fn filter_node() -> Node {
    node(
        "43",
        "ImageFilter",
        "ImageFilter",
        Inputs::ImageFilter(ImageFilter {
            brightness: fx(0),
            contrast: fx(1_000_000),
            saturation: fx(1_000_000),
            sharpness: fx(1_000_000),
            blur: 0,
            gaussian_blur: fx(0),
            edge_enhance: fx(0),
            detail_enhance: s("false"),
            image: Some(edge("10")),
        }),
    )
}

fn filter_entry() -> AImageFilter {
    AImageFilter {
        title: s("ImageFilter"),
        switch: true,
        brightness: Some(fx(100_000)),
        contrast: None,
        saturation: Some(fx(1_200_000)),
        sharpness: None,
        blur: Some(2),
        gaussian_blur: None,
        edge_enhance: Some(fx(300_000)),
        detail_enhance: Some(s("true")),
    }
}

#[test]
fn filter_step_sets_what_the_catalog_gives() {
    let gen = generator();
    let mut nodes = base_nodes();
    nodes.push(filter_node());
    let mut wf = graph(nodes);
    let mut entry = filter_entry();
    gen.apply_filter(&mut wf, &entry).unwrap();
    let f = wf.get_node("ImageFilter").unwrap().image_filter().unwrap();
    assert_eq!(f.brightness, fx(100_000));
    assert_eq!(f.contrast, fx(1_000_000));
    assert_eq!(f.saturation, fx(1_200_000));
    assert_eq!(f.sharpness, fx(1_000_000));
    assert_eq!(f.blur, 2);
    assert_eq!(f.gaussian_blur, fx(0));
    assert_eq!(f.edge_enhance, fx(300_000));
    assert_eq!(f.detail_enhance, "true");
    assert_eq!(f.image.as_ref().unwrap().id, "10");
    entry.switch = false;
    entry.blur = Some(9);
    gen.apply_filter(&mut wf, &entry).unwrap();
    assert_eq!(wf.get_node("ImageFilter").unwrap().image_filter().unwrap().blur, 2);
    entry.switch = true;
    let mut wf = graph(base_nodes());
    assert!(matches!(gen.apply_filter(&mut wf, &entry), Err(AppError::NotFound(_))));
    entry.switch = false;
    assert!(gen.apply_filter(&mut wf, &entry).is_ok());
}

#[test]
fn background_step_feeds_the_filter() {
    let gen = generator();
    let rembg = || node("44", "ImageRembg", "ImageRembg", Inputs::ImageRembg(ImageRembg { model_name: s("old"), image: Some(edge("10")) }));
    let mut nodes = base_nodes();
    nodes.push(filter_node());
    nodes.push(rembg());
    let mut wf = graph(nodes);
    let mut entry = AImageRembg { title: s("ImageRembg"), switch: true, model_name: s("u2net") };
    gen.apply_rembg(&mut wf, &entry).unwrap();
    let r = wf.get_node("ImageRembg").unwrap().image_rembg().unwrap();
    assert_eq!(r.model_name, "u2net");
    assert_eq!(r.image.as_ref().unwrap().id, "10");
    let f = wf.get_node("ImageFilter").unwrap().image_filter().unwrap();
    assert_eq!((f.image.as_ref().unwrap().id.as_str(), f.image.as_ref().unwrap().slot), ("44", 0));
    assert_eq!(f.contrast, fx(1_000_000));
    // without the filter nothing is changed
    let mut nodes = base_nodes();
    nodes.push(rembg());
    let mut wf = graph(nodes);
    match gen.apply_rembg(&mut wf, &entry) {
        Err(AppError::NotFound(k)) => assert_eq!(k, "ImageFilter"),
        other => panic!("{:?}", other),
    }
    assert_eq!(wf.get_node("ImageRembg").unwrap().image_rembg().unwrap().model_name, "old");
    let mut wf = graph(base_nodes());
    match gen.apply_rembg(&mut wf, &entry) {
        Err(AppError::NotFound(k)) => assert_eq!(k, "ImageRembg"),
        other => panic!("{:?}", other),
    }
    entry.switch = false;
    assert!(gen.apply_rembg(&mut wf, &entry).is_ok());
}

fn adapter_node(image: &str) -> Node {
    node(
        "60",
        "IPAdapterApply",
        "IPAdapterApply",
        Inputs::IPAdapterApply(IPAdapterApply {
            weight: fx(1_000_000),
            noise: fx(0),
            weight_type: s("linear"),
            start_at: fx(0),
            end_at: fx(1_000_000),
            unfold_batch: false,
            ipadapter: edge("61"),
            clip_vision: edge("62"),
            image: edge(image),
            model: edge("4"),
        }),
    )
}

fn adapter_entry() -> AIPAdapter {
    AIPAdapter {
        title: s("IPAdapterApply"),
        switch: true,
        weight_min: fx(500_000),
        weight_max: fx(700_000),
        noise_min: fx(0),
        noise_max: fx(0),
        start_min: fx(0),
        start_max: fx(50_000),
        end_min: fx(1_000_000),
        end_max: fx(1_000_000),
        image: strs(&["ref_a.png", "ref_b.png"]),
    }
}

#[test]
fn adapter_step_wires_the_sampler() {
    let gen = generator();
    let entry = adapter_entry();
    for _ in 0..50 {
        let mut nodes = base_nodes();
        nodes.push(adapter_node("63"));
        nodes.push(node("63", "LoadImage", "LoadImageIPA", load_image("old_ref.png")));
        let mut wf = graph(nodes);
        gen.apply_ip_adapter(&mut wf, &entry).unwrap();
        let a = wf.get_node("IPAdapterApply").unwrap().i_p_adapter_apply().unwrap();
        assert!([500_000, 550_000, 600_000, 650_000, 700_000].contains(&a.weight.micros));
        assert_eq!(a.noise, fx(0));
        assert_eq!(a.start_at, fx(50_000));
        assert_eq!(a.end_at, fx(1_000_000));
        assert_eq!(a.weight_type, "linear");
        assert_eq!(a.image.id, "63");
        let k = wf.get_node("KSampler").unwrap().k_sampler().unwrap();
        assert_eq!((k.model.as_ref().unwrap().id.as_str(), k.model.as_ref().unwrap().slot), ("60", 0));
        assert_eq!(k.seed, 1);
        assert_eq!(k.sampler_name, "euler");
        let l = wf.get_node("LoadImageIPA").unwrap().load_image().unwrap();
        assert!(l.image == "ref_a.png" || l.image == "ref_b.png");
        assert_eq!(wf.get_node("LoadImage").unwrap().load_image().unwrap().image, "old.png");
    }
}

#[test]
fn adapter_step_errors() {
    let gen = generator();
    let mut entry = adapter_entry();
    let mut wf = graph(base_nodes());
    match gen.apply_ip_adapter(&mut wf, &entry) {
        Err(AppError::NotFound(k)) => assert_eq!(k, "IPAdapterApply"),
        other => panic!("{:?}", other),
    }
    // the reference image's loader is missing
    let mut nodes = base_nodes();
    nodes.push(adapter_node("63"));
    let mut wf = graph(nodes);
    let before = format!("{:?}", wf);
    match gen.apply_ip_adapter(&mut wf, &entry) {
        Err(AppError::NotFound(k)) => assert_eq!(k, "63"),
        other => panic!("{:?}", other),
    }
    assert_eq!(format!("{:?}", wf), before);
    // the edge names a node that loads no image
    let mut nodes = base_nodes();
    nodes.push(adapter_node("3"));
    let mut wf = graph(nodes);
    match gen.apply_ip_adapter(&mut wf, &entry) {
        Err(AppError::ShapeMismatch(t)) => assert_eq!(t, "KSampler"),
        other => panic!("{:?}", other),
    }
    // no sampler
    let mut wf = graph(vec![adapter_node("63"), node("63", "LoadImage", "LoadImageIPA", load_image("x"))]);
    match gen.apply_ip_adapter(&mut wf, &entry) {
        Err(AppError::NotFound(k)) => assert_eq!(k, "KSampler"),
        other => panic!("{:?}", other),
    }
    entry.switch = false;
    assert!(gen.apply_ip_adapter(&mut wf, &entry).is_ok());
}

#[test]
fn reseed_changes_the_seed_only() {
    let gen = generator();
    let mut wf = graph(base_nodes());
    let mut seeds = Vec::new();
    for _ in 0..20 {
        gen.reseed(&mut wf).unwrap();
        let k = wf.get_node("KSampler").unwrap().k_sampler().unwrap();
        assert!(0 <= k.seed && k.seed <= u32::MAX as i64);
        assert_eq!(k.steps, 20);
        seeds.push(k.seed);
    }
    seeds.sort();
    seeds.dedup();
    assert!(seeds.len() > 1);
    let mut wf = graph(vec![node("10", "LoadImage", "LoadImage", load_image("x"))]);
    assert!(matches!(gen.reseed(&mut wf), Err(AppError::NotFound(_))));
}

#[test]
fn end_to_end_scenario() {
    // a template of sampler, control stack and image loader, with the nodes
    // that every mutation needs, and a catalog that enables slot 1 for edges
    let gen = generator();
    let mut ac = catalog();
    ac.ctrlnet_stack = Some(cn_entry());
    let mut strengths = Vec::new();
    for idx in 0..60 {
        let mut wf = graph(base_nodes());
        gen.rand(&mut wf, &ac, idx).unwrap();
        let stack = wf.get_node("CtrlnetStack").unwrap().ctrlnet_stack().unwrap();
        assert_eq!(stack.switch_1, "On");
        assert!([400_000, 450_000, 500_000, 550_000, 600_000].contains(&stack.controlnet_strength_1.micros));
        strengths.push(stack.controlnet_strength_1.micros);
        let pre = wf.get_node("CannyEdgePreprocessor").unwrap();
        assert!(pre.canny_edge_preprocessor().is_ok());
        let image = stack.image_1.as_ref().unwrap();
        assert_eq!(image.id, pre.id);
        assert_eq!(image.slot, 0);
        assert_eq!(stack.switch_2, "Off");
        assert_eq!(stack.switch_3, "Off");
        // the other steps have run too
        let images = ["a.png", "land_b.png", "c.jpg"];
        assert_eq!(wf.get_node("LoadImage").unwrap().load_image().unwrap().image, images[idx % 3]);
        let l = wf.get_node("EfficientLoader").unwrap().efficient_loader().unwrap();
        let size = if idx % 3 == 1 { (768, 512) } else { (512, 768) };
        assert_eq!((l.empty_latent_width, l.empty_latent_height), size);
        assert_eq!(pre.canny_edge_preprocessor().unwrap().resolution, 512);
        let k = wf.get_node("KSampler").unwrap().k_sampler().unwrap();
        assert!((20..=30).contains(&k.steps));
        assert_eq!(wf.to_json().len(), base_nodes().len());
    }
    strengths.sort();
    strengths.dedup();
    assert!(strengths.len() > 1);
}

#[test]
fn mutation_refuses_an_incomplete_catalog() {
    let gen = generator();
    let check = |ac: &AutoCfg, title: &str| {
        let mut wf = graph(base_nodes());
        let before = format!("{:?}", wf);
        match gen.rand(&mut wf, ac, 0) {
            Err(AppError::MissingConfig(t)) => assert_eq!(t, title),
            other => panic!("{:?}", other),
        }
        assert_eq!(format!("{:?}", wf), before);
        assert!(matches!(ac.check(), Err(AppError::MissingConfig(_))));
    };
    assert!(catalog().check().is_ok());
    let mut ac = catalog();
    ac.sampler.scheduler = Vec::new();
    check(&ac, "KSampler");
    let mut ac = catalog();
    ac.efficient.clip_skip = Vec::new();
    check(&ac, "EfficientLoader");
    let mut ac = catalog();
    ac.load_image = Some(ALoadImage { title: s("LoadImage"), images: Vec::new() });
    check(&ac, "LoadImage");
    let mut ac = catalog();
    let mut entry = lora_entry();
    entry.model_name_3 = Vec::new();
    ac.lora_stack = Some(entry);
    check(&ac, "LoraStack");
    let mut ac = catalog();
    let mut entry = stacker_entry(4);
    entry.model_name_4 = Vec::new();
    ac.lora_stacker = Some(entry);
    check(&ac, "LoraStacker");
    let mut ac = catalog();
    let mut entry = cn_entry();
    entry.resolution_1 = Vec::new();
    ac.ctrlnet_stack = Some(entry);
    check(&ac, "CtrlnetStack");
    let mut ac = catalog();
    let mut entry = adapter_entry();
    entry.image = Vec::new();
    ac.ip_adapter = Some(entry);
    check(&ac, "IPAdapterApply");
    // what is switched off needs no candidates
    let mut ac = catalog();
    let mut entry = stacker_entry(3);
    entry.model_name_4 = Vec::new();
    ac.lora_stacker = Some(entry);
    let mut entry = adapter_entry();
    entry.image = Vec::new();
    entry.switch = false;
    ac.ip_adapter = Some(entry);
    assert!(ac.check().is_ok());
}

#[test]
fn mutation_ends_with_the_error_of_its_step() {
    let gen = generator();
    let ac = catalog();
    let mut wf = graph(vec![node("3", "KSampler", "KSampler", sampler())]);
    match gen.rand(&mut wf, &ac, 0) {
        Err(AppError::NotFound(k)) => assert_eq!(k, "LoadImage"),
        other => panic!("{:?}", other),
    }
    let mut wf = graph(vec![node("10", "LoadImage", "LoadImage", load_image("x"))]);
    match gen.rand(&mut wf, &ac, 0) {
        Err(AppError::NotFound(k)) => assert_eq!(k, "KSampler"),
        other => panic!("{:?}", other),
    }
    let mut ac = catalog();
    ac.image_filter = Some(filter_entry());
    let mut wf = graph(base_nodes());
    match gen.rand(&mut wf, &ac, 0) {
        Err(AppError::NotFound(k)) => assert_eq!(k, "ImageFilter"),
        other => panic!("{:?}", other),
    }
}

#[test]
fn mutation_with_every_step() {
    let gen = generator();
    let mut ac = catalog();
    ac.ctrlnet_stack = Some(cn_entry());
    ac.lora_stack = Some(lora_entry());
    ac.lora_stacker = Some(stacker_entry(1));
    ac.image_filter = Some(filter_entry());
    ac.image_rembg = Some(AImageRembg { title: s("ImageRembg"), switch: true, model_name: s("u2net") });
    ac.ip_adapter = Some(adapter_entry());
    let mut nodes = lora_nodes();
    nodes.push(filter_node());
    nodes.push(node("44", "ImageRembg", "ImageRembg", Inputs::ImageRembg(ImageRembg { model_name: s("old"), image: None })));
    nodes.push(adapter_node("63"));
    nodes.push(node("63", "LoadImage", "LoadImageIPA", load_image("old_ref.png")));
    let count = nodes.len();
    let mut wf = graph(nodes);
    gen.rand(&mut wf, &ac, 1).unwrap();
    assert_eq!(wf.get_node("LoadImage").unwrap().load_image().unwrap().image, "land_b.png");
    assert_eq!(wf.get_node("ImageSave").unwrap().image_save().unwrap().filename_prefix, "land_b");
    assert_eq!(wf.get_node("LoraStack").unwrap().lora_stack().unwrap().switch_1, "On");
    assert_eq!(wf.get_node("LoraStacker").unwrap().lora_stacker().unwrap().lora_name_1, "one");
    assert_eq!(wf.get_node("CtrlnetStack").unwrap().ctrlnet_stack().unwrap().image_1.as_ref().unwrap().id, "30");
    let f = wf.get_node("ImageFilter").unwrap().image_filter().unwrap();
    assert_eq!(f.blur, 2);
    assert_eq!(f.image.as_ref().unwrap().id, "44");
    assert_eq!(wf.get_node("KSampler").unwrap().k_sampler().unwrap().model.as_ref().unwrap().id, "60");
    let out = wf.to_json();
    assert_eq!(out.len(), count);
    assert_eq!(out[0].id, "3");
}

#[test]
fn catalog_entries_by_slot() {
    let mut acn = cn_entry();
    assert!(acn.switch());
    let one = acn.cfg(&IdxControlNet::ControlNet1).unwrap();
    assert_eq!(*one.ctrl_type, strs(&["edge"]));
    assert!(one.preprocessor.is_empty());
    assert_eq!((one.strength_min, one.strength_max), (fx(400_000), fx(600_000)));
    assert_eq!((one.start_min, one.end_max), (fx(0), fx(1_000_000)));
    assert_eq!(*one.resolution, vec![512]);
    assert!(acn.cfg(&IdxControlNet::ControlNet2).is_none());
    assert!(acn.cfg(&IdxControlNet::ControlNet3).is_none());
    acn.switch_1 = false;
    assert!(!acn.switch());
    assert!(acn.cfg(&IdxControlNet::ControlNet1).is_none());
    acn.switch_3 = true;
    acn.resolution_3 = vec![7, 8];
    assert!(acn.switch());
    assert_eq!(*acn.cfg(&IdxControlNet::ControlNet3).unwrap().resolution, vec![7, 8]);
    let mut lora = lora_entry();
    assert!(lora.switch());
    lora.switch_1 = false;
    lora.switch_3 = false;
    assert!(!lora.switch());
}
