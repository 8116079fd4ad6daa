#![allow(dead_code)]

use gan::{
    ACtrlnetStack, AEfficient, AEmptyImage, ALoadImage, ASampler, ASaveImage, ATagger, AppError,
    AutoCfg, CannyEdgePreprocessor, CropImage, Ctrlnet, CtrlnetStack, EdgeRef, EfficientLoader,
    EmptyImage, EmptyLatent, Fixed, Generator, ImageFilter, ImageSave, ImageScaleSide, Inputs,
    KSampler, LoadImage, Meta, Node, Prompt, Registry, RepeatLatent, RoleKeyPolicy, Tagger,
    TextConcat, TextString, Workflow,
};

fn fx(micros: i64) -> Fixed {
    Fixed::new(micros)
}

fn s(text: &str) -> String {
    text.to_string()
}

fn strs(texts: &[&str]) -> Vec<String> {
    texts.iter().map(|t| t.to_string()).collect()
}

fn edge(id: &str) -> EdgeRef {
    EdgeRef { id: s(id), slot: 0 }
}

fn node(id: &str, class: &str, title: &str, inputs: Inputs) -> Node {
    Node {
        inputs,
        class_type: s(class),
        meta: Meta { title: s(title) },
        id: s(id),
        extra: Vec::new(),
    }
}

fn registry() -> Registry {
    let same = [
        "KSampler",
        "LoadImage",
        "ImageSave",
        "EfficientLoader",
        "CtrlnetStack",
        "LoraStack",
        "LoraStacker",
        "CannyEdgePreprocessor",
        "LineArtPreprocessor",
        "LineartStandardPreprocessor",
        "TilePreprocessor",
        "ImagePreprocessor",
        "OpenposePreprocessor",
        "ImageScaleSide",
        "CropImage",
        "RepeatLatent",
        "EmptyLatent",
        "EmptyImage",
        "TextString",
        "TextConcat",
        "Tagger",
        "ImageFilter",
        "ImageRembg",
        "IPAdapterApply",
    ];
    Registry::new(
        same.iter().map(|n| (s(n), s(n))).collect(),
        vec![
            (s("canny"), s("CannyEdgePreprocessor")),
            (s("realistic"), s("LineArtPreprocessor")),
            (s("standard"), s("LineartStandardPreprocessor")),
            (s("tile"), s("TilePreprocessor")),
            (s("pose"), s("OpenposePreprocessor")),
        ],
    )
}

fn generator() -> Generator {
    Generator::new(
        registry(),
        vec![
            (s("edge"), Ctrlnet { model: strs(&["canny_a", "canny_b"]), preprocessor: strs(&["canny"]) }),
            (s("line"), Ctrlnet { model: strs(&["lineart"]), preprocessor: strs(&["realistic", "standard"]) }),
            (s("tile"), Ctrlnet { model: strs(&["tile_m"]), preprocessor: strs(&["tile"]) }),
            (s("depth"), Ctrlnet { model: strs(&["depth_m"]), preprocessor: strs(&["depth_midas"]) }),
            (s("pose"), Ctrlnet { model: strs(&["pose_m"]), preprocessor: strs(&["pose"]) }),
            (s("bare"), Ctrlnet { model: Vec::new(), preprocessor: strs(&["canny"]) }),
            (s("blind"), Ctrlnet { model: strs(&["m"]), preprocessor: Vec::new() }),
        ],
    )
}

fn sampler() -> Inputs {
    Inputs::KSampler(KSampler {
        seed: 1,
        sampler_name: s("euler"),
        scheduler: s("normal"),
        model: Some(edge("4")),
        positive: Some(edge("4")),
        negative: None,
        latent_image: None,
        cfg: fx(7_000_000),
        denoise: fx(1_000_000),
        steps: 20,
    })
}

fn load_image(image: &str) -> Inputs {
    Inputs::LoadImage(LoadImage { image: s(image), upload: s("image") })
}

fn image_save() -> Inputs {
    Inputs::ImageSave(ImageSave {
        output_path: s("old/path"),
        filename_prefix: s("old"),
        filename_delimiter: s("_"),
        filename_number_padding: 4,
        filename_number_start: s("false"),
        extension: s("png"),
        quality: 100,
        lossless_webp: s("false"),
        overwrite_mode: s("false"),
        show_history: s("false"),
        show_history_by_prefix: s("true"),
        embed_workflow: s("true"),
        show_previews: s("true"),
        images: Some(edge("8")),
    })
}

fn efficient_loader() -> Inputs {
    Inputs::EfficientLoader(EfficientLoader {
        ckpt_name: s("old.ckpt"),
        vae_name: s("old.vae"),
        lora_name: s("None"),
        positive: Prompt::Text(s("old positive")),
        negative: s("old negative"),
        token_normalization: s("none"),
        weight_interpretation: s("comfy"),
        lora_stack: Some(edge("20")),
        cnet_stack: Some(edge("21")),
        lora_model_strength: fx(1_000_000),
        lora_clip_strength: fx(1_000_000),
        empty_latent_width: 64,
        empty_latent_height: 64,
        clip_skip: -1,
        batch_size: 1,
    })
}

fn canny() -> Inputs {
    Inputs::CannyEdgePreprocessor(CannyEdgePreprocessor {
        low_threshold: 1,
        high_threshold: 2,
        resolution: 64,
        image: edge("10"),
    })
}

fn ctrlnet_stack() -> Inputs {
    let mut stack = CtrlnetStack::default();
    stack.switch_2 = s("On");
    stack.controlnet_2 = s("stale");
    stack.controlnet_strength_3 = fx(250_000);
    Inputs::CtrlnetStack(stack)
}

fn sampler_entry() -> ASampler {
    ASampler {
        title: s("KSampler"),
        steps_min: 20,
        steps_max: 30,
        cfg_min: fx(7_000_000),
        cfg_max: fx(8_000_000),
        denoise_min: fx(500_000),
        denoise_max: fx(500_000),
        sampler_name: strs(&["euler", "dpmpp_2m"]),
        scheduler: strs(&["karras"]),
    }
}

fn efficient_entry() -> AEfficient {
    AEfficient {
        title: s("EfficientLoader"),
        positive: strs(&["a plaster bust", "a still life"]),
        negative: strs(&["blurry"]),
        width: 512,
        height: 768,
        batch_size: 2,
        vae_name: strs(&["vae_a", "vae_b"]),
        clip_skip: vec![-1, -2],
        ckpt_name: s("model.ckpt"),
        weight_interpretation: s("A1111"),
    }
}

fn cn_entry() -> ACtrlnetStack {
    ACtrlnetStack {
        title: s("CtrlnetStack"),
        canny_low_threshold: 0,
        canny_high_threshold: 0,
        tile_pyrup_iters: 0,
        switch_1: true,
        ctrl_type_1: strs(&["edge"]),
        processor_1: Vec::new(),
        start_min_1: fx(0),
        start_max_1: fx(0),
        end_min_1: fx(1_000_000),
        end_max_1: fx(1_000_000),
        strength_min_1: fx(400_000),
        strength_max_1: fx(600_000),
        resolution_1: vec![512],
        switch_2: false,
        ctrl_type_2: Vec::new(),
        processor_2: Vec::new(),
        start_min_2: fx(0),
        start_max_2: fx(0),
        end_min_2: fx(0),
        end_max_2: fx(0),
        strength_min_2: fx(0),
        strength_max_2: fx(0),
        resolution_2: Vec::new(),
        switch_3: false,
        ctrl_type_3: Vec::new(),
        processor_3: Vec::new(),
        start_min_3: fx(0),
        start_max_3: fx(0),
        end_min_3: fx(0),
        end_max_3: fx(0),
        strength_min_3: fx(0),
        strength_max_3: fx(0),
        resolution_3: Vec::new(),
    }
}

fn catalog() -> AutoCfg {
    AutoCfg {
        workflows: strs(&["template.json"]),
        total: 10,
        ct_per_params: 2,
        efficient: efficient_entry(),
        sampler: sampler_entry(),
        save_image: ASaveImage { title: s("ImageSave"), output_path: s("out/dir"), filename_prefix: s("plain.v1") },
        load_image: Some(ALoadImage { title: s("LoadImage"), images: strs(&["a.png", "land_b.png", "c.jpg"]) }),
        image_filter: None,
        ctrlnet_stack: None,
        lora_stack: None,
        lora_stacker: None,
        empty_image: None,
        image_rembg: None,
        ip_adapter: None,
        tagger: None,
    }
}

fn base_nodes() -> Vec<Node> {
    vec![
        node("3", "KSampler", "KSampler", sampler()),
        node("21", "CtrlnetStack", "CtrlnetStack", ctrlnet_stack()),
        node("10", "LoadImage", "LoadImage", load_image("old.png")),
        node("30", "CannyEdgePreprocessor", "CannyEdgePreprocessor", canny()),
        node("4", "EfficientLoader", "EfficientLoader", efficient_loader()),
        node("9", "ImageSave", "ImageSave", image_save()),
    ]
}

fn graph(nodes: Vec<Node>) -> Workflow {
    Workflow::from_json(&registry(), RoleKeyPolicy::Title, nodes).unwrap()
}

fn dump(wf: &Workflow, title: &str) -> String {
    format!("{:?}", wf.get_node(title).unwrap())
}

fn scale_side() -> Inputs {
    Inputs::ImageScaleSide(ImageScaleSide {
        side_length: 1,
        side: s("Longest"),
        upscale_method: s("area"),
        crop: s("disabled"),
        image: Some(edge("10")),
    })
}

fn crop_image() -> Inputs {
    Inputs::CropImage(CropImage {
        target_w: 1,
        target_h: 1,
        crop_position: s("center"),
        offset: 3,
        interpolation: s("bilinear"),
        sharpening: fx(0),
        image: Some(edge("10")),
    })
}

fn repeat_latent() -> Inputs {
    Inputs::RepeatLatent(RepeatLatent { amount: 1, samples: edge("12") })
}

fn empty_latent() -> Inputs {
    Inputs::EmptyLatent(EmptyLatent { width: 1, height: 1, batch_size: 1 })
}

fn empty_image() -> Inputs {
    Inputs::EmptyImage(EmptyImage { width: 1, height: 1, batch_size: 1, color: 0 })
}

fn text_string() -> Inputs {
    Inputs::TextString(TextString { text: s("old"), text_b: s("b"), text_c: s("c"), text_d: s("d") })
}

fn text_concat() -> Inputs {
    Inputs::TextConcat(TextConcat {
        delimiter: s("comma"),
        text1: Some(edge("40")),
        text2: None,
        text3: None,
        text4: None,
    })
}

fn tagger() -> Inputs {
    Inputs::Tagger(Tagger {
        model: s("old-tagger"),
        threshold: fx(350_000),
        character_threshold: fx(850_000),
        replace_underscore: false,
        trailing_comma: false,
        exclude_tags: s(""),
        image: None,
    })
}

fn image_filter() -> Inputs {
    Inputs::ImageFilter(ImageFilter {
        brightness: fx(0),
        contrast: fx(1_000_000),
        saturation: fx(1_000_000),
        sharpness: fx(1_000_000),
        blur: 0,
        gaussian_blur: fx(0),
        edge_enhance: fx(0),
        detail_enhance: s("false"),
        image: Some(edge("10")),
    })
}

fn sized_nodes() -> Vec<Node> {
    let mut nodes = base_nodes();
    nodes.push(node("50", "ImageScaleSide", "ImageScaleSide", scale_side()));
    nodes.push(node("51", "CropImage", "CropImage", crop_image()));
    nodes.push(node("52", "RepeatLatent", "RepeatLatent", repeat_latent()));
    nodes.push(node("53", "EmptyLatent", "EmptyLatent", empty_latent()));
    nodes.push(node("54", "EmptyImage", "EmptyImage", empty_image()));
    nodes
}

fn text_nodes() -> Vec<Node> {
    let mut nodes = base_nodes();
    nodes.push(node("40", "TextString", "TextString", text_string()));
    nodes.push(node("41", "TextConcat", "TextConcat", text_concat()));
    nodes.push(node("42", "Tagger", "Tagger", tagger()));
    nodes.push(node("43", "ImageFilter", "ImageFilter", image_filter()));
    nodes
}

#[test]
fn sampler_step_draws_within_the_catalog() {
    let gen = generator();
    let ac = catalog();
    for _ in 0..200 {
        let mut wf = graph(base_nodes());
        let before = dump(&wf, "LoadImage");
        gen.rand_sampler(&mut wf, &ac).unwrap();
        let k = wf.get_node("KSampler").unwrap().k_sampler().unwrap();
        assert!(0 <= k.seed && k.seed <= u32::MAX as i64);
        assert!((20..=30).contains(&k.steps));
        assert!(7_000_000 <= k.cfg.micros && k.cfg.micros <= 8_000_000);
        assert_eq!((k.cfg.micros - 7_000_000) % 50_000, 0);
        assert_eq!(k.denoise, fx(500_000));
        assert!(k.sampler_name == "euler" || k.sampler_name == "dpmpp_2m");
        assert_eq!(k.scheduler, "karras");
        assert_eq!(k.model.as_ref().unwrap().id, "4");
        assert_eq!(k.positive.as_ref().unwrap().id, "4");
        assert!(k.negative.is_none());
        assert_eq!(dump(&wf, "LoadImage"), before);
    }
}

#[test]
fn sampler_step_needs_the_sampler() {
    let gen = generator();
    let ac = catalog();
    let mut wf = graph(vec![node("10", "LoadImage", "LoadImage", load_image("a.png"))]);
    match gen.rand_sampler(&mut wf, &ac) {
        Err(AppError::NotFound(key)) => assert_eq!(key, "KSampler"),
        other => panic!("{:?}", other),
    }
    let mut wf = graph(vec![node("10", "LoadImage", "KSampler", load_image("a.png"))]);
    match gen.rand_sampler(&mut wf, &ac) {
        Err(AppError::ShapeMismatch(title)) => assert_eq!(title, "KSampler"),
        other => panic!("{:?}", other),
    }
    assert_eq!(wf.get_node("KSampler").unwrap().load_image().unwrap().image, "a.png");
}

#[test]
fn image_step_rotates_through_the_pool() {
    let gen = generator();
    let ac = catalog();
    let expect = [
        ("a.png", "a", false),
        ("land_b.png", "land_b", true),
        ("c.jpg", "c", false),
        ("a.png", "a", false),
        ("land_b.png", "land_b", true),
    ];
    for (idx, (image, prefix, land)) in expect.iter().enumerate() {
        let mut wf = graph(base_nodes());
        let sampler_before = dump(&wf, "KSampler");
        assert_eq!(gen.rand_images(&mut wf, &ac, idx).unwrap(), *land);
        let loader = wf.get_node("LoadImage").unwrap().load_image().unwrap();
        assert_eq!(loader.image, *image);
        assert_eq!(loader.upload, "image");
        let saver = wf.get_node("ImageSave").unwrap().image_save().unwrap();
        assert_eq!(saver.filename_prefix, *prefix);
        assert_eq!(saver.output_path, "out/dir");
        assert_eq!(saver.extension, "png");
        assert_eq!(saver.quality, 100);
        assert_eq!(saver.images.as_ref().unwrap().id, "8");
        assert_eq!(dump(&wf, "KSampler"), sampler_before);
    }
    let mut wf = graph(base_nodes());
    assert!(gen.rand_images(&mut wf, &ac, usize::MAX).is_ok());
}

#[test]
fn image_step_without_a_pool() {
    let gen = generator();
    let mut ac = catalog();
    ac.load_image = None;
    let mut wf = graph(base_nodes());
    assert!(!gen.rand_images(&mut wf, &ac, 1).unwrap());
    assert_eq!(wf.get_node("LoadImage").unwrap().load_image().unwrap().image, "old.png");
    assert_eq!(wf.get_node("ImageSave").unwrap().image_save().unwrap().filename_prefix, "plain");
    // a prefix that begins like an image on its side is no such image
    ac.save_image.filename_prefix = s("land_x");
    assert!(!gen.rand_images(&mut wf, &ac, 1).unwrap());
    // it needs no loader then
    let mut wf = graph(vec![node("9", "ImageSave", "ImageSave", image_save())]);
    assert!(gen.rand_images(&mut wf, &ac, 0).is_ok());
}

#[test]
fn image_step_leaves_a_lacking_graph_alone() {
    let gen = generator();
    let ac = catalog();
    let mut wf = graph(vec![node("10", "LoadImage", "LoadImage", load_image("old.png"))]);
    match gen.rand_images(&mut wf, &ac, 0) {
        Err(AppError::NotFound(key)) => assert_eq!(key, "ImageSave"),
        other => panic!("{:?}", other),
    }
    assert_eq!(wf.get_node("LoadImage").unwrap().load_image().unwrap().image, "old.png");
    let mut wf = graph(vec![node("9", "ImageSave", "ImageSave", image_save())]);
    match gen.rand_images(&mut wf, &ac, 0) {
        Err(AppError::NotFound(key)) => assert_eq!(key, "LoadImage"),
        other => panic!("{:?}", other),
    }
    let mut wf = graph(vec![
        node("9", "LoadImage", "ImageSave", load_image("x")),
        node("10", "LoadImage", "LoadImage", load_image("old.png")),
    ]);
    match gen.rand_images(&mut wf, &ac, 0) {
        Err(AppError::ShapeMismatch(title)) => assert_eq!(title, "ImageSave"),
        other => panic!("{:?}", other),
    }
    assert_eq!(wf.get_node("LoadImage").unwrap().load_image().unwrap().image, "old.png");
}

#[test]
fn size_nodes_one_by_one() {
    let gen = generator();
    let mut wf = graph(sized_nodes());
    gen.scale_to(&mut wf, 512, 768).unwrap();
    let n = wf.get_node("ImageScaleSide").unwrap().image_scale_side().unwrap();
    assert_eq!(n.side_length, 768);
    assert_eq!(n.side, "Longest");
    gen.scale_to(&mut wf, 900, 768).unwrap();
    assert_eq!(wf.get_node("ImageScaleSide").unwrap().image_scale_side().unwrap().side_length, 900);
    gen.crop_to(&mut wf, 512, 768).unwrap();
    let n = wf.get_node("CropImage").unwrap().crop_image().unwrap();
    assert_eq!((n.target_w, n.target_h, n.offset), (512, 768, 3));
    gen.repeat_by(&mut wf, 4).unwrap();
    let n = wf.get_node("RepeatLatent").unwrap().repeat_latent().unwrap();
    assert_eq!(n.amount, 4);
    assert_eq!(n.samples.id, "12");
    gen.latent_to(&mut wf, 512, 768, 4).unwrap();
    let n = wf.get_node("EmptyLatent").unwrap().empty_latent().unwrap();
    assert_eq!((n.width, n.height, n.batch_size), (512, 768, 4));
    let on = AEmptyImage { title: s("EmptyImage"), switch: true, color: 0xff00ff };
    gen.apply_empty(&on, (512, 768), 4, &mut wf).unwrap();
    let n = wf.get_node("EmptyImage").unwrap().empty_image().unwrap();
    assert_eq!((n.width, n.height, n.batch_size, n.color), (512, 768, 4, 0xff00ff));
    let off = AEmptyImage { title: s("EmptyImage"), switch: false, color: 1 };
    gen.apply_empty(&off, (1, 1), 1, &mut wf).unwrap();
    assert_eq!(wf.get_node("EmptyImage").unwrap().empty_image().unwrap().color, 0xff00ff);
}

#[test]
fn size_nodes_may_be_absent_but_not_misshapen() {
    let gen = generator();
    let mut wf = graph(base_nodes());
    let before = format!("{:?}", wf);
    gen.scale_to(&mut wf, 1, 2).unwrap();
    gen.crop_to(&mut wf, 1, 2).unwrap();
    gen.repeat_by(&mut wf, 3).unwrap();
    gen.latent_to(&mut wf, 1, 2, 3).unwrap();
    let on = AEmptyImage { title: s("EmptyImage"), switch: true, color: 1 };
    gen.apply_empty(&on, (1, 2), 3, &mut wf).unwrap();
    assert_eq!(format!("{:?}", wf), before);
    let mut wf = graph(vec![
        node("1", "LoadImage", "CropImage", load_image("x")),
        node("2", "LoadImage", "EmptyImage", load_image("y")),
    ]);
    match gen.crop_to(&mut wf, 1, 2) {
        Err(AppError::ShapeMismatch(title)) => assert_eq!(title, "CropImage"),
        other => panic!("{:?}", other),
    }
    assert!(matches!(gen.apply_empty(&on, (1, 2), 3, &mut wf), Err(AppError::ShapeMismatch(_))));
    let off = AEmptyImage { title: s("EmptyImage"), switch: false, color: 1 };
    assert!(gen.apply_empty(&off, (1, 2), 3, &mut wf).is_ok());
}

#[test]
fn loader_step_draws_from_the_catalog() {
    let gen = generator();
    let ac = catalog();
    for _ in 0..100 {
        let mut wf = graph(base_nodes());
        let positive = gen.rand_loader(&mut wf, &ac, 512, 768).unwrap();
        assert!(positive == "a plaster bust" || positive == "a still life");
        let l = wf.get_node("EfficientLoader").unwrap().efficient_loader().unwrap();
        match &l.positive {
            Prompt::Text(t) => assert_eq!(*t, positive),
            other => panic!("{:?}", other),
        }
        assert_eq!(l.negative, "blurry");
        assert!(l.vae_name == "vae_a" || l.vae_name == "vae_b");
        assert!(l.clip_skip == -1 || l.clip_skip == -2);
        assert_eq!(l.ckpt_name, "model.ckpt");
        assert_eq!(l.weight_interpretation, "A1111");
        assert_eq!((l.empty_latent_width, l.empty_latent_height, l.batch_size), (512, 768, 2));
        assert_eq!(l.lora_name, "None");
        assert_eq!(l.token_normalization, "none");
        assert_eq!(l.lora_stack.as_ref().unwrap().id, "20");
        assert_eq!(l.cnet_stack.as_ref().unwrap().id, "21");
    }
    let mut wf = graph(vec![node("3", "KSampler", "KSampler", sampler())]);
    assert!(matches!(gen.rand_loader(&mut wf, &ac, 1, 1), Err(AppError::NotFound(_))));
}

#[test]
fn prompt_step_without_tagging_removes_the_tagger() {
    let gen = generator();
    let ac = catalog();
    let mut wf = graph(text_nodes());
    gen.rand_prompt(&mut wf, &ac, "a plaster bust").unwrap();
    let t = wf.get_node("TextString").unwrap().text_string().unwrap();
    assert_eq!(t.text, "a plaster bust");
    assert_eq!(t.text_b, "b");
    assert!(matches!(wf.get_node("Tagger"), Err(AppError::NotFound(_))));
    let l = wf.get_node("EfficientLoader").unwrap().efficient_loader().unwrap();
    match &l.positive {
        Prompt::Edge(e) => assert_eq!((e.id.as_str(), e.slot), ("40", 0)),
        other => panic!("{:?}", other),
    }
    assert_eq!(l.negative, "old negative");
    assert!(wf.get_node("TextConcat").unwrap().text_concat().unwrap().text2.is_none());
    assert_eq!(wf.nodes.len(), text_nodes().len() - 1);
    // a tagger that the catalog has switched off counts as none
    let mut ac = catalog();
    ac.tagger = Some(ATagger { title: s("Tagger"), switch: false, model: s("m") });
    let mut wf = graph(text_nodes());
    gen.rand_prompt(&mut wf, &ac, "p").unwrap();
    assert!(wf.get_node("Tagger").is_err());
}

#[test]
fn prompt_step_with_tagging_chains_the_tagger() {
    let gen = generator();
    let mut ac = catalog();
    ac.tagger = Some(ATagger { title: s("Tagger"), switch: true, model: s("wd-v1-4-moat") });
    let mut wf = graph(text_nodes());
    gen.rand_prompt(&mut wf, &ac, "a still life").unwrap();
    assert_eq!(wf.get_node("TextString").unwrap().text_string().unwrap().text, "a still life");
    let t = wf.get_node("Tagger").unwrap().tagger().unwrap();
    assert_eq!(t.model, "wd-v1-4-moat");
    assert_eq!(t.image.as_ref().unwrap().id, "43");
    assert_eq!(t.image.as_ref().unwrap().slot, 0);
    assert_eq!(t.threshold, fx(350_000));
    let c = wf.get_node("TextConcat").unwrap().text_concat().unwrap();
    assert_eq!(c.text2.as_ref().unwrap().id, "42");
    assert_eq!(c.text1.as_ref().unwrap().id, "40");
    assert_eq!(c.delimiter, "comma");
    let l = wf.get_node("EfficientLoader").unwrap().efficient_loader().unwrap();
    match &l.positive {
        Prompt::Edge(e) => assert_eq!((e.id.as_str(), e.slot), ("41", 0)),
        other => panic!("{:?}", other),
    }
    assert_eq!(wf.nodes.len(), text_nodes().len());
}

#[test]
fn prompt_step_without_a_text_node_does_nothing() {
    let gen = generator();
    let ac = catalog();
    let mut nodes = base_nodes();
    nodes.push(node("42", "Tagger", "Tagger", tagger()));
    let mut wf = graph(nodes);
    let before = format!("{:?}", wf);
    gen.rand_prompt(&mut wf, &ac, "p").unwrap();
    assert_eq!(format!("{:?}", wf), before);
}

#[test]
fn prompt_step_leaves_a_lacking_graph_alone() {
    let gen = generator();
    let mut ac = catalog();
    ac.tagger = Some(ATagger { title: s("Tagger"), switch: true, model: s("m") });
    let lacking = |drop: &str| -> Vec<Node> {
        text_nodes().into_iter().filter(|n| n.meta.title != drop).collect()
    };
    for (drop, key) in [
        ("ImageFilter", "ImageFilter"),
        ("Tagger", "Tagger"),
        ("TextConcat", "TextConcat"),
        ("EfficientLoader", "EfficientLoader"),
    ] {
        let mut wf = graph(lacking(drop));
        let before = format!("{:?}", wf);
        match gen.rand_prompt(&mut wf, &ac, "p") {
            Err(AppError::NotFound(k)) => assert_eq!(k, key),
            other => panic!("{:?}", other),
        }
        assert_eq!(format!("{:?}", wf), before);
    }
    // the text node in another shape
    let mut wf = graph(vec![node("1", "LoadImage", "TextString", load_image("x"))]);
    assert!(matches!(gen.rand_prompt(&mut wf, &ac, "p"), Err(AppError::ShapeMismatch(_))));
    // without tagging, a loader under the tagger's role key would be removed
    let mut ac = catalog();
    ac.efficient.title = s("Tagger");
    let mut wf = graph(vec![
        node("40", "TextString", "TextString", text_string()),
        node("4", "EfficientLoader", "Tagger", efficient_loader()),
    ]);
    let before = format!("{:?}", wf);
    match gen.rand_prompt(&mut wf, &ac, "p") {
        Err(AppError::NotFound(k)) => assert_eq!(k, "Tagger"),
        other => panic!("{:?}", other),
    }
    assert_eq!(format!("{:?}", wf), before);
}

#[test]
fn size_step_keeps_every_consumer_consistent() {
    let gen = generator();
    let mut ac = catalog();
    ac.empty_image = Some(AEmptyImage { title: s("EmptyImage"), switch: true, color: 7 });
    for land in [false, true] {
        let mut nodes = sized_nodes();
        nodes.push(node("40", "TextString", "TextString", text_string()));
        nodes.push(node("42", "Tagger", "Tagger", tagger()));
        let mut wf = graph(nodes);
        let size = gen.rand_efficient(&mut wf, &ac, land).unwrap();
        let (w, h) = if land { (768, 512) } else { (512, 768) };
        assert_eq!(size, (w, h));
        let sc = wf.get_node("ImageScaleSide").unwrap().image_scale_side().unwrap();
        assert_eq!(sc.side_length, 768);
        // nothing else of the scaling, cropping and repeating nodes is touched
        assert_eq!((sc.side.as_str(), sc.upscale_method.as_str(), sc.crop.as_str()), ("Longest", "area", "disabled"));
        assert_eq!(sc.image.as_ref().unwrap().id, "10");
        let c = wf.get_node("CropImage").unwrap().crop_image().unwrap();
        assert_eq!((c.target_w, c.target_h), (w, h));
        assert_eq!((c.crop_position.as_str(), c.offset, c.interpolation.as_str()), ("center", 3, "bilinear"));
        assert_eq!(c.image.as_ref().unwrap().id, "10");
        let rp = wf.get_node("RepeatLatent").unwrap().repeat_latent().unwrap();
        assert_eq!(rp.amount, 2);
        assert_eq!(rp.samples.id, "12");
        let l = wf.get_node("EmptyLatent").unwrap().empty_latent().unwrap();
        assert_eq!((l.width, l.height, l.batch_size), (w, h, 2));
        let e = wf.get_node("EmptyImage").unwrap().empty_image().unwrap();
        assert_eq!((e.width, e.height, e.batch_size, e.color), (w, h, 2, 7));
        let l = wf.get_node("EfficientLoader").unwrap().efficient_loader().unwrap();
        assert_eq!((l.empty_latent_width, l.empty_latent_height, l.batch_size), (w, h, 2));
        assert_eq!(l.ckpt_name, "model.ckpt");
        assert!(matches!(&l.positive, Prompt::Edge(e) if e.id == "40"));
        let t = wf.get_node("TextString").unwrap().text_string().unwrap();
        assert!(t.text == "a plaster bust" || t.text == "a still life");
        assert!(wf.get_node("Tagger").is_err());
        assert_eq!(wf.get_node("KSampler").unwrap().k_sampler().unwrap().seed, 1);
    }
}

#[test]
fn size_step_on_a_graph_with_the_loader_only() {
    let gen = generator();
    let ac = catalog();
    let mut wf = graph(base_nodes());
    assert_eq!(gen.rand_efficient(&mut wf, &ac, false).unwrap(), (512, 768));
    let l = wf.get_node("EfficientLoader").unwrap().efficient_loader().unwrap();
    assert!(matches!(&l.positive, Prompt::Text(t) if t == "a plaster bust" || t == "a still life"));
    assert_eq!((l.empty_latent_width, l.empty_latent_height), (512, 768));
}

#[test]
fn size_step_names_the_first_fault() {
    let gen = generator();
    let ac = catalog();
    let mut wf = graph(vec![node("3", "KSampler", "KSampler", sampler())]);
    match gen.rand_efficient(&mut wf, &ac, false) {
        Err(AppError::NotFound(k)) => assert_eq!(k, "EfficientLoader"),
        other => panic!("{:?}", other),
    }
    let mut nodes = base_nodes();
    nodes.push(node("51", "LoadImage", "CropImage", load_image("x")));
    nodes.push(node("50", "LoadImage", "ImageScaleSide", load_image("y")));
    let mut wf = graph(nodes);
    match gen.rand_efficient(&mut wf, &ac, false) {
        Err(AppError::ShapeMismatch(t)) => assert_eq!(t, "ImageScaleSide"),
        other => panic!("{:?}", other),
    }
    let mut nodes = base_nodes();
    nodes.push(node("51", "LoadImage", "CropImage", load_image("x")));
    let mut wf = graph(nodes);
    match gen.rand_efficient(&mut wf, &ac, false) {
        Err(AppError::ShapeMismatch(t)) => assert_eq!(t, "CropImage"),
        other => panic!("{:?}", other),
    }
}
