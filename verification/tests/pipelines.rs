use paracosm_gpu::pipeline::{
    attachment_plan, bind_point, check_push_constant_size, last_line, pipeline_stages, shader_sources, ColorBlendInfo,
    DynamicStateInfo, PipelineError, PipelineInfo, PipelineManager, ShaderSource, ShaderStage, BIND_POINT_COMPUTE,
    BIND_POINT_GRAPHICS, BIND_POINT_RAY_TRACING,
};

fn crate_source(p: &str) -> ShaderSource {
    ShaderSource::Crate(p.to_string())
}

#[test]
fn bind_points_follow_pipeline_kind() {
    let compute: PipelineInfo<()> = PipelineInfo::Compute { shader_source: crate_source("s"), entry_point: "main_cs" };
    let graphics: PipelineInfo<()> = PipelineInfo::Graphics {
        task_shader: None,
        mesh_shader: (crate_source("m"), "main"),
        fragment_shader: (crate_source("f"), "main"),
        fixed_function: (),
    };
    let rt: PipelineInfo<()> = PipelineInfo::RayTracing {};
    assert_eq!(bind_point(&compute), ash::vk::PipelineBindPoint::COMPUTE.as_raw());
    assert_eq!(bind_point(&graphics), ash::vk::PipelineBindPoint::GRAPHICS.as_raw());
    assert_eq!(bind_point(&rt), ash::vk::PipelineBindPoint::RAY_TRACING_KHR.as_raw());
    assert_eq!((BIND_POINT_COMPUTE, BIND_POINT_GRAPHICS, BIND_POINT_RAY_TRACING), (1, 0, 1000165000));
}

#[test]
fn shader_sources_are_loaded_task_mesh_fragment() {
    let graphics: PipelineInfo<u8> = PipelineInfo::Graphics {
        task_shader: Some((ShaderSource::SPV("t.spv".to_string()), "task")),
        mesh_shader: (crate_source("m"), "main"),
        fragment_shader: (crate_source("f"), "main"),
        fixed_function: 0,
    };
    let sources = shader_sources(&graphics);
    assert_eq!(sources, vec![&ShaderSource::SPV("t.spv".to_string()), &crate_source("m"), &crate_source("f")]);
    let compute: PipelineInfo<u8> = PipelineInfo::Compute { shader_source: crate_source("c"), entry_point: "init" };
    assert_eq!(shader_sources(&compute), vec![&crate_source("c")]);
    let rt: PipelineInfo<u8> = PipelineInfo::RayTracing {};
    assert!(shader_sources(&rt).is_empty());
}

#[test]
fn sources_compare_by_kind_and_path() {
    assert!(crate_source("a").same_as(&crate_source("a")));
    assert!(!crate_source("a").same_as(&ShaderSource::SPV("a".to_string())));
    assert!(!crate_source("a").same_as(&crate_source("b")));
    assert_eq!(crate_source("x").duplicate(), crate_source("x"));
}

#[test]
fn pipelines_are_set_once() {
    let mut m: PipelineManager<u32, u32, ()> = PipelineManager::new(128);
    assert_eq!(m.get(1).err(), Some(PipelineError::NotFound));
    assert_eq!(m.check_new_pipeline(1), Ok(()));
    m.insert_pipeline(1, PipelineInfo::Compute { shader_source: crate_source("c"), entry_point: "main" }, 42);
    assert_eq!(m.get(1).unwrap().inner, 42);
    assert_eq!(m.check_new_pipeline(1), Err(PipelineError::Overwrite));
    assert_eq!(m.get(2).err(), Some(PipelineError::NotFound));
    assert_eq!(PipelineError::Overwrite.message(), "Overwriting pipelines is not currently supported.");
    assert_eq!(PipelineError::NotFound.message(), "No pipeline found with label:");
}

#[test]
fn shader_modules_are_cached_by_source() {
    let mut m: PipelineManager<u32, u32, ()> = PipelineManager::new(128);
    assert!(m.shader_module(&crate_source("c")).is_none());
    m.insert_shader_module(crate_source("c"), 5);
    m.insert_shader_module(ShaderSource::SPV("c".to_string()), 6);
    assert_eq!(m.shader_module(&crate_source("c")), Some(&5));
    assert_eq!(m.shader_module(&ShaderSource::SPV("c".to_string())), Some(&6));
    assert!(m.shader_module(&crate_source("d")).is_none());
}

#[test]
fn push_constants_fit_the_limit() {
    let m: PipelineManager<u32, u32, ()> = PipelineManager::new(128);
    assert_eq!(m.check_push_constant(128), Ok(()));
    assert_eq!(m.check_push_constant(129), Err(PipelineError::PushConstantTooLarge));
    assert_eq!(check_push_constant_size(4, 0), Err(PipelineError::PushConstantTooLarge));
    assert_eq!(check_push_constant_size(0, 0), Ok(()));
    assert_eq!(PipelineError::PushConstantTooLarge.message(), "Push constant should be no larger than");
}

fn last(text: &str) -> Option<&str> {
    last_line(text.as_bytes()).map(|(a, b)| &text[a..b])
}

#[test]
fn last_line_matches_str_lines() {
    for text in ["", "a", "a\n", "a\nb", "a\nb\n", "x\r\ny\r\n", "a\n\n", "\n", "\r\n", "a\r", "a\r\r\n", "one\ntwo\r"] {
        assert_eq!(last(text), text.lines().last(), "text {:?}", text);
    }
    assert_eq!(last("Compiling\n/tmp/shader.spv\n"), Some("/tmp/shader.spv"));
}

#[test]
fn blend_and_dynamic_defaults() {
    let b = ColorBlendInfo::default();
    assert_eq!(b.source_color_blend_factor, ash::vk::BlendFactor::ONE.as_raw());
    assert_eq!(b.destination_color_blend_factor, ash::vk::BlendFactor::ZERO.as_raw());
    assert_eq!(b.color_blend_op, ash::vk::BlendOp::ADD.as_raw());
    assert_eq!(b.alpha_blend_op, ash::vk::BlendOp::ADD.as_raw());
    assert_eq!(b.color_write_mask, ash::vk::ColorComponentFlags::RGBA.as_raw());
    let _ = DynamicStateInfo::default();
}

#[test]
fn only_uncached_sources_are_loaded_once_each() {
    let mut m: PipelineManager<u32, u32, ()> = PipelineManager::new(128);
    m.insert_shader_module(crate_source("cached"), 1);
    let graphics: PipelineInfo<()> = PipelineInfo::Graphics {
        task_shader: Some((crate_source("cached"), "task")),
        mesh_shader: (crate_source("shared"), "mesh"),
        fragment_shader: (crate_source("shared"), "frag"),
        fixed_function: (),
    };
    assert_eq!(m.sources_to_load(&graphics), vec![crate_source("shared")]);
    m.insert_shader_module(crate_source("shared"), 2);
    assert!(m.sources_to_load(&graphics).is_empty());
    let compute: PipelineInfo<()> = PipelineInfo::Compute { shader_source: ShaderSource::SPV("c.spv".to_string()), entry_point: "main" };
    assert_eq!(m.sources_to_load(&compute), vec![ShaderSource::SPV("c.spv".to_string())]);
    assert_eq!(m.max_push_constants_size(), 128);
}

#[test]
fn stages_are_mesh_fragment_then_task() {
    let graphics: PipelineInfo<()> = PipelineInfo::Graphics {
        task_shader: Some((crate_source("t"), "task")),
        mesh_shader: (crate_source("m"), "mesh"),
        fragment_shader: (crate_source("f"), "frag"),
        fixed_function: (),
    };
    let m = crate_source("m");
    let f = crate_source("f");
    let t = crate_source("t");
    assert_eq!(
        pipeline_stages(&graphics),
        vec![(ShaderStage::Mesh, &m, "mesh"), (ShaderStage::Fragment, &f, "frag"), (ShaderStage::Task, &t, "task")]
    );
    let compute: PipelineInfo<()> = PipelineInfo::Compute { shader_source: crate_source("c"), entry_point: "main" };
    assert_eq!(pipeline_stages(&compute), vec![(ShaderStage::Compute, &crate_source("c"), "main")]);
    let rt: PipelineInfo<()> = PipelineInfo::RayTracing {};
    assert!(pipeline_stages(&rt).is_empty());
}

#[test]
fn only_blending_attachments_get_blend_states() {
    let blend = ColorBlendInfo::default();
    let attachments = vec![(37, None), (44, Some(blend)), (50, None)];
    let (formats, blends) = attachment_plan(&attachments);
    assert_eq!(formats, vec![37, 44, 50]);
    assert_eq!(blends, vec![blend]);
    let (formats, blends) = attachment_plan(&vec![]);
    assert!(formats.is_empty() && blends.is_empty());
}
