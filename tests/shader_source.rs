use akai::pipeline::{macro_definitions, shader_stage_of, PipelineErr, ShaderStage};

#[test]
fn stage_from_extension() {
    assert_eq!(shader_stage_of("shaders/triangle.vert"), Some(ShaderStage::Vertex));
    assert_eq!(shader_stage_of("shaders/triangle.frag"), Some(ShaderStage::Fragment));
    assert_eq!(shader_stage_of("particles.comp"), Some(ShaderStage::Compute));
}

#[test]
fn stage_from_last_extension_only() {
    assert_eq!(shader_stage_of("lit.v2.frag"), Some(ShaderStage::Fragment));
    assert_eq!(shader_stage_of("triangle.vert.bak"), None);
}

#[test]
fn stage_unknown_extension() {
    assert_eq!(shader_stage_of("triangle.glsl"), None);
    assert_eq!(shader_stage_of("triangle.VERT"), None);
    assert_eq!(shader_stage_of("triangle.verts"), None);
    assert_eq!(shader_stage_of("triangle."), None);
    assert_eq!(shader_stage_of(""), None);
    assert_eq!(shader_stage_of("my.shaders/triangle"), None);
}

#[test]
fn stage_of_name_without_separator_is_the_whole_name() {
    assert_eq!(shader_stage_of("comp"), Some(ShaderStage::Compute));
    assert_eq!(shader_stage_of("shader"), None);
}

#[test]
fn stage_with_non_ascii_name() {
    assert_eq!(shader_stage_of("dégradé.frag"), Some(ShaderStage::Fragment));
}

#[test]
fn entry_point_macro_comes_first() {
    let defs = macro_definitions(&Vec::new());
    assert_eq!(defs, vec![("EP".to_string(), "main".to_string())]);
}

#[test]
fn caller_macros_follow_in_order() {
    let user = vec![
        ("WORKGROUP_SIZE".to_string(), "64".to_string()),
        ("USE_SHADOWS".to_string(), "1".to_string()),
    ];
    let defs = macro_definitions(&user);
    assert_eq!(
        defs,
        vec![
            ("EP".to_string(), "main".to_string()),
            ("WORKGROUP_SIZE".to_string(), "64".to_string()),
            ("USE_SHADOWS".to_string(), "1".to_string()),
        ]
    );
}

#[test]
fn compilation_error_message_is_the_diagnostic() {
    let err = PipelineErr::ShaderCompilation("triangle.vert:3: error: 'x' undeclared".to_string());
    assert_eq!(err.message(), "triangle.vert:3: error: 'x' undeclared");
    assert!(matches!(err, PipelineErr::ShaderCompilation(_)));
}
