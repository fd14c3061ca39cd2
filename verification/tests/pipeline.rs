use rugl::attribute::Attribute;
use rugl::buffer::{Buffer, BufferInternal};
use rugl::context::{UniformCall, WebGlContext};
use rugl::error::RuglError;
use rugl::program::Program;
use rugl::qualifier::{Qualifier, Scalar};
use rugl::rugl::{Rugl, RuglInner};
use rugl::uniform::{Uniform, UniformInner};

#[test]
fn buffer_accessors() {
    let b = Buffer::new(
        Some(3),
        BufferInternal::Attribute(vec![Scalar::Int(1)], 2),
        6,
    );
    assert_eq!(b.get_buffer(), Some(&3));
    assert_eq!(*b.get_count(), 6);
    let (data, location) = b.get_data().get_attribute();
    assert_eq!(data, &vec![Scalar::Int(1)]);
    assert_eq!(*location, 2);

    let u = Buffer::new(
        None,
        BufferInternal::Uniform(UniformInner::Uniform1i(9, false), 4),
        0,
    );
    assert_eq!(u.get_buffer(), None);
    let (value, handle) = u.get_data().get_uniform();
    assert_eq!(*value, UniformInner::Uniform1i(9, false));
    assert_eq!(*handle, 4);
}

#[test]
fn use_program_before_and_after_linking() {
    let mut ctx = WebGlContext::new();
    assert_eq!(ctx.use_program(), Err(RuglError::ProgramNotSetUp));

    let program = Program::new(17, Some(true), None).unwrap();
    ctx.add_program(program);
    assert_eq!(ctx.use_program(), Ok(17));
}

#[test]
fn create_buffer_rejects_negative_location() {
    let mut ctx = WebGlContext::new();
    let r = ctx.create_buffer_with_data(
        "position".to_owned(),
        vec![Scalar::Int(1)],
        3,
        8,
        -1,
    );
    assert_eq!(
        r,
        Err(RuglError::AttributeLocation("position".to_owned()))
    );
    // Nothing was registered under the rejected name.
    assert_eq!(
        ctx.bind_buffer_with_name("position"),
        Err(RuglError::AttributeMissing)
    );
}

#[test]
fn registered_attribute_binds_and_enables() {
    let mut ctx = WebGlContext::new();
    let data = vec![Scalar::Int(1), Scalar::Int(2), Scalar::Int(3)];
    ctx.create_buffer_with_data("position".to_owned(), data.clone(), 3, 8, 5)
        .unwrap();

    let (handle, uploaded) = ctx.bind_buffer_with_name("position").unwrap();
    assert_eq!(handle, 8);
    assert_eq!(uploaded, &data);

    assert_eq!(ctx.enable_attribute("position"), Ok((5, 3)));
    assert_eq!(
        ctx.enable_attribute("speed"),
        Err(RuglError::AttributeMissing)
    );
    assert_eq!(
        ctx.bind_buffer_with_name("speed"),
        Err(RuglError::AttributeMissing)
    );
}

#[test]
fn create_uniform_needs_a_location() {
    let mut ctx = WebGlContext::new();
    let r = ctx.create_uniform(
        "color".to_owned(),
        UniformInner::Uniform1i(3, false),
        None,
    );
    assert_eq!(r, Err(RuglError::UniformLocationMissing));
    assert_eq!(
        ctx.bind_uniform("color"),
        Err(RuglError::UniformMissing)
    );
}

#[test]
fn bind_uniform_dispatches_every_kind() {
    let mut ctx = WebGlContext::new();
    let cases: Vec<(&str, UniformInner, u32, UniformCall)> = vec![
        (
            "u1i",
            UniformInner::Uniform1i(1, false),
            10,
            UniformCall::Uniform1i(10, 1),
        ),
        (
            "u1f",
            UniformInner::Uniform1f(91, true),
            11,
            UniformCall::Uniform1f(11, 91),
        ),
        (
            "u2i",
            UniformInner::Uniform2i(1, 2, false),
            12,
            UniformCall::Uniform2i(12, 1, 2),
        ),
        (
            "u2f",
            UniformInner::Uniform2f(91, 92, false),
            13,
            UniformCall::Uniform2f(13, 91, 92),
        ),
        (
            "u3i",
            UniformInner::Uniform3i(1, 2, 3, true),
            14,
            UniformCall::Uniform3i(14, 1, 2, 3),
        ),
        (
            "u3f",
            UniformInner::Uniform3f(91, 92, 93, false),
            15,
            UniformCall::Uniform3f(15, 91, 92, 93),
        ),
        (
            "u4i",
            UniformInner::Uniform4i(1, 2, 3, 4, false),
            16,
            UniformCall::Uniform4i(16, 1, 2, 3, 4),
        ),
        (
            "u4f",
            UniformInner::Uniform4f(91, 92, 93, 94, false),
            17,
            UniformCall::Uniform4f(17, 91, 92, 93, 94),
        ),
    ];
    for (name, value, location, expected) in &cases {
        ctx.create_uniform((*name).to_owned(), *value, Some(*location))
            .unwrap();
        assert_eq!(ctx.bind_uniform(*name), Ok(*expected));
    }
}

#[test]
fn reinserting_a_name_replaces_the_entry() {
    let mut ctx = WebGlContext::new();
    ctx.create_buffer_with_data("position".to_owned(), vec![Scalar::Int(1)], 1, 8, 5)
        .unwrap();
    ctx.create_buffer_with_data("position".to_owned(), vec![Scalar::Int(2)], 2, 9, 6)
        .unwrap();
    let (handle, uploaded) = ctx.bind_buffer_with_name("position").unwrap();
    assert_eq!(handle, 9);
    assert_eq!(uploaded, &vec![Scalar::Int(2)]);
    assert_eq!(ctx.enable_attribute("position"), Ok((6, 2)));
}

#[test]
fn rugl_inner_default_is_empty() {
    let inner = RuglInner::default();
    assert_eq!(inner.clear, [0, 0, 0, 0]);
    assert_eq!(inner.get_vertex_shader(), "");
    assert_eq!(inner.get_fragment_shader(), "");
    assert!(inner.get_attributes().is_empty());
    assert!(inner.get_uniforms().is_empty());
    assert_eq!(*inner.get_count(), 0);
    assert!(!inner.is_dynamic());
    assert_eq!(inner.tick, 0);
}

#[test]
fn rugl_inner_accessors() {
    let mut inner = RuglInner::default();
    inner.vertex = "vs".to_owned();
    inner.fragment = "fs".to_owned();
    inner.count = 3;
    assert_eq!(inner.get_vertex_shader(), "vs");
    assert_eq!(inner.get_fragment_shader(), "fs");
    assert_eq!(*inner.get_count(), 3);

    inner
        .get_mut_attributes()
        .push(Attribute::new("position".to_owned(), vec![Qualifier::Int(1)]));
    assert_eq!(inner.get_attributes().len(), 1);
    assert_eq!(inner.get_attributes()[0].get_name(), "position");

    inner.get_mut_uniforms().push(Uniform::new(
        "color".to_owned(),
        UniformInner::Uniform1i(1, false),
    ));
    assert_eq!(inner.get_uniforms().len(), 1);
    assert_eq!(inner.get_uniforms()[0].get_name(), "color");
}

#[test]
fn any_dynamic_uniform_finds_the_updater() {
    let mut inner = RuglInner::default();
    inner.get_mut_uniforms().push(Uniform::new(
        "color".to_owned(),
        UniformInner::Uniform1i(1, false),
    ));
    assert!(!inner.any_dynamic_uniform());
    inner.get_mut_uniforms().push(Uniform::new(
        "tick".to_owned(),
        UniformInner::Uniform1f(0, true),
    ));
    assert!(inner.any_dynamic_uniform());
}

fn small_scene() -> Rugl {
    let mut inner = RuglInner::default();
    inner.clear = [1, 2, 3, 4];
    inner.count = 3;
    inner.tick = 77;
    inner.get_mut_attributes().push(Attribute::new(
        "position".to_owned(),
        vec![Qualifier::Vec2(1, 1), Qualifier::Vec2(1, -1), Qualifier::Vec2(-1, 1)],
    ));
    inner.get_mut_uniforms().push(Uniform::new(
        "color".to_owned(),
        UniformInner::Uniform4f(91, 92, 93, 94, false),
    ));

    let mut context = WebGlContext::new();
    let flattened = inner.get_attributes()[0].flatten();
    context
        .create_buffer_with_data("position".to_owned(), flattened, 3, 8, 0)
        .unwrap();
    context
        .create_uniform(
            "color".to_owned(),
            UniformInner::Uniform4f(91, 92, 93, 94, false),
            Some(40),
        )
        .unwrap();

    Rugl { inner, context }
}

#[test]
fn step_resolves_the_whole_frame() {
    let rugl = small_scene();
    let plan = rugl.step().unwrap();
    assert_eq!(plan.clear, [1, 2, 3, 4]);
    assert_eq!(plan.enables, vec![(0, 3)]);
    assert_eq!(
        plan.uniform_calls,
        vec![UniformCall::Uniform4f(40, 91, 92, 93, 94)]
    );
    assert_eq!(plan.draw_count, 3);
    assert_eq!(plan.tick, 77);
}

#[test]
fn step_reports_missing_attribute_first() {
    let mut rugl = small_scene();
    rugl.inner.get_mut_attributes().push(Attribute::new(
        "speed".to_owned(),
        vec![Qualifier::Int(1)],
    ));
    assert_eq!(rugl.step(), Err(RuglError::AttributeMissing));
}

#[test]
fn step_reports_missing_uniform() {
    let mut rugl = small_scene();
    rugl.inner.get_mut_uniforms().push(Uniform::new(
        "tint".to_owned(),
        UniformInner::Uniform1i(1, false),
    ));
    assert_eq!(rugl.step(), Err(RuglError::UniformMissing));
}

#[test]
fn rugl_is_dynamic_reads_the_flag() {
    let mut rugl = small_scene();
    assert!(!rugl.is_dynamic());
    rugl.inner.dynamic = true;
    assert!(rugl.is_dynamic());
}

#[test]
fn step_on_an_empty_scene() {
    let rugl = Rugl {
        inner: RuglInner::default(),
        context: WebGlContext::new(),
    };
    let plan = rugl.step().unwrap();
    assert_eq!(plan.clear, [0, 0, 0, 0]);
    assert!(plan.enables.is_empty());
    assert!(plan.uniform_calls.is_empty());
    assert_eq!(plan.draw_count, 0);
    assert_eq!(plan.tick, 0);
}
