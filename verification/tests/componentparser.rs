use horizon::components::componentparser::{
    model_geometry_sound, PrimitiveGeometry, parse_physics, parse_point_light, parse_transform, ComponentParser, ComponentParserError,
    ComponentRequest, EntityFacts, ParsedComponent, ParserKind, RigidBodyType,
};

fn request(component_type: &str) -> ComponentRequest {
    ComponentRequest {
        component_type: component_type.to_string(),
        model: Some(7),
        has_position: true,
        has_rotation: true,
        has_scale: true,
        body_type: Some(RigidBodyType::Dynamic),
        damping_types: None,
        has_radius: true,
        has_color: true,
    }
}

const READY: EntityFacts = EntityFacts { has_transform: true, model_loaded: true, model_geometry_sound: true };

#[test]
fn transform_component_is_parsed() {
    let parser = ComponentParser::default();
    let outcome = parser.parse(&request("transform"), &READY);
    assert!(matches!(outcome, Ok(ParsedComponent::Transform { model: Some(7) })));
}

#[test]
fn transform_without_model() {
    let mut r = request("transform");
    r.model = None;
    assert!(matches!(parse_transform(&r), Ok(ParsedComponent::Transform { model: None })));
}

#[test]
fn transform_fields_are_checked_in_order() {
    let mut r = request("transform");
    r.has_rotation = false;
    r.has_position = false;
    r.has_scale = false;
    assert!(matches!(parse_transform(&r), Err(ComponentParserError::InvalidData("rotation"))));
    r.has_rotation = true;
    assert!(matches!(parse_transform(&r), Err(ComponentParserError::InvalidData("position"))));
    r.has_position = true;
    assert!(matches!(parse_transform(&r), Err(ComponentParserError::InvalidData("scale"))));
}

#[test]
fn unknown_component_is_not_found() {
    let parser = ComponentParser::default();
    match parser.parse(&request("camera"), &READY) {
        Err(ComponentParserError::NotFound(name)) => assert_eq!(name, "camera"),
        other => panic!("unexpected outcome {:?}", other),
    }
}

#[test]
fn component_type_match_is_exact() {
    let parser = ComponentParser::default();
    assert!(matches!(
        parser.parse(&request("Transform"), &READY),
        Err(ComponentParserError::NotFound(_))
    ));
    assert!(matches!(
        parser.parse(&request("pointlight"), &READY),
        Err(ComponentParserError::NotFound(_))
    ));
}

#[test]
fn physics_needs_a_model() {
    let mut r = request("physics");
    r.model = None;
    assert!(matches!(
        parse_physics(&r, &READY),
        Err(ComponentParserError::MissingDependantComponent("transform"))
    ));
}

#[test]
fn physics_needs_a_loaded_model() {
    let facts = EntityFacts { has_transform: true, model_loaded: false, model_geometry_sound: false };
    assert!(matches!(
        parse_physics(&request("physics"), &facts),
        Err(ComponentParserError::InvalidData("model"))
    ));
}

#[test]
fn physics_needs_a_transform() {
    let facts = EntityFacts { has_transform: false, model_loaded: true, model_geometry_sound: true };
    assert!(matches!(
        parse_physics(&request("physics"), &facts),
        Err(ComponentParserError::MissingDependantComponent("Transform"))
    ));
}

#[test]
fn physics_needs_a_body_type() {
    let mut r = request("physics");
    r.body_type = None;
    assert!(matches!(parse_physics(&r, &READY), Err(ComponentParserError::InvalidData("bodyType"))));
}

#[test]
fn dynamic_body_takes_last_damping_of_each_kind() {
    let mut r = request("physics");
    r.damping_types = Some(vec![
        "linear".to_string(),
        "angular".to_string(),
        "linear".to_string(),
    ]);
    let parser = ComponentParser::default();
    assert_eq!(
        parser.parse(&r, &READY).unwrap(),
        ParsedComponent::RigidBody {
            model_entity: 7,
            body_type: RigidBodyType::Dynamic,
            linear_damping: Some(2),
            angular_damping: Some(1),
        }
    );
}

#[test]
fn dynamic_body_without_damping() {
    let r = request("physics");
    assert_eq!(
        parse_physics(&r, &READY).unwrap(),
        ParsedComponent::RigidBody {
            model_entity: 7,
            body_type: RigidBodyType::Dynamic,
            linear_damping: None,
            angular_damping: None,
        }
    );
}

#[test]
fn unknown_damping_kind_is_refused() {
    let mut r = request("physics");
    r.damping_types = Some(vec!["linear".to_string(), "spin".to_string()]);
    assert!(matches!(parse_physics(&r, &READY), Err(ComponentParserError::InvalidData("damping"))));
}

#[test]
fn static_body_ignores_damping() {
    let mut r = request("physics");
    r.body_type = Some(RigidBodyType::Static);
    r.damping_types = Some(vec!["spin".to_string()]);
    assert_eq!(
        parse_physics(&r, &READY).unwrap(),
        ParsedComponent::RigidBody {
            model_entity: 7,
            body_type: RigidBodyType::Static,
            linear_damping: None,
            angular_damping: None,
        }
    );
}

#[test]
fn point_light_needs_a_transform() {
    let facts = EntityFacts { has_transform: false, model_loaded: false, model_geometry_sound: false };
    let mut r = request("pointLight");
    r.has_radius = false;
    assert!(matches!(
        parse_point_light(&r, &facts),
        Err(ComponentParserError::MissingDependantComponent("Transform"))
    ));
}

#[test]
fn point_light_is_parsed() {
    let parser = ComponentParser::default();
    assert_eq!(parser.parse(&request("pointLight"), &READY).unwrap(), ParsedComponent::PointLight);
}

#[test]
fn parser_kinds_handle_their_names() {
    assert!(ParserKind::Transform.handles(&"transform".to_string()));
    assert!(ParserKind::Physics.handles(&"physics".to_string()));
    assert!(ParserKind::PointLight.handles(&"pointLight".to_string()));
    assert!(!ParserKind::Physics.handles(&"transform".to_string()));
}

#[test]
fn physics_refusals_do_not_need_sound_geometry() {
    let facts = EntityFacts { has_transform: true, model_loaded: true, model_geometry_sound: false };
    let mut r = request("physics");
    r.body_type = None;
    assert!(matches!(parse_physics(&r, &facts), Err(ComponentParserError::InvalidData("bodyType"))));
}

#[test]
fn geometry_with_indices_in_range_is_sound() {
    let primitives = vec![
        PrimitiveGeometry { position_count: Some(3), indices: Some(vec![0, 1, 2]) },
        PrimitiveGeometry { position_count: None, indices: None },
    ];
    assert!(model_geometry_sound(&primitives));
    assert!(model_geometry_sound(&[]));
}

#[test]
fn geometry_with_missing_or_stray_indices_is_not_sound() {
    let missing = vec![PrimitiveGeometry { position_count: Some(3), indices: None }];
    assert!(!model_geometry_sound(&missing));
    let stray = vec![
        PrimitiveGeometry { position_count: Some(4), indices: Some(vec![0, 1, 2]) },
        PrimitiveGeometry { position_count: Some(3), indices: Some(vec![0, 3, 1]) },
    ];
    assert!(!model_geometry_sound(&stray));
}
