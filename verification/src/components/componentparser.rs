use vstd::prelude::*;
use vstd::string::StringExecFns;

verus! {

/// Why a component description could not be attached to an entity.
#[derive(Debug, Clone)]
pub enum ComponentParserError {
    /// No parser in the chain handles this component type.
    NotFound(String),
    /// A field that the component needs is missing or holds a value it does not accept.
    InvalidData(&'static str),
    /// The entity lacks a component that this one depends on.
    MissingDependantComponent(&'static str),
}

/// How a rigid body takes part in the physics simulation.
#[derive(Debug, Clone, Copy, PartialEq, Eq, Structural)]
pub enum RigidBodyType {
    Dynamic,
    Static,
}

/// What a script's component description holds, as far as the parsers decide on it:
/// its type, the model entity it refers to, which of its optional fields are present,
/// its body type and the kind of each damping entry, in order.
#[derive(Debug, Clone)]
pub struct ComponentRequest {
    pub component_type: String,
    pub model: Option<u32>,
    pub has_position: bool,
    pub has_rotation: bool,
    pub has_scale: bool,
    pub body_type: Option<RigidBodyType>,
    pub damping_types: Option<Vec<String>>,
    pub has_radius: bool,
    pub has_color: bool,
}

/// What the world holds that the parsers look up: whether the target entity already
/// has a transform, whether the model entity named by the request has a loaded model,
/// and whether that model's geometry can be turned into colliders (every primitive
/// with positions has an index list, and every index names one of its positions).
#[derive(Debug, Clone, Copy, PartialEq, Eq, Structural)]
pub struct EntityFacts {
    pub has_transform: bool,
    pub model_loaded: bool,
    pub model_geometry_sound: bool,
}

/// What building colliders reads of one primitive of a model: how many
/// three-component positions it has (`None` when it has none) and its index list.
#[derive(Debug, Clone)]
pub struct PrimitiveGeometry {
    pub position_count: Option<usize>,
    pub indices: Option<Vec<u32>>,
}

/// A primitive colliders can be built from: one without positions is skipped, one
/// with positions has an index list whose every index names one of them.
pub open spec fn primitive_geometry_sound(primitive: PrimitiveGeometry) -> bool {
    primitive.position_count matches Some(n) ==> (primitive.indices matches Some(list)
        && forall|i: int| 0 <= i < list@.len() ==> list@[i] < n)
}

fn indices_in_range(indices: &Vec<u32>, count: usize) -> (in_range: bool)
    ensures
        in_range == forall|i: int| 0 <= i < indices@.len() ==> indices@[i] < count,
{
    let mut k: usize = 0;
    while k < indices.len()
        invariant
            k <= indices@.len(),
            forall|i: int| 0 <= i < k ==> indices@[i] < count,
        decreases indices@.len() - k,
    {
        if indices[k] as usize >= count {
            return false;
        }
        k = k + 1;
    }
    true
}

/// Whether colliders can be built from every primitive of a model: the value of
/// `EntityFacts::model_geometry_sound` for that model.
pub fn model_geometry_sound(primitives: &[PrimitiveGeometry]) -> (sound: bool)
    ensures
        sound == forall|j: int| 0 <= j < primitives@.len() ==> primitive_geometry_sound(
            #[trigger] primitives@[j],
        ),
{
    let mut j: usize = 0;
    while j < primitives.len()
        invariant
            j <= primitives@.len(),
            forall|k: int| 0 <= k < j ==> primitive_geometry_sound(#[trigger] primitives@[k]),
        decreases primitives@.len() - j,
    {
        let primitive = &primitives[j];
        if let Some(count) = primitive.position_count {
            match &primitive.indices {
                None => {
                    return false;
                },
                Some(list) => {
                    if !indices_in_range(list, count) {
                        return false;
                    }
                },
            }
        }
        j = j + 1;
    }
    true
}

/// The component to attach, as decided by a parser. Damping entries are named by
/// their position in the request's damping list.
#[derive(Debug, Clone, Copy, PartialEq, Eq, Structural)]
pub enum ParsedComponent {
    Transform { model: Option<u32> },
    RigidBody {
        model_entity: u32,
        body_type: RigidBodyType,
        linear_damping: Option<usize>,
        angular_damping: Option<usize>,
    },
    PointLight,
}

/// One link of the parser chain.
#[derive(Debug, Clone, Copy, PartialEq, Eq, Structural)]
pub enum ParserKind {
    Transform,
    Physics,
    PointLight,
}

/// The component type name that a parser handles.
pub open spec fn kind_name(kind: ParserKind) -> Seq<char> {
    match kind {
        ParserKind::Transform => "transform"@,
        ParserKind::Physics => "physics"@,
        ParserKind::PointLight => "pointLight"@,
    }
}

/// The first parser of `chain` that handles `component_type`, if any.
pub open spec fn handler_for(chain: Seq<ParserKind>, component_type: Seq<char>) -> Option<ParserKind>
    decreases chain.len(),
{
    if chain.len() == 0 {
        None
    } else if kind_name(chain[0]) == component_type {
        Some(chain[0])
    } else {
        handler_for(chain.drop_first(), component_type)
    }
}

/// The damping entries in order: `None` when one of them is neither `"linear"` nor
/// `"angular"`, otherwise the positions of the last linear and the last angular entry.
pub open spec fn damping_scan(types: Seq<Seq<char>>) -> Option<(Option<usize>, Option<usize>)>
    decreases types.len(),
{
    if types.len() == 0 {
        Some((None, None))
    } else {
        match damping_scan(types.drop_last()) {
            None => None,
            Some((linear, angular)) => {
                let i: usize = (types.len() - 1) as usize;
                if types.last() == "linear"@ {
                    Some((Some(i), angular))
                } else if types.last() == "angular"@ {
                    Some((linear, Some(i)))
                } else {
                    None
                }
            },
        }
    }
}

pub open spec fn string_views(v: Seq<String>) -> Seq<Seq<char>> {
    v.map_values(|s: String| s@)
}

/// The transform parser: rotation, position and scale must be present, checked in
/// that order.
pub open spec fn transform_outcome(request: ComponentRequest) -> Result<
    ParsedComponent,
    ComponentParserError,
> {
    if !request.has_rotation {
        Err(ComponentParserError::InvalidData("rotation"))
    } else if !request.has_position {
        Err(ComponentParserError::InvalidData("position"))
    } else if !request.has_scale {
        Err(ComponentParserError::InvalidData("scale"))
    } else {
        Ok(ParsedComponent::Transform { model: request.model })
    }
}

/// The physics parser: it needs a model that is loaded and a transform on the entity;
/// a dynamic body takes its damping entries, a static body ignores them, and a missing
/// body type is refused.
pub open spec fn physics_outcome(request: ComponentRequest, facts: EntityFacts) -> Result<
    ParsedComponent,
    ComponentParserError,
> {
    match request.model {
        None => Err(ComponentParserError::MissingDependantComponent("transform")),
        Some(model) => if !facts.model_loaded {
            Err(ComponentParserError::InvalidData("model"))
        } else if !facts.has_transform {
            Err(ComponentParserError::MissingDependantComponent("Transform"))
        } else {
            match request.body_type {
                Some(RigidBodyType::Dynamic) => match request.damping_types {
                    None => Ok(
                        ParsedComponent::RigidBody {
                            model_entity: model,
                            body_type: RigidBodyType::Dynamic,
                            linear_damping: None,
                            angular_damping: None,
                        },
                    ),
                    Some(types) => match damping_scan(string_views(types@)) {
                        None => Err(ComponentParserError::InvalidData("damping")),
                        Some((linear, angular)) => Ok(
                            ParsedComponent::RigidBody {
                                model_entity: model,
                                body_type: RigidBodyType::Dynamic,
                                linear_damping: linear,
                                angular_damping: angular,
                            },
                        ),
                    },
                },
                Some(RigidBodyType::Static) => Ok(
                    ParsedComponent::RigidBody {
                        model_entity: model,
                        body_type: RigidBodyType::Static,
                        linear_damping: None,
                        angular_damping: None,
                    },
                ),
                None => Err(ComponentParserError::InvalidData("bodyType")),
            }
        },
    }
}

/// The point light parser: the entity needs a transform.
pub open spec fn point_light_outcome(facts: EntityFacts) -> Result<
    ParsedComponent,
    ComponentParserError,
> {
    if !facts.has_transform {
        Err(ComponentParserError::MissingDependantComponent("Transform"))
    } else {
        Ok(ParsedComponent::PointLight)
    }
}

/// What a parser of the given kind decides for a request it handles.
pub open spec fn outcome_of(kind: ParserKind, request: ComponentRequest, facts: EntityFacts) -> Result<
    ParsedComponent,
    ComponentParserError,
> {
    match kind {
        ParserKind::Transform => transform_outcome(request),
        ParserKind::Physics => physics_outcome(request, facts),
        ParserKind::PointLight => point_light_outcome(facts),
    }
}

/// What a parser needs to run to its end: a point light that reaches its parser with
/// a transform must carry a radius and a color, and a physics component that gets a
/// body needs model geometry that colliders can be built from.
pub open spec fn parser_can_run(kind: ParserKind, request: ComponentRequest, facts: EntityFacts) -> bool {
    match kind {
        ParserKind::Transform => true,
        ParserKind::Physics => physics_outcome(request, facts) is Ok ==> facts.model_geometry_sound,
        ParserKind::PointLight => facts.has_transform ==> request.has_radius && request.has_color,
    }
}

fn text_is(s: &String, name: &str) -> (same: bool)
    ensures
        same == (s@ == name@),
{
    let expected = String::from_str(name);
    *s == expected
}

/// Decides a transform component.
pub fn parse_transform(request: &ComponentRequest) -> (outcome: Result<
    ParsedComponent,
    ComponentParserError,
>)
    ensures
        outcome == transform_outcome(*request),
{
    if !request.has_rotation {
        return Err(ComponentParserError::InvalidData("rotation"));
    }
    if !request.has_position {
        return Err(ComponentParserError::InvalidData("position"));
    }
    if !request.has_scale {
        return Err(ComponentParserError::InvalidData("scale"));
    }
    Ok(ParsedComponent::Transform { model: request.model })
}

/// Scans the damping entries of a dynamic body.
fn scan_damping(types: &Vec<String>) -> (scan: Option<(Option<usize>, Option<usize>)>)
    ensures
        scan == damping_scan(string_views(types@)),
{
    let mut linear: Option<usize> = None;
    let mut angular: Option<usize> = None;
    let mut i: usize = 0;
    while i < types.len()
        invariant
            0 <= i <= types.len(),
            damping_scan(string_views(types@.take(i as int))) == Some((linear, angular)),
        decreases types.len() - i,
    {
        let ghost prefix = string_views(types@.take(i as int));
        let ghost next = string_views(types@.take(i + 1));
        assert(next.drop_last() =~= prefix);
        assert(next.last() == types@[i as int]@);
        if text_is(&types[i], "linear") {
            linear = Some(i);
        } else if text_is(&types[i], "angular") {
            angular = Some(i);
        } else {
            assert(damping_scan(next) is None);
            assert forall|j: usize| i < j <= types.len() implies damping_scan(
                string_views(types@.take(j as int)),
            ) is None by {
                lemma_scan_failure_persists(types@, (i + 1) as usize, j);
            }
            assert(types@.take(types.len() as int) =~= types@);
            return None;
        }
        i = i + 1;
    }
    assert(types@.take(types.len() as int) =~= types@);
    Some((linear, angular))
}

proof fn lemma_scan_failure_persists(types: Seq<String>, k: usize, j: usize)
    requires
        k <= j <= types.len(),
        damping_scan(string_views(types.take(k as int))) is None,
    ensures
        damping_scan(string_views(types.take(j as int))) is None,
    decreases j - k,
{
    if j > k {
        lemma_scan_failure_persists(types, k, (j - 1) as usize);
        assert(string_views(types.take(j as int)).drop_last() =~= string_views(
            types.take(j - 1),
        ));
    }
}

/// Decides a physics component.
pub fn parse_physics(request: &ComponentRequest, facts: &EntityFacts) -> (outcome: Result<
    ParsedComponent,
    ComponentParserError,
>)
    requires
        parser_can_run(ParserKind::Physics, *request, *facts),
    ensures
        outcome == physics_outcome(*request, *facts),
{
    let model: u32 = match request.model {
        Some(model) => model,
        None => {
            return Err(ComponentParserError::MissingDependantComponent("transform"));
        },
    };
    if !facts.model_loaded {
        return Err(ComponentParserError::InvalidData("model"));
    }
    if !facts.has_transform {
        return Err(ComponentParserError::MissingDependantComponent("Transform"));
    }
    match request.body_type {
        Some(RigidBodyType::Dynamic) => {
            let (linear_damping, angular_damping) = match &request.damping_types {
                None => (None, None),
                Some(types) => match scan_damping(types) {
                    None => {
                        return Err(ComponentParserError::InvalidData("damping"));
                    },
                    Some(found) => found,
                },
            };
            Ok(
                ParsedComponent::RigidBody {
                    model_entity: model,
                    body_type: RigidBodyType::Dynamic,
                    linear_damping,
                    angular_damping,
                },
            )
        },
        Some(RigidBodyType::Static) => Ok(
            ParsedComponent::RigidBody {
                model_entity: model,
                body_type: RigidBodyType::Static,
                linear_damping: None,
                angular_damping: None,
            },
        ),
        None => Err(ComponentParserError::InvalidData("bodyType")),
    }
}

/// Decides a point light component.
pub fn parse_point_light(request: &ComponentRequest, facts: &EntityFacts) -> (outcome: Result<
    ParsedComponent,
    ComponentParserError,
>)
    requires
        parser_can_run(ParserKind::PointLight, *request, *facts),
    ensures
        outcome == point_light_outcome(*facts),
{
    if !facts.has_transform {
        return Err(ComponentParserError::MissingDependantComponent("Transform"));
    }
    Ok(ParsedComponent::PointLight)
}

impl ParserKind {
    /// Whether this parser handles components of the given type.
    pub fn handles(&self, component_type: &String) -> (handled: bool)
        ensures
            handled == (component_type@ == kind_name(*self)),
    {
        match self {
            ParserKind::Transform => text_is(component_type, "transform"),
            ParserKind::Physics => text_is(component_type, "physics"),
            ParserKind::PointLight => text_is(component_type, "pointLight"),
        }
    }

    /// Decides a request that this parser handles.
    pub fn parse(&self, request: &ComponentRequest, facts: &EntityFacts) -> (outcome: Result<
        ParsedComponent,
        ComponentParserError,
    >)
        requires
            parser_can_run(*self, *request, *facts),
        ensures
            outcome == outcome_of(*self, *request, *facts),
    {
        match self {
            ParserKind::Transform => parse_transform(request),
            ParserKind::Physics => parse_physics(request, facts),
            ParserKind::PointLight => parse_point_light(request, facts),
        }
    }
}

/// The chain of parsers that a component description is handed along until one of
/// them handles its type.
pub struct ComponentParser {
    chain: Vec<ParserKind>,
}

/// The chain the engine uses: transform, then physics, then point light.
pub open spec fn default_chain() -> Seq<ParserKind> {
    seq![ParserKind::Transform, ParserKind::Physics, ParserKind::PointLight]
}

/// What the whole chain decides for a request.
pub open spec fn chain_outcome(
    chain: Seq<ParserKind>,
    request: ComponentRequest,
    facts: EntityFacts,
) -> Result<ParsedComponent, ComponentParserError> {
    match handler_for(chain, request.component_type@) {
        None => Err(ComponentParserError::NotFound(request.component_type)),
        Some(kind) => outcome_of(kind, request, facts),
    }
}

impl ComponentParser {
    /// The parsers of the chain, in the order they are asked.
    pub closed spec fn chain(&self) -> Seq<ParserKind> {
        self.chain@
    }

    /// Hands the request along the chain; the first parser that handles its type
    /// decides, and a type that no parser handles is reported as not found.
    pub fn parse(&self, request: &ComponentRequest, facts: &EntityFacts) -> (outcome: Result<
        ParsedComponent,
        ComponentParserError,
    >)
        requires
            handler_for(self.chain(), request.component_type@) matches Some(kind)
                ==> parser_can_run(kind, *request, *facts),
        ensures
            outcome == chain_outcome(self.chain(), *request, *facts),
    {
        let mut i: usize = 0;
        assert(self.chain@.skip(0) =~= self.chain@);
        while i < self.chain.len()
            invariant
                0 <= i <= self.chain@.len(),
                handler_for(self.chain@, request.component_type@) matches Some(kind)
                    ==> parser_can_run(kind, *request, *facts),
                handler_for(self.chain@, request.component_type@) == handler_for(
                    self.chain@.skip(i as int),
                    request.component_type@,
                ),
            decreases self.chain@.len() - i,
        {
            let kind = self.chain[i];
            assert(self.chain@.skip(i as int)[0] == kind);
            if kind.handles(&request.component_type) {
                assert(handler_for(self.chain@.skip(i as int), request.component_type@) == Some(
                    kind,
                ));
                return kind.parse(request, facts);
            }
            assert(self.chain@.skip(i as int).drop_first() =~= self.chain@.skip(i + 1));
            i = i + 1;
        }
        Err(ComponentParserError::NotFound(request.component_type.clone()))
    }
}

impl Default for ComponentParser {
    fn default() -> (parser: Self)
        ensures
            parser.chain() == default_chain(),
    {
        let mut chain: Vec<ParserKind> = Vec::new();
        chain.push(ParserKind::Transform);
        chain.push(ParserKind::Physics);
        chain.push(ParserKind::PointLight);
        assert(chain@ =~= default_chain());
        ComponentParser { chain }
    }
}

/// The engine's chain sends `"transform"`, `"physics"` and `"pointLight"` components to
/// their own parsers and reports every other type as not found.
pub proof fn default_chain_routes(request: ComponentRequest, facts: EntityFacts)
    ensures
        request.component_type@ == "transform"@ ==> chain_outcome(default_chain(), request, facts)
            == transform_outcome(request),
        request.component_type@ == "physics"@ ==> chain_outcome(default_chain(), request, facts)
            == physics_outcome(request, facts),
        request.component_type@ == "pointLight"@ ==> chain_outcome(
            default_chain(),
            request,
            facts,
        ) == point_light_outcome(facts),
        request.component_type@ != "transform"@ && request.component_type@ != "physics"@
            && request.component_type@ != "pointLight"@ ==> chain_outcome(
            default_chain(),
            request,
            facts,
        ) == Err::<ParsedComponent, ComponentParserError>(
            ComponentParserError::NotFound(request.component_type),
        ),
{
    reveal_strlit("transform");
    reveal_strlit("physics");
    reveal_strlit("pointLight");
    let chain = default_chain();
    assert(chain.drop_first() =~= seq![ParserKind::Physics, ParserKind::PointLight]);
    assert(chain.drop_first().drop_first() =~= seq![ParserKind::PointLight]);
    assert(chain.drop_first().drop_first().drop_first() =~= Seq::<ParserKind>::empty());
    assert("transform"@.len() == 9);
    assert("physics"@.len() == 7);
    assert("pointLight"@.len() == 10);
    let ty = request.component_type@;
    assert(handler_for(chain, ty) == if ty == "transform"@ {
        Some(ParserKind::Transform)
    } else {
        handler_for(chain.drop_first(), ty)
    });
    assert(handler_for(chain.drop_first(), ty) == if ty == "physics"@ {
        Some(ParserKind::Physics)
    } else {
        handler_for(chain.drop_first().drop_first(), ty)
    });
    assert(handler_for(chain.drop_first().drop_first(), ty) == if ty == "pointLight"@ {
        Some(ParserKind::PointLight)
    } else {
        handler_for(chain.drop_first().drop_first().drop_first(), ty)
    });
}

/// Whether a damping entry names a kind of damping.
pub open spec fn is_damping_kind(kind: Seq<char>) -> bool {
    kind == "linear"@ || kind == "angular"@
}

/// The damping entries are accepted exactly when each of them is `"linear"` or
/// `"angular"`; then the linear (angular) damping taken is that of the last linear
/// (angular) entry, and there is none when no entry is linear (angular). (The list
/// is one that a `Vec` can hold.)
pub proof fn damping_scan_characterized(types: Seq<Seq<char>>)
    requires
        types.len() <= usize::MAX,
    ensures
        damping_scan(types) is Some <==> (forall|j: int|
            0 <= j < types.len() ==> is_damping_kind(#[trigger] types[j])),
        damping_scan(types) matches Some((linear, angular)) ==> {
            &&& match linear {
                Some(l) => l < types.len() && types[l as int] == "linear"@ && forall|j: int|
                    l < j < types.len() ==> #[trigger] types[j] != "linear"@,
                None => forall|j: int| 0 <= j < types.len() ==> #[trigger] types[j] != "linear"@,
            }
            &&& match angular {
                Some(a) => a < types.len() && types[a as int] == "angular"@ && forall|j: int|
                    a < j < types.len() ==> #[trigger] types[j] != "angular"@,
                None => forall|j: int|
                    0 <= j < types.len() ==> #[trigger] types[j] != "angular"@,
            }
        },
    decreases types.len(),
{
    reveal_strlit("linear");
    reveal_strlit("angular");
    if types.len() > 0 {
        let prefix = types.drop_last();
        let n: int = types.len() - 1;
        damping_scan_characterized(prefix);
        assert forall|j: int| 0 <= j < n implies #[trigger] types[j] == prefix[j] by {}
        assert("linear"@.len() == 6);
        assert("angular"@.len() == 7);
        assert("linear"@ != "angular"@);
        if damping_scan(prefix) is None {
            assert(!is_damping_kind(prefix[choose|j: int| 0 <= j < n && !is_damping_kind(prefix[j])]));
        } else if types.last() == "linear"@ {
            let (pl, pa) = damping_scan(prefix)->Some_0;
            assert(damping_scan(types) == Some((Some(n as usize), pa)));
            if let Some(a) = pa {
                assert forall|j: int| a < j < types.len() implies #[trigger] types[j]
                    != "angular"@ by {
                    if j < n {
                        assert(prefix[j] != "angular"@);
                    }
                }
            } else {
                assert forall|j: int| 0 <= j < types.len() implies #[trigger] types[j]
                    != "angular"@ by {
                    if j < n {
                        assert(prefix[j] != "angular"@);
                    }
                }
            }
        } else if types.last() == "angular"@ {
            let (pl, pa) = damping_scan(prefix)->Some_0;
            assert(damping_scan(types) == Some((pl, Some(n as usize))));
            if let Some(l) = pl {
                assert forall|j: int| l < j < types.len() implies #[trigger] types[j]
                    != "linear"@ by {
                    if j < n {
                        assert(prefix[j] != "linear"@);
                    }
                }
            } else {
                assert forall|j: int| 0 <= j < types.len() implies #[trigger] types[j]
                    != "linear"@ by {
                    if j < n {
                        assert(prefix[j] != "linear"@);
                    }
                }
            }
        } else {
            assert(!is_damping_kind(types[n]));
        }
    }
}

} // verus!
