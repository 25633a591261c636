//! Assembling services from a configuration.

use crate::config::{Configuration, HandlerConfig, ServiceConfig, StepConfig};
use crate::mock::factory::{StepFactory, StepRegistry};
use crate::mock::steps::{lemma_state_needs_key, AnyStep, StepView};
use crate::mock::{
    is_handler_name, is_service_name, HandlerName, MockHandler, MockService, ServiceName,
    ServiceType, Step, StepError, StepErrorView,
};
use vstd::prelude::*;

verus! {

/// The step that a configured step becomes under a service of a type, or
/// why it becomes none: its kind is unknown, its parameters are wrong, or
/// it may not stand under such a service.
pub open spec fn step_built(
    registry: StepRegistry,
    service_type: ServiceType,
    config: StepConfig,
) -> Result<StepView, StepErrorView> {
    match registry.factory_of(config.ty@) {
        None => Err(StepErrorView::UnknownStepType(config.ty@)),
        Some(factory) => match factory.makes(config.params@) {
            Err(wrong) => Err(StepErrorView::InvalidStepParameters(wrong)),
            Ok(step) => if step.allowed(service_type) {
                Ok(step)
            } else {
                Err(StepErrorView::InvalidServiceType(service_type))
            },
        },
    }
}

/// Makes the step that `step_config` describes and checks it against the
/// type of the service.
fn step_from_ref(registry: &StepRegistry, service_type: ServiceType, step_config: &StepConfig) -> (r:
    Result<AnyStep, StepError>)
    requires
        registry.wf(),
    ensures
        match r {
            Ok(step) => step_built(*registry, service_type, *step_config) == Ok::<
                StepView,
                StepErrorView,
            >(step@),
            Err(e) => step_built(*registry, service_type, *step_config) == Err::<
                StepView,
                StepErrorView,
            >(e@),
        },
{
    let factory = match registry.get(step_config.ty.as_str()) {
        Some(factory) => factory,
        None => {
            return Err(StepError::UnknownStepType(step_config.ty.clone()));
        },
    };
    let step = match factory.build(&step_config.params) {
        Ok(step) => step,
        Err(wrong) => {
            return Err(StepError::InvalidStepParameters(wrong));
        },
    };
    proof {
        lemma_state_needs_key(step, service_type);
    }
    match step.validate(service_type) {
        Ok(()) => Ok(step),
        Err(e) => Err(e),
    }
}

/// Makes the step that `step_config` describes: looks up the maker of its
/// kind, has it make the step from the parameters, and checks the step
/// against the type of the service.
pub fn step_from_config(
    registry: &StepRegistry,
    service_type: ServiceType,
    step_config: StepConfig,
) -> (r: Result<AnyStep, StepError>)
    requires
        registry.wf(),
    ensures
        match r {
            Ok(step) => step_built(*registry, service_type, step_config) == Ok::<
                StepView,
                StepErrorView,
            >(step@),
            Err(e) => step_built(*registry, service_type, step_config) == Err::<
                StepView,
                StepErrorView,
            >(e@),
        },
{
    step_from_ref(registry, service_type, &step_config)
}

/// Why a configuration cannot be assembled, and where.
#[derive(Debug, Clone, PartialEq, Eq)]
pub enum ConfigError {
    /// The name of the service is none that the host accepts.
    InvalidServiceName { service: String },
    /// The name of the handler is none that the host accepts.
    InvalidHandlerName { service: String, handler: String },
    /// The step at place `index` of the handler's list cannot be built.
    InvalidStep { service: String, handler: String, index: usize, error: StepError },
}

/// The mathematical value of a [`ConfigError`].
pub enum ConfigErrorView {
    InvalidServiceName { service: Seq<char> },
    InvalidHandlerName { service: Seq<char>, handler: Seq<char> },
    InvalidStep { service: Seq<char>, handler: Seq<char>, index: nat, error: StepErrorView },
}

impl View for ConfigError {
    type V = ConfigErrorView;

    open spec fn view(&self) -> ConfigErrorView {
        match self {
            ConfigError::InvalidServiceName { service } => ConfigErrorView::InvalidServiceName {
                service: service@,
            },
            ConfigError::InvalidHandlerName {
                service,
                handler,
            } => ConfigErrorView::InvalidHandlerName { service: service@, handler: handler@ },
            ConfigError::InvalidStep {
                service,
                handler,
                index,
                error,
            } => ConfigErrorView::InvalidStep {
                service: service@,
                handler: handler@,
                index: *index as nat,
                error: error@,
            },
        }
    }
}

/// The first of the first `n` steps of a list that cannot be built: its
/// place, and why.
pub open spec fn step_failure(
    registry: StepRegistry,
    service_type: ServiceType,
    steps: Seq<StepConfig>,
    n: nat,
) -> Option<(nat, StepErrorView)>
    decreases n,
{
    if n == 0 {
        None
    } else {
        match step_failure(registry, service_type, steps, (n - 1) as nat) {
            Some(failure) => Some(failure),
            None => match step_built(registry, service_type, steps[n - 1]) {
                Err(e) => Some(((n - 1) as nat, e)),
                Ok(_) => None,
            },
        }
    }
}

/// A failure among the first steps is the failure of the whole list.
pub proof fn lemma_step_failure_stays(
    registry: StepRegistry,
    service_type: ServiceType,
    steps: Seq<StepConfig>,
    n: nat,
    m: nat,
)
    requires
        n <= m,
        step_failure(registry, service_type, steps, n) is Some,
    ensures
        step_failure(registry, service_type, steps, m) == step_failure(
            registry,
            service_type,
            steps,
            n,
        ),
    decreases m,
{
    if n < m {
        lemma_step_failure_stays(registry, service_type, steps, n, (m - 1) as nat);
    }
}

/// Whether `handler` is what the configuration `config` describes: it has
/// the same scheduling, and each of its steps is the step that the
/// configured step at the same place becomes.
pub open spec fn built_from(
    registry: StepRegistry,
    service_type: ServiceType,
    config: HandlerConfig,
    handler: MockHandler,
) -> bool {
    &&& handler.ty == config.ty
    &&& handler.steps@.len() == config.steps@.len()
    &&& forall|j: int|
        0 <= j < config.steps@.len() ==> step_built(
            registry,
            service_type,
            #[trigger] config.steps@[j],
        ) == Ok::<StepView, StepErrorView>(handler.steps@[j]@)
}

/// What is wrong with a handler: the first of its steps that cannot be
/// built, or else its name.
pub open spec fn handler_failure(
    registry: StepRegistry,
    service_type: ServiceType,
    service: Seq<char>,
    name: Seq<char>,
    config: HandlerConfig,
) -> Option<ConfigErrorView> {
    match step_failure(registry, service_type, config.steps@, config.steps@.len()) {
        Some((index, error)) => Some(
            ConfigErrorView::InvalidStep { service, handler: name, index, error },
        ),
        None => if is_handler_name(name) {
            None
        } else {
            Some(ConfigErrorView::InvalidHandlerName { service, handler: name })
        },
    }
}

/// What is wrong with the first of the first `n` handlers of a service with
/// which something is wrong.
pub open spec fn handlers_failure(
    registry: StepRegistry,
    service: Seq<char>,
    config: ServiceConfig,
    n: nat,
) -> Option<ConfigErrorView>
    decreases n,
{
    if n == 0 {
        None
    } else {
        match handlers_failure(registry, service, config, (n - 1) as nat) {
            Some(failure) => Some(failure),
            None => handler_failure(
                registry,
                config.ty,
                service,
                config.handlers.names()[n - 1],
                config.handlers.values()[n - 1],
            ),
        }
    }
}

/// A failure among the first handlers is the failure of them all.
pub proof fn lemma_handlers_failure_stays(
    registry: StepRegistry,
    service: Seq<char>,
    config: ServiceConfig,
    n: nat,
    m: nat,
)
    requires
        n <= m,
        handlers_failure(registry, service, config, n) is Some,
    ensures
        handlers_failure(registry, service, config, m) == handlers_failure(
            registry,
            service,
            config,
            n,
        ),
    decreases m,
{
    if n < m {
        lemma_handlers_failure_stays(registry, service, config, n, (m - 1) as nat);
    }
}

/// What is wrong with a service: its name, or else the first of its
/// handlers with which something is wrong.
pub open spec fn service_failure(
    registry: StepRegistry,
    name: Seq<char>,
    config: ServiceConfig,
) -> Option<ConfigErrorView> {
    if !is_service_name(name) {
        Some(ConfigErrorView::InvalidServiceName { service: name })
    } else {
        handlers_failure(registry, name, config, config.handlers.names().len())
    }
}

/// Whether `service` is what the configuration `config` describes under
/// `name`.
pub open spec fn service_built_from(
    registry: StepRegistry,
    name: Seq<char>,
    config: ServiceConfig,
    service: MockService,
) -> bool {
    &&& service.wf()
    &&& service.name() == name
    &&& service.service_type() == config.ty
    &&& service.handler_names() == config.handlers.names()
    &&& service.handlers().len() == config.handlers.values().len()
    &&& forall|i: int|
        0 <= i < service.handlers().len() ==> built_from(
            registry,
            config.ty,
            config.handlers.values()[i],
            #[trigger] service.handlers()[i],
        )
}

/// What is wrong with the first of the first `n` services of a
/// configuration with which something is wrong.
pub open spec fn configuration_failure(
    registry: StepRegistry,
    config: Configuration,
    n: nat,
) -> Option<ConfigErrorView>
    decreases n,
{
    if n == 0 {
        None
    } else {
        match configuration_failure(registry, config, (n - 1) as nat) {
            Some(failure) => Some(failure),
            None => service_failure(
                registry,
                config.services.names()[n - 1],
                config.services.values()[n - 1],
            ),
        }
    }
}

/// Builds the steps of a list, in order, up to the first that cannot be
/// built.
fn build_steps(registry: &StepRegistry, service_type: ServiceType, steps: &Vec<StepConfig>) -> (r:
    Result<Vec<AnyStep>, (usize, StepError)>)
    requires
        registry.wf(),
    ensures
        match r {
            Ok(built) => {
                &&& step_failure(*registry, service_type, steps@, steps@.len()) is None
                &&& built@.len() == steps@.len()
                &&& forall|j: int|
                    0 <= j < steps@.len() ==> step_built(
                        *registry,
                        service_type,
                        #[trigger] steps@[j],
                    ) == Ok::<StepView, StepErrorView>(built@[j]@)
            },
            Err((index, error)) => step_failure(*registry, service_type, steps@, steps@.len())
                == Some((index as nat, error@)),
        },
{
    let mut built: Vec<AnyStep> = Vec::new();
    let mut i: usize = 0;
    while i < steps.len()
        invariant
            registry.wf(),
            i <= steps@.len(),
            built@.len() == i,
            step_failure(*registry, service_type, steps@, i as nat) is None,
            forall|j: int|
                0 <= j < i ==> step_built(*registry, service_type, #[trigger] steps@[j]) == Ok::<
                    StepView,
                    StepErrorView,
                >(built@[j]@),
        decreases steps@.len() - i,
    {
        match step_from_ref(registry, service_type, &steps[i]) {
            Ok(step) => {
                built.push(step);
            },
            Err(error) => {
                proof {
                    assert(step_failure(*registry, service_type, steps@, (i + 1) as nat) == Some(
                        (i as nat, error@),
                    ));
                    lemma_step_failure_stays(
                        *registry,
                        service_type,
                        steps@,
                        (i + 1) as nat,
                        steps@.len(),
                    );
                }
                return Err((i, error));
            },
        }
        i += 1;
    }
    Ok(built)
}

/// Assembles the service that `config` describes under `name`. The name of
/// the service is checked first; then the handlers are taken in order, of
/// each the steps in order and then the name. The first thing that is wrong
/// is reported, and no service is made.
pub fn build_service(registry: &StepRegistry, name: &str, config: &ServiceConfig) -> (r: Result<
    MockService,
    ConfigError,
>)
    requires
        registry.wf(),
        config.handlers.wf(),
    ensures
        match r {
            Ok(service) => {
                &&& service_failure(*registry, name@, *config) is None
                &&& service_built_from(*registry, name@, *config, service)
            },
            Err(e) => service_failure(*registry, name@, *config) == Some(e@),
        },
{
    let service_name = match ServiceName::parse(name) {
        Some(service_name) => service_name,
        None => {
            return Err(ConfigError::InvalidServiceName { service: name.to_owned() });
        },
    };
    proof {
        config.handlers.lemma_distinct();
    }
    let mut service = MockService::new(service_name, config.ty);
    let mut i: usize = 0;
    while i < config.handlers.len()
        invariant
            registry.wf(),
            config.handlers.wf(),
            is_service_name(name@),
            config.handlers.names().no_duplicates(),
            config.handlers.names().len() == config.handlers.values().len(),
            i <= config.handlers.names().len(),
            service.wf(),
            service.name() == name@,
            service.service_type() == config.ty,
            service.handler_names() == config.handlers.names().take(i as int),
            service.handlers().len() == i,
            handlers_failure(*registry, name@, *config, i as nat) is None,
            forall|k: int|
                0 <= k < i ==> built_from(
                    *registry,
                    config.ty,
                    config.handlers.values()[k],
                    #[trigger] service.handlers()[k],
                ),
        decreases config.handlers.names().len() - i,
    {
        let handler_text = config.handlers.name_at(i);
        let handler_config = config.handlers.value_at(i);
        let steps = match build_steps(registry, config.ty, &handler_config.steps) {
            Ok(steps) => steps,
            Err((index, error)) => {
                proof {
                    lemma_handlers_failure_stays(
                        *registry,
                        name@,
                        *config,
                        (i + 1) as nat,
                        config.handlers.names().len(),
                    );
                }
                return Err(
                    ConfigError::InvalidStep {
                        service: name.to_owned(),
                        handler: handler_text.clone(),
                        index,
                        error,
                    },
                );
            },
        };
        let handler_name = match HandlerName::parse(handler_text.as_str()) {
            Some(handler_name) => handler_name,
            None => {
                proof {
                    lemma_handlers_failure_stays(
                        *registry,
                        name@,
                        *config,
                        (i + 1) as nat,
                        config.handlers.names().len(),
                    );
                }
                return Err(
                    ConfigError::InvalidHandlerName {
                        service: name.to_owned(),
                        handler: handler_text.clone(),
                    },
                );
            },
        };
        let handler = MockHandler { steps, ty: handler_config.ty };
        let ghost names = config.handlers.names();
        let ghost before = service.handlers();
        proof {
            assert(!names.take(i as int).contains(names[i as int])) by {
                if names.take(i as int).contains(names[i as int]) {
                    let k = choose|k: int|
                        0 <= k < names.take(i as int).len() && names.take(i as int)[k]
                            == names[i as int];
                    assert(names[k] == names[i as int]);
                }
            }
        }
        service.add_handler(handler_name, handler);
        proof {
            assert(names.take(i as int).push(names[i as int]) =~= names.take(i + 1));
            assert forall|k: int| 0 <= k < i + 1 implies built_from(
                *registry,
                config.ty,
                config.handlers.values()[k],
                #[trigger] service.handlers()[k],
            ) by {
                if k < i {
                    assert(service.handlers()[k] == before[k]);
                }
            }
        }
        i += 1;
    }
    proof {
        assert(config.handlers.names().take(i as int) =~= config.handlers.names());
    }
    Ok(service)
}

/// Assembles the services of a configuration, in order. The first thing that
/// is wrong is reported, and no service is made.
pub fn build_services(registry: &StepRegistry, config: &Configuration) -> (r: Result<
    Vec<MockService>,
    ConfigError,
>)
    requires
        registry.wf(),
        config.services.wf(),
        forall|i: int|
            0 <= i < config.services.values().len() ==> (
            #[trigger] config.services.values()[i]).handlers.wf(),
    ensures
        match r {
            Ok(services) => {
                &&& configuration_failure(*registry, *config, config.services.names().len())
                    is None
                &&& services@.len() == config.services.names().len()
                &&& forall|i: int|
                    0 <= i < services@.len() ==> service_built_from(
                        *registry,
                        config.services.names()[i],
                        config.services.values()[i],
                        #[trigger] services@[i],
                    )
            },
            Err(e) => configuration_failure(*registry, *config, config.services.names().len())
                == Some(e@),
        },
{
    proof {
        config.services.lemma_distinct();
    }
    let mut services: Vec<MockService> = Vec::new();
    let mut i: usize = 0;
    while i < config.services.len()
        invariant
            registry.wf(),
            config.services.wf(),
            config.services.names().len() == config.services.values().len(),
            forall|k: int|
                0 <= k < config.services.values().len() ==> (
                #[trigger] config.services.values()[k]).handlers.wf(),
            i <= config.services.names().len(),
            services@.len() == i,
            configuration_failure(*registry, *config, i as nat) is None,
            forall|k: int|
                0 <= k < i ==> service_built_from(
                    *registry,
                    config.services.names()[k],
                    config.services.values()[k],
                    #[trigger] services@[k],
                ),
        decreases config.services.names().len() - i,
    {
        let name = config.services.name_at(i);
        let service_config = config.services.value_at(i);
        match build_service(registry, name.as_str(), service_config) {
            Ok(service) => {
                services.push(service);
            },
            Err(e) => {
                proof {
                    lemma_configuration_failure_stays(
                        *registry,
                        *config,
                        (i + 1) as nat,
                        config.services.names().len(),
                    );
                }
                return Err(e);
            },
        }
        i += 1;
    }
    Ok(services)
}

/// A failure among the first services is the failure of them all.
pub proof fn lemma_configuration_failure_stays(
    registry: StepRegistry,
    config: Configuration,
    n: nat,
    m: nat,
)
    requires
        n <= m,
        configuration_failure(registry, config, n) is Some,
    ensures
        configuration_failure(registry, config, m) == configuration_failure(registry, config, n),
    decreases m,
{
    if n < m {
        lemma_configuration_failure_stays(registry, config, n, (m - 1) as nat);
    }
}

/// A step that cannot be built shows among the failures of its list.
pub proof fn lemma_step_fails(
    registry: StepRegistry,
    service_type: ServiceType,
    steps: Seq<StepConfig>,
    j: int,
    n: nat,
)
    requires
        0 <= j < n,
        step_built(registry, service_type, steps[j]) is Err,
    ensures
        step_failure(registry, service_type, steps, n) is Some,
    decreases n,
{
    if j < n - 1 {
        lemma_step_fails(registry, service_type, steps, j, (n - 1) as nat);
    }
}

/// A handler with which something is wrong shows among the failures of its
/// service.
pub proof fn lemma_handler_fails(
    registry: StepRegistry,
    service: Seq<char>,
    config: ServiceConfig,
    h: int,
    n: nat,
)
    requires
        0 <= h < n,
        handler_failure(
            registry,
            config.ty,
            service,
            config.handlers.names()[h],
            config.handlers.values()[h],
        ) is Some,
    ensures
        handlers_failure(registry, service, config, n) is Some,
    decreases n,
{
    if h < n - 1 {
        lemma_handler_fails(registry, service, config, h, (n - 1) as nat);
    }
}

/// A step whose kind has no maker in the registry cannot be built, and the
/// reason names the kind as the configuration wrote it. A service that has
/// such a step in one of its handlers cannot be assembled, so it is never
/// bound.
pub proof fn lemma_unknown_kind(
    registry: StepRegistry,
    name: Seq<char>,
    config: ServiceConfig,
    h: int,
    j: int,
)
    requires
        0 <= h < config.handlers.names().len(),
        0 <= j < config.handlers.values()[h].steps@.len(),
        registry.factory_of(config.handlers.values()[h].steps@[j].ty@) is None,
    ensures
        step_built(registry, config.ty, config.handlers.values()[h].steps@[j]) == Err::<
            StepView,
            StepErrorView,
        >(StepErrorView::UnknownStepType(config.handlers.values()[h].steps@[j].ty@)),
        service_failure(registry, name, config) is Some,
{
    let handler = config.handlers.values()[h];
    lemma_step_fails(registry, config.ty, handler.steps@, j, handler.steps@.len());
    lemma_handler_fails(registry, name, config, h, config.handlers.names().len());
}

} // verus!
