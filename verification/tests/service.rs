use restate_mock::mock::steps::{AnyStep, EchoStep};
use restate_mock::mock::{
    DiscoveredHandler, Discovery, HandlerName, HandlerType, MockHandler, MockService,
    ServiceName, ServiceType, UnknownHandler,
};

fn echo(ty: Option<HandlerType>) -> MockHandler {
    MockHandler { steps: vec![AnyStep::Echo(EchoStep)], ty }
}

fn service() -> MockService {
    let mut service = MockService::new(ServiceName::parse("counter").unwrap(), ServiceType::VirtualObject);
    service.add_handler(HandlerName::parse("increment").unwrap(), echo(Some(HandlerType::Exclusive)));
    service.add_handler(HandlerName::parse("get_count").unwrap(), echo(Some(HandlerType::Shared)));
    service.add_handler(HandlerName::parse("reset").unwrap(), echo(None));
    service
}

#[test]
fn names_of_services_follow_the_pattern_of_the_host() {
    for name in ["a", "Z", "counter", "my.service-1_x", "_a", "_9", "a.b.c", "A-"] {
        assert_eq!(ServiceName::parse(name).map(|n| n.as_str().to_string()), Some(name.to_string()));
    }
    for name in ["", "_", "__a", "1abc", ".a", "-a", "a b", "a/b", "a\n", "café", "a$"] {
        assert_eq!(ServiceName::parse(name), None, "{:?}", name);
    }
}

#[test]
fn names_of_handlers_follow_the_pattern_of_the_host() {
    for name in ["a", "Z", "get_count", "_a", "_9x", "a1_"] {
        assert_eq!(HandlerName::parse(name).map(|n| n.as_str().to_string()), Some(name.to_string()));
    }
    for name in ["", "_", "__a", "1abc", "a.b", "a-b", "a b", "a\n", "é"] {
        assert_eq!(HandlerName::parse(name), None, "{:?}", name);
    }
}

#[test]
fn discovery_tells_name_type_and_handlers_without_steps() {
    assert_eq!(
        service().service_discovery(),
        Discovery {
            name: "counter".to_string(),
            ty: ServiceType::VirtualObject,
            handlers: vec![
                DiscoveredHandler { name: "increment".to_string(), ty: Some(HandlerType::Exclusive) },
                DiscoveredHandler { name: "get_count".to_string(), ty: Some(HandlerType::Shared) },
                DiscoveredHandler { name: "reset".to_string(), ty: None },
            ],
        }
    );
}

#[test]
fn discovery_of_a_service_without_handlers_has_none() {
    let service = MockService::new(ServiceName::parse("empty").unwrap(), ServiceType::Service);
    assert_eq!(
        service.service_discovery(),
        Discovery { name: "empty".to_string(), ty: ServiceType::Service, handlers: vec![] }
    );
}

#[test]
fn an_invocation_goes_to_the_handler_of_its_exact_name() {
    let service = service();
    assert_eq!(service.handler("get_count"), Ok(&echo(Some(HandlerType::Shared))));
    assert_eq!(service.handler("reset"), Ok(&echo(None)));
}

#[test]
fn an_unmatched_name_is_an_unknown_handler() {
    let service = service();
    for name in ["Get_count", "get_count ", "", "missing"] {
        assert_eq!(
            service.handler(name),
            Err(UnknownHandler { service: "counter".to_string(), handler: name.to_string() })
        );
    }
}

#[test]
fn adding_under_a_name_that_is_there_replaces_the_handler_at_its_place() {
    let mut service = service();
    let replacement = MockHandler { steps: vec![], ty: Some(HandlerType::Workflow) };
    service.add_handler(HandlerName::parse("get_count").unwrap(), replacement.clone());
    assert_eq!(service.handler("get_count"), Ok(&replacement));
    let discovery = service.service_discovery();
    assert_eq!(
        discovery.handlers.iter().map(|h| h.name.as_str()).collect::<Vec<_>>(),
        vec!["increment", "get_count", "reset"]
    );
    assert_eq!(discovery.handlers[1].ty, Some(HandlerType::Workflow));
}

#[test]
fn a_bound_service_tells_its_discovery_and_dispatches() {
    let bound = service().bind();
    assert_eq!(bound.discovery, service().service_discovery());
    assert_eq!(bound.handler("increment"), Ok(&echo(Some(HandlerType::Exclusive))));
    assert_eq!(
        bound.handler("nothing"),
        Err(UnknownHandler { service: "counter".to_string(), handler: "nothing".to_string() })
    );
    let shared = bound.service.clone();
    assert_eq!(shared.handler("reset"), Ok(&echo(None)));
}
