use restate_mock::assembly::{build_services, ConfigError};
use restate_mock::config::{
    handler_type_from, service_type_from, Configuration, HandlerConfig, ServiceConfig,
    StepConfig, Value,
};
use restate_mock::mock::factory::StepRegistry;
use restate_mock::mock::{HandlerType, ServiceType, StepError};
use restate_mock::number::{Float, Number};
use restate_mock::table::Table;

const SAMPLE_CONFIG: &str = "
counter:
  type: SERVICE
  handlers:
    increment:
      type: EXCLUSIVE
      steps:
        - type: sleep
          params:
            duration: 2s
            jitter: 0.5
        - type: success
    get_count:
      type: SHARED
      steps:
        - type: success
";

fn value_from(value: &serde_yaml::Value) -> Value {
    match value {
        serde_yaml::Value::Null => Value::Null,
        serde_yaml::Value::Bool(b) => Value::Bool(*b),
        serde_yaml::Value::Number(n) => {
            if let Some(u) = n.as_u64() {
                Value::Number(Number::PosInt(u))
            } else if let Some(i) = n.as_i64() {
                Value::Number(Number::NegInt(i))
            } else {
                Value::Number(Number::Float(Float::from_bits(n.as_f64().unwrap().to_bits())))
            }
        }
        serde_yaml::Value::String(s) => Value::String(s.clone()),
        serde_yaml::Value::Sequence(items) => Value::Sequence(items.iter().map(value_from).collect()),
        serde_yaml::Value::Mapping(entries) => {
            Value::Mapping(entries.iter().map(|(k, v)| (value_from(k), value_from(v))).collect())
        }
        serde_yaml::Value::Tagged(tagged) => {
            Value::Tagged(tagged.tag.to_string(), Box::new(value_from(&tagged.value)))
        }
    }
}

fn configuration_from(document: &serde_yaml::Value) -> Configuration {
    let mut services = Table::new();
    for (name, service) in document.as_mapping().unwrap() {
        let mut handlers = Table::new();
        for (handler_name, handler) in service["handlers"].as_mapping().unwrap() {
            let steps = handler["steps"]
                .as_sequence()
                .unwrap()
                .iter()
                .map(|step| StepConfig {
                    ty: step["type"].as_str().unwrap().to_string(),
                    params: value_from(&step["params"]),
                })
                .collect();
            let ty = handler["type"].as_str().map(|text| handler_type_from(text).unwrap());
            handlers.insert(handler_name.as_str().unwrap().to_string(), HandlerConfig { ty, steps });
        }
        let ty = service_type_from(service["type"].as_str().unwrap()).unwrap();
        services.insert(name.as_str().unwrap().to_string(), ServiceConfig { ty, handlers });
    }
    Configuration { services }
}

#[test]
fn test_parse_config() {
    let document: serde_yaml::Value = serde_yaml::from_str(SAMPLE_CONFIG).unwrap();
    let config = configuration_from(&document).services;

    let counter_service = config.get("counter").unwrap();
    assert_eq!(counter_service.ty, ServiceType::Service);

    let handlers = &counter_service.handlers;
    assert_eq!(handlers.len(), 2);

    let increment = handlers.get("increment").unwrap();
    assert_eq!(increment.ty, Some(HandlerType::Exclusive));
    assert_eq!(increment.steps.len(), 2);

    let get_count = handlers.get("get_count").unwrap();
    assert_eq!(get_count.ty, Some(HandlerType::Shared));
    assert_eq!(get_count.steps.len(), 1);

    let increment_steps = &increment.steps;
    assert_eq!(increment_steps[0].ty, "sleep");
    assert_eq!(increment_steps[1].ty, "success");
}

#[test]
fn parameters_keep_what_the_document_gave() {
    let document: serde_yaml::Value = serde_yaml::from_str(SAMPLE_CONFIG).unwrap();
    let config = configuration_from(&document);
    let increment = config.services.get("counter").unwrap().handlers.get("increment").unwrap();
    assert_eq!(
        increment.steps[0].params,
        Value::Mapping(vec![
            (Value::String("duration".to_string()), Value::String("2s".to_string())),
            (
                Value::String("jitter".to_string()),
                Value::Number(Number::Float(Float::from_bits(0.5f64.to_bits())))
            ),
        ])
    );
    assert_eq!(increment.steps[1].params, Value::Null);
    assert_eq!(increment.steps[0].clone(), increment.steps[0]);
}

#[test]
fn a_configuration_with_an_unknown_kind_is_not_assembled() {
    let document: serde_yaml::Value = serde_yaml::from_str(SAMPLE_CONFIG).unwrap();
    let config = configuration_from(&document);
    assert_eq!(
        build_services(&StepRegistry::builtin(), &config).err(),
        Some(ConfigError::InvalidStep {
            service: "counter".to_string(),
            handler: "increment".to_string(),
            index: 1,
            error: StepError::UnknownStepType("success".to_string()),
        })
    );
}

#[test]
fn untag_looks_through_every_tag() {
    let inner = Value::String("x".to_string());
    let tagged = Value::Tagged(
        "!a".to_string(),
        Box::new(Value::Tagged("!b".to_string(), Box::new(inner.clone()))),
    );
    assert_eq!(tagged.untag(), &inner);
    assert_eq!(inner.untag(), &inner);
}
