use embedding_gateway::gateway::GatewayApiError;
use embedding_gateway::registry::{AvailableModels, ModelDescriptor, find_model_by_full_name};

fn registry_with(entries: &[(&str, &str, &str)]) -> AvailableModels {
    let mut models = AvailableModels::new();
    for (full_name, model, provider) in entries {
        models.register(
            full_name.to_string(),
            ModelDescriptor { model: model.to_string(), provider: provider.to_string() },
        );
    }
    models
}

#[test]
fn registered_name_resolves_to_exact_descriptor() {
    let models = registry_with(&[
        ("provider-x/embed-small", "provider-x/embed-small", "provider-x"),
        ("provider-y/embed-large", "provider-y/embed-large", "provider-y"),
    ]);
    let name = "provider-y/embed-large".to_string();
    match find_model_by_full_name(&name, &models) {
        Ok(d) => {
            assert_eq!(d.model, "provider-y/embed-large");
            assert_eq!(d.provider, "provider-y");
        }
        Err(_) => panic!("registered name must resolve"),
    }
}

#[test]
fn unregistered_name_is_model_not_found() {
    let models = registry_with(&[("provider-x/embed-small", "provider-x/embed-small", "provider-x")]);
    let name = "unknown/model".to_string();
    match find_model_by_full_name(&name, &models) {
        Ok(_) => panic!("unregistered name must not resolve"),
        Err(GatewayApiError::ModelNotFound(n)) => assert_eq!(n, "unknown/model"),
        Err(GatewayApiError::EngineError(_)) => panic!("resolution never reports an engine error"),
    }
}

#[test]
fn lookup_is_exact_match_only() {
    let models = registry_with(&[("provider-x/embed-small", "provider-x/embed-small", "provider-x")]);
    for near_miss in ["provider-x/embed", "provider-x/embed-small2", "Provider-X/Embed-Small", ""] {
        let name = near_miss.to_string();
        assert!(matches!(
            find_model_by_full_name(&name, &models),
            Err(GatewayApiError::ModelNotFound(_))
        ));
    }
}

#[test]
fn empty_registry_resolves_nothing() {
    let models = AvailableModels::new();
    let name = "provider-x/embed-small".to_string();
    assert!(matches!(
        find_model_by_full_name(&name, &models),
        Err(GatewayApiError::ModelNotFound(_))
    ));
}

#[test]
fn earlier_registration_keeps_precedence() {
    let models = registry_with(&[
        ("provider-x/embed-small", "first-binding", "provider-x"),
        ("provider-x/embed-small", "second-binding", "provider-x"),
    ]);
    let name = "provider-x/embed-small".to_string();
    match find_model_by_full_name(&name, &models) {
        Ok(d) => assert_eq!(d.model, "first-binding"),
        Err(_) => panic!("registered name must resolve"),
    }
}

#[test]
fn alias_resolves_to_canonical_descriptor() {
    let models = registry_with(&[("provider-x/small-alias", "provider-x/embed-small", "provider-x")]);
    let name = "provider-x/small-alias".to_string();
    match find_model_by_full_name(&name, &models) {
        Ok(d) => assert_eq!(d.model, "provider-x/embed-small"),
        Err(_) => panic!("alias must resolve"),
    }
}
