use lockbox::dto::TenantIdHeader;
use lockbox::query::{FindApiKeyEndpointParams, FindApiKeyNamespaceEndpointParams, FindApiKeyTagEndpointParams};

#[test]
fn key_search_defaults_and_tenant() {
    let q = FindApiKeyEndpointParams::default();
    assert_eq!(q.page, Some(1));
    assert_eq!(q.per_page, Some(10));
    assert!(q.validate().is_ok());
    let p = q.into_params(None, &"default".to_string());
    assert_eq!(p.page, 1);
    assert_eq!(p.per_page, 10);
    assert_eq!(p.tenant_ids, Some(vec!["default".to_string()]));
    assert_eq!(p.namespaces, None);

    let q = FindApiKeyEndpointParams { page: None, per_page: None, revoked: Some(true), ..Default::default() };
    let p = q.into_params(Some(TenantIdHeader::new("acme".to_string())), &"default".to_string());
    assert_eq!(p.page, 1);
    assert_eq!(p.per_page, 10);
    assert_eq!(p.revoked, Some(true));
    assert_eq!(p.tenant_ids, Some(vec!["acme".to_string()]));
}

#[test]
fn paging_rules() {
    let q = FindApiKeyEndpointParams { page: Some(0), per_page: Some(101), ..Default::default() };
    let found: Vec<String> = q.validate().unwrap_err().violations.into_iter().map(|v| v.field).collect();
    assert_eq!(found, vec!["page", "per_page"]);
    let q = FindApiKeyNamespaceEndpointParams { per_page: Some(100), ..Default::default() };
    assert!(q.validate().is_ok());
    let q = FindApiKeyTagEndpointParams { per_page: Some(0), ..Default::default() };
    assert_eq!(q.validate().unwrap_err().violations.len(), 1);
}

#[test]
fn namespace_and_tag_searches() {
    let q = FindApiKeyNamespaceEndpointParams { is_default: Some(true), ..Default::default() };
    let p = q.into_params(None, &"t".to_string());
    assert_eq!(p.is_default, Some(true));
    assert_eq!(p.tenant_ids, Some(vec!["t".to_string()]));
    let q = FindApiKeyTagEndpointParams { page: Some(3), ..Default::default() };
    let p = q.into_params("apik".to_string(), None, &"t".to_string());
    assert_eq!(p.page, 3);
    assert_eq!(p.namespaces, Some(vec!["apik".to_string()]));
    assert_eq!(p.tenant_ids, Some(vec!["t".to_string()]));
}
