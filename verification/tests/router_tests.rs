use odata_gateway::gateway::{plan_request, standard_config, RequestPlan};
use odata_gateway::router::route;
use odata_gateway::schema::build_catalog;
use odata_gateway::upstream::build_feed_url;

#[test]
fn feed_url_renders_multi_digit_page_limits() {
    let url = build_feed_url("https://host", "SVC", &"ProductSet".to_string(), 1005);
    assert_eq!(url, "https://host/SVC/ProductSet?$top=1005");
    let url = build_feed_url("https://host", "SVC", &"ProductSet".to_string(), 0);
    assert_eq!(url, "https://host/SVC/ProductSet?$top=0");
}

// An unknown name is rejected at the router, before any upstream activity.
#[test]
fn route_rejects_unknown_name() {
    let catalog = build_catalog();
    assert!(route(&catalog, &"NoSuchSet".to_string()).is_err());
}

#[test]
fn route_resolves_known_name() {
    let catalog = build_catalog();
    let descriptor = route(&catalog, &"ProductSet".to_string()).expect("known name should route");
    assert_eq!(descriptor.collection_name, "ProductSet");
    assert_eq!(descriptor.key_fields, vec!["product_id".to_string()]);
}

// Requesting an unknown collection plans a rejection and triggers zero
// upstream fetches.
#[test]
fn unknown_collection_plans_no_fetch() {
    let config = standard_config();
    let catalog = build_catalog();
    let mut fetches_performed: u32 = 0;
    // What a caller does with the plan: perform the fetch only when one is
    // planned.
    match plan_request(&config, &catalog, &"NoSuchSet".to_string()) {
        RequestPlan::Reject => {}
        RequestPlan::Fetch { .. } => {
            fetches_performed += 1;
        }
    }
    assert_eq!(fetches_performed, 0);
}

#[test]
fn known_collection_plans_exact_url() {
    let config = standard_config();
    let catalog = build_catalog();
    match plan_request(&config, &catalog, &"ProductSet".to_string()) {
        RequestPlan::Fetch { url, descriptor } => {
            assert_eq!(
                url,
                "https://sapes5.sapdevcenter.com/sap/opu/odata/iwbep/GWSAMPLE_BASIC/ProductSet?$top=250"
            );
            assert_eq!(descriptor.collection_name, "ProductSet");
        }
        RequestPlan::Reject => panic!("ProductSet should be fetched"),
    }
}

#[test]
fn every_catalog_name_plans_a_fetch() {
    let config = standard_config();
    let catalog = build_catalog();
    for name in catalog.collection_names() {
        match plan_request(&config, &catalog, &name) {
            RequestPlan::Fetch { url, descriptor } => {
                assert!(url.contains(&name));
                assert!(url.ends_with("?$top=250"));
                assert_eq!(descriptor.collection_name, name);
            }
            RequestPlan::Reject => panic!("{} should be fetched", name),
        }
    }
}
