use odata_gateway::catalog::Catalog;
use odata_gateway::schema::build_catalog;

fn key_names(catalog: &Catalog, collection: &str) -> Vec<String> {
    let descriptor = catalog
        .lookup(&collection.to_string())
        .unwrap_or_else(|| panic!("{} should be in the catalog", collection));
    descriptor.key_fields.clone()
}

#[test]
fn should_get_entity_type_key_names() {
    let catalog = build_catalog();
    assert_eq!("business_partner_id", key_names(&catalog, "BusinessPartnerSet")[0]);
    assert_eq!("product_id", key_names(&catalog, "ProductSet")[0]);
    assert_eq!("sales_order_id", key_names(&catalog, "SalesOrderSet")[0]);
    assert_eq!("sales_order_id", key_names(&catalog, "SalesOrderLineItemSet")[0]);
    assert_eq!("item_position", key_names(&catalog, "SalesOrderLineItemSet")[1]);
    assert_eq!("contact_guid", key_names(&catalog, "ContactSet")[0]);
    assert_eq!("sex", key_names(&catalog, "VH_SexSet")[0]);
    assert_eq!("land_1", key_names(&catalog, "VH_CountrySet")[0]);
    assert_eq!("address_type", key_names(&catalog, "VH_AddressTypeSet")[0]);
    assert_eq!("category", key_names(&catalog, "VH_CategorySet")[0]);
    assert_eq!("waers", key_names(&catalog, "VH_CurrencySet")[0]);
    assert_eq!("msehi", key_names(&catalog, "VH_UnitQuantitySet")[0]);
    assert_eq!("msehi", key_names(&catalog, "VH_UnitWeightSet")[0]);
    assert_eq!("msehi", key_names(&catalog, "VH_UnitLengthSet")[0]);
    assert_eq!("type_code", key_names(&catalog, "VH_ProductTypeCodeSet")[0]);
    assert_eq!("bp_role", key_names(&catalog, "VH_BPRoleSet")[0]);
    assert_eq!("spras", key_names(&catalog, "VH_LanguageSet")[0]);
}

// Every catalog name looks up to a descriptor that echoes the queried name
// and has a non-empty key.
#[test]
fn lookup_succeeds_on_every_catalog_name() {
    let catalog = build_catalog();
    let names = catalog.collection_names();
    assert_eq!(names.len(), 16);
    for name in &names {
        let descriptor = catalog.lookup(name).expect("catalog name should look up");
        assert_eq!(&descriptor.collection_name, name);
        assert!(!descriptor.key_fields.is_empty());
    }
}

#[test]
fn lookup_rejects_unknown_names() {
    let catalog = build_catalog();
    assert!(catalog.lookup(&"NoSuchSet".to_string()).is_none());
    assert!(catalog.lookup(&"".to_string()).is_none());
    assert!(catalog.lookup(&"businesspartnerset".to_string()).is_none());
}

#[test]
fn business_partner_key_is_business_partner_id() {
    let catalog = build_catalog();
    let descriptor = catalog.lookup(&"BusinessPartnerSet".to_string()).unwrap();
    assert_eq!(descriptor.key_fields, vec!["business_partner_id".to_string()]);
}

// The composite key keeps its field order.
#[test]
fn sales_order_line_item_composite_key_order() {
    let catalog = build_catalog();
    let descriptor = catalog.lookup(&"SalesOrderLineItemSet".to_string()).unwrap();
    assert_eq!(
        descriptor.key_fields,
        vec!["sales_order_id".to_string(), "item_position".to_string()]
    );
}

#[test]
fn collection_names_are_unique() {
    let catalog = build_catalog();
    let names = catalog.collection_names();
    for i in 0..names.len() {
        for j in 0..names.len() {
            if i != j {
                assert_ne!(names[i], names[j]);
            }
        }
    }
}

#[test]
fn vh_sex_descriptor_properties() {
    let catalog = build_catalog();
    let descriptor = catalog.lookup(&"VH_SexSet".to_string()).unwrap();
    assert_eq!(descriptor.properties.len(), 2);
    assert_eq!(descriptor.properties[0].name, "sex");
    assert_eq!(descriptor.properties[0].wire_name, "Sex");
    assert_eq!(descriptor.properties[1].name, "shorttext");
    assert_eq!(descriptor.properties[1].wire_name, "Shorttext");
}
