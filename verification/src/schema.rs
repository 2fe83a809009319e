//! The per-collection descriptors and the catalog builder.  Every descriptor
//! is proved equal to its mathematical model, and the built catalog is proved
//! to satisfy the catalog invariants (unique names, non-empty keys), so a
//! violated schema invariant is a verification failure rather than a startup
//! error.

use vstd::prelude::*;

use crate::catalog::{
    AggregationRole, Catalog, DescriptorModel, DisplayFormat, EntityDescriptor, FieldControl,
    NavigationDescriptor, PropertyDescriptor, PropertyModel, PropertyType, SemanticAnnotation,
    Semantics,
};

verus! {

/// Model of a property with the given name, wire tag, type and nullability.
pub open spec fn pm(
    name: Seq<char>,
    wire_name: Seq<char>,
    prop_type: PropertyType,
    nullable: bool,
) -> PropertyModel {
    (PropertyModel { name, wire_name, prop_type, nullable })
}

/// Builds one property descriptor carrying no optional metadata.
fn prop(name: &str, wire_name: &str, prop_type: PropertyType, nullable: bool) -> (p:
    PropertyDescriptor)
    ensures
        p.model() == pm(name@, wire_name@, prop_type, nullable),
        p.annotation is None,
{
    PropertyDescriptor {
        name: name.to_owned(),
        wire_name: wire_name.to_owned(),
        prop_type,
        nullable,
        max_length: None,
        precision: None,
        scale: None,
        annotation: None,
    }
}

/// Builds one navigation descriptor.
fn nav(name: &str, from_role: &str, to_role: &str, creatable: bool, filterable: bool) -> (n:
    NavigationDescriptor) {
    NavigationDescriptor {
        name: name.to_owned(),
        from_role: from_role.to_owned(),
        to_role: to_role.to_owned(),
        creatable,
        filterable,
    }
}

pub open spec fn business_partner_model() -> DescriptorModel {
    (DescriptorModel {
        name: "BusinessPartnerSet"@,
        key_fields: seq!["business_partner_id"@],
        properties: seq![
            pm("business_partner_id"@, "BusinessPartnerID"@, PropertyType::Text, false),
            pm("company_name"@, "CompanyName"@, PropertyType::Text, false),
            pm("web_address"@, "WebAddress"@, PropertyType::Text, true),
            pm("email_address"@, "EmailAddress"@, PropertyType::Text, false),
            pm("phone_number"@, "PhoneNumber"@, PropertyType::Text, true),
            pm("fax_number"@, "FaxNumber"@, PropertyType::Text, true),
            pm("legal_form"@, "LegalForm"@, PropertyType::Text, true),
            pm("currency_code"@, "CurrencyCode"@, PropertyType::Text, false),
            pm("business_partner_role"@, "BusinessPartnerRole"@, PropertyType::Text, false),
            pm("created_at"@, "CreatedAt"@, PropertyType::DateTime, true),
            pm("changed_at"@, "ChangedAt"@, PropertyType::DateTime, true),
        ],
    })
}

fn business_partner_descriptor() -> (d: EntityDescriptor)
    ensures
        d.model() == business_partner_model(),
{
    let mut id_prop = prop("business_partner_id", "BusinessPartnerID", PropertyType::Text, false);
    id_prop.max_length = Some(10);
    id_prop.annotation = Some(
        SemanticAnnotation {
            display_format: Some(DisplayFormat::UpperCase),
            filterable: true,
            field_control: Some(FieldControl::ReadOnly),
            aggregation_role: Some(AggregationRole::Dimension),
            meaning: None,
        },
    );
    let mut email_prop = prop("email_address", "EmailAddress", PropertyType::Text, false);
    email_prop.annotation = Some(
        SemanticAnnotation {
            display_format: None,
            filterable: true,
            field_control: None,
            aggregation_role: None,
            meaning: Some(Semantics::EmailAddress),
        },
    );
    let mut currency_prop = prop("currency_code", "CurrencyCode", PropertyType::Text, false);
    currency_prop.max_length = Some(5);
    currency_prop.annotation = Some(
        SemanticAnnotation {
            display_format: None,
            filterable: false,
            field_control: None,
            aggregation_role: None,
            meaning: Some(Semantics::CurrencyCode),
        },
    );

    let mut properties: Vec<PropertyDescriptor> = Vec::new();
    properties.push(id_prop);
    properties.push(prop("company_name", "CompanyName", PropertyType::Text, false));
    properties.push(prop("web_address", "WebAddress", PropertyType::Text, true));
    properties.push(email_prop);
    properties.push(prop("phone_number", "PhoneNumber", PropertyType::Text, true));
    properties.push(prop("fax_number", "FaxNumber", PropertyType::Text, true));
    properties.push(prop("legal_form", "LegalForm", PropertyType::Text, true));
    properties.push(currency_prop);
    properties.push(prop("business_partner_role", "BusinessPartnerRole", PropertyType::Text, false));
    properties.push(prop("created_at", "CreatedAt", PropertyType::DateTime, true));
    properties.push(prop("changed_at", "ChangedAt", PropertyType::DateTime, true));

    let mut navigations: Vec<NavigationDescriptor> = Vec::new();
    navigations.push(nav("to_sales_orders", "FromRole_BusinessPartner", "ToRole_SalesOrders", true, false));
    navigations.push(nav("to_contacts", "FromRole_BusinessPartner", "ToRole_Contacts", true, false));
    navigations.push(nav("to_products", "FromRole_BusinessPartner", "ToRole_Products", true, false));

    let d = EntityDescriptor {
        collection_name: "BusinessPartnerSet".to_owned(),
        key_fields: vec!["business_partner_id".to_owned()],
        properties,
        navigations,
    };
    proof {
        assert(d.model() =~~= business_partner_model());
    }
    d
}

pub open spec fn product_model() -> DescriptorModel {
    (DescriptorModel {
        name: "ProductSet"@,
        key_fields: seq!["product_id"@],
        properties: seq![
            pm("product_id"@, "ProductID"@, PropertyType::Text, false),
            pm("type_code"@, "TypeCode"@, PropertyType::Text, false),
            pm("category"@, "Category"@, PropertyType::Text, false),
            pm("name"@, "Name"@, PropertyType::Text, false),
            pm("name_language"@, "NameLanguage"@, PropertyType::Text, true),
            pm("description"@, "Description"@, PropertyType::Text, true),
            pm("description_language"@, "DescriptionLanguage"@, PropertyType::Text, true),
            pm("supplier_id"@, "SupplierID"@, PropertyType::Text, true),
            pm("supplier_name"@, "SupplierName"@, PropertyType::Text, true),
            pm("tax_tarif_code"@, "TaxTarifCode"@, PropertyType::Integer, false),
            pm("measure_unit"@, "MeasureUnit"@, PropertyType::Text, true),
            pm("weight_measure"@, "WeightMeasure"@, PropertyType::Decimal, true),
            pm("weight_unit"@, "WeightUnit"@, PropertyType::Text, true),
            pm("currency_code"@, "CurrencyCode"@, PropertyType::Text, false),
            pm("price"@, "Price"@, PropertyType::Decimal, true),
            pm("width"@, "Width"@, PropertyType::Decimal, true),
            pm("depth"@, "Depth"@, PropertyType::Decimal, true),
            pm("height"@, "Height"@, PropertyType::Decimal, true),
            pm("dim_unit"@, "DimUnit"@, PropertyType::Text, true),
            pm("created_at"@, "CreatedAt"@, PropertyType::DateTime, true),
            pm("changed_at"@, "ChangedAt"@, PropertyType::DateTime, true),
        ],
    })
}

fn product_descriptor() -> (d: EntityDescriptor)
    ensures
        d.model() == product_model(),
{
    let mut weight_prop = prop("weight_measure", "WeightMeasure", PropertyType::Decimal, true);
    weight_prop.precision = Some(13);
    weight_prop.scale = Some(3);
    weight_prop.annotation = Some(
        SemanticAnnotation {
            display_format: None,
            filterable: false,
            field_control: None,
            aggregation_role: Some(AggregationRole::Measure),
            meaning: None,
        },
    );
    let mut price_prop = prop("price", "Price", PropertyType::Decimal, true);
    price_prop.precision = Some(16);
    price_prop.scale = Some(3);
    let mut unit_prop = prop("measure_unit", "MeasureUnit", PropertyType::Text, true);
    unit_prop.max_length = Some(3);
    unit_prop.annotation = Some(
        SemanticAnnotation {
            display_format: None,
            filterable: false,
            field_control: None,
            aggregation_role: Some(AggregationRole::Unit),
            meaning: Some(Semantics::UnitOfMeasure),
        },
    );

    let mut properties: Vec<PropertyDescriptor> = Vec::new();
    properties.push(prop("product_id", "ProductID", PropertyType::Text, false));
    properties.push(prop("type_code", "TypeCode", PropertyType::Text, false));
    properties.push(prop("category", "Category", PropertyType::Text, false));
    properties.push(prop("name", "Name", PropertyType::Text, false));
    properties.push(prop("name_language", "NameLanguage", PropertyType::Text, true));
    properties.push(prop("description", "Description", PropertyType::Text, true));
    properties.push(prop("description_language", "DescriptionLanguage", PropertyType::Text, true));
    properties.push(prop("supplier_id", "SupplierID", PropertyType::Text, true));
    properties.push(prop("supplier_name", "SupplierName", PropertyType::Text, true));
    properties.push(prop("tax_tarif_code", "TaxTarifCode", PropertyType::Integer, false));
    properties.push(unit_prop);
    properties.push(weight_prop);
    properties.push(prop("weight_unit", "WeightUnit", PropertyType::Text, true));
    properties.push(prop("currency_code", "CurrencyCode", PropertyType::Text, false));
    properties.push(price_prop);
    properties.push(prop("width", "Width", PropertyType::Decimal, true));
    properties.push(prop("depth", "Depth", PropertyType::Decimal, true));
    properties.push(prop("height", "Height", PropertyType::Decimal, true));
    properties.push(prop("dim_unit", "DimUnit", PropertyType::Text, true));
    properties.push(prop("created_at", "CreatedAt", PropertyType::DateTime, true));
    properties.push(prop("changed_at", "ChangedAt", PropertyType::DateTime, true));

    let mut navigations: Vec<NavigationDescriptor> = Vec::new();
    navigations.push(nav("to_supplier", "FromRole_Product", "ToRole_Supplier", false, true));
    navigations.push(nav("to_sales_order_line_items", "FromRole_Product", "ToRole_LineItems", false, false));

    let d = EntityDescriptor {
        collection_name: "ProductSet".to_owned(),
        key_fields: vec!["product_id".to_owned()],
        properties,
        navigations,
    };
    proof {
        assert(d.model() =~~= product_model());
    }
    d
}

pub open spec fn sales_order_model() -> DescriptorModel {
    (DescriptorModel {
        name: "SalesOrderSet"@,
        key_fields: seq!["sales_order_id"@],
        properties: seq![
            pm("sales_order_id"@, "SalesOrderID"@, PropertyType::Text, false),
            pm("note"@, "Note"@, PropertyType::Text, true),
            pm("note_language"@, "NoteLanguage"@, PropertyType::Text, true),
            pm("customer_id"@, "CustomerID"@, PropertyType::Text, false),
            pm("customer_name"@, "CustomerName"@, PropertyType::Text, true),
            pm("currency_code"@, "CurrencyCode"@, PropertyType::Text, true),
            pm("gross_amount"@, "GrossAmount"@, PropertyType::Decimal, true),
            pm("net_amount"@, "NetAmount"@, PropertyType::Decimal, true),
            pm("tax_amount"@, "TaxAmount"@, PropertyType::Decimal, true),
            pm("lifecycle_status"@, "LifecycleStatus"@, PropertyType::Text, true),
            pm("lifecycle_status_description"@, "LifecycleStatusDescription"@, PropertyType::Text, true),
            pm("billing_status"@, "BillingStatus"@, PropertyType::Text, true),
            pm("billing_status_description"@, "BillingStatusDescription"@, PropertyType::Text, true),
            pm("delivery_status"@, "DeliveryStatus"@, PropertyType::Text, true),
            pm("delivery_status_description"@, "DeliveryStatusDescription"@, PropertyType::Text, true),
            pm("created_at"@, "CreatedAt"@, PropertyType::DateTime, true),
            pm("changed_at"@, "ChangedAt"@, PropertyType::DateTime, true),
        ],
    })
}

fn sales_order_descriptor() -> (d: EntityDescriptor)
    ensures
        d.model() == sales_order_model(),
{
    let mut gross_prop = prop("gross_amount", "GrossAmount", PropertyType::Decimal, true);
    gross_prop.precision = Some(16);
    gross_prop.scale = Some(3);
    gross_prop.annotation = Some(
        SemanticAnnotation {
            display_format: None,
            filterable: false,
            field_control: Some(FieldControl::ReadOnly),
            aggregation_role: Some(AggregationRole::Measure),
            meaning: None,
        },
    );
    let mut net_prop = prop("net_amount", "NetAmount", PropertyType::Decimal, true);
    net_prop.precision = Some(16);
    net_prop.scale = Some(3);
    let mut tax_prop = prop("tax_amount", "TaxAmount", PropertyType::Decimal, true);
    tax_prop.precision = Some(16);
    tax_prop.scale = Some(3);

    let mut properties: Vec<PropertyDescriptor> = Vec::new();
    properties.push(prop("sales_order_id", "SalesOrderID", PropertyType::Text, false));
    properties.push(prop("note", "Note", PropertyType::Text, true));
    properties.push(prop("note_language", "NoteLanguage", PropertyType::Text, true));
    properties.push(prop("customer_id", "CustomerID", PropertyType::Text, false));
    properties.push(prop("customer_name", "CustomerName", PropertyType::Text, true));
    properties.push(prop("currency_code", "CurrencyCode", PropertyType::Text, true));
    properties.push(gross_prop);
    properties.push(net_prop);
    properties.push(tax_prop);
    properties.push(prop("lifecycle_status", "LifecycleStatus", PropertyType::Text, true));
    properties.push(prop("lifecycle_status_description", "LifecycleStatusDescription", PropertyType::Text, true));
    properties.push(prop("billing_status", "BillingStatus", PropertyType::Text, true));
    properties.push(prop("billing_status_description", "BillingStatusDescription", PropertyType::Text, true));
    properties.push(prop("delivery_status", "DeliveryStatus", PropertyType::Text, true));
    properties.push(prop("delivery_status_description", "DeliveryStatusDescription", PropertyType::Text, true));
    properties.push(prop("created_at", "CreatedAt", PropertyType::DateTime, true));
    properties.push(prop("changed_at", "ChangedAt", PropertyType::DateTime, true));

    let mut navigations: Vec<NavigationDescriptor> = Vec::new();
    navigations.push(nav("to_line_items", "FromRole_SalesOrder", "ToRole_LineItems", true, false));
    navigations.push(nav("to_business_partner", "FromRole_SalesOrder", "ToRole_BusinessPartner", false, true));

    let d = EntityDescriptor {
        collection_name: "SalesOrderSet".to_owned(),
        key_fields: vec!["sales_order_id".to_owned()],
        properties,
        navigations,
    };
    proof {
        assert(d.model() =~~= sales_order_model());
    }
    d
}

pub open spec fn sales_order_line_item_model() -> DescriptorModel {
    (DescriptorModel {
        name: "SalesOrderLineItemSet"@,
        key_fields: seq!["sales_order_id"@, "item_position"@],
        properties: seq![
            pm("sales_order_id"@, "SalesOrderID"@, PropertyType::Text, false),
            pm("item_position"@, "ItemPosition"@, PropertyType::Text, false),
            pm("product_id"@, "ProductID"@, PropertyType::Text, false),
            pm("note"@, "Note"@, PropertyType::Text, true),
            pm("note_language"@, "NoteLanguage"@, PropertyType::Text, true),
            pm("currency_code"@, "CurrencyCode"@, PropertyType::Text, true),
            pm("gross_amount"@, "GrossAmount"@, PropertyType::Decimal, true),
            pm("net_amount"@, "NetAmount"@, PropertyType::Decimal, true),
            pm("tax_amount"@, "TaxAmount"@, PropertyType::Decimal, true),
            pm("delivery_date"@, "DeliveryDate"@, PropertyType::DateTime, false),
            pm("quantity"@, "Quantity"@, PropertyType::Decimal, false),
            pm("quantity_unit"@, "QuantityUnit"@, PropertyType::Text, true),
        ],
    })
}

fn sales_order_line_item_descriptor() -> (d: EntityDescriptor)
    ensures
        d.model() == sales_order_line_item_model(),
{
    let mut quantity_prop = prop("quantity", "Quantity", PropertyType::Decimal, false);
    quantity_prop.precision = Some(13);
    quantity_prop.scale = Some(3);
    quantity_prop.annotation = Some(
        SemanticAnnotation {
            display_format: None,
            filterable: false,
            field_control: Some(FieldControl::Mandatory),
            aggregation_role: Some(AggregationRole::Measure),
            meaning: None,
        },
    );

    let mut properties: Vec<PropertyDescriptor> = Vec::new();
    properties.push(prop("sales_order_id", "SalesOrderID", PropertyType::Text, false));
    properties.push(prop("item_position", "ItemPosition", PropertyType::Text, false));
    properties.push(prop("product_id", "ProductID", PropertyType::Text, false));
    properties.push(prop("note", "Note", PropertyType::Text, true));
    properties.push(prop("note_language", "NoteLanguage", PropertyType::Text, true));
    properties.push(prop("currency_code", "CurrencyCode", PropertyType::Text, true));
    properties.push(prop("gross_amount", "GrossAmount", PropertyType::Decimal, true));
    properties.push(prop("net_amount", "NetAmount", PropertyType::Decimal, true));
    properties.push(prop("tax_amount", "TaxAmount", PropertyType::Decimal, true));
    properties.push(prop("delivery_date", "DeliveryDate", PropertyType::DateTime, false));
    properties.push(quantity_prop);
    properties.push(prop("quantity_unit", "QuantityUnit", PropertyType::Text, true));

    let mut navigations: Vec<NavigationDescriptor> = Vec::new();
    navigations.push(nav("to_header", "FromRole_LineItem", "ToRole_SalesOrder", false, false));
    navigations.push(nav("to_product", "FromRole_LineItem", "ToRole_Product", false, true));

    let d = EntityDescriptor {
        collection_name: "SalesOrderLineItemSet".to_owned(),
        key_fields: vec!["sales_order_id".to_owned(), "item_position".to_owned()],
        properties,
        navigations,
    };
    proof {
        assert(d.model() =~~= sales_order_line_item_model());
    }
    d
}

pub open spec fn contact_model() -> DescriptorModel {
    (DescriptorModel {
        name: "ContactSet"@,
        key_fields: seq!["contact_guid"@],
        properties: seq![
            pm("contact_guid"@, "ContactGuid"@, PropertyType::Text, false),
            pm("business_partner_id"@, "BusinessPartnerID"@, PropertyType::Text, false),
            pm("title"@, "Title"@, PropertyType::Text, true),
            pm("first_name"@, "FirstName"@, PropertyType::Text, false),
            pm("middle_name"@, "MiddleName"@, PropertyType::Text, true),
            pm("last_name"@, "LastName"@, PropertyType::Text, true),
            pm("nickname"@, "Nickname"@, PropertyType::Text, true),
            pm("initials"@, "Initials"@, PropertyType::Text, true),
            pm("sex"@, "Sex"@, PropertyType::Text, true),
            pm("phone_number"@, "PhoneNumber"@, PropertyType::Text, true),
            pm("fax_number"@, "FaxNumber"@, PropertyType::Text, true),
            pm("email_address"@, "EmailAddress"@, PropertyType::Text, false),
            pm("language"@, "Language"@, PropertyType::Text, true),
            pm("date_of_birth"@, "DateOfBirth"@, PropertyType::DateTime, true),
        ],
    })
}

fn contact_descriptor() -> (d: EntityDescriptor)
    ensures
        d.model() == contact_model(),
{
    let mut email_prop = prop("email_address", "EmailAddress", PropertyType::Text, false);
    email_prop.annotation = Some(
        SemanticAnnotation {
            display_format: None,
            filterable: true,
            field_control: None,
            aggregation_role: None,
            meaning: Some(Semantics::EmailAddress),
        },
    );
    let mut phone_prop = prop("phone_number", "PhoneNumber", PropertyType::Text, true);
    phone_prop.annotation = Some(
        SemanticAnnotation {
            display_format: None,
            filterable: false,
            field_control: None,
            aggregation_role: None,
            meaning: Some(Semantics::PhoneNumber),
        },
    );
    let mut birth_prop = prop("date_of_birth", "DateOfBirth", PropertyType::DateTime, true);
    birth_prop.annotation = Some(
        SemanticAnnotation {
            display_format: Some(DisplayFormat::Date),
            filterable: false,
            field_control: None,
            aggregation_role: None,
            meaning: None,
        },
    );

    let mut properties: Vec<PropertyDescriptor> = Vec::new();
    properties.push(prop("contact_guid", "ContactGuid", PropertyType::Text, false));
    properties.push(prop("business_partner_id", "BusinessPartnerID", PropertyType::Text, false));
    properties.push(prop("title", "Title", PropertyType::Text, true));
    properties.push(prop("first_name", "FirstName", PropertyType::Text, false));
    properties.push(prop("middle_name", "MiddleName", PropertyType::Text, true));
    properties.push(prop("last_name", "LastName", PropertyType::Text, true));
    properties.push(prop("nickname", "Nickname", PropertyType::Text, true));
    properties.push(prop("initials", "Initials", PropertyType::Text, true));
    properties.push(prop("sex", "Sex", PropertyType::Text, true));
    properties.push(phone_prop);
    properties.push(prop("fax_number", "FaxNumber", PropertyType::Text, true));
    properties.push(email_prop);
    properties.push(prop("language", "Language", PropertyType::Text, true));
    properties.push(birth_prop);

    let mut navigations: Vec<NavigationDescriptor> = Vec::new();
    navigations.push(nav("to_business_partner", "FromRole_Contact", "ToRole_BusinessPartner", false, true));

    let d = EntityDescriptor {
        collection_name: "ContactSet".to_owned(),
        key_fields: vec!["contact_guid".to_owned()],
        properties,
        navigations,
    };
    proof {
        assert(d.model() =~~= contact_model());
    }
    d
}

/// Model shared by the two-field value-help collections: a key code and its
/// short descriptive text.
pub open spec fn vh_model(
    name: Seq<char>,
    key: Seq<char>,
    key_wire: Seq<char>,
    txt: Seq<char>,
    txt_wire: Seq<char>,
) -> DescriptorModel {
    (DescriptorModel {
        name,
        key_fields: seq![key],
        properties: seq![
            pm(key, key_wire, PropertyType::Text, false),
            pm(txt, txt_wire, PropertyType::Text, false),
        ],
    })
}

/// Builds a two-field value-help descriptor.
fn vh_descriptor(collection: &str, key: &str, key_wire: &str, txt: &str, txt_wire: &str) -> (d:
    EntityDescriptor)
    ensures
        d.model() == vh_model(collection@, key@, key_wire@, txt@, txt_wire@),
{
    let mut properties: Vec<PropertyDescriptor> = Vec::new();
    properties.push(prop(key, key_wire, PropertyType::Text, false));
    properties.push(prop(txt, txt_wire, PropertyType::Text, false));
    let d = EntityDescriptor {
        collection_name: collection.to_owned(),
        key_fields: vec![key.to_owned()],
        properties,
        navigations: Vec::new(),
    };
    proof {
        assert(d.model() =~~= vh_model(collection@, key@, key_wire@, txt@, txt_wire@));
    }
    d
}

pub open spec fn vh_sex_model() -> DescriptorModel {
    vh_model("VH_SexSet"@, "sex"@, "Sex"@, "shorttext"@, "Shorttext"@)
}

pub open spec fn vh_country_model() -> DescriptorModel {
    vh_model("VH_CountrySet"@, "land_1"@, "Land1"@, "landx"@, "Landx"@)
}

pub open spec fn vh_address_type_model() -> DescriptorModel {
    vh_model("VH_AddressTypeSet"@, "address_type"@, "AddressType"@, "shorttext"@, "Shorttext"@)
}

pub open spec fn vh_category_model() -> DescriptorModel {
    (DescriptorModel {
        name: "VH_CategorySet"@,
        key_fields: seq!["category"@],
        properties: seq![pm("category"@, "Category"@, PropertyType::Text, false)],
    })
}

pub open spec fn vh_currency_model() -> DescriptorModel {
    vh_model("VH_CurrencySet"@, "waers"@, "Waers"@, "ltext"@, "Ltext"@)
}

pub open spec fn vh_unit_quantity_model() -> DescriptorModel {
    vh_model("VH_UnitQuantitySet"@, "msehi"@, "Msehi"@, "msehl"@, "Msehl"@)
}

pub open spec fn vh_unit_weight_model() -> DescriptorModel {
    vh_model("VH_UnitWeightSet"@, "msehi"@, "Msehi"@, "msehl"@, "Msehl"@)
}

pub open spec fn vh_unit_length_model() -> DescriptorModel {
    vh_model("VH_UnitLengthSet"@, "msehi"@, "Msehi"@, "msehl"@, "Msehl"@)
}

pub open spec fn vh_product_type_code_model() -> DescriptorModel {
    vh_model("VH_ProductTypeCodeSet"@, "type_code"@, "TypeCode"@, "shorttext"@, "Shorttext"@)
}

pub open spec fn vh_bp_role_model() -> DescriptorModel {
    vh_model("VH_BPRoleSet"@, "bp_role"@, "BpRole"@, "shorttext"@, "Shorttext"@)
}

pub open spec fn vh_language_model() -> DescriptorModel {
    vh_model("VH_LanguageSet"@, "spras"@, "Spras"@, "sptxt"@, "Sptxt"@)
}

fn vh_category_descriptor() -> (d: EntityDescriptor)
    ensures
        d.model() == vh_category_model(),
{
    let mut properties: Vec<PropertyDescriptor> = Vec::new();
    properties.push(prop("category", "Category", PropertyType::Text, false));
    let d = EntityDescriptor {
        collection_name: "VH_CategorySet".to_owned(),
        key_fields: vec!["category".to_owned()],
        properties,
        navigations: Vec::new(),
    };
    proof {
        assert(d.model() =~~= vh_category_model());
    }
    d
}

/// The whole catalog, as a mathematical value: one descriptor model per
/// collection, in catalog order.
pub open spec fn catalog_model() -> Seq<DescriptorModel> {
    seq![
        business_partner_model(),
        product_model(),
        sales_order_model(),
        sales_order_line_item_model(),
        contact_model(),
        vh_sex_model(),
        vh_country_model(),
        vh_address_type_model(),
        vh_category_model(),
        vh_currency_model(),
        vh_unit_quantity_model(),
        vh_unit_weight_model(),
        vh_unit_length_model(),
        vh_product_type_code_model(),
        vh_bp_role_model(),
        vh_language_model(),
    ]
}

/// The names of `catalog_model`'s entries are pairwise distinct.
proof fn lemma_catalog_names_distinct()
    ensures
        forall|i: int, j: int|
            0 <= i < j < catalog_model().len() ==> (#[trigger] catalog_model()[i]).name != (
            #[trigger] catalog_model()[j]).name,
{
    reveal_strlit("BusinessPartnerSet");
    reveal_strlit("ProductSet");
    reveal_strlit("SalesOrderSet");
    reveal_strlit("SalesOrderLineItemSet");
    reveal_strlit("ContactSet");
    reveal_strlit("VH_SexSet");
    reveal_strlit("VH_CountrySet");
    reveal_strlit("VH_AddressTypeSet");
    reveal_strlit("VH_CategorySet");
    reveal_strlit("VH_CurrencySet");
    reveal_strlit("VH_UnitQuantitySet");
    reveal_strlit("VH_UnitWeightSet");
    reveal_strlit("VH_UnitLengthSet");
    reveal_strlit("VH_ProductTypeCodeSet");
    reveal_strlit("VH_BPRoleSet");
    reveal_strlit("VH_LanguageSet");
    // Most names differ in length; the same-length pairs differ at the
    // asserted positions.
    assert("BusinessPartnerSet"@[0] == 'B' && "VH_UnitQuantitySet"@[0] == 'V');
    assert("ProductSet"@[0] == 'P' && "ContactSet"@[0] == 'C');
    assert("SalesOrderSet"@[0] == 'S' && "VH_CountrySet"@[0] == 'V');
    assert("SalesOrderLineItemSet"@[0] == 'S' && "VH_ProductTypeCodeSet"@[0] == 'V');
    assert("VH_CategorySet"@[3] == 'C' && "VH_CurrencySet"@[3] == 'C' && "VH_LanguageSet"@[3]
        == 'L');
    assert("VH_CategorySet"@[4] == 'a' && "VH_CurrencySet"@[4] == 'u');
    assert("VH_UnitWeightSet"@[7] == 'W' && "VH_UnitLengthSet"@[7] == 'L');
    let ms = catalog_model();
    assert(ms.len() == 16);
    assert forall|i: int, j: int| 0 <= i < j < catalog_model().len() implies (
    #[trigger] catalog_model()[i]).name != (#[trigger] catalog_model()[j]).name by {
        assert(i == 0 || i == 1 || i == 2 || i == 3 || i == 4 || i == 5 || i == 6 || i == 7 || i
            == 8 || i == 9 || i == 10 || i == 11 || i == 12 || i == 13 || i == 14 || i == 15);
        assert(j == 1 || j == 2 || j == 3 || j == 4 || j == 5 || j == 6 || j == 7 || j == 8 || j
            == 9 || j == 10 || j == 11 || j == 12 || j == 13 || j == 14 || j == 15);
        assert(ms[0].name == "BusinessPartnerSet"@);
        assert(ms[1].name == "ProductSet"@);
        assert(ms[2].name == "SalesOrderSet"@);
        assert(ms[3].name == "SalesOrderLineItemSet"@);
        assert(ms[4].name == "ContactSet"@);
        assert(ms[5].name == "VH_SexSet"@);
        assert(ms[6].name == "VH_CountrySet"@);
        assert(ms[7].name == "VH_AddressTypeSet"@);
        assert(ms[8].name == "VH_CategorySet"@);
        assert(ms[9].name == "VH_CurrencySet"@);
        assert(ms[10].name == "VH_UnitQuantitySet"@);
        assert(ms[11].name == "VH_UnitWeightSet"@);
        assert(ms[12].name == "VH_UnitLengthSet"@);
        assert(ms[13].name == "VH_ProductTypeCodeSet"@);
        assert(ms[14].name == "VH_BPRoleSet"@);
        assert(ms[15].name == "VH_LanguageSet"@);
    }
}

/// Builds the process-lifetime catalog.  The result is well-formed and holds
/// exactly the collections of `catalog_model`, in that order.
#[verifier::rlimit(50)]
pub fn build_catalog() -> (c: Catalog)
    ensures
        c.wf(),
        c.models() == catalog_model(),
{
    let mut entries: Vec<EntityDescriptor> = Vec::new();
    entries.push(business_partner_descriptor());
    entries.push(product_descriptor());
    entries.push(sales_order_descriptor());
    entries.push(sales_order_line_item_descriptor());
    entries.push(contact_descriptor());
    entries.push(vh_descriptor("VH_SexSet", "sex", "Sex", "shorttext", "Shorttext"));
    entries.push(vh_descriptor("VH_CountrySet", "land_1", "Land1", "landx", "Landx"));
    entries.push(
        vh_descriptor("VH_AddressTypeSet", "address_type", "AddressType", "shorttext", "Shorttext"),
    );
    entries.push(vh_category_descriptor());
    entries.push(vh_descriptor("VH_CurrencySet", "waers", "Waers", "ltext", "Ltext"));
    entries.push(vh_descriptor("VH_UnitQuantitySet", "msehi", "Msehi", "msehl", "Msehl"));
    entries.push(vh_descriptor("VH_UnitWeightSet", "msehi", "Msehi", "msehl", "Msehl"));
    entries.push(vh_descriptor("VH_UnitLengthSet", "msehi", "Msehi", "msehl", "Msehl"));
    entries.push(
        vh_descriptor("VH_ProductTypeCodeSet", "type_code", "TypeCode", "shorttext", "Shorttext"),
    );
    entries.push(vh_descriptor("VH_BPRoleSet", "bp_role", "BpRole", "shorttext", "Shorttext"));
    entries.push(vh_descriptor("VH_LanguageSet", "spras", "Spras", "sptxt", "Sptxt"));
    let c = Catalog { entries };
    proof {
        assert(c.models() =~= catalog_model());
        lemma_catalog_names_distinct();
        assert forall|i: int, j: int| 0 <= i < j < c.entries@.len() implies (
        #[trigger] c.entries@[i]).collection_name@ != (#[trigger] c.entries@[j]).collection_name@ by {
            assert(c.entries@[i].collection_name@ == c.models()[i].name);
            assert(c.entries@[j].collection_name@ == c.models()[j].name);
        }
        assert forall|i: int| 0 <= i < c.entries@.len() implies (
        #[trigger] c.entries@[i]).key_fields@.len() > 0 by {
            assert(c.entries@[i].key_fields@.len() == c.models()[i].key_fields.len());
        }
    }
    c
}

} // verus!
