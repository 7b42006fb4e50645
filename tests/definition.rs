use excel_import::definition::{first_segment_of, last_segment_of, Column, ColumnDefinition, Kind};

fn def(key: &str, kind: Kind, optional: bool, enum_: Option<&str>) -> ColumnDefinition {
    ColumnDefinition {
        header_name: " Wiedervorlage Datum ".to_string(),
        header_name2: "".to_string(),
        kind,
        optional,
        key: key.to_string(),
        enum_: enum_.map(|e| e.to_string()),
    }
}

#[test]
fn type_hints() {
    assert_eq!(def("a", Kind::Date, false, None).type_hint(), "NaiveDate");
    assert_eq!(def("a", Kind::Date, true, None).type_hint(), "Option<NaiveDate>");
    assert_eq!(def("a", Kind::Time, false, None).type_hint(), "NaiveTime");
    assert_eq!(def("a", Kind::Float, true, None).type_hint(), "Option<f64>");
    assert_eq!(def("a", Kind::String, false, None).type_hint(), "String");
    assert_eq!(def("a", Kind::Enum, true, Some("rating::Rating")).type_hint(), "Option<Rating>");
}

#[test]
fn path_segments() {
    assert_eq!(first_segment_of("contact_type::ContactType"), "contact_type");
    assert_eq!(last_segment_of("a::b::C"), "C");
    assert_eq!(last_segment_of("plain"), "plain");
    assert_eq!(last_segment_of("a:::b"), ":b");
}

#[test]
fn columns_from_definitions() {
    let c = Column::from_definition(def("contactType", Kind::Enum, false, Some("contact_type::ContactType")));
    assert_eq!(c.field_name, "contact_type");
    assert_eq!(c.enum_name, "ContactType");
    assert_eq!(c.enum_, Some("ContactType".to_string()));
    assert_eq!(c.enum_mod, Some("contact_type".to_string()));
    assert_eq!(c.enum_path, Some("contact_type::ContactType".to_string()));
    assert_eq!(c.match_string, "wiedervorlage datum");
    assert_eq!(c.type_hint, "ContactType");
    let t = Column::from_definition(def("Type", Kind::String, false, None));
    assert_eq!(t.field_name, "_type");
    assert_eq!(t.enum_, None);
}
