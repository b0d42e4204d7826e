use structgen::gen_struct;
use structgen::parse_table_name;
use structgen::snake_to_camel;
use structgen::to_rust_type;
use structgen::trim_str;
use structgen::Field;

#[test]
fn to_rust_type_test() {
    assert_eq!(to_rust_type("smallint"), "i16");
    assert_eq!(to_rust_type("int2"), "i16");
    assert_eq!(to_rust_type("integer"), "i32");
    assert_eq!(to_rust_type("int"), "i32");
    assert_eq!(to_rust_type("int4"), "i32");
    assert_eq!(to_rust_type("bigint"), "i64");
    assert_eq!(to_rust_type("numeric"), "bigdecimal::BigDecimal");
    assert_eq!(to_rust_type("decimal"), "bigdecimal::BigDecimal");
    assert_eq!(to_rust_type("real"), "f32");
    assert_eq!(to_rust_type("float4"), "f32");
    assert_eq!(to_rust_type("double precision"), "f64");
    assert_eq!(to_rust_type("float8"), "f64");
    assert_eq!(to_rust_type("smallserial"), "i16");
    assert_eq!(to_rust_type("serial2"), "i16");
    assert_eq!(to_rust_type("serial"), "i32");
    assert_eq!(to_rust_type("serial4"), "i32");
    assert_eq!(to_rust_type("bigserial"), "i64");
    assert_eq!(to_rust_type("serial8"), "i64");
    assert_eq!(to_rust_type("char"), "String");
    assert_eq!(to_rust_type("varchar"), "String");
    assert_eq!(to_rust_type("text"), "String");
    assert_eq!(to_rust_type("timestamp"), "chrono::DateTime");
    assert_eq!(to_rust_type("date"), "chrono::NaiveDate");
    assert_eq!(to_rust_type("time"), "chrono::NaiveTime");
    assert_eq!(to_rust_type("bool"), "bool");
    assert_eq!(to_rust_type("boolean"), "bool");
    assert_eq!(to_rust_type("uuid"), "uuid::Uuid");
    assert_eq!(to_rust_type("unknown"), "String");
}

#[test]
fn to_rust_type_prefix_test() {
    assert_eq!(to_rust_type("numeric(10,2)"), "bigdecimal::BigDecimal");
    assert_eq!(to_rust_type("decimal(8,3)"), "bigdecimal::BigDecimal");
    assert_eq!(to_rust_type("varchar(255)"), "String");
    assert_eq!(to_rust_type("char(5)"), "String");
    assert_eq!(to_rust_type("character varying"), "String");
    assert_eq!(to_rust_type("timestamp with time zone"), "chrono::DateTime");
    assert_eq!(to_rust_type("time without time zone"), "chrono::NaiveTime");
}

#[test]
fn to_rust_type_fallback_test() {
    assert_eq!(to_rust_type(""), "String");
    assert_eq!(to_rust_type("json"), "String");
    assert_eq!(to_rust_type("integer[]"), "String");
    assert_eq!(to_rust_type("SMALLINT"), "String");
}

#[test]
fn snake_to_camel_test() {
    assert_eq!(snake_to_camel("first_name"), String::from("FirstName"));
    assert_eq!(
        snake_to_camel("first_and_second_name"),
        String::from("FirstAndSecondName")
    );
}

#[test]
fn snake_to_camel_edge_test() {
    assert_eq!(snake_to_camel("student"), String::from("Student"));
    assert_eq!(snake_to_camel("_order"), String::from("Order"));
    assert_eq!(snake_to_camel("order__item_"), String::from("OrderItem"));
    assert_eq!(snake_to_camel(""), String::from(""));
    assert_eq!(snake_to_camel("a1_b2"), String::from("A1B2"));
}

#[test]
fn parse_table_name_test() {
    let tables = parse_table_name("customer, order, order_item");
    assert_eq!(tables.len(), 3);
    assert_eq!(tables[0], "customer");
    assert_eq!(tables[1], "order");
    assert_eq!(tables[2], "order_item");

    let tables_2 = parse_table_name("customer");
    assert_eq!(tables_2.len(), 1);
    assert_eq!(tables_2[0], "customer");
}

#[test]
fn parse_table_name_edge_test() {
    let empty = parse_table_name("");
    assert_eq!(empty.len(), 1);
    assert_eq!(empty[0], "");

    let padded = parse_table_name("  a  ,\tb\n, c");
    assert_eq!(padded.len(), 3);
    assert_eq!(padded[0], "a");
    assert_eq!(padded[1], "b");
    assert_eq!(padded[2], "c");

    let doubled = parse_table_name("a,,b");
    assert_eq!(doubled.len(), 3);
    assert_eq!(doubled[0], "a");
    assert_eq!(doubled[1], "");
    assert_eq!(doubled[2], "b");
}

#[test]
fn trim_str_test() {
    assert_eq!(trim_str("  customer  "), String::from("customer"));
    assert_eq!(trim_str("\t order \r\n"), String::from("order"));
    assert_eq!(trim_str("none"), String::from("none"));
    assert_eq!(trim_str("   "), String::from(""));
    assert_eq!(trim_str("a b"), String::from("a b"));
}

#[test]
fn trim_str_unicode_whitespace_test() {
    let inputs = [
        "\u{000B}customer\u{000C}",
        "\u{0085}customer\u{00A0}",
        "\u{1680}customer\u{2000}",
        "\u{2005}customer\u{200A}",
        "\u{2028}customer\u{2029}",
        "\u{202F}customer\u{205F}",
        "\u{3000} customer \u{3000}",
    ];
    for input in inputs {
        assert_eq!(trim_str(input), input.trim());
        assert_eq!(trim_str(input), String::from("customer"));
    }
    assert_eq!(trim_str("a\u{200B}"), String::from("a\u{200B}"));
}

#[test]
fn parse_table_name_unicode_whitespace_test() {
    let tables = parse_table_name("a\u{000B},\u{00A0}b\u{3000}, c");
    assert_eq!(tables.len(), 3);
    assert_eq!(tables[0], "a");
    assert_eq!(tables[1], "b");
    assert_eq!(tables[2], "c");
}

#[test]
fn gen_struct_test() {
    let struct_content = gen_struct("student".to_string(), create_test_field_vector(), false);
    assert_eq!(prepare_expected_struct_content(), struct_content);
}

#[test]
fn gen_struct_with_serde_test() {
    let struct_content = gen_struct("student".to_string(), create_test_field_vector(), true);
    assert_eq!(prepare_expected_struct_content_with_serde(), struct_content);
}

#[test]
fn gen_struct_idempotent_test() {
    let first = gen_struct("student".to_string(), create_test_field_vector(), true);
    let second = gen_struct("student".to_string(), create_test_field_vector(), true);
    assert_eq!(first, second);

    let third = gen_struct("student".to_string(), create_test_field_vector(), false);
    let fourth = gen_struct("student".to_string(), create_test_field_vector(), false);
    assert_eq!(third, fourth);
}

#[test]
fn gen_struct_empty_columns_test() {
    let struct_content = gen_struct("student".to_string(), Vec::new(), false);
    assert_eq!(struct_content, "#[derive(Debug)]\npub struct Student {\n}\n");

    let with_serde = gen_struct("student".to_string(), Vec::new(), true);
    assert_eq!(
        with_serde,
        "use serde::{Deserialize, Serialize};\n\n#[derive(Debug, Serialize, Deserialize)]\npub struct Student {\n}\n"
    );
}

#[test]
fn gen_struct_orders_test() {
    let fields = vec![
        Field {
            name: String::from("id"),
            data_type: String::from("serial"),
        },
        Field {
            name: String::from("total"),
            data_type: String::from("numeric(10,2)"),
        },
    ];
    let struct_content = gen_struct("orders".to_string(), fields, false);
    let expected = "#[derive(Debug)]\n\
                    pub struct Orders {\n    \
                    pub id: i32,\n    \
                    pub total: bigdecimal::BigDecimal,\n\
                    }\n";
    assert_eq!(struct_content, expected);
}

fn create_test_field_vector() -> Vec<Field> {
    let field1 = Field {
        name: String::from("id"),
        data_type: String::from("uuid"),
    };

    let field2 = Field {
        name: String::from("name"),
        data_type: String::from("varchar"),
    };

    let field3 = Field {
        name: String::from("birthday"),
        data_type: String::from("date"),
    };

    let field4 = Field {
        name: String::from("grade"),
        data_type: String::from("numeric"),
    };

    vec![field1, field2, field3, field4]
}

fn prepare_expected_struct_content() -> String {
    r#"#[derive(Debug)]
pub struct Student {
    pub id: uuid::Uuid,
    pub name: String,
    pub birthday: chrono::NaiveDate,
    pub grade: bigdecimal::BigDecimal,
}
"#
    .to_string()
}

fn prepare_expected_struct_content_with_serde() -> String {
    r#"use serde::{Deserialize, Serialize};

#[derive(Debug, Serialize, Deserialize)]
pub struct Student {
    pub id: uuid::Uuid,
    #[serde(skip_serializing_if = "String::is_empty")]
    pub name: String,
    pub birthday: chrono::NaiveDate,
    pub grade: bigdecimal::BigDecimal,
}
"#
    .to_string()
}
