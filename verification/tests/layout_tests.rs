use tlstuc::ast::{Struct, Type, Variable};
use tlstuc::layout::{field_offset, type_size};

fn point_struct() -> Vec<Struct> {
    vec![Struct {
        name: String::from("point"),
        fields: vec![
            Variable { name: String::from("x"), var_type: Type::Int, is_const: false },
            Variable { name: String::from("y"), var_type: Type::Int, is_const: false },
        ],
    }]
}

#[test]
fn two_int_fields_are_laid_out_consecutively() {
    let structs = point_struct();
    let sname = String::from("point");
    assert_eq!(field_offset(&structs, &sname, &String::from("x")), Some(0));
    assert_eq!(field_offset(&structs, &sname, &String::from("y")), Some(4));
    assert_eq!(field_offset(&structs, &sname, &String::from("z")), None);
    assert_eq!(field_offset(&structs, &String::from("missing"), &String::from("x")), None);
}

#[test]
fn scalar_and_array_sizes() {
    let structs: Vec<Struct> = Vec::new();
    assert_eq!(type_size(&structs, 0, &Type::Int), Some(4));
    assert_eq!(type_size(&structs, 0, &Type::Char), Some(1));
    assert_eq!(type_size(&structs, 0, &Type::Bool), Some(1));
    assert_eq!(type_size(&structs, 0, &Type::Float), Some(4));
    assert_eq!(type_size(&structs, 0, &Type::Double), Some(8));
    assert_eq!(type_size(&structs, 0, &Type::Pointer(Box::new(Type::Char))), Some(8));
    assert_eq!(
        type_size(&structs, 0, &Type::Array(Box::new(Type::Int), Some(10))),
        Some(40)
    );
    assert_eq!(type_size(&structs, 0, &Type::Array(Box::new(Type::Int), None)), Some(8));
}

#[test]
fn struct_size_is_the_sum_of_its_field_sizes() {
    let structs = point_struct();
    assert_eq!(type_size(&structs, 1, &Type::Struct(String::from("point"))), Some(8));
    // Before its own definition the name does not resolve; the size
    // defaults to zero rather than reading a struct that is not yet
    // defined.
    assert_eq!(type_size(&structs, 0, &Type::Struct(String::from("point"))), Some(0));
}
