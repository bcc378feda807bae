use rc::builder::do_extend;
use rc::builder::gen_builder_struct_factory_init_clauses;
use rc::builder::gen_builder_struct_field_def;
use rc::builder::gen_setter_functions;
use rc::builder::get_fields_from_derive_input;
use rc::builder::BuilderError;
use rc::builder::DeriveInput;
use rc::builder::Field;

fn command() -> DeriveInput {
    DeriveInput {
        ident: "Command".to_string(),
        named_fields: Some(vec![
            Field { ident: "executable".to_string(), ty: "String".to_string() },
            Field { ident: "args".to_string(), ty: "Vec < String >".to_string() },
        ]),
    }
}

#[test]
fn builder_expansion_text() {
    let text = do_extend(&command()).unwrap();
    assert_eq!(
        text,
        "pub struct CommandBuilder { executable: std::option::Option<String>, \
         args: std::option::Option<Vec < String >> } impl Command { pub fn builder() -> CommandBuilder \
         { CommandBuilder { executable: std::option::Option::None, args: std::option::Option::None } } }"
    );
}

#[test]
fn builder_without_fields() {
    let input = DeriveInput { ident: "Unit".to_string(), named_fields: Some(vec![]) };
    assert_eq!(
        do_extend(&input).unwrap(),
        "pub struct UnitBuilder {  } impl Unit { pub fn builder() -> UnitBuilder { UnitBuilder {  } } }"
    );
}

#[test]
fn builder_refuses_other_items() {
    let input = DeriveInput { ident: "Shape".to_string(), named_fields: None };
    assert_eq!(do_extend(&input), Err(BuilderError::NotNamedStruct));
    assert!(get_fields_from_derive_input(&input).is_err());
    assert_eq!(BuilderError::NotNamedStruct.message(), "Must Define On Struct, Not On Enum");
}

#[test]
fn builder_pieces() {
    let input = command();
    assert_eq!(get_fields_from_derive_input(&input).unwrap().len(), 2);
    assert_eq!(
        gen_builder_struct_field_def(&input).unwrap(),
        vec!["executable: std::option::Option<String>", "args: std::option::Option<Vec < String >>"]
    );
    assert_eq!(
        gen_builder_struct_factory_init_clauses(&input).unwrap(),
        vec!["executable: std::option::Option::None", "args: std::option::Option::None"]
    );
    assert_eq!(
        gen_setter_functions(&input).unwrap(),
        "fn executable(&mut self, executable: String) -> &mut Self { self.executable = std::option::Option::Some(executable); }\
         fn args(&mut self, args: Vec < String >) -> &mut Self { self.args = std::option::Option::Some(args); }"
    );
}
