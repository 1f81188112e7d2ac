use ccgenor::cvartypes;
use ccgenor::CFunction;

#[test]
fn test_new() {
    let func = CFunction::new("add".to_string(), cvartypes::C_INT, vec!["int a", "int b"]);
    assert_eq!("add", func.get_name());
    assert_eq!(cvartypes::C_INT, *func.get_return_type());
    assert_eq!(2, func.get_parameters().len());
    assert_eq!("int a", func.get_parameters()[0]);
    assert_eq!("int b", func.get_parameters()[1]);
    assert_eq!("", func.get_generated_function_body_ccode());
}

#[test]
fn test_set_generated_function_body_ccode() {
    let mut func = CFunction::new("add".to_string(), cvartypes::C_INT, vec!["int a", "int b"]);
    func.set_generated_function_body_ccode("return a + b;".to_string());
    assert_eq!("return a + b;", func.get_generated_function_body_ccode());
}

#[test]
fn test_create_function_declarations1() {
    let mut func = CFunction::new("add".to_string(), cvartypes::C_INT, vec!["int a", "int b"]);
    func.create_function_declarations();
    assert_eq!("int add(int a, int b);", func.get_generated_function_body_ccode());
}

#[test]
fn test_create_function_declarations2() {
    let mut func = CFunction::new(
        "add_long_long_ints".to_string(),
        "long long int",
        vec!["long long int", "long long int"],
    );
    func.create_function_declarations();
    assert_eq!(
        "long long int add_long_long_ints(long long int, long long int);",
        func.get_generated_function_body_ccode()
    );
}

#[test]
fn type_constants_are_c_spellings() {
    assert_eq!(cvartypes::C_INT, "int");
    assert_eq!(cvartypes::C_FLOAT, "float");
    assert_eq!(cvartypes::C_DOUBLE, "double");
    assert_eq!(cvartypes::C_CHAR, "char");
    assert_eq!(cvartypes::C_VOID, "void");
    assert_eq!(cvartypes::C_BOOL, "bool");
    assert_eq!(cvartypes::C_LONG, "long");
    assert_eq!(cvartypes::C_SHORT, "short");
    assert_eq!(cvartypes::C_UNSIGNED, "unsigned");
    assert_eq!(cvartypes::C_SIGHNED, "signed");
}

#[test]
fn declaration_with_no_parameters() {
    let mut func = CFunction::new("f".to_string(), cvartypes::C_VOID, vec![]);
    func.create_function_declarations();
    assert_eq!("void f();", func.get_generated_function_body_ccode());
}

#[test]
fn declaration_with_one_parameter() {
    let mut func = CFunction::new("g".to_string(), "char *", vec!["const char *s"]);
    func.create_function_declarations();
    assert_eq!("char * g(const char *s);", func.get_generated_function_body_ccode());
}

#[test]
fn definition_start_then_end() {
    let mut func = CFunction::new("add".to_string(), cvartypes::C_INT, vec!["int a", "int b"]);
    func.create_function_start();
    assert_eq!("int add(int a, int b) {\n", func.get_generated_function_body_ccode());
    func.create_function_end();
    assert_eq!("int add(int a, int b) {\n}\n", func.get_generated_function_body_ccode());
}

#[test]
fn call_appends_one_statement() {
    let mut func = CFunction::new("add".to_string(), cvartypes::C_INT, vec!["int a", "int b"]);
    func.create_function_start();
    func.create_function_call("add_long_long_ints", &["1000000000000", "2000000000000"]);
    assert_eq!(
        "int add(int a, int b) {\nadd_long_long_ints(1000000000000, 2000000000000);\n",
        func.get_generated_function_body_ccode()
    );
}

#[test]
fn call_on_empty_text() {
    let mut func = CFunction::new("add".to_string(), cvartypes::C_INT, vec!["int a", "int b"]);
    func.create_function_call("printf", &["\"%d + %d = %d\\n\"", "a", "b"]);
    assert_eq!("printf(\"%d + %d = %d\\n\", a, b);\n", func.get_generated_function_body_ccode());
}

#[test]
fn call_with_no_arguments() {
    let mut func = CFunction::new("main".to_string(), cvartypes::C_INT, vec![]);
    func.create_function_call("abort", &[]);
    assert_eq!("abort();\n", func.get_generated_function_body_ccode());
}

#[test]
fn end_alone_gives_closing_brace() {
    let mut func = CFunction::new("add".to_string(), cvartypes::C_INT, vec!["int a", "int b"]);
    func.create_function_end();
    assert_eq!("}\n", func.get_generated_function_body_ccode());
}

#[test]
fn start_overwrites_earlier_text() {
    let mut func = CFunction::new("h".to_string(), cvartypes::C_INT, vec!["int a"]);
    func.create_function_start();
    func.create_function_call("x", &["a"]);
    func.create_function_declarations();
    assert_eq!("int h(int a);", func.get_generated_function_body_ccode());
    func.create_function_start();
    assert_eq!("int h(int a) {\n", func.get_generated_function_body_ccode());
}

#[test]
fn append_adds_to_text() {
    let mut func = CFunction::new("h".to_string(), cvartypes::C_INT, vec![]);
    func.set_generated_function_body_ccode("a".to_string());
    func.append_generated_function_body_ccode("bc".to_string());
    assert_eq!("abc", func.get_generated_function_body_ccode());
    assert_eq!("h", func.get_name());
}

#[test]
fn reading_body_twice_gives_the_same_text() {
    let mut func = CFunction::new("add".to_string(), cvartypes::C_INT, vec!["int a", "int b"]);
    func.create_function_declarations();
    let first = func.get_generated_function_body_ccode().to_string();
    let second = func.get_generated_function_body_ccode().to_string();
    assert_eq!(first, second);
}
