//! A builder for the text of one C function: its declaration, or its
//! definition grown statement by statement.
use vstd::prelude::*;
use vstd::string::*;
use crate::cvartypes::c_type;
use crate::text::{comma_joined, push_comma_joined, texts};

verus! {

/// `{return_type} {name}({param1}, {param2}, ...)`
pub open spec fn signature(return_type: Seq<char>, name: Seq<char>, params: Seq<Seq<char>>) -> Seq<
    char,
> {
    return_type + seq![' '] + name + seq!['('] + comma_joined(params) + seq![')']
}

/// A forward declaration: the signature followed by `;`, with no newline.
pub open spec fn declaration_text(
    return_type: Seq<char>,
    name: Seq<char>,
    params: Seq<Seq<char>>,
) -> Seq<char> {
    signature(return_type, name, params) + seq![';']
}

/// The head of a definition: the signature followed by ` {` and a newline.
pub open spec fn definition_start_text(
    return_type: Seq<char>,
    name: Seq<char>,
    params: Seq<Seq<char>>,
) -> Seq<char> {
    signature(return_type, name, params) + seq![' ', '{', '\n']
}

/// One call statement: `{name}({arg1}, {arg2}, ...);` and a newline.
pub open spec fn call_text(name: Seq<char>, args: Seq<Seq<char>>) -> Seq<char> {
    name + seq!['('] + comma_joined(args) + seq![')', ';', '\n']
}

/// The closing brace of a definition, and a newline.
pub open spec fn definition_end_text() -> Seq<char> {
    seq!['}', '\n']
}

/// A C function under construction: its name, return type and parameters,
/// fixed at construction, and the text emitted for it so far.
pub struct CFunction {
    name: String,
    return_type: c_type,
    parameters: Vec<c_type>,
    generated_function_body_ccode: String,
}

impl CFunction {
    pub closed spec fn name_text(&self) -> Seq<char> {
        self.name@
    }

    pub closed spec fn return_type_text(&self) -> Seq<char> {
        self.return_type@
    }

    pub closed spec fn parameters_view(&self) -> Seq<c_type> {
        self.parameters@
    }

    /// The text emitted so far.
    pub closed spec fn body(&self) -> Seq<char> {
        self.generated_function_body_ccode@
    }

    pub open spec fn parameter_texts(&self) -> Seq<Seq<char>> {
        texts(self.parameters_view())
    }

    /// Name, return type and parameters are those of `other`.
    pub open spec fn same_signature(&self, other: &CFunction) -> bool {
        &&& self.name_text() == other.name_text()
        &&& self.return_type_text() == other.return_type_text()
        &&& self.parameters_view() == other.parameters_view()
    }

    pub open spec fn signature_text(&self) -> Seq<char> {
        signature(self.return_type_text(), self.name_text(), self.parameter_texts())
    }

    pub fn new(name: String, return_type: c_type, parameters: Vec<c_type>) -> (r: Self)
        ensures
            r.name_text() == name@,
            r.return_type_text() == return_type@,
            r.parameters_view() == parameters@,
            r.body() == Seq::<char>::empty(),
    {
        CFunction { name, return_type, parameters, generated_function_body_ccode: String::new() }
    }

    pub fn get_name(&self) -> (r: &str)
        ensures
            r@ == self.name_text(),
    {
        self.name.as_str()
    }

    pub fn get_return_type(&self) -> (r: &c_type)
        ensures
            (*r)@ == self.return_type_text(),
    {
        &self.return_type
    }

    pub fn get_parameters(&self) -> (r: &[c_type])
        ensures
            r@ == self.parameters_view(),
    {
        self.parameters.as_slice()
    }

    /// The text emitted so far; reading it changes nothing.
    pub fn get_generated_function_body_ccode(&self) -> (r: &str)
        ensures
            r@ == self.body(),
    {
        self.generated_function_body_ccode.as_str()
    }

    pub fn set_generated_function_body_ccode(&mut self, ccode: String)
        ensures
            final(self).same_signature(old(self)),
            final(self).body() == ccode@,
    {
        self.generated_function_body_ccode = ccode;
    }

    pub fn append_generated_function_body_ccode(&mut self, ccode: String)
        ensures
            final(self).same_signature(old(self)),
            final(self).body() == old(self).body() + ccode@,
    {
        self.generated_function_body_ccode.append(ccode.as_str());
    }

    fn signature_string(&self) -> (r: String)
        ensures
            r@ == self.signature_text(),
    {
        proof {
            reveal_strlit(" ");
            reveal_strlit("(");
            reveal_strlit(")");
        }
        assert(" "@ =~= seq![' ']);
        assert("("@ =~= seq!['(']);
        assert(")"@ =~= seq![')']);
        let mut s = String::new();
        s.append(self.return_type);
        s.append(" ");
        s.append(self.name.as_str());
        s.append("(");
        push_comma_joined(&mut s, self.parameters.as_slice());
        s.append(")");
        s
    }

    /// Replaces the text with the function's forward declaration.
    pub fn create_function_declarations(&mut self)
        ensures
            final(self).same_signature(old(self)),
            final(self).body() == declaration_text(
                old(self).return_type_text(),
                old(self).name_text(),
                old(self).parameter_texts(),
            ),
    {
        proof {
            reveal_strlit(";");
        }
        assert(";"@ =~= seq![';']);
        let mut declarations = self.signature_string();
        declarations.append(";");
        self.set_generated_function_body_ccode(declarations);
    }

    /// Replaces the text with the head of the function's definition, up to
    /// and including the opening brace and its newline.
    pub fn create_function_start(&mut self)
        ensures
            final(self).same_signature(old(self)),
            final(self).body() == definition_start_text(
                old(self).return_type_text(),
                old(self).name_text(),
                old(self).parameter_texts(),
            ),
    {
        proof {
            reveal_strlit(" {\n");
        }
        assert(" {\n"@ =~= seq![' ', '{', '\n']);
        let mut declarations = self.signature_string();
        declarations.append(" {\n");
        self.set_generated_function_body_ccode(declarations);
    }

    /// Appends a statement that calls `function_name` with `args`.
    pub fn create_function_call(&mut self, function_name: &str, args: &[&str])
        ensures
            final(self).same_signature(old(self)),
            final(self).body() == old(self).body() + call_text(function_name@, texts(args@)),
    {
        proof {
            reveal_strlit("(");
            reveal_strlit(");\n");
        }
        assert("("@ =~= seq!['(']);
        assert(");\n"@ =~= seq![')', ';', '\n']);
        let mut call = String::new();
        call.append(function_name);
        call.append("(");
        push_comma_joined(&mut call, args);
        call.append(");\n");
        self.append_generated_function_body_ccode(call);
    }

    /// Appends the closing brace of the definition.
    pub fn create_function_end(&mut self)
        ensures
            final(self).same_signature(old(self)),
            final(self).body() == old(self).body() + definition_end_text(),
    {
        proof {
            reveal_strlit("}\n");
        }
        assert("}\n"@ =~= seq!['}', '\n']);
        self.append_generated_function_body_ccode(String::from_str("}\n"));
    }
}

/// A call with no arguments is the name followed by `();` and a newline.
pub proof fn lemma_call_without_arguments(name: Seq<char>)
    ensures
        call_text(name, Seq::empty()) == name + seq!['(', ')', ';', '\n'],
{
    assert(call_text(name, Seq::empty()) =~= name + seq!['(', ')', ';', '\n']);
}

} // verus!
