use witx_test::limits::Limits;
use witx_test::sexpr::{SExpr, dec_string};
use witx_test::types::{
    BuiltinType, GenDoc, GenEnum, GenFlags, GenFunc, GenHandle, GenModule, GenStruct, GenType,
    GenTypeRef, GenUnion, IntRepr,
};

#[test]
fn decimal_rendering_is_exact() {
    assert_eq!(dec_string(0), "0");
    assert_eq!(dec_string(7), "7");
    assert_eq!(dec_string(10), "10");
    assert_eq!(dec_string(12345), "12345");
    assert_eq!(dec_string(u64::MAX), "18446744073709551615");
}

#[test]
fn typeref_renders_as_dollar_ident() {
    let r = GenTypeRef { idx: 12345 };
    assert_eq!(r.to_sexpr().render(), "$t_12345");
}

#[test]
fn enum_renders_with_repr_and_members() {
    let e = GenEnum { repr: IntRepr::U16, members: 3 };
    assert_eq!(e.to_sexpr().render(), "(enum u16 $e_0 $e_1 $e_2)");
}

#[test]
fn flags_render_with_repr_and_members() {
    let f = GenFlags { repr: IntRepr::U64, members: 2 };
    assert_eq!(f.to_sexpr().render(), "(flags u64 $f_0 $f_1)");
}

#[test]
fn struct_renders_numbered_fields_in_order() {
    // Two members render as $s_0 then $s_1, each with its member's type.
    let s = GenStruct {
        members: vec![GenTypeRef { idx: 0 }, GenTypeRef { idx: 1 }],
    };
    assert_eq!(s.to_sexpr().render(), "(struct (field $s_0 $t_0) (field $s_1 $t_1))");
    let decl = GenType::Struct(s);
    assert_eq!(
        decl.to_sexpr(2).render(),
        "(typename $t_2 (struct (field $s_0 $t_0) (field $s_1 $t_1)))"
    );
}

#[test]
fn union_renders_numbered_fields() {
    let u = GenUnion { variants: vec![GenTypeRef { idx: 0 }] };
    assert_eq!(u.to_sexpr().render(), "(union (field $u_0 $t_0))");
}

#[test]
fn handle_renders_supertypes() {
    let h = GenHandle {
        supertypes: vec![GenTypeRef { idx: 2 }, GenTypeRef { idx: 2 }],
    };
    assert_eq!(h.to_sexpr().render(), "(handle $t_2 $t_2)");
    let empty = GenHandle { supertypes: Vec::new() };
    assert_eq!(empty.to_sexpr().render(), "(handle)");
}

#[test]
fn pointers_render_annotated() {
    let p = GenType::Pointer(GenTypeRef { idx: 1 });
    assert_eq!(p.to_sexpr(3).render(), "(typename $t_3 (@witx pointer $t_1))");
    let cp = GenType::ConstPointer(GenTypeRef { idx: 0 });
    assert_eq!(cp.to_sexpr(4).render(), "(typename $t_4 (@witx const_pointer $t_0))");
    let a = GenType::Array(GenTypeRef { idx: 1 });
    assert_eq!(a.to_sexpr(5).render(), "(typename $t_5 (array $t_1))");
    let n = GenType::Name(GenTypeRef { idx: 0 });
    assert_eq!(n.to_sexpr(6).render(), "(typename $t_6 $t_0)");
    let b = GenType::Builtin(BuiltinType::String);
    assert_eq!(b.to_sexpr(7).render(), "(typename $t_7 string)");
}

#[test]
fn function_renders_export_params_and_results() {
    let f = GenFunc {
        params: vec![GenTypeRef { idx: 1 }],
        results: vec![GenTypeRef { idx: 0 }, GenTypeRef { idx: 1 }],
    };
    assert_eq!(
        f.to_sexpr(0).render(),
        "(@interface func (export \"f_0\") (param $p_0 $t_1) (result $r_0 $t_0) (result $r_1 $t_1))"
    );
}

#[test]
fn module_renders_numbered_functions() {
    let m = GenModule {
        funcs: vec![GenFunc { params: Vec::new(), results: vec![GenTypeRef { idx: 0 }] }],
    };
    assert_eq!(
        m.to_sexpr(1).render(),
        "(module $m_1 (@interface func (export \"f_0\") (result $r_0 $t_0)))"
    );
}

#[test]
fn document_renders_types_blank_line_then_modules() {
    let doc = GenDoc {
        typenames: vec![
            GenType::Enum(GenEnum { repr: IntRepr::U8, members: 1 }),
            GenType::Name(GenTypeRef { idx: 0 }),
        ],
        modules: vec![GenModule {
            funcs: vec![GenFunc { params: Vec::new(), results: vec![GenTypeRef { idx: 0 }] }],
        }],
    };
    let expected = "(typename $t_0 (enum u8 $e_0))\n\
                    (typename $t_1 $t_0)\n\
                    \n\
                    (module $m_0 (@interface func (export \"f_0\") (result $r_0 $t_0)))\n";
    assert_eq!(doc.render(), expected);
}

#[test]
fn quote_and_word_nodes_render_bare() {
    assert_eq!(SExpr::Word(String::from("hello")).render(), "hello");
    assert_eq!(SExpr::Ident(String::from("x")).render(), "$x");
    assert_eq!(SExpr::Quote(String::from("x")).render(), "\"x\"");
    assert_eq!(SExpr::Annot(String::from("witx")).render(), "@witx");
    assert_eq!(SExpr::List(Vec::new()).render(), "()");
}

#[test]
fn generated_document_renders_and_parses() {
    let limits = Limits::default();
    let doc = GenDoc::generate(&limits);
    let text = doc.render();
    assert!(text.contains("(typename $t_0 (enum "));
    assert!(text.contains("(module $m_0 "));
}
