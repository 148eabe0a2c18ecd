use builder::types::{GenericArgument, PathArguments, PathSegment, TypeSyntax};

fn plain(name: &str) -> PathSegment {
    PathSegment { ident: name.to_string(), arguments: PathArguments::Absent }
}

fn generic(name: &str, args: Vec<GenericArgument>) -> PathSegment {
    PathSegment { ident: name.to_string(), arguments: PathArguments::AngleBracketed { args } }
}

fn path(segments: Vec<PathSegment>) -> TypeSyntax {
    TypeSyntax::Path { leading_colon: false, segments }
}

fn ty(t: TypeSyntax) -> GenericArgument {
    GenericArgument::Type { ty: t }
}

#[test]
fn render_single_segment() {
    assert_eq!(path(vec![plain("String")]).render(), "String");
}

#[test]
fn render_joins_segments_with_double_colon() {
    let t = path(vec![plain("std"), plain("string"), plain("String")]);
    assert_eq!(t.render(), "std::string::String");
}

#[test]
fn render_leading_colon() {
    let t = TypeSyntax::Path {
        leading_colon: true,
        segments: vec![plain("std"), plain("string"), plain("String")],
    };
    assert_eq!(t.render(), "::std::string::String");
}

#[test]
fn render_angle_bracketed_arguments() {
    let t = path(vec![generic("Vec", vec![ty(path(vec![plain("String")]))])]);
    assert_eq!(t.render(), "Vec<String>");
}

#[test]
fn render_separates_arguments_with_comma() {
    let t = path(vec![generic(
        "HashMap",
        vec![
            ty(path(vec![plain("String")])),
            ty(path(vec![generic("Vec", vec![ty(path(vec![plain("u8")]))])])),
        ],
    )]);
    assert_eq!(t.render(), "HashMap<String, Vec<u8>>");
}

#[test]
fn render_empty_angle_brackets() {
    let t = path(vec![generic("Marker", vec![])]);
    assert_eq!(t.render(), "Marker<>");
}

#[test]
fn render_keeps_other_arguments_as_written() {
    let t = path(vec![generic(
        "Cow",
        vec![
            GenericArgument::Other { text: "'static".to_string() },
            ty(path(vec![plain("str")])),
        ],
    )]);
    assert_eq!(t.render(), "Cow<'static, str>");
}

#[test]
fn render_keeps_parenthesized_arguments_as_written() {
    let t = path(vec![PathSegment {
        ident: "Fn".to_string(),
        arguments: PathArguments::Parenthesized { text: "(u8) -> bool".to_string() },
    }]);
    assert_eq!(t.render(), "Fn(u8) -> bool");
}

#[test]
fn render_keeps_other_types_as_written() {
    let t = TypeSyntax::Other { text: "&'static str".to_string() };
    assert_eq!(t.render(), "&'static str");
}

#[test]
fn render_other_type_inside_arguments() {
    let t = path(vec![generic(
        "Option",
        vec![ty(TypeSyntax::Other { text: "(u8, u16)".to_string() })],
    )]);
    assert_eq!(t.render(), "Option<(u8, u16)>");
}

#[test]
fn render_arguments_on_inner_segment() {
    let t = path(vec![
        plain("std"),
        generic("vec", vec![]),
        generic("Vec", vec![ty(path(vec![plain("u8")]))]),
    ]);
    assert_eq!(t.render(), "std::vec<>::Vec<u8>");
}

#[test]
fn render_empty_path_is_empty() {
    assert_eq!(path(vec![]).render(), "");
}

#[test]
fn duplicate_is_equal_to_its_source() {
    let t = TypeSyntax::Path {
        leading_colon: true,
        segments: vec![
            plain("a"),
            generic(
                "B",
                vec![
                    GenericArgument::Other { text: "'x".to_string() },
                    ty(path(vec![generic("C", vec![ty(TypeSyntax::Other { text: "[u8; 4]".to_string() })])])),
                ],
            ),
            PathSegment {
                ident: "Fn".to_string(),
                arguments: PathArguments::Parenthesized { text: "()".to_string() },
            },
        ],
    };
    let copy = t.duplicate();
    assert_eq!(copy, t);
    assert_eq!(copy.render(), "::a::B<'x, C<[u8; 4]>>::Fn()");
}

#[test]
fn duplicate_of_parts() {
    let segment = generic("Vec", vec![ty(path(vec![plain("u8")]))]);
    assert_eq!(segment.duplicate(), segment);
    assert_eq!(segment.render(), "Vec<u8>");
    assert_eq!(segment.arguments.duplicate(), segment.arguments);
    assert_eq!(segment.arguments.render(), "<u8>");
    let argument = GenericArgument::Other { text: "N".to_string() };
    assert_eq!(argument.duplicate(), argument);
    assert_eq!(argument.render(), "N");
    assert_eq!(PathArguments::Absent.render(), "");
}

#[test]
fn join_strings_puts_separator_between_parts() {
    let parts = vec!["a".to_string(), "b".to_string(), "c".to_string()];
    assert_eq!(builder::text::join_strings(&parts, ", "), "a, b, c");
    assert_eq!(builder::text::join_strings(&vec!["a".to_string()], ", "), "a");
    assert_eq!(builder::text::join_strings(&vec![], ", "), "");
    assert_eq!(builder::text::join_strings(&vec![String::new(), String::new()], "-"), "-");
}
