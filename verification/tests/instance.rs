use builder::declaration::{Data, Declaration, Field, Fields};
use builder::record::{describe, RecordDescriptor};
use builder::types::{GenericArgument, PathArguments, PathSegment, TypeSyntax};

fn named(name: &str) -> TypeSyntax {
    TypeSyntax::Path {
        leading_colon: false,
        segments: vec![PathSegment { ident: name.to_string(), arguments: PathArguments::Absent }],
    }
}

fn apply(name: &str, inner: TypeSyntax) -> TypeSyntax {
    TypeSyntax::Path {
        leading_colon: false,
        segments: vec![PathSegment {
            ident: name.to_string(),
            arguments: PathArguments::AngleBracketed {
                args: vec![GenericArgument::Type { ty: inner }],
            },
        }],
    }
}

fn record(name: &str, fields: Vec<(&str, TypeSyntax)>) -> RecordDescriptor {
    let named = fields
        .into_iter()
        .map(|(ident, ty)| Field { attrs: vec![], ident: ident.to_string(), ty })
        .collect();
    describe(&Declaration {
        ident: name.to_string(),
        data: Data::Struct { fields: Fields::Named { named } },
    })
    .unwrap()
}

fn command() -> RecordDescriptor {
    record(
        "Command",
        vec![
            ("executable", named("String")),
            ("args", apply("Option", apply("Vec", named("String")))),
            ("current_dir", apply("Option", named("String"))),
        ],
    )
}

const EXECUTABLE: usize = 0;
const ARGS: usize = 1;
const CURRENT_DIR: usize = 2;

#[test]
fn factory_makes_empty_slots() {
    let r = command();
    let b = r.builder::<String>();
    assert_eq!(b.len(), 3);
    assert!(!b.is_set(EXECUTABLE));
    assert!(!b.is_set(ARGS));
    assert!(!b.is_set(CURRENT_DIR));
}

#[test]
fn command_with_executable_only_builds() {
    let r = command();
    let mut b = r.builder::<String>();
    b.set(EXECUTABLE, "cargo".to_string());
    assert_eq!(b.build(), Ok(vec![Some("cargo".to_string()), None, None]));
}

#[test]
fn command_without_executable_fails() {
    let r = command();
    let mut b = r.builder::<String>();
    b.set(ARGS, "build".to_string()).set(CURRENT_DIR, "..".to_string());
    let e = b.build().unwrap_err();
    assert_eq!(e, "The field `executable` was not setted.");
    assert!(e.contains("executable"));
    assert!(!e.contains("args"));
    assert!(!e.contains("current_dir"));
}

#[test]
fn command_with_all_fields_builds() {
    let r = command();
    let mut b = r.builder::<String>();
    b.set(CURRENT_DIR, "..".to_string())
        .set(EXECUTABLE, "cargo".to_string())
        .set(ARGS, "build".to_string());
    assert_eq!(
        b.build(),
        Ok(vec![Some("cargo".to_string()), Some("build".to_string()), Some("..".to_string())])
    );
}

#[test]
fn second_call_of_a_setter_wins() {
    let r = command();
    let mut b = r.builder::<String>();
    b.set(EXECUTABLE, "cargo".to_string());
    b.set(EXECUTABLE, "rustc".to_string());
    b.set(ARGS, "a".to_string()).set(ARGS, "b".to_string());
    assert_eq!(b.build(), Ok(vec![Some("rustc".to_string()), Some("b".to_string()), None]));
}

#[test]
fn setter_returns_the_builder_it_was_called_on() {
    let r = command();
    let mut b = r.builder::<u32>();
    {
        let chained = b.set(EXECUTABLE, 1);
        assert!(chained.is_set(EXECUTABLE));
        chained.set(ARGS, 2);
    }
    assert!(b.is_set(EXECUTABLE));
    assert!(b.is_set(ARGS));
    assert!(!b.is_set(CURRENT_DIR));
}

#[test]
fn build_reports_the_first_missing_required_field() {
    let r = record("T", vec![("a", named("u8")), ("b", named("u8")), ("c", named("u8"))]);
    let mut none_set = r.builder::<u8>();
    assert_eq!(none_set.build(), Err("The field `a` was not setted.".to_string()));
    let mut first_set = r.builder::<u8>();
    first_set.set(0, 1);
    assert_eq!(first_set.build(), Err("The field `b` was not setted.".to_string()));
    let mut last_missing = r.builder::<u8>();
    last_missing.set(0, 1).set(1, 2);
    assert_eq!(last_missing.build(), Err("The field `c` was not setted.".to_string()));
    let mut middle_missing = r.builder::<u8>();
    middle_missing.set(0, 1).set(2, 3);
    assert_eq!(middle_missing.build(), Err("The field `b` was not setted.".to_string()));
}

#[test]
fn two_builders_are_independent() {
    let r = command();
    let mut first = r.builder::<String>();
    let mut second = r.builder::<String>();
    first.set(EXECUTABLE, "cargo".to_string()).set(ARGS, "build".to_string());
    assert!(first.is_set(EXECUTABLE));
    assert!(!second.is_set(EXECUTABLE));
    assert!(!second.is_set(ARGS));
    assert_eq!(second.build(), Err("The field `executable` was not setted.".to_string()));
    assert_eq!(first.build(), Ok(vec![Some("cargo".to_string()), Some("build".to_string()), None]));
    second.set(EXECUTABLE, "rustc".to_string());
    assert!(!first.is_set(EXECUTABLE));
    assert_eq!(second.build(), Ok(vec![Some("rustc".to_string()), None, None]));
}

#[test]
fn successful_build_empties_every_slot() {
    let r = command();
    let mut b = r.builder::<String>();
    b.set(EXECUTABLE, "cargo".to_string()).set(ARGS, "build".to_string());
    assert!(b.build().is_ok());
    assert!(!b.is_set(EXECUTABLE));
    assert!(!b.is_set(ARGS));
    assert!(!b.is_set(CURRENT_DIR));
}

#[test]
fn second_build_checks_required_fields_anew() {
    let r = command();
    let mut b = r.builder::<String>();
    b.set(EXECUTABLE, "cargo".to_string());
    assert!(b.build().is_ok());
    b.set(ARGS, "build".to_string());
    assert_eq!(b.build(), Err("The field `executable` was not setted.".to_string()));
}

#[test]
fn second_build_succeeds_when_required_fields_are_set_again() {
    let r = command();
    let mut b = r.builder::<String>();
    b.set(EXECUTABLE, "cargo".to_string()).set(CURRENT_DIR, "..".to_string());
    assert_eq!(b.build(), Ok(vec![Some("cargo".to_string()), None, Some("..".to_string())]));
    b.set(EXECUTABLE, "rustc".to_string());
    assert_eq!(b.build(), Ok(vec![Some("rustc".to_string()), None, None]));
}

#[test]
fn failed_build_empties_the_slots_before_the_missing_field_only() {
    let r = record(
        "T",
        vec![
            ("a", named("u8")),
            ("b", apply("Option", named("u8"))),
            ("c", named("u8")),
            ("d", named("u8")),
            ("e", apply("Option", named("u8"))),
        ],
    );
    let mut b = r.builder::<u8>();
    b.set(0, 10).set(1, 11).set(3, 13).set(4, 14);
    assert_eq!(b.build(), Err("The field `c` was not setted.".to_string()));
    assert!(!b.is_set(0));
    assert!(!b.is_set(1));
    assert!(!b.is_set(2));
    assert!(b.is_set(3));
    assert!(b.is_set(4));
    assert_eq!(b.build(), Err("The field `a` was not setted.".to_string()));
    b.set(0, 20).set(2, 22);
    assert_eq!(b.build(), Ok(vec![Some(20), None, Some(22), Some(13), Some(14)]));
}

#[test]
fn record_without_required_fields_builds_at_once() {
    let r = record(
        "T",
        vec![("a", apply("Option", named("u8"))), ("b", apply("Option", named("u8")))],
    );
    let mut b = r.builder::<u8>();
    assert_eq!(b.build(), Ok(vec![None, None]));
    b.set(1, 7);
    assert_eq!(b.build(), Ok(vec![None, Some(7)]));
    assert_eq!(b.build(), Ok(vec![None, None]));
}

#[test]
fn record_without_fields_builds_an_empty_record() {
    let r = record("Empty", vec![]);
    let mut b = r.builder::<u8>();
    assert_eq!(b.len(), 0);
    assert_eq!(b.build(), Ok(vec![]));
}

#[test]
fn every_required_setter_called_in_any_order_builds() {
    let r = record(
        "T",
        vec![
            ("a", named("u8")),
            ("b", apply("Option", named("u8"))),
            ("c", named("u8")),
            ("d", apply("Option", named("u8"))),
        ],
    );
    let orders: Vec<Vec<usize>> = vec![vec![0, 2], vec![2, 0], vec![2, 3, 0], vec![1, 0, 3, 2]];
    for order in orders {
        let mut b = r.builder::<usize>();
        for &i in order.iter() {
            b.set(i, 100 + i);
        }
        let mut expected: Vec<Option<usize>> = vec![None; 4];
        for &i in order.iter() {
            expected[i] = Some(100 + i);
        }
        assert_eq!(b.build(), Ok(expected));
    }
}

#[test]
fn optional_wrapper_by_a_longer_path_is_required_at_build() {
    let qualified = TypeSyntax::Path {
        leading_colon: false,
        segments: vec![
            PathSegment { ident: "std".to_string(), arguments: PathArguments::Absent },
            PathSegment { ident: "option".to_string(), arguments: PathArguments::Absent },
            PathSegment {
                ident: "Option".to_string(),
                arguments: PathArguments::AngleBracketed {
                    args: vec![GenericArgument::Type { ty: named("u8") }],
                },
            },
        ],
    };
    let r = record("T", vec![("x", qualified)]);
    let mut b = r.builder::<u8>();
    assert_eq!(b.build(), Err("The field `x` was not setted.".to_string()));
}
