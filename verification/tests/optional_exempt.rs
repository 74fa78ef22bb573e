use fast_struct::optional::optional_impl;

// What the optional transform emits for
// `struct Foo { #[optional(except)] bar: bool, baz: usize }`, compiled.
#[derive(Debug, PartialEq)]
struct Foo {
    bar: bool,
    baz: Option<usize>,
}

#[test]
fn exempt_field_keeps_its_type() {
    assert_eq!(
        optional_impl("", "#[optional] struct Foo { #[optional(except)] bar: bool, baz: usize }"),
        Ok("struct Foo {\n    bar: bool,\n    baz: Option<usize>\n}\n".to_string())
    );

    let foo = Foo {
        bar: true,
        baz: Some(1984),
    };
    assert_eq!(true, foo.bar);
    assert_eq!(Some(1984), foo.baz);
    assert_eq!(
        foo,
        Foo {
            bar: true,
            baz: Some(1984)
        }
    );
}

#[test]
fn exempt_field_takes_a_value_and_the_other_the_empty_one() {
    let foo = Foo {
        bar: false,
        baz: None,
    };
    assert_eq!(false, foo.bar);
    assert_eq!(None, foo.baz);
}
