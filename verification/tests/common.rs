use epub_builder::common::{escape_quote, indent};

#[test]
fn test_escape() {
    let foo = "Some string with \"quote\"";
    assert_eq!(&escape_quote(foo), "Some string with &quot;quote&quot;");

    let bar = "Some string without quote";
    assert_eq!(&escape_quote(bar), bar);
}

#[test]
fn test_indent() {
    let foo = "Some string with only one line";
    assert_eq!(indent(foo, 3), "      Some string with only one line");

    let bar = "1. A
  1.1. B
  1.2. C

2. D

3. E

4. F
  4.1 G
    4.1.1 H
  4.2 I";
    assert_eq!(
        indent(bar, 1),
        "  1. A
    1.1. B
    1.2. C

  2. D

  3. E

  4. F
    4.1 G
      4.1.1 H
    4.2 I"
    );
}
