use brepview::build_support::Build;

#[test]
fn directives_carry_the_message() {
    let b = Build::new();
    assert_eq!(b.warn("shader missing"), "cargo::warning=shader missing");
    assert_eq!(b.error("no backend"), "cargo::error=no backend");
    assert_eq!(b.warn(""), "cargo::warning=");
}
