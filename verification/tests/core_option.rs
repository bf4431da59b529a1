use shoulds::Shouldable;

#[test]
fn be_some_success_should_not_panic() {
    let value: Option<i32> = Some(42);
    value.should().be_some();
}

#[test]
#[should_panic(expected = "Expected Option to be Some, but got None")]
fn be_some_fail_should_panic() {
    let value: Option<i32> = None;
    value.should().be_some();
}

#[test]
fn be_none_success_should_not_panic() {
    let value: Option<i32> = None;
    value.should().be_none();
}

#[test]
#[should_panic(expected = "Expected Option to be None, but got Some")]
fn be_none_fail_should_panic() {
    let value: Option<i32> = Some(42);
    value.should().be_none();
}
