use async_rust_tui::sncf::{call_me, call_me_twice, Call};

#[test]
fn call_me_ok_returns_ok() {
    let result = call_me(Call::Okay);

    assert!(result.is_ok());
}

#[test]
fn call_me_ko_returns_api_error() {
    let result = call_me(Call::Ko);

    let err = match result {
        Ok(()) => panic!("expected error for Call::Ko"),
        Err(e) => e,
    };
    assert_eq!(err.to_string(), "API error: This call fails");
}

#[test]
fn call_me_twice_follows_the_call() {
    assert!(call_me_twice(Call::Okay).is_ok());
    match call_me_twice(Call::Ko) {
        Ok(()) => panic!("expected error for Call::Ko"),
        Err(e) => assert_eq!(e.to_string(), "API error: This call fails"),
    }
}
