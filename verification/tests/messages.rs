use appbiotic_code::{Request, Response};

#[test]
fn request_carries_its_message() {
    let request = Request::new(vec![1u8, 2, 3]);
    assert_eq!(request.message, vec![1u8, 2, 3]);
    let copy = request.clone();
    assert_eq!(copy.message, request.message);
}

#[test]
fn response_carries_its_message() {
    let response = Response { message: "done".to_string() };
    assert_eq!(response.clone().message, "done");
}

#[test]
fn lib_it_works() {
    assert!(true);
}
