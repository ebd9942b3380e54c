use config_manager::api::{
    check_status, clone_containers, clone_names, decimal_text, decode_error, digit_char,
    encode_error, transport_error, ApiError, ContainerInfo, Request, WriteConfigRequest,
};

fn requests() -> [Request; 4] {
    [
        Request::FetchFileList,
        Request::FetchContainerList,
        Request::FetchFileContent { filename: "app.toml".to_string() },
        Request::SaveFile { filename: "app.toml".to_string(), content: "a=1".to_string() },
    ]
}

#[test]
fn request_urls() {
    let urls: Vec<String> = requests().iter().map(|request| request.url()).collect();
    assert_eq!(
        urls,
        vec!["/api/configs", "/api/containers", "/api/configs/app.toml", "/api/configs/app.toml"]
    );
    assert_eq!(Request::FetchFileContent { filename: String::new() }.url(), "/api/configs/");
}

#[test]
fn only_save_requests_have_a_body() {
    let bodies: Vec<Option<WriteConfigRequest>> =
        requests().iter().map(|request| request.body()).collect();
    assert_eq!(
        bodies,
        vec![None, None, None, Some(WriteConfigRequest { content: "a=1".to_string() })]
    );
}

#[test]
fn transport_errors_name_the_request() {
    let messages: Vec<String> =
        requests().iter().map(|request| transport_error(request, "offline").message).collect();
    assert_eq!(
        messages,
        vec![
            "Failed to fetch file list: offline",
            "Failed to fetch containers: offline",
            "Failed to fetch file: offline",
            "Failed to save file: offline",
        ]
    );
}

#[test]
fn status_codes_from_200_to_299_pass() {
    for status in [200u16, 201, 204, 250, 299] {
        assert_eq!(check_status(status), Ok(()));
    }
}

#[test]
fn other_status_codes_are_errors_that_name_the_code() {
    let cases = [
        (0u16, "Server returned error: 0"),
        (100, "Server returned error: 100"),
        (199, "Server returned error: 199"),
        (300, "Server returned error: 300"),
        (400, "Server returned error: 400"),
        (404, "Server returned error: 404"),
        (500, "Server returned error: 500"),
        (65535, "Server returned error: 65535"),
    ];
    for (status, message) in cases {
        assert_eq!(check_status(status), Err(ApiError { message: message.to_string() }));
    }
}

#[test]
fn status_check_agrees_with_range_for_every_code() {
    for status in 0..=u16::MAX {
        assert_eq!(check_status(status).is_ok(), (200..=299).contains(&status));
    }
}

#[test]
fn decode_and_encode_errors() {
    assert_eq!(
        decode_error("expected value at line 1").message,
        "Failed to parse JSON: expected value at line 1"
    );
    assert_eq!(encode_error("bad").message, "Failed to serialize JSON: bad");
    assert_eq!(decode_error("").message, "Failed to parse JSON: ");
}

#[test]
fn decimal_text_agrees_with_std_for_every_number() {
    for n in 0..=u16::MAX {
        assert_eq!(decimal_text(n), n.to_string());
    }
}

#[test]
fn digit_chars() {
    let digits: String = (0..10).map(digit_char).collect();
    assert_eq!(digits, "0123456789");
}

#[test]
fn clones_of_lists_are_equal() {
    let names = vec!["a.toml".to_string(), String::new(), "ü.conf".to_string()];
    assert_eq!(clone_names(&names), names);
    assert_eq!(clone_names(&Vec::new()), Vec::<String>::new());
    let containers = vec![
        ContainerInfo {
            id: "1".to_string(),
            name: "one".to_string(),
            state: "running".to_string(),
            status: "Up".to_string(),
        },
        ContainerInfo {
            id: "2".to_string(),
            name: "two".to_string(),
            state: "exited".to_string(),
            status: "Exited (1)".to_string(),
        },
    ];
    assert_eq!(clone_containers(&containers), containers);
}
