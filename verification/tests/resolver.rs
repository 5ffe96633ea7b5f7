use sessiond::x11_client::{
    ClientError, ClientErrorType, GatherInfoError, GatherInfoErrorType, WindowReplies,
    X11WindowInformation, LOCAL_CLIENT_PID_MASK,
};

fn replies() -> WindowReplies {
    WindowReplies {
        window_name: Some("editor".to_string()),
        desktop_number: Some(1),
        desktop_names: vec!["main".to_string(), "work".to_string()],
        client_ids: vec![vec![4242, 7], vec![1]],
    }
}

#[test]
fn errors_keep_their_kind() {
    assert_eq!(ClientError::new(ClientErrorType::Connection).err_type, ClientErrorType::Connection);
    assert_eq!(
        GatherInfoError::new(GatherInfoErrorType::WindowDesktopNumber).err,
        GatherInfoErrorType::WindowDesktopNumber
    );
    assert_eq!(
        GatherInfoError::new(GatherInfoErrorType::DesktopName).err,
        GatherInfoErrorType::DesktopName
    );
    assert_eq!(GatherInfoError::new(GatherInfoErrorType::ProcessId).err, GatherInfoErrorType::ProcessId);
}

#[test]
fn the_local_client_mask_is_the_second_bit() {
    assert_eq!(LOCAL_CLIENT_PID_MASK, 2);
}

#[test]
fn metadata_keeps_its_fields() {
    let info = X11WindowInformation::new(9, 10, "n".to_string(), 2, "d".to_string(), 77);
    assert_eq!(info.x11_window, 9);
    assert_eq!(info.x11_resource_id, 10);
    assert_eq!(info.x11_window_name, "n");
    assert_eq!(info.x11_desktop_number, 2);
    assert_eq!(info.x11_desktop_name, "d");
    assert_eq!(info.process_id, 77);
}

#[test]
fn complete_answers_give_the_metadata() {
    let info = replies().get_window_information(0x60_0001).expect("nothing is missing");
    assert_eq!(info.x11_window, 0x60_0001);
    assert_eq!(info.x11_resource_id, 0x60_0001);
    assert_eq!(info.x11_window_name, "editor");
    assert_eq!(info.x11_desktop_number, 1);
    assert_eq!(info.x11_desktop_name, "work");
    assert_eq!(info.process_id, 4242);
}

#[test]
fn a_window_without_a_name_has_the_empty_name() {
    let mut r = replies();
    r.window_name = None;
    assert_eq!(r.get_window_name(), "");
    assert_eq!(r.get_window_information(1).expect("the name is optional").x11_window_name, "");
    assert_eq!(replies().get_window_name(), "editor");
}

#[test]
fn a_failed_desktop_exchange_is_reported_as_such() {
    let mut r = replies();
    r.desktop_number = None;
    assert_eq!(
        r.get_desktop_number_of_window().expect_err("the exchange failed").err,
        GatherInfoErrorType::WindowDesktopNumber
    );
    assert_eq!(
        r.get_window_information(1).err().expect("the exchange failed").err,
        GatherInfoErrorType::WindowDesktopNumber
    );
    assert_eq!(replies().get_desktop_number_of_window().expect("the exchange succeeded"), 1);
}

#[test]
fn the_desktop_number_is_looked_at_first() {
    let r = WindowReplies {
        window_name: None,
        desktop_number: None,
        desktop_names: vec![],
        client_ids: vec![],
    };
    assert_eq!(
        r.get_window_information(1).err().expect("everything is missing").err,
        GatherInfoErrorType::WindowDesktopNumber
    );
    let r = WindowReplies {
        window_name: None,
        desktop_number: Some(0),
        desktop_names: vec![],
        client_ids: vec![],
    };
    assert_eq!(
        r.get_window_information(1).err().expect("name and owner are missing").err,
        GatherInfoErrorType::DesktopName
    );
}

#[test]
fn a_desktop_without_a_name_is_reported_as_such() {
    let mut r = replies();
    r.desktop_number = Some(2);
    assert_eq!(
        r.get_window_information(1).err().expect("there are two names").err,
        GatherInfoErrorType::DesktopName
    );
    assert_eq!(
        r.get_desktop_name_of_window(2).expect_err("there are two names").err,
        GatherInfoErrorType::DesktopName
    );
    assert_eq!(
        r.get_desktop_name_of_window(u32::MAX).expect_err("there are two names").err,
        GatherInfoErrorType::DesktopName
    );
    assert_eq!(r.get_desktop_name_of_window(0).expect("there are two names"), "main");
    assert_eq!(r.get_desktop_name_of_window(1).expect("there are two names"), "work");
}

#[test]
fn the_owner_is_the_first_value_of_the_first_identifier() {
    assert_eq!(replies().get_process_id_of_local_client().expect("an owner is named"), 4242);
    let mut r = replies();
    r.client_ids = vec![vec![5]];
    assert_eq!(r.get_process_id_of_local_client().expect("an owner is named"), 5);
}

#[test]
fn a_window_without_an_owner_is_reported_as_such() {
    let mut r = replies();
    r.client_ids = vec![];
    assert_eq!(
        r.get_process_id_of_local_client().expect_err("no identifier").err,
        GatherInfoErrorType::ProcessId
    );
    assert_eq!(
        r.get_window_information(1).err().expect("no identifier").err,
        GatherInfoErrorType::ProcessId
    );
    r.client_ids = vec![vec![], vec![9]];
    assert_eq!(
        r.get_process_id_of_local_client().expect_err("no value").err,
        GatherInfoErrorType::ProcessId
    );
}
