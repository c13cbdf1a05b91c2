use camera_relay::error::RelayError;
use camera_relay::monitor::{Monitor, Snapshot};
use camera_relay::shinobi::{
    status_is_success, ListReply, Setting, ShinobiApi, SnapshotReply, REQUEST_TIMEOUT_SECS,
};

fn api() -> ShinobiApi {
    ShinobiApi::new(
        "http://shinobi.local:8080".to_string(),
        "t0k3n".to_string(),
        "group1".to_string(),
    )
}

fn monitor(id: &str) -> Monitor {
    Monitor::new(id.to_string())
}

#[test]
fn request_url_joins_address_and_token() {
    assert_eq!(api().get_request_url(), "http://shinobi.local:8080/t0k3n");
}

#[test]
fn request_url_of_empty_parts_is_a_slash() {
    let api = ShinobiApi::new(String::new(), String::new(), String::new());
    assert_eq!(api.get_request_url(), "/");
}

#[test]
fn monitors_url_names_the_group() {
    assert_eq!(
        api().monitors_url(),
        "http://shinobi.local:8080/t0k3n/smonitor/group1"
    );
}

#[test]
fn photo_url_names_group_and_monitor() {
    assert_eq!(
        api().photo_url(&monitor("cam1")),
        "http://shinobi.local:8080/t0k3n/jpeg/group1/cam1/s.jpg"
    );
}

#[test]
fn photo_url_keeps_non_ascii_identifiers() {
    assert_eq!(
        api().photo_url(&monitor("caméra 2")),
        "http://shinobi.local:8080/t0k3n/jpeg/group1/caméra 2/s.jpg"
    );
}

#[test]
fn new_keeps_each_setting_in_its_field() {
    let api = api();
    assert_eq!(api.url, "http://shinobi.local:8080");
    assert_eq!(api.token, "t0k3n");
    assert_eq!(api.group_key, "group1");
}

#[test]
fn from_settings_takes_complete_settings() {
    let built = ShinobiApi::from_settings(
        Some("group1".to_string()),
        Some("http://shinobi.local:8080".to_string()),
        Some("t0k3n".to_string()),
    );
    assert_eq!(built, Ok(api()));
}

#[test]
fn from_settings_names_the_missing_group_key_first() {
    assert_eq!(
        ShinobiApi::from_settings(None, None, None),
        Err(Setting::GroupKey)
    );
    assert_eq!(
        ShinobiApi::from_settings(None, Some("u".to_string()), Some("t".to_string())),
        Err(Setting::GroupKey)
    );
}

#[test]
fn from_settings_names_the_missing_address() {
    assert_eq!(
        ShinobiApi::from_settings(Some("g".to_string()), None, None),
        Err(Setting::ShinobiUrl)
    );
}

#[test]
fn from_settings_names_the_missing_token() {
    assert_eq!(
        ShinobiApi::from_settings(Some("g".to_string()), Some("u".to_string()), None),
        Err(Setting::ShinobiToken)
    );
}

#[test]
fn settings_are_named_after_their_variables() {
    assert_eq!(Setting::GroupKey.name(), "GROUP_KEY");
    assert_eq!(Setting::ShinobiUrl.name(), "SHINOBI_URL");
    assert_eq!(Setting::ShinobiToken.name(), "SHINOBI_TOKEN");
}

#[test]
fn request_timeout_is_a_few_seconds() {
    assert_eq!(REQUEST_TIMEOUT_SECS, 5);
}

#[test]
fn only_2xx_codes_are_successes() {
    assert!(!status_is_success(0));
    assert!(!status_is_success(199));
    assert!(status_is_success(200));
    assert!(status_is_success(204));
    assert!(status_is_success(299));
    assert!(!status_is_success(300));
    assert!(!status_is_success(404));
    assert!(!status_is_success(500));
    assert!(!status_is_success(u16::MAX));
}

#[test]
fn unreachable_list_is_upstream_unavailable() {
    assert_eq!(
        ListReply::Unreachable.monitors(),
        Err(RelayError::UpstreamUnavailable)
    );
}

#[test]
fn non_2xx_list_is_a_protocol_error() {
    let reply = ListReply::Answered {
        status: 500,
        monitors: Some(vec![monitor("cam1")]),
    };
    assert_eq!(reply.monitors(), Err(RelayError::UpstreamProtocolError));
    let reply = ListReply::Answered {
        status: 404,
        monitors: None,
    };
    assert_eq!(reply.monitors(), Err(RelayError::UpstreamProtocolError));
}

#[test]
fn malformed_list_is_a_protocol_error() {
    let reply = ListReply::Answered {
        status: 200,
        monitors: None,
    };
    assert_eq!(reply.monitors(), Err(RelayError::UpstreamProtocolError));
}

#[test]
fn listed_monitors_keep_the_servers_order() {
    let reply = ListReply::Answered {
        status: 200,
        monitors: Some(vec![monitor("cam2"), monitor("cam1"), monitor("cam3")]),
    };
    assert_eq!(
        reply.monitors(),
        Ok(vec![monitor("cam2"), monitor("cam1"), monitor("cam3")])
    );
}

#[test]
fn empty_list_is_a_list() {
    let reply = ListReply::Answered {
        status: 200,
        monitors: Some(Vec::new()),
    };
    assert_eq!(reply.monitors(), Ok(Vec::new()));
}

#[test]
fn unreachable_snapshot_is_upstream_unavailable() {
    assert_eq!(
        monitor("cam1").get_photo(SnapshotReply::Unreachable),
        Err(RelayError::UpstreamUnavailable)
    );
}

#[test]
fn non_2xx_snapshot_is_snapshot_unavailable() {
    let reply = SnapshotReply::Answered {
        status: 500,
        body: vec![1, 2, 3],
    };
    assert_eq!(
        monitor("cam1").get_photo(reply),
        Err(RelayError::SnapshotUnavailable)
    );
    let reply = SnapshotReply::Answered {
        status: 301,
        body: Vec::new(),
    };
    assert_eq!(
        monitor("cam1").get_photo(reply),
        Err(RelayError::SnapshotUnavailable)
    );
}

#[test]
fn snapshot_carries_the_monitor_and_the_body() {
    let reply = SnapshotReply::Answered {
        status: 200,
        body: vec![0xff, 0xd8, 0xff, 0xd9],
    };
    let picture = monitor("cam1").get_photo(reply).unwrap();
    assert_eq!(
        picture,
        Snapshot::new("cam1".to_string(), vec![0xff, 0xd8, 0xff, 0xd9])
    );
    assert_eq!(picture.len(), 4);
}

#[test]
fn empty_body_is_still_a_snapshot() {
    let reply = SnapshotReply::Answered {
        status: 204,
        body: Vec::new(),
    };
    let picture = monitor("cam1").get_photo(reply).unwrap();
    assert_eq!(picture.monitor_id, "cam1");
    assert_eq!(picture.len(), 0);
}

#[test]
fn clones_are_equal_to_what_was_cloned() {
    let m = monitor("cam1");
    assert_eq!(m.clone(), m);
    let s = Snapshot::new("cam1".to_string(), vec![9, 8, 7]);
    assert_eq!(s.clone(), s);
}

#[test]
fn errors_describe_themselves() {
    assert_eq!(
        RelayError::UpstreamUnavailable.describe(),
        "surveillance server unavailable"
    );
    assert_eq!(
        RelayError::UpstreamProtocolError.describe(),
        "unexpected answer from the surveillance server"
    );
    assert_eq!(
        RelayError::SnapshotUnavailable.describe(),
        "camera snapshot unavailable"
    );
    assert_eq!(
        RelayError::ChatDeliveryError.describe(),
        "delivery to the chat failed"
    );
    assert_eq!(RelayError::NothingToSend.describe(), "no snapshot to send");
}
