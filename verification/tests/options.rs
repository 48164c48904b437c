use netbird_embed::{c_string, cstr_from_buf, make_cstring, ClientOptions, Error};

#[test]
fn cstring_of_text() {
    let c = make_cstring(Some("https://api.netbird.io")).unwrap().unwrap();
    assert_eq!(c.as_bytes_with_nul(), b"https://api.netbird.io\0");
}

#[test]
fn cstring_of_nothing() {
    assert!(matches!(make_cstring(None), Ok(None)));
}

#[test]
fn cstring_of_empty_text() {
    let c = make_cstring(Some("")).unwrap().unwrap();
    assert_eq!(c.into_bytes_with_nul(), vec![0u8]);
}

#[test]
fn cstring_rejects_interior_nul() {
    assert!(matches!(make_cstring(Some("a\0b")), Err(Error::InteriorNul)));
    assert!(matches!(make_cstring(Some("\0")), Err(Error::InteriorNul)));
}

#[test]
fn cstring_error_is_callers_choice() {
    assert!(matches!(c_string("10.0.0.1:80\0", Error::Dial), Err(Error::Dial)));
    assert!(matches!(c_string(":9000", Error::ListenUdp), Ok(_)));
}

#[test]
fn cstring_reads_back() {
    let c = make_cstring(Some("hé ✓ peer")).unwrap().unwrap();
    let mut buf = c.into_bytes_with_nul();
    buf.extend_from_slice(b"garbage\0");
    assert_eq!(cstr_from_buf(&buf), "hé ✓ peer");
}

#[test]
fn default_options() {
    let o = ClientOptions::default();
    assert!(o.setup_key.is_none() && o.management_url.is_none() && o.device_name.is_none());
    assert!(o.token.is_none() && o.private_key.is_none() && o.pre_shared_key.is_none());
    assert!(o.log_level.is_none() && o.config_path.is_none() && o.state_path.is_none());
    assert!(o.wireguard_port.is_none());
    assert!(!o.disable_client_routes && !o.block_inbound && !o.no_userspace);
}

#[test]
fn create_args_defaults() {
    let a = ClientOptions::default().create_args().unwrap();
    assert_eq!(a.wireguard_port, -1);
    assert_eq!((a.disable_client_routes, a.block_inbound, a.no_userspace), (0, 0, 0));
    assert!(a.setup_key.is_none() && a.state_path.is_none());
}

#[test]
fn create_args_carry_options() {
    let mut o = ClientOptions::default();
    o.setup_key = Some("KEY-1".to_string());
    o.device_name = Some("my-app".to_string());
    o.wireguard_port = Some(0);
    o.block_inbound = true;
    o.no_userspace = true;
    let a = o.create_args().unwrap();
    assert_eq!(a.setup_key.unwrap().as_bytes_with_nul(), b"KEY-1\0");
    assert_eq!(a.device_name.unwrap().as_bytes_with_nul(), b"my-app\0");
    assert!(a.management_url.is_none());
    assert_eq!(a.wireguard_port, 0);
    assert_eq!((a.disable_client_routes, a.block_inbound, a.no_userspace), (0, 1, 1));
}

#[test]
fn create_args_reject_nul_in_any_text() {
    let mut o = ClientOptions::default();
    o.state_path = Some("/var/lib/\0nb".to_string());
    assert!(matches!(o.create_args(), Err(Error::InteriorNul)));
    let mut o = ClientOptions::default();
    o.log_level = Some("debug\0".to_string());
    o.wireguard_port = Some(51820);
    assert!(matches!(o.create_args(), Err(Error::InteriorNul)));
}
