use hvac_limpet::secrets::Secrets;

#[test]
fn secrets_keep_their_fields() {
    let s = Secrets::new(
        String::from("panel-net"),
        String::from("SECRET-REDACTED"),
        String::from("https://couchdb0.local:5984/"),
    );
    assert_eq!(s.wifi_ssid, "panel-net");
    assert_eq!(s.wifi_password, "SECRET-REDACTED");
    assert_eq!(s.couchdb_url, "https://couchdb0.local:5984/");
}
