use tinyssh::connection::client_kexinit;
use tinyssh::error::Error;
use tinyssh::messages::Kexinit;
use tinyssh::namelist::{list_has, text_list_has};

#[test]
fn a_name_is_found_as_a_whole_item() {
    assert!(list_has(b"a,b,c", b"a"));
    assert!(list_has(b"a,b,c", b"b"));
    assert!(list_has(b"a,b,c", b"c"));
    assert!(list_has(b"aes256-ctr", b"aes256-ctr"));
    assert!(list_has(b"aes128-ctr,aes256-ctr", b"aes256-ctr"));
    assert!(!list_has(b"a,b,c", b"d"));
    assert!(!list_has(b"aes256-ctr2,xaes256-ctr", b"aes256-ctr"));
    assert!(!list_has(b"aes256", b"aes256-ctr"));
    assert!(!list_has(b"aes256-ctr", b"aes256"));
    assert!(!list_has(b"aes256-ctr", b"ctr"));
    assert!(!list_has(b"ab", b"b"));
    assert!(!list_has(b"ab,cd", b"b,c"));
}

#[test]
fn empty_items_and_commas() {
    assert!(list_has(b"", b""));
    assert!(list_has(b"a,,b", b""));
    assert!(list_has(b"a,", b""));
    assert!(list_has(b",a", b""));
    assert!(!list_has(b"a", b""));
    assert!(!list_has(b"a,b", b""));
    // a name with a comma in it is no item
    assert!(!list_has(b"a,b", b"a,b"));
    assert!(!list_has(b",", b","));
    assert!(text_list_has("curve25519-sha256,ecdh-sha2-nistp256", "curve25519-sha256"));
    assert!(!text_list_has("ecdh-sha2-nistp256", "curve25519-sha256"));
}

fn server() -> Kexinit {
    Kexinit {
        cookie: [3; 16],
        kex_algorithms: "sntrup761x25519-sha512,curve25519-sha256,kex-strict-s-v00@openssh.com".to_string(),
        server_host_key_algorithms: "rsa-sha2-512,ssh-ed25519".to_string(),
        encryption_algorithms_client_to_server: "chacha20-poly1305@openssh.com,aes256-ctr".to_string(),
        encryption_algorithms_server_to_client: "aes128-ctr,aes256-ctr,aes256-gcm@openssh.com".to_string(),
        mac_algorithms_client_to_server: "hmac-sha2-256".to_string(),
        mac_algorithms_server_to_client: "umac-64@openssh.com,hmac-sha2-256".to_string(),
        compression_algorithms_client_to_server: "none,zlib@openssh.com".to_string(),
        compression_algorithms_server_to_client: "none".to_string(),
        languages_client_to_server: String::new(),
        languages_server_to_client: "anything".to_string(),
        first_kex_packet_follows: false,
        nop: 0,
    }
}

#[test]
fn a_server_with_the_suite_is_compatible() {
    assert_eq!(server().check_compat(&client_kexinit()), Ok(()));
    assert_eq!(client_kexinit().check_compat(&client_kexinit()), Ok(()));
}

#[test]
fn each_algorithm_list_is_checked() {
    let mut s = server();
    s.kex_algorithms = "diffie-hellman-group14-sha256".to_string();
    assert_eq!(s.check_compat(&client_kexinit()), Err(Error::NoAlgorithmOverlap));
    let mut s = server();
    s.server_host_key_algorithms = "rsa-sha2-512".to_string();
    assert_eq!(s.check_compat(&client_kexinit()), Err(Error::NoAlgorithmOverlap));
    let mut s = server();
    s.encryption_algorithms_client_to_server = "aes128-ctr".to_string();
    assert_eq!(s.check_compat(&client_kexinit()), Err(Error::NoAlgorithmOverlap));
    let mut s = server();
    s.encryption_algorithms_server_to_client = String::new();
    assert_eq!(s.check_compat(&client_kexinit()), Err(Error::NoAlgorithmOverlap));
    let mut s = server();
    s.mac_algorithms_client_to_server = "hmac-sha2-256-etm@openssh.com".to_string();
    assert_eq!(s.check_compat(&client_kexinit()), Err(Error::NoAlgorithmOverlap));
    let mut s = server();
    s.mac_algorithms_server_to_client = "hmac-sha1".to_string();
    assert_eq!(s.check_compat(&client_kexinit()), Err(Error::NoAlgorithmOverlap));
    let mut s = server();
    s.compression_algorithms_client_to_server = "zlib".to_string();
    assert_eq!(s.check_compat(&client_kexinit()), Err(Error::NoAlgorithmOverlap));
    let mut s = server();
    s.compression_algorithms_server_to_client = "zlib".to_string();
    assert_eq!(s.check_compat(&client_kexinit()), Err(Error::NoAlgorithmOverlap));
}

#[test]
fn the_client_offers_exactly_the_suite() {
    let k = client_kexinit();
    assert_eq!(k.cookie, [0; 16]);
    assert_eq!(k.kex_algorithms, "curve25519-sha256");
    assert_eq!(k.server_host_key_algorithms, "ssh-ed25519");
    assert_eq!(k.encryption_algorithms_client_to_server, "aes256-ctr");
    assert_eq!(k.encryption_algorithms_server_to_client, "aes256-ctr");
    assert_eq!(k.mac_algorithms_client_to_server, "hmac-sha2-256");
    assert_eq!(k.mac_algorithms_server_to_client, "hmac-sha2-256");
    assert_eq!(k.compression_algorithms_client_to_server, "none");
    assert_eq!(k.compression_algorithms_server_to_client, "none");
    assert_eq!(k.languages_client_to_server, "");
    assert_eq!(k.languages_server_to_client, "");
    assert!(!k.first_kex_packet_follows);
    assert_eq!(k.nop, 0);
}
