use electrsd::args::{build_args, listen_url, Credential, Ports};
use electrsd::exe::{choose_exe, EXE_NAME};
use electrsd::text::push_decimal;
use electrsd::versions::version;
use electrsd::{
    downloaded_exe_path, electrs_name, exe_path, Compat, Conf, Environment, Error, Release,
    Upstream,
};

fn env(exec: Option<&str>, exe: Option<&str>) -> Environment {
    Environment {
        electrs_exec: exec.map(|s| s.to_string()),
        electrs_exe: exe.map(|s| s.to_string()),
        skip_download: false,
        tempdir_root: None,
    }
}

fn none() -> Compat {
    Compat { release: None, legacy: false }
}

#[test]
fn test_both_env_vars() {
    let env = env(Some("placeholder"), Some("placeholder"));
    assert!(exe_path(none(), &env, "/out").is_err());
    assert_eq!(exe_path(none(), &env, "/out"), Err(Error::BothEnvVars));
}

#[test]
fn exe_path_prefers_the_environment() {
    let pinned = Compat { release: Some(Release::V0_5_1), legacy: false };
    assert_eq!(exe_path(pinned, &env(Some("/a/electrs"), None), "/out"), Ok("/a/electrs".to_string()));
    assert_eq!(exe_path(pinned, &env(None, Some("/b/electrs")), "/out"), Ok("/b/electrs".to_string()));
}

#[test]
fn exe_path_falls_back_to_the_download() {
    let pinned = Compat { release: Some(Release::V0_5_1), legacy: false };
    assert_eq!(
        exe_path(pinned, &env(None, None), "/out"),
        Ok("/out/electrs/esplora-tapyrus-v0.5.1-x86_64-unknown-linux-gnu/electrs".to_string())
    );
}

#[test]
fn exe_path_looks_on_the_search_path_last() {
    match exe_path(none(), &env(None, None), "/out") {
        Ok(path) => {
            // a path that was found, not the name that was asked for
            assert_ne!(path, EXE_NAME);
            assert!(path.ends_with("electrs"));
            assert!(path.len() > EXE_NAME.len());
        }
        Err(e) => assert_eq!(e, Error::NoElectrsExecutableFound),
    }
}

#[test]
fn choose_exe_follows_the_precedence() {
    let found = Some("/usr/bin/electrs".to_string());
    let down = Some("/out/electrs/x/electrs".to_string());
    assert_eq!(choose_exe(&env(Some("a"), Some("b")), down.clone(), found.clone()), Err(Error::BothEnvVars));
    assert_eq!(choose_exe(&env(Some("a"), None), down.clone(), found.clone()), Ok("a".to_string()));
    assert_eq!(choose_exe(&env(None, Some("b")), down.clone(), found.clone()), Ok("b".to_string()));
    assert_eq!(choose_exe(&env(None, None), down.clone(), found.clone()), down.clone().ok_or(Error::BothEnvVars));
    assert_eq!(choose_exe(&env(None, None), None, found.clone()), Ok("/usr/bin/electrs".to_string()));
    assert_eq!(choose_exe(&env(None, None), None, None), Err(Error::NoElectrsExecutableFound));
}

#[test]
fn downloaded_exe_path_needs_a_release_and_no_skip() {
    let pinned = Compat { release: Some(Release::V0_5_0), legacy: true };
    assert_eq!(
        downloaded_exe_path(pinned, &env(None, None), "/target/out"),
        Some("/target/out/electrs/esplora-tapyrus-v0.5.0-x86_64-unknown-linux-gnu/electrs".to_string())
    );
    let mut skip = env(None, None);
    skip.skip_download = true;
    assert_eq!(downloaded_exe_path(pinned, &skip, "/target/out"), None);
    assert_eq!(downloaded_exe_path(none(), &env(None, None), "/target/out"), None);
    let legacy = Compat { release: None, legacy: true };
    assert_eq!(downloaded_exe_path(legacy, &env(None, None), "/target/out"), None);
}

#[test]
fn electrs_name_carries_the_version() {
    assert_eq!(electrs_name(None), "esplora-tapyrus-NA-x86_64-unknown-linux-gnu");
    assert_eq!(electrs_name(Some(Release::V0_5_0)), "esplora-tapyrus-v0.5.0-x86_64-unknown-linux-gnu");
    assert_eq!(electrs_name(Some(Release::V0_5_1)), "esplora-tapyrus-v0.5.1-x86_64-unknown-linux-gnu");
    assert_eq!(version(None), "NA");
    assert_eq!(version(Some(Release::V0_5_0)), "v0.5.0");
    assert_eq!(version(Some(Release::V0_5_1)), "v0.5.1");
}

#[test]
fn compat_modes() {
    assert_eq!(Compat::default(), none());
    assert!(!none().import_mode());
    assert!(!none().has_release());
    let legacy = Compat { release: None, legacy: true };
    assert!(legacy.import_mode());
    assert!(!legacy.has_release());
    let pinned = Compat { release: Some(Release::V0_5_0), legacy: false };
    assert!(pinned.import_mode());
    assert!(pinned.has_release());
}

#[test]
fn listen_url_writes_the_port_in_decimal() {
    assert_eq!(listen_url(0), "0.0.0.0:0");
    assert_eq!(listen_url(9), "0.0.0.0:9");
    assert_eq!(listen_url(10), "0.0.0.0:10");
    assert_eq!(listen_url(50001), "0.0.0.0:50001");
    assert_eq!(listen_url(60401), "0.0.0.0:60401");
    assert_eq!(listen_url(65535), "0.0.0.0:65535");
    for port in [1u16, 99, 100, 1234, 10000, 32768] {
        assert_eq!(listen_url(port), format!("0.0.0.0:{}", port));
    }
}

#[test]
fn push_decimal_appends() {
    let mut s = "port ".to_string();
    push_decimal(&mut s, 8080);
    push_decimal(&mut s, 0);
    assert_eq!(s, "port 80800");
}

#[test]
fn build_args_orders_the_flags() {
    let mut conf = Conf::default();
    conf.args = vec!["-v"];
    conf.network = "prod";
    let upstream = Upstream {
        cookie_file: "/c".to_string(),
        rpc_socket: "127.0.0.1:1".to_string(),
        p2p_socket: Some("127.0.0.1:2".to_string()),
    };
    let args = build_args(
        &conf,
        &upstream,
        "/db",
        &Credential::CookieFile("/c".to_string()),
        Ports { electrum: 3, monitoring: 4, http: Some(5) },
    );
    let expected: Vec<String> = [
        "-v",
        "--db-dir",
        "/db",
        "--network",
        "prod",
        "--cookie-file",
        "/c",
        "--daemon-rpc-addr",
        "127.0.0.1:1",
        "--daemon-p2p-addr",
        "127.0.0.1:2",
        "--electrum-rpc-addr",
        "0.0.0.0:3",
        "--monitoring-addr",
        "0.0.0.0:4",
        "--http-addr",
        "0.0.0.0:5",
    ]
    .iter()
    .map(|s| s.to_string())
    .collect();
    assert_eq!(args, expected);

    conf.compat = Compat { release: None, legacy: true };
    let args = build_args(
        &conf,
        &upstream,
        "/db",
        &Credential::Cookie("user:pass".to_string()),
        Ports { electrum: 3, monitoring: 4, http: None },
    );
    let expected: Vec<String> = [
        "-v",
        "--db-dir",
        "/db",
        "--network",
        "prod",
        "--cookie",
        "user:pass",
        "--daemon-rpc-addr",
        "127.0.0.1:1",
        "--jsonrpc-import",
        "--electrum-rpc-addr",
        "0.0.0.0:3",
        "--monitoring-addr",
        "0.0.0.0:4",
    ]
    .iter()
    .map(|s| s.to_string())
    .collect();
    assert_eq!(args, expected);
}
